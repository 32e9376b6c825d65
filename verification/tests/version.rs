use undetected_chromedriver::DriverError;
use undetected_chromedriver::fetch_chromedriver::FetchProtocol;
use undetected_chromedriver::fetch_chromedriver::latest_release_url;
use undetected_chromedriver::fetch_chromedriver::legacy_archive_url;
use undetected_chromedriver::fetch_chromedriver::milestone_archive_url;
use undetected_chromedriver::fetch_chromedriver::milestone_manifest_url;
use undetected_chromedriver::fetch_chromedriver::select_protocol;
use undetected_chromedriver::get_chrome_version::parse_major_version;
use undetected_chromedriver::host::HostOs;

#[test]
fn major_version_is_the_leading_number() {
    assert_eq!(parse_major_version(b"113.0.5672.92"), Ok(113));
    assert_eq!(parse_major_version(b"115.0.5790.170"), Ok(115));
    assert_eq!(parse_major_version(b"114"), Ok(114));
    assert_eq!(parse_major_version(b"9.5"), Ok(9));
}

#[test]
fn version_detection_fails_without_a_leading_digit() {
    assert_eq!(
        parse_major_version(b""),
        Err(DriverError::VersionDetectionFailed)
    );
    assert_eq!(
        parse_major_version(b"Google Chrome"),
        Err(DriverError::VersionDetectionFailed)
    );
    assert_eq!(
        parse_major_version(b".113"),
        Err(DriverError::VersionDetectionFailed)
    );
}

#[test]
fn version_detection_fails_on_an_oversized_number() {
    assert_eq!(
        parse_major_version(b"99999999999.0"),
        Err(DriverError::VersionDetectionFailed)
    );
    // The largest value that still fits.
    assert_eq!(parse_major_version(b"4294967295.0"), Ok(u32::MAX));
    assert_eq!(
        parse_major_version(b"4294967296.0"),
        Err(DriverError::VersionDetectionFailed)
    );
}

#[test]
fn threshold_selects_the_protocol_generation() {
    // "113.0.5672.92" resolves to the legacy endpoint,
    // "115.0.5790.170" to the per-milestone endpoint.
    let old_major = parse_major_version(b"113.0.5672.92").unwrap();
    let new_major = parse_major_version(b"115.0.5790.170").unwrap();
    assert_eq!(select_protocol(old_major), FetchProtocol::Legacy);
    assert_eq!(select_protocol(new_major), FetchProtocol::PerMilestone);
    assert_eq!(select_protocol(114), FetchProtocol::PerMilestone);
    assert_eq!(select_protocol(113), FetchProtocol::Legacy);
}

#[test]
fn endpoint_addresses() {
    assert_eq!(
        milestone_manifest_url(),
        "https://googlechromelabs.github.io/chrome-for-testing/latest-versions-per-milestone.json"
    );
    assert_eq!(
        latest_release_url(113),
        "https://chromedriver.storage.googleapis.com/LATEST_RELEASE_113"
    );
}

#[test]
fn archive_addresses_per_os() {
    assert_eq!(
        milestone_archive_url("115.0.5790.170", HostOs::Linux),
        "https://storage.googleapis.com/chrome-for-testing-public/115.0.5790.170/linux64/chromedriver-linux64.zip"
    );
    assert_eq!(
        milestone_archive_url("115.0.5790.170", HostOs::MacOs),
        "https://storage.googleapis.com/chrome-for-testing-public/115.0.5790.170/mac-x64/chromedriver-mac-x64.zip"
    );
    assert_eq!(
        milestone_archive_url("115.0.5790.170", HostOs::Windows),
        "https://storage.googleapis.com/chrome-for-testing-public/115.0.5790.170/win64/chromedriver-win64.zip"
    );
    assert_eq!(
        legacy_archive_url("113.0.5672.63", HostOs::Linux),
        "https://chromedriver.storage.googleapis.com/113.0.5672.63/chromedriver_linux64.zip"
    );
    assert_eq!(
        legacy_archive_url("113.0.5672.63", HostOs::Windows),
        "https://chromedriver.storage.googleapis.com/113.0.5672.63/chromedriver_win32.zip"
    );
    assert_eq!(
        legacy_archive_url("113.0.5672.63", HostOs::MacOs),
        "https://chromedriver.storage.googleapis.com/113.0.5672.63/chromedriver_mac64.zip"
    );
}
