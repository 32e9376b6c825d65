use undetected_chromedriver::DriverError;
use undetected_chromedriver::text::str_eq;

#[test]
fn every_failure_kind_has_its_own_message() {
    let kinds = [
        DriverError::VersionDetectionFailed,
        DriverError::UnsupportedOs,
        DriverError::NoMatchingDriverVersion,
        DriverError::FetchTransport,
        DriverError::MalformedManifest,
        DriverError::MalformedArchive,
        DriverError::NoDriverEntryInArchive,
        DriverError::PatchSourceUnreadable,
        DriverError::PatchDestUnwritable,
        DriverError::SpawnFailed,
        DriverError::HandshakeExhausted,
    ];
    for (i, a) in kinds.iter().enumerate() {
        assert!(!a.message().is_empty());
        for (j, b) in kinds.iter().enumerate() {
            assert_eq!(i == j, a.message() == b.message());
        }
    }
    assert_eq!(
        DriverError::UnsupportedOs.message(),
        "this operating system is not supported"
    );
}

#[test]
fn string_equality_is_by_characters() {
    assert!(str_eq("chromedriver", "chromedriver"));
    assert!(!str_eq("chromedriver", "chromedriver.exe"));
    assert!(!str_eq("", "a"));
    assert!(str_eq("", ""));
    assert!(!str_eq("axc", "abc"));
}
