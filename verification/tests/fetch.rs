use std::io::Write;
use undetected_chromedriver::DriverError;
use undetected_chromedriver::fetch_chromedriver::ZipEntry;
use undetected_chromedriver::fetch_chromedriver::extract_driver;
use undetected_chromedriver::fetch_chromedriver::resolve_milestone_version;
use undetected_chromedriver::fetch_chromedriver::select_driver_entry;
use undetected_chromedriver::host::HostOs;

#[test]
fn milestone_lookup_finds_the_full_version() {
    let manifest = br#"{"timestamp":"2023-07-28T13:09:17.042Z","milestones":{"113":{"milestone":"113","version":"113.0.5672.63","revision":"1121455"},"115":{"milestone":"115","version":"115.0.5790.170","revision":"1148114"}}}"#.to_vec();
    assert_eq!(
        resolve_milestone_version(&manifest, 115),
        Ok("115.0.5790.170".to_string())
    );
    assert_eq!(
        resolve_milestone_version(&manifest, 113),
        Ok("113.0.5672.63".to_string())
    );
}

#[test]
fn milestone_lookup_misses_are_distinct_from_parse_failures() {
    let manifest = br#"{"milestones":{"115":{"version":"115.0.5790.170"}}}"#.to_vec();
    assert_eq!(
        resolve_milestone_version(&manifest, 116),
        Err(DriverError::NoMatchingDriverVersion)
    );
    let garbage = b"not json at all".to_vec();
    assert_eq!(
        resolve_milestone_version(&garbage, 115),
        Err(DriverError::MalformedManifest)
    );
}

fn build_archive() -> (Vec<u8>, Vec<u8>) {
    let payload: Vec<u8> = b"the driver executable image cdc_abcdefghijklmnopqr end".to_vec();
    let cursor = std::io::Cursor::new(Vec::new());
    let mut writer = zip::ZipWriter::new(cursor);
    let options = zip::write::SimpleFileOptions::default();
    writer
        .add_directory("chromedriver-linux64", options)
        .unwrap();
    writer
        .start_file("chromedriver-linux64/LICENSE.chromedriver", options)
        .unwrap();
    writer.write_all(b"license text").unwrap();
    writer
        .start_file("chromedriver-linux64/chromedriver", options)
        .unwrap();
    writer.write_all(&payload).unwrap();
    let archive = writer.finish().unwrap().into_inner();
    (archive, payload)
}

#[test]
fn extraction_yields_exactly_the_driver_entry() {
    let (archive, payload) = build_archive();
    let entry = extract_driver(&archive, HostOs::Linux).unwrap();
    assert_eq!(entry.name, b"chromedriver-linux64/chromedriver".to_vec());
    assert_eq!(entry.data, payload);
}

#[test]
fn extraction_ignores_licenses_directories_and_foreign_names() {
    let (archive, _) = build_archive();
    // On Windows the driver entry is chromedriver.exe, which this archive
    // does not hold: the license file and the directory must not match.
    assert_eq!(
        extract_driver(&archive, HostOs::Windows),
        Err(DriverError::NoDriverEntryInArchive)
    );
}

#[test]
fn malformed_archives_are_surfaced() {
    let garbage = b"certainly not a zip archive".to_vec();
    assert_eq!(
        extract_driver(&garbage, HostOs::Linux),
        Err(DriverError::MalformedArchive)
    );
}

#[test]
fn selection_takes_the_first_match_and_skips_directories() {
    let entries = vec![
        ZipEntry { name: b"chromedriver-linux64/".to_vec(), data: Vec::new() },
        ZipEntry { name: b"chromedriver-linux64/LICENSE.chromedriver".to_vec(), data: b"l".to_vec() },
        ZipEntry { name: b"chromedriver-linux64/chromedriver".to_vec(), data: b"d".to_vec() },
        ZipEntry { name: b"other/chromedriver".to_vec(), data: b"e".to_vec() },
    ];
    assert_eq!(select_driver_entry(&entries, b"chromedriver"), Some(2));
    assert_eq!(select_driver_entry(&entries, b"chromedriver.exe"), None);
    // A directory entry whose name ends in the driver name is not a file.
    let dir_only = vec![ZipEntry { name: b"chromedriver/".to_vec(), data: Vec::new() }];
    assert_eq!(select_driver_entry(&dir_only, b"chromedriver"), None);
}
