//! The fetch logic: which download protocol the installed browser calls
//! for, the endpoint and archive addresses, the version-manifest lookup,
//! and the selection of the driver executable out of the downloaded
//! archive. The network transfers themselves happen outside this crate;
//! every decision about their inputs and outputs is made here.
use vstd::prelude::*;
use vstd::string::StringExecFns;
use crate::errors::DriverError;
use crate::host::HostOs;
use crate::host::driver_entry_name_bytes;
use crate::host::driver_file_name;
use crate::text::dec_chars;
use crate::text::u32_string;

verus! {

/// The browser major version at which the per-milestone download protocol
/// replaces the legacy one.
pub const MILESTONE_PROTOCOL_THRESHOLD: u32 = 114;

/// Which download protocol generation serves a browser version.
#[derive(Clone, Copy, Debug, PartialEq, Eq, Structural)]
pub enum FetchProtocol {
    /// The per-milestone protocol: a JSON manifest maps each major version
    /// to the full driver version.
    PerMilestone,
    /// The legacy protocol: a plain-text latest-release endpoint per major
    /// version.
    Legacy,
}

/// The protocol for a major version: per-milestone from the threshold up.
pub open spec fn protocol_for_major(major: u32) -> FetchProtocol {
    if major >= MILESTONE_PROTOCOL_THRESHOLD {
        FetchProtocol::PerMilestone
    } else {
        FetchProtocol::Legacy
    }
}

/// Selects the download protocol for an installed major version.
pub fn select_protocol(major: u32) -> (r: FetchProtocol)
    ensures
        r == protocol_for_major(major),
{
    if major >= MILESTONE_PROTOCOL_THRESHOLD {
        FetchProtocol::PerMilestone
    } else {
        FetchProtocol::Legacy
    }
}

/// The address of the per-milestone version manifest.
pub fn milestone_manifest_url() -> (r: &'static str)
    ensures
        r@ == "https://googlechromelabs.github.io/chrome-for-testing/latest-versions-per-milestone.json"@,
{
    "https://googlechromelabs.github.io/chrome-for-testing/latest-versions-per-milestone.json"
}

/// The legacy latest-release endpoint for a major version.
pub open spec fn latest_release_url_spec(major: u32) -> Seq<char> {
    "https://chromedriver.storage.googleapis.com/LATEST_RELEASE_"@ + dec_chars(major as nat)
}

/// Builds the legacy latest-release endpoint address.
pub fn latest_release_url(major: u32) -> (r: String)
    ensures
        r@ == latest_release_url_spec(major),
{
    let mut s = String::from_str("https://chromedriver.storage.googleapis.com/LATEST_RELEASE_");
    let digits = u32_string(major);
    s.append(digits.as_str());
    s
}

/// The archive platform identifier of the per-milestone protocol.
pub open spec fn milestone_platform_spec(os: HostOs) -> Seq<char> {
    match os {
        HostOs::Linux => "linux64"@,
        HostOs::MacOs => "mac-x64"@,
        HostOs::Windows => "win64"@,
    }
}

/// The per-milestone archive address for a resolved full version.
pub open spec fn milestone_archive_url_spec(version: Seq<char>, os: HostOs) -> Seq<char> {
    "https://storage.googleapis.com/chrome-for-testing-public/"@ + version + "/"@
        + milestone_platform_spec(os) + "/chromedriver-"@ + milestone_platform_spec(os) + ".zip"@
}

/// Builds the per-milestone archive address.
pub fn milestone_archive_url(version: &str, os: HostOs) -> (r: String)
    ensures
        r@ == milestone_archive_url_spec(version@, os),
{
    let platform = match os {
        HostOs::Linux => "linux64",
        HostOs::MacOs => "mac-x64",
        HostOs::Windows => "win64",
    };
    let mut s = String::from_str("https://storage.googleapis.com/chrome-for-testing-public/");
    s.append(version);
    s.append("/");
    s.append(platform);
    s.append("/chromedriver-");
    s.append(platform);
    s.append(".zip");
    assert(s@ =~= milestone_archive_url_spec(version@, os));
    s
}

/// The legacy archive file name per OS.
pub open spec fn legacy_archive_name_spec(os: HostOs) -> Seq<char> {
    match os {
        HostOs::Linux => "chromedriver_linux64.zip"@,
        HostOs::MacOs => "chromedriver_mac64.zip"@,
        HostOs::Windows => "chromedriver_win32.zip"@,
    }
}

/// The legacy archive address for the version text the latest-release
/// endpoint answered with.
pub open spec fn legacy_archive_url_spec(version: Seq<char>, os: HostOs) -> Seq<char> {
    "https://chromedriver.storage.googleapis.com/"@ + version + "/"@ + legacy_archive_name_spec(os)
}

/// Builds the legacy archive address.
pub fn legacy_archive_url(version: &str, os: HostOs) -> (r: String)
    ensures
        r@ == legacy_archive_url_spec(version@, os),
{
    let name = match os {
        HostOs::Linux => "chromedriver_linux64.zip",
        HostOs::MacOs => "chromedriver_mac64.zip",
        HostOs::Windows => "chromedriver_win32.zip",
    };
    let mut s = String::from_str("https://chromedriver.storage.googleapis.com/");
    s.append(version);
    s.append("/");
    s.append(name);
    assert(s@ =~= legacy_archive_url_spec(version@, os));
    s
}

/// What the version manifest answers for a major version: the full version
/// string, if the manifest decodes and holds that milestone.
pub uninterp spec fn milestone_version_of(manifest: Seq<u8>, major: Seq<char>) -> Option<Seq<char>>;

enum ManifestLookup {
    Found(String),
    NoSuchMilestone,
    Malformed,
}

/// Relies on serde_json's `from_slice` and `Value` indexing: the value at
/// `milestones.<major>.version` is a function of the manifest bytes and the
/// major key alone.
#[verifier::external_body]
fn lookup_milestone_version(manifest: &Vec<u8>, major: &String) -> (r: ManifestLookup)
    ensures
        (r matches ManifestLookup::Found(v) ==> milestone_version_of(manifest@, major@) == Some(
            v@,
        )),
        (!(r is Found) ==> milestone_version_of(manifest@, major@) is None),
{
    let parsed: serde_json::Value = match serde_json::from_slice(manifest.as_slice()) {
        Ok(v) => v,
        Err(_) => return ManifestLookup::Malformed,
    };
    match parsed["milestones"][major.as_str()]["version"].as_str() {
        Some(v) => ManifestLookup::Found(v.to_string()),
        None => ManifestLookup::NoSuchMilestone,
    }
}

/// Looks the installed major version up in the fetched manifest and
/// returns the full driver version to download. Fails exactly when the
/// manifest holds no version for that milestone: with
/// `NoMatchingDriverVersion` for a well-formed manifest, and with
/// `MalformedManifest` when it did not decode at all.
pub fn resolve_milestone_version(manifest: &Vec<u8>, major: u32) -> (r: Result<
    String,
    DriverError,
>)
    ensures
        (r matches Ok(v) ==> milestone_version_of(manifest@, dec_chars(major as nat)) == Some(v@)),
        (r is Err <==> milestone_version_of(manifest@, dec_chars(major as nat)) is None),
        (r matches Err(e) ==> e == DriverError::NoMatchingDriverVersion || e
            == DriverError::MalformedManifest),
{
    let key = u32_string(major);
    match lookup_milestone_version(manifest, &key) {
        ManifestLookup::Found(v) => Ok(v),
        ManifestLookup::NoSuchMilestone => Err(DriverError::NoMatchingDriverVersion),
        ManifestLookup::Malformed => Err(DriverError::MalformedManifest),
    }
}

/// One entry of the downloaded archive: its name and its decompressed
/// contents.
#[derive(Debug, Clone, PartialEq, Eq)]
pub struct ZipEntry {
    pub name: Vec<u8>,
    pub data: Vec<u8>,
}

impl View for ZipEntry {
    type V = (Seq<u8>, Seq<u8>);

    open spec fn view(&self) -> (Seq<u8>, Seq<u8>) {
        (self.name@, self.data@)
    }
}

/// The entries of a sequence of owned entries, as plain values.
pub open spec fn entries_view(es: Seq<ZipEntry>) -> Seq<(Seq<u8>, Seq<u8>)> {
    es.map_values(|e: ZipEntry| e@)
}

/// What the archive bytes decode to: each entry's name and decompressed
/// contents, in directory order; nothing, if the archive is malformed.
pub uninterp spec fn zip_entries_of(archive: Seq<u8>) -> Option<Seq<(Seq<u8>, Seq<u8>)>>;

/// Relies on zip's `ZipArchive` (`new`, `len`, `by_index`, `name`, and the
/// entry's `Read`): decoding the directory and decompressing each entry is
/// a function of the archive bytes alone, in directory order.
#[verifier::external_body]
fn read_zip_entries(archive: &Vec<u8>) -> (r: Option<Vec<ZipEntry>>)
    ensures
        (r matches Some(es) ==> zip_entries_of(archive@) == Some(entries_view(es@))),
        (r is None ==> zip_entries_of(archive@) is None),
{
    let cursor = std::io::Cursor::new(archive.as_slice());
    let mut zip = match zip::ZipArchive::new(cursor) { Ok(z) => z, Err(_) => return None };
    let mut out: Vec<ZipEntry> = Vec::new();
    for i in 0..zip.len() {
        let mut f = match zip.by_index(i) { Ok(f) => f, Err(_) => return None };
        let name = f.name().as_bytes().to_vec();
        let mut data = Vec::new();
        if std::io::Read::read_to_end(&mut f, &mut data).is_err() { return None; }
        out.push(ZipEntry { name, data });
    }
    Some(out)
}

/// Whether an entry name denotes a directory.
pub open spec fn is_dir_name(name: Seq<u8>) -> bool {
    name.len() > 0 && name.last() == 47u8
}

/// Where the final path component of an entry name starts: right after the
/// last `'/'`.
pub open spec fn basename_start_spec(s: Seq<u8>) -> int
    decreases s.len(),
{
    if s.len() == 0 {
        0
    } else if s.last() == 47u8 {
        s.len() as int
    } else {
        basename_start_spec(s.take(s.len() - 1))
    }
}

/// The final path component of an entry name.
pub open spec fn basename(s: Seq<u8>) -> Seq<u8> {
    s.skip(basename_start_spec(s))
}

/// Whether an entry is the driver executable: a file whose final path
/// component is the driver's name.
pub open spec fn selects_entry(name: Seq<u8>, exe: Seq<u8>) -> bool {
    !is_dir_name(name) && basename(name) == exe
}

fn basename_start(name: &[u8]) -> (r: usize)
    ensures
        r == basename_start_spec(name@),
{
    let n = name.len();
    proof {
        assert(name@.take(n as int) =~= name@);
    }
    let mut i = n;
    while i > 0
        invariant
            i <= n == name@.len(),
            basename_start_spec(name@) == basename_start_spec(name@.take(i as int)),
        decreases i,
    {
        if name[i - 1] == 47 {
            proof {
                assert(name@.take(i as int).last() == name@[i - 1]);
            }
            return i;
        }
        proof {
            assert(name@.take(i as int).take(i - 1) =~= name@.take(i - 1));
        }
        i -= 1;
    }
    0
}

fn bytes_eq(a: &[u8], b: &[u8]) -> (r: bool)
    ensures
        r == (a@ == b@),
{
    let n = a.len();
    if n != b.len() {
        return false;
    }
    let mut i: usize = 0;
    while i < n
        invariant
            i <= n == a@.len() == b@.len(),
            forall|k: int| 0 <= k < i ==> a@[k] == b@[k],
        decreases n - i,
    {
        if a[i] != b[i] {
            return false;
        }
        i += 1;
    }
    proof {
        assert(a@ =~= b@);
    }
    true
}

/// Picks the first entry that is the driver executable, and no other.
pub fn select_driver_entry(entries: &Vec<ZipEntry>, exe: &[u8]) -> (r: Option<usize>)
    ensures
        match r {
            Some(i) => i < entries@.len() && selects_entry(entries@[i as int].name@, exe@)
                && (forall|q: int| 0 <= q < i ==> !selects_entry(entries@[q].name@, exe@)),
            None => forall|q: int|
                0 <= q < entries@.len() ==> !selects_entry(entries@[q].name@, exe@),
        },
{
    let n = entries.len();
    let mut i: usize = 0;
    while i < n
        invariant
            i <= n == entries@.len(),
            forall|q: int| 0 <= q < i ==> !selects_entry(entries@[q].name@, exe@),
        decreases n - i,
    {
        let name = entries[i].name.as_slice();
        let name_len = name.len();
        let dir = name_len > 0 && name[name_len - 1] == 47;
        if !dir {
            let bs = basename_start(name);
            assert(bs <= name_len) by {
                lemma_basename_start_in_range(name@);
            }
            let base = &name[bs..name_len];
            proof {
                assert(base@ =~= basename(name@));
            }
            if bytes_eq(base, exe) {
                return Some(i);
            }
        }
        i += 1;
    }
    None
}

proof fn lemma_basename_start_in_range(s: Seq<u8>)
    ensures
        0 <= basename_start_spec(s) <= s.len(),
    decreases s.len(),
{
    if s.len() > 0 && s.last() != 47u8 {
        lemma_basename_start_in_range(s.take(s.len() - 1));
    }
}

/// The first entry a selection pass picks, as a value.
pub open spec fn selected_entry(es: Seq<(Seq<u8>, Seq<u8>)>, exe: Seq<u8>) -> Option<
    (Seq<u8>, Seq<u8>),
>
    decreases es.len(),
{
    if es.len() == 0 {
        None
    } else if selects_entry(es[0].0, exe) {
        Some(es[0])
    } else {
        selected_entry(es.drop_first(), exe)
    }
}

proof fn lemma_selected_entry_at(es: Seq<(Seq<u8>, Seq<u8>)>, exe: Seq<u8>, i: int)
    requires
        0 <= i < es.len(),
        selects_entry(es[i].0, exe),
        forall|q: int| 0 <= q < i ==> !selects_entry(es[q].0, exe),
    ensures
        selected_entry(es, exe) == Some(es[i]),
    decreases i,
{
    if i > 0 {
        let t = es.drop_first();
        assert(forall|q: int| 0 <= q < i - 1 ==> t[q] == es[q + 1] && !selects_entry(t[q].0, exe));
        assert(t[i - 1] == es[i]);
        lemma_selected_entry_at(t, exe, i - 1);
    }
}

proof fn lemma_selected_entry_none(es: Seq<(Seq<u8>, Seq<u8>)>, exe: Seq<u8>)
    requires
        forall|q: int| 0 <= q < es.len() ==> !selects_entry(es[q].0, exe),
    ensures
        selected_entry(es, exe) is None,
    decreases es.len(),
{
    if es.len() > 0 {
        let t = es.drop_first();
        assert(forall|q: int| 0 <= q < t.len() ==> t[q] == es[q + 1] && !selects_entry(t[q].0, exe));
        lemma_selected_entry_none(t, exe);
    }
}

/// Decodes the downloaded archive and extracts exactly the driver
/// executable's entry: the first file whose final path component is the
/// OS-appropriate driver name; directory entries and every other file are
/// ignored. Fails with `MalformedArchive` exactly when the archive does
/// not decode, and with `NoDriverEntryInArchive` exactly when no entry
/// qualifies.
pub fn extract_driver(archive: &Vec<u8>, os: HostOs) -> (r: Result<ZipEntry, DriverError>)
    ensures
        (r matches Ok(e) ==> zip_entries_of(archive@) matches Some(es) && selected_entry(
            es,
            driver_entry_name_bytes(os),
        ) == Some(e@)),
        (r == Err::<ZipEntry, DriverError>(DriverError::MalformedArchive) <==> zip_entries_of(
            archive@,
        ) is None),
        (r == Err::<ZipEntry, DriverError>(DriverError::NoDriverEntryInArchive) <==> (
        zip_entries_of(archive@) matches Some(es) && selected_entry(
            es,
            driver_entry_name_bytes(os),
        ) is None)),
        (r matches Err(e) ==> e == DriverError::MalformedArchive
            || e == DriverError::NoDriverEntryInArchive),
{
    let mut entries = match read_zip_entries(archive) {
        Some(es) => es,
        None => {
            return Err(DriverError::MalformedArchive);
        },
    };
    let exe = driver_file_name(os).as_bytes();
    proof {
        assert(exe@ == driver_entry_name_bytes(os));
    }
    let ghost es_view = entries_view(entries@);
    match select_driver_entry(&entries, exe) {
        Some(i) => {
            proof {
                assert(es_view[i as int] == entries@[i as int]@);
                lemma_selected_entry_at(es_view, exe@, i as int);
            }
            let e = entries.remove(i);
            Ok(e)
        },
        None => {
            proof {
                lemma_selected_entry_none(es_view, exe@);
            }
            Err(DriverError::NoDriverEntryInArchive)
        },
    }
}

} // verus!
