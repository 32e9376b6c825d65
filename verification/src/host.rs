//! The host operating systems a driver build exists for, and the
//! driver file names that belong to each.
use vstd::prelude::*;
use vstd::string::StringSliceAdditionalSpecFns;
use crate::text::str_eq;

verus! {

/// An operating system this lifecycle has a branch for.
#[derive(Clone, Copy, Debug, PartialEq, Eq, Structural)]
pub enum HostOs {
    Linux,
    MacOs,
    Windows,
}

/// Recognizes a host OS identifier (as `std::env::consts::OS` spells
/// them); any other name means the OS is unsupported.
pub fn os_from_name(name: &str) -> (r: Option<HostOs>)
    ensures
        (r == Some(HostOs::Linux)) <==> name@ == "linux"@,
        (r == Some(HostOs::MacOs)) <==> (name@ == "macos"@ && name@ != "linux"@),
        (r == Some(HostOs::Windows)) <==> (name@ == "windows"@ && name@ != "linux"@ && name@
            != "macos"@),
        r is None <==> (name@ != "linux"@ && name@ != "macos"@ && name@ != "windows"@),
{
    if str_eq(name, "linux") {
        Some(HostOs::Linux)
    } else if str_eq(name, "macos") {
        Some(HostOs::MacOs)
    } else if str_eq(name, "windows") {
        Some(HostOs::Windows)
    } else {
        None
    }
}

/// The file name of the raw driver executable on this OS.
pub open spec fn driver_file_name_spec(os: HostOs) -> Seq<char> {
    match os {
        HostOs::Linux => "chromedriver"@,
        HostOs::MacOs => "chromedriver"@,
        HostOs::Windows => "chromedriver.exe"@,
    }
}

/// The file name of the patched driver executable on this OS. Its
/// existence on disk is what marks patching as already done.
pub open spec fn patched_file_name_spec(os: HostOs) -> Seq<char> {
    match os {
        HostOs::Linux => "chromedriver_PATCHED"@,
        HostOs::MacOs => "chromedriver_PATCHED"@,
        HostOs::Windows => "chromedriver_PATCHED.exe"@,
    }
}

/// The raw driver executable's file name.
pub fn driver_file_name(os: HostOs) -> (r: &'static str)
    ensures
        r@ == driver_file_name_spec(os),
{
    match os {
        HostOs::Linux => "chromedriver",
        HostOs::MacOs => "chromedriver",
        HostOs::Windows => "chromedriver.exe",
    }
}

/// The patched driver executable's file name.
pub fn patched_file_name(os: HostOs) -> (r: &'static str)
    ensures
        r@ == patched_file_name_spec(os),
{
    match os {
        HostOs::Linux => "chromedriver_PATCHED",
        HostOs::MacOs => "chromedriver_PATCHED",
        HostOs::Windows => "chromedriver_PATCHED.exe",
    }
}

/// The archive entry name of the driver executable, as bytes.
pub open spec fn driver_entry_name_bytes(os: HostOs) -> Seq<u8> {
    match os {
        HostOs::Linux => "chromedriver".spec_bytes(),
        HostOs::MacOs => "chromedriver".spec_bytes(),
        HostOs::Windows => "chromedriver.exe".spec_bytes(),
    }
}

} // verus!
