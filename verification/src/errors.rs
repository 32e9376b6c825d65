//! The failure taxonomy of the driver lifecycle. Every component returns a
//! typed failure; nothing here panics.
use vstd::prelude::*;

verus! {

/// One kind for each way the lifecycle can fail, so that the orchestrator
/// (and the caller) can tell a retryable condition from a fatal one.
#[derive(Clone, Copy, Debug, PartialEq, Eq, Structural)]
pub enum DriverError {
    /// The installed browser's version could not be determined: the probe
    /// was unavailable or its output held no leading version number.
    VersionDetectionFailed,
    /// No branch exists for the current operating system; fatal.
    UnsupportedOs,
    /// The per-milestone manifest has no entry for the installed major
    /// version.
    NoMatchingDriverVersion,
    /// A network transfer failed while fetching.
    FetchTransport,
    /// The version manifest could not be decoded.
    MalformedManifest,
    /// The downloaded archive could not be decoded.
    MalformedArchive,
    /// The downloaded archive holds no driver executable entry.
    NoDriverEntryInArchive,
    /// The driver executable to patch could not be read.
    PatchSourceUnreadable,
    /// The patched driver executable could not be written.
    PatchDestUnwritable,
    /// Setting permissions on, or launching, the driver process failed.
    SpawnFailed,
    /// The handshake retry budget was exhausted without a session.
    HandshakeExhausted,
}

impl DriverError {
    /// A short human-readable description of the failure.
    pub fn message(&self) -> (r: &'static str) {
        match self {
            DriverError::VersionDetectionFailed => "failed to detect the installed browser version",
            DriverError::UnsupportedOs => "this operating system is not supported",
            DriverError::NoMatchingDriverVersion => "no driver version matches the installed browser",
            DriverError::FetchTransport => "a network transfer failed while fetching the driver",
            DriverError::MalformedManifest => "the driver version manifest could not be decoded",
            DriverError::MalformedArchive => "the driver archive could not be decoded",
            DriverError::NoDriverEntryInArchive => "the driver archive holds no driver executable",
            DriverError::PatchSourceUnreadable => "the driver executable could not be read for patching",
            DriverError::PatchDestUnwritable => "the patched driver executable could not be written",
            DriverError::SpawnFailed => "the driver process could not be started",
            DriverError::HandshakeExhausted => "the driver never accepted a session",
        }
    }
}

} // verus!
