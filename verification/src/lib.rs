//! Driver lifecycle manager for a local browser-automation driver process:
//! resolving which driver build is needed, selecting fetch endpoints,
//! scrubbing automation-signature markers from the driver executable,
//! planning the spawn, and establishing a control-protocol session with
//! bounded retries and cleanup on failure.
//!
//! The modules here hold the decision and data logic, each function with a
//! contract. Process spawning, filesystem access and network transport are
//! performed by a thin unverified shell around this crate, which feeds the
//! results (bytes, version strings, attempt outcomes) back into these
//! functions.
use vstd::prelude::*;

pub mod capabilities;
pub mod errors;
pub mod fetch_chromedriver;
pub mod get_capabilities;
pub mod get_chrome_version;
pub mod host;
pub mod lifecycle;
mod rng;
pub mod patch_chromedriver;
pub mod spawn_chromedriver;
pub mod text;

pub use capabilities::CapabilitiesView;
pub use capabilities::ChromeArgs;
pub use capabilities::DefaultCapabilitiesBuilder;
pub use errors::DriverError;
pub use get_capabilities::get_capabilities;
pub use host::HostOs;
pub use lifecycle::AcquireTrace;
pub use lifecycle::CacheState;
pub use lifecycle::HandshakeRetrier;
pub use lifecycle::HandshakeRun;
pub use lifecycle::PipelineStep;

verus! {

/// The fixed desktop user-agent string advertised by default.
pub const USER_AGENT: &'static str = "Mozilla/5.0 (Windows NT 10.0; Win64; x64) AppleWebKit/537.36 (KHTML, like Gecko) Chrome/126.0.0.0 Safari/537.36";

} // verus!
