//! The systems that the application runs on.

use vstd::prelude::*;

verus! {

/// A system that the application runs on.
#[derive(Clone, Copy, Debug, PartialEq, Eq, Structural)]
pub enum Platform {
    /// The connection is kept by a VPN service, reached through the Java bridge.
    Android,
    /// The connection is kept by an Xray process.
    Windows,
}

/// How many servers may be probed at the same time.
pub open spec fn probe_limit(platform: Platform) -> nat {
    match platform {
        Platform::Android => 1,
        Platform::Windows => 12,
    }
}

/// How many servers may be probed at the same time.
pub fn probe_concurrency(platform: Platform) -> (limit: usize)
    ensures
        limit == probe_limit(platform),
{
    match platform {
        Platform::Android => 1,
        Platform::Windows => 12,
    }
}

} // verus!
