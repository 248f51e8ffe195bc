//! Bridge configuration.

use vstd::prelude::*;

verus! {

/// Queue capacity used when the configuration does not set one.
pub open spec fn spec_default_threshold() -> usize {
    16
}

/// The capacity of each relay queue when none is configured.
#[verifier::when_used_as_spec(spec_default_threshold)]
pub fn default_threshold() -> (bound: usize)
    ensures
        bound == spec_default_threshold(),
{
    16
}

/// Resolved bridge configuration.
#[derive(Debug, Clone, Copy)]
pub struct BridgeOptions {
    /// Capacity of each direction's packet queue.
    pub packet_bounds: usize,
}

impl Default for BridgeOptions {
    fn default() -> (opts: Self)
        ensures
            opts.packet_bounds == default_threshold(),
    {
        Self { packet_bounds: default_threshold() }
    }
}

} // verus!
