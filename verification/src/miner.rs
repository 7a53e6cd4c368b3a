//! Dual-mining switch: a single enabled/disabled flag behind start calls.

use vstd::prelude::*;

verus! {

/// The dual-miner handle.
pub struct ScalaDualMiner {
    enabled: bool,
}

impl ScalaDualMiner {
    /// Is the miner running?
    pub closed spec fn spec_enabled(&self) -> bool {
        self.enabled
    }

    /// A stopped miner.
    pub fn new() -> (r: Self)
        ensures
            !r.spec_enabled(),
    {
        ScalaDualMiner { enabled: false }
    }

    /// Switch the miner on; starting never fails.
    pub fn start(&mut self) -> (r: Result<(), &'static str>)
        ensures
            final(self).spec_enabled(),
            r is Ok,
    {
        self.enabled = true;
        Ok(())
    }

    /// Is the miner running?
    pub fn is_enabled(&self) -> (r: bool)
        ensures
            r == self.spec_enabled(),
    {
        self.enabled
    }
}

} // verus!
