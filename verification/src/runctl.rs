use vstd::prelude::*;

verus! {

/// Switches that manipulate how a container runs.
#[derive(PartialEq, Eq, Structural, Clone, Copy, Debug, Hash)]
pub enum Runctl {
    /// Read `/proc/<pid>/status` of the internal process when it exits.
    GetProcPidStatus,
    /// Read `/proc/<pid>/smaps_rollup` of the internal process when it exits.
    GetProcPidSmapsRollup,
}

impl Runctl {
    /// The position of the switch among the known switches.
    pub open spec fn spec_index(self) -> int {
        match self {
            Runctl::GetProcPidStatus => 0,
            Runctl::GetProcPidSmapsRollup => 1,
        }
    }

    /// The position of the switch among the known switches.
    pub fn index(self) -> (i: usize)
        ensures
            i == self.spec_index(),
            i < 2,
    {
        match self {
            Runctl::GetProcPidStatus => 0,
            Runctl::GetProcPidSmapsRollup => 1,
        }
    }
}

} // verus!
