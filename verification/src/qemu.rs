//! The exit signal: the status codes reported to the hosting emulator when
//! the run terminates. The platform writes the code to its control interface
//! and halts; this module only fixes the code values.

use vstd::prelude::*;

verus! {

/// Exit codes for the hosting emulator. `Success` closes every run in the
/// current design; `_Failed` is reserved and currently unused, so a run with
/// failing tests still exits successfully at the process level and failure is
/// signaled only in the diagnostic stream.
#[derive(Clone, Copy, Debug, PartialEq, Eq, Structural)]
pub enum ExitCode {
    Success,
    _Failed,
}

impl ExitCode {
    /// The machine word written to the emulator's control interface.
    pub open spec fn spec_code(self) -> u32 {
        match self {
            ExitCode::Success => 0x10,
            ExitCode::_Failed => 0x11,
        }
    }

    /// The machine word for this exit code.
    pub fn code(self) -> (code: u32)
        ensures
            code == self.spec_code(),
    {
        match self {
            ExitCode::Success => 0x10,
            ExitCode::_Failed => 0x11,
        }
    }
}

} // verus!
