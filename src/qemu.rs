//! Exit codes understood by the emulator's `isa-debug-exit` device.
//!
//! Writing one of these four-byte values to the device's port ends the
//! emulator process with a status derived from the value.

use vstd::prelude::*;

verus! {

/// I/O port of the `isa-debug-exit` device.
pub const EXIT_PORT: u16 = 0xf4;

/// The two outcomes a run can report to the host.
#[derive(Clone, Copy, Debug, PartialEq, Eq, Structural)]
pub enum ExitCode {
    Success,
    Failed,
}

impl ExitCode {
    /// The value written to the exit port for this code.
    pub open spec fn spec_value(self) -> u32 {
        match self {
            ExitCode::Success => 0x10,
            ExitCode::Failed => 0x11,
        }
    }

    /// The four-byte value to write to [`EXIT_PORT`].
    pub fn value(&self) -> (r: u32)
        ensures
            r == self.spec_value(),
    {
        match self {
            ExitCode::Success => 0x10,
            ExitCode::Failed => 0x11,
        }
    }
}

} // verus!
