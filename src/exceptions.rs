//! How each CPU exception ends: the breakpoint is reported and execution
//! resumes; a page fault or a double fault is fatal. A fatal fault halts the
//! machine in a normal run; in a test run it ends the emulator with an exit
//! code instead, success for a double fault (the expected outcome of the
//! stack-overflow check, which proves the alternate stack works) and failure
//! for anything else.

use vstd::prelude::*;

use crate::qemu::ExitCode;

verus! {

/// The CPU exceptions that have handlers.
#[derive(Clone, Copy, Debug, PartialEq, Eq, Structural)]
pub enum FaultKind {
    /// Raised by `int3`; recoverable.
    Breakpoint,
    /// Raised on an access to an unmapped or protected page.
    PageFault,
    /// Raised when an exception occurs while another is being delivered;
    /// the CPU does not allow returning from it.
    DoubleFault,
}

/// What a handler does once it has reported.
#[derive(Clone, Copy, Debug, PartialEq, Eq, Structural)]
pub enum FaultAction {
    /// Return to the interrupted instruction stream.
    Resume,
    /// Stop the CPU for good.
    Halt,
    /// End the emulator with this code.
    Exit(ExitCode),
}

/// The action that ends a fault of the given kind.
pub open spec fn spec_fault_action(kind: FaultKind, is_test: bool) -> FaultAction {
    match kind {
        FaultKind::Breakpoint => FaultAction::Resume,
        FaultKind::PageFault => if is_test {
            FaultAction::Exit(ExitCode::Failed)
        } else {
            FaultAction::Halt
        },
        FaultKind::DoubleFault => if is_test {
            FaultAction::Exit(ExitCode::Success)
        } else {
            FaultAction::Halt
        },
    }
}

/// The action that ends a fault of the given kind, in a test run or not.
pub fn fault_action(kind: FaultKind, is_test: bool) -> (r: FaultAction)
    ensures
        r == spec_fault_action(kind, is_test),
{
    match kind {
        FaultKind::Breakpoint => FaultAction::Resume,
        FaultKind::PageFault => {
            if is_test {
                FaultAction::Exit(ExitCode::Failed)
            } else {
                FaultAction::Halt
            }
        },
        FaultKind::DoubleFault => {
            if is_test {
                FaultAction::Exit(ExitCode::Success)
            } else {
                FaultAction::Halt
            }
        },
    }
}

/// The action that ends a panic: halt in a normal run, report failure to
/// the host in a test run.
pub fn panic_action(is_test: bool) -> (r: FaultAction)
    ensures
        r == (if is_test {
            FaultAction::Exit(ExitCode::Failed)
        } else {
            FaultAction::Halt
        }),
{
    if is_test {
        FaultAction::Exit(ExitCode::Failed)
    } else {
        FaultAction::Halt
    }
}

/// A breakpoint is never fatal: in a normal run and in a test run alike,
/// execution resumes after the trap.
pub proof fn lemma_breakpoint_resumes(is_test: bool)
    ensures
        spec_fault_action(FaultKind::Breakpoint, is_test) == FaultAction::Resume,
{
}

/// In a test run a double fault is the expected outcome of the stack
/// overflow check: it ends the run with the success code, whose port value
/// is `0x10`. In a normal run it halts, and never resumes.
pub proof fn lemma_double_fault_signals_success(is_test: bool)
    ensures
        is_test ==> spec_fault_action(FaultKind::DoubleFault, is_test) == FaultAction::Exit(
            ExitCode::Success,
        ),
        is_test ==> ExitCode::Success.spec_value() == 0x10,
        !is_test ==> spec_fault_action(FaultKind::DoubleFault, is_test) == FaultAction::Halt,
{
}

} // verus!
