use moon_os::exceptions::{fault_action, panic_action, FaultAction, FaultKind};
use moon_os::interrupts::{Event, Kernel};
use moon_os::qemu::{ExitCode, EXIT_PORT};

#[test]
fn exit_code_values() {
    assert_eq!(ExitCode::Success.value(), 0x10);
    assert_eq!(ExitCode::Failed.value(), 0x11);
    assert_eq!(EXIT_PORT, 0xf4);
}

#[test]
fn test_breakpoint_exception() {
    let mut kernel = Kernel::new(true, None);
    let response = kernel.dispatch(Event::Breakpoint);
    assert_eq!(response.action, FaultAction::Resume);
    assert_eq!(response.end_of_interrupt, None);
    assert!(response.output.is_none());
    // execution goes on: a later event is still serviced
    let next = kernel.dispatch(Event::Timer);
    assert_eq!(next.action, FaultAction::Resume);
}

#[test]
fn breakpoint_resumes_in_both_modes() {
    assert_eq!(fault_action(FaultKind::Breakpoint, true), FaultAction::Resume);
    assert_eq!(fault_action(FaultKind::Breakpoint, false), FaultAction::Resume);
}

#[test]
fn double_fault_in_test_mode_exits_with_success() {
    let mut kernel = Kernel::new(true, None);
    let response = kernel.dispatch(Event::DoubleFault);
    assert_eq!(response.action, FaultAction::Exit(ExitCode::Success));
    assert_eq!(response.end_of_interrupt, None);
    match response.action {
        FaultAction::Exit(code) => assert_eq!(code.value(), 0x10),
        _ => panic!("a double fault in test mode must exit"),
    }
}

#[test]
fn double_fault_in_normal_mode_halts() {
    assert_eq!(fault_action(FaultKind::DoubleFault, false), FaultAction::Halt);
    let mut kernel = Kernel::new(false, None);
    assert_eq!(kernel.dispatch(Event::DoubleFault).action, FaultAction::Halt);
}

#[test]
fn page_fault_is_fatal() {
    assert_eq!(fault_action(FaultKind::PageFault, true), FaultAction::Exit(ExitCode::Failed));
    assert_eq!(fault_action(FaultKind::PageFault, false), FaultAction::Halt);
    let mut kernel = Kernel::new(true, None);
    let response = kernel.dispatch(Event::PageFault);
    assert_eq!(response.action, FaultAction::Exit(ExitCode::Failed));
    assert_eq!(response.end_of_interrupt, None);
}

#[test]
fn panic_ends_run() {
    assert_eq!(panic_action(true), FaultAction::Exit(ExitCode::Failed));
    assert_eq!(panic_action(false), FaultAction::Halt);
}

#[test]
fn kernel_keeps_its_mode() {
    let mut kernel = Kernel::new(true, None);
    assert!(kernel.is_test_mode());
    kernel.dispatch(Event::Keyboard(0x1e));
    kernel.dispatch(Event::PageFault);
    assert!(kernel.is_test_mode());
    assert!(!Kernel::new(false, Some('.')).is_test_mode());
}
