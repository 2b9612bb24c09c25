use tamamo_x::inject::{
    encode_path, Capability, InjectAction, InjectError, InjectEvent, InjectPhase, InjectionOutcome,
    Injector, REMOTE_THREAD_TIMEOUT_MS,
};

fn to_thread(path: &str) -> Injector {
    let mut inj = Injector::new(path);
    assert_eq!(inj.action(), InjectAction::Resolve);
    let len = path.len() + 1;
    assert_eq!(inj.step(InjectEvent::Resolved(Ok(()))), InjectAction::Allocate(len));
    assert_eq!(inj.step(InjectEvent::Allocated(0)), InjectAction::Write);
    assert_eq!(
        inj.step(InjectEvent::Written(0)),
        InjectAction::CreateThread
    );
    inj
}

#[test]
fn path_encoded_with_terminator() {
    assert_eq!(encode_path("C:\\a.dll"), Some(b"C:\\a.dll\0".to_vec()));
    assert_eq!(encode_path(""), Some(vec![0]));
    assert_eq!(encode_path("a\0b"), None);
    assert_eq!(encode_path("é"), Some(vec![0xC3, 0xA9, 0]));
}

#[test]
fn payload_is_the_encoded_path() {
    let inj = Injector::new("C:\\x.dll");
    assert_eq!(inj.payload, Some(b"C:\\x.dll\0".to_vec()));
}

#[test]
fn nonzero_exit_code_is_success() {
    let mut inj = to_thread("C:\\a.dll");
    let a = inj.step(InjectEvent::ThreadCreated { status: 0, handle_valid: true });
    assert_eq!(a, InjectAction::WaitThread(REMOTE_THREAD_TIMEOUT_MS));
    let a = inj.step(InjectEvent::ThreadExited(0x7ff0_0000));
    assert_eq!(a, InjectAction::Complete(InjectionOutcome::Success(0x7ff0_0000)));
    assert!(InjectionOutcome::Success(0x7ff0_0000).is_success());
}

#[test]
fn zero_exit_code_is_failure() {
    let mut inj = to_thread("C:\\a.dll");
    inj.step(InjectEvent::ThreadCreated { status: 0, handle_valid: true });
    let a = inj.step(InjectEvent::ThreadExited(0));
    assert_eq!(a, InjectAction::Complete(InjectionOutcome::Failure));
    assert!(!InjectionOutcome::Failure.is_success());
    assert_eq!(InjectionOutcome::from_exit_code(0), InjectionOutcome::Failure);
    assert_eq!(InjectionOutcome::from_exit_code(1), InjectionOutcome::Success(1));
}

#[test]
fn failed_allocation_starts_no_thread() {
    let mut inj = Injector::new("C:\\a.dll");
    inj.step(InjectEvent::Resolved(Ok(())));
    let status = 0xC000_0022u32 as i32;
    let a = inj.step(InjectEvent::Allocated(status));
    let expected = InjectionOutcome::Error(InjectError::AllocateFailed(status));
    assert_eq!(a, InjectAction::Complete(expected));
    assert_eq!(inj.step(InjectEvent::Written(0)), InjectAction::Complete(expected));
    let a = inj.step(InjectEvent::ThreadCreated { status: 0, handle_valid: true });
    assert_eq!(a, InjectAction::Complete(expected));
    assert_eq!(inj.phase, InjectPhase::Finished(expected));
}

#[test]
fn failed_write_starts_no_thread() {
    let mut inj = Injector::new("C:\\a.dll");
    inj.step(InjectEvent::Resolved(Ok(())));
    inj.step(InjectEvent::Allocated(0));
    let a = inj.step(InjectEvent::Written(-5));
    let expected = InjectionOutcome::Error(InjectError::WriteFailed(-5));
    assert_eq!(a, InjectAction::Complete(expected));
    let a = inj.step(InjectEvent::ThreadCreated { status: 0, handle_valid: true });
    assert_eq!(a, InjectAction::Complete(expected));
}

#[test]
fn failed_thread_creation_is_an_error() {
    let mut inj = to_thread("C:\\a.dll");
    let a = inj.step(InjectEvent::ThreadCreated { status: 7, handle_valid: true });
    assert_eq!(a, InjectAction::Complete(InjectionOutcome::Error(InjectError::CreateThreadFailed(7))));
    let mut inj = to_thread("C:\\a.dll");
    let a = inj.step(InjectEvent::ThreadCreated { status: 0, handle_valid: false });
    assert_eq!(a, InjectAction::Complete(InjectionOutcome::Error(InjectError::CreateThreadFailed(0))));
}

#[test]
fn unresolved_capability_is_an_error() {
    let mut inj = Injector::new("C:\\a.dll");
    let a = inj.step(InjectEvent::Resolved(Err(Capability::LoadLibrary)));
    assert_eq!(
        a,
        InjectAction::Complete(InjectionOutcome::Error(InjectError::Unresolved(Capability::LoadLibrary)))
    );
}

#[test]
fn path_with_nul_is_rejected_after_resolution() {
    let mut inj = Injector::new("C:\\a\0.dll");
    assert_eq!(inj.action(), InjectAction::Resolve);
    let a = inj.step(InjectEvent::Resolved(Ok(())));
    assert_eq!(a, InjectAction::Complete(InjectionOutcome::Error(InjectError::InvalidPath)));
}

#[test]
fn out_of_order_report_changes_nothing() {
    let mut inj = Injector::new("C:\\a.dll");
    assert_eq!(inj.step(InjectEvent::ThreadExited(5)), InjectAction::Resolve);
    assert_eq!(inj.phase, InjectPhase::Resolving);
}
