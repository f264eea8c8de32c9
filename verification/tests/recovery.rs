use rufs::error::Error;
use rufs::queue::{
    after_completion_pass, after_poll_pass, recovery_after_reset, recovery_lookup,
    recovery_succeeded, PassOutcome, RecoveryCause, RecoveryReason, RecoveryScope, RecoveryState,
    RecoveryTally, RequestLookup,
};
use rufs::reg::UicErrorStatus;
use rufs::transport::CompletionFault;

fn cause() -> RecoveryCause {
    RecoveryCause::driver("request timeout", 7)
}

#[test]
fn only_one_recovery_is_scheduled() {
    let mut s = RecoveryState::new();
    assert!(!s.recovery_required());
    assert!(s.request(cause()));
    assert!(s.recovery_required());
    assert!(!s.request(RecoveryCause::mcq(1, 2)));
    assert_eq!(s.cause(), Some(cause()));
}

#[test]
fn successful_recovery_cycle() {
    let mut s = RecoveryState::new();
    assert!(s.request(cause()));
    assert_eq!(s.begin_quiesce(), Some(cause()));
    assert_eq!(s, RecoveryState::Quiescing(cause()));
    assert!(s.begin_recovering(cause()));
    assert!(s.finish(cause(), true));
    assert_eq!(s, RecoveryState::Operational);
    assert!(!s.recovery_required());
}

#[test]
fn failed_recovery_keeps_refusing_work() {
    let mut s = RecoveryState::new();
    s.request(cause());
    s.begin_quiesce();
    s.begin_recovering(cause());
    assert!(!s.finish(cause(), false));
    assert_eq!(s, RecoveryState::Failed(cause()));
    assert!(s.recovery_required());
    assert!(!s.request(cause()));
    assert_eq!(s.begin_quiesce(), None);
}

#[test]
fn shutdown_stops_recovery() {
    let mut s = RecoveryState::new();
    s.request(cause());
    s.begin_quiesce();
    s.begin_shutdown();
    assert!(!s.begin_recovering(cause()));
    assert!(!s.finish(cause(), true));
    assert_eq!(s, RecoveryState::Shutdown);
    assert!(!s.request(cause()));
    assert!(!s.recovery_required());
}

#[test]
fn recovery_reason_names() {
    assert_eq!(RecoveryReason::Driver("x").name(), "x");
    let e = UicErrorStatus { phy: 0, data_link: 0, network: 0, transport: 0, dme: 0 };
    assert_eq!(RecoveryReason::Uic(e).name(), "fatal UIC error");
    assert_eq!(RecoveryReason::Uic(e).uic_errors(), Some(e));
    assert_eq!(
        RecoveryReason::InvalidMcqCompletion.name(),
        "invalid MCQ completion descriptor"
    );
    assert_eq!(RecoveryScope::Queue(4).queue_id(), Some(4));
    assert_eq!(RecoveryScope::Controller.queue_id(), None);
    let u = RecoveryCause::uic(e);
    assert_eq!(u.tag, 0);
    assert_eq!(u.scope, RecoveryScope::Controller);
}

#[test]
fn completion_pass_decisions() {
    let mcq_fault = CompletionFault { reason: "invalid MCQ completion descriptor", tag: 5, queue_id: Some(2) };
    assert_eq!(
        after_completion_pass(Some(mcq_fault), Ok(()), true, None),
        PassOutcome::Recover(RecoveryCause::mcq(2, 5))
    );
    let sdb_fault = CompletionFault { reason: "doorbell", tag: 3, queue_id: None };
    assert_eq!(
        after_completion_pass(Some(sdb_fault), Err(Error::Io), false, Some(1)),
        PassOutcome::Recover(RecoveryCause::driver("doorbell", 3))
    );
    assert_eq!(
        after_completion_pass(None, Err(Error::Io), false, Some(1)),
        PassOutcome::Recover(RecoveryCause::mcq(1, 0))
    );
    assert_eq!(
        after_completion_pass(None, Err(Error::Io), false, None),
        PassOutcome::Recover(RecoveryCause::driver("completion collection failed", 0))
    );
    assert_eq!(after_completion_pass(None, Ok(()), true, None), PassOutcome::Continue);
    assert_eq!(after_completion_pass(None, Ok(()), false, None), PassOutcome::Done);
    assert_eq!(
        after_poll_pass(None, Err(Error::Invalid), false, 6),
        PassOutcome::Recover(RecoveryCause::driver("polled completion collection failed", 6))
    );
    assert_eq!(after_poll_pass(None, Ok(()), true, 6), PassOutcome::Continue);
}

#[test]
fn recovery_disposal_tally() {
    assert_eq!(recovery_lookup(RequestLookup::Found { tag: 1, queue_index: 0 }), Ok(true));
    assert_eq!(recovery_lookup(RequestLookup::Vacant), Ok(false));
    assert_eq!(recovery_lookup(RequestLookup::Failed(Error::Busy)), Ok(false));
    assert_eq!(recovery_lookup(RequestLookup::Failed(Error::Invalid)), Err(Error::Invalid));

    let mut t = RecoveryTally::new();
    t.record(Ok(true));
    t.record(Ok(false));
    t.record(Ok(true));
    assert_eq!(t.disposed, 2);
    assert_eq!(t.finish(2, 0), Ok(2));
    assert_eq!(t.finish(3, 0), Err(Error::Io));
    assert_eq!(t.finish(2, 1), Err(Error::Io));
    t.record(Err(Error::Io));
    assert!(t.failed);
    assert_eq!(t.finish(2, 0), Err(Error::Io));
}

#[test]
fn reset_outcome() {
    assert_eq!(recovery_after_reset(true, true, false), (true, true));
    assert_eq!(recovery_after_reset(false, false, true), (false, true));
    assert_eq!(recovery_after_reset(false, false, false), (false, false));
    assert!(recovery_succeeded(Ok(()), Ok(3)));
    assert!(!recovery_succeeded(Ok(()), Err(Error::Io)));
    assert!(!recovery_succeeded(Err(Error::TimedOut), Ok(0)));
}
