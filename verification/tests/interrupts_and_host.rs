use rufs::error::Error;
use rufs::host::{HostState, LinkStartup, LinkStep, ShutdownStep};
use rufs::irq::{
    interrupt_policy, mcq_irq_setup_check, mcq_queue_primary, registration_flags,
    transfer_primary, transfer_thread_step, uic_error_recovery, uic_primary, uic_thread_acks,
    IrqFlags, PendingInterrupts, PrimaryAction, TransferAck, UfsInterruptPolicy,
};
use rufs::queue::RecoveryCause;
use rufs::reg::UicErrorStatus;
use rufs::transport::UfsTransferConfig;

#[test]
fn policy_and_flags() {
    assert_eq!(
        interrupt_policy(&UfsTransferConfig::Sdb { tag_count: 32 }),
        UfsInterruptPolicy::EagerAck
    );
    assert_eq!(
        registration_flags(UfsInterruptPolicy::EagerAck),
        IrqFlags { shared: true, oneshot: false }
    );
    assert_eq!(
        registration_flags(UfsInterruptPolicy::ThreadedAck),
        IrqFlags { shared: true, oneshot: true }
    );
}

#[test]
fn pending_interrupts_accumulate() {
    let mut p = PendingInterrupts::new();
    p.record(0x1);
    p.record(0x4);
    p.record(0x1);
    assert_eq!(p.take(), 0x5);
    assert_eq!(p.take(), 0);
}

#[test]
fn uic_handlers() {
    assert_eq!(uic_primary(0, UfsInterruptPolicy::EagerAck), (PrimaryAction::NotMine, false));
    assert_eq!(uic_primary(0x400, UfsInterruptPolicy::EagerAck), (PrimaryAction::WakeThread, true));
    assert_eq!(
        uic_primary(0x400, UfsInterruptPolicy::ThreadedAck),
        (PrimaryAction::WakeThread, false)
    );
    assert!(uic_thread_acks(UfsInterruptPolicy::ThreadedAck));
    assert!(!uic_thread_acks(UfsInterruptPolicy::EagerAck));
}

#[test]
fn transfer_handlers() {
    assert_eq!(
        transfer_primary(0, UfsInterruptPolicy::EagerAck, false),
        (PrimaryAction::NotMine, None, false)
    );
    assert_eq!(
        transfer_primary(0x1, UfsInterruptPolicy::EagerAck, false),
        (PrimaryAction::WakeThread, Some(TransferAck::All), false)
    );
    assert_eq!(
        transfer_primary(0x4, UfsInterruptPolicy::EagerAck, false),
        (PrimaryAction::WakeThread, Some(TransferAck::All), true)
    );
    // A completion queue event alone is left to the per-queue handlers.
    assert_eq!(
        transfer_primary(0x10_0000, UfsInterruptPolicy::ThreadedAck, true),
        (PrimaryAction::Handled, Some(TransferAck::CqEvents), false)
    );
    assert_eq!(
        transfer_primary(0x10_0000, UfsInterruptPolicy::ThreadedAck, false),
        (PrimaryAction::WakeThread, Some(TransferAck::CqEvents), false)
    );
    assert_eq!(
        transfer_primary(0x10_0004, UfsInterruptPolicy::ThreadedAck, true),
        (PrimaryAction::WakeThread, Some(TransferAck::CqEvents), true)
    );
    let s = transfer_thread_step(0x804, UfsInterruptPolicy::ThreadedAck, true);
    assert!(s.read_uic_errors);
    assert!(s.ack_deferred);
    assert!(s.transfer_recovery);
    assert!(!s.complete);
    let s = transfer_thread_step(0x1, UfsInterruptPolicy::EagerAck, false);
    assert!(!s.read_uic_errors && !s.ack_deferred && !s.transfer_recovery && s.complete);
}

#[test]
fn uic_errors_and_mcq_irqs() {
    let quiet = UicErrorStatus { phy: 0, data_link: 0, network: 0, transport: 0, dme: 0 };
    assert_eq!(uic_error_recovery(&quiet), None);
    let fatal = UicErrorStatus { data_link: 0x8000_2000, ..quiet };
    assert_eq!(uic_error_recovery(&fatal), Some(RecoveryCause::uic(fatal)));
    assert_eq!(mcq_queue_primary(Ok(true)), PrimaryAction::WakeThread);
    assert_eq!(mcq_queue_primary(Err(Error::Io)), PrimaryAction::WakeThread);
    assert_eq!(mcq_queue_primary(Ok(false)), PrimaryAction::NotMine);
    assert_eq!(mcq_irq_setup_check(0, false, false), Ok(false));
    assert_eq!(mcq_irq_setup_check(2, false, false), Err(Error::NoDevice));
    assert_eq!(mcq_irq_setup_check(2, true, true), Err(Error::Busy));
    assert_eq!(mcq_irq_setup_check(2, true, false), Ok(true));
}

#[test]
fn host_lifecycle() {
    let mut h = HostState::new();
    assert_eq!(h.promote_to_operational(), Ok(()));
    assert_eq!(h.promote_to_operational(), Err(Error::Invalid));
    assert!(h.begin_shutdown());
    assert!(!h.begin_shutdown());
    h.finish_shutdown();
    assert_eq!(h, HostState::Stopped);
    assert!(!h.begin_shutdown());
    assert_eq!(h.promote_to_operational(), Err(Error::Invalid));
}

#[test]
fn link_startup_retries() {
    let mut l = LinkStartup::new();
    assert_eq!(l.after_attempt(false), LinkStep::Retry);
    assert_eq!(l.after_attempt(false), LinkStep::Retry);
    assert_eq!(l.after_attempt(false), LinkStep::Retry);
    assert_eq!(l.after_attempt(false), LinkStep::Fail(Error::Io));
    let mut l = LinkStartup::new();
    assert_eq!(l.after_attempt(false), LinkStep::Retry);
    assert_eq!(l.after_attempt(true), LinkStep::Up);
}

#[test]
fn second_shutdown_does_nothing() {
    let mut h = HostState::new();
    h.promote_to_operational().unwrap();
    let first = h.shutdown();
    assert_eq!(first.len(), 8);
    assert_eq!(first[0], ShutdownStep::RemoveDisks);
    assert!(first.contains(&ShutdownStep::FreeIrqs));
    assert_eq!(h, HostState::Stopping);
    h.finish_shutdown();
    assert_eq!(h, HostState::Stopped);
    assert!(h.shutdown().is_empty());
    assert_eq!(h, HostState::Stopped);
}
