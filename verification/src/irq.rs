//! Interrupt handling decisions: how events are acknowledged, latched for
//! the interrupt thread, and turned into completion work and recovery.
use vstd::prelude::*;

use crate::error::{Error, Result};
use crate::queue::RecoveryCause;
use crate::reg::{
    has_deferred_transfer_interrupts, layer_reports, lemma_recovery_by_layer, is_error_interrupt, is_transfer_recovery_interrupt,
    is_uic_error_interrupt, UicErrorStatus, ERROR_MASK, UIC_ERROR, UTP_TRANSFER_REQ_COMPL,
};
use crate::transport::UfsTransferConfig;

verus! {

/// When an interrupt's events are acknowledged to the controller: at once
/// in the primary handler (the doorbell still tells which requests
/// completed), or in the interrupt thread once they are handled.
#[derive(Clone, Copy, Debug, PartialEq, Eq, Structural)]
pub enum UfsInterruptPolicy {
    EagerAck,
    ThreadedAck,
}

/// The policy for a transport: the doorbell acknowledges eagerly, the
/// multi-circular queues in the thread.
pub fn interrupt_policy(config: &UfsTransferConfig) -> (r: UfsInterruptPolicy)
    ensures
        r == (match *config {
            UfsTransferConfig::Sdb { .. } => UfsInterruptPolicy::EagerAck,
            UfsTransferConfig::Mcq(_) => UfsInterruptPolicy::ThreadedAck,
        }),
{
    match config {
        UfsTransferConfig::Sdb { .. } => UfsInterruptPolicy::EagerAck,
        UfsTransferConfig::Mcq(_) => UfsInterruptPolicy::ThreadedAck,
    }
}

/// The flags an interrupt line is requested with.
#[derive(Clone, Copy, Debug, PartialEq, Eq, Structural)]
pub struct IrqFlags {
    pub shared: bool,
    /// The line stays masked until the thread has run.
    pub oneshot: bool,
}

pub fn registration_flags(policy: UfsInterruptPolicy) -> (r: IrqFlags)
    ensures
        r == (IrqFlags { shared: true, oneshot: policy == UfsInterruptPolicy::ThreadedAck }),
{
    match policy {
        UfsInterruptPolicy::EagerAck => IrqFlags { shared: true, oneshot: false },
        UfsInterruptPolicy::ThreadedAck => IrqFlags { shared: true, oneshot: true },
    }
}

/// The events latched by the primary handler and not yet taken by the
/// interrupt thread.
#[derive(Clone, Copy, Debug, PartialEq, Eq, Structural)]
pub struct PendingInterrupts {
    pub bits: u32,
}

impl PendingInterrupts {
    pub fn new() -> (r: PendingInterrupts)
        ensures
            r.bits == 0,
    {
        PendingInterrupts { bits: 0 }
    }

    /// Latches the events `status`.
    pub fn record(&mut self, status: u32)
        ensures
            final(self).bits == old(self).bits | status,
    {
        self.bits = self.bits | status;
    }

    /// Takes every latched event, leaving none.
    pub fn take(&mut self) -> (r: u32)
        ensures
            r == old(self).bits,
            final(self).bits == 0,
    {
        let bits = self.bits;
        self.bits = 0;
        bits
    }
}

/// No event is lost between the primary handler and the thread: after two
/// events are latched, the thread takes both, and a second take finds
/// nothing.
pub proof fn lemma_pending_interrupts_kept(a: u32, b: u32)
    ensures
        ({
            let p = PendingInterrupts { bits: 0 };
            let p1 = PendingInterrupts { bits: p.bits | a };
            let p2 = PendingInterrupts { bits: p1.bits | b };
            &&& p2.bits == a | b
            &&& p2.bits & a == a
            &&& p2.bits & b == b
        }),
{
    assert((0u32 | a) | b == a | b) by (bit_vector);
    assert((a | b) & a == a && (a | b) & b == b) by (bit_vector);
}

/// What the primary handler does with the events it read.
#[derive(Clone, Copy, Debug, PartialEq, Eq, Structural)]
pub enum PrimaryAction {
    /// Not this controller's interrupt.
    NotMine,
    /// Handled without waking the thread.
    Handled,
    /// Latch the events and wake the thread.
    WakeThread,
}

/// The UIC primary handler: events, when there are any, are latched for
/// the thread; they are acknowledged here (the second value) under the
/// eager policy.
pub fn uic_primary(status: u32, policy: UfsInterruptPolicy) -> (r: (PrimaryAction, bool))
    ensures
        status == 0 ==> r == (PrimaryAction::NotMine, false),
        status != 0 ==> r == (PrimaryAction::WakeThread, policy == UfsInterruptPolicy::EagerAck),
{
    if status == 0 {
        return (PrimaryAction::NotMine, false);
    }
    match policy {
        UfsInterruptPolicy::EagerAck => (PrimaryAction::WakeThread, true),
        UfsInterruptPolicy::ThreadedAck => (PrimaryAction::WakeThread, false),
    }
}

/// Whether the UIC thread acknowledges events it takes: under the threaded
/// policy it does.
pub fn uic_thread_acks(policy: UfsInterruptPolicy) -> (r: bool)
    ensures
        r == (policy == UfsInterruptPolicy::ThreadedAck),
{
    match policy {
        UfsInterruptPolicy::EagerAck => false,
        UfsInterruptPolicy::ThreadedAck => true,
    }
}

/// How the transfer primary handler acknowledges events.
#[derive(Clone, Copy, Debug, PartialEq, Eq, Structural)]
pub enum TransferAck {
    /// Acknowledge every transfer event.
    All,
    /// Acknowledge only the completion queue events.
    CqEvents,
}

/// The transfer primary handler, with events `status`: none means the
/// interrupt is not ours. The eager policy acknowledges all of them and
/// wakes the thread. The threaded policy acknowledges the completion queue
/// events; when per-queue handlers are active and nothing is left for the
/// thread (no doorbell completion, no error) it stops there, else it wakes
/// the thread. The last value tells whether an error event is reported.
pub fn transfer_primary(status: u32, policy: UfsInterruptPolicy, per_queue_active: bool) -> (r: (
    PrimaryAction,
    Option<TransferAck>,
    bool,
))
    ensures
        status == 0 ==> r == (PrimaryAction::NotMine, None::<TransferAck>, false),
        status != 0 && policy == UfsInterruptPolicy::EagerAck ==> r == (
            PrimaryAction::WakeThread,
            Some(TransferAck::All),
            status & ERROR_MASK != 0,
        ),
        status != 0 && policy == UfsInterruptPolicy::ThreadedAck ==> if per_queue_active && status
            & (UTP_TRANSFER_REQ_COMPL | ERROR_MASK) == 0 {
            r == (PrimaryAction::Handled, Some(TransferAck::CqEvents), false)
        } else {
            r == (PrimaryAction::WakeThread, Some(TransferAck::CqEvents), status & ERROR_MASK != 0)
        },
{
    if status == 0 {
        return (PrimaryAction::NotMine, None, false);
    }
    match policy {
        UfsInterruptPolicy::EagerAck => (
            PrimaryAction::WakeThread,
            Some(TransferAck::All),
            is_error_interrupt(status),
        ),
        UfsInterruptPolicy::ThreadedAck => {
            if per_queue_active && !has_deferred_transfer_interrupts(status) {
                (PrimaryAction::Handled, Some(TransferAck::CqEvents), false)
            } else {
                (PrimaryAction::WakeThread, Some(TransferAck::CqEvents), is_error_interrupt(status))
            }
        },
    }
}

/// What the transfer thread does with one set of taken events.
#[derive(Clone, Copy, Debug, PartialEq, Eq, Structural)]
pub struct TransferThreadStep {
    /// Read the UIC error registers.
    pub read_uic_errors: bool,
    /// Acknowledge the doorbell and error events.
    pub ack_deferred: bool,
    /// Recover from a transfer error.
    pub transfer_recovery: bool,
    /// Collect completions here (no per-queue handler does).
    pub complete: bool,
}

pub fn transfer_thread_step(status: u32, policy: UfsInterruptPolicy, per_queue_active: bool) -> (r:
    TransferThreadStep)
    ensures
        r == (TransferThreadStep {
            read_uic_errors: status & UIC_ERROR != 0,
            ack_deferred: policy == UfsInterruptPolicy::ThreadedAck,
            transfer_recovery: status & (ERROR_MASK & !UIC_ERROR) != 0,
            complete: !per_queue_active,
        }),
{
    TransferThreadStep {
        read_uic_errors: is_uic_error_interrupt(status),
        ack_deferred: match policy {
            UfsInterruptPolicy::EagerAck => false,
            UfsInterruptPolicy::ThreadedAck => true,
        },
        transfer_recovery: is_transfer_recovery_interrupt(status),
        complete: !per_queue_active,
    }
}

/// The recovery that UIC errors read in the transfer thread ask for, if
/// they are fatal.
pub fn uic_error_recovery(errors: &UicErrorStatus) -> (r: Option<RecoveryCause>)
    ensures
        errors.spec_requires_recovery() ==> r == Some(
            RecoveryCause {
                reason: crate::queue::RecoveryReason::Uic(*errors),
                scope: crate::queue::RecoveryScope::Controller,
                tag: 0,
            },
        ),
        !errors.spec_requires_recovery() ==> r is None,
        r is Some == (layer_reports(errors.data_link, 0x2000) || layer_reports(errors.network, 0x7)
            || layer_reports(errors.transport, 0x7f) || layer_reports(errors.dme, 0x1)),
{
    proof {
        lemma_recovery_by_layer(*errors);
    }
    if errors.requires_recovery() {
        Some(RecoveryCause::uic(*errors))
    } else {
        None
    }
}

/// The primary handler of a per-queue completion interrupt wakes its
/// thread when the queue reported events, or when reading them failed.
pub fn mcq_queue_primary(acknowledged: Result<bool>) -> (r: PrimaryAction)
    ensures
        r == (match acknowledged {
            Ok(false) => PrimaryAction::NotMine,
            _ => PrimaryAction::WakeThread,
        }),
{
    match acknowledged {
        Ok(false) => PrimaryAction::NotMine,
        _ => PrimaryAction::WakeThread,
    }
}

/// Whether per-queue completion interrupts are to be set up, with
/// `interrupt_queues` queues, whether the transfer interrupt is
/// registered, and whether per-queue handlers already are: nothing to do
/// without queues; a missing transfer interrupt is `NoDevice`; a second
/// setup is `Busy`.
pub fn mcq_irq_setup_check(interrupt_queues: usize, has_queue_irq: bool, registered: bool) -> (r:
    Result<bool>)
    ensures
        interrupt_queues == 0 ==> r == Ok::<bool, Error>(false),
        interrupt_queues != 0 && !has_queue_irq ==> r == Err::<bool, Error>(Error::NoDevice),
        interrupt_queues != 0 && has_queue_irq && registered ==> r == Err::<bool, Error>(
            Error::Busy,
        ),
        interrupt_queues != 0 && has_queue_irq && !registered ==> r == Ok::<bool, Error>(true),
{
    if interrupt_queues == 0 {
        return Ok(false);
    }
    if !has_queue_irq {
        return Err(Error::NoDevice);
    }
    if registered {
        return Err(Error::Busy);
    }
    Ok(true)
}

} // verus!
