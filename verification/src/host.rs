//! The host controller's life: start-up with its link retries, service,
//! and shutdown.
use vstd::prelude::*;

use crate::error::{Error, Result};

verus! {

pub const LINK_STARTUP_RETRIES: usize = 3;
pub const HBA_ENABLE_DELAY_US: u64 = 1000;
pub const SHUTDOWN_DRAIN_INTERVAL_MS: u64 = 1;
pub const SHUTDOWN_DRAIN_TIMEOUT_SECS: u64 = 30;

#[derive(Clone, Copy, Debug, PartialEq, Eq, Structural)]
pub enum HostState {
    Starting,
    Operational,
    Stopping,
    Stopped,
}

impl HostState {
    pub fn new() -> (r: HostState)
        ensures
            r == HostState::Starting,
    {
        HostState::Starting
    }

    /// Start-up is complete: only a starting host enters service.
    pub fn promote_to_operational(&mut self) -> (r: Result<()>)
        ensures
            *old(self) == HostState::Starting ==> r == Ok::<(), Error>(()) && *final(self)
                == HostState::Operational,
            *old(self) != HostState::Starting ==> r == Err::<(), Error>(Error::Invalid)
                && *final(self) == *old(self),
    {
        match *self {
            HostState::Starting => {
                *self = HostState::Operational;
                Ok(())
            },
            _ => Err(Error::Invalid),
        }
    }

    /// Shutdown starts; returns whether this call started it.
    pub fn begin_shutdown(&mut self) -> (r: bool)
        ensures
            r == (*old(self) == HostState::Starting || *old(self) == HostState::Operational),
            r ==> *final(self) == HostState::Stopping,
            !r ==> *final(self) == *old(self),
    {
        match *self {
            HostState::Starting | HostState::Operational => {
                *self = HostState::Stopping;
                true
            },
            _ => false,
        }
    }

    /// Shutdown is over.
    pub fn finish_shutdown(&mut self)
        ensures
            *final(self) == (if *old(self) == HostState::Stopping {
                HostState::Stopped
            } else {
                *old(self)
            }),
    {
        match *self {
            HostState::Stopping => *self = HostState::Stopped,
            _ => {},
        }
    }
}

/// Shutdown runs once: a second request finds it begun, and a stopped
/// host never returns to service.
pub proof fn lemma_shutdown_once(s: HostState)
    ensures
        ({
            let first = s == HostState::Starting || s == HostState::Operational;
            let s1 = if first {
                HostState::Stopping
            } else {
                s
            };
            let second = s1 == HostState::Starting || s1 == HostState::Operational;
            let s2 = if s1 == HostState::Stopping {
                HostState::Stopped
            } else {
                s1
            };
            &&& !second
            &&& first ==> s2 == HostState::Stopped
            &&& s2 != HostState::Starting
        }),
{
}

/// One step of taking the host out of service, in the order performed.
#[derive(Clone, Copy, Debug, PartialEq, Eq, Structural)]
pub enum ShutdownStep {
    /// Remove every logical unit's disk and forget the units. Removing a
    /// disk may submit final writeback, so the queues still run.
    RemoveDisks,
    /// Stop recovery and quiesce the request queues.
    QuiesceQueues,
    /// Wait for the requests in flight to drain, then for their completions.
    DrainRequests,
    /// Mask the controller's interrupts.
    DisableInterrupts,
    /// Free the interrupt lines.
    FreeIrqs,
    /// Wait for recovery work that is still queued.
    FlushRecovery,
    /// Disable the controller.
    StopController,
    /// Release the platform's own resources.
    ReleasePlatform,
}

/// The teardown that a shutdown performs, in order.
pub open spec fn shutdown_steps() -> Seq<ShutdownStep> {
    seq![
        ShutdownStep::RemoveDisks,
        ShutdownStep::QuiesceQueues,
        ShutdownStep::DrainRequests,
        ShutdownStep::DisableInterrupts,
        ShutdownStep::FreeIrqs,
        ShutdownStep::FlushRecovery,
        ShutdownStep::StopController,
        ShutdownStep::ReleasePlatform,
    ]
}

/// What a shutdown request does to the host state `s`, and the steps it
/// performs: a host in start-up or service begins stopping and is torn
/// down; one already stopping or stopped is left alone.
pub open spec fn spec_shutdown_plan(s: HostState) -> (HostState, Seq<ShutdownStep>) {
    if s == HostState::Starting || s == HostState::Operational {
        (HostState::Stopping, shutdown_steps())
    } else {
        (s, Seq::empty())
    }
}

/// The host state once the teardown of a shutdown is over.
pub open spec fn spec_finish_shutdown(s: HostState) -> HostState {
    if s == HostState::Stopping {
        HostState::Stopped
    } else {
        s
    }
}

impl HostState {
    /// A shutdown request: begins shutdown and gives the teardown to
    /// perform, or nothing when shutdown has already begun.
    pub fn shutdown(&mut self) -> (r: Vec<ShutdownStep>)
        ensures
            (*final(self), r@) == spec_shutdown_plan(*old(self)),
    {
        let mut steps: Vec<ShutdownStep> = Vec::new();
        if self.begin_shutdown() {
            steps.push(ShutdownStep::RemoveDisks);
            steps.push(ShutdownStep::QuiesceQueues);
            steps.push(ShutdownStep::DrainRequests);
            steps.push(ShutdownStep::DisableInterrupts);
            steps.push(ShutdownStep::FreeIrqs);
            steps.push(ShutdownStep::FlushRecovery);
            steps.push(ShutdownStep::StopController);
            steps.push(ShutdownStep::ReleasePlatform);
            assert(steps@ =~= shutdown_steps());
        } else {
            assert(steps@ =~= Seq::<ShutdownStep>::empty());
        }
        steps
    }
}

/// A second shutdown changes nothing: the first one, from start-up or
/// service, removes the disks, frees the interrupt lines and stops the
/// controller, and leaves the host stopped; a second request then performs
/// no step and the host stays stopped.
pub proof fn lemma_second_shutdown_does_nothing(s: HostState)
    requires
        s == HostState::Starting || s == HostState::Operational,
    ensures
        ({
            let (s1, first) = spec_shutdown_plan(s);
            let s2 = spec_finish_shutdown(s1);
            let (s3, second) = spec_shutdown_plan(s2);
            &&& first == shutdown_steps()
            &&& first.contains(ShutdownStep::RemoveDisks)
            &&& first.contains(ShutdownStep::FreeIrqs)
            &&& first.contains(ShutdownStep::StopController)
            &&& s2 == HostState::Stopped
            &&& second.len() == 0
            &&& s3 == HostState::Stopped
            &&& spec_finish_shutdown(s3) == HostState::Stopped
        }),
{
    assert(shutdown_steps()[0] == ShutdownStep::RemoveDisks);
    assert(shutdown_steps()[4] == ShutdownStep::FreeIrqs);
    assert(shutdown_steps()[6] == ShutdownStep::StopController);
}

/// The outcome of one link start-up attempt.
#[derive(Clone, Copy, Debug, PartialEq, Eq, Structural)]
pub enum LinkStep {
    /// The link is up and usable.
    Up,
    /// Restart the controller and try again.
    Retry,
    /// Give up: the link stays degraded.
    Fail(Error),
}

/// The link start-up retries left.
#[derive(Clone, Copy, Debug, PartialEq, Eq, Structural)]
pub struct LinkStartup {
    pub retries: usize,
}

/// The decision after an attempt whose link came up usable (`valid`) or
/// degraded: a degraded link is retried while retries are left.
pub open spec fn spec_after_attempt(s: LinkStartup, valid: bool) -> (LinkStartup, LinkStep) {
    if valid {
        (s, LinkStep::Up)
    } else if s.retries > 0 {
        (LinkStartup { retries: (s.retries - 1) as usize }, LinkStep::Retry)
    } else {
        (s, LinkStep::Fail(Error::Io))
    }
}

/// The state and last decision after `k` degraded attempts.
pub open spec fn degraded_attempts(s: LinkStartup, k: nat) -> (LinkStartup, LinkStep)
    decreases k,
{
    if k == 0 {
        (s, LinkStep::Retry)
    } else {
        spec_after_attempt(degraded_attempts(s, (k - 1) as nat).0, false)
    }
}

impl LinkStartup {
    pub fn new() -> (r: LinkStartup)
        ensures
            r.retries == LINK_STARTUP_RETRIES,
    {
        LinkStartup { retries: LINK_STARTUP_RETRIES }
    }

    pub fn after_attempt(&mut self, valid: bool) -> (r: LinkStep)
        ensures
            (*final(self), r) == spec_after_attempt(*old(self), valid),
    {
        if valid {
            LinkStep::Up
        } else if self.retries > 0 {
            self.retries = self.retries - 1;
            LinkStep::Retry
        } else {
            LinkStep::Fail(Error::Io)
        }
    }
}

/// Each degraded attempt within the retries uses up one retry.
proof fn lemma_degraded_prefix(s: LinkStartup, k: nat)
    requires
        k <= s.retries,
    ensures
        degraded_attempts(s, k).0.retries == s.retries - k,
        1 <= k ==> degraded_attempts(s, k).1 == LinkStep::Retry,
    decreases k,
{
    if k > 0 {
        lemma_degraded_prefix(s, (k - 1) as nat);
    }
}

/// A degraded link is retried as many times as the retries allow, and the
/// next degraded attempt fails start-up.
pub proof fn lemma_link_attempts_bounded(s: LinkStartup)
    ensures
        forall|k: nat|
            1 <= k <= s.retries ==> #[trigger] degraded_attempts(s, k).1 == LinkStep::Retry,
        degraded_attempts(s, (s.retries + 1) as nat).1 == LinkStep::Fail(Error::Io),
{
    assert forall|k: nat| 1 <= k <= s.retries implies #[trigger] degraded_attempts(s, k).1
        == LinkStep::Retry by {
        lemma_degraded_prefix(s, k);
    }
    lemma_degraded_prefix(s, s.retries as nat);
}

} // verus!
