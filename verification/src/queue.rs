//! The request queue: how hardware queues are mapped to block layer queue
//! types, the life of one request, recovery of the controller, and the
//! decisions taken when a completion is handed back to the block layer.
use vstd::prelude::*;

use crate::block::BlkStatus;
use crate::dma::prdt::{MappingRelease, UfsActiveMapping, UfsPreparedMapping};
use crate::protocol::query::UfsDevCmd;
use crate::protocol::scsi::UfsSCSICmd;
use crate::protocol::UfsCmd;
use crate::error::{Error, Result};
use crate::protocol::scsi::{
    parse_scsi_sense, spec_parse_scsi_sense, ScsiSense, UfsScsiCompletion, UfsScsiResult,
    UFS_SENSE_SIZE,
};
use crate::reg::UicErrorStatus;
use crate::command::TaskTag;
use crate::transport::{
    CompletedRequest, CompletedRequests, CompletionFault, McqConfig, SubmissionOutcome,
    UfsTransferConfig, COMPLETION_BATCH_SIZE,
};

verus! {

/// Whether a CHECK CONDITION with `sense` is worth retrying: a unit
/// attention is.
pub open spec fn spec_retryable_check_condition(sense: Option<ScsiSense>) -> bool {
    sense matches Some(s) && s.spec_is_unit_attention()
}

pub fn retryable_check_condition(sense: Option<ScsiSense>) -> (r: bool)
    ensures
        r == spec_retryable_check_condition(sense),
{
    match sense {
        Some(s) => s.is_unit_attention(),
        None => false,
    }
}

/// Whether a SCSI completion is handed back to the block layer for another
/// try rather than ended.
pub open spec fn spec_should_requeue_scsi(
    completion: UfsScsiCompletion,
    sense: Option<ScsiSense>,
) -> bool {
    ||| completion == UfsScsiCompletion::Busy
    ||| completion == UfsScsiCompletion::TaskSetFull
    ||| completion == UfsScsiCompletion::Requeue
    ||| (completion == UfsScsiCompletion::CheckCondition && spec_retryable_check_condition(sense))
}

pub fn should_requeue_scsi(completion: UfsScsiCompletion, sense: Option<ScsiSense>) -> (r: bool)
    ensures
        r == spec_should_requeue_scsi(completion, sense),
{
    match completion {
        UfsScsiCompletion::Busy | UfsScsiCompletion::TaskSetFull | UfsScsiCompletion::Requeue => {
            true
        },
        UfsScsiCompletion::CheckCondition => retryable_check_condition(sense),
        _ => false,
    }
}

/// The block layer status a SCSI completion ends its request with.
pub open spec fn spec_scsi_status(completion: UfsScsiCompletion, sense: Option<ScsiSense>) -> BlkStatus {
    match completion {
        UfsScsiCompletion::Good => BlkStatus::Success,
        UfsScsiCompletion::Busy | UfsScsiCompletion::TaskSetFull | UfsScsiCompletion::Requeue => {
            BlkStatus::Resource
        },
        UfsScsiCompletion::TaskAborted => BlkStatus::Target,
        UfsScsiCompletion::ReservationConflict => BlkStatus::ResvConflict,
        UfsScsiCompletion::CheckCondition => if spec_retryable_check_condition(sense) {
            BlkStatus::Resource
        } else {
            BlkStatus::IoErr
        },
        UfsScsiCompletion::Error => BlkStatus::IoErr,
    }
}

pub fn scsi_status(completion: UfsScsiCompletion, sense: Option<ScsiSense>) -> (r: BlkStatus)
    ensures
        r == spec_scsi_status(completion, sense),
{
    match completion {
        UfsScsiCompletion::Good => BlkStatus::Success,
        UfsScsiCompletion::Busy | UfsScsiCompletion::TaskSetFull | UfsScsiCompletion::Requeue => {
            BlkStatus::Resource
        },
        UfsScsiCompletion::TaskAborted => BlkStatus::Target,
        UfsScsiCompletion::ReservationConflict => BlkStatus::ResvConflict,
        UfsScsiCompletion::CheckCondition => {
            if retryable_check_condition(sense) {
                BlkStatus::Resource
            } else {
                BlkStatus::IoErr
            }
        },
        UfsScsiCompletion::Error => BlkStatus::IoErr,
    }
}

/// What is done with a request once its command has completed: end it with
/// a status, or hand it back to the block layer for another try.
#[derive(Clone, Copy, Debug, PartialEq, Eq, Structural)]
pub enum CompletionDisposition {
    End(BlkStatus),
    Requeue,
}

/// How a SCSI completion is handled: the sense data it carries, whether it
/// is reported, whether it is retried, its status and its disposition.
#[derive(Clone, Copy, Debug, PartialEq, Eq, Structural)]
pub struct ScsiCompletionDecision {
    pub sense_len: usize,
    pub sense: Option<ScsiSense>,
    pub report: bool,
    pub requeue: bool,
    pub status: BlkStatus,
    pub disposition: CompletionDisposition,
}

/// The sense length that can be read: the reported length, at most the
/// size of the sense buffer.
pub open spec fn spec_sense_len(reported: usize) -> usize {
    if reported < UFS_SENSE_SIZE {
        reported
    } else {
        UFS_SENSE_SIZE
    }
}

/// The handling of a SCSI completion `result`. A CHECK CONDITION that only
/// reports a power-on reset is not reported as an error.
pub open spec fn spec_scsi_completion_decision(result: UfsScsiResult) -> ScsiCompletionDecision {
    let sense_len = spec_sense_len(result.sense_data_len);
    let sense = spec_parse_scsi_sense(result.sense_data@, sense_len as int);
    let suppress = result.completion == UfsScsiCompletion::CheckCondition && (sense matches Some(
        s,
    ) && s.spec_is_power_on_reset());
    let requeue = spec_should_requeue_scsi(result.completion, sense);
    let status = spec_scsi_status(result.completion, sense);
    ScsiCompletionDecision {
        sense_len,
        sense,
        report: result.completion != UfsScsiCompletion::Good && !suppress,
        requeue,
        status,
        disposition: if requeue {
            CompletionDisposition::Requeue
        } else {
            CompletionDisposition::End(status)
        },
    }
}

pub fn scsi_completion_decision(result: &UfsScsiResult) -> (r: ScsiCompletionDecision)
    ensures
        r == spec_scsi_completion_decision(*result),
{
    let sense_len = if result.sense_data_len < UFS_SENSE_SIZE {
        result.sense_data_len
    } else {
        UFS_SENSE_SIZE
    };
    let sense = parse_scsi_sense(&result.sense_data, sense_len);
    let suppress = match result.completion {
        UfsScsiCompletion::CheckCondition => match sense {
            Some(s) => s.is_power_on_reset(),
            None => false,
        },
        _ => false,
    };
    let requeue = should_requeue_scsi(result.completion, sense);
    let status = scsi_status(result.completion, sense);
    let good = match result.completion {
        UfsScsiCompletion::Good => true,
        _ => false,
    };
    ScsiCompletionDecision {
        sense_len,
        sense,
        report: !good && !suppress,
        requeue,
        status,
        disposition: if requeue {
            CompletionDisposition::Requeue
        } else {
            CompletionDisposition::End(status)
        },
    }
}

/// A retried SCSI completion is never ended with a success status, and a
/// good completion is ended with success and never retried.
pub proof fn lemma_scsi_decision_consistent(result: UfsScsiResult)
    ensures
        ({
            let d = spec_scsi_completion_decision(result);
            &&& d.requeue ==> d.status == BlkStatus::Resource
            &&& result.completion == UfsScsiCompletion::Good ==> (d.disposition
                == CompletionDisposition::End(BlkStatus::Success) && !d.report)
            &&& d.status == BlkStatus::Success ==> result.completion == UfsScsiCompletion::Good
        }),
{
}

/// The block layer queue types that hardware queues are mapped to.
#[derive(Clone, Copy, Debug, PartialEq, Eq, Structural)]
pub enum QueueType {
    Default,
    Read,
    Poll,
}

/// A contiguous run of hardware queues.
#[derive(Clone, Copy, Debug, PartialEq, Eq, Structural)]
pub struct UfsQueueRange {
    pub offset: usize,
    pub count: usize,
}

impl UfsQueueRange {
    pub open spec fn spec_contains(self, q: int) -> bool {
        self.offset <= q < self.offset + self.count
    }

    pub fn offset(&self) -> (r: usize)
        ensures
            r == self.offset,
    {
        self.offset
    }

    pub fn count(&self) -> (r: usize)
        ensures
            r == self.count,
    {
        self.count
    }
}

/// How the hardware queues are split between default, read and poll
/// queues.
#[derive(Clone, Copy, Debug, PartialEq, Eq, Structural)]
pub struct UfsQueueMap {
    pub nr_hw_queues: usize,
    pub default: UfsQueueRange,
    pub read: UfsQueueRange,
    pub poll: UfsQueueRange,
}

impl UfsQueueMap {
    /// The ranges lie one after the other, from queue 0, and cover every
    /// hardware queue.
    pub open spec fn partitions(self) -> bool {
        &&& self.default.offset == 0
        &&& self.read.offset == self.default.offset + self.default.count
        &&& self.poll.offset == self.read.offset + self.read.count
        &&& self.poll.offset + self.poll.count == self.nr_hw_queues
    }

    pub open spec fn spec_range(self, kind: QueueType) -> UfsQueueRange {
        match kind {
            QueueType::Default => self.default,
            QueueType::Read => self.read,
            QueueType::Poll => self.poll,
        }
    }

    /// The single doorbell queue, serving both default and polled requests.
    pub fn sdb() -> (r: UfsQueueMap)
        ensures
            r == (UfsQueueMap {
                nr_hw_queues: 1,
                default: UfsQueueRange { offset: 0, count: 1 },
                read: UfsQueueRange { offset: 0, count: 0 },
                poll: UfsQueueRange { offset: 0, count: 1 },
            }),
    {
        UfsQueueMap {
            nr_hw_queues: 1,
            default: UfsQueueRange { offset: 0, count: 1 },
            read: UfsQueueRange { offset: 0, count: 0 },
            poll: UfsQueueRange { offset: 0, count: 1 },
        }
    }

    /// A map of `nr_hw_queues` queues: default queues first, then read
    /// queues, then poll queues. The three counts must add up to the
    /// number of hardware queues, which may not be zero.
    pub fn new(
        nr_hw_queues: usize,
        default_queues: usize,
        read_queues: usize,
        poll_queues: usize,
    ) -> (r: Result<UfsQueueMap>)
        ensures
            default_queues + read_queues + poll_queues > usize::MAX ==> r == Err::<
                UfsQueueMap,
                Error,
            >(Error::Overflow),
            default_queues + read_queues + poll_queues <= usize::MAX ==> (if nr_hw_queues == 0
                || default_queues + read_queues + poll_queues != nr_hw_queues {
                r == Err::<UfsQueueMap, Error>(Error::Invalid)
            } else {
                r == Ok::<UfsQueueMap, Error>(
                    UfsQueueMap {
                        nr_hw_queues,
                        default: UfsQueueRange { offset: 0, count: default_queues },
                        read: UfsQueueRange { offset: default_queues, count: read_queues },
                        poll: UfsQueueRange {
                            offset: (default_queues + read_queues) as usize,
                            count: poll_queues,
                        },
                    },
                )
            }),
    {
        let mapped = match default_queues.checked_add(read_queues) {
            Some(q) => q.checked_add(poll_queues),
            None => None,
        };
        let mapped = match mapped {
            Some(m) => m,
            None => return Err(Error::Overflow),
        };
        if nr_hw_queues == 0 || mapped != nr_hw_queues {
            return Err(Error::Invalid);
        }
        let read_offset = default_queues;
        let poll_offset = read_offset + read_queues;
        Ok(
            UfsQueueMap {
                nr_hw_queues,
                default: UfsQueueRange { offset: 0, count: default_queues },
                read: UfsQueueRange { offset: read_offset, count: read_queues },
                poll: UfsQueueRange { offset: poll_offset, count: poll_queues },
            },
        )
    }

    pub fn nr_hw_queues(&self) -> (r: usize)
        ensures
            r == self.nr_hw_queues,
    {
        self.nr_hw_queues
    }

    pub fn range(&self, kind: QueueType) -> (r: UfsQueueRange)
        ensures
            r == self.spec_range(kind),
    {
        match kind {
            QueueType::Default => self.default,
            QueueType::Read => self.read,
            QueueType::Poll => self.poll,
        }
    }

    pub open spec fn spec_num_maps(self) -> u32 {
        if self.poll.count > 0 {
            3
        } else if self.read.count > 0 {
            2
        } else {
            1
        }
    }

    /// The number of queue maps the block layer needs to express this
    /// layout: every type up to the last one that has queues.
    pub fn num_maps(&self) -> (r: u32)
        ensures
            r == self.spec_num_maps(),
    {
        if self.poll.count > 0 {
            3
        } else if self.read.count > 0 {
            2
        } else {
            1
        }
    }
}

/// A map laid out as `UfsQueueMap::new` lays it out puts every hardware
/// queue in exactly one range, and asks for a map of every type that has
/// queues.
pub proof fn lemma_queue_map_partitions(m: UfsQueueMap)
    requires
        m.default.offset == 0,
        m.read.offset == m.default.count,
        m.poll.offset == m.default.count + m.read.count,
        m.default.count + m.read.count + m.poll.count == m.nr_hw_queues,
    ensures
        m.partitions(),
        m.read.count > 0 ==> m.spec_num_maps() >= 2,
        m.poll.count > 0 ==> m.spec_num_maps() == 3,
        forall|q: int|
            0 <= q < m.nr_hw_queues ==> {
                let d = #[trigger] m.default.spec_contains(q);
                let r = m.read.spec_contains(q);
                let p = m.poll.spec_contains(q);
                &&& d || r || p
                &&& d ==> !r && !p
                &&& r ==> !p
            },
{
}

/// The queue map of a multi-circular queue layout.
pub fn mcq_queue_map(config: &McqConfig) -> (r: Result<UfsQueueMap>)
    ensures
        r == spec_queue_map(UfsTransferConfig::Mcq(*config)),
{
    UfsQueueMap::new(
        config.total_queues,
        config.default_queues,
        config.read_queues,
        config.poll_queues,
    )
}

pub open spec fn spec_queue_map(config: UfsTransferConfig) -> Result<UfsQueueMap> {
    match config {
        UfsTransferConfig::Sdb { .. } => Ok(
            UfsQueueMap {
                nr_hw_queues: 1,
                default: UfsQueueRange { offset: 0, count: 1 },
                read: UfsQueueRange { offset: 0, count: 0 },
                poll: UfsQueueRange { offset: 0, count: 1 },
            },
        ),
        UfsTransferConfig::Mcq(c) => {
            let mapped = c.default_queues + c.read_queues + c.poll_queues;
            if mapped > usize::MAX {
                Err(Error::Overflow)
            } else if c.total_queues == 0 || mapped != c.total_queues {
                Err(Error::Invalid)
            } else {
                Ok(
                    UfsQueueMap {
                        nr_hw_queues: c.total_queues,
                        default: UfsQueueRange { offset: 0, count: c.default_queues },
                        read: UfsQueueRange { offset: c.default_queues, count: c.read_queues },
                        poll: UfsQueueRange {
                            offset: (c.default_queues + c.read_queues) as usize,
                            count: c.poll_queues,
                        },
                    },
                )
            }
        },
    }
}

/// The queue map of a transport configuration.
pub fn queue_map(config: &UfsTransferConfig) -> (r: Result<UfsQueueMap>)
    ensures
        r == spec_queue_map(*config),
{
    match config {
        UfsTransferConfig::Sdb { .. } => Ok(UfsQueueMap::sdb()),
        UfsTransferConfig::Mcq(c) => mcq_queue_map(c),
    }
}

/// Where a request stands in its life between the block layer and the
/// controller.
#[derive(Clone, Copy)]
pub enum UfsRequestState {
    Idle,
    /// Composed, not yet visible to the controller.
    Prepared { cmd: UfsCmd, mapping: UfsPreparedMapping },
    /// Published to the controller on queue `queue_id`.
    InFlight { cmd: UfsCmd, mapping: UfsActiveMapping, queue_id: u32 },
    /// Timed out while published; left to recovery, though a late
    /// completion is still taken.
    Recovering { cmd: UfsCmd, mapping: UfsActiveMapping, queue_id: u32 },
    /// Its completion is being processed.
    Completing,
    /// Its completion is decided and waits to be handed to the block layer.
    CompletionReady(CompletionDisposition),
    /// A device management command with its answer.
    DeviceComplete(UfsDevCmd),
}

/// What a timeout found.
#[derive(Clone, Copy)]
pub enum TimeoutDisposition {
    /// The command was published: recovery must start.
    StartRecovery(UfsCmd),
    /// Recovery was already started for it.
    Recovering(UfsCmd),
    /// The command was never published.
    Pending(UfsCmd),
    /// The request is no longer outstanding.
    Completed,
}

pub open spec fn spec_prepare_device(s: UfsRequestState, cmd: UfsCmd) -> (UfsRequestState, Result<()>) {
    if cmd is Device && s is Idle {
        (UfsRequestState::Prepared { cmd, mapping: UfsPreparedMapping::Unmapped }, Ok(()))
    } else {
        (s, Err(Error::Invalid))
    }
}

pub open spec fn spec_prepare_scsi(
    s: UfsRequestState,
    cmd: UfsSCSICmd,
    mapping: UfsPreparedMapping,
) -> (UfsRequestState, Result<()>) {
    if s is Idle {
        (UfsRequestState::Prepared { cmd: UfsCmd::Scsi(cmd), mapping }, Ok(()))
    } else {
        (s, Err(Error::Busy))
    }
}

pub open spec fn spec_prepared_command(s: UfsRequestState) -> Result<UfsCmd> {
    match s {
        UfsRequestState::Prepared { cmd, .. } => Ok(cmd),
        _ => Err(Error::Io),
    }
}

pub open spec fn spec_mark_in_flight(s: UfsRequestState, queue_id: u32) -> (UfsRequestState, Result<()>) {
    match s {
        UfsRequestState::Prepared { cmd, mapping } => (
            UfsRequestState::InFlight { cmd, mapping: UfsActiveMapping { mapping }, queue_id },
            Ok(()),
        ),
        _ => (s, Err(Error::Io)),
    }
}

pub open spec fn spec_begin_completion(s: UfsRequestState, queue_id: u32) -> (
    UfsRequestState,
    Result<(UfsCmd, UfsActiveMapping)>,
) {
    match s {
        UfsRequestState::InFlight { cmd, mapping, queue_id: q } => if q == queue_id {
            (UfsRequestState::Completing, Ok((cmd, mapping)))
        } else {
            (s, Err(Error::Io))
        },
        UfsRequestState::Recovering { cmd, mapping, queue_id: q } => if q == queue_id {
            (UfsRequestState::Completing, Ok((cmd, mapping)))
        } else {
            (s, Err(Error::Io))
        },
        _ => (s, Err(Error::Io)),
    }
}

pub open spec fn spec_timeout(s: UfsRequestState) -> (UfsRequestState, TimeoutDisposition) {
    match s {
        UfsRequestState::Prepared { cmd, .. } => (s, TimeoutDisposition::Pending(cmd)),
        UfsRequestState::InFlight { cmd, mapping, queue_id } => (
            UfsRequestState::Recovering { cmd, mapping, queue_id },
            TimeoutDisposition::StartRecovery(cmd),
        ),
        UfsRequestState::Recovering { cmd, .. } => (s, TimeoutDisposition::Recovering(cmd)),
        _ => (s, TimeoutDisposition::Completed),
    }
}

pub open spec fn spec_complete_device(s: UfsRequestState, cmd: UfsDevCmd) -> (UfsRequestState, Result<()>) {
    if s is Completing {
        (UfsRequestState::DeviceComplete(cmd), Ok(()))
    } else {
        (s, Err(Error::Io))
    }
}

pub open spec fn spec_schedule_completion(
    s: UfsRequestState,
    disposition: CompletionDisposition,
) -> (UfsRequestState, Result<()>) {
    if s is Completing {
        (UfsRequestState::CompletionReady(disposition), Ok(()))
    } else {
        (s, Err(Error::Io))
    }
}

pub open spec fn spec_take_scheduled_completion(s: UfsRequestState) -> (
    UfsRequestState,
    Result<CompletionDisposition>,
) {
    match s {
        UfsRequestState::CompletionReady(d) => (UfsRequestState::Idle, Ok(d)),
        _ => (s, Err(Error::Io)),
    }
}

pub open spec fn spec_finish_direct_completion(s: UfsRequestState) -> (UfsRequestState, Result<()>) {
    if s is Completing {
        (UfsRequestState::Idle, Ok(()))
    } else {
        (s, Err(Error::Io))
    }
}

pub open spec fn spec_take_device_completion(s: UfsRequestState) -> (UfsRequestState, Result<UfsCmd>) {
    match s {
        UfsRequestState::DeviceComplete(c) => (UfsRequestState::Idle, Ok(UfsCmd::Device(c))),
        _ => (s, Err(Error::Io)),
    }
}

/// How recovery lets go of a published request: its mapping is released
/// when the controller has stopped (`dma_ended`) and leaked otherwise; a
/// device management request that is to be retried goes back to
/// `Prepared`, any other request to `Idle`.
pub open spec fn spec_prepare_recovery_disposition(
    s: UfsRequestState,
    requeue: bool,
    dma_ended: bool,
) -> (UfsRequestState, Result<MappingRelease>) {
    match s {
        UfsRequestState::InFlight { cmd, mapping, .. } | UfsRequestState::Recovering {
            cmd,
            mapping,
            ..
        } => {
            let release = if dma_ended || mapping.mapping == UfsPreparedMapping::Unmapped {
                MappingRelease::Released
            } else {
                MappingRelease::Leaked
            };
            let next = if requeue && cmd is Device {
                UfsRequestState::Prepared { cmd, mapping: UfsPreparedMapping::Unmapped }
            } else {
                UfsRequestState::Idle
            };
            (next, Ok(release))
        },
        _ => (s, Err(Error::Io)),
    }
}

/// The state of one request, kept with it for as long as the block layer
/// lends it to the driver.
pub struct UfsRequestInner {
    state: UfsRequestState,
}

impl View for UfsRequestInner {
    type V = UfsRequestState;

    closed spec fn view(&self) -> UfsRequestState {
        self.state
    }
}

impl Default for UfsRequestInner {
    fn default() -> (r: UfsRequestInner)
        ensures
            r@ is Idle,
    {
        UfsRequestInner { state: UfsRequestState::Idle }
    }
}

impl UfsRequestInner {
    pub fn state(&self) -> (r: UfsRequestState)
        ensures
            r == self@,
    {
        self.state
    }

    /// Prepares a device management command; only an idle request takes
    /// one.
    pub fn prepare_device(&mut self, cmd: UfsCmd) -> (r: Result<()>)
        ensures
            (final(self)@, r) == spec_prepare_device(old(self)@, cmd),
    {
        match (cmd, self.state) {
            (UfsCmd::Device(_), UfsRequestState::Idle) => {
                self.state = UfsRequestState::Prepared {
                    cmd,
                    mapping: UfsPreparedMapping::Unmapped,
                };
                Ok(())
            },
            _ => Err(Error::Invalid),
        }
    }

    /// Prepares a SCSI command with its data mapping; a request that is
    /// not idle is busy.
    pub fn prepare_scsi(&mut self, cmd: UfsSCSICmd, mapping: UfsPreparedMapping) -> (r: Result<()>)
        ensures
            (final(self)@, r) == spec_prepare_scsi(old(self)@, cmd, mapping),
    {
        match self.state {
            UfsRequestState::Idle => {
                self.state = UfsRequestState::Prepared { cmd: UfsCmd::Scsi(cmd), mapping };
                Ok(())
            },
            _ => Err(Error::Busy),
        }
    }

    pub fn prepared_command(&self) -> (r: Result<UfsCmd>)
        ensures
            r == spec_prepared_command(self@),
    {
        match self.state {
            UfsRequestState::Prepared { cmd, .. } => Ok(cmd),
            _ => Err(Error::Io),
        }
    }

    /// Publishes the prepared command on queue `queue_id`.
    pub fn mark_in_flight(&mut self, queue_id: u32) -> (r: Result<()>)
        ensures
            (final(self)@, r) == spec_mark_in_flight(old(self)@, queue_id),
    {
        match self.state {
            UfsRequestState::Prepared { cmd, mapping } => {
                self.state = UfsRequestState::InFlight {
                    cmd,
                    mapping: mapping.publish(),
                    queue_id,
                };
                Ok(())
            },
            _ => Err(Error::Io),
        }
    }

    /// Takes the command and its mapping for completion; only a command
    /// published on `queue_id` completes there.
    pub fn begin_completion(&mut self, queue_id: u32) -> (r: Result<(UfsCmd, UfsActiveMapping)>)
        ensures
            (final(self)@, r) == spec_begin_completion(old(self)@, queue_id),
    {
        match self.state {
            UfsRequestState::InFlight { cmd, mapping, queue_id: q }
            | UfsRequestState::Recovering { cmd, mapping, queue_id: q } => {
                if q == queue_id {
                    self.state = UfsRequestState::Completing;
                    Ok((cmd, mapping))
                } else {
                    Err(Error::Io)
                }
            },
            _ => Err(Error::Io),
        }
    }

    /// Notes that the block layer timed the request out.
    pub fn timeout(&mut self) -> (r: TimeoutDisposition)
        ensures
            (final(self)@, r) == spec_timeout(old(self)@),
    {
        match self.state {
            UfsRequestState::Prepared { cmd, .. } => TimeoutDisposition::Pending(cmd),
            UfsRequestState::InFlight { cmd, mapping, queue_id } => {
                self.state = UfsRequestState::Recovering { cmd, mapping, queue_id };
                TimeoutDisposition::StartRecovery(cmd)
            },
            UfsRequestState::Recovering { cmd, .. } => TimeoutDisposition::Recovering(cmd),
            _ => TimeoutDisposition::Completed,
        }
    }

    pub fn complete_device(&mut self, cmd: UfsDevCmd) -> (r: Result<()>)
        ensures
            (final(self)@, r) == spec_complete_device(old(self)@, cmd),
    {
        match self.state {
            UfsRequestState::Completing => {
                self.state = UfsRequestState::DeviceComplete(cmd);
                Ok(())
            },
            _ => Err(Error::Io),
        }
    }

    pub fn schedule_completion(&mut self, disposition: CompletionDisposition) -> (r: Result<()>)
        ensures
            (final(self)@, r) == spec_schedule_completion(old(self)@, disposition),
    {
        match self.state {
            UfsRequestState::Completing => {
                self.state = UfsRequestState::CompletionReady(disposition);
                Ok(())
            },
            _ => Err(Error::Io),
        }
    }

    pub fn take_scheduled_completion(&mut self) -> (r: Result<CompletionDisposition>)
        ensures
            (final(self)@, r) == spec_take_scheduled_completion(old(self)@),
    {
        match self.state {
            UfsRequestState::CompletionReady(d) => {
                self.state = UfsRequestState::Idle;
                Ok(d)
            },
            _ => Err(Error::Io),
        }
    }

    pub fn finish_direct_completion(&mut self) -> (r: Result<()>)
        ensures
            (final(self)@, r) == spec_finish_direct_completion(old(self)@),
    {
        match self.state {
            UfsRequestState::Completing => {
                self.state = UfsRequestState::Idle;
                Ok(())
            },
            _ => Err(Error::Io),
        }
    }

    pub fn take_device_completion(&mut self) -> (r: Result<UfsCmd>)
        ensures
            (final(self)@, r) == spec_take_device_completion(old(self)@),
    {
        match self.state {
            UfsRequestState::DeviceComplete(c) => {
                self.state = UfsRequestState::Idle;
                Ok(UfsCmd::Device(c))
            },
            _ => Err(Error::Io),
        }
    }

    pub fn reset(&mut self)
        ensures
            final(self)@ is Idle,
    {
        self.state = UfsRequestState::Idle;
    }

    /// Lets go of a published request during recovery; see
    /// `spec_prepare_recovery_disposition`.
    pub fn prepare_recovery_disposition(&mut self, requeue: bool, dma_ended: bool) -> (r: Result<
        MappingRelease,
    >)
        ensures
            (final(self)@, r) == spec_prepare_recovery_disposition(old(self)@, requeue, dma_ended),
    {
        match self.state {
            UfsRequestState::InFlight { cmd, mapping, .. }
            | UfsRequestState::Recovering { cmd, mapping, .. } => {
                let release = if dma_ended {
                    mapping.complete()
                } else {
                    mapping.abandon()
                };
                let device = match cmd {
                    UfsCmd::Device(_) => true,
                    UfsCmd::Scsi(_) => false,
                };
                if requeue && device {
                    self.state = UfsRequestState::Prepared {
                        cmd,
                        mapping: UfsPreparedMapping::Unmapped,
                    };
                } else {
                    self.state = UfsRequestState::Idle;
                }
                Ok(release)
            },
            _ => Err(Error::Io),
        }
    }
}

/// A SCSI request taken from idle through publication on a queue and a
/// completion on that same queue hands back the command and mapping it was
/// prepared with, and returns to idle once its completion is collected.
pub proof fn lemma_request_round_trip(
    cmd: UfsSCSICmd,
    mapping: UfsPreparedMapping,
    queue_id: u32,
    disposition: CompletionDisposition,
)
    ensures
        ({
            let (s1, r1) = spec_prepare_scsi(UfsRequestState::Idle, cmd, mapping);
            let (s2, r2) = spec_mark_in_flight(s1, queue_id);
            let (s3, r3) = spec_begin_completion(s2, queue_id);
            let (s4, r4) = spec_schedule_completion(s3, disposition);
            let (s5, r5) = spec_take_scheduled_completion(s4);
            &&& r1 is Ok && r2 is Ok && r4 is Ok
            &&& r3 matches Ok((c, m)) && c == UfsCmd::Scsi(cmd) && m.mapping == mapping
            &&& r5 == Ok::<CompletionDisposition, Error>(disposition)
            &&& s5 is Idle
        }),
{
}

/// A completion reported on another queue than the one the command was
/// published on is refused and leaves the request untouched.
pub proof fn lemma_completion_on_other_queue_refused(s: UfsRequestState, queue_id: u32)
    requires
        s matches UfsRequestState::InFlight { queue_id: q, .. } && q != queue_id,
    ensures
        spec_begin_completion(s, queue_id) == (s, Err::<(UfsCmd, UfsActiveMapping), Error>(
            Error::Io,
        )),
{
}

/// A published request starts recovery on its first timeout only; a later
/// timeout finds recovery under way, and a late completion on its queue is
/// still taken.
pub proof fn lemma_timeout_starts_recovery_once(s: UfsRequestState)
    requires
        s is InFlight,
    ensures
        ({
            let (s1, d1) = spec_timeout(s);
            let (s2, d2) = spec_timeout(s1);
            &&& d1 is StartRecovery
            &&& d2 is Recovering
            &&& s2 == s1
            &&& spec_begin_completion(s1, s->InFlight_queue_id).1 == spec_begin_completion(
                s,
                s->InFlight_queue_id,
            ).1
        }),
{
}

/// Recovery never releases a mapping the controller may still use: without
/// a stopped controller only an empty mapping is released.
pub proof fn lemma_recovery_keeps_live_mappings(s: UfsRequestState, requeue: bool)
    requires
        s matches UfsRequestState::InFlight { mapping, .. } && mapping.mapping
            != UfsPreparedMapping::Unmapped,
    ensures
        spec_prepare_recovery_disposition(s, requeue, false).1 == Ok::<MappingRelease, Error>(
            MappingRelease::Leaked,
        ),
        spec_prepare_recovery_disposition(s, requeue, true).1 == Ok::<MappingRelease, Error>(
            MappingRelease::Released,
        ),
{
}

/// Why the controller has to be recovered.
#[derive(Clone, Copy, Debug, PartialEq, Eq)]
pub enum RecoveryReason {
    /// A driver-detected inconsistency, by name.
    Driver(&'static str),
    /// A fatal error reported by the UIC layers.
    Uic(UicErrorStatus),
    /// A completion entry that matched no command of its queue.
    InvalidMcqCompletion,
}

impl RecoveryReason {
    pub fn name(&self) -> (r: &'static str)
        ensures
            match *self {
                RecoveryReason::Driver(reason) => r == reason,
                RecoveryReason::Uic(_) => r@ == "fatal UIC error"@,
                RecoveryReason::InvalidMcqCompletion => r@
                    == "invalid MCQ completion descriptor"@,
            },
    {
        match *self {
            RecoveryReason::Driver(reason) => reason,
            RecoveryReason::Uic(_) => "fatal UIC error",
            RecoveryReason::InvalidMcqCompletion => "invalid MCQ completion descriptor",
        }
    }

    pub fn uic_errors(&self) -> (r: Option<UicErrorStatus>)
        ensures
            r == (match *self {
                RecoveryReason::Uic(e) => Some(e),
                _ => None,
            }),
    {
        match *self {
            RecoveryReason::Uic(e) => Some(e),
            _ => None,
        }
    }
}

/// What recovery was asked for: the whole controller or one queue.
#[derive(Clone, Copy, Debug, PartialEq, Eq, Structural)]
pub enum RecoveryScope {
    Controller,
    Queue(u32),
}

impl RecoveryScope {
    pub fn queue_id(&self) -> (r: Option<u32>)
        ensures
            r == (match *self {
                RecoveryScope::Controller => None,
                RecoveryScope::Queue(q) => Some(q),
            }),
    {
        match *self {
            RecoveryScope::Controller => None,
            RecoveryScope::Queue(q) => Some(q),
        }
    }
}

#[derive(Clone, Copy, Debug, PartialEq, Eq)]
pub struct RecoveryCause {
    pub reason: RecoveryReason,
    pub scope: RecoveryScope,
    pub tag: usize,
}

impl RecoveryCause {
    /// A driver-detected inconsistency around task tag `tag`.
    pub fn driver(reason: &'static str, tag: usize) -> (r: RecoveryCause)
        ensures
            r == (RecoveryCause {
                reason: RecoveryReason::Driver(reason),
                scope: RecoveryScope::Controller,
                tag,
            }),
    {
        RecoveryCause { reason: RecoveryReason::Driver(reason), scope: RecoveryScope::Controller, tag }
    }

    /// A fatal UIC error.
    pub fn uic(errors: UicErrorStatus) -> (r: RecoveryCause)
        ensures
            r == (RecoveryCause {
                reason: RecoveryReason::Uic(errors),
                scope: RecoveryScope::Controller,
                tag: 0,
            }),
    {
        RecoveryCause { reason: RecoveryReason::Uic(errors), scope: RecoveryScope::Controller, tag: 0 }
    }

    /// An invalid completion entry on queue `queue_id`.
    pub fn mcq(queue_id: u32, tag: usize) -> (r: RecoveryCause)
        ensures
            r == (RecoveryCause {
                reason: RecoveryReason::InvalidMcqCompletion,
                scope: RecoveryScope::Queue(queue_id),
                tag,
            }),
    {
        RecoveryCause {
            reason: RecoveryReason::InvalidMcqCompletion,
            scope: RecoveryScope::Queue(queue_id),
            tag,
        }
    }
}

/// Where the controller stands with respect to recovery.
#[derive(Clone, Copy, Debug, PartialEq, Eq)]
pub enum RecoveryState {
    Operational,
    /// Recovery is asked for and scheduled.
    Requested(RecoveryCause),
    /// Recovery runs and is stopping the block layer queues.
    Quiescing(RecoveryCause),
    /// Recovery resets the controller.
    Recovering(RecoveryCause),
    /// Recovery failed; the controller stays out of service.
    Failed(RecoveryCause),
    Shutdown,
}

pub open spec fn spec_recovery_cause(s: RecoveryState) -> Option<RecoveryCause> {
    match s {
        RecoveryState::Requested(c) | RecoveryState::Quiescing(c) | RecoveryState::Recovering(c)
        | RecoveryState::Failed(c) => Some(c),
        _ => None,
    }
}

/// Asks for recovery: only an operational controller schedules it.
pub open spec fn spec_request_recovery(s: RecoveryState, cause: RecoveryCause) -> (
    RecoveryState,
    bool,
) {
    if s is Operational {
        (RecoveryState::Requested(cause), true)
    } else {
        (s, false)
    }
}

/// The scheduled recovery starts: it takes the requested cause.
pub open spec fn spec_begin_quiesce(s: RecoveryState) -> (RecoveryState, Option<RecoveryCause>) {
    match s {
        RecoveryState::Requested(c) => (RecoveryState::Quiescing(c), Some(c)),
        _ => (s, None),
    }
}

/// The queues are stopped: recovery goes on unless it was cut short.
pub open spec fn spec_begin_recovering(s: RecoveryState, cause: RecoveryCause) -> (
    RecoveryState,
    bool,
) {
    if s is Quiescing {
        (RecoveryState::Recovering(cause), true)
    } else {
        (s, false)
    }
}

/// Recovery ends: back in service when it succeeded, failed otherwise;
/// nothing changes if recovery was cut short. Returns whether the queues
/// resume.
pub open spec fn spec_finish_recovery(s: RecoveryState, cause: RecoveryCause, success: bool) -> (
    RecoveryState,
    bool,
) {
    if s is Recovering {
        if success {
            (RecoveryState::Operational, true)
        } else {
            (RecoveryState::Failed(cause), false)
        }
    } else {
        (s, false)
    }
}

impl RecoveryState {
    pub fn new() -> (r: RecoveryState)
        ensures
            r == RecoveryState::Operational,
    {
        RecoveryState::Operational
    }

    pub fn cause(&self) -> (r: Option<RecoveryCause>)
        ensures
            r == spec_recovery_cause(*self),
    {
        match *self {
            RecoveryState::Requested(c) | RecoveryState::Quiescing(c)
            | RecoveryState::Recovering(c) | RecoveryState::Failed(c) => Some(c),
            _ => None,
        }
    }

    /// Whether new submissions and completions must wait for recovery.
    pub fn recovery_required(&self) -> (r: bool)
        ensures
            r == spec_recovery_cause(*self) is Some,
    {
        self.cause().is_some()
    }

    /// Asks for recovery for `cause`; returns whether recovery is to be
    /// scheduled.
    pub fn request(&mut self, cause: RecoveryCause) -> (r: bool)
        ensures
            (*final(self), r) == spec_request_recovery(*old(self), cause),
    {
        match *self {
            RecoveryState::Operational => {
                *self = RecoveryState::Requested(cause);
                true
            },
            _ => false,
        }
    }

    pub fn begin_quiesce(&mut self) -> (r: Option<RecoveryCause>)
        ensures
            (*final(self), r) == spec_begin_quiesce(*old(self)),
    {
        match *self {
            RecoveryState::Requested(c) => {
                *self = RecoveryState::Quiescing(c);
                Some(c)
            },
            _ => None,
        }
    }

    pub fn begin_recovering(&mut self, cause: RecoveryCause) -> (r: bool)
        ensures
            (*final(self), r) == spec_begin_recovering(*old(self), cause),
    {
        match *self {
            RecoveryState::Quiescing(_) => {
                *self = RecoveryState::Recovering(cause);
                true
            },
            _ => false,
        }
    }

    pub fn finish(&mut self, cause: RecoveryCause, success: bool) -> (r: bool)
        ensures
            (*final(self), r) == spec_finish_recovery(*old(self), cause, success),
    {
        match *self {
            RecoveryState::Recovering(_) => {
                if success {
                    *self = RecoveryState::Operational;
                    true
                } else {
                    *self = RecoveryState::Failed(cause);
                    false
                }
            },
            _ => false,
        }
    }

    /// The controller goes away: no recovery runs any more.
    pub fn begin_shutdown(&mut self)
        ensures
            *final(self) == RecoveryState::Shutdown,
    {
        *self = RecoveryState::Shutdown;
    }
}

/// At most one recovery is scheduled at a time: once one is requested,
/// further requests are ignored and keep the first cause.
pub proof fn lemma_single_recovery_scheduled(s: RecoveryState, c1: RecoveryCause, c2: RecoveryCause)
    ensures
        ({
            let (s1, first) = spec_request_recovery(s, c1);
            let (s2, second) = spec_request_recovery(s1, c2);
            &&& first ==> !second && s2 == s1 && spec_recovery_cause(s2) == Some(c1)
            &&& !second
        }),
{
}

/// A requested recovery runs through quiescing and reset and returns the
/// controller to service when the reset succeeds; when it fails, the
/// controller keeps refusing work and no further recovery is scheduled.
pub proof fn lemma_recovery_cycle(cause: RecoveryCause, success: bool, other: RecoveryCause)
    ensures
        ({
            let (s1, scheduled) = spec_request_recovery(RecoveryState::Operational, cause);
            let (s2, started) = spec_begin_quiesce(s1);
            let (s3, going) = spec_begin_recovering(s2, cause);
            let (s4, resumed) = spec_finish_recovery(s3, cause, success);
            &&& scheduled && started == Some(cause) && going
            &&& spec_recovery_cause(s1) is Some && spec_recovery_cause(s3) is Some
            &&& resumed == success
            &&& success ==> s4 == RecoveryState::Operational
            &&& !success ==> s4 == RecoveryState::Failed(cause) && spec_recovery_cause(s4)
                is Some && !spec_request_recovery(s4, other).1
        }),
{
}

/// Once the controller is shut down, no recovery is scheduled, started or
/// finished, and a recovery under way at shutdown never resumes the queues.
pub proof fn lemma_shutdown_is_final(c: RecoveryCause, success: bool)
    ensures
        spec_request_recovery(RecoveryState::Shutdown, c) == (RecoveryState::Shutdown, false),
        spec_begin_quiesce(RecoveryState::Shutdown) == (
            RecoveryState::Shutdown,
            None::<RecoveryCause>,
        ),
        spec_begin_recovering(RecoveryState::Shutdown, c) == (RecoveryState::Shutdown, false),
        spec_finish_recovery(RecoveryState::Shutdown, c, success) == (
            RecoveryState::Shutdown,
            false,
        ),
        spec_recovery_cause(RecoveryState::Shutdown) is None,
{
}

/// Whether a completion was handed back to the block layer or kept for
/// recovery to dispose of.
#[derive(Clone, Copy, Debug, PartialEq, Eq, Structural)]
pub enum CompletionOutcome {
    Returned,
    RetainedForRecovery,
}

impl CompletionOutcome {
    pub fn returned(self) -> (r: bool)
        ensures
            r == (self == CompletionOutcome::Returned),
    {
        match self {
            CompletionOutcome::Returned => true,
            CompletionOutcome::RetainedForRecovery => false,
        }
    }
}

pub open spec fn spec_completion_pass_limit(queue_depth: u32) -> usize {
    let passes = (queue_depth as int + COMPLETION_BATCH_SIZE - 1) / (COMPLETION_BATCH_SIZE as int);
    if passes < 1 {
        1
    } else {
        passes as usize
    }
}

/// How many batches one completion run may take: enough to drain a full
/// queue of `queue_depth` requests, at least one.
pub fn completion_pass_limit(queue_depth: u32) -> (r: usize)
    ensures
        r == spec_completion_pass_limit(queue_depth),
        r >= 1,
        r * COMPLETION_BATCH_SIZE >= queue_depth,
{
    let depth = queue_depth as usize;
    let capacity = CompletedRequests::capacity();
    let passes = depth / capacity + if depth % capacity == 0 {
        0
    } else {
        1
    };
    proof {
        assert(passes == (queue_depth as int + 15) / 16) by (nonlinear_arith)
            requires
                passes == depth / 16 + if depth % 16 == 0 {
                    0int
                } else {
                    1int
                },
                depth == queue_depth,
        ;
    }
    if passes < 1 {
        1
    } else {
        passes
    }
}

/// What a completion run does after one batch.
#[derive(Clone, Copy, Debug, PartialEq, Eq)]
pub enum PassOutcome {
    /// Ask for recovery and stop.
    Recover(RecoveryCause),
    /// Nothing is left: stop.
    Done,
    /// The batch was full: collect another.
    Continue,
}

/// The decision after one batch of a completion run on interrupt: a fault
/// met while collecting asks for recovery of its queue, or of the
/// controller when it names none; a failed collection asks for recovery of
/// the queue being collected (`queue_id`), or of the controller; a full
/// batch goes on to the next one.
pub open spec fn spec_after_completion_pass(
    fault: Option<CompletionFault>,
    collected: Result<()>,
    batch_full: bool,
    queue_id: Option<u32>,
) -> PassOutcome {
    match fault {
        Some(f) => match f.queue_id {
            Some(q) => PassOutcome::Recover(
                RecoveryCause {
                    reason: RecoveryReason::InvalidMcqCompletion,
                    scope: RecoveryScope::Queue(q),
                    tag: f.tag,
                },
            ),
            None => PassOutcome::Recover(
                RecoveryCause {
                    reason: RecoveryReason::Driver(f.reason),
                    scope: RecoveryScope::Controller,
                    tag: f.tag,
                },
            ),
        },
        None => match collected {
            Err(_) => match queue_id {
                Some(q) => PassOutcome::Recover(
                    RecoveryCause {
                        reason: RecoveryReason::InvalidMcqCompletion,
                        scope: RecoveryScope::Queue(q),
                        tag: 0,
                    },
                ),
                None => PassOutcome::Recover(
                    RecoveryCause {
                        reason: RecoveryReason::Driver("completion collection failed"),
                        scope: RecoveryScope::Controller,
                        tag: 0,
                    },
                ),
            },
            Ok(_) => if batch_full {
                PassOutcome::Continue
            } else {
                PassOutcome::Done
            },
        },
    }
}

fn fault_outcome(f: CompletionFault) -> (r: PassOutcome)
    ensures
        r == spec_after_completion_pass(Some(f), Ok(()), false, None),
{
    match f.queue_id {
        Some(q) => PassOutcome::Recover(RecoveryCause::mcq(q, f.tag)),
        None => PassOutcome::Recover(RecoveryCause::driver(f.reason, f.tag)),
    }
}

pub fn after_completion_pass(
    fault: Option<CompletionFault>,
    collected: Result<()>,
    batch_full: bool,
    queue_id: Option<u32>,
) -> (r: PassOutcome)
    ensures
        r == spec_after_completion_pass(fault, collected, batch_full, queue_id),
{
    match fault {
        Some(f) => fault_outcome(f),
        None => match collected {
            Err(_) => match queue_id {
                Some(q) => PassOutcome::Recover(RecoveryCause::mcq(q, 0)),
                None => PassOutcome::Recover(
                    RecoveryCause::driver("completion collection failed", 0),
                ),
            },
            Ok(()) => {
                if batch_full {
                    PassOutcome::Continue
                } else {
                    PassOutcome::Done
                }
            },
        },
    }
}

/// The decision after one batch of a polling run on hardware queue
/// `hw_queue_id`: as on interrupt, but a failed collection asks for
/// recovery of the controller.
pub open spec fn spec_after_poll_pass(
    fault: Option<CompletionFault>,
    collected: Result<()>,
    batch_full: bool,
    hw_queue_id: u32,
) -> PassOutcome {
    match fault {
        Some(f) => spec_after_completion_pass(Some(f), collected, batch_full, None),
        None => match collected {
            Err(_) => PassOutcome::Recover(
                RecoveryCause {
                    reason: RecoveryReason::Driver("polled completion collection failed"),
                    scope: RecoveryScope::Controller,
                    tag: hw_queue_id as usize,
                },
            ),
            Ok(_) => if batch_full {
                PassOutcome::Continue
            } else {
                PassOutcome::Done
            },
        },
    }
}

pub fn after_poll_pass(
    fault: Option<CompletionFault>,
    collected: Result<()>,
    batch_full: bool,
    hw_queue_id: u32,
) -> (r: PassOutcome)
    ensures
        r == spec_after_poll_pass(fault, collected, batch_full, hw_queue_id),
{
    match fault {
        Some(f) => fault_outcome(f),
        None => match collected {
            Err(_) => PassOutcome::Recover(
                RecoveryCause::driver("polled completion collection failed", hw_queue_id as usize),
            ),
            Ok(()) => {
                if batch_full {
                    PassOutcome::Continue
                } else {
                    PassOutcome::Done
                }
            },
        },
    }
}

/// What the block layer's tag map holds at a task tag.
#[derive(Clone, Copy, Debug, PartialEq, Eq, Structural)]
pub enum RequestLookup {
    /// A request, with its block layer tag and hardware queue.
    Found { tag: u32, queue_index: u32 },
    /// No request.
    Vacant,
    /// The lookup failed.
    Failed(Error),
}

/// Whether the request found for a completed request may be completed, or
/// the reason recovery is needed: the request must exist, be owned by no
/// one else (`Busy` from the lookup), and carry the completed tag on the
/// completing queue.
pub open spec fn spec_resolve_completion(
    request: CompletedRequest,
    lookup: RequestLookup,
) -> core::result::Result<(), &'static str> {
    match lookup {
        RequestLookup::Found { tag, queue_index } => if tag == request.spec_task_tag().0
            && queue_index == request.spec_queue_id() {
            Ok(())
        } else {
            Err("completion queue mismatch")
        },
        RequestLookup::Vacant => Err("completion tag has no request"),
        RequestLookup::Failed(Error::Busy) => Err("completion ownership conflict"),
        RequestLookup::Failed(_) => Err("completion request lookup failed"),
    }
}

pub fn resolve_completion(request: CompletedRequest, lookup: RequestLookup) -> (r:
    core::result::Result<(), &'static str>)
    ensures
        r == spec_resolve_completion(request, lookup),
{
    match lookup {
        RequestLookup::Found { tag, queue_index } => {
            if tag == request.task_tag().value() as u32 && queue_index == request.queue_id() {
                Ok(())
            } else {
                Err("completion queue mismatch")
            }
        },
        RequestLookup::Vacant => Err("completion tag has no request"),
        RequestLookup::Failed(Error::Busy) => Err("completion ownership conflict"),
        RequestLookup::Failed(_) => Err("completion request lookup failed"),
    }
}

/// Whether a request with block layer tag `tag`, mapped to hardware queue
/// `queue_index`, may be submitted on queue `queue_id`: its tag must be a
/// task tag, no recovery may be pending, and the queues must agree.
pub fn submission_check(tag: u32, recovery_required: bool, queue_index: u32, queue_id: u32) -> (r:
    Result<TaskTag>)
    ensures
        tag >= 256 ==> r == Err::<TaskTag, Error>(Error::Invalid),
        tag < 256 && recovery_required ==> r == Err::<TaskTag, Error>(Error::Busy),
        tag < 256 && !recovery_required && queue_index != queue_id ==> r == Err::<TaskTag, Error>(
            Error::Invalid,
        ),
        tag < 256 && !recovery_required && queue_index == queue_id ==> r == Ok::<TaskTag, Error>(
            TaskTag(tag as u8),
        ),
{
    let task_tag = TaskTag::new(tag)?;
    if recovery_required {
        return Err(Error::Busy);
    }
    if queue_index != queue_id {
        return Err(Error::Invalid);
    }
    Ok(task_tag)
}

/// What becomes of a request after a submission attempt.
#[derive(Clone, Copy, Debug, PartialEq, Eq)]
pub enum SubmitResult {
    /// The controller has it.
    Accepted,
    /// It goes back to the block layer with an error.
    Rejected(Error),
    /// The controller may have it but its state is unknown: recovery is
    /// asked for with this reason and the request is kept.
    Recover(&'static str),
}

/// The result of submitting a request, from the transport's outcome and
/// whether the request was still held when the submission did not happen.
pub open spec fn spec_submit_result(outcome: SubmissionOutcome, still_held: bool) -> SubmitResult {
    match outcome {
        SubmissionOutcome::Submitted => SubmitResult::Accepted,
        SubmissionOutcome::NotSubmitted(e) => if still_held {
            SubmitResult::Rejected(e)
        } else {
            SubmitResult::Recover("invalid submission ownership")
        },
        SubmissionOutcome::PublishFailed(_) => SubmitResult::Recover("submission publish failed"),
    }
}

pub fn submit_result(outcome: SubmissionOutcome, still_held: bool) -> (r: SubmitResult)
    ensures
        r == spec_submit_result(outcome, still_held),
{
    match outcome {
        SubmissionOutcome::Submitted => SubmitResult::Accepted,
        SubmissionOutcome::NotSubmitted(e) => {
            if still_held {
                SubmitResult::Rejected(e)
            } else {
                SubmitResult::Recover("invalid submission ownership")
            }
        },
        SubmissionOutcome::PublishFailed(_) => SubmitResult::Recover("submission publish failed"),
    }
}

/// What a timeout asks of the block layer: whether recovery is to be
/// requested, and whether the request's tag may be released now. A tag is
/// kept until recovery has stopped the controller, so that a late
/// completion never finds a reused request.
pub fn timeout_action(d: TimeoutDisposition) -> (r: (bool, bool))
    ensures
        r == (match d {
            TimeoutDisposition::StartRecovery(_) => (true, false),
            TimeoutDisposition::Completed => (false, true),
            _ => (false, false),
        }),
{
    match d {
        TimeoutDisposition::StartRecovery(_) => (true, false),
        TimeoutDisposition::Completed => (false, true),
        _ => (false, false),
    }
}

/// The status a device management request ends with, once its answer was
/// fetched (`fetched`): success when the answer is a device command that
/// the request, being completed, takes; an I/O error otherwise, with the
/// request reset.
pub fn complete_device_request(inner: &mut UfsRequestInner, fetched: Result<UfsCmd>) -> (r:
    BlkStatus)
    ensures
        match fetched {
            Ok(UfsCmd::Device(c)) => if old(inner)@ is Completing {
                r == BlkStatus::Success && final(inner)@ == UfsRequestState::DeviceComplete(c)
            } else {
                r == BlkStatus::IoErr && final(inner)@ is Idle
            },
            _ => r == BlkStatus::IoErr && final(inner)@ is Idle,
        },
{
    match fetched {
        Ok(UfsCmd::Device(c)) => {
            if inner.complete_device(c).is_err() {
                inner.reset();
                BlkStatus::IoErr
            } else {
                BlkStatus::Success
            }
        },
        _ => {
            inner.reset();
            BlkStatus::IoErr
        },
    }
}

/// What is done with a SCSI request once its completion is decided.
#[derive(Clone, Copy, Debug, PartialEq, Eq)]
pub enum ScsiFinish {
    /// Hand the request to the block layer's completion path, which
    /// collects the scheduled disposition.
    Complete,
    /// Retry the request.
    Requeue,
    /// End the request with this status.
    End(BlkStatus),
    /// Add the request to the poller's batch of successful requests.
    AddToBatch,
    /// The request was in no state to complete: ask for recovery with this
    /// reason and end it with an I/O error.
    RecoverAndEnd(&'static str),
}

/// How a decided SCSI completion is finished, on the interrupt path
/// (`polled` false: the disposition is scheduled on the request) or by a
/// poller (the request is finished at once).
pub open spec fn spec_finish_scsi_completion(
    s: UfsRequestState,
    decision: ScsiCompletionDecision,
    polled: bool,
) -> (UfsRequestState, ScsiFinish) {
    if !polled {
        let (n, r) = spec_schedule_completion(s, decision.disposition);
        if r is Ok {
            (n, ScsiFinish::Complete)
        } else {
            (UfsRequestState::Idle, ScsiFinish::RecoverAndEnd("invalid SCSI completion state"))
        }
    } else {
        let (n, r) = spec_finish_direct_completion(s);
        if r is Err {
            (UfsRequestState::Idle, ScsiFinish::RecoverAndEnd("invalid polled completion state"))
        } else if decision.requeue {
            (n, ScsiFinish::Requeue)
        } else if decision.status != BlkStatus::Success {
            (n, ScsiFinish::End(decision.status))
        } else {
            (n, ScsiFinish::AddToBatch)
        }
    }
}

pub fn finish_scsi_completion(
    inner: &mut UfsRequestInner,
    decision: &ScsiCompletionDecision,
    polled: bool,
) -> (r: ScsiFinish)
    ensures
        (final(inner)@, r) == spec_finish_scsi_completion(old(inner)@, *decision, polled),
{
    if !polled {
        if inner.schedule_completion(decision.disposition).is_err() {
            inner.reset();
            return ScsiFinish::RecoverAndEnd("invalid SCSI completion state");
        }
        ScsiFinish::Complete
    } else {
        if inner.finish_direct_completion().is_err() {
            inner.reset();
            return ScsiFinish::RecoverAndEnd("invalid polled completion state");
        }
        if decision.requeue {
            return ScsiFinish::Requeue;
        }
        match decision.status {
            BlkStatus::Success => ScsiFinish::AddToBatch,
            status => ScsiFinish::End(status),
        }
    }
}

/// Whether recovery has a request to dispose of at a task tag: one found
/// in the tag map; a vacant tag, or a request still shared (`Busy`), is
/// skipped; a failed lookup is an error.
pub fn recovery_lookup(lookup: RequestLookup) -> (r: Result<bool>)
    ensures
        r == (match lookup {
            RequestLookup::Found { .. } => Ok::<bool, Error>(true),
            RequestLookup::Vacant => Ok::<bool, Error>(false),
            RequestLookup::Failed(Error::Busy) => Ok::<bool, Error>(false),
            RequestLookup::Failed(e) => Err::<bool, Error>(e),
        }),
{
    match lookup {
        RequestLookup::Found { .. } => Ok(true),
        RequestLookup::Vacant => Ok(false),
        RequestLookup::Failed(Error::Busy) => Ok(false),
        RequestLookup::Failed(e) => Err(e),
    }
}

/// How recovery hands a request back to the block layer: retried when the
/// controller was reset, ended with an I/O error when it could not be.
pub fn recovery_request_disposal(
    inner: &mut UfsRequestInner,
    requeue: bool,
    dma_ended: bool,
) -> (r: Result<(MappingRelease, CompletionDisposition)>)
    ensures
        ({
            let (n, rel) = spec_prepare_recovery_disposition(old(inner)@, requeue, dma_ended);
            &&& final(inner)@ == n
            &&& match rel {
                Ok(m) => r == Ok::<(MappingRelease, CompletionDisposition), Error>(
                    (
                        m,
                        if requeue {
                            CompletionDisposition::Requeue
                        } else {
                            CompletionDisposition::End(BlkStatus::IoErr)
                        },
                    ),
                ),
                Err(e) => r == Err::<(MappingRelease, CompletionDisposition), Error>(e),
            }
        }),
{
    let release = inner.prepare_recovery_disposition(requeue, dma_ended)?;
    if requeue {
        Ok((release, CompletionDisposition::Requeue))
    } else {
        Ok((release, CompletionDisposition::End(BlkStatus::IoErr)))
    }
}

/// The count of requests recovery disposed of, and whether any failed.
#[derive(Clone, Copy, Debug, PartialEq, Eq, Structural)]
pub struct RecoveryTally {
    pub disposed: usize,
    pub failed: bool,
}

impl RecoveryTally {
    pub fn new() -> (r: RecoveryTally)
        ensures
            r == (RecoveryTally { disposed: 0, failed: false }),
    {
        RecoveryTally { disposed: 0, failed: false }
    }

    /// Notes the result for one task tag: a request disposed of, a tag
    /// skipped, or a failure.
    pub fn record(&mut self, result: Result<bool>)
        requires
            old(self).disposed < usize::MAX,
        ensures
            final(self).disposed == old(self).disposed + (if result == Ok::<bool, Error>(true) {
                1int
            } else {
                0int
            }),
            final(self).failed == (old(self).failed || result is Err),
    {
        match result {
            Ok(true) => self.disposed = self.disposed + 1,
            Ok(false) => {},
            Err(_) => self.failed = true,
        }
    }

    /// The outcome of recovery's disposal: the number disposed of, when no
    /// disposal failed, every busy request (`expected`) was disposed of and
    /// none is left (`remaining`); an I/O error otherwise.
    pub fn finish(&self, expected: usize, remaining: usize) -> (r: Result<usize>)
        ensures
            r == (if self.failed || self.disposed != expected || remaining != 0 {
                Err::<usize, Error>(Error::Io)
            } else {
                Ok::<usize, Error>(self.disposed)
            }),
    {
        if self.failed || self.disposed != expected || remaining != 0 {
            Err(Error::Io)
        } else {
            Ok(self.disposed)
        }
    }
}

/// The block layer tag set that a request queue is built with.
#[derive(Clone, Copy, Debug, PartialEq, Eq, Structural)]
pub struct TagSetParams {
    pub queue_map: UfsQueueMap,
    pub nr_hw_queues: u32,
    pub queue_depth: u32,
    pub num_maps: u32,
}

/// The tag set for transport configuration `config` whose backend offers
/// `hw_queues` hardware queues: the queue map must be valid, the depth
/// and queue count non-zero, and the backend must offer one hardware queue
/// per mapped queue; a depth beyond `u32` overflows.
pub fn tag_set_params(config: &UfsTransferConfig, hw_queues: usize) -> (r: Result<TagSetParams>)
    ensures
        match spec_queue_map(*config) {
            Err(e) => r == Err::<TagSetParams, Error>(e),
            Ok(m) => if config.spec_queue_depth() == 0 || m.nr_hw_queues == 0 || hw_queues
                != m.nr_hw_queues {
                r == Err::<TagSetParams, Error>(Error::Invalid)
            } else if config.spec_queue_depth() > u32::MAX {
                r == Err::<TagSetParams, Error>(Error::Overflow)
            } else {
                r == Ok::<TagSetParams, Error>(
                    TagSetParams {
                        queue_map: m,
                        nr_hw_queues: m.nr_hw_queues as u32,
                        queue_depth: config.spec_queue_depth() as u32,
                        num_maps: m.spec_num_maps(),
                    },
                )
            },
        },
{
    let map = queue_map(config)?;
    let nr_hw_queues = map.nr_hw_queues();
    let queue_depth = config.queue_depth();
    if queue_depth == 0 || nr_hw_queues == 0 || hw_queues != nr_hw_queues {
        return Err(Error::Invalid);
    }
    if queue_depth > u32::MAX as usize {
        return Err(Error::Overflow);
    }
    Ok(
        TagSetParams {
            queue_map: map,
            nr_hw_queues: nr_hw_queues as u32,
            queue_depth: queue_depth as u32,
            num_maps: map.num_maps(),
        },
    )
}

/// How recovery goes on after it tried to reset the controller: requests
/// are retried when the reset succeeded (`reset_ok`). The controller's DMA
/// access has ended when stopping it succeeded, during the reset
/// (`stopped_in_reset`) or, after a failed reset, in a second attempt
/// (`stopped_again`, made only then).
pub fn recovery_after_reset(stopped_in_reset: bool, reset_ok: bool, stopped_again: bool) -> (r: (
    bool,
    bool,
))
    ensures
        r == (reset_ok, stopped_in_reset || (!reset_ok && stopped_again)),
{
    let dma_ended = if reset_ok {
        stopped_in_reset
    } else {
        stopped_in_reset || stopped_again
    };
    (reset_ok, dma_ended)
}

/// Whether recovery succeeded: the reset and the disposal of every
/// request both did.
pub fn recovery_succeeded(reset: Result<()>, disposal: Result<usize>) -> (r: bool)
    ensures
        r == (reset is Ok && disposal is Ok),
{
    reset.is_ok() && disposal.is_ok()
}

} // verus!
