//! UFS transfer transports: the configuration chosen at start-up and the
//! batch in which completed requests are handed from a transport to the
//! request queue.
use vstd::prelude::*;
use vstd::std_specs::bits::{axiom_u32_trailing_zeros, u32_trailing_zeros};

use crate::command::{TaskTag, TASK_TAG_COUNT};
use crate::error::{Error, Result};
use crate::hci::descriptor::CqEntry;
use crate::reg::{mcq_max_queues, mcq_supported, nutrs, nutrs_mcq, spec_nutrs, spec_nutrs_mcq};
use crate::variant::UfsVariant;

pub mod mcq;
pub mod sdb;


verus! {

pub const UFS_MCQ_DEFAULT_READ_QUEUES: usize = 0;
pub const UFS_MCQ_DEFAULT_POLL_QUEUES: usize = 1;
pub const COMPLETION_BATCH_SIZE: usize = 16;

/// The number of CPUs to spread queues over: the possible CPU count, at
/// least one.
pub fn possible_cpus(nr_cpu_ids: u32) -> (r: usize)
    ensures
        r == (if nr_cpu_ids >= 1 {
            nr_cpu_ids as usize
        } else {
            1usize
        }),
        r >= 1,
{
    let n = nr_cpu_ids as usize;
    if n >= 1 {
        n
    } else {
        1
    }
}

/// The multi-circular queue layout: interrupt-driven queues (default, then
/// read) followed by polled queues.
#[derive(Clone, Copy, Debug, PartialEq, Eq, Structural)]
pub struct McqConfig {
    pub max_queues: usize,
    pub total_queues: usize,
    pub default_queues: usize,
    pub read_queues: usize,
    pub interrupt_queues: usize,
    pub poll_queues: usize,
    pub queue_depth: usize,
    pub ring_entries: usize,
}

impl McqConfig {
    pub open spec fn spec_is_poll_queue(self, queue: usize) -> bool {
        queue >= self.interrupt_queues && queue < self.total_queues
    }

    /// Whether hardware queue `queue` is completed by polling.
    pub fn is_poll_queue(&self, queue: usize) -> (r: bool)
        ensures
            r == self.spec_is_poll_queue(queue),
    {
        queue >= self.interrupt_queues && queue < self.total_queues
    }
}

/// How transfers reach the controller: one doorbell register or multiple
/// circular queues.
#[derive(Clone, Copy, Debug, PartialEq, Eq, Structural)]
pub enum UfsTransferConfig {
    Sdb { tag_count: usize },
    Mcq(McqConfig),
}

/// The transport chosen for a controller with capabilities `cap` and
/// `mcq_cap`, on `cpus` CPUs, where the variant enables MCQ (`variant_mcq`)
/// and limits the active commands to `active_commands` of a reported count.
pub open spec fn spec_transfer_config(
    cap: u32,
    mcq_cap: u32,
    variant_mcq: bool,
    cpus: usize,
    active_commands: spec_fn(usize) -> usize,
) -> Result<UfsTransferConfig> {
    if !(cap & 0x4000_0000 != 0) || !variant_mcq {
        let tag_count = spec_nutrs(cap);
        if tag_count == 0 || tag_count > 32 {
            Err(Error::Invalid)
        } else {
            Ok(UfsTransferConfig::Sdb { tag_count })
        }
    } else {
        let max_queues = ((mcq_cap & 0xff) + 1) as usize;
        let reserved = UFS_MCQ_DEFAULT_READ_QUEUES + UFS_MCQ_DEFAULT_POLL_QUEUES;
        if max_queues <= reserved {
            Err(Error::NotSupported)
        } else {
            let default_queues = if max_queues - reserved <= cpus {
                (max_queues - reserved) as usize
            } else {
                cpus
            };
            let interrupt_queues = (default_queues + UFS_MCQ_DEFAULT_READ_QUEUES) as usize;
            let total_queues = (interrupt_queues + UFS_MCQ_DEFAULT_POLL_QUEUES) as usize;
            let reported = if spec_nutrs_mcq(cap) <= TASK_TAG_COUNT {
                spec_nutrs_mcq(cap)
            } else {
                TASK_TAG_COUNT
            };
            let queue_depth = active_commands(reported);
            if queue_depth == usize::MAX {
                Err(Error::Overflow)
            } else if interrupt_queues == 0 || queue_depth == 0 {
                Err(Error::Invalid)
            } else {
                Ok(
                    UfsTransferConfig::Mcq(
                        McqConfig {
                            max_queues,
                            total_queues,
                            default_queues,
                            read_queues: UFS_MCQ_DEFAULT_READ_QUEUES,
                            interrupt_queues,
                            poll_queues: UFS_MCQ_DEFAULT_POLL_QUEUES,
                            queue_depth,
                            ring_entries: (queue_depth + 1) as usize,
                        },
                    ),
                )
            }
        }
    }
}

impl UfsTransferConfig {
    /// Chooses the transport: single doorbell unless both the controller and
    /// the variant support MCQ. In MCQ mode, one queue per CPU (up to what
    /// the controller offers, less the reserved poll queue), and a queue
    /// depth of the controller's slots (at most one per task tag) as limited
    /// by the variant, with one spare ring entry.
    pub fn new(cap: u32, mcq_cap: u32, variant: &UfsVariant, cpus: usize) -> (r: Result<
        UfsTransferConfig,
    >)
        ensures
            r == spec_transfer_config(
                cap,
                mcq_cap,
                variant.spec_mcq_enabled(),
                cpus,
                |n: usize| variant.spec_constrain_mcq_active_commands(n),
            ),
    {
        let hardware_mcq = mcq_supported(cap);
        let variant_mcq = variant.mcq_enabled();
        if !hardware_mcq || !variant_mcq {
            let tag_count = nutrs(cap);
            if tag_count == 0 || tag_count > 32 {
                return Err(Error::Invalid);
            }
            return Ok(UfsTransferConfig::Sdb { tag_count });
        }
        let max_queues = mcq_max_queues(mcq_cap);
        let read_queues = UFS_MCQ_DEFAULT_READ_QUEUES;
        let poll_queues = UFS_MCQ_DEFAULT_POLL_QUEUES;
        let reserved_queues = read_queues + poll_queues;
        if max_queues <= reserved_queues {
            return Err(Error::NotSupported);
        }
        let default_queues = if max_queues - reserved_queues <= cpus {
            max_queues - reserved_queues
        } else {
            cpus
        };
        let interrupt_queues = default_queues + read_queues;
        let total_queues = interrupt_queues + poll_queues;
        let slots = nutrs_mcq(cap);
        let reported = if slots <= TASK_TAG_COUNT {
            slots
        } else {
            TASK_TAG_COUNT
        };
        let queue_depth = variant.constrain_mcq_active_commands(reported);
        if queue_depth == usize::MAX {
            return Err(Error::Overflow);
        }
        let ring_entries = queue_depth + 1;
        if interrupt_queues == 0 || queue_depth == 0 {
            return Err(Error::Invalid);
        }
        Ok(
            UfsTransferConfig::Mcq(
                McqConfig {
                    max_queues,
                    total_queues,
                    default_queues,
                    read_queues,
                    interrupt_queues,
                    poll_queues,
                    queue_depth,
                    ring_entries,
                },
            ),
        )
    }

    pub open spec fn spec_queue_depth(self) -> usize {
        match self {
            UfsTransferConfig::Sdb { tag_count } => tag_count,
            UfsTransferConfig::Mcq(c) => c.queue_depth,
        }
    }

    pub fn queue_depth(&self) -> (r: usize)
        ensures
            r == self.spec_queue_depth(),
    {
        match self {
            UfsTransferConfig::Sdb { tag_count } => *tag_count,
            UfsTransferConfig::Mcq(config) => config.queue_depth,
        }
    }
}

/// A chosen MCQ layout always has a poll queue after at least one
/// interrupt queue, and a ring one entry longer than the queue depth.
pub proof fn lemma_mcq_config_shape(
    cap: u32,
    mcq_cap: u32,
    variant_mcq: bool,
    cpus: usize,
    active_commands: spec_fn(usize) -> usize,
)
    requires
        spec_transfer_config(cap, mcq_cap, variant_mcq, cpus, active_commands) matches Ok(
            UfsTransferConfig::Mcq(_),
        ),
    ensures
        ({
            let c = spec_transfer_config(cap, mcq_cap, variant_mcq, cpus, active_commands)->Ok_0->Mcq_0;
            &&& 1 <= c.interrupt_queues
            &&& c.total_queues == c.interrupt_queues + c.poll_queues
            &&& c.interrupt_queues == c.default_queues + c.read_queues
            &&& c.total_queues <= c.max_queues
            &&& c.ring_entries == c.queue_depth + 1
            &&& c.queue_depth >= 1
            &&& c.spec_is_poll_queue((c.total_queues - 1) as usize)
            &&& !c.spec_is_poll_queue(0)
        }),
{
}

/// How a completed transfer was reported: by the doorbell, or by a
/// completion queue entry.
#[derive(Clone, Copy, PartialEq, Eq, Structural)]
pub enum TransferCompletion {
    Sdb,
    Mcq(CqEntry),
}

/// A request a transport found completed.
#[derive(Clone, Copy, PartialEq, Eq, Structural)]
pub enum CompletedRequest {
    Sdb(TaskTag),
    Mcq { queue_id: u32, cqe: CqEntry },
}

impl CompletedRequest {
    pub open spec fn spec_task_tag(self) -> TaskTag {
        match self {
            CompletedRequest::Sdb(t) => t,
            CompletedRequest::Mcq { cqe, .. } => TaskTag(cqe.task_tag),
        }
    }

    pub fn task_tag(self) -> (r: TaskTag)
        ensures
            r == self.spec_task_tag(),
    {
        match self {
            CompletedRequest::Sdb(task_tag) => task_tag,
            CompletedRequest::Mcq { cqe, .. } => TaskTag::from_value(cqe.task_tag()),
        }
    }

    pub open spec fn spec_queue_id(self) -> u32 {
        match self {
            CompletedRequest::Sdb(_) => 0u32,
            CompletedRequest::Mcq { queue_id, .. } => queue_id,
        }
    }

    /// The hardware queue of the request; the doorbell is queue 0.
    pub fn queue_id(self) -> (r: u32)
        ensures
            r == self.spec_queue_id(),
    {
        match self {
            CompletedRequest::Sdb(_) => 0,
            CompletedRequest::Mcq { queue_id, .. } => queue_id,
        }
    }

    pub fn completion(self) -> (r: TransferCompletion)
        ensures
            r == (match self {
                CompletedRequest::Sdb(_) => TransferCompletion::Sdb,
                CompletedRequest::Mcq { cqe, .. } => TransferCompletion::Mcq(cqe),
            }),
    {
        match self {
            CompletedRequest::Sdb(_) => TransferCompletion::Sdb,
            CompletedRequest::Mcq { cqe, .. } => TransferCompletion::Mcq(cqe),
        }
    }
}

/// Why a completion batch was cut short.
#[derive(Clone, Copy, PartialEq, Eq)]
pub struct CompletionFault {
    pub reason: &'static str,
    pub tag: usize,
    pub queue_id: Option<u32>,
}

/// Whether bit `t` of `m` is set.
pub open spec fn bit(m: u32, t: u32) -> bool {
    (m >> t) & 1u32 == 1u32
}

/// The positions of the set bits of `m` from `start` up, in increasing
/// order.
pub open spec fn set_bits_from(m: u32, start: nat) -> Seq<u32>
    decreases 32 - start,
{
    if start >= 32 {
        Seq::empty()
    } else if bit(m, start as u32) {
        seq![start as u32] + set_bits_from(m, start + 1)
    } else {
        set_bits_from(m, start + 1)
    }
}

/// The positions of the set bits of `m`, lowest first.
pub open spec fn set_bits(m: u32) -> Seq<u32> {
    set_bits_from(m, 0)
}

/// The doorbell completions of the tags in `tags`, in the same order.
pub open spec fn sdb_requests(tags: Seq<u32>) -> Seq<CompletedRequest> {
    tags.map_values(|t: u32| CompletedRequest::Sdb(TaskTag(t as u8)))
}

proof fn lemma_bit_or(x: u32, t: u32, a: u32)
    requires
        t < 32,
        a < 32,
    ensures
        bit(x | (1u32 << t), a) == (bit(x, a) || a == t),
{
    assert(((x | (1u32 << t)) >> a) & 1u32 == 1u32 <==> (((x >> a) & 1u32 == 1u32) || a == t))
        by (bit_vector)
        requires
            t < 32,
            a < 32,
    ;
}

proof fn lemma_bit_clear(x: u32, t: u32, a: u32)
    requires
        t < 32,
        a < 32,
    ensures
        bit(x & !(1u32 << t), a) == (bit(x, a) && a != t),
{
    assert(((x & !(1u32 << t)) >> a) & 1u32 == 1u32 <==> (((x >> a) & 1u32 == 1u32) && a != t))
        by (bit_vector)
        requires
            t < 32,
            a < 32,
    ;
}

proof fn lemma_set_bits_from_none(x: u32, s: nat)
    requires
        forall|a: u32| s <= a < 32 ==> !bit(x, a),
    ensures
        set_bits_from(x, s) == Seq::<u32>::empty(),
    decreases 32 - s,
{
    if s < 32 {
        lemma_set_bits_from_none(x, s + 1);
    }
}

/// Adding a bit above all the set bits of `x` appends it to their list.
proof fn lemma_set_bits_from_push(x: u32, t: u32, s: nat)
    requires
        t < 32,
        s <= t,
        forall|a: u32| a < 32 && #[trigger] bit(x, a) ==> a < t,
    ensures
        set_bits_from(x | (1u32 << t), s) == set_bits_from(x, s).push(t),
    decreases 32 - s,
{
    let y = x | (1u32 << t);
    if s == t {
        lemma_bit_or(x, t, t);
        assert forall|a: u32| s + 1 <= a < 32 implies !bit(y, a) by {
            lemma_bit_or(x, t, a);
        }
        lemma_set_bits_from_none(y, s + 1);
        assert forall|a: u32| s <= a < 32 implies !bit(x, a) by {}
        lemma_set_bits_from_none(x, s);
        assert(set_bits_from(y, s) =~= seq![t]);
    } else {
        lemma_bit_or(x, t, s as u32);
        lemma_set_bits_from_push(x, t, s + 1);
        if bit(x, s as u32) {
            assert(set_bits_from(y, s) =~= seq![s as u32] + set_bits_from(x, s + 1).push(t));
        }
    }
}

/// A bounded batch of completed requests, handed out in the order they were
/// found, plus the first fault met while collecting them.
pub struct CompletedRequests {
    requests: Vec<CompletedRequest>,
    pos: usize,
    fault: Option<CompletionFault>,
}

impl CompletedRequests {
    /// Every request collected so far, in order.
    pub closed spec fn collected(&self) -> Seq<CompletedRequest> {
        self.requests@
    }

    /// How many collected requests have been handed out.
    pub closed spec fn taken(&self) -> nat {
        self.pos as nat
    }

    pub closed spec fn spec_fault(&self) -> Option<CompletionFault> {
        self.fault
    }

    /// The batch's invariant.
    pub closed spec fn wf(&self) -> bool {
        &&& self.requests@.len() <= COMPLETION_BATCH_SIZE
        &&& self.pos <= self.requests@.len()
    }

    pub open spec fn spec_is_full(&self) -> bool {
        self.collected().len() == COMPLETION_BATCH_SIZE
    }

    /// A well-formed batch never holds more than its capacity, and never
    /// hands out more than it holds.
    pub proof fn lemma_wf(&self)
        requires
            self.wf(),
        ensures
            self.collected().len() <= COMPLETION_BATCH_SIZE,
            self.taken() <= self.collected().len(),
    {
    }

    pub fn capacity() -> (r: usize)
        ensures
            r == COMPLETION_BATCH_SIZE,
    {
        COMPLETION_BATCH_SIZE
    }

    pub fn new() -> (r: CompletedRequests)
        ensures
            r.wf(),
            r.collected() == Seq::<CompletedRequest>::empty(),
            r.taken() == 0,
            r.spec_fault() is None,
    {
        CompletedRequests { requests: Vec::new(), pos: 0, fault: None }
    }

    /// Adds a request; a full batch refuses it.
    pub fn insert(&mut self, request: CompletedRequest) -> (r: Result<()>)
        requires
            old(self).wf(),
        ensures
            final(self).wf(),
            final(self).taken() == old(self).taken(),
            final(self).spec_fault() == old(self).spec_fault(),
            old(self).spec_is_full() ==> (r == Err::<(), Error>(Error::NoMemory) && final(self).collected() == old(self).collected()),
            !old(self).spec_is_full() ==> r == Ok::<(), Error>(()) && final(self).collected()
                == old(self).collected().push(request),
    {
        if self.requests.len() == COMPLETION_BATCH_SIZE {
            return Err(Error::NoMemory);
        }
        self.requests.push(request);
        Ok(())
    }

    /// Adds the completion of `cqe` on queue `queue_id`.
    pub fn insert_mcq(&mut self, queue_id: u32, cqe: CqEntry) -> (r: Result<()>)
        requires
            old(self).wf(),
        ensures
            final(self).wf(),
            final(self).taken() == old(self).taken(),
            final(self).spec_fault() == old(self).spec_fault(),
            old(self).spec_is_full() ==> (r == Err::<(), Error>(Error::NoMemory) && final(self).collected() == old(self).collected()),
            !old(self).spec_is_full() ==> r == Ok::<(), Error>(()) && final(self).collected()
                == old(self).collected().push(CompletedRequest::Mcq { queue_id, cqe }),
    {
        self.insert(CompletedRequest::Mcq { queue_id, cqe })
    }

    /// Adds the doorbell completions of the tags set in `mask`, lowest tag
    /// first, until the batch is full. Returns the tags added, as a mask.
    pub fn insert_sdb_mask(&mut self, mask: u32) -> (r: Result<u32>)
        requires
            old(self).wf(),
        ensures
            final(self).wf(),
            final(self).taken() == old(self).taken(),
            final(self).spec_fault() == old(self).spec_fault(),
            r matches Ok(inserted) && {
                &&& inserted & !mask == 0
                &&& final(self).collected() == old(self).collected() + sdb_requests(
                    set_bits(inserted),
                )
                &&& inserted == mask || final(self).spec_is_full()
                &&& forall|a: u32, b: u32|
                    a < 32 && b < 32 && bit(inserted, a) && bit(mask, b) && !bit(inserted, b)
                        ==> a < b
            },
    {
        let ghost start = self.requests@;
        let mut m = mask;
        let mut inserted: u32 = 0;
        proof {
            assert forall|a: u32| a < 32 implies !bit(0u32, a) by {
                assert((0u32 >> a) & 1u32 == 0u32) by (bit_vector);
            }
            lemma_set_bits_from_none(0u32, 0);
            assert(sdb_requests(set_bits(0u32)) =~= Seq::<CompletedRequest>::empty());
            assert(start + sdb_requests(set_bits(0u32)) =~= start);
            assert(m == mask & !inserted && inserted & !mask == 0) by (bit_vector)
                requires
                    m == mask,
                    inserted == 0,
            ;
        }
        while m != 0 && self.requests.len() != COMPLETION_BATCH_SIZE
            invariant
                self.wf(),
                self.pos == old(self).pos,
                self.fault == old(self).fault,
                m == mask & !inserted,
                inserted & !mask == 0,
                self.requests@ == start + sdb_requests(set_bits(inserted)),
                forall|a: u32, b: u32| a < 32 && b < 32 && bit(inserted, a) && bit(m, b) ==> a < b,
            decreases COMPLETION_BATCH_SIZE - self.requests@.len(),
        {
            let tag = m.trailing_zeros();
            proof {
                axiom_u32_trailing_zeros(m);
            }
            assert(tag < 32);
            let tag_mask = 1u32 << tag;
            let ghost old_m = m;
            let ghost old_ins = inserted;
            m = m & !tag_mask;
            let task_tag = TaskTag::new(tag)?;
            self.insert(CompletedRequest::Sdb(task_tag))?;
            inserted = inserted | tag_mask;
            proof {
                assert(m == mask & !inserted && inserted & !mask == 0) by (bit_vector)
                    requires
                        old_m == mask & !old_ins,
                        old_ins & !mask == 0,
                        (old_m >> tag) & 1u32 == 1u32,
                        tag < 32,
                        m == old_m & !(1u32 << tag),
                        inserted == old_ins | (1u32 << tag),
                ;
                assert(bit(old_m, tag));
                assert forall|a: u32| a < 32 && #[trigger] bit(old_ins, a) implies a < tag by {
                    assert(bit(old_m, tag));
                }
                lemma_set_bits_from_push(old_ins, tag, 0);
                assert(sdb_requests(set_bits(inserted)) =~= sdb_requests(set_bits(old_ins)).push(
                    CompletedRequest::Sdb(TaskTag(tag as u8)),
                ));
                assert(self.requests@ =~= start + sdb_requests(set_bits(inserted)));
                assert forall|a: u32, b: u32|
                    a < 32 && b < 32 && bit(inserted, a) && bit(m, b) implies a < b by {
                    lemma_bit_or(old_ins, tag, a);
                    lemma_bit_clear(old_m, tag, b);
                    if a == tag {
                        if b < tag {
                            assert((old_m >> b) & 1u32 == 0u32);
                        }
                    }
                }
            }
        }
        proof {
            if m == 0 {
                assert(inserted == mask) by (bit_vector)
                    requires
                        m == mask & !inserted,
                        inserted & !mask == 0,
                        m == 0,
                ;
            }
            assert forall|a: u32, b: u32|
                a < 32 && b < 32 && bit(inserted, a) && bit(mask, b) && !bit(
                    inserted,
                    b,
                ) implies a < b by {
                assert(bit(m, b)) by {
                    assert(((mask & !inserted) >> b) & 1u32 == 1u32) by (bit_vector)
                        requires
                            (mask >> b) & 1u32 == 1u32,
                            (inserted >> b) & 1u32 != 1u32,
                            b < 32,
                    ;
                }
            }
        }
        Ok(inserted)
    }

    pub fn is_full(&self) -> (r: bool)
        ensures
            r == self.spec_is_full(),
    {
        self.requests.len() == COMPLETION_BATCH_SIZE
    }

    /// Records why collection stopped; only the first fault is kept.
    pub fn record_fault(&mut self, reason: &'static str, tag: usize, queue_id: Option<u32>)
        ensures
            final(self).collected() == old(self).collected(),
            final(self).taken() == old(self).taken(),
            old(self).spec_fault() is None ==> final(self).spec_fault() == Some(
                CompletionFault { reason, tag, queue_id },
            ),
            old(self).spec_fault() is Some ==> final(self).spec_fault() == old(self).spec_fault(),
            old(self).wf() ==> final(self).wf(),
    {
        if self.fault.is_none() {
            self.fault = Some(CompletionFault { reason, tag, queue_id });
        }
    }

    pub fn take_fault(&mut self) -> (r: Option<CompletionFault>)
        ensures
            r == old(self).spec_fault(),
            final(self).spec_fault() is None,
            final(self).collected() == old(self).collected(),
            final(self).taken() == old(self).taken(),
            old(self).wf() ==> final(self).wf(),
    {
        let f = self.fault;
        self.fault = None;
        f
    }

    /// Hands out the next collected request, in collection order.
    pub fn take_next(&mut self) -> (r: Option<CompletedRequest>)
        requires
            old(self).wf(),
        ensures
            final(self).wf(),
            final(self).collected() == old(self).collected(),
            final(self).spec_fault() == old(self).spec_fault(),
            old(self).taken() == old(self).collected().len() ==> r is None && final(self).taken()
                == old(self).taken(),
            old(self).taken() < old(self).collected().len() ==> r == Some(
                old(self).collected()[old(self).taken() as int],
            ) && final(self).taken() == old(self).taken() + 1,
    {
        if self.pos == self.requests.len() {
            return None;
        }
        let request = self.requests[self.pos];
        self.pos = self.pos + 1;
        Some(request)
    }
}

/// What became of a submission.
#[derive(Clone, Copy, Debug, PartialEq, Eq, Structural)]
pub enum SubmissionOutcome {
    Submitted,
    /// The request never became visible to the controller.
    NotSubmitted(Error),
    /// The request may be visible to the controller but could not be
    /// announced to it.
    PublishFailed(Error),
}

} // verus!
