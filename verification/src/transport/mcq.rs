//! UFSHCI multi-circular queue transport: the ring positions of each
//! submission and completion queue, and how completion entries are
//! consumed.
use vstd::prelude::*;

use super::CompletedRequests;
use super::CompletedRequest;
use super::CompletionFault;
use crate::dma::UfsDmaLayout;
use crate::error::{Error, Result};
use crate::hci::descriptor::{CqEntry, CQ_ENTRY_SIZE, UTRD_SIZE};
use crate::reg::UfsMcqOprSet;
use crate::transport::SubmissionOutcome;

verus! {

/// The fixed description of one hardware queue pair.
#[derive(Clone, Copy, Debug, PartialEq, Eq, Structural)]
pub struct UfsMcqQueueDescriptor {
    pub id: u32,
    pub max_entries: u32,
    pub oprs: UfsMcqOprSet,
}

/// Whether the controller reported completion events on the queue, and the
/// status value to write back to acknowledge them (none when nothing was
/// reported).
pub fn completion_events_ack(status: u32) -> (r: (Option<u32>, bool))
    ensures
        status != 0 ==> r == (Some(status), true),
        status == 0 ==> r == (None::<u32>, false),
{
    if status != 0 {
        (Some(status), true)
    } else {
        (None, false)
    }
}

/// The ring slot at byte `offset` of a ring of `max_entries` entries of
/// `entry_size` bytes, if `offset` is a slot boundary inside the ring.
pub open spec fn spec_offset_to_slot(offset: u32, entry_size: u32, max_entries: u32) -> Result<u32> {
    if offset % entry_size != 0 {
        Err(Error::Invalid)
    } else if offset / entry_size >= max_entries {
        Err(Error::Invalid)
    } else {
        Ok(offset / entry_size)
    }
}

/// The slot after `slot` in a ring of `max_entries` slots.
pub open spec fn next_slot(slot: u32, max_entries: u32) -> u32 {
    if slot + 1 == max_entries {
        0
    } else {
        (slot + 1) as u32
    }
}

/// How many entries lie from `head` up to (not including) `tail` in a ring
/// of `max_entries` slots.
pub open spec fn ring_distance(head: u32, tail: u32, max_entries: u32) -> int {
    if head <= tail {
        tail - head
    } else {
        tail + max_entries - head
    }
}

impl UfsMcqQueueDescriptor {
    /// A queue pair of `max_entries` entries; an empty ring is refused.
    pub fn new(id: u32, max_entries: u32, oprs: UfsMcqOprSet) -> (r: Result<UfsMcqQueueDescriptor>)
        ensures
            max_entries == 0 ==> r == Err::<UfsMcqQueueDescriptor, Error>(Error::Invalid),
            max_entries != 0 ==> r == Ok::<UfsMcqQueueDescriptor, Error>(
                UfsMcqQueueDescriptor { id, max_entries, oprs },
            ),
    {
        if max_entries == 0 {
            return Err(Error::Invalid);
        }
        Ok(UfsMcqQueueDescriptor { id, max_entries, oprs })
    }

    pub fn id(&self) -> (r: u32)
        ensures
            r == self.id,
    {
        self.id
    }

    pub fn max_entries(&self) -> (r: u32)
        ensures
            r == self.max_entries,
    {
        self.max_entries
    }

    pub fn oprs(&self) -> (r: UfsMcqOprSet)
        ensures
            r == self.oprs,
    {
        self.oprs
    }

    /// The ring slot that a head or tail pointer register value `offset`
    /// names.
    pub fn offset_to_slot(&self, offset: u32, entry_size: u32) -> (r: Result<u32>)
        requires
            entry_size > 0,
        ensures
            r == spec_offset_to_slot(offset, entry_size, self.max_entries),
    {
        if offset % entry_size != 0 {
            return Err(Error::Invalid);
        }
        let slot = offset / entry_size;
        if slot >= self.max_entries {
            return Err(Error::Invalid);
        }
        Ok(slot)
    }

    pub open spec fn wf(self) -> bool {
        &&& 0 < self.max_entries
        &&& self.max_entries as int * 32 <= u32::MAX
    }
}

/// The software tail of a submission queue.
#[derive(Clone, Copy, Debug, PartialEq, Eq, Structural)]
pub struct UfsMcqSubmissionQueue {
    pub sq_tail_slot: u32,
}

/// Where a submission went: the ring slot written, the tail before, and
/// the tail pointer value that publishes it.
#[derive(Clone, Copy, Debug, PartialEq, Eq, Structural)]
pub struct SqReservation {
    pub index: usize,
    pub previous_tail: u32,
    pub tail_offset: u32,
}

impl UfsMcqSubmissionQueue {
    pub open spec fn wf(self, d: UfsMcqQueueDescriptor) -> bool {
        self.sq_tail_slot < d.max_entries
    }

    pub fn new() -> (r: UfsMcqSubmissionQueue)
        ensures
            r.sq_tail_slot == 0,
    {
        UfsMcqSubmissionQueue { sq_tail_slot: 0 }
    }

    pub fn sq_tail_slot(&self) -> (r: u32)
        ensures
            r == self.sq_tail_slot,
    {
        self.sq_tail_slot
    }

    pub fn set_sq_tail_slot(&mut self, slot: u32)
        ensures
            final(self).sq_tail_slot == slot,
    {
        self.sq_tail_slot = slot;
    }

    /// The ring index of the tail, which must lie inside the ring.
    pub fn sq_tail_index(&self, d: &UfsMcqQueueDescriptor) -> (r: Result<usize>)
        ensures
            self.sq_tail_slot < d.max_entries ==> r == Ok::<usize, Error>(
                self.sq_tail_slot as usize,
            ),
            self.sq_tail_slot >= d.max_entries ==> r == Err::<usize, Error>(Error::Invalid),
    {
        let index = self.sq_tail_slot as usize;
        if index >= d.max_entries as usize {
            return Err(Error::Invalid);
        }
        Ok(index)
    }

    /// The tail pointer value of slot `slot`.
    pub fn sq_slot_offset(slot: u32) -> (r: u32)
        requires
            slot as int * 32 <= u32::MAX,
        ensures
            r == slot * UTRD_SIZE,
    {
        slot * (UTRD_SIZE as u32)
    }

    pub fn next_sq_tail_slot(&self, d: &UfsMcqQueueDescriptor) -> (r: u32)
        requires
            self.sq_tail_slot < u32::MAX,
        ensures
            r == next_slot(self.sq_tail_slot, d.max_entries),
            self.wf(*d) ==> r < d.max_entries,
    {
        let next = self.sq_tail_slot + 1;
        if next == d.max_entries {
            0
        } else {
            next
        }
    }

    /// Whether the ring is full given the controller's head pointer value
    /// `head_offset`: one more entry would make the tail reach the head.
    pub fn is_full(&self, d: &UfsMcqQueueDescriptor, head_offset: u32) -> (r: Result<bool>)
        requires
            self.sq_tail_slot < u32::MAX,
        ensures
            match spec_offset_to_slot(head_offset, UTRD_SIZE as u32, d.max_entries) {
                Err(e) => r == Err::<bool, Error>(e),
                Ok(head) => r == Ok::<bool, Error>(next_slot(self.sq_tail_slot, d.max_entries) == head),
            },
    {
        let head = d.offset_to_slot(head_offset, UTRD_SIZE as u32)?;
        Ok(self.next_sq_tail_slot(d) == head)
    }

    pub fn reset(&mut self)
        ensures
            final(self).sq_tail_slot == 0,
    {
        self.sq_tail_slot = 0;
    }

    /// Takes the tail slot for a new entry and advances the tail. Returns
    /// the slot to write and the new tail pointer value; refused when the
    /// tail lies outside the ring.
    pub fn write_entry(&mut self, d: &UfsMcqQueueDescriptor) -> (r: Result<(usize, u32)>)
        requires
            d.wf(),
        ensures
            !old(self).wf(*d) ==> r == Err::<(usize, u32), Error>(Error::Invalid) && *final(self)
                == *old(self),
            old(self).wf(*d) ==> {
                &&& final(self).wf(*d)
                &&& final(self).sq_tail_slot == next_slot(old(self).sq_tail_slot, d.max_entries)
                &&& r == Ok::<(usize, u32), Error>(
                    (old(self).sq_tail_slot as usize, (final(self).sq_tail_slot * 32) as u32),
                )
            },
    {
        let index = self.sq_tail_index(d)?;
        self.sq_tail_slot = self.next_sq_tail_slot(d);
        Ok((index, Self::sq_slot_offset(self.sq_tail_slot)))
    }

    /// Reserves the tail slot for the command in slot `tag` of the DMA
    /// areas. Refused when the ring is full (`Busy`), when the head pointer
    /// is not a slot, when `tag` names no slot, or when the tail lies
    /// outside the ring.
    pub fn reserve(
        &mut self,
        d: &UfsMcqQueueDescriptor,
        head_offset: u32,
        tag: u32,
        layout: &UfsDmaLayout,
    ) -> (r: Result<SqReservation>)
        requires
            old(self).sq_tail_slot < u32::MAX,
            d.wf(),
        ensures
            r is Ok ==> final(self).wf(*d),
            match spec_offset_to_slot(head_offset, UTRD_SIZE as u32, d.max_entries) {
                Err(e) => r == Err::<SqReservation, Error>(e) && *final(self) == *old(self),
                Ok(head) => if next_slot(old(self).sq_tail_slot, d.max_entries) == head {
                    r == Err::<SqReservation, Error>(Error::Busy) && *final(self) == *old(self)
                } else if tag >= layout.transfer_slots {
                    r == Err::<SqReservation, Error>(Error::Invalid) && *final(self) == *old(self)
                } else if !old(self).wf(*d) {
                    r == Err::<SqReservation, Error>(Error::Invalid) && *final(self) == *old(self)
                } else {
                    r == Ok::<SqReservation, Error>(
                        SqReservation {
                            index: old(self).sq_tail_slot as usize,
                            previous_tail: old(self).sq_tail_slot,
                            tail_offset: (next_slot(old(self).sq_tail_slot, d.max_entries)
                                * 32) as u32,
                        },
                    ) && final(self).sq_tail_slot == next_slot(
                        old(self).sq_tail_slot,
                        d.max_entries,
                    )
                },
            },
    {
        if self.is_full(d, head_offset)? {
            return Err(Error::Busy);
        }
        if tag as usize >= layout.transfer_slots {
            return Err(Error::Invalid);
        }
        let previous_tail = self.sq_tail_slot();
        let (index, tail_offset) = self.write_entry(d)?;
        Ok(SqReservation { index, previous_tail, tail_offset })
    }
}

/// The outcome of a submission on a multi-circular queue, once the entry is
/// in the ring: publishing the request, then writing the tail pointer.
/// A request that failed to publish is rolled back first (see
/// `UfsMcqSubmissionQueue::set_sq_tail_slot`).
pub fn mcq_submission_outcome(publish: Result<()>, tail_write: Result<()>) -> (r: SubmissionOutcome)
    ensures
        r == match publish {
            Err(e) => SubmissionOutcome::NotSubmitted(e),
            Ok(_) => match tail_write {
                Ok(_) => SubmissionOutcome::Submitted,
                Err(e) => SubmissionOutcome::PublishFailed(e),
            },
        },
{
    match publish {
        Err(e) => SubmissionOutcome::NotSubmitted(e),
        Ok(()) => match tail_write {
            Ok(()) => SubmissionOutcome::Submitted,
            Err(e) => SubmissionOutcome::PublishFailed(e),
        },
    }
}

/// The software head and the last tail read of a completion queue.
#[derive(Clone, Copy, Debug, PartialEq, Eq, Structural)]
pub struct UfsMcqCompletionQueue {
    pub cq_tail_slot: u32,
    pub cq_head_slot: u32,
}

/// Whether `e` is a valid completion for queue `id` in `layout`.
pub open spec fn cqe_valid(layout: UfsDmaLayout, id: u32, e: CqEntry) -> bool {
    &&& e.task_tag < layout.transfer_slots
    &&& e.spec_submission_queue_id() == id
    &&& e.spec_matches_ucd_base_addr(layout.spec_ucd_address(e.task_tag as int))
}

/// The requests that the consumed entries `es` complete: the valid ones, in
/// ring order.
pub open spec fn valid_completions(layout: UfsDmaLayout, id: u32, es: Seq<CqEntry>) -> Seq<
    CompletedRequest,
>
    decreases es.len(),
{
    if es.len() == 0 {
        Seq::empty()
    } else {
        let rest = valid_completions(layout, id, es.drop_last());
        if cqe_valid(layout, id, es.last()) {
            rest.push(CompletedRequest::Mcq { queue_id: id, cqe: es.last() })
        } else {
            rest
        }
    }
}

/// The fault that consuming `es` records in a batch that held none:
/// the first entry that matched no command of the queue, else the head slot
/// `stop` at which an unwritten entry ended consumption, if it did.
pub open spec fn collect_fault(
    layout: UfsDmaLayout,
    id: u32,
    es: Seq<CqEntry>,
    stop: Option<u32>,
) -> Option<CompletionFault> {
    match first_invalid(layout, id, es) {
        Some(k) => Some(
            CompletionFault {
                reason: "invalid MCQ completion descriptor",
                tag: es[k].task_tag as usize,
                queue_id: Some(id),
            },
        ),
        None => match stop {
            Some(h) => Some(
                CompletionFault {
                    reason: "empty MCQ completion entry",
                    tag: h as usize,
                    queue_id: Some(id),
                },
            ),
            None => None,
        },
    }
}

proof fn lemma_first_invalid_bound(layout: UfsDmaLayout, id: u32, es: Seq<CqEntry>)
    ensures
        first_invalid(layout, id, es) matches Some(k) ==> 0 <= k < es.len(),
    decreases es.len(),
{
    if es.len() > 0 {
        lemma_first_invalid_bound(layout, id, es.drop_last());
    }
}

/// The first invalid entry among `es`, if any.
pub open spec fn first_invalid(layout: UfsDmaLayout, id: u32, es: Seq<CqEntry>) -> Option<int>
    decreases es.len(),
{
    if es.len() == 0 {
        None
    } else {
        match first_invalid(layout, id, es.drop_last()) {
            Some(i) => Some(i),
            None => if cqe_valid(layout, id, es.last()) {
                None
            } else {
                Some(es.len() - 1)
            },
        }
    }
}

impl UfsMcqCompletionQueue {
    pub open spec fn wf(self, d: UfsMcqQueueDescriptor) -> bool {
        &&& self.cq_tail_slot < d.max_entries
        &&& self.cq_head_slot < d.max_entries
    }

    pub fn new() -> (r: UfsMcqCompletionQueue)
        ensures
            r.cq_tail_slot == 0,
            r.cq_head_slot == 0,
    {
        UfsMcqCompletionQueue { cq_tail_slot: 0, cq_head_slot: 0 }
    }

    pub fn tail_slot(&self) -> (r: u32)
        ensures
            r == self.cq_tail_slot,
    {
        self.cq_tail_slot
    }

    pub fn head_slot(&self) -> (r: u32)
        ensures
            r == self.cq_head_slot,
    {
        self.cq_head_slot
    }

    /// Takes the controller's tail pointer value `tail_offset`.
    pub fn update_tail(&mut self, d: &UfsMcqQueueDescriptor, tail_offset: u32) -> (r: Result<()>)
        ensures
            match spec_offset_to_slot(tail_offset, CQ_ENTRY_SIZE as u32, d.max_entries) {
                Err(e) => r == Err::<(), Error>(e) && *final(self) == *old(self),
                Ok(tail) => r == Ok::<(), Error>(()) && *final(self) == (UfsMcqCompletionQueue {
                    cq_tail_slot: tail,
                    ..*old(self)
                }),
            },
    {
        self.cq_tail_slot = d.offset_to_slot(tail_offset, CQ_ENTRY_SIZE as u32)?;
        Ok(())
    }

    pub fn is_empty(&self) -> (r: bool)
        ensures
            r == (self.cq_head_slot == self.cq_tail_slot),
    {
        self.cq_head_slot == self.cq_tail_slot
    }

    pub fn reset(&mut self)
        ensures
            final(self).cq_tail_slot == 0,
            final(self).cq_head_slot == 0,
    {
        self.cq_tail_slot = 0;
        self.cq_head_slot = 0;
    }

    /// The number of entries between the head and the tail.
    pub fn pending(&self, d: &UfsMcqQueueDescriptor) -> (r: usize)
        requires
            self.wf(*d),
        ensures
            r == ring_distance(self.cq_head_slot, self.cq_tail_slot, d.max_entries),
    {
        if self.cq_head_slot <= self.cq_tail_slot {
            (self.cq_tail_slot - self.cq_head_slot) as usize
        } else {
            (self.cq_tail_slot + (d.max_entries - self.cq_head_slot)) as usize
        }
    }

    /// The head pointer value that hands the consumed entries back.
    pub fn head_offset(&self, d: &UfsMcqQueueDescriptor) -> (r: u32)
        requires
            self.wf(*d),
            d.wf(),
        ensures
            r == self.cq_head_slot * CQ_ENTRY_SIZE,
    {
        self.cq_head_slot * (CQ_ENTRY_SIZE as u32)
    }

    /// Consumes completion entries from the head towards the tail while the
    /// batch has room. `pending[i]` is the entry `i` slots after the head.
    /// An entry the controller has not written stops consumption with a
    /// fault; an entry that does not match a command of this queue is
    /// consumed and recorded as a fault. Returns the number consumed, whose
    /// slots are to be cleared.
    pub fn collect(
        &mut self,
        d: &UfsMcqQueueDescriptor,
        layout: &UfsDmaLayout,
        pending: &[CqEntry],
        requests: &mut CompletedRequests,
    ) -> (consumed: usize)
        requires
            old(self).wf(*d),
            d.wf(),
            layout.wf(),
            old(requests).wf(),
            pending@.len() == ring_distance(
                old(self).cq_head_slot,
                old(self).cq_tail_slot,
                d.max_entries,
            ),
        ensures
            final(self).wf(*d),
            final(requests).wf(),
            final(requests).taken() == old(requests).taken(),
            consumed <= pending@.len(),
            final(self).cq_tail_slot == old(self).cq_tail_slot,
            ring_distance(old(self).cq_head_slot, final(self).cq_head_slot, d.max_entries)
                == consumed,
            forall|i: int| 0 <= i < consumed ==> !(#[trigger] pending@[i]).spec_is_empty(),
            final(requests).collected() == old(requests).collected() + valid_completions(
                *layout,
                d.id,
                pending@.subrange(0, consumed as int),
            ),
            ({
                let stopped = consumed < pending@.len() && !final(requests).spec_is_full();
                &&& stopped ==> pending@[consumed as int].spec_is_empty()
                &&& final(requests).spec_fault() == (if old(requests).spec_fault() is Some {
                    old(requests).spec_fault()
                } else {
                    collect_fault(
                        *layout,
                        d.id,
                        pending@.subrange(0, consumed as int),
                        if stopped {
                            Some(final(self).cq_head_slot)
                        } else {
                            None
                        },
                    )
                })
            }),
    {
        let mut i: usize = 0;
        let mut stopped = false;
        let ghost head0 = self.cq_head_slot;
        let ghost start = requests.collected();
        let ghost fault0 = requests.spec_fault();
        while !stopped && !self.is_empty() && !requests.is_full()
            invariant
                self.wf(*d),
                d.wf(),
                layout.wf(),
                requests.wf(),
                requests.taken() == old(requests).taken(),
                start == old(requests).collected(),
                fault0 == old(requests).spec_fault(),
                head0 == old(self).cq_head_slot,
                head0 < d.max_entries,
                self.cq_tail_slot == old(self).cq_tail_slot,
                pending@.len() == ring_distance(head0, self.cq_tail_slot, d.max_entries),
                i <= pending@.len(),
                ring_distance(head0, self.cq_head_slot, d.max_entries) == i,
                ring_distance(self.cq_head_slot, self.cq_tail_slot, d.max_entries)
                    == pending@.len() - i,
                forall|j: int| 0 <= j < i ==> !(#[trigger] pending@[j]).spec_is_empty(),
                requests.collected() == start + valid_completions(
                    *layout,
                    d.id,
                    pending@.subrange(0, i as int),
                ),
                stopped ==> i < pending@.len() && pending@[i as int].spec_is_empty()
                    && !requests.spec_is_full(),
                requests.spec_fault() == (if fault0 is Some {
                    fault0
                } else {
                    collect_fault(
                        *layout,
                        d.id,
                        pending@.subrange(0, i as int),
                        if stopped {
                            Some(self.cq_head_slot)
                        } else {
                            None
                        },
                    )
                }),
            decreases pending@.len() - i, if stopped { 0int } else { 1int },
        {
            let cqe = pending[i];
            if cqe.is_empty() {
                let head = self.cq_head_slot;
                requests.record_fault("empty MCQ completion entry", head as usize, Some(d.id));
                stopped = true;
            } else {
                let ghost before = pending@.subrange(0, i as int);
                let next = self.cq_head_slot + 1;
                self.cq_head_slot = if next == d.max_entries {
                    0
                } else {
                    next
                };
                match layout.validate_cq_entry(&cqe, d.id) {
                    Ok(()) => {
                        let _ = requests.insert_mcq(d.id, cqe);
                    },
                    Err(_) => {
                        requests.record_fault(
                            "invalid MCQ completion descriptor",
                            cqe.task_tag() as usize,
                            Some(d.id),
                        );
                    },
                }
                i = i + 1;
                proof {
                    let after = pending@.subrange(0, i as int);
                    assert(after.drop_last() =~= before);
                    assert(after.last() == cqe);
                    if let Some(k) = first_invalid(*layout, d.id, before) {
                        lemma_first_invalid_bound(*layout, d.id, before);
                        assert(after[k] == before[k]);
                    }
                }
            }
        }
        i
    }
}

/// The ring size of a multi-circular queue layout and the identifier of
/// its last queue, as the controller takes them: both must fit in 32 bits.
pub fn mcq_queue_shape(ring_entries: usize, total_queues: usize) -> (r: Result<(u32, u32)>)
    ensures
        ring_entries > u32::MAX ==> r == Err::<(u32, u32), Error>(Error::Overflow),
        ring_entries <= u32::MAX && total_queues > u32::MAX as int + 1 ==> r == Err::<
            (u32, u32),
            Error,
        >(Error::Overflow),
        ring_entries <= u32::MAX && total_queues <= u32::MAX as int + 1 ==> r == Ok::<
            (u32, u32),
            Error,
        >((ring_entries as u32, if total_queues == 0 {
            0u32
        } else {
            (total_queues - 1) as u32
        })),
{
    if ring_entries > u32::MAX as usize {
        return Err(Error::Overflow);
    }
    if total_queues > 0 && total_queues - 1 > u32::MAX as usize {
        return Err(Error::Overflow);
    }
    let last = if total_queues == 0 {
        0u32
    } else {
        (total_queues - 1) as u32
    };
    Ok((ring_entries as u32, last))
}

/// Only a poll queue may be polled.
pub fn poll_check(is_poll_queue: bool) -> (r: Result<()>)
    ensures
        r == (if is_poll_queue {
            Ok::<(), Error>(())
        } else {
            Err::<(), Error>(Error::Invalid)
        }),
{
    if is_poll_queue {
        Ok(())
    } else {
        Err(Error::Invalid)
    }
}

/// Whether the queues can be configured with `interrupt_queues` of them
/// raising interrupts, and for each queue `id` whether its completion
/// tail pushes raise one.
pub fn configure_check(interrupt_queues: usize, queues: usize) -> (r: Result<()>)
    ensures
        r == (if interrupt_queues > queues {
            Err::<(), Error>(Error::Invalid)
        } else {
            Ok::<(), Error>(())
        }),
{
    if interrupt_queues > queues {
        Err(Error::Invalid)
    } else {
        Ok(())
    }
}

pub fn raises_interrupts(id: usize, interrupt_queues: usize) -> (r: bool)
    ensures
        r == (id < interrupt_queues),
{
    id < interrupt_queues
}

/// Reserving a slot grows the submission ring by exactly one entry and
/// never fills it: the tail stays short of the controller's head.
pub proof fn lemma_reserve_grows_ring(head: u32, tail: u32, max_entries: u32)
    requires
        head < max_entries,
        tail < max_entries,
        next_slot(tail, max_entries) != head,
    ensures
        next_slot(tail, max_entries) < max_entries,
        ring_distance(head, next_slot(tail, max_entries), max_entries) == ring_distance(
            head,
            tail,
            max_entries,
        ) + 1,
        ring_distance(head, next_slot(tail, max_entries), max_entries) < max_entries,
{
}

/// Consuming completion entries moves the head towards the tail: what is
/// left to consume shrinks by the number consumed.
pub proof fn lemma_consume_shrinks_ring(head: u32, new_head: u32, tail: u32, max_entries: u32, consumed: int)
    requires
        head < max_entries,
        new_head < max_entries,
        tail < max_entries,
        ring_distance(head, new_head, max_entries) == consumed,
        consumed <= ring_distance(head, tail, max_entries),
    ensures
        ring_distance(new_head, tail, max_entries) == ring_distance(head, tail, max_entries)
            - consumed,
{
}

} // verus!
