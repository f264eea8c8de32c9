use rufs::command::TaskTag;
use rufs::dma::UfsDmaLayout;
use rufs::error::Error;
use rufs::frontend::pci::UfsPciVariant;
use rufs::hci::descriptor::CqEntry;
use rufs::reg::{McqRegisterRegion, UfsMcqOprInfo, UfsMcqOprSet};
use rufs::transport::mcq::{
    completion_events_ack, configure_check, mcq_queue_shape, mcq_submission_outcome, poll_check,
    raises_interrupts, UfsMcqCompletionQueue, UfsMcqQueueDescriptor, UfsMcqSubmissionQueue,
};
use rufs::transport::sdb::{tag_mask, SdbCompletionSource, SdbCompletionState};
use rufs::transport::{
    possible_cpus, CompletedRequest, CompletedRequests, SubmissionOutcome, TransferCompletion,
    UfsTransferConfig,
};
use rufs::variant::UfsVariant;

fn oprs() -> UfsMcqOprSet {
    let info = UfsMcqOprInfo::new(McqRegisterRegion::Hci, 0x1000, 0, 0x100);
    UfsMcqOprSet::new(info, info, info, info)
}

fn layout() -> UfsDmaLayout {
    UfsDmaLayout::new(32, 0x10_0000, 0x20_0000, 0x30_0000).unwrap()
}

fn cqe_for(tag: u8, queue: u64) -> CqEntry {
    let mut e = CqEntry::zeroed();
    e.task_tag = tag;
    e.command_desc_base_addr = (0x10_0000 + tag as u64 * 5120) | queue;
    e
}

#[test]
fn transfer_config_choice() {
    let pci = UfsVariant::Pci(UfsPciVariant::Qemu);
    // No MCQ capability: single doorbell with the controller's slot count.
    assert_eq!(
        UfsTransferConfig::new(0x1f, 0, &pci, 4),
        Ok(UfsTransferConfig::Sdb { tag_count: 32 })
    );
    // MCQ: queues per CPU, one poll queue, depth from the slot count.
    let cfg = UfsTransferConfig::new(0x4000_003f, 0x7, &pci, 4).unwrap();
    match cfg {
        UfsTransferConfig::Mcq(c) => {
            assert_eq!(c.max_queues, 8);
            assert_eq!(c.default_queues, 4);
            assert_eq!(c.interrupt_queues, 4);
            assert_eq!(c.poll_queues, 1);
            assert_eq!(c.total_queues, 5);
            assert_eq!(c.queue_depth, 64);
            assert_eq!(c.ring_entries, 65);
            assert!(c.is_poll_queue(4));
            assert!(!c.is_poll_queue(3));
        }
        _ => panic!("expected MCQ"),
    }
    assert_eq!(cfg.queue_depth(), 64);
    assert_eq!(UfsTransferConfig::new(0x4000_003f, 0x0, &pci, 4), Err(Error::NotSupported));
    assert_eq!(possible_cpus(0), 1);
    assert_eq!(possible_cpus(8), 8);
}

#[test]
fn completed_requests_batch() {
    let mut b = CompletedRequests::new();
    assert_eq!(CompletedRequests::capacity(), 16);
    assert!(!b.is_full());
    let inserted = b.insert_sdb_mask(0b1010).unwrap();
    assert_eq!(inserted, 0b1010);
    let first = b.take_next().unwrap();
    assert_eq!(first.task_tag(), TaskTag(1));
    assert_eq!(first.queue_id(), 0);
    assert!(matches!(first.completion(), TransferCompletion::Sdb));
    assert_eq!(b.take_next().unwrap().task_tag(), TaskTag(3));
    assert!(b.take_next().is_none());
    b.record_fault("first", 1, None);
    b.record_fault("second", 2, Some(3));
    let f = b.take_fault().unwrap();
    assert_eq!(f.reason, "first");
    assert_eq!(f.tag, 1);
    assert!(b.take_fault().is_none());
}

#[test]
fn full_batch_takes_lowest_tags_first() {
    let mut b = CompletedRequests::new();
    let inserted = b.insert_sdb_mask(0xffff_ffff).unwrap();
    assert_eq!(inserted, 0x0000_ffff);
    assert!(b.is_full());
    assert_eq!(b.insert(CompletedRequest::Sdb(TaskTag(20))), Err(Error::NoMemory));
    let m = CompletedRequests::new().insert_mcq(2, cqe_for(1, 2));
    assert_eq!(m, Ok(()));
}

#[test]
fn doorbell_completion_sources() {
    assert_eq!(tag_mask(3), Some(8));
    assert_eq!(tag_mask(32), None);
    let mut s = SdbCompletionState::new();
    let m1 = s.begin_submit(1).unwrap();
    s.commit_submit(m1, false);
    let m2 = s.begin_submit(2).unwrap();
    s.commit_submit(m2, true);
    assert_eq!(s.begin_submit(1), Err(Error::Busy));
    assert_eq!(s.begin_submit(40), Err(Error::Invalid));
    // Both finished; the interrupt path takes only the unpolled one.
    let mut b = CompletedRequests::new();
    assert_eq!(s.collect(0, SdbCompletionSource::Interrupt, &mut b), Ok(0b010));
    assert_eq!(b.take_next().unwrap().task_tag(), TaskTag(1));
    assert_eq!(s.collect(0, SdbCompletionSource::Interrupt, &mut b), Ok(0));
    assert_eq!(s.collect(0b100, SdbCompletionSource::Poll, &mut b), Ok(0));
    assert_eq!(s.collect(0, SdbCompletionSource::Poll, &mut b), Ok(0b100));
    assert_eq!(s.outstanding, 0);
    s.reset();
    assert_eq!(s, SdbCompletionState::new());
}

#[test]
fn submission_ring() {
    let d = UfsMcqQueueDescriptor::new(1, 4, oprs()).unwrap();
    assert_eq!(UfsMcqQueueDescriptor::new(1, 0, oprs()), Err(Error::Invalid));
    assert_eq!(d.offset_to_slot(64, 32), Ok(2));
    assert_eq!(d.offset_to_slot(65, 32), Err(Error::Invalid));
    assert_eq!(d.offset_to_slot(128, 32), Err(Error::Invalid));
    let mut sq = UfsMcqSubmissionQueue::new();
    let l = layout();
    let r = sq.reserve(&d, 0, 5, &l).unwrap();
    assert_eq!((r.index, r.previous_tail, r.tail_offset), (0, 0, 32));
    sq.reserve(&d, 0, 6, &l).unwrap();
    let r = sq.reserve(&d, 0, 7, &l).unwrap();
    assert_eq!(r.tail_offset, 96);
    // One more would make the tail reach the head.
    assert!(sq.is_full(&d, 0).unwrap());
    assert_eq!(sq.reserve(&d, 0, 8, &l), Err(Error::Busy));
    assert_eq!(sq.sq_tail_slot(), 3);
    // The head moved on: the tail wraps.
    let r = sq.reserve(&d, 64, 8, &l).unwrap();
    assert_eq!((r.index, r.tail_offset), (3, 0));
    assert_eq!(sq.reserve(&d, 64, 99, &l), Err(Error::Invalid));
    assert_eq!(sq.reserve(&d, 3, 9, &l), Err(Error::Invalid));
    sq.set_sq_tail_slot(2);
    assert_eq!(sq.sq_tail_slot(), 2);
}

#[test]
fn completion_ring_collects_valid_entries() {
    let d = UfsMcqQueueDescriptor::new(2, 4, oprs()).unwrap();
    let l = layout();
    let mut cq = UfsMcqCompletionQueue::new();
    assert_eq!(cq.update_tail(&d, 3 * 32), Ok(()));
    assert_eq!(cq.update_tail(&d, 7), Err(Error::Invalid));
    assert_eq!(cq.pending(&d), 3);
    let entries = [cqe_for(4, 2), cqe_for(5, 2), cqe_for(6, 2)];
    let mut b = CompletedRequests::new();
    assert_eq!(cq.collect(&d, &l, &entries, &mut b), 3);
    assert!(cq.is_empty());
    assert_eq!(cq.head_offset(&d), 96);
    assert_eq!(b.take_next().unwrap().task_tag(), TaskTag(4));
    assert!(b.take_fault().is_none());
}

#[test]
fn completion_ring_faults() {
    let d = UfsMcqQueueDescriptor::new(2, 4, oprs()).unwrap();
    let l = layout();
    let mut cq = UfsMcqCompletionQueue::new();
    cq.update_tail(&d, 3 * 32).unwrap();
    // Second entry from another queue, third not written yet.
    let entries = [cqe_for(4, 2), cqe_for(5, 1), CqEntry::zeroed()];
    let mut b = CompletedRequests::new();
    assert_eq!(cq.collect(&d, &l, &entries, &mut b), 2);
    assert_eq!(cq.head_slot(), 2);
    let f = b.take_fault().unwrap();
    assert_eq!(f.reason, "invalid MCQ completion descriptor");
    assert_eq!(f.tag, 5);
    assert_eq!(f.queue_id, Some(2));
    assert_eq!(b.take_next().unwrap().task_tag(), TaskTag(4));
    assert!(b.take_next().is_none());

    let mut cq = UfsMcqCompletionQueue::new();
    cq.update_tail(&d, 32).unwrap();
    let mut b = CompletedRequests::new();
    assert_eq!(cq.collect(&d, &l, &[CqEntry::zeroed()], &mut b), 0);
    let f = b.take_fault().unwrap();
    assert_eq!(f.reason, "empty MCQ completion entry");
    assert_eq!(f.tag, 0);
}

#[test]
fn mcq_small_decisions() {
    assert_eq!(completion_events_ack(0), (None, false));
    assert_eq!(completion_events_ack(5), (Some(5), true));
    assert_eq!(mcq_submission_outcome(Ok(()), Ok(())), SubmissionOutcome::Submitted);
    assert_eq!(
        mcq_submission_outcome(Err(Error::Io), Ok(())),
        SubmissionOutcome::NotSubmitted(Error::Io)
    );
    assert_eq!(
        mcq_submission_outcome(Ok(()), Err(Error::TimedOut)),
        SubmissionOutcome::PublishFailed(Error::TimedOut)
    );
    assert_eq!(mcq_queue_shape(65, 5), Ok((65, 4)));
    assert_eq!(mcq_queue_shape(1 << 33, 5), Err(Error::Overflow));
    assert_eq!(poll_check(false), Err(Error::Invalid));
    assert_eq!(poll_check(true), Ok(()));
    assert_eq!(configure_check(5, 4), Err(Error::Invalid));
    assert_eq!(configure_check(4, 5), Ok(()));
    assert!(raises_interrupts(3, 4));
    assert!(!raises_interrupts(4, 4));
}

#[test]
fn doorbell_collection_takes_lowest_slots_first() {
    let mut s = SdbCompletionState::new();
    for tag in 0..20u32 {
        let m = s.begin_submit(tag).unwrap();
        s.commit_submit(m, false);
    }
    let mut b = CompletedRequests::new();
    // Twenty finished slots; the batch holds sixteen, the lowest ones.
    assert_eq!(s.collect(0, SdbCompletionSource::Interrupt, &mut b), Ok(0xffff));
    assert_eq!(s.outstanding, 0xf_0000);
    assert_eq!(b.take_next().unwrap().task_tag(), TaskTag(0));
}

#[test]
fn submission_tail_outside_the_ring_is_refused() {
    let d = UfsMcqQueueDescriptor::new(1, 4, oprs()).unwrap();
    let mut sq = UfsMcqSubmissionQueue::new();
    sq.set_sq_tail_slot(9);
    assert_eq!(sq.reserve(&d, 0, 5, &layout()), Err(Error::Invalid));
    assert_eq!(sq.sq_tail_slot(), 9);
    assert_eq!(sq.write_entry(&d), Err(Error::Invalid));
}
