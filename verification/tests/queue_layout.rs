use rufs::command::TaskTag;
use rufs::error::Error;
use rufs::hci::descriptor::CqEntry;
use rufs::queue::{
    completion_pass_limit, queue_map, resolve_completion, submission_check, submit_result,
    tag_set_params, timeout_action, CompletionOutcome, QueueType, RequestLookup, SubmitResult,
    TimeoutDisposition, UfsQueueMap, UfsQueueRange,
};
use rufs::transport::{CompletedRequest, McqConfig, SubmissionOutcome, UfsTransferConfig};

#[test]
fn doorbell_queue_map() {
    let m = UfsQueueMap::sdb();
    assert_eq!(m.nr_hw_queues(), 1);
    assert_eq!(m.range(QueueType::Default), UfsQueueRange { offset: 0, count: 1 });
    assert_eq!(m.range(QueueType::Read).count(), 0);
    assert_eq!(m.range(QueueType::Poll), UfsQueueRange { offset: 0, count: 1 });
    assert_eq!(m.num_maps(), 3);
}

#[test]
fn queue_map_partitions_hardware_queues() {
    let m = UfsQueueMap::new(6, 3, 2, 1).unwrap();
    assert_eq!(m.range(QueueType::Default), UfsQueueRange { offset: 0, count: 3 });
    assert_eq!(m.range(QueueType::Read), UfsQueueRange { offset: 3, count: 2 });
    assert_eq!(m.range(QueueType::Poll), UfsQueueRange { offset: 5, count: 1 });
    assert_eq!(m.num_maps(), 3);
    let m = UfsQueueMap::new(4, 2, 2, 0).unwrap();
    assert_eq!(m.num_maps(), 2);
    assert_eq!(m.range(QueueType::Poll).offset(), 4);
    let m = UfsQueueMap::new(4, 4, 0, 0).unwrap();
    assert_eq!(m.num_maps(), 1);
}

#[test]
fn queue_map_errors() {
    assert_eq!(UfsQueueMap::new(0, 0, 0, 0), Err(Error::Invalid));
    assert_eq!(UfsQueueMap::new(5, 3, 1, 0), Err(Error::Invalid));
    assert_eq!(UfsQueueMap::new(1, usize::MAX, 1, 0), Err(Error::Overflow));
}

fn mcq(total: usize, default: usize, poll: usize, depth: usize) -> McqConfig {
    McqConfig {
        max_queues: 32,
        total_queues: total,
        default_queues: default,
        read_queues: 0,
        interrupt_queues: default,
        poll_queues: poll,
        queue_depth: depth,
        ring_entries: depth + 1,
    }
}

#[test]
fn tag_set_from_configuration() {
    let c = UfsTransferConfig::Mcq(mcq(3, 2, 1, 64));
    assert_eq!(queue_map(&c), UfsQueueMap::new(3, 2, 0, 1));
    let p = tag_set_params(&c, 3).unwrap();
    assert_eq!(p.nr_hw_queues, 3);
    assert_eq!(p.queue_depth, 64);
    assert_eq!(p.num_maps, 3);
    assert_eq!(tag_set_params(&c, 2), Err(Error::Invalid));
    let sdb = UfsTransferConfig::Sdb { tag_count: 32 };
    let p = tag_set_params(&sdb, 1).unwrap();
    assert_eq!(p.queue_depth, 32);
    assert_eq!(p.queue_map, UfsQueueMap::sdb());
    assert_eq!(tag_set_params(&UfsTransferConfig::Sdb { tag_count: 0 }, 1), Err(Error::Invalid));
}

#[test]
fn pass_limit_drains_a_full_queue() {
    assert_eq!(completion_pass_limit(0), 1);
    assert_eq!(completion_pass_limit(1), 1);
    assert_eq!(completion_pass_limit(16), 1);
    assert_eq!(completion_pass_limit(17), 2);
    assert_eq!(completion_pass_limit(32), 2);
    assert_eq!(completion_pass_limit(255), 16);
}

fn cqe(tag: u8) -> CqEntry {
    let mut e = CqEntry::zeroed();
    e.task_tag = tag;
    e.command_desc_base_addr = 0x1000;
    e
}

#[test]
fn completion_resolution() {
    let sdb = CompletedRequest::Sdb(TaskTag(4));
    assert_eq!(resolve_completion(sdb, RequestLookup::Found { tag: 4, queue_index: 0 }), Ok(()));
    assert_eq!(
        resolve_completion(sdb, RequestLookup::Found { tag: 4, queue_index: 1 }),
        Err("completion queue mismatch")
    );
    assert_eq!(
        resolve_completion(sdb, RequestLookup::Vacant),
        Err("completion tag has no request")
    );
    assert_eq!(
        resolve_completion(sdb, RequestLookup::Failed(Error::Busy)),
        Err("completion ownership conflict")
    );
    assert_eq!(
        resolve_completion(sdb, RequestLookup::Failed(Error::Invalid)),
        Err("completion request lookup failed")
    );
    let m = CompletedRequest::Mcq { queue_id: 2, cqe: cqe(9) };
    assert_eq!(resolve_completion(m, RequestLookup::Found { tag: 9, queue_index: 2 }), Ok(()));
    assert_eq!(
        resolve_completion(m, RequestLookup::Found { tag: 8, queue_index: 2 }),
        Err("completion queue mismatch")
    );
}

#[test]
fn submission_decisions() {
    assert_eq!(submission_check(256, false, 0, 0), Err(Error::Invalid));
    assert_eq!(submission_check(3, true, 0, 0), Err(Error::Busy));
    assert_eq!(submission_check(3, false, 1, 0), Err(Error::Invalid));
    assert_eq!(submission_check(3, false, 1, 1), Ok(TaskTag(3)));
    assert_eq!(submit_result(SubmissionOutcome::Submitted, false), SubmitResult::Accepted);
    assert_eq!(
        submit_result(SubmissionOutcome::NotSubmitted(Error::Busy), true),
        SubmitResult::Rejected(Error::Busy)
    );
    assert_eq!(
        submit_result(SubmissionOutcome::NotSubmitted(Error::Busy), false),
        SubmitResult::Recover("invalid submission ownership")
    );
    assert_eq!(
        submit_result(SubmissionOutcome::PublishFailed(Error::Io), true),
        SubmitResult::Recover("submission publish failed")
    );
}

#[test]
fn timeout_actions() {
    let cmd = rufs::protocol::query::UfsDevCmd::nop();
    assert_eq!(timeout_action(TimeoutDisposition::StartRecovery(cmd)), (true, false));
    assert_eq!(timeout_action(TimeoutDisposition::Recovering(cmd)), (false, false));
    assert_eq!(timeout_action(TimeoutDisposition::Pending(cmd)), (false, false));
    assert_eq!(timeout_action(TimeoutDisposition::Completed), (false, true));
    assert!(CompletionOutcome::Returned.returned());
    assert!(!CompletionOutcome::RetainedForRecovery.returned());
}
