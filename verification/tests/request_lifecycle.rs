use rufs::block::BlkStatus;
use rufs::dma::prdt::{MappingRelease, UfsActiveMapping, UfsPreparedMapping};
use rufs::error::Error;
use rufs::protocol::query::UfsDevCmd;
use rufs::protocol::scsi::UfsSCSICmd;
use rufs::protocol::UfsCmd;
use rufs::queue::{
    complete_device_request, finish_scsi_completion, recovery_request_disposal,
    scsi_completion_decision, CompletionDisposition, ScsiFinish, TimeoutDisposition,
    UfsRequestInner, UfsRequestState,
};
use rufs::protocol::scsi::{UfsScsiCompletion, UfsScsiResult};

fn scsi() -> UfsSCSICmd {
    UfsSCSICmd::read_write(0, false, 8, 1, 4096, false)
}

fn is_idle(r: &UfsRequestInner) -> bool {
    matches!(r.state(), UfsRequestState::Idle)
}

#[test]
fn scsi_request_round_trip() {
    let mut r = UfsRequestInner::default();
    assert!(is_idle(&r));
    r.prepare_scsi(scsi(), UfsPreparedMapping::Sg { entries: 2 }).unwrap();
    assert!(matches!(r.prepared_command(), Ok(UfsCmd::Scsi(_))));
    r.mark_in_flight(3).unwrap();
    let (cmd, mapping) = r.begin_completion(3).unwrap();
    assert!(matches!(cmd, UfsCmd::Scsi(_)));
    assert_eq!(mapping, UfsActiveMapping { mapping: UfsPreparedMapping::Sg { entries: 2 } });
    assert!(matches!(r.state(), UfsRequestState::Completing));
    r.schedule_completion(CompletionDisposition::Requeue).unwrap();
    assert_eq!(r.take_scheduled_completion().unwrap(), CompletionDisposition::Requeue);
    assert!(is_idle(&r));
}

#[test]
fn busy_request_refuses_new_commands() {
    let mut r = UfsRequestInner::default();
    r.prepare_scsi(scsi(), UfsPreparedMapping::Unmapped).unwrap();
    assert_eq!(r.prepare_scsi(scsi(), UfsPreparedMapping::Unmapped), Err(Error::Busy));
    assert_eq!(r.prepare_device(UfsDevCmd::nop()), Err(Error::Invalid));
    assert!(matches!(r.state(), UfsRequestState::Prepared { .. }));
}

#[test]
fn device_preparation_needs_a_device_command() {
    let mut r = UfsRequestInner::default();
    assert_eq!(r.prepare_device(UfsCmd::Scsi(scsi())), Err(Error::Invalid));
    assert!(is_idle(&r));
    r.prepare_device(UfsDevCmd::nop()).unwrap();
    assert!(matches!(
        r.state(),
        UfsRequestState::Prepared { cmd: UfsCmd::Device(UfsDevCmd::Nop), mapping: UfsPreparedMapping::Unmapped }
    ));
}

#[test]
fn completion_on_another_queue_is_refused() {
    let mut r = UfsRequestInner::default();
    r.prepare_scsi(scsi(), UfsPreparedMapping::Unmapped).unwrap();
    r.mark_in_flight(1).unwrap();
    assert!(matches!(r.begin_completion(2), Err(Error::Io)));
    assert!(matches!(r.state(), UfsRequestState::InFlight { queue_id: 1, .. }));
    assert!(r.begin_completion(1).is_ok());
}

#[test]
fn failed_transitions_keep_state() {
    let mut r = UfsRequestInner::default();
    assert_eq!(r.mark_in_flight(0), Err(Error::Io));
    assert!(matches!(r.begin_completion(0), Err(Error::Io)));
    assert_eq!(r.complete_device(UfsDevCmd::Nop), Err(Error::Io));
    assert_eq!(r.schedule_completion(CompletionDisposition::Requeue), Err(Error::Io));
    assert_eq!(r.take_scheduled_completion(), Err(Error::Io));
    assert_eq!(r.finish_direct_completion(), Err(Error::Io));
    assert!(r.take_device_completion().is_err());
    assert!(matches!(r.prepared_command(), Err(Error::Io)));
    assert!(is_idle(&r));
}

#[test]
fn timeout_starts_recovery_once() {
    let mut r = UfsRequestInner::default();
    assert!(matches!(r.timeout(), TimeoutDisposition::Completed));
    r.prepare_scsi(scsi(), UfsPreparedMapping::Unmapped).unwrap();
    assert!(matches!(r.timeout(), TimeoutDisposition::Pending(_)));
    r.mark_in_flight(0).unwrap();
    assert!(matches!(r.timeout(), TimeoutDisposition::StartRecovery(_)));
    assert!(matches!(r.state(), UfsRequestState::Recovering { queue_id: 0, .. }));
    assert!(matches!(r.timeout(), TimeoutDisposition::Recovering(_)));
    // A late completion is still taken.
    assert!(r.begin_completion(0).is_ok());
}

#[test]
fn device_request_completion() {
    let mut r = UfsRequestInner::default();
    r.prepare_device(UfsDevCmd::nop()).unwrap();
    r.mark_in_flight(0).unwrap();
    r.begin_completion(0).unwrap();
    assert_eq!(complete_device_request(&mut r, Ok(UfsDevCmd::nop())), BlkStatus::Success);
    assert!(matches!(r.take_device_completion(), Ok(UfsCmd::Device(UfsDevCmd::Nop))));
    assert!(is_idle(&r));

    let mut r = UfsRequestInner::default();
    r.prepare_device(UfsDevCmd::nop()).unwrap();
    r.mark_in_flight(0).unwrap();
    r.begin_completion(0).unwrap();
    assert_eq!(complete_device_request(&mut r, Err(Error::Io)), BlkStatus::IoErr);
    assert!(is_idle(&r));
}

#[test]
fn recovery_leaks_live_mapping_without_stopped_controller() {
    let mut r = UfsRequestInner::default();
    r.prepare_scsi(scsi(), UfsPreparedMapping::Single).unwrap();
    r.mark_in_flight(0).unwrap();
    let (release, disposition) = recovery_request_disposal(&mut r, true, false).unwrap();
    assert_eq!(release, MappingRelease::Leaked);
    assert_eq!(disposition, CompletionDisposition::Requeue);
    assert!(is_idle(&r));

    let mut r = UfsRequestInner::default();
    r.prepare_scsi(scsi(), UfsPreparedMapping::Single).unwrap();
    r.mark_in_flight(0).unwrap();
    let (release, disposition) = recovery_request_disposal(&mut r, false, true).unwrap();
    assert_eq!(release, MappingRelease::Released);
    assert_eq!(disposition, CompletionDisposition::End(BlkStatus::IoErr));
}

#[test]
fn recovery_requeues_device_request_as_prepared() {
    let mut r = UfsRequestInner::default();
    r.prepare_device(UfsDevCmd::nop()).unwrap();
    r.mark_in_flight(0).unwrap();
    assert_eq!(r.prepare_recovery_disposition(true, true), Ok(MappingRelease::Released));
    assert!(matches!(r.state(), UfsRequestState::Prepared { cmd: UfsCmd::Device(_), .. }));
    let mut idle = UfsRequestInner::default();
    assert_eq!(idle.prepare_recovery_disposition(true, true), Err(Error::Io));
}

fn completing() -> UfsRequestInner {
    let mut r = UfsRequestInner::default();
    r.prepare_scsi(scsi(), UfsPreparedMapping::Unmapped).unwrap();
    r.mark_in_flight(0).unwrap();
    r.begin_completion(0).unwrap();
    r
}

#[test]
fn scsi_completion_finishing() {
    let good = scsi_completion_decision(&UfsScsiResult { completion: UfsScsiCompletion::Good, ..UfsScsiResult::error(0) });
    let failed = scsi_completion_decision(&UfsScsiResult::error(0));
    let retry = scsi_completion_decision(&UfsScsiResult::requeue(0));

    let mut r = completing();
    assert_eq!(finish_scsi_completion(&mut r, &good, false), ScsiFinish::Complete);
    assert_eq!(
        r.take_scheduled_completion(),
        Ok(CompletionDisposition::End(BlkStatus::Success))
    );

    let mut r = completing();
    assert_eq!(finish_scsi_completion(&mut r, &good, true), ScsiFinish::AddToBatch);
    assert!(is_idle(&r));
    let mut r = completing();
    assert_eq!(finish_scsi_completion(&mut r, &failed, true), ScsiFinish::End(BlkStatus::IoErr));
    let mut r = completing();
    assert_eq!(finish_scsi_completion(&mut r, &retry, true), ScsiFinish::Requeue);

    let mut idle = UfsRequestInner::default();
    assert_eq!(
        finish_scsi_completion(&mut idle, &good, false),
        ScsiFinish::RecoverAndEnd("invalid SCSI completion state")
    );
    assert_eq!(
        finish_scsi_completion(&mut idle, &good, true),
        ScsiFinish::RecoverAndEnd("invalid polled completion state")
    );
}
