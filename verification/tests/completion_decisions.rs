use rufs::block::BlkStatus;
use rufs::protocol::scsi::{ScsiSense, UfsScsiCompletion, UfsScsiResult};
use rufs::queue::{
    retryable_check_condition, scsi_completion_decision, scsi_status, should_requeue_scsi,
    CompletionDisposition,
};

fn result(completion: UfsScsiCompletion, sense: &[u8]) -> UfsScsiResult {
    let mut r = UfsScsiResult::error(0);
    r.completion = completion;
    r.sense_data_len = sense.len();
    r.sense_data[..sense.len().min(18)].copy_from_slice(&sense[..sense.len().min(18)]);
    r
}

fn fixed_sense(key: u8, asc: u8, ascq: u8) -> [u8; 18] {
    let mut d = [0u8; 18];
    d[0] = 0x70;
    d[2] = key;
    d[12] = asc;
    d[13] = ascq;
    d
}

#[test]
fn unit_attention_is_retryable() {
    let ua = ScsiSense { response_code: 0x70, sense_key: 6, asc: 0x28, ascq: 0, additional_len: 0 };
    let other = ScsiSense { sense_key: 5, ..ua };
    assert!(retryable_check_condition(Some(ua)));
    assert!(!retryable_check_condition(Some(other)));
    assert!(!retryable_check_condition(None));
    assert!(should_requeue_scsi(UfsScsiCompletion::CheckCondition, Some(ua)));
    assert!(!should_requeue_scsi(UfsScsiCompletion::CheckCondition, Some(other)));
    assert!(should_requeue_scsi(UfsScsiCompletion::Busy, None));
    assert!(should_requeue_scsi(UfsScsiCompletion::TaskSetFull, None));
    assert!(should_requeue_scsi(UfsScsiCompletion::Requeue, None));
    assert!(!should_requeue_scsi(UfsScsiCompletion::Good, Some(ua)));
    assert!(!should_requeue_scsi(UfsScsiCompletion::Error, None));
}

#[test]
fn completion_status_table() {
    assert_eq!(scsi_status(UfsScsiCompletion::Good, None), BlkStatus::Success);
    assert_eq!(scsi_status(UfsScsiCompletion::Busy, None), BlkStatus::Resource);
    assert_eq!(scsi_status(UfsScsiCompletion::TaskSetFull, None), BlkStatus::Resource);
    assert_eq!(scsi_status(UfsScsiCompletion::Requeue, None), BlkStatus::Resource);
    assert_eq!(scsi_status(UfsScsiCompletion::TaskAborted, None), BlkStatus::Target);
    assert_eq!(
        scsi_status(UfsScsiCompletion::ReservationConflict, None),
        BlkStatus::ResvConflict
    );
    assert_eq!(scsi_status(UfsScsiCompletion::CheckCondition, None), BlkStatus::IoErr);
    assert_eq!(scsi_status(UfsScsiCompletion::Error, None), BlkStatus::IoErr);
}

#[test]
fn good_completion_ends_successfully_and_quietly() {
    let d = scsi_completion_decision(&result(UfsScsiCompletion::Good, &[]));
    assert!(!d.report);
    assert!(!d.requeue);
    assert_eq!(d.disposition, CompletionDisposition::End(BlkStatus::Success));
}

#[test]
fn power_on_reset_is_retried_without_report() {
    let d = scsi_completion_decision(&result(
        UfsScsiCompletion::CheckCondition,
        &fixed_sense(6, 0x29, 0),
    ));
    assert!(!d.report);
    assert!(d.requeue);
    assert_eq!(d.status, BlkStatus::Resource);
    assert_eq!(d.disposition, CompletionDisposition::Requeue);
    assert_eq!(d.sense_len, 18);
}

#[test]
fn medium_error_is_reported_and_ended() {
    let d = scsi_completion_decision(&result(
        UfsScsiCompletion::CheckCondition,
        &fixed_sense(3, 0x11, 0),
    ));
    assert!(d.report);
    assert!(!d.requeue);
    assert_eq!(d.disposition, CompletionDisposition::End(BlkStatus::IoErr));
    assert_eq!(d.sense.unwrap().sense_key, 3);
}

#[test]
fn reported_sense_length_is_capped() {
    let mut r = result(UfsScsiCompletion::CheckCondition, &fixed_sense(6, 0x28, 0));
    r.sense_data_len = 200;
    let d = scsi_completion_decision(&r);
    assert_eq!(d.sense_len, 18);
    assert!(d.report);
    assert!(d.requeue);
}
