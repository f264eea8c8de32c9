use rufs::dma::prdt::{append_entries, mapping_kind, MappingKind, UfsPrdtBuilder};
use rufs::dma::{fetch_devman, fetch_mcq_devman, mcq_scsi_completion, scsi_completion, UfsDmaLayout};
use rufs::error::Error;
use rufs::hci::descriptor::{
    check_ocs, CqEntry, PrdEntry, ReqDescHeader, UtpDataDirection, UtpOcs, Utrd,
};
use rufs::protocol::query::UfsDevCmd;
use rufs::protocol::scsi::{UfsSCSICmd, UfsScsiCompletion, UfsScsiDataDirection};
use rufs::protocol::upiu::Upiu;
use rufs::protocol::UfsCmd;

#[test]
fn prd_entry_layout() {
    assert!(matches!(PrdEntry::new(0x1000, 0), Err(Error::Invalid)));
    let e = PrdEntry::new(0x1122_3344_5566_7788, 0x1000).unwrap();
    assert_eq!(e.size, 0xfff);
    let b = e.to_bytes();
    assert_eq!(b.len(), 16);
    assert_eq!(&b[0..8], &[0x88, 0x77, 0x66, 0x55, 0x44, 0x33, 0x22, 0x11]);
    assert_eq!(&b[12..16], &[0xff, 0x0f, 0, 0]);
}

#[test]
fn ocs_codes() {
    assert_eq!(UtpOcs::from_code(0x0f), UtpOcs::InvalidCommandStatus);
    assert_eq!(UtpOcs::Aborted.code(), 6);
    assert_eq!(check_ocs(0), Ok(()));
    assert_eq!(check_ocs(0x2), Err(Error::Invalid));
    assert_eq!(check_ocs(0x9), Err(Error::Invalid));
    assert_eq!(check_ocs(0x6), Err(Error::Io));
    assert_eq!(check_ocs(0xf), Err(Error::Io));
    assert_eq!(UtpDataDirection::from_scsi(UfsScsiDataDirection::Read), UtpDataDirection::DeviceToHost);
    assert_eq!(UtpDataDirection::HostToDevice.code(), 1);
}

#[test]
fn request_headers() {
    let d = ReqDescHeader::device();
    assert_eq!(d.ctrl, 0x11);
    assert_eq!(d.ocs, 0x0f);
    let w = ReqDescHeader::scsi(UfsSCSICmd::read_write(0, true, 0, 1, 512, false));
    assert_eq!(w.ctrl, 0x13);
    let r = ReqDescHeader::scsi(UfsSCSICmd::read_write(0, false, 0, 1, 512, false));
    assert_eq!(r.ctrl, 0x15);
    let mut h = ReqDescHeader::zeroed();
    h.set_cmd_type(1);
    h.set_direction(UtpDataDirection::DeviceToHost);
    h.set_interrupt(true);
    assert_eq!(h.ctrl, 0x15);
    h.set_interrupt(false);
    assert_eq!(h.ctrl, 0x14);
    let bytes = d.to_bytes();
    assert_eq!(bytes.len(), 16);
    assert_eq!(bytes[3], 0x11);
    assert_eq!(bytes[8], 0x0f);
    assert!(ReqDescHeader::from_bytes(&bytes) == d);
}

#[test]
fn transfer_descriptor() {
    let layout = UfsDmaLayout::new(32, 0x10_0000, 0x20_0000, 0x30_0000).unwrap();
    assert_eq!(UfsDmaLayout::new(0, 0, 0, 0), Err(Error::Invalid));
    assert_eq!(layout.ucd_address(3), 0x10_0000 + 3 * 5120);
    let u = layout.initial_utrd(2);
    assert_eq!(u.command_desc_base_addr, 0x10_0000 + 2 * 5120);
    assert_eq!((u.rsp_upiu_length, u.rsp_upiu_offset, u.prd_table_offset), (128, 128, 256));
    let built = u.build(UfsDevCmd::nop());
    assert_eq!(built.header.ctrl, 0x11);
    assert_eq!(built.ocs(), 0x0f);
    assert_eq!(built.check_response(), Err(Error::Io));
    assert!(u.set_prd_table_length(70000).is_err());
    let bytes = built.to_bytes();
    assert_eq!(bytes.len(), 32);
    assert!(Utrd::from_bytes(&bytes) == built);
}

#[test]
fn completion_entries() {
    let layout = UfsDmaLayout::new(32, 0x10_0000, 0x20_0000, 0x30_0000).unwrap();
    let mut e = CqEntry::zeroed();
    assert!(e.is_empty());
    e.task_tag = 2;
    e.command_desc_base_addr = (0x10_0000 + 2 * 5120) | 3;
    assert_eq!(e.submission_queue_id(), 3);
    assert_eq!(e.ucd_base_addr(), 0x10_0000 + 2 * 5120);
    assert_eq!(layout.validate_cq_entry(&e, 3), Ok(()));
    assert_eq!(layout.validate_cq_entry(&e, 2), Err(Error::Invalid));
    e.task_tag = 40;
    assert_eq!(layout.validate_cq_entry(&e, 3), Err(Error::Invalid));
    e.task_tag = 1;
    assert_eq!(layout.validate_cq_entry(&e, 3), Err(Error::Io));
    let bytes = e.to_bytes();
    assert_eq!(bytes.len(), 32);
    assert!(CqEntry::from_bytes(&bytes) == e);
}

#[test]
fn composing_requests() {
    let layout = UfsDmaLayout::new(4, 0x10_0000, 0x20_0000, 0x30_0000).unwrap();
    let current = layout.initial_utrd(1);
    let c = layout.compose_devman(UfsDevCmd::Nop, 1, current).unwrap();
    assert_eq!(c.cmd_upiu.header.task_tag, 1);
    assert_eq!(c.utrd.header.ctrl, 0x11);
    assert!(layout.compose_devman(UfsDevCmd::Nop, 4, current).is_err());
    let cmd = UfsSCSICmd::read_write(0, false, 0, 1, 4096, false);
    let s = layout.compose_scsi(cmd, 1, current, 2).unwrap();
    assert_eq!(s.utrd.prd_table_length, 2);
    assert_eq!(s.cmd_upiu.header.transaction_code, 0x01);
    assert!(layout.compose_scsi(cmd, 1, current, 1 << 16).is_err());
}

#[test]
fn completion_outcomes() {
    let mut done = Utrd::zeroed();
    done.header.ocs = 0;
    let mut nop_in = Upiu::zeroed();
    nop_in.header.transaction_code = 0x20;
    assert!(matches!(fetch_devman(&done, &nop_in, UfsDevCmd::Nop), Ok(UfsCmd::Device(UfsDevCmd::Nop))));
    let mut aborted = done;
    aborted.header.ocs = 6;
    assert!(matches!(fetch_devman(&aborted, &nop_in, UfsDevCmd::Nop), Err(Error::Io)));
    let mut cqe = CqEntry::zeroed();
    cqe.overall_status = 2;
    assert!(matches!(fetch_mcq_devman(&cqe, &nop_in, UfsDevCmd::Nop), Err(Error::Invalid)));

    assert_eq!(scsi_completion(None, None).completion, UfsScsiCompletion::Error);
    assert_eq!(scsi_completion(Some(aborted), None).completion, UfsScsiCompletion::Requeue);
    let mut fatal = done;
    fatal.header.ocs = 7;
    assert_eq!(scsi_completion(Some(fatal), None).completion, UfsScsiCompletion::Error);
    let mut rsp = Upiu::zeroed();
    rsp.header.transaction_code = 0x21;
    assert_eq!(scsi_completion(Some(done), Some(rsp)).completion, UfsScsiCompletion::Good);
    assert_eq!(scsi_completion(Some(done), None).completion, UfsScsiCompletion::Error);
    cqe.overall_status = 0;
    assert_eq!(mcq_scsi_completion(&cqe, Some(rsp)).completion, UfsScsiCompletion::Good);
    assert_eq!(mcq_scsi_completion(&cqe, None).ocs, 0x0f);
    cqe.overall_status = 0xf;
    assert_eq!(mcq_scsi_completion(&cqe, Some(rsp)).completion, UfsScsiCompletion::Requeue);
}

#[test]
fn segments_are_cut_into_entries() {
    let mut v = Vec::new();
    assert_eq!(append_entries(&mut v, 0x1000, 3), Err(Error::Invalid));
    assert!(v.is_empty());
    assert_eq!(append_entries(&mut v, 0x1000, 0x40000 + 0x1000), Ok(()));
    assert_eq!(v.len(), 2);
    assert_eq!((v[0].addr, v[0].size), (0x1000, 0x3ffff));
    assert_eq!((v[1].addr, v[1].size), (0x41000, 0xfff));
    let mut near_end = Vec::new();
    assert_eq!(append_entries(&mut near_end, u64::MAX - 0x3ffff, 0x80000), Err(Error::Overflow));
    assert_eq!(near_end.len(), 1);
}

#[test]
fn table_builder() {
    let mut b = UfsPrdtBuilder::new(0x3000);
    assert!(!b.is_complete());
    assert_eq!(b.add_segment(0x1000, 0x2000), Ok(false));
    assert_eq!(b.add_segment(0x9000, 0x2000), Err(Error::Invalid));
    assert_eq!(b.add_segment(0x9000, 0x1000), Ok(true));
    assert!(b.is_complete());
    assert_eq!(b.entry_count(), 2);
    let entries = b.into_entries();
    assert_eq!(entries[1].addr, 0x9000);
}

#[test]
fn failed_completions_carry_only_the_status() {
    let mut aborted = Utrd::zeroed();
    aborted.header.ocs = 6;
    let r = scsi_completion(Some(aborted), None);
    assert_eq!(r.completion, UfsScsiCompletion::Requeue);
    assert_eq!((r.ocs, r.transaction, r.response, r.status), (6, 0, 0, 0));
    assert_eq!((r.residual_transfer_count, r.sense_data_len), (0, 0));
    assert_eq!(r.sense_data, [0u8; 18]);
    let mut cqe = CqEntry::zeroed();
    cqe.overall_status = 7;
    let r = mcq_scsi_completion(&cqe, Some(Upiu::zeroed()));
    assert_eq!(r.completion, UfsScsiCompletion::Error);
    assert_eq!((r.ocs, r.status, r.residual_transfer_count, r.sense_data_len), (7, 0, 0, 0));
}

#[test]
fn complete_table_covers_the_data() {
    let mut b = UfsPrdtBuilder::new(0x40000 + 0x2000);
    assert_eq!(b.add_segment(0x10_0000, 0x40000 + 0x1000), Ok(false));
    assert_eq!(b.add_segment(0x90_0000, 0x1000), Ok(true));
    let entries = b.into_entries();
    let covered: u64 = entries.iter().map(|e| e.size as u64 + 1).sum();
    assert_eq!(covered, 0x40000 + 0x2000);
}

#[test]
fn mapping_kinds() {
    assert_eq!(mapping_kind(&UfsSCSICmd::unmap(0, 8, 16)), MappingKind::Single);
    assert_eq!(mapping_kind(&UfsSCSICmd::flush(0)), MappingKind::NoData);
    let read = UfsSCSICmd::read_write(0, false, 0, 8, 4096, false);
    assert_eq!(mapping_kind(&read), MappingKind::ScatterGather);
}
