use rufs::protocol::scsi::{
    parse_scsi_sense, sense_key_name, ScsiSense, UfsSCSICmd, UfsScsiCompletion,
    UfsScsiDataDirection, UfsScsiResult, UfsUnmapParameterList,
};
use rufs::error::Error;

#[test]
fn read10_cdb_layout() {
    let c = UfsSCSICmd::read_write(2, false, 0x1234_5678, 8, 4096, false);
    let cdb = c.cdb();
    assert_eq!(cdb[0], 0x28);
    assert_eq!(cdb[1], 0);
    assert_eq!(&cdb[2..6], &[0x12, 0x34, 0x56, 0x78]);
    assert_eq!(cdb[6], 0);
    assert_eq!(&cdb[7..9], &[0x00, 0x08]);
    assert_eq!(&cdb[9..], &[0u8; 7]);
    assert_eq!(c.lun(), 2);
    assert_eq!(c.data_len(), 4096);
    assert_eq!(c.direction(), UfsScsiDataDirection::Read);
    assert!(!c.is_unmap());
}

#[test]
fn write16_when_lba_exceeds_32_bits() {
    let c = UfsSCSICmd::read_write(0, true, 0x1_0000_0000, 1, 4096, true);
    let cdb = c.cdb();
    assert_eq!(cdb[0], 0x8a);
    assert_eq!(cdb[1], 0x08);
    assert_eq!(&cdb[2..10], &[0, 0, 0, 1, 0, 0, 0, 0]);
    assert_eq!(&cdb[10..14], &[0, 0, 0, 1]);
    assert_eq!(&cdb[14..], &[0, 0]);
    assert_eq!(c.direction(), UfsScsiDataDirection::Write);
}

#[test]
fn read16_when_blocks_exceed_16_bits() {
    let c = UfsSCSICmd::read_write(0, false, 0, 0x1_0000, 0, false);
    assert_eq!(c.cdb()[0], 0x88);
    assert_eq!(&c.cdb()[10..14], &[0, 1, 0, 0]);
}

#[test]
fn flush_and_unmap_commands() {
    let f = UfsSCSICmd::flush(3);
    assert_eq!(f.cdb()[0], 0x35);
    assert_eq!(&f.cdb()[1..], &[0u8; 15]);
    assert_eq!(f.direction(), UfsScsiDataDirection::NoData);
    assert_eq!(f.data_len(), 0);

    let u = UfsSCSICmd::unmap(1, 100, 8);
    assert_eq!(u.cdb()[0], 0x42);
    assert_eq!(&u.cdb()[7..9], &[0, 24]);
    assert_eq!(u.data_len(), 24);
    assert!(u.is_unmap());
    assert_eq!(u.unmap_lba(), 100);
    assert_eq!(u.unmap_blocks(), 8);
}

#[test]
fn unmap_parameter_list_bytes() {
    assert!(matches!(UfsUnmapParameterList::new(5, 0), Err(Error::Invalid)));
    let p = UfsUnmapParameterList::new(0x0102_0304_0506_0708, 0x0a0b_0c0d).unwrap();
    let b = p.to_bytes();
    assert_eq!(b.len(), 24);
    assert_eq!(&b[0..8], &[0, 22, 0, 16, 0, 0, 0, 0]);
    assert_eq!(&b[8..16], &[1, 2, 3, 4, 5, 6, 7, 8]);
    assert_eq!(&b[16..20], &[0x0a, 0x0b, 0x0c, 0x0d]);
    assert_eq!(&b[20..24], &[0, 0, 0, 0]);
}

#[test]
fn fixed_format_sense() {
    let mut data = [0u8; 18];
    data[0] = 0xf0;
    data[2] = 0x06;
    data[7] = 10;
    data[12] = 0x29;
    data[13] = 0x00;
    let s = parse_scsi_sense(&data, 18).unwrap();
    assert_eq!(s.response_code, 0x70);
    assert_eq!(s.sense_key, 6);
    assert_eq!(s.asc, 0x29);
    assert_eq!(s.additional_len, 10);
    assert!(s.is_unit_attention());
    assert!(s.is_power_on_reset());
    // Too short for the fixed format.
    assert!(parse_scsi_sense(&data, 13).is_none());
    assert!(parse_scsi_sense(&data, 0).is_none());
}

#[test]
fn descriptor_format_sense() {
    let data = [0x72u8, 0x05, 0x24, 0x01];
    let s = parse_scsi_sense(&data, 4).unwrap();
    assert_eq!(
        s,
        ScsiSense { response_code: 0x72, sense_key: 5, asc: 0x24, ascq: 1, additional_len: 0 }
    );
    assert!(!s.is_unit_attention());
    assert!(parse_scsi_sense(&data, 3).is_none());
    assert!(parse_scsi_sense(&[0x7fu8, 0, 0, 0], 4).is_none());
}

#[test]
fn sense_key_names() {
    assert_eq!(sense_key_name(0x0), "NO_SENSE");
    assert_eq!(sense_key_name(0x6), "UNIT_ATTENTION");
    assert_eq!(sense_key_name(0xb), "ABORTED_COMMAND");
    assert_eq!(sense_key_name(0xe), "MISCOMPARE");
    assert_eq!(sense_key_name(0xa), "UNKNOWN");
}

#[test]
fn scsi_result_constructors() {
    let e = UfsScsiResult::error(0x0f);
    assert_eq!(e.completion, UfsScsiCompletion::Error);
    assert_eq!(e.ocs, 0x0f);
    assert_eq!(e.sense_data_len, 0);
    let r = UfsScsiResult::requeue(0x07);
    assert_eq!(r.completion, UfsScsiCompletion::Requeue);
    assert_eq!(r.ocs, 0x07);
}
