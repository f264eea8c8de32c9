use rufs::error::Error;
use rufs::protocol::query::{
    AttrIdn, Desc, DescBuffer, DescIdn, FlagIdn, UfsAttrCmd, UfsDescCmd, UfsDevCmd, UfsFlagCmd,
    UfsQueryCmd,
};
use rufs::protocol::scsi::{UfsSCSICmd, UfsScsiCompletion};
use rufs::protocol::upiu::{Upiu, UpiuHeader, UpiuResponse, UpiuTransaction};
use rufs::protocol::UfsCmd;

#[test]
fn transaction_and_response_codes() {
    assert_eq!(UpiuTransaction::NopOut.code(), 0x00);
    assert_eq!(UpiuTransaction::Command.code(), 0x01);
    assert_eq!(UpiuTransaction::QueryReq.code(), 0x16);
    assert_eq!(UpiuTransaction::NopIn.code(), 0x20);
    assert_eq!(UpiuTransaction::Response.code(), 0x21);
    assert_eq!(UpiuTransaction::QueryRsp.code(), 0x36);
    assert_eq!(UpiuTransaction::from_code(0x36), UpiuTransaction::QueryRsp);
    assert_eq!(UpiuTransaction::from_code(0x21), UpiuTransaction::Response);
    assert_eq!(UpiuResponse::from_code(0), UpiuResponse::Success);
    assert_eq!(UpiuResponse::Success.code(), 0);
}

#[test]
fn identifier_codes() {
    assert_eq!(DescIdn::Unit.code(), 2);
    assert_eq!(DescIdn::Geometry.code(), 7);
    assert_eq!(DescIdn::from_code(0), DescIdn::Device);
    assert_eq!(DescIdn::from_code(0x42), DescIdn::Reserved);
    assert_eq!(AttrIdn::PowerMode.code(), 2);
    assert_eq!(AttrIdn::from_code(0x0a), AttrIdn::RefClkFreq);
    assert_eq!(FlagIdn::FDeviceInit.code(), 1);
    assert_eq!(FlagIdn::from_code(1), FlagIdn::FDeviceInit);
}

#[test]
fn header_bytes_round_trip() {
    let h = UpiuHeader::query_write_data(0x1ab, 0x0102);
    let b = h.to_bytes();
    assert_eq!(b.len(), 12);
    assert_eq!(b[0], 0x16);
    assert_eq!(b[3], 0xab);
    assert_eq!(b[5], 0x81);
    assert_eq!(&b[10..12], &[0x01, 0x02]);
    assert!(UpiuHeader::from_bytes(&b) == h);
    let c = UpiuHeader::command(UfsSCSICmd::read_write(3, true, 0, 1, 512, false), 7);
    assert_eq!(c.transaction_code, 0x01);
    assert_eq!(c.lun, 3);
    assert_eq!(c.flags, 0x20);
    let r = UpiuHeader::command(UfsSCSICmd::read_write(3, false, 0, 1, 512, false), 7);
    assert_eq!(r.flags, 0x40);
}

#[test]
fn query_request_bodies() {
    let u = Upiu::read_desc(UfsDescCmd::build(DescIdn::Unit, 3, 0), 5);
    assert_eq!(u.header.transaction_code, 0x16);
    assert_eq!(u.header.query_func, 0x01);
    assert_eq!(&u.body[0..8], &[0x01, 0x02, 3, 0, 0, 0, 0x00, 0xff]);
    let a = Upiu::write_attr(UfsAttrCmd::build(AttrIdn::RefClkFreq, 0, 0, 0x0102_0304_0506_0708), 1);
    assert_eq!(a.header.query_func, 0x81);
    assert_eq!(&a.body[0..12], &[0x04, 0x0a, 0, 0, 1, 2, 3, 4, 5, 6, 7, 8]);
    let f = Upiu::set_flag(UfsFlagCmd::build(FlagIdn::FDeviceInit, 0, 0), 2);
    assert_eq!(&f.body[0..4], &[0x06, 0x01, 0, 0]);
    let n = Upiu::device(UfsDevCmd::Nop, 9);
    assert_eq!(n.header.transaction_code, 0x00);
    assert_eq!(n.header.task_tag, 9);
}

#[test]
fn command_upiu_carries_cdb() {
    let cmd = UfsSCSICmd::read_write(1, false, 0x10, 2, 8192, false);
    let u = Upiu::command(cmd, 4);
    assert_eq!(&u.body[0..4], &[0, 0, 0x20, 0]);
    assert_eq!(&u.body[4..20], &cmd.cdb());
    assert!(u.body[20..].iter().all(|b| *b == 0));
    let bytes = u.to_bytes();
    assert_eq!(bytes.len(), 512);
    let back = Upiu::from_bytes(&bytes);
    assert!(back.header == u.header);
    assert_eq!(back.body, u.body);
}

fn response(status: u8, sense: &[u8]) -> Upiu {
    let mut u = Upiu::zeroed();
    u.header.transaction_code = 0x21;
    u.header.status = status;
    u.body[0..4].copy_from_slice(&[0, 0, 0x10, 0]);
    u.body[20] = 0;
    u.body[21] = sense.len() as u8;
    u.body[22..22 + sense.len()].copy_from_slice(sense);
    u
}

#[test]
fn scsi_response_decoding() {
    let r = response(0x00, &[]).scsi_result(0);
    assert_eq!(r.completion, UfsScsiCompletion::Good);
    assert_eq!(r.residual_transfer_count, 0x1000);
    let r = response(0x02, &[0x70, 0, 6]).scsi_result(0);
    assert_eq!(r.completion, UfsScsiCompletion::CheckCondition);
    assert_eq!(r.sense_data_len, 3);
    assert_eq!(&r.sense_data[0..3], &[0x70, 0, 6]);
    assert_eq!(response(0x08, &[]).scsi_result(0).completion, UfsScsiCompletion::Busy);
    assert_eq!(response(0x18, &[]).scsi_result(0).completion, UfsScsiCompletion::ReservationConflict);
    assert_eq!(response(0x28, &[]).scsi_result(0).completion, UfsScsiCompletion::TaskSetFull);
    assert_eq!(response(0x40, &[]).scsi_result(0).completion, UfsScsiCompletion::TaskAborted);
    assert_eq!(response(0x99, &[]).scsi_result(0).completion, UfsScsiCompletion::Error);
    let mut not_response = response(0x00, &[]);
    not_response.header.transaction_code = 0x36;
    assert_eq!(not_response.scsi_result(0x11).completion, UfsScsiCompletion::Error);
    assert_eq!(not_response.scsi_result(0x11).ocs, 0x11);
    // A sense length past the buffer is capped.
    let mut long = response(0x02, &[0x70]);
    long.body[21] = 40;
    assert_eq!(long.scsi_result(0).sense_data_len, 18);
}

#[test]
fn device_answers() {
    let mut nop_in = Upiu::zeroed();
    nop_in.header.transaction_code = 0x20;
    assert!(matches!(nop_in.fetch_dev(UfsDevCmd::Nop), Ok(UfsDevCmd::Nop)));
    let flag = UfsQueryCmd::ReadFlag(UfsFlagCmd::build(FlagIdn::FDeviceInit, 0, 0));
    assert!(matches!(nop_in.fetch_dev(UfsDevCmd::Query(flag)), Err(Error::Io)));

    let mut rsp = Upiu::zeroed();
    rsp.header.transaction_code = 0x36;
    rsp.body[1] = 0x01;
    rsp.body[11] = 1;
    match rsp.fetch_dev(UfsDevCmd::Query(flag)) {
        Ok(UfsDevCmd::Query(UfsQueryCmd::ReadFlag(f))) => {
            assert_eq!(f.value, 1);
            assert_eq!(f.idn, FlagIdn::FDeviceInit);
        }
        _ => panic!("expected a flag answer"),
    }
    rsp.header.response = 0xf6;
    assert!(matches!(rsp.fetch_dev(UfsDevCmd::Query(flag)), Err(Error::Io)));

    let mut attr = Upiu::zeroed();
    attr.header.transaction_code = 0x36;
    attr.body[1] = 0x02;
    attr.body[4..12].copy_from_slice(&[0, 0, 0, 0, 0, 0, 0, 3]);
    let q = UfsQueryCmd::ReadAttr(UfsAttrCmd::build(AttrIdn::PowerMode, 0, 0, 0));
    match attr.fetch_query(q) {
        UfsQueryCmd::ReadAttr(a) => assert_eq!(a.value, 3),
        _ => panic!("expected an attribute answer"),
    }
}

#[test]
fn descriptor_answers() {
    let mut rsp = Upiu::zeroed();
    rsp.header.transaction_code = 0x36;
    rsp.body[1] = 0x02;
    rsp.body[20 + 3] = 1;
    rsp.body[20 + 10] = 12;
    let q = UfsQueryCmd::ReadDesc(UfsDescCmd::build(DescIdn::Unit, 0, 0));
    match rsp.fetch_query(q) {
        UfsQueryCmd::ReadDesc(d) => match d.desc {
            Desc::Unit(u) => {
                assert!(u.enabled());
                assert_eq!(u.logical_block_shift(), 12);
            }
            _ => panic!("expected a unit descriptor"),
        },
        _ => panic!("expected a descriptor answer"),
    }
    let buf = DescBuffer { data: [0u8; 255] };
    assert!(matches!(Desc::from_buffer(7, buf), Desc::Geometry(_)));
    assert!(Desc::from_buffer(0, buf).get_device().is_ok());
    assert!(matches!(Desc::from_buffer(0, buf).get_unit(), Err(Error::Invalid)));
}

#[test]
fn query_command_builders() {
    let q = UfsDevCmd::query();
    match q.write_attr(AttrIdn::PowerMode, 1, 2, 9) {
        UfsCmd::Device(UfsDevCmd::Query(UfsQueryCmd::WriteAttr(a))) => {
            assert!(a == UfsAttrCmd { idn: AttrIdn::PowerMode, index: 1, selector: 2, value: 9 });
        }
        _ => panic!("expected an attribute write"),
    }
    match q.read_desc(DescIdn::Device, 0, 0) {
        UfsCmd::Device(UfsDevCmd::Query(c)) => {
            assert_eq!(c.get_read_desc().unwrap().length, 255);
            assert!(c.get_attr_value().is_err());
        }
        _ => panic!("expected a descriptor read"),
    }
    assert_eq!(UfsDevCmd::Nop.timeout_ms(), 50);
}
