use rufs::device::{
    attr_answer, dev_init_result, flag_answer, query_answer, read_desc_answer,
    write_attr_answer, UfsDevInfo,
};
use rufs::error::Error;
use rufs::protocol::query::{
    AttrIdn, Desc, DescBuffer, DeviceDesc, FlagIdn, GeometryDesc, UfsAttrCmd, UfsDescCmd,
    UfsDevCmd, UfsFlagCmd, UfsQueryCmd,
};
use rufs::protocol::scsi::UfsSCSICmd;
use rufs::protocol::UfsCmd;

fn answer(q: UfsQueryCmd) -> UfsCmd {
    UfsCmd::Device(UfsDevCmd::Query(q))
}

#[test]
fn reading_answers() {
    let attr = answer(UfsQueryCmd::WriteAttr(UfsAttrCmd::build(AttrIdn::PowerMode, 0, 0, 5)));
    assert_eq!(attr_answer(&attr), Ok(5));
    assert_eq!(write_attr_answer(&attr, 5), Ok(()));
    assert_eq!(write_attr_answer(&attr, 6), Err(Error::Io));
    let mut flag = UfsFlagCmd::build(FlagIdn::FDeviceInit, 0, 0);
    flag.value = 1;
    assert_eq!(flag_answer(&answer(UfsQueryCmd::ReadFlag(flag))), Ok(1));
    assert_eq!(flag_answer(&attr), Err(Error::Invalid));
    assert!(query_answer(&UfsDevCmd::nop()).is_err());
    let scsi = UfsCmd::Scsi(UfsSCSICmd::flush(0));
    assert!(matches!(read_desc_answer(&scsi), Err(Error::Invalid)));
    let desc = answer(UfsQueryCmd::ReadDesc(UfsDescCmd::build(
        rufs::protocol::query::DescIdn::Device,
        0,
        0,
    )));
    assert!(matches!(read_desc_answer(&desc), Ok(Desc::Reserved)));
}

#[test]
fn device_init_wait() {
    assert_eq!(dev_init_result(Ok(0)), Ok(()));
    assert_eq!(dev_init_result(Err(Error::TimedOut)), Err(Error::Busy));
    assert_eq!(dev_init_result(Err(Error::Io)), Err(Error::Io));
}

#[test]
fn device_information() {
    let mut info = UfsDevInfo::default();
    let mut g = DescBuffer { data: [0u8; 255] };
    g.data[12] = 1;
    info.apply_geometry(&GeometryDesc::from_buffer(g));
    assert_eq!(info.max_lu, 32);
    g.data[12] = 0;
    info.apply_geometry(&GeometryDesc::from_buffer(g));
    assert_eq!(info.max_lu, 8);
    let mut d = DescBuffer { data: [0u8; 255] };
    d.data[6] = 3;
    d.data[7] = 4;
    d.data[16] = 0x03;
    d.data[17] = 0x10;
    d.data[24] = 0x01;
    d.data[25] = 0xce;
    d.data[28] = 2;
    d.data[33] = 32;
    info.apply_device(&DeviceDesc::from_buffer(d));
    assert_eq!(info.num_lu(), 3);
    assert_eq!(info.num_wlu, 4);
    assert_eq!(info.luns_avail, 7);
    assert_eq!(info.spec_version, 0x0310);
    assert_eq!(info.manufacturer_id, 0x01ce);
    assert_eq!(info.rtt_cap, 2);
    assert_eq!(info.queue_depth, 32);
    assert_eq!(info.max_lu, 8);
}
