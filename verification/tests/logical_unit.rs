use rufs::block::BlkStatus;
use rufs::error::Error;
use rufs::lu::{
    build_scsi_cmd, complete_unsubmitted, disk_limits, lu_plan, lu_queue_depth, queue_rq_plan,
    scheduled_completion, BlockCommand, QueueRqPlan, UfsLu, UfsLuGeometry, UfsLuState,
};
use rufs::protocol::query::{DescBuffer, UnitDesc};
use rufs::protocol::scsi::UfsScsiDataDirection;
use rufs::queue::{CompletionDisposition, UfsRequestInner, UfsRequestState};

fn geometry_4k(blocks: u64) -> UfsLuGeometry {
    UfsLuGeometry::new(4096, 4096, 0, blocks).unwrap()
}

#[test]
fn geometry_validation() {
    assert_eq!(UfsLuGeometry::new(256, 0, 0, 1), Err(Error::Invalid));
    assert_eq!(UfsLuGeometry::new(1536, 0, 0, 1), Err(Error::Invalid));
    assert_eq!(UfsLuGeometry::new(4096, 2048, 0, 1), Err(Error::Invalid));
    assert_eq!(UfsLuGeometry::new(4096, 6144, 0, 1), Err(Error::Invalid));
    let g = UfsLuGeometry::new(4096, 0, 0, 100).unwrap();
    assert_eq!(g.physical_block_size(), 4096);
    assert_eq!(g.sectors_per_block(), 8);
    assert_eq!(g.capacity_blocks(), 100);
    let g = UfsLuGeometry::new(512, 16384, 3, 1).unwrap();
    assert_eq!(g.physical_block_size(), 16384);
    assert_eq!(g.alignment(), 3);
    assert_eq!(g.sectors_per_block(), 1);
}

#[test]
fn geometry_from_shift() {
    let g = UfsLuGeometry::from_logical_block_shift(12, 10).unwrap();
    assert_eq!(g.logical_block_size(), 4096);
    assert_eq!(g.physical_block_size(), 4096);
    assert_eq!(g.alignment(), 0);
    assert_eq!(UfsLuGeometry::from_logical_block_shift(8, 10), Err(Error::Invalid));
    assert_eq!(UfsLuGeometry::from_logical_block_shift(32, 10), Err(Error::Invalid));
}

#[test]
fn geometry_conversions() {
    let g = geometry_4k(1000);
    assert_eq!(g.capacity_sectors(), Some(8000));
    assert_eq!(geometry_4k(u64::MAX / 4).capacity_sectors(), None);
    assert_eq!(g.sectors_to_logical(17), 2);
    assert_eq!(g.logical_to_sectors(3), Some(24));
    assert_eq!(g.logical_to_sectors(u64::MAX), None);
    assert_eq!(g.bytes_to_logical(8192), 2);
    assert_eq!(g.logical_to_bytes(3), Some(12288));
    assert_eq!(g.logical_to_bytes(u64::MAX / 8), None);
    assert_eq!(g.max_discard_sectors(), Ok(u32::MAX - 7));
    assert_eq!(UfsLuGeometry::new(512, 0, 0, 1).unwrap().max_discard_sectors(), Ok(u32::MAX));
}

#[test]
fn scsi_command_building() {
    let g = geometry_4k(1000);
    let c = build_scsi_cmd(&g, 1, BlockCommand::Read, 5, 2).unwrap();
    assert_eq!(c.data_len(), 8192);
    assert_eq!(c.cdb()[0], 0x28);
    assert_eq!(c.direction(), UfsScsiDataDirection::Read);
    let c = build_scsi_cmd(&g, 1, BlockCommand::Write, 5, 2).unwrap();
    assert_eq!(c.cdb()[0], 0x2a);
    let c = build_scsi_cmd(&g, 1, BlockCommand::Flush, 0, 0).unwrap();
    assert_eq!(c.cdb()[0], 0x35);
    let c = build_scsi_cmd(&g, 1, BlockCommand::Discard, 5, 2).unwrap();
    assert_eq!(c.unmap_lba(), 5);
    assert_eq!(c.unmap_blocks(), 2);
    assert!(matches!(build_scsi_cmd(&g, 1, BlockCommand::Other, 0, 0), Err(Error::NotSupported)));
    assert!(matches!(build_scsi_cmd(&g, 1, BlockCommand::Read, 0, 1 << 32), Err(Error::Invalid)));
    assert!(matches!(build_scsi_cmd(&g, 1, BlockCommand::Read, 0, 1 << 20), Err(Error::Overflow)));
}

fn lu() -> Option<(u8, UfsLuGeometry)> {
    Some((0, geometry_4k(1000)))
}

#[test]
fn data_request_plans() {
    assert!(matches!(
        queue_rq_plan(lu(), BlockCommand::Read, 0, 0),
        QueueRqPlan::End(BlkStatus::Success)
    ));
    assert!(matches!(
        queue_rq_plan(lu(), BlockCommand::Read, 7992, 16),
        QueueRqPlan::End(BlkStatus::Inval)
    ));
    assert!(matches!(
        queue_rq_plan(lu(), BlockCommand::Write, 4, 8),
        QueueRqPlan::End(BlkStatus::Inval)
    ));
    assert!(matches!(
        queue_rq_plan(lu(), BlockCommand::Write, 8, 12),
        QueueRqPlan::End(BlkStatus::Inval)
    ));
    assert!(matches!(
        queue_rq_plan(lu(), BlockCommand::Read, u64::MAX, 8),
        QueueRqPlan::Refuse(Error::Invalid)
    ));
    match queue_rq_plan(lu(), BlockCommand::Read, 16, 24) {
        QueueRqPlan::Scsi(c) => {
            assert_eq!(&c.cdb()[2..6], &[0, 0, 0, 2]);
            assert_eq!(&c.cdb()[7..9], &[0, 3]);
            assert_eq!(c.data_len(), 3 * 4096);
        }
        _ => panic!("expected a SCSI command"),
    }
    match queue_rq_plan(lu(), BlockCommand::Discard, 8, 8) {
        QueueRqPlan::Scsi(c) => {
            assert_eq!(c.unmap_lba(), 1);
            assert_eq!(c.unmap_blocks(), 1);
        }
        _ => panic!("expected an UNMAP"),
    }
    assert!(matches!(
        queue_rq_plan(None, BlockCommand::Read, 0, 8),
        QueueRqPlan::RefuseStatus(BlkStatus::IoErr)
    ));
}

#[test]
fn other_request_plans() {
    assert!(matches!(queue_rq_plan(lu(), BlockCommand::Flush, 0, 0), QueueRqPlan::Scsi(_)));
    assert!(matches!(
        queue_rq_plan(None, BlockCommand::Flush, 0, 0),
        QueueRqPlan::RefuseStatus(BlkStatus::IoErr)
    ));
    assert!(matches!(queue_rq_plan(None, BlockCommand::DriverIn, 0, 0), QueueRqPlan::Device));
    assert!(matches!(queue_rq_plan(lu(), BlockCommand::DriverOut, 0, 0), QueueRqPlan::Device));
    assert!(matches!(
        queue_rq_plan(lu(), BlockCommand::Other, 0, 0),
        QueueRqPlan::End(BlkStatus::NotSupp)
    ));
}

#[test]
fn unsubmitted_and_scheduled_completion() {
    let mut r = UfsRequestInner::default();
    r.prepare_device(rufs::protocol::query::UfsDevCmd::nop()).unwrap();
    assert_eq!(complete_unsubmitted(&mut r, Error::Busy), CompletionDisposition::Requeue);
    assert!(matches!(r.state(), UfsRequestState::Idle));
    assert_eq!(
        complete_unsubmitted(&mut r, Error::Io),
        CompletionDisposition::End(BlkStatus::IoErr)
    );
    assert_eq!(
        scheduled_completion(&mut r),
        (CompletionDisposition::End(BlkStatus::IoErr), Some("invalid scheduled completion state"))
    );
}

#[test]
fn disk_registration() {
    let g = geometry_4k(1000);
    let (capacity, limits) = disk_limits(&g).unwrap();
    assert_eq!(capacity, 8000);
    assert_eq!(limits.logical_block_size, 4096);
    assert_eq!(limits.max_hw_sectors, 2048);
    assert_eq!(limits.max_segments, 256);
    assert_eq!(limits.max_segment_size, 0x40000);
    assert_eq!(limits.max_discard_segments, 1);
    assert_eq!(limits.discard_granularity, 4096);
    let mut u = UfsLu::new(2, g, 32);
    assert_eq!(u.state(), UfsLuState::Reset);
    assert!(u.init_disk().is_ok());
    assert!(u.is_operational());
    assert_eq!(u.init_disk(), Err(Error::Busy));
    u.remove_disk();
    assert_eq!(u.state(), UfsLuState::Reset);
    assert_eq!(u.lun(), 2);
    let mut big = UfsLu::new(0, geometry_4k(u64::MAX / 4), 1);
    assert_eq!(big.init_disk(), Err(Error::Overflow));
}

#[test]
fn unit_plans() {
    assert_eq!(lu_queue_depth(0, 64), 64);
    assert_eq!(lu_queue_depth(16, 64), 16);
    assert_eq!(lu_queue_depth(100, 64), 64);
    let mut buf = DescBuffer { data: [0u8; 255] };
    let disabled = UnitDesc::from_buffer(buf);
    assert_eq!(lu_plan(&disabled, 32), Ok(None));
    buf.data[3] = 1;
    buf.data[6] = 8;
    buf.data[10] = 12;
    buf.data[18] = 0x10;
    let (g, depth) = lu_plan(&UnitDesc::from_buffer(buf), 32).unwrap().unwrap();
    assert_eq!(g.logical_block_size(), 4096);
    assert_eq!(g.capacity_blocks(), 0x10);
    assert_eq!(depth, 8);
    buf.data[10] = 40;
    assert_eq!(lu_plan(&UnitDesc::from_buffer(buf), 32), Err(Error::Invalid));
}
