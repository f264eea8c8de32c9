use rufs::block::{map_dma_error, map_single_dma_error, BlkStatus};
use rufs::bytes::{
    copy_range, push_be16, push_be32, push_be64, push_bytes, push_le16, push_le32, push_le64,
    push_zeros, read_be16, read_be32, read_be64, read_le16, read_le32, read_le64,
};
use rufs::command::TaskTag;
use rufs::error::Error;
use rufs::frontend::pci::UfsPciVariant;
use rufs::frontend::qcom::{
    adaptation_type, clock_gating_settings, core_clk_40ns_cycles, cycles_per_microsecond,
    expected_lanes, hardware_major, initial_phy_config, unipro_clock_field, unipro_core_clk_ctrl, with_unipro_clock_field,
    with_core_clk_40ns_cycles, PhyUfsMode, UfsQcomPlatform, UfsQcomVariant,
};
use rufs::reg::{
    controller_enabled, dma_addr_hi, dma_addr_lo, mcq_cfg_with_max_active_cmds, mcq_cq_attr,
    mcq_max_queues, mcq_queue_cfg_base, mcq_sq_attr, mcq_sq_cleanup_target, mcq_supported,
    nutmrs, nutrs, nutrs_mcq, power_mode_change_status, standard_mcq_register_layout,
    transfer_interrupts, uic_interrupts, with_controller_enabled, with_mcq_mode, UfsMcqOprRegion,
};
use rufs::uic::{UfsPaLayerAttr, UfsPaPwrMode};
use rufs::variant::UfsVariant;

#[test]
fn byte_order_helpers() {
    let mut v = Vec::new();
    push_be16(&mut v, 0x0102);
    push_be32(&mut v, 0x0304_0506);
    push_be64(&mut v, 0x0708_090a_0b0c_0d0e);
    push_le16(&mut v, 0x0102);
    push_le32(&mut v, 0x0304_0506);
    push_le64(&mut v, 0x0708_090a_0b0c_0d0e);
    push_zeros(&mut v, 2);
    push_bytes(&mut v, &[9, 8]);
    assert_eq!(v.len(), 32);
    assert_eq!(read_be16(&v, 0), 0x0102);
    assert_eq!(read_be32(&v, 2), 0x0304_0506);
    assert_eq!(read_be64(&v, 6), 0x0708_090a_0b0c_0d0e);
    assert_eq!(&v[14..16], &[0x02, 0x01]);
    assert_eq!(read_le16(&v, 14), 0x0102);
    assert_eq!(read_le32(&v, 16), 0x0304_0506);
    assert_eq!(read_le64(&v, 20), 0x0708_090a_0b0c_0d0e);
    assert_eq!(&v[28..32], &[0, 0, 9, 8]);
    assert_eq!(copy_range(&v, 2, 4), vec![3, 4, 5, 6]);
}

#[test]
fn task_tags() {
    assert_eq!(TaskTag::new(255), Ok(TaskTag(255)));
    assert_eq!(TaskTag::new(256), Err(Error::Invalid));
    assert_eq!(TaskTag::from_value(7).value(), 7);
    assert_eq!(TaskTag(9).index(), 9);
}

#[test]
fn dma_error_mapping() {
    assert_eq!(map_dma_error(BlkStatus::Resource), Error::Busy);
    assert_eq!(map_dma_error(BlkStatus::DevResource), Error::Busy);
    assert_eq!(map_dma_error(BlkStatus::IoErr), Error::Io);
    assert_eq!(map_single_dma_error(Error::Io), Error::Busy);
    assert_eq!(map_single_dma_error(Error::NoMemory), Error::NoMemory);
}

#[test]
fn capability_fields() {
    assert_eq!(nutrs(0x1f), 32);
    assert_eq!(nutrs(0x7), 8);
    assert_eq!(nutmrs(0x7_0000), 8);
    assert_eq!(nutrs_mcq(0xff), 256);
    assert!(mcq_supported(0x4000_0000));
    assert!(!mcq_supported(0x1f));
    assert_eq!(mcq_max_queues(0x1f), 32);
    assert_eq!(mcq_queue_cfg_base(0x02_0000), 0x400);
    assert_eq!(power_mode_change_status(0x0300), 3);
    assert!(controller_enabled(with_controller_enabled(0x10)));
    assert_eq!(with_mcq_mode(0x10, true), 0x11);
    assert_eq!(with_mcq_mode(0x11, false), 0x10);
}

#[test]
fn interrupt_selection() {
    assert_eq!(uic_interrupts(0xffff_ffff, 0x400), 0x400);
    assert_eq!(uic_interrupts(0x1, 0xffff_ffff), 0);
    assert_eq!(transfer_interrupts(0x10_0001, 0xffff_ffff), 0x10_0001);
    assert_eq!(transfer_interrupts(0x400, 0xffff_ffff), 0);
}

#[test]
fn mcq_register_values() {
    let v = mcq_cfg_with_max_active_cmds(0xffff_ffff, 64).unwrap();
    assert_eq!((v >> 8) & 0x1ff, 63);
    assert_eq!(v & !0x1ff00, 0xffff_ffff & !0x1ff00);
    assert_eq!(mcq_cfg_with_max_active_cmds(0, 0), Err(Error::Invalid));
    assert_eq!(mcq_cfg_with_max_active_cmds(0, 0x201), Err(Error::Overflow));
    assert_eq!(mcq_sq_attr(65, 3), Ok(0x8003_0207));
    assert_eq!(mcq_sq_attr(65, 0x100), Err(Error::Overflow));
    assert_eq!(mcq_cq_attr(65), Ok(0x8000_0207));
    assert_eq!(mcq_cq_attr(0), Err(Error::Invalid));
    assert_eq!(mcq_cq_attr(0x2001), Err(Error::Overflow));
    assert_eq!(mcq_sq_cleanup_target(2, 7), 0x207);
    assert_eq!(dma_addr_lo(0x1122_3344_5566_7788), 0x5566_7788);
    assert_eq!(dma_addr_hi(0x1122_3344_5566_7788), 0x1122_3344);
    let l = standard_mcq_register_layout(0x400, 0x1000, 0x1100, 0x1200, 0x1300);
    assert_eq!(l.oprs().get(UfsMcqOprRegion::Cqd).register_offset, 0x1200);
    assert_eq!(l.oprs().register_at(UfsMcqOprRegion::Sqd, 2, 4), 0x1000 + 2 * 48 + 4);
    assert_eq!(l.queue_config.register_at(1, 0x20), 0x400 + 0x40 + 0x20);
}

#[test]
fn pci_ids() {
    assert_eq!(UfsPciVariant::from_id(0x1b36, 0x0013), Some(UfsPciVariant::Qemu));
    assert_eq!(UfsPciVariant::from_id(0x8086, 0x4b43), Some(UfsPciVariant::IntelEhl));
    assert_eq!(UfsPciVariant::from_id(0x8086, 0xd335), Some(UfsPciVariant::IntelMtl));
    assert_eq!(UfsPciVariant::from_id(0x8086, 0x0001), None);
    assert_eq!(UfsPciVariant::Samsung.name(), "samsung");
}

fn mode(gear: u32) -> UfsPaLayerAttr {
    UfsPaLayerAttr {
        gear_rx: gear,
        gear_tx: gear,
        lane_rx: 2,
        lane_tx: 2,
        pwr_rx: UfsPaPwrMode::Fast,
        pwr_tx: UfsPaPwrMode::Fast,
        hs_rate: 2,
    }
}

#[test]
fn qcom_platform() {
    assert_eq!(UfsQcomVariant::Sm8550.compatible(), "qcom,sm8550-ufshc");
    assert_eq!(UfsQcomVariant::Sm8650.name(), "sm8650");
    assert_eq!(UfsQcomVariant::Sm8550.max_clock_rate_mhz(), 300);
    assert_eq!(UfsQcomVariant::Sm8750.max_clock_rate_mhz(), 403);
    assert_eq!(expected_lanes(None), Ok(2));
    assert_eq!(expected_lanes(Some(3)), Err(Error::Invalid));
    let mut p = UfsQcomPlatform::new(UfsQcomVariant::Sm8650, Some(1)).unwrap();
    assert!(!p.has_mcq_resource);
    assert_eq!(p.mcq_register_layout(), Err(Error::NoDevice));
    assert!(p.connected_lanes_valid(1, 1));
    assert!(!p.connected_lanes_valid(2, 1));
    assert_eq!(p.constrain_power_mode(mode(4)), Err(Error::Invalid));
    p.record_power_up(5, 5);
    let m = p.constrain_power_mode(mode(4)).unwrap();
    assert_eq!((m.gear_rx, m.gear_tx, m.hs_rate), (4, 4, 1));
    p.record_power_up(4, 3);
    let m = p.constrain_power_mode(mode(4)).unwrap();
    assert_eq!((m.gear_rx, m.hs_rate), (3, 2));
    assert_eq!(p.power_mode_adaptation(mode(4)), Some(1));
    assert_eq!(p.power_mode_adaptation(mode(3)), Some(3));
    let eliza = UfsQcomPlatform::new(UfsQcomVariant::Eliza, None).unwrap();
    let layout = eliza.mcq_register_layout().unwrap();
    assert_eq!(layout.oprs.sqd.config_offset, 0x1c000 + 0x5000);
    let v = UfsVariant::Qcom(eliza);
    assert!(v.mcq_enabled());
    assert_eq!(v.constrain_mcq_active_commands(256), 64);
    assert_eq!(UfsVariant::Pci(UfsPciVariant::Qemu).constrain_mcq_active_commands(256), 256);
}

#[test]
fn qcom_clock_settings() {
    assert_eq!(hardware_major(0x5000_0000), 5);
    assert_eq!(initial_phy_config(3, 0), Ok((2, PhyUfsMode::HighSpeedB)));
    assert_eq!(initial_phy_config(5, 0x50), Ok((5, PhyUfsMode::HighSpeedA)));
    assert_eq!(initial_phy_config(4, 0x50), Ok((5, PhyUfsMode::HighSpeedB)));
    assert_eq!(initial_phy_config(4, 0), Err(Error::Invalid));
    assert_eq!(cycles_per_microsecond(403_000_000), 403);
    assert_eq!(cycles_per_microsecond(1), 1);
    assert_eq!(cycles_per_microsecond(1_500_001), 2);
    assert_eq!(unipro_core_clk_ctrl(0x100, 403, 4), Ok(403 << 16));
    assert_eq!(unipro_core_clk_ctrl(0x1ff, 150, 3), Ok(150));
    assert_eq!(unipro_core_clk_ctrl(0, 300, 3), Err(Error::Range));
    assert_eq!(core_clk_40ns_cycles(403), Ok(16));
    assert_eq!(core_clk_40ns_cycles(38), Ok(2));
    assert_eq!(core_clk_40ns_cycles(37), Err(Error::Invalid));
    assert_eq!(with_core_clk_40ns_cycles(0xff, 16), 0x90);
    assert_eq!(adaptation_type(4), 1);
    assert_eq!(adaptation_type(3), 3);
    assert_eq!(clock_gating_settings(), vec![(0xa00b, 0x3ff), (0x9004, 0x1ff), (0xd002, 0x200)]);
}

#[test]
fn unipro_clock_field_is_checked_before_use() {
    assert_eq!(unipro_clock_field(300, 3), Err(Error::Range));
    let f = unipro_clock_field(403, 4).unwrap();
    assert_eq!(f.1, 403 << 16);
    assert_eq!(with_unipro_clock_field(0x100, f), 403 << 16);
}
