use rufs::error::Error;
use rufs::uic::{
    max_power_mode, power_mode_commands, uic_arg_attr_type, uic_arg_mib, uic_arg_mib_sel,
    uic_outcome, UfsPaLayerAttr, UfsPaPwrMode, UfsUicCmd, UfsUicRsp, UicCmdDme, UicCmdResult,
    UicCompletion, UicTransactionState, PA_HSSERIES, PA_PWRMODE, PA_RXGEAR,
};

#[test]
fn uic_arguments() {
    assert_eq!(uic_arg_mib_sel(0x1583, 4), 0x1583_0004);
    assert_eq!(uic_arg_mib_sel(0x1_1583, 0x1_0004), 0x1583_0004);
    assert_eq!(uic_arg_mib(0x1571), 0x1571_0000);
    assert_eq!(uic_arg_attr_type(0x101), 0x0001_0000);
    assert_eq!(UicCmdDme::LinkStartup.code(), 0x16);
    assert_eq!(UicCmdDme::DmeSet.code(), 0x02);
}

#[test]
fn uic_commands() {
    let c = UfsUicCmd::dme_set(PA_PWRMODE, 0x11);
    assert_eq!(c.command, UicCmdDme::DmeSet);
    assert_eq!(c.argument1, 0x1571_0000);
    assert_eq!(c.argument3, 0x11);
    assert_eq!(c.expected_completion, UicCompletion::PowerMode);
    let g = UfsUicCmd::dme_get_sel(PA_RXGEAR, 1);
    assert_eq!(g.argument1, 0x1583_0001);
    assert_eq!(g.expected_completion, UicCompletion::Command);
    assert_eq!(UfsUicCmd::link_startup().command, UicCmdDme::LinkStartup);
    assert_eq!(UfsUicCmd::dme_peer_get(PA_RXGEAR).command, UicCmdDme::PeerGet);
}

#[test]
fn uic_outcomes() {
    assert_eq!(uic_outcome(false, None), Err(Error::TimedOut));
    assert_eq!(uic_outcome(true, None), Err(Error::NoMemory));
    let ok = UfsUicRsp { result: UicCmdResult::Success, value: 7 };
    assert_eq!(uic_outcome(true, Some(ok)), Ok(7));
    let local = UfsUicRsp { result: UicCmdResult::PowerModeChange, value: 1 };
    assert_eq!(uic_outcome(true, Some(local)), Ok(1));
    let busy = UfsUicRsp { result: UicCmdResult::PowerModeChange, value: 3 };
    assert_eq!(uic_outcome(true, Some(busy)), Err(Error::Io));
    let bad = UfsUicRsp { result: UicCmdResult::from_code(0x05), value: 0 };
    assert_eq!(bad.result, UicCmdResult::BadIndex);
    assert_eq!(uic_outcome(true, Some(bad)), Err(Error::Io));
    assert_eq!(UicCmdResult::from_code(0x42), UicCmdResult::DmeFailure);
}

#[test]
fn uic_transactions() {
    let mut t = UicTransactionState::new();
    assert_eq!(t.pending_completion(0x400), None);
    t.begin(UfsUicCmd::dme_get(PA_RXGEAR));
    assert_eq!(t.pending_completion(0x10), None);
    assert_eq!(t.pending_completion(0x400), Some(UicCompletion::Command));
    t.record_command_completion(0, 3);
    assert_eq!(t.take_response(), Some(UfsUicRsp { result: UicCmdResult::Success, value: 3 }));
    assert_eq!(t.take_response(), None);
    t.begin(UfsUicCmd::dme_set(PA_PWRMODE, 0x11));
    assert_eq!(t.pending_completion(0x400), None);
    assert_eq!(t.pending_completion(0x10), Some(UicCompletion::PowerMode));
    t.record_power_mode_completion(1);
    t.end();
    assert_eq!(t.command, None);
    assert_eq!(uic_outcome(true, t.take_response()), Ok(1));
}

#[test]
fn fastest_power_mode() {
    let m = max_power_mode(2, 2, 4, 4, 3, 4).unwrap();
    assert_eq!(m.gear_rx, 4);
    assert_eq!(m.gear_tx, 3);
    assert_eq!(m.pwr_rx, UfsPaPwrMode::Fast);
    assert_eq!(m.hs_rate, 2);
    let slow = max_power_mode(1, 1, 0, 4, 0, 3).unwrap();
    assert_eq!(slow.gear_rx, 4);
    assert_eq!(slow.pwr_rx, UfsPaPwrMode::Slow);
    assert_eq!(slow.pwrmode_value(), 0x22);
    assert_eq!(max_power_mode(1, 2, 4, 4, 4, 4), Err(Error::Invalid));
    assert_eq!(max_power_mode(0, 0, 4, 4, 4, 4), Err(Error::Invalid));
    assert_eq!(max_power_mode(1, 1, 0, 0, 4, 4), Err(Error::Invalid));
}

#[test]
fn power_mode_change_sequence() {
    let m = UfsPaLayerAttr {
        gear_rx: 4,
        gear_tx: 4,
        lane_rx: 2,
        lane_tx: 2,
        pwr_rx: UfsPaPwrMode::Fast,
        pwr_tx: UfsPaPwrMode::Fast,
        hs_rate: 2,
    };
    assert_eq!(m.pwrmode_value(), 0x11);
    let c = power_mode_commands(m);
    assert_eq!(c.len(), 17);
    assert_eq!(c[0], (PA_RXGEAR, 4));
    assert_eq!(c[2], (0x1584, 1));
    assert_eq!(c[6], (PA_HSSERIES, 2));
    assert_eq!(*c.last().unwrap(), (PA_PWRMODE, 0x11));
    let slow = UfsPaLayerAttr { pwr_rx: UfsPaPwrMode::Slow, pwr_tx: UfsPaPwrMode::Slow, ..m };
    let c = power_mode_commands(slow);
    assert_eq!(c.len(), 16);
    assert_eq!(c[2], (0x1584, 0));
    assert!(c.iter().all(|(a, _)| *a != PA_HSSERIES));
    assert_eq!(*c.last().unwrap(), (PA_PWRMODE, 0x22));
}
