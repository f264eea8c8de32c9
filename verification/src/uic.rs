//! UIC (UFS Interconnect) commands: how they are built, how their
//! completions are matched, and how the link's power mode is chosen.
use vstd::prelude::*;

use crate::error::{Error, Result};
use crate::reg::{UIC_COMMAND_COMPL, UIC_POWER_MODE};

verus! {

/// DME commands of the UIC command register.
#[derive(Clone, Copy, Debug, PartialEq, Eq, Structural)]
pub enum UicCmdDme {
    DmeGet,
    DmeSet,
    PeerGet,
    PeerSet,
    PowerOn,
    PowerOff,
    Enable,
    Reset,
    EndPtRst,
    LinkStartup,
    HibernEnter,
    HibernExit,
    TestMode,
}

impl UicCmdDme {
    pub open spec fn spec_code(self) -> u32 {
        match self {
            UicCmdDme::DmeGet => 0x01,
            UicCmdDme::DmeSet => 0x02,
            UicCmdDme::PeerGet => 0x03,
            UicCmdDme::PeerSet => 0x04,
            UicCmdDme::PowerOn => 0x10,
            UicCmdDme::PowerOff => 0x11,
            UicCmdDme::Enable => 0x12,
            UicCmdDme::Reset => 0x14,
            UicCmdDme::EndPtRst => 0x15,
            UicCmdDme::LinkStartup => 0x16,
            UicCmdDme::HibernEnter => 0x17,
            UicCmdDme::HibernExit => 0x18,
            UicCmdDme::TestMode => 0x1A,
        }
    }

    pub fn code(self) -> (r: u32)
        ensures
            r == self.spec_code(),
    {
        match self {
            UicCmdDme::DmeGet => 0x01,
            UicCmdDme::DmeSet => 0x02,
            UicCmdDme::PeerGet => 0x03,
            UicCmdDme::PeerSet => 0x04,
            UicCmdDme::PowerOn => 0x10,
            UicCmdDme::PowerOff => 0x11,
            UicCmdDme::Enable => 0x12,
            UicCmdDme::Reset => 0x14,
            UicCmdDme::EndPtRst => 0x15,
            UicCmdDme::LinkStartup => 0x16,
            UicCmdDme::HibernEnter => 0x17,
            UicCmdDme::HibernExit => 0x18,
            UicCmdDme::TestMode => 0x1A,
        }
    }
}

pub const UIC_CMD_TIMEOUT_DEFAULT_MS: i64 = 500;
pub const UIC_CMD_TIMEOUT_MAX_MS: i64 = 5000;

/// Power mode of one direction of the link.
#[derive(Clone, Copy, Debug, PartialEq, Eq, Structural)]
pub enum UfsPaPwrMode {
    Fast,
    Slow,
}

impl UfsPaPwrMode {
    pub open spec fn spec_code(self) -> u32 {
        match self {
            UfsPaPwrMode::Fast => 1,
            UfsPaPwrMode::Slow => 2,
        }
    }

    pub fn code(self) -> (r: u32)
        ensures
            r == self.spec_code(),
    {
        match self {
            UfsPaPwrMode::Fast => 1,
            UfsPaPwrMode::Slow => 2,
        }
    }

    /// High-speed (fast) mode uses line termination.
    pub fn uses_termination(self) -> (r: bool)
        ensures
            r == (self == UfsPaPwrMode::Fast),
    {
        match self {
            UfsPaPwrMode::Fast => true,
            UfsPaPwrMode::Slow => false,
        }
    }
}

/// The power mode of the link: gear, lanes and mode of each direction and
/// the high-speed rate series.
#[derive(Clone, Copy, Debug, PartialEq, Eq, Structural)]
pub struct UfsPaLayerAttr {
    pub gear_rx: u32,
    pub gear_tx: u32,
    pub lane_rx: u32,
    pub lane_tx: u32,
    pub pwr_rx: UfsPaPwrMode,
    pub pwr_tx: UfsPaPwrMode,
    pub hs_rate: u32,
}

pub const PA_CONNECTEDRXDATALANES: u32 = 0x1581;
pub const PA_CONNECTEDTXDATALANES: u32 = 0x1561;
pub const PA_MAXRXHSGEAR: u32 = 0x1587;
pub const PA_MAXRXPWMGEAR: u32 = 0x1586;
pub const PA_RXGEAR: u32 = 0x1583;
pub const PA_ACTIVERXDATALANES: u32 = 0x1580;
pub const PA_RXTERMINATION: u32 = 0x1584;
pub const PA_TXGEAR: u32 = 0x1568;
pub const PA_ACTIVETXDATALANES: u32 = 0x1560;
pub const PA_TXTERMINATION: u32 = 0x1569;
pub const PA_HSSERIES: u32 = 0x156A;
pub const PA_PWRMODE: u32 = 0x1571;
pub const PA_PWRMODEUSERDATA0: u32 = 0x15B0;
pub const PA_PWRMODEUSERDATA1: u32 = 0x15B1;
pub const PA_PWRMODEUSERDATA2: u32 = 0x15B2;
pub const PA_PWRMODEUSERDATA3: u32 = 0x15B3;
pub const PA_PWRMODEUSERDATA4: u32 = 0x15B4;
pub const PA_PWRMODEUSERDATA5: u32 = 0x15B5;
pub const PA_HS_MODE_A: u32 = 1;
pub const PA_HS_MODE_B: u32 = 2;
pub const PWRMODE_RX_OFFSET: u32 = 4;
pub const PWR_LOCAL: u32 = 1;

pub const DL_FC0_PROTECTION_TIMEOUT_VAL_DEFAULT: u32 = 8191;
pub const DL_TC0_REPLAY_TIMEOUT_VAL_DEFAULT: u32 = 65535;
pub const DL_AFC0_REQ_TIMEOUT_VAL_DEFAULT: u32 = 32767;
pub const DL_FC1_PROTECTION_TIMEOUT_VAL_DEFAULT: u32 = 8191;
pub const DL_TC1_REPLAY_TIMEOUT_VAL_DEFAULT: u32 = 65535;
pub const DL_AFC1_REQ_TIMEOUT_VAL_DEFAULT: u32 = 32767;

pub const DME_LOCAL_FC0_PROTECTION_TIMEOUT_VAL: u32 = 0xD041;
pub const DME_LOCAL_TC0_REPLAY_TIMEOUT_VAL: u32 = 0xD042;
pub const DME_LOCAL_AFC0_REQ_TIMEOUT_VAL: u32 = 0xD043;

/// The MIB attribute argument: attribute in bits 31:16, selector in 15:0.
pub open spec fn spec_uic_arg_mib_sel(attr: u32, selector: u32) -> u32 {
    ((attr & 0xFFFF) << 16u32) | (selector & 0xFFFF)
}

pub fn uic_arg_mib_sel(attr: u32, selector: u32) -> (r: u32)
    ensures
        r == spec_uic_arg_mib_sel(attr, selector),
        r >> 16u32 == attr & 0xFFFF,
        r & 0xFFFF == selector & 0xFFFF,
{
    let r = ((attr & 0xFFFF) << 16u32) | (selector & 0xFFFF);
    assert(r >> 16u32 == attr & 0xFFFF && r & 0xFFFF == selector & 0xFFFF) by (bit_vector)
        requires
            r == ((attr & 0xFFFF) << 16u32) | (selector & 0xFFFF),
    ;
    r
}

pub fn uic_arg_mib(attr: u32) -> (r: u32)
    ensures
        r == spec_uic_arg_mib_sel(attr, 0),
{
    uic_arg_mib_sel(attr, 0)
}

/// The attribute set type argument: type in bits 23:16.
pub fn uic_arg_attr_type(attr_type: u32) -> (r: u32)
    ensures
        r == (attr_type & 0xFF) << 16u32,
{
    (attr_type & 0xFF) << 16u32
}

impl UfsPaLayerAttr {
    pub open spec fn spec_pwrmode_value(self) -> u32 {
        (self.pwr_rx.spec_code() << PWRMODE_RX_OFFSET) | self.pwr_tx.spec_code()
    }

    /// The PA_PWRMODE value: receive mode in bits 7:4, transmit mode in 3:0.
    pub fn pwrmode_value(self) -> (r: u32)
        ensures
            r == self.spec_pwrmode_value(),
            r >> 4u32 == self.pwr_rx.spec_code(),
            r & 0xf == self.pwr_tx.spec_code(),
    {
        let rx = self.pwr_rx.code();
        let tx = self.pwr_tx.code();
        let r = (rx << PWRMODE_RX_OFFSET) | tx;
        assert(r >> 4u32 == rx && r & 0xf == tx) by (bit_vector)
            requires
                r == (rx << 4u32) | tx,
                rx <= 2,
                tx <= 2,
        ;
        r
    }
}

/// Which interrupt completes a UIC command.
#[derive(Clone, Copy, Debug, PartialEq, Eq, Structural)]
pub enum UicCompletion {
    Command,
    PowerMode,
}

/// A UIC command with its three arguments.
#[derive(Clone, Copy, Debug, PartialEq, Eq, Structural)]
pub struct UfsUicCmd {
    pub command: UicCmdDme,
    pub argument1: u32,
    pub argument2: u32,
    pub argument3: u32,
    pub expected_completion: UicCompletion,
}

impl UfsUicCmd {
    pub fn link_startup() -> (r: UfsUicCmd)
        ensures
            r == (UfsUicCmd {
                command: UicCmdDme::LinkStartup,
                argument1: 0,
                argument2: 0,
                argument3: 0,
                expected_completion: UicCompletion::Command,
            }),
    {
        UfsUicCmd {
            command: UicCmdDme::LinkStartup,
            argument1: 0,
            argument2: 0,
            argument3: 0,
            expected_completion: UicCompletion::Command,
        }
    }

    /// DME_GET of attribute `attr` with selector `selector`.
    pub fn dme_get_sel(attr: u32, selector: u32) -> (r: UfsUicCmd)
        ensures
            r == (UfsUicCmd {
                command: UicCmdDme::DmeGet,
                argument1: spec_uic_arg_mib_sel(attr, selector),
                argument2: 0,
                argument3: 0,
                expected_completion: UicCompletion::Command,
            }),
    {
        UfsUicCmd {
            command: UicCmdDme::DmeGet,
            argument1: uic_arg_mib_sel(attr, selector),
            argument2: 0,
            argument3: 0,
            expected_completion: UicCompletion::Command,
        }
    }

    /// DME_GET of attribute `attr` of the local side.
    pub fn dme_get(attr: u32) -> (r: UfsUicCmd)
        ensures
            r == (UfsUicCmd {
                command: UicCmdDme::DmeGet,
                argument1: spec_uic_arg_mib_sel(attr, 0),
                argument2: 0,
                argument3: 0,
                expected_completion: UicCompletion::Command,
            }),
    {
        Self::dme_get_sel(attr, 0)
    }

    /// DME_PEER_GET of attribute `attr` of the device side.
    pub fn dme_peer_get(attr: u32) -> (r: UfsUicCmd)
        ensures
            r == (UfsUicCmd {
                command: UicCmdDme::PeerGet,
                argument1: spec_uic_arg_mib_sel(attr, 0),
                argument2: 0,
                argument3: 0,
                expected_completion: UicCompletion::Command,
            }),
    {
        UfsUicCmd {
            command: UicCmdDme::PeerGet,
            argument1: uic_arg_mib(attr),
            argument2: 0,
            argument3: 0,
            expected_completion: UicCompletion::Command,
        }
    }

    /// DME_SET of attribute `attr` to `value`. Setting PA_PWRMODE is
    /// completed by the power mode interrupt, everything else by the command
    /// completion interrupt.
    pub fn dme_set(attr: u32, value: u32) -> (r: UfsUicCmd)
        ensures
            r == (UfsUicCmd {
                command: UicCmdDme::DmeSet,
                argument1: spec_uic_arg_mib_sel(attr, 0),
                argument2: 0,
                argument3: value,
                expected_completion: if attr == PA_PWRMODE {
                    UicCompletion::PowerMode
                } else {
                    UicCompletion::Command
                },
            }),
    {
        let argument2 = uic_arg_attr_type(0);
        assert((0u32 & 0xFFu32) << 16u32 == 0u32) by (bit_vector);
        UfsUicCmd {
            command: UicCmdDme::DmeSet,
            argument1: uic_arg_mib(attr),
            argument2,
            argument3: value,
            expected_completion: if attr == PA_PWRMODE {
                UicCompletion::PowerMode
            } else {
                UicCompletion::Command
            },
        }
    }
}

/// Result of a UIC command as the controller reports it.
#[derive(Clone, Copy, Debug, PartialEq, Eq, Structural)]
pub enum UicCmdResult {
    Success,
    InvalidAttr,
    InvalidAttrValue,
    ReadOnlyAttr,
    WriteOnlyAttr,
    BadIndex,
    LockedAttr,
    BadTestFeatureIndex,
    PeerCommFailure,
    Busy,
    DmeFailure,
    /// Not a reported code: the power mode change interrupt arrived.
    PowerModeChange,
}

impl UicCmdResult {
    pub open spec fn spec_from_code(code: u32) -> UicCmdResult {
        if code == 0x00 {
            UicCmdResult::Success
        } else if code == 0x01 {
            UicCmdResult::InvalidAttr
        } else if code == 0x02 {
            UicCmdResult::InvalidAttrValue
        } else if code == 0x03 {
            UicCmdResult::ReadOnlyAttr
        } else if code == 0x04 {
            UicCmdResult::WriteOnlyAttr
        } else if code == 0x05 {
            UicCmdResult::BadIndex
        } else if code == 0x06 {
            UicCmdResult::LockedAttr
        } else if code == 0x07 {
            UicCmdResult::BadTestFeatureIndex
        } else if code == 0x08 {
            UicCmdResult::PeerCommFailure
        } else if code == 0x09 {
            UicCmdResult::Busy
        } else {
            UicCmdResult::DmeFailure
        }
    }

    pub fn from_code(code: u32) -> (r: UicCmdResult)
        ensures
            r == Self::spec_from_code(code),
    {
        match code {
            0x00 => UicCmdResult::Success,
            0x01 => UicCmdResult::InvalidAttr,
            0x02 => UicCmdResult::InvalidAttrValue,
            0x03 => UicCmdResult::ReadOnlyAttr,
            0x04 => UicCmdResult::WriteOnlyAttr,
            0x05 => UicCmdResult::BadIndex,
            0x06 => UicCmdResult::LockedAttr,
            0x07 => UicCmdResult::BadTestFeatureIndex,
            0x08 => UicCmdResult::PeerCommFailure,
            0x09 => UicCmdResult::Busy,
            _ => UicCmdResult::DmeFailure,
        }
    }
}

/// A UIC command's completion: its result and the value it returned.
#[derive(Clone, Copy, Debug, PartialEq, Eq, Structural)]
pub struct UfsUicRsp {
    pub result: UicCmdResult,
    pub value: u32,
}

/// What a UIC command returns to its caller, given whether it completed in
/// time and the response recorded by the interrupt handler.
pub open spec fn spec_uic_outcome(completed: bool, rsp: Option<UfsUicRsp>) -> Result<u32> {
    if !completed {
        Err(Error::TimedOut)
    } else {
        match rsp {
            Some(r) => if r.result == UicCmdResult::Success {
                Ok(r.value)
            } else if r.result == UicCmdResult::PowerModeChange && r.value == PWR_LOCAL {
                Ok(PWR_LOCAL)
            } else {
                Err(Error::Io)
            },
            None => Err(Error::NoMemory),
        }
    }
}

pub fn uic_outcome(completed: bool, rsp: Option<UfsUicRsp>) -> (r: Result<u32>)
    ensures
        r == spec_uic_outcome(completed, rsp),
{
    if !completed {
        return Err(Error::TimedOut);
    }
    match rsp {
        Some(UfsUicRsp { result: UicCmdResult::Success, value }) => Ok(value),
        Some(UfsUicRsp { result: UicCmdResult::PowerModeChange, value }) => {
            if value == PWR_LOCAL {
                Ok(PWR_LOCAL)
            } else {
                Err(Error::Io)
            }
        },
        Some(_) => Err(Error::Io),
        None => Err(Error::NoMemory),
    }
}

/// The UIC transaction in progress, shared with the interrupt handler: the
/// command being waited on and the response received for it.
#[derive(Clone, Copy, Debug, PartialEq, Eq, Structural)]
pub struct UicTransactionState {
    pub command: Option<UfsUicCmd>,
    pub response: Option<UfsUicRsp>,
}

impl UicTransactionState {
    pub fn new() -> (r: UicTransactionState)
        ensures
            r.command is None,
            r.response is None,
    {
        UicTransactionState { command: None, response: None }
    }

    /// Starts waiting on `cmd` with no response yet.
    pub fn begin(&mut self, cmd: UfsUicCmd)
        ensures
            final(self).command == Some(cmd),
            final(self).response is None,
    {
        self.command = Some(cmd);
        self.response = None;
    }

    /// Stops waiting; the response, if any, stays until it is taken.
    pub fn end(&mut self)
        ensures
            final(self).command is None,
            final(self).response == old(self).response,
    {
        self.command = None;
    }

    pub fn take_response(&mut self) -> (r: Option<UfsUicRsp>)
        ensures
            r == old(self).response,
            final(self).response is None,
            final(self).command == old(self).command,
    {
        let r = self.response;
        self.response = None;
        r
    }

    /// Which completion the interrupt status `interrupt_status` delivers to
    /// the command being waited on, if any.
    pub open spec fn spec_pending_completion(self, interrupt_status: u32) -> Option<UicCompletion> {
        match self.command {
            Some(c) => if c.expected_completion == UicCompletion::Command && interrupt_status
                & UIC_COMMAND_COMPL != 0 {
                Some(UicCompletion::Command)
            } else if c.expected_completion == UicCompletion::PowerMode && interrupt_status
                & UIC_POWER_MODE != 0 {
                Some(UicCompletion::PowerMode)
            } else {
                None
            },
            None => None,
        }
    }

    pub fn pending_completion(&self, interrupt_status: u32) -> (r: Option<UicCompletion>)
        ensures
            r == self.spec_pending_completion(interrupt_status),
    {
        match self.command {
            Some(c) => {
                if c.expected_completion == UicCompletion::Command && interrupt_status
                    & UIC_COMMAND_COMPL != 0 {
                    Some(UicCompletion::Command)
                } else if c.expected_completion == UicCompletion::PowerMode && interrupt_status
                    & UIC_POWER_MODE != 0 {
                    Some(UicCompletion::PowerMode)
                } else {
                    None
                }
            },
            None => None,
        }
    }

    /// Records a command completion: the result code and attribute value
    /// read from the controller.
    pub fn record_command_completion(&mut self, result_code: u32, value: u32)
        ensures
            final(self).response == Some(
                UfsUicRsp { result: UicCmdResult::spec_from_code(result_code), value },
            ),
            final(self).command == old(self).command,
    {
        self.response = Some(UfsUicRsp { result: UicCmdResult::from_code(result_code), value });
    }

    /// Records a power mode change completion with its status.
    pub fn record_power_mode_completion(&mut self, status: u32)
        ensures
            final(self).response == Some(
                UfsUicRsp { result: UicCmdResult::PowerModeChange, value: status },
            ),
            final(self).command == old(self).command,
    {
        self.response = Some(UfsUicRsp { result: UicCmdResult::PowerModeChange, value: status });
    }
}

/// Whether the connected lanes can carry a power mode: at least one lane
/// each way, the same number both ways.
pub open spec fn lanes_valid(lane_rx: u32, lane_tx: u32) -> bool {
    lane_rx != 0 && lane_tx != 0 && lane_rx == lane_tx
}

/// The gear and mode of one direction: the high-speed gear when there is
/// one, else the PWM gear in slow mode.
pub open spec fn gear_choice(hs_gear: u32, pwm_gear: u32) -> (u32, UfsPaPwrMode) {
    if hs_gear != 0 {
        (hs_gear, UfsPaPwrMode::Fast)
    } else {
        (pwm_gear, UfsPaPwrMode::Slow)
    }
}

/// The fastest power mode the link supports, from the connected lanes and
/// the maximum gears of each side. The PWM gear of a side is only consulted
/// when its high-speed gear is zero.
pub fn max_power_mode(
    lane_rx: u32,
    lane_tx: u32,
    hs_gear_rx: u32,
    pwm_gear_rx: u32,
    hs_gear_tx: u32,
    pwm_gear_tx: u32,
) -> (r: Result<UfsPaLayerAttr>)
    ensures
        !lanes_valid(lane_rx, lane_tx) ==> r == Err::<UfsPaLayerAttr, Error>(Error::Invalid),
        lanes_valid(lane_rx, lane_tx) ==> ({
            let (gear_rx, pwr_rx) = gear_choice(hs_gear_rx, pwm_gear_rx);
            let (gear_tx, pwr_tx) = gear_choice(hs_gear_tx, pwm_gear_tx);
            if gear_rx == 0 || gear_tx == 0 {
                r == Err::<UfsPaLayerAttr, Error>(Error::Invalid)
            } else {
                r == Ok::<UfsPaLayerAttr, Error>(
                    UfsPaLayerAttr {
                        gear_rx,
                        gear_tx,
                        lane_rx,
                        lane_tx,
                        pwr_rx,
                        pwr_tx,
                        hs_rate: PA_HS_MODE_B,
                    },
                )
            }
        }),
{
    if lane_rx == 0 || lane_tx == 0 || lane_rx != lane_tx {
        return Err(Error::Invalid);
    }
    let mut pwr_rx = UfsPaPwrMode::Fast;
    let mut pwr_tx = UfsPaPwrMode::Fast;
    let mut gear_rx = hs_gear_rx;
    let mut gear_tx = hs_gear_tx;
    if gear_rx == 0 {
        gear_rx = pwm_gear_rx;
        pwr_rx = UfsPaPwrMode::Slow;
    }
    if gear_tx == 0 {
        gear_tx = pwm_gear_tx;
        pwr_tx = UfsPaPwrMode::Slow;
    }
    if gear_rx == 0 || gear_tx == 0 {
        return Err(Error::Invalid);
    }
    Ok(
        UfsPaLayerAttr {
            gear_rx,
            gear_tx,
            lane_rx,
            lane_tx,
            pwr_rx,
            pwr_tx,
            hs_rate: PA_HS_MODE_B,
        },
    )
}

/// The attribute writes that move the link to power mode `m`, in order:
/// receive and transmit gear, lanes and termination, the rate series when
/// either side is fast, the data-link timeouts, and finally PA_PWRMODE.
pub open spec fn power_mode_settings(m: UfsPaLayerAttr) -> Seq<(u32, u32)> {
    let rx_term: u32 = if m.pwr_rx == UfsPaPwrMode::Fast {
        1
    } else {
        0
    };
    let tx_term: u32 = if m.pwr_tx == UfsPaPwrMode::Fast {
        1
    } else {
        0
    };
    let series = if m.pwr_rx == UfsPaPwrMode::Fast || m.pwr_tx == UfsPaPwrMode::Fast {
        seq![(PA_HSSERIES, m.hs_rate)]
    } else {
        Seq::empty()
    };
    seq![
        (PA_RXGEAR, m.gear_rx),
        (PA_ACTIVERXDATALANES, m.lane_rx),
        (PA_RXTERMINATION, rx_term),
        (PA_TXGEAR, m.gear_tx),
        (PA_ACTIVETXDATALANES, m.lane_tx),
        (PA_TXTERMINATION, tx_term),
    ] + series + seq![
        (PA_PWRMODEUSERDATA0, DL_FC0_PROTECTION_TIMEOUT_VAL_DEFAULT),
        (PA_PWRMODEUSERDATA1, DL_TC0_REPLAY_TIMEOUT_VAL_DEFAULT),
        (PA_PWRMODEUSERDATA2, DL_AFC0_REQ_TIMEOUT_VAL_DEFAULT),
        (PA_PWRMODEUSERDATA3, DL_FC1_PROTECTION_TIMEOUT_VAL_DEFAULT),
        (PA_PWRMODEUSERDATA4, DL_TC1_REPLAY_TIMEOUT_VAL_DEFAULT),
        (PA_PWRMODEUSERDATA5, DL_AFC1_REQ_TIMEOUT_VAL_DEFAULT),
        (DME_LOCAL_FC0_PROTECTION_TIMEOUT_VAL, DL_FC0_PROTECTION_TIMEOUT_VAL_DEFAULT),
        (DME_LOCAL_TC0_REPLAY_TIMEOUT_VAL, DL_TC0_REPLAY_TIMEOUT_VAL_DEFAULT),
        (DME_LOCAL_AFC0_REQ_TIMEOUT_VAL, DL_AFC0_REQ_TIMEOUT_VAL_DEFAULT),
        (PA_PWRMODE, m.spec_pwrmode_value()),
    ]
}

/// The (attribute, value) pairs to set, in order, to change the power mode.
pub fn power_mode_commands(m: UfsPaLayerAttr) -> (r: Vec<(u32, u32)>)
    ensures
        r@ == power_mode_settings(m),
        sets_attr(r@, PA_RXGEAR, m.gear_rx),
        sets_attr(r@, PA_TXGEAR, m.gear_tx),
        sets_attr(r@, PA_ACTIVERXDATALANES, m.lane_rx),
        sets_attr(r@, PA_ACTIVETXDATALANES, m.lane_tx),
        r@.last() == (PA_PWRMODE, m.spec_pwrmode_value()),
{
    let mut out: Vec<(u32, u32)> = Vec::new();
    let rx_term: u32 = if m.pwr_rx.uses_termination() {
        1
    } else {
        0
    };
    let tx_term: u32 = if m.pwr_tx.uses_termination() {
        1
    } else {
        0
    };
    out.push((PA_RXGEAR, m.gear_rx));
    out.push((PA_ACTIVERXDATALANES, m.lane_rx));
    out.push((PA_RXTERMINATION, rx_term));
    out.push((PA_TXGEAR, m.gear_tx));
    out.push((PA_ACTIVETXDATALANES, m.lane_tx));
    out.push((PA_TXTERMINATION, tx_term));
    if m.pwr_rx.uses_termination() || m.pwr_tx.uses_termination() {
        out.push((PA_HSSERIES, m.hs_rate));
    }
    out.push((PA_PWRMODEUSERDATA0, DL_FC0_PROTECTION_TIMEOUT_VAL_DEFAULT));
    out.push((PA_PWRMODEUSERDATA1, DL_TC0_REPLAY_TIMEOUT_VAL_DEFAULT));
    out.push((PA_PWRMODEUSERDATA2, DL_AFC0_REQ_TIMEOUT_VAL_DEFAULT));
    out.push((PA_PWRMODEUSERDATA3, DL_FC1_PROTECTION_TIMEOUT_VAL_DEFAULT));
    out.push((PA_PWRMODEUSERDATA4, DL_TC1_REPLAY_TIMEOUT_VAL_DEFAULT));
    out.push((PA_PWRMODEUSERDATA5, DL_AFC1_REQ_TIMEOUT_VAL_DEFAULT));
    out.push((DME_LOCAL_FC0_PROTECTION_TIMEOUT_VAL, DL_FC0_PROTECTION_TIMEOUT_VAL_DEFAULT));
    out.push((DME_LOCAL_TC0_REPLAY_TIMEOUT_VAL, DL_TC0_REPLAY_TIMEOUT_VAL_DEFAULT));
    out.push((DME_LOCAL_AFC0_REQ_TIMEOUT_VAL, DL_AFC0_REQ_TIMEOUT_VAL_DEFAULT));
    out.push((PA_PWRMODE, m.pwrmode_value()));
    assert(out@ =~= power_mode_settings(m));
    proof {
        lemma_power_mode_sides(m);
        lemma_power_mode_written_last(m);
    }
    out
}

/// Whether the writes `s` set attribute `attr` to `v`: some write does, and
/// every write to `attr` writes `v`.
pub open spec fn sets_attr(s: Seq<(u32, u32)>, attr: u32, v: u32) -> bool {
    &&& s.contains((attr, v))
    &&& forall|i: int| 0 <= i < s.len() && (#[trigger] s[i]).0 == attr ==> s[i].1 == v
}

/// Each side of the link gets its own parameters: the receive gear, lanes
/// and termination come from the receive fields of the mode, the transmit
/// ones from the transmit fields, and the rate series is the mode's rate
/// when either side is fast.
pub proof fn lemma_power_mode_sides(m: UfsPaLayerAttr)
    ensures
        sets_attr(power_mode_settings(m), PA_RXGEAR, m.gear_rx),
        sets_attr(power_mode_settings(m), PA_TXGEAR, m.gear_tx),
        sets_attr(power_mode_settings(m), PA_ACTIVERXDATALANES, m.lane_rx),
        sets_attr(power_mode_settings(m), PA_ACTIVETXDATALANES, m.lane_tx),
        sets_attr(
            power_mode_settings(m),
            PA_RXTERMINATION,
            if m.pwr_rx == UfsPaPwrMode::Fast {
                1
            } else {
                0
            },
        ),
        sets_attr(
            power_mode_settings(m),
            PA_TXTERMINATION,
            if m.pwr_tx == UfsPaPwrMode::Fast {
                1
            } else {
                0
            },
        ),
        m.pwr_rx == UfsPaPwrMode::Fast || m.pwr_tx == UfsPaPwrMode::Fast ==> sets_attr(
            power_mode_settings(m),
            PA_HSSERIES,
            m.hs_rate,
        ),
{
    let s = power_mode_settings(m);
    assert(s[0] == (PA_RXGEAR, m.gear_rx));
    assert(s[1] == (PA_ACTIVERXDATALANES, m.lane_rx));
    assert(s[2].0 == PA_RXTERMINATION);
    assert(s[3] == (PA_TXGEAR, m.gear_tx));
    assert(s[4] == (PA_ACTIVETXDATALANES, m.lane_tx));
    assert(s[5].0 == PA_TXTERMINATION);
    if m.pwr_rx == UfsPaPwrMode::Fast || m.pwr_tx == UfsPaPwrMode::Fast {
        assert(s[6] == (PA_HSSERIES, m.hs_rate));
    }
    assert forall|i: int| 6 <= i < s.len() implies (#[trigger] s[i]).0 != PA_RXGEAR && s[i].0
        != PA_TXGEAR && s[i].0 != PA_ACTIVERXDATALANES && s[i].0 != PA_ACTIVETXDATALANES && s[i].0
        != PA_RXTERMINATION && s[i].0 != PA_TXTERMINATION && (i > 6 ==> s[i].0 != PA_HSSERIES) by {
    }
}

/// The power mode change is the last write, so that the link switches only
/// once every parameter of the new mode is in place.
pub proof fn lemma_power_mode_written_last(m: UfsPaLayerAttr)
    ensures
        power_mode_settings(m).last() == (PA_PWRMODE, m.spec_pwrmode_value()),
        forall|i: int|
            0 <= i < power_mode_settings(m).len() - 1 ==> (#[trigger] power_mode_settings(m)[i]).0
                != PA_PWRMODE,
{
}

} // verus!
