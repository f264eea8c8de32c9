//! Qualcomm platform frontend: register values, clock arithmetic and link
//! constraints of the Qualcomm UFS host controllers.
use vstd::prelude::*;

use crate::error::{Error, Result};
use crate::reg::{
    McqQueueConfigLayout, McqRegisterLayout, McqRegisterRegion, UfsMcqOprInfo, UfsMcqOprSet,
};
use crate::uic::{UfsPaLayerAttr, PA_HS_MODE_A};

verus! {

#[derive(Clone, Copy, Debug, PartialEq, Eq, Structural)]
pub enum UfsQcomVariant {
    Eliza,
    Kaanapali,
    Sm8550,
    Sm8650,
    Sm8750,
    X1e80100,
}

pub open spec fn qcom_variant_text(v: UfsQcomVariant) -> Seq<char> {
    match v {
        UfsQcomVariant::Eliza => "eliza"@,
        UfsQcomVariant::Kaanapali => "kaanapali"@,
        UfsQcomVariant::Sm8550 => "sm8550"@,
        UfsQcomVariant::Sm8650 => "sm8650"@,
        UfsQcomVariant::Sm8750 => "sm8750"@,
        UfsQcomVariant::X1e80100 => "x1e80100"@,
    }
}

pub open spec fn qcom_compatible_text(v: UfsQcomVariant) -> Seq<char> {
    match v {
        UfsQcomVariant::Eliza => "qcom,eliza-ufshc"@,
        UfsQcomVariant::Kaanapali => "qcom,kaanapali-ufshc"@,
        UfsQcomVariant::Sm8550 => "qcom,sm8550-ufshc"@,
        UfsQcomVariant::Sm8650 => "qcom,sm8650-ufshc"@,
        UfsQcomVariant::Sm8750 => "qcom,sm8750-ufshc"@,
        UfsQcomVariant::X1e80100 => "qcom,x1e80100-ufshc"@,
    }
}

impl UfsQcomVariant {
    pub fn name(self) -> (r: &'static str)
        ensures
            r@ == qcom_variant_text(self),
    {
        match self {
            UfsQcomVariant::Eliza => "eliza",
            UfsQcomVariant::Kaanapali => "kaanapali",
            UfsQcomVariant::Sm8550 => "sm8550",
            UfsQcomVariant::Sm8650 => "sm8650",
            UfsQcomVariant::Sm8750 => "sm8750",
            UfsQcomVariant::X1e80100 => "x1e80100",
        }
    }

    /// The device-tree compatible string that selects this variant.
    pub fn compatible(self) -> (r: &'static str)
        ensures
            r@ == qcom_compatible_text(self),
    {
        match self {
            UfsQcomVariant::Eliza => "qcom,eliza-ufshc",
            UfsQcomVariant::Kaanapali => "qcom,kaanapali-ufshc",
            UfsQcomVariant::Sm8550 => "qcom,sm8550-ufshc",
            UfsQcomVariant::Sm8650 => "qcom,sm8650-ufshc",
            UfsQcomVariant::Sm8750 => "qcom,sm8750-ufshc",
            UfsQcomVariant::X1e80100 => "qcom,x1e80100-ufshc",
        }
    }

    /// The highest core clock rate, in MHz.
    pub fn max_clock_rate_mhz(self) -> (r: u32)
        ensures
            r == (match self {
                UfsQcomVariant::Sm8550 | UfsQcomVariant::X1e80100 => 300u32,
                _ => 403u32,
            }),
    {
        match self {
            UfsQcomVariant::Sm8550 | UfsQcomVariant::X1e80100 => 300,
            UfsQcomVariant::Eliza | UfsQcomVariant::Kaanapali | UfsQcomVariant::Sm8650
            | UfsQcomVariant::Sm8750 => 403,
        }
    }

    /// Whether the MCQ registers are a separately mapped resource.
    pub fn has_mcq_resource(self) -> (r: bool)
        ensures
            r == (self == UfsQcomVariant::Eliza),
    {
        match self {
            UfsQcomVariant::Eliza => true,
            _ => false,
        }
    }
}

pub const CORE_CLOCK_INDEX: usize = 0;
pub const UNIPRO_CORE_CLOCK_INDEX: usize = 3;
pub const CONTROL_CLOCK_COUNT: usize = 5;
pub const CLOCK_COUNT: usize = 8;

pub const MAX_MEMORY_BANDWIDTH: u32 = 7_643_136;
pub const MAX_CONFIG_BANDWIDTH: u32 = 819_200;

pub const MCQ_CONFIG_BASE: usize = 0x1c000;
pub const MCQ_QUEUE_CONFIG_STRIDE: usize = 0x40;
pub const MCQ_SQD_OFFSET: usize = 0x5000;
pub const MCQ_SQIS_OFFSET: usize = 0x5040;
pub const MCQ_CQD_OFFSET: usize = 0x5080;
pub const MCQ_CQIS_OFFSET: usize = 0x50c0;
pub const MCQ_OPERATION_STRIDE: usize = 0x100;
pub const QCOM_MAX_MCQ_ACTIVE_COMMANDS: usize = 64;

pub const MPHY_TX_FSM_STATE: u32 = 0x41;
pub const TX_FSM_HIBERN8: u32 = 0x1;
pub const PA_LOCAL_TX_LCC_ENABLE: u32 = 0x155e;
pub const PA_TXHSADAPTTYPE: u32 = 0x15d4;
pub const PA_INITIAL_ADAPT: u32 = 0x1;
pub const PA_NO_ADAPT: u32 = 0x3;
pub const UFS_HS_G4: u32 = 4;
pub const PA_VS_CLK_CFG: u32 = 0x9004;
pub const PA_VS_CLK_CFG_MASK: u32 = 0x1ff;
pub const DL_VS_CLK_CFG: u32 = 0xa00b;
pub const DL_VS_CLK_CFG_MASK: u32 = 0x3ff;
pub const PA_VS_CORE_CLK_40NS_CYCLES: u32 = 0x9007;
pub const DME_VS_CORE_CLK_CTRL: u32 = 0xd002;

pub const CORE_CLK_DIV_EN: u32 = 0x100;
pub const DME_HW_CGC_EN: u32 = 0x200;
pub const CORE_CLK_CYCLES_MASK: u32 = 0xff;
pub const CORE_CLK_CYCLES_MASK_V4: u32 = 0x0fff_0000;
pub const CORE_CLK_40NS_CYCLES_MASK: u32 = 0x7f;

// Vendor registers in the HCI region.
pub const QCOM_SYS1CLK_1US: usize = 0xc0;
pub const QCOM_PARAM0: usize = 0xd0;
pub const QCOM_CFG0: usize = 0xd8;
pub const QCOM_CFG1: usize = 0xdc;
pub const QCOM_CFG2: usize = 0xe0;
pub const QCOM_HW_VERSION: usize = 0xe4;

/// UFS mode of the M-PHY: high-speed rate series A or B.
#[derive(Clone, Copy, Debug, PartialEq, Eq, Structural)]
pub enum PhyUfsMode {
    HighSpeedA,
    HighSpeedB,
}

/// The major hardware version (bits 31:28 of the version register).
pub fn hardware_major(version: u32) -> (r: u32)
    ensures
        r == version >> 28u32,
        r <= 0xf,
{
    assert(version >> 28u32 <= 0xf) by (bit_vector);
    version >> 28u32
}

/// The gear and mode the PHY starts in: gear 2 before version 4, else the
/// maximum high-speed gear of PARAM0 (bits 6:4, which is read only then);
/// rate series A only for gear 5 on version 5.
pub fn initial_phy_config(major: u32, param0: u32) -> (r: Result<(u32, PhyUfsMode)>)
    ensures
        ({
            let gear: u32 = if major < 4 {
                2
            } else {
                (param0 >> 4u32) & 0x7
            };
            if gear == 0 {
                r == Err::<(u32, PhyUfsMode), Error>(Error::Invalid)
            } else {
                r == Ok::<(u32, PhyUfsMode), Error>(
                    (
                        gear,
                        if major == 5 && gear == 5 {
                            PhyUfsMode::HighSpeedA
                        } else {
                            PhyUfsMode::HighSpeedB
                        },
                    ),
                )
            }
        }),
{
    let gear = if major < 4 {
        2
    } else {
        (param0 >> 4u32) & 0x7
    };
    if gear == 0 {
        return Err(Error::Invalid);
    }
    let mode = if major == 5 && gear == 5 {
        PhyUfsMode::HighSpeedA
    } else {
        PhyUfsMode::HighSpeedB
    };
    Ok((gear, mode))
}

/// CFG1 with the QUniPro select (bit 0) and device reference clock (bit 26)
/// enabled.
pub fn cfg1_with_qunipro(cfg1: u32) -> (r: u32)
    ensures
        r == cfg1 | 0x1 | 0x400_0000,
{
    cfg1 | 0x1 | 0x400_0000
}

/// CFG0 with the QUniPro G4 select (bit 5) cleared.
pub fn cfg0_without_g4_select(cfg0: u32) -> (r: u32)
    ensures
        r == cfg0 & !0x20u32,
{
    cfg0 & !0x20u32
}

/// CFG2 with all clock gating bits (7:0) set.
pub fn cfg2_with_clock_gating(cfg2: u32) -> (r: u32)
    ensures
        r == (cfg2 & !0xffu32) | 0xff,
{
    (cfg2 & !0xffu32) | 0xff
}

/// Whole clock cycles per microsecond at `hz` Hz, rounding up, and at least
/// one cycle per microsecond.
pub open spec fn spec_cycles_per_microsecond(hz: u64) -> u32 {
    let h: int = if hz >= 1_000_000 {
        hz as int
    } else {
        1_000_000
    };
    ((h + 999_999) / 1_000_000) as u32
}

pub fn cycles_per_microsecond(hz: u64) -> (r: u32)
    ensures
        r == spec_cycles_per_microsecond(hz),
{
    let h = if hz >= 1_000_000 {
        hz
    } else {
        1_000_000
    };
    let q = h / 1_000_000;
    let c = if h % 1_000_000 == 0 {
        q
    } else {
        q + 1
    };
    assert(c == (h + 999_999) / 1_000_000) by (nonlinear_arith)
        requires
            q == h / 1_000_000,
            c == (if h % 1_000_000 == 0 {
                q as int
            } else {
                q + 1
            }),
    ;
    c as u32
}

/// The field of the core clock control register that holds the cycle
/// count, and its value for `cycles` cycles per microsecond: bits 27:16
/// from version 4 on, else bits 7:0.
pub open spec fn spec_unipro_clock_field(cycles: u32, major: u32) -> (u32, u32) {
    if major >= 4 {
        (CORE_CLK_CYCLES_MASK_V4, cycles << 16u32)
    } else {
        (CORE_CLK_CYCLES_MASK, cycles)
    }
}

/// The cycle count field (mask and value) for `cycles` cycles per
/// microsecond on hardware version `major`; a count that does not fit the
/// field is refused. It is checked before the register is read.
pub fn unipro_clock_field(cycles: u32, major: u32) -> (r: Result<(u32, u32)>)
    ensures
        ({
            let (mask, value) = spec_unipro_clock_field(cycles, major);
            if value & !mask != 0 {
                r == Err::<(u32, u32), Error>(Error::Range)
            } else {
                r == Ok::<(u32, u32), Error>((mask, value))
            }
        }),
{
    let (mask, value) = if major >= 4 {
        (CORE_CLK_CYCLES_MASK_V4, cycles << 16u32)
    } else {
        (CORE_CLK_CYCLES_MASK, cycles)
    };
    if value & !mask != 0 {
        return Err(Error::Range);
    }
    Ok((mask, value))
}

/// The core clock control register `reg` with the cycle count field
/// `field` (mask and value) written and the clock divider enable cleared.
pub fn with_unipro_clock_field(reg: u32, field: (u32, u32)) -> (r: u32)
    ensures
        r == (reg & !(field.0 | CORE_CLK_DIV_EN)) | field.1,
{
    (reg & !(field.0 | CORE_CLK_DIV_EN)) | field.1
}

/// The core clock control value for `cycles` cycles per microsecond: the
/// cycle count in bits 27:16 from version 4 on, else in bits 7:0, with the
/// clock divider enable cleared. A count that does not fit is refused.
pub fn unipro_core_clk_ctrl(reg: u32, cycles: u32, major: u32) -> (r: Result<u32>)
    ensures
        ({
            let (mask, value) = spec_unipro_clock_field(cycles, major);
            if value & !mask != 0 {
                r == Err::<u32, Error>(Error::Range)
            } else {
                r == Ok::<u32, Error>((reg & !(mask | CORE_CLK_DIV_EN)) | value)
            }
        }),
{
    let field = unipro_clock_field(cycles, major)?;
    Ok(with_unipro_clock_field(reg, field))
}

/// The number of core clock cycles in 40 ns at the supported rates (in
/// cycles per microsecond).
pub open spec fn spec_core_clk_40ns_cycles(cycles: u32) -> Option<u32> {
    if cycles == 403 {
        Some(16)
    } else if cycles == 300 {
        Some(12)
    } else if cycles == 202 {
        Some(8)
    } else if cycles == 150 {
        Some(6)
    } else if cycles == 100 {
        Some(4)
    } else if cycles == 75 {
        Some(3)
    } else if cycles == 38 {
        Some(2)
    } else {
        None
    }
}

pub fn core_clk_40ns_cycles(cycles: u32) -> (r: Result<u32>)
    ensures
        match spec_core_clk_40ns_cycles(cycles) {
            Some(c) => r == Ok::<u32, Error>(c),
            None => r == Err::<u32, Error>(Error::Invalid),
        },
{
    match cycles {
        403 => Ok(16),
        300 => Ok(12),
        202 => Ok(8),
        150 => Ok(6),
        100 => Ok(4),
        75 => Ok(3),
        38 => Ok(2),
        _ => Err(Error::Invalid),
    }
}

/// The 40 ns cycle register with its count (bits 6:0) replaced.
pub fn with_core_clk_40ns_cycles(reg: u32, cycles_40ns: u32) -> (r: u32)
    ensures
        r == (reg & !CORE_CLK_40NS_CYCLES_MASK) | cycles_40ns,
{
    (reg & !CORE_CLK_40NS_CYCLES_MASK) | cycles_40ns
}

/// The attributes and bits set to enable hardware clock gating, in order.
pub open spec fn clock_gating_bits() -> Seq<(u32, u32)> {
    seq![
        (DL_VS_CLK_CFG, DL_VS_CLK_CFG_MASK),
        (PA_VS_CLK_CFG, PA_VS_CLK_CFG_MASK),
        (DME_VS_CORE_CLK_CTRL, DME_HW_CGC_EN),
    ]
}

pub fn clock_gating_settings() -> (r: Vec<(u32, u32)>)
    ensures
        r@ == clock_gating_bits(),
{
    let mut v: Vec<(u32, u32)> = Vec::new();
    v.push((DL_VS_CLK_CFG, DL_VS_CLK_CFG_MASK));
    v.push((PA_VS_CLK_CFG, PA_VS_CLK_CFG_MASK));
    v.push((DME_VS_CORE_CLK_CTRL, DME_HW_CGC_EN));
    assert(v@ =~= clock_gating_bits());
    v
}

/// The transmit adaptation for gear `gear`: initial adaptation from gear 4.
pub fn adaptation_type(gear: u32) -> (r: u32)
    ensures
        r == (if gear >= UFS_HS_G4 {
            PA_INITIAL_ADAPT
        } else {
            PA_NO_ADAPT
        }),
{
    if gear >= UFS_HS_G4 {
        PA_INITIAL_ADAPT
    } else {
        PA_NO_ADAPT
    }
}

/// The lanes per direction that the device tree asks for (two when it
/// says nothing); only one or two are valid.
pub fn expected_lanes(lanes_per_direction: Option<u32>) -> (r: Result<u32>)
    ensures
        ({
            let lanes: u32 = match lanes_per_direction {
                Some(l) => l,
                None => 2,
            };
            if lanes == 0 || lanes > 2 {
                r == Err::<u32, Error>(Error::Invalid)
            } else {
                r == Ok::<u32, Error>(lanes)
            }
        }),
{
    let lanes = match lanes_per_direction {
        Some(l) => l,
        None => 2,
    };
    if lanes == 0 || lanes > 2 {
        return Err(Error::Invalid);
    }
    Ok(lanes)
}

/// The MCQ register layout of controllers with a separate MCQ region:
/// queue configuration at its start, operation registers at fixed offsets,
/// 0x100 bytes apart per queue.
pub open spec fn qcom_mcq_layout() -> McqRegisterLayout {
    let op = |offset: usize|
        UfsMcqOprInfo {
            region: McqRegisterRegion::Mcq,
            register_offset: offset,
            config_offset: (MCQ_CONFIG_BASE + offset) as usize,
            stride: MCQ_OPERATION_STRIDE,
        };
    McqRegisterLayout {
        queue_config: McqQueueConfigLayout {
            region: McqRegisterRegion::Mcq,
            offset: 0,
            stride: MCQ_QUEUE_CONFIG_STRIDE,
        },
        oprs: UfsMcqOprSet {
            sqd: op(MCQ_SQD_OFFSET),
            sqis: op(MCQ_SQIS_OFFSET),
            cqd: op(MCQ_CQD_OFFSET),
            cqis: op(MCQ_CQIS_OFFSET),
        },
    }
}

fn qcom_operation(offset: usize) -> (r: UfsMcqOprInfo)
    requires
        offset <= 0x6000,
    ensures
        r == (UfsMcqOprInfo {
            region: McqRegisterRegion::Mcq,
            register_offset: offset,
            config_offset: (MCQ_CONFIG_BASE + offset) as usize,
            stride: MCQ_OPERATION_STRIDE,
        }),
{
    UfsMcqOprInfo::new(
        McqRegisterRegion::Mcq,
        offset,
        MCQ_CONFIG_BASE + offset,
        MCQ_OPERATION_STRIDE,
    )
}

/// The state the Qualcomm glue keeps: whether MCQ registers are mapped, the
/// lanes the board wires, and the hardware version and PHY gear found at
/// power-up (zero before it).
#[derive(Clone, Copy, Debug, PartialEq, Eq, Structural)]
pub struct UfsQcomPlatform {
    pub has_mcq_resource: bool,
    pub expected_lanes: u32,
    pub hardware_major: u32,
    pub phy_gear: u32,
}

impl UfsQcomPlatform {
    pub fn new(variant: UfsQcomVariant, lanes_per_direction: Option<u32>) -> (r: Result<
        UfsQcomPlatform,
    >)
        ensures
            match expected_lanes_spec(lanes_per_direction) {
                Err(e) => r == Err::<UfsQcomPlatform, Error>(e),
                Ok(l) => r == Ok::<UfsQcomPlatform, Error>(
                    UfsQcomPlatform {
                        has_mcq_resource: variant == UfsQcomVariant::Eliza,
                        expected_lanes: l,
                        hardware_major: 0,
                        phy_gear: 0,
                    },
                ),
            },
    {
        let lanes = expected_lanes(lanes_per_direction)?;
        Ok(
            UfsQcomPlatform {
                has_mcq_resource: variant.has_mcq_resource(),
                expected_lanes: lanes,
                hardware_major: 0,
                phy_gear: 0,
            },
        )
    }

    /// Records the hardware version and gear found when the PHY came up.
    pub fn record_power_up(&mut self, hardware_major: u32, phy_gear: u32)
        ensures
            *final(self) == (UfsQcomPlatform { hardware_major, phy_gear, ..*old(self) }),
    {
        self.hardware_major = hardware_major;
        self.phy_gear = phy_gear;
    }

    pub fn mcq_register_layout(&self) -> (r: Result<McqRegisterLayout>)
        ensures
            self.has_mcq_resource ==> r == Ok::<McqRegisterLayout, Error>(qcom_mcq_layout()),
            !self.has_mcq_resource ==> r == Err::<McqRegisterLayout, Error>(Error::NoDevice),
    {
        if !self.has_mcq_resource {
            return Err(Error::NoDevice);
        }
        Ok(
            McqRegisterLayout::new(
                McqQueueConfigLayout::new(McqRegisterRegion::Mcq, 0, MCQ_QUEUE_CONFIG_STRIDE),
                UfsMcqOprSet::new(
                    qcom_operation(MCQ_SQD_OFFSET),
                    qcom_operation(MCQ_SQIS_OFFSET),
                    qcom_operation(MCQ_CQD_OFFSET),
                    qcom_operation(MCQ_CQIS_OFFSET),
                ),
            ),
        )
    }

    /// Whether link startup gave the number of lanes the board wires.
    pub fn connected_lanes_valid(&self, rx_lanes: u32, tx_lanes: u32) -> (r: bool)
        ensures
            r == (rx_lanes == self.expected_lanes && tx_lanes == self.expected_lanes),
    {
        rx_lanes == self.expected_lanes && tx_lanes == self.expected_lanes
    }

    pub open spec fn spec_constrain_power_mode(self, desired: UfsPaLayerAttr) -> Result<
        UfsPaLayerAttr,
    > {
        if self.phy_gear == 0 {
            Err(Error::Invalid)
        } else {
            let g = self.phy_gear;
            Ok(
                UfsPaLayerAttr {
                    gear_rx: if desired.gear_rx <= g {
                        desired.gear_rx
                    } else {
                        g
                    },
                    gear_tx: if desired.gear_tx <= g {
                        desired.gear_tx
                    } else {
                        g
                    },
                    hs_rate: if self.hardware_major == 5 && g == 5 {
                        PA_HS_MODE_A
                    } else {
                        desired.hs_rate
                    },
                    ..desired
                },
            )
        }
    }

    /// Limits the gears to what the PHY was brought up with; gear 5 on
    /// version 5 uses rate series A. Before power-up there is no gear.
    pub fn constrain_power_mode(&self, desired: UfsPaLayerAttr) -> (r: Result<UfsPaLayerAttr>)
        ensures
            r == self.spec_constrain_power_mode(desired),
    {
        let phy_gear = self.phy_gear;
        if phy_gear == 0 {
            return Err(Error::Invalid);
        }
        let mut d = desired;
        d.gear_rx = if d.gear_rx <= phy_gear {
            d.gear_rx
        } else {
            phy_gear
        };
        d.gear_tx = if d.gear_tx <= phy_gear {
            d.gear_tx
        } else {
            phy_gear
        };
        if self.hardware_major == 5 && phy_gear == 5 {
            d.hs_rate = PA_HS_MODE_A;
        }
        Ok(d)
    }

    /// The transmit adaptation to set before a power mode change, from
    /// version 4 on.
    pub fn power_mode_adaptation(&self, mode: UfsPaLayerAttr) -> (r: Option<u32>)
        ensures
            self.hardware_major >= 4 ==> r == Some(
                if mode.gear_tx >= UFS_HS_G4 {
                    PA_INITIAL_ADAPT
                } else {
                    PA_NO_ADAPT
                },
            ),
            self.hardware_major < 4 ==> r is None,
    {
        if self.hardware_major >= 4 {
            Some(adaptation_type(mode.gear_tx))
        } else {
            None
        }
    }
}

pub open spec fn expected_lanes_spec(lanes_per_direction: Option<u32>) -> Result<u32> {
    let lanes: u32 = match lanes_per_direction {
        Some(l) => l,
        None => 2,
    };
    if lanes == 0 || lanes > 2 {
        Err(Error::Invalid)
    } else {
        Ok(lanes)
    }
}

/// Constrained gears never exceed the PHY gear or the desired gears.
pub proof fn lemma_constrained_gears(p: UfsQcomPlatform, desired: UfsPaLayerAttr)
    requires
        p.phy_gear != 0,
    ensures
        p.spec_constrain_power_mode(desired) matches Ok(m) && m.gear_rx <= p.phy_gear && m.gear_tx
            <= p.phy_gear && m.gear_rx <= desired.gear_rx && m.gear_tx <= desired.gear_tx
            && m.lane_rx == desired.lane_rx && m.lane_tx == desired.lane_tx,
{
}

} // verus!
