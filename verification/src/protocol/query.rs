//! UFS query commands and descriptor definitions.
use vstd::prelude::*;

use super::UfsCmd;
use crate::bytes::{be16_at, be32_at, be64_at, read_be16, read_be32, read_be64};
use crate::error::{Error, Result};

verus! {

pub const QUERY_DESC_MAX_SIZE: usize = 255;
pub const UFS_DEV_WRITE_BOOSTER_SUP: u32 = 0x100;
pub const WB_BUF_MODE_LU_DEDICATED: u8 = 0;
pub const WB_BUF_MODE_SHARED: u8 = 1;

pub const NOP_OUT_TIMEOUT_MS: i64 = 50;
pub const QUERY_DEFAULT_TIMEOUT_MS: i64 = 1500;
pub const ADVANCDE_RPMB_TIMEOUT_MS: i64 = 3000;

/// The raw bytes of a descriptor as returned by a READ DESCRIPTOR query.
#[derive(Clone, Copy)]
pub struct DescBuffer {
    pub data: [u8; 255],
}

/// Descriptor identifiers.
#[derive(Clone, Copy, Debug, PartialEq, Eq, Structural)]
pub enum DescIdn {
    Device,
    Config,
    Unit,
    RFU0,
    Interconn,
    String,
    RFU1,
    Geometry,
    Power,
    Health,
    Reserved,
}

impl DescIdn {
    /// The wire code of this value.
    pub open spec fn spec_code(self) -> u8 {
        match self {
            DescIdn::Device => 0x0,
            DescIdn::Config => 0x1,
            DescIdn::Unit => 0x2,
            DescIdn::RFU0 => 0x3,
            DescIdn::Interconn => 0x4,
            DescIdn::String => 0x5,
            DescIdn::RFU1 => 0x6,
            DescIdn::Geometry => 0x7,
            DescIdn::Power => 0x8,
            DescIdn::Health => 0x9,
            DescIdn::Reserved => 0xFF,
        }
    }

    /// The value that a wire code stands for; an unknown code stands for `Reserved`.
    pub open spec fn spec_from_code(code: u8) -> DescIdn {
        if code == 0x0 {
            DescIdn::Device
        } else if code == 0x1 {
            DescIdn::Config
        } else if code == 0x2 {
            DescIdn::Unit
        } else if code == 0x3 {
            DescIdn::RFU0
        } else if code == 0x4 {
            DescIdn::Interconn
        } else if code == 0x5 {
            DescIdn::String
        } else if code == 0x6 {
            DescIdn::RFU1
        } else if code == 0x7 {
            DescIdn::Geometry
        } else if code == 0x8 {
            DescIdn::Power
        } else if code == 0x9 {
            DescIdn::Health
        } else {
            DescIdn::Reserved
        }
    }

    pub fn code(self) -> (r: u8)
        ensures
            r == self.spec_code(),
    {
        match self {
            DescIdn::Device => 0x0,
            DescIdn::Config => 0x1,
            DescIdn::Unit => 0x2,
            DescIdn::RFU0 => 0x3,
            DescIdn::Interconn => 0x4,
            DescIdn::String => 0x5,
            DescIdn::RFU1 => 0x6,
            DescIdn::Geometry => 0x7,
            DescIdn::Power => 0x8,
            DescIdn::Health => 0x9,
            DescIdn::Reserved => 0xFF,
        }
    }

    pub fn from_code(code: u8) -> (r: DescIdn)
        ensures
            r == DescIdn::spec_from_code(code),
    {
        match code {
            0x0 => DescIdn::Device,
            0x1 => DescIdn::Config,
            0x2 => DescIdn::Unit,
            0x3 => DescIdn::RFU0,
            0x4 => DescIdn::Interconn,
            0x5 => DescIdn::String,
            0x6 => DescIdn::RFU1,
            0x7 => DescIdn::Geometry,
            0x8 => DescIdn::Power,
            0x9 => DescIdn::Health,
            _ => DescIdn::Reserved,
        }
    }

    /// Decoding the code of a value gives the value back.
    pub proof fn lemma_code_roundtrip(self)
        ensures
            DescIdn::spec_from_code(self.spec_code()) == self,
    {
    }
}

/// Attribute identifiers.
#[derive(Clone, Copy, Debug, PartialEq, Eq, Structural)]
pub enum AttrIdn {
    BootLuEn,
    MaxHPBSingleCmd,
    PowerMode,
    ActiveICCLevel,
    OOODataEn,
    BkOpsStatus,
    PurgeStatus,
    MaxDataIn,
    MaxDataOut,
    DynCapNeeded,
    RefClkFreq,
    ConfDescLock,
    MaxNumOfRTT,
    EEControl,
    EEStatus,
    SecondsPassed,
    CntxConf,
    CorrPrgBlkNum,
    FFUStatus,
    PSAState,
    PSADataSize,
    RefClkGatingWaitTime,
    CaseRoughTemp,
    HighTempBound,
    LowTempBound,
    WBFlushStatus,
    AvailWBBuffSize,
    WBBuffLifeTimeEst,
    CurrWBBuffSize,
    Timestamp,
    DevLvlExceptionID,
    HIDDefragOperation,
    HIDAvailableSize,
    HIDSize,
    HIDProgressRatio,
    HIDState,
    WBBuffResizeHint,
    WBBuffResizeEn,
    WBBuffResizeStatus,
    Reserved,
}

impl AttrIdn {
    /// The wire code of this value.
    pub open spec fn spec_code(self) -> u8 {
        match self {
            AttrIdn::BootLuEn => 0x00,
            AttrIdn::MaxHPBSingleCmd => 0x01,
            AttrIdn::PowerMode => 0x02,
            AttrIdn::ActiveICCLevel => 0x03,
            AttrIdn::OOODataEn => 0x04,
            AttrIdn::BkOpsStatus => 0x05,
            AttrIdn::PurgeStatus => 0x06,
            AttrIdn::MaxDataIn => 0x07,
            AttrIdn::MaxDataOut => 0x08,
            AttrIdn::DynCapNeeded => 0x09,
            AttrIdn::RefClkFreq => 0x0A,
            AttrIdn::ConfDescLock => 0x0B,
            AttrIdn::MaxNumOfRTT => 0x0C,
            AttrIdn::EEControl => 0x0D,
            AttrIdn::EEStatus => 0x0E,
            AttrIdn::SecondsPassed => 0x0F,
            AttrIdn::CntxConf => 0x10,
            AttrIdn::CorrPrgBlkNum => 0x11,
            AttrIdn::FFUStatus => 0x14,
            AttrIdn::PSAState => 0x15,
            AttrIdn::PSADataSize => 0x16,
            AttrIdn::RefClkGatingWaitTime => 0x17,
            AttrIdn::CaseRoughTemp => 0x18,
            AttrIdn::HighTempBound => 0x19,
            AttrIdn::LowTempBound => 0x1A,
            AttrIdn::WBFlushStatus => 0x1C,
            AttrIdn::AvailWBBuffSize => 0x1D,
            AttrIdn::WBBuffLifeTimeEst => 0x1E,
            AttrIdn::CurrWBBuffSize => 0x1F,
            AttrIdn::Timestamp => 0x30,
            AttrIdn::DevLvlExceptionID => 0x34,
            AttrIdn::HIDDefragOperation => 0x35,
            AttrIdn::HIDAvailableSize => 0x36,
            AttrIdn::HIDSize => 0x37,
            AttrIdn::HIDProgressRatio => 0x38,
            AttrIdn::HIDState => 0x39,
            AttrIdn::WBBuffResizeHint => 0x3C,
            AttrIdn::WBBuffResizeEn => 0x3D,
            AttrIdn::WBBuffResizeStatus => 0x3E,
            AttrIdn::Reserved => 0xFF,
        }
    }

    /// The value that a wire code stands for; an unknown code stands for `Reserved`.
    pub open spec fn spec_from_code(code: u8) -> AttrIdn {
        if code == 0x00 {
            AttrIdn::BootLuEn
        } else if code == 0x01 {
            AttrIdn::MaxHPBSingleCmd
        } else if code == 0x02 {
            AttrIdn::PowerMode
        } else if code == 0x03 {
            AttrIdn::ActiveICCLevel
        } else if code == 0x04 {
            AttrIdn::OOODataEn
        } else if code == 0x05 {
            AttrIdn::BkOpsStatus
        } else if code == 0x06 {
            AttrIdn::PurgeStatus
        } else if code == 0x07 {
            AttrIdn::MaxDataIn
        } else if code == 0x08 {
            AttrIdn::MaxDataOut
        } else if code == 0x09 {
            AttrIdn::DynCapNeeded
        } else if code == 0x0A {
            AttrIdn::RefClkFreq
        } else if code == 0x0B {
            AttrIdn::ConfDescLock
        } else if code == 0x0C {
            AttrIdn::MaxNumOfRTT
        } else if code == 0x0D {
            AttrIdn::EEControl
        } else if code == 0x0E {
            AttrIdn::EEStatus
        } else if code == 0x0F {
            AttrIdn::SecondsPassed
        } else if code == 0x10 {
            AttrIdn::CntxConf
        } else if code == 0x11 {
            AttrIdn::CorrPrgBlkNum
        } else if code == 0x14 {
            AttrIdn::FFUStatus
        } else if code == 0x15 {
            AttrIdn::PSAState
        } else if code == 0x16 {
            AttrIdn::PSADataSize
        } else if code == 0x17 {
            AttrIdn::RefClkGatingWaitTime
        } else if code == 0x18 {
            AttrIdn::CaseRoughTemp
        } else if code == 0x19 {
            AttrIdn::HighTempBound
        } else if code == 0x1A {
            AttrIdn::LowTempBound
        } else if code == 0x1C {
            AttrIdn::WBFlushStatus
        } else if code == 0x1D {
            AttrIdn::AvailWBBuffSize
        } else if code == 0x1E {
            AttrIdn::WBBuffLifeTimeEst
        } else if code == 0x1F {
            AttrIdn::CurrWBBuffSize
        } else if code == 0x30 {
            AttrIdn::Timestamp
        } else if code == 0x34 {
            AttrIdn::DevLvlExceptionID
        } else if code == 0x35 {
            AttrIdn::HIDDefragOperation
        } else if code == 0x36 {
            AttrIdn::HIDAvailableSize
        } else if code == 0x37 {
            AttrIdn::HIDSize
        } else if code == 0x38 {
            AttrIdn::HIDProgressRatio
        } else if code == 0x39 {
            AttrIdn::HIDState
        } else if code == 0x3C {
            AttrIdn::WBBuffResizeHint
        } else if code == 0x3D {
            AttrIdn::WBBuffResizeEn
        } else if code == 0x3E {
            AttrIdn::WBBuffResizeStatus
        } else {
            AttrIdn::Reserved
        }
    }

    pub fn code(self) -> (r: u8)
        ensures
            r == self.spec_code(),
    {
        match self {
            AttrIdn::BootLuEn => 0x00,
            AttrIdn::MaxHPBSingleCmd => 0x01,
            AttrIdn::PowerMode => 0x02,
            AttrIdn::ActiveICCLevel => 0x03,
            AttrIdn::OOODataEn => 0x04,
            AttrIdn::BkOpsStatus => 0x05,
            AttrIdn::PurgeStatus => 0x06,
            AttrIdn::MaxDataIn => 0x07,
            AttrIdn::MaxDataOut => 0x08,
            AttrIdn::DynCapNeeded => 0x09,
            AttrIdn::RefClkFreq => 0x0A,
            AttrIdn::ConfDescLock => 0x0B,
            AttrIdn::MaxNumOfRTT => 0x0C,
            AttrIdn::EEControl => 0x0D,
            AttrIdn::EEStatus => 0x0E,
            AttrIdn::SecondsPassed => 0x0F,
            AttrIdn::CntxConf => 0x10,
            AttrIdn::CorrPrgBlkNum => 0x11,
            AttrIdn::FFUStatus => 0x14,
            AttrIdn::PSAState => 0x15,
            AttrIdn::PSADataSize => 0x16,
            AttrIdn::RefClkGatingWaitTime => 0x17,
            AttrIdn::CaseRoughTemp => 0x18,
            AttrIdn::HighTempBound => 0x19,
            AttrIdn::LowTempBound => 0x1A,
            AttrIdn::WBFlushStatus => 0x1C,
            AttrIdn::AvailWBBuffSize => 0x1D,
            AttrIdn::WBBuffLifeTimeEst => 0x1E,
            AttrIdn::CurrWBBuffSize => 0x1F,
            AttrIdn::Timestamp => 0x30,
            AttrIdn::DevLvlExceptionID => 0x34,
            AttrIdn::HIDDefragOperation => 0x35,
            AttrIdn::HIDAvailableSize => 0x36,
            AttrIdn::HIDSize => 0x37,
            AttrIdn::HIDProgressRatio => 0x38,
            AttrIdn::HIDState => 0x39,
            AttrIdn::WBBuffResizeHint => 0x3C,
            AttrIdn::WBBuffResizeEn => 0x3D,
            AttrIdn::WBBuffResizeStatus => 0x3E,
            AttrIdn::Reserved => 0xFF,
        }
    }

    pub fn from_code(code: u8) -> (r: AttrIdn)
        ensures
            r == AttrIdn::spec_from_code(code),
    {
        match code {
            0x00 => AttrIdn::BootLuEn,
            0x01 => AttrIdn::MaxHPBSingleCmd,
            0x02 => AttrIdn::PowerMode,
            0x03 => AttrIdn::ActiveICCLevel,
            0x04 => AttrIdn::OOODataEn,
            0x05 => AttrIdn::BkOpsStatus,
            0x06 => AttrIdn::PurgeStatus,
            0x07 => AttrIdn::MaxDataIn,
            0x08 => AttrIdn::MaxDataOut,
            0x09 => AttrIdn::DynCapNeeded,
            0x0A => AttrIdn::RefClkFreq,
            0x0B => AttrIdn::ConfDescLock,
            0x0C => AttrIdn::MaxNumOfRTT,
            0x0D => AttrIdn::EEControl,
            0x0E => AttrIdn::EEStatus,
            0x0F => AttrIdn::SecondsPassed,
            0x10 => AttrIdn::CntxConf,
            0x11 => AttrIdn::CorrPrgBlkNum,
            0x14 => AttrIdn::FFUStatus,
            0x15 => AttrIdn::PSAState,
            0x16 => AttrIdn::PSADataSize,
            0x17 => AttrIdn::RefClkGatingWaitTime,
            0x18 => AttrIdn::CaseRoughTemp,
            0x19 => AttrIdn::HighTempBound,
            0x1A => AttrIdn::LowTempBound,
            0x1C => AttrIdn::WBFlushStatus,
            0x1D => AttrIdn::AvailWBBuffSize,
            0x1E => AttrIdn::WBBuffLifeTimeEst,
            0x1F => AttrIdn::CurrWBBuffSize,
            0x30 => AttrIdn::Timestamp,
            0x34 => AttrIdn::DevLvlExceptionID,
            0x35 => AttrIdn::HIDDefragOperation,
            0x36 => AttrIdn::HIDAvailableSize,
            0x37 => AttrIdn::HIDSize,
            0x38 => AttrIdn::HIDProgressRatio,
            0x39 => AttrIdn::HIDState,
            0x3C => AttrIdn::WBBuffResizeHint,
            0x3D => AttrIdn::WBBuffResizeEn,
            0x3E => AttrIdn::WBBuffResizeStatus,
            _ => AttrIdn::Reserved,
        }
    }

    /// Decoding the code of a value gives the value back.
    pub proof fn lemma_code_roundtrip(self)
        ensures
            AttrIdn::spec_from_code(self.spec_code()) == self,
    {
    }
}

/// Flag identifiers.
#[derive(Clone, Copy, Debug, PartialEq, Eq, Structural)]
pub enum FlagIdn {
    Reserved,
    FDeviceInit,
    PermanentWPE,
    PwrOnWPE,
    BkOpsEn,
    LifeSpanModeEnable,
    PurgeEnable,
    FPhyResourceRemoval,
    BusyRTC,
    PermanentlyDisableFWUpdate,
    WBEn,
    WBBuffFlushEn,
    WBBuffFlushDuringHibern8,
    HPBReset,
    HPBEn,
    UnpinEn,
}

impl FlagIdn {
    /// The wire code of this value.
    pub open spec fn spec_code(self) -> u8 {
        match self {
            FlagIdn::Reserved => 0x00,
            FlagIdn::FDeviceInit => 0x01,
            FlagIdn::PermanentWPE => 0x02,
            FlagIdn::PwrOnWPE => 0x03,
            FlagIdn::BkOpsEn => 0x04,
            FlagIdn::LifeSpanModeEnable => 0x05,
            FlagIdn::PurgeEnable => 0x06,
            FlagIdn::FPhyResourceRemoval => 0x08,
            FlagIdn::BusyRTC => 0x09,
            FlagIdn::PermanentlyDisableFWUpdate => 0x0B,
            FlagIdn::WBEn => 0x0E,
            FlagIdn::WBBuffFlushEn => 0x0F,
            FlagIdn::WBBuffFlushDuringHibern8 => 0x10,
            FlagIdn::HPBReset => 0x11,
            FlagIdn::HPBEn => 0x12,
            FlagIdn::UnpinEn => 0x13,
        }
    }

    /// The value that a wire code stands for; an unknown code stands for `Reserved`.
    pub open spec fn spec_from_code(code: u8) -> FlagIdn {
        if code == 0x01 {
            FlagIdn::FDeviceInit
        } else if code == 0x02 {
            FlagIdn::PermanentWPE
        } else if code == 0x03 {
            FlagIdn::PwrOnWPE
        } else if code == 0x04 {
            FlagIdn::BkOpsEn
        } else if code == 0x05 {
            FlagIdn::LifeSpanModeEnable
        } else if code == 0x06 {
            FlagIdn::PurgeEnable
        } else if code == 0x08 {
            FlagIdn::FPhyResourceRemoval
        } else if code == 0x09 {
            FlagIdn::BusyRTC
        } else if code == 0x0B {
            FlagIdn::PermanentlyDisableFWUpdate
        } else if code == 0x0E {
            FlagIdn::WBEn
        } else if code == 0x0F {
            FlagIdn::WBBuffFlushEn
        } else if code == 0x10 {
            FlagIdn::WBBuffFlushDuringHibern8
        } else if code == 0x11 {
            FlagIdn::HPBReset
        } else if code == 0x12 {
            FlagIdn::HPBEn
        } else if code == 0x13 {
            FlagIdn::UnpinEn
        } else {
            FlagIdn::Reserved
        }
    }

    pub fn code(self) -> (r: u8)
        ensures
            r == self.spec_code(),
    {
        match self {
            FlagIdn::Reserved => 0x00,
            FlagIdn::FDeviceInit => 0x01,
            FlagIdn::PermanentWPE => 0x02,
            FlagIdn::PwrOnWPE => 0x03,
            FlagIdn::BkOpsEn => 0x04,
            FlagIdn::LifeSpanModeEnable => 0x05,
            FlagIdn::PurgeEnable => 0x06,
            FlagIdn::FPhyResourceRemoval => 0x08,
            FlagIdn::BusyRTC => 0x09,
            FlagIdn::PermanentlyDisableFWUpdate => 0x0B,
            FlagIdn::WBEn => 0x0E,
            FlagIdn::WBBuffFlushEn => 0x0F,
            FlagIdn::WBBuffFlushDuringHibern8 => 0x10,
            FlagIdn::HPBReset => 0x11,
            FlagIdn::HPBEn => 0x12,
            FlagIdn::UnpinEn => 0x13,
        }
    }

    pub fn from_code(code: u8) -> (r: FlagIdn)
        ensures
            r == FlagIdn::spec_from_code(code),
    {
        match code {
            0x01 => FlagIdn::FDeviceInit,
            0x02 => FlagIdn::PermanentWPE,
            0x03 => FlagIdn::PwrOnWPE,
            0x04 => FlagIdn::BkOpsEn,
            0x05 => FlagIdn::LifeSpanModeEnable,
            0x06 => FlagIdn::PurgeEnable,
            0x08 => FlagIdn::FPhyResourceRemoval,
            0x09 => FlagIdn::BusyRTC,
            0x0B => FlagIdn::PermanentlyDisableFWUpdate,
            0x0E => FlagIdn::WBEn,
            0x0F => FlagIdn::WBBuffFlushEn,
            0x10 => FlagIdn::WBBuffFlushDuringHibern8,
            0x11 => FlagIdn::HPBReset,
            0x12 => FlagIdn::HPBEn,
            0x13 => FlagIdn::UnpinEn,
            _ => FlagIdn::Reserved,
        }
    }

    /// Decoding the code of a value gives the value back.
    pub proof fn lemma_code_roundtrip(self)
        ensures
            FlagIdn::spec_from_code(self.spec_code()) == self,
    {
    }
}

/// The device descriptor. Multi-byte fields are big-endian.
#[derive(Clone, Copy)]
pub struct DeviceDesc {
    pub buffer: DescBuffer,
}

impl DeviceDesc {
    pub open spec fn bytes(self) -> Seq<u8> {
        self.buffer.data@
    }

    pub fn from_buffer(buffer: DescBuffer) -> (r: DeviceDesc)
        ensures
            r.buffer == buffer,
    {
        DeviceDesc { buffer }
    }

    pub fn number_lu(&self) -> (r: u8)
        ensures
            r == self.bytes()[6],
    {
        self.buffer.data[6]
    }

    pub fn number_wlu(&self) -> (r: u8)
        ensures
            r == self.bytes()[7],
    {
        self.buffer.data[7]
    }

    pub fn spec_version(&self) -> (r: u16)
        ensures
            r == be16_at(self.bytes(), 16),
    {
        read_be16(&self.buffer.data, 16)
    }

    pub fn manufacturer_id(&self) -> (r: u16)
        ensures
            r == be16_at(self.bytes(), 24),
    {
        read_be16(&self.buffer.data, 24)
    }

    pub fn device_rtt_cap(&self) -> (r: u8)
        ensures
            r == self.bytes()[28],
    {
        self.buffer.data[28]
    }

    pub fn queue_depth(&self) -> (r: usize)
        ensures
            r == self.bytes()[33] as usize,
    {
        self.buffer.data[33] as usize
    }

    pub fn extended_wb_support(&self) -> (r: u16)
        ensures
            r == be16_at(self.bytes(), 77),
    {
        read_be16(&self.buffer.data, 77)
    }

    pub fn extended_ufs_features_support(&self) -> (r: u32)
        ensures
            r == be32_at(self.bytes(), 79),
    {
        read_be32(&self.buffer.data, 79)
    }

    pub fn write_booster_buffer_preserve_user_space_en(&self) -> (r: u8)
        ensures
            r == self.bytes()[83],
    {
        self.buffer.data[83]
    }

    pub fn write_booster_buffer_type(&self) -> (r: u8)
        ensures
            r == self.bytes()[84],
    {
        self.buffer.data[84]
    }

    pub fn num_shared_write_booster_buffer_alloc_units(&self) -> (r: u32)
        ensures
            r == be32_at(self.bytes(), 85),
    {
        read_be32(&self.buffer.data, 85)
    }
}

/// The geometry descriptor. Multi-byte fields are big-endian.
#[derive(Clone, Copy)]
pub struct GeometryDesc {
    pub buffer: DescBuffer,
}

impl GeometryDesc {
    pub open spec fn bytes(self) -> Seq<u8> {
        self.buffer.data@
    }

    pub fn from_buffer(buffer: DescBuffer) -> (r: GeometryDesc)
        ensures
            r.buffer == buffer,
    {
        GeometryDesc { buffer }
    }

    pub fn max_number_lu(&self) -> (r: u8)
        ensures
            r == self.bytes()[12],
    {
        self.buffer.data[12]
    }

    pub fn write_booster_buffer_max_n_alloc_units(&self) -> (r: u32)
        ensures
            r == be32_at(self.bytes(), 79),
    {
        read_be32(&self.buffer.data, 79)
    }

    pub fn device_max_write_booster_l_us(&self) -> (r: u8)
        ensures
            r == self.bytes()[83],
    {
        self.buffer.data[83]
    }

    pub fn write_booster_buffer_cap_adj_fac(&self) -> (r: u8)
        ensures
            r == self.bytes()[84],
    {
        self.buffer.data[84]
    }

    pub fn supported_write_booster_buffer_types(&self) -> (r: u8)
        ensures
            r == self.bytes()[86],
    {
        self.buffer.data[86]
    }
}

/// The unit descriptor of one logical unit. Multi-byte fields are big-endian.
#[derive(Clone, Copy)]
pub struct UnitDesc {
    pub buffer: DescBuffer,
}

impl UnitDesc {
    pub open spec fn bytes(self) -> Seq<u8> {
        self.buffer.data@
    }

    pub fn from_buffer(buffer: DescBuffer) -> (r: UnitDesc)
        ensures
            r.buffer == buffer,
    {
        UnitDesc { buffer }
    }

    pub open spec fn spec_enabled(self) -> bool {
        self.bytes()[3] != 0
    }

    pub fn enabled(&self) -> (r: bool)
        ensures
            r == self.spec_enabled(),
    {
        self.buffer.data[3] != 0
    }

    pub fn logical_block_shift(&self) -> (r: u8)
        ensures
            r == self.bytes()[10],
    {
        self.buffer.data[10]
    }

    pub fn logical_block_count(&self) -> (r: u64)
        ensures
            r == be64_at(self.bytes(), 11),
    {
        read_be64(&self.buffer.data, 11)
    }

    pub fn lu_queue_depth(&self) -> (r: usize)
        ensures
            r == self.bytes()[6] as usize,
    {
        self.buffer.data[6] as usize
    }

    pub fn lu_num_write_booster_buffer_alloc_units(&self) -> (r: u32)
        ensures
            r == be32_at(self.bytes(), 41),
    {
        read_be32(&self.buffer.data, 41)
    }
}

/// A descriptor read from the device, decoded by its identifier.
#[derive(Clone, Copy)]
pub enum Desc {
    Device(DeviceDesc),
    Config(DescBuffer),
    Unit(UnitDesc),
    RFU0(DescBuffer),
    Interconn(DescBuffer),
    String(DescBuffer),
    RFU1(DescBuffer),
    Geometry(GeometryDesc),
    Power(DescBuffer),
    Health(DescBuffer),
    Reserved,
}

/// The descriptor that `buffer` holds when read under identifier `idn`.
pub open spec fn spec_desc_from_buffer(idn: u8, buffer: DescBuffer) -> Desc {
    match DescIdn::spec_from_code(idn) {
        DescIdn::Device => Desc::Device(DeviceDesc { buffer }),
        DescIdn::Config => Desc::Config(buffer),
        DescIdn::Unit => Desc::Unit(UnitDesc { buffer }),
        DescIdn::RFU0 => Desc::RFU0(buffer),
        DescIdn::Interconn => Desc::Interconn(buffer),
        DescIdn::String => Desc::String(buffer),
        DescIdn::RFU1 => Desc::RFU1(buffer),
        DescIdn::Geometry => Desc::Geometry(GeometryDesc { buffer }),
        DescIdn::Power => Desc::Power(buffer),
        DescIdn::Health => Desc::Health(buffer),
        DescIdn::Reserved => Desc::Reserved,
    }
}

impl Desc {
    pub fn get_device(&self) -> (r: Result<DeviceDesc>)
        ensures
            match *self {
                Desc::Device(d) => r == Ok::<DeviceDesc, Error>(d),
                _ => r == Err::<DeviceDesc, Error>(Error::Invalid),
            },
    {
        match *self {
            Desc::Device(desc) => Ok(desc),
            _ => Err(Error::Invalid),
        }
    }

    pub fn get_geometry(&self) -> (r: Result<GeometryDesc>)
        ensures
            match *self {
                Desc::Geometry(d) => r == Ok::<GeometryDesc, Error>(d),
                _ => r == Err::<GeometryDesc, Error>(Error::Invalid),
            },
    {
        match *self {
            Desc::Geometry(desc) => Ok(desc),
            _ => Err(Error::Invalid),
        }
    }

    pub fn get_unit(&self) -> (r: Result<UnitDesc>)
        ensures
            match *self {
                Desc::Unit(d) => r == Ok::<UnitDesc, Error>(d),
                _ => r == Err::<UnitDesc, Error>(Error::Invalid),
            },
    {
        match *self {
            Desc::Unit(desc) => Ok(desc),
            _ => Err(Error::Invalid),
        }
    }

    pub fn from_buffer(idn: u8, buffer: DescBuffer) -> (r: Desc)
        ensures
            r == spec_desc_from_buffer(idn, buffer),
    {
        match DescIdn::from_code(idn) {
            DescIdn::Device => Desc::Device(DeviceDesc::from_buffer(buffer)),
            DescIdn::Config => Desc::Config(buffer),
            DescIdn::Unit => Desc::Unit(UnitDesc::from_buffer(buffer)),
            DescIdn::RFU0 => Desc::RFU0(buffer),
            DescIdn::Interconn => Desc::Interconn(buffer),
            DescIdn::String => Desc::String(buffer),
            DescIdn::RFU1 => Desc::RFU1(buffer),
            DescIdn::Geometry => Desc::Geometry(GeometryDesc::from_buffer(buffer)),
            DescIdn::Power => Desc::Power(buffer),
            DescIdn::Health => Desc::Health(buffer),
            DescIdn::Reserved => Desc::Reserved,
        }
    }
}

/// A READ or WRITE DESCRIPTOR query.
#[derive(Clone, Copy)]
pub struct UfsDescCmd {
    pub idn: DescIdn,
    pub index: u8,
    pub selector: u8,
    pub length: u16,
    pub desc: Desc,
}

impl UfsDescCmd {
    /// A request for the whole descriptor (the largest descriptor length).
    pub fn build(idn: DescIdn, index: u8, selector: u8) -> (r: UfsDescCmd)
        ensures
            r.idn == idn,
            r.index == index,
            r.selector == selector,
            r.length == QUERY_DESC_MAX_SIZE,
            r.desc is Reserved,
    {
        UfsDescCmd { idn, index, selector, length: 255, desc: Desc::Reserved }
    }
}

/// A READ or WRITE ATTRIBUTE query.
#[derive(Clone, Copy, PartialEq, Eq, Structural)]
pub struct UfsAttrCmd {
    pub idn: AttrIdn,
    pub index: u8,
    pub selector: u8,
    pub value: u64,
}

impl UfsAttrCmd {
    pub fn build(idn: AttrIdn, index: u8, selector: u8, value: u64) -> (r: UfsAttrCmd)
        ensures
            r == (UfsAttrCmd { idn, index, selector, value }),
    {
        UfsAttrCmd { idn, index, selector, value }
    }
}

/// A flag query (read, set, clear or toggle).
#[derive(Clone, Copy, PartialEq, Eq, Structural)]
pub struct UfsFlagCmd {
    pub idn: FlagIdn,
    pub index: u8,
    pub selector: u8,
    pub value: u8,
}

impl UfsFlagCmd {
    pub fn build(idn: FlagIdn, index: u8, selector: u8) -> (r: UfsFlagCmd)
        ensures
            r == (UfsFlagCmd { idn, index, selector, value: 0 }),
    {
        UfsFlagCmd { idn, index, selector, value: 0 }
    }
}

#[derive(Clone, Copy)]
pub enum UfsQueryCmd {
    Nop,
    ReadDesc(UfsDescCmd),
    WriteDesc(UfsDescCmd),
    ReadAttr(UfsAttrCmd),
    WriteAttr(UfsAttrCmd),
    ReadFlag(UfsFlagCmd),
    SetFlag(UfsFlagCmd),
    ClearFlag(UfsFlagCmd),
    ToggleFlag(UfsFlagCmd),
}

/// The device-management command that carries query `q`.
pub open spec fn query_cmd(q: UfsQueryCmd) -> UfsCmd {
    UfsCmd::Device(UfsDevCmd::Query(q))
}

impl UfsQueryCmd {
    pub fn read_desc(&self, idn: DescIdn, index: u8, selector: u8) -> (r: UfsCmd)
        ensures
            r == query_cmd(
                UfsQueryCmd::ReadDesc(
                    UfsDescCmd { idn, index, selector, length: 255, desc: Desc::Reserved },
                ),
            ),
    {
        let cmd = UfsDescCmd::build(idn, index, selector);
        UfsCmd::Device(UfsDevCmd::Query(UfsQueryCmd::ReadDesc(cmd)))
    }

    pub fn read_attr(&self, idn: AttrIdn, index: u8, selector: u8) -> (r: UfsCmd)
        ensures
            r == query_cmd(UfsQueryCmd::ReadAttr(UfsAttrCmd { idn, index, selector, value: 0 })),
    {
        let cmd = UfsAttrCmd::build(idn, index, selector, 0);
        UfsCmd::Device(UfsDevCmd::Query(UfsQueryCmd::ReadAttr(cmd)))
    }

    pub fn write_attr(&self, idn: AttrIdn, index: u8, selector: u8, value: u64) -> (r: UfsCmd)
        ensures
            r == query_cmd(UfsQueryCmd::WriteAttr(UfsAttrCmd { idn, index, selector, value })),
    {
        let cmd = UfsAttrCmd::build(idn, index, selector, value);
        UfsCmd::Device(UfsDevCmd::Query(UfsQueryCmd::WriteAttr(cmd)))
    }

    pub fn read_flag(&self, idn: FlagIdn, index: u8, selector: u8) -> (r: UfsCmd)
        ensures
            r == query_cmd(UfsQueryCmd::ReadFlag(UfsFlagCmd { idn, index, selector, value: 0 })),
    {
        let cmd = UfsFlagCmd::build(idn, index, selector);
        UfsCmd::Device(UfsDevCmd::Query(UfsQueryCmd::ReadFlag(cmd)))
    }

    pub fn set_flag(&self, idn: FlagIdn, index: u8, selector: u8) -> (r: UfsCmd)
        ensures
            r == query_cmd(UfsQueryCmd::SetFlag(UfsFlagCmd { idn, index, selector, value: 0 })),
    {
        let cmd = UfsFlagCmd::build(idn, index, selector);
        UfsCmd::Device(UfsDevCmd::Query(UfsQueryCmd::SetFlag(cmd)))
    }

    pub fn clear_flag(&self, idn: FlagIdn, index: u8, selector: u8) -> (r: UfsCmd)
        ensures
            r == query_cmd(UfsQueryCmd::ClearFlag(UfsFlagCmd { idn, index, selector, value: 0 })),
    {
        let cmd = UfsFlagCmd::build(idn, index, selector);
        UfsCmd::Device(UfsDevCmd::Query(UfsQueryCmd::ClearFlag(cmd)))
    }

    pub fn toggle_flag(&self, idn: FlagIdn, index: u8, selector: u8) -> (r: UfsCmd)
        ensures
            r == query_cmd(UfsQueryCmd::ToggleFlag(UfsFlagCmd { idn, index, selector, value: 0 })),
    {
        let cmd = UfsFlagCmd::build(idn, index, selector);
        UfsCmd::Device(UfsDevCmd::Query(UfsQueryCmd::ToggleFlag(cmd)))
    }

    pub fn get_read_desc(&self) -> (r: Result<UfsDescCmd>)
        ensures
            match *self {
                UfsQueryCmd::ReadDesc(c) => r == Ok::<UfsDescCmd, Error>(c),
                _ => r == Err::<UfsDescCmd, Error>(Error::Invalid),
            },
    {
        match *self {
            UfsQueryCmd::ReadDesc(cmd) => Ok(cmd),
            _ => Err(Error::Invalid),
        }
    }

    pub fn get_attr_value(&self) -> (r: Result<u64>)
        ensures
            match *self {
                UfsQueryCmd::ReadAttr(c) => r == Ok::<u64, Error>(c.value),
                UfsQueryCmd::WriteAttr(c) => r == Ok::<u64, Error>(c.value),
                _ => r == Err::<u64, Error>(Error::Invalid),
            },
    {
        match *self {
            UfsQueryCmd::ReadAttr(cmd) => Ok(cmd.value),
            UfsQueryCmd::WriteAttr(cmd) => Ok(cmd.value),
            _ => Err(Error::Invalid),
        }
    }

    pub fn get_flag_value(&self) -> (r: Result<u8>)
        ensures
            match *self {
                UfsQueryCmd::ReadFlag(c) => r == Ok::<u8, Error>(c.value),
                UfsQueryCmd::SetFlag(c) => r == Ok::<u8, Error>(c.value),
                UfsQueryCmd::ClearFlag(c) => r == Ok::<u8, Error>(c.value),
                UfsQueryCmd::ToggleFlag(c) => r == Ok::<u8, Error>(c.value),
                _ => r == Err::<u8, Error>(Error::Invalid),
            },
    {
        match *self {
            UfsQueryCmd::ReadFlag(cmd) => Ok(cmd.value),
            UfsQueryCmd::SetFlag(cmd) => Ok(cmd.value),
            UfsQueryCmd::ClearFlag(cmd) => Ok(cmd.value),
            UfsQueryCmd::ToggleFlag(cmd) => Ok(cmd.value),
            _ => Err(Error::Invalid),
        }
    }
}

/// A Replay Protected Memory Block command (carries no data yet).
#[derive(Clone, Copy)]
pub struct UfsRPMBCmd {}

/// A device-management command.
#[derive(Clone, Copy)]
pub enum UfsDevCmd {
    Nop,
    Query(UfsQueryCmd),
    Rpmb(UfsRPMBCmd),
}

impl UfsDevCmd {
    pub fn nop() -> (r: UfsCmd)
        ensures
            r == UfsCmd::Device(UfsDevCmd::Nop),
    {
        UfsCmd::Device(UfsDevCmd::Nop)
    }

    /// An empty query, from which a query command is built.
    pub fn query() -> (r: UfsQueryCmd)
        ensures
            r is Nop,
    {
        UfsQueryCmd::Nop
    }

    /// How long the device may take to answer, in milliseconds.
    pub fn timeout_ms(&self) -> (r: i64)
        ensures
            match *self {
                UfsDevCmd::Nop => r == NOP_OUT_TIMEOUT_MS,
                UfsDevCmd::Query(_) => r == QUERY_DEFAULT_TIMEOUT_MS,
                UfsDevCmd::Rpmb(_) => r == ADVANCDE_RPMB_TIMEOUT_MS,
            },
    {
        match *self {
            UfsDevCmd::Nop => NOP_OUT_TIMEOUT_MS,
            UfsDevCmd::Query(_) => QUERY_DEFAULT_TIMEOUT_MS,
            UfsDevCmd::Rpmb(_) => ADVANCDE_RPMB_TIMEOUT_MS,
        }
    }

    pub fn get_query(&self) -> (r: Result<UfsQueryCmd>)
        ensures
            match *self {
                UfsDevCmd::Query(q) => r == Ok::<UfsQueryCmd, Error>(q),
                _ => r == Err::<UfsQueryCmd, Error>(Error::Invalid),
            },
    {
        match *self {
            UfsDevCmd::Query(cmd) => Ok(cmd),
            _ => Err(Error::Invalid),
        }
    }
}

} // verus!
