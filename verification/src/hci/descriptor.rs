//! UFSHCI request and queue descriptor layouts. All multi-byte fields are
//! little-endian.
use vstd::prelude::*;

use crate::bytes::{le16, le32, le64, le16_at, le32_at, le64_at, push_le16, push_le32, push_le64, read_le16, read_le32, read_le64};
use crate::error::{Error, Result};
use crate::protocol::scsi::{UfsSCSICmd, UfsScsiDataDirection};
use crate::protocol::UfsCmd;

verus! {

pub const MAX_PRD_ENTRIES: usize = 256;

pub const MASK_OCS: u8 = 0x0f;
/// Bits 7..=63 of a completion entry's command descriptor address.
pub const CQE_UCD_BASE_ADDR: u64 = 0xffff_ffff_ffff_ff80;
/// Bits 0..=4 of a completion entry's command descriptor address.
pub const CQE_SQ_ID: u64 = 0x1f;
pub const ALIGNED_UPIU_SIZE: usize = 512;

/// Size of a UTP command descriptor: command UPIU, response UPIU and a
/// physical region descriptor table of `MAX_PRD_ENTRIES` entries.
pub const UCD_SIZE: usize = 5120;
pub const UCD_CMD_UPIU_OFFSET: usize = 0;
pub const UCD_RSP_UPIU_OFFSET: usize = 512;
pub const UCD_PRDT_OFFSET: usize = 1024;
pub const PRD_ENTRY_SIZE: usize = 16;
pub const UTRD_SIZE: usize = 32;
pub const CQ_ENTRY_SIZE: usize = 32;

/// Command type of a UFS storage transfer request.
pub const UTP_CMD_TYPE_UFS_STORAGE: u8 = 0x1;

/// Direction of a DMA transfer as the DMA layer names it.
#[derive(Clone, Copy, Debug, PartialEq, Eq, Structural)]
pub enum DmaDataDirection {
    Bidirectional,
    ToDevice,
    FromDevice,
    NoTransfer,
}

/// Data direction field of a transfer request descriptor.
#[derive(Clone, Copy, Debug, PartialEq, Eq, Structural)]
pub enum UtpDataDirection {
    NoDataTransfer,
    HostToDevice,
    DeviceToHost,
}

impl UtpDataDirection {
    pub open spec fn spec_code(self) -> u8 {
        match self {
            UtpDataDirection::NoDataTransfer => 0,
            UtpDataDirection::HostToDevice => 1,
            UtpDataDirection::DeviceToHost => 2,
        }
    }

    pub fn code(self) -> (r: u8)
        ensures
            r == self.spec_code(),
    {
        match self {
            UtpDataDirection::NoDataTransfer => 0,
            UtpDataDirection::HostToDevice => 1,
            UtpDataDirection::DeviceToHost => 2,
        }
    }

    pub open spec fn spec_from_scsi(d: UfsScsiDataDirection) -> UtpDataDirection {
        match d {
            UfsScsiDataDirection::Read => UtpDataDirection::DeviceToHost,
            UfsScsiDataDirection::Write => UtpDataDirection::HostToDevice,
            UfsScsiDataDirection::NoData => UtpDataDirection::NoDataTransfer,
        }
    }

    pub fn from_scsi(d: UfsScsiDataDirection) -> (r: UtpDataDirection)
        ensures
            r == Self::spec_from_scsi(d),
    {
        match d {
            UfsScsiDataDirection::Read => UtpDataDirection::DeviceToHost,
            UfsScsiDataDirection::Write => UtpDataDirection::HostToDevice,
            UfsScsiDataDirection::NoData => UtpDataDirection::NoDataTransfer,
        }
    }

    pub fn from_dma(d: DmaDataDirection) -> (r: UtpDataDirection)
        ensures
            r == (match d {
                DmaDataDirection::ToDevice => UtpDataDirection::HostToDevice,
                DmaDataDirection::FromDevice => UtpDataDirection::DeviceToHost,
                _ => UtpDataDirection::NoDataTransfer,
            }),
    {
        match d {
            DmaDataDirection::ToDevice => UtpDataDirection::HostToDevice,
            DmaDataDirection::FromDevice => UtpDataDirection::DeviceToHost,
            _ => UtpDataDirection::NoDataTransfer,
        }
    }
}

/// A physical region descriptor table entry: a data buffer address and its
/// byte count minus one.
#[derive(Clone, Copy, PartialEq, Eq, Structural)]
pub struct PrdEntry {
    pub addr: u64,
    pub reserved: u32,
    pub size: u32,
}

pub open spec fn prd_entry_bytes(e: PrdEntry) -> Seq<u8> {
    le64(e.addr) + le32(e.reserved) + le32(e.size)
}

impl PrdEntry {
    /// The entry for `length` bytes at `addr`; an empty region is refused.
    pub fn new(addr: u64, length: u32) -> (r: Result<PrdEntry>)
        ensures
            length == 0 ==> r == Err::<PrdEntry, Error>(Error::Invalid),
            length != 0 ==> r == Ok::<PrdEntry, Error>(
                PrdEntry { addr, reserved: 0, size: (length - 1) as u32 },
            ),
    {
        if length == 0 {
            return Err(Error::Invalid);
        }
        Ok(PrdEntry { addr, reserved: 0, size: length - 1 })
    }

    pub fn to_bytes(&self) -> (r: Vec<u8>)
        ensures
            r@ == prd_entry_bytes(*self),
            r@.len() == PRD_ENTRY_SIZE,
    {
        let mut out: Vec<u8> = Vec::new();
        push_le64(&mut out, self.addr);
        push_le32(&mut out, self.reserved);
        push_le32(&mut out, self.size);
        assert(out@ =~= prd_entry_bytes(*self));
        out
    }
}

/// Overall command status codes of a transfer request.
#[derive(Clone, Copy, Debug, PartialEq, Eq, Structural)]
pub enum UtpOcs {
    Success,
    InvalidCmdTableAttr,
    InvalidPrdtAttr,
    MismatchDataBufSize,
    MisMatchRespUpiuSize,
    PeerCommFailure,
    Aborted,
    FatalError,
    DeviceFatalError,
    InvalidCryptoConfig,
    GeneralCryptoError,
    InvalidCommandStatus,
}

impl UtpOcs {
    /// The wire code of this value.
    pub open spec fn spec_code(self) -> u8 {
        match self {
            UtpOcs::Success => 0x0,
            UtpOcs::InvalidCmdTableAttr => 0x1,
            UtpOcs::InvalidPrdtAttr => 0x2,
            UtpOcs::MismatchDataBufSize => 0x3,
            UtpOcs::MisMatchRespUpiuSize => 0x4,
            UtpOcs::PeerCommFailure => 0x5,
            UtpOcs::Aborted => 0x6,
            UtpOcs::FatalError => 0x7,
            UtpOcs::DeviceFatalError => 0x8,
            UtpOcs::InvalidCryptoConfig => 0x9,
            UtpOcs::GeneralCryptoError => 0xa,
            UtpOcs::InvalidCommandStatus => 0xf,
        }
    }

    /// The value that a wire code stands for; an unknown code stands for `InvalidCommandStatus`.
    pub open spec fn spec_from_code(code: u8) -> UtpOcs {
        if code == 0x0 {
            UtpOcs::Success
        } else if code == 0x1 {
            UtpOcs::InvalidCmdTableAttr
        } else if code == 0x2 {
            UtpOcs::InvalidPrdtAttr
        } else if code == 0x3 {
            UtpOcs::MismatchDataBufSize
        } else if code == 0x4 {
            UtpOcs::MisMatchRespUpiuSize
        } else if code == 0x5 {
            UtpOcs::PeerCommFailure
        } else if code == 0x6 {
            UtpOcs::Aborted
        } else if code == 0x7 {
            UtpOcs::FatalError
        } else if code == 0x8 {
            UtpOcs::DeviceFatalError
        } else if code == 0x9 {
            UtpOcs::InvalidCryptoConfig
        } else if code == 0xa {
            UtpOcs::GeneralCryptoError
        } else {
            UtpOcs::InvalidCommandStatus
        }
    }

    pub fn code(self) -> (r: u8)
        ensures
            r == self.spec_code(),
    {
        match self {
            UtpOcs::Success => 0x0,
            UtpOcs::InvalidCmdTableAttr => 0x1,
            UtpOcs::InvalidPrdtAttr => 0x2,
            UtpOcs::MismatchDataBufSize => 0x3,
            UtpOcs::MisMatchRespUpiuSize => 0x4,
            UtpOcs::PeerCommFailure => 0x5,
            UtpOcs::Aborted => 0x6,
            UtpOcs::FatalError => 0x7,
            UtpOcs::DeviceFatalError => 0x8,
            UtpOcs::InvalidCryptoConfig => 0x9,
            UtpOcs::GeneralCryptoError => 0xa,
            UtpOcs::InvalidCommandStatus => 0xf,
        }
    }

    pub fn from_code(code: u8) -> (r: UtpOcs)
        ensures
            r == UtpOcs::spec_from_code(code),
    {
        match code {
            0x0 => UtpOcs::Success,
            0x1 => UtpOcs::InvalidCmdTableAttr,
            0x2 => UtpOcs::InvalidPrdtAttr,
            0x3 => UtpOcs::MismatchDataBufSize,
            0x4 => UtpOcs::MisMatchRespUpiuSize,
            0x5 => UtpOcs::PeerCommFailure,
            0x6 => UtpOcs::Aborted,
            0x7 => UtpOcs::FatalError,
            0x8 => UtpOcs::DeviceFatalError,
            0x9 => UtpOcs::InvalidCryptoConfig,
            0xa => UtpOcs::GeneralCryptoError,
            _ => UtpOcs::InvalidCommandStatus,
        }
    }

    /// Decoding the code of a value gives the value back.
    pub proof fn lemma_code_roundtrip(self)
        ensures
            UtpOcs::spec_from_code(self.spec_code()) == self,
    {
    }
}

/// What an overall command status means for the request: success, an
/// invalid request (`Invalid`) or a failed transfer (`Io`).
pub open spec fn ocs_result(ocs: u8) -> Result<()> {
    match UtpOcs::spec_from_code(ocs) {
        UtpOcs::Success => Ok(()),
        UtpOcs::InvalidCmdTableAttr | UtpOcs::InvalidPrdtAttr | UtpOcs::MismatchDataBufSize
        | UtpOcs::MisMatchRespUpiuSize | UtpOcs::InvalidCryptoConfig
        | UtpOcs::GeneralCryptoError => Err(Error::Invalid),
        _ => Err(Error::Io),
    }
}

pub fn check_ocs(ocs: u8) -> (r: Result<()>)
    ensures
        r == ocs_result(ocs),
{
    match UtpOcs::from_code(ocs) {
        UtpOcs::Success => Ok(()),
        UtpOcs::InvalidCmdTableAttr | UtpOcs::InvalidPrdtAttr | UtpOcs::MismatchDataBufSize
        | UtpOcs::MisMatchRespUpiuSize | UtpOcs::InvalidCryptoConfig
        | UtpOcs::GeneralCryptoError => Err(Error::Invalid),
        _ => Err(Error::Io),
    }
}

/// The header shared by transfer and task management request descriptors.
/// Byte `ctrl` holds the command type (bits 4..=7), the data direction (bits
/// 1..=2) and the interrupt flag (bit 0).
#[derive(Clone, Copy, PartialEq, Eq, Structural)]
pub struct ReqDescHeader {
    pub cci: u8,
    pub ehs_length: u8,
    pub flags: u8,
    pub ctrl: u8,
    pub dunl: u32,
    pub ocs: u8,
    pub cds: u8,
    pub ldbc: u16,
    pub dunu: u32,
}

pub open spec fn zero_req_desc_header() -> ReqDescHeader {
    ReqDescHeader { cci: 0, ehs_length: 0, flags: 0, ctrl: 0, dunl: 0, ocs: 0, cds: 0, ldbc: 0, dunu: 0 }
}

pub open spec fn req_desc_header_bytes(h: ReqDescHeader) -> Seq<u8> {
    seq![h.cci, h.ehs_length, h.flags, h.ctrl] + le32(h.dunl) + seq![h.ocs, h.cds] + le16(h.ldbc)
        + le32(h.dunu)
}

/// The control byte of a request: command type `cmd_type`, direction
/// `direction`, interrupt flag set.
pub open spec fn request_ctrl(cmd_type: u8, direction: u8) -> u8 {
    ((cmd_type << 4u8) & 0xf0u8) | ((direction << 1u8) & 0x06u8) | 0x01u8
}

/// The data direction field (bits 2:1 of `ctrl`) that a SCSI command's
/// direction calls for: device to host (2) for a read, host to device (1)
/// for a write, no transfer (0) otherwise.
pub open spec fn scsi_direction_field(d: UfsScsiDataDirection) -> u8 {
    match d {
        UfsScsiDataDirection::Read => 2u8,
        UfsScsiDataDirection::Write => 1u8,
        UfsScsiDataDirection::NoData => 0u8,
    }
}

/// A control byte built from a command type and a data direction holds
/// both in their fields, with the interrupt bit set.
pub proof fn lemma_request_ctrl_fields(cmd_type: u8, direction: u8)
    requires
        cmd_type < 16,
        direction < 4,
    ensures
        request_ctrl(cmd_type, direction) >> 4u8 == cmd_type,
        (request_ctrl(cmd_type, direction) >> 1u8) & 3u8 == direction,
        request_ctrl(cmd_type, direction) & 1u8 == 1u8,
{
    let c = request_ctrl(cmd_type, direction);
    assert(c >> 4u8 == cmd_type && (c >> 1u8) & 3u8 == direction && c & 1u8 == 1u8)
        by (bit_vector)
        requires
            c == ((cmd_type << 4u8) & 0xf0u8) | ((direction << 1u8) & 0x06u8) | 0x01u8,
            cmd_type < 16,
            direction < 4,
    ;
}

/// A transfer request descriptor built for a command is a UFS storage
/// request that interrupts on completion and carries the command's data
/// direction: device to host for a SCSI read, host to device for a write,
/// none for a command without data or a device management command.
pub proof fn lemma_utrd_request_fields(u: Utrd, cmd: UfsCmd)
    ensures
        u.build_spec(cmd).header.ctrl >> 4u8 == UTP_CMD_TYPE_UFS_STORAGE,
        u.build_spec(cmd).header.ctrl & 1u8 == 1u8,
        (u.build_spec(cmd).header.ctrl >> 1u8) & 3u8 == match cmd {
            UfsCmd::Device(_) => 0u8,
            UfsCmd::Scsi(c) => scsi_direction_field(c.spec_direction()),
        },
{
    match cmd {
        UfsCmd::Device(_) => lemma_request_ctrl_fields(UTP_CMD_TYPE_UFS_STORAGE, 0),
        UfsCmd::Scsi(c) => lemma_request_ctrl_fields(
            UTP_CMD_TYPE_UFS_STORAGE,
            UtpDataDirection::spec_from_scsi(c.spec_direction()).spec_code(),
        ),
    }
}

impl ReqDescHeader {
    pub fn zeroed() -> (r: ReqDescHeader)
        ensures
            r == zero_req_desc_header(),
    {
        ReqDescHeader { cci: 0, ehs_length: 0, flags: 0, ctrl: 0, dunl: 0, ocs: 0, cds: 0, ldbc: 0, dunu: 0 }
    }

    /// Stores the command type in bits 4..=7 of `ctrl`.
    pub fn set_cmd_type(&mut self, cmd_type: u8)
        ensures
            final(self).ctrl == (old(self).ctrl & !0xf0u8) | ((cmd_type << 4u8) & 0xf0u8),
            final(self).ctrl >> 4u8 == cmd_type & 0x0fu8,
            final(self).ctrl & 0x0fu8 == old(self).ctrl & 0x0fu8,
            *final(self) == (ReqDescHeader { ctrl: final(self).ctrl, ..*old(self) }),
    {
        let old_ctrl = self.ctrl;
        self.ctrl = (self.ctrl & !0xf0u8) | ((cmd_type << 4u8) & 0xf0u8);
        let c = self.ctrl;
        assert(c >> 4u8 == cmd_type & 0x0fu8 && c & 0x0fu8 == old_ctrl & 0x0fu8) by (bit_vector)
            requires
                c == (old_ctrl & !0xf0u8) | ((cmd_type << 4u8) & 0xf0u8),
        ;
    }

    /// Stores the data direction in bits 1..=2 of `ctrl`.
    pub fn set_direction(&mut self, direction: UtpDataDirection)
        ensures
            final(self).ctrl == (old(self).ctrl & !0x06u8) | ((direction.spec_code() << 1u8)
                & 0x06u8),
            (final(self).ctrl >> 1u8) & 0x03u8 == direction.spec_code(),
            final(self).ctrl & !0x06u8 == old(self).ctrl & !0x06u8,
            *final(self) == (ReqDescHeader { ctrl: final(self).ctrl, ..*old(self) }),
    {
        let old_ctrl = self.ctrl;
        let d = direction.code();
        self.ctrl = (self.ctrl & !0x06u8) | ((d << 1u8) & 0x06u8);
        let c = self.ctrl;
        assert((c >> 1u8) & 0x03u8 == d && c & !0x06u8 == old_ctrl & !0x06u8) by (bit_vector)
            requires
                c == (old_ctrl & !0x06u8) | ((d << 1u8) & 0x06u8),
                d <= 2,
        ;
    }

    /// Stores the interrupt flag in bit 0 of `ctrl`.
    pub fn set_interrupt(&mut self, interrupt: bool)
        ensures
            final(self).ctrl == (old(self).ctrl & !0x01u8) | (if interrupt {
                1u8
            } else {
                0u8
            }),
            (final(self).ctrl & 0x01u8 == 1) == interrupt,
            final(self).ctrl & !0x01u8 == old(self).ctrl & !0x01u8,
            *final(self) == (ReqDescHeader { ctrl: final(self).ctrl, ..*old(self) }),
    {
        let old_ctrl = self.ctrl;
        let bit: u8 = if interrupt {
            1
        } else {
            0
        };
        self.ctrl = (self.ctrl & !0x01u8) | (bit & 0x01u8);
        let c = self.ctrl;
        assert((c & 0x01u8 == 1) == (bit == 1) && c & !0x01u8 == old_ctrl & !0x01u8 && c == (
        old_ctrl & !0x01u8) | bit) by (bit_vector)
            requires
                c == (old_ctrl & !0x01u8) | (bit & 0x01u8),
                bit <= 1,
        ;
    }

    /// The header of a device-management request: UFS storage command, no
    /// data, interrupt on completion, status not yet written.
    pub fn device() -> (r: ReqDescHeader)
        ensures
            r == (ReqDescHeader {
                ctrl: request_ctrl(UTP_CMD_TYPE_UFS_STORAGE, 0),
                ocs: 0x0f,
                ..zero_req_desc_header()
            }),
    {
        let mut header = Self::zeroed();
        header.set_cmd_type(UTP_CMD_TYPE_UFS_STORAGE);
        header.set_direction(UtpDataDirection::NoDataTransfer);
        header.set_interrupt(true);
        header.ocs = UtpOcs::InvalidCommandStatus.code();
        let c = header.ctrl;
        assert(c == request_ctrl(1, 0)) by (bit_vector)
            requires
                c == (((((0u8 & !0xf0u8) | ((1u8 << 4u8) & 0xf0u8)) & !0x06u8) | ((0u8 << 1u8)
                    & 0x06u8)) & !0x01u8) | 1u8,
        ;
        header
    }

    /// The header of a SCSI request in the direction of `cmd`.
    pub fn scsi(cmd: UfsSCSICmd) -> (r: ReqDescHeader)
        ensures
            r == (ReqDescHeader {
                ctrl: request_ctrl(
                    UTP_CMD_TYPE_UFS_STORAGE,
                    UtpDataDirection::spec_from_scsi(cmd.spec_direction()).spec_code(),
                ),
                ocs: 0x0f,
                ..zero_req_desc_header()
            }),
    {
        let mut header = Self::zeroed();
        let direction = UtpDataDirection::from_scsi(cmd.direction());
        let d = direction.code();
        header.set_cmd_type(UTP_CMD_TYPE_UFS_STORAGE);
        header.set_direction(direction);
        header.set_interrupt(true);
        header.ocs = UtpOcs::InvalidCommandStatus.code();
        let c = header.ctrl;
        assert(c == request_ctrl(1, d)) by (bit_vector)
            requires
                c == (((((0u8 & !0xf0u8) | ((1u8 << 4u8) & 0xf0u8)) & !0x06u8) | ((d << 1u8)
                    & 0x06u8)) & !0x01u8) | 1u8,
        ;
        header
    }

    pub fn to_bytes(&self) -> (r: Vec<u8>)
        ensures
            r@ == req_desc_header_bytes(*self),
    {
        let mut out: Vec<u8> = Vec::new();
        out.push(self.cci);
        out.push(self.ehs_length);
        out.push(self.flags);
        out.push(self.ctrl);
        push_le32(&mut out, self.dunl);
        out.push(self.ocs);
        out.push(self.cds);
        push_le16(&mut out, self.ldbc);
        push_le32(&mut out, self.dunu);
        assert(out@ =~= req_desc_header_bytes(*self));
        out
    }

    pub fn from_bytes(s: &[u8]) -> (r: ReqDescHeader)
        requires
            s@.len() >= 16,
        ensures
            r == (ReqDescHeader {
                cci: s@[0],
                ehs_length: s@[1],
                flags: s@[2],
                ctrl: s@[3],
                dunl: le32_at(s@, 4),
                ocs: s@[8],
                cds: s@[9],
                ldbc: le16_at(s@, 10),
                dunu: le32_at(s@, 12),
            }),
    {
        ReqDescHeader {
            cci: s[0],
            ehs_length: s[1],
            flags: s[2],
            ctrl: s[3],
            dunl: read_le32(s, 4),
            ocs: s[8],
            cds: s[9],
            ldbc: read_le16(s, 10),
            dunu: read_le32(s, 12),
        }
    }
}

/// A UTP transfer request descriptor (also a submission queue entry).
#[derive(Clone, Copy, PartialEq, Eq, Structural)]
pub struct Utrd {
    pub header: ReqDescHeader,
    pub command_desc_base_addr: u64,
    pub rsp_upiu_length: u16,
    pub rsp_upiu_offset: u16,
    pub prd_table_length: u16,
    pub prd_table_offset: u16,
}

pub type SqEntry = Utrd;

pub open spec fn zero_utrd() -> Utrd {
    Utrd {
        header: zero_req_desc_header(),
        command_desc_base_addr: 0,
        rsp_upiu_length: 0,
        rsp_upiu_offset: 0,
        prd_table_length: 0,
        prd_table_offset: 0,
    }
}

pub open spec fn utrd_bytes(u: Utrd) -> Seq<u8> {
    req_desc_header_bytes(u.header) + le64(u.command_desc_base_addr) + le16(u.rsp_upiu_length)
        + le16(u.rsp_upiu_offset) + le16(u.prd_table_length) + le16(u.prd_table_offset)
}

impl Utrd {
    pub fn zeroed() -> (r: Utrd)
        ensures
            r == zero_utrd(),
    {
        Utrd {
            header: ReqDescHeader::zeroed(),
            command_desc_base_addr: 0,
            rsp_upiu_length: 0,
            rsp_upiu_offset: 0,
            prd_table_length: 0,
            prd_table_offset: 0,
        }
    }

    /// Points the descriptor at the command descriptor at `addr`. The
    /// response UPIU length and offset and the PRDT offset are in double
    /// words.
    pub fn set_command_descriptor(self, command_desc_base_addr: u64) -> (r: Utrd)
        ensures
            r == (Utrd {
                command_desc_base_addr,
                rsp_upiu_length: 128,
                rsp_upiu_offset: 128,
                prd_table_offset: 256,
                ..self
            }),
    {
        let mut u = self;
        u.command_desc_base_addr = command_desc_base_addr;
        u.rsp_upiu_length = (ALIGNED_UPIU_SIZE / 4) as u16;
        u.rsp_upiu_offset = (ALIGNED_UPIU_SIZE / 4) as u16;
        u.prd_table_offset = (ALIGNED_UPIU_SIZE / 2) as u16;
        u
    }

    /// Records the number of PRDT entries, which must fit in 16 bits.
    pub fn set_prd_table_length(self, entries: usize) -> (r: Result<Utrd>)
        ensures
            entries <= u16::MAX ==> r == Ok::<Utrd, Error>(
                Utrd { prd_table_length: entries as u16, ..self },
            ),
            entries > u16::MAX ==> r == Err::<Utrd, Error>(Error::Invalid),
    {
        if entries > 0xffff {
            return Err(Error::Invalid);
        }
        let mut u = self;
        u.prd_table_length = entries as u16;
        Ok(u)
    }

    /// The descriptor for command `cmd`: a fresh header for its kind, every
    /// other field kept.
    pub open spec fn build_spec(self, cmd: UfsCmd) -> Utrd {
        (Utrd {
        header: match cmd {
            UfsCmd::Device(_) => ReqDescHeader {
                ctrl: request_ctrl(UTP_CMD_TYPE_UFS_STORAGE, 0),
                ocs: 0x0f,
                ..zero_req_desc_header()
            },
            UfsCmd::Scsi(c) => ReqDescHeader {
                ctrl: request_ctrl(
                    UTP_CMD_TYPE_UFS_STORAGE,
                    UtpDataDirection::spec_from_scsi(c.spec_direction()).spec_code(),
                ),
                ocs: 0x0f,
                ..zero_req_desc_header()
            },
        },
        ..self
    })
    }

    pub fn build(&self, cmd: UfsCmd) -> (r: Utrd)
        ensures
            r == self.build_spec(cmd),
            r.header.ctrl >> 4u8 == UTP_CMD_TYPE_UFS_STORAGE,
            r.header.ctrl & 1u8 == 1u8,
            (r.header.ctrl >> 1u8) & 3u8 == match cmd {
                UfsCmd::Device(_) => 0u8,
                UfsCmd::Scsi(c) => scsi_direction_field(c.spec_direction()),
            },
    {
        let header = match cmd {
            UfsCmd::Device(_) => ReqDescHeader::device(),
            UfsCmd::Scsi(c) => ReqDescHeader::scsi(c),
        };
        proof {
            lemma_utrd_request_fields(*self, cmd);
        }
        Utrd { header, ..*self }
    }

    pub open spec fn spec_ocs(self) -> u8 {
        self.header.ocs & MASK_OCS
    }

    /// The overall command status the controller wrote back.
    pub fn ocs(&self) -> (r: u8)
        ensures
            r == self.spec_ocs(),
    {
        self.header.ocs & MASK_OCS
    }

    pub fn check_response(&self) -> (r: Result<()>)
        ensures
            r == ocs_result(self.spec_ocs()),
    {
        check_ocs(self.ocs())
    }

    pub fn to_bytes(&self) -> (r: Vec<u8>)
        ensures
            r@ == utrd_bytes(*self),
            r@.len() == UTRD_SIZE,
    {
        let mut out = self.header.to_bytes();
        push_le64(&mut out, self.command_desc_base_addr);
        push_le16(&mut out, self.rsp_upiu_length);
        push_le16(&mut out, self.rsp_upiu_offset);
        push_le16(&mut out, self.prd_table_length);
        push_le16(&mut out, self.prd_table_offset);
        assert(out@ =~= utrd_bytes(*self));
        out
    }

    pub fn from_bytes(s: &[u8]) -> (r: Utrd)
        requires
            s@.len() >= UTRD_SIZE,
        ensures
            r.header == (ReqDescHeader {
                cci: s@[0],
                ehs_length: s@[1],
                flags: s@[2],
                ctrl: s@[3],
                dunl: le32_at(s@, 4),
                ocs: s@[8],
                cds: s@[9],
                ldbc: le16_at(s@, 10),
                dunu: le32_at(s@, 12),
            }),
            r.command_desc_base_addr == le64_at(s@, 16),
            r.rsp_upiu_length == le16_at(s@, 24),
            r.rsp_upiu_offset == le16_at(s@, 26),
            r.prd_table_length == le16_at(s@, 28),
            r.prd_table_offset == le16_at(s@, 30),
    {
        Utrd {
            header: ReqDescHeader::from_bytes(s),
            command_desc_base_addr: read_le64(s, 16),
            rsp_upiu_length: read_le16(s, 24),
            rsp_upiu_offset: read_le16(s, 26),
            prd_table_length: read_le16(s, 28),
            prd_table_offset: read_le16(s, 30),
        }
    }
}

/// The response UPIU and PRDT offsets that a transfer request descriptor
/// records (in double words) are those of the command descriptor layout.
pub proof fn lemma_utrd_offsets_match_ucd(u: Utrd, addr: u64)
    ensures
        ({
            let d = Utrd {
                command_desc_base_addr: addr,
                rsp_upiu_length: 128,
                rsp_upiu_offset: 128,
                prd_table_offset: 256,
                ..u
            };
            &&& d.rsp_upiu_offset * 4 == UCD_RSP_UPIU_OFFSET
            &&& d.rsp_upiu_length * 4 == ALIGNED_UPIU_SIZE
            &&& d.prd_table_offset * 4 == UCD_PRDT_OFFSET
            &&& UCD_PRDT_OFFSET + MAX_PRD_ENTRIES * PRD_ENTRY_SIZE == UCD_SIZE
        }),
{
}

/// A completion queue entry, as the controller writes it.
#[derive(Clone, Copy, PartialEq, Eq, Structural)]
pub struct CqEntry {
    pub command_desc_base_addr: u64,
    pub rsp_upiu_length: u16,
    pub rsp_upiu_offset: u16,
    pub prd_table_length: u16,
    pub prd_table_offset: u16,
    pub overall_status: u8,
    pub extended_error_code: u8,
    pub reserved_1: u16,
    pub task_tag: u8,
    pub lun: u8,
    pub iid_ext_iid: u8,
    pub reserved_2: u8,
    pub reserved_3: u64,
}

pub open spec fn zero_cq_entry() -> CqEntry {
    CqEntry {
        command_desc_base_addr: 0,
        rsp_upiu_length: 0,
        rsp_upiu_offset: 0,
        prd_table_length: 0,
        prd_table_offset: 0,
        overall_status: 0,
        extended_error_code: 0,
        reserved_1: 0,
        task_tag: 0,
        lun: 0,
        iid_ext_iid: 0,
        reserved_2: 0,
        reserved_3: 0,
    }
}

pub open spec fn cq_entry_bytes(e: CqEntry) -> Seq<u8> {
    le64(e.command_desc_base_addr) + le16(e.rsp_upiu_length) + le16(e.rsp_upiu_offset) + le16(
        e.prd_table_length,
    ) + le16(e.prd_table_offset) + seq![e.overall_status, e.extended_error_code] + le16(
        e.reserved_1,
    ) + seq![e.task_tag, e.lun, e.iid_ext_iid, e.reserved_2] + le64(e.reserved_3)
}

impl CqEntry {
    pub open spec fn spec_ucd_base_addr(self) -> u64 {
        self.command_desc_base_addr & CQE_UCD_BASE_ADDR
    }

    pub open spec fn spec_matches_ucd_base_addr(self, addr: u64) -> bool {
        self.spec_ucd_base_addr() == addr & CQE_UCD_BASE_ADDR
    }

    pub open spec fn spec_is_empty(self) -> bool {
        self.command_desc_base_addr == 0
    }

    pub open spec fn spec_submission_queue_id(self) -> u8 {
        (self.command_desc_base_addr & CQE_SQ_ID) as u8
    }

    pub fn zeroed() -> (r: CqEntry)
        ensures
            r == zero_cq_entry(),
    {
        CqEntry {
            command_desc_base_addr: 0,
            rsp_upiu_length: 0,
            rsp_upiu_offset: 0,
            prd_table_length: 0,
            prd_table_offset: 0,
            overall_status: 0,
            extended_error_code: 0,
            reserved_1: 0,
            task_tag: 0,
            lun: 0,
            iid_ext_iid: 0,
            reserved_2: 0,
            reserved_3: 0,
        }
    }

    pub fn command_desc_base_addr(&self) -> (r: u64)
        ensures
            r == self.command_desc_base_addr,
    {
        self.command_desc_base_addr
    }

    /// The command descriptor address with the queue identifier bits
    /// cleared.
    pub fn ucd_base_addr(&self) -> (r: u64)
        ensures
            r == self.spec_ucd_base_addr(),
    {
        self.command_desc_base_addr & CQE_UCD_BASE_ADDR
    }

    pub fn matches_ucd_base_addr(&self, addr: u64) -> (r: bool)
        ensures
            r == self.spec_matches_ucd_base_addr(addr),
    {
        self.ucd_base_addr() == addr & CQE_UCD_BASE_ADDR
    }

    /// An entry the controller has not written.
    pub fn is_empty(&self) -> (r: bool)
        ensures
            r == self.spec_is_empty(),
    {
        self.command_desc_base_addr == 0
    }

    pub fn task_tag(&self) -> (r: u8)
        ensures
            r == self.task_tag,
    {
        self.task_tag
    }

    /// The submission queue that the completed command came from.
    pub fn submission_queue_id(&self) -> (r: u8)
        ensures
            r == self.spec_submission_queue_id(),
            r < 32,
    {
        let a = self.command_desc_base_addr;
        assert((a & 0x1fu64) < 32) by (bit_vector);
        (a & CQE_SQ_ID) as u8
    }

    pub fn overall_status(&self) -> (r: u8)
        ensures
            r == self.overall_status,
    {
        self.overall_status
    }

    pub fn to_bytes(&self) -> (r: Vec<u8>)
        ensures
            r@ == cq_entry_bytes(*self),
            r@.len() == CQ_ENTRY_SIZE,
    {
        let mut out: Vec<u8> = Vec::new();
        push_le64(&mut out, self.command_desc_base_addr);
        push_le16(&mut out, self.rsp_upiu_length);
        push_le16(&mut out, self.rsp_upiu_offset);
        push_le16(&mut out, self.prd_table_length);
        push_le16(&mut out, self.prd_table_offset);
        out.push(self.overall_status);
        out.push(self.extended_error_code);
        push_le16(&mut out, self.reserved_1);
        out.push(self.task_tag);
        out.push(self.lun);
        out.push(self.iid_ext_iid);
        out.push(self.reserved_2);
        push_le64(&mut out, self.reserved_3);
        assert(out@ =~= cq_entry_bytes(*self));
        out
    }

    pub fn from_bytes(s: &[u8]) -> (r: CqEntry)
        requires
            s@.len() >= CQ_ENTRY_SIZE,
        ensures
            r == (CqEntry {
                command_desc_base_addr: le64_at(s@, 0),
                rsp_upiu_length: le16_at(s@, 8),
                rsp_upiu_offset: le16_at(s@, 10),
                prd_table_length: le16_at(s@, 12),
                prd_table_offset: le16_at(s@, 14),
                overall_status: s@[16],
                extended_error_code: s@[17],
                reserved_1: le16_at(s@, 18),
                task_tag: s@[20],
                lun: s@[21],
                iid_ext_iid: s@[22],
                reserved_2: s@[23],
                reserved_3: le64_at(s@, 24),
            }),
    {
        CqEntry {
            command_desc_base_addr: read_le64(s, 0),
            rsp_upiu_length: read_le16(s, 8),
            rsp_upiu_offset: read_le16(s, 10),
            prd_table_length: read_le16(s, 12),
            prd_table_offset: read_le16(s, 14),
            overall_status: s[16],
            extended_error_code: s[17],
            reserved_1: read_le16(s, 18),
            task_tag: s[20],
            lun: s[21],
            iid_ext_iid: s[22],
            reserved_2: s[23],
            reserved_3: read_le64(s, 24),
        }
    }
}

} // verus!
