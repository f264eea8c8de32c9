//! UFS Protocol Information Unit (UPIU) layouts.
//!
//! A UPIU is 512 bytes: a 12-byte header followed by a 500-byte body whose
//! layout depends on the transaction. Multi-byte fields are big-endian.
use vstd::prelude::*;

use super::query::{
    spec_desc_from_buffer, AttrIdn, Desc, DescBuffer, DescIdn, FlagIdn, UfsAttrCmd, UfsDescCmd,
    UfsDevCmd, UfsFlagCmd, UfsQueryCmd,
};
use super::scsi::{UfsSCSICmd, UfsScsiCompletion, UfsScsiDataDirection, UfsScsiResult};
use crate::bytes::{
    be16, be16_at, be32, be32_at, be64, be64_at, lemma_be16_bytes_roundtrip, lemma_be16_roundtrip,
    push_be16, push_bytes, read_be16, read_be32, read_be64, zeros,
};
use crate::error::{Error, Result};

verus! {

pub const UFS_CDB_SIZE: usize = 16;
pub const UPIU_HEADER_SIZE: usize = 12;
pub const UPIU_BODY_SIZE: usize = 500;
pub const UPIU_SIZE: usize = 512;

pub const SAM_STAT_GOOD: u8 = 0x00;
pub const SAM_STAT_CHECK_CONDITION: u8 = 0x02;
pub const SAM_STAT_BUSY: u8 = 0x08;
pub const SAM_STAT_RESERVATION_CONFLICT: u8 = 0x18;
pub const SAM_STAT_TASK_SET_FULL: u8 = 0x28;
pub const SAM_STAT_TASK_ABORTED: u8 = 0x40;

/// Header flags.
pub const UPIU_FLAG_NONE: u8 = 0x00;
pub const UPIU_FLAG_CP: u8 = 0x04;
pub const UPIU_FLAG_WRITE: u8 = 0x20;
pub const UPIU_FLAG_READ: u8 = 0x40;

/// Query functions.
pub const UPIU_QUERY_FUNC_STANDARD_READ: u8 = 0x01;
pub const UPIU_QUERY_FUNC_STANDARD_WRITE: u8 = 0x81;

/// Query opcodes.
pub const QUERY_OPCODE_NOP: u8 = 0x0;
pub const QUERY_OPCODE_READ_DESC: u8 = 0x1;
pub const QUERY_OPCODE_WRITE_DESC: u8 = 0x2;
pub const QUERY_OPCODE_READ_ATTR: u8 = 0x3;
pub const QUERY_OPCODE_WRITE_ATTR: u8 = 0x4;
pub const QUERY_OPCODE_READ_FLAG: u8 = 0x5;
pub const QUERY_OPCODE_SET_FLAG: u8 = 0x6;
pub const QUERY_OPCODE_CLEAR_FLAG: u8 = 0x7;
pub const QUERY_OPCODE_TOGGLE_FLAG: u8 = 0x8;

/// UPIU transaction codes.
#[derive(Clone, Copy, Debug, PartialEq, Eq, Structural)]
pub enum UpiuTransaction {
    NopOut,
    Command,
    DataOut,
    TaskReq,
    QueryReq,
    NopIn,
    Response,
    DataIn,
    TaskRsp,
    ReadyXfer,
    QueryRsp,
    Reject,
}

impl UpiuTransaction {
    /// The wire code of this value.
    pub open spec fn spec_code(self) -> u8 {
        match self {
            UpiuTransaction::NopOut => 0x00,
            UpiuTransaction::Command => 0x01,
            UpiuTransaction::DataOut => 0x02,
            UpiuTransaction::TaskReq => 0x04,
            UpiuTransaction::QueryReq => 0x16,
            UpiuTransaction::NopIn => 0x20,
            UpiuTransaction::Response => 0x21,
            UpiuTransaction::DataIn => 0x22,
            UpiuTransaction::TaskRsp => 0x24,
            UpiuTransaction::ReadyXfer => 0x31,
            UpiuTransaction::QueryRsp => 0x36,
            UpiuTransaction::Reject => 0x3F,
        }
    }

    /// The value that a wire code stands for; an unknown code stands for `Reject`.
    pub open spec fn spec_from_code(code: u8) -> UpiuTransaction {
        if code == 0x00 {
            UpiuTransaction::NopOut
        } else if code == 0x01 {
            UpiuTransaction::Command
        } else if code == 0x02 {
            UpiuTransaction::DataOut
        } else if code == 0x04 {
            UpiuTransaction::TaskReq
        } else if code == 0x16 {
            UpiuTransaction::QueryReq
        } else if code == 0x20 {
            UpiuTransaction::NopIn
        } else if code == 0x21 {
            UpiuTransaction::Response
        } else if code == 0x22 {
            UpiuTransaction::DataIn
        } else if code == 0x24 {
            UpiuTransaction::TaskRsp
        } else if code == 0x31 {
            UpiuTransaction::ReadyXfer
        } else if code == 0x36 {
            UpiuTransaction::QueryRsp
        } else {
            UpiuTransaction::Reject
        }
    }

    pub fn code(self) -> (r: u8)
        ensures
            r == self.spec_code(),
    {
        match self {
            UpiuTransaction::NopOut => 0x00,
            UpiuTransaction::Command => 0x01,
            UpiuTransaction::DataOut => 0x02,
            UpiuTransaction::TaskReq => 0x04,
            UpiuTransaction::QueryReq => 0x16,
            UpiuTransaction::NopIn => 0x20,
            UpiuTransaction::Response => 0x21,
            UpiuTransaction::DataIn => 0x22,
            UpiuTransaction::TaskRsp => 0x24,
            UpiuTransaction::ReadyXfer => 0x31,
            UpiuTransaction::QueryRsp => 0x36,
            UpiuTransaction::Reject => 0x3F,
        }
    }

    pub fn from_code(code: u8) -> (r: UpiuTransaction)
        ensures
            r == UpiuTransaction::spec_from_code(code),
    {
        match code {
            0x00 => UpiuTransaction::NopOut,
            0x01 => UpiuTransaction::Command,
            0x02 => UpiuTransaction::DataOut,
            0x04 => UpiuTransaction::TaskReq,
            0x16 => UpiuTransaction::QueryReq,
            0x20 => UpiuTransaction::NopIn,
            0x21 => UpiuTransaction::Response,
            0x22 => UpiuTransaction::DataIn,
            0x24 => UpiuTransaction::TaskRsp,
            0x31 => UpiuTransaction::ReadyXfer,
            0x36 => UpiuTransaction::QueryRsp,
            _ => UpiuTransaction::Reject,
        }
    }

    /// Decoding the code of a value gives the value back.
    pub proof fn lemma_code_roundtrip(self)
        ensures
            UpiuTransaction::spec_from_code(self.spec_code()) == self,
    {
    }
}

/// Query response codes.
#[derive(Clone, Copy, Debug, PartialEq, Eq, Structural)]
pub enum UpiuResponse {
    Success,
    ParamNotReadable,
    ParamNotWritable,
    ParamAlreadyWritten,
    InvalidLen,
    InvalidVal,
    InvalidSel,
    InvalidIndex,
    InvalidIdn,
    InvalidOp,
    Failure,
}

impl UpiuResponse {
    /// The wire code of this value.
    pub open spec fn spec_code(self) -> u8 {
        match self {
            UpiuResponse::Success => 0x00,
            UpiuResponse::ParamNotReadable => 0xF6,
            UpiuResponse::ParamNotWritable => 0xF7,
            UpiuResponse::ParamAlreadyWritten => 0xF8,
            UpiuResponse::InvalidLen => 0xF9,
            UpiuResponse::InvalidVal => 0xFA,
            UpiuResponse::InvalidSel => 0xFB,
            UpiuResponse::InvalidIndex => 0xFC,
            UpiuResponse::InvalidIdn => 0xFD,
            UpiuResponse::InvalidOp => 0xFE,
            UpiuResponse::Failure => 0xFF,
        }
    }

    /// The value that a wire code stands for; an unknown code stands for `Failure`.
    pub open spec fn spec_from_code(code: u8) -> UpiuResponse {
        if code == 0x00 {
            UpiuResponse::Success
        } else if code == 0xF6 {
            UpiuResponse::ParamNotReadable
        } else if code == 0xF7 {
            UpiuResponse::ParamNotWritable
        } else if code == 0xF8 {
            UpiuResponse::ParamAlreadyWritten
        } else if code == 0xF9 {
            UpiuResponse::InvalidLen
        } else if code == 0xFA {
            UpiuResponse::InvalidVal
        } else if code == 0xFB {
            UpiuResponse::InvalidSel
        } else if code == 0xFC {
            UpiuResponse::InvalidIndex
        } else if code == 0xFD {
            UpiuResponse::InvalidIdn
        } else if code == 0xFE {
            UpiuResponse::InvalidOp
        } else {
            UpiuResponse::Failure
        }
    }

    pub fn code(self) -> (r: u8)
        ensures
            r == self.spec_code(),
    {
        match self {
            UpiuResponse::Success => 0x00,
            UpiuResponse::ParamNotReadable => 0xF6,
            UpiuResponse::ParamNotWritable => 0xF7,
            UpiuResponse::ParamAlreadyWritten => 0xF8,
            UpiuResponse::InvalidLen => 0xF9,
            UpiuResponse::InvalidVal => 0xFA,
            UpiuResponse::InvalidSel => 0xFB,
            UpiuResponse::InvalidIndex => 0xFC,
            UpiuResponse::InvalidIdn => 0xFD,
            UpiuResponse::InvalidOp => 0xFE,
            UpiuResponse::Failure => 0xFF,
        }
    }

    pub fn from_code(code: u8) -> (r: UpiuResponse)
        ensures
            r == UpiuResponse::spec_from_code(code),
    {
        match code {
            0x00 => UpiuResponse::Success,
            0xF6 => UpiuResponse::ParamNotReadable,
            0xF7 => UpiuResponse::ParamNotWritable,
            0xF8 => UpiuResponse::ParamAlreadyWritten,
            0xF9 => UpiuResponse::InvalidLen,
            0xFA => UpiuResponse::InvalidVal,
            0xFB => UpiuResponse::InvalidSel,
            0xFC => UpiuResponse::InvalidIndex,
            0xFD => UpiuResponse::InvalidIdn,
            0xFE => UpiuResponse::InvalidOp,
            _ => UpiuResponse::Failure,
        }
    }

    /// Decoding the code of a value gives the value back.
    pub proof fn lemma_code_roundtrip(self)
        ensures
            UpiuResponse::spec_from_code(self.spec_code()) == self,
    {
    }
}

/// The UPIU header.
#[derive(Clone, Copy, PartialEq, Eq, Structural)]
pub struct UpiuHeader {
    pub transaction_code: u8,
    pub flags: u8,
    pub lun: u8,
    pub task_tag: u8,
    pub cmd_set: u8,
    pub query_func: u8,
    pub response: u8,
    pub status: u8,
    pub ehs_length: u8,
    pub dev_info: u8,
    pub data_seg_len: u16,
}

pub open spec fn zero_header() -> UpiuHeader {
    UpiuHeader {
        transaction_code: 0,
        flags: 0,
        lun: 0,
        task_tag: 0,
        cmd_set: 0,
        query_func: 0,
        response: 0,
        status: 0,
        ehs_length: 0,
        dev_info: 0,
        data_seg_len: 0,
    }
}

/// The 12 bytes of a header.
pub open spec fn header_bytes(h: UpiuHeader) -> Seq<u8> {
    seq![
        h.transaction_code,
        h.flags,
        h.lun,
        h.task_tag,
        h.cmd_set,
        h.query_func,
        h.response,
        h.status,
        h.ehs_length,
        h.dev_info,
    ] + be16(h.data_seg_len)
}

/// The header stored in the first 12 bytes of `s`.
pub open spec fn header_of(s: Seq<u8>) -> UpiuHeader {
    UpiuHeader {
        transaction_code: s[0],
        flags: s[1],
        lun: s[2],
        task_tag: s[3],
        cmd_set: s[4],
        query_func: s[5],
        response: s[6],
        status: s[7],
        ehs_length: s[8],
        dev_info: s[9],
        data_seg_len: be16_at(s, 10),
    }
}

/// The header flags that announce the data direction of a SCSI command.
pub open spec fn direction_flags(d: UfsScsiDataDirection) -> u8 {
    match d {
        UfsScsiDataDirection::Read => UPIU_FLAG_READ,
        UfsScsiDataDirection::Write => UPIU_FLAG_WRITE,
        UfsScsiDataDirection::NoData => UPIU_FLAG_NONE,
    }
}

impl UpiuHeader {
    pub fn zeroed() -> (r: UpiuHeader)
        ensures
            r == zero_header(),
    {
        UpiuHeader {
            transaction_code: 0,
            flags: 0,
            lun: 0,
            task_tag: 0,
            cmd_set: 0,
            query_func: 0,
            response: 0,
            status: 0,
            ehs_length: 0,
            dev_info: 0,
            data_seg_len: 0,
        }
    }

    /// A NOP OUT header for the command with tag `tag` (its low byte).
    pub fn nop_out(tag: usize) -> (r: UpiuHeader)
        ensures
            r == (UpiuHeader { transaction_code: 0x00, task_tag: tag as u8, ..zero_header() }),
    {
        let mut h = Self::zeroed();
        h.transaction_code = UpiuTransaction::NopOut.code();
        h.task_tag = tag as u8;
        h
    }

    pub fn query_read(tag: usize) -> (r: UpiuHeader)
        ensures
            r == (UpiuHeader {
                transaction_code: 0x16,
                task_tag: tag as u8,
                query_func: UPIU_QUERY_FUNC_STANDARD_READ,
                ..zero_header()
            }),
    {
        let mut h = Self::zeroed();
        h.transaction_code = UpiuTransaction::QueryReq.code();
        h.task_tag = tag as u8;
        h.query_func = UPIU_QUERY_FUNC_STANDARD_READ;
        h
    }

    pub fn query_write(tag: usize) -> (r: UpiuHeader)
        ensures
            r == (UpiuHeader {
                transaction_code: 0x16,
                task_tag: tag as u8,
                query_func: UPIU_QUERY_FUNC_STANDARD_WRITE,
                ..zero_header()
            }),
    {
        let mut h = Self::zeroed();
        h.transaction_code = UpiuTransaction::QueryReq.code();
        h.task_tag = tag as u8;
        h.query_func = UPIU_QUERY_FUNC_STANDARD_WRITE;
        h
    }

    /// A query write that carries `length` bytes of data.
    pub fn query_write_data(tag: usize, length: usize) -> (r: UpiuHeader)
        ensures
            r == (UpiuHeader {
                transaction_code: 0x16,
                task_tag: tag as u8,
                query_func: UPIU_QUERY_FUNC_STANDARD_WRITE,
                data_seg_len: length as u16,
                ..zero_header()
            }),
    {
        let mut h = Self::query_write(tag);
        h.data_seg_len = length as u16;
        h
    }

    /// A COMMAND header for SCSI command `cmd` with tag `tag`.
    pub fn command(cmd: UfsSCSICmd, tag: usize) -> (r: UpiuHeader)
        ensures
            r == (UpiuHeader {
                transaction_code: 0x01,
                flags: direction_flags(cmd.spec_direction()),
                lun: cmd.spec_lun(),
                task_tag: tag as u8,
                ..zero_header()
            }),
    {
        let flags = match cmd.direction() {
            UfsScsiDataDirection::Read => UPIU_FLAG_READ,
            UfsScsiDataDirection::Write => UPIU_FLAG_WRITE,
            UfsScsiDataDirection::NoData => UPIU_FLAG_NONE,
        };
        let mut h = Self::zeroed();
        h.transaction_code = UpiuTransaction::Command.code();
        h.flags = flags;
        h.lun = cmd.lun();
        h.task_tag = tag as u8;
        h.cmd_set = 0;
        h
    }

    pub fn to_bytes(&self) -> (r: Vec<u8>)
        ensures
            r@ == header_bytes(*self),
    {
        let mut out: Vec<u8> = Vec::new();
        out.push(self.transaction_code);
        out.push(self.flags);
        out.push(self.lun);
        out.push(self.task_tag);
        out.push(self.cmd_set);
        out.push(self.query_func);
        out.push(self.response);
        out.push(self.status);
        out.push(self.ehs_length);
        out.push(self.dev_info);
        push_be16(&mut out, self.data_seg_len);
        assert(out@ =~= header_bytes(*self));
        out
    }

    pub fn from_bytes(s: &[u8]) -> (r: UpiuHeader)
        requires
            s@.len() >= UPIU_HEADER_SIZE,
        ensures
            r == header_of(s@),
    {
        UpiuHeader {
            transaction_code: s[0],
            flags: s[1],
            lun: s[2],
            task_tag: s[3],
            cmd_set: s[4],
            query_func: s[5],
            response: s[6],
            status: s[7],
            ehs_length: s[8],
            dev_info: s[9],
            data_seg_len: read_be16(s, 10),
        }
    }
}

/// The body of a NOP OUT (and of any body left empty).
pub open spec fn nop_body() -> Seq<u8> {
    zeros(500)
}

/// The body of a COMMAND UPIU: expected data transfer length and CDB.
pub open spec fn command_body(cmd: UfsSCSICmd) -> Seq<u8> {
    be32(cmd.spec_data_len()) + cmd.spec_cdb() + zeros(480)
}

/// The body of a READ DESCRIPTOR request.
pub open spec fn read_desc_body(cmd: UfsDescCmd) -> Seq<u8> {
    seq![QUERY_OPCODE_READ_DESC, cmd.idn.spec_code(), cmd.index, cmd.selector, 0u8, 0u8] + be16(
        cmd.length,
    ) + zeros(492)
}

/// The body of a READ ATTRIBUTE request.
pub open spec fn read_attr_body(cmd: UfsAttrCmd) -> Seq<u8> {
    seq![QUERY_OPCODE_READ_ATTR, cmd.idn.spec_code(), cmd.index, cmd.selector] + zeros(496)
}

/// The body of a WRITE ATTRIBUTE request.
pub open spec fn write_attr_body(cmd: UfsAttrCmd) -> Seq<u8> {
    seq![QUERY_OPCODE_WRITE_ATTR, cmd.idn.spec_code(), cmd.index, cmd.selector] + be64(cmd.value)
        + zeros(488)
}

/// The body of a flag request with query opcode `opcode`.
pub open spec fn flag_body(cmd: UfsFlagCmd, opcode: u8) -> Seq<u8> {
    seq![opcode, cmd.idn.spec_code(), cmd.index, cmd.selector] + zeros(496)
}

/// A UPIU: header and 500-byte body.
#[derive(Clone, Copy)]
pub struct Upiu {
    pub header: UpiuHeader,
    pub body: [u8; 500],
}

/// The 512 bytes of a UPIU.
pub open spec fn upiu_bytes(u: Upiu) -> Seq<u8> {
    header_bytes(u.header) + u.body@
}

/// How a query is carried: header and body of the request UPIU, or `None`
/// where the driver sends a NOP OUT in its place.
pub open spec fn query_request(q: UfsQueryCmd, tag: usize) -> Option<(UpiuHeader, Seq<u8>)> {
    let read = UpiuHeader {
        transaction_code: 0x16,
        task_tag: tag as u8,
        query_func: UPIU_QUERY_FUNC_STANDARD_READ,
        ..zero_header()
    };
    let write = UpiuHeader {
        transaction_code: 0x16,
        task_tag: tag as u8,
        query_func: UPIU_QUERY_FUNC_STANDARD_WRITE,
        ..zero_header()
    };
    match q {
        UfsQueryCmd::Nop => None,
        UfsQueryCmd::WriteDesc(_) => None,
        UfsQueryCmd::ReadDesc(c) => Some((read, read_desc_body(c))),
        UfsQueryCmd::ReadAttr(c) => Some((read, read_attr_body(c))),
        UfsQueryCmd::WriteAttr(c) => Some((write, write_attr_body(c))),
        UfsQueryCmd::ReadFlag(c) => Some((read, flag_body(c, QUERY_OPCODE_READ_FLAG))),
        UfsQueryCmd::SetFlag(c) => Some((write, flag_body(c, QUERY_OPCODE_SET_FLAG))),
        UfsQueryCmd::ClearFlag(c) => Some((write, flag_body(c, QUERY_OPCODE_CLEAR_FLAG))),
        UfsQueryCmd::ToggleFlag(c) => Some((write, flag_body(c, QUERY_OPCODE_TOGGLE_FLAG))),
    }
}

/// Whether the query function of request `u` follows the query opcode in
/// its body: READ DESCRIPTOR (0x01), READ ATTRIBUTE (0x03) and READ FLAG
/// (0x05) go out as standard reads (0x01); WRITE ATTRIBUTE (0x04) and SET,
/// CLEAR and TOGGLE FLAG (0x06 to 0x08) as standard writes (0x81).
pub open spec fn query_func_follows_opcode(u: Upiu) -> bool {
    let op = u.body@[0];
    &&& (op == 0x01 || op == 0x03 || op == 0x05) ==> u.header.query_func == 0x01
    &&& (op == 0x04 || op == 0x06 || op == 0x07 || op == 0x08) ==> u.header.query_func == 0x81
}

/// Every query request UPIU goes out with the query function its opcode
/// calls for: reads as standard reads, writes as standard writes.
pub proof fn lemma_query_func_follows_opcode(u: Upiu, q: UfsQueryCmd, tag: usize)
    requires
        is_query_upiu(u, q, tag),
    ensures
        query_func_follows_opcode(u),
{
    match q {
        UfsQueryCmd::ReadDesc(c) => {
            assert(u.body@[0] == read_desc_body(c)[0]);
        },
        UfsQueryCmd::ReadAttr(c) => {
            assert(u.body@[0] == read_attr_body(c)[0]);
        },
        UfsQueryCmd::WriteAttr(c) => {
            assert(u.body@[0] == write_attr_body(c)[0]);
        },
        UfsQueryCmd::ReadFlag(c) => {
            assert(u.body@[0] == flag_body(c, QUERY_OPCODE_READ_FLAG)[0]);
        },
        UfsQueryCmd::SetFlag(c) => {
            assert(u.body@[0] == flag_body(c, QUERY_OPCODE_SET_FLAG)[0]);
        },
        UfsQueryCmd::ClearFlag(c) => {
            assert(u.body@[0] == flag_body(c, QUERY_OPCODE_CLEAR_FLAG)[0]);
        },
        UfsQueryCmd::ToggleFlag(c) => {
            assert(u.body@[0] == flag_body(c, QUERY_OPCODE_TOGGLE_FLAG)[0]);
        },
        _ => {
            assert(u.body@[0] == nop_body()[0]);
        },
    }
}

/// Whether `u` is the NOP OUT for tag `tag`.
pub open spec fn is_nop_out(u: Upiu, tag: usize) -> bool {
    u.header == (UpiuHeader { transaction_code: 0x00, task_tag: tag as u8, ..zero_header() })
        && u.body@ == nop_body()
}

/// Whether `u` is the request UPIU for query `q` with tag `tag`.
pub open spec fn is_query_upiu(u: Upiu, q: UfsQueryCmd, tag: usize) -> bool {
    match query_request(q, tag) {
        None => is_nop_out(u, tag),
        Some((h, b)) => u.header == h && u.body@ == b,
    }
}

/// Whether `u` is the request UPIU for device-management command `cmd`.
pub open spec fn is_device_upiu(u: Upiu, cmd: UfsDevCmd, tag: usize) -> bool {
    match cmd {
        UfsDevCmd::Nop => is_nop_out(u, tag),
        UfsDevCmd::Query(q) => is_query_upiu(u, q, tag),
        UfsDevCmd::Rpmb(_) => is_nop_out(u, tag),
    }
}

/// Whether `d` is the descriptor decoded from `data` under identifier `idn`.
pub open spec fn desc_holds(d: Desc, idn: u8, data: Seq<u8>) -> bool {
    match DescIdn::spec_from_code(idn) {
        DescIdn::Device => d matches Desc::Device(x) && x.buffer.data@ == data,
        DescIdn::Config => d matches Desc::Config(x) && x.data@ == data,
        DescIdn::Unit => d matches Desc::Unit(x) && x.buffer.data@ == data,
        DescIdn::RFU0 => d matches Desc::RFU0(x) && x.data@ == data,
        DescIdn::Interconn => d matches Desc::Interconn(x) && x.data@ == data,
        DescIdn::String => d matches Desc::String(x) && x.data@ == data,
        DescIdn::RFU1 => d matches Desc::RFU1(x) && x.data@ == data,
        DescIdn::Geometry => d matches Desc::Geometry(x) && x.buffer.data@ == data,
        DescIdn::Power => d matches Desc::Power(x) && x.data@ == data,
        DescIdn::Health => d matches Desc::Health(x) && x.data@ == data,
        DescIdn::Reserved => d is Reserved,
    }
}

/// The flag query read back from response body `b`, of the same kind as `q`.
pub open spec fn flag_response(b: Seq<u8>) -> UfsFlagCmd {
    UfsFlagCmd { idn: FlagIdn::spec_from_code(b[1]), index: b[2], selector: b[3], value: b[11] }
}

/// The attribute query read back from response body `b`.
pub open spec fn attr_response(b: Seq<u8>) -> UfsAttrCmd {
    UfsAttrCmd {
        idn: AttrIdn::spec_from_code(b[1]),
        index: b[2],
        selector: b[3],
        value: be64_at(b, 4),
    }
}

/// Whether `r` is the query that response body `b` answers to query `q`:
/// the values the device returned, in a query of the kind of `q`.
pub open spec fn query_response_holds(r: UfsQueryCmd, q: UfsQueryCmd, b: Seq<u8>) -> bool {
    match q {
        UfsQueryCmd::ReadDesc(_) => r matches UfsQueryCmd::ReadDesc(d) && d.idn
            == DescIdn::spec_from_code(b[1]) && d.index == b[2] && d.selector == b[3] && d.length
            == be16_at(b, 6) && desc_holds(d.desc, b[1], b.subrange(20, 275)),
        UfsQueryCmd::ReadAttr(_) => r == UfsQueryCmd::ReadAttr(attr_response(b)),
        UfsQueryCmd::WriteAttr(_) => r == UfsQueryCmd::WriteAttr(attr_response(b)),
        UfsQueryCmd::ReadFlag(_) => r == UfsQueryCmd::ReadFlag(flag_response(b)),
        UfsQueryCmd::SetFlag(_) => r == UfsQueryCmd::SetFlag(flag_response(b)),
        UfsQueryCmd::ClearFlag(_) => r == UfsQueryCmd::ClearFlag(flag_response(b)),
        UfsQueryCmd::ToggleFlag(_) => r == UfsQueryCmd::ToggleFlag(flag_response(b)),
        _ => r == q,
    }
}

/// The completion that a SCSI status reports.
pub open spec fn completion_of_status(status: u8) -> UfsScsiCompletion {
    if status == SAM_STAT_GOOD {
        UfsScsiCompletion::Good
    } else if status == SAM_STAT_CHECK_CONDITION {
        UfsScsiCompletion::CheckCondition
    } else if status == SAM_STAT_BUSY {
        UfsScsiCompletion::Busy
    } else if status == SAM_STAT_RESERVATION_CONFLICT {
        UfsScsiCompletion::ReservationConflict
    } else if status == SAM_STAT_TASK_SET_FULL {
        UfsScsiCompletion::TaskSetFull
    } else if status == SAM_STAT_TASK_ABORTED {
        UfsScsiCompletion::TaskAborted
    } else {
        UfsScsiCompletion::Error
    }
}

/// Whether `u` is the COMMAND UPIU that carries SCSI command `cmd` with
/// tag `tag`.
pub open spec fn is_command_upiu(u: Upiu, cmd: UfsSCSICmd, tag: usize) -> bool {
    &&& u.header == (UpiuHeader {
        transaction_code: 0x01,
        flags: direction_flags(cmd.spec_direction()),
        lun: cmd.spec_lun(),
        task_tag: tag as u8,
        ..zero_header()
    })
    &&& u.body@ == command_body(cmd)
}

/// Whether `r` is the SCSI outcome that response UPIU `u` reports with
/// overall command status `ocs`.
pub open spec fn scsi_result_holds(u: Upiu, ocs: u8, r: UfsScsiResult) -> bool {
    &&& r.ocs == ocs
    &&& r.transaction == u.header.transaction_code
    &&& r.response == u.header.response
    &&& r.status == u.header.status
    &&& r.residual_transfer_count == be32_at(u.body@, 0)
    &&& r.sense_data_len == (if be16_at(u.body@, 20) <= 18 {
            be16_at(u.body@, 20) as usize
        } else {
            18usize
        })
    &&& r.sense_data@ == u.body@.subrange(22, 40)
    &&& r.completion == (if u.spec_transaction() == UpiuTransaction::Response {
            completion_of_status(u.header.status)
        } else {
            UfsScsiCompletion::Error
        })
}

/// Whether `r` is the answer that response UPIU `u` gives to
/// device-management command `cmd`.
pub open spec fn fetch_dev_holds(u: Upiu, cmd: UfsDevCmd, r: Result<UfsDevCmd>) -> bool {
    match cmd {
        UfsDevCmd::Nop => if u.spec_transaction() == UpiuTransaction::NopIn {
            r matches Ok(UfsDevCmd::Nop)
        } else {
            r == Err::<UfsDevCmd, Error>(Error::Io)
        },
        UfsDevCmd::Query(q) => if u.spec_transaction() == UpiuTransaction::QueryRsp
            && u.spec_response() == UpiuResponse::Success {
            r matches Ok(UfsDevCmd::Query(rq)) && query_response_holds(rq, q, u.body@)
        } else {
            r == Err::<UfsDevCmd, Error>(Error::Io)
        },
        UfsDevCmd::Rpmb(_) => if u.spec_transaction() == UpiuTransaction::Response {
            r matches Ok(UfsDevCmd::Rpmb(_))
        } else {
            r == Err::<UfsDevCmd, Error>(Error::Io)
        },
    }
}

pub fn nop_body_bytes() -> (r: [u8; 500])
    ensures
        r@ == nop_body(),
{
    let b = [0u8; 500];
    assert(b@ =~= nop_body());
    b
}

impl Upiu {
    pub open spec fn spec_transaction(self) -> UpiuTransaction {
        UpiuTransaction::spec_from_code(self.header.transaction_code)
    }

    pub open spec fn spec_response(self) -> UpiuResponse {
        UpiuResponse::spec_from_code(self.header.response)
    }

    /// An all-zero UPIU.
    pub fn zeroed() -> (r: Upiu)
        ensures
            r.header == zero_header(),
            r.body@ == nop_body(),
    {
        Upiu { header: UpiuHeader::zeroed(), body: nop_body_bytes() }
    }

    pub fn nop_out(tag: usize) -> (r: Upiu)
        ensures
            is_nop_out(r, tag),
    {
        Upiu { header: UpiuHeader::nop_out(tag), body: nop_body_bytes() }
    }

    pub fn read_desc(cmd: UfsDescCmd, tag: usize) -> (r: Upiu)
        ensures
            is_query_upiu(r, UfsQueryCmd::ReadDesc(cmd), tag),
            query_func_follows_opcode(r),
    {
        let mut body = [0u8; 500];
        body[0] = QUERY_OPCODE_READ_DESC;
        body[1] = cmd.idn.code();
        body[2] = cmd.index;
        body[3] = cmd.selector;
        body[6] = (cmd.length >> 8) as u8;
        body[7] = cmd.length as u8;
        assert(body@ =~= read_desc_body(cmd));
        Upiu { header: UpiuHeader::query_read(tag), body }
    }

    pub fn read_attr(cmd: UfsAttrCmd, tag: usize) -> (r: Upiu)
        ensures
            is_query_upiu(r, UfsQueryCmd::ReadAttr(cmd), tag),
            query_func_follows_opcode(r),
    {
        let mut body = [0u8; 500];
        body[0] = QUERY_OPCODE_READ_ATTR;
        body[1] = cmd.idn.code();
        body[2] = cmd.index;
        body[3] = cmd.selector;
        assert(body@ =~= read_attr_body(cmd));
        Upiu { header: UpiuHeader::query_read(tag), body }
    }

    pub fn write_attr(cmd: UfsAttrCmd, tag: usize) -> (r: Upiu)
        ensures
            is_query_upiu(r, UfsQueryCmd::WriteAttr(cmd), tag),
            query_func_follows_opcode(r),
    {
        let mut body = [0u8; 500];
        let v = cmd.value;
        body[0] = QUERY_OPCODE_WRITE_ATTR;
        body[1] = cmd.idn.code();
        body[2] = cmd.index;
        body[3] = cmd.selector;
        body[4] = (v >> 56) as u8;
        body[5] = (v >> 48) as u8;
        body[6] = (v >> 40) as u8;
        body[7] = (v >> 32) as u8;
        body[8] = (v >> 24) as u8;
        body[9] = (v >> 16) as u8;
        body[10] = (v >> 8) as u8;
        body[11] = v as u8;
        assert(body@ =~= write_attr_body(cmd));
        Upiu { header: UpiuHeader::query_write(tag), body }
    }

    fn flag_request(cmd: UfsFlagCmd, opcode: u8) -> (r: [u8; 500])
        ensures
            r@ == flag_body(cmd, opcode),
    {
        let mut body = [0u8; 500];
        body[0] = opcode;
        body[1] = cmd.idn.code();
        body[2] = cmd.index;
        body[3] = cmd.selector;
        assert(body@ =~= flag_body(cmd, opcode));
        body
    }

    pub fn read_flag(cmd: UfsFlagCmd, tag: usize) -> (r: Upiu)
        ensures
            is_query_upiu(r, UfsQueryCmd::ReadFlag(cmd), tag),
            query_func_follows_opcode(r),
    {
        Upiu {
            header: UpiuHeader::query_read(tag),
            body: Self::flag_request(cmd, QUERY_OPCODE_READ_FLAG),
        }
    }

    pub fn set_flag(cmd: UfsFlagCmd, tag: usize) -> (r: Upiu)
        ensures
            is_query_upiu(r, UfsQueryCmd::SetFlag(cmd), tag),
            query_func_follows_opcode(r),
    {
        Upiu {
            header: UpiuHeader::query_write(tag),
            body: Self::flag_request(cmd, QUERY_OPCODE_SET_FLAG),
        }
    }

    pub fn clear_flag(cmd: UfsFlagCmd, tag: usize) -> (r: Upiu)
        ensures
            is_query_upiu(r, UfsQueryCmd::ClearFlag(cmd), tag),
            query_func_follows_opcode(r),
    {
        Upiu {
            header: UpiuHeader::query_write(tag),
            body: Self::flag_request(cmd, QUERY_OPCODE_CLEAR_FLAG),
        }
    }

    pub fn toggle_flag(cmd: UfsFlagCmd, tag: usize) -> (r: Upiu)
        ensures
            is_query_upiu(r, UfsQueryCmd::ToggleFlag(cmd), tag),
            query_func_follows_opcode(r),
    {
        Upiu {
            header: UpiuHeader::query_write(tag),
            body: Self::flag_request(cmd, QUERY_OPCODE_TOGGLE_FLAG),
        }
    }

    /// The COMMAND UPIU that carries SCSI command `cmd`.
    pub fn command(cmd: UfsSCSICmd, tag: usize) -> (r: Upiu)
        ensures
            is_command_upiu(r, cmd, tag),
    {
        let mut body = [0u8; 500];
        let len = cmd.data_len();
        let cdb = cmd.cdb();
        body[0] = (len >> 24) as u8;
        body[1] = (len >> 16) as u8;
        body[2] = (len >> 8) as u8;
        body[3] = len as u8;
        let mut i: usize = 0;
        while i < 16
            invariant
                i <= 16,
                cdb@ == cmd.spec_cdb(),
                body@.subrange(0, 4) == be32(cmd.spec_data_len()),
                forall|j: int| 0 <= j < i ==> body@[4 + j] == cdb@[j],
                forall|j: int| 20 <= j < 500 ==> body@[j] == 0,
            decreases 16 - i,
        {
            body[4 + i] = cdb[i];
            i = i + 1;
        }
        assert(body@ =~= command_body(cmd));
        Upiu { header: UpiuHeader::command(cmd, tag), body }
    }

    /// The request UPIU for device-management command `cmd`.
    pub fn device(cmd: UfsDevCmd, tag: usize) -> (r: Upiu)
        ensures
            is_device_upiu(r, cmd, tag),
            query_func_follows_opcode(r),
    {
        match cmd {
            UfsDevCmd::Nop => Self::nop_out(tag),
            UfsDevCmd::Query(q) => Self::query(q, tag),
            UfsDevCmd::Rpmb(_) => Self::nop_out(tag),
        }
    }

    pub fn query(cmd: UfsQueryCmd, tag: usize) -> (r: Upiu)
        ensures
            is_query_upiu(r, cmd, tag),
            query_func_follows_opcode(r),
    {
        match cmd {
            UfsQueryCmd::Nop => Self::nop_out(tag),
            UfsQueryCmd::ReadDesc(c) => Self::read_desc(c, tag),
            UfsQueryCmd::WriteDesc(_) => Self::nop_out(tag),
            UfsQueryCmd::ReadAttr(c) => Self::read_attr(c, tag),
            UfsQueryCmd::WriteAttr(c) => Self::write_attr(c, tag),
            UfsQueryCmd::ReadFlag(c) => Self::read_flag(c, tag),
            UfsQueryCmd::SetFlag(c) => Self::set_flag(c, tag),
            UfsQueryCmd::ClearFlag(c) => Self::clear_flag(c, tag),
            UfsQueryCmd::ToggleFlag(c) => Self::toggle_flag(c, tag),
        }
    }

    pub fn transaction(&self) -> (r: UpiuTransaction)
        ensures
            r == self.spec_transaction(),
    {
        UpiuTransaction::from_code(self.header.transaction_code)
    }

    pub fn response(&self) -> (r: UpiuResponse)
        ensures
            r == self.spec_response(),
    {
        UpiuResponse::from_code(self.header.response)
    }

    /// The outcome of a SCSI command read from its response UPIU, with the
    /// overall command status `ocs`. Only a RESPONSE transaction reports a
    /// SCSI status; anything else is an error.
    pub fn scsi_result(&self, ocs: u8) -> (r: UfsScsiResult)
        ensures
            scsi_result_holds(*self, ocs, r),
    {
        let sense_len = read_be16(&self.body, 20) as usize;
        let sense_data_len = if sense_len <= 18 {
            sense_len
        } else {
            18
        };
        let mut sense_data = [0u8; 18];
        let mut i: usize = 0;
        while i < 18
            invariant
                i <= 18,
                forall|j: int| 0 <= j < i ==> sense_data@[j] == self.body@[22 + j],
            decreases 18 - i,
        {
            sense_data[i] = self.body[22 + i];
            i = i + 1;
        }
        assert(sense_data@ =~= self.body@.subrange(22, 40));
        let mut result = UfsScsiResult {
            completion: UfsScsiCompletion::Error,
            ocs,
            transaction: self.header.transaction_code,
            response: self.header.response,
            status: self.header.status,
            residual_transfer_count: read_be32(&self.body, 0),
            sense_data_len,
            sense_data,
        };
        match self.transaction() {
            UpiuTransaction::Response => {},
            _ => return result,
        }
        let status = self.header.status;
        result.completion = if status == SAM_STAT_GOOD {
            UfsScsiCompletion::Good
        } else if status == SAM_STAT_CHECK_CONDITION {
            UfsScsiCompletion::CheckCondition
        } else if status == SAM_STAT_BUSY {
            UfsScsiCompletion::Busy
        } else if status == SAM_STAT_RESERVATION_CONFLICT {
            UfsScsiCompletion::ReservationConflict
        } else if status == SAM_STAT_TASK_SET_FULL {
            UfsScsiCompletion::TaskSetFull
        } else if status == SAM_STAT_TASK_ABORTED {
            UfsScsiCompletion::TaskAborted
        } else {
            UfsScsiCompletion::Error
        };
        result
    }

    /// The answer to device-management command `cmd` read from this
    /// response UPIU: a NOP IN for a NOP, a successful QUERY RESPONSE for a
    /// query, a RESPONSE for an RPMB command; anything else is an I/O error.
    pub fn fetch_dev(&self, cmd: UfsDevCmd) -> (r: Result<UfsDevCmd>)
        ensures
            fetch_dev_holds(*self, cmd, r),
    {
        match cmd {
            UfsDevCmd::Nop => match self.transaction() {
                UpiuTransaction::NopIn => Ok(cmd),
                _ => Err(Error::Io),
            },
            UfsDevCmd::Query(q) => match self.transaction() {
                UpiuTransaction::QueryRsp => match self.response() {
                    UpiuResponse::Success => Ok(UfsDevCmd::Query(self.fetch_query(q))),
                    _ => Err(Error::Io),
                },
                _ => Err(Error::Io),
            },
            UfsDevCmd::Rpmb(c) => match self.transaction() {
                UpiuTransaction::Response => Ok(UfsDevCmd::Rpmb(c)),
                _ => Err(Error::Io),
            },
        }
    }

    fn flag_from_body(&self) -> (r: UfsFlagCmd)
        ensures
            r == flag_response(self.body@),
    {
        UfsFlagCmd {
            idn: FlagIdn::from_code(self.body[1]),
            index: self.body[2],
            selector: self.body[3],
            value: self.body[11],
        }
    }

    fn attr_from_body(&self) -> (r: UfsAttrCmd)
        ensures
            r == attr_response(self.body@),
    {
        UfsAttrCmd {
            idn: AttrIdn::from_code(self.body[1]),
            index: self.body[2],
            selector: self.body[3],
            value: read_be64(&self.body, 4),
        }
    }

    /// The query answer that this QUERY RESPONSE carries for query `cmd`.
    pub fn fetch_query(&self, cmd: UfsQueryCmd) -> (r: UfsQueryCmd)
        ensures
            query_response_holds(r, cmd, self.body@),
    {
        match cmd {
            UfsQueryCmd::ReadDesc(_) => {
                let mut data = [0u8; 255];
                let mut i: usize = 0;
                while i < 255
                    invariant
                        i <= 255,
                        forall|j: int| 0 <= j < i ==> data@[j] == self.body@[20 + j],
                    decreases 255 - i,
                {
                    data[i] = self.body[20 + i];
                    i = i + 1;
                }
                assert(data@ =~= self.body@.subrange(20, 275));
                let idn = self.body[1];
                let buffer = DescBuffer { data };
                let desc = Desc::from_buffer(idn, buffer);
                assert(desc_holds(desc, idn, self.body@.subrange(20, 275)));
                UfsQueryCmd::ReadDesc(
                    UfsDescCmd {
                        idn: DescIdn::from_code(idn),
                        index: self.body[2],
                        selector: self.body[3],
                        length: read_be16(&self.body, 6),
                        desc,
                    },
                )
            },
            UfsQueryCmd::ReadAttr(_) => UfsQueryCmd::ReadAttr(self.attr_from_body()),
            UfsQueryCmd::WriteAttr(_) => UfsQueryCmd::WriteAttr(self.attr_from_body()),
            UfsQueryCmd::ReadFlag(_) => UfsQueryCmd::ReadFlag(self.flag_from_body()),
            UfsQueryCmd::SetFlag(_) => UfsQueryCmd::SetFlag(self.flag_from_body()),
            UfsQueryCmd::ClearFlag(_) => UfsQueryCmd::ClearFlag(self.flag_from_body()),
            UfsQueryCmd::ToggleFlag(_) => UfsQueryCmd::ToggleFlag(self.flag_from_body()),
            _ => cmd,
        }
    }

    /// The 512 bytes of this UPIU as the controller reads them.
    pub fn to_bytes(&self) -> (r: Vec<u8>)
        ensures
            r@ == upiu_bytes(*self),
            r@.len() == UPIU_SIZE,
    {
        let mut out = self.header.to_bytes();
        push_bytes(&mut out, &self.body);
        out
    }

    /// The UPIU stored in 512 bytes.
    pub fn from_bytes(s: &[u8]) -> (r: Upiu)
        requires
            s@.len() == UPIU_SIZE,
        ensures
            r.header == header_of(s@),
            r.body@ == s@.subrange(12, 512),
    {
        let header = UpiuHeader::from_bytes(s);
        let mut body = [0u8; 500];
        let mut i: usize = 0;
        while i < 500
            invariant
                i <= 500,
                s@.len() == 512,
                forall|j: int| 0 <= j < i ==> body@[j] == s@[12 + j],
            decreases 500 - i,
        {
            body[i] = s[12 + i];
            i = i + 1;
        }
        assert(body@ =~= s@.subrange(12, 512));
        Upiu { header, body }
    }
}

/// Reading back the bytes of a UPIU gives the same UPIU.
pub proof fn lemma_upiu_bytes_roundtrip(u: Upiu)
    ensures
        header_of(upiu_bytes(u)) == u.header,
        upiu_bytes(u).subrange(12, 512) == u.body@,
{
    let s = upiu_bytes(u);
    lemma_be16_roundtrip(u.header.data_seg_len);
    assert(s[10] == be16(u.header.data_seg_len)[0]);
    assert(s[11] == be16(u.header.data_seg_len)[1]);
    assert(s.subrange(12, 512) =~= u.body@);
}

/// Writing out a UPIU read from 512 bytes gives the same bytes.
pub proof fn lemma_bytes_upiu_roundtrip(s: Seq<u8>)
    requires
        s.len() == UPIU_SIZE,
    ensures
        header_bytes(header_of(s)) + s.subrange(12, 512) == s,
{
    lemma_be16_bytes_roundtrip(s[10], s[11]);
    assert(header_bytes(header_of(s)) + s.subrange(12, 512) =~= s);
}

} // verus!
