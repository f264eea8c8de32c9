//! SCSI command and completion protocol definitions.
use vstd::prelude::*;

use crate::bytes::{be16, be32, be64, push_be16, push_be32, push_be64, push_zeros, zeros};
use crate::error::{Error, Result};

verus! {

/// Size of the sense data carried in a response UPIU.
pub const UFS_SENSE_SIZE: usize = 18;

#[derive(Clone, Copy, Debug, PartialEq, Eq, Structural)]
pub enum UfsScsiCompletion {
    Good,
    CheckCondition,
    Busy,
    ReservationConflict,
    TaskSetFull,
    TaskAborted,
    Requeue,
    Error,
}

#[derive(Clone, Copy)]
pub struct UfsScsiResult {
    pub completion: UfsScsiCompletion,
    pub ocs: u8,
    pub transaction: u8,
    pub response: u8,
    pub status: u8,
    pub residual_transfer_count: u32,
    pub sense_data_len: usize,
    pub sense_data: [u8; 18],
}

/// Whether `r` carries only a completion kind and an overall command
/// status: no transaction, response, status, residual count or sense data.
pub open spec fn status_only_result(r: UfsScsiResult, completion: UfsScsiCompletion, ocs: u8) -> bool {
    &&& r.completion == completion
    &&& r.ocs == ocs
    &&& r.transaction == 0
    &&& r.response == 0
    &&& r.status == 0
    &&& r.residual_transfer_count == 0
    &&& r.sense_data_len == 0
    &&& r.sense_data@ == zeros(18)
}

impl UfsScsiResult {
    /// A failed completion that carries only the overall command status.
    pub fn error(ocs: u8) -> (r: UfsScsiResult)
        ensures
            r.completion == UfsScsiCompletion::Error,
            r.ocs == ocs,
            r.transaction == 0,
            r.response == 0,
            r.status == 0,
            r.residual_transfer_count == 0,
            r.sense_data_len == 0,
            r.sense_data@ == zeros(18),
    {
        let r = UfsScsiResult {
            completion: UfsScsiCompletion::Error,
            ocs,
            transaction: 0,
            response: 0,
            status: 0,
            residual_transfer_count: 0,
            sense_data_len: 0,
            sense_data: [0u8; 18],
        };
        assert(r.sense_data@ =~= zeros(18));
        r
    }

    /// A completion that asks the block layer to retry the request.
    pub fn requeue(ocs: u8) -> (r: UfsScsiResult)
        ensures
            r.completion == UfsScsiCompletion::Requeue,
            r.ocs == ocs,
            r.transaction == 0,
            r.response == 0,
            r.status == 0,
            r.residual_transfer_count == 0,
            r.sense_data_len == 0,
            r.sense_data@ == zeros(18),
    {
        let mut r = Self::error(ocs);
        r.completion = UfsScsiCompletion::Requeue;
        r
    }
}

pub const READ_10: u8 = 0x28;
pub const WRITE_10: u8 = 0x2a;
pub const SYNCHRONIZE_CACHE: u8 = 0x35;
pub const UNMAP: u8 = 0x42;
pub const READ_16: u8 = 0x88;
pub const WRITE_16: u8 = 0x8a;

/// The parameter list of an UNMAP command with a single block descriptor.
#[derive(Clone, Copy)]
pub struct UfsUnmapParameterList {
    pub lba: u64,
    pub blocks: u32,
}

/// The 24 bytes of an UNMAP parameter list: the header (data length 22,
/// block descriptor data length 16, four reserved bytes) and one block
/// descriptor (LBA, block count, four reserved bytes), all big-endian.
pub open spec fn unmap_parameter_bytes(lba: u64, blocks: u32) -> Seq<u8> {
    be16(22) + be16(16) + zeros(4) + be64(lba) + be32(blocks) + zeros(4)
}

impl UfsUnmapParameterList {
    pub const SIZE: usize = 24;

    /// A parameter list that unmaps `blocks` blocks from `lba`; an empty
    /// range is refused.
    pub fn new(lba: u64, blocks: u32) -> (r: Result<UfsUnmapParameterList>)
        ensures
            blocks == 0 ==> r == Err::<UfsUnmapParameterList, Error>(Error::Invalid),
            blocks != 0 ==> (r matches Ok(p) && p.lba == lba && p.blocks == blocks),
    {
        if blocks == 0 {
            return Err(Error::Invalid);
        }
        Ok(UfsUnmapParameterList { lba, blocks })
    }

    pub fn to_bytes(&self) -> (r: Vec<u8>)
        ensures
            r@ == unmap_parameter_bytes(self.lba, self.blocks),
            r@.len() == Self::SIZE,
    {
        let mut out: Vec<u8> = Vec::new();
        push_be16(&mut out, 22);
        push_be16(&mut out, 16);
        push_zeros(&mut out, 4);
        push_be64(&mut out, self.lba);
        push_be32(&mut out, self.blocks);
        push_zeros(&mut out, 4);
        assert(out@ =~= unmap_parameter_bytes(self.lba, self.blocks));
        out
    }
}

#[derive(Clone, Copy, Debug, PartialEq, Eq, Structural)]
pub enum UfsScsiDataDirection {
    NoData,
    Read,
    Write,
}

/// The fields of SCSI sense data that the driver inspects.
#[derive(Clone, Copy, Debug, PartialEq, Eq, Structural)]
pub struct ScsiSense {
    pub response_code: u8,
    pub sense_key: u8,
    pub asc: u8,
    pub ascq: u8,
    pub additional_len: u8,
}

pub const SCSI_SENSE_UNIT_ATTENTION: u8 = 0x6;
pub const SCSI_ASC_POWER_ON_RESET: u8 = 0x29;
pub const SCSI_ASCQ_POWER_ON_RESET: u8 = 0x00;

impl ScsiSense {
    pub open spec fn spec_is_unit_attention(self) -> bool {
        self.sense_key == SCSI_SENSE_UNIT_ATTENTION
    }

    pub open spec fn spec_is_power_on_reset(self) -> bool {
        self.spec_is_unit_attention() && self.asc == SCSI_ASC_POWER_ON_RESET && self.ascq
            == SCSI_ASCQ_POWER_ON_RESET
    }

    pub fn is_unit_attention(&self) -> (r: bool)
        ensures
            r == self.spec_is_unit_attention(),
    {
        self.sense_key == SCSI_SENSE_UNIT_ATTENTION
    }

    pub fn is_power_on_reset(&self) -> (r: bool)
        ensures
            r == self.spec_is_power_on_reset(),
    {
        self.is_unit_attention() && self.asc == SCSI_ASC_POWER_ON_RESET && self.ascq
            == SCSI_ASCQ_POWER_ON_RESET
    }
}

/// Sense data decoded from the first `len` bytes of `data`: fixed format
/// (response codes 0x70/0x71, at least 14 bytes) or descriptor format
/// (0x72/0x73, at least 4 bytes).
pub open spec fn spec_parse_scsi_sense(data: Seq<u8>, len: int) -> Option<ScsiSense> {
    if len == 0 {
        None
    } else {
        let code = data[0] & 0x7f;
        if (code == 0x70 || code == 0x71) && len >= 14 {
            Some(
                ScsiSense {
                    response_code: code,
                    sense_key: data[2] & 0x0f,
                    asc: data[12],
                    ascq: data[13],
                    additional_len: data[7],
                },
            )
        } else if (code == 0x72 || code == 0x73) && len >= 4 {
            Some(
                ScsiSense {
                    response_code: code,
                    sense_key: data[1] & 0x0f,
                    asc: data[2],
                    ascq: data[3],
                    additional_len: 0,
                },
            )
        } else {
            None
        }
    }
}

/// Decodes the sense data held in the first `len` bytes of `data`.
pub fn parse_scsi_sense(data: &[u8], len: usize) -> (r: Option<ScsiSense>)
    requires
        len <= data@.len(),
    ensures
        r == spec_parse_scsi_sense(data@, len as int),
{
    if len == 0 {
        return None;
    }
    let response_code = data[0] & 0x7f;
    if (response_code == 0x70 || response_code == 0x71) && len >= 14 {
        Some(
            ScsiSense {
                response_code,
                sense_key: data[2] & 0x0f,
                asc: data[12],
                ascq: data[13],
                additional_len: data[7],
            },
        )
    } else if (response_code == 0x72 || response_code == 0x73) && len >= 4 {
        Some(
            ScsiSense {
                response_code,
                sense_key: data[1] & 0x0f,
                asc: data[2],
                ascq: data[3],
                additional_len: 0,
            },
        )
    } else {
        None
    }
}

pub open spec fn sense_key_text(key: u8) -> Seq<char> {
    if key == 0x0 {
        "NO_SENSE"@
    } else if key == 0x1 {
        "RECOVERED_ERROR"@
    } else if key == 0x2 {
        "NOT_READY"@
    } else if key == 0x3 {
        "MEDIUM_ERROR"@
    } else if key == 0x4 {
        "HARDWARE_ERROR"@
    } else if key == 0x5 {
        "ILLEGAL_REQUEST"@
    } else if key == 0x6 {
        "UNIT_ATTENTION"@
    } else if key == 0x7 {
        "DATA_PROTECT"@
    } else if key == 0x8 {
        "BLANK_CHECK"@
    } else if key == 0x9 {
        "VENDOR_SPECIFIC"@
    } else if key == 0xb {
        "ABORTED_COMMAND"@
    } else if key == 0xd {
        "VOLUME_OVERFLOW"@
    } else if key == 0xe {
        "MISCOMPARE"@
    } else {
        "UNKNOWN"@
    }
}

/// The name of a SCSI sense key.
pub fn sense_key_name(key: u8) -> (r: &'static str)
    ensures
        r@ == sense_key_text(key),
{
    if key == 0x0 {
        "NO_SENSE"
    } else if key == 0x1 {
        "RECOVERED_ERROR"
    } else if key == 0x2 {
        "NOT_READY"
    } else if key == 0x3 {
        "MEDIUM_ERROR"
    } else if key == 0x4 {
        "HARDWARE_ERROR"
    } else if key == 0x5 {
        "ILLEGAL_REQUEST"
    } else if key == 0x6 {
        "UNIT_ATTENTION"
    } else if key == 0x7 {
        "DATA_PROTECT"
    } else if key == 0x8 {
        "BLANK_CHECK"
    } else if key == 0x9 {
        "VENDOR_SPECIFIC"
    } else if key == 0xb {
        "ABORTED_COMMAND"
    } else if key == 0xd {
        "VOLUME_OVERFLOW"
    } else if key == 0xe {
        "MISCOMPARE"
    } else {
        "UNKNOWN"
    }
}

/// A SCSI command addressed to one logical unit.
#[derive(Clone, Copy)]
pub struct UfsSCSICmd {
    lun: u8,
    direction: UfsScsiDataDirection,
    data_len: u32,
    cdb: [u8; 16],
    unmap_lba: u64,
    unmap_blocks: u32,
}

/// Whether a transfer can be described by a 10-byte READ/WRITE: the LBA
/// fits in 32 bits and the block count in 16 bits.
pub open spec fn fits_rw10(lba: u64, blocks: u32) -> bool {
    lba <= u32::MAX && blocks <= u16::MAX
}

/// The command descriptor block of a READ or WRITE: READ(10)/WRITE(10) when
/// the transfer fits, else READ(16)/WRITE(16); byte 1 carries FUA (0x08).
pub open spec fn rw_cdb(write: bool, lba: u64, blocks: u32, fua: bool) -> Seq<u8> {
    let flags: u8 = if fua {
        0x8
    } else {
        0
    };
    if fits_rw10(lba, blocks) {
        seq![if write { WRITE_10 } else { READ_10 }, flags] + be32(lba as u32) + seq![0u8] + be16(
            blocks as u16,
        ) + zeros(7)
    } else {
        seq![if write { WRITE_16 } else { READ_16 }, flags] + be64(lba) + be32(blocks) + zeros(2)
    }
}

pub open spec fn flush_cdb() -> Seq<u8> {
    seq![SYNCHRONIZE_CACHE] + zeros(15)
}

/// The command descriptor block of an UNMAP with a 24-byte parameter list.
pub open spec fn unmap_cdb() -> Seq<u8> {
    seq![UNMAP] + zeros(6) + be16(24) + zeros(7)
}

impl UfsSCSICmd {
    pub closed spec fn spec_lun(self) -> u8 {
        self.lun
    }

    pub closed spec fn spec_direction(self) -> UfsScsiDataDirection {
        self.direction
    }

    pub closed spec fn spec_data_len(self) -> u32 {
        self.data_len
    }

    pub closed spec fn spec_cdb(self) -> Seq<u8> {
        self.cdb@
    }

    pub closed spec fn spec_unmap_lba(self) -> u64 {
        self.unmap_lba
    }

    pub closed spec fn spec_unmap_blocks(self) -> u32 {
        self.unmap_blocks
    }

    /// A READ or WRITE of `blocks` blocks at `lba` moving `data_len` bytes.
    pub fn read_write(lun: u8, write: bool, lba: u64, blocks: u32, data_len: u32, fua: bool) -> (r:
        UfsSCSICmd)
        ensures
            r.spec_lun() == lun,
            r.spec_direction() == (if write {
                UfsScsiDataDirection::Write
            } else {
                UfsScsiDataDirection::Read
            }),
            r.spec_data_len() == data_len,
            r.spec_cdb() == rw_cdb(write, lba, blocks, fua),
            r.spec_unmap_lba() == 0,
            r.spec_unmap_blocks() == 0,
    {
        let mut cdb = [0u8; 16];
        let direction = if write {
            UfsScsiDataDirection::Write
        } else {
            UfsScsiDataDirection::Read
        };
        let flags: u8 = if fua {
            0x8
        } else {
            0
        };
        if lba <= 0xffff_ffff && blocks <= 0xffff {
            let lba32 = lba as u32;
            let blocks16 = blocks as u16;
            cdb[0] = if write {
                WRITE_10
            } else {
                READ_10
            };
            cdb[1] = flags;
            cdb[2] = (lba32 >> 24) as u8;
            cdb[3] = (lba32 >> 16) as u8;
            cdb[4] = (lba32 >> 8) as u8;
            cdb[5] = lba32 as u8;
            cdb[7] = (blocks16 >> 8) as u8;
            cdb[8] = blocks16 as u8;
        } else {
            cdb[0] = if write {
                WRITE_16
            } else {
                READ_16
            };
            cdb[1] = flags;
            cdb[2] = (lba >> 56) as u8;
            cdb[3] = (lba >> 48) as u8;
            cdb[4] = (lba >> 40) as u8;
            cdb[5] = (lba >> 32) as u8;
            cdb[6] = (lba >> 24) as u8;
            cdb[7] = (lba >> 16) as u8;
            cdb[8] = (lba >> 8) as u8;
            cdb[9] = lba as u8;
            cdb[10] = (blocks >> 24) as u8;
            cdb[11] = (blocks >> 16) as u8;
            cdb[12] = (blocks >> 8) as u8;
            cdb[13] = blocks as u8;
        }
        assert(cdb@ =~= rw_cdb(write, lba, blocks, fua));
        UfsSCSICmd { lun, direction, data_len, cdb, unmap_lba: 0, unmap_blocks: 0 }
    }

    /// A SYNCHRONIZE CACHE of the whole logical unit.
    pub fn flush(lun: u8) -> (r: UfsSCSICmd)
        ensures
            r.spec_lun() == lun,
            r.spec_direction() == UfsScsiDataDirection::NoData,
            r.spec_data_len() == 0,
            r.spec_cdb() == flush_cdb(),
            r.spec_unmap_lba() == 0,
            r.spec_unmap_blocks() == 0,
    {
        let mut cdb = [0u8; 16];
        cdb[0] = SYNCHRONIZE_CACHE;
        assert(cdb@ =~= flush_cdb());
        UfsSCSICmd {
            lun,
            direction: UfsScsiDataDirection::NoData,
            data_len: 0,
            cdb,
            unmap_lba: 0,
            unmap_blocks: 0,
        }
    }

    /// An UNMAP of `blocks` blocks at `lba`; its parameter list is sent as
    /// data.
    pub fn unmap(lun: u8, lba: u64, blocks: u32) -> (r: UfsSCSICmd)
        ensures
            r.spec_lun() == lun,
            r.spec_direction() == UfsScsiDataDirection::Write,
            r.spec_data_len() == UfsUnmapParameterList::SIZE,
            r.spec_cdb() == unmap_cdb(),
            r.spec_unmap_lba() == lba,
            r.spec_unmap_blocks() == blocks,
    {
        let mut cdb = [0u8; 16];
        let data_len: u32 = 24;
        cdb[0] = UNMAP;
        cdb[7] = 0;
        cdb[8] = 24;
        assert(cdb@ =~= unmap_cdb()) by {
            assert(be16(24) =~= seq![0u8, 24u8]) by {
                assert((24u16 >> 8u16) as u8 == 0u8) by (bit_vector);
                assert(24u16 as u8 == 24u8) by (bit_vector);
            }
        }
        UfsSCSICmd {
            lun,
            direction: UfsScsiDataDirection::Write,
            data_len,
            cdb,
            unmap_lba: lba,
            unmap_blocks: blocks,
        }
    }

    pub fn lun(&self) -> (r: u8)
        ensures
            r == self.spec_lun(),
    {
        self.lun
    }

    pub fn direction(&self) -> (r: UfsScsiDataDirection)
        ensures
            r == self.spec_direction(),
    {
        self.direction
    }

    pub fn data_len(&self) -> (r: u32)
        ensures
            r == self.spec_data_len(),
    {
        self.data_len
    }

    pub fn cdb(&self) -> (r: [u8; 16])
        ensures
            r@ == self.spec_cdb(),
    {
        self.cdb
    }

    pub fn is_unmap(&self) -> (r: bool)
        ensures
            r == (self.spec_cdb()[0] == UNMAP),
    {
        self.cdb[0] == UNMAP
    }

    pub fn unmap_lba(&self) -> (r: u64)
        ensures
            r == self.spec_unmap_lba(),
    {
        self.unmap_lba
    }

    pub fn unmap_blocks(&self) -> (r: u32)
        ensures
            r == self.spec_unmap_blocks(),
    {
        self.unmap_blocks
    }
}

} // verus!
