//! Logical units: their geometry, the disk limits derived from it, and how
//! a block request becomes a SCSI command.
use vstd::prelude::*;
use vstd::bits::{lemma_u64_low_bits_mask_is_mod, lemma_u64_pow2_no_overflow, lemma_u64_shl_is_mul};

use crate::block::BlkStatus;
use crate::dma::prdt::PRDT_DATA_BYTE_COUNT_MAX;
use crate::error::{Error, Result};
use crate::hci::descriptor::MAX_PRD_ENTRIES;
use crate::bytes::be64_at;
use crate::protocol::query::UnitDesc;
use crate::protocol::scsi::{
    flush_cdb, rw_cdb, unmap_cdb, UfsSCSICmd, UfsScsiDataDirection, UfsUnmapParameterList,
};
use crate::queue::{CompletionDisposition, UfsRequestInner};

verus! {

pub const SECTOR_SIZE: u32 = 512;
pub const MAX_DISCARD_SEGMENTS: u16 = 1;
pub const MAX_SECTORS: u32 = 2048;

/// Whether `x` is a power of two.
pub open spec fn is_power_of_two(x: u32) -> bool {
    exists|k: u32| k < 32 && x == #[trigger] (1u32 << k)
}

fn power_of_two(x: u32) -> (r: bool)
    ensures
        r == is_power_of_two(x),
{
    let mut k: u32 = 0;
    while k < 32
        invariant
            k <= 32,
            forall|j: u32| j < k ==> x != #[trigger] (1u32 << j),
        decreases 32 - k,
    {
        if x == 1u32 << k {
            return true;
        }
        k = k + 1;
    }
    false
}

#[derive(Clone, Copy, Debug, PartialEq, Eq, Structural)]
pub enum UfsLuState {
    Reset,
    Operational,
    Error,
}

/// The block sizes and capacity of a logical unit.
#[derive(Clone, Copy, Debug, PartialEq, Eq, Structural)]
pub struct UfsLuGeometry {
    pub logical_block_size: u32,
    pub physical_block_size: u32,
    pub alignment: u32,
    pub capacity_blocks: u64,
    pub sectors_per_block: u64,
}

/// The geometry of a unit with the given block sizes and capacity: the
/// logical block size must be a power of two of at least one sector; a
/// physical block size, when given (non-zero), must be a multiple of it.
pub open spec fn spec_geometry(
    logical_block_size: u32,
    physical_block_size: u32,
    alignment: u32,
    capacity_blocks: u64,
) -> Result<UfsLuGeometry> {
    if logical_block_size < SECTOR_SIZE || logical_block_size % SECTOR_SIZE != 0
        || !is_power_of_two(logical_block_size) {
        Err(Error::Invalid)
    } else if physical_block_size != 0 && (physical_block_size < logical_block_size
        || physical_block_size % logical_block_size != 0) {
        Err(Error::Invalid)
    } else {
        Ok(
            UfsLuGeometry {
                logical_block_size,
                physical_block_size: if physical_block_size == 0 {
                    logical_block_size
                } else {
                    physical_block_size
                },
                alignment,
                capacity_blocks,
                sectors_per_block: (logical_block_size / SECTOR_SIZE) as u64,
            },
        )
    }
}

impl UfsLuGeometry {
    pub open spec fn wf(self) -> bool {
        &&& self.logical_block_size >= SECTOR_SIZE
        &&& is_power_of_two(self.logical_block_size)
        &&& self.sectors_per_block == self.logical_block_size / SECTOR_SIZE
    }

    /// In a well-formed geometry the sectors per block are a power of two,
    /// so masking with one less than it gives the remainder.
    pub proof fn lemma_block_mask(self, x: u64)
        requires
            self.wf(),
        ensures
            self.sectors_per_block >= 1,
            x & ((self.sectors_per_block - 1) as u64) == x % self.sectors_per_block,
    {
        let k = choose|k: u32| k < 32 && self.logical_block_size == #[trigger] (1u32 << k);
        let lbs = self.logical_block_size;
        assert(9 <= k && (lbs / 512) as u64 == (1u64 << (k - 9) as u64)) by (bit_vector)
            requires
                k < 32,
                lbs == 1u32 << k,
                lbs >= 512,
        ;
        let j = (k - 9) as u64;
        lemma_u64_pow2_no_overflow(j as nat);
        lemma_u64_shl_is_mul(1, j);
        lemma_u64_low_bits_mask_is_mod(x, j as nat);
    }

    pub fn new(
        logical_block_size: u32,
        physical_block_size: u32,
        alignment: u32,
        capacity_blocks: u64,
    ) -> (r: Result<UfsLuGeometry>)
        ensures
            r == spec_geometry(logical_block_size, physical_block_size, alignment, capacity_blocks),
            r matches Ok(g) ==> g.wf(),
    {
        if logical_block_size < SECTOR_SIZE || logical_block_size % SECTOR_SIZE != 0
            || !power_of_two(logical_block_size) {
            return Err(Error::Invalid);
        }
        if physical_block_size != 0 && (physical_block_size < logical_block_size
            || physical_block_size % logical_block_size != 0) {
            return Err(Error::Invalid);
        }
        Ok(
            UfsLuGeometry {
                logical_block_size,
                physical_block_size: if physical_block_size == 0 {
                    logical_block_size
                } else {
                    physical_block_size
                },
                alignment,
                capacity_blocks,
                sectors_per_block: (logical_block_size / SECTOR_SIZE) as u64,
            },
        )
    }

    /// The geometry of a unit of `capacity_blocks` blocks of `2^shift`
    /// bytes; a shift past the width of a block size is invalid.
    pub fn from_logical_block_shift(logical_block_shift: u8, capacity_blocks: u64) -> (r: Result<
        UfsLuGeometry,
    >)
        ensures
            logical_block_shift >= 32 ==> r == Err::<UfsLuGeometry, Error>(Error::Invalid),
            logical_block_shift < 32 ==> r == spec_geometry(
                1u32 << logical_block_shift,
                1u32 << logical_block_shift,
                0,
                capacity_blocks,
            ),
            r matches Ok(g) ==> g.wf(),
    {
        if logical_block_shift >= 32 {
            return Err(Error::Invalid);
        }
        let size = 1u32 << logical_block_shift;
        Self::new(size, size, 0, capacity_blocks)
    }

    pub fn logical_block_size(&self) -> (r: u32)
        ensures
            r == self.logical_block_size,
    {
        self.logical_block_size
    }

    pub fn physical_block_size(&self) -> (r: u32)
        ensures
            r == self.physical_block_size,
    {
        self.physical_block_size
    }

    pub fn alignment(&self) -> (r: u32)
        ensures
            r == self.alignment,
    {
        self.alignment
    }

    pub fn capacity_blocks(&self) -> (r: u64)
        ensures
            r == self.capacity_blocks,
    {
        self.capacity_blocks
    }

    pub fn sectors_per_block(&self) -> (r: u64)
        ensures
            r == self.sectors_per_block,
    {
        self.sectors_per_block
    }

    /// The capacity in sectors, if it fits in 64 bits.
    pub fn capacity_sectors(&self) -> (r: Option<u64>)
        ensures
            self.capacity_blocks * self.sectors_per_block <= u64::MAX ==> r == Some(
                (self.capacity_blocks * self.sectors_per_block) as u64,
            ),
            self.capacity_blocks * self.sectors_per_block > u64::MAX ==> r is None,
    {
        self.capacity_blocks.checked_mul(self.sectors_per_block)
    }

    /// The largest discard, in sectors, that fits in 32 bits and is a whole
    /// number of blocks.
    pub fn max_discard_sectors(&self) -> (r: Result<u32>)
        ensures
            self.sectors_per_block > u32::MAX ==> r == Err::<u32, Error>(Error::Overflow),
            self.sectors_per_block == 0 ==> r == Err::<u32, Error>(Error::Invalid),
            0 < self.sectors_per_block <= u32::MAX ==> r == Ok::<u32, Error>(
                (u32::MAX - u32::MAX % (self.sectors_per_block as u32)) as u32,
            ),
    {
        if self.sectors_per_block > u32::MAX as u64 {
            return Err(Error::Overflow);
        }
        let sectors_per_block = self.sectors_per_block as u32;
        if sectors_per_block == 0 {
            return Err(Error::Invalid);
        }
        let remainder = u32::MAX % sectors_per_block;
        Ok(u32::MAX - remainder)
    }

    pub fn sectors_to_logical(&self, sectors: u64) -> (r: u64)
        requires
            self.wf(),
        ensures
            r == sectors / self.sectors_per_block,
    {
        sectors / self.sectors_per_block
    }

    pub fn logical_to_sectors(&self, blocks: u64) -> (r: Option<u64>)
        ensures
            blocks * self.sectors_per_block <= u64::MAX ==> r == Some(
                (blocks * self.sectors_per_block) as u64,
            ),
            blocks * self.sectors_per_block > u64::MAX ==> r is None,
    {
        blocks.checked_mul(self.sectors_per_block)
    }

    pub fn bytes_to_logical(&self, bytes: u64) -> (r: u64)
        requires
            self.wf(),
        ensures
            r == (bytes / 512) / self.sectors_per_block,
    {
        self.sectors_to_logical(bytes / (SECTOR_SIZE as u64))
    }

    pub fn logical_to_bytes(&self, blocks: u64) -> (r: Option<u64>)
        ensures
            blocks * self.sectors_per_block * 512 <= u64::MAX ==> r == Some(
                (blocks * self.sectors_per_block * 512) as u64,
            ),
            blocks * self.sectors_per_block * 512 > u64::MAX ==> r is None,
    {
        let sectors = self.logical_to_sectors(blocks);
        match sectors {
            Some(s) => {
                proof {
                    assert(blocks * self.sectors_per_block * 512 == s * 512);
                }
                s.checked_mul(SECTOR_SIZE as u64)
            },
            None => {
                proof {
                    assert(blocks * self.sectors_per_block * 512 >= blocks
                        * self.sectors_per_block) by (nonlinear_arith);
                }
                None
            },
        }
    }
}

/// The block layer operations a request can carry.
#[derive(Clone, Copy, Debug, PartialEq, Eq, Structural)]
pub enum BlockCommand {
    Read,
    Write,
    Flush,
    Discard,
    DriverIn,
    DriverOut,
    /// Any other operation.
    Other,
}

/// `c` reads (or writes) `blocks` blocks from `lba` on `lun`, moving
/// `data_len` bytes.
pub open spec fn is_rw_cmd(c: UfsSCSICmd, lun: u8, write: bool, lba: u64, blocks: u32, data_len: u32) -> bool {
    &&& c.spec_lun() == lun
    &&& c.spec_direction() == if write {
        UfsScsiDataDirection::Write
    } else {
        UfsScsiDataDirection::Read
    }
    &&& c.spec_data_len() == data_len
    &&& c.spec_cdb() == rw_cdb(write, lba, blocks, false)
    &&& c.spec_unmap_lba() == 0
    &&& c.spec_unmap_blocks() == 0
}

pub open spec fn is_flush_cmd(c: UfsSCSICmd, lun: u8) -> bool {
    &&& c.spec_lun() == lun
    &&& c.spec_direction() == UfsScsiDataDirection::NoData
    &&& c.spec_data_len() == 0
    &&& c.spec_cdb() == flush_cdb()
    &&& c.spec_unmap_lba() == 0
    &&& c.spec_unmap_blocks() == 0
}

pub open spec fn is_unmap_cmd(c: UfsSCSICmd, lun: u8, lba: u64, blocks: u32) -> bool {
    &&& c.spec_lun() == lun
    &&& c.spec_direction() == UfsScsiDataDirection::Write
    &&& c.spec_data_len() == UfsUnmapParameterList::SIZE
    &&& c.spec_cdb() == unmap_cdb()
    &&& c.spec_unmap_lba() == lba
    &&& c.spec_unmap_blocks() == blocks
}

/// The SCSI command for `command` on unit `lun` of geometry `geometry`,
/// over `blocks` blocks from `lba`: the block count must fit in 32 bits
/// (`Invalid`) and the byte count too (`Overflow`); operations other than
/// read, write, flush and discard are not supported.
pub fn build_scsi_cmd(
    geometry: &UfsLuGeometry,
    lun: u8,
    command: BlockCommand,
    lba: u64,
    blocks: u64,
) -> (r: Result<UfsSCSICmd>)
    ensures
        blocks > u32::MAX ==> r == Err::<UfsSCSICmd, Error>(Error::Invalid),
        blocks <= u32::MAX && geometry.logical_block_size * blocks > u32::MAX ==> r == Err::<
            UfsSCSICmd,
            Error,
        >(Error::Overflow),
        blocks <= u32::MAX && geometry.logical_block_size * blocks <= u32::MAX ==> {
            let data_len = (geometry.logical_block_size * blocks) as u32;
            match command {
                BlockCommand::Read => r matches Ok(c) && is_rw_cmd(
                    c,
                    lun,
                    false,
                    lba,
                    blocks as u32,
                    data_len,
                ),
                BlockCommand::Write => r matches Ok(c) && is_rw_cmd(
                    c,
                    lun,
                    true,
                    lba,
                    blocks as u32,
                    data_len,
                ),
                BlockCommand::Flush => r matches Ok(c) && is_flush_cmd(c, lun),
                BlockCommand::Discard => r matches Ok(c) && is_unmap_cmd(
                    c,
                    lun,
                    lba,
                    blocks as u32,
                ),
                _ => r == Err::<UfsSCSICmd, Error>(Error::NotSupported),
            }
        },
{
    if blocks > u32::MAX as u64 {
        return Err(Error::Invalid);
    }
    let blocks = blocks as u32;
    let lbs = geometry.logical_block_size as u64;
    let n = blocks as u64;
    proof {
        assert(lbs * n <= u32::MAX * u32::MAX) by (nonlinear_arith)
            requires
                lbs <= u32::MAX,
                n <= u32::MAX,
        ;
    }
    let bytes = lbs * n;
    if bytes > u32::MAX as u64 {
        return Err(Error::Overflow);
    }
    let data_len = bytes as u32;
    match command {
        BlockCommand::Read => Ok(UfsSCSICmd::read_write(lun, false, lba, blocks, data_len, false)),
        BlockCommand::Write => Ok(UfsSCSICmd::read_write(lun, true, lba, blocks, data_len, false)),
        BlockCommand::Flush => Ok(UfsSCSICmd::flush(lun)),
        BlockCommand::Discard => Ok(UfsSCSICmd::unmap(lun, lba, blocks)),
        _ => Err(Error::NotSupported),
    }
}

/// The limits a unit's disk is registered with.
#[derive(Clone, Copy, Debug, PartialEq, Eq, Structural)]
pub struct DiskLimits {
    pub logical_block_size: u32,
    pub physical_block_size: u32,
    pub max_hw_discard_sectors: u32,
    pub discard_granularity: u32,
    pub max_discard_segments: u16,
    pub max_hw_sectors: u32,
    pub max_segments: u16,
    pub max_segment_size: u32,
}

/// The disk of a unit: its capacity in sectors and its limits. The
/// capacity must fit in 64 bits.
pub fn disk_limits(geometry: &UfsLuGeometry) -> (r: Result<(u64, DiskLimits)>)
    requires
        geometry.wf(),
    ensures
        geometry.capacity_blocks * geometry.sectors_per_block > u64::MAX ==> r == Err::<
            (u64, DiskLimits),
            Error,
        >(Error::Overflow),
        geometry.capacity_blocks * geometry.sectors_per_block <= u64::MAX ==> r == Ok::<
            (u64, DiskLimits),
            Error,
        >(
            (
                (geometry.capacity_blocks * geometry.sectors_per_block) as u64,
                DiskLimits {
                    logical_block_size: geometry.logical_block_size,
                    physical_block_size: geometry.physical_block_size,
                    max_hw_discard_sectors: (u32::MAX - u32::MAX % (
                    geometry.sectors_per_block as u32)) as u32,
                    discard_granularity: geometry.logical_block_size,
                    max_discard_segments: MAX_DISCARD_SEGMENTS,
                    max_hw_sectors: MAX_SECTORS,
                    max_segments: MAX_PRD_ENTRIES as u16,
                    max_segment_size: PRDT_DATA_BYTE_COUNT_MAX,
                },
            ),
        ),
{
    let capacity = match geometry.capacity_sectors() {
        Some(c) => c,
        None => return Err(Error::Overflow),
    };
    let max_discard = geometry.max_discard_sectors()?;
    Ok(
        (
            capacity,
            DiskLimits {
                logical_block_size: geometry.logical_block_size(),
                physical_block_size: geometry.physical_block_size(),
                max_hw_discard_sectors: max_discard,
                discard_granularity: geometry.logical_block_size(),
                max_discard_segments: MAX_DISCARD_SEGMENTS,
                max_hw_sectors: MAX_SECTORS,
                max_segments: MAX_PRD_ENTRIES as u16,
                max_segment_size: PRDT_DATA_BYTE_COUNT_MAX,
            },
        ),
    )
}

/// A logical unit: its number, geometry, queue depth and state, and
/// whether its disk is registered.
pub struct UfsLu {
    pub lun: u8,
    pub geometry: UfsLuGeometry,
    pub queue_depth: u32,
    pub state: UfsLuState,
    pub has_disk: bool,
}

impl UfsLu {
    pub fn new(lun: u8, geometry: UfsLuGeometry, queue_depth: u32) -> (r: UfsLu)
        ensures
            r.lun == lun,
            r.geometry == geometry,
            r.queue_depth == queue_depth,
            r.state == UfsLuState::Reset,
            !r.has_disk,
    {
        UfsLu { lun, geometry, queue_depth, state: UfsLuState::Reset, has_disk: false }
    }

    /// Registers the unit's disk: refused when its capacity overflows or a
    /// disk is already registered; the unit is then operational.
    pub fn init_disk(&mut self) -> (r: Result<(u64, DiskLimits)>)
        requires
            old(self).geometry.wf(),
        ensures
            final(self).lun == old(self).lun,
            final(self).geometry == old(self).geometry,
            final(self).queue_depth == old(self).queue_depth,
            match disk_limits_spec(old(self).geometry) {
                Err(e) => r == Err::<(u64, DiskLimits), Error>(e) && final(self).state == old(
                    self,
                ).state && final(self).has_disk == old(self).has_disk,
                Ok(d) => if old(self).has_disk {
                    r == Err::<(u64, DiskLimits), Error>(Error::Busy) && final(self).state == old(
                        self,
                    ).state && final(self).has_disk
                } else {
                    r == Ok::<(u64, DiskLimits), Error>(d) && final(self).has_disk
                        && final(self).state == UfsLuState::Operational
                },
            },
    {
        let disk = disk_limits(&self.geometry)?;
        if self.has_disk {
            return Err(Error::Busy);
        }
        self.has_disk = true;
        self.state = UfsLuState::Operational;
        Ok(disk)
    }

    /// Unregisters the disk and resets the unit.
    pub fn remove_disk(&mut self)
        ensures
            final(self).lun == old(self).lun,
            final(self).geometry == old(self).geometry,
            final(self).queue_depth == old(self).queue_depth,
            final(self).state == UfsLuState::Reset,
            !final(self).has_disk,
    {
        self.state = UfsLuState::Reset;
        self.has_disk = false;
    }

    pub fn lun(&self) -> (r: u8)
        ensures
            r == self.lun,
    {
        self.lun
    }

    pub fn geometry(&self) -> (r: UfsLuGeometry)
        ensures
            r == self.geometry,
    {
        self.geometry
    }

    pub fn state(&self) -> (r: UfsLuState)
        ensures
            r == self.state,
    {
        self.state
    }

    pub fn set_state(&mut self, state: UfsLuState)
        ensures
            final(self).state == state,
            final(self).lun == old(self).lun,
            final(self).geometry == old(self).geometry,
            final(self).queue_depth == old(self).queue_depth,
            final(self).has_disk == old(self).has_disk,
    {
        self.state = state;
    }

    pub fn is_operational(&self) -> (r: bool)
        ensures
            r == (self.state == UfsLuState::Operational),
    {
        match self.state {
            UfsLuState::Operational => true,
            _ => false,
        }
    }
}

/// The capacity and limits `disk_limits` gives for `g`.
pub open spec fn disk_limits_spec(g: UfsLuGeometry) -> Result<(u64, DiskLimits)> {
    if g.capacity_blocks * g.sectors_per_block > u64::MAX {
        Err(Error::Overflow)
    } else {
        Ok(
            (
                (g.capacity_blocks * g.sectors_per_block) as u64,
                DiskLimits {
                    logical_block_size: g.logical_block_size,
                    physical_block_size: g.physical_block_size,
                    max_hw_discard_sectors: (u32::MAX - u32::MAX % (g.sectors_per_block as u32)) as u32,
                    discard_granularity: g.logical_block_size,
                    max_discard_segments: MAX_DISCARD_SEGMENTS,
                    max_hw_sectors: MAX_SECTORS,
                    max_segments: MAX_PRD_ENTRIES as u16,
                    max_segment_size: PRDT_DATA_BYTE_COUNT_MAX,
                },
            ),
        )
    }
}

/// What is done with a request the block layer queues.
#[derive(Clone, Copy)]
pub enum QueueRqPlan {
    /// Refuse it with this error.
    Refuse(Error),
    /// Refuse it with this block status.
    RefuseStatus(BlkStatus),
    /// Start it and end it at once with this status.
    End(BlkStatus),
    /// A device management request: compose and submit it.
    Device,
    /// Compose and submit this SCSI command.
    Scsi(UfsSCSICmd),
}

/// The plan for a data request of `sectors` sectors from `sector` on a
/// unit: an empty request ends at once; one past the capacity, or not
/// aligned to whole blocks, ends as invalid; any other becomes the SCSI
/// command over the same blocks.
pub open spec fn spec_data_request_plan(
    lu: (u8, UfsLuGeometry),
    command: BlockCommand,
    sector: u64,
    sectors: u32,
    r: QueueRqPlan,
) -> bool {
    let (lun, g) = lu;
    let spb = g.sectors_per_block;
    if sectors == 0 {
        r == QueueRqPlan::End(BlkStatus::Success)
    } else if sector + sectors > u64::MAX {
        r == QueueRqPlan::Refuse(Error::Invalid)
    } else if g.capacity_blocks * spb > u64::MAX {
        r == QueueRqPlan::Refuse(Error::Overflow)
    } else if sector + sectors > g.capacity_blocks * spb {
        r == QueueRqPlan::End(BlkStatus::Inval)
    } else if sector % spb != 0 || (sectors as u64) % spb != 0 {
        r == QueueRqPlan::End(BlkStatus::Inval)
    } else {
        let lba = sector / spb;
        let blocks = (sectors as u64) / spb;
        let data_len = g.logical_block_size * blocks;
        if data_len > u32::MAX {
            r == QueueRqPlan::Refuse(Error::Overflow)
        } else {
            match command {
                BlockCommand::Read => r matches QueueRqPlan::Scsi(c) && is_rw_cmd(
                    c,
                    lun,
                    false,
                    lba as u64,
                    blocks as u32,
                    data_len as u32,
                ),
                BlockCommand::Write => r matches QueueRqPlan::Scsi(c) && is_rw_cmd(
                    c,
                    lun,
                    true,
                    lba as u64,
                    blocks as u32,
                    data_len as u32,
                ),
                _ => r matches QueueRqPlan::Scsi(c) && is_unmap_cmd(
                    c,
                    lun,
                    lba as u64,
                    blocks as u32,
                ),
            }
        }
    }
}

fn data_request_plan(
    lun: u8,
    geometry: &UfsLuGeometry,
    command: BlockCommand,
    sector: u64,
    sectors: u32,
) -> (r: QueueRqPlan)
    requires
        geometry.wf(),
        command == BlockCommand::Read || command == BlockCommand::Write || command
            == BlockCommand::Discard,
    ensures
        spec_data_request_plan((lun, *geometry), command, sector, sectors, r),
{
    if sectors == 0 {
        return QueueRqPlan::End(BlkStatus::Success);
    }
    let end = match sector.checked_add(sectors as u64) {
        Some(e) => e,
        None => return QueueRqPlan::Refuse(Error::Invalid),
    };
    let capacity = match geometry.capacity_sectors() {
        Some(c) => c,
        None => return QueueRqPlan::Refuse(Error::Overflow),
    };
    if end > capacity {
        return QueueRqPlan::End(BlkStatus::Inval);
    }
    let spb = geometry.sectors_per_block();
    let mask = spb - 1;
    proof {
        geometry.lemma_block_mask(sector);
        geometry.lemma_block_mask(sectors as u64);
    }
    if (sector & mask) != 0 || ((sectors as u64) & mask) != 0 {
        return QueueRqPlan::End(BlkStatus::Inval);
    }
    let lba = geometry.sectors_to_logical(sector);
    let blocks = geometry.sectors_to_logical(sectors as u64);
    proof {
        assert(blocks <= sectors) by (nonlinear_arith)
            requires
                blocks == (sectors as u64) / spb,
                spb >= 1,
        ;
    }
    match build_scsi_cmd(geometry, lun, command, lba, blocks) {
        Ok(c) => QueueRqPlan::Scsi(c),
        Err(e) => QueueRqPlan::Refuse(e),
    }
}

/// The opcode of a read or write command block: READ(10) or WRITE(10)
/// where the address and length fit, READ(16) or WRITE(16) otherwise.
proof fn lemma_rw_opcode(write: bool, lba: u64, blocks: u32, fua: bool)
    ensures
        write ==> rw_cdb(write, lba, blocks, fua)[0] == 0x2a || rw_cdb(write, lba, blocks, fua)[0]
            == 0x8a,
        !write ==> rw_cdb(write, lba, blocks, fua)[0] == 0x28 || rw_cdb(write, lba, blocks, fua)[0]
            == 0x88,
{
}

/// A planned data request moves data the way the block layer asked: a
/// write goes out as WRITE(10) or WRITE(16) with data from host to device,
/// a read as READ(10) or READ(16) with data from device to host, a discard
/// as UNMAP; and the command moves exactly the requested blocks' bytes.
pub proof fn lemma_data_plan_direction(
    lu: (u8, UfsLuGeometry),
    command: BlockCommand,
    sector: u64,
    sectors: u32,
    r: QueueRqPlan,
)
    requires
        lu.1.wf(),
        command == BlockCommand::Read || command == BlockCommand::Write || command
            == BlockCommand::Discard,
        spec_data_request_plan(lu, command, sector, sectors, r),
    ensures
        command == BlockCommand::Write ==> (r matches QueueRqPlan::Scsi(c) ==> (c.spec_direction()
            == UfsScsiDataDirection::Write && (c.spec_cdb()[0] == 0x2a || c.spec_cdb()[0] == 0x8a))),
        command == BlockCommand::Read ==> (r matches QueueRqPlan::Scsi(c) ==> (c.spec_direction()
            == UfsScsiDataDirection::Read && (c.spec_cdb()[0] == 0x28 || c.spec_cdb()[0] == 0x88))),
        command == BlockCommand::Discard ==> (r matches QueueRqPlan::Scsi(c) ==> c.spec_cdb()[0]
            == 0x42),
        command != BlockCommand::Discard ==> (r matches QueueRqPlan::Scsi(c) ==> c.spec_data_len()
            == lu.1.logical_block_size * ((sectors as u64) / lu.1.sectors_per_block)),
{
    let g = lu.1;
    let spb = g.sectors_per_block;
    if sectors != 0 && sector + sectors <= u64::MAX && g.capacity_blocks * spb <= u64::MAX
        && sector + sectors <= g.capacity_blocks * spb && sector % spb == 0 && (sectors as u64)
        % spb == 0 {
        let lba = sector / spb;
        let blocks = (sectors as u64) / spb;
        lemma_rw_opcode(command == BlockCommand::Write, lba as u64, blocks as u32, false);
        if command == BlockCommand::Discard {
            assert(unmap_cdb()[0] == 0x42);
        }
    }
}

/// The plan for a request carrying `command` over `sectors` sectors from
/// `sector`, queued on a unit (`lu`: its number and geometry) or on the
/// device management queue (`lu` is `None`). Data requests and flushes
/// need a unit; device management requests are submitted as they come;
/// other operations are not supported.
pub fn queue_rq_plan(lu: Option<(u8, UfsLuGeometry)>, command: BlockCommand, sector: u64, sectors: u32) -> (r:
    QueueRqPlan)
    requires
        lu matches Some((_, g)) ==> g.wf(),
    ensures
        (lu is Some && r is Scsi) ==> (r matches QueueRqPlan::Scsi(c) && {
            &&& command == BlockCommand::Write ==> c.spec_direction()
                == UfsScsiDataDirection::Write && (c.spec_cdb()[0] == 0x2a || c.spec_cdb()[0]
                == 0x8a)
            &&& command == BlockCommand::Read ==> c.spec_direction() == UfsScsiDataDirection::Read
                && (c.spec_cdb()[0] == 0x28 || c.spec_cdb()[0] == 0x88)
            &&& command == BlockCommand::Discard ==> c.spec_cdb()[0] == 0x42
            &&& command == BlockCommand::Flush ==> c.spec_direction()
                == UfsScsiDataDirection::NoData && c.spec_cdb()[0] == 0x35
        }),
        (lu matches Some((_, g)) && (command == BlockCommand::Read || command == BlockCommand::Write)
            && sectors > 0 && g.capacity_blocks * g.sectors_per_block <= u64::MAX && sector
            + sectors <= g.capacity_blocks * g.sectors_per_block && sector % g.sectors_per_block
            == 0 && (sectors as u64) % g.sectors_per_block == 0 && g.logical_block_size * ((sectors
            as u64) / g.sectors_per_block) <= u32::MAX) ==> (r matches QueueRqPlan::Scsi(c)
            && c.spec_data_len() == lu.unwrap().1.logical_block_size * ((sectors
            as u64) / lu.unwrap().1.sectors_per_block)),
        match command {
            BlockCommand::Read | BlockCommand::Write | BlockCommand::Discard => match lu {
                None => r == QueueRqPlan::RefuseStatus(BlkStatus::IoErr),
                Some(l) => spec_data_request_plan(l, command, sector, sectors, r),
            },
            BlockCommand::Flush => match lu {
                None => r == QueueRqPlan::RefuseStatus(BlkStatus::IoErr),
                Some((lun, _)) => r matches QueueRqPlan::Scsi(c) && is_flush_cmd(c, lun),
            },
            BlockCommand::DriverIn | BlockCommand::DriverOut => r == QueueRqPlan::Device,
            BlockCommand::Other => r == QueueRqPlan::End(BlkStatus::NotSupp),
        },
{
    match command {
        BlockCommand::Read | BlockCommand::Write | BlockCommand::Discard => match lu {
            None => QueueRqPlan::RefuseStatus(BlkStatus::IoErr),
            Some((lun, g)) => {
                let r = data_request_plan(lun, &g, command, sector, sectors);
                proof {
                    lemma_data_plan_direction((lun, g), command, sector, sectors, r);
                }
                r
            },
        },
        BlockCommand::Flush => match lu {
            None => QueueRqPlan::RefuseStatus(BlkStatus::IoErr),
            Some((lun, g)) => {
                proof {
                    assert(flush_cdb()[0] == 0x35);
                }
                match build_scsi_cmd(&g, lun, command, 0, 0) {
                    Ok(c) => QueueRqPlan::Scsi(c),
                    Err(e) => QueueRqPlan::Refuse(e),
                }
            },
        },
        BlockCommand::DriverIn | BlockCommand::DriverOut => QueueRqPlan::Device,
        BlockCommand::Other => QueueRqPlan::End(BlkStatus::NotSupp),
    }
}

/// Hands back a request that never reached the controller: the request is
/// reset, and retried when the failure was a passing shortage (`Busy`),
/// ended with an I/O error otherwise.
pub fn complete_unsubmitted(inner: &mut UfsRequestInner, e: Error) -> (r: CompletionDisposition)
    ensures
        final(inner)@ is Idle,
        r == (if e == Error::Busy {
            CompletionDisposition::Requeue
        } else {
            CompletionDisposition::End(BlkStatus::IoErr)
        }),
{
    inner.reset();
    match e {
        Error::Busy => CompletionDisposition::Requeue,
        _ => CompletionDisposition::End(BlkStatus::IoErr),
    }
}

/// The disposition the block layer's completion path finds on a request,
/// and the reason to recover when the request had none scheduled (it is
/// then reset and ended with an I/O error).
pub fn scheduled_completion(inner: &mut UfsRequestInner) -> (r: (
    CompletionDisposition,
    Option<&'static str>,
))
    ensures
        match old(inner)@ {
            crate::queue::UfsRequestState::CompletionReady(d) => r == (
                d,
                None::<&'static str>,
            ) && final(inner)@ is Idle,
            _ => r == (
                CompletionDisposition::End(BlkStatus::IoErr),
                Some("invalid scheduled completion state"),
            ) && final(inner)@ is Idle,
        },
{
    match inner.take_scheduled_completion() {
        Ok(d) => (d, None),
        Err(_) => {
            inner.reset();
            (CompletionDisposition::End(BlkStatus::IoErr), Some("invalid scheduled completion state"))
        },
    }
}

/// The queue depth of a unit: its own when it reports one, at most the
/// tag set's depth; the tag set's depth when it reports none.
pub fn lu_queue_depth(lu_depth: usize, tag_depth: u32) -> (r: u32)
    ensures
        r == (if lu_depth == 0 {
            tag_depth
        } else if (lu_depth as u32) < tag_depth {
            lu_depth as u32
        } else {
            tag_depth
        }),
{
    if lu_depth == 0 {
        tag_depth
    } else {
        let d = lu_depth as u32;
        if d < tag_depth {
            d
        } else {
            tag_depth
        }
    }
}

/// What to build for unit descriptor `desc`, on a tag set of depth
/// `tag_depth`: nothing for a disabled unit, else its geometry and queue
/// depth.
pub fn lu_plan(desc: &UnitDesc, tag_depth: u32) -> (r: Result<Option<(UfsLuGeometry, u32)>>)
    ensures
        !desc.spec_enabled() ==> r == Ok::<Option<(UfsLuGeometry, u32)>, Error>(None),
        desc.spec_enabled() ==> {
            let shift = desc.bytes()[10];
            let count = be64_at(desc.bytes(), 11);
            let depth = desc.bytes()[6] as usize;
            let g = if shift >= 32 {
                Err(Error::Invalid)
            } else {
                spec_geometry(1u32 << shift, 1u32 << shift, 0, count)
            };
            match g {
                Err(e) => r == Err::<Option<(UfsLuGeometry, u32)>, Error>(e),
                Ok(g) => r == Ok::<Option<(UfsLuGeometry, u32)>, Error>(
                    Some(
                        (
                            g,
                            if depth == 0 {
                                tag_depth
                            } else if (depth as u32) < tag_depth {
                                depth as u32
                            } else {
                                tag_depth
                            },
                        ),
                    ),
                ),
            }
        },
        r matches Ok(Some((g, _))) ==> g.wf(),
{
    if !desc.enabled() {
        return Ok(None);
    }
    let geometry = UfsLuGeometry::from_logical_block_shift(
        desc.logical_block_shift(),
        desc.logical_block_count(),
    )?;
    let depth = lu_queue_depth(desc.lu_queue_depth(), tag_depth);
    Ok(Some((geometry, depth)))
}

} // verus!
