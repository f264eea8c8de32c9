//! UFS physical region descriptor tables: how a request's DMA segments are
//! cut into table entries.
use vstd::prelude::*;

use crate::error::{Error, Result};
use crate::hci::descriptor::{PrdEntry, MAX_PRD_ENTRIES};
use crate::protocol::scsi::{UfsSCSICmd, UNMAP};

verus! {

/// The largest data byte count of one table entry.
pub const PRDT_DATA_BYTE_COUNT_MAX: u32 = 0x00040000;
/// Every segment's length is a multiple of this.
pub const PRDT_DATA_BYTE_COUNT_PAD: u32 = 4;

/// The number of entries a segment of `len` bytes is cut into.
pub open spec fn prd_chunk_count(len: u32) -> int {
    (len + PRDT_DATA_BYTE_COUNT_MAX - 1) / (PRDT_DATA_BYTE_COUNT_MAX as int)
}

/// Entry `k` of a segment of `len` bytes at `addr`: the `k`-th run of at
/// most `PRDT_DATA_BYTE_COUNT_MAX` bytes.
pub open spec fn prd_chunk(addr: u64, len: u32, k: int) -> PrdEntry {
    let offset = k * PRDT_DATA_BYTE_COUNT_MAX;
    let length = if len - offset <= PRDT_DATA_BYTE_COUNT_MAX {
        len - offset
    } else {
        PRDT_DATA_BYTE_COUNT_MAX as int
    };
    PrdEntry { addr: (addr + offset) as u64, reserved: 0, size: (length - 1) as u32 }
}

/// The first `n` entries of a segment of `len` bytes at `addr`.
pub open spec fn prd_chunks(addr: u64, len: u32, n: int) -> Seq<PrdEntry> {
    Seq::new(n as nat, |k: int| prd_chunk(addr, len, k))
}

/// The first entry whose address would not fit in 64 bits.
pub open spec fn first_overflowing_chunk(addr: u64) -> int {
    (u64::MAX - addr) / (PRDT_DATA_BYTE_COUNT_MAX as int) + 1
}

/// Where cutting a segment stops short, if it does: the number of entries
/// written before the stop and why. With `used` entries already in the
/// table, the table fills up after `MAX_PRD_ENTRIES - used` more (checked
/// first), and an address overflows at `first_overflowing_chunk`.
pub open spec fn prd_stop(addr: u64, len: u32, used: int) -> Option<(int, Error)> {
    let n = prd_chunk_count(len);
    let full = MAX_PRD_ENTRIES - used;
    let ovf = first_overflowing_chunk(addr);
    if full <= ovf && full < n {
        Some((full, Error::Invalid))
    } else if ovf < full && ovf < n {
        Some((ovf, Error::Overflow))
    } else {
        None
    }
}

/// Appends the entries that describe `segment_length` bytes at
/// `segment_address`, each covering at most `PRDT_DATA_BYTE_COUNT_MAX`
/// bytes. An empty or unaligned segment is refused before anything is
/// written; a full table or an address overflow stops the cut after the
/// entries already written.
pub fn append_entries(entries: &mut Vec<PrdEntry>, segment_address: u64, segment_length: u32) -> (r:
    Result<()>)
    requires
        old(entries)@.len() <= MAX_PRD_ENTRIES,
    ensures
        final(entries)@.len() <= MAX_PRD_ENTRIES,
        segment_length == 0 || segment_length % PRDT_DATA_BYTE_COUNT_PAD != 0 ==> r == Err::<
            (),
            Error,
        >(Error::Invalid) && final(entries)@ == old(entries)@,
        segment_length != 0 && segment_length % PRDT_DATA_BYTE_COUNT_PAD == 0 ==> match prd_stop(
            segment_address,
            segment_length,
            old(entries)@.len() as int,
        ) {
            None => r == Ok::<(), Error>(()) && final(entries)@ == old(entries)@ + prd_chunks(
                segment_address,
                segment_length,
                prd_chunk_count(segment_length),
            ),
            Some((k, e)) => r == Err::<(), Error>(e) && final(entries)@ == old(entries)@
                + prd_chunks(segment_address, segment_length, k),
        },
{
    if segment_length == 0 || segment_length % PRDT_DATA_BYTE_COUNT_PAD != 0 {
        return Err(Error::Invalid);
    }
    let ghost start = entries@;
    let ghost used = start.len() as int;
    let ghost n = prd_chunk_count(segment_length);
    let ghost ovf = first_overflowing_chunk(segment_address);
    let mut segment_offset: u32 = 0;
    let ghost mut k: int = 0;
    proof {
        lemma_chunk_count(segment_length, 0);
    }
    while segment_offset < segment_length
        invariant
            segment_length != 0,
            n == prd_chunk_count(segment_length),
            ovf == first_overflowing_chunk(segment_address),
            used == start.len(),
            start == old(entries)@,
            used <= MAX_PRD_ENTRIES,
            0 <= k,
            segment_length % PRDT_DATA_BYTE_COUNT_PAD == 0,
            segment_offset == (if k * PRDT_DATA_BYTE_COUNT_MAX < segment_length {
                k * PRDT_DATA_BYTE_COUNT_MAX
            } else {
                segment_length as int
            }),
            k <= n,
            k <= MAX_PRD_ENTRIES - used,
            k <= ovf,
            entries@ == start + prd_chunks(segment_address, segment_length, k),
        decreases segment_length - segment_offset,
    {
        proof {
            lemma_chunk_count(segment_length, k);
        }
        if entries.len() == MAX_PRD_ENTRIES {
            assert(k == MAX_PRD_ENTRIES - used);
            return Err(Error::Invalid);
        }
        let remaining = segment_length - segment_offset;
        let length = if PRDT_DATA_BYTE_COUNT_MAX <= remaining {
            PRDT_DATA_BYTE_COUNT_MAX
        } else {
            remaining
        };
        let address = match segment_address.checked_add(segment_offset as u64) {
            Some(a) => a,
            None => {
                proof {
                    let m = PRDT_DATA_BYTE_COUNT_MAX as int;
                    assert(k >= ovf) by (nonlinear_arith)
                        requires
                            segment_address + k * m > u64::MAX,
                            ovf == (u64::MAX - segment_address) / m + 1,
                            m == 0x40000,
                            segment_address <= u64::MAX,
                    ;
                }
                assert(k == ovf);
                return Err(Error::Overflow);
            },
        };
        assert(k < ovf);
        let entry = PrdEntry::new(address, length)?;
        entries.push(entry);
        proof {
            lemma_chunk_count(segment_length, k);
            lemma_chunk_count(segment_length, k + 1);
            assert(entry == prd_chunk(segment_address, segment_length, k));
            assert(entries@ =~= start + prd_chunks(segment_address, segment_length, k + 1));
            k = k + 1;
        }
        segment_offset = segment_offset + length;
    }
    proof {
        lemma_chunk_count(segment_length, k);
    }
    Ok(())
}

/// Entry `k` of a segment exists exactly when it starts inside it.
proof fn lemma_chunk_count(len: u32, k: int)
    requires
        k >= 0,
    ensures
        (k < prd_chunk_count(len)) == (k * PRDT_DATA_BYTE_COUNT_MAX < len),
        k == prd_chunk_count(len) ==> k * PRDT_DATA_BYTE_COUNT_MAX >= len,
{
    let m = PRDT_DATA_BYTE_COUNT_MAX as int;
    let n = prd_chunk_count(len);
    assert(n == (len + m - 1) / m);
    assert((k < n) == (k * m < len as int)) by (nonlinear_arith)
        requires
            n == (len + m - 1) / m,
            m == 0x40000,
            k >= 0,
            len >= 0,
    ;
    assert(k == n ==> k * m >= len as int) by (nonlinear_arith)
        requires
            n == (len + m - 1) / m,
            m == 0x40000,
            k >= 0,
            len >= 0,
    ;
}

/// The data bytes that table entries cover: each entry's size field holds
/// its byte count minus one.
pub open spec fn prd_covered(s: Seq<PrdEntry>) -> int
    decreases s.len(),
{
    if s.len() == 0 {
        0
    } else {
        prd_covered(s.drop_last()) + s.last().size + 1
    }
}

/// What two runs of entries cover together is what each covers.
proof fn lemma_covered_concat(a: Seq<PrdEntry>, b: Seq<PrdEntry>)
    ensures
        prd_covered(a + b) == prd_covered(a) + prd_covered(b),
    decreases b.len(),
{
    if b.len() == 0 {
        assert(a + b =~= a);
    } else {
        lemma_covered_concat(a, b.drop_last());
        assert((a + b).drop_last() =~= a + b.drop_last());
        assert((a + b).last() == b.last());
    }
}

/// The first `k` entries of a segment cover its first `k` runs.
proof fn lemma_chunks_covered(addr: u64, len: u32, k: int)
    requires
        0 <= k <= prd_chunk_count(len),
    ensures
        prd_covered(prd_chunks(addr, len, k)) == (if k * PRDT_DATA_BYTE_COUNT_MAX < len {
            k * PRDT_DATA_BYTE_COUNT_MAX
        } else {
            len as int
        }),
    decreases k,
{
    if k > 0 {
        lemma_chunks_covered(addr, len, k - 1);
        lemma_chunk_count(len, k - 1);
        assert(prd_chunks(addr, len, k).drop_last() =~= prd_chunks(addr, len, k - 1));
        assert(prd_chunks(addr, len, k).last() == prd_chunk(addr, len, k - 1));
    }
}

/// All the entries of a segment cover exactly its bytes.
proof fn lemma_segment_covered(addr: u64, len: u32)
    ensures
        prd_covered(prd_chunks(addr, len, prd_chunk_count(len))) == len,
{
    let n = prd_chunk_count(len);
    assert(n >= 0) by (nonlinear_arith)
        requires
            n == (len + PRDT_DATA_BYTE_COUNT_MAX - 1) / (PRDT_DATA_BYTE_COUNT_MAX as int),
    ;
    lemma_chunk_count(len, n);
    lemma_chunks_covered(addr, len, n);
}

/// The table of a request being mapped, segment by segment: the data bytes
/// still to be covered and the entries written so far.
pub struct UfsPrdtBuilder {
    remaining: u32,
    entries: Vec<PrdEntry>,
    data_len: Ghost<u32>,
}

impl UfsPrdtBuilder {
    pub closed spec fn spec_remaining(&self) -> u32 {
        self.remaining
    }

    pub closed spec fn spec_entries(&self) -> Seq<PrdEntry> {
        self.entries@
    }

    /// The data length the table was made for.
    pub closed spec fn spec_data_len(&self) -> u32 {
        self.data_len@
    }

    /// The table never holds more than `MAX_PRD_ENTRIES` entries.
    pub open spec fn wf(&self) -> bool {
        self.spec_entries().len() <= MAX_PRD_ENTRIES
    }

    /// The entries cover the data bytes that are no longer remaining.
    pub open spec fn spec_covers(&self) -> bool {
        prd_covered(self.spec_entries()) + self.spec_remaining() == self.spec_data_len()
    }

    /// A table for `data_len` bytes of data; nothing is covered yet.
    pub fn new(data_len: u32) -> (r: UfsPrdtBuilder)
        ensures
            r.wf(),
            r.spec_remaining() == data_len,
            r.spec_data_len() == data_len,
            r.spec_entries() == Seq::<PrdEntry>::empty(),
            r.spec_covers(),
    {
        UfsPrdtBuilder { remaining: data_len, entries: Vec::new(), data_len: Ghost(data_len) }
    }

    /// Whether every data byte is covered.
    pub fn is_complete(&self) -> (r: bool)
        ensures
            r == (self.spec_remaining() == 0),
    {
        self.remaining == 0
    }

    /// Covers the next DMA segment. A segment that is empty or longer than
    /// what remains is refused. Returns whether the data is now covered.
    pub fn add_segment(&mut self, segment_address: u64, segment_length: u32) -> (r: Result<bool>)
        requires
            old(self).wf(),
        ensures
            final(self).wf(),
            final(self).spec_data_len() == old(self).spec_data_len(),
            r is Ok ==> prd_covered(final(self).spec_entries()) == prd_covered(
                old(self).spec_entries(),
            ) + segment_length,
            r is Ok && old(self).spec_covers() ==> final(self).spec_covers(),
            segment_length == 0 || segment_length > old(self).spec_remaining() ==> r == Err::<
                bool,
                Error,
            >(Error::Invalid) && *final(self) == *old(self),
            segment_length != 0 && segment_length <= old(self).spec_remaining() ==> {
                if segment_length % PRDT_DATA_BYTE_COUNT_PAD != 0 {
                    r == Err::<bool, Error>(Error::Invalid) && final(self).spec_entries() == old(
                        self,
                    ).spec_entries()
                } else {
                    match prd_stop(
                        segment_address,
                        segment_length,
                        old(self).spec_entries().len() as int,
                    ) {
                        None => r == Ok::<bool, Error>(
                            old(self).spec_remaining() == segment_length,
                        ) && final(self).spec_remaining() == old(self).spec_remaining()
                            - segment_length && final(self).spec_entries() == old(
                            self,
                        ).spec_entries() + prd_chunks(
                            segment_address,
                            segment_length,
                            prd_chunk_count(segment_length),
                        ),
                        Some((k, e)) => r == Err::<bool, Error>(e) && final(self).spec_entries()
                            == old(self).spec_entries() + prd_chunks(
                            segment_address,
                            segment_length,
                            k,
                        ),
                    }
                }
            },
    {
        if segment_length == 0 || segment_length > self.remaining {
            return Err(Error::Invalid);
        }
        let ghost before = self.entries@;
        append_entries(&mut self.entries, segment_address, segment_length)?;
        proof {
            let chunks = prd_chunks(
                segment_address,
                segment_length,
                prd_chunk_count(segment_length),
            );
            lemma_covered_concat(before, chunks);
            lemma_segment_covered(segment_address, segment_length);
        }
        self.remaining = self.remaining - segment_length;
        Ok(self.remaining == 0)
    }

    pub fn entry_count(&self) -> (r: usize)
        ensures
            r == self.spec_entries().len(),
            self.wf() ==> r <= MAX_PRD_ENTRIES,
    {
        self.entries.len()
    }

    /// The entries written, in table order.
    pub fn into_entries(self) -> (r: Vec<PrdEntry>)
        ensures
            r@ == self.spec_entries(),
            self.wf() ==> r@.len() <= MAX_PRD_ENTRIES,
    {
        self.entries
    }
}

/// How the data of a SCSI command reaches the controller.
#[derive(Clone, Copy, Debug, PartialEq, Eq, Structural)]
pub enum MappingKind {
    /// One buffer of the driver's own: the UNMAP parameter list.
    Single,
    /// No data moves.
    NoData,
    /// The request's pages, mapped segment by segment.
    ScatterGather,
}

/// The mapping a SCSI command needs: an UNMAP sends its parameter list
/// from a buffer of its own, a command without data maps nothing, and any
/// other command maps the request's pages.
pub fn mapping_kind(cmd: &UfsSCSICmd) -> (r: MappingKind)
    ensures
        r == (if cmd.spec_cdb()[0] == UNMAP {
            MappingKind::Single
        } else if cmd.spec_data_len() == 0 {
            MappingKind::NoData
        } else {
            MappingKind::ScatterGather
        }),
{
    if cmd.is_unmap() {
        MappingKind::Single
    } else if cmd.data_len() == 0 {
        MappingKind::NoData
    } else {
        MappingKind::ScatterGather
    }
}

/// A table built by `UfsPrdtBuilder::new` and successful `add_segment`
/// calls covers exactly its data length once it is complete: the entries'
/// sizes plus one sum to the data length.
pub proof fn lemma_complete_table_covers_data(b: UfsPrdtBuilder)
    requires
        b.spec_covers(),
        b.spec_remaining() == 0,
    ensures
        prd_covered(b.spec_entries()) == b.spec_data_len(),
{
}

/// The data mapping a prepared request holds: none, a scatter-gather
/// mapping of its data, or the single buffer of an UNMAP parameter list.
#[derive(Clone, Copy, Debug, PartialEq, Eq, Structural)]
pub enum UfsPreparedMapping {
    Unmapped,
    Sg { entries: usize },
    Single,
}

/// A data mapping owned by a command that may be visible to the controller.
#[derive(Clone, Copy, Debug, PartialEq, Eq, Structural)]
pub struct UfsActiveMapping {
    pub mapping: UfsPreparedMapping,
}

/// What became of an active mapping when its command let go of it.
#[derive(Clone, Copy, Debug, PartialEq, Eq, Structural)]
pub enum MappingRelease {
    /// Unmapped and freed.
    Released,
    /// Kept mapped for good: the controller may still access it.
    Leaked,
}

impl UfsPreparedMapping {
    /// Marks the descriptor holding this mapping visible to the controller.
    pub fn publish(self) -> (r: UfsActiveMapping)
        ensures
            r.mapping == self,
    {
        UfsActiveMapping { mapping: self }
    }
}

impl UfsActiveMapping {
    /// Releases the mapping once the controller can no longer access it.
    pub fn complete(self) -> (r: MappingRelease)
        ensures
            r == MappingRelease::Released,
    {
        MappingRelease::Released
    }

    /// Lets go of the mapping without knowing that the controller is done
    /// with it: only an empty mapping is released, any other is leaked so
    /// that the controller never writes into reused memory.
    pub fn abandon(self) -> (r: MappingRelease)
        ensures
            r == (if self.mapping == UfsPreparedMapping::Unmapped {
                MappingRelease::Released
            } else {
                MappingRelease::Leaked
            }),
    {
        match self.mapping {
            UfsPreparedMapping::Unmapped => MappingRelease::Released,
            _ => MappingRelease::Leaked,
        }
    }
}

} // verus!
