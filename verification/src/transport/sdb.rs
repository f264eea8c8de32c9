//! UFSHCI single doorbell transport: which slots are in flight, and which
//! of them a doorbell reading shows completed.
use vstd::prelude::*;

use super::{bit, sdb_requests, set_bits, CompletedRequests};
use crate::error::{Error, Result};

verus! {

/// Who collects completions: the interrupt handler, or a poller.
#[derive(Clone, Copy, Debug, PartialEq, Eq, Structural)]
pub enum SdbCompletionSource {
    Interrupt,
    Poll,
}

/// The doorbell slots submitted and not yet collected, and which of them
/// are collected by polling.
#[derive(Clone, Copy, Debug, PartialEq, Eq, Structural)]
pub struct SdbCompletionState {
    pub outstanding: u32,
    pub polled: u32,
}

/// The doorbell bit of slot `tag`, if there is such a slot.
pub fn tag_mask(tag: u32) -> (r: Option<u32>)
    ensures
        tag < 32 ==> r == Some(1u32 << tag),
        tag >= 32 ==> r is None,
{
    if tag < 32 {
        Some(1u32 << tag)
    } else {
        None
    }
}

/// The slots that `state` lets `source` collect, given the doorbell
/// register `doorbell`: submitted slots whose doorbell bit the controller
/// has cleared, and which belong to `source`.
pub open spec fn spec_eligible(state: SdbCompletionState, doorbell: u32, source: SdbCompletionSource) -> u32 {
    let completed = !doorbell & state.outstanding;
    match source {
        SdbCompletionSource::Interrupt => completed & !state.polled,
        SdbCompletionSource::Poll => completed & state.polled,
    }
}

impl SdbCompletionState {
    pub fn new() -> (r: SdbCompletionState)
        ensures
            r.outstanding == 0,
            r.polled == 0,
    {
        SdbCompletionState { outstanding: 0, polled: 0 }
    }

    /// Forgets every slot (after a controller reset).
    pub fn reset(&mut self)
        ensures
            final(self).outstanding == 0,
            final(self).polled == 0,
    {
        self.outstanding = 0;
        self.polled = 0;
    }

    /// Checks that slot `tag` exists and is free; gives its doorbell bit.
    pub fn begin_submit(&self, tag: u32) -> (r: Result<u32>)
        ensures
            tag >= 32 ==> r == Err::<u32, Error>(Error::Invalid),
            tag < 32 && self.outstanding & (1u32 << tag) != 0 ==> r == Err::<u32, Error>(
                Error::Busy,
            ),
            tag < 32 && self.outstanding & (1u32 << tag) == 0 ==> r == Ok::<u32, Error>(
                1u32 << tag,
            ),
    {
        let mask = match tag_mask(tag) {
            Some(m) => m,
            None => return Err(Error::Invalid),
        };
        if self.outstanding & mask != 0 {
            return Err(Error::Busy);
        }
        Ok(mask)
    }

    /// Records that the slot with doorbell bit `mask` was published and is
    /// collected by polling when `polled`.
    pub fn commit_submit(&mut self, mask: u32, polled: bool)
        ensures
            final(self).outstanding == old(self).outstanding | mask,
            polled ==> final(self).polled == old(self).polled | mask,
            !polled ==> final(self).polled == old(self).polled & !mask,
    {
        self.outstanding = self.outstanding | mask;
        if polled {
            self.polled = self.polled | mask;
        } else {
            self.polled = self.polled & !mask;
        }
    }

    /// Moves the slots that `source` may collect, as shown by `doorbell`,
    /// into `requests` (lowest slot first, as many as fit) and stops
    /// tracking them. Returns the slots collected.
    pub fn collect(
        &mut self,
        doorbell: u32,
        source: SdbCompletionSource,
        requests: &mut CompletedRequests,
    ) -> (r: Result<u32>)
        requires
            old(requests).wf(),
        ensures
            final(requests).wf(),
            final(requests).taken() == old(requests).taken(),
            final(requests).spec_fault() == old(requests).spec_fault(),
            r matches Ok(collected) && {
                let eligible = spec_eligible(*old(self), doorbell, source);
                &&& collected & !eligible == 0
                &&& collected == eligible || final(requests).spec_is_full()
                &&& forall|a: u32, b: u32|
                    a < 32 && b < 32 && bit(collected, a) && bit(eligible, b) && !bit(collected, b)
                        ==> a < b
                &&& final(requests).collected() == old(requests).collected() + sdb_requests(
                    set_bits(collected),
                )
                &&& final(self).outstanding == old(self).outstanding & !collected
                &&& final(self).polled == old(self).polled & !collected
            },
    {
        let completed = !doorbell & self.outstanding;
        let eligible = match source {
            SdbCompletionSource::Interrupt => completed & !self.polled,
            SdbCompletionSource::Poll => completed & self.polled,
        };
        let collected = requests.insert_sdb_mask(eligible)?;
        self.outstanding = self.outstanding & !collected;
        self.polled = self.polled & !collected;
        Ok(collected)
    }
}

/// A slot is reported at most once per submission: what one collection
/// reports is no longer outstanding, so a later collection (with any
/// doorbell reading and from either source) cannot report it again unless
/// it is submitted anew.
pub proof fn lemma_sdb_reported_once(
    s: SdbCompletionState,
    collected: u32,
    doorbell: u32,
    source: SdbCompletionSource,
)
    requires
        collected & !s.outstanding == 0,
    ensures
        spec_eligible(
            SdbCompletionState { outstanding: s.outstanding & !collected, polled: s.polled & !collected },
            doorbell,
            source,
        ) & collected == 0,
{
    let (o, p) = (s.outstanding, s.polled);
    assert((!doorbell & (o & !collected)) & !(p & !collected) & collected == 0) by (bit_vector);
    assert((!doorbell & (o & !collected)) & (p & !collected) & collected == 0) by (bit_vector);
}

/// The interrupt handler and the poller never collect the same slot.
pub proof fn lemma_sdb_sources_disjoint(s: SdbCompletionState, doorbell: u32)
    ensures
        spec_eligible(s, doorbell, SdbCompletionSource::Interrupt) & spec_eligible(
            s,
            doorbell,
            SdbCompletionSource::Poll,
        ) == 0,
        spec_eligible(s, doorbell, SdbCompletionSource::Interrupt) | spec_eligible(
            s,
            doorbell,
            SdbCompletionSource::Poll,
        ) == !doorbell & s.outstanding,
{
    let (o, p) = (s.outstanding, s.polled);
    assert(((!doorbell & o) & !p) & ((!doorbell & o) & p) == 0) by (bit_vector);
    assert(((!doorbell & o) & !p) | ((!doorbell & o) & p) == !doorbell & o) by (bit_vector);
}

/// Only a submitted slot whose doorbell bit the controller cleared is ever
/// reported complete.
pub proof fn lemma_sdb_reports_only_finished(
    s: SdbCompletionState,
    doorbell: u32,
    source: SdbCompletionSource,
    t: u32,
)
    requires
        t < 32,
        bit(spec_eligible(s, doorbell, source), t),
    ensures
        bit(s.outstanding, t),
        !bit(doorbell, t),
{
    let (o, p) = (s.outstanding, s.polled);
    let e = spec_eligible(s, doorbell, source);
    assert(((((!doorbell & o) & !p) >> t) & 1u32 == 1u32) ==> ((o >> t) & 1u32 == 1u32 && (
    doorbell >> t) & 1u32 != 1u32)) by (bit_vector)
        requires
            t < 32,
    ;
    assert(((((!doorbell & o) & p) >> t) & 1u32 == 1u32) ==> ((o >> t) & 1u32 == 1u32 && (
    doorbell >> t) & 1u32 != 1u32)) by (bit_vector)
        requires
            t < 32,
    ;
}

} // verus!
