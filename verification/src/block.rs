//! Block layer status codes that requests are ended with.
use vstd::prelude::*;

use crate::error::Error;

verus! {

/// A block layer status, by name.
#[derive(Clone, Copy, Debug, PartialEq, Eq, Structural)]
pub enum BlkStatus {
    Success,
    NotSupp,
    Timeout,
    NoSpc,
    Transport,
    Target,
    ResvConflict,
    Medium,
    Protection,
    Resource,
    IoErr,
    DmRequeue,
    Again,
    DevResource,
    ZoneOpenResource,
    ZoneActiveResource,
    Offline,
    DurationLimit,
    Inval,
}

/// The error a failed DMA mapping of a request is reported as: a resource
/// shortage is retried later (`Busy`), anything else is an I/O error.
pub fn map_dma_error(status: BlkStatus) -> (r: Error)
    ensures
        r == (if status == BlkStatus::Resource || status == BlkStatus::DevResource {
            Error::Busy
        } else {
            Error::Io
        }),
{
    match status {
        BlkStatus::Resource | BlkStatus::DevResource => Error::Busy,
        _ => Error::Io,
    }
}

/// The error a failed single-buffer DMA mapping is reported as: a mapping
/// failure (`Io`) is a transient shortage, retried later as `Busy`.
pub fn map_single_dma_error(error: Error) -> (r: Error)
    ensures
        r == (if error == Error::Io {
            Error::Busy
        } else {
            error
        }),
{
    match error {
        Error::Io => Error::Busy,
        e => e,
    }
}

} // verus!
