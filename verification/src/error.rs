use vstd::prelude::*;

verus! {

/// Errors reported by the driver, one per kernel error number it uses.
#[derive(Clone, Copy, Debug, PartialEq, Eq, Structural)]
pub enum Error {
    /// `EINVAL`
    Invalid,
    /// `EIO`
    Io,
    /// `EBUSY`
    Busy,
    /// `ENOMEM`
    NoMemory,
    /// `EOVERFLOW`
    Overflow,
    /// `ENOTSUPP`
    NotSupported,
    /// `ENODEV`
    NoDevice,
    /// `ETIMEDOUT`
    TimedOut,
    /// `ERANGE`
    Range,
}

pub type Result<T> = core::result::Result<T, Error>;

pub open spec fn errno_of(e: Error) -> int {
    match e {
        Error::Invalid => -22,
        Error::Io => -5,
        Error::Busy => -16,
        Error::NoMemory => -12,
        Error::Overflow => -75,
        Error::NotSupported => -524,
        Error::NoDevice => -19,
        Error::TimedOut => -110,
        Error::Range => -34,
    }
}

impl Error {
    /// The negative kernel error number of this error.
    pub fn to_errno(self) -> (r: i32)
        ensures
            r == errno_of(self),
    {
        match self {
            Error::Invalid => -22,
            Error::Io => -5,
            Error::Busy => -16,
            Error::NoMemory => -12,
            Error::Overflow => -75,
            Error::NotSupported => -524,
            Error::NoDevice => -19,
            Error::TimedOut => -110,
            Error::Range => -34,
        }
    }
}

} // verus!
