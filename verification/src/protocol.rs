//! UFS device protocol definitions.
use vstd::prelude::*;

use crate::error::{Error, Result};
use self::query::UfsDevCmd;
use self::scsi::UfsSCSICmd;

pub mod query;
pub mod scsi;
pub mod upiu;

verus! {

/// A command for the device: device management or SCSI.
#[derive(Clone, Copy)]
pub enum UfsCmd {
    Device(UfsDevCmd),
    Scsi(UfsSCSICmd),
}

impl UfsCmd {
    pub fn get_device(&self) -> (r: Result<UfsDevCmd>)
        ensures
            match *self {
                UfsCmd::Device(c) => r == Ok::<UfsDevCmd, Error>(c),
                _ => r == Err::<UfsDevCmd, Error>(Error::Invalid),
            },
    {
        match *self {
            UfsCmd::Device(cmd) => Ok(cmd),
            _ => Err(Error::Invalid),
        }
    }
}

} // verus!
