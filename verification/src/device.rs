//! The UFS device behind the controller: what its descriptors tell, and
//! how the answers to device management commands are read.
use vstd::prelude::*;

use crate::error::{Error, Result};
use crate::protocol::query::{Desc, DeviceDesc, GeometryDesc, UfsDevCmd, UfsQueryCmd};
use crate::protocol::UfsCmd;

verus! {

pub const FDEVICE_COMPL_TIMEOUT_MS: u64 = 1500;
pub const FDEVICE_COMPL_TICK_US: u64 = 500;

/// The query a device management answer carries, if it carries one.
pub open spec fn spec_query_answer(answer: UfsCmd) -> Result<UfsQueryCmd> {
    match answer {
        UfsCmd::Device(UfsDevCmd::Query(q)) => Ok(q),
        _ => Err(Error::Invalid),
    }
}

pub fn query_answer(answer: &UfsCmd) -> (r: Result<UfsQueryCmd>)
    ensures
        r == spec_query_answer(*answer),
{
    let dev = answer.get_device()?;
    dev.get_query()
}

/// The descriptor a read-descriptor answer carries.
pub fn read_desc_answer(answer: &UfsCmd) -> (r: Result<Desc>)
    ensures
        r == (match spec_query_answer(*answer) {
            Ok(UfsQueryCmd::ReadDesc(c)) => Ok::<Desc, Error>(c.desc),
            _ => Err::<Desc, Error>(Error::Invalid),
        }),
{
    let q = query_answer(answer)?;
    let d = q.get_read_desc()?;
    Ok(d.desc)
}

/// The attribute value an attribute answer carries.
pub fn attr_answer(answer: &UfsCmd) -> (r: Result<u64>)
    ensures
        r == (match spec_query_answer(*answer) {
            Ok(UfsQueryCmd::ReadAttr(c)) => Ok::<u64, Error>(c.value),
            Ok(UfsQueryCmd::WriteAttr(c)) => Ok::<u64, Error>(c.value),
            _ => Err::<u64, Error>(Error::Invalid),
        }),
{
    let q = query_answer(answer)?;
    q.get_attr_value()
}

/// Whether an attribute write took: the answer must carry the value
/// written, else the write failed (`Io`).
pub fn write_attr_answer(answer: &UfsCmd, value: u64) -> (r: Result<()>)
    ensures
        r == (match spec_query_answer(*answer) {
            Ok(UfsQueryCmd::ReadAttr(c)) => if c.value == value {
                Ok::<(), Error>(())
            } else {
                Err::<(), Error>(Error::Io)
            },
            Ok(UfsQueryCmd::WriteAttr(c)) => if c.value == value {
                Ok::<(), Error>(())
            } else {
                Err::<(), Error>(Error::Io)
            },
            _ => Err::<(), Error>(Error::Invalid),
        }),
{
    if attr_answer(answer)? == value {
        Ok(())
    } else {
        Err(Error::Io)
    }
}

/// The flag value a flag answer carries.
pub fn flag_answer(answer: &UfsCmd) -> (r: Result<u8>)
    ensures
        r == (match spec_query_answer(*answer) {
            Ok(UfsQueryCmd::ReadFlag(c)) => Ok::<u8, Error>(c.value),
            Ok(UfsQueryCmd::SetFlag(c)) => Ok::<u8, Error>(c.value),
            Ok(UfsQueryCmd::ClearFlag(c)) => Ok::<u8, Error>(c.value),
            Ok(UfsQueryCmd::ToggleFlag(c)) => Ok::<u8, Error>(c.value),
            _ => Err::<u8, Error>(Error::Invalid),
        }),
{
    let q = query_answer(answer)?;
    q.get_flag_value()
}

/// The outcome of waiting for the device to clear `fDeviceInit`: a wait
/// that timed out means the device is still busy initialising.
pub fn dev_init_result(wait: Result<u8>) -> (r: Result<()>)
    ensures
        r == (match wait {
            Ok(_) => Ok::<(), Error>(()),
            Err(Error::TimedOut) => Err::<(), Error>(Error::Busy),
            Err(e) => Err::<(), Error>(e),
        }),
{
    match wait {
        Ok(_) => Ok(()),
        Err(Error::TimedOut) => Err(Error::Busy),
        Err(e) => Err(e),
    }
}

/// What the device's descriptors tell.
#[derive(Clone, Copy, Debug, PartialEq, Eq, Structural)]
pub struct UfsDevInfo {
    pub max_lu: usize,
    pub num_lu: usize,
    pub num_wlu: usize,
    pub manufacturer_id: u16,
    pub spec_version: u16,
    pub queue_depth: usize,
    pub rtt_cap: u8,
    pub luns_avail: usize,
}

impl Default for UfsDevInfo {
    fn default() -> (r: UfsDevInfo)
        ensures
            r == (UfsDevInfo {
                max_lu: 0,
                num_lu: 0,
                num_wlu: 0,
                manufacturer_id: 0,
                spec_version: 0,
                queue_depth: 0,
                rtt_cap: 0,
                luns_avail: 0,
            }),
    {
        UfsDevInfo {
            max_lu: 0,
            num_lu: 0,
            num_wlu: 0,
            manufacturer_id: 0,
            spec_version: 0,
            queue_depth: 0,
            rtt_cap: 0,
            luns_avail: 0,
        }
    }
}

impl UfsDevInfo {
    /// Takes the geometry descriptor: a device that reports a maximum
    /// number of units of 1 has 32 units, any other 8.
    pub fn apply_geometry(&mut self, desc: &GeometryDesc)
        ensures
            *final(self) == (UfsDevInfo {
                max_lu: if desc.bytes()[12] == 1 {
                    32usize
                } else {
                    8usize
                },
                ..*old(self)
            }),
    {
        if desc.max_number_lu() == 1 {
            self.max_lu = 32;
        } else {
            self.max_lu = 8;
        }
    }

    /// Takes the device descriptor. The units and well-known units it
    /// reports must count at most 255 together.
    pub fn apply_device(&mut self, desc: &DeviceDesc)
        requires
            desc.bytes()[6] + desc.bytes()[7] <= u8::MAX,
        ensures
            *final(self) == (UfsDevInfo {
                manufacturer_id: crate::bytes::be16_at(desc.bytes(), 24),
                spec_version: crate::bytes::be16_at(desc.bytes(), 16),
                queue_depth: desc.bytes()[33] as usize,
                rtt_cap: desc.bytes()[28],
                num_lu: desc.bytes()[6] as usize,
                num_wlu: desc.bytes()[7] as usize,
                luns_avail: (desc.bytes()[6] + desc.bytes()[7]) as usize,
                ..*old(self)
            }),
    {
        self.manufacturer_id = desc.manufacturer_id();
        self.spec_version = desc.spec_version();
        self.queue_depth = desc.queue_depth();
        self.rtt_cap = desc.device_rtt_cap();
        let number_lu = desc.number_lu();
        let number_wlu = desc.number_wlu();
        self.num_lu = number_lu as usize;
        self.num_wlu = number_wlu as usize;
        self.luns_avail = (number_lu + number_wlu) as usize;
    }

    pub fn num_lu(&self) -> (r: usize)
        ensures
            r == self.num_lu,
    {
        self.num_lu
    }
}

} // verus!
