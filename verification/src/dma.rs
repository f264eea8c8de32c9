//! The driver's DMA memory: where each slot's descriptors live, what is
//! written into them to issue a command, and how a completion is read back.
use vstd::prelude::*;

use crate::error::{Error, Result};
use crate::hci::descriptor::{
    ocs_result, check_ocs, scsi_direction_field, CqEntry, UtpOcs, Utrd, UCD_SIZE, UTRD_SIZE,
    UTP_CMD_TYPE_UFS_STORAGE, zero_utrd,
};
use crate::protocol::query::UfsDevCmd;
use crate::protocol::scsi::{status_only_result, UfsSCSICmd, UfsScsiCompletion, UfsScsiResult};
use crate::protocol::upiu::{
    fetch_dev_holds, is_command_upiu, is_device_upiu, nop_body, scsi_result_holds, zero_header, Upiu,
};
use crate::protocol::UfsCmd;

pub mod prdt;

verus! {

/// The addresses of the DMA areas: one command descriptor and one transfer
/// request descriptor per slot, and the task management list.
#[derive(Clone, Copy, Debug, PartialEq, Eq, Structural)]
pub struct UfsDmaLayout {
    pub transfer_slots: usize,
    pub ucdl_base: u64,
    pub utrdl_base: u64,
    pub utmrdl_base: u64,
}

/// What is written to a slot to issue a command: the command UPIU, an
/// empty response UPIU and the transfer request descriptor.
#[derive(Clone, Copy)]
pub struct ComposedRequest {
    pub cmd_upiu: Upiu,
    pub rsp_upiu: Upiu,
    pub utrd: Utrd,
}

impl UfsDmaLayout {
    pub open spec fn wf(self) -> bool {
        &&& self.transfer_slots > 0
        &&& self.ucdl_base + self.transfer_slots * UCD_SIZE <= u64::MAX
        &&& self.utrdl_base + self.transfer_slots * UTRD_SIZE <= u64::MAX
    }

    /// The command descriptor address of slot `tag`.
    pub open spec fn spec_ucd_address(self, tag: int) -> u64 {
        (self.ucdl_base + tag * UCD_SIZE) as u64
    }

    /// The layout of areas allocated for `transfer_slots` slots; there must
    /// be at least one.
    pub fn new(transfer_slots: usize, ucdl_base: u64, utrdl_base: u64, utmrdl_base: u64) -> (r:
        Result<UfsDmaLayout>)
        requires
            ucdl_base + transfer_slots * UCD_SIZE <= u64::MAX,
            utrdl_base + transfer_slots * UTRD_SIZE <= u64::MAX,
        ensures
            transfer_slots == 0 ==> r == Err::<UfsDmaLayout, Error>(Error::Invalid),
            transfer_slots != 0 ==> r == Ok::<UfsDmaLayout, Error>(
                UfsDmaLayout { transfer_slots, ucdl_base, utrdl_base, utmrdl_base },
            ),
            r matches Ok(l) ==> l.wf(),
    {
        if transfer_slots == 0 {
            return Err(Error::Invalid);
        }
        Ok(UfsDmaLayout { transfer_slots, ucdl_base, utrdl_base, utmrdl_base })
    }

    pub fn transfer_slots(&self) -> (r: usize)
        ensures
            r == self.transfer_slots,
    {
        self.transfer_slots
    }

    /// The bus address of slot `tag`'s command descriptor.
    pub fn ucd_address(&self, tag: usize) -> (r: u64)
        requires
            self.wf(),
            tag < self.transfer_slots,
        ensures
            r == self.spec_ucd_address(tag as int),
    {
        proof {
            vstd::arithmetic::mul::lemma_mul_inequality(
                tag as int,
                self.transfer_slots as int,
                UCD_SIZE as int,
            );
        }
        self.ucdl_base + (tag as u64) * (UCD_SIZE as u64)
    }

    /// The transfer request descriptor that slot `tag` starts with: zeroed
    /// and pointing at its command descriptor.
    pub fn initial_utrd(&self, tag: usize) -> (r: Utrd)
        requires
            self.wf(),
            tag < self.transfer_slots,
        ensures
            r == (Utrd {
                command_desc_base_addr: self.spec_ucd_address(tag as int),
                rsp_upiu_length: 128,
                rsp_upiu_offset: 128,
                prd_table_offset: 256,
                ..zero_utrd()
            }),
    {
        Utrd::zeroed().set_command_descriptor(self.ucd_address(tag))
    }

    /// Checks a completion queue entry reported on queue `queue_id`: its tag
    /// must name a slot, it must come from that queue, and it must point at
    /// the slot's command descriptor.
    pub fn validate_cq_entry(&self, cqe: &CqEntry, queue_id: u32) -> (r: Result<()>)
        requires
            self.wf(),
        ensures
            cqe.task_tag >= self.transfer_slots ==> r == Err::<(), Error>(Error::Invalid),
            cqe.task_tag < self.transfer_slots && cqe.spec_submission_queue_id() != queue_id
                ==> r == Err::<(), Error>(Error::Invalid),
            cqe.task_tag < self.transfer_slots && cqe.spec_submission_queue_id() == queue_id
                ==> r == (if cqe.spec_matches_ucd_base_addr(
                self.spec_ucd_address(cqe.task_tag as int),
            ) {
                Ok::<(), Error>(())
            } else {
                Err::<(), Error>(Error::Io)
            }),
    {
        let tag = cqe.task_tag() as usize;
        if tag >= self.transfer_slots {
            return Err(Error::Invalid);
        }
        if cqe.submission_queue_id() as u32 != queue_id {
            return Err(Error::Invalid);
        }
        let expected = self.ucd_address(tag);
        if !cqe.matches_ucd_base_addr(expected) {
            return Err(Error::Io);
        }
        Ok(())
    }

    /// What to write to slot `tag` to issue device-management command `cmd`,
    /// given the slot's current transfer request descriptor.
    pub fn compose_devman(&self, cmd: UfsDevCmd, tag: u32, current: Utrd) -> (r: Result<
        ComposedRequest,
    >)
        ensures
            tag >= self.transfer_slots ==> r == Err::<ComposedRequest, Error>(Error::Invalid),
            tag < self.transfer_slots ==> (r matches Ok(c) && is_device_upiu(
                c.cmd_upiu,
                cmd,
                tag as usize,
            ) && c.rsp_upiu.header == zero_header() && c.rsp_upiu.body@ == nop_body() && c.utrd
                == current.build_spec(UfsCmd::Device(cmd))),
    {
        let tag = tag as usize;
        if tag >= self.transfer_slots {
            return Err(Error::Invalid);
        }
        Ok(
            ComposedRequest {
                cmd_upiu: Upiu::device(cmd, tag),
                rsp_upiu: Upiu::zeroed(),
                utrd: current.build(UfsCmd::Device(cmd)),
            },
        )
    }

    /// What to write to slot `tag` to issue SCSI command `cmd` whose data
    /// is described by `prd_entries` table entries.
    pub fn compose_scsi(&self, cmd: UfsSCSICmd, tag: u8, current: Utrd, prd_entries: usize) -> (r:
        Result<ComposedRequest>)
        ensures
            tag >= self.transfer_slots ==> r == Err::<ComposedRequest, Error>(Error::Invalid),
            tag < self.transfer_slots && prd_entries > u16::MAX ==> r == Err::<
                ComposedRequest,
                Error,
            >(Error::Invalid),
            tag < self.transfer_slots && prd_entries <= u16::MAX ==> (r matches Ok(c) && is_command_upiu(c.cmd_upiu, cmd, tag as usize) && c.rsp_upiu.header == zero_header()
                && c.rsp_upiu.body@ == nop_body() && c.utrd == (Utrd {
                prd_table_length: prd_entries as u16,
                ..current.build_spec(UfsCmd::Scsi(cmd))
            })),
            r matches Ok(c) ==> (c.utrd.header.ctrl >> 1u8) & 3u8 == scsi_direction_field(
                cmd.spec_direction(),
            ) && c.utrd.header.ctrl >> 4u8 == UTP_CMD_TYPE_UFS_STORAGE,
    {
        let slot = tag as usize;
        if slot >= self.transfer_slots {
            return Err(Error::Invalid);
        }
        let cmd_upiu = Upiu::command(cmd, slot);
        let utrd = current.build(UfsCmd::Scsi(cmd)).set_prd_table_length(prd_entries)?;
        Ok(ComposedRequest { cmd_upiu, rsp_upiu: Upiu::zeroed(), utrd })
    }
}

/// Whether `r` is the answer, as a command, that response UPIU `rsp` gives
/// to device-management command `cmd`.
pub open spec fn device_answer_holds(rsp: Upiu, cmd: UfsDevCmd, r: Result<UfsCmd>) -> bool {
    match r {
        Ok(UfsCmd::Device(d)) => fetch_dev_holds(rsp, cmd, Ok(d)),
        Ok(UfsCmd::Scsi(_)) => false,
        Err(e) => fetch_dev_holds(rsp, cmd, Err(e)),
    }
}

/// The answer to device-management command `cmd` from a doorbell
/// completion: the descriptor's status first, then the response UPIU.
pub fn fetch_devman(utrd: &Utrd, rsp: &Upiu, cmd: UfsDevCmd) -> (r: Result<UfsCmd>)
    ensures
        ocs_result(utrd.spec_ocs()) matches Err(e) ==> r == Err::<UfsCmd, Error>(e),
        ocs_result(utrd.spec_ocs()) is Ok ==> device_answer_holds(*rsp, cmd, r),
{
    utrd.check_response()?;
    let d = rsp.fetch_dev(cmd)?;
    Ok(UfsCmd::Device(d))
}

/// The answer to device-management command `cmd` from a completion queue
/// entry: the entry's overall status first, then the response UPIU.
pub fn fetch_mcq_devman(cqe: &CqEntry, rsp: &Upiu, cmd: UfsDevCmd) -> (r: Result<UfsCmd>)
    ensures
        ocs_result(cqe.overall_status) matches Err(e) ==> r == Err::<UfsCmd, Error>(e),
        ocs_result(cqe.overall_status) is Ok ==> device_answer_holds(*rsp, cmd, r),
{
    check_ocs(cqe.overall_status())?;
    let d = rsp.fetch_dev(cmd)?;
    Ok(UfsCmd::Device(d))
}

/// Whether a failed command may simply be retried: it was aborted, or the
/// controller never wrote its status.
pub open spec fn retryable_ocs(ocs: u8) -> bool {
    UtpOcs::spec_from_code(ocs) == UtpOcs::Aborted || UtpOcs::spec_from_code(ocs)
        == UtpOcs::InvalidCommandStatus
}

/// The outcome of a SCSI command from a doorbell completion. `utrd` is the
/// slot's descriptor and `rsp` its response UPIU, `None` where they could
/// not be read.
pub fn scsi_completion(utrd: Option<Utrd>, rsp: Option<Upiu>) -> (r: UfsScsiResult)
    ensures
        match utrd {
            None => status_only_result(r, UfsScsiCompletion::Error, 0x0f),
            Some(u) => {
                let ocs = u.spec_ocs();
                if ocs_result(ocs) is Err {
                    status_only_result(
                        r,
                        if retryable_ocs(ocs) {
                            UfsScsiCompletion::Requeue
                        } else {
                            UfsScsiCompletion::Error
                        },
                        ocs,
                    )
                } else {
                    match rsp {
                        None => status_only_result(r, UfsScsiCompletion::Error, ocs),
                        Some(p) => scsi_result_holds(p, ocs, r),
                    }
                }
            },
        },
{
    let utrd = match utrd {
        Some(u) => u,
        None => return UfsScsiResult::error(UtpOcs::InvalidCommandStatus.code()),
    };
    let ocs = utrd.ocs();
    if utrd.check_response().is_err() {
        return match UtpOcs::from_code(ocs) {
            UtpOcs::Aborted | UtpOcs::InvalidCommandStatus => UfsScsiResult::requeue(ocs),
            _ => UfsScsiResult::error(ocs),
        };
    }
    match rsp {
        Some(p) => p.scsi_result(ocs),
        None => UfsScsiResult::error(ocs),
    }
}

/// The outcome of a SCSI command from a completion queue entry; `rsp` is the
/// response UPIU, `None` where it could not be read.
pub fn mcq_scsi_completion(cqe: &CqEntry, rsp: Option<Upiu>) -> (r: UfsScsiResult)
    ensures
        ({
            let ocs = cqe.overall_status;
            if UtpOcs::spec_from_code(ocs) != UtpOcs::Success {
                status_only_result(
                    r,
                    if retryable_ocs(ocs) {
                        UfsScsiCompletion::Requeue
                    } else {
                        UfsScsiCompletion::Error
                    },
                    ocs,
                )
            } else {
                match rsp {
                    None => status_only_result(r, UfsScsiCompletion::Error, 0x0f),
                    Some(p) => scsi_result_holds(p, ocs, r),
                }
            }
        }),
{
    let ocs = cqe.overall_status();
    match UtpOcs::from_code(ocs) {
        UtpOcs::Success => {},
        UtpOcs::Aborted | UtpOcs::InvalidCommandStatus => return UfsScsiResult::requeue(ocs),
        _ => return UfsScsiResult::error(ocs),
    }
    match rsp {
        Some(p) => p.scsi_result(ocs),
        None => UfsScsiResult::error(UtpOcs::InvalidCommandStatus.code()),
    }
}

} // verus!
