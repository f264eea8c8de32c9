//! The host controller's registers: their offsets, the layout of their
//! fields, and the values the driver reads from and writes to them.
use vstd::prelude::*;

use crate::error::{Error, Result};

verus! {

// Register offsets in the host controller interface region.
pub const REG_CONTROLLER_CAPABILITIES: usize = 0x00;
pub const REG_MCQCAP: usize = 0x04;
pub const REG_UFS_VERSION: usize = 0x08;
pub const REG_INTERRUPT_STATUS: usize = 0x20;
pub const REG_INTERRUPT_ENABLE: usize = 0x24;
pub const REG_CONTROLLER_STATUS: usize = 0x30;
pub const REG_CONTROLLER_ENABLE: usize = 0x34;
pub const REG_UIC_ERROR_CODE_PHY_ADAPTER_LAYER: usize = 0x38;
pub const REG_UIC_ERROR_CODE_DATA_LINK_LAYER: usize = 0x3C;
pub const REG_UIC_ERROR_CODE_NETWORK_LAYER: usize = 0x40;
pub const REG_UIC_ERROR_CODE_TRANSPORT_LAYER: usize = 0x44;
pub const REG_UIC_ERROR_CODE_DME: usize = 0x48;
pub const REG_UTP_TRANSFER_REQ_INT_AGG_CONTROL: usize = 0x4C;
pub const REG_UTP_TRANSFER_REQ_LIST_BASE_L: usize = 0x50;
pub const REG_UTP_TRANSFER_REQ_LIST_BASE_H: usize = 0x54;
pub const REG_UTP_TRANSFER_REQ_DOOR_BELL: usize = 0x58;
pub const REG_UTP_TRANSFER_REQ_LIST_CLEAR: usize = 0x5C;
pub const REG_UTP_TRANSFER_REQ_LIST_RUN_STOP: usize = 0x60;
pub const REG_UTP_TRANSFER_REQ_LIST_COMPLETION_NOTIFICATION: usize = 0x64;
pub const REG_UTP_TASK_REQ_LIST_BASE_L: usize = 0x70;
pub const REG_UTP_TASK_REQ_LIST_BASE_H: usize = 0x74;
pub const REG_UTP_TASK_REQ_DOOR_BELL: usize = 0x78;
pub const REG_UTP_TASK_REQ_LIST_CLEAR: usize = 0x7C;
pub const REG_UTP_TASK_REQ_LIST_RUN_STOP: usize = 0x80;
pub const REG_UIC_COMMAND: usize = 0x90;
pub const REG_UIC_ARG1: usize = 0x94;
pub const REG_UIC_ARG2: usize = 0x98;
pub const REG_UIC_ARG3: usize = 0x9C;
pub const REG_UFS_MEM_CFG: usize = 0x300;
pub const REG_UFS_MCQ_CFG: usize = 0x380;
pub const REG_UFS_ESILBA: usize = 0x384;
pub const REG_UFS_ESIUBA: usize = 0x388;

// Offsets within one queue's configuration block.
pub const MCQ_SQATTR: usize = 0x00;
pub const MCQ_SQLBA: usize = 0x04;
pub const MCQ_SQUBA: usize = 0x08;
pub const MCQ_SQDAO: usize = 0x0c;
pub const MCQ_SQISAO: usize = 0x10;
pub const MCQ_CQATTR: usize = 0x20;
pub const MCQ_CQLBA: usize = 0x24;
pub const MCQ_CQUBA: usize = 0x28;
pub const MCQ_CQDAO: usize = 0x2c;
pub const MCQ_CQISAO: usize = 0x30;

// Offsets within one queue's operation and runtime registers.
pub const MCQ_SQHP: usize = 0x00;
pub const MCQ_SQTP: usize = 0x04;
pub const MCQ_SQRTC: usize = 0x08;
pub const MCQ_SQCTI: usize = 0x0c;
pub const MCQ_SQRTS: usize = 0x10;
pub const MCQ_CQHP: usize = 0x00;
pub const MCQ_CQTP: usize = 0x04;
pub const MCQ_CQIS: usize = 0x00;
pub const MCQ_CQIE: usize = 0x04;

pub const MCQ_QCFG_STRIDE: usize = 0x40;
pub const MCQ_QCFGPTR_UNIT: usize = 0x200;
pub const MCQ_ENTRY_SIZE_IN_DWORD: u32 = 8;
pub const MCQ_DEFAULT_OPR_STRIDE: usize = 48;
pub const MCQ_POLL_INTERVAL_US: i64 = 20;
pub const MCQ_POLL_TIMEOUT_US: i64 = 500000;

pub const MCQ_SQ_START: u32 = 0x0;
pub const MCQ_SQ_STOP: u32 = 0x1;

// Interrupt status bits.
pub const UTP_TRANSFER_REQ_COMPL: u32 = 0x00000001;
pub const UIC_DME_END_PT_RESET: u32 = 0x00000002;
pub const UIC_ERROR: u32 = 0x00000004;
pub const UIC_TEST_MODE: u32 = 0x00000008;
pub const UIC_POWER_MODE: u32 = 0x00000010;
pub const UIC_HIBERNATE_EXIT: u32 = 0x00000020;
pub const UIC_HIBERNATE_ENTER: u32 = 0x00000040;
pub const UIC_LINK_LOST: u32 = 0x00000080;
pub const UIC_LINK_STARTUP: u32 = 0x00000100;
pub const UTP_TASK_REQ_COMPL: u32 = 0x00000200;
pub const UIC_COMMAND_COMPL: u32 = 0x00000400;
pub const DEVICE_FATAL_ERROR: u32 = 0x00000800;
pub const UTP_ERROR: u32 = 0x00001000;
pub const CONTROLLER_FATAL_ERROR: u32 = 0x00010000;
pub const SYSTEM_BUS_FATAL_ERROR: u32 = 0x00020000;
pub const CRYPTO_ENGINE_FATAL_ERROR: u32 = 0x00040000;
pub const MCQ_CQ_EVENT_STATUS: u32 = 0x00100000;

/// `UIC_HIBERNATE_EXIT | UIC_HIBERNATE_ENTER`
pub const UIC_INTR_HIBERNATE_MASK: u32 = 0x60;
/// `UIC_POWER_MODE | UIC_INTR_HIBERNATE_MASK`
pub const UIC_INTR_POWER_MASK: u32 = 0x70;
/// `UIC_INTR_POWER_MASK | UIC_COMMAND_COMPL`
pub const UIC_INTR_MASK: u32 = 0x470;
pub const UTP_REQ_COMPL_MASK: u32 = 0x1;
/// `UIC_ERROR | UIC_LINK_LOST | DEVICE_FATAL_ERROR | CONTROLLER_FATAL_ERROR
/// | SYSTEM_BUS_FATAL_ERROR | CRYPTO_ENGINE_FATAL_ERROR | UTP_ERROR`
pub const ERROR_MASK: u32 = 0x71884;

pub const UIC_ERROR_FLAG: u32 = 0x8000_0000;
pub const UIC_DL_PA_INIT_ERROR: u32 = 0x2000;
pub const UIC_NL_ERROR_CODE_MASK: u32 = 0x7;
pub const UIC_TL_ERROR_CODE_MASK: u32 = 0x7f;
pub const UIC_DME_ERROR_CODE_MASK: u32 = 0x1;

// Power mode change request status values.
pub const PWR_MODE_OK: u32 = 0x00;
pub const PWR_MODE_LOCAL: u32 = 0x01;
pub const PWR_MODE_REMOTE: u32 = 0x02;
pub const PWR_MODE_BUSY: u32 = 0x03;
pub const PWR_MODE_ERROR_CAP: u32 = 0x04;
pub const PWR_MODE_FATAL_ERROR: u32 = 0x05;

/// The masks above are the unions of the bits they name.
pub proof fn lemma_interrupt_masks()
    ensures
        UIC_INTR_HIBERNATE_MASK == UIC_HIBERNATE_EXIT | UIC_HIBERNATE_ENTER,
        UIC_INTR_POWER_MASK == UIC_POWER_MODE | UIC_INTR_HIBERNATE_MASK,
        UIC_INTR_MASK == UIC_INTR_POWER_MASK | UIC_COMMAND_COMPL,
        ERROR_MASK == UIC_ERROR | UIC_LINK_LOST | DEVICE_FATAL_ERROR | CONTROLLER_FATAL_ERROR
            | SYSTEM_BUS_FATAL_ERROR | CRYPTO_ENGINE_FATAL_ERROR | UTP_ERROR,
{
    assert(0x60u32 == 0x20u32 | 0x40u32 && 0x70u32 == 0x10u32 | 0x60u32 && 0x470u32 == 0x70u32
        | 0x400u32 && 0x71884u32 == 0x4u32 | 0x80u32 | 0x800u32 | 0x10000u32 | 0x20000u32
        | 0x40000u32 | 0x1000u32) by (bit_vector);
}

/// The error codes of the UIC layers, as read after a UIC error interrupt.
#[derive(Clone, Copy, Debug, PartialEq, Eq, Structural)]
pub struct UicErrorStatus {
    pub phy: u32,
    pub data_link: u32,
    pub network: u32,
    pub transport: u32,
    pub dme: u32,
}

impl UicErrorStatus {
    /// A data-link PA_INIT error, or a valid network, transport or DME error
    /// code, needs the controller to be reset.
    pub open spec fn spec_requires_recovery(self) -> bool {
        (self.data_link & (UIC_ERROR_FLAG | UIC_DL_PA_INIT_ERROR) == UIC_ERROR_FLAG
            | UIC_DL_PA_INIT_ERROR) || (self.network & (UIC_ERROR_FLAG | UIC_NL_ERROR_CODE_MASK)
            > UIC_ERROR_FLAG) || (self.transport & (UIC_ERROR_FLAG | UIC_TL_ERROR_CODE_MASK)
            > UIC_ERROR_FLAG) || (self.dme & (UIC_ERROR_FLAG | UIC_DME_ERROR_CODE_MASK)
            > UIC_ERROR_FLAG)
    }

    pub fn requires_recovery(&self) -> (r: bool)
        ensures
            r == self.spec_requires_recovery(),
            r == (layer_reports(self.data_link, 0x2000) || layer_reports(self.network, 0x7)
                || layer_reports(self.transport, 0x7f) || layer_reports(self.dme, 0x1)),
            self.network == 0 && self.transport == 0 && self.dme == 0 ==> r == (self.data_link
                & 0x8000_0000 != 0 && self.data_link & 0x2000 != 0),
            self.data_link == 0 && self.transport == 0 && self.dme == 0 ==> r == (self.network
                & 0x8000_0000 != 0 && self.network & 0x7 != 0),
            self.data_link == 0 && self.network == 0 && self.dme == 0 ==> r == (self.transport
                & 0x8000_0000 != 0 && self.transport & 0x7f != 0),
            self.data_link == 0 && self.network == 0 && self.transport == 0 ==> r == (self.dme
                & 0x8000_0000 != 0 && self.dme & 0x1 != 0),
    {
        proof {
            lemma_recovery_by_layer(*self);
        }
        self.data_link & (UIC_ERROR_FLAG | UIC_DL_PA_INIT_ERROR) == UIC_ERROR_FLAG
            | UIC_DL_PA_INIT_ERROR || self.network & (UIC_ERROR_FLAG | UIC_NL_ERROR_CODE_MASK)
            > UIC_ERROR_FLAG || self.transport & (UIC_ERROR_FLAG | UIC_TL_ERROR_CODE_MASK)
            > UIC_ERROR_FLAG || self.dme & (UIC_ERROR_FLAG | UIC_DME_ERROR_CODE_MASK)
            > UIC_ERROR_FLAG
    }
}

/// Whether an error register reports a valid error (bit 31) with one of
/// the code bits in `code_mask` set.
pub open spec fn layer_reports(reg: u32, code_mask: u32) -> bool {
    reg & 0x8000_0000 != 0 && reg & code_mask != 0
}

/// Recovery is required exactly when one of the error registers reports a
/// valid error with a code that calls for it: a data link PA_INIT error
/// (bit 13), any network layer code (bits 2:0), any transport layer code
/// (bits 6:0) or a DME error (bit 0). A register that reports nothing
/// (zero) plays no part.
pub proof fn lemma_recovery_by_layer(e: UicErrorStatus)
    ensures
        e.spec_requires_recovery() == (layer_reports(e.data_link, 0x2000) || layer_reports(
            e.network,
            0x7,
        ) || layer_reports(e.transport, 0x7f) || layer_reports(e.dme, 0x1)),
        !layer_reports(0, 0x2000) && !layer_reports(0, 0x7) && !layer_reports(0, 0x7f)
            && !layer_reports(0, 0x1),
{
    let (d, n, t, m) = (e.data_link, e.network, e.transport, e.dme);
    assert(((d & 0x8000_2000u32 == 0x8000_2000u32) == (d & 0x8000_0000u32 != 0 && d & 0x2000u32
        != 0)) && ((n & 0x8000_0007u32 > 0x8000_0000u32) == (n & 0x8000_0000u32 != 0 && n & 0x7u32
        != 0)) && ((t & 0x8000_007fu32 > 0x8000_0000u32) == (t & 0x8000_0000u32 != 0 && t
        & 0x7fu32 != 0)) && ((m & 0x8000_0001u32 > 0x8000_0000u32) == (m & 0x8000_0000u32 != 0
        && m & 0x1u32 != 0)) && 0u32 & 0x8000_0000u32 == 0) by (bit_vector);
    assert(UIC_ERROR_FLAG | UIC_DL_PA_INIT_ERROR == 0x8000_2000u32 && UIC_ERROR_FLAG
        | UIC_NL_ERROR_CODE_MASK == 0x8000_0007u32 && UIC_ERROR_FLAG | UIC_TL_ERROR_CODE_MASK
        == 0x8000_007fu32 && UIC_ERROR_FLAG | UIC_DME_ERROR_CODE_MASK == 0x8000_0001u32)
        by (bit_vector);
}

/// A layer's error register asks for recovery through its code bits only
/// when it also reports a valid error (bit 31): a register with bit 31 clear
/// never does.
pub proof fn lemma_recovery_needs_error_flag(e: UicErrorStatus)
    requires
        e.data_link & UIC_ERROR_FLAG == 0,
        e.network & UIC_ERROR_FLAG == 0,
        e.transport & UIC_ERROR_FLAG == 0,
        e.dme & UIC_ERROR_FLAG == 0,
    ensures
        !e.spec_requires_recovery(),
{
    let (d, n, t, m) = (e.data_link, e.network, e.transport, e.dme);
    assert(d & (0x8000_0000u32 | 0x2000u32) != (0x8000_0000u32 | 0x2000u32) && n & (0x8000_0000u32
        | 0x7u32) <= 0x8000_0000u32 && t & (0x8000_0000u32 | 0x7fu32) <= 0x8000_0000u32 && m & (
    0x8000_0000u32 | 0x1u32) <= 0x8000_0000u32) by (bit_vector)
        requires
            d & 0x8000_0000u32 == 0,
            n & 0x8000_0000u32 == 0,
            t & 0x8000_0000u32 == 0,
            m & 0x8000_0000u32 == 0,
    ;
}

/// Bounds of the register fields that are read by shifting and masking.
proof fn lemma_field_bounds()
    by (bit_vector)
    ensures
        forall|x: u32| #[trigger] (x & 0x1f) <= 31,
        forall|x: u32| #[trigger] (x & 0xff) <= 255,
        forall|x: u32| #[trigger] ((x >> 16u32) & 0x7) <= 7,
        forall|x: u32| #[trigger] ((x >> 16u32) & 0xff) <= 255,
        forall|x: u32| #[trigger] ((x >> 8u32) & 0x7) <= 7,
{
}

/// Setting the bits `b` of `x` sets them and keeps the others; clearing
/// them clears them and keeps the others.
proof fn lemma_bit_update(x: u32, b: u32)
    by (bit_vector)
    ensures
        (x | b) & b == b,
        (x | b) & !b == x & !b,
        (x & !b) & b == 0,
        (x & !b) & !b == x & !b,
{
}

// Interrupt status and enable values.

/// The UIC events that are both raised and enabled.
pub fn uic_interrupts(status: u32, enable: u32) -> (r: u32)
    ensures
        r == status & enable & UIC_INTR_MASK,
{
    status & enable & UIC_INTR_MASK
}

/// The transfer, MCQ and error events that are both raised and enabled.
pub fn transfer_interrupts(status: u32, enable: u32) -> (r: u32)
    ensures
        r == status & enable & (UTP_TRANSFER_REQ_COMPL | MCQ_CQ_EVENT_STATUS | ERROR_MASK),
{
    status & enable & (UTP_TRANSFER_REQ_COMPL | MCQ_CQ_EVENT_STATUS | ERROR_MASK)
}

/// The bits of `value` written to acknowledge UIC events.
pub fn uic_interrupt_ack(value: u32) -> (r: u32)
    ensures
        r == value & UIC_INTR_MASK,
{
    value & UIC_INTR_MASK
}

/// The bits of `value` written to acknowledge transfer events.
pub fn transfer_interrupt_ack(value: u32) -> (r: u32)
    ensures
        r == value & (UTP_TRANSFER_REQ_COMPL | MCQ_CQ_EVENT_STATUS | ERROR_MASK),
{
    value & (UTP_TRANSFER_REQ_COMPL | MCQ_CQ_EVENT_STATUS | ERROR_MASK)
}

/// The bits of `value` written to acknowledge MCQ completion events.
pub fn mcq_cq_event_ack(value: u32) -> (r: u32)
    ensures
        r == value & MCQ_CQ_EVENT_STATUS,
{
    value & MCQ_CQ_EVENT_STATUS
}

/// The bits of `value` written to acknowledge the events handled in the
/// interrupt thread.
pub fn deferred_transfer_interrupt_ack(value: u32) -> (r: u32)
    ensures
        r == value & (UTP_TRANSFER_REQ_COMPL | ERROR_MASK),
{
    value & (UTP_TRANSFER_REQ_COMPL | ERROR_MASK)
}

pub fn with_uic_interrupts_enabled(enable: u32) -> (r: u32)
    ensures
        r == enable | UIC_INTR_MASK,
{
    enable | UIC_INTR_MASK
}

pub fn with_transfer_interrupts_enabled(enable: u32) -> (r: u32)
    ensures
        r == enable | UTP_REQ_COMPL_MASK | ERROR_MASK,
{
    enable | UTP_REQ_COMPL_MASK | ERROR_MASK
}

pub fn with_mcq_interrupts_enabled(enable: u32) -> (r: u32)
    ensures
        r == enable | MCQ_CQ_EVENT_STATUS,
{
    enable | MCQ_CQ_EVENT_STATUS
}

pub fn is_uic_command_completion(interrupt_status: u32) -> (r: bool)
    ensures
        r == (interrupt_status & UIC_COMMAND_COMPL != 0),
{
    (interrupt_status & UIC_COMMAND_COMPL) != 0
}

pub fn is_uic_power_mode(interrupt_status: u32) -> (r: bool)
    ensures
        r == (interrupt_status & UIC_POWER_MODE != 0),
{
    (interrupt_status & UIC_POWER_MODE) != 0
}

pub fn is_error_interrupt(interrupt_status: u32) -> (r: bool)
    ensures
        r == (interrupt_status & ERROR_MASK != 0),
{
    (interrupt_status & ERROR_MASK) != 0
}

pub fn has_deferred_transfer_interrupts(interrupt_status: u32) -> (r: bool)
    ensures
        r == (interrupt_status & (UTP_TRANSFER_REQ_COMPL | ERROR_MASK) != 0),
{
    (interrupt_status & (UTP_TRANSFER_REQ_COMPL | ERROR_MASK)) != 0
}

pub fn is_uic_error_interrupt(interrupt_status: u32) -> (r: bool)
    ensures
        r == (interrupt_status & UIC_ERROR != 0),
{
    (interrupt_status & UIC_ERROR) != 0
}

/// A fatal or UTP error other than a UIC error, which the transfer path
/// recovers from by a controller reset.
pub fn is_transfer_recovery_interrupt(interrupt_status: u32) -> (r: bool)
    ensures
        r == (interrupt_status & (ERROR_MASK & !UIC_ERROR) != 0),
{
    (interrupt_status & (ERROR_MASK & !UIC_ERROR)) != 0
}

/// The doorbell bit of transfer slot `tag`.
pub fn utrl_doorbell_bit(tag: u32) -> (r: u32)
    requires
        tag < 32,
    ensures
        r == 1u32 << tag,
{
    1u32 << tag
}

// Controller capabilities.

/// Number of transfer request slots in single doorbell mode (bits 4:0,
/// plus one).
pub open spec fn spec_nutrs(cap: u32) -> usize {
    ((cap & 0x1f) + 1) as usize
}

/// Number of task management request slots (bits 18:16, plus one).
pub open spec fn spec_nutmrs(cap: u32) -> usize {
    (((cap >> 16u32) & 0x7) + 1) as usize
}

/// Number of transfer request slots in MCQ mode (bits 7:0, plus one).
pub open spec fn spec_nutrs_mcq(cap: u32) -> usize {
    ((cap & 0xff) + 1) as usize
}

pub fn nutrs(cap: u32) -> (r: usize)
    ensures
        r == spec_nutrs(cap),
        1 <= r <= 32,
{
    proof {
        lemma_field_bounds();
    }
    ((cap & 0x1f) as usize) + 1
}

pub fn nutmrs(cap: u32) -> (r: usize)
    ensures
        r == spec_nutmrs(cap),
        1 <= r <= 8,
{
    proof {
        lemma_field_bounds();
    }
    (((cap >> 16u32) & 0x7) as usize) + 1
}

pub fn nutrs_mcq(cap: u32) -> (r: usize)
    ensures
        r == spec_nutrs_mcq(cap),
        1 <= r <= 256,
{
    proof {
        lemma_field_bounds();
    }
    ((cap & 0xff) as usize) + 1
}

/// Whether the controller supports multi-circular queues (bit 30).
pub fn mcq_supported(cap: u32) -> (r: bool)
    ensures
        r == (cap & 0x4000_0000 != 0),
{
    cap & 0x4000_0000 != 0
}

/// Whether the controller supports auto-hibernate (bit 23).
pub fn auto_hibern8_supported(cap: u32) -> (r: bool)
    ensures
        r == (cap & 0x80_0000 != 0),
{
    cap & 0x80_0000 != 0
}

/// Number of queues the controller supports (MCQCAP bits 7:0, plus one).
pub fn mcq_max_queues(mcq_cap: u32) -> (r: usize)
    ensures
        r == (mcq_cap & 0xff) + 1,
        1 <= r <= 256,
{
    proof {
        lemma_field_bounds();
    }
    ((mcq_cap & 0xff) as usize) + 1
}

/// Offset of the queue configuration registers (MCQCAP bits 23:16, in
/// units of 0x200 bytes).
pub fn mcq_queue_cfg_base(mcq_cap: u32) -> (r: usize)
    ensures
        r == ((mcq_cap >> 16u32) & 0xff) * MCQ_QCFGPTR_UNIT,
{
    proof {
        lemma_field_bounds();
    }
    (((mcq_cap >> 16u32) & 0xff) as usize) * MCQ_QCFGPTR_UNIT
}

// Controller status.

pub fn uic_command_ready(hcs: u32) -> (r: bool)
    ensures
        r == (hcs & 0x8 != 0),
{
    hcs & 0x8 != 0
}

/// Transfer, task management and UIC command lists all ready (bits 1..=3).
pub fn request_lists_ready(hcs: u32) -> (r: bool)
    ensures
        r == (hcs & 0x2 != 0 && hcs & 0x4 != 0 && hcs & 0x8 != 0),
{
    hcs & 0x2 != 0 && hcs & 0x4 != 0 && hcs & 0x8 != 0
}

/// Power mode change request status (bits 10:8).
pub fn power_mode_change_status(hcs: u32) -> (r: u32)
    ensures
        r == (hcs >> 8u32) & 0x7,
        r <= 7,
{
    proof {
        lemma_field_bounds();
    }
    (hcs >> 8u32) & 0x7
}

/// Whether the controller enable bit (bit 0) is set.
pub fn controller_enabled(hce: u32) -> (r: bool)
    ensures
        r == (hce & 0x1 != 0),
{
    hce & 0x1 != 0
}

pub fn with_controller_enabled(hce: u32) -> (r: u32)
    ensures
        r == hce | 0x1,
        r & 0x1 != 0,
        r & !0x1u32 == hce & !0x1u32,
{
    proof {
        lemma_bit_update(hce, 0x1);
    }
    hce | 0x1
}

/// The result of a UIC command (UIC_ARG2 bits 7:0).
pub fn uic_command_result(arg2: u32) -> (r: u32)
    ensures
        r == arg2 & 0xff,
        r <= 0xff,
{
    proof {
        lemma_field_bounds();
    }
    arg2 & 0xff
}

// Memory configuration.

pub fn with_mcq_mode(mem_cfg: u32, enabled: bool) -> (r: u32)
    ensures
        (r & 0x1 != 0) == enabled,
        r & !0x1u32 == mem_cfg & !0x1u32,
{
    if enabled {
        proof {
            lemma_bit_update(mem_cfg, 0x1);
        }
        mem_cfg | 0x1
    } else {
        proof {
            lemma_bit_update(mem_cfg, 0x1);
        }
        mem_cfg & !0x1u32
    }
}

pub fn with_esi_enabled(mem_cfg: u32) -> (r: u32)
    ensures
        r & 0x2 != 0,
        r & !0x2u32 == mem_cfg & !0x2u32,
{
    proof {
        lemma_bit_update(mem_cfg, 0x2);
    }
    mem_cfg | 0x2
}

/// The MCQ configuration value that limits the active commands to
/// `max_active_cmds`, stored minus one in bits 16:8.
pub fn mcq_cfg_with_max_active_cmds(mcq_cfg: u32, max_active_cmds: u32) -> (r: Result<u32>)
    ensures
        max_active_cmds == 0 ==> r == Err::<u32, Error>(Error::Invalid),
        max_active_cmds > 0x200 ==> r == Err::<u32, Error>(Error::Overflow),
        0 < max_active_cmds <= 0x200 ==> (r matches Ok(v) && (v >> 8u32) & 0x1ff == (
        max_active_cmds - 1) as u32 && v & !0x1ff00u32 == mcq_cfg & !0x1ff00u32),
{
    if max_active_cmds == 0 {
        return Err(Error::Invalid);
    }
    let field = max_active_cmds - 1;
    if field > 0x1ff {
        return Err(Error::Overflow);
    }
    let v = (mcq_cfg & !0x1ff00u32) | (field << 8u32);
    assert((v >> 8u32) & 0x1ff == field && v & !0x1ff00u32 == mcq_cfg & !0x1ff00u32)
        by (bit_vector)
        requires
            v == (mcq_cfg & !0x1ff00u32) | (field << 8u32),
            field <= 0x1ff,
    ;
    Ok(v)
}

/// The queue size field of a queue attribute: `max_entries` entries of
/// eight double words, in double words minus one.
pub open spec fn spec_mcq_queue_attr(max_entries: usize) -> Result<u32> {
    if max_entries > u32::MAX {
        Err(Error::Invalid)
    } else if max_entries * 8 > u32::MAX {
        Err(Error::Overflow)
    } else if max_entries == 0 {
        Err(Error::Invalid)
    } else {
        Ok((max_entries * 8 - 1) as u32)
    }
}

pub fn mcq_queue_attr(max_entries: usize) -> (r: Result<u32>)
    ensures
        r == spec_mcq_queue_attr(max_entries),
{
    if max_entries > 0xffff_ffff {
        return Err(Error::Invalid);
    }
    let entries = max_entries as u32;
    match entries.checked_mul(MCQ_ENTRY_SIZE_IN_DWORD) {
        None => Err(Error::Overflow),
        Some(dwords) => match dwords.checked_sub(1) {
            None => Err(Error::Invalid),
            Some(v) => Ok(v),
        },
    }
}

/// The submission queue attribute that enables a queue of `max_entries`
/// entries completing to queue `cq_id`: enable (bit 31), completion queue
/// (bits 23:16), size (bits 15:0).
pub fn mcq_sq_attr(max_entries: usize, cq_id: usize) -> (r: Result<u32>)
    ensures
        cq_id > u32::MAX ==> r == Err::<u32, Error>(Error::Invalid),
        cq_id <= u32::MAX && cq_id > 0xff ==> r == Err::<u32, Error>(Error::Overflow),
        cq_id <= 0xff ==> match spec_mcq_queue_attr(max_entries) {
            Err(e) => r == Err::<u32, Error>(e),
            Ok(size) => if size > 0xffff {
                r == Err::<u32, Error>(Error::Overflow)
            } else {
                r == Ok::<u32, Error>(0x8000_0000u32 | ((cq_id as u32) << 16u32) | size)
            },
        },
{
    if cq_id > 0xffff_ffff {
        return Err(Error::Invalid);
    }
    if cq_id > 0xff {
        return Err(Error::Overflow);
    }
    let size = mcq_queue_attr(max_entries)?;
    if size > 0xffff {
        return Err(Error::Overflow);
    }
    Ok(0x8000_0000u32 | ((cq_id as u32) << 16u32) | size)
}

/// The completion queue attribute that enables a queue of `max_entries`
/// entries: enable (bit 31), size (bits 15:0).
pub fn mcq_cq_attr(max_entries: usize) -> (r: Result<u32>)
    ensures
        match spec_mcq_queue_attr(max_entries) {
            Err(e) => r == Err::<u32, Error>(e),
            Ok(size) => if size > 0xffff {
                r == Err::<u32, Error>(Error::Overflow)
            } else {
                r == Ok::<u32, Error>(0x8000_0000u32 | size)
            },
        },
{
    let size = mcq_queue_attr(max_entries)?;
    if size > 0xffff {
        return Err(Error::Overflow);
    }
    Ok(0x8000_0000u32 | size)
}

/// The runtime control value that requests operation `op` (bits 1:0).
pub fn mcq_sq_runtime_control(op: u32) -> (r: Result<u32>)
    ensures
        op <= 3 ==> r == Ok::<u32, Error>(op),
        op > 3 ==> r == Err::<u32, Error>(Error::Overflow),
{
    if op > 3 {
        return Err(Error::Overflow);
    }
    Ok(op)
}

/// The runtime control value with cleanup initiated (bit 2).
pub fn with_initiate_cleanup(rtc: u32) -> (r: u32)
    ensures
        r == rtc | 0x4,
{
    rtc | 0x4
}

/// The cleanup target: LUN in bits 15:8, task tag in bits 7:0.
pub fn mcq_sq_cleanup_target(lun: u8, tag: u8) -> (r: u32)
    ensures
        r == ((lun as u32) << 8u32) | (tag as u32),
        (r >> 8u32) == lun as u32,
        r & 0xff == tag as u32,
{
    let l = lun as u32;
    let t = tag as u32;
    assert(((l << 8u32) | t) >> 8u32 == l && ((l << 8u32) | t) & 0xff == t) by (bit_vector)
        requires
            l <= 0xff,
            t <= 0xff,
    ;
    (l << 8u32) | t
}

/// Whether the submission queue has stopped (runtime status bit 0).
pub fn mcq_sq_stopped(rts: u32) -> (r: bool)
    ensures
        r == (rts & 0x1 != 0),
{
    rts & 0x1 != 0
}

/// Whether a cleanup is in progress (runtime status bit 1).
pub fn mcq_sq_cleanup_in_progress(rts: u32) -> (r: bool)
    ensures
        r == (rts & 0x2 != 0),
{
    rts & 0x2 != 0
}

/// The cleanup error code (runtime status bits 7:4).
pub fn mcq_sq_cleanup_error_code(rts: u32) -> (r: u32)
    ensures
        r == (rts >> 4u32) & 0xf,
{
    (rts >> 4u32) & 0xf
}

/// The completion queue interrupt enable value with tail-entry-push
/// interrupts on.
pub const MCQ_CQIE_TAIL_ENTRY_PUSH_ENABLE: u32 = 0x1;

/// The low 32 bits of a DMA address.
pub fn dma_addr_lo(dma_addr: u64) -> (r: u32)
    ensures
        r == dma_addr as u32,
        r == dma_addr % 0x1_0000_0000,
{
    assert(dma_addr as u32 == dma_addr % 0x1_0000_0000) by (bit_vector);
    dma_addr as u32
}

/// The high 32 bits of a DMA address.
pub fn dma_addr_hi(dma_addr: u64) -> (r: u32)
    ensures
        r == (dma_addr >> 32u64) as u32,
        r == dma_addr / 0x1_0000_0000,
{
    assert((dma_addr >> 32u64) as u32 == dma_addr / 0x1_0000_0000) by (bit_vector);
    (dma_addr >> 32u64) as u32
}

/// Writing the two halves of a DMA address loses nothing.
pub proof fn lemma_dma_addr_halves(dma_addr: u64)
    ensures
        (dma_addr >> 32u64) as u32 as u64 * 0x1_0000_0000 + dma_addr as u32 as u64 == dma_addr,
{
    assert((dma_addr >> 32u64) as u32 as u64 * 0x1_0000_0000 + dma_addr as u32 as u64 == dma_addr)
        by (bit_vector);
}

/// Which register region holds a group of MCQ registers.
#[derive(Clone, Copy, Debug, PartialEq, Eq, Structural)]
pub enum McqRegisterRegion {
    Hci,
    Mcq,
}

/// The four kinds of MCQ operation registers.
#[derive(Clone, Copy, Debug, PartialEq, Eq, Structural)]
pub enum UfsMcqOprRegion {
    Sqd,
    Sqis,
    Cqd,
    Cqis,
}

/// Where one kind of MCQ operation register lives: the region, the offset
/// of queue 0's registers as mapped, the offset the controller is told, and
/// the distance between queues.
#[derive(Clone, Copy, Debug, PartialEq, Eq, Structural)]
pub struct UfsMcqOprInfo {
    pub region: McqRegisterRegion,
    pub register_offset: usize,
    pub config_offset: usize,
    pub stride: usize,
}

impl UfsMcqOprInfo {
    pub fn new(region: McqRegisterRegion, register_offset: usize, config_offset: usize, stride:
        usize) -> (r: UfsMcqOprInfo)
        ensures
            r == (UfsMcqOprInfo { region, register_offset, config_offset, stride }),
    {
        UfsMcqOprInfo { region, register_offset, config_offset, stride }
    }

    /// Offset of queue `queue`'s registers in the mapped region.
    pub fn register_offset(&self, queue: usize) -> (r: usize)
        requires
            self.register_offset + self.stride * queue <= usize::MAX,
        ensures
            r == self.register_offset + self.stride * queue,
    {
        proof {
            vstd::arithmetic::mul::lemma_mul_nonnegative(self.stride as int, queue as int);
        }
        self.register_offset + self.stride * queue
    }

    /// Offset of queue `queue`'s registers as programmed into the controller.
    pub fn config_offset(&self, queue: usize) -> (r: usize)
        requires
            self.config_offset + self.stride * queue <= usize::MAX,
        ensures
            r == self.config_offset + self.stride * queue,
    {
        proof {
            vstd::arithmetic::mul::lemma_mul_nonnegative(self.stride as int, queue as int);
        }
        self.config_offset + self.stride * queue
    }
}

#[derive(Clone, Copy, Debug, PartialEq, Eq, Structural)]
pub struct UfsMcqOprSet {
    pub sqd: UfsMcqOprInfo,
    pub sqis: UfsMcqOprInfo,
    pub cqd: UfsMcqOprInfo,
    pub cqis: UfsMcqOprInfo,
}

impl UfsMcqOprSet {
    pub open spec fn spec_get(self, region: UfsMcqOprRegion) -> UfsMcqOprInfo {
        match region {
            UfsMcqOprRegion::Sqd => self.sqd,
            UfsMcqOprRegion::Sqis => self.sqis,
            UfsMcqOprRegion::Cqd => self.cqd,
            UfsMcqOprRegion::Cqis => self.cqis,
        }
    }

    pub fn new(sqd: UfsMcqOprInfo, sqis: UfsMcqOprInfo, cqd: UfsMcqOprInfo, cqis: UfsMcqOprInfo) -> (r:
        UfsMcqOprSet)
        ensures
            r == (UfsMcqOprSet { sqd, sqis, cqd, cqis }),
    {
        UfsMcqOprSet { sqd, sqis, cqd, cqis }
    }

    pub fn get(&self, region: UfsMcqOprRegion) -> (r: UfsMcqOprInfo)
        ensures
            r == self.spec_get(region),
    {
        match region {
            UfsMcqOprRegion::Sqd => self.sqd,
            UfsMcqOprRegion::Sqis => self.sqis,
            UfsMcqOprRegion::Cqd => self.cqd,
            UfsMcqOprRegion::Cqis => self.cqis,
        }
    }

    /// The offset of register `reg` of queue `queue` in kind `region`.
    pub fn register_at(&self, region: UfsMcqOprRegion, queue: usize, reg: usize) -> (r: usize)
        requires
            self.spec_get(region).register_offset + self.spec_get(region).stride * queue + reg
                <= usize::MAX,
        ensures
            r == self.spec_get(region).register_offset + self.spec_get(region).stride * queue
                + reg,
    {
        let info = self.get(region);
        proof {
            vstd::arithmetic::mul::lemma_mul_nonnegative(info.stride as int, queue as int);
        }
        info.register_offset(queue) + reg
    }
}

/// Where the queue configuration registers live.
#[derive(Clone, Copy, Debug, PartialEq, Eq, Structural)]
pub struct McqQueueConfigLayout {
    pub region: McqRegisterRegion,
    pub offset: usize,
    pub stride: usize,
}

impl McqQueueConfigLayout {
    pub fn new(region: McqRegisterRegion, offset: usize, stride: usize) -> (r: McqQueueConfigLayout)
        ensures
            r == (McqQueueConfigLayout { region, offset, stride }),
    {
        McqQueueConfigLayout { region, offset, stride }
    }

    /// The offset of configuration register `reg` of queue `queue`.
    pub fn register_at(&self, queue: usize, reg: usize) -> (r: usize)
        requires
            self.offset + self.stride * queue + reg <= usize::MAX,
        ensures
            r == self.offset + self.stride * queue + reg,
    {
        proof {
            vstd::arithmetic::mul::lemma_mul_nonnegative(self.stride as int, queue as int);
        }
        self.offset + self.stride * queue + reg
    }
}

/// The full MCQ register layout of a controller.
#[derive(Clone, Copy, Debug, PartialEq, Eq, Structural)]
pub struct McqRegisterLayout {
    pub queue_config: McqQueueConfigLayout,
    pub oprs: UfsMcqOprSet,
}

impl McqRegisterLayout {
    pub fn new(queue_config: McqQueueConfigLayout, oprs: UfsMcqOprSet) -> (r: McqRegisterLayout)
        ensures
            r == (McqRegisterLayout { queue_config, oprs }),
    {
        McqRegisterLayout { queue_config, oprs }
    }

    pub fn oprs(&self) -> (r: UfsMcqOprSet)
        ensures
            r == self.oprs,
    {
        self.oprs
    }
}

/// The standard layout: queue configuration in the HCI region at
/// `queue_cfg_base`, operation registers at the offsets that queue 0's
/// configuration reports (`sqdao`, `sqisao`, `cqdao`, `cqisao`), 48 bytes
/// apart per queue.
pub fn standard_mcq_register_layout(
    queue_cfg_base: usize,
    sqdao: u32,
    sqisao: u32,
    cqdao: u32,
    cqisao: u32,
) -> (r: McqRegisterLayout)
    ensures
        r.queue_config == (McqQueueConfigLayout {
            region: McqRegisterRegion::Hci,
            offset: queue_cfg_base,
            stride: MCQ_QCFG_STRIDE,
        }),
        r.oprs.sqd == (UfsMcqOprInfo {
            region: McqRegisterRegion::Hci,
            register_offset: sqdao as usize,
            config_offset: sqdao as usize,
            stride: MCQ_DEFAULT_OPR_STRIDE,
        }),
        r.oprs.sqis == (UfsMcqOprInfo {
            region: McqRegisterRegion::Hci,
            register_offset: sqisao as usize,
            config_offset: sqisao as usize,
            stride: MCQ_DEFAULT_OPR_STRIDE,
        }),
        r.oprs.cqd == (UfsMcqOprInfo {
            region: McqRegisterRegion::Hci,
            register_offset: cqdao as usize,
            config_offset: cqdao as usize,
            stride: MCQ_DEFAULT_OPR_STRIDE,
        }),
        r.oprs.cqis == (UfsMcqOprInfo {
            region: McqRegisterRegion::Hci,
            register_offset: cqisao as usize,
            config_offset: cqisao as usize,
            stride: MCQ_DEFAULT_OPR_STRIDE,
        }),
{
    let queue_config = McqQueueConfigLayout::new(
        McqRegisterRegion::Hci,
        queue_cfg_base,
        MCQ_QCFG_STRIDE,
    );
    let sqd = sqdao as usize;
    let sqis = sqisao as usize;
    let cqd = cqdao as usize;
    let cqis = cqisao as usize;
    McqRegisterLayout::new(
        queue_config,
        UfsMcqOprSet::new(
            UfsMcqOprInfo::new(McqRegisterRegion::Hci, sqd, sqd, MCQ_DEFAULT_OPR_STRIDE),
            UfsMcqOprInfo::new(McqRegisterRegion::Hci, sqis, sqis, MCQ_DEFAULT_OPR_STRIDE),
            UfsMcqOprInfo::new(McqRegisterRegion::Hci, cqd, cqd, MCQ_DEFAULT_OPR_STRIDE),
            UfsMcqOprInfo::new(McqRegisterRegion::Hci, cqis, cqis, MCQ_DEFAULT_OPR_STRIDE),
        ),
    )
}

} // verus!
