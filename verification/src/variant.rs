//! Host-controller variant operations: where controllers differ from the
//! standard host controller interface.
use vstd::prelude::*;

use crate::error::{Error, Result};
use crate::frontend::pci::UfsPciVariant;
use crate::frontend::qcom::{
    qcom_mcq_layout, UfsQcomPlatform, PA_INITIAL_ADAPT, PA_NO_ADAPT, QCOM_MAX_MCQ_ACTIVE_COMMANDS, UFS_HS_G4,
};
use crate::reg::McqRegisterLayout;
use crate::uic::UfsPaLayerAttr;

verus! {

/// Before or after the step that a variant is notified of.
#[derive(Clone, Copy, Debug, PartialEq, Eq, Structural)]
pub enum NotifyPhase {
    Pre,
    Post,
}

/// The controller variant the driver is bound to.
#[derive(Clone, Copy, Debug, PartialEq, Eq, Structural)]
pub enum UfsVariant {
    Pci(UfsPciVariant),
    Qcom(UfsQcomPlatform),
}

impl UfsVariant {
    pub open spec fn spec_mcq_enabled(&self) -> bool {
        match *self {
            UfsVariant::Pci(_) => true,
            UfsVariant::Qcom(p) => p.has_mcq_resource,
        }
    }

    /// Whether the variant gives access to the MCQ registers.
    pub fn mcq_enabled(&self) -> (r: bool)
        ensures
            r == self.spec_mcq_enabled(),
    {
        match self {
            UfsVariant::Pci(_) => true,
            UfsVariant::Qcom(p) => p.has_mcq_resource,
        }
    }

    pub open spec fn spec_constrain_mcq_active_commands(&self, reported: usize) -> usize {
        match *self {
            UfsVariant::Pci(_) => reported,
            UfsVariant::Qcom(_) => if reported <= QCOM_MAX_MCQ_ACTIVE_COMMANDS {
                reported
            } else {
                QCOM_MAX_MCQ_ACTIVE_COMMANDS
            },
        }
    }

    /// The number of MCQ commands the variant allows at once, out of the
    /// `reported` the controller offers.
    pub fn constrain_mcq_active_commands(&self, reported: usize) -> (r: usize)
        ensures
            r == self.spec_constrain_mcq_active_commands(reported),
            r <= reported,
    {
        match self {
            UfsVariant::Pci(_) => reported,
            UfsVariant::Qcom(_) => if reported <= QCOM_MAX_MCQ_ACTIVE_COMMANDS {
                reported
            } else {
                QCOM_MAX_MCQ_ACTIVE_COMMANDS
            },
        }
    }

    /// The variant's own MCQ register layout, or `None` where the standard
    /// layout that the controller reports applies.
    pub fn mcq_register_layout(&self) -> (r: Option<Result<McqRegisterLayout>>)
        ensures
            match *self {
                UfsVariant::Pci(_) => r is None,
                UfsVariant::Qcom(p) => r == Some(
                    if p.has_mcq_resource {
                        Ok::<McqRegisterLayout, Error>(qcom_mcq_layout())
                    } else {
                        Err::<McqRegisterLayout, Error>(Error::NoDevice)
                    },
                ),
            },
    {
        match self {
            UfsVariant::Pci(_) => None,
            UfsVariant::Qcom(p) => Some(p.mcq_register_layout()),
        }
    }

    /// Whether link startup must be checked against the connected lanes.
    pub fn checks_connected_lanes(&self) -> (r: bool)
        ensures
            r == (*self is Qcom),
    {
        match self {
            UfsVariant::Pci(_) => false,
            UfsVariant::Qcom(_) => true,
        }
    }

    /// Whether link startup negotiated a usable link, given the connected
    /// lanes (which only the lane-checking variants consult).
    pub fn link_startup_valid(&self, rx_lanes: u32, tx_lanes: u32) -> (r: bool)
        ensures
            match *self {
                UfsVariant::Pci(_) => r,
                UfsVariant::Qcom(p) => r == (rx_lanes == p.expected_lanes && tx_lanes
                    == p.expected_lanes),
            },
    {
        match self {
            UfsVariant::Pci(_) => true,
            UfsVariant::Qcom(p) => p.connected_lanes_valid(rx_lanes, tx_lanes),
        }
    }

    /// The power mode to use instead of `desired`.
    pub fn constrain_power_mode(&self, desired: UfsPaLayerAttr) -> (r: Result<UfsPaLayerAttr>)
        ensures
            match *self {
                UfsVariant::Pci(_) => r == Ok::<UfsPaLayerAttr, Error>(desired),
                UfsVariant::Qcom(p) => r == p.spec_constrain_power_mode(desired),
            },
    {
        match self {
            UfsVariant::Pci(_) => Ok(desired),
            UfsVariant::Qcom(p) => p.constrain_power_mode(desired),
        }
    }

    /// The transmit adaptation type to set in phase `phase` of a power mode
    /// change to `mode`, if any.
    pub fn power_mode_adaptation(&self, mode: UfsPaLayerAttr, phase: NotifyPhase) -> (r: Option<
        u32,
    >)
        ensures
            match *self {
                UfsVariant::Pci(_) => r is None,
                UfsVariant::Qcom(p) => if phase == NotifyPhase::Pre && p.hardware_major >= 4 {
                    r == Some(
                        if mode.gear_tx >= UFS_HS_G4 {
                            PA_INITIAL_ADAPT
                        } else {
                            PA_NO_ADAPT
                        },
                    )
                } else {
                    r is None
                },
            },
    {
        match self {
            UfsVariant::Pci(_) => None,
            UfsVariant::Qcom(p) => match phase {
                NotifyPhase::Pre => p.power_mode_adaptation(mode),
                NotifyPhase::Post => None,
            },
        }
    }
}

} // verus!
