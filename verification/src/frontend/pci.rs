//! PCI frontend: the controllers the driver binds to over PCI.
use vstd::prelude::*;

verus! {

pub const PCI_VENDOR_ID_REDHAT: u16 = 0x1b36;
pub const PCI_VENDOR_ID_SAMSUNG: u16 = 0x144d;
pub const PCI_VENDOR_ID_INTEL: u16 = 0x8086;

#[derive(Clone, Copy, Debug, PartialEq, Eq, Structural)]
pub enum UfsPciVariant {
    Qemu,
    Samsung,
    IntelCnl,
    IntelEhl,
    IntelLkf,
    IntelAdl,
    IntelMtl,
}

pub open spec fn pci_variant_text(v: UfsPciVariant) -> Seq<char> {
    match v {
        UfsPciVariant::Qemu => "qemu"@,
        UfsPciVariant::Samsung => "samsung"@,
        UfsPciVariant::IntelCnl => "intel-cnl"@,
        UfsPciVariant::IntelEhl => "intel-ehl"@,
        UfsPciVariant::IntelLkf => "intel-lkf"@,
        UfsPciVariant::IntelAdl => "intel-adl"@,
        UfsPciVariant::IntelMtl => "intel-mtl"@,
    }
}

/// The controller that PCI function `vendor:device` is, among those this
/// driver handles (the PCI IDs of the generic UFS PCI glue).
pub open spec fn spec_pci_variant(vendor: u16, device: u16) -> Option<UfsPciVariant> {
    if vendor == PCI_VENDOR_ID_REDHAT && device == 0x0013 {
        Some(UfsPciVariant::Qemu)
    } else if vendor == PCI_VENDOR_ID_SAMSUNG && device == 0xc00c {
        Some(UfsPciVariant::Samsung)
    } else if vendor == PCI_VENDOR_ID_INTEL && device == 0x9dfa {
        Some(UfsPciVariant::IntelCnl)
    } else if vendor == PCI_VENDOR_ID_INTEL && (device == 0x4b41 || device == 0x4b43) {
        Some(UfsPciVariant::IntelEhl)
    } else if vendor == PCI_VENDOR_ID_INTEL && device == 0x98fa {
        Some(UfsPciVariant::IntelLkf)
    } else if vendor == PCI_VENDOR_ID_INTEL && (device == 0x51ff || device == 0x54ff) {
        Some(UfsPciVariant::IntelAdl)
    } else if vendor == PCI_VENDOR_ID_INTEL && (device == 0x7e47 || device == 0xa847 || device
        == 0x7747 || device == 0xe447 || device == 0x4d47 || device == 0xd335) {
        Some(UfsPciVariant::IntelMtl)
    } else {
        None
    }
}

impl UfsPciVariant {
    pub fn name(self) -> (r: &'static str)
        ensures
            r@ == pci_variant_text(self),
    {
        match self {
            UfsPciVariant::Qemu => "qemu",
            UfsPciVariant::Samsung => "samsung",
            UfsPciVariant::IntelCnl => "intel-cnl",
            UfsPciVariant::IntelEhl => "intel-ehl",
            UfsPciVariant::IntelLkf => "intel-lkf",
            UfsPciVariant::IntelAdl => "intel-adl",
            UfsPciVariant::IntelMtl => "intel-mtl",
        }
    }

    /// Looks up a PCI function in the driver's ID table.
    pub fn from_id(vendor: u16, device: u16) -> (r: Option<UfsPciVariant>)
        ensures
            r == spec_pci_variant(vendor, device),
    {
        if vendor == PCI_VENDOR_ID_REDHAT && device == 0x0013 {
            Some(UfsPciVariant::Qemu)
        } else if vendor == PCI_VENDOR_ID_SAMSUNG && device == 0xc00c {
            Some(UfsPciVariant::Samsung)
        } else if vendor == PCI_VENDOR_ID_INTEL && device == 0x9dfa {
            Some(UfsPciVariant::IntelCnl)
        } else if vendor == PCI_VENDOR_ID_INTEL && (device == 0x4b41 || device == 0x4b43) {
            Some(UfsPciVariant::IntelEhl)
        } else if vendor == PCI_VENDOR_ID_INTEL && device == 0x98fa {
            Some(UfsPciVariant::IntelLkf)
        } else if vendor == PCI_VENDOR_ID_INTEL && (device == 0x51ff || device == 0x54ff) {
            Some(UfsPciVariant::IntelAdl)
        } else if vendor == PCI_VENDOR_ID_INTEL && (device == 0x7e47 || device == 0xa847 || device
            == 0x7747 || device == 0xe447 || device == 0x4d47 || device == 0xd335) {
            Some(UfsPciVariant::IntelMtl)
        } else {
            None
        }
    }
}

} // verus!
