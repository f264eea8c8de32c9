//! UFS host-controller bus frontends: the per-platform knowledge the
//! driver needs.

pub mod pci;
pub mod qcom;
