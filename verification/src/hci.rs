//! UFS host controller interface data structures.

pub mod descriptor;
