//! Verified core of a UFS (Universal Flash Storage) host-controller driver:
//! wire formats, request bookkeeping, queue rings and the decisions taken
//! around the controller's registers.

pub mod command;
pub mod error;
pub mod bytes;
pub mod protocol;
pub mod queue;
pub mod hci;
pub mod reg;
pub mod uic;
pub mod frontend;
pub mod transport;
pub mod variant;
pub mod block;
pub mod dma;
pub mod lu;
pub mod irq;
pub mod host;
pub mod device;
