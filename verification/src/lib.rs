//! Driver core for the INA260 power monitor: the 16-bit configuration word
//! with its disjoint bit-fields and masked-merge updates, the register wire
//! encoding (address-prefixed, big-endian 16-bit payloads), the raw-count
//! conversion pipeline, and the shadow-state device that keeps a local copy
//! of the last configuration word successfully written to the chip.
//!
//! The byte-level bus itself is not part of this crate's logic: the device
//! is generic over a [`device::Transport`] that the platform supplies.

pub mod config;
pub mod convert;
pub mod device;
pub mod regs;

pub use config::Averaging;
pub use config::BVConvTime;
pub use config::OperMode;
pub use config::SCConvTime;
pub use device::INA260;
pub use device::Transport;
pub use regs::Register;
