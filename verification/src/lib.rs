//! Hardware abstraction layer for a dual-core PSoC 6 SoC, centred on the
//! inter-processor communication (IPC) subsystem: the per-channel hardware
//! lock protocol, the interrupt-routing fabric, a 128-flag semaphore built on
//! the reserved semaphore channel, and a full-duplex pipe built from two
//! channels.
//!
//! Every peripheral register block is represented by an owned, plain-data
//! image with a single owner, handed out once at start-up. All driver logic
//! is written and proved against that image; the binding that commits an
//! image to the memory-mapped silicon registers lives outside this crate.

pub mod clocks;
pub mod drivers;
pub mod error;
pub mod gpio;
pub mod psoc;
