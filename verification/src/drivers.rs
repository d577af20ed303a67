//! Peripheral drivers. Each driver owns the plain-data image of its register
//! block and exposes operations whose contracts state the exact effect on
//! that image.

pub mod backup;
pub mod cpuss;
pub mod flashc;
pub mod ipc;
pub mod nvic;
pub mod pipes;
pub mod prot;
pub mod semaphore;
pub mod system;
