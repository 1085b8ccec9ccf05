//! A cycle-stepped functional simulator of a four-lane programmable I/O block:
//! instruction decoding, per-lane execution state, the memory-mapped register
//! bank and the pin array that instructions read and drive.

pub mod error;
pub mod gpio;
pub mod instructions;
pub mod memory_backing;
pub mod pio;
pub mod state_machine;

pub use error::PioError;
pub use gpio::{GpioView, GPIO};
pub use instructions::{
    InSource, JmpCondition, MovDestination, MovOp, MovSource, OutDestination, PIOInstruction,
    SetDestination, WaitPolarity, WaitSource,
};
pub use memory_backing::{LaneField, PIOMemoryBacking};
pub use pio::{PioView, PIO};
pub use state_machine::{LaneView, PIOStateMachine};
