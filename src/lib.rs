//! A CHIP-8 virtual machine whose instruction semantics are stated as
//! contracts over a mathematical model of the machine and proved by Verus.

pub mod emulator;
pub mod laws;
pub mod rng;
pub mod state;

pub use emulator::Emulator;
pub use state::{Chip8State, Fault, DISPLAY_HEIGHT, DISPLAY_WIDTH};
