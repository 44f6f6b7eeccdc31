//! A CHIP-8 interpreter core: memory, registers, timers, display buffer and
//! the instruction set, with the host's window, keyboard, clock and audio
//! reduced to plain values handed in and out.

pub mod state;
pub mod keypad;
pub mod semantics;
pub mod decode;
pub mod machine;
pub mod sprite;
mod random;
pub mod laws;
pub mod instruction_laws;

pub use machine::{Cpu, Machine};
pub use state::{Chip8Error, CycleReport, HostKey, Input, KeyWarning, Sound};
