//! A CHIP-8 interpreter core covering the original COSMAC VIP dialect and
//! its Super-CHIP and XO-CHIP successors.
//!
//! The crate models the virtual machine itself: registers, memory, the
//! framebuffer, the call stack, keypad, timers, the audio pattern generator,
//! a deterministic PRNG, instruction decoding and execution, and snapshotting
//! of the whole mutable state.  Host concerns (windowing, audio output, file
//! loading, the textual debugger shell) live outside this crate.

pub mod common;
pub mod register;
pub mod prng;
pub mod font;
pub mod display;
pub mod audio;
pub mod instruction;
pub mod cpu;
pub mod laws;
pub mod debugger;

pub use common::Chip8Mode;
pub use common::Error;
pub use cpu::CPU;
pub use register::Register;
