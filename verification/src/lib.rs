//! A CHIP-8 virtual machine: memory, registers, call stack, timers,
//! framebuffer and keypad latch, with a fetch-decode-execute interpreter.
//!
//! [`machine`] describes the machine as plain mathematics: its state and
//! what every instruction, key event and timer tick does to it. [`cpu`]
//! holds the machine that runs, [`Chip8`], whose every operation is proved
//! to do what [`machine`] says of it. [`instruction`] decodes opcodes,
//! [`display`] describes how sprites are drawn, [`input`] maps physical keys
//! onto the keypad, and [`emulator`] paces the machine against a clock and
//! turns its framebuffer into squares to show. [`laws`] states what holds
//! of the machine in general. [`rng`] is the source of random bytes.
//!
//! The library neither reads files nor opens windows: a driver hands it ROM
//! bytes, key events and elapsed time, and shows the frames it hands out.

pub mod cpu;
pub mod display;
pub mod emulator;
pub mod error;
pub mod input;
pub mod instruction;
pub mod laws;
pub mod machine;
pub mod rng;

pub use cpu::Chip8;
pub use emulator::{Emulator, Tile};
pub use error::Chip8Error;
pub use input::Keys;
pub use instruction::Instruction;
