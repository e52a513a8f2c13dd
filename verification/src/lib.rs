//! A virtual machine for the CHIP-8 instruction set: 4 KiB of memory, sixteen
//! 8-bit registers, a sixteen-level call stack, two 60 Hz countdown timers, a
//! 64x32 monochrome framebuffer and a sixteen-key pad.
//!
//! The semantics of the machine are given as pure functions over the ghost
//! model [`machine::Machine`]; the executable [`Chip8`] is proved to follow
//! them instruction by instruction.

pub mod display;
pub mod entropy;
pub mod font;
pub mod laws;
pub mod machine;
pub mod opcode;
pub mod semantics;
pub mod vm;

pub use machine::Fault;
pub use vm::Chip8;
