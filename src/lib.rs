//! An interpreter core for the CHIP-8 virtual machine: instruction decoding,
//! the execution step, sprite compositing, timers and the key-wait state.
pub mod keys;
pub mod opcodes;
pub mod model;
mod wrap;
pub mod state;
pub mod laws;
