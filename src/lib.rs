//! An instruction-level emulator for an 8-bit 6502-family processor.
//!
//! The processor state lives in [`CPU`], the 64 KiB address space in [`MEM`].
//! Every operation is specified over `MEM`'s view (a `Seq<u8>` of 65,536 bytes)
//! and over plain copies of `CPU`, so that whole runs can be reasoned about with
//! the spec functions of [`cpu`].

pub mod memory;
pub mod cpu;
pub mod theorems;

pub use memory::MEM;
pub use cpu::{CPU, ExecError};
