//! The execution core of a small 8-bit processor: registers, a status byte
//! with Zero and Negative flags, a flat byte-addressable memory and a
//! fetch-decode-execute loop over four immediate-mode opcodes.
//!
//! `machine` holds the mathematical model of the processor, `cpu` the
//! executable processor whose operations are proved against that model, and
//! `laws` the properties of whole runs that follow from it.
use vstd::prelude::*;

pub mod cpu;
pub mod error;
pub mod laws;
pub mod machine;

pub use cpu::CPU;
pub use error::CpuError;
