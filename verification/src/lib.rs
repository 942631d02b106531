//! Execution core of an 8-bit microprocessor: a register file, a seven-bit
//! status register, a flat 64 KiB byte-addressable memory, and a
//! fetch/decode/execute loop covering load, logical, shift, stack, transfer,
//! and control-flow instructions.
//!
//! Every instruction's effect on the machine is stated as a specification
//! transition over [`model::CpuView`], and the executable engine in [`cpu`]
//! is proved to follow those transitions step by step.

pub mod cpu;
pub mod laws;
pub mod memory;
pub mod model;
pub mod op_codes;
pub mod processor_status;
