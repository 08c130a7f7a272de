//! A verified virtual machine for the Synacor challenge bytecode: a small
//! stack-and-register architecture with a 15-bit address space and 16-bit
//! words. The crate models the machine state mathematically, states the
//! effect of every instruction as a specification-level step function, and
//! proves that the executable fetch-decode-execute loop follows it exactly.

pub mod errors;
pub mod laws;
pub mod memory;
pub mod model;
pub mod operations;
pub mod program;
pub mod values;
