//! Witness construction and constraint modelling for a zkVM execution trace.
//!
//! The crate follows the trace from raw execution steps to circuit rows:
//! opcode handlers replay each step against the recorded machine state and
//! append typed read/write operations to a global, strictly ordered log; copy
//! events capture bulk byte transfers; and per-opcode gadgets declare the
//! algebraic constraints a row must satisfy together with the deterministic
//! assignment that fills the row from the recorded operations.

use vstd::prelude::*;

pub mod copy_event;
pub mod etable;
pub mod evm;
pub mod gadgets;
pub mod global_section;
pub mod keccak;
pub mod opcodes;
pub mod operation;
pub mod state;
pub mod wasm_bytecode;
pub mod wasm_tables;
pub mod types;

verus! {

/// Hard failures of trace-to-witness conversion. These abort the pipeline:
/// they mean the reference trace or the witness is internally inconsistent,
/// never that the traced program misbehaved.
#[derive(Clone, Copy, Debug, PartialEq, Eq, Structural)]
pub enum Error {
    /// A recorded value does not fit its target representation.
    ConversionError,
    /// The upstream trace is missing an expected step or value.
    InvalidGethExecStep,
    /// A witness value does not fit the row's numeric range.
    AssignmentFieldOverflow,
}

} // verus!
