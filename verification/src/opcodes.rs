//! Opcode handlers: one per opcode family, each replaying a raw trace step
//! against the recorded machine state and appending the exact operation
//! sequence the constraint layer expects.

pub mod caller;
pub mod extcodecopy;
pub mod origin;
