//! The gadget layer: per-opcode constraint declarations and row assignment.
//!
//! A gadget's `configure` runs once, against a mutable constraint builder,
//! and declares cells and identities as plain data; the backend proving
//! system is out of scope here and consumes the frozen gate list. The
//! per-row `assign_exec_step` fills numeric values into the declared cells
//! from one executed step, and the crate proves that assigned rows satisfy
//! the declared identities.

pub mod codecopy;
pub mod constraint_builder;
pub mod error_oog_account_access;
pub mod expression;
pub mod return_revert;
pub mod table_fill;
