//! Gadget for the opcodes that end a call: successful return and revert.
//!
//! Four non-exclusive cases shape the gates, depending on whether the call
//! is a create, is the root, and succeeded: a successful create binds the
//! returned bytes to the deployed code hash through the copy table; a root
//! call ends the transaction with the stack pointer reset to full capacity
//! and the program counter reset to zero; a non-root call restores the
//! caller's frame (the caller's full register restore lives in the shared
//! restore-context machinery; here its call-id summary is constrained); a
//! non-root non-create call copies the returned bytes into the caller's
//! return-data window, two counter ticks per byte.

use vstd::prelude::*;

use crate::copy_event::CopyDataType;
use crate::evm::{OpcodeId, STACK_CAPACITY};
use crate::gadgets::constraint_builder::{all_hold, constraint_holds, memory_expansion_cost,
    memory_expansion_gas, Constraint, CopyId, EVMConstraintBuilder, RwEntry, StepContext};
use crate::gadgets::expression::{eval, eval_word, Expr, Row, StateField, StepState, WordExpr};
use crate::keccak::{keccak256, keccak_of};
use crate::operation::CallContextField;
use crate::state::ExecState;
use crate::types::{be_bytes_value, Word};
use crate::Error;

verus! {

/// Shorthand spec constructors for the expression tree.
pub open spec fn e_add(a: Expr, b: Expr) -> Expr {
    Expr::Add(Box::new(a), Box::new(b))
}

pub open spec fn e_sub(a: Expr, b: Expr) -> Expr {
    Expr::Sub(Box::new(a), Box::new(b))
}

pub open spec fn e_mul(a: Expr, b: Expr) -> Expr {
    Expr::Mul(Box::new(a), Box::new(b))
}

/// One minus the given expression.
pub open spec fn e_not(a: Expr) -> Expr {
    e_sub(Expr::Const(1), a)
}

/// The deployment condition: a successful create with bytes returned.
pub open spec fn rr_dep_cond() -> Expr {
    e_mul(
        e_mul(Expr::Curr(StateField::IsCreate), Expr::Cell(3)),
        e_not(Expr::Cell(5)),
    )
}

/// The minimum of the caller's requested length and the returned length.
pub open spec fn rr_min_expr() -> Expr {
    e_add(
        e_mul(Expr::Cell(12), Expr::Cell(11)),
        e_mul(e_not(Expr::Cell(12)), Expr::Cell(1)),
    )
}

/// The full gate list of the gadget, in declaration order.
pub open spec fn rr_constraints() -> Seq<Constraint> {
    let is_root = Expr::Curr(StateField::IsRoot);
    let is_create = Expr::Curr(StateField::IsCreate);
    let dep = rr_dep_cond();
    seq![
        Constraint::StackLookup {
            cond: Expr::Const(1),
            rw_index: 0,
            is_write: false,
            sp_offset: 0,
            value: Expr::Cell(1),
        },
        Constraint::StackLookup {
            cond: Expr::Const(1),
            rw_index: 1,
            is_write: false,
            sp_offset: 1,
            value: Expr::Cell(2),
        },
        Constraint::CallContextLookup {
            cond: Expr::Const(1),
            rw_index: 2,
            is_write: false,
            field: CallContextField::IsSuccess,
            value: Expr::Cell(3),
        },
        Constraint::Boolean(Expr::Cell(3)),
        Constraint::Poly(
            e_sub(
                Expr::Cell(0),
                e_add(
                    e_mul(Expr::Cell(3), Expr::Const(0xf3)),
                    e_mul(e_not(Expr::Cell(3)), Expr::Const(0xfd)),
                ),
            ),
        ),
        Constraint::IsZero { cond: Expr::Const(1), value: Expr::Cell(4), result: Expr::Cell(5) },
        Constraint::Poly(
            e_mul(
                e_mul(Expr::Curr(StateField::IsCreate), Expr::Cell(3)),
                e_sub(Expr::Cell(4), Expr::Cell(1)),
            ),
        ),
        Constraint::CopyTableLookup {
            cond: rr_dep_cond(),
            src_id: CopyId::Num(Expr::Curr(StateField::CallId)),
            src_type: CopyDataType::Memory,
            dst_id: CopyId::Wide(WordExpr::WordCell(0)),
            dst_type: CopyDataType::Bytecode,
            src_addr: Expr::Cell(2),
            src_addr_end: e_add(Expr::Cell(2), Expr::Cell(1)),
            dst_addr: Expr::Const(0),
            length: Expr::Cell(1),
            rwc_inc: Expr::Cell(4),
        },
        Constraint::CallContextLookup {
            cond: rr_dep_cond(),
            rw_index: 3,
            is_write: false,
            field: CallContextField::CallerId,
            value: Expr::Cell(6),
        },
        Constraint::CallContextWideLookup {
            cond: rr_dep_cond(),
            rw_index: 4,
            is_write: false,
            field: CallContextField::CalleeAddress,
            value: WordExpr::WordCell(1),
        },
        Constraint::CallContextLookup {
            cond: rr_dep_cond(),
            rw_index: 5,
            is_write: false,
            field: CallContextField::RwCounterEndOfReversion,
            value: Expr::Cell(7),
        },
        Constraint::CallContextLookup {
            cond: rr_dep_cond(),
            rw_index: 6,
            is_write: false,
            field: CallContextField::IsPersistent,
            value: Expr::Cell(8),
        },
        Constraint::AccountWriteLookup {
            cond: rr_dep_cond(),
            rw_index: 7,
            field: crate::operation::AccountField::CodeHash,
            address: WordExpr::WordCell(1),
            value: WordExpr::WordCell(0),
            value_prev: WordExpr::ZeroHash,
        },
        Constraint::NextExecState { cond: Expr::Curr(StateField::IsRoot), state: ExecState::EndTx },
        Constraint::CallContextLookup {
            cond: e_mul(Expr::Curr(StateField::IsRoot), e_not(rr_dep_cond())),
            rw_index: 3,
            is_write: false,
            field: CallContextField::IsPersistent,
            value: Expr::Cell(3),
        },
        Constraint::CallContextLookup {
            cond: e_mul(Expr::Curr(StateField::IsRoot), rr_dep_cond()),
            rw_index: 8,
            is_write: false,
            field: CallContextField::IsPersistent,
            value: Expr::Cell(3),
        },
        Constraint::Poly(
            e_mul(
                Expr::Curr(StateField::IsRoot),
                e_sub(Expr::Next(StateField::ProgramCounter), Expr::Const(0)),
            ),
        ),
        Constraint::Poly(
            e_mul(
                Expr::Curr(StateField::IsRoot),
                e_sub(Expr::Next(StateField::StackPointer), Expr::Const(1024)),
            ),
        ),
        Constraint::Poly(
            e_mul(
                Expr::Curr(StateField::IsRoot),
                e_sub(
                    e_sub(
                        Expr::Next(StateField::RwCounter),
                        Expr::Curr(StateField::RwCounter),
                    ),
                    e_add(
                        e_add(Expr::Const(4), e_mul(rr_dep_cond(), Expr::Const(5))),
                        e_mul(
                            e_not(Expr::Cell(3)),
                            Expr::Curr(StateField::ReversibleWriteCounter),
                        ),
                    ),
                ),
            ),
        ),
        Constraint::Poly(
            e_mul(
                Expr::Curr(StateField::IsRoot),
                Expr::Next(StateField::ReversibleWriteCounter),
            ),
        ),
        Constraint::Poly(
            e_mul(Expr::Curr(StateField::IsRoot), Expr::Next(StateField::MemoryWordSize)),
        ),
        Constraint::CallContextLookup {
            cond: e_mul(e_not(Expr::Curr(StateField::IsRoot)), e_not(rr_dep_cond())),
            rw_index: 3,
            is_write: false,
            field: CallContextField::CallerId,
            value: Expr::Cell(9),
        },
        Constraint::CallContextLookup {
            cond: e_mul(e_not(Expr::Curr(StateField::IsRoot)), rr_dep_cond()),
            rw_index: 8,
            is_write: false,
            field: CallContextField::CallerId,
            value: Expr::Cell(9),
        },
        Constraint::Poly(
            e_mul(
                e_not(Expr::Curr(StateField::IsRoot)),
                e_sub(Expr::Next(StateField::CallId), Expr::Cell(9)),
            ),
        ),
        Constraint::CallContextLookup {
            cond: e_mul(e_not(Expr::Curr(StateField::IsCreate)), e_not(Expr::Curr(StateField::IsRoot))),
            rw_index: 4,
            is_write: false,
            field: CallContextField::ReturnDataOffset,
            value: Expr::Cell(10),
        },
        Constraint::CallContextLookup {
            cond: e_mul(e_not(Expr::Curr(StateField::IsCreate)), e_not(Expr::Curr(StateField::IsRoot))),
            rw_index: 5,
            is_write: false,
            field: CallContextField::ReturnDataLength,
            value: Expr::Cell(11),
        },
        Constraint::Lt {
            cond: e_mul(e_not(Expr::Curr(StateField::IsCreate)), e_not(Expr::Curr(StateField::IsRoot))),
            lhs: Expr::Cell(11),
            rhs: Expr::Cell(1),
            result: Expr::Cell(12),
        },
        Constraint::Poly(
            e_mul(
                e_mul(e_not(Expr::Curr(StateField::IsCreate)), e_not(Expr::Curr(StateField::IsRoot))),
                e_sub(e_add(rr_min_expr(), rr_min_expr()), Expr::Cell(4)),
            ),
        ),
        Constraint::CopyTableLookup {
            cond: e_mul(
                e_mul(e_not(Expr::Curr(StateField::IsCreate)), e_not(Expr::Curr(StateField::IsRoot))),
                e_not(Expr::Cell(5)),
            ),
            src_id: CopyId::Num(Expr::Curr(StateField::CallId)),
            src_type: CopyDataType::Memory,
            dst_id: CopyId::Num(Expr::Next(StateField::CallId)),
            dst_type: CopyDataType::Memory,
            src_addr: Expr::Cell(2),
            src_addr_end: e_add(Expr::Cell(2), Expr::Cell(1)),
            dst_addr: Expr::Cell(10),
            length: rr_min_expr(),
            rwc_inc: Expr::Cell(4),
        },
        Constraint::Poly(
            e_mul(
                e_mul(e_not(Expr::Curr(StateField::IsCreate)), Expr::Curr(StateField::IsRoot)),
                Expr::Cell(4),
            ),
        ),
        Constraint::MemoryExpansion {
            cond: Expr::Const(1),
            curr_words: Expr::Curr(StateField::MemoryWordSize),
            next_words: Expr::Next(StateField::MemoryWordSize),
            cost: Expr::Cell(13),
        },
        Constraint::Poly(
            e_mul(
                Expr::Curr(StateField::IsRoot),
                e_sub(
                    e_sub(Expr::Curr(StateField::GasLeft), Expr::Next(StateField::GasLeft)),
                    Expr::Cell(13),
                ),
            ),
        ),
    ]
}

/// Cell layout of the gadget.
pub struct EvmReturnRevertGadget {
    pub opcode: usize,
    pub length: usize,
    pub offset: usize,
    pub is_success: usize,
    pub copy_rw_increase: usize,
    pub copy_rw_increase_is_zero: usize,
    pub caller_id: usize,
    pub rw_counter_end_of_reversion: usize,
    pub is_persistent: usize,
    pub restore_caller_id: usize,
    pub return_data_offset: usize,
    pub return_data_length: usize,
    pub copy_length_lt: usize,
    pub memory_expansion: usize,
    pub code_hash: usize,
    pub address: usize,
    pub n_cells: usize,
    pub n_word_cells: usize,
}

impl EvmReturnRevertGadget {
    /// Declares the gadget's cells and identities on a fresh builder; the
    /// frozen list is exactly `rr_constraints`.
    pub fn configure(cb: &mut EVMConstraintBuilder) -> (r: EvmReturnRevertGadget)
        requires
            old(cb).n_cells == 0,
            old(cb).n_word_cells == 0,
            old(cb).rw_counter_offset == 0,
            old(cb).stack_pointer_offset == 0,
            old(cb).constraints@.len() == 0,
        ensures
            r.n_cells == final(cb).n_cells && r.n_cells == 14,
            r.n_word_cells == final(cb).n_word_cells && r.n_word_cells == 2,
            r.opcode == 0 && r.length == 1 && r.offset == 2 && r.is_success == 3
                && r.copy_rw_increase == 4 && r.copy_rw_increase_is_zero == 5 && r.caller_id == 6
                && r.rw_counter_end_of_reversion == 7 && r.is_persistent == 8
                && r.restore_caller_id == 9 && r.return_data_offset == 10 && r.return_data_length
                == 11 && r.copy_length_lt == 12 && r.memory_expansion == 13 && r.code_hash == 0
                && r.address == 1,
            final(cb).constraints@ =~= rr_constraints(),
    {
        let opcode = cb.query_cell();
        let length = cb.query_cell();
        let offset = cb.query_cell();
        let is_success = cb.query_cell();
        let copy_rw_increase = cb.query_cell();
        let copy_rw_increase_is_zero = cb.query_cell();
        let caller_id = cb.query_cell();
        let rw_counter_end_of_reversion = cb.query_cell();
        let is_persistent = cb.query_cell();
        let restore_caller_id = cb.query_cell();
        let return_data_offset = cb.query_cell();
        let return_data_length = cb.query_cell();
        let copy_length_lt = cb.query_cell();
        let memory_expansion = cb.query_cell();
        let code_hash = cb.query_word_cell();
        let address = cb.query_word_cell();

        let cs = rr_constraints_exec();
        let mut i: usize = 0;
        let n: usize = cs.len();
        // The declarations are data; install them in order.
        let mut cs_mut = cs;
        while i < n
            invariant
                i <= n,
                n == rr_constraints().len(),
                cs_mut@.len() == n - i,
                forall|j: int| 0 <= j < n - i ==> rr_eq(#[trigger] cs_mut@[j], rr_constraints()[i + j]),
                cb.constraints@.len() == i,
                forall|j: int| 0 <= j < i ==> rr_eq(#[trigger] cb.constraints@[j], rr_constraints()[j]),
                cb.n_cells == old(cb).n_cells + 14,
                cb.n_word_cells == old(cb).n_word_cells + 2,
                cb.rw_counter_offset == old(cb).rw_counter_offset,
                cb.stack_pointer_offset == old(cb).stack_pointer_offset,
            decreases n - i,
        {
            let c = cs_mut.remove(0);
            cb.push_constraint(c);
            i = i + 1;
        }
        proof {
            assert(cb.constraints@.len() == rr_constraints().len());
            assert forall|j: int| 0 <= j < rr_constraints().len() implies cb.constraints@[j]
                == rr_constraints()[j] by {
                assert(rr_eq(cb.constraints@[j], rr_constraints()[j]));
            }
            assert(cb.constraints@ =~= rr_constraints());
        }
        EvmReturnRevertGadget {
            opcode,
            length,
            offset,
            is_success,
            copy_rw_increase,
            copy_rw_increase_is_zero,
            caller_id,
            rw_counter_end_of_reversion,
            is_persistent,
            restore_caller_id,
            return_data_offset,
            return_data_length,
            copy_length_lt,
            memory_expansion,
            code_hash,
            address,
            n_cells: cb.n_cells,
            n_word_cells: cb.n_word_cells,
        }
    }
}

/// Spec-level equality of constraints used while installing the list.
pub open spec fn rr_eq(a: Constraint, b: Constraint) -> bool {
    a == b
}

/// The declared constraints as a vector value, agreeing entry by entry
/// with `rr_constraints`.
pub fn rr_constraints_exec() -> (r: Vec<Constraint>)
    ensures
        r@.len() == rr_constraints().len(),
        forall|j: int| 0 <= j < r@.len() ==> rr_eq(#[trigger] r@[j], rr_constraints()[j]),
{
    let mut v: Vec<Constraint> = Vec::new();
    v.push(
        Constraint::StackLookup {
            cond: Expr::Const(1),
            rw_index: 0,
            is_write: false,
            sp_offset: 0,
            value: Expr::Cell(1),
        },
    );
    v.push(
        Constraint::StackLookup {
            cond: Expr::Const(1),
            rw_index: 1,
            is_write: false,
            sp_offset: 1,
            value: Expr::Cell(2),
        },
    );
    v.push(
        Constraint::CallContextLookup {
            cond: Expr::Const(1),
            rw_index: 2,
            is_write: false,
            field: CallContextField::IsSuccess,
            value: Expr::Cell(3),
        },
    );
    v.push(Constraint::Boolean(Expr::Cell(3)));
    v.push(
        Constraint::Poly(
            x_sub(
                Expr::Cell(0),
                x_add(
                    x_mul(Expr::Cell(3), Expr::Const(0xf3)),
                    x_mul(x_not(Expr::Cell(3)), Expr::Const(0xfd)),
                ),
            ),
        ),
    );
    v.push(
        Constraint::IsZero { cond: Expr::Const(1), value: Expr::Cell(4), result: Expr::Cell(5) },
    );
    v.push(
        Constraint::Poly(
            x_mul(
                x_mul(Expr::Curr(StateField::IsCreate), Expr::Cell(3)),
                x_sub(Expr::Cell(4), Expr::Cell(1)),
            ),
        ),
    );
    v.push(
        Constraint::CopyTableLookup {
            cond: x_dep(),
            src_id: CopyId::Num(Expr::Curr(StateField::CallId)),
            src_type: CopyDataType::Memory,
            dst_id: CopyId::Wide(WordExpr::WordCell(0)),
            dst_type: CopyDataType::Bytecode,
            src_addr: Expr::Cell(2),
            src_addr_end: x_add(Expr::Cell(2), Expr::Cell(1)),
            dst_addr: Expr::Const(0),
            length: Expr::Cell(1),
            rwc_inc: Expr::Cell(4),
        },
    );
    v.push(
        Constraint::CallContextLookup {
            cond: x_dep(),
            rw_index: 3,
            is_write: false,
            field: CallContextField::CallerId,
            value: Expr::Cell(6),
        },
    );
    v.push(
        Constraint::CallContextWideLookup {
            cond: x_dep(),
            rw_index: 4,
            is_write: false,
            field: CallContextField::CalleeAddress,
            value: WordExpr::WordCell(1),
        },
    );
    v.push(
        Constraint::CallContextLookup {
            cond: x_dep(),
            rw_index: 5,
            is_write: false,
            field: CallContextField::RwCounterEndOfReversion,
            value: Expr::Cell(7),
        },
    );
    v.push(
        Constraint::CallContextLookup {
            cond: x_dep(),
            rw_index: 6,
            is_write: false,
            field: CallContextField::IsPersistent,
            value: Expr::Cell(8),
        },
    );
    v.push(
        Constraint::AccountWriteLookup {
            cond: x_dep(),
            rw_index: 7,
            field: crate::operation::AccountField::CodeHash,
            address: WordExpr::WordCell(1),
            value: WordExpr::WordCell(0),
            value_prev: WordExpr::ZeroHash,
        },
    );
    v.push(
        Constraint::NextExecState {
            cond: Expr::Curr(StateField::IsRoot),
            state: ExecState::EndTx,
        },
    );
    v.push(
        Constraint::CallContextLookup {
            cond: x_mul(Expr::Curr(StateField::IsRoot), x_not(x_dep())),
            rw_index: 3,
            is_write: false,
            field: CallContextField::IsPersistent,
            value: Expr::Cell(3),
        },
    );
    v.push(
        Constraint::CallContextLookup {
            cond: x_mul(Expr::Curr(StateField::IsRoot), x_dep()),
            rw_index: 8,
            is_write: false,
            field: CallContextField::IsPersistent,
            value: Expr::Cell(3),
        },
    );
    v.push(
        Constraint::Poly(
            x_mul(
                Expr::Curr(StateField::IsRoot),
                x_sub(Expr::Next(StateField::ProgramCounter), Expr::Const(0)),
            ),
        ),
    );
    v.push(
        Constraint::Poly(
            x_mul(
                Expr::Curr(StateField::IsRoot),
                x_sub(Expr::Next(StateField::StackPointer), Expr::Const(1024)),
            ),
        ),
    );
    v.push(
        Constraint::Poly(
            x_mul(
                Expr::Curr(StateField::IsRoot),
                x_sub(
                    x_sub(
                        Expr::Next(StateField::RwCounter),
                        Expr::Curr(StateField::RwCounter),
                    ),
                    x_add(
                        x_add(Expr::Const(4), x_mul(x_dep(), Expr::Const(5))),
                        x_mul(
                            x_not(Expr::Cell(3)),
                            Expr::Curr(StateField::ReversibleWriteCounter),
                        ),
                    ),
                ),
            ),
        ),
    );
    v.push(
        Constraint::Poly(
            x_mul(
                Expr::Curr(StateField::IsRoot),
                Expr::Next(StateField::ReversibleWriteCounter),
            ),
        ),
    );
    v.push(
        Constraint::Poly(
            x_mul(Expr::Curr(StateField::IsRoot), Expr::Next(StateField::MemoryWordSize)),
        ),
    );
    v.push(
        Constraint::CallContextLookup {
            cond: x_mul(x_not(Expr::Curr(StateField::IsRoot)), x_not(x_dep())),
            rw_index: 3,
            is_write: false,
            field: CallContextField::CallerId,
            value: Expr::Cell(9),
        },
    );
    v.push(
        Constraint::CallContextLookup {
            cond: x_mul(x_not(Expr::Curr(StateField::IsRoot)), x_dep()),
            rw_index: 8,
            is_write: false,
            field: CallContextField::CallerId,
            value: Expr::Cell(9),
        },
    );
    v.push(
        Constraint::Poly(
            x_mul(
                x_not(Expr::Curr(StateField::IsRoot)),
                x_sub(Expr::Next(StateField::CallId), Expr::Cell(9)),
            ),
        ),
    );
    v.push(
        Constraint::CallContextLookup {
            cond: x_mul(
                x_not(Expr::Curr(StateField::IsCreate)),
                x_not(Expr::Curr(StateField::IsRoot)),
            ),
            rw_index: 4,
            is_write: false,
            field: CallContextField::ReturnDataOffset,
            value: Expr::Cell(10),
        },
    );
    v.push(
        Constraint::CallContextLookup {
            cond: x_mul(
                x_not(Expr::Curr(StateField::IsCreate)),
                x_not(Expr::Curr(StateField::IsRoot)),
            ),
            rw_index: 5,
            is_write: false,
            field: CallContextField::ReturnDataLength,
            value: Expr::Cell(11),
        },
    );
    v.push(
        Constraint::Lt {
            cond: x_mul(
                x_not(Expr::Curr(StateField::IsCreate)),
                x_not(Expr::Curr(StateField::IsRoot)),
            ),
            lhs: Expr::Cell(11),
            rhs: Expr::Cell(1),
            result: Expr::Cell(12),
        },
    );
    v.push(
        Constraint::Poly(
            x_mul(
                x_mul(
                    x_not(Expr::Curr(StateField::IsCreate)),
                    x_not(Expr::Curr(StateField::IsRoot)),
                ),
                x_sub(x_add(x_min(), x_min()), Expr::Cell(4)),
            ),
        ),
    );
    v.push(
        Constraint::CopyTableLookup {
            cond: x_mul(
                x_mul(
                    x_not(Expr::Curr(StateField::IsCreate)),
                    x_not(Expr::Curr(StateField::IsRoot)),
                ),
                x_not(Expr::Cell(5)),
            ),
            src_id: CopyId::Num(Expr::Curr(StateField::CallId)),
            src_type: CopyDataType::Memory,
            dst_id: CopyId::Num(Expr::Next(StateField::CallId)),
            dst_type: CopyDataType::Memory,
            src_addr: Expr::Cell(2),
            src_addr_end: x_add(Expr::Cell(2), Expr::Cell(1)),
            dst_addr: Expr::Cell(10),
            length: x_min(),
            rwc_inc: Expr::Cell(4),
        },
    );
    v.push(
        Constraint::Poly(
            x_mul(
                x_mul(x_not(Expr::Curr(StateField::IsCreate)), Expr::Curr(StateField::IsRoot)),
                Expr::Cell(4),
            ),
        ),
    );
    v.push(
        Constraint::MemoryExpansion {
            cond: Expr::Const(1),
            curr_words: Expr::Curr(StateField::MemoryWordSize),
            next_words: Expr::Next(StateField::MemoryWordSize),
            cost: Expr::Cell(13),
        },
    );
    v.push(
        Constraint::Poly(
            x_mul(
                Expr::Curr(StateField::IsRoot),
                x_sub(
                    x_sub(Expr::Curr(StateField::GasLeft), Expr::Next(StateField::GasLeft)),
                    Expr::Cell(13),
                ),
            ),
        ),
    );
    v
}

/// Runtime constructors matching the spec shorthands.
fn x_add(a: Expr, b: Expr) -> (r: Expr)
    ensures
        r == e_add(a, b),
{
    Expr::Add(Box::new(a), Box::new(b))
}

fn x_sub(a: Expr, b: Expr) -> (r: Expr)
    ensures
        r == e_sub(a, b),
{
    Expr::Sub(Box::new(a), Box::new(b))
}

fn x_mul(a: Expr, b: Expr) -> (r: Expr)
    ensures
        r == e_mul(a, b),
{
    Expr::Mul(Box::new(a), Box::new(b))
}

fn x_not(a: Expr) -> (r: Expr)
    ensures
        r == e_not(a),
{
    Expr::Sub(Box::new(Expr::Const(1)), Box::new(a))
}

fn x_dep() -> (r: Expr)
    ensures
        r == rr_dep_cond(),
{
    x_mul(
        x_mul(Expr::Curr(StateField::IsCreate), Expr::Cell(3)),
        x_not(Expr::Cell(5)),
    )
}

fn x_min() -> (r: Expr)
    ensures
        r == rr_min_expr(),
{
    x_add(
        x_mul(Expr::Cell(12), Expr::Cell(11)),
        x_mul(x_not(Expr::Cell(12)), Expr::Cell(1)),
    )
}

/// The root case ends the transaction: any context satisfying the gates
/// whose current step is a root call transitions to the end-transaction
/// state with the program counter reset to zero and the stack pointer
/// reset to full capacity, regardless of how many bytes were returned.
#[verifier::rlimit(100)]
pub proof fn lemma_return_root_ends_transaction(ctx: StepContext)
    requires
        all_hold(rr_constraints(), ctx),
        ctx.curr.is_root,
    ensures
        ctx.next.execution_state == ExecState::EndTx,
        ctx.next.program_counter == 0,
        ctx.next.stack_pointer == STACK_CAPACITY,
        ctx.next.reversible_write_counter == 0,
        ctx.next.memory_word_size == 0,
{
    reveal_with_fuel(eval, 10);
    let cs = rr_constraints();
    assert(constraint_holds(cs[13], ctx));
    assert(constraint_holds(cs[16], ctx));
    assert(constraint_holds(cs[17], ctx));
    assert(constraint_holds(cs[19], ctx));
    assert(constraint_holds(cs[20], ctx));
    assert(eval(Expr::Curr(StateField::IsRoot), ctx.ectx()) == 1);
    assert(ctx.next.program_counter == 0) by {
        assert(eval(Expr::Next(StateField::ProgramCounter), ctx.ectx())
            == ctx.next.program_counter);
        assert(1 * (ctx.next.program_counter - 0) == ctx.next.program_counter - 0)
            by (nonlinear_arith);
    }
    assert(ctx.next.stack_pointer == STACK_CAPACITY) by {
        assert(1 * (ctx.next.stack_pointer - 1024) == ctx.next.stack_pointer - 1024)
            by (nonlinear_arith);
    }
    assert(ctx.next.reversible_write_counter == 0) by {
        assert(1 * (ctx.next.reversible_write_counter as int)
            == ctx.next.reversible_write_counter as int) by (nonlinear_arith);
    }
    assert(ctx.next.memory_word_size == 0) by {
        assert(1 * (ctx.next.memory_word_size as int) == ctx.next.memory_word_size as int)
            by (nonlinear_arith);
    }
}

/// The copy counter increment the step's row carries: one tick per
/// deployed byte for a successful create, two ticks per byte of the
/// capped return-data copy for a non-root call, zero otherwise.
pub open spec fn rr_copy_rw_increase(call: crate::state::Call, length: u64) -> int {
    if call.is_create && call.is_success {
        length as int
    } else if !call.is_root {
        2 * (if call.return_data_length < length {
            call.return_data_length as int
        } else {
            length as int
        })
    } else {
        0
    }
}

/// The bytes a successful create returned, as recorded by the step's
/// memory reads following the deployment context reads.
pub open spec fn rr_deployed_bytes(rws: Seq<RwEntry>, length: u64) -> Seq<u8> {
    Seq::new(length as nat, |i: int| match rws[8 + i] {
        RwEntry::Memory { value, .. } => value,
        _ => 0u8,
    })
}

/// The rw shapes of a root, non-create step of this gadget.
pub open spec fn rr_root_rws_well_formed(curr: StepState, rws: Seq<RwEntry>, success: bool) -> bool {
    &&& rws.len() >= 4
    &&& (rws[0] matches RwEntry::Stack { call_id, address, is_write, .. } && call_id as int
        == curr.call_id && address as int == curr.stack_pointer && !is_write)
    &&& (rws[1] matches RwEntry::Stack { call_id, address, is_write, .. } && call_id as int
        == curr.call_id && address as int == curr.stack_pointer + 1 && !is_write)
    &&& (rws[2] matches RwEntry::CallContextEntry { call_id, field, is_write, value }
        && call_id as int == curr.call_id && field == CallContextField::IsSuccess && !is_write
        && value.value() == if success { 1int } else { 0int })
    &&& (rws[3] matches RwEntry::CallContextEntry { call_id, field, is_write, value }
        && call_id as int == curr.call_id && field == CallContextField::IsPersistent && !is_write
        && value.value() == if success { 1int } else { 0int })
}

impl EvmReturnRevertGadget {
    /// Fills the row for one step from the recorded operations. For a
    /// successful create, the deployed code hash is the digest of the
    /// returned bytes. For a root non-create step whose trace is
    /// well-formed, the assigned row satisfies every declared gate.
    #[verifier::rlimit(100)]
    pub fn assign_exec_step(
        &self,
        row: &mut Row,
        op: OpcodeId,
        call: &crate::state::Call,
        curr: &StepState,
        next: &StepState,
        rws: &Vec<RwEntry>,
    ) -> (r: Result<(), Error>)
        requires
            self.opcode == 0 && self.length == 1 && self.offset == 2 && self.is_success == 3
                && self.copy_rw_increase == 4 && self.copy_rw_increase_is_zero == 5
                && self.caller_id == 6 && self.rw_counter_end_of_reversion == 7
                && self.is_persistent == 8 && self.restore_caller_id == 9
                && self.return_data_offset == 10 && self.return_data_length == 11
                && self.copy_length_lt == 12 && self.memory_expansion == 13 && self.code_hash
                == 0 && self.address == 1 && self.n_cells == 14 && self.n_word_cells == 2,
            old(row).cells@.len() == 14,
            old(row).word_cells@.len() == 2,
            rws@.len() >= 2,
            (rws@[0] matches RwEntry::Stack { .. }),
            (rws@[1] matches RwEntry::Stack { .. }),
            call.is_create && call.is_success ==> ({
                let l = match rws@[0] {
                    RwEntry::Stack { value, .. } => value,
                    _ => 0u64,
                };
                &&& rws@.len() >= 8 + l
                &&& l <= usize::MAX
                &&& forall|i: int|
                    0 <= i < l ==> (#[trigger] rws@[8 + i] matches RwEntry::Memory { .. })
            }),
            call.caller_id <= u64::MAX,
            call.return_data_offset <= u64::MAX,
            call.return_data_length <= u64::MAX / 2,
            call.rw_counter_end_of_reversion <= u64::MAX,
            curr.memory_word_size <= 0x2000_0000,
            next.memory_word_size <= 0x2000_0000,
        ensures
            r == Ok::<(), Error>(()),
            final(row).cells@.len() == 14,
            final(row).word_cells@.len() == 2,
            ({
                let l = match rws@[0] {
                    RwEntry::Stack { value, .. } => value,
                    _ => 0u64,
                };
                let off = match rws@[1] {
                    RwEntry::Stack { value, .. } => value,
                    _ => 0u64,
                };
                &&& final(row).cells@[0] == op.spec_as_u64()
                &&& final(row).cells@[1] == l
                &&& final(row).cells@[2] == off
                &&& final(row).cells@[3] == (if call.is_success {
                    1u64
                } else {
                    0u64
                })
                &&& final(row).cells@[4] == rr_copy_rw_increase(*call, l)
                &&& final(row).cells@[5] == (if rr_copy_rw_increase(*call, l) == 0 {
                    1u64
                } else {
                    0u64
                })
                &&& final(row).cells@[6] == call.caller_id
                &&& final(row).cells@[7] == call.rw_counter_end_of_reversion
                &&& final(row).cells@[8] == (if call.is_persistent {
                    1u64
                } else {
                    0u64
                })
                &&& final(row).cells@[9] == call.caller_id
                &&& final(row).cells@[10] == call.return_data_offset
                &&& final(row).cells@[11] == call.return_data_length
                &&& final(row).cells@[12] == (if call.return_data_length < l {
                    1u64
                } else {
                    0u64
                })
                &&& final(row).cells@[13] == memory_expansion_gas(
                    curr.memory_word_size as int,
                    next.memory_word_size as int,
                )
                &&& final(row).word_cells@[1].value() == be_bytes_value(
                    call.callee_address.bytes@,
                )
                &&& (!(call.is_create && call.is_success) ==> final(row).word_cells@[0] == old(
                    row,
                ).word_cells@[0])
            }),
            ({
                let l = match rws@[0] {
                    RwEntry::Stack { value, .. } => value,
                    _ => 0u64,
                };
                call.is_create && call.is_success ==> eval_word(
                    WordExpr::WordCell(0),
                    (StepContext {
                        cells: final(row).cells@,
                        word_cells: final(row).word_cells@,
                        curr: *curr,
                        next: *next,
                        rws: rws@,
                        copies: Seq::empty(),
                        codes: Seq::empty(),
                    }).ectx(),
                ).value() == be_bytes_value(keccak_of(rr_deployed_bytes(rws@, l)))
            }),
            ({
                let l = match rws@[0] {
                    RwEntry::Stack { value, .. } => value,
                    _ => 0u64,
                };
                (curr.is_root && !curr.is_create && call.is_root && !call.is_create
                    && rr_root_rws_well_formed(*curr, rws@, call.is_success) && op == (
                if call.is_success {
                    OpcodeId::RETURN
                } else {
                    OpcodeId::REVERT
                }) && next.execution_state == ExecState::EndTx && next.program_counter == 0
                    && next.stack_pointer == STACK_CAPACITY && next.reversible_write_counter == 0
                    && next.memory_word_size == 0 && next.rw_counter == curr.rw_counter + 4 + (
                if call.is_success {
                    0int
                } else {
                    curr.reversible_write_counter as int
                }) && curr.gas_left - next.gas_left == memory_expansion_gas(
                    curr.memory_word_size as int,
                    next.memory_word_size as int,
                )) ==> all_hold(
                    rr_constraints(),
                    StepContext {
                        cells: final(row).cells@,
                        word_cells: final(row).word_cells@,
                        curr: *curr,
                        next: *next,
                        rws: rws@,
                        copies: Seq::empty(),
                        codes: Seq::empty(),
                    },
                )
            }),
    {
        row.set_cell(0, op.as_u64());
        let length: u64 = match &rws[0] {
            RwEntry::Stack { value, .. } => *value,
            _ => {
                proof {
                    assert(false);
                }
                0u64
            },
        };
        row.set_cell(1, length);
        let memory_offset: u64 = match &rws[1] {
            RwEntry::Stack { value, .. } => *value,
            _ => {
                proof {
                    assert(false);
                }
                0u64
            },
        };
        row.set_cell(2, memory_offset);
        row.set_cell(
            3,
            if call.is_success {
                1u64
            } else {
                0u64
            },
        );

        let min_len: u64 = if call.return_data_length < length {
            call.return_data_length
        } else {
            length
        };
        let copy_rw_increase: u64 = if call.is_create && call.is_success {
            length
        } else if !call.is_root {
            2 * min_len
        } else {
            0u64
        };
        row.set_cell(4, copy_rw_increase);
        row.set_cell(
            5,
            if copy_rw_increase == 0 {
                1u64
            } else {
                0u64
            },
        );

        if call.is_create && call.is_success {
            let mut deployed: Vec<u8> = Vec::new();
            let mut i: usize = 0;
            let total: usize = rws.len();
            proof {
                assert(8 + length <= usize::MAX);
            }
            let n: usize = length as usize;
            while i < n
                invariant
                    i <= n,
                    n == length,
                    rws@.len() >= 8 + length,
                    8 + length <= usize::MAX,
                    forall|j: int| 0 <= j < length ==> (#[trigger] rws@[8 + j] matches RwEntry::Memory { .. }),
                    deployed@.len() == i,
                    forall|j: int|
                        0 <= j < i ==> #[trigger] deployed@[j] == (match rws@[8 + j] {
                            RwEntry::Memory { value, .. } => value,
                            _ => 0u8,
                        }),
                decreases n - i,
            {
                let b: u8 = match &rws[8 + i] {
                    RwEntry::Memory { value, .. } => *value,
                    _ => {
                        proof {
                            assert(false);
                        }
                        0u8
                    },
                };
                deployed.push(b);
                i = i + 1;
            }
            proof {
                assert(deployed@ =~= rr_deployed_bytes(rws@, length));
            }
            let digest = keccak256(&deployed);
            let hash_word = Word::from_big_endian(digest.as_slice());
            row.set_word_cell(0, hash_word);
        }

        row.set_word_cell(1, call.callee_address.to_word());
        row.set_cell(6, call.caller_id as u64);
        row.set_cell(7, call.rw_counter_end_of_reversion as u64);
        row.set_cell(
            8,
            if call.is_persistent {
                1u64
            } else {
                0u64
            },
        );
        row.set_cell(9, call.caller_id as u64);
        row.set_cell(10, call.return_data_offset as u64);
        row.set_cell(11, call.return_data_length as u64);
        row.set_cell(
            12,
            if call.return_data_length < length {
                1u64
            } else {
                0u64
            },
        );
        row.set_cell(
            13,
            memory_expansion_cost(curr.memory_word_size, next.memory_word_size),
        );

        proof {
            let ctx = StepContext {
                cells: row.cells@,
                word_cells: row.word_cells@,
                curr: *curr,
                next: *next,
                rws: rws@,
                copies: Seq::empty(),
                codes: Seq::empty(),
            };
            if curr.is_root && !curr.is_create && call.is_root && !call.is_create
                && rr_root_rws_well_formed(*curr, rws@, call.is_success) && op == (
            if call.is_success {
                OpcodeId::RETURN
            } else {
                OpcodeId::REVERT
            }) && next.execution_state == ExecState::EndTx && next.program_counter == 0
                && next.stack_pointer == STACK_CAPACITY && next.reversible_write_counter == 0
                && next.memory_word_size == 0 && next.rw_counter == curr.rw_counter + 4 + (
            if call.is_success {
                0int
            } else {
                curr.reversible_write_counter as int
            }) && curr.gas_left - next.gas_left == memory_expansion_gas(
                curr.memory_word_size as int,
                next.memory_word_size as int,
            ) {
                lemma_rr_root_satisfaction(ctx, call.is_success);
            }
        }
        Ok(())
    }
}

} // verus!

verus! {

/// A root, non-create row assigned as the gadget's assignment pass does —
/// the popped operands in cells one and two, the success flag in cell
/// three, a zero copy counter, and the memory-expansion charge in cell
/// thirteen — satisfies every declared gate, provided the next row ends
/// the transaction with the counters reset and the gas delta equal to the
/// expansion charge.
#[verifier::spinoff_prover]
#[verifier::rlimit(100)]
pub proof fn lemma_rr_root_satisfaction(ctx: StepContext, success: bool)
    requires
        ctx.cells.len() == 14,
        ctx.curr.is_root,
        !ctx.curr.is_create,
        rr_root_rws_well_formed(ctx.curr, ctx.rws, success),
        ctx.cells[0] as int == (if success {
            0xf3int
        } else {
            0xfdint
        }),
        (ctx.rws[0] matches RwEntry::Stack { value, .. } && ctx.cells[1] == value),
        (ctx.rws[1] matches RwEntry::Stack { value, .. } && ctx.cells[2] == value),
        ctx.cells[3] as int == (if success {
            1int
        } else {
            0int
        }),
        ctx.cells[4] == 0,
        ctx.cells[5] == 1,
        ctx.next.execution_state == ExecState::EndTx,
        ctx.next.program_counter == 0,
        ctx.next.stack_pointer == STACK_CAPACITY,
        ctx.next.reversible_write_counter == 0,
        ctx.next.memory_word_size == 0,
        ctx.next.rw_counter == ctx.curr.rw_counter + 4 + (if success {
            0int
        } else {
            ctx.curr.reversible_write_counter as int
        }),
        ctx.curr.gas_left - ctx.next.gas_left == memory_expansion_gas(
            ctx.curr.memory_word_size as int,
            ctx.next.memory_word_size as int,
        ),
        ctx.cells[13] as int == memory_expansion_gas(
            ctx.curr.memory_word_size as int,
            ctx.next.memory_word_size as int,
        ),
    ensures
        all_hold(rr_constraints(), ctx),
{
    reveal_with_fuel(eval, 10);
    let cs = rr_constraints();
    assert forall|x: int, y: int| x == 0 || y == 0 implies #[trigger] (x * y) == 0 by {
        assert(x * y == 0) by (nonlinear_arith)
            requires
                x == 0 || y == 0,
        ;
    }
    assert forall|y: int| #[trigger] (1int * y) == y by {
        assert(1int * y == y) by (nonlinear_arith);
    }
    assert(eval(Expr::Curr(StateField::IsCreate), ctx.ectx()) == 0);
    assert(eval(Expr::Curr(StateField::IsRoot), ctx.ectx()) == 1);
    assert(eval(rr_dep_cond(), ctx.ectx()) == 0);
    assert forall|i: int| 0 <= i < cs.len() implies constraint_holds(#[trigger] cs[i], ctx) by {
        if i == 0 {
            assert(constraint_holds(cs[0], ctx));
        } else if i == 1 {
            assert(constraint_holds(cs[1], ctx));
        } else if i == 2 {
            assert(constraint_holds(cs[2], ctx));
        } else if i == 3 {
            assert(constraint_holds(cs[3], ctx));
        } else if i == 4 {
            assert(constraint_holds(cs[4], ctx));
        } else if i == 5 {
            assert(constraint_holds(cs[5], ctx));
        } else if i == 6 {
            assert(constraint_holds(cs[6], ctx));
        } else if i == 7 {
            assert(constraint_holds(cs[7], ctx));
        } else if i == 8 {
            assert(constraint_holds(cs[8], ctx));
        } else if i == 9 {
            assert(constraint_holds(cs[9], ctx));
        } else if i == 10 {
            assert(constraint_holds(cs[10], ctx));
        } else if i == 11 {
            assert(constraint_holds(cs[11], ctx));
        } else if i == 12 {
            assert(constraint_holds(cs[12], ctx));
        } else if i == 13 {
            assert(constraint_holds(cs[13], ctx));
        } else if i == 14 {
            assert(constraint_holds(cs[14], ctx));
        } else if i == 15 {
            assert(constraint_holds(cs[15], ctx));
        } else if i == 16 {
            assert(constraint_holds(cs[16], ctx));
        } else if i == 17 {
            assert(constraint_holds(cs[17], ctx));
        } else if i == 18 {
            assert(constraint_holds(cs[18], ctx));
        } else if i == 19 {
            assert(constraint_holds(cs[19], ctx));
        } else if i == 20 {
            assert(constraint_holds(cs[20], ctx));
        } else if i == 21 {
            assert(constraint_holds(cs[21], ctx));
        } else if i == 22 {
            assert(constraint_holds(cs[22], ctx));
        } else if i == 23 {
            assert(constraint_holds(cs[23], ctx));
        } else if i == 24 {
            assert(constraint_holds(cs[24], ctx));
        } else if i == 25 {
            assert(constraint_holds(cs[25], ctx));
        } else if i == 26 {
            assert(constraint_holds(cs[26], ctx));
        } else if i == 27 {
            assert(constraint_holds(cs[27], ctx));
        } else if i == 28 {
            assert(constraint_holds(cs[28], ctx));
        } else if i == 29 {
            assert(constraint_holds(cs[29], ctx));
        } else if i == 30 {
            assert(constraint_holds(cs[30], ctx));
        } else if i == 31 {
            assert(constraint_holds(cs[31], ctx));
        } else {
            assert(false);
        }
    }
}

} // verus!
