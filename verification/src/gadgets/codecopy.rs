//! Gadget for the opcode that copies the running code into memory.
//!
//! Three stack operands are popped: the copy size, the offset in the code,
//! and the destination offset in memory. When the size is non-zero the copy
//! is bound to a copy-table row keyed by the running code hash, whose
//! counter increment must equal the copied length; a zero size forces a
//! zero increment. The gas charge is the static cost plus the per-word
//! copier cost plus the memory-expansion cost.

use vstd::prelude::*;

use crate::copy_event::CopyDataType;
use crate::gadgets::constraint_builder::{all_hold, constraint_holds, memory_expansion_cost,
    memory_expansion_gas, Constraint, CopyId, EVMConstraintBuilder, StepContext};
use crate::gadgets::expression::{eval, Expr, Row, StateField, WordExpr};
use crate::Error;

verus! {

/// Gas charged per copied 32-byte word.
pub const CODECOPY_GAS_PER_WORD: u64 = 3;

/// Static gas cost of the opcode.
pub const CODECOPY_STATIC_GAS: u64 = 3;

/// The per-word count: cell 3 is the quotient and cell 4 the remainder of
/// `(size + 31) / 32`, with the remainder range-bounded by cell 5.
pub open spec fn codecopy_constraints() -> Seq<Constraint> {
    seq![
        Constraint::StackLookup {
            cond: Expr::Const(1),
            rw_index: 0,
            is_write: false,
            sp_offset: 0,
            value: Expr::Cell(0),
        },
        Constraint::StackLookup {
            cond: Expr::Const(1),
            rw_index: 1,
            is_write: false,
            sp_offset: 1,
            value: Expr::Cell(1),
        },
        Constraint::StackLookup {
            cond: Expr::Const(1),
            rw_index: 2,
            is_write: false,
            sp_offset: 2,
            value: Expr::Cell(2),
        },
        Constraint::IsZero { cond: Expr::Const(1), value: Expr::Cell(0), result: Expr::Cell(6) },
        Constraint::Poly(
            Expr::Sub(
                Box::new(Expr::Add(Box::new(Expr::Cell(0)), Box::new(Expr::Const(31)))),
                Box::new(
                    Expr::Add(
                        Box::new(Expr::Mul(Box::new(Expr::Cell(3)), Box::new(Expr::Const(32)))),
                        Box::new(Expr::Cell(4)),
                    ),
                ),
            ),
        ),
        Constraint::Lt {
            cond: Expr::Const(1),
            lhs: Expr::Cell(4),
            rhs: Expr::Const(32),
            result: Expr::Cell(5),
        },
        Constraint::Poly(Expr::Sub(Box::new(Expr::Cell(5)), Box::new(Expr::Const(1)))),
        Constraint::CopyTableLookup {
            cond: Expr::Sub(Box::new(Expr::Const(1)), Box::new(Expr::Cell(6))),
            src_id: CopyId::Wide(WordExpr::CurrCodeHash),
            src_type: CopyDataType::Bytecode,
            dst_id: CopyId::Num(Expr::Curr(StateField::CallId)),
            dst_type: CopyDataType::Memory,
            src_addr: Expr::Cell(1),
            src_addr_end: Expr::Cell(7),
            dst_addr: Expr::Cell(2),
            length: Expr::Cell(0),
            rwc_inc: Expr::Cell(8),
        },
        Constraint::Poly(Expr::Mul(Box::new(Expr::Cell(6)), Box::new(Expr::Cell(8)))),
        Constraint::Poly(
            Expr::Mul(
                Box::new(Expr::Sub(Box::new(Expr::Const(1)), Box::new(Expr::Cell(6)))),
                Box::new(Expr::Sub(Box::new(Expr::Cell(8)), Box::new(Expr::Cell(0)))),
            ),
        ),
        Constraint::Poly(
            Expr::Sub(
                Box::new(
                    Expr::Sub(
                        Box::new(Expr::Next(StateField::RwCounter)),
                        Box::new(Expr::Curr(StateField::RwCounter)),
                    ),
                ),
                Box::new(Expr::Add(Box::new(Expr::Const(3)), Box::new(Expr::Cell(8)))),
            ),
        ),
        Constraint::Poly(
            Expr::Sub(
                Box::new(
                    Expr::Sub(
                        Box::new(Expr::Next(StateField::ProgramCounter)),
                        Box::new(Expr::Curr(StateField::ProgramCounter)),
                    ),
                ),
                Box::new(Expr::Const(1)),
            ),
        ),
        Constraint::Poly(
            Expr::Sub(
                Box::new(
                    Expr::Sub(
                        Box::new(Expr::Next(StateField::StackPointer)),
                        Box::new(Expr::Curr(StateField::StackPointer)),
                    ),
                ),
                Box::new(Expr::Const(3)),
            ),
        ),
        Constraint::Poly(
            Expr::Sub(
                Box::new(
                    Expr::Sub(
                        Box::new(Expr::Curr(StateField::GasLeft)),
                        Box::new(Expr::Next(StateField::GasLeft)),
                    ),
                ),
                Box::new(
                    Expr::Add(
                        Box::new(
                            Expr::Add(
                                Box::new(Expr::Const(CODECOPY_STATIC_GAS)),
                                Box::new(
                                    Expr::Mul(
                                        Box::new(Expr::Const(CODECOPY_GAS_PER_WORD)),
                                        Box::new(Expr::Cell(3)),
                                    ),
                                ),
                            ),
                        ),
                        Box::new(Expr::Cell(9)),
                    ),
                ),
            ),
        ),
        Constraint::MemoryExpansion {
            cond: Expr::Const(1),
            curr_words: Expr::Curr(StateField::MemoryWordSize),
            next_words: Expr::Next(StateField::MemoryWordSize),
            cost: Expr::Cell(9),
        },
    ]
}

/// Cell layout: the three popped operands, the copier-gas word count with
/// its remainder and range flag, the size-is-zero flag, the running code
/// size, and the copy counter increment.
pub struct EvmCodeCopyGadget {
    pub copy_size: usize,
    pub code_offset: usize,
    pub dst_memory_offset: usize,
    pub word_count: usize,
    pub word_count_rem: usize,
    pub word_count_rem_lt: usize,
    pub size_is_zero: usize,
    pub code_size: usize,
    pub copy_rwc_inc: usize,
    pub memory_expansion: usize,
    pub n_cells: usize,
    pub n_word_cells: usize,
}

impl EvmCodeCopyGadget {
    /// Declares the gadget's cells and identities on a fresh builder.
    pub fn configure(cb: &mut EVMConstraintBuilder) -> (r: EvmCodeCopyGadget)
        requires
            old(cb).n_cells == 0,
            old(cb).n_word_cells == 0,
            old(cb).rw_counter_offset == 0,
            old(cb).stack_pointer_offset == 0,
            old(cb).constraints@.len() == 0,
        ensures
            r.copy_size == 0 && r.code_offset == 1 && r.dst_memory_offset == 2 && r.word_count
                == 3 && r.word_count_rem == 4 && r.word_count_rem_lt == 5 && r.size_is_zero == 6
                && r.code_size == 7 && r.copy_rwc_inc == 8 && r.memory_expansion == 9,
            r.n_cells == final(cb).n_cells && r.n_cells == 10,
            r.n_word_cells == final(cb).n_word_cells && r.n_word_cells == 0,
            final(cb).constraints@ =~= codecopy_constraints(),
    {
        let copy_size = cb.query_cell();
        let code_offset = cb.query_cell();
        let dst_memory_offset = cb.query_cell();
        let word_count = cb.query_cell();
        let word_count_rem = cb.query_cell();
        let word_count_rem_lt = cb.query_cell();
        let size_is_zero = cb.query_cell();
        let code_size = cb.query_cell();
        let copy_rwc_inc = cb.query_cell();
        let memory_expansion = cb.query_cell();

        cb.stack_pop(Expr::Cell(copy_size));
        cb.stack_pop(Expr::Cell(code_offset));
        cb.stack_pop(Expr::Cell(dst_memory_offset));

        cb.push_constraint(
            Constraint::IsZero {
                cond: Expr::Const(1),
                value: Expr::Cell(copy_size),
                result: Expr::Cell(size_is_zero),
            },
        );
        cb.require_equal(
            Expr::Add(Box::new(Expr::Cell(copy_size)), Box::new(Expr::Const(31))),
            Expr::Add(
                Box::new(Expr::Mul(Box::new(Expr::Cell(word_count)), Box::new(Expr::Const(32)))),
                Box::new(Expr::Cell(word_count_rem)),
            ),
        );
        cb.push_constraint(
            Constraint::Lt {
                cond: Expr::Const(1),
                lhs: Expr::Cell(word_count_rem),
                rhs: Expr::Const(32),
                result: Expr::Cell(word_count_rem_lt),
            },
        );
        cb.require_equal(Expr::Cell(word_count_rem_lt), Expr::Const(1));

        cb.copy_table_lookup(
            Expr::Sub(Box::new(Expr::Const(1)), Box::new(Expr::Cell(size_is_zero))),
            CopyId::Wide(WordExpr::CurrCodeHash),
            CopyDataType::Bytecode,
            CopyId::Num(Expr::Curr(StateField::CallId)),
            CopyDataType::Memory,
            Expr::Cell(code_offset),
            Expr::Cell(code_size),
            Expr::Cell(dst_memory_offset),
            Expr::Cell(copy_size),
            Expr::Cell(copy_rwc_inc),
        );
        cb.require_zero(
            Expr::Mul(Box::new(Expr::Cell(size_is_zero)), Box::new(Expr::Cell(copy_rwc_inc))),
        );
        cb.push_constraint(
            Constraint::Poly(
                Expr::Mul(
                    Box::new(Expr::Sub(Box::new(Expr::Const(1)), Box::new(Expr::Cell(
                        size_is_zero,
                    )))),
                    Box::new(
                        Expr::Sub(Box::new(Expr::Cell(copy_rwc_inc)), Box::new(Expr::Cell(
                            copy_size,
                        ))),
                    ),
                ),
            ),
        );

        cb.push_constraint(
            Constraint::Poly(
                Expr::Sub(
                    Box::new(
                        Expr::Sub(
                            Box::new(Expr::Next(StateField::RwCounter)),
                            Box::new(Expr::Curr(StateField::RwCounter)),
                        ),
                    ),
                    Box::new(Expr::Add(Box::new(Expr::Const(3)), Box::new(Expr::Cell(
                        copy_rwc_inc,
                    )))),
                ),
            ),
        );
        cb.push_constraint(
            Constraint::Poly(
                Expr::Sub(
                    Box::new(
                        Expr::Sub(
                            Box::new(Expr::Next(StateField::ProgramCounter)),
                            Box::new(Expr::Curr(StateField::ProgramCounter)),
                        ),
                    ),
                    Box::new(Expr::Const(1)),
                ),
            ),
        );
        cb.push_constraint(
            Constraint::Poly(
                Expr::Sub(
                    Box::new(
                        Expr::Sub(
                            Box::new(Expr::Next(StateField::StackPointer)),
                            Box::new(Expr::Curr(StateField::StackPointer)),
                        ),
                    ),
                    Box::new(Expr::Const(3)),
                ),
            ),
        );
        cb.push_constraint(
            Constraint::Poly(
                Expr::Sub(
                    Box::new(
                        Expr::Sub(
                            Box::new(Expr::Curr(StateField::GasLeft)),
                            Box::new(Expr::Next(StateField::GasLeft)),
                        ),
                    ),
                    Box::new(
                        Expr::Add(
                            Box::new(
                                Expr::Add(
                                    Box::new(Expr::Const(CODECOPY_STATIC_GAS)),
                                    Box::new(
                                        Expr::Mul(
                                            Box::new(Expr::Const(CODECOPY_GAS_PER_WORD)),
                                            Box::new(Expr::Cell(word_count)),
                                        ),
                                    ),
                                ),
                            ),
                            Box::new(Expr::Cell(memory_expansion)),
                        ),
                    ),
                ),
            ),
        );
        cb.memory_expansion(
            Expr::Const(1),
            Expr::Curr(StateField::MemoryWordSize),
            Expr::Next(StateField::MemoryWordSize),
            Expr::Cell(memory_expansion),
        );

        EvmCodeCopyGadget {
            copy_size,
            code_offset,
            dst_memory_offset,
            word_count,
            word_count_rem,
            word_count_rem_lt,
            size_is_zero,
            code_size,
            copy_rwc_inc,
            memory_expansion,
            n_cells: cb.n_cells,
            n_word_cells: cb.n_word_cells,
        }
    }

    /// Fills the row for one step: the three operands from the recorded
    /// stack reads, the code size from the running bytecode, the word count
    /// as the rounded-up thirty-second of the size, and the counter
    /// increment as the copied length.
    pub fn assign_exec_step(
        &self,
        row: &mut Row,
        copy_size: u64,
        code_offset: u64,
        dst_memory_offset: u64,
        code_size: u64,
        curr_word_size: u64,
        next_word_size: u64,
    ) -> (r: Result<(), Error>)
        requires
            self.copy_size == 0 && self.code_offset == 1 && self.dst_memory_offset == 2
                && self.word_count == 3 && self.word_count_rem == 4 && self.word_count_rem_lt == 5
                && self.size_is_zero == 6 && self.code_size == 7 && self.copy_rwc_inc == 8
                && self.memory_expansion == 9 && self.n_cells == 10,
            old(row).cells@.len() == 10,
            copy_size <= u64::MAX - 31,
            curr_word_size <= 0x2000_0000,
            next_word_size <= 0x2000_0000,
        ensures
            r == Ok::<(), Error>(()),
            final(row).cells@.len() == 10,
            final(row).cells@[0] == copy_size,
            final(row).cells@[1] == code_offset,
            final(row).cells@[2] == dst_memory_offset,
            final(row).cells@[3] == (copy_size + 31) as u64 / 32,
            final(row).cells@[4] == (copy_size + 31) as u64 % 32,
            final(row).cells@[5] == 1,
            final(row).cells@[6] == (if copy_size == 0 {
                1u64
            } else {
                0u64
            }),
            final(row).cells@[7] == code_size,
            final(row).cells@[8] == copy_size,
            final(row).cells@[9] == memory_expansion_gas(
                curr_word_size as int,
                next_word_size as int,
            ),
            final(row).word_cells@ == old(row).word_cells@,
    {
        row.set_cell(0, copy_size);
        row.set_cell(1, code_offset);
        row.set_cell(2, dst_memory_offset);
        row.set_cell(3, (copy_size + 31) / 32);
        row.set_cell(4, (copy_size + 31) % 32);
        row.set_cell(5, 1);
        row.set_cell(
            6,
            if copy_size == 0 {
                1u64
            } else {
                0u64
            },
        );
        row.set_cell(7, code_size);
        row.set_cell(8, copy_size);
        row.set_cell(9, memory_expansion_cost(curr_word_size, next_word_size));
        Ok(())
    }
}

/// The copy counter increment is pinned by the gates: zero when nothing is
/// copied, the copied length otherwise.
pub proof fn lemma_codecopy_rwc_increment(ctx: StepContext)
    requires
        all_hold(codecopy_constraints(), ctx),
    ensures
        eval(Expr::Cell(0), ctx.ectx()) == 0 ==> eval(Expr::Cell(8), ctx.ectx()) == 0,
        eval(Expr::Cell(0), ctx.ectx()) != 0 ==> eval(Expr::Cell(8), ctx.ectx()) == eval(
            Expr::Cell(0),
            ctx.ectx(),
        ),
{
    reveal_with_fuel(eval, 8);
    let cs = codecopy_constraints();
    assert(constraint_holds(cs[3], ctx));
    assert(constraint_holds(cs[8], ctx));
    assert(constraint_holds(cs[9], ctx));
    let z = eval(Expr::Cell(6), ctx.ectx());
    let size = eval(Expr::Cell(0), ctx.ectx());
    let inc = eval(Expr::Cell(8), ctx.ectx());
    if size == 0 {
        assert(z == 1);
        assert(1 * inc == inc) by (nonlinear_arith);
    } else {
        assert(z == 0);
        assert((1 - 0) * (inc - size) == inc - size) by (nonlinear_arith);
    }
}

} // verus!
