//! Gadget for the table-fill instruction: three stack operands are popped —
//! the start index, the fill value and the range — and the step advances by
//! one instruction, three counter ticks and one stack slot.

use vstd::prelude::*;

use crate::gadgets::constraint_builder::{Constraint, EVMConstraintBuilder};
use crate::gadgets::expression::{Expr, Row, StateField};
use crate::Error;

verus! {

/// The declared constraints: three stack pops and the step-state identities.
pub open spec fn table_fill_constraints() -> Seq<Constraint> {
    seq![
        Constraint::StackLookup {
            cond: Expr::Const(1),
            rw_index: 0,
            is_write: false,
            sp_offset: 0,
            value: Expr::Cell(1),
        },
        Constraint::StackLookup {
            cond: Expr::Const(1),
            rw_index: 1,
            is_write: false,
            sp_offset: 1,
            value: Expr::Cell(2),
        },
        Constraint::StackLookup {
            cond: Expr::Const(1),
            rw_index: 2,
            is_write: false,
            sp_offset: 2,
            value: Expr::Cell(3),
        },
        Constraint::Poly(
            Expr::Sub(
                Box::new(
                    Expr::Sub(
                        Box::new(Expr::Next(StateField::RwCounter)),
                        Box::new(Expr::Curr(StateField::RwCounter)),
                    ),
                ),
                Box::new(Expr::Const(3)),
            ),
        ),
        Constraint::Poly(
            Expr::Sub(
                Box::new(
                    Expr::Sub(
                        Box::new(Expr::Next(StateField::ProgramCounter)),
                        Box::new(Expr::Curr(StateField::ProgramCounter)),
                    ),
                ),
                Box::new(Expr::Const(1)),
            ),
        ),
        Constraint::Poly(
            Expr::Sub(
                Box::new(
                    Expr::Sub(
                        Box::new(Expr::Next(StateField::StackPointer)),
                        Box::new(Expr::Curr(StateField::StackPointer)),
                    ),
                ),
                Box::new(Expr::Const(3)),
            ),
        ),
        Constraint::Poly(
            Expr::Sub(
                Box::new(
                    Expr::Sub(
                        Box::new(Expr::Curr(StateField::GasLeft)),
                        Box::new(Expr::Next(StateField::GasLeft)),
                    ),
                ),
                Box::new(Expr::Const(3)),
            ),
        ),
    ]
}

/// Cell layout: the table index immediate and the three popped operands.
pub struct WasmTableFillGadget {
    pub table_index: usize,
    pub start: usize,
    pub value: usize,
    pub range: usize,
    pub n_cells: usize,
}

impl WasmTableFillGadget {
    /// Declares the gadget's cells and identities on a fresh builder.
    pub fn configure(cb: &mut EVMConstraintBuilder) -> (r: WasmTableFillGadget)
        requires
            old(cb).n_cells == 0,
            old(cb).n_word_cells == 0,
            old(cb).rw_counter_offset == 0,
            old(cb).stack_pointer_offset == 0,
            old(cb).constraints@.len() == 0,
        ensures
            r.table_index == 0 && r.start == 1 && r.value == 2 && r.range == 3,
            r.n_cells == final(cb).n_cells && r.n_cells == 4,
            final(cb).constraints@ =~= table_fill_constraints(),
    {
        let table_index = cb.query_cell();
        let start = cb.query_cell();
        let value = cb.query_cell();
        let range = cb.query_cell();

        cb.stack_pop(Expr::Cell(start));
        cb.stack_pop(Expr::Cell(value));
        cb.stack_pop(Expr::Cell(range));

        cb.push_constraint(
            Constraint::Poly(
                Expr::Sub(
                    Box::new(
                        Expr::Sub(
                            Box::new(Expr::Next(StateField::RwCounter)),
                            Box::new(Expr::Curr(StateField::RwCounter)),
                        ),
                    ),
                    Box::new(Expr::Const(3)),
                ),
            ),
        );
        cb.push_constraint(
            Constraint::Poly(
                Expr::Sub(
                    Box::new(
                        Expr::Sub(
                            Box::new(Expr::Next(StateField::ProgramCounter)),
                            Box::new(Expr::Curr(StateField::ProgramCounter)),
                        ),
                    ),
                    Box::new(Expr::Const(1)),
                ),
            ),
        );
        cb.push_constraint(
            Constraint::Poly(
                Expr::Sub(
                    Box::new(
                        Expr::Sub(
                            Box::new(Expr::Next(StateField::StackPointer)),
                            Box::new(Expr::Curr(StateField::StackPointer)),
                        ),
                    ),
                    Box::new(Expr::Const(3)),
                ),
            ),
        );
        cb.push_constraint(
            Constraint::Poly(
                Expr::Sub(
                    Box::new(
                        Expr::Sub(
                            Box::new(Expr::Curr(StateField::GasLeft)),
                            Box::new(Expr::Next(StateField::GasLeft)),
                        ),
                    ),
                    Box::new(Expr::Const(3)),
                ),
            ),
        );

        WasmTableFillGadget { table_index, start, value, range, n_cells: cb.n_cells }
    }

    /// Fills the row from the three recorded stack reads.
    pub fn assign_exec_step(
        &self,
        row: &mut Row,
        table_index: u64,
        start: u64,
        value: u64,
        range: u64,
    ) -> (r: Result<(), Error>)
        requires
            self.table_index == 0 && self.start == 1 && self.value == 2 && self.range == 3
                && self.n_cells == 4,
            old(row).cells@.len() == 4,
        ensures
            r == Ok::<(), Error>(()),
            final(row).cells@.len() == 4,
            final(row).cells@[0] == table_index,
            final(row).cells@[1] == start,
            final(row).cells@[2] == value,
            final(row).cells@[3] == range,
            final(row).word_cells@ == old(row).word_cells@,
    {
        row.set_cell(0, table_index);
        row.set_cell(1, start);
        row.set_cell(2, value);
        row.set_cell(3, range);
        Ok(())
    }
}

} // verus!
