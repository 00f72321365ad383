//! Gadget for the out-of-gas error on account-access opcodes.
//!
//! The opcodes that read an account (balance, code size, code hash) charge
//! the warm- or cold-access cost depending on the access list. This gadget
//! constrains the error branch: its gates are satisfiable only when the gas
//! left is strictly below that cost.

use vstd::prelude::*;

use crate::evm::{GAS_COLD_ACCOUNT_ACCESS, GAS_WARM_ACCESS};
use crate::gadgets::constraint_builder::{all_hold, constraint_holds, Constraint,
    EVMConstraintBuilder, RwEntry, StepContext};
use crate::gadgets::expression::{eval, eval_word, Expr, Row, StateField, StepState, WordExpr};
use crate::operation::CallContextField;
use crate::state::ExecState;
use crate::types::{be_bytes_value, Word, N_BYTES_ADDRESS};
use crate::Error;

verus! {

/// Number of rw operations this gadget consumes: two stack reads, twenty
/// address-byte reads, the transaction id, the access-list flag, and the
/// success flag.
pub const OOG_ACCOUNT_ACCESS_RW_COUNT: usize = 25;

/// Numeric value of a cell in a context.
pub open spec fn cellv(ctx: StepContext, i: usize) -> int {
    eval(Expr::Cell(i), ctx.ectx())
}

/// The gas this step must charge, as selected by the warm flag in cell 5.
pub open spec fn oog_gas_cost(ctx: StepContext) -> int {
    cellv(ctx, 4) * GAS_WARM_ACCESS + (1 - cellv(ctx, 4)) * GAS_COLD_ACCOUNT_ACCESS
}

/// What the gadget's gate list means: the reference satisfaction predicate
/// for one row of the error branch.
pub open spec fn oog_satisfied(ctx: StepContext) -> bool {
    &&& cellv(ctx, 0) == 0x31 || cellv(ctx, 0) == 0x3b || cellv(ctx, 0) == 0x3f
    &&& constraint_holds(
        Constraint::StackLookup {
            cond: Expr::Const(1),
            rw_index: 0,
            is_write: false,
            sp_offset: 0,
            value: Expr::Cell(1),
        },
        ctx,
    )
    &&& constraint_holds(
        Constraint::StackLookup {
            cond: Expr::Const(1),
            rw_index: 1,
            is_write: false,
            sp_offset: 1,
            value: Expr::Cell(2),
        },
        ctx,
    )
    &&& constraint_holds(
        Constraint::MemoryWordLookup {
            cond: Expr::Const(1),
            rw_index: 2,
            offset: Expr::Cell(2),
            word: WordExpr::WordCell(0),
        },
        ctx,
    )
    &&& constraint_holds(
        Constraint::CallContextLookup {
            cond: Expr::Const(1),
            rw_index: 22,
            is_write: false,
            field: CallContextField::TxId,
            value: Expr::Cell(3),
        },
        ctx,
    )
    &&& cellv(ctx, 4) == 0 || cellv(ctx, 4) == 1
    &&& constraint_holds(
        Constraint::AccessListReadLookup {
            cond: Expr::Const(1),
            rw_index: 23,
            tx_id: Expr::Cell(3),
            address: WordExpr::WordCell(0),
            is_warm: Expr::Cell(4),
        },
        ctx,
    )
    &&& cellv(ctx, 5) == (if ctx.curr.gas_left < oog_gas_cost(ctx) {
        1int
    } else {
        0int
    })
    &&& cellv(ctx, 5) == 1
    &&& constraint_holds(
        Constraint::CallContextLookup {
            cond: Expr::Const(1),
            rw_index: 24,
            is_write: false,
            field: CallContextField::IsSuccess,
            value: Expr::Const(0),
        },
        ctx,
    )
    &&& (ctx.curr.is_root ==> ctx.next.execution_state == ExecState::EndTx)
}

/// Cell layout of the gadget, fixed by `configure`.
pub struct ErrorOOGAccountAccessGadget {
    pub opcode: usize,
    pub result_offset: usize,
    pub address_offset: usize,
    pub address_word: usize,
    pub tx_id: usize,
    pub is_warm: usize,
    pub insufficient_gas_cost: usize,
    pub n_cells: usize,
    pub n_word_cells: usize,
}

impl ErrorOOGAccountAccessGadget {
    /// Declares the gadget's cells and identities on a fresh builder. The
    /// frozen gate list means exactly `oog_satisfied`.
    pub fn configure(cb: &mut EVMConstraintBuilder) -> (r: ErrorOOGAccountAccessGadget)
        requires
            old(cb).n_cells == 0,
            old(cb).n_word_cells == 0,
            old(cb).rw_counter_offset == 0,
            old(cb).stack_pointer_offset == 0,
            old(cb).constraints@.len() == 0,
        ensures
            r.opcode == 0 && r.result_offset == 1 && r.address_offset == 2 && r.tx_id == 3
                && r.is_warm == 4 && r.insufficient_gas_cost == 5 && r.address_word == 0,
            r.n_cells == final(cb).n_cells && r.n_cells == 6,
            r.n_word_cells == final(cb).n_word_cells && r.n_word_cells == 1,
            final(cb).rw_counter_offset == OOG_ACCOUNT_ACCESS_RW_COUNT,
            forall|ctx: StepContext| #[trigger] all_hold(final(cb).constraints@, ctx)
                == oog_satisfied(ctx),
    {
        let opcode = cb.query_cell();
        let mut op_set: Vec<u64> = Vec::new();
        op_set.push(0x31u64);
        op_set.push(0x3bu64);
        op_set.push(0x3fu64);
        cb.require_in_set(Expr::Cell(opcode), op_set);

        let result_offset = cb.query_cell();
        let address_offset = cb.query_cell();
        cb.stack_pop(Expr::Cell(result_offset));
        cb.stack_pop(Expr::Cell(address_offset));

        let address_word = cb.query_word_cell();
        cb.memory_word_lookup(Expr::Cell(address_offset), WordExpr::WordCell(address_word));

        let tx_id = cb.call_context(CallContextField::TxId);
        let is_warm = cb.query_bool();
        cb.account_access_list_read(
            Expr::Cell(tx_id),
            WordExpr::WordCell(address_word),
            Expr::Cell(is_warm),
        );

        let gas_cost = Expr::Add(
            Box::new(
                Expr::Mul(Box::new(Expr::Cell(is_warm)), Box::new(Expr::Const(GAS_WARM_ACCESS))),
            ),
            Box::new(
                Expr::Mul(
                    Box::new(Expr::Sub(Box::new(Expr::Const(1)), Box::new(Expr::Cell(is_warm)))),
                    Box::new(Expr::Const(GAS_COLD_ACCOUNT_ACCESS)),
                ),
            ),
        );
        let insufficient_gas_cost = cb.query_cell();
        cb.push_constraint(
            Constraint::Lt {
                cond: Expr::Const(1),
                lhs: Expr::Curr(StateField::GasLeft),
                rhs: gas_cost,
                result: Expr::Cell(insufficient_gas_cost),
            },
        );
        cb.require_equal(Expr::Cell(insufficient_gas_cost), Expr::Const(1));

        cb.call_context_lookup(false, CallContextField::IsSuccess, Expr::Const(0));
        cb.require_next_state(Expr::Curr(StateField::IsRoot), ExecState::EndTx);

        let r = ErrorOOGAccountAccessGadget {
            opcode,
            result_offset,
            address_offset,
            address_word,
            tx_id,
            is_warm,
            insufficient_gas_cost,
            n_cells: cb.n_cells,
            n_word_cells: cb.n_word_cells,
        };
        proof {
            let cs = final(cb).constraints@;
            assert forall|ctx: StepContext| #[trigger] all_hold(cs, ctx) == oog_satisfied(ctx) by {
                reveal_with_fuel(eval, 8);
                assert(cs.len() == 11);
                if all_hold(cs, ctx) {
                    assert(constraint_holds(cs[0], ctx));
                    assert(constraint_holds(cs[1], ctx));
                    assert(constraint_holds(cs[2], ctx));
                    assert(constraint_holds(cs[3], ctx));
                    assert(constraint_holds(cs[4], ctx));
                    assert(constraint_holds(cs[5], ctx));
                    assert(constraint_holds(cs[6], ctx));
                    assert(constraint_holds(cs[7], ctx));
                    assert(constraint_holds(cs[8], ctx));
                    assert(constraint_holds(cs[9], ctx));
                    assert(constraint_holds(cs[10], ctx));
                    assert(oog_satisfied(ctx));
                }
                if oog_satisfied(ctx) {
                    assert(constraint_holds(cs[0], ctx)) by {
                        if cellv(ctx, 0) == 0x31 {
                            assert(eval(Expr::Cell(0), ctx.ectx()) == op_set@[0]);
                        } else if cellv(ctx, 0) == 0x3b {
                            assert(eval(Expr::Cell(0), ctx.ectx()) == op_set@[1]);
                        } else {
                            assert(eval(Expr::Cell(0), ctx.ectx()) == op_set@[2]);
                        }
                    }
                    assert(constraint_holds(cs[7], ctx));
                    assert(constraint_holds(cs[8], ctx));
                    assert forall|i: int| 0 <= i < cs.len() implies constraint_holds(
                        #[trigger] cs[i],
                        ctx,
                    ) by {
                        if i == 0 {
                        } else if i == 7 {
                        } else if i == 8 {
                        } else {
                            assert(constraint_holds(cs[i], ctx));
                        }
                    }
                }
            }
        }
        r
    }
}

/// The rw-operation shapes a valid error step hands to the gadget: the two
/// stack reads, the twenty address-byte reads, the transaction id, the
/// access-list flag and the success flag, in the recorded order.
pub open spec fn oog_rws_well_formed(curr: StepState, rws: Seq<RwEntry>, tx_id: usize) -> bool {
    &&& rws.len() >= OOG_ACCOUNT_ACCESS_RW_COUNT
    &&& (rws[0] matches RwEntry::Stack { call_id, address, is_write, .. } && call_id as int
        == curr.call_id && address as int == curr.stack_pointer && !is_write)
    &&& (rws[1] matches RwEntry::Stack { call_id, address, is_write, .. } && call_id as int
        == curr.call_id && address as int == curr.stack_pointer + 1 && !is_write)
    &&& (rws[1] matches RwEntry::Stack { value, .. } ==> forall|i: int|
        0 <= i < N_BYTES_ADDRESS ==> (#[trigger] rws[2 + i] matches RwEntry::Memory {
            call_id,
            address,
            is_write,
            ..
        } && call_id as int == curr.call_id && address as int == value + i && !is_write))
    &&& (rws[22] matches RwEntry::CallContextEntry { call_id, field, is_write, value }
        && call_id as int == curr.call_id && field == CallContextField::TxId && !is_write
        && value.value() == tx_id)
    &&& (rws[23] matches RwEntry::TxAccessListAccountEntry {
        tx_id: t,
        address,
        is_write,
        is_warm,
        is_warm_prev,
    } && t == tx_id && !is_write && is_warm == is_warm_prev && be_bytes_value(address.bytes@)
        == be_bytes_value(Seq::new(N_BYTES_ADDRESS as nat, |i: int| match rws[2 + i] {
        RwEntry::Memory { value, .. } => value,
        _ => 0u8,
    })))
    &&& (rws[24] matches RwEntry::CallContextEntry { call_id, field, is_write, value }
        && call_id as int == curr.call_id && field == CallContextField::IsSuccess && !is_write
        && value.value() == 0)
}

/// The warm flag the step recorded.
pub open spec fn oog_recorded_warm(rws: Seq<RwEntry>) -> bool {
    match rws[23] {
        RwEntry::TxAccessListAccountEntry { is_warm, .. } => is_warm,
        _ => false,
    }
}

impl ErrorOOGAccountAccessGadget {
    /// Fills the row for one error step from the recorded operations.
    ///
    /// The row satisfies the gadget's gates exactly when the step's gas
    /// left is below the access cost selected by the recorded warm flag.
    pub fn assign_exec_step(
        &self,
        row: &mut Row,
        op: crate::evm::OpcodeId,
        tx_id: usize,
        curr: &StepState,
        next: &StepState,
        rws: &Vec<RwEntry>,
    ) -> (r: Result<(), Error>)
        requires
            self.opcode == 0 && self.result_offset == 1 && self.address_offset == 2 && self.tx_id
                == 3 && self.is_warm == 4 && self.insufficient_gas_cost == 5 && self.address_word
                == 0 && self.n_cells == 6 && self.n_word_cells == 1,
            old(row).cells@.len() == 6,
            old(row).word_cells@.len() == 1,
            oog_rws_well_formed(*curr, rws@, tx_id),
            tx_id <= u64::MAX,
            op == crate::evm::OpcodeId::BALANCE || op == crate::evm::OpcodeId::EXTCODESIZE || op
                == crate::evm::OpcodeId::EXTCODEHASH,
            curr.is_root ==> next.execution_state == ExecState::EndTx,
        ensures
            r == Ok::<(), Error>(()),
            final(row).cells@.len() == 6,
            final(row).word_cells@.len() == 1,
            ({
                let ctx = StepContext {
                    cells: final(row).cells@,
                    word_cells: final(row).word_cells@,
                    curr: *curr,
                    next: *next,
                    rws: rws@,
                    copies: Seq::empty(),
                    codes: Seq::empty(),
                };
                let cost: int = if oog_recorded_warm(rws@) {
                    GAS_WARM_ACCESS as int
                } else {
                    GAS_COLD_ACCOUNT_ACCESS as int
                };
                &&& (curr.gas_left < cost <==> oog_satisfied(ctx))
            }),
    {
        row.set_cell(0, op.as_u64());
        let v0: u64 = match &rws[0] {
            RwEntry::Stack { value, .. } => *value,
            _ => {
                proof {
                    assert(false);
                }
                0u64
            },
        };
        row.set_cell(1, v0);
        let v1: u64 = match &rws[1] {
            RwEntry::Stack { value, .. } => *value,
            _ => {
                proof {
                    assert(false);
                }
                0u64
            },
        };
        row.set_cell(2, v1);

        let mut addr_bytes: Vec<u8> = Vec::new();
        let mut i: usize = 0;
        while i < N_BYTES_ADDRESS
            invariant
                i <= N_BYTES_ADDRESS,
                addr_bytes@.len() == i,
                oog_rws_well_formed(*curr, rws@, tx_id),
                rws@.len() >= OOG_ACCOUNT_ACCESS_RW_COUNT,
                forall|j: int|
                    0 <= j < i ==> #[trigger] addr_bytes@[j] == (match rws@[2 + j] {
                        RwEntry::Memory { value, .. } => value,
                        _ => 0u8,
                    }),
            decreases N_BYTES_ADDRESS - i,
        {
            let b: u8 = match &rws[2 + i] {
                RwEntry::Memory { value, .. } => *value,
                _ => {
                    proof {
                        assert(false);
                    }
                    0u8
                },
            };
            addr_bytes.push(b);
            i = i + 1;
        }
        let address_word = crate::types::Word::from_big_endian(addr_bytes.as_slice());
        row.set_word_cell(0, address_word);

        row.set_cell(3, tx_id as u64);
        let is_warm: bool = match &rws[23] {
            RwEntry::TxAccessListAccountEntry { is_warm, .. } => *is_warm,
            _ => {
                proof {
                    assert(false);
                }
                false
            },
        };
        row.set_cell(
            4,
            if is_warm {
                1u64
            } else {
                0u64
            },
        );

        let gas_cost: u64 = if is_warm {
            GAS_WARM_ACCESS
        } else {
            GAS_COLD_ACCOUNT_ACCESS
        };
        let insufficient: u64 = if curr.gas_left < gas_cost {
            1u64
        } else {
            0u64
        };
        row.set_cell(5, insufficient);

        proof {
            let ctx = StepContext {
                cells: row.cells@,
                word_cells: row.word_cells@,
                curr: *curr,
                next: *next,
                rws: rws@,
                copies: Seq::empty(),
                codes: Seq::empty(),
            };
            reveal_with_fuel(eval, 8);
            assert(ctx.cells.len() == 6);
            assert(ctx.cells[0] == op.spec_as_u64());
            assert(ctx.cells[1] == v0);
            assert(ctx.cells[2] == v1);
            assert(ctx.cells[3] == tx_id as u64);
            assert(cellv(ctx, 4) == if is_warm { 1int } else { 0int });
            assert(oog_gas_cost(ctx) == gas_cost);
            assert(crate::gadgets::constraint_builder::memory_word_bytes(ctx, 2) =~= addr_bytes@);
            assert(eval_word(WordExpr::WordCell(0), ctx.ectx()).value() == be_bytes_value(
                addr_bytes@,
            ));
            if curr.gas_left < gas_cost {
                assert(oog_satisfied(ctx));
            }
            if oog_satisfied(ctx) {
                assert(cellv(ctx, 5) == 1);
            }
        }
        Ok(())
    }
}

/// The error branch is the only satisfiable one when gas runs short: any
/// context satisfying the gadget's gates has its gas left strictly below
/// the access cost that the recorded warm flag selects.
pub proof fn lemma_oog_forces_insufficient_gas(ctx: StepContext)
    requires
        oog_satisfied(ctx),
        ctx.rws.len() > 23,
    ensures
        ctx.curr.gas_left < if oog_recorded_warm(ctx.rws) {
            GAS_WARM_ACCESS as int
        } else {
            GAS_COLD_ACCOUNT_ACCESS as int
        },
{
    reveal_with_fuel(eval, 8);
    let w = oog_recorded_warm(ctx.rws);
    assert(cellv(ctx, 4) == if w {
        1int
    } else {
        0int
    });
    assert(oog_gas_cost(ctx) == if w {
        GAS_WARM_ACCESS as int
    } else {
        GAS_COLD_ACCOUNT_ACCESS as int
    });
}

} // verus!
