//! The constraint accumulator and the meaning of declared constraints.
//!
//! During the one-time configuration pass each gadget pushes (predicate,
//! scope) pairs into the builder; the frozen list is what the backend
//! enforces on every assigned row. The `constraint_holds` function is the
//! reference meaning of each declared identity: a row of one executed step
//! satisfies the gadget exactly when every pushed constraint holds.

use vstd::prelude::*;

use crate::copy_event::{CopyDataType, NumberOrHash};
use crate::operation::{AccountField, CallContextField};
use crate::state::ExecState;
use crate::types::{be_bytes_value, Address, Word, N_BYTES_ADDRESS};
use crate::gadgets::expression::{eval, eval_word, EvalContext, Expr, StateField, StepState,
    WordExpr};

verus! {

/// One recorded read/write as the constraint layer sees it.
#[derive(Clone, Debug, PartialEq, Eq)]
pub enum RwEntry {
    Stack { call_id: usize, address: usize, is_write: bool, value: u64 },
    Memory { call_id: usize, address: u64, is_write: bool, value: u8 },
    CallContextEntry { call_id: usize, field: CallContextField, is_write: bool, value: Word },
    AccountEntry {
        address: Address,
        field: AccountField,
        is_write: bool,
        value: Word,
        value_prev: Word,
    },
    TxAccessListAccountEntry {
        tx_id: usize,
        address: Address,
        is_write: bool,
        is_warm: bool,
        is_warm_prev: bool,
    },
}

/// One row of the copy table: the summary of one copy event.
#[derive(Clone, Debug, PartialEq, Eq)]
pub struct CopyTableRow {
    pub src_id: NumberOrHash,
    pub src_type: CopyDataType,
    pub src_addr: u64,
    pub src_addr_end: u64,
    pub dst_id: NumberOrHash,
    pub dst_type: CopyDataType,
    pub dst_addr: u64,
    pub length: u64,
    pub rwc_inc: u64,
}

/// An identifier slot in the copy table: a wide value or a numeric one.
pub enum CopyId {
    Wide(WordExpr),
    Num(Expr),
}

/// One declared identity.
pub enum Constraint {
    /// The expression evaluates to zero.
    Poly(Expr),
    /// The expression evaluates to zero or one.
    Boolean(Expr),
    /// The expression evaluates to a member of the set.
    InSet(Expr, Vec<u64>),
    /// Under `cond`, `result` is one exactly when `value` is zero.
    IsZero { cond: Expr, value: Expr, result: Expr },
    /// Under `cond`, `result` is one exactly when `lhs < rhs`.
    Lt { cond: Expr, lhs: Expr, rhs: Expr, result: Expr },
    /// Under `cond`, the step's rw operation at `rw_index` is a stack
    /// access of the current call at slot `stack_pointer + sp_offset` with
    /// the given value.
    StackLookup { cond: Expr, rw_index: usize, is_write: bool, sp_offset: usize, value: Expr },
    /// Under `cond`, the rw operation at `rw_index` is a call-context
    /// access of the current call with the given field and value.
    CallContextLookup {
        cond: Expr,
        rw_index: usize,
        is_write: bool,
        field: CallContextField,
        value: Expr,
    },
    /// Under `cond`, the rw operation at `rw_index` is a call-context
    /// access of the current call whose value is the given wide value.
    CallContextWideLookup {
        cond: Expr,
        rw_index: usize,
        is_write: bool,
        field: CallContextField,
        value: WordExpr,
    },
    /// Under `cond`, the rw operations at `rw_index ..` are the byte-wise
    /// reads of a 20-byte word at the given memory offset, and the word
    /// equals those bytes read big-endian.
    MemoryWordLookup { cond: Expr, rw_index: usize, offset: Expr, word: WordExpr },
    /// Under `cond`, the rw operation at `rw_index` reads the access-list
    /// flag of the given address in the given transaction.
    AccessListReadLookup { cond: Expr, rw_index: usize, tx_id: Expr, address: WordExpr,
        is_warm: Expr },
    /// Under `cond`, the rw operation at `rw_index` writes an account
    /// field.
    AccountWriteLookup {
        cond: Expr,
        rw_index: usize,
        field: AccountField,
        address: WordExpr,
        value: WordExpr,
        value_prev: WordExpr,
    },
    /// Under `cond`, the copy table holds a row with these fields.
    CopyTableLookup {
        cond: Expr,
        src_id: CopyId,
        src_type: CopyDataType,
        dst_id: CopyId,
        dst_type: CopyDataType,
        src_addr: Expr,
        src_addr_end: Expr,
        dst_addr: Expr,
        length: Expr,
        rwc_inc: Expr,
    },
    /// Under `cond`, `cost` is the gas the memory expansion from
    /// `curr_words` to `next_words` words charges.
    MemoryExpansion { cond: Expr, curr_words: Expr, next_words: Expr, cost: Expr },
    /// Under `cond`, the next row is in the given execution state.
    NextExecState { cond: Expr, state: ExecState },
}

/// Everything one step's row is checked against.
pub struct StepContext {
    pub cells: Seq<u64>,
    pub word_cells: Seq<Word>,
    pub curr: StepState,
    pub next: StepState,
    pub rws: Seq<RwEntry>,
    pub copies: Seq<CopyTableRow>,
    /// The bytecode-length table: one entry per known code hash.
    pub codes: Seq<(Word, u64)>,
}

impl StepContext {
    pub open spec fn ectx(self) -> EvalContext {
        EvalContext { cells: self.cells, word_cells: self.word_cells, curr: self.curr,
            next: self.next }
    }
}

/// Whether a wide value equals a copy-table identifier.
pub open spec fn copy_id_matches(id: CopyId, row_id: NumberOrHash, ctx: StepContext) -> bool {
    match id {
        CopyId::Wide(w) => row_id == NumberOrHash::Hash(eval_word(w, ctx.ectx())),
        CopyId::Num(e) => match row_id {
            NumberOrHash::Number(n) => n as int == eval(e, ctx.ectx()),
            NumberOrHash::Hash(_) => false,
        },
    }
}

/// The byte sequence read by a 20-byte memory word lookup.
pub open spec fn memory_word_bytes(ctx: StepContext, rw_index: usize) -> Seq<u8> {
    Seq::new(N_BYTES_ADDRESS as nat, |i: int| match ctx.rws[rw_index + i] {
        RwEntry::Memory { value, .. } => value,
        _ => 0u8,
    })
}

/// The reference meaning of one declared identity.
pub open spec fn constraint_holds(c: Constraint, ctx: StepContext) -> bool {
    match c {
        Constraint::Poly(e) => eval(e, ctx.ectx()) == 0,
        Constraint::Boolean(e) => eval(e, ctx.ectx()) == 0 || eval(e, ctx.ectx()) == 1,
        Constraint::InSet(e, s) => exists|i: int|
            0 <= i < s@.len() && eval(e, ctx.ectx()) == #[trigger] s@[i],
        Constraint::IsZero { cond, value, result } => eval(cond, ctx.ectx()) != 0 ==> eval(
            result,
            ctx.ectx(),
        ) == if eval(value, ctx.ectx()) == 0 {
            1int
        } else {
            0int
        },
        Constraint::Lt { cond, lhs, rhs, result } => eval(cond, ctx.ectx()) != 0 ==> eval(
            result,
            ctx.ectx(),
        ) == if eval(lhs, ctx.ectx()) < eval(rhs, ctx.ectx()) {
            1int
        } else {
            0int
        },
        Constraint::StackLookup { cond, rw_index, is_write, sp_offset, value } => eval(
            cond,
            ctx.ectx(),
        ) != 0 ==> {
            &&& rw_index < ctx.rws.len()
            &&& ctx.rws[rw_index as int] matches RwEntry::Stack {
                call_id,
                address,
                is_write: w,
                value: v,
            } && call_id as int == ctx.curr.call_id && w == is_write && address as int
                == ctx.curr.stack_pointer + sp_offset && v as int == eval(value, ctx.ectx())
        },
        Constraint::CallContextLookup { cond, rw_index, is_write, field, value } => eval(
            cond,
            ctx.ectx(),
        ) != 0 ==> {
            &&& rw_index < ctx.rws.len()
            &&& ctx.rws[rw_index as int] matches RwEntry::CallContextEntry {
                call_id,
                field: f,
                is_write: w,
                value: v,
            } && call_id as int == ctx.curr.call_id && f == field && w == is_write && v.value()
                == eval(value, ctx.ectx())
        },
        Constraint::CallContextWideLookup { cond, rw_index, is_write, field, value } => eval(
            cond,
            ctx.ectx(),
        ) != 0 ==> {
            &&& rw_index < ctx.rws.len()
            &&& ctx.rws[rw_index as int] matches RwEntry::CallContextEntry {
                call_id,
                field: f,
                is_write: w,
                value: v,
            } && call_id as int == ctx.curr.call_id && f == field && w == is_write && v
                == eval_word(value, ctx.ectx())
        },
        Constraint::MemoryWordLookup { cond, rw_index, offset, word } => eval(cond, ctx.ectx())
            != 0 ==> {
            &&& rw_index + N_BYTES_ADDRESS <= ctx.rws.len()
            &&& forall|i: int|
                0 <= i < N_BYTES_ADDRESS ==> (#[trigger] ctx.rws[rw_index + i] matches
                    RwEntry::Memory { call_id, address, is_write, .. } && call_id as int
                    == ctx.curr.call_id && !is_write && address as int == eval(offset, ctx.ectx())
                    + i)
            &&& eval_word(word, ctx.ectx()).value() == be_bytes_value(
                memory_word_bytes(ctx, rw_index),
            )
        },
        Constraint::AccessListReadLookup { cond, rw_index, tx_id, address, is_warm } => eval(
            cond,
            ctx.ectx(),
        ) != 0 ==> {
            &&& rw_index < ctx.rws.len()
            &&& ctx.rws[rw_index as int] matches RwEntry::TxAccessListAccountEntry {
                tx_id: t,
                address: a,
                is_write,
                is_warm: w,
                is_warm_prev: wp,
            } && t as int == eval(tx_id, ctx.ectx()) && !is_write && be_bytes_value(a.bytes@)
                == eval_word(address, ctx.ectx()).value() && w == wp && (if w {
                1int
            } else {
                0int
            }) == eval(is_warm, ctx.ectx())
        },
        Constraint::AccountWriteLookup { cond, rw_index, field, address, value, value_prev } => eval(
            cond,
            ctx.ectx(),
        ) != 0 ==> {
            &&& rw_index < ctx.rws.len()
            &&& ctx.rws[rw_index as int] matches RwEntry::AccountEntry {
                address: a,
                field: f,
                is_write,
                value: v,
                value_prev: vp,
            } && f == field && is_write && be_bytes_value(a.bytes@) == eval_word(
                address,
                ctx.ectx(),
            ).value() && v == eval_word(value, ctx.ectx()) && vp == eval_word(
                value_prev,
                ctx.ectx(),
            )
        },
        Constraint::CopyTableLookup {
            cond,
            src_id,
            src_type,
            dst_id,
            dst_type,
            src_addr,
            src_addr_end,
            dst_addr,
            length,
            rwc_inc,
        } => eval(cond, ctx.ectx()) != 0 ==> exists|i: int|
            0 <= i < ctx.copies.len() && {
                let row = #[trigger] ctx.copies[i];
                &&& copy_id_matches(src_id, row.src_id, ctx)
                &&& row.src_type == src_type
                &&& copy_id_matches(dst_id, row.dst_id, ctx)
                &&& row.dst_type == dst_type
                &&& row.src_addr as int == eval(src_addr, ctx.ectx())
                &&& row.src_addr_end as int == eval(src_addr_end, ctx.ectx())
                &&& row.dst_addr as int == eval(dst_addr, ctx.ectx())
                &&& row.length as int == eval(length, ctx.ectx())
                &&& row.rwc_inc as int == eval(rwc_inc, ctx.ectx())
            },
        Constraint::MemoryExpansion { cond, curr_words, next_words, cost } => eval(
            cond,
            ctx.ectx(),
        ) != 0 ==> eval(cost, ctx.ectx()) == memory_expansion_gas(
            eval(curr_words, ctx.ectx()),
            eval(next_words, ctx.ectx()),
        ),
        Constraint::NextExecState { cond, state } => eval(cond, ctx.ectx()) != 0
            ==> ctx.next.execution_state == state,
    }
}

/// Gas charged for growing the memory from `curr` to `next` 32-byte words:
/// the difference of the quadratic word-size costs, zero when the memory
/// does not grow.
pub open spec fn memory_expansion_gas(curr: int, next: int) -> int {
    if next > curr {
        3 * (next - curr) + next * next / 512 - curr * curr / 512
    } else {
        0
    }
}

/// Computes the memory-expansion charge for word sizes within the
/// addressable range.
pub fn memory_expansion_cost(curr_words: u64, next_words: u64) -> (r: u64)
    requires
        curr_words <= 0x2000_0000,
        next_words <= 0x2000_0000,
    ensures
        r == memory_expansion_gas(curr_words as int, next_words as int),
{
    if next_words > curr_words {
        let n: u128 = next_words as u128;
        let c: u128 = curr_words as u128;
        proof {
            assert(c * c <= n * n) by (nonlinear_arith)
                requires
                    0 <= c <= n,
            ;
            assert(n * n <= 0x2000_0000 * 0x2000_0000) by (nonlinear_arith)
                requires
                    0 <= n <= 0x2000_0000,
            ;
            vstd::arithmetic::div_mod::lemma_div_is_ordered(
                (c * c) as int,
                (n * n) as int,
                512,
            );
            vstd::arithmetic::div_mod::lemma_div_is_ordered(
                (n * n) as int,
                0x2000_0000int * 0x2000_0000int,
                512,
            );
        }
        let cost: u128 = 3 * (n - c) + (n * n) / 512 - (c * c) / 512;
        cost as u64
    } else {
        0
    }
}

/// A row satisfies a gate list when every constraint in it holds.
pub open spec fn all_hold(cs: Seq<Constraint>, ctx: StepContext) -> bool {
    forall|i: int| 0 <= i < cs.len() ==> constraint_holds(#[trigger] cs[i], ctx)
}

/// The mutable constraint accumulator one gadget configures against.
/// `configure` runs once; afterwards the constraint list is frozen and the
/// cell counts say how wide a row must be.
pub struct EVMConstraintBuilder {
    pub n_cells: usize,
    pub n_word_cells: usize,
    /// Offset of the next rw operation a lookup will consume.
    pub rw_counter_offset: usize,
    /// Offset from the stack pointer of the next stack pop.
    pub stack_pointer_offset: usize,
    pub constraints: Vec<Constraint>,
}

impl EVMConstraintBuilder {
    pub fn new() -> (r: EVMConstraintBuilder)
        ensures
            r.n_cells == 0,
            r.n_word_cells == 0,
            r.rw_counter_offset == 0,
            r.stack_pointer_offset == 0,
            r.constraints@.len() == 0,
    {
        EVMConstraintBuilder {
            n_cells: 0,
            n_word_cells: 0,
            rw_counter_offset: 0,
            stack_pointer_offset: 0,
            constraints: Vec::new(),
        }
    }

    /// Declares a fresh numeric cell.
    pub fn query_cell(&mut self) -> (r: usize)
        requires
            old(self).n_cells < usize::MAX,
        ensures
            r == old(self).n_cells,
            *final(self) == (EVMConstraintBuilder {
                n_cells: (old(self).n_cells + 1) as usize,
                ..*old(self)
            }),
    {
        let id = self.n_cells;
        self.n_cells = self.n_cells + 1;
        id
    }

    /// Declares a fresh wide cell.
    pub fn query_word_cell(&mut self) -> (r: usize)
        requires
            old(self).n_word_cells < usize::MAX,
        ensures
            r == old(self).n_word_cells,
            *final(self) == (EVMConstraintBuilder {
                n_word_cells: (old(self).n_word_cells + 1) as usize,
                ..*old(self)
            }),
    {
        let id = self.n_word_cells;
        self.n_word_cells = self.n_word_cells + 1;
        id
    }

    /// Declares a fresh cell constrained to be boolean.
    pub fn query_bool(&mut self) -> (r: usize)
        requires
            old(self).n_cells < usize::MAX,
        ensures
            r == old(self).n_cells,
            *final(self) == (EVMConstraintBuilder {
                n_cells: (old(self).n_cells + 1) as usize,
                constraints: final(self).constraints,
                ..*old(self)
            }),
            final(self).constraints@ == old(self).constraints@.push(
                Constraint::Boolean(Expr::Cell(old(self).n_cells)),
            ),
    {
        let id = self.n_cells;
        self.n_cells = self.n_cells + 1;
        self.constraints.push(Constraint::Boolean(Expr::Cell(id)));
        id
    }

    /// Pushes one constraint unchanged.
    pub fn push_constraint(&mut self, c: Constraint)
        ensures
            *final(self) == (EVMConstraintBuilder {
                constraints: final(self).constraints,
                ..*old(self)
            }),
            final(self).constraints@ == old(self).constraints@.push(c),
    {
        self.constraints.push(c);
    }

    /// Requires two expressions to agree.
    pub fn require_equal(&mut self, a: Expr, b: Expr)
        ensures
            *final(self) == (EVMConstraintBuilder {
                constraints: final(self).constraints,
                ..*old(self)
            }),
            final(self).constraints@ == old(self).constraints@.push(
                Constraint::Poly(Expr::Sub(Box::new(a), Box::new(b))),
            ),
    {
        self.constraints.push(Constraint::Poly(Expr::Sub(Box::new(a), Box::new(b))));
    }

    /// Requires two expressions to agree whenever `cond` is active.
    pub fn cond_require_equal(&mut self, cond: Expr, a: Expr, b: Expr)
        ensures
            *final(self) == (EVMConstraintBuilder {
                constraints: final(self).constraints,
                ..*old(self)
            }),
            final(self).constraints@ == old(self).constraints@.push(
                Constraint::Poly(
                    Expr::Mul(Box::new(cond), Box::new(Expr::Sub(Box::new(a), Box::new(b)))),
                ),
            ),
    {
        self.constraints.push(
            Constraint::Poly(
                Expr::Mul(Box::new(cond), Box::new(Expr::Sub(Box::new(a), Box::new(b)))),
            ),
        );
    }

    /// Requires an expression to be zero.
    pub fn require_zero(&mut self, e: Expr)
        ensures
            *final(self) == (EVMConstraintBuilder {
                constraints: final(self).constraints,
                ..*old(self)
            }),
            final(self).constraints@ == old(self).constraints@.push(Constraint::Poly(e)),
    {
        self.constraints.push(Constraint::Poly(e));
    }

    /// Requires an expression to be boolean.
    pub fn require_boolean(&mut self, e: Expr)
        ensures
            *final(self) == (EVMConstraintBuilder {
                constraints: final(self).constraints,
                ..*old(self)
            }),
            final(self).constraints@ == old(self).constraints@.push(Constraint::Boolean(e)),
    {
        self.constraints.push(Constraint::Boolean(e));
    }

    /// Requires an expression to take one of finitely many values.
    pub fn require_in_set(&mut self, e: Expr, values: Vec<u64>)
        ensures
            *final(self) == (EVMConstraintBuilder {
                constraints: final(self).constraints,
                ..*old(self)
            }),
            final(self).constraints@ == old(self).constraints@.push(
                Constraint::InSet(e, values),
            ),
    {
        self.constraints.push(Constraint::InSet(e, values));
    }

    /// Declares a stack pop: consumes one rw slot and one stack slot.
    pub fn stack_pop(&mut self, value: Expr)
        requires
            old(self).rw_counter_offset < usize::MAX,
            old(self).stack_pointer_offset < usize::MAX,
        ensures
            *final(self) == (EVMConstraintBuilder {
                rw_counter_offset: (old(self).rw_counter_offset + 1) as usize,
                stack_pointer_offset: (old(self).stack_pointer_offset + 1) as usize,
                constraints: final(self).constraints,
                ..*old(self)
            }),
            final(self).constraints@ == old(self).constraints@.push(
                Constraint::StackLookup {
                    cond: Expr::Const(1),
                    rw_index: old(self).rw_counter_offset,
                    is_write: false,
                    sp_offset: old(self).stack_pointer_offset,
                    value,
                },
            ),
    {
        let c = Constraint::StackLookup {
            cond: Expr::Const(1),
            rw_index: self.rw_counter_offset,
            is_write: false,
            sp_offset: self.stack_pointer_offset,
            value,
        };
        self.rw_counter_offset = self.rw_counter_offset + 1;
        self.stack_pointer_offset = self.stack_pointer_offset + 1;
        self.constraints.push(c);
    }

    /// Declares a call-context read into a fresh cell and returns the cell.
    pub fn call_context(&mut self, field: CallContextField) -> (r: usize)
        requires
            old(self).rw_counter_offset < usize::MAX,
            old(self).n_cells < usize::MAX,
        ensures
            r == old(self).n_cells,
            *final(self) == (EVMConstraintBuilder {
                rw_counter_offset: (old(self).rw_counter_offset + 1) as usize,
                n_cells: (old(self).n_cells + 1) as usize,
                constraints: final(self).constraints,
                ..*old(self)
            }),
            final(self).constraints@ == old(self).constraints@.push(
                Constraint::CallContextLookup {
                    cond: Expr::Const(1),
                    rw_index: old(self).rw_counter_offset,
                    is_write: false,
                    field,
                    value: Expr::Cell(old(self).n_cells),
                },
            ),
    {
        let id = self.n_cells;
        self.n_cells = self.n_cells + 1;
        let c = Constraint::CallContextLookup {
            cond: Expr::Const(1),
            rw_index: self.rw_counter_offset,
            is_write: false,
            field,
            value: Expr::Cell(id),
        };
        self.rw_counter_offset = self.rw_counter_offset + 1;
        self.constraints.push(c);
        id
    }

    /// Declares a call-context lookup against a given expression.
    pub fn call_context_lookup(&mut self, is_write: bool, field: CallContextField, value: Expr)
        requires
            old(self).rw_counter_offset < usize::MAX,
        ensures
            *final(self) == (EVMConstraintBuilder {
                rw_counter_offset: (old(self).rw_counter_offset + 1) as usize,
                constraints: final(self).constraints,
                ..*old(self)
            }),
            final(self).constraints@ == old(self).constraints@.push(
                Constraint::CallContextLookup {
                    cond: Expr::Const(1),
                    rw_index: old(self).rw_counter_offset,
                    is_write,
                    field,
                    value,
                },
            ),
    {
        let c = Constraint::CallContextLookup {
            cond: Expr::Const(1),
            rw_index: self.rw_counter_offset,
            is_write,
            field,
            value,
        };
        self.rw_counter_offset = self.rw_counter_offset + 1;
        self.constraints.push(c);
    }

    /// Declares the byte-wise read of a 20-byte word from memory.
    pub fn memory_word_lookup(&mut self, offset: Expr, word: WordExpr)
        requires
            old(self).rw_counter_offset + N_BYTES_ADDRESS <= usize::MAX,
        ensures
            *final(self) == (EVMConstraintBuilder {
                rw_counter_offset: (old(self).rw_counter_offset + N_BYTES_ADDRESS) as usize,
                constraints: final(self).constraints,
                ..*old(self)
            }),
            final(self).constraints@ == old(self).constraints@.push(
                Constraint::MemoryWordLookup {
                    cond: Expr::Const(1),
                    rw_index: old(self).rw_counter_offset,
                    offset,
                    word,
                },
            ),
    {
        let c = Constraint::MemoryWordLookup {
            cond: Expr::Const(1),
            rw_index: self.rw_counter_offset,
            offset,
            word,
        };
        self.rw_counter_offset = self.rw_counter_offset + N_BYTES_ADDRESS;
        self.constraints.push(c);
    }

    /// Declares a read of the access-list flag of an address.
    pub fn account_access_list_read(&mut self, tx_id: Expr, address: WordExpr, is_warm: Expr)
        requires
            old(self).rw_counter_offset < usize::MAX,
        ensures
            *final(self) == (EVMConstraintBuilder {
                rw_counter_offset: (old(self).rw_counter_offset + 1) as usize,
                constraints: final(self).constraints,
                ..*old(self)
            }),
            final(self).constraints@ == old(self).constraints@.push(
                Constraint::AccessListReadLookup {
                    cond: Expr::Const(1),
                    rw_index: old(self).rw_counter_offset,
                    tx_id,
                    address,
                    is_warm,
                },
            ),
    {
        let c = Constraint::AccessListReadLookup {
            cond: Expr::Const(1),
            rw_index: self.rw_counter_offset,
            tx_id,
            address,
            is_warm,
        };
        self.rw_counter_offset = self.rw_counter_offset + 1;
        self.constraints.push(c);
    }

    /// Declares an account-field write under a condition.
    pub fn account_write(
        &mut self,
        cond: Expr,
        field: AccountField,
        address: WordExpr,
        value: WordExpr,
        value_prev: WordExpr,
    )
        requires
            old(self).rw_counter_offset < usize::MAX,
        ensures
            *final(self) == (EVMConstraintBuilder {
                rw_counter_offset: (old(self).rw_counter_offset + 1) as usize,
                constraints: final(self).constraints,
                ..*old(self)
            }),
            final(self).constraints@ == old(self).constraints@.push(
                Constraint::AccountWriteLookup {
                    cond,
                    rw_index: old(self).rw_counter_offset,
                    field,
                    address,
                    value,
                    value_prev,
                },
            ),
    {
        let c = Constraint::AccountWriteLookup {
            cond,
            rw_index: self.rw_counter_offset,
            field,
            address,
            value,
            value_prev,
        };
        self.rw_counter_offset = self.rw_counter_offset + 1;
        self.constraints.push(c);
    }

    /// Declares a copy-table lookup under a condition.
    pub fn copy_table_lookup(
        &mut self,
        cond: Expr,
        src_id: CopyId,
        src_type: CopyDataType,
        dst_id: CopyId,
        dst_type: CopyDataType,
        src_addr: Expr,
        src_addr_end: Expr,
        dst_addr: Expr,
        length: Expr,
        rwc_inc: Expr,
    )
        ensures
            *final(self) == (EVMConstraintBuilder {
                constraints: final(self).constraints,
                ..*old(self)
            }),
            final(self).constraints@ == old(self).constraints@.push(
                Constraint::CopyTableLookup {
                    cond,
                    src_id,
                    src_type,
                    dst_id,
                    dst_type,
                    src_addr,
                    src_addr_end,
                    dst_addr,
                    length,
                    rwc_inc,
                },
            ),
    {
        self.constraints.push(
            Constraint::CopyTableLookup {
                cond,
                src_id,
                src_type,
                dst_id,
                dst_type,
                src_addr,
                src_addr_end,
                dst_addr,
                length,
                rwc_inc,
            },
        );
    }

    /// Declares the memory-expansion charge under a condition.
    pub fn memory_expansion(&mut self, cond: Expr, curr_words: Expr, next_words: Expr, cost: Expr)
        ensures
            *final(self) == (EVMConstraintBuilder {
                constraints: final(self).constraints,
                ..*old(self)
            }),
            final(self).constraints@ == old(self).constraints@.push(
                Constraint::MemoryExpansion { cond, curr_words, next_words, cost },
            ),
    {
        self.constraints.push(Constraint::MemoryExpansion { cond, curr_words, next_words, cost });
    }

    /// Requires the next row's execution state under a condition.
    pub fn require_next_state(&mut self, cond: Expr, state: ExecState)
        ensures
            *final(self) == (EVMConstraintBuilder {
                constraints: final(self).constraints,
                ..*old(self)
            }),
            final(self).constraints@ == old(self).constraints@.push(
                Constraint::NextExecState { cond, state },
            ),
    {
        self.constraints.push(Constraint::NextExecState { cond, state });
    }

    /// Requires, under `cond`, that a bookkeeping field changes by `delta`.
    pub fn transition_delta(&mut self, cond: Expr, field: StateField, delta: Expr)
        ensures
            *final(self) == (EVMConstraintBuilder {
                constraints: final(self).constraints,
                ..*old(self)
            }),
            final(self).constraints@ == old(self).constraints@.push(
                Constraint::Poly(
                    Expr::Mul(
                        Box::new(cond),
                        Box::new(
                            Expr::Sub(
                                Box::new(
                                    Expr::Sub(
                                        Box::new(Expr::Next(field)),
                                        Box::new(Expr::Curr(field)),
                                    ),
                                ),
                                Box::new(delta),
                            ),
                        ),
                    ),
                ),
            ),
    {
        self.constraints.push(
            Constraint::Poly(
                Expr::Mul(
                    Box::new(cond),
                    Box::new(
                        Expr::Sub(
                            Box::new(
                                Expr::Sub(
                                    Box::new(Expr::Next(field)),
                                    Box::new(Expr::Curr(field)),
                                ),
                            ),
                            Box::new(delta),
                        ),
                    ),
                ),
            ),
        );
    }

    /// Requires, under `cond`, that a bookkeeping field transitions to a
    /// fixed value.
    pub fn transition_to(&mut self, cond: Expr, field: StateField, value: Expr)
        ensures
            *final(self) == (EVMConstraintBuilder {
                constraints: final(self).constraints,
                ..*old(self)
            }),
            final(self).constraints@ == old(self).constraints@.push(
                Constraint::Poly(
                    Expr::Mul(
                        Box::new(cond),
                        Box::new(Expr::Sub(Box::new(Expr::Next(field)), Box::new(value))),
                    ),
                ),
            ),
    {
        self.constraints.push(
            Constraint::Poly(
                Expr::Mul(
                    Box::new(cond),
                    Box::new(Expr::Sub(Box::new(Expr::Next(field)), Box::new(value))),
                ),
            ),
        );
    }
}

} // verus!
