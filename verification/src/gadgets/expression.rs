//! Expressions over declared cells and step-state fields, and their
//! evaluation against one assigned row.

use vstd::prelude::*;

use crate::state::ExecState;
use crate::types::Word;

verus! {

/// The per-step bookkeeping columns every gadget can refer to.
#[derive(Clone, Copy, Debug, PartialEq, Eq, Structural)]
pub enum StateField {
    RwCounter,
    ProgramCounter,
    StackPointer,
    GasLeft,
    ReversibleWriteCounter,
    MemoryWordSize,
    CallId,
    IsRoot,
    IsCreate,
}

/// The step-state values of one row (current or next step).
#[derive(Clone, Debug, PartialEq, Eq)]
pub struct StepState {
    pub execution_state: ExecState,
    pub rw_counter: u64,
    pub program_counter: u64,
    pub stack_pointer: u64,
    pub gas_left: u64,
    pub reversible_write_counter: u64,
    pub memory_word_size: u64,
    pub call_id: u64,
    pub is_root: bool,
    pub is_create: bool,
    pub code_hash: Word,
}

impl StepState {
    /// Numeric reading of one bookkeeping field.
    pub open spec fn field_value(self, f: StateField) -> int {
        match f {
            StateField::RwCounter => self.rw_counter as int,
            StateField::ProgramCounter => self.program_counter as int,
            StateField::StackPointer => self.stack_pointer as int,
            StateField::GasLeft => self.gas_left as int,
            StateField::ReversibleWriteCounter => self.reversible_write_counter as int,
            StateField::MemoryWordSize => self.memory_word_size as int,
            StateField::CallId => self.call_id as int,
            StateField::IsRoot => if self.is_root {
                1
            } else {
                0
            },
            StateField::IsCreate => if self.is_create {
                1
            } else {
                0
            },
        }
    }
}

/// A polynomial expression over constants, declared cells, and the step
/// state of the current and next row.
pub enum Expr {
    Const(u64),
    Cell(usize),
    Curr(StateField),
    Next(StateField),
    Add(Box<Expr>, Box<Expr>),
    Sub(Box<Expr>, Box<Expr>),
    Mul(Box<Expr>, Box<Expr>),
}

/// A wide (256-bit) expression: a declared word cell, the running code
/// hash, or the zero hash. These appear only in lookup identifier slots.
pub enum WordExpr {
    WordCell(usize),
    CurrCodeHash,
    ZeroHash,
}

/// One assigned row: numeric cells and wide cells.
#[derive(Clone, Debug, PartialEq, Eq)]
pub struct Row {
    pub cells: Vec<u64>,
    pub word_cells: Vec<Word>,
}

impl Row {
    /// A row with every declared cell still zero.
    pub fn new_zeroed(n_cells: usize, n_word_cells: usize) -> (r: Row)
        ensures
            r.cells@.len() == n_cells,
            r.word_cells@.len() == n_word_cells,
            forall|i: int| 0 <= i < n_cells ==> r.cells@[i] == 0u64,
    {
        let mut cells: Vec<u64> = Vec::new();
        let mut i: usize = 0;
        while i < n_cells
            invariant
                i <= n_cells,
                cells@.len() == i,
                forall|j: int| 0 <= j < i ==> cells@[j] == 0u64,
            decreases n_cells - i,
        {
            cells.push(0u64);
            i = i + 1;
        }
        let mut word_cells: Vec<Word> = Vec::new();
        let mut k: usize = 0;
        while k < n_word_cells
            invariant
                k <= n_word_cells,
                word_cells@.len() == k,
            decreases n_word_cells - k,
        {
            word_cells.push(Word { hi: 0, lo: 0 });
            k = k + 1;
        }
        Row { cells, word_cells }
    }

    /// Writes one numeric cell.
    pub fn set_cell(&mut self, id: usize, v: u64)
        requires
            id < old(self).cells@.len(),
        ensures
            final(self).cells@ == old(self).cells@.update(id as int, v),
            final(self).word_cells@ == old(self).word_cells@,
    {
        self.cells[id] = v;
    }

    /// Writes one wide cell.
    pub fn set_word_cell(&mut self, id: usize, v: Word)
        requires
            id < old(self).word_cells@.len(),
        ensures
            final(self).word_cells@ == old(self).word_cells@.update(id as int, v),
            final(self).cells@ == old(self).cells@,
    {
        self.word_cells[id] = v;
    }
}

/// The context one row is evaluated in.
pub struct EvalContext {
    pub cells: Seq<u64>,
    pub word_cells: Seq<Word>,
    pub curr: StepState,
    pub next: StepState,
}

/// The integer an expression denotes in a context. Cells out of the
/// declared range read zero.
pub open spec fn eval(e: Expr, ctx: EvalContext) -> int
    decreases e,
{
    match e {
        Expr::Const(c) => c as int,
        Expr::Cell(i) => if i < ctx.cells.len() {
            ctx.cells[i as int] as int
        } else {
            0
        },
        Expr::Curr(f) => ctx.curr.field_value(f),
        Expr::Next(f) => ctx.next.field_value(f),
        Expr::Add(a, b) => eval(*a, ctx) + eval(*b, ctx),
        Expr::Sub(a, b) => eval(*a, ctx) - eval(*b, ctx),
        Expr::Mul(a, b) => eval(*a, ctx) * eval(*b, ctx),
    }
}

/// The word a wide expression denotes.
pub open spec fn eval_word(e: WordExpr, ctx: EvalContext) -> Word {
    match e {
        WordExpr::WordCell(i) => if i < ctx.word_cells.len() {
            ctx.word_cells[i as int]
        } else {
            Word { hi: 0, lo: 0 }
        },
        WordExpr::CurrCodeHash => ctx.curr.code_hash,
        WordExpr::ZeroHash => Word { hi: 0, lo: 0 },
    }
}

} // verus!
