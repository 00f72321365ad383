//! The append-only log of read/write operations and the allocator of the
//! global read/write counter (RWC).
//!
//! Every access an opcode handler records lands here: the container keeps one
//! typed vector per operation kind, and a `sequence` vector holding the global
//! append order. The RWC of the `i`-th appended operation is exactly
//! `rwc_start + i`, which makes the counter strictly increasing with no gaps
//! and no repeats across the whole block.

use vstd::prelude::*;

use crate::types::{Address, Word};

verus! {

/// Direction of an operation.
#[derive(Clone, Copy, Debug, PartialEq, Eq, Structural)]
pub enum RW {
    READ,
    WRITE,
}

/// The kind of location an operation touches.
#[derive(Clone, Copy, Debug, PartialEq, Eq, Structural)]
pub enum Target {
    Stack,
    Memory,
    Storage,
    CallContext,
    Account,
    TxAccessListAccount,
    TxAccessListAccountStorage,
    TxLog,
    TxReceipt,
}

/// Call-context fields a handler may read or write.
#[derive(Clone, Copy, Debug, PartialEq, Eq, Structural)]
pub enum CallContextField {
    TxId,
    RwCounterEndOfReversion,
    IsPersistent,
    IsSuccess,
    CallerAddress,
    CallerId,
    CalleeAddress,
    ReturnDataOffset,
    ReturnDataLength,
}

/// Account fields a handler may read or write.
#[derive(Clone, Copy, Debug, PartialEq, Eq, Structural)]
pub enum AccountField {
    Nonce,
    Balance,
    CodeHash,
}

/// One access to a stack slot.
#[derive(Clone, Copy, Debug, PartialEq, Eq, Structural)]
pub struct StackOp {
    pub call_id: usize,
    /// Slot index, 0 at the bottom; the top of a stack holding `n` values
    /// lives at slot `1024 - n`.
    pub address: usize,
    pub value: u64,
}

impl StackOp {
    pub fn new(call_id: usize, address: usize, value: u64) -> (r: StackOp)
        ensures
            r == (StackOp { call_id, address, value }),
    {
        StackOp { call_id, address, value }
    }
}

/// One access to a single memory byte.
#[derive(Clone, Copy, Debug, PartialEq, Eq, Structural)]
pub struct MemoryOp {
    pub call_id: usize,
    pub address: u64,
    pub value: u8,
}

impl MemoryOp {
    pub fn new(call_id: usize, address: u64, value: u8) -> (r: MemoryOp)
        ensures
            r == (MemoryOp { call_id, address, value }),
    {
        MemoryOp { call_id, address, value }
    }
}

/// One access to a storage slot.
#[derive(Clone, Debug, PartialEq, Eq)]
pub struct StorageOp {
    pub address: Address,
    pub key: Word,
    pub value: Word,
    pub value_prev: Word,
    pub tx_id: usize,
}

/// One access to a call-context field.
#[derive(Clone, Debug, PartialEq, Eq)]
pub struct CallContextOp {
    pub call_id: usize,
    pub field: CallContextField,
    pub value: Word,
}

/// One access to an account field, carrying the previous value as well.
#[derive(Clone, Debug, PartialEq, Eq)]
pub struct AccountOp {
    pub address: Address,
    pub field: AccountField,
    pub value: Word,
    pub value_prev: Word,
}

/// One update of an address's membership in the transaction access list.
#[derive(Clone, Debug, PartialEq, Eq)]
pub struct TxAccessListAccountOp {
    pub tx_id: usize,
    pub address: Address,
    pub is_warm: bool,
    pub is_warm_prev: bool,
}

/// An operation as stored: the payload tagged with its direction and its RWC.
#[derive(Clone, Debug, PartialEq, Eq)]
pub struct Operation<T> {
    pub rwc: u64,
    pub rw_kind: RW,
    pub op_data: T,
}

impl<T> Operation<T> {
    pub fn rw(&self) -> (r: RW)
        ensures
            r == self.rw_kind,
    {
        self.rw_kind
    }

    pub fn op(&self) -> (r: &T)
        ensures
            r == &self.op_data,
    {
        &self.op_data
    }

    pub fn rwc(&self) -> (r: u64)
        ensures
            r == self.rwc,
    {
        self.rwc
    }
}

/// Reference to one operation in the container: its kind and its index in
/// that kind's vector.
#[derive(Clone, Copy, Debug, PartialEq, Eq, Structural)]
pub struct OperationRef {
    pub target: Target,
    pub index: usize,
}

impl OperationRef {
    pub fn as_usize(&self) -> (r: usize)
        ensures
            r == self.index,
    {
        self.index
    }
}

/// How many references in `s` point at kind `t`.
pub open spec fn seq_count(s: Seq<OperationRef>, t: Target) -> int
    decreases s.len(),
{
    if s.len() == 0 {
        0
    } else {
        seq_count(s.drop_last(), t) + if s.last().target == t {
            1int
        } else {
            0int
        }
    }
}

pub proof fn lemma_seq_count_push(s: Seq<OperationRef>, r: OperationRef, t: Target)
    ensures
        seq_count(s.push(r), t) == seq_count(s, t) + if r.target == t {
            1int
        } else {
            0int
        },
{
    assert(s.push(r).drop_last() =~= s);
}

pub proof fn lemma_seq_count_bounds(s: Seq<OperationRef>, t: Target)
    ensures
        0 <= seq_count(s, t) <= s.len(),
    decreases s.len(),
{
    if s.len() > 0 {
        lemma_seq_count_bounds(s.drop_last(), t);
    }
}

/// The typed operation log of one block.
#[derive(Clone, Debug)]
pub struct OperationContainer {
    /// RWC handed to the first operation.
    pub rwc_start: u64,
    pub stack: Vec<Operation<StackOp>>,
    pub memory: Vec<Operation<MemoryOp>>,
    pub storage: Vec<Operation<StorageOp>>,
    pub call_context: Vec<Operation<CallContextOp>>,
    pub account: Vec<Operation<AccountOp>>,
    pub tx_access_list_account: Vec<Operation<TxAccessListAccountOp>>,
    /// Global append order: `sequence[i]` refers to the operation that was
    /// appended `i`-th and therefore carries RWC `rwc_start + i`.
    pub sequence: Vec<OperationRef>,
}

impl OperationContainer {
    /// Length of the vector holding operations of kind `t`; zero for kinds
    /// this container does not record.
    pub open spec fn target_len(self, t: Target) -> int {
        match t {
            Target::Stack => self.stack@.len() as int,
            Target::Memory => self.memory@.len() as int,
            Target::Storage => self.storage@.len() as int,
            Target::CallContext => self.call_context@.len() as int,
            Target::Account => self.account@.len() as int,
            Target::TxAccessListAccount => self.tx_access_list_account@.len() as int,
            _ => 0,
        }
    }

    /// RWC stored at a reference.
    pub open spec fn ref_rwc(self, r: OperationRef) -> u64 {
        match r.target {
            Target::Stack => self.stack@[r.index as int].rwc,
            Target::Memory => self.memory@[r.index as int].rwc,
            Target::Storage => self.storage@[r.index as int].rwc,
            Target::CallContext => self.call_context@[r.index as int].rwc,
            Target::Account => self.account@[r.index as int].rwc,
            Target::TxAccessListAccount => self.tx_access_list_account@[r.index as int].rwc,
            _ => 0,
        }
    }

    /// RWC the next appended operation will receive.
    pub open spec fn next_rwc(self) -> int {
        self.rwc_start + self.sequence@.len()
    }

    /// Container well-formedness: the sequence covers every recorded
    /// operation exactly once, in append order, and the `i`-th appended
    /// operation carries RWC `rwc_start + i`.
    pub open spec fn wf(self) -> bool {
        &&& 1 <= self.rwc_start
        &&& self.rwc_start + self.sequence@.len() <= u64::MAX
        &&& forall|i: int|
            0 <= i < self.sequence@.len() ==> #[trigger] self.sequence@[i].index == seq_count(
                self.sequence@.take(i),
                self.sequence@[i].target,
            )
        &&& forall|i: int|
            0 <= i < self.sequence@.len() ==> #[trigger] self.sequence@[i].index < self.target_len(
                self.sequence@[i].target,
            )
        &&& forall|t: Target| #[trigger] self.target_len(t) == seq_count(self.sequence@, t)
        &&& forall|i: int|
            0 <= i < self.sequence@.len() ==> self.ref_rwc(#[trigger] self.sequence@[i])
                == self.rwc_start + i
    }

    /// A fresh container whose first operation will receive `rwc_start`.
    pub fn new(rwc_start: u64) -> (r: OperationContainer)
        requires
            1 <= rwc_start,
        ensures
            r.wf(),
            r.rwc_start == rwc_start,
            r.sequence@.len() == 0,
            r.stack@.len() == 0,
            r.memory@.len() == 0,
            r.storage@.len() == 0,
            r.call_context@.len() == 0,
            r.account@.len() == 0,
            r.tx_access_list_account@.len() == 0,
    {
        let r = OperationContainer {
            rwc_start,
            stack: Vec::new(),
            memory: Vec::new(),
            storage: Vec::new(),
            call_context: Vec::new(),
            account: Vec::new(),
            tx_access_list_account: Vec::new(),
            sequence: Vec::new(),
        };
        proof {
            assert forall|t: Target| #[trigger] r.target_len(t) == seq_count(r.sequence@, t) by {
                assert(seq_count(r.sequence@, t) == 0);
            }
        }
        r
    }

    /// Appends a stack operation; the returned reference identifies it.
    pub fn append_stack_op(&mut self, rw_kind: RW, op_data: StackOp) -> (r: OperationRef)
        requires
            old(self).wf(),
            old(self).next_rwc() < u64::MAX,
        ensures
            final(self).wf(),
            r == (OperationRef { target: Target::Stack, index: old(self).stack@.len() as usize }),
            final(self).stack@ == old(self).stack@.push(
                Operation { rwc: old(self).next_rwc() as u64, rw_kind, op_data },
            ),
            final(self).sequence@ == old(self).sequence@.push(r),
            final(self).rwc_start == old(self).rwc_start,
            final(self).memory@ == old(self).memory@,
            final(self).storage@ == old(self).storage@,
            final(self).call_context@ == old(self).call_context@,
            final(self).account@ == old(self).account@,
            final(self).tx_access_list_account@ == old(self).tx_access_list_account@,
    {
        let rwc: u64 = self.rwc_start + self.sequence.len() as u64;
        let idx: usize = self.stack.len();
        self.stack.push(Operation { rwc, rw_kind, op_data });
        let r = OperationRef { target: Target::Stack, index: idx };
        self.sequence.push(r);
        proof {
            lemma_wf_after_append(*old(self), *self, Target::Stack);
        }
        r
    }

    /// Appends a memory operation; the returned reference identifies it.
    pub fn append_memory_op(&mut self, rw_kind: RW, op_data: MemoryOp) -> (r: OperationRef)
        requires
            old(self).wf(),
            old(self).next_rwc() < u64::MAX,
        ensures
            final(self).wf(),
            r == (OperationRef { target: Target::Memory, index: old(self).memory@.len() as usize }),
            final(self).memory@ == old(self).memory@.push(
                Operation { rwc: old(self).next_rwc() as u64, rw_kind, op_data },
            ),
            final(self).sequence@ == old(self).sequence@.push(r),
            final(self).rwc_start == old(self).rwc_start,
            final(self).stack@ == old(self).stack@,
            final(self).storage@ == old(self).storage@,
            final(self).call_context@ == old(self).call_context@,
            final(self).account@ == old(self).account@,
            final(self).tx_access_list_account@ == old(self).tx_access_list_account@,
    {
        let rwc: u64 = self.rwc_start + self.sequence.len() as u64;
        let idx: usize = self.memory.len();
        self.memory.push(Operation { rwc, rw_kind, op_data });
        let r = OperationRef { target: Target::Memory, index: idx };
        self.sequence.push(r);
        proof {
            lemma_wf_after_append(*old(self), *self, Target::Memory);
        }
        r
    }

    /// Appends a storage operation; the returned reference identifies it.
    pub fn append_storage_op(&mut self, rw_kind: RW, op_data: StorageOp) -> (r: OperationRef)
        requires
            old(self).wf(),
            old(self).next_rwc() < u64::MAX,
        ensures
            final(self).wf(),
            r == (OperationRef {
                target: Target::Storage,
                index: old(self).storage@.len() as usize,
            }),
            final(self).storage@ == old(self).storage@.push(
                Operation { rwc: old(self).next_rwc() as u64, rw_kind, op_data },
            ),
            final(self).sequence@ == old(self).sequence@.push(r),
            final(self).rwc_start == old(self).rwc_start,
            final(self).stack@ == old(self).stack@,
            final(self).memory@ == old(self).memory@,
            final(self).call_context@ == old(self).call_context@,
            final(self).account@ == old(self).account@,
            final(self).tx_access_list_account@ == old(self).tx_access_list_account@,
    {
        let rwc: u64 = self.rwc_start + self.sequence.len() as u64;
        let idx: usize = self.storage.len();
        self.storage.push(Operation { rwc, rw_kind, op_data });
        let r = OperationRef { target: Target::Storage, index: idx };
        self.sequence.push(r);
        proof {
            lemma_wf_after_append(*old(self), *self, Target::Storage);
        }
        r
    }

    /// Appends a call-context operation; the returned reference identifies it.
    pub fn append_call_context_op(&mut self, rw_kind: RW, op_data: CallContextOp) -> (r:
        OperationRef)
        requires
            old(self).wf(),
            old(self).next_rwc() < u64::MAX,
        ensures
            final(self).wf(),
            r == (OperationRef {
                target: Target::CallContext,
                index: old(self).call_context@.len() as usize,
            }),
            final(self).call_context@ == old(self).call_context@.push(
                Operation { rwc: old(self).next_rwc() as u64, rw_kind, op_data },
            ),
            final(self).sequence@ == old(self).sequence@.push(r),
            final(self).rwc_start == old(self).rwc_start,
            final(self).stack@ == old(self).stack@,
            final(self).memory@ == old(self).memory@,
            final(self).storage@ == old(self).storage@,
            final(self).account@ == old(self).account@,
            final(self).tx_access_list_account@ == old(self).tx_access_list_account@,
    {
        let rwc: u64 = self.rwc_start + self.sequence.len() as u64;
        let idx: usize = self.call_context.len();
        self.call_context.push(Operation { rwc, rw_kind, op_data });
        let r = OperationRef { target: Target::CallContext, index: idx };
        self.sequence.push(r);
        proof {
            lemma_wf_after_append(*old(self), *self, Target::CallContext);
        }
        r
    }

    /// Appends an account operation; the returned reference identifies it.
    pub fn append_account_op(&mut self, rw_kind: RW, op_data: AccountOp) -> (r: OperationRef)
        requires
            old(self).wf(),
            old(self).next_rwc() < u64::MAX,
        ensures
            final(self).wf(),
            r == (OperationRef {
                target: Target::Account,
                index: old(self).account@.len() as usize,
            }),
            final(self).account@ == old(self).account@.push(
                Operation { rwc: old(self).next_rwc() as u64, rw_kind, op_data },
            ),
            final(self).sequence@ == old(self).sequence@.push(r),
            final(self).rwc_start == old(self).rwc_start,
            final(self).stack@ == old(self).stack@,
            final(self).memory@ == old(self).memory@,
            final(self).storage@ == old(self).storage@,
            final(self).call_context@ == old(self).call_context@,
            final(self).tx_access_list_account@ == old(self).tx_access_list_account@,
    {
        let rwc: u64 = self.rwc_start + self.sequence.len() as u64;
        let idx: usize = self.account.len();
        self.account.push(Operation { rwc, rw_kind, op_data });
        let r = OperationRef { target: Target::Account, index: idx };
        self.sequence.push(r);
        proof {
            lemma_wf_after_append(*old(self), *self, Target::Account);
        }
        r
    }

    /// Appends an access-list update; the returned reference identifies it.
    pub fn append_tx_access_list_account_op(&mut self, rw_kind: RW, op_data: TxAccessListAccountOp)
        -> (r: OperationRef)
        requires
            old(self).wf(),
            old(self).next_rwc() < u64::MAX,
        ensures
            final(self).wf(),
            r == (OperationRef {
                target: Target::TxAccessListAccount,
                index: old(self).tx_access_list_account@.len() as usize,
            }),
            final(self).tx_access_list_account@ == old(self).tx_access_list_account@.push(
                Operation { rwc: old(self).next_rwc() as u64, rw_kind, op_data },
            ),
            final(self).sequence@ == old(self).sequence@.push(r),
            final(self).rwc_start == old(self).rwc_start,
            final(self).stack@ == old(self).stack@,
            final(self).memory@ == old(self).memory@,
            final(self).storage@ == old(self).storage@,
            final(self).call_context@ == old(self).call_context@,
            final(self).account@ == old(self).account@,
    {
        let rwc: u64 = self.rwc_start + self.sequence.len() as u64;
        let idx: usize = self.tx_access_list_account.len();
        self.tx_access_list_account.push(Operation { rwc, rw_kind, op_data });
        let r = OperationRef { target: Target::TxAccessListAccount, index: idx };
        self.sequence.push(r);
        proof {
            lemma_wf_after_append(*old(self), *self, Target::TxAccessListAccount);
        }
        r
    }
}

/// Appending one operation of kind `t` preserves container well-formedness.
/// The hypotheses state, field by field, how the new container relates to the
/// old one; each append method discharges them from the `Vec::push` facts.
pub proof fn lemma_wf_after_append(pre: OperationContainer, post: OperationContainer, t: Target)
    requires
        pre.wf(),
        pre.next_rwc() < u64::MAX,
        pre.target_len(t) <= usize::MAX,
        post.rwc_start == pre.rwc_start,
        post.sequence@ == pre.sequence@.push(
            OperationRef { target: t, index: pre.target_len(t) as usize },
        ),
        forall|u: Target| u != t ==> #[trigger] post.target_len(u) == pre.target_len(u),
        post.target_len(t) == pre.target_len(t) + 1,
        forall|r: OperationRef|
            0 <= r.index < pre.target_len(r.target) ==> #[trigger] post.ref_rwc(r) == pre.ref_rwc(
                r,
            ),
        post.ref_rwc(OperationRef { target: t, index: pre.target_len(t) as usize })
            == pre.next_rwc(),
    ensures
        post.wf(),
{
    let n = pre.sequence@.len() as int;
    let new_ref = OperationRef { target: t, index: pre.target_len(t) as usize };
    lemma_seq_count_bounds(pre.sequence@, t);
    assert forall|i: int| 0 <= i < post.sequence@.len() implies #[trigger] post.sequence@[i].index
        == seq_count(post.sequence@.take(i), post.sequence@[i].target) by {
        assert(post.sequence@.take(i) =~= pre.sequence@.take(i));
        if i < n {
            assert(post.sequence@[i] == pre.sequence@[i]);
            assert(pre.sequence@[i].index == seq_count(
                pre.sequence@.take(i),
                pre.sequence@[i].target,
            ));
        } else {
            assert(post.sequence@[i] == new_ref);
            assert(post.sequence@.take(i) =~= pre.sequence@);
            assert(pre.target_len(t) == seq_count(pre.sequence@, t));
            assert(new_ref.index == pre.target_len(t));
        }
    }
    assert forall|i: int| 0 <= i < post.sequence@.len() implies #[trigger] post.sequence@[i].index
        < post.target_len(post.sequence@[i].target) by {
        if i < n {
            assert(post.sequence@[i] == pre.sequence@[i]);
            assert(pre.sequence@[i].index < pre.target_len(pre.sequence@[i].target));
            if pre.sequence@[i].target == t {
                assert(post.target_len(t) == pre.target_len(t) + 1);
            }
        } else {
            assert(post.sequence@[i] == new_ref);
        }
    }
    assert forall|i: int| 0 <= i < post.sequence@.len() implies post.ref_rwc(
        #[trigger] post.sequence@[i],
    ) == post.rwc_start + i by {
        if i < n {
            assert(post.sequence@[i] == pre.sequence@[i]);
            assert(pre.sequence@[i].index < pre.target_len(pre.sequence@[i].target));
        } else {
            assert(post.sequence@[i] == new_ref);
        }
    }
    assert forall|u: Target| #[trigger] post.target_len(u) == seq_count(post.sequence@, u) by {
        lemma_seq_count_push(pre.sequence@, new_ref, u);
    }
}

/// Strict monotonicity of the RWC: within one block, an operation appended
/// earlier carries a strictly smaller counter, and counters are exactly the
/// contiguous range starting at `rwc_start` — no gaps and no repeats.
pub proof fn lemma_rwc_strictly_increasing(c: OperationContainer, i: int, j: int)
    requires
        c.wf(),
        0 <= i < j < c.sequence@.len(),
    ensures
        c.ref_rwc(c.sequence@[i]) < c.ref_rwc(c.sequence@[j]),
        c.ref_rwc(c.sequence@[i]) == c.rwc_start + i,
        c.ref_rwc(c.sequence@[j]) == c.rwc_start + j,
{
}

} // verus!
