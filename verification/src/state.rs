//! The circuit input state: a mutable cursor over one in-flight transaction.
//!
//! It owns the operation container, the call stack with each frame's memory
//! snapshot, the state-database view, and the read/write primitives opcode
//! handlers use. Every primitive appends exactly one operation and records
//! its reference in the step's bus-mapping instance.

use vstd::prelude::*;

use crate::copy_event::CopyEvent;
use crate::evm::{OpcodeId, STACK_CAPACITY};
use crate::operation::{
    AccountField,
    AccountOp,
    CallContextField,
    CallContextOp,
    MemoryOp,
    Operation,
    OperationContainer,
    OperationRef,
    RW,
    StackOp,
    TxAccessListAccountOp,
};
use crate::types::{Address, Word, N_BYTES_ADDRESS};
use crate::Error;

verus! {

/// The fields of an account the handlers read.
#[derive(Clone, Copy, Debug, PartialEq, Eq)]
pub struct Account {
    pub nonce: u64,
    pub balance: Word,
    pub code_hash: Word,
}

impl Account {
    /// The sentinel returned for addresses that have no account.
    pub fn empty() -> (r: Account)
        ensures
            r.spec_is_empty(),
            r == (Account { nonce: 0, balance: Word { hi: 0, lo: 0 }, code_hash: Word {
                hi: 0,
                lo: 0,
            } }),
    {
        Account { nonce: 0, balance: Word { hi: 0, lo: 0 }, code_hash: Word { hi: 0, lo: 0 } }
    }

    pub open spec fn spec_is_empty(self) -> bool {
        self.nonce == 0 && self.balance.value() == 0 && self.code_hash.value() == 0
    }

    pub fn is_empty(&self) -> (r: bool)
        ensures
            r == self.spec_is_empty(),
    {
        self.nonce == 0 && self.balance.hi == 0 && self.balance.lo == 0 && self.code_hash.hi == 0
            && self.code_hash.lo == 0
    }
}

/// First account in `s` stored under address bytes `a`, if any.
pub open spec fn find_account_spec(s: Seq<(Address, Account)>, a: Seq<u8>) -> Option<Account>
    decreases s.len(),
{
    if s.len() == 0 {
        None
    } else if s[0].0.bytes@ == a {
        Some(s[0].1)
    } else {
        find_account_spec(s.skip(1), a)
    }
}

/// Whether some address in `s` has bytes `a`.
pub open spec fn contains_addr(s: Seq<Address>, a: Seq<u8>) -> bool {
    exists|i: int| 0 <= i < s.len() && #[trigger] s[i].bytes@ == a
}

/// Byte-wise equality of two addresses.
pub fn address_eq(x: &Address, y: &Address) -> (r: bool)
    ensures
        r == (x.bytes@ == y.bytes@),
{
    if x.bytes.len() != y.bytes.len() {
        return false;
    }
    let n: usize = x.bytes.len();
    let mut i: usize = 0;
    while i < n
        invariant
            n == x.bytes@.len(),
            n == y.bytes@.len(),
            i <= n,
            forall|j: int| 0 <= j < i ==> x.bytes@[j] == y.bytes@[j],
        decreases n - i,
    {
        if x.bytes[i] != y.bytes[i] {
            return false;
        }
        i = i + 1;
    }
    proof {
        assert(x.bytes@ =~= y.bytes@);
    }
    true
}

/// The key-value view of account state and the transaction's access list.
#[derive(Clone, Debug)]
pub struct StateDB {
    pub accounts: Vec<(Address, Account)>,
    pub access_list: Vec<Address>,
}

proof fn lemma_find_account_skip(s: Seq<(Address, Account)>, a: Seq<u8>, i: int)
    requires
        0 <= i <= s.len(),
        forall|j: int| 0 <= j < i ==> #[trigger] s[j].0.bytes@ != a,
    ensures
        find_account_spec(s, a) == find_account_spec(s.skip(i), a),
    decreases i,
{
    if i > 0 {
        assert(s[0].0.bytes@ != a);
        assert forall|j: int| 0 <= j < i - 1 implies #[trigger] s.skip(1)[j].0.bytes@ != a by {
            assert(s.skip(1)[j] == s[j + 1]);
        }
        lemma_find_account_skip(s.skip(1), a, i - 1);
        assert(s.skip(1).skip(i - 1) =~= s.skip(i));
    } else {
        assert(s.skip(0) =~= s);
    }
}

impl StateDB {
    pub fn new() -> (r: StateDB)
        ensures
            r.accounts@.len() == 0,
            r.access_list@.len() == 0,
    {
        StateDB { accounts: Vec::new(), access_list: Vec::new() }
    }

    /// Looks an account up; a missing account yields the empty sentinel, not
    /// an error.
    pub fn get_account(&self, addr: &Address) -> (r: (bool, Account))
        ensures
            match find_account_spec(self.accounts@, addr.bytes@) {
                Some(acc) => r.0 == true && r.1 == acc,
                None => r.0 == false && r.1 == (Account {
                    nonce: 0,
                    balance: Word { hi: 0, lo: 0 },
                    code_hash: Word { hi: 0, lo: 0 },
                }),
            },
    {
        let n: usize = self.accounts.len();
        let mut i: usize = 0;
        while i < n
            invariant
                n == self.accounts@.len(),
                i <= n,
                forall|j: int| 0 <= j < i ==> #[trigger] self.accounts@[j].0.bytes@ != addr.bytes@,
            decreases n - i,
        {
            if address_eq(&self.accounts[i].0, addr) {
                proof {
                    lemma_find_account_skip(self.accounts@, addr.bytes@, i as int);
                    assert(self.accounts@.skip(i as int)[0] == self.accounts@[i as int]);
                }
                return (true, self.accounts[i].1);
            }
            i = i + 1;
        }
        proof {
            lemma_find_account_skip(self.accounts@, addr.bytes@, n as int);
        }
        (false, Account::empty())
    }

    /// Whether the address is already warm.
    pub fn check_account_in_access_list(&self, addr: &Address) -> (r: bool)
        ensures
            r == contains_addr(self.access_list@, addr.bytes@),
    {
        let n: usize = self.access_list.len();
        let mut i: usize = 0;
        while i < n
            invariant
                n == self.access_list@.len(),
                i <= n,
                forall|j: int| 0 <= j < i ==> #[trigger] self.access_list@[j].bytes@ != addr.bytes@,
            decreases n - i,
        {
            if address_eq(&self.access_list[i], addr) {
                return true;
            }
            i = i + 1;
        }
        false
    }

    /// Warms the address; returns whether it was newly added.
    pub fn add_account_to_access_list(&mut self, addr: Address) -> (r: bool)
        ensures
            r == !contains_addr(old(self).access_list@, addr.bytes@),
            contains_addr(final(self).access_list@, addr.bytes@),
            final(self).accounts@ == old(self).accounts@,
            r ==> final(self).access_list@ == old(self).access_list@.push(addr),
            !r ==> final(self).access_list@ == old(self).access_list@,
    {
        let already = self.check_account_in_access_list(&addr);
        if already {
            false
        } else {
            self.access_list.push(addr);
            proof {
                let s = final(self).access_list@;
                assert(s[s.len() - 1].bytes@ == addr.bytes@);
            }
            true
        }
    }
}

/// Per-transaction bookkeeping the handlers consult.
#[derive(Clone, Copy, Debug, PartialEq, Eq, Structural)]
pub struct TransactionContext {
    pub tx_id: usize,
}

impl TransactionContext {
    pub fn id(&self) -> (r: usize)
        ensures
            r == self.tx_id,
    {
        self.tx_id
    }
}

/// One call frame's bookkeeping.
#[derive(Clone, Debug, PartialEq, Eq)]
pub struct Call {
    pub call_id: usize,
    pub caller_id: usize,
    pub is_root: bool,
    pub is_create: bool,
    pub is_success: bool,
    pub is_persistent: bool,
    pub rw_counter_end_of_reversion: u64,
    pub callee_address: Address,
    pub return_data_offset: u64,
    pub return_data_length: u64,
    pub code_hash: Word,
}

/// The mutable memory snapshot owned by one call frame.
#[derive(Clone, Debug, PartialEq, Eq)]
pub struct CallContext {
    pub memory: Vec<u8>,
}

/// One raw execution step as the external tracer reports it.
#[derive(Clone, Debug, PartialEq, Eq)]
pub struct GethExecStep {
    pub pc: u64,
    pub op: OpcodeId,
    pub gas: u64,
    /// Machine stack, least-recent value at index 0.
    pub stack: Vec<u64>,
    /// Step-local memory chunk: the region this step's result lands in.
    pub memory: Vec<u8>,
    /// Full memory after the step.
    pub global_memory: Vec<u8>,
}

impl GethExecStep {
    /// The `n`-th value from the top of the stack.
    pub fn nth_last(&self, n: usize) -> (r: Result<u64, Error>)
        ensures
            n < self.stack@.len() ==> r == Ok::<u64, Error>(
                self.stack@[self.stack@.len() - 1 - n],
            ),
            n >= self.stack@.len() ==> r == Err::<u64, Error>(Error::InvalidGethExecStep),
    {
        if n < self.stack.len() {
            Ok(self.stack[self.stack.len() - 1 - n])
        } else {
            Err(Error::InvalidGethExecStep)
        }
    }

    /// The stack slot the `n`-th value from the top lives in.
    pub fn nth_last_filled(&self, n: usize) -> (r: usize)
        requires
            self.stack@.len() <= STACK_CAPACITY,
            n < self.stack@.len(),
        ensures
            r == STACK_CAPACITY - self.stack@.len() + n,
    {
        STACK_CAPACITY - self.stack.len() + n
    }

    /// Reads the 20-byte address stored at `offset` in the full memory.
    pub fn read_address(&self, offset: u64) -> (r: Result<Address, Error>)
        ensures
            match r {
                Ok(a) => {
                    &&& offset + N_BYTES_ADDRESS <= self.global_memory@.len()
                    &&& a.bytes@ == self.global_memory@.subrange(
                        offset as int,
                        offset + N_BYTES_ADDRESS,
                    )
                },
                Err(e) => {
                    &&& e == Error::InvalidGethExecStep
                    &&& offset + N_BYTES_ADDRESS > self.global_memory@.len()
                },
            },
    {
        let mem_len: usize = self.global_memory.len();
        if offset as u128 + N_BYTES_ADDRESS as u128 > mem_len as u128 {
            return Err(Error::InvalidGethExecStep);
        }
        let base: usize = offset as usize;
        let mut arr: [u8; N_BYTES_ADDRESS] = [0u8;N_BYTES_ADDRESS];
        let mut i: usize = 0;
        while i < N_BYTES_ADDRESS
            invariant
                i <= N_BYTES_ADDRESS,
                base == offset,
                offset + N_BYTES_ADDRESS <= self.global_memory@.len(),
                self.global_memory@.len() <= usize::MAX,
                arr@.len() == N_BYTES_ADDRESS,
                forall|j: int|
                    0 <= j < i ==> #[trigger] arr@[j] == self.global_memory@[offset + j],
            decreases N_BYTES_ADDRESS - i,
        {
            arr[i] = self.global_memory[base + i];
            i = i + 1;
        }
        proof {
            assert(arr@ =~= self.global_memory@.subrange(offset as int, offset + N_BYTES_ADDRESS));
        }
        Ok(Address { bytes: arr })
    }
}

/// The execution state one `ExecStep` is in.
#[derive(Clone, Copy, Debug, PartialEq, Eq, Structural)]
pub enum ExecState {
    Op(OpcodeId),
    EndTx,
    ErrorOutOfGasAccountAccess,
}

/// One executed opcode together with the contiguous slice of operation
/// references its handler appended.
#[derive(Clone, Debug, PartialEq, Eq)]
pub struct ExecStep {
    pub pc: u64,
    pub opcode: OpcodeId,
    pub gas_left: u64,
    pub call_index: usize,
    pub exec_state: ExecState,
    pub bus_mapping_instance: Vec<OperationRef>,
}

/// The mutable cursor over one in-flight transaction.
#[derive(Clone, Debug)]
pub struct CircuitInputStateRef {
    pub sdb: StateDB,
    /// Bytecode store keyed by code hash.
    pub code_db: Vec<(Word, Vec<u8>)>,
    pub tx_ctx: TransactionContext,
    pub container: OperationContainer,
    pub calls: Vec<Call>,
    /// Indices into `calls`; the last entry is the frame in flight.
    pub call_stack: Vec<usize>,
    /// Memory snapshots, one per entry of `call_stack`.
    pub call_ctx_stack: Vec<CallContext>,
    pub copy_events: Vec<CopyEvent>,
    /// Write-ahead log of reversible writes in the current reversion range.
    pub reversible_ops: Vec<OperationRef>,
}

/// First code blob in `s` stored under hash `h`.
pub open spec fn find_code_spec(s: Seq<(Word, Vec<u8>)>, h: Word) -> Option<Seq<u8>>
    decreases s.len(),
{
    if s.len() == 0 {
        None
    } else if s[0].0 == h {
        Some(s[0].1@)
    } else {
        find_code_spec(s.skip(1), h)
    }
}

proof fn lemma_find_code_skip(s: Seq<(Word, Vec<u8>)>, h: Word, i: int)
    requires
        0 <= i <= s.len(),
        forall|j: int| 0 <= j < i ==> #[trigger] s[j].0 != h,
    ensures
        find_code_spec(s, h) == find_code_spec(s.skip(i), h),
    decreases i,
{
    if i > 0 {
        assert(s[0].0 != h);
        assert forall|j: int| 0 <= j < i - 1 implies #[trigger] s.skip(1)[j].0 != h by {
            assert(s.skip(1)[j] == s[j + 1]);
        }
        lemma_find_code_skip(s.skip(1), h, i - 1);
        assert(s.skip(1).skip(i - 1) =~= s.skip(i));
    } else {
        assert(s.skip(0) =~= s);
    }
}

impl CircuitInputStateRef {
    /// Well-formedness: a well-formed container, and a call stack whose
    /// indices are valid with one memory snapshot per frame.
    pub open spec fn wf(self) -> bool {
        &&& self.container.wf()
        &&& self.call_ctx_stack@.len() == self.call_stack@.len()
        &&& forall|i: int|
            0 <= i < self.call_stack@.len() ==> #[trigger] self.call_stack@[i]
                < self.calls@.len()
    }

    pub open spec fn has_call(self) -> bool {
        self.call_stack@.len() > 0
    }

    /// The call frame in flight.
    pub open spec fn current_call(self) -> Call {
        self.calls@[self.call_stack@.last() as int]
    }

    pub open spec fn current_call_id(self) -> usize {
        self.current_call().call_id
    }

    /// The RWC the next recorded operation will receive.
    pub fn rwc(&self) -> (r: u64)
        requires
            self.wf(),
        ensures
            r == self.container.next_rwc(),
    {
        self.container.rwc_start + self.container.sequence.len() as u64
    }

    /// The call frame in flight, or an error outside any call.
    pub fn call(&self) -> (r: Result<&Call, Error>)
        requires
            self.wf(),
        ensures
            self.has_call() ==> (r matches Ok(c) && *c == self.current_call()),
            !self.has_call() ==> (r matches Err(e) && e == Error::InvalidGethExecStep),
    {
        if self.call_stack.len() == 0 {
            Err(Error::InvalidGethExecStep)
        } else {
            let idx: usize = self.call_stack[self.call_stack.len() - 1];
            Ok(&self.calls[idx])
        }
    }

    /// Starts the `ExecStep` for one raw trace step.
    pub fn new_step(&self, geth_step: &GethExecStep) -> (r: Result<ExecStep, Error>)
        requires
            self.wf(),
        ensures
            self.has_call() ==> (r matches Ok(step) && step == (ExecStep {
                pc: geth_step.pc,
                opcode: geth_step.op,
                gas_left: geth_step.gas,
                call_index: self.call_stack@.last(),
                exec_state: ExecState::Op(geth_step.op),
                bus_mapping_instance: step.bus_mapping_instance,
            }) && step.bus_mapping_instance@.len() == 0),
            !self.has_call() ==> (r matches Err(e) && e == Error::InvalidGethExecStep),
    {
        if self.call_stack.len() == 0 {
            return Err(Error::InvalidGethExecStep);
        }
        Ok(
            ExecStep {
                pc: geth_step.pc,
                opcode: geth_step.op,
                gas_left: geth_step.gas,
                call_index: self.call_stack[self.call_stack.len() - 1],
                exec_state: ExecState::Op(geth_step.op),
                bus_mapping_instance: Vec::new(),
            },
        )
    }

    /// Records a stack read and returns nothing; the operation and its
    /// reference are pinned exactly by the postcondition.
    pub fn stack_read(&mut self, step: &mut ExecStep, address: usize, value: u64)
        requires
            old(self).wf(),
            old(self).has_call(),
            old(self).container.next_rwc() < u64::MAX,
        ensures
            final(self).wf(),
            final(self).container.stack@ == old(self).container.stack@.push(
                Operation {
                    rwc: old(self).container.next_rwc() as u64,
                    rw_kind: RW::READ,
                    op_data: StackOp {
                        call_id: old(self).current_call_id(),
                        address,
                        value,
                    },
                },
            ),
            final(self).container.sequence@ == old(self).container.sequence@.push(
                final(step).bus_mapping_instance@.last(),
            ),
            final(self).container.memory@ == old(self).container.memory@,
            final(self).container.storage@ == old(self).container.storage@,
            final(self).container.call_context@ == old(self).container.call_context@,
            final(self).container.account@ == old(self).container.account@,
            final(self).container.tx_access_list_account@ == old(
                self,
            ).container.tx_access_list_account@,
            final(self).container.rwc_start == old(self).container.rwc_start,
            *final(self) == (CircuitInputStateRef { container: final(self).container, ..*old(self) }),
            final(step).bus_mapping_instance@ == old(step).bus_mapping_instance@.push(
                OperationRef {
                    target: crate::operation::Target::Stack,
                    index: old(self).container.stack@.len() as usize,
                },
            ),
            *final(step) == (ExecStep {
                bus_mapping_instance: final(step).bus_mapping_instance,
                ..*old(step)
            }),
    {
        let call_id = self.call_stack[self.call_stack.len() - 1];
        let call_id = self.calls[call_id].call_id;
        let op = StackOp { call_id, address, value };
        let r = self.container.append_stack_op(RW::READ, op);
        step.bus_mapping_instance.push(r);
    }

    /// Records a stack write.
    pub fn stack_write(&mut self, step: &mut ExecStep, address: usize, value: u64)
        requires
            old(self).wf(),
            old(self).has_call(),
            old(self).container.next_rwc() < u64::MAX,
        ensures
            final(self).wf(),
            final(self).container.stack@ == old(self).container.stack@.push(
                Operation {
                    rwc: old(self).container.next_rwc() as u64,
                    rw_kind: RW::WRITE,
                    op_data: StackOp {
                        call_id: old(self).current_call_id(),
                        address,
                        value,
                    },
                },
            ),
            final(self).container.sequence@ == old(self).container.sequence@.push(
                final(step).bus_mapping_instance@.last(),
            ),
            final(self).container.memory@ == old(self).container.memory@,
            final(self).container.storage@ == old(self).container.storage@,
            final(self).container.call_context@ == old(self).container.call_context@,
            final(self).container.account@ == old(self).container.account@,
            final(self).container.tx_access_list_account@ == old(
                self,
            ).container.tx_access_list_account@,
            final(self).container.rwc_start == old(self).container.rwc_start,
            *final(self) == (CircuitInputStateRef { container: final(self).container, ..*old(self) }),
            final(step).bus_mapping_instance@ == old(step).bus_mapping_instance@.push(
                OperationRef {
                    target: crate::operation::Target::Stack,
                    index: old(self).container.stack@.len() as usize,
                },
            ),
            *final(step) == (ExecStep {
                bus_mapping_instance: final(step).bus_mapping_instance,
                ..*old(step)
            }),
    {
        let call_id = self.call_stack[self.call_stack.len() - 1];
        let call_id = self.calls[call_id].call_id;
        let op = StackOp { call_id, address, value };
        let r = self.container.append_stack_op(RW::WRITE, op);
        step.bus_mapping_instance.push(r);
    }

    /// Records a read of one memory byte.
    pub fn memory_read(&mut self, step: &mut ExecStep, address: u64, value: u8)
        requires
            old(self).wf(),
            old(self).has_call(),
            old(self).container.next_rwc() < u64::MAX,
        ensures
            final(self).wf(),
            final(self).container.memory@ == old(self).container.memory@.push(
                Operation {
                    rwc: old(self).container.next_rwc() as u64,
                    rw_kind: RW::READ,
                    op_data: MemoryOp {
                        call_id: old(self).current_call_id(),
                        address,
                        value,
                    },
                },
            ),
            final(self).container.sequence@ == old(self).container.sequence@.push(
                final(step).bus_mapping_instance@.last(),
            ),
            final(self).container.stack@ == old(self).container.stack@,
            final(self).container.storage@ == old(self).container.storage@,
            final(self).container.call_context@ == old(self).container.call_context@,
            final(self).container.account@ == old(self).container.account@,
            final(self).container.tx_access_list_account@ == old(
                self,
            ).container.tx_access_list_account@,
            final(self).container.rwc_start == old(self).container.rwc_start,
            *final(self) == (CircuitInputStateRef { container: final(self).container, ..*old(self) }),
            final(step).bus_mapping_instance@ == old(step).bus_mapping_instance@.push(
                OperationRef {
                    target: crate::operation::Target::Memory,
                    index: old(self).container.memory@.len() as usize,
                },
            ),
            *final(step) == (ExecStep {
                bus_mapping_instance: final(step).bus_mapping_instance,
                ..*old(step)
            }),
    {
        let call_id = self.call_stack[self.call_stack.len() - 1];
        let call_id = self.calls[call_id].call_id;
        let op = MemoryOp { call_id, address, value };
        let r = self.container.append_memory_op(RW::READ, op);
        step.bus_mapping_instance.push(r);
    }

    /// Records a write of one memory byte.
    pub fn memory_write(&mut self, step: &mut ExecStep, address: u64, value: u8)
        requires
            old(self).wf(),
            old(self).has_call(),
            old(self).container.next_rwc() < u64::MAX,
        ensures
            final(self).wf(),
            final(self).container.memory@ == old(self).container.memory@.push(
                Operation {
                    rwc: old(self).container.next_rwc() as u64,
                    rw_kind: RW::WRITE,
                    op_data: MemoryOp {
                        call_id: old(self).current_call_id(),
                        address,
                        value,
                    },
                },
            ),
            final(self).container.sequence@ == old(self).container.sequence@.push(
                final(step).bus_mapping_instance@.last(),
            ),
            final(self).container.stack@ == old(self).container.stack@,
            final(self).container.storage@ == old(self).container.storage@,
            final(self).container.call_context@ == old(self).container.call_context@,
            final(self).container.account@ == old(self).container.account@,
            final(self).container.tx_access_list_account@ == old(
                self,
            ).container.tx_access_list_account@,
            final(self).container.rwc_start == old(self).container.rwc_start,
            *final(self) == (CircuitInputStateRef { container: final(self).container, ..*old(self) }),
            final(step).bus_mapping_instance@ == old(step).bus_mapping_instance@.push(
                OperationRef {
                    target: crate::operation::Target::Memory,
                    index: old(self).container.memory@.len() as usize,
                },
            ),
            *final(step) == (ExecStep {
                bus_mapping_instance: final(step).bus_mapping_instance,
                ..*old(step)
            }),
    {
        let call_id = self.call_stack[self.call_stack.len() - 1];
        let call_id = self.calls[call_id].call_id;
        let op = MemoryOp { call_id, address, value };
        let r = self.container.append_memory_op(RW::WRITE, op);
        step.bus_mapping_instance.push(r);
    }

    /// Records a read of a call-context field of the given call.
    pub fn call_context_read(
        &mut self,
        step: &mut ExecStep,
        call_id: usize,
        field: CallContextField,
        value: Word,
    )
        requires
            old(self).wf(),
            old(self).container.next_rwc() < u64::MAX,
        ensures
            final(self).wf(),
            final(self).container.call_context@ == old(self).container.call_context@.push(
                Operation {
                    rwc: old(self).container.next_rwc() as u64,
                    rw_kind: RW::READ,
                    op_data: CallContextOp { call_id, field, value },
                },
            ),
            final(self).container.sequence@ == old(self).container.sequence@.push(
                final(step).bus_mapping_instance@.last(),
            ),
            final(self).container.stack@ == old(self).container.stack@,
            final(self).container.memory@ == old(self).container.memory@,
            final(self).container.storage@ == old(self).container.storage@,
            final(self).container.account@ == old(self).container.account@,
            final(self).container.tx_access_list_account@ == old(
                self,
            ).container.tx_access_list_account@,
            final(self).container.rwc_start == old(self).container.rwc_start,
            *final(self) == (CircuitInputStateRef { container: final(self).container, ..*old(self) }),
            final(step).bus_mapping_instance@ == old(step).bus_mapping_instance@.push(
                OperationRef {
                    target: crate::operation::Target::CallContext,
                    index: old(self).container.call_context@.len() as usize,
                },
            ),
            *final(step) == (ExecStep {
                bus_mapping_instance: final(step).bus_mapping_instance,
                ..*old(step)
            }),
    {
        let op = CallContextOp { call_id, field, value };
        let r = self.container.append_call_context_op(RW::READ, op);
        step.bus_mapping_instance.push(r);
    }

    /// Records a read of an account field.
    pub fn account_read(
        &mut self,
        step: &mut ExecStep,
        address: Address,
        field: AccountField,
        value: Word,
        value_prev: Word,
    )
        requires
            old(self).wf(),
            old(self).container.next_rwc() < u64::MAX,
        ensures
            final(self).wf(),
            final(self).container.account@ == old(self).container.account@.push(
                Operation {
                    rwc: old(self).container.next_rwc() as u64,
                    rw_kind: RW::READ,
                    op_data: AccountOp { address, field, value, value_prev },
                },
            ),
            final(self).container.sequence@ == old(self).container.sequence@.push(
                final(step).bus_mapping_instance@.last(),
            ),
            final(self).container.stack@ == old(self).container.stack@,
            final(self).container.memory@ == old(self).container.memory@,
            final(self).container.storage@ == old(self).container.storage@,
            final(self).container.call_context@ == old(self).container.call_context@,
            final(self).container.tx_access_list_account@ == old(
                self,
            ).container.tx_access_list_account@,
            final(self).container.rwc_start == old(self).container.rwc_start,
            *final(self) == (CircuitInputStateRef { container: final(self).container, ..*old(self) }),
            final(step).bus_mapping_instance@ == old(step).bus_mapping_instance@.push(
                OperationRef {
                    target: crate::operation::Target::Account,
                    index: old(self).container.account@.len() as usize,
                },
            ),
            *final(step) == (ExecStep {
                bus_mapping_instance: final(step).bus_mapping_instance,
                ..*old(step)
            }),
    {
        let op = AccountOp { address, field, value, value_prev };
        let r = self.container.append_account_op(RW::READ, op);
        step.bus_mapping_instance.push(r);
    }

    /// Records a reversible access-list write: the operation is appended,
    /// noted in the write-ahead reversion log, and applied to the database.
    pub fn push_op_reversible(&mut self, step: &mut ExecStep, op: TxAccessListAccountOp)
        requires
            old(self).wf(),
            old(self).container.next_rwc() < u64::MAX,
        ensures
            final(self).wf(),
            final(self).container.tx_access_list_account@ == old(
                self,
            ).container.tx_access_list_account@.push(
                Operation {
                    rwc: old(self).container.next_rwc() as u64,
                    rw_kind: RW::WRITE,
                    op_data: op,
                },
            ),
            final(self).container.sequence@ == old(self).container.sequence@.push(
                final(step).bus_mapping_instance@.last(),
            ),
            final(self).container.stack@ == old(self).container.stack@,
            final(self).container.memory@ == old(self).container.memory@,
            final(self).container.storage@ == old(self).container.storage@,
            final(self).container.call_context@ == old(self).container.call_context@,
            final(self).container.account@ == old(self).container.account@,
            final(self).container.rwc_start == old(self).container.rwc_start,
            final(self).reversible_ops@ == old(self).reversible_ops@.push(
                final(step).bus_mapping_instance@.last(),
            ),
            op.is_warm ==> contains_addr(final(self).sdb.access_list@, op.address.bytes@),
            final(self).sdb.accounts@ == old(self).sdb.accounts@,
            *final(self) == (CircuitInputStateRef {
                container: final(self).container,
                reversible_ops: final(self).reversible_ops,
                sdb: final(self).sdb,
                ..*old(self)
            }),
            final(step).bus_mapping_instance@ == old(step).bus_mapping_instance@.push(
                OperationRef {
                    target: crate::operation::Target::TxAccessListAccount,
                    index: old(self).container.tx_access_list_account@.len() as usize,
                },
            ),
            *final(step) == (ExecStep {
                bus_mapping_instance: final(step).bus_mapping_instance,
                ..*old(step)
            }),
    {
        let addr = op.address.clone();
        let warm = op.is_warm;
        let r = self.container.append_tx_access_list_account_op(RW::WRITE, op);
        step.bus_mapping_instance.push(r);
        self.reversible_ops.push(r);
        if warm {
            self.sdb.add_account_to_access_list(addr);
        }
    }

    /// The bytecode stored under a hash; missing code means the trace is
    /// inconsistent.
    pub fn code(&self, code_hash: &Word) -> (r: Result<Vec<u8>, Error>)
        ensures
            match find_code_spec(self.code_db@, *code_hash) {
                Some(bytes) => r matches Ok(b) && b@ == bytes,
                None => r matches Err(e) && e == Error::InvalidGethExecStep,
            },
    {
        let n: usize = self.code_db.len();
        let mut i: usize = 0;
        while i < n
            invariant
                n == self.code_db@.len(),
                i <= n,
                forall|j: int| 0 <= j < i ==> #[trigger] self.code_db@[j].0 != *code_hash,
            decreases n - i,
        {
            let hit = {
                let entry = &self.code_db[i].0;
                entry.hi == code_hash.hi && entry.lo == code_hash.lo
            };
            if hit {
                proof {
                    lemma_find_code_skip(self.code_db@, *code_hash, i as int);
                    assert(self.code_db@.skip(i as int)[0] == self.code_db@[i as int]);
                }
                return Ok(crate::types::clone_bytes(&self.code_db[i].1));
            }
            i = i + 1;
        }
        proof {
            lemma_find_code_skip(self.code_db@, *code_hash, n as int);
        }
        Err(Error::InvalidGethExecStep)
    }

    /// Records one finished copy event.
    pub fn push_copy(&mut self, event: CopyEvent)
        ensures
            final(self).copy_events@ == old(self).copy_events@.push(event),
            *final(self) == (CircuitInputStateRef {
                copy_events: final(self).copy_events,
                ..*old(self)
            }),
    {
        self.copy_events.push(event);
    }

    /// What byte `i` of the frame memory holds after copying `length`
    /// bytes of `code` starting at `code_offset` to `dest`: the copied byte
    /// inside the window (zero where the source ran out), the old byte
    /// before the window, zero in freshly exposed memory.
    pub open spec fn copy_from_byte_spec(
        old_mem: Seq<u8>,
        dest: u64,
        code: Seq<u8>,
        code_offset: u64,
        length: u64,
        i: int,
    ) -> u8 {
        if dest <= i < dest + length {
            if code_offset + (i - dest) < code.len() {
                code[code_offset + (i - dest)]
            } else {
                0u8
            }
        } else if i < old_mem.len() {
            old_mem[i]
        } else {
            0u8
        }
    }

    /// Copies a byte range of `code` into the current frame's memory,
    /// expanding it as needed; source reads past the end are zero-padded.
    #[verifier::loop_isolation(false)]
    pub fn call_memory_copy_from(&mut self, dest: u64, code: &Vec<u8>, code_offset: u64,
        length: u64)
        requires
            old(self).wf(),
            old(self).has_call(),
            dest + length <= usize::MAX,
            code_offset + length <= u64::MAX,
        ensures
            final(self).wf(),
            final(self).call_ctx_stack@.len() == old(self).call_ctx_stack@.len(),
            ({
                let old_mem = old(self).call_ctx_stack@.last().memory@;
                let new_mem = final(self).call_ctx_stack@.last().memory@;
                &&& new_mem.len() == if length == 0 {
                    old_mem.len() as int
                } else if old_mem.len() >= dest + length {
                    old_mem.len() as int
                } else {
                    dest + length
                }
                &&& forall|i: int|
                    0 <= i < new_mem.len() ==> #[trigger] new_mem[i]
                        == CircuitInputStateRef::copy_from_byte_spec(
                        old_mem,
                        dest,
                        code@,
                        code_offset,
                        length,
                        i,
                    )
            }),
            forall|i: int|
                0 <= i < old(self).call_ctx_stack@.len() - 1
                    ==> #[trigger] final(self).call_ctx_stack@[i] == old(self).call_ctx_stack@[i],
            *final(self) == (CircuitInputStateRef {
                call_ctx_stack: final(self).call_ctx_stack,
                ..*old(self)
            }),
    {
        if length == 0 {
            return ;
        }
        let mut ctx = match self.call_ctx_stack.pop() {
            Some(c) => c,
            None => {
                proof {
                    assert(false);
                }
                CallContext { memory: Vec::new() }
            },
        };
        let ghost old_mem = ctx.memory@;
        let needed: usize = (dest + length) as usize;
        while ctx.memory.len() < needed
            invariant
                needed == dest + length,
                old_mem.len() <= ctx.memory@.len(),
                ctx.memory@.len() <= needed || ctx.memory@.len() == old_mem.len(),
                forall|i: int| 0 <= i < old_mem.len() ==> #[trigger] ctx.memory@[i] == old_mem[i],
                forall|i: int|
                    old_mem.len() <= i < ctx.memory@.len() ==> #[trigger] ctx.memory@[i] == 0u8,
            decreases needed - ctx.memory@.len(),
        {
            ctx.memory.push(0u8);
        }
        let ghost grown = ctx.memory@;
        let base: usize = dest as usize;
        let code_n: usize = code.len();
        let mut j: usize = 0;
        while j < length as usize
            invariant
                j <= length,
                base == dest,
                code_n == code@.len(),
                needed == dest + length,
                ctx.memory@.len() == grown.len(),
                grown.len() >= needed,
                grown.len() >= old_mem.len(),
                forall|i: int| 0 <= i < old_mem.len() ==> #[trigger] grown[i] == old_mem[i],
                forall|i: int| old_mem.len() <= i < grown.len() ==> #[trigger] grown[i] == 0u8,
                forall|i: int|
                    0 <= i < ctx.memory@.len() && !(dest <= i < dest + j) ==> #[trigger] ctx.memory@[i]
                        == grown[i],
                forall|i: int|
                    dest <= i < dest + j ==> #[trigger] ctx.memory@[i] == (if code_offset + (i
                        - dest) < code@.len() {
                        code@[code_offset + (i - dest)]
                    } else {
                        0u8
                    }),
            decreases length - j,
        {
            let b: u8 = if (code_offset as u128 + j as u128) < code_n as u128 {
                code[(code_offset + j as u64) as usize]
            } else {
                0u8
            };
            ctx.memory[base + j] = b;
            j = j + 1;
        }
        self.call_ctx_stack.push(ctx);
    }

    /// Replaces the current frame's memory snapshot wholesale.
    pub fn update_call_memory(&mut self, memory: Vec<u8>)
        requires
            old(self).wf(),
            old(self).has_call(),
        ensures
            final(self).wf(),
            final(self).call_ctx_stack@ == old(self).call_ctx_stack@.update(
                old(self).call_ctx_stack@.len() - 1,
                CallContext { memory },
            ),
            *final(self) == (CircuitInputStateRef {
                call_ctx_stack: final(self).call_ctx_stack,
                ..*old(self)
            }),
    {
        let top: usize = self.call_ctx_stack.len() - 1;
        self.call_ctx_stack.set(top, CallContext { memory });
    }
}

} // verus!
