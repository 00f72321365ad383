//! Handler for the opcode that copies an external account's code into
//! memory.
//!
//! Its operand layout, from the stack top down, is: copy length, code
//! offset, destination offset, and the memory offset holding the external
//! address. The handler records four stack reads, three call-context reads,
//! one reversible access-list write, one account read of the code hash,
//! twenty memory reads of the address bytes, and one memory write per copied
//! byte; the copy itself is summarised in a copy event.

use vstd::prelude::*;

use crate::copy_event::{Bytecode, CopyDataType, CopyEvent, NumberOrHash};
use crate::evm::STACK_CAPACITY;
use crate::operation::{AccountField, CallContextField, CallContextOp, MemoryOp,
    Operation, OperationRef, RW, StackOp, Target, TxAccessListAccountOp};
use crate::state::{contains_addr, find_account_spec, find_code_spec, Account,
    CircuitInputStateRef, ExecState, ExecStep, GethExecStep};
use crate::types::{memory_address_try_from, Address, Word, MAX_MEMORY_ADDRESS,
    N_BYTES_ADDRESS};
use crate::Error;

verus! {

/// Operations appended before the per-byte copy: four stack reads, three
/// call-context reads, the access-list write, the code-hash read, and the
/// twenty address-byte reads.
pub const EXTCODECOPY_FIXED_OP_COUNT: usize = 29;

pub struct Extcodecopy;

/// The byte the copy hands to index `i`: the bytecode element while the
/// source range lasts, zero-padding flagged as data afterwards.
pub open spec fn copy_step_spec(code: Seq<crate::copy_event::BytecodeElement>, src_addr: u64,
    src_addr_end: u64, i: int) -> (u8, bool) {
    if src_addr + i < src_addr_end {
        (code[src_addr + i].value, code[src_addr + i].is_code)
    } else {
        (0u8, false)
    }
}

/// Walks the copy range byte by byte, appending one memory write per byte
/// and accumulating the same bytes into the returned payload, in index
/// order. Reads past the end of the source contribute `(0, false)`.
#[verifier::loop_isolation(false)]
pub fn gen_copy_steps(
    state: &mut CircuitInputStateRef,
    exec_step: &mut ExecStep,
    src_addr: u64,
    dst_addr: u64,
    src_addr_end: u64,
    bytes_left: u64,
    code: &Bytecode,
) -> (r: Result<Vec<(u8, bool)>, Error>)
    requires
        old(state).wf(),
        old(state).has_call(),
        old(state).container.next_rwc() + bytes_left <= u64::MAX,
        src_addr_end <= code.code@.len(),
        src_addr + bytes_left <= u64::MAX,
        dst_addr + bytes_left <= u64::MAX,
    ensures
        final(state).wf(),
        r matches Ok(steps) && ({
            let mem0 = old(state).container.memory@;
            let rwc0 = old(state).container.next_rwc();
            let call_id = old(state).current_call_id();
            &&& steps@.len() == bytes_left
            &&& forall|i: int|
                0 <= i < bytes_left ==> #[trigger] steps@[i] == copy_step_spec(
                    code.code@,
                    src_addr,
                    src_addr_end,
                    i,
                )
            &&& final(state).container.memory@.len() == mem0.len() + bytes_left
            &&& forall|i: int| 0 <= i < mem0.len() ==> #[trigger] final(state).container.memory@[i]
                == mem0[i]
            &&& forall|i: int|
                0 <= i < bytes_left ==> #[trigger] final(state).container.memory@[mem0.len() + i]
                    == (Operation {
                    rwc: (rwc0 + i) as u64,
                    rw_kind: RW::WRITE,
                    op_data: MemoryOp {
                        call_id,
                        address: (dst_addr + i) as u64,
                        value: copy_step_spec(code.code@, src_addr, src_addr_end, i).0,
                    },
                })
            &&& final(state).container.next_rwc() == rwc0 + bytes_left
            &&& final(state).container.stack@ == old(state).container.stack@
            &&& final(state).container.storage@ == old(state).container.storage@
            &&& final(state).container.call_context@ == old(state).container.call_context@
            &&& final(state).container.account@ == old(state).container.account@
            &&& final(state).container.tx_access_list_account@ == old(
                state,
            ).container.tx_access_list_account@
            &&& *final(state) == (CircuitInputStateRef {
                container: final(state).container,
                ..*old(state)
            })
            &&& final(exec_step).bus_mapping_instance@.len() == old(
                exec_step,
            ).bus_mapping_instance@.len() + bytes_left
            &&& *final(exec_step) == (ExecStep {
                bus_mapping_instance: final(exec_step).bus_mapping_instance,
                ..*old(exec_step)
            })
        }),
{
    let mut copy_steps: Vec<(u8, bool)> = Vec::new();
    let code_len: usize = code.len();
    proof {
        assert(code.code@.len() <= usize::MAX);
    }
    let ghost mem0 = state.container.memory@;
    let ghost rwc0 = state.container.next_rwc();
    let ghost call_id = state.current_call_id();
    let ghost bmi0 = exec_step.bus_mapping_instance@;
    let mut idx: u64 = 0;
    while idx < bytes_left
        invariant
            idx <= bytes_left,
            state.wf(),
            state.has_call(),
            state.current_call_id() == call_id,
            copy_steps@.len() == idx,
            forall|i: int|
                0 <= i < idx ==> #[trigger] copy_steps@[i] == copy_step_spec(
                    code.code@,
                    src_addr,
                    src_addr_end,
                    i,
                ),
            state.container.next_rwc() == rwc0 + idx,
            state.container.memory@.len() == mem0.len() + idx,
            forall|i: int| 0 <= i < mem0.len() ==> #[trigger] state.container.memory@[i] == mem0[i],
            forall|i: int|
                0 <= i < idx ==> #[trigger] state.container.memory@[mem0.len() + i] == (Operation {
                    rwc: (rwc0 + i) as u64,
                    rw_kind: RW::WRITE,
                    op_data: MemoryOp {
                        call_id,
                        address: (dst_addr + i) as u64,
                        value: copy_step_spec(code.code@, src_addr, src_addr_end, i).0,
                    },
                }),
            state.container.stack@ == old(state).container.stack@,
            state.container.storage@ == old(state).container.storage@,
            state.container.call_context@ == old(state).container.call_context@,
            state.container.account@ == old(state).container.account@,
            state.container.tx_access_list_account@ == old(
                state,
            ).container.tx_access_list_account@,
            *state == (CircuitInputStateRef { container: state.container, ..*old(state) }),
            exec_step.bus_mapping_instance@.len() == bmi0.len() + idx,
            *exec_step == (ExecStep {
                bus_mapping_instance: exec_step.bus_mapping_instance,
                ..*old(exec_step)
            }),
        decreases bytes_left - idx,
    {
        let addr: u64 = src_addr + idx;
        let byte_step: (u8, bool) = if addr < src_addr_end {
            let el = match code.get(addr as usize) {
                Some(e) => e,
                None => {
                    proof {
                        assert(false);
                    }
                    (crate::copy_event::BytecodeElement { value: 0, is_code: false })
                },
            };
            (el.value, el.is_code)
        } else {
            (0u8, false)
        };
        proof {
            assert(byte_step == copy_step_spec(code.code@, src_addr, src_addr_end, idx as int));
        }
        copy_steps.push(byte_step);
        state.memory_write(exec_step, dst_addr + idx, byte_step.0);
        idx = idx + 1;
    }
    Ok(copy_steps)
}

/// The external address named by the step: the 20 bytes of full memory at
/// the offset held fourth from the stack top.
pub open spec fn ext_addr_bytes_spec(step0: GethExecStep, step1: GethExecStep) -> Seq<u8> {
    let ao = step0.stack@[step0.stack@.len() - 4];
    step1.global_memory@.subrange(ao as int, ao + N_BYTES_ADDRESS)
}

/// The code hash the handler records for an external address: the account's
/// hash if the account exists and is non-empty, the zero hash otherwise.
pub open spec fn account_code_hash_spec(accounts: Seq<(Address, Account)>, a: Seq<u8>) -> Word {
    match find_account_spec(accounts, a) {
        Some(acc) => if acc.spec_is_empty() {
            Word { hi: 0, lo: 0 }
        } else {
            acc.code_hash
        },
        None => Word { hi: 0, lo: 0 },
    }
}

/// The code bytes the copy reads from: the stored bytecode of a non-empty
/// account, the empty byte string otherwise.
pub open spec fn ext_code_bytes_spec(st: CircuitInputStateRef, a: Seq<u8>) -> Seq<u8> {
    match find_account_spec(st.sdb.accounts@, a) {
        Some(acc) => if acc.spec_is_empty() {
            Seq::empty()
        } else {
            match find_code_spec(st.code_db@, acc.code_hash) {
                Some(b) => b,
                None => Seq::empty(),
            }
        },
        None => Seq::empty(),
    }
}

/// Appends the fixed prefix of the opcode's operations: the four stack
/// reads, the three call-context reads, the reversible access-list write
/// and the code-hash read, in that order.
#[verifier::loop_isolation(false)]
pub fn gen_extcodecopy_step(
    state: &mut CircuitInputStateRef,
    geth_step: &GethExecStep,
    geth_second_step: &GethExecStep,
) -> (r: Result<ExecStep, Error>)
    requires
        old(state).wf(),
        old(state).has_call(),
        old(state).container.next_rwc() + 9 <= u64::MAX,
        4 <= geth_step.stack@.len() <= STACK_CAPACITY,
        geth_step.stack@[geth_step.stack@.len() - 4] + N_BYTES_ADDRESS
            <= geth_second_step.global_memory@.len(),
    ensures
        final(state).wf(),
        r matches Ok(es) && ({
            let n = geth_step.stack@.len() as int;
            let rwc0 = old(state).container.next_rwc();
            let call_id = old(state).current_call_id();
            let cur = old(state).current_call();
            let tx_id = old(state).tx_ctx.tx_id;
            let ext = ext_addr_bytes_spec(*geth_step, *geth_second_step);
            let was_warm = contains_addr(old(state).sdb.access_list@, ext);
            let ch = account_code_hash_spec(old(state).sdb.accounts@, ext);
            let st = final(state).container.stack@;
            let st0 = old(state).container.stack@;
            let cc = final(state).container.call_context@;
            let cc0 = old(state).container.call_context@;
            let tal = final(state).container.tx_access_list_account@;
            let acc = final(state).container.account@;
            &&& es.pc == geth_step.pc
            &&& es.opcode == geth_step.op
            &&& es.gas_left == geth_step.gas
            &&& es.exec_state == ExecState::Op(geth_step.op)
            &&& es.call_index == old(state).call_stack@.last()
            &&& es.bus_mapping_instance@.len() == 9
            &&& forall|i: int|
                0 <= i < 4 ==> #[trigger] es.bus_mapping_instance@[i] == (OperationRef {
                    target: Target::Stack,
                    index: (st0.len() + i) as usize,
                })
            &&& forall|i: int|
                4 <= i < 7 ==> #[trigger] es.bus_mapping_instance@[i] == (OperationRef {
                    target: Target::CallContext,
                    index: (cc0.len() + i - 4) as usize,
                })
            &&& es.bus_mapping_instance@[7] == (OperationRef {
                target: Target::TxAccessListAccount,
                index: old(state).container.tx_access_list_account@.len() as usize,
            })
            &&& es.bus_mapping_instance@[8] == (OperationRef {
                target: Target::Account,
                index: old(state).container.account@.len() as usize,
            })
            &&& st.len() == st0.len() + 4
            &&& forall|i: int| 0 <= i < st0.len() ==> #[trigger] st[i] == st0[i]
            &&& forall|i: int| 0 <= i < cc0.len() ==> #[trigger] cc[i] == cc0[i]
            &&& forall|i: int|
                0 <= i < old(state).container.tx_access_list_account@.len() ==> #[trigger] tal[i]
                    == old(state).container.tx_access_list_account@[i]
            &&& forall|i: int|
                0 <= i < old(state).container.account@.len() ==> #[trigger] acc[i] == old(
                    state,
                ).container.account@[i]
            &&& forall|i: int|
                0 <= i < 4 ==> #[trigger] st[st0.len() + i] == (Operation {
                    rwc: (rwc0 + i) as u64,
                    rw_kind: RW::READ,
                    op_data: StackOp {
                        call_id,
                        address: (STACK_CAPACITY - geth_step.stack@.len() + i) as usize,
                        value: geth_step.stack@[n - 1 - i],
                    },
                })
            &&& cc.len() == cc0.len() + 3
            &&& cc[cc0.len() as int] == (Operation {
                rwc: (rwc0 + 4) as u64,
                rw_kind: RW::READ,
                op_data: CallContextOp {
                    call_id,
                    field: CallContextField::TxId,
                    value: Word { hi: 0, lo: tx_id as u128 },
                },
            })
            &&& cc[cc0.len() as int + 1] == (Operation {
                rwc: (rwc0 + 5) as u64,
                rw_kind: RW::READ,
                op_data: CallContextOp {
                    call_id,
                    field: CallContextField::RwCounterEndOfReversion,
                    value: Word { hi: 0, lo: cur.rw_counter_end_of_reversion as u128 },
                },
            })
            &&& cc[cc0.len() as int + 2] == (Operation {
                rwc: (rwc0 + 6) as u64,
                rw_kind: RW::READ,
                op_data: CallContextOp {
                    call_id,
                    field: CallContextField::IsPersistent,
                    value: Word { hi: 0, lo: if cur.is_persistent {
                        1u128
                    } else {
                        0u128
                    } },
                },
            })
            &&& tal.len() == old(state).container.tx_access_list_account@.len() + 1
            &&& tal.last().rwc == rwc0 + 7
            &&& tal.last().rw_kind == RW::WRITE
            &&& tal.last().op_data.tx_id == tx_id
            &&& tal.last().op_data.address.bytes@ == ext
            &&& tal.last().op_data.is_warm == true
            &&& tal.last().op_data.is_warm_prev == was_warm
            &&& acc.len() == old(state).container.account@.len() + 1
            &&& acc.last().rwc == rwc0 + 8
            &&& acc.last().rw_kind == RW::READ
            &&& acc.last().op_data.address.bytes@ == ext
            &&& acc.last().op_data.field == AccountField::CodeHash
            &&& acc.last().op_data.value == ch
            &&& acc.last().op_data.value_prev == ch
            &&& final(state).container.memory@ == old(state).container.memory@
            &&& final(state).container.storage@ == old(state).container.storage@
            &&& final(state).container.next_rwc() == rwc0 + 9
            &&& contains_addr(final(state).sdb.access_list@, ext)
            &&& final(state).sdb.accounts@ == old(state).sdb.accounts@
            &&& final(state).code_db@ == old(state).code_db@
            &&& final(state).calls@ == old(state).calls@
            &&& final(state).call_stack@ == old(state).call_stack@
            &&& final(state).call_ctx_stack@ == old(state).call_ctx_stack@
            &&& final(state).copy_events@ == old(state).copy_events@
            &&& final(state).reversible_ops@ == old(state).reversible_ops@.push(
                es.bus_mapping_instance@[7],
            )
            &&& final(state).tx_ctx == old(state).tx_ctx
        }),
{
    let mut exec_step = match state.new_step(geth_step) {
        Ok(s) => s,
        Err(e) => {
            proof {
                assert(false);
            }
            return Err(e);
        },
    };
    let n: usize = geth_step.stack.len();
    let length = geth_step.stack[n - 1];
    let offset = geth_step.stack[n - 2];
    let dest_offset = geth_step.stack[n - 3];
    let external_address_offset = geth_step.stack[n - 4];
    let external_address = match geth_second_step.read_address(external_address_offset) {
        Ok(a) => a,
        Err(e) => {
            proof {
                assert(false);
            }
            return Err(e);
        },
    };
    let call_id = match state.call() {
        Ok(c) => c.call_id,
        Err(e) => {
            proof {
                assert(false);
            }
            return Err(e);
        },
    };
    let (rw_counter_end_of_reversion, is_persistent) = match state.call() {
        Ok(c) => (c.rw_counter_end_of_reversion, c.is_persistent),
        Err(e) => {
            proof {
                assert(false);
            }
            return Err(e);
        },
    };
    let tx_id = state.tx_ctx.id();

    state.stack_read(&mut exec_step, STACK_CAPACITY - n, length);
    state.stack_read(&mut exec_step, STACK_CAPACITY - n + 1, offset);
    state.stack_read(&mut exec_step, STACK_CAPACITY - n + 2, dest_offset);
    state.stack_read(&mut exec_step, STACK_CAPACITY - n + 3, external_address_offset);

    state.call_context_read(
        &mut exec_step,
        call_id,
        CallContextField::TxId,
        Word::from_u128(tx_id as u128),
    );
    state.call_context_read(
        &mut exec_step,
        call_id,
        CallContextField::RwCounterEndOfReversion,
        Word::from_u128(rw_counter_end_of_reversion as u128),
    );
    state.call_context_read(
        &mut exec_step,
        call_id,
        CallContextField::IsPersistent,
        Word::from_u128(if is_persistent {
            1u128
        } else {
            0u128
        }),
    );

    let is_warm = state.sdb.check_account_in_access_list(&external_address);
    state.push_op_reversible(
        &mut exec_step,
        TxAccessListAccountOp {
            tx_id,
            address: external_address,
            is_warm: true,
            is_warm_prev: is_warm,
        },
    );

    let account = state.sdb.get_account(&external_address).1;
    let exists = !account.is_empty();
    let code_hash = if exists {
        account.code_hash
    } else {
        Word::zero()
    };

    state.account_read(
        &mut exec_step,
        external_address,
        AccountField::CodeHash,
        code_hash,
        code_hash,
    );
    Ok(exec_step)
}

/// Builds the copy event for one execution of the opcode, appending the
/// per-byte memory writes in index order. The RWC at which that sequence
/// starts is recorded on the event.
#[verifier::loop_isolation(false)]
pub fn gen_copy_event(
    state: &mut CircuitInputStateRef,
    geth_step: &GethExecStep,
    geth_second_step: &GethExecStep,
) -> (r: Result<CopyEvent, Error>)
    requires
        old(state).wf(),
        old(state).has_call(),
        4 <= geth_step.stack@.len() <= STACK_CAPACITY,
        geth_step.stack@[geth_step.stack@.len() - 4] + N_BYTES_ADDRESS
            <= geth_second_step.global_memory@.len(),
        old(state).container.next_rwc() + geth_step.stack@.last() <= u64::MAX,
        geth_step.stack@[geth_step.stack@.len() - 2] + geth_step.stack@.last() <= u64::MAX,
        geth_step.stack@[geth_step.stack@.len() - 3] + geth_step.stack@.last() <= u64::MAX,
        match find_account_spec(
            old(state).sdb.accounts@,
            ext_addr_bytes_spec(*geth_step, *geth_second_step),
        ) {
            Some(acc) => !acc.spec_is_empty() ==> find_code_spec(
                old(state).code_db@,
                acc.code_hash,
            ) is Some,
            None => true,
        },
    ensures
        final(state).wf(),
        r matches Ok(ev) && ({
            let n = geth_step.stack@.len() as int;
            let length = geth_step.stack@[n - 1];
            let data_offset = geth_step.stack@[n - 2];
            let memory_offset = geth_step.stack@[n - 3];
            let ext = ext_addr_bytes_spec(*geth_step, *geth_second_step);
            let code_bytes = ext_code_bytes_spec(*old(state), ext);
            let ch = account_code_hash_spec(old(state).sdb.accounts@, ext);
            let rwc0 = old(state).container.next_rwc();
            let call_id = old(state).current_call_id();
            let mem0 = old(state).container.memory@;
            &&& ev.src_addr == data_offset
            &&& ev.src_addr_end == code_bytes.len()
            &&& ev.src_type == CopyDataType::Bytecode
            &&& ev.src_id == NumberOrHash::Hash(ch)
            &&& ev.dst_addr == memory_offset
            &&& ev.dst_type == CopyDataType::Memory
            &&& ev.dst_id == NumberOrHash::Number(call_id)
            &&& ev.log_id is None
            &&& ev.rw_counter_start == rwc0
            &&& ev.bytes@.len() == length
            &&& forall|i: int|
                0 <= i < length ==> #[trigger] ev.bytes@[i] == (if data_offset + i
                    < code_bytes.len() {
                    (code_bytes[data_offset + i], true)
                } else {
                    (0u8, false)
                })
            &&& final(state).container.memory@.len() == mem0.len() + length
            &&& forall|i: int| 0 <= i < mem0.len() ==> #[trigger] final(state).container.memory@[i]
                == mem0[i]
            &&& forall|i: int|
                0 <= i < length ==> #[trigger] final(state).container.memory@[mem0.len() + i]
                    == (Operation {
                    rwc: (rwc0 + i) as u64,
                    rw_kind: RW::WRITE,
                    op_data: MemoryOp {
                        call_id,
                        address: (memory_offset + i) as u64,
                        value: (if data_offset + i < code_bytes.len() {
                            code_bytes[data_offset + i]
                        } else {
                            0u8
                        }),
                    },
                })
            &&& final(state).container.next_rwc() == rwc0 + length
            &&& final(state).container.stack@ == old(state).container.stack@
            &&& final(state).container.storage@ == old(state).container.storage@
            &&& final(state).container.call_context@ == old(state).container.call_context@
            &&& final(state).container.account@ == old(state).container.account@
            &&& final(state).container.tx_access_list_account@ == old(
                state,
            ).container.tx_access_list_account@
            &&& *final(state) == (CircuitInputStateRef {
                container: final(state).container,
                ..*old(state)
            })
        }),
{
    let rw_counter_start = state.rwc();
    let n: usize = geth_step.stack.len();
    let length = geth_step.stack[n - 1];
    let data_offset = geth_step.stack[n - 2];
    let memory_offset = geth_step.stack[n - 3];
    let external_address_offset = geth_step.stack[n - 4];
    let external_address = match geth_second_step.read_address(external_address_offset) {
        Ok(a) => a,
        Err(e) => {
            proof {
                assert(false);
            }
            return Err(e);
        },
    };

    let account = state.sdb.get_account(&external_address).1;
    let exists = !account.is_empty();
    let code_hash = if exists {
        account.code_hash
    } else {
        Word::zero()
    };

    let code: Bytecode = if exists {
        let bytecode_bytes = match state.code(&code_hash) {
            Ok(b) => b,
            Err(e) => {
                proof {
                    assert(false);
                }
                return Err(e);
            },
        };
        Bytecode::from_raw_unchecked(bytecode_bytes)
    } else {
        Bytecode::new_empty()
    };
    let src_addr_end: u64 = code.len() as u64;
    let mut exec_step = match state.new_step(geth_step) {
        Ok(s) => s,
        Err(e) => {
            proof {
                assert(false);
            }
            return Err(e);
        },
    };
    let copy_steps = match gen_copy_steps(
        state,
        &mut exec_step,
        data_offset,
        memory_offset,
        src_addr_end,
        length,
        &code,
    ) {
        Ok(cs) => cs,
        Err(e) => {
            proof {
                assert(false);
            }
            return Err(e);
        },
    };
    Ok(
        CopyEvent {
            src_addr: data_offset,
            src_addr_end,
            src_type: CopyDataType::Bytecode,
            src_id: NumberOrHash::Hash(code_hash),
            dst_addr: memory_offset,
            dst_type: CopyDataType::Memory,
            dst_id: NumberOrHash::Number(
                match state.call() {
                    Ok(c) => c.call_id,
                    Err(e) => {
                        proof {
                            assert(false);
                        }
                        return Err(e);
                    },
                },
            ),
            log_id: None,
            rw_counter_start,
            bytes: copy_steps,
        },
    )
}

impl Extcodecopy {
    /// Replays one execution of the opcode.
    ///
    /// On success the appended operations are, in order: the fixed prefix
    /// of `gen_extcodecopy_step`, twenty memory reads of the external
    /// address bytes at ascending offsets, and one memory write per copied
    /// byte; the copy is summarised in the pushed copy event, whose payload
    /// always holds exactly the declared number of bytes, zero-padded and
    /// flagged as data where the source ran out.
    #[verifier::loop_isolation(false)]
    pub fn gen_associated_ops(
        state: &mut CircuitInputStateRef,
        geth_steps: &Vec<GethExecStep>,
    ) -> (r: Result<Vec<ExecStep>, Error>)
        requires
            old(state).wf(),
            old(state).has_call(),
            geth_steps@.len() >= 1 ==> geth_steps@[0].stack@.len() <= STACK_CAPACITY,
            geth_steps@.len() >= 2 && geth_steps@[0].stack@.len() >= 4 ==> ({
                let n = geth_steps@[0].stack@.len() as int;
                let length = geth_steps@[0].stack@[n - 1];
                let data_offset = geth_steps@[0].stack@[n - 2];
                let memory_offset = geth_steps@[0].stack@[n - 3];
                &&& old(state).container.next_rwc() + EXTCODECOPY_FIXED_OP_COUNT + length
                    <= u64::MAX
                &&& memory_offset + length <= usize::MAX
                &&& data_offset + length <= u64::MAX
            }),
        ensures
            final(state).wf(),
            geth_steps@.len() < 2 || geth_steps@[0].stack@.len() < 4 ==> r == Err::<
                Vec<ExecStep>,
                Error,
            >(Error::InvalidGethExecStep) && *final(state) == *old(state),
            geth_steps@.len() >= 2 && geth_steps@[0].stack@.len() >= 4 && geth_steps@[0].stack@[
                geth_steps@[0].stack@.len() - 4] + N_BYTES_ADDRESS > geth_steps@[1].global_memory@.len()
                ==> r == Err::<Vec<ExecStep>, Error>(Error::InvalidGethExecStep) && *final(state)
                == *old(state),
            geth_steps@.len() >= 2 && geth_steps@[0].stack@.len() >= 4 && ({
                let n = geth_steps@[0].stack@.len() as int;
                let ao = geth_steps@[0].stack@[n - 4];
                &&& ao + N_BYTES_ADDRESS <= geth_steps@[1].global_memory@.len()
                &&& ao >= MAX_MEMORY_ADDRESS
            }) ==> r == Err::<Vec<ExecStep>, Error>(Error::ConversionError) && *final(state)
                == *old(state),
            geth_steps@.len() >= 2 && geth_steps@[0].stack@.len() >= 4 && ({
                let n = geth_steps@[0].stack@.len() as int;
                let ao = geth_steps@[0].stack@[n - 4];
                let ext = ext_addr_bytes_spec(geth_steps@[0], geth_steps@[1]);
                &&& ao + N_BYTES_ADDRESS <= geth_steps@[1].global_memory@.len()
                &&& ao < MAX_MEMORY_ADDRESS
                &&& match find_account_spec(old(state).sdb.accounts@, ext) {
                    Some(acc) => !acc.spec_is_empty() && find_code_spec(
                        old(state).code_db@,
                        acc.code_hash,
                    ) is None,
                    None => false,
                }
            }) ==> r == Err::<Vec<ExecStep>, Error>(Error::InvalidGethExecStep) && *final(state)
                == *old(state),
            geth_steps@.len() >= 2 && geth_steps@[0].stack@.len() >= 4 && ({
                let n = geth_steps@[0].stack@.len() as int;
                let ao = geth_steps@[0].stack@[n - 4];
                let ext = ext_addr_bytes_spec(geth_steps@[0], geth_steps@[1]);
                &&& ao + N_BYTES_ADDRESS <= geth_steps@[1].global_memory@.len()
                &&& ao < MAX_MEMORY_ADDRESS
                &&& match find_account_spec(old(state).sdb.accounts@, ext) {
                    Some(acc) => acc.spec_is_empty() || find_code_spec(
                        old(state).code_db@,
                        acc.code_hash,
                    ) is Some,
                    None => true,
                }
            }) ==> ({
                let step0 = geth_steps@[0];
                let n = step0.stack@.len() as int;
                let length = step0.stack@[n - 1];
                let data_offset = step0.stack@[n - 2];
                let memory_offset = step0.stack@[n - 3];
                let ao = step0.stack@[n - 4];
                let ext = ext_addr_bytes_spec(step0, geth_steps@[1]);
                let code_bytes = ext_code_bytes_spec(*old(state), ext);
                let ch = account_code_hash_spec(old(state).sdb.accounts@, ext);
                let rwc0 = old(state).container.next_rwc();
                let call_id = old(state).current_call_id();
                let mem0 = old(state).container.memory@;
                &&& r matches Ok(steps) && steps@.len() == 1 && ({
                    let es = steps@[0];
                    &&& es.pc == step0.pc
                    &&& es.opcode == step0.op
                    &&& es.gas_left == step0.gas
                    &&& es.exec_state == ExecState::Op(step0.op)
                    &&& es.call_index == old(state).call_stack@.last()
                    &&& es.bus_mapping_instance@.len() == EXTCODECOPY_FIXED_OP_COUNT
                    &&& forall|i: int|
                        0 <= i < 4 ==> #[trigger] es.bus_mapping_instance@[i] == (OperationRef {
                            target: Target::Stack,
                            index: (old(state).container.stack@.len() + i) as usize,
                        })
                    &&& forall|i: int|
                        4 <= i < 7 ==> #[trigger] es.bus_mapping_instance@[i] == (OperationRef {
                            target: Target::CallContext,
                            index: (old(state).container.call_context@.len() + i - 4) as usize,
                        })
                    &&& es.bus_mapping_instance@[7] == (OperationRef {
                        target: Target::TxAccessListAccount,
                        index: old(state).container.tx_access_list_account@.len() as usize,
                    })
                    &&& es.bus_mapping_instance@[8] == (OperationRef {
                        target: Target::Account,
                        index: old(state).container.account@.len() as usize,
                    })
                    &&& forall|i: int|
                        0 <= i < N_BYTES_ADDRESS ==> #[trigger] es.bus_mapping_instance@[9 + i]
                            == (OperationRef {
                            target: Target::Memory,
                            index: (mem0.len() + i) as usize,
                        })
                })
                &&& final(state).container.stack@.len() == old(state).container.stack@.len() + 4
                &&& forall|i: int|
                    0 <= i < old(state).container.stack@.len()
                        ==> final(state).container.stack@[i] == #[trigger] old(
                        state,
                    ).container.stack@[i]
                &&& forall|i: int|
                    0 <= i < 4 ==> #[trigger] final(state).container.stack@[old(
                        state,
                    ).container.stack@.len() + i] == (Operation {
                        rwc: (rwc0 + i) as u64,
                        rw_kind: RW::READ,
                        op_data: StackOp {
                            call_id,
                            address: (STACK_CAPACITY - step0.stack@.len() + i) as usize,
                            value: step0.stack@[n - 1 - i],
                        },
                    })
                &&& final(state).container.call_context@.len() == old(
                    state,
                ).container.call_context@.len() + 3
                &&& forall|i: int|
                    0 <= i < old(state).container.call_context@.len()
                        ==> final(state).container.call_context@[i] == #[trigger] old(
                        state,
                    ).container.call_context@[i]
                &&& ({
                    let cc = final(state).container.call_context@;
                    let cc0 = old(state).container.call_context@;
                    let cur = old(state).current_call();
                    &&& cc[cc0.len() as int] == (Operation {
                        rwc: (rwc0 + 4) as u64,
                        rw_kind: RW::READ,
                        op_data: CallContextOp {
                            call_id,
                            field: CallContextField::TxId,
                            value: Word { hi: 0, lo: old(state).tx_ctx.tx_id as u128 },
                        },
                    })
                    &&& cc[cc0.len() as int + 1] == (Operation {
                        rwc: (rwc0 + 5) as u64,
                        rw_kind: RW::READ,
                        op_data: CallContextOp {
                            call_id,
                            field: CallContextField::RwCounterEndOfReversion,
                            value: Word { hi: 0, lo: cur.rw_counter_end_of_reversion as u128 },
                        },
                    })
                    &&& cc[cc0.len() as int + 2] == (Operation {
                        rwc: (rwc0 + 6) as u64,
                        rw_kind: RW::READ,
                        op_data: CallContextOp {
                            call_id,
                            field: CallContextField::IsPersistent,
                            value: Word { hi: 0, lo: if cur.is_persistent {
                                1u128
                            } else {
                                0u128
                            } },
                        },
                    })
                })
                &&& forall|i: int|
                    0 <= i < old(state).container.tx_access_list_account@.len()
                        ==> final(state).container.tx_access_list_account@[i] == #[trigger] old(
                        state,
                    ).container.tx_access_list_account@[i]
                &&& forall|i: int|
                    0 <= i < old(state).container.account@.len()
                        ==> final(state).container.account@[i] == #[trigger] old(
                        state,
                    ).container.account@[i]
                &&& final(state).container.tx_access_list_account@.len() == old(
                    state,
                ).container.tx_access_list_account@.len() + 1
                &&& ({
                    let tal = final(state).container.tx_access_list_account@.last();
                    &&& tal.rwc == rwc0 + 7
                    &&& tal.rw_kind == RW::WRITE
                    &&& tal.op_data.tx_id == old(state).tx_ctx.tx_id
                    &&& tal.op_data.address.bytes@ == ext
                    &&& tal.op_data.is_warm == true
                    &&& tal.op_data.is_warm_prev == contains_addr(old(state).sdb.access_list@, ext)
                })
                &&& final(state).container.account@.len() == old(state).container.account@.len()
                    + 1
                &&& ({
                    let acc = final(state).container.account@.last();
                    &&& acc.rwc == rwc0 + 8
                    &&& acc.rw_kind == RW::READ
                    &&& acc.op_data.address.bytes@ == ext
                    &&& acc.op_data.field == AccountField::CodeHash
                    &&& acc.op_data.value == ch
                    &&& acc.op_data.value_prev == ch
                })
                &&& final(state).container.memory@.len() == mem0.len() + N_BYTES_ADDRESS + length
                &&& forall|i: int|
                    0 <= i < N_BYTES_ADDRESS ==> #[trigger] final(state).container.memory@[mem0.len()
                        + i] == (Operation {
                        rwc: (rwc0 + 9 + i) as u64,
                        rw_kind: RW::READ,
                        op_data: MemoryOp { call_id, address: (ao + i) as u64, value: ext[i] },
                    })
                &&& forall|i: int|
                    0 <= i < length ==> #[trigger] final(state).container.memory@[mem0.len()
                        + N_BYTES_ADDRESS + i] == (Operation {
                        rwc: (rwc0 + EXTCODECOPY_FIXED_OP_COUNT + i) as u64,
                        rw_kind: RW::WRITE,
                        op_data: MemoryOp {
                            call_id,
                            address: (memory_offset + i) as u64,
                            value: (if data_offset + i < code_bytes.len() {
                                code_bytes[data_offset + i]
                            } else {
                                0u8
                            }),
                        },
                    })
                &&& final(state).container.next_rwc() == rwc0 + EXTCODECOPY_FIXED_OP_COUNT
                    + length
                &&& final(state).copy_events@.len() == old(state).copy_events@.len() + 1
                &&& ({
                    let ev = final(state).copy_events@.last();
                    &&& ev.src_addr == data_offset
                    &&& ev.src_addr_end == code_bytes.len()
                    &&& ev.src_type == CopyDataType::Bytecode
                    &&& ev.src_id == NumberOrHash::Hash(ch)
                    &&& ev.dst_addr == memory_offset
                    &&& ev.dst_type == CopyDataType::Memory
                    &&& ev.dst_id == NumberOrHash::Number(call_id)
                    &&& ev.log_id is None
                    &&& ev.rw_counter_start == rwc0 + EXTCODECOPY_FIXED_OP_COUNT
                    &&& ev.bytes@.len() == length
                    &&& forall|i: int|
                        0 <= i < length ==> #[trigger] ev.bytes@[i] == (if data_offset + i
                            < code_bytes.len() {
                            (code_bytes[data_offset + i], true)
                        } else {
                            (0u8, false)
                        })
                })
                &&& forall|i: int|
                    0 <= i < old(state).copy_events@.len()
                        ==> final(state).copy_events@[i] == #[trigger] old(state).copy_events@[i]
                &&& final(state).call_ctx_stack@.len() == old(state).call_ctx_stack@.len()
                &&& ({
                    let old_mem = old(state).call_ctx_stack@.last().memory@;
                    let new_mem = final(state).call_ctx_stack@.last().memory@;
                    &&& new_mem.len() == if length == 0 {
                        old_mem.len() as int
                    } else if old_mem.len() >= memory_offset + length {
                        old_mem.len() as int
                    } else {
                        memory_offset + length
                    }
                    &&& forall|i: int|
                        0 <= i < new_mem.len() ==> #[trigger] new_mem[i]
                            == CircuitInputStateRef::copy_from_byte_spec(
                            old_mem,
                            memory_offset,
                            code_bytes,
                            data_offset,
                            length,
                            i,
                        )
                })
                &&& contains_addr(final(state).sdb.access_list@, ext)
                &&& final(state).sdb.accounts@ == old(state).sdb.accounts@
                &&& final(state).code_db@ == old(state).code_db@
                &&& final(state).calls@ == old(state).calls@
                &&& final(state).call_stack@ == old(state).call_stack@
                &&& final(state).tx_ctx == old(state).tx_ctx
            }),
    {
        if geth_steps.len() < 2 {
            return Err(Error::InvalidGethExecStep);
        }
        let geth_step = &geth_steps[0];
        let geth_second_step = &geth_steps[1];
        if geth_step.stack.len() < 4 {
            return Err(Error::InvalidGethExecStep);
        }
        let n: usize = geth_step.stack.len();
        let length = geth_step.stack[n - 1];
        let code_offset = geth_step.stack[n - 2];
        let dest_offset = geth_step.stack[n - 3];
        let address_offset = geth_step.stack[n - 4];

        let external_address = match geth_second_step.read_address(address_offset) {
            Ok(a) => a,
            Err(e) => {
                return Err(e);
            },
        };
        let address_offset_addr = match memory_address_try_from(address_offset) {
            Some(a) => a,
            None => {
                return Err(Error::ConversionError);
            },
        };

        let account = state.sdb.get_account(&external_address).1;
        let exists = !account.is_empty();
        let code: Vec<u8> = if exists {
            match state.code(&account.code_hash) {
                Ok(b) => b,
                Err(e) => {
                    return Err(e);
                },
            }
        } else {
            Vec::new()
        };

        let mut exec_step = match gen_extcodecopy_step(state, geth_step, geth_second_step) {
            Ok(s) => s,
            Err(e) => {
                proof {
                    assert(false);
                }
                return Err(e);
            },
        };

        state.call_memory_copy_from(dest_offset, &code, code_offset, length);

        let ghost stack_after_step = state.container.stack@;
        let ghost cc_after_step = state.container.call_context@;
        let ghost storage_after_step = state.container.storage@;
        let ghost account_after_step = state.container.account@;
        let ghost tal_after_step = state.container.tx_access_list_account@;
        let ghost sdb_accounts_after_step = state.sdb.accounts@;
        let ghost access_list_after_step = state.sdb.access_list@;
        let ghost code_db_after_step = state.code_db@;
        let ghost calls_after_step = state.calls@;
        let ghost call_stack_after_step = state.call_stack@;
        let ghost ctx_after_copy = state.call_ctx_stack@;
        let ghost copy_events_after_step = state.copy_events@;
        let ghost reversible_after_step = state.reversible_ops@;
        let ghost tx_ctx_after_step = state.tx_ctx;
        let ghost mem0 = state.container.memory@;
        let ghost bmi0 = exec_step.bus_mapping_instance@;
        let ghost rwc_mem = state.container.next_rwc();
        let ghost call_id = state.current_call_id();
        let mut i: usize = 0;
        while i < N_BYTES_ADDRESS
            invariant
                i <= N_BYTES_ADDRESS,
                state.wf(),
                state.has_call(),
                state.current_call_id() == call_id,
                state.container.next_rwc() == rwc_mem + i,
                state.container.memory@.len() == mem0.len() + i,
                forall|j: int|
                    0 <= j < mem0.len() ==> #[trigger] state.container.memory@[j] == mem0[j],
                forall|j: int|
                    0 <= j < i ==> #[trigger] state.container.memory@[mem0.len() + j]
                        == (Operation {
                        rwc: (rwc_mem + j) as u64,
                        rw_kind: RW::READ,
                        op_data: MemoryOp {
                            call_id,
                            address: (address_offset + j) as u64,
                            value: external_address.bytes@[j],
                        },
                    }),
                exec_step.bus_mapping_instance@.len() == bmi0.len() + i,
                forall|j: int|
                    0 <= j < bmi0.len() ==> #[trigger] exec_step.bus_mapping_instance@[j]
                        == bmi0[j],
                forall|j: int|
                    0 <= j < i ==> #[trigger] exec_step.bus_mapping_instance@[bmi0.len() + j]
                        == (OperationRef {
                        target: Target::Memory,
                        index: (mem0.len() + j) as usize,
                    }),
                exec_step.pc == geth_step.pc,
                exec_step.opcode == geth_step.op,
                exec_step.gas_left == geth_step.gas,
                exec_step.exec_state == ExecState::Op(geth_step.op),
                exec_step.call_index == old(state).call_stack@.last(),
                state.container.stack@ == stack_after_step,
                state.container.call_context@ == cc_after_step,
                state.container.storage@ == storage_after_step,
                state.container.account@ == account_after_step,
                state.container.tx_access_list_account@ == tal_after_step,
                state.sdb.accounts@ == sdb_accounts_after_step,
                state.sdb.access_list@ == access_list_after_step,
                state.code_db@ == code_db_after_step,
                state.calls@ == calls_after_step,
                state.call_stack@ == call_stack_after_step,
                state.call_ctx_stack@ == ctx_after_copy,
                state.copy_events@ == copy_events_after_step,
                state.reversible_ops@ == reversible_after_step,
                state.tx_ctx == tx_ctx_after_step,
            decreases N_BYTES_ADDRESS - i,
        {
            let b = external_address.byte(i);
            state.memory_read(&mut exec_step, address_offset_addr + i as u64, b);
            i = i + 1;
        }

        let copy_event = match gen_copy_event(state, geth_step, geth_second_step) {
            Ok(ev) => ev,
            Err(e) => {
                proof {
                    assert(false);
                }
                return Err(e);
            },
        };
        state.push_copy(copy_event);
        let mut result: Vec<ExecStep> = Vec::new();
        result.push(exec_step);
        Ok(result)
    }
}

} // verus!
