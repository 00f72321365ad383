//! Handler for the opcode that writes the caller's address into memory.
//!
//! The wasm flavour of this opcode takes one stack operand, the destination
//! offset, and copies the 20-byte caller address there. The tracer reports
//! the resulting address region as the next step's memory chunk; the handler
//! records one call-context read, one stack read, and twenty memory writes,
//! in exactly that order.

use vstd::prelude::*;

use crate::evm::STACK_CAPACITY;
use crate::operation::{CallContextField, MemoryOp, Operation, OperationRef, RW, StackOp, Target};
use crate::state::{CallContext, CircuitInputStateRef, ExecState, ExecStep, GethExecStep};
use crate::types::{be_bytes_value, clone_bytes, memory_address_try_from, Word, MAX_MEMORY_ADDRESS,
    N_BYTES_ADDRESS};
use crate::Error;

verus! {

/// Number of operations this handler appends: one call-context read, one
/// stack read, and one memory write per address byte.
pub const CALLER_OP_COUNT: usize = 22;

/// Everything a successful run of the handler pins down, as a relation
/// between the state before, the raw steps, the state after, and the one
/// produced step. The handler's postcondition establishes exactly this;
/// determinism of the handler is a consequence.
pub open spec fn caller_post(
    pre: CircuitInputStateRef,
    geth_steps: Seq<GethExecStep>,
    post: CircuitInputStateRef,
    es: ExecStep,
) -> bool {
    let step0 = geth_steps[0];
    let addr_bytes = geth_steps[1].memory@;
    let call_id = pre.current_call_id();
    let dest = step0.stack@.last();
    let rwc0 = pre.container.next_rwc();
    let cc = post.container.call_context@;
    let st = post.container.stack@;
    let mem = post.container.memory@;
    &&& es.pc == step0.pc
    &&& es.opcode == step0.op
    &&& es.gas_left == step0.gas
    &&& es.exec_state == ExecState::Op(step0.op)
    &&& es.call_index == pre.call_stack@.last()
    &&& es.bus_mapping_instance@.len() == CALLER_OP_COUNT
    &&& es.bus_mapping_instance@[0] == (OperationRef {
        target: Target::CallContext,
        index: pre.container.call_context@.len() as usize,
    })
    &&& es.bus_mapping_instance@[1] == (OperationRef {
        target: Target::Stack,
        index: pre.container.stack@.len() as usize,
    })
    &&& forall|i: int|
        0 <= i < N_BYTES_ADDRESS ==> #[trigger] es.bus_mapping_instance@[2 + i] == (OperationRef {
            target: Target::Memory,
            index: (pre.container.memory@.len() + i) as usize,
        })
    &&& cc.len() == pre.container.call_context@.len() + 1
    &&& cc.last().rwc == rwc0
    &&& cc.last().rw_kind == RW::READ
    &&& cc.last().op_data.call_id == call_id
    &&& cc.last().op_data.field == CallContextField::CallerAddress
    &&& cc.last().op_data.value.value() == be_bytes_value(addr_bytes)
    &&& forall|i: int| 0 <= i < pre.container.call_context@.len() ==> #[trigger] cc[i]
        == pre.container.call_context@[i]
    &&& st == pre.container.stack@.push(
        Operation {
            rwc: (rwc0 + 1) as u64,
            rw_kind: RW::READ,
            op_data: StackOp {
                call_id,
                address: (STACK_CAPACITY - step0.stack@.len()) as usize,
                value: dest,
            },
        },
    )
    &&& mem.len() == pre.container.memory@.len() + N_BYTES_ADDRESS
    &&& forall|i: int| 0 <= i < pre.container.memory@.len() ==> #[trigger] mem[i]
        == pre.container.memory@[i]
    &&& forall|i: int|
        0 <= i < N_BYTES_ADDRESS ==> #[trigger] mem[pre.container.memory@.len() + i]
            == (Operation {
            rwc: (rwc0 + 2 + i) as u64,
            rw_kind: RW::WRITE,
            op_data: MemoryOp { call_id, address: (dest + i) as u64, value: addr_bytes[i] },
        })
    &&& post.container.storage@ == pre.container.storage@
    &&& post.container.account@ == pre.container.account@
    &&& post.container.tx_access_list_account@ == pre.container.tx_access_list_account@
    &&& post.container.next_rwc() == rwc0 + CALLER_OP_COUNT
    &&& post.call_ctx_stack@.len() == pre.call_ctx_stack@.len()
    &&& post.call_ctx_stack@.last().memory@ == addr_bytes
    &&& forall|i: int|
        0 <= i < pre.call_ctx_stack@.len() - 1 ==> #[trigger] post.call_ctx_stack@[i]
            == pre.call_ctx_stack@[i]
    &&& post.code_db@ == pre.code_db@
    &&& post.tx_ctx == pre.tx_ctx
    &&& post.sdb.accounts@ == pre.sdb.accounts@
    &&& post.sdb.access_list@ == pre.sdb.access_list@
    &&& post.calls@ == pre.calls@
    &&& post.call_stack@ == pre.call_stack@
    &&& post.copy_events@ == pre.copy_events@
    &&& post.reversible_ops@ == pre.reversible_ops@
}

pub struct Caller;

impl Caller {
    /// Replays one execution of the opcode.
    ///
    /// On success the appended operations are, in order: a read of the
    /// caller-address call-context field, a read of the destination offset
    /// from the stack top, and one memory write per address byte at
    /// ascending offsets.
    #[verifier::loop_isolation(false)]
    pub fn gen_associated_ops(
        state: &mut CircuitInputStateRef,
        geth_steps: &Vec<GethExecStep>,
    ) -> (r: Result<Vec<ExecStep>, Error>)
        requires
            old(state).wf(),
            old(state).has_call(),
            old(state).container.next_rwc() + CALLER_OP_COUNT <= u64::MAX,
            geth_steps@.len() >= 1 ==> geth_steps@[0].stack@.len() <= STACK_CAPACITY,
            geth_steps@.len() >= 2 ==> geth_steps@[1].memory@.len() == N_BYTES_ADDRESS,
        ensures
            final(state).wf(),
            geth_steps@.len() < 2 ==> r == Err::<Vec<ExecStep>, Error>(
                Error::InvalidGethExecStep,
            ) && *final(state) == *old(state),
            geth_steps@.len() >= 2 && geth_steps@[0].stack@.len() == 0 ==> r == Err::<
                Vec<ExecStep>,
                Error,
            >(Error::InvalidGethExecStep) && *final(state) == *old(state),
            geth_steps@.len() >= 2 && geth_steps@[0].stack@.len() > 0 && geth_steps@[0].stack@.last()
                >= MAX_MEMORY_ADDRESS ==> r == Err::<Vec<ExecStep>, Error>(Error::ConversionError)
                && *final(state) == *old(state),
            geth_steps@.len() >= 2 && geth_steps@[0].stack@.len() > 0 && geth_steps@[0].stack@.last()
                < MAX_MEMORY_ADDRESS ==> (r matches Ok(steps) && steps@.len() == 1 && caller_post(
                *old(state),
                geth_steps@,
                *final(state),
                steps@[0],
            )),
    {
        if geth_steps.len() < 2 {
            return Err(Error::InvalidGethExecStep);
        }
        let step = &geth_steps[0];
        if step.stack.len() == 0 {
            return Err(Error::InvalidGethExecStep);
        }
        let dest_offset = step.stack[step.stack.len() - 1];
        let offset_addr = match memory_address_try_from(dest_offset) {
            Some(a) => a,
            None => {
                return Err(Error::ConversionError);
            },
        };
        let mut exec_step = match state.new_step(step) {
            Ok(s) => s,
            Err(e) => {
                return Err(e);
            },
        };

        let second_step = &geth_steps[1];
        let address_word = Word::from_big_endian(second_step.memory.as_slice());
        let call_id = match state.call() {
            Ok(c) => c.call_id,
            Err(e) => {
                return Err(e);
            },
        };

        state.call_context_read(
            &mut exec_step,
            call_id,
            CallContextField::CallerAddress,
            address_word,
        );

        let stack_slot = STACK_CAPACITY - step.stack.len();
        state.stack_read(&mut exec_step, stack_slot, dest_offset);

        let ghost mem0 = state.container.memory@;
        let ghost bmi0 = exec_step.bus_mapping_instance@;
        let ghost rwc_mem = state.container.next_rwc();
        let mut i: usize = 0;
        while i < N_BYTES_ADDRESS
            invariant
                i <= N_BYTES_ADDRESS,
                state.wf(),
                state.has_call(),
                state.current_call_id() == call_id,
                second_step.memory@.len() == N_BYTES_ADDRESS,
                second_step == &geth_steps@[1],
                dest_offset < MAX_MEMORY_ADDRESS,
                state.container.next_rwc() == rwc_mem + i,
                rwc_mem + N_BYTES_ADDRESS <= u64::MAX,
                state.container.memory@.len() == mem0.len() + i,
                offset_addr == dest_offset,
                forall|j: int| 0 <= j < mem0.len() ==> #[trigger] state.container.memory@[j] == mem0[j],
                forall|j: int|
                    0 <= j < i ==> #[trigger] state.container.memory@[mem0.len() + j] == (Operation {
                        rwc: (rwc_mem + j) as u64,
                        rw_kind: RW::WRITE,
                        op_data: MemoryOp {
                            call_id,
                            address: (dest_offset + j) as u64,
                            value: second_step.memory@[j],
                        },
                    }),
                exec_step.bus_mapping_instance@.len() == bmi0.len() + i,
                forall|j: int|
                    0 <= j < bmi0.len() ==> #[trigger] exec_step.bus_mapping_instance@[j] == bmi0[j],
                forall|j: int|
                    0 <= j < i ==> #[trigger] exec_step.bus_mapping_instance@[bmi0.len() + j]
                        == (OperationRef { target: Target::Memory, index: (mem0.len() + j) as usize }),
                exec_step.pc == step.pc,
                exec_step.opcode == step.op,
                exec_step.gas_left == step.gas,
                exec_step.exec_state == ExecState::Op(step.op),
                exec_step.call_index == old(state).call_stack@.last(),
                forall|j: int|
                    0 <= j < old(state).container.call_context@.len()
                        ==> #[trigger] state.container.call_context@[j] == old(
                        state,
                    ).container.call_context@[j],
                state.container.stack@ == old(state).container.stack@.push(
                    Operation {
                        rwc: (old(state).container.next_rwc() + 1) as u64,
                        rw_kind: RW::READ,
                        op_data: StackOp {
                            call_id,
                            address: (STACK_CAPACITY - step.stack@.len()) as usize,
                            value: dest_offset,
                        },
                    },
                ),
                state.container.call_context@.len() == old(state).container.call_context@.len()
                    + 1,
                state.container.call_context@.last().rwc == old(state).container.next_rwc(),
                state.container.call_context@.last().rw_kind == RW::READ,
                state.container.call_context@.last().op_data.call_id == call_id,
                state.container.call_context@.last().op_data.field
                    == CallContextField::CallerAddress,
                state.container.call_context@.last().op_data.value.value() == be_bytes_value(
                    second_step.memory@,
                ),
                state.container.storage@ == old(state).container.storage@,
                state.container.account@ == old(state).container.account@,
                state.container.tx_access_list_account@ == old(
                    state,
                ).container.tx_access_list_account@,
                state.sdb.accounts@ == old(state).sdb.accounts@,
                state.sdb.access_list@ == old(state).sdb.access_list@,
                state.code_db@ == old(state).code_db@,
                state.tx_ctx == old(state).tx_ctx,
                state.calls@ == old(state).calls@,
                state.call_stack@ == old(state).call_stack@,
                state.call_ctx_stack@ == old(state).call_ctx_stack@,
                state.copy_events@ == old(state).copy_events@,
                state.reversible_ops@ == old(state).reversible_ops@,
            decreases N_BYTES_ADDRESS - i,
        {
            let b = second_step.memory[i];
            state.memory_write(&mut exec_step, offset_addr + i as u64, b);
            i = i + 1;
        }

        state.update_call_memory(clone_bytes(&second_step.memory));

        let mut result: Vec<ExecStep> = Vec::new();
        result.push(exec_step);
        Ok(result)
    }
}

} // verus!

verus! {

/// Handler determinism: two runs of the handler from the same state on the
/// same raw steps pin identical operation sequences — same kinds, same
/// addresses, same values, in the same order — and the same produced step.
pub proof fn lemma_caller_handler_deterministic(
    pre: CircuitInputStateRef,
    geth_steps: Seq<GethExecStep>,
    post1: CircuitInputStateRef,
    es1: ExecStep,
    post2: CircuitInputStateRef,
    es2: ExecStep,
)
    requires
        geth_steps.len() >= 2,
        caller_post(pre, geth_steps, post1, es1),
        caller_post(pre, geth_steps, post2, es2),
    ensures
        post1.container.stack@ == post2.container.stack@,
        post1.container.memory@ == post2.container.memory@,
        post1.container.call_context@ == post2.container.call_context@,
        post1.container.storage@ == post2.container.storage@,
        post1.container.account@ == post2.container.account@,
        post1.container.tx_access_list_account@ == post2.container.tx_access_list_account@,
        es1.bus_mapping_instance@ == es2.bus_mapping_instance@,
        es1.pc == es2.pc && es1.opcode == es2.opcode && es1.gas_left == es2.gas_left
            && es1.exec_state == es2.exec_state && es1.call_index == es2.call_index,
{
    let base = pre.container.memory@.len() as int;
    assert forall|i: int| 0 <= i < post1.container.memory@.len() implies post1.container.memory@[i]
        == post2.container.memory@[i] by {
        if i >= base {
            assert(post1.container.memory@[base + (i - base)] == (Operation {
                rwc: (pre.container.next_rwc() + 2 + (i - base)) as u64,
                rw_kind: RW::WRITE,
                op_data: MemoryOp {
                    call_id: pre.current_call_id(),
                    address: (geth_steps[0].stack@.last() + (i - base)) as u64,
                    value: geth_steps[1].memory@[i - base],
                },
            }));
            assert(post2.container.memory@[base + (i - base)] == (Operation {
                rwc: (pre.container.next_rwc() + 2 + (i - base)) as u64,
                rw_kind: RW::WRITE,
                op_data: MemoryOp {
                    call_id: pre.current_call_id(),
                    address: (geth_steps[0].stack@.last() + (i - base)) as u64,
                    value: geth_steps[1].memory@[i - base],
                },
            }));
        }
    }
    assert(post1.container.memory@ =~= post2.container.memory@);
    let cc1 = post1.container.call_context@;
    let cc2 = post2.container.call_context@;
    assert(cc1.len() == cc2.len());
    assert forall|i: int| 0 <= i < cc1.len() implies cc1[i] == cc2[i] by {
        if i < cc1.len() - 1 {
            assert(cc1[i] == pre.container.call_context@[i]);
            assert(cc2[i] == pre.container.call_context@[i]);
        } else {
            assert(cc1[i] == cc1.last());
            assert(cc2[i] == cc2.last());
            crate::types::lemma_word_value_injective(
                cc1.last().op_data.value,
                cc2.last().op_data.value,
            );
        }
    }
    assert(cc1 =~= cc2);
    assert(es1.bus_mapping_instance@ =~= es2.bus_mapping_instance@) by {
        assert forall|i: int| 0 <= i < CALLER_OP_COUNT implies es1.bus_mapping_instance@[i]
            == es2.bus_mapping_instance@[i] by {
            if i >= 2 {
                assert(es1.bus_mapping_instance@[2 + (i - 2)] == (OperationRef {
                    target: Target::Memory,
                    index: (pre.container.memory@.len() + (i - 2)) as usize,
                }));
                assert(es2.bus_mapping_instance@[2 + (i - 2)] == (OperationRef {
                    target: Target::Memory,
                    index: (pre.container.memory@.len() + (i - 2)) as usize,
                }));
            }
        }
    }
}

} // verus!
