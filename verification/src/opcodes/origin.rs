//! Handler for the opcode that writes the transaction origin's address into
//! memory.
//!
//! Like the caller opcode it takes one stack operand, the destination
//! offset, and copies a 20-byte address there; the address region is the
//! next step's memory chunk. It records one call-context read of the
//! transaction id, one stack read, and twenty memory writes.

use vstd::prelude::*;

use crate::evm::STACK_CAPACITY;
use crate::operation::{CallContextField, MemoryOp, Operation, OperationRef, RW, StackOp, Target};
use crate::state::{CircuitInputStateRef, ExecState, ExecStep, GethExecStep};
use crate::types::{clone_bytes, memory_address_try_from, Word, MAX_MEMORY_ADDRESS,
    N_BYTES_ADDRESS};
use crate::Error;

verus! {

/// Number of operations this handler appends.
pub const ORIGIN_OP_COUNT: usize = 22;

pub struct Origin;

impl Origin {
    /// Replays one execution of the opcode.
    ///
    /// On success the appended operations are, in order: a read of the
    /// transaction id from the call context, a read of the destination
    /// offset from the stack top, and one memory write per address byte at
    /// ascending offsets.
    #[verifier::loop_isolation(false)]
    pub fn gen_associated_ops(
        state: &mut CircuitInputStateRef,
        geth_steps: &Vec<GethExecStep>,
    ) -> (r: Result<Vec<ExecStep>, Error>)
        requires
            old(state).wf(),
            old(state).has_call(),
            old(state).container.next_rwc() + ORIGIN_OP_COUNT <= u64::MAX,
            geth_steps@.len() >= 1 ==> geth_steps@[0].stack@.len() <= STACK_CAPACITY,
            geth_steps@.len() >= 2 ==> geth_steps@[1].memory@.len() == N_BYTES_ADDRESS,
        ensures
            final(state).wf(),
            geth_steps@.len() < 2 ==> r == Err::<Vec<ExecStep>, Error>(
                Error::InvalidGethExecStep,
            ) && *final(state) == *old(state),
            geth_steps@.len() >= 2 && geth_steps@[0].stack@.len() == 0 ==> r == Err::<
                Vec<ExecStep>,
                Error,
            >(Error::InvalidGethExecStep) && *final(state) == *old(state),
            geth_steps@.len() >= 2 && geth_steps@[0].stack@.len() > 0 && geth_steps@[0].stack@.last()
                >= MAX_MEMORY_ADDRESS ==> r == Err::<Vec<ExecStep>, Error>(Error::ConversionError)
                && *final(state) == *old(state),
            geth_steps@.len() >= 2 && geth_steps@[0].stack@.len() > 0 && geth_steps@[0].stack@.last()
                < MAX_MEMORY_ADDRESS ==> ({
                let step0 = geth_steps@[0];
                let addr_bytes = geth_steps@[1].memory@;
                let call_id = old(state).current_call_id();
                let dest = step0.stack@.last();
                let rwc0 = old(state).container.next_rwc();
                let cc = final(state).container.call_context@;
                let st = final(state).container.stack@;
                let mem = final(state).container.memory@;
                &&& r matches Ok(steps) && steps@.len() == 1 && ({
                    let es = steps@[0];
                    &&& es.pc == step0.pc
                    &&& es.opcode == step0.op
                    &&& es.gas_left == step0.gas
                    &&& es.exec_state == ExecState::Op(step0.op)
                    &&& es.call_index == old(state).call_stack@.last()
                    &&& es.bus_mapping_instance@.len() == ORIGIN_OP_COUNT
                    &&& es.bus_mapping_instance@[0] == (OperationRef {
                        target: Target::CallContext,
                        index: old(state).container.call_context@.len() as usize,
                    })
                    &&& es.bus_mapping_instance@[1] == (OperationRef {
                        target: Target::Stack,
                        index: old(state).container.stack@.len() as usize,
                    })
                    &&& forall|i: int|
                        0 <= i < N_BYTES_ADDRESS ==> #[trigger] es.bus_mapping_instance@[2 + i]
                            == (OperationRef {
                            target: Target::Memory,
                            index: (old(state).container.memory@.len() + i) as usize,
                        })
                })
                &&& cc == old(state).container.call_context@.push(
                    Operation {
                        rwc: rwc0 as u64,
                        rw_kind: RW::READ,
                        op_data: crate::operation::CallContextOp {
                            call_id,
                            field: CallContextField::TxId,
                            value: Word { hi: 0, lo: old(state).tx_ctx.tx_id as u128 },
                        },
                    },
                )
                &&& st == old(state).container.stack@.push(
                    Operation {
                        rwc: (rwc0 + 1) as u64,
                        rw_kind: RW::READ,
                        op_data: StackOp {
                            call_id,
                            address: (STACK_CAPACITY - step0.stack@.len()) as usize,
                            value: dest,
                        },
                    },
                )
                &&& mem.len() == old(state).container.memory@.len() + N_BYTES_ADDRESS
                &&& forall|i: int|
                    0 <= i < N_BYTES_ADDRESS ==> #[trigger] mem[old(state).container.memory@.len()
                        + i] == (Operation {
                        rwc: (rwc0 + 2 + i) as u64,
                        rw_kind: RW::WRITE,
                        op_data: MemoryOp {
                            call_id,
                            address: (dest + i) as u64,
                            value: addr_bytes[i],
                        },
                    })
                &&& final(state).container.storage@ == old(state).container.storage@
                &&& final(state).container.account@ == old(state).container.account@
                &&& final(state).container.tx_access_list_account@ == old(
                    state,
                ).container.tx_access_list_account@
                &&& final(state).container.next_rwc() == rwc0 + ORIGIN_OP_COUNT
                &&& final(state).call_ctx_stack@.len() == old(state).call_ctx_stack@.len()
                &&& final(state).call_ctx_stack@.last().memory@ == geth_steps@[1].global_memory@
                &&& forall|i: int|
                    0 <= i < old(state).call_ctx_stack@.len() - 1
                        ==> final(state).call_ctx_stack@[i] == #[trigger] old(
                        state,
                    ).call_ctx_stack@[i]
                &&& final(state).code_db@ == old(state).code_db@
                &&& final(state).tx_ctx == old(state).tx_ctx
                &&& final(state).sdb.accounts@ == old(state).sdb.accounts@
                &&& final(state).sdb.access_list@ == old(state).sdb.access_list@
                &&& final(state).calls@ == old(state).calls@
                &&& final(state).call_stack@ == old(state).call_stack@
                &&& final(state).copy_events@ == old(state).copy_events@
                &&& final(state).reversible_ops@ == old(state).reversible_ops@
            }),
    {
        if geth_steps.len() < 2 {
            return Err(Error::InvalidGethExecStep);
        }
        let step = &geth_steps[0];
        if step.stack.len() == 0 {
            return Err(Error::InvalidGethExecStep);
        }
        let dest_offset = step.stack[step.stack.len() - 1];
        let offset_addr = match memory_address_try_from(dest_offset) {
            Some(a) => a,
            None => {
                return Err(Error::ConversionError);
            },
        };
        let mut exec_step = match state.new_step(step) {
            Ok(s) => s,
            Err(e) => {
                return Err(e);
            },
        };

        let second_step = &geth_steps[1];
        let tx_id = state.tx_ctx.id();
        let call_id = match state.call() {
            Ok(c) => c.call_id,
            Err(e) => {
                return Err(e);
            },
        };

        state.call_context_read(
            &mut exec_step,
            call_id,
            CallContextField::TxId,
            Word::from_u128(tx_id as u128),
        );

        let stack_slot = STACK_CAPACITY - step.stack.len();
        state.stack_read(&mut exec_step, stack_slot, dest_offset);

        let ghost mem0 = state.container.memory@;
        let ghost bmi0 = exec_step.bus_mapping_instance@;
        let ghost rwc_mem = state.container.next_rwc();
        let mut i: usize = 0;
        while i < N_BYTES_ADDRESS
            invariant
                i <= N_BYTES_ADDRESS,
                state.wf(),
                state.has_call(),
                state.current_call_id() == call_id,
                state.container.next_rwc() == rwc_mem + i,
                state.container.memory@.len() == mem0.len() + i,
                forall|j: int|
                    0 <= j < mem0.len() ==> #[trigger] state.container.memory@[j] == mem0[j],
                forall|j: int|
                    0 <= j < i ==> #[trigger] state.container.memory@[mem0.len() + j]
                        == (Operation {
                        rwc: (rwc_mem + j) as u64,
                        rw_kind: RW::WRITE,
                        op_data: MemoryOp {
                            call_id,
                            address: (dest_offset + j) as u64,
                            value: second_step.memory@[j],
                        },
                    }),
                exec_step.bus_mapping_instance@.len() == bmi0.len() + i,
                forall|j: int|
                    0 <= j < bmi0.len() ==> #[trigger] exec_step.bus_mapping_instance@[j]
                        == bmi0[j],
                forall|j: int|
                    0 <= j < i ==> #[trigger] exec_step.bus_mapping_instance@[bmi0.len() + j]
                        == (OperationRef {
                        target: Target::Memory,
                        index: (mem0.len() + j) as usize,
                    }),
                exec_step.pc == step.pc,
                exec_step.opcode == step.op,
                exec_step.gas_left == step.gas,
                exec_step.exec_state == ExecState::Op(step.op),
                state.container.stack@ == old(state).container.stack@.push(
                    Operation {
                        rwc: (old(state).container.next_rwc() + 1) as u64,
                        rw_kind: RW::READ,
                        op_data: StackOp {
                            call_id,
                            address: (STACK_CAPACITY - step.stack@.len()) as usize,
                            value: dest_offset,
                        },
                    },
                ),
                state.container.call_context@ == old(state).container.call_context@.push(
                    Operation {
                        rwc: old(state).container.next_rwc() as u64,
                        rw_kind: RW::READ,
                        op_data: crate::operation::CallContextOp {
                            call_id,
                            field: CallContextField::TxId,
                            value: Word { hi: 0, lo: old(state).tx_ctx.tx_id as u128 },
                        },
                    },
                ),
                state.container.storage@ == old(state).container.storage@,
                state.container.account@ == old(state).container.account@,
                state.container.tx_access_list_account@ == old(
                    state,
                ).container.tx_access_list_account@,
                state.sdb.accounts@ == old(state).sdb.accounts@,
                state.sdb.access_list@ == old(state).sdb.access_list@,
                state.code_db@ == old(state).code_db@,
                state.tx_ctx == old(state).tx_ctx,
                exec_step.call_index == old(state).call_stack@.last(),
                state.calls@ == old(state).calls@,
                state.call_stack@ == old(state).call_stack@,
                state.call_ctx_stack@ == old(state).call_ctx_stack@,
                state.copy_events@ == old(state).copy_events@,
                state.reversible_ops@ == old(state).reversible_ops@,
            decreases N_BYTES_ADDRESS - i,
        {
            let b = second_step.memory[i];
            state.memory_write(&mut exec_step, offset_addr + i as u64, b);
            i = i + 1;
        }

        state.update_call_memory(clone_bytes(&second_step.global_memory));

        let mut result: Vec<ExecStep> = Vec::new();
        result.push(exec_step);
        Ok(result)
    }
}

} // verus!
