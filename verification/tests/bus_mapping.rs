//! Tests of the opcode handlers and the operation container.

use zkevm_circuits::copy_event::{CopyDataType, NumberOrHash};
use zkevm_circuits::evm::OpcodeId;
use zkevm_circuits::opcodes::caller::Caller;
use zkevm_circuits::opcodes::extcodecopy::Extcodecopy;
use zkevm_circuits::opcodes::origin::Origin;
use zkevm_circuits::operation::{
    CallContextField, CallContextOp, MemoryOp, OperationContainer, StackOp, RW,
};
use zkevm_circuits::state::{
    Account, Call, CallContext, CircuitInputStateRef, ExecState, GethExecStep, StateDB,
    TransactionContext,
};
use zkevm_circuits::types::{Address, Word};

fn test_address() -> Address {
    Address {
        bytes: [
            0xaa, 0xbb, 0xcc, 0xdd, 0xee, 0, 0, 0, 0, 0, 0, 0, 0, 0, 0, 0, 0, 0, 0, 0,
        ],
    }
}

fn caller_address() -> Address {
    let mut bytes = [0u8; 20];
    for (i, b) in bytes.iter_mut().enumerate() {
        *b = i as u8 + 1;
    }
    Address { bytes }
}

fn fresh_state() -> CircuitInputStateRef {
    CircuitInputStateRef {
        sdb: StateDB::new(),
        code_db: Vec::new(),
        tx_ctx: TransactionContext { tx_id: 1 },
        container: OperationContainer::new(1),
        calls: vec![Call {
            call_id: 1,
            caller_id: 0,
            is_root: true,
            is_create: false,
            is_success: true,
            is_persistent: true,
            rw_counter_end_of_reversion: 0,
            callee_address: test_address(),
            return_data_offset: 0,
            return_data_length: 0,
            code_hash: Word { hi: 0, lo: 0 },
        }],
        call_stack: vec![0],
        call_ctx_stack: vec![CallContext { memory: Vec::new() }],
        copy_events: Vec::new(),
        reversible_ops: Vec::new(),
    }
}

#[test]
fn caller_opcode_impl() {
    let res_mem_address: u64 = 0x77;
    let caller = caller_address();
    let steps = vec![
        GethExecStep {
            pc: 0,
            op: OpcodeId::CALLER,
            gas: 100,
            stack: vec![res_mem_address],
            memory: Vec::new(),
            global_memory: Vec::new(),
        },
        GethExecStep {
            pc: 1,
            op: OpcodeId::STOP,
            gas: 98,
            stack: Vec::new(),
            memory: caller.bytes.to_vec(),
            global_memory: caller.bytes.to_vec(),
        },
    ];
    let mut state = fresh_state();
    let result = Caller::gen_associated_ops(&mut state, &steps).unwrap();
    let step = &result[0];
    assert_eq!(step.exec_state, ExecState::Op(OpcodeId::CALLER));
    let call_id = 1usize;
    assert_eq!(step.bus_mapping_instance.len(), 22);
    {
        let operation =
            &state.container.call_context[step.bus_mapping_instance[0].as_usize()];
        assert_eq!(
            (operation.rw(), operation.op()),
            (
                RW::READ,
                &CallContextOp {
                    call_id,
                    field: CallContextField::CallerAddress,
                    value: caller.to_word(),
                }
            )
        );
    }
    {
        let operation = &state.container.stack[step.bus_mapping_instance[1].as_usize()];
        assert_eq!(
            (operation.rw(), *operation.op()),
            (RW::READ, StackOp::new(1, 1023, res_mem_address))
        );
    }
    for idx in 0..20 {
        let operation =
            &state.container.memory[step.bus_mapping_instance[2 + idx].as_usize()];
        assert_eq!(
            (operation.rw(), *operation.op()),
            (
                RW::WRITE,
                MemoryOp::new(1, res_mem_address + idx as u64, caller.bytes[idx])
            )
        );
    }
}

#[test]
fn origin_opcode_impl() {
    let res_mem_address: u64 = 0x7f;
    let origin = caller_address();
    let steps = vec![
        GethExecStep {
            pc: 0,
            op: OpcodeId::ORIGIN,
            gas: 100,
            stack: vec![res_mem_address],
            memory: Vec::new(),
            global_memory: Vec::new(),
        },
        GethExecStep {
            pc: 1,
            op: OpcodeId::STOP,
            gas: 98,
            stack: Vec::new(),
            memory: origin.bytes.to_vec(),
            global_memory: origin.bytes.to_vec(),
        },
    ];
    let mut state = fresh_state();
    let result = Origin::gen_associated_ops(&mut state, &steps).unwrap();
    let step = &result[0];
    assert_eq!(step.bus_mapping_instance.len(), 22);
    let call_id = 1usize;
    {
        let operation =
            &state.container.call_context[step.bus_mapping_instance[0].as_usize()];
        assert_eq!(
            (operation.rw(), operation.op()),
            (
                RW::READ,
                &CallContextOp {
                    call_id,
                    field: CallContextField::TxId,
                    value: Word { hi: 0, lo: 1 },
                }
            )
        );
    }
    {
        let operation = &state.container.stack[step.bus_mapping_instance[1].as_usize()];
        assert_eq!(
            (operation.rw(), *operation.op()),
            (RW::READ, StackOp::new(1, 1023, res_mem_address))
        );
    }
    for idx in 0..20 {
        let operation =
            &state.container.memory[step.bus_mapping_instance[2 + idx].as_usize()];
        assert_eq!(
            (operation.rw(), *operation.op()),
            (
                RW::WRITE,
                MemoryOp::new(1, res_mem_address + idx as u64, origin.bytes[idx])
            )
        );
    }
}

fn keccak_word(bytes: &[u8]) -> Word {
    let digest = ethers_core::utils::keccak256(bytes);
    let mut w = Word { hi: 0, lo: 0 };
    for b in digest.iter().take(16) {
        w.hi = w.hi * 256 + *b as u128;
    }
    for b in digest.iter().skip(16) {
        w.lo = w.lo * 256 + *b as u128;
    }
    w
}

fn test_ok(code_ext: Vec<u8>, is_warm: bool, code_offset: usize, memory_offset: usize, copy_size: usize) {
    let external_address = test_address();
    let external_address_offset: u64 = 0;

    let mut state = fresh_state();
    let code_hash = if code_ext.is_empty() {
        Word { hi: 0, lo: 0 }
    } else {
        keccak_word(&code_ext)
    };
    if !code_ext.is_empty() {
        state.sdb.accounts.push((
            external_address,
            Account {
                nonce: 1,
                balance: Word { hi: 0, lo: 0 },
                code_hash,
            },
        ));
        state.code_db.push((code_hash, code_ext.clone()));
    }
    if is_warm {
        state.sdb.add_account_to_access_list(external_address);
    }

    let mut global_memory = external_address.bytes.to_vec();
    global_memory.resize(32, 0);
    let steps = vec![
        GethExecStep {
            pc: 0,
            op: OpcodeId::EXTCODECOPY,
            gas: 100000,
            stack: vec![
                external_address_offset,
                memory_offset as u64,
                code_offset as u64,
                copy_size as u64,
            ],
            memory: Vec::new(),
            global_memory: global_memory.clone(),
        },
        GethExecStep {
            pc: 1,
            op: OpcodeId::STOP,
            gas: 100000,
            stack: Vec::new(),
            memory: Vec::new(),
            global_memory,
        },
    ];

    let result = Extcodecopy::gen_associated_ops(&mut state, &steps).unwrap();
    let step = &result[0];
    let indices = &step.bus_mapping_instance;
    assert_eq!(indices.len(), 29);
    let call_id = 1usize;
    let tx_id = 1usize;

    let expected_stack = [
        (1020usize, copy_size as u64),
        (1021, code_offset as u64),
        (1022, memory_offset as u64),
        (1023, external_address_offset),
    ];
    for (i, (addr, value)) in expected_stack.iter().enumerate() {
        let operation = &state.container.stack[indices[i].as_usize()];
        assert_eq!(
            (operation.rw(), *operation.op()),
            (RW::READ, StackOp { call_id, address: *addr, value: *value })
        );
    }
    let expected_cc = [
        (CallContextField::TxId, Word { hi: 0, lo: 1 }),
        (CallContextField::RwCounterEndOfReversion, Word { hi: 0, lo: 0 }),
        (CallContextField::IsPersistent, Word { hi: 0, lo: 1 }),
    ];
    for (i, (field, value)) in expected_cc.iter().enumerate() {
        let operation = &state.container.call_context[indices[4 + i].as_usize()];
        assert_eq!(
            (operation.rw(), operation.op()),
            (RW::READ, &CallContextOp { call_id, field: *field, value: *value })
        );
    }
    {
        let operation = &state.container.tx_access_list_account[indices[7].as_usize()];
        assert_eq!(operation.rw(), RW::WRITE);
        assert_eq!(operation.op().tx_id, tx_id);
        assert_eq!(operation.op().address, external_address);
        assert!(operation.op().is_warm);
        assert_eq!(operation.op().is_warm_prev, is_warm);
    }
    {
        let operation = &state.container.account[indices[8].as_usize()];
        assert_eq!(operation.rw(), RW::READ);
        assert_eq!(operation.op().value, code_hash);
        assert_eq!(operation.op().value_prev, code_hash);
    }

    // The twenty address-byte reads, then one memory write per copied byte.
    for idx in 0..copy_size {
        let op = &state.container.memory[20 + idx];
        let expected = if code_offset + idx < code_ext.len() {
            code_ext[code_offset + idx]
        } else {
            0
        };
        assert_eq!(
            (op.rw(), *op.op()),
            (
                RW::WRITE,
                MemoryOp::new(call_id, (memory_offset + idx) as u64, expected)
            )
        );
    }

    let copy_events = &state.copy_events;
    assert_eq!(copy_events.len(), 1);
    assert_eq!(copy_events[0].bytes.len(), copy_size);
    assert_eq!(copy_events[0].src_id, NumberOrHash::Hash(code_hash));
    assert_eq!(copy_events[0].src_addr as usize, code_offset);
    assert_eq!(copy_events[0].src_addr_end as usize, code_ext.len());
    assert_eq!(copy_events[0].src_type, CopyDataType::Bytecode);
    assert_eq!(copy_events[0].dst_id, NumberOrHash::Number(call_id));
    assert_eq!(copy_events[0].dst_addr as usize, memory_offset);
    assert_eq!(copy_events[0].dst_type, CopyDataType::Memory);
    assert!(copy_events[0].log_id.is_none());

    for (idx, (value, is_code)) in copy_events[0].bytes.iter().enumerate() {
        if code_offset + idx < code_ext.len() {
            assert_eq!(*value, code_ext[code_offset + idx]);
            assert!(*is_code);
        } else {
            assert_eq!(*value, 0);
            assert!(!*is_code);
        }
    }
}

#[test]
fn cold_empty_account() {
    test_ok(Vec::new(), false, 0x0usize, 0x0usize, 0x30usize);
}

#[test]
fn cold_non_empty_account1() {
    test_ok(vec![10, 40], false, 0x0usize, 0x0usize, 0x30usize);
}

#[test]
fn cold_non_empty_account2() {
    test_ok(vec![0x41, 0x01, 0x1a], false, 0x1usize, 0x2usize, 0x30usize);
}

#[test]
fn rw_counters_are_contiguous() {
    let mut state = fresh_state();
    let caller = caller_address();
    let steps = vec![
        GethExecStep {
            pc: 0,
            op: OpcodeId::CALLER,
            gas: 100,
            stack: vec![0x10],
            memory: Vec::new(),
            global_memory: Vec::new(),
        },
        GethExecStep {
            pc: 1,
            op: OpcodeId::STOP,
            gas: 98,
            stack: Vec::new(),
            memory: caller.bytes.to_vec(),
            global_memory: caller.bytes.to_vec(),
        },
    ];
    Caller::gen_associated_ops(&mut state, &steps).unwrap();
    // The global order log numbers operations 1, 2, 3, ... with no gaps.
    for (i, r) in state.container.sequence.iter().enumerate() {
        let rwc = match r.target {
            zkevm_circuits::operation::Target::Stack => {
                state.container.stack[r.index].rwc()
            }
            zkevm_circuits::operation::Target::Memory => {
                state.container.memory[r.index].rwc()
            }
            zkevm_circuits::operation::Target::CallContext => {
                state.container.call_context[r.index].rwc()
            }
            _ => panic!("unexpected target"),
        };
        assert_eq!(rwc, 1 + i as u64);
    }
}

#[test]
fn caller_missing_second_step_is_rejected() {
    let mut state = fresh_state();
    let steps = vec![GethExecStep {
        pc: 0,
        op: OpcodeId::CALLER,
        gas: 100,
        stack: vec![0x10],
        memory: Vec::new(),
        global_memory: Vec::new(),
    }];
    assert_eq!(
        Caller::gen_associated_ops(&mut state, &steps),
        Err(zkevm_circuits::Error::InvalidGethExecStep)
    );
}

#[test]
fn caller_oversized_offset_is_conversion_error() {
    let mut state = fresh_state();
    let caller = caller_address();
    let steps = vec![
        GethExecStep {
            pc: 0,
            op: OpcodeId::CALLER,
            gas: 100,
            stack: vec![0x1_0000_0000],
            memory: Vec::new(),
            global_memory: Vec::new(),
        },
        GethExecStep {
            pc: 1,
            op: OpcodeId::STOP,
            gas: 98,
            stack: Vec::new(),
            memory: caller.bytes.to_vec(),
            global_memory: caller.bytes.to_vec(),
        },
    ];
    assert_eq!(
        Caller::gen_associated_ops(&mut state, &steps),
        Err(zkevm_circuits::Error::ConversionError)
    );
}

#[test]
fn word_from_big_endian_reads_exact_value() {
    let w = Word::from_big_endian(&[0x12, 0x34, 0x56]);
    assert_eq!(w, Word { hi: 0, lo: 0x123456 });
    let full = Word::from_big_endian(&[0xff; 32]);
    assert_eq!(full.hi, u128::MAX);
    assert_eq!(full.lo, u128::MAX);
}
