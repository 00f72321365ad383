//! Tests of the per-opcode gadgets: configuration, assignment, and the
//! boundary behaviour of the out-of-gas error branch.

use zkevm_circuits::evm::OpcodeId;
use zkevm_circuits::gadgets::codecopy::EvmCodeCopyGadget;
use zkevm_circuits::gadgets::constraint_builder::{EVMConstraintBuilder, RwEntry};
use zkevm_circuits::gadgets::error_oog_account_access::ErrorOOGAccountAccessGadget;
use zkevm_circuits::gadgets::expression::{Row, StepState};
use zkevm_circuits::gadgets::return_revert::EvmReturnRevertGadget;
use zkevm_circuits::gadgets::table_fill::WasmTableFillGadget;
use zkevm_circuits::operation::CallContextField;
use zkevm_circuits::state::{Call, ExecState};
use zkevm_circuits::types::{Address, Word};

fn test_address() -> Address {
    Address {
        bytes: [
            0xaa, 0xbb, 0xcc, 0xdd, 0xee, 0, 0, 0, 0, 0, 0, 0, 0, 0, 0, 0, 0, 0, 0, 0,
        ],
    }
}

fn step_state(gas_left: u64, is_root: bool, is_create: bool) -> StepState {
    StepState {
        execution_state: ExecState::Op(OpcodeId::BALANCE),
        rw_counter: 1,
        program_counter: 0,
        stack_pointer: 1022,
        gas_left,
        reversible_write_counter: 0,
        memory_word_size: 0,
        call_id: 1,
        is_root,
        is_create,
        code_hash: Word { hi: 0, lo: 0 },
    }
}

fn end_tx_state() -> StepState {
    StepState {
        execution_state: ExecState::EndTx,
        rw_counter: 26,
        program_counter: 0,
        stack_pointer: 1024,
        gas_left: 0,
        reversible_write_counter: 0,
        memory_word_size: 0,
        call_id: 1,
        is_root: false,
        is_create: false,
        code_hash: Word { hi: 0, lo: 0 },
    }
}

fn oog_rws(address: Address, is_warm: bool) -> Vec<RwEntry> {
    let mut rws = vec![
        RwEntry::Stack { call_id: 1, address: 1022, is_write: false, value: 0x20 },
        RwEntry::Stack { call_id: 1, address: 1023, is_write: false, value: 0x40 },
    ];
    for (i, b) in address.bytes.iter().enumerate() {
        rws.push(RwEntry::Memory {
            call_id: 1,
            address: 0x40 + i as u64,
            is_write: false,
            value: *b,
        });
    }
    rws.push(RwEntry::CallContextEntry {
        call_id: 1,
        field: CallContextField::TxId,
        is_write: false,
        value: Word { hi: 0, lo: 1 },
    });
    rws.push(RwEntry::TxAccessListAccountEntry {
        tx_id: 1,
        address,
        is_write: false,
        is_warm,
        is_warm_prev: is_warm,
    });
    rws.push(RwEntry::CallContextEntry {
        call_id: 1,
        field: CallContextField::IsSuccess,
        is_write: false,
        value: Word { hi: 0, lo: 0 },
    });
    rws
}

fn oog_case(opcode: OpcodeId, is_warm: bool, is_root: bool) {
    // An account with a 900 balance exists at the target; only the warm
    // flag and the gas boundary matter to the gadget.
    let cost: u64 = if is_warm { 100 } else { 2600 };
    let mut cb = EVMConstraintBuilder::new();
    let gadget = ErrorOOGAccountAccessGadget::configure(&mut cb);
    let mut row = Row::new_zeroed(6, 1);
    let mut curr = step_state(cost - 1, is_root, false);
    curr.execution_state = ExecState::ErrorOutOfGasAccountAccess;
    let next = end_tx_state();
    let rws = oog_rws(test_address(), is_warm);
    gadget
        .assign_exec_step(&mut row, opcode, 1, &curr, &next, &rws)
        .unwrap();
    // One unit below the access cost forces the insufficient-gas flag.
    assert_eq!(row.cells[5], 1);
    assert_eq!(row.cells[4], if is_warm { 1 } else { 0 });
    assert_eq!(row.cells[0], opcode.as_u64());
    assert_eq!(row.cells[1], 0x20);
    assert_eq!(row.cells[2], 0x40);
    assert_eq!(row.word_cells[0], test_address().to_word());

    // With exactly the access cost available the flag clears: the error
    // branch is no longer satisfiable.
    let mut row2 = Row::new_zeroed(6, 1);
    let curr2 = {
        let mut c = step_state(cost, is_root, false);
        c.execution_state = ExecState::ErrorOutOfGasAccountAccess;
        c
    };
    gadget
        .assign_exec_step(&mut row2, opcode, 1, &curr2, &next, &rws)
        .unwrap();
    assert_eq!(row2.cells[5], 0);
}

#[test]
fn oog_account_access_root() {
    for opcode in [OpcodeId::BALANCE, OpcodeId::EXTCODEHASH] {
        for is_warm in [false, true] {
            oog_case(opcode, is_warm, true);
        }
    }
}

#[test]
fn oog_account_internal() {
    for opcode in [OpcodeId::BALANCE, OpcodeId::EXTCODESIZE, OpcodeId::EXTCODEHASH] {
        for is_warm in [false, true] {
            oog_case(opcode, is_warm, false);
        }
    }
}

fn codecopy_ok(memory_offset: u64, code_offset: u64, size: u64, large: bool) {
    let mut cb = EVMConstraintBuilder::new();
    let gadget = EvmCodeCopyGadget::configure(&mut cb);
    let mut row = Row::new_zeroed(10, 0);
    let code_size: u64 = if large { 0x101 * 2 + 7 } else { 0x40 };
    let curr_words: u64 = 0;
    let next_words: u64 = (memory_offset + size + 31) / 32;
    gadget
        .assign_exec_step(
            &mut row,
            size,
            code_offset,
            memory_offset,
            code_size,
            curr_words,
            next_words,
        )
        .unwrap();
    assert_eq!(row.cells[0], size);
    assert_eq!(row.cells[1], code_offset);
    assert_eq!(row.cells[2], memory_offset);
    assert_eq!(row.cells[3], (size + 31) / 32);
    assert_eq!(row.cells[4], (size + 31) % 32);
    assert_eq!(row.cells[6], if size == 0 { 1 } else { 0 });
    // The copy consumes one counter tick per byte.
    assert_eq!(row.cells[8], size);
    // The gas row charges the quadratic memory-expansion cost.
    assert_eq!(row.cells[9], 3 * next_words + next_words * next_words / 512);
}

#[test]
fn codecopy_gadget_simple1() {
    codecopy_ok(0x00, 0x00, 0x20, false);
}

#[test]
fn codecopy_gadget_simple2() {
    codecopy_ok(0x20, 0x30, 0x30, false);
}

#[test]
fn codecopy_gadget_simple3() {
    codecopy_ok(0x10, 0x20, 0x42, false);
}

#[test]
fn codecopy_gadget_large() {
    codecopy_ok(0x103, 0x102, 0x101, true);
}

fn root_call(is_success: bool, is_create: bool) -> Call {
    Call {
        call_id: 1,
        caller_id: 0,
        is_root: true,
        is_create,
        is_success,
        is_persistent: is_success,
        rw_counter_end_of_reversion: 0,
        callee_address: test_address(),
        return_data_offset: 0,
        return_data_length: 0,
        code_hash: Word { hi: 0, lo: 0 },
    }
}

fn return_rws(offset: u64, length: u64, is_success: bool) -> Vec<RwEntry> {
    let flag = Word { hi: 0, lo: if is_success { 1 } else { 0 } };
    vec![
        RwEntry::Stack { call_id: 1, address: 1022, is_write: false, value: length },
        RwEntry::Stack { call_id: 1, address: 1023, is_write: false, value: offset },
        RwEntry::CallContextEntry {
            call_id: 1,
            field: CallContextField::IsSuccess,
            is_write: false,
            value: flag,
        },
        RwEntry::CallContextEntry {
            call_id: 1,
            field: CallContextField::IsPersistent,
            is_write: false,
            value: flag,
        },
    ]
}

fn return_root_case(offset: u64, length: u64, is_return: bool) {
    let mut cb = EVMConstraintBuilder::new();
    let gadget = EvmReturnRevertGadget::configure(&mut cb);
    let mut row = Row::new_zeroed(14, 2);
    let call = root_call(is_return, false);
    let curr = {
        let mut c = step_state(100, true, false);
        c.stack_pointer = 1022;
        c
    };
    let next = end_tx_state();
    let rws = return_rws(offset, length, is_return);
    let op = if is_return { OpcodeId::RETURN } else { OpcodeId::REVERT };
    gadget
        .assign_exec_step(&mut row, op, &call, &curr, &next, &rws)
        .unwrap();
    assert_eq!(row.cells[0], op.as_u64());
    assert_eq!(row.cells[1], length);
    assert_eq!(row.cells[2], offset);
    assert_eq!(row.cells[3], if is_return { 1 } else { 0 });
    // A root call has no copy event, regardless of how many bytes were
    // returned.
    assert_eq!(row.cells[4], 0);
    assert_eq!(row.cells[5], 1);
    assert_eq!(row.cells[10], 0);
    assert_eq!(row.cells[11], 0);
    // No memory growth between the crafted step states.
    assert_eq!(row.cells[13], 0);
}

#[test]
fn test_return_hello_world() {
    // "Hello, World" is twelve bytes at offset zero.
    return_root_case(0, 12, true);
}

#[test]
fn test_revert_hello_world() {
    return_root_case(0, 12, false);
}

#[test]
fn test_return_root_noncreate() {
    for (offset, length) in [(0u64, 0u64), (0, 10)] {
        for is_return in [true, false] {
            return_root_case(offset, length, is_return);
        }
    }
}

#[test]
fn test_return_root_create() {
    for (offset, length) in [(0u64, 0u64), (0, 10)] {
        for is_return in [true, false] {
            let mut cb = EVMConstraintBuilder::new();
            let gadget = EvmReturnRevertGadget::configure(&mut cb);
            let mut row = Row::new_zeroed(14, 2);
            let call = root_call(is_return, true);
            let curr = step_state(100, true, true);
            let next = end_tx_state();
            let mut rws = return_rws(offset, length, is_return);
            let deployed: Vec<u8> = (0..length as u8).collect();
            if is_return {
                // Deployment reads follow the context reads.
                rws.push(RwEntry::CallContextEntry {
                    call_id: 1,
                    field: CallContextField::CallerId,
                    is_write: false,
                    value: Word { hi: 0, lo: 0 },
                });
                while rws.len() < 8 {
                    rws.push(RwEntry::CallContextEntry {
                        call_id: 1,
                        field: CallContextField::CallerId,
                        is_write: false,
                        value: Word { hi: 0, lo: 0 },
                    });
                }
                for (i, b) in deployed.iter().enumerate() {
                    rws.push(RwEntry::Memory {
                        call_id: 1,
                        address: offset + i as u64,
                        is_write: false,
                        value: *b,
                    });
                }
            }
            let op = if is_return { OpcodeId::RETURN } else { OpcodeId::REVERT };
            gadget
                .assign_exec_step(&mut row, op, &call, &curr, &next, &rws)
                .unwrap();
            if is_return {
                // A successful create consumes one counter tick per
                // deployed byte and hashes the returned bytes.
                assert_eq!(row.cells[4], length);
                let digest = ethers_core::utils::keccak256(&deployed);
                let expected = Word::from_big_endian(&digest[..]);
                assert_eq!(row.word_cells[0], expected);
            }
        }
    }
}

#[test]
fn test_table_set_get() {
    let mut cb = EVMConstraintBuilder::new();
    let gadget = WasmTableFillGadget::configure(&mut cb);
    let mut row = Row::new_zeroed(4, 0);
    gadget.assign_exec_step(&mut row, 0, 0, 0xff, 2).unwrap();
    assert_eq!(row.cells[0], 0);
    assert_eq!(row.cells[1], 0);
    assert_eq!(row.cells[2], 0xff);
    assert_eq!(row.cells[3], 2);
}
