//! Tests of the event table, its text front end, and the table helpers.

use zkevm_circuits::etable::{
    etable_check, opclass_to_two_level, test_circuit_noexternal, EventTable, EventTableEntry,
    InstructionTableEntry, MLookupItem, OpcodeClassPlain, StepInfo, VarType,
};
use zkevm_circuits::wasm_bytecode::WasmBytecode;
use zkevm_circuits::global_section::{
    leb128_decode_unsigned, GlobalBodyFlag, WasmGlobalSectionBodyChip,
};
use zkevm_circuits::wasm_tables::{
    BitValueConfig, Context, InitMemoryTableEntry, LocationType, RangeTableConfig, Tag, U32Config,
};

#[test]
fn test_call() {
    let textual_repr = r#"
    (module
        (func $foo (param i32) (result i32)
        (local i64 i32)
          i32.const 0
        )
        (func (export "test")
          (i32.const 0)
          call $foo
          drop
        )
       )
    "#;

    test_circuit_noexternal(textual_repr).unwrap()
}

#[test]
fn test_eqz() {
    let textual_repr = r#"
            (module
                (func (export "test")
                  (i32.const 0)
                  (i32.eqz)
                  (drop)

                  (i32.const 1)
                  (i32.eqz)
                  (drop)

                  (i64.const 0)
                  (i64.eqz)
                  (drop)

                  (i64.const 1)
                  (i64.eqz)
                  (drop)
                )
               )
            "#;

    test_circuit_noexternal(textual_repr).unwrap()
}

#[test]
fn malformed_module_is_rejected() {
    assert!(test_circuit_noexternal("(module)").is_err());
    assert!(test_circuit_noexternal("(module (func (export \"test\") drop))").is_err());
}

#[test]
fn tampered_table_fails_the_checker() {
    let textual_repr = "(module (func (export \"test\") (i32.const 7) (drop)))";
    test_circuit_noexternal(textual_repr).unwrap();
    // A forged table with a counter gap must be rejected.
    let inst = InstructionTableEntry {
        moid: 0,
        mmid: 0,
        fid: 0,
        iid: 0,
        opcode: zkevm_circuits::etable::encode_step_opcode(&StepInfo::Drop),
    };
    let e1 = EventTableEntry {
        eid: 1,
        sp: 4000,
        last_jump_eid: 0,
        inst,
        step_info: StepInfo::Drop,
    };
    let mut e2 = e1;
    e2.eid = 3;
    e2.sp = 4001;
    let table = EventTable { entries: vec![e1, e2] };
    assert!(!etable_check(&table));
}

#[test]
fn zero_test_result_is_checked() {
    let inst = InstructionTableEntry {
        moid: 0,
        mmid: 0,
        fid: 0,
        iid: 0,
        opcode: zkevm_circuits::etable::encode_step_opcode(&StepInfo::Test {
            vtype: VarType::I32,
            value: 5,
            result: 1,
        }),
    };
    let bad = EventTableEntry {
        eid: 1,
        sp: 4000,
        last_jump_eid: 0,
        inst,
        step_info: StepInfo::Test { vtype: VarType::I32, value: 5, result: 1 },
    };
    let table = EventTable { entries: vec![bad] };
    assert!(!etable_check(&table));
}

#[test]
fn opclass_levels_split_as_documented() {
    assert_eq!(opclass_to_two_level(OpcodeClassPlain(1)), (0, 10));
    assert_eq!(opclass_to_two_level(OpcodeClassPlain(10)), (0, 19));
    assert_eq!(opclass_to_two_level(OpcodeClassPlain(11)), (1, 10));
    assert_eq!(opclass_to_two_level(OpcodeClassPlain(100)), (9, 19));
}

#[test]
fn mlookup_slots() {
    assert_eq!(MLookupItem::from_index(0), MLookupItem::First);
    assert_eq!(MLookupItem::from_index(5), MLookupItem::Six);
    assert_eq!(MLookupItem::try_from_u32(3).unwrap(), MLookupItem::Fourth);
    assert_eq!(
        MLookupItem::try_from_u32(4),
        Err(zkevm_circuits::Error::ConversionError)
    );
}

#[test]
fn instruction_encode_is_exact() {
    let e = InstructionTableEntry {
        moid: 1,
        mmid: 1,
        fid: 2,
        iid: 3,
        opcode: 0xabcd,
    };
    assert_eq!(e.encode_addr(), (1u64 << 48) + (1u64 << 32) + (2u64 << 16) + 3);
    let w = e.encode();
    assert_eq!(w.hi, e.encode_addr() as u128);
    assert_eq!(w.lo, 0xabcd);
}

#[test]
fn init_memory_encode_is_exact() {
    let e = InitMemoryTableEntry {
        ltype: LocationType::Global,
        is_mutable: true,
        mmid: 2,
        offset: 7,
        value: 0x55,
    };
    let packed = ((1u128 * 0x1_0000 + 1) * 0x1_0000 + 2) * 0x1_0000_0000_0000_0000_0000
        + 7 * 0x1_0000_0000_0000_0000
        + 0x55;
    assert_eq!(e.encode(), packed);
}

#[test]
fn bytecode_table_rows() {
    let wb = WasmBytecode::new(vec![7, 9]);
    assert_eq!(wb.get(0), 7);
    assert_eq!(wb.get(1), 9);
    let rows = wb.table_assignments();
    assert_eq!(rows, vec![[0u64, 7u64], [1, 9]]);
}

#[test]
fn range_table_rows() {
    let cfg = RangeTableConfig::configure(3, 7);
    assert_eq!(cfg.load(), vec![3, 4, 5, 6]);
}

#[test]
fn bit_value_limbs_reconstruct() {
    let cfg = BitValueConfig::configure();
    let limbs = cfg.assign(0xdead_beef);
    assert_eq!(limbs.len(), 16);
    let mut acc: u64 = 0;
    for (i, l) in limbs.iter().enumerate() {
        acc += l << (4 * i);
    }
    assert_eq!(acc, 0xdead_beef);
}

#[test]
fn u32_limbs_reconstruct() {
    let cfg = U32Config::configure();
    let (lo, hi) = cfg.assign(0x1234_5678);
    assert_eq!(lo, 0x5678);
    assert_eq!(hi, 0x1234);
}

#[test]
fn row_cursor_round_trip() {
    let mut ctx = Context::new();
    ctx.next();
    ctx.next();
    ctx.push();
    ctx.next();
    assert_eq!(ctx.offset, 3);
    ctx.pop();
    assert_eq!(ctx.offset, 2);
    ctx.reset();
    assert_eq!(ctx.offset, 0);
}

#[test]
fn tags_number_their_sections() {
    assert_eq!(Tag::CodeSectionFuncIndex.expr(), 0);
    assert_eq!(Tag::GlobalSectionGlobalIndex.expr(), 4);
    assert_eq!(zkevm_circuits::wasm_tables::tag_values().len(), 5);
}

#[test]
fn leb128_decodes_exact_values() {
    assert_eq!(leb128_decode_unsigned(&[0x05], 0).unwrap(), (5, 1));
    assert_eq!(leb128_decode_unsigned(&[0x80, 0x01], 0).unwrap(), (128, 2));
    assert_eq!(
        leb128_decode_unsigned(&[0xe5, 0x8e, 0x26], 0).unwrap(),
        (624485, 3)
    );
    // A run of continuation bytes with no terminator is rejected.
    assert!(leb128_decode_unsigned(&[0x80, 0x80], 0).is_err());
    assert!(leb128_decode_unsigned(&[], 0).is_err());
}

#[test]
fn global_section_body_markup() {
    let body = vec![
        0x02, // two globals
        0x7f, 0x01, 0x41, 0x05, 0x0b, // mutable i32 initialised to 5
        0x7e, 0x00, 0x42, 0x80, 0x01, 0x0b, // immutable i64 initialised to 128
    ];
    let wb = WasmBytecode::new(body);
    let chip = WasmGlobalSectionBodyChip::construct(WasmGlobalSectionBodyChip::configure());
    let (flags, end) = chip.assign_auto(&wb, 0).unwrap();
    assert_eq!(end, 12);
    assert_eq!(
        flags,
        vec![
            GlobalBodyFlag::IsItemsCount,
            GlobalBodyFlag::IsGlobalType,
            GlobalBodyFlag::IsMutProp,
            GlobalBodyFlag::IsInitOpcode,
            GlobalBodyFlag::IsInitVal,
            GlobalBodyFlag::IsExprDelimiter,
            GlobalBodyFlag::IsGlobalType,
            GlobalBodyFlag::IsMutProp,
            GlobalBodyFlag::IsInitOpcode,
            GlobalBodyFlag::IsInitVal,
            GlobalBodyFlag::IsInitVal,
            GlobalBodyFlag::IsExprDelimiter,
        ]
    );
    // A malformed body is rejected: the delimiter is missing.
    let bad = WasmBytecode::new(vec![0x01, 0x7f, 0x01, 0x41, 0x05]);
    assert!(chip.assign_auto(&bad, 0).is_err());
}
