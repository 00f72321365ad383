//! The event table: one entry per executed instruction of a module run,
//! the per-opcode configurations that declare each entry's shape, and a
//! checker for the common transition identities between consecutive
//! entries.
//!
//! The module also carries a small text-format front end: a module in the
//! s-expression notation restricted to constants, calls, drops and
//! zero-tests is parsed, executed, and the produced event table is held
//! against the checker.

use vstd::prelude::*;

use crate::types::Word;
use crate::Error;

verus! {

/// Stack slot the first pushed value of a run lands below.
pub const ETABLE_STACK_START: u64 = 4095;

/// Bit position of the opcode class inside an encoded instruction.
pub const OPCODE_CLASS_SHIFT: u32 = 96;

/// Bit position of the first opcode argument.
pub const OPCODE_ARG0_SHIFT: u32 = 80;

/// Bit position of the second opcode argument.
pub const OPCODE_ARG1_SHIFT: u32 = 64;

/// An opcode class as a plain number.
#[derive(Clone, Copy, Debug, PartialEq, Eq, Structural)]
pub struct OpcodeClassPlain(pub usize);

/// The opcode families of the event table.
#[derive(Clone, Copy, Debug, PartialEq, Eq, Structural)]
pub enum OpcodeClass {
    Return,
    Call,
    Const,
    Drop,
    Test,
}

impl OpcodeClass {
    /// Stable numeric identifier of the class.
    pub fn as_u64(&self) -> (r: u64)
        ensures
            r == self.spec_as_u64(),
    {
        match self {
            OpcodeClass::Return => 1,
            OpcodeClass::Call => 5,
            OpcodeClass::Const => 7,
            OpcodeClass::Drop => 8,
            OpcodeClass::Test => 25,
        }
    }

    pub open spec fn spec_as_u64(self) -> u64 {
        match self {
            OpcodeClass::Return => 1,
            OpcodeClass::Call => 5,
            OpcodeClass::Const => 7,
            OpcodeClass::Drop => 8,
            OpcodeClass::Test => 25,
        }
    }
}

/// Numeric type of a machine value.
#[derive(Clone, Copy, Debug, PartialEq, Eq, Structural)]
pub enum VarType {
    I32,
    I64,
}

impl VarType {
    pub fn as_u64(&self) -> (r: u64)
        ensures
            r == self.spec_as_u64(),
    {
        match self {
            VarType::I32 => 0,
            VarType::I64 => 1,
        }
    }

    pub open spec fn spec_as_u64(self) -> u64 {
        match self {
            VarType::I32 => 0,
            VarType::I64 => 1,
        }
    }
}

/// What one executed instruction did.
#[derive(Clone, Copy, Debug, PartialEq, Eq, Structural)]
pub enum StepInfo {
    Call { index: u16 },
    Drop,
    Const { vtype: VarType, value: u64 },
    Test { vtype: VarType, value: u64, result: u32 },
    /// Leaving a function; the resumed position is bound through the jump
    /// table, outside this module.
    Return,
}

/// One instruction-table entry: the instruction's address and its encoded
/// opcode, which always fits 128 bits.
#[derive(Clone, Copy, Debug, PartialEq, Eq, Structural)]
pub struct InstructionTableEntry {
    pub moid: u16,
    pub mmid: u16,
    pub fid: u16,
    pub iid: u16,
    pub opcode: u128,
}

impl InstructionTableEntry {
    /// The instruction's address packed into one number.
    pub fn encode_addr(&self) -> (r: u64)
        ensures
            r == ((self.moid as u64) * 0x1_0000_0000_0000 + (self.mmid as u64) * 0x1_0000_0000 + (
            self.fid as u64) * 0x1_0000 + self.iid as u64),
    {
        (self.moid as u64) * 0x1_0000_0000_0000 + (self.mmid as u64) * 0x1_0000_0000 + (self.fid
            as u64) * 0x1_0000 + self.iid as u64
    }

    /// The full encoding: the address in the high 128 bits, the opcode in
    /// the low 128.
    pub fn encode(&self) -> (r: Word)
        ensures
            r.hi == (self.moid as u128) * 0x1_0000_0000_0000 + (self.mmid as u128) * 0x1_0000_0000
                + (self.fid as u128) * 0x1_0000 + self.iid as u128,
            r.lo == self.opcode,
    {
        let addr = self.encode_addr();
        Word { hi: addr as u128, lo: self.opcode }
    }
}

/// The encoded opcode of a step.
pub fn encode_step_opcode(info: &StepInfo) -> (r: u128)
    ensures
        r == spec_encode_step_opcode(*info),
{
    match info {
        StepInfo::Call { index } => (OpcodeClass::Call.as_u64() as u128)
            * 0x1_0000_0000_0000_0000_0000_0000 + *index as u128,
        StepInfo::Drop => (OpcodeClass::Drop.as_u64() as u128) * 0x1_0000_0000_0000_0000_0000_0000,
        StepInfo::Const { vtype, value } => (OpcodeClass::Const.as_u64() as u128)
            * 0x1_0000_0000_0000_0000_0000_0000 + (vtype.as_u64() as u128)
            * 0x1_0000_0000_0000_0000_0000 + *value as u128,
        StepInfo::Test { vtype, .. } => (OpcodeClass::Test.as_u64() as u128)
            * 0x1_0000_0000_0000_0000_0000_0000 + (vtype.as_u64() as u128)
            * 0x1_0000_0000_0000_0000,
        StepInfo::Return => (OpcodeClass::Return.as_u64() as u128)
            * 0x1_0000_0000_0000_0000_0000_0000,
    }
}

pub open spec fn spec_encode_step_opcode(info: StepInfo) -> u128 {
    match info {
        StepInfo::Call { index } => (5u128 * 0x1_0000_0000_0000_0000_0000_0000 + index)
            as u128,
        StepInfo::Drop => (8u128 * 0x1_0000_0000_0000_0000_0000_0000) as u128,
        StepInfo::Const { vtype, value } => (7u128 * 0x1_0000_0000_0000_0000_0000_0000
            + vtype.spec_as_u64() * 0x1_0000_0000_0000_0000_0000 + value) as u128,
        StepInfo::Test { vtype, .. } => (25u128 * 0x1_0000_0000_0000_0000_0000_0000
            + vtype.spec_as_u64() * 0x1_0000_0000_0000_0000) as u128,
        StepInfo::Return => (1u128 * 0x1_0000_0000_0000_0000_0000_0000) as u128,
    }
}

/// One event-table entry.
#[derive(Clone, Copy, Debug, PartialEq, Eq, Structural)]
pub struct EventTableEntry {
    pub eid: u64,
    pub sp: u64,
    pub last_jump_eid: u64,
    pub inst: InstructionTableEntry,
    pub step_info: StepInfo,
}

/// The event table of one run.
#[derive(Clone, Debug, PartialEq, Eq)]
pub struct EventTable {
    pub entries: Vec<EventTableEntry>,
}

/// The per-step bookkeeping row of the event table.
#[derive(Clone, Copy, Debug, PartialEq, Eq, Structural)]
pub struct Status {
    pub eid: u64,
    pub moid: u16,
    pub fid: u16,
    pub iid: u16,
    pub mmid: u16,
    pub sp: u64,
    pub last_jump_eid: u64,
    pub allocated_memory_pages: u16,
}

/// The bookkeeping rows one opcode configuration assigns against: the
/// current step's and the next step's.
#[derive(Clone, Copy, Debug, PartialEq, Eq, Structural)]
pub struct StepStatus {
    pub current: Status,
    pub next: Status,
}

/// Which of the per-step memory-table lookup slots is meant.
#[derive(Clone, Copy, Debug, PartialEq, Eq, Structural)]
pub enum MLookupItem {
    First,
    Second,
    Third,
    Fourth,
    Fifth,
    Six,
}

impl MLookupItem {
    /// The slot with the given index.
    pub fn from_index(i: usize) -> (r: MLookupItem)
        requires
            i < 6,
        ensures
            r == spec_mlookup_from_index(i as int),
    {
        if i == 0 {
            MLookupItem::First
        } else if i == 1 {
            MLookupItem::Second
        } else if i == 2 {
            MLookupItem::Third
        } else if i == 3 {
            MLookupItem::Fourth
        } else if i == 4 {
            MLookupItem::Fifth
        } else {
            MLookupItem::Six
        }
    }

    /// The slot with the given index, for the four slots reachable from
    /// lookup descriptors.
    pub fn try_from_u32(v: u32) -> (r: Result<MLookupItem, Error>)
        ensures
            v == 0 ==> r == Ok::<MLookupItem, Error>(MLookupItem::First),
            v == 1 ==> r == Ok::<MLookupItem, Error>(MLookupItem::Second),
            v == 2 ==> r == Ok::<MLookupItem, Error>(MLookupItem::Third),
            v == 3 ==> r == Ok::<MLookupItem, Error>(MLookupItem::Fourth),
            v > 3 ==> r == Err::<MLookupItem, Error>(Error::ConversionError),
    {
        if v == 0 {
            Ok(MLookupItem::First)
        } else if v == 1 {
            Ok(MLookupItem::Second)
        } else if v == 2 {
            Ok(MLookupItem::Third)
        } else if v == 3 {
            Ok(MLookupItem::Fourth)
        } else {
            Err(Error::ConversionError)
        }
    }
}

pub open spec fn spec_mlookup_from_index(i: int) -> MLookupItem {
    if i == 0 {
        MLookupItem::First
    } else if i == 1 {
        MLookupItem::Second
    } else if i == 2 {
        MLookupItem::Third
    } else if i == 3 {
        MLookupItem::Fourth
    } else if i == 4 {
        MLookupItem::Fifth
    } else {
        MLookupItem::Six
    }
}

/// Number of opcode-selector bits in one event-table block.
pub const ETABLE_OP_LVL1: usize = 10;

/// Splits an opcode class into its two selector levels.
pub fn opclass_to_two_level(class: OpcodeClassPlain) -> (r: (usize, usize))
    requires
        1 <= class.0 <= 100,
    ensures
        r.0 == (class.0 - 1) as int / 10,
        r.1 == (class.0 - 1) as int % 10 + 10,
{
    let id: usize = class.0 - 1;
    (id / ETABLE_OP_LVL1, (id % ETABLE_OP_LVL1) + ETABLE_OP_LVL1)
}

/// The memory-table lookup encoding of one stack access.
pub fn encode_stack_access(eid: u64, emid: u64, sp: u64, vtype: VarType, value: u64) -> (r: Word)
    requires
        emid < 0x1_0000,
    ensures
        r.hi == (eid as u128) * 0x1_0000_0000 + (emid as u128) * 0x1_0000
            + vtype.spec_as_u64() as u128,
        r.lo == (sp as u128) * 0x1_0000_0000_0000_0000 + value as u128,
{
    Word {
        hi: (eid as u128) * 0x1_0000_0000 + (emid as u128) * 0x1_0000 + vtype.as_u64() as u128,
        lo: (sp as u128) * 0x1_0000_0000_0000_0000 + value as u128,
    }
}

/// Configuration of the call opcode: the callee's function id.
#[derive(Clone, Copy, Debug, PartialEq, Eq, Structural)]
pub struct CallConfig {
    pub index: u16,
}

pub struct CallConfigBuilder {}

impl CallConfigBuilder {
    /// Declares the call configuration's single bookkeeping value.
    pub fn configure() -> (r: CallConfig)
        ensures
            r.index == 0,
    {
        CallConfig { index: 0 }
    }
}

impl CallConfig {
    /// The encoded opcode the configuration stands for.
    pub fn opcode(&self) -> (r: u128)
        ensures
            r == spec_encode_step_opcode(StepInfo::Call { index: self.index }),
    {
        encode_step_opcode(&StepInfo::Call { index: self.index })
    }

    /// Captures the step's data; only call steps are accepted.
    pub fn assign(&mut self, entry: &EventTableEntry) -> (r: Result<(), Error>)
        ensures
            entry.step_info matches StepInfo::Call { index } ==> r == Ok::<(), Error>(())
                && final(self).index == index,
            !(entry.step_info matches StepInfo::Call { .. }) ==> r == Err::<(), Error>(
                Error::InvalidGethExecStep,
            ) && *final(self) == *old(self),
    {
        match entry.step_info {
            StepInfo::Call { index } => {
                self.index = index;
                Ok(())
            },
            _ => Err(Error::InvalidGethExecStep),
        }
    }

    /// Memory operations the step performs.
    pub fn mops(&self) -> (r: u64)
        ensures
            r == 0,
    {
        0
    }

    /// Jump operations the step performs.
    pub fn jops(&self) -> (r: u64)
        ensures
            r == 1,
    {
        1
    }

    /// The function id the next step executes in.
    pub fn next_fid(&self) -> (r: Option<u16>)
        ensures
            r == Some(self.index),
    {
        Some(self.index)
    }

    /// The instruction offset the next step starts at.
    pub fn next_iid(&self) -> (r: Option<u16>)
        ensures
            r == Some(0u16),
    {
        Some(0)
    }
}

/// Configuration of the drop opcode: no bookkeeping values.
#[derive(Clone, Copy, Debug, PartialEq, Eq, Structural)]
pub struct DropConfig {}

pub struct DropConfigBuilder {}

impl DropConfigBuilder {
    pub fn configure() -> (r: DropConfig) {
        DropConfig {  }
    }
}

impl DropConfig {
    pub fn opcode(&self) -> (r: u128)
        ensures
            r == spec_encode_step_opcode(StepInfo::Drop),
    {
        encode_step_opcode(&StepInfo::Drop)
    }

    /// Only drop steps are accepted.
    pub fn assign(&self, entry: &EventTableEntry) -> (r: Result<(), Error>)
        ensures
            entry.step_info matches StepInfo::Drop ==> r == Ok::<(), Error>(()),
            !(entry.step_info matches StepInfo::Drop) ==> r == Err::<(), Error>(
                Error::InvalidGethExecStep,
            ),
    {
        match entry.step_info {
            StepInfo::Drop => Ok(()),
            _ => Err(Error::InvalidGethExecStep),
        }
    }

    /// How much the stack pointer grows when a value is dropped.
    pub fn sp_diff(&self) -> (r: u64)
        ensures
            r == 1,
    {
        1
    }
}

/// Configuration of the zero-test opcode.
#[derive(Clone, Copy, Debug, PartialEq, Eq, Structural)]
pub struct TestConfig {
    pub is_i64: bool,
    pub value: u64,
    pub res: bool,
}

pub struct TestConfigBuilder {}

impl TestConfigBuilder {
    /// Declares the zero-test configuration; the result is one exactly
    /// when the operand is zero.
    pub fn configure() -> (r: TestConfig)
        ensures
            r.is_i64 == false && r.value == 0 && r.res == false,
    {
        TestConfig { is_i64: false, value: 0, res: false }
    }
}

impl TestConfig {
    pub fn opcode(&self) -> (r: u128)
        ensures
            r == spec_encode_step_opcode(
                StepInfo::Test {
                    vtype: if self.is_i64 {
                        VarType::I64
                    } else {
                        VarType::I32
                    },
                    value: self.value,
                    result: 0,
                },
            ),
    {
        encode_step_opcode(
            &StepInfo::Test {
                vtype: if self.is_i64 {
                    VarType::I64
                } else {
                    VarType::I32
                },
                value: self.value,
                result: 0,
            },
        )
    }

    /// Captures the step's data; only zero-test steps whose result is the
    /// zero-test of their operand are accepted.
    pub fn assign(&mut self, entry: &EventTableEntry) -> (r: Result<(), Error>)
        ensures
            (entry.step_info matches StepInfo::Test { vtype, value, result } && result == (
            if value == 0 {
                1u32
            } else {
                0u32
            })) ==> r == Ok::<(), Error>(()) && final(self).value == (match entry.step_info {
                StepInfo::Test { value, .. } => value,
                _ => 0u64,
            }) && final(self).res == (match entry.step_info {
                StepInfo::Test { value, .. } => value == 0,
                _ => false,
            }) && final(self).is_i64 == (match entry.step_info {
                StepInfo::Test { vtype, .. } => vtype == VarType::I64,
                _ => false,
            }),
            !(entry.step_info matches StepInfo::Test { .. }) ==> r == Err::<(), Error>(
                Error::InvalidGethExecStep,
            ) && *final(self) == *old(self),
    {
        match entry.step_info {
            StepInfo::Test { vtype, value, result } => {
                self.is_i64 = match vtype {
                    VarType::I64 => true,
                    VarType::I32 => false,
                };
                self.value = value;
                self.res = result == 1;
                if result == (if value == 0 {
                    1u32
                } else {
                    0u32
                }) {
                    Ok(())
                } else {
                    Err(Error::AssignmentFieldOverflow)
                }
            },
            _ => Err(Error::InvalidGethExecStep),
        }
    }

    pub fn mops(&self) -> (r: u64)
        ensures
            r == 2,
    {
        2
    }

    /// The step's first memory-table lookup: the operand read.
    pub fn mtable_lookup_read(&self, status: &StepStatus) -> (r: Word)
        requires
            status.current.sp < u64::MAX,
        ensures
            r == spec_test_lookup_read(*self, *status),
    {
        encode_stack_access(
            status.current.eid,
            1,
            status.current.sp + 1,
            if self.is_i64 {
                VarType::I64
            } else {
                VarType::I32
            },
            self.value,
        )
    }

    /// The step's second memory-table lookup: the result write.
    pub fn mtable_lookup_write(&self, status: &StepStatus) -> (r: Word)
        requires
            status.current.sp < u64::MAX,
        ensures
            r == spec_test_lookup_write(*self, *status),
    {
        encode_stack_access(
            status.current.eid,
            2,
            status.current.sp + 1,
            VarType::I32,
            if self.res {
                1
            } else {
                0
            },
        )
    }
}

pub open spec fn spec_test_lookup_read(c: TestConfig, status: StepStatus) -> Word {
    Word {
        hi: ((status.current.eid as u128) * 0x1_0000_0000 + 1 * 0x1_0000 + (if c.is_i64 {
            1u128
        } else {
            0u128
        })) as u128,
        lo: (((status.current.sp + 1) as u128) * 0x1_0000_0000_0000_0000 + c.value) as u128,
    }
}

pub open spec fn spec_test_lookup_write(c: TestConfig, status: StepStatus) -> Word {
    Word {
        hi: ((status.current.eid as u128) * 0x1_0000_0000 + 2 * 0x1_0000) as u128,
        lo: (((status.current.sp + 1) as u128) * 0x1_0000_0000_0000_0000 + (if c.res {
            1u128
        } else {
            0u128
        })) as u128,
    }
}

/// How the stack pointer moves across one step.
pub open spec fn spec_sp_diff(info: StepInfo) -> int {
    match info {
        StepInfo::Call { .. } => 0,
        StepInfo::Drop => 1,
        StepInfo::Const { .. } => -1,
        StepInfo::Test { .. } => 0,
        StepInfo::Return => 0,
    }
}

/// The common transition identities between one entry and the next.
pub open spec fn spec_entry_pair_valid(a: EventTableEntry, b: EventTableEntry) -> bool {
    &&& b.eid == a.eid + 1
    &&& a.inst.mmid == a.inst.moid
    &&& b.sp == a.sp + spec_sp_diff(a.step_info)
    &&& match a.step_info {
        StepInfo::Call { index } => {
            &&& b.inst.fid == index
            &&& b.inst.iid == 0
            &&& b.last_jump_eid == a.eid
        },
        StepInfo::Return => true,
        _ => {
            &&& b.inst.fid == a.inst.fid
            &&& b.inst.iid == a.inst.iid + 1
            &&& b.last_jump_eid == a.last_jump_eid
        },
    }
}

/// One entry in isolation: its opcode encoding matches its step, and a
/// zero-test's result is the zero-test of its operand.
pub open spec fn spec_entry_valid(a: EventTableEntry) -> bool {
    &&& a.inst.opcode == spec_encode_step_opcode(a.step_info)
    &&& match a.step_info {
        StepInfo::Test { value, result, .. } => result == (if value == 0 {
            1u32
        } else {
            0u32
        }),
        _ => true,
    }
}

/// A whole table is valid when its entries are numbered from one, each is
/// valid in isolation, and each consecutive pair transitions correctly.
pub open spec fn spec_etable_valid(entries: Seq<EventTableEntry>) -> bool {
    &&& (entries.len() > 0 ==> entries[0].eid == 1)
    &&& forall|i: int| 0 <= i < entries.len() ==> spec_entry_valid(#[trigger] entries[i])
    &&& forall|i: int|
        0 <= i < entries.len() - 1 ==> spec_entry_pair_valid(
            #[trigger] entries[i],
            entries[i + 1],
        )
}

/// Checks the whole table against the common transition identities.
pub fn etable_check(table: &EventTable) -> (r: bool)
    ensures
        r == spec_etable_valid(table.entries@),
{
    let n: usize = table.entries.len();
    if n > 0 && table.entries[0].eid != 1 {
        return false;
    }
    let mut i: usize = 0;
    while i < n
        invariant
            i <= n,
            n == table.entries@.len(),
            n > 0 ==> table.entries@[0].eid == 1,
            forall|j: int| 0 <= j < i ==> spec_entry_valid(#[trigger] table.entries@[j]),
            forall|j: int|
                0 <= j < i && j + 1 < n ==> spec_entry_pair_valid(
                    #[trigger] table.entries@[j],
                    table.entries@[j + 1],
                ),
        decreases n - i,
    {
        let a = table.entries[i];
        let op_ok: bool = a.inst.opcode == encode_step_opcode(&a.step_info);
        let step_ok: bool = match a.step_info {
            StepInfo::Test { value, result, .. } => result == (if value == 0 {
                1u32
            } else {
                0u32
            }),
            _ => true,
        };
        if !op_ok || !step_ok {
            return false;
        }
        if i + 1 < n {
            let b = table.entries[i + 1];
            if a.eid >= u64::MAX || b.eid != a.eid + 1 || a.inst.mmid != a.inst.moid {
                return false;
            }
            let sp_ok: bool = match a.step_info {
                StepInfo::Drop => a.sp < u64::MAX && b.sp == a.sp + 1,
                StepInfo::Const { .. } => a.sp > 0 && b.sp == a.sp - 1,
                _ => b.sp == a.sp,
            };
            if !sp_ok {
                return false;
            }
            let jump_ok: bool = match a.step_info {
                StepInfo::Call { index } => b.inst.fid == index && b.inst.iid == 0
                    && b.last_jump_eid == a.eid,
                StepInfo::Return => true,
                _ => b.inst.fid == a.inst.fid && a.inst.iid < 0xffff && b.inst.iid == a.inst.iid
                    + 1 && b.last_jump_eid == a.last_jump_eid,
            };
            if !jump_ok {
                return false;
            }
        }
        i = i + 1;
    }
    true
}

/// Memory operations one step performs.
pub open spec fn spec_step_mops(info: StepInfo) -> int {
    match info {
        StepInfo::Test { .. } => 2,
        StepInfo::Const { .. } => 1,
        StepInfo::Drop => 0,
        StepInfo::Call { .. } => 0,
        StepInfo::Return => 0,
    }
}

/// Jump operations one step performs.
pub open spec fn spec_step_jops(info: StepInfo) -> int {
    match info {
        StepInfo::Call { .. } => 1,
        StepInfo::Return => 1,
        _ => 0,
    }
}

/// Total memory operations of a table.
pub open spec fn spec_total_mops(s: Seq<EventTableEntry>) -> int
    decreases s.len(),
{
    if s.len() == 0 {
        0
    } else {
        spec_total_mops(s.drop_last()) + spec_step_mops(s.last().step_info)
    }
}

/// Total jump operations of a table.
pub open spec fn spec_total_jops(s: Seq<EventTableEntry>) -> int
    decreases s.len(),
{
    if s.len() == 0 {
        0
    } else {
        spec_total_jops(s.drop_last()) + spec_step_jops(s.last().step_info)
    }
}

/// The totals are sums of non-negative step counts.
proof fn lemma_totals_nonneg(s: Seq<EventTableEntry>)
    ensures
        spec_total_mops(s) >= 0,
        spec_total_jops(s) >= 0,
    decreases s.len(),
{
    if s.len() > 0 {
        lemma_totals_nonneg(s.drop_last());
    }
}

/// The totals never decrease as a table grows.
proof fn lemma_totals_prefix(s: Seq<EventTableEntry>, i: int)
    requires
        0 <= i <= s.len(),
    ensures
        0 <= spec_total_mops(s.take(i)) <= spec_total_mops(s),
        0 <= spec_total_jops(s.take(i)) <= spec_total_jops(s),
    decreases s.len() - i,
{
    lemma_totals_nonneg(s.take(i));
    if i == s.len() {
        assert(s.take(i) =~= s);
    } else {
        lemma_totals_prefix(s.drop_last(), i);
        assert(s.drop_last().take(i) =~= s.take(i));
    }
}

/// The event-table configuration: the opcode classes in use, each placed
/// at its two selector levels.
pub struct EventTableConfig {
    pub op_bitmaps: Vec<(OpcodeClassPlain, usize, usize)>,
}

impl EventTableConfig {
    /// Places every named opcode class at its selector position.
    pub fn configure(opcode_set: &Vec<OpcodeClassPlain>) -> (r: EventTableConfig)
        requires
            forall|i: int|
                0 <= i < opcode_set@.len() ==> 1 <= (#[trigger] opcode_set@[i]).0 <= 100,
        ensures
            r.op_bitmaps@.len() == opcode_set@.len(),
            forall|i: int|
                0 <= i < opcode_set@.len() ==> #[trigger] r.op_bitmaps@[i] == (
                opcode_set@[i],
                ((opcode_set@[i].0 - 1) as int / 10) as usize,
                ((opcode_set@[i].0 - 1) as int % 10 + 10) as usize,
                ),
    {
        let mut op_bitmaps: Vec<(OpcodeClassPlain, usize, usize)> = Vec::new();
        let mut i: usize = 0;
        while i < opcode_set.len()
            invariant
                i <= opcode_set@.len(),
                op_bitmaps@.len() == i,
                forall|j: int|
                    0 <= j < opcode_set@.len() ==> 1 <= (#[trigger] opcode_set@[j]).0 <= 100,
                forall|j: int|
                    0 <= j < i ==> #[trigger] op_bitmaps@[j] == (
                    opcode_set@[j],
                    ((opcode_set@[j].0 - 1) as int / 10) as usize,
                    ((opcode_set@[j].0 - 1) as int % 10 + 10) as usize,
                    ),
            decreases opcode_set@.len() - i,
        {
            let c = opcode_set[i];
            let (l1, l2) = opclass_to_two_level(c);
            op_bitmaps.push((c, l1, l2));
            i = i + 1;
        }
        EventTableConfig { op_bitmaps }
    }
}

/// The event-table chip: the configuration plus the assignment pass.
pub struct EventTableChip {
    pub config: EventTableConfig,
}

impl EventTableChip {
    pub fn new(config: EventTableConfig) -> (r: EventTableChip)
        ensures
            r.config.op_bitmaps@ == config.op_bitmaps@,
    {
        EventTableChip { config }
    }

    /// Assigns the table: checks it against the transition identities and
    /// returns the total memory and jump operation counts its rows consume.
    /// A valid table whose totals fit the counter width is always accepted.
    #[verifier::loop_isolation(false)]
    pub fn assign(&self, etable: &EventTable) -> (r: Result<(u64, u64), Error>)
        ensures
            !spec_etable_valid(etable.entries@) ==> r == Err::<(u64, u64), Error>(
                Error::InvalidGethExecStep,
            ),
            spec_etable_valid(etable.entries@) && spec_total_mops(etable.entries@) <= u64::MAX
                && spec_total_jops(etable.entries@) <= u64::MAX ==> r == Ok::<(u64, u64), Error>(
                (
                    spec_total_mops(etable.entries@) as u64,
                    spec_total_jops(etable.entries@) as u64,
                ),
            ),
            spec_etable_valid(etable.entries@) && (spec_total_mops(etable.entries@) > u64::MAX
                || spec_total_jops(etable.entries@) > u64::MAX) ==> r == Err::<(u64, u64), Error>(
                Error::AssignmentFieldOverflow,
            ),
            r matches Ok(counts) ==> spec_etable_valid(etable.entries@) && counts.0
                == spec_total_mops(etable.entries@) && counts.1 == spec_total_jops(
                etable.entries@,
            ),
    {
        if !etable_check(etable) {
            return Err(Error::InvalidGethExecStep);
        }
        let mut rest_mops: u64 = 0;
        let mut rest_jops: u64 = 0;
        let n: usize = etable.entries.len();
        let mut i: usize = 0;
        while i < n
            invariant
                i <= n,
                n == etable.entries@.len(),
                rest_mops == spec_total_mops(etable.entries@.take(i as int)),
                rest_jops == spec_total_jops(etable.entries@.take(i as int)),
            decreases n - i,
        {
            let mops: u64 = match etable.entries[i].step_info {
                StepInfo::Test { .. } => 2,
                StepInfo::Const { .. } => 1,
                StepInfo::Drop => 0,
                StepInfo::Call { .. } => 0,
                StepInfo::Return => 0,
            };
            let jops: u64 = match etable.entries[i].step_info {
                StepInfo::Call { .. } => 1,
                StepInfo::Return => 1,
                _ => 0,
            };
            proof {
                assert(etable.entries@.take(i + 1).drop_last() =~= etable.entries@.take(i as int));
                assert(etable.entries@.take(i + 1).last() == etable.entries@[i as int]);
                lemma_totals_prefix(etable.entries@, i + 1);
            }
            if mops > u64::MAX - rest_mops {
                return Err(Error::AssignmentFieldOverflow);
            }
            rest_mops = rest_mops + mops;
            if jops > u64::MAX - rest_jops {
                return Err(Error::AssignmentFieldOverflow);
            }
            rest_jops = rest_jops + jops;
            i = i + 1;
        }
        proof {
            assert(etable.entries@.take(n as int) =~= etable.entries@);
        }
        Ok((rest_mops, rest_jops))
    }
}

/// One token of the textual module notation.
enum WatToken {
    Open,
    Close,
    Atom(Vec<u8>),
}

/// One instruction of the restricted instruction set, with the call target
/// still unresolved.
enum RawInst {
    ConstVal(VarType, u64),
    CallRaw(Vec<u8>),
    DropVal,
    Eqz(VarType),
}

/// One executable instruction.
enum WatInst {
    ConstVal(VarType, u64),
    CallFn(u16),
    DropVal,
    Eqz(VarType),
}

/// One parsed function body.
struct WatFunc {
    insts: Vec<WatInst>,
}

fn byte_is_space(b: u8) -> (r: bool) {
    b == 32 || b == 9 || b == 10 || b == 13
}

fn tokenize(bytes: &[u8]) -> (r: Vec<WatToken>) {
    let mut toks: Vec<WatToken> = Vec::new();
    let n: usize = bytes.len();
    let mut i: usize = 0;
    while i < n
        invariant
            i <= n,
            n == bytes@.len(),
        decreases n - i,
    {
        let b = bytes[i];
        if b == 40 {
            toks.push(WatToken::Open);
            i = i + 1;
        } else if b == 41 {
            toks.push(WatToken::Close);
            i = i + 1;
        } else if byte_is_space(b) {
            i = i + 1;
        } else {
            let mut atom: Vec<u8> = Vec::new();
            atom.push(b);
            i = i + 1;
            let ghost i0 = i;
            while i < n && bytes[i] != 40 && bytes[i] != 41 && !byte_is_space(bytes[i])
                invariant
                    i0 <= i <= n,
                    n == bytes@.len(),
                decreases n - i,
            {
                atom.push(bytes[i]);
                i = i + 1;
            }
            toks.push(WatToken::Atom(atom));
        }
    }
    toks
}

fn bytes_eq(a: &Vec<u8>, b: &[u8]) -> (r: bool)
    ensures
        r == (a@ == b@),
{
    if a.len() != b.len() {
        return false;
    }
    let n: usize = a.len();
    let mut i: usize = 0;
    while i < n
        invariant
            i <= n,
            n == a@.len(),
            n == b@.len(),
            forall|j: int| 0 <= j < i ==> a@[j] == b@[j],
        decreases n - i,
    {
        if a[i] != b[i] {
            return false;
        }
        i = i + 1;
    }
    proof {
        assert(a@ =~= b@);
    }
    true
}

fn parse_number(atom: &Vec<u8>) -> (r: Option<u64>) {
    let n: usize = atom.len();
    if n == 0 {
        return None;
    }
    let mut v: u64 = 0;
    let mut i: usize = 0;
    while i < n
        invariant
            i <= n,
            n == atom@.len(),
        decreases n - i,
    {
        let b = atom[i];
        if b < 48 || b > 57 {
            return None;
        }
        let d: u64 = (b - 48) as u64;
        if v > (u64::MAX - d) / 10 {
            return None;
        }
        v = v * 10 + d;
        i = i + 1;
    }
    Some(v)
}

/// Parses the restricted textual notation: a module of functions over
/// constants, calls, drops and zero-tests, one of them exported as the
/// test entry.
#[verifier::loop_isolation(false)]
fn parse_wat_module(bytes: &[u8]) -> (r: Result<(Vec<WatFunc>, usize), ()>) {
    let toks = tokenize(bytes);
    let n: usize = toks.len();

    let mut labels: Vec<Vec<u8>> = Vec::new();
    let mut raw_funcs: Vec<Vec<RawInst>> = Vec::new();
    let mut test_idx: usize = 0;
    let mut found_test: bool = false;
    let mut in_func: bool = false;
    let mut func_depth: usize = 0;
    let mut depth: usize = 0;

    let mut i: usize = 0;
    while i < n
        invariant
            i <= n,
            n == toks@.len(),
            labels@.len() == raw_funcs@.len(),
            found_test ==> test_idx < raw_funcs@.len(),
        decreases n - i,
    {
        match &toks[i] {
            WatToken::Open => {
                if depth < usize::MAX {
                    depth = depth + 1;
                }
                if !in_func && i + 1 < n {
                    let is_func = match &toks[i + 1] {
                        WatToken::Atom(a) => bytes_eq(a, "func".as_bytes()),
                        _ => false,
                    };
                    if is_func {
                        in_func = true;
                        func_depth = depth;
                        let label: Vec<u8> = if i + 2 < n {
                            match &toks[i + 2] {
                                WatToken::Atom(a) => {
                                    if a.len() > 0 && a[0] == 36 {
                                        crate::types::clone_bytes(a)
                                    } else {
                                        Vec::new()
                                    }
                                },
                                _ => Vec::new(),
                            }
                        } else {
                            Vec::new()
                        };
                        labels.push(label);
                        raw_funcs.push(Vec::new());
                        i = i + 1;
                    }
                }
                i = i + 1;
            },
            WatToken::Close => {
                if in_func && depth == func_depth {
                    in_func = false;
                }
                if depth > 0 {
                    depth = depth - 1;
                }
                i = i + 1;
            },
            WatToken::Atom(a) => {
                if in_func && raw_funcs.len() > 0 {
                    let fi: usize = raw_funcs.len() - 1;
                    if bytes_eq(a, "export".as_bytes()) {
                        if i + 1 < n {
                            let is_test = match &toks[i + 1] {
                                WatToken::Atom(b) => bytes_eq(b, "\"test\"".as_bytes()),
                                _ => false,
                            };
                            if is_test {
                                test_idx = fi;
                                found_test = true;
                            }
                        }
                    } else if bytes_eq(a, "i32.const".as_bytes()) || bytes_eq(
                        a,
                        "i64.const".as_bytes(),
                    ) {
                        let vt = if bytes_eq(a, "i32.const".as_bytes()) {
                            VarType::I32
                        } else {
                            VarType::I64
                        };
                        if i + 1 < n {
                            let num = match &toks[i + 1] {
                                WatToken::Atom(b) => parse_number(b),
                                _ => None,
                            };
                            match num {
                                Some(v) => {
                                    let mut f = match raw_funcs.pop() {
                                        Some(f) => f,
                                        None => {
                                            return Err(());
                                        },
                                    };
                                    f.push(RawInst::ConstVal(vt, v));
                                    raw_funcs.push(f);
                                    i = i + 1;
                                },
                                None => {
                                    return Err(());
                                },
                            }
                        } else {
                            return Err(());
                        }
                    } else if bytes_eq(a, "call".as_bytes()) {
                        if i + 1 < n {
                            let target: Option<Vec<u8>> = match &toks[i + 1] {
                                WatToken::Atom(b) => Some(crate::types::clone_bytes(b)),
                                _ => None,
                            };
                            match target {
                                Some(t) => {
                                    let mut f = match raw_funcs.pop() {
                                        Some(f) => f,
                                        None => {
                                            return Err(());
                                        },
                                    };
                                    f.push(RawInst::CallRaw(t));
                                    raw_funcs.push(f);
                                    i = i + 1;
                                },
                                None => {
                                    return Err(());
                                },
                            }
                        } else {
                            return Err(());
                        }
                    } else if bytes_eq(a, "drop".as_bytes()) {
                        let mut f = match raw_funcs.pop() {
                            Some(f) => f,
                            None => {
                                return Err(());
                            },
                        };
                        f.push(RawInst::DropVal);
                        raw_funcs.push(f);
                    } else if bytes_eq(a, "i32.eqz".as_bytes()) {
                        let mut f = match raw_funcs.pop() {
                            Some(f) => f,
                            None => {
                                return Err(());
                            },
                        };
                        f.push(RawInst::Eqz(VarType::I32));
                        raw_funcs.push(f);
                    } else if bytes_eq(a, "i64.eqz".as_bytes()) {
                        let mut f = match raw_funcs.pop() {
                            Some(f) => f,
                            None => {
                                return Err(());
                            },
                        };
                        f.push(RawInst::Eqz(VarType::I64));
                        raw_funcs.push(f);
                    }
                }
                i = i + 1;
            },
        }
    }
    if !found_test {
        return Err(());
    }

    let mut funcs: Vec<WatFunc> = Vec::new();
    let mut fi: usize = 0;
    while fi < raw_funcs.len()
        invariant
            fi <= raw_funcs@.len(),
            labels@.len() == raw_funcs@.len(),
        decreases raw_funcs@.len() - fi,
    {
        let raw = &raw_funcs[fi];
        let mut insts: Vec<WatInst> = Vec::new();
        let mut k: usize = 0;
        while k < raw.len()
            invariant
                k <= raw@.len(),
                labels@.len() == raw_funcs@.len(),
            decreases raw@.len() - k,
        {
            match &raw[k] {
                RawInst::ConstVal(vt, v) => {
                    insts.push(WatInst::ConstVal(*vt, *v));
                },
                RawInst::DropVal => {
                    insts.push(WatInst::DropVal);
                },
                RawInst::Eqz(vt) => {
                    insts.push(WatInst::Eqz(*vt));
                },
                RawInst::CallRaw(t) => {
                    let mut resolved: Option<usize> = None;
                    if t.len() > 0 && t[0] == 36 {
                        let mut li: usize = 0;
                        while li < labels.len()
                            invariant
                                li <= labels@.len(),
                            decreases labels@.len() - li,
                        {
                            if bytes_eq(&labels[li], t.as_slice()) {
                                resolved = Some(li);
                            }
                            li = li + 1;
                        }
                    } else {
                        match parse_number(t) {
                            Some(v) => {
                                if v < raw_funcs.len() as u64 && v <= u16::MAX as u64 {
                                    resolved = Some(v as usize);
                                }
                            },
                            None => {},
                        }
                    }
                    match resolved {
                        Some(idx) => {
                            if idx > u16::MAX as usize {
                                return Err(());
                            }
                            insts.push(WatInst::CallFn(idx as u16));
                        },
                        None => {
                            return Err(());
                        },
                    }
                },
            }
            k = k + 1;
        }
        funcs.push(WatFunc { insts });
        fi = fi + 1;
    }
    Ok((funcs, test_idx))
}

/// Executes the test entry of a parsed module and records the event table.
#[verifier::loop_isolation(false)]
fn run_wat_module(funcs: &Vec<WatFunc>, start: usize) -> (r: Result<EventTable, ()>) {
    if start >= funcs.len() {
        return Err(());
    }
    let mut entries: Vec<EventTableEntry> = Vec::new();
    let mut frames: Vec<(usize, usize, u64)> = Vec::new();
    let mut stack: Vec<(VarType, u64)> = Vec::new();
    let mut eid: u64 = 1;
    let mut sp: u64 = ETABLE_STACK_START;
    let mut last_jump: u64 = 0;
    frames.push((start, 0, 0));
    let mut fuel: u64 = 100000;
    while fuel > 0
        invariant
            forall|i: int| 0 <= i < frames@.len() ==> (#[trigger] frames@[i]).0 < funcs@.len(),
        decreases fuel,
    {
        fuel = fuel - 1;
        if frames.len() == 0 {
            break ;
        }
        let (fid, pc, saved_jump) = frames[frames.len() - 1];
        if eid >= u64::MAX - 1 || pc > u16::MAX as usize || fid > u16::MAX as usize {
            return Err(());
        }
        let body = &funcs[fid].insts;
        if pc >= body.len() {
            entries.push(
                EventTableEntry {
                    eid,
                    sp,
                    last_jump_eid: last_jump,
                    inst: InstructionTableEntry {
                        moid: 0,
                        mmid: 0,
                        fid: fid as u16,
                        iid: pc as u16,
                        opcode: encode_step_opcode(&StepInfo::Return),
                    },
                    step_info: StepInfo::Return,
                },
            );
            eid = eid + 1;
            let _ = frames.pop();
            last_jump = saved_jump;
            continue ;
        }
        match &body[pc] {
            WatInst::ConstVal(vt, v) => {
                if sp == 0 {
                    return Err(());
                }
                entries.push(
                    EventTableEntry {
                        eid,
                        sp,
                        last_jump_eid: last_jump,
                        inst: InstructionTableEntry {
                            moid: 0,
                            mmid: 0,
                            fid: fid as u16,
                            iid: pc as u16,
                            opcode: encode_step_opcode(&StepInfo::Const { vtype: *vt, value: *v }),
                        },
                        step_info: StepInfo::Const { vtype: *vt, value: *v },
                    },
                );
                eid = eid + 1;
                stack.push((*vt, *v));
                sp = sp - 1;
                let top: usize = frames.len() - 1;
                frames[top] = (fid, pc + 1, saved_jump);
            },
            WatInst::DropVal => {
                if stack.len() == 0 || sp >= u64::MAX {
                    return Err(());
                }
                let _ = stack.pop();
                entries.push(
                    EventTableEntry {
                        eid,
                        sp,
                        last_jump_eid: last_jump,
                        inst: InstructionTableEntry {
                            moid: 0,
                            mmid: 0,
                            fid: fid as u16,
                            iid: pc as u16,
                            opcode: encode_step_opcode(&StepInfo::Drop),
                        },
                        step_info: StepInfo::Drop,
                    },
                );
                eid = eid + 1;
                sp = sp + 1;
                let top: usize = frames.len() - 1;
                frames[top] = (fid, pc + 1, saved_jump);
            },
            WatInst::Eqz(vt) => {
                if stack.len() == 0 {
                    return Err(());
                }
                let v: u64 = match stack.pop() {
                    Some((_, v)) => v,
                    None => {
                        return Err(());
                    },
                };
                let result: u32 = if v == 0 {
                    1
                } else {
                    0
                };
                entries.push(
                    EventTableEntry {
                        eid,
                        sp,
                        last_jump_eid: last_jump,
                        inst: InstructionTableEntry {
                            moid: 0,
                            mmid: 0,
                            fid: fid as u16,
                            iid: pc as u16,
                            opcode: encode_step_opcode(
                                &StepInfo::Test { vtype: *vt, value: v, result },
                            ),
                        },
                        step_info: StepInfo::Test { vtype: *vt, value: v, result },
                    },
                );
                eid = eid + 1;
                stack.push((VarType::I32, result as u64));
                let top: usize = frames.len() - 1;
                frames[top] = (fid, pc + 1, saved_jump);
            },
            WatInst::CallFn(idx) => {
                let callee: usize = *idx as usize;
                if callee >= funcs.len() || frames.len() >= 1000 {
                    return Err(());
                }
                entries.push(
                    EventTableEntry {
                        eid,
                        sp,
                        last_jump_eid: last_jump,
                        inst: InstructionTableEntry {
                            moid: 0,
                            mmid: 0,
                            fid: fid as u16,
                            iid: pc as u16,
                            opcode: encode_step_opcode(&StepInfo::Call { index: *idx }),
                        },
                        step_info: StepInfo::Call { index: *idx },
                    },
                );
                let top: usize = frames.len() - 1;
                frames[top] = (fid, pc + 1, saved_jump);
                frames.push((callee, 0, last_jump));
                last_jump = eid;
                eid = eid + 1;
            },
        }
    }
    if frames.len() > 0 {
        return Err(());
    }
    Ok(EventTable { entries })
}

/// Parses, executes and checks a textual module with no external calls:
/// the produced event table must satisfy the event-table identities.
pub fn test_circuit_noexternal(textual_repr: &str) -> (r: Result<(), ()>) {
    let bytes = textual_repr.as_bytes();
    let (funcs, test_idx) = match parse_wat_module(bytes) {
        Ok(p) => p,
        Err(_) => {
            return Err(());
        },
    };
    let table = match run_wat_module(&funcs, test_idx) {
        Ok(t) => t,
        Err(_) => {
            return Err(());
        },
    };
    let mut classes: Vec<OpcodeClassPlain> = Vec::new();
    classes.push(OpcodeClassPlain(1));
    classes.push(OpcodeClassPlain(5));
    classes.push(OpcodeClassPlain(7));
    classes.push(OpcodeClassPlain(8));
    classes.push(OpcodeClassPlain(25));
    let config = EventTableConfig::configure(&classes);
    let chip = EventTableChip::new(config);
    match chip.assign(&table) {
        Ok(_) => Ok(()),
        Err(_) => Err(()),
    }
}

} // verus!