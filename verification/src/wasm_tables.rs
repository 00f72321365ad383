//! The module-level witness tables and the small reusable table gadgets:
//! fixed ranges, limb decompositions, the dynamic-index tags, and the
//! bundle of tables one compiled-and-executed module produces.

use vstd::prelude::*;

use crate::etable::{EventTable, InstructionTableEntry};

verus! {

/// What a dynamic-index row assignment writes.
#[derive(Clone, Copy, Debug, PartialEq, Eq, Structural)]
pub enum AssignType {
    Index,
    IsTerminator,
    Tag,
}

/// The sections a dynamic index can belong to.
#[derive(Clone, Copy, Debug, PartialEq, Eq, Structural)]
pub enum Tag {
    CodeSectionFuncIndex,
    TypeSectionTypeIndex,
    TableSectionTableIndex,
    MemorySectionMemIndex,
    GlobalSectionGlobalIndex,
}

impl Tag {
    /// The tag as the number its column rows hold.
    pub fn expr(&self) -> (r: u64)
        ensures
            r == self.spec_value(),
    {
        match self {
            Tag::CodeSectionFuncIndex => 0,
            Tag::TypeSectionTypeIndex => 1,
            Tag::TableSectionTableIndex => 2,
            Tag::MemorySectionMemIndex => 3,
            Tag::GlobalSectionGlobalIndex => 4,
        }
    }

    pub open spec fn spec_value(self) -> u64 {
        match self {
            Tag::CodeSectionFuncIndex => 0,
            Tag::TypeSectionTypeIndex => 1,
            Tag::TableSectionTableIndex => 2,
            Tag::MemorySectionMemIndex => 3,
            Tag::GlobalSectionGlobalIndex => 4,
        }
    }
}

/// All tags, in numbering order.
pub fn tag_values() -> (r: Vec<Tag>)
    ensures
        r@ == seq![
            Tag::CodeSectionFuncIndex,
            Tag::TypeSectionTypeIndex,
            Tag::TableSectionTableIndex,
            Tag::MemorySectionMemIndex,
            Tag::GlobalSectionGlobalIndex,
        ],
{
    let mut v: Vec<Tag> = Vec::new();
    v.push(Tag::CodeSectionFuncIndex);
    v.push(Tag::TypeSectionTypeIndex);
    v.push(Tag::TableSectionTableIndex);
    v.push(Tag::MemorySectionMemIndex);
    v.push(Tag::GlobalSectionGlobalIndex);
    proof {
        assert(v@ =~= seq![
            Tag::CodeSectionFuncIndex,
            Tag::TypeSectionTypeIndex,
            Tag::TableSectionTableIndex,
            Tag::MemorySectionMemIndex,
            Tag::GlobalSectionGlobalIndex,
        ]);
    }
    v
}

/// Where an initial memory entry lives.
#[derive(Clone, Copy, Debug, PartialEq, Eq, Structural)]
pub enum LocationType {
    Heap,
    Global,
}

impl LocationType {
    pub fn as_u64(&self) -> (r: u64)
        ensures
            r == self.spec_as_u64(),
    {
        match self {
            LocationType::Heap => 0,
            LocationType::Global => 1,
        }
    }

    pub open spec fn spec_as_u64(self) -> u64 {
        match self {
            LocationType::Heap => 0,
            LocationType::Global => 1,
        }
    }
}

/// One initial-memory-table entry.
#[derive(Clone, Copy, Debug, PartialEq, Eq, Structural)]
pub struct InitMemoryTableEntry {
    pub ltype: LocationType,
    pub is_mutable: bool,
    pub mmid: u16,
    pub offset: u16,
    pub value: u64,
}

impl InitMemoryTableEntry {
    /// Packs the entry into one number: location type, mutability flag,
    /// module memory id and offset in sixteen bits each above the value's
    /// sixty-four.
    pub fn encode(&self) -> (r: u128)
        ensures
            r == ((self.ltype.spec_as_u64() * 0x1_0000 + (if self.is_mutable {
                1u64
            } else {
                0u64
            })) * 0x1_0000 + self.mmid as u64) as u128 * 0x1_0000_0000_0000_0000_0000 + (self.offset
                as u128) * 0x1_0000_0000_0000_0000 + self.value as u128,
    {
        let packed: u64 = (self.ltype.as_u64() * 0x1_0000 + (if self.is_mutable {
            1u64
        } else {
            0u64
        })) * 0x1_0000 + self.mmid as u64;
        (packed as u128) * 0x1_0000_0000_0000_0000_0000 + (self.offset as u128)
            * 0x1_0000_0000_0000_0000 + self.value as u128
    }
}

/// The instruction table of one compiled module.
#[derive(Clone, Debug, PartialEq, Eq)]
pub struct InstructionTable {
    pub entries: Vec<InstructionTableEntry>,
}

impl InstructionTable {
    pub fn entries(&self) -> (r: &Vec<InstructionTableEntry>)
        ensures
            r@ == self.entries@,
    {
        &self.entries
    }
}

/// The initial memory table of one compiled module.
#[derive(Clone, Debug, PartialEq, Eq)]
pub struct InitMemoryTable {
    pub entries: Vec<InitMemoryTableEntry>,
}

/// The element table of one compiled module.
#[derive(Clone, Debug, PartialEq, Eq)]
pub struct ElemTable {
    pub entries: Vec<u64>,
}

/// The module's static configuration limits.
#[derive(Clone, Copy, Debug, PartialEq, Eq, Structural)]
pub struct ConfigureTable {
    pub initial_memory_pages: u16,
    pub max_memory_pages: u16,
}

/// The memory-access table of one run.
#[derive(Clone, Debug, PartialEq, Eq)]
pub struct MTable {
    pub entries: Vec<u64>,
}

/// The jump table of one run.
#[derive(Clone, Debug, PartialEq, Eq)]
pub struct JumpTable {
    pub entries: Vec<u64>,
}

/// Everything compilation derives from a module.
#[derive(Clone, Debug, PartialEq, Eq)]
pub struct CompilationTable {
    pub itable: InstructionTable,
    pub imtable: InitMemoryTable,
    pub elem_table: ElemTable,
    pub configure_table: ConfigureTable,
}

/// Everything one execution produces.
#[derive(Clone, Debug, PartialEq, Eq)]
pub struct ExecutionTable {
    pub etable: EventTable,
    pub mtable: MTable,
    pub jtable: JumpTable,
}

/// The full table bundle handed to the proving pipeline. Serialising the
/// bundle to files lives outside the verified core.
#[derive(Clone, Debug, PartialEq, Eq)]
pub struct Tables {
    pub compilation_tables: CompilationTable,
    pub execution_tables: ExecutionTable,
}

/// A fixed contiguous range table.
#[derive(Clone, Copy, Debug, PartialEq, Eq, Structural)]
pub struct RangeTableConfig {
    pub range_start: u64,
    pub range_finish: u64,
}

impl RangeTableConfig {
    /// Declares a range table; the range must be non-empty.
    pub fn configure(range_start: u64, range_finish: u64) -> (r: RangeTableConfig)
        requires
            range_start < range_finish,
        ensures
            r.range_start == range_start,
            r.range_finish == range_finish,
    {
        RangeTableConfig { range_start, range_finish }
    }

    /// The rows of the table: every value of the range, in order.
    pub fn load(&self) -> (r: Vec<u64>)
        requires
            self.range_start < self.range_finish,
            self.range_finish - self.range_start <= 0x1_0000_0000,
        ensures
            r@.len() == self.range_finish - self.range_start,
            forall|i: int| 0 <= i < r@.len() ==> #[trigger] r@[i] == self.range_start + i,
    {
        let mut rows: Vec<u64> = Vec::new();
        let mut v: u64 = self.range_start;
        while v < self.range_finish
            invariant
                self.range_start <= v <= self.range_finish,
                rows@.len() == v - self.range_start,
                forall|i: int| 0 <= i < rows@.len() ==> #[trigger] rows@[i] == self.range_start + i,
            decreases self.range_finish - v,
        {
            rows.push(v);
            v = v + 1;
        }
        rows
    }
}

/// The row cursor an assignment pass walks with, with a stack of saved
/// positions.
#[derive(Clone, Debug, PartialEq, Eq)]
pub struct Context {
    pub offset: usize,
    pub records: Vec<usize>,
}

impl Context {
    pub fn new() -> (r: Context)
        ensures
            r.offset == 0,
            r.records@.len() == 0,
    {
        Context { offset: 0, records: Vec::new() }
    }

    /// Moves to the next row.
    pub fn next(&mut self)
        requires
            old(self).offset < usize::MAX,
        ensures
            final(self).offset == old(self).offset + 1,
            final(self).records@ == old(self).records@,
    {
        self.offset = self.offset + 1;
    }

    /// Moves back to the first row and forgets saved positions.
    pub fn reset(&mut self)
        ensures
            final(self).offset == 0,
            final(self).records@.len() == 0,
    {
        self.offset = 0;
        self.records.clear();
    }

    /// Saves the current position.
    pub fn push(&mut self)
        ensures
            final(self).records@ == old(self).records@.push(old(self).offset),
            final(self).offset == old(self).offset,
    {
        let off = self.offset;
        self.records.push(off);
    }

    /// Returns to the most recently saved position.
    pub fn pop(&mut self)
        requires
            old(self).records@.len() > 0,
        ensures
            final(self).offset == old(self).records@.last(),
            final(self).records@ == old(self).records@.drop_last(),
    {
        let off = match self.records.pop() {
            Some(o) => o,
            None => {
                proof {
                    assert(false);
                }
                0
            },
        };
        self.offset = off;
    }
}

/// Sixteen to the given power.
pub open spec fn pow16(n: nat) -> int
    decreases n,
{
    if n == 0 {
        1
    } else {
        16 * pow16((n - 1) as nat)
    }
}

/// The little-endian four-bit limb decomposition behind the bit-value
/// range gadget.
#[derive(Clone, Copy, Debug, PartialEq, Eq, Structural)]
pub struct BitValueConfig {}

impl BitValueConfig {
    pub fn configure() -> (r: BitValueConfig) {
        BitValueConfig {  }
    }

    /// The sixteen four-bit limbs of a value, least significant first.
    pub fn assign(&self, value: u64) -> (r: Vec<u64>)
        ensures
            r@.len() == 16,
            forall|i: int| 0 <= i < 16 ==> 0 <= #[trigger] r@[i] < 16,
            forall|i: int| 0 <= i < 16 ==> #[trigger] r@[i] == (value as int / pow16(i as nat)) % 16,
    {
        let mut limbs: Vec<u64> = Vec::new();
        let mut v: u64 = value;
        let mut i: usize = 0;
        while i < 16
            invariant
                i <= 16,
                limbs@.len() == i,
                v == value as int / pow16(i as nat),
                forall|j: int| 0 <= j < i ==> 0 <= #[trigger] limbs@[j] < 16,
                forall|j: int|
                    0 <= j < i ==> #[trigger] limbs@[j] == (value as int / pow16(j as nat)) % 16,
            decreases 16 - i,
        {
            limbs.push(v % 16);
            proof {
                assert(pow16((i + 1) as nat) == 16 * pow16(i as nat));
                lemma_pow16_pos(i as nat);
                vstd::arithmetic::div_mod::lemma_div_denominator(
                    value as int,
                    pow16(i as nat),
                    16,
                );
            }
            v = v / 16;
            i = i + 1;
        }
        limbs
    }
}

pub proof fn lemma_pow16_pos(n: nat)
    ensures
        pow16(n) > 0,
    decreases n,
{
    if n > 0 {
        lemma_pow16_pos((n - 1) as nat);
    }
}

/// The two sixteen-bit limbs behind the thirty-two-bit range gadget.
#[derive(Clone, Copy, Debug, PartialEq, Eq, Structural)]
pub struct U32Config {}

impl U32Config {
    pub fn configure() -> (r: U32Config) {
        U32Config {  }
    }

    /// The low and high sixteen-bit limbs of the value's low thirty-two
    /// bits.
    pub fn assign(&self, value: u64) -> (r: (u64, u64))
        ensures
            r.0 == value as int % 0x1_0000,
            r.1 == (value as int / 0x1_0000) % 0x1_0000,
            r.0 + r.1 * 0x1_0000 == value as int % 0x1_0000_0000,
    {
        let lo = value % 0x1_0000;
        let hi = (value / 0x1_0000) % 0x1_0000;
        proof {
            vstd::arithmetic::div_mod::lemma_div_denominator(value as int, 0x1_0000, 0x1_0000);
            vstd::arithmetic::div_mod::lemma_breakdown(value as int, 0x1_0000, 0x1_0000);
        }
        (lo, hi)
    }
}

} // verus!
