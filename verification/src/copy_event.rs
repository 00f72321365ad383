//! Copy events: one structured record per bulk byte-range copy, together
//! with the bytecode model whose bytes carry an `is_code` flag.

use vstd::prelude::*;

use crate::types::Word;

verus! {

/// The addressable spaces a copy can read from or write to.
#[derive(Clone, Copy, Debug, PartialEq, Eq, Structural)]
pub enum CopyDataType {
    Bytecode,
    Memory,
    TxCalldata,
    TxLog,
    RlcAcc,
}

/// Identifier of a copy endpoint: a call id, or a bytecode hash.
#[derive(Clone, Debug, PartialEq, Eq)]
pub enum NumberOrHash {
    Number(usize),
    Hash(Word),
}

/// One byte of bytecode, flagged as executable opcode or immediate data.
#[derive(Clone, Copy, Debug, PartialEq, Eq, Structural)]
pub struct BytecodeElement {
    pub value: u8,
    pub is_code: bool,
}

/// A byte stream whose bytes are classified as code or data.
#[derive(Clone, Debug, PartialEq, Eq)]
pub struct Bytecode {
    pub code: Vec<BytecodeElement>,
}

impl Bytecode {
    /// The empty bytecode.
    pub fn new_empty() -> (r: Bytecode)
        ensures
            r.code@.len() == 0,
    {
        Bytecode { code: Vec::new() }
    }

    /// Wraps raw bytes without decoding them: every byte counts as code.
    pub fn from_raw_unchecked(bytes: Vec<u8>) -> (r: Bytecode)
        ensures
            r.code@.len() == bytes@.len(),
            forall|i: int|
                0 <= i < bytes@.len() ==> #[trigger] r.code@[i] == (BytecodeElement {
                    value: bytes@[i],
                    is_code: true,
                }),
    {
        let mut code: Vec<BytecodeElement> = Vec::new();
        let mut i: usize = 0;
        while i < bytes.len()
            invariant
                i <= bytes@.len(),
                code@.len() == i,
                forall|j: int|
                    0 <= j < i ==> #[trigger] code@[j] == (BytecodeElement {
                        value: bytes@[j],
                        is_code: true,
                    }),
            decreases bytes@.len() - i,
        {
            code.push(BytecodeElement { value: bytes[i], is_code: true });
            i = i + 1;
        }
        Bytecode { code }
    }

    /// The element at `idx`, if the bytecode is long enough.
    pub fn get(&self, idx: usize) -> (r: Option<BytecodeElement>)
        ensures
            idx < self.code@.len() ==> r == Some(self.code@[idx as int]),
            idx >= self.code@.len() ==> r is None,
    {
        if idx < self.code.len() {
            Some(self.code[idx])
        } else {
            None
        }
    }

    pub fn len(&self) -> (r: usize)
        ensures
            r == self.code@.len(),
    {
        self.code.len()
    }
}

/// A single bulk byte-range copy between two addressable spaces.
///
/// `bytes` always holds exactly the declared number of bytes; source reads
/// past `src_addr_end` contribute the padding byte `(0, false)`.
#[derive(Clone, Debug, PartialEq, Eq)]
pub struct CopyEvent {
    pub src_addr: u64,
    pub src_addr_end: u64,
    pub src_type: CopyDataType,
    pub src_id: NumberOrHash,
    pub dst_addr: u64,
    pub dst_type: CopyDataType,
    pub dst_id: NumberOrHash,
    pub log_id: Option<u64>,
    /// RWC at which the memory operations of this copy began.
    pub rw_counter_start: u64,
    pub bytes: Vec<(u8, bool)>,
}

} // verus!
