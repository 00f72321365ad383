//! Raw module bytecode and its table rows.

use vstd::prelude::*;

verus! {

/// A module's raw bytes.
#[derive(Clone, Debug, PartialEq, Eq)]
pub struct WasmBytecode {
    /// Raw bytes.
    pub bytes: Vec<u8>,
}

impl WasmBytecode {
    /// Construct from bytecode bytes.
    pub fn new(bytes: Vec<u8>) -> (r: WasmBytecode)
        ensures
            r.bytes@ == bytes@,
    {
        WasmBytecode { bytes }
    }

    /// Assignments for the bytecode table: one row per byte, holding the
    /// byte's index and its value.
    pub fn table_assignments(&self) -> (r: Vec<[u64; 2]>)
        requires
            self.bytes@.len() <= u64::MAX,
        ensures
            r@.len() == self.bytes@.len(),
            forall|i: int|
                0 <= i < r@.len() ==> #[trigger] r@[i]@ == seq![i as u64, self.bytes@[i] as u64],
    {
        let mut rows: Vec<[u64; 2]> = Vec::new();
        let n: usize = self.bytes.len();
        let mut idx: usize = 0;
        while idx < n
            invariant
                idx <= n,
                n == self.bytes@.len(),
                n <= u64::MAX,
                rows@.len() == idx,
                forall|i: int|
                    0 <= i < idx ==> #[trigger] rows@[i]@ == seq![
                        i as u64,
                        self.bytes@[i] as u64,
                    ],
            decreases n - idx,
        {
            let row: [u64; 2] = [idx as u64, self.bytes[idx] as u64];
            proof {
                assert(row@ =~= seq![idx as u64, self.bytes@[idx as int] as u64]);
            }
            rows.push(row);
            idx = idx + 1;
        }
        rows
    }

    /// Get byte value.
    pub fn get(&self, idx: usize) -> (r: u8)
        requires
            idx < self.bytes@.len(),
        ensures
            r == self.bytes@[idx as int],
    {
        self.bytes[idx]
    }
}

} // verus!
