//! Plain-value model of the machine's data: 256-bit words, 20-byte account
//! addresses, and the conversions between byte strings and integers that the
//! rest of the crate states its contracts over.

use vstd::prelude::*;

verus! {

/// Number of bytes in an account address.
pub const N_BYTES_ADDRESS: usize = 20;

/// Memory offsets must fit the 32-bit addressable range; a stack value at or
/// above this bound cannot be used as a memory address.
pub const MAX_MEMORY_ADDRESS: u64 = 0x1_0000_0000;

/// The integer a big-endian byte string denotes.
pub open spec fn be_bytes_value(s: Seq<u8>) -> int
    decreases s.len(),
{
    if s.len() == 0 {
        0
    } else {
        be_bytes_value(s.drop_last()) * 256 + s.last()
    }
}

/// A 256-bit word, split into the high and low 128 bits.
#[derive(Clone, Copy, Debug, PartialEq, Eq, Structural)]
pub struct Word {
    pub hi: u128,
    pub lo: u128,
}

impl Word {
    /// The integer value this word denotes.
    pub open spec fn value(self) -> int {
        self.hi * 0x1_0000_0000_0000_0000_0000_0000_0000_0000 + self.lo
    }

    pub fn zero() -> (r: Word)
        ensures
            r.value() == 0,
    {
        Word { hi: 0, lo: 0 }
    }

    pub fn from_u64(v: u64) -> (r: Word)
        ensures
            r.value() == v,
    {
        Word { hi: 0, lo: v as u128 }
    }

    pub fn from_u128(v: u128) -> (r: Word)
        ensures
            r.value() == v,
    {
        Word { hi: 0, lo: v }
    }

    pub fn is_zero(&self) -> (r: bool)
        ensures
            r == (self.value() == 0),
    {
        self.hi == 0 && self.lo == 0
    }

    /// Reads a word from a big-endian byte string of at most 32 bytes.
    pub fn from_big_endian(bytes: &[u8]) -> (r: Word)
        requires
            bytes@.len() <= 32,
        ensures
            r.value() == be_bytes_value(bytes@),
    {
        let mut hi: u128 = 0;
        let mut lo: u128 = 0;
        let n: usize = bytes.len();
        let split: usize = if n > 16 { n - 16 } else { 0 };
        let mut i: usize = 0;
        proof {
            lemma_pow256_16();
        }
        while i < split
            invariant
                n == bytes@.len(),
                n <= 32,
                split == if n > 16 { n - 16 } else { 0 },
                i <= split,
                hi == be_bytes_value(bytes@.take(i as int)),
                hi < pow256(i as nat),
            decreases split - i,
        {
            proof {
                lemma_pow256_16();
                assert(bytes@.take(i + 1).drop_last() =~= bytes@.take(i as int));
                assert(bytes@.take(i + 1).last() == bytes@[i as int]);
                lemma_pow256_mono((i + 1) as nat, 16);
                assert(hi * 256 < pow256(i as nat) * 256 || hi * 256 == 0) by (nonlinear_arith)
                    requires
                        hi < pow256(i as nat),
                        pow256(i as nat) > 0,
                ;
                assert(pow256(i as nat) * 256 == pow256((i + 1) as nat)) by (nonlinear_arith)
                    requires
                        pow256((i + 1) as nat) == 256 * pow256(i as nat),
                ;
            }
            hi = hi * 256 + bytes[i] as u128;
            i = i + 1;
        }
        while i < n
            invariant
                n == bytes@.len(),
                n <= 32,
                split == if n > 16 { n - 16 } else { 0 },
                split <= i <= n,
                hi == be_bytes_value(bytes@.take(split as int)),
                hi < pow256(split as nat),
                lo == be_bytes_value(bytes@.take(i as int).skip(split as int)),
                lo < pow256((i - split) as nat),
                i - split <= 16,
            decreases n - i,
        {
            proof {
                lemma_pow256_16();
                let s1 = bytes@.take(i + 1).skip(split as int);
                assert(s1.drop_last() =~= bytes@.take(i as int).skip(split as int));
                assert(s1.last() == bytes@[i as int]);
                lemma_pow256_mono((i + 1 - split) as nat, 16);
                let k = (i - split) as nat;
                assert(lo * 256 < pow256(k) * 256 || lo * 256 == 0) by (nonlinear_arith)
                    requires
                        lo < pow256(k),
                        pow256(k) > 0,
                ;
                assert(pow256(k) * 256 == pow256((k + 1) as nat)) by (nonlinear_arith)
                    requires
                        pow256((k + 1) as nat) == 256 * pow256(k),
                ;
            }
            lo = lo * 256 + bytes[i] as u128;
            i = i + 1;
        }
        proof {
            lemma_pow256_16();
            assert(bytes@.take(n as int) =~= bytes@);
            lemma_be_bytes_value_split(bytes@, split as int);
            assert(bytes@.take(n as int).skip(split as int) =~= bytes@.skip(split as int));
            if split == 0 {
                assert(bytes@.take(0int) =~= Seq::<u8>::empty());
                assert(hi == 0);
                assert(be_bytes_value(bytes@) == be_bytes_value(bytes@.skip(0int)) + 0
                    * pow256((n - 0) as nat)) by {
                    assert(bytes@.skip(0int) =~= bytes@);
                }
            } else {
                assert(n - split == 16);
                assert(be_bytes_value(bytes@) == hi * pow256(16) + lo);
            }
        }
        Word { hi, lo }
    }
}

/// 256 to the sixteenth is two to the one-hundred-twenty-eighth.
pub proof fn lemma_pow256_16()
    ensures
        pow256(16) == 0x1_0000_0000_0000_0000_0000_0000_0000_0000int,
        pow256(0) == 1,
{
    reveal_with_fuel(pow256, 17);
}

/// Two words with the same value are the same word.
pub proof fn lemma_word_value_injective(a: Word, b: Word)
    requires
        a.value() == b.value(),
    ensures
        a == b,
{
    let m = 0x1_0000_0000_0000_0000_0000_0000_0000_0000int;
    assert(a.hi == b.hi) by (nonlinear_arith)
        requires
            a.hi * m + a.lo == b.hi * m + b.lo,
            0 <= a.lo < m,
            0 <= b.lo < m,
            0 <= a.hi,
            0 <= b.hi,
    ;
}

/// 256 raised to the given power.
pub open spec fn pow256(n: nat) -> int
    decreases n,
{
    if n == 0 {
        1
    } else {
        256 * pow256((n - 1) as nat)
    }
}

pub proof fn lemma_pow256_pos(n: nat)
    ensures
        pow256(n) > 0,
    decreases n,
{
    if n > 0 {
        lemma_pow256_pos((n - 1) as nat);
    }
}

pub proof fn lemma_pow256_mono(a: nat, b: nat)
    requires
        a <= b,
    ensures
        0 < pow256(a) <= pow256(b),
    decreases b,
{
    lemma_pow256_pos(a);
    if a < b {
        lemma_pow256_mono(a, (b - 1) as nat);
    }
}

/// Splitting a byte string splits its value at the matching power of 256.
pub proof fn lemma_be_bytes_value_split(s: Seq<u8>, k: int)
    requires
        0 <= k <= s.len(),
    ensures
        be_bytes_value(s) == be_bytes_value(s.take(k)) * pow256((s.len() - k) as nat)
            + be_bytes_value(s.skip(k)),
    decreases s.len() - k,
{
    if k == s.len() {
        assert(s.take(k) =~= s);
        assert(s.skip(k) =~= Seq::<u8>::empty());
    } else {
        lemma_be_bytes_value_split(s.drop_last(), k);
        assert(s.drop_last().take(k) =~= s.take(k));
        assert(s.drop_last().skip(k) =~= s.skip(k).drop_last());
        assert(s.skip(k).last() == s.last());
        assert(be_bytes_value(s.skip(k)) == be_bytes_value(s.skip(k).drop_last()) * 256
            + s.last());
        let a = be_bytes_value(s.take(k));
        let m = (s.len() - 1 - k) as nat;
        assert(pow256((m + 1) as nat) == 256 * pow256(m));
        assert((a * pow256(m)) * 256 == a * pow256((m + 1) as nat)) by (nonlinear_arith)
            requires
                pow256((m + 1) as nat) == 256 * pow256(m),
        ;
    }
}

/// A 20-byte account address.
#[derive(Clone, Copy, Debug, PartialEq, Eq)]
pub struct Address {
    pub bytes: [u8; N_BYTES_ADDRESS],
}

impl Address {
    /// Wraps a byte string of the right length.
    pub fn from_bytes(bytes: &[u8]) -> (r: Address)
        requires
            bytes@.len() == N_BYTES_ADDRESS,
        ensures
            r.bytes@ == bytes@,
    {
        let mut arr: [u8; N_BYTES_ADDRESS] = [0u8;N_BYTES_ADDRESS];
        let mut i: usize = 0;
        while i < N_BYTES_ADDRESS
            invariant
                i <= N_BYTES_ADDRESS,
                bytes@.len() == N_BYTES_ADDRESS,
                arr@.len() == N_BYTES_ADDRESS,
                forall|j: int| 0 <= j < i ==> arr@[j] == bytes@[j],
            decreases N_BYTES_ADDRESS - i,
        {
            arr[i] = bytes[i];
            i = i + 1;
        }
        proof {
            assert(arr@ =~= bytes@);
        }
        Address { bytes: arr }
    }

    /// The all-zero address.
    pub fn zero() -> (r: Address)
        ensures
            forall|i: int| 0 <= i < N_BYTES_ADDRESS ==> r.bytes@[i] == 0u8,
    {
        Address { bytes: [0u8;N_BYTES_ADDRESS] }
    }

    pub fn byte(&self, i: usize) -> (r: u8)
        requires
            i < N_BYTES_ADDRESS,
        ensures
            r == self.bytes@[i as int],
    {
        self.bytes[i]
    }

    /// The word whose low 160 bits are this address, big-endian.
    pub fn to_word(&self) -> (r: Word)
        ensures
            r.value() == be_bytes_value(self.bytes@),
    {
        Word::from_big_endian(self.bytes.as_slice())
    }
}

/// A copy of a byte vector whose contents the caller can reason about.
pub fn clone_bytes(v: &Vec<u8>) -> (r: Vec<u8>)
    ensures
        r@ == v@,
{
    let mut r: Vec<u8> = Vec::new();
    let mut i: usize = 0;
    while i < v.len()
        invariant
            i <= v@.len(),
            r@.len() == i,
            forall|j: int| 0 <= j < i ==> r@[j] == v@[j],
        decreases v@.len() - i,
    {
        r.push(v[i]);
        i = i + 1;
    }
    proof {
        assert(r@ =~= v@);
    }
    r
}

/// Converts a stack value to a memory address, the only conversion in this
/// crate that can fail: offsets at or above the 32-bit range are rejected.
pub fn memory_address_try_from(v: u64) -> (r: Option<u64>)
    ensures
        v < MAX_MEMORY_ADDRESS ==> r == Some(v),
        v >= MAX_MEMORY_ADDRESS ==> r is None,
{
    if v < MAX_MEMORY_ADDRESS {
        Some(v)
    } else {
        None
    }
}

} // verus!
