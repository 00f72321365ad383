//! The global-section body: a row-flag state machine over the section's
//! bytes.
//!
//! The section body is a count followed by that many globals, each a value
//! type byte, a mutability byte, an init opcode byte, the init value in
//! the variable-length integer encoding, and an expression delimiter. The
//! markup pass flags every byte with exactly one role; the export and data
//! section bodies follow the same pattern.

use vstd::prelude::*;

use crate::wasm_bytecode::WasmBytecode;
use crate::Error;

verus! {

/// The expression delimiter byte.
pub const WASM_BLOCK_END: u8 = 0x0b;

/// The value of a little-endian base-128 digit string.
pub open spec fn leb_value(s: Seq<u8>) -> int
    decreases s.len(),
{
    if s.len() == 0 {
        0
    } else {
        (s[0] % 128) + 128 * leb_value(s.skip(1))
    }
}

/// A well-formed unsigned encoding: every byte but the last has its
/// continuation bit set, the last has it clear.
pub open spec fn leb_well_formed(s: Seq<u8>) -> bool {
    &&& s.len() >= 1
    &&& forall|i: int| 0 <= i < s.len() - 1 ==> #[trigger] s[i] >= 128
    &&& s.last() < 128
}

/// Decodes one unsigned variable-length integer at `offset`, returning its
/// value and its byte length. At most ten digits are read, so the value
/// can overflow sixty-four bits only by rejection.
#[verifier::loop_isolation(false)]
pub fn leb128_decode_unsigned(bytes: &[u8], offset: usize) -> (r: Result<(u64, usize), Error>)
    ensures
        r matches Ok(p) ==> {
            &&& 1 <= p.1 <= 5
            &&& offset + p.1 <= bytes@.len()
            &&& leb_well_formed(bytes@.subrange(offset as int, offset + p.1))
            &&& p.0 == leb_value(bytes@.subrange(offset as int, offset + p.1))
        },
        (exists|l: int|
            1 <= l <= 5 && offset + l <= bytes@.len() && #[trigger] leb_well_formed(
                bytes@.subrange(offset as int, offset + l),
            )) ==> r is Ok,
{
    let n: usize = bytes.len();
    if offset >= n {
        return Err(Error::ConversionError);
    }
    let mut value: u64 = 0;
    let mut shift_mul: u64 = 1;
    let mut len: usize = 0;
    proof {
        reveal_with_fuel(vstd::arithmetic::power::pow, 1);
        assert(bytes@.subrange(offset as int, offset as int) =~= Seq::<u8>::empty());
    }
    loop
        invariant
            len <= 5,
            offset + len <= n,
            n == bytes@.len(),
            shift_mul == vstd::arithmetic::power::pow(128, len as nat),
            shift_mul <= 0x1_0000_0000_0000,
            value == leb_value(bytes@.subrange(offset as int, offset + len)),
            value < shift_mul,
            forall|i: int|
                offset <= i < offset + len ==> #[trigger] bytes@[i] >= 128,
        decreases 5 - len,
    {
        if len >= 5 || offset + len >= n {
            proof {
                if exists|l: int|
                    1 <= l <= 5 && offset + l <= bytes@.len() && #[trigger] leb_well_formed(
                        bytes@.subrange(offset as int, offset + l),
                    ) {
                    let l = choose|l: int|
                        1 <= l <= 5 && offset + l <= bytes@.len() && #[trigger] leb_well_formed(
                            bytes@.subrange(offset as int, offset + l),
                        );
                    assert(bytes@.subrange(offset as int, offset + l).last() == bytes@[offset + l
                        - 1]);
                    assert(l <= len);
                    assert(bytes@[offset + l - 1] >= 128);
                    assert(false);
                }
            }
            return Err(Error::ConversionError);
        }
        let b = bytes[offset + len];
        let ghost old_value = value;
        let ghost old_shift = shift_mul;
        proof {
            let s_old = bytes@.subrange(offset as int, offset + len);
            let s_new = bytes@.subrange(offset as int, offset + len + 1);
            lemma_leb_value_append(bytes@, offset as int, len as int);
            vstd::arithmetic::power::lemma_pow_adds(128, len as nat, 1);
            assert(vstd::arithmetic::power::pow(128, 1) == 128) by {
                reveal_with_fuel(vstd::arithmetic::power::pow, 2);
            }
            assert((b % 128) as u64 * shift_mul < shift_mul * 128) by (nonlinear_arith)
                requires
                    0 <= (b % 128) < 128,
                    shift_mul >= 1,
            ;
        }
        value = value + (b % 128) as u64 * shift_mul;
        len = len + 1;
        if b < 128 {
            proof {
                let s = bytes@.subrange(offset as int, offset + len);
                assert(s.last() == b);
            }
            return Ok((value, len));
        }
        if shift_mul > 0xff_ffff_ffff {
            proof {
                vstd::arithmetic::power::lemma_pow_increases(128, (len - 1) as nat, 4);
                assert(vstd::arithmetic::power::pow(128, 4) == 0x1000_0000) by {
                    reveal_with_fuel(vstd::arithmetic::power::pow, 5);
                }
                assert(false);
            }
            return Err(Error::ConversionError);
        }
        shift_mul = shift_mul * 128;
        proof {
            assert(value < shift_mul) by (nonlinear_arith)
                requires
                    value == old_value + (b % 128) * old_shift,
                    old_value < old_shift,
                    0 <= (b % 128) < 128,
                    old_shift >= 1,
                    shift_mul == old_shift * 128,
            ;
        }
    }
}

/// Appending one digit adds its weighted value.
proof fn lemma_leb_value_append(bytes: Seq<u8>, offset: int, len: int)
    requires
        0 <= offset,
        0 <= len,
        offset + len < bytes.len(),
    ensures
        leb_value(bytes.subrange(offset, offset + len + 1)) == leb_value(
            bytes.subrange(offset, offset + len),
        ) + (bytes[offset + len] % 128) * vstd::arithmetic::power::pow(128, len as nat),
    decreases len,
{
    let s_new = bytes.subrange(offset, offset + len + 1);
    if len == 0 {
        assert(s_new.len() == 1);
        assert(s_new.skip(1) =~= Seq::<u8>::empty());
        assert(bytes.subrange(offset, offset) =~= Seq::<u8>::empty());
        assert(vstd::arithmetic::power::pow(128, 0) == 1) by {
            reveal_with_fuel(vstd::arithmetic::power::pow, 1);
        }
    } else {
        lemma_leb_value_append(bytes, offset + 1, len - 1);
        assert(s_new.skip(1) =~= bytes.subrange(offset + 1, offset + len + 1));
        assert(bytes.subrange(offset, offset + len).skip(1) =~= bytes.subrange(
            offset + 1,
            offset + len,
        ));
        assert(s_new[0] == bytes[offset]);
        assert(bytes.subrange(offset, offset + len)[0] == bytes[offset]);
        let p = vstd::arithmetic::power::pow(128, (len - 1) as nat);
        assert(vstd::arithmetic::power::pow(128, len as nat) == 128 * p) by {
            reveal_with_fuel(vstd::arithmetic::power::pow, 2);
        }
        let d = (bytes[offset + len] % 128) as int;
        assert(128 * (d * p) == d * (128 * p)) by (nonlinear_arith);
    }
}

/// A position holds at most one well-formed encoding: its length is
/// determined by the first byte with a clear continuation bit.
proof fn lemma_leb_prefix_unique(bytes: Seq<u8>, pos: int, l1: int, l2: int)
    requires
        0 <= pos,
        1 <= l1,
        1 <= l2,
        pos + l1 <= bytes.len(),
        pos + l2 <= bytes.len(),
        leb_well_formed(bytes.subrange(pos, pos + l1)),
        leb_well_formed(bytes.subrange(pos, pos + l2)),
    ensures
        l1 == l2,
{
    if l1 < l2 {
        assert(bytes.subrange(pos, pos + l1).last() == bytes[pos + l1 - 1]);
        assert(bytes.subrange(pos, pos + l2)[l1 - 1] == bytes[pos + l1 - 1]);
        assert(false);
    } else if l2 < l1 {
        assert(bytes.subrange(pos, pos + l2).last() == bytes[pos + l2 - 1]);
        assert(bytes.subrange(pos, pos + l1)[l2 - 1] == bytes[pos + l2 - 1]);
        assert(false);
    }
}

/// The role of one byte of the section body; each byte carries exactly one.
#[derive(Clone, Copy, Debug, PartialEq, Eq, Structural)]
pub enum GlobalBodyFlag {
    IsItemsCount,
    IsGlobalType,
    IsMutProp,
    IsInitOpcode,
    IsInitVal,
    IsExprDelimiter,
}

/// A well-formed run of `count` globals starting at `pos`: each is a value
/// type byte, a mutability byte of zero or one, an init opcode byte, a
/// well-formed init value, and the expression delimiter.
pub open spec fn global_items_well_formed(bytes: Seq<u8>, pos: int, count: int) -> bool
    decreases count,
{
    count <= 0 || {
        &&& pos + 3 < bytes.len()
        &&& bytes[pos + 1] <= 1
        &&& exists|l: int|
            1 <= l <= 5 && pos + 3 + l < bytes.len() && #[trigger] leb_well_formed(
                bytes.subrange(pos + 3, pos + 3 + l),
            ) && bytes[pos + 3 + l] == WASM_BLOCK_END && global_items_well_formed(
                bytes,
                pos + 3 + l + 1,
                count - 1,
            )
    }
}

/// A well-formed section body at `offset`: a well-formed items count
/// followed by that many well-formed globals.
pub open spec fn global_body_well_formed(bytes: Seq<u8>, offset: int) -> bool {
    exists|cl: int|
        1 <= cl <= 5 && offset + cl <= bytes.len() && #[trigger] leb_well_formed(
            bytes.subrange(offset, offset + cl),
        ) && global_items_well_formed(
            bytes,
            offset + cl,
            leb_value(bytes.subrange(offset, offset + cl)),
        )
}

/// The flags of a run of `count` globals at `pos` follow the grammar: the
/// three leading role bytes, the init-value digits of one well-formed
/// encoding, the delimiter on a delimiter byte, then the next global.
pub open spec fn global_items_markup(
    bytes: Seq<u8>,
    pos: int,
    flags: Seq<GlobalBodyFlag>,
    count: int,
) -> bool
    decreases flags.len(),
{
    if count <= 0 {
        flags.len() == 0
    } else {
        &&& flags.len() >= 5
        &&& flags[0] == GlobalBodyFlag::IsGlobalType
        &&& flags[1] == GlobalBodyFlag::IsMutProp
        &&& pos + 1 < bytes.len() && bytes[pos + 1] <= 1
        &&& flags[2] == GlobalBodyFlag::IsInitOpcode
        &&& exists|l: int|
            1 <= l <= 5 && 4 + l <= flags.len() && (forall|j: int|
                3 <= j < 3 + l ==> (#[trigger] flags[j]) == GlobalBodyFlag::IsInitVal) && pos + 3
                + l < bytes.len() && #[trigger] leb_well_formed(
                bytes.subrange(pos + 3, pos + 3 + l),
            ) && flags[3 + l] == GlobalBodyFlag::IsExprDelimiter && bytes[pos + 3 + l]
                == WASM_BLOCK_END && global_items_markup(
                bytes,
                pos + 3 + l + 1,
                flags.skip(3 + l + 1),
                count - 1,
            )
    }
}

/// A full section-body markup: the items-count digits, then the flags of
/// exactly as many globals as the count encodes.
pub open spec fn global_body_markup(bytes: Seq<u8>, offset: int, flags: Seq<GlobalBodyFlag>) -> bool {
    exists|cl: int|
        1 <= cl <= 5 && cl <= flags.len() && offset + cl <= bytes.len() && (forall|j: int|
            0 <= j < cl ==> (#[trigger] flags[j]) == GlobalBodyFlag::IsItemsCount)
            && #[trigger] leb_well_formed(bytes.subrange(offset, offset + cl))
            && global_items_markup(
            bytes,
            offset + cl,
            flags.skip(cl),
            leb_value(bytes.subrange(offset, offset + cl)),
        )
}

/// Configuration of the global-section body markup; the flag roles above
/// are its columns.
pub struct WasmGlobalSectionBodyConfig {}

/// The markup chip of the global-section body.
pub struct WasmGlobalSectionBodyChip {
    pub config: WasmGlobalSectionBodyConfig,
}

impl WasmGlobalSectionBodyChip {
    pub fn construct(config: WasmGlobalSectionBodyConfig) -> (r: WasmGlobalSectionBodyChip) {
        WasmGlobalSectionBodyChip { config }
    }

    pub fn configure() -> (r: WasmGlobalSectionBodyConfig) {
        WasmGlobalSectionBodyConfig {  }
    }

    /// Walks the given number of globals starting at `pos`, returning one
    /// role flag per byte walked and the offset past the last delimiter.
    /// The flags follow the section grammar, and a well-formed run is
    /// always accepted.
    #[verifier::loop_isolation(false)]
    fn walk_items(wb: &WasmBytecode, pos: usize, count: u64) -> (r: Result<
        (Vec<GlobalBodyFlag>, usize),
        Error,
    >)
        requires
            pos <= wb.bytes@.len(),
        ensures
            r matches Ok(p) ==> {
                &&& pos <= p.1 <= wb.bytes@.len()
                &&& p.0@.len() == p.1 - pos
                &&& global_items_markup(wb.bytes@, pos as int, p.0@, count as int)
            },
            global_items_well_formed(wb.bytes@, pos as int, count as int) ==> r is Ok,
        decreases count,
    {
        let ghost bs = wb.bytes@;
        let ghost wf = global_items_well_formed(bs, pos as int, count as int);
        let n: usize = wb.bytes.len();
        if count == 0 {
            return Ok((Vec::new(), pos));
        }
        if n - pos < 4 {
            proof {
                assert(!wf);
            }
            return Err(Error::InvalidGethExecStep);
        }
        if wb.bytes.as_slice()[pos + 1] > 1 {
            proof {
                assert(!wf);
            }
            return Err(Error::InvalidGethExecStep);
        }
        let (_init_val, l) = match leb128_decode_unsigned(wb.bytes.as_slice(), pos + 3) {
            Ok(p) => p,
            Err(e) => {
                proof {
                    if wf {
                        let lw = choose|lw: int|
                            1 <= lw <= 5 && pos + 3 + lw < bs.len() && #[trigger] leb_well_formed(
                                bs.subrange(pos + 3, pos + 3 + lw),
                            ) && bs[pos + 3 + lw] == WASM_BLOCK_END && global_items_well_formed(
                                bs,
                                pos + 3 + lw + 1,
                                count - 1,
                            );
                        assert(false);
                    }
                }
                return Err(e);
            },
        };
        let ghost lw: int = if wf {
            choose|lw: int|
                1 <= lw <= 5 && pos + 3 + lw < bs.len() && #[trigger] leb_well_formed(
                    bs.subrange(pos + 3, pos + 3 + lw),
                ) && bs[pos + 3 + lw] == WASM_BLOCK_END && global_items_well_formed(
                    bs,
                    pos + 3 + lw + 1,
                    count - 1,
                )
        } else {
            0
        };
        proof {
            if wf {
                lemma_leb_prefix_unique(bs, pos + 3, l as int, lw);
            }
        }
        if pos + 3 + l >= n {
            proof {
                assert(!wf);
            }
            return Err(Error::InvalidGethExecStep);
        }
        if wb.bytes.as_slice()[pos + 3 + l] != WASM_BLOCK_END {
            proof {
                assert(!wf);
            }
            return Err(Error::InvalidGethExecStep);
        }
        let rest = match Self::walk_items(wb, pos + 3 + l + 1, count - 1) {
            Ok(p) => p,
            Err(e) => {
                proof {
                    assert(!wf);
                }
                return Err(e);
            },
        };
        let (mut rest_flags, end) = rest;
        let mut flags: Vec<GlobalBodyFlag> = Vec::new();
        flags.push(GlobalBodyFlag::IsGlobalType);
        flags.push(GlobalBodyFlag::IsMutProp);
        flags.push(GlobalBodyFlag::IsInitOpcode);
        let mut j: usize = 0;
        while j < l
            invariant
                j <= l,
                flags@.len() == 3 + j,
                flags@[0] == GlobalBodyFlag::IsGlobalType,
                flags@[1] == GlobalBodyFlag::IsMutProp,
                flags@[2] == GlobalBodyFlag::IsInitOpcode,
                forall|k: int| 3 <= k < 3 + j ==> (#[trigger] flags@[k]) == GlobalBodyFlag::IsInitVal,
            decreases l - j,
        {
            flags.push(GlobalBodyFlag::IsInitVal);
            j = j + 1;
        }
        flags.push(GlobalBodyFlag::IsExprDelimiter);
        let ghost prefix = flags@;
        flags.append(&mut rest_flags);
        proof {
            let li = l as int;
            assert(flags@.len() == 4 + l + (end - (pos + 3 + l + 1)));
            assert(flags@.skip(3 + li + 1) =~= rest.0@);
            assert(4 + li <= flags@.len());
            assert(forall|k: int| 3 <= k < 3 + li ==> (#[trigger] flags@[k])
                == GlobalBodyFlag::IsInitVal);
            assert(flags@[3 + li] == GlobalBodyFlag::IsExprDelimiter);
            assert(global_items_markup(bs, pos + 3 + li + 1, flags@.skip(3 + li + 1), count as int
                - 1));
            assert(leb_well_formed(bs.subrange(pos + 3, pos + 3 + li)));
            assert(global_items_markup(bs, pos as int, flags@, count as int));
        }
        Ok((flags, end))
    }

    /// Walks one section body starting at `offset`: the items count, then
    /// that many globals. Returns one role flag per byte walked, following
    /// the section grammar, and the offset past the body; a well-formed
    /// body is always accepted.
    #[verifier::loop_isolation(false)]
    pub fn assign_auto(&self, wb: &WasmBytecode, offset: usize) -> (r: Result<
        (Vec<GlobalBodyFlag>, usize),
        Error,
    >)
        ensures
            r matches Ok(p) ==> {
                &&& offset <= p.1 <= wb.bytes@.len()
                &&& p.0@.len() == p.1 - offset
                &&& global_body_markup(wb.bytes@, offset as int, p.0@)
            },
            global_body_well_formed(wb.bytes@, offset as int) ==> r is Ok,
    {
        let ghost bs = wb.bytes@;
        let ghost wf = global_body_well_formed(bs, offset as int);
        let n: usize = wb.bytes.len();
        let (items_count, count_len) = match leb128_decode_unsigned(wb.bytes.as_slice(), offset) {
            Ok(p) => p,
            Err(e) => {
                proof {
                    if wf {
                        let clw = choose|clw: int|
                            1 <= clw <= 5 && offset + clw <= bs.len() && #[trigger] leb_well_formed(
                                bs.subrange(offset as int, offset + clw),
                            ) && global_items_well_formed(
                                bs,
                                offset + clw,
                                leb_value(bs.subrange(offset as int, offset + clw)),
                            );
                        assert(false);
                    }
                }
                return Err(e);
            },
        };
        let ghost clw: int = if wf {
            choose|clw: int|
                1 <= clw <= 5 && offset + clw <= bs.len() && #[trigger] leb_well_formed(
                    bs.subrange(offset as int, offset + clw),
                ) && global_items_well_formed(
                    bs,
                    offset + clw,
                    leb_value(bs.subrange(offset as int, offset + clw)),
                )
        } else {
            0
        };
        proof {
            if wf {
                lemma_leb_prefix_unique(bs, offset as int, count_len as int, clw);
            }
        }
        let items = match Self::walk_items(wb, offset + count_len, items_count) {
            Ok(p) => p,
            Err(e) => {
                proof {
                    assert(!wf);
                }
                return Err(e);
            },
        };
        let (mut item_flags, end) = items;
        let mut flags: Vec<GlobalBodyFlag> = Vec::new();
        let mut k: usize = 0;
        while k < count_len
            invariant
                k <= count_len,
                flags@.len() == k,
                forall|j: int| 0 <= j < k ==> (#[trigger] flags@[j]) == GlobalBodyFlag::IsItemsCount,
            decreases count_len - k,
        {
            flags.push(GlobalBodyFlag::IsItemsCount);
            k = k + 1;
        }
        flags.append(&mut item_flags);
        proof {
            let cli = count_len as int;
            assert(flags@.skip(cli) =~= items.0@);
            assert(forall|j: int| 0 <= j < cli ==> (#[trigger] flags@[j])
                == GlobalBodyFlag::IsItemsCount);
            assert(global_items_markup(
                bs,
                offset + cli,
                flags@.skip(cli),
                leb_value(bs.subrange(offset as int, offset + cli)),
            ));
            assert(leb_well_formed(bs.subrange(offset as int, offset + cli)));
            assert(global_body_markup(bs, offset as int, flags@));
        }
        Ok((flags, end))
    }
}

} // verus!
