//! The primitive encodings of the payload: single bytes, booleans,
//! little-endian integers and fields behind a one-byte length.

use vstd::prelude::*;

verus! {

/// The byte written in front of a field of `len` bytes or entries: `len`
/// itself up to 255, and beyond that only its low eight bits.
pub open spec fn length_byte(len: nat) -> u8 {
    (len % 256) as u8
}

/// A field behind its length byte.
pub open spec fn length_prefixed(field: Seq<u8>) -> Seq<u8> {
    seq![length_byte(field.len())] + field
}

/// A boolean as one byte.
pub open spec fn bool_byte(b: bool) -> u8 {
    if b {
        1
    } else {
        0
    }
}

/// 256 to the power `n`.
pub open spec fn pow256(n: nat) -> nat
    decreases n,
{
    if n == 0 {
        1
    } else {
        256 * pow256((n - 1) as nat)
    }
}

/// The `width` low bytes of `value`, least significant first.
pub open spec fn le_bytes(value: nat, width: nat) -> Seq<u8>
    decreases width,
{
    if width == 0 {
        Seq::empty()
    } else {
        seq![(value % 256) as u8] + le_bytes(value / 256, (width - 1) as nat)
    }
}

/// The number that `bytes` spell, least significant byte first.
pub open spec fn le_value(bytes: Seq<u8>) -> nat
    decreases bytes.len(),
{
    if bytes.len() == 0 {
        0
    } else {
        bytes[0] as nat + 256 * le_value(bytes.skip(1))
    }
}

/// An optional 64-bit integer: a presence byte, then eight little-endian
/// bytes when the value is there.
pub open spec fn optional_u64(value: Option<u64>) -> Seq<u8> {
    match value {
        None => seq![0u8],
        Some(v) => seq![1u8] + le_bytes(v as nat, 8),
    }
}

pub proof fn lemma_le_bytes_len(value: nat, width: nat)
    ensures
        le_bytes(value, width).len() == width,
    decreases width,
{
    if width > 0 {
        lemma_le_bytes_len(value / 256, (width - 1) as nat);
    }
}

/// Reading back what was written gives the number, if it fits the width.
pub proof fn lemma_le_value_of_bytes(value: nat, width: nat)
    requires
        value < pow256(width),
    ensures
        le_value(le_bytes(value, width)) == value,
    decreases width,
{
    if width > 0 {
        let rest = le_bytes(value / 256, (width - 1) as nat);
        let all = le_bytes(value, width);
        lemma_le_bytes_len(value / 256, (width - 1) as nat);
        lemma_le_value_of_bytes(value / 256, (width - 1) as nat);
        assert(all.skip(1) =~= rest);
        assert(all[0] == (value % 256) as u8);
    }
}

/// Bytes spell a number below 256 to their count, and writing that number
/// at their width gives the bytes back.
pub proof fn lemma_le_bytes_of_value(bytes: Seq<u8>)
    ensures
        le_value(bytes) < pow256(bytes.len()),
        le_bytes(le_value(bytes), bytes.len()) == bytes,
    decreases bytes.len(),
{
    if bytes.len() > 0 {
        let tail = bytes.skip(1);
        lemma_le_bytes_of_value(tail);
        let v = le_value(bytes);
        assert(v == bytes[0] as nat + 256 * le_value(tail));
        assert(v % 256 == bytes[0] as nat);
        assert(v / 256 == le_value(tail));
        assert(le_bytes(v, bytes.len()) =~= seq![bytes[0]] + le_bytes(
            le_value(tail),
            tail.len(),
        ));
        assert(seq![bytes[0]] + tail =~= bytes);
    } else {
        assert(le_bytes(0, 0) =~= bytes);
    }
}

pub proof fn lemma_pow256_of_8()
    ensures
        pow256(8) == 0x1_0000_0000_0000_0000,
{
    reveal_with_fuel(pow256, 9);
}

/// Appends `src` to `out`.
pub fn put_bytes(out: &mut Vec<u8>, src: &[u8])
    ensures
        final(out)@ == old(out)@ + src@,
{
    let ghost start = out@;
    out.extend_from_slice(src);
    assert(out@ =~= start + src@);
}

/// Appends a boolean as one byte.
pub fn put_bool(out: &mut Vec<u8>, value: bool)
    ensures
        final(out)@ == old(out)@.push(bool_byte(value)),
{
    if value {
        out.push(1);
    } else {
        out.push(0);
    }
}

/// Appends the eight little-endian bytes of `value`.
pub fn put_u64_le(out: &mut Vec<u8>, value: u64)
    ensures
        final(out)@ == old(out)@ + le_bytes(value as nat, 8),
{
    let ghost start = out@;
    let mut rest: u64 = value;
    let mut i: usize = 0;
    while i < 8
        invariant
            i <= 8,
            out@ + le_bytes(rest as nat, (8 - i) as nat) == start + le_bytes(value as nat, 8),
        decreases 8 - i,
    {
        let ghost before = out@;
        let low: u8 = (rest % 256) as u8;
        out.push(low);
        proof {
            let tail = le_bytes((rest / 256) as nat, (8 - i - 1) as nat);
            assert(le_bytes(rest as nat, (8 - i) as nat) == seq![low] + tail);
            assert(before.push(low) + tail =~= before + (seq![low] + tail));
        }
        rest = rest / 256;
        i += 1;
    }
    assert(le_bytes(rest as nat, 0) =~= Seq::<u8>::empty());
    assert(out@ + Seq::<u8>::empty() =~= out@);
}

/// Appends an optional 64-bit integer: presence byte, then the value.
pub fn put_optional_u64(out: &mut Vec<u8>, value: Option<u64>)
    ensures
        final(out)@ == old(out)@ + optional_u64(value),
{
    let ghost start = out@;
    match value {
        None => {
            out.push(0);
            assert(out@ =~= start + optional_u64(value));
        },
        Some(v) => {
            out.push(1);
            put_u64_le(out, v);
            assert(out@ =~= start + optional_u64(value));
        },
    }
}

/// Reads the eight little-endian bytes at `pos`, or gives `None` where
/// fewer than eight bytes are left there.
pub fn read_u64_le(bytes: &[u8], pos: usize) -> (r: Option<u64>)
    ensures
        match r {
            Some(value) => pos + 8 <= bytes@.len() && value as nat == le_value(
                bytes@.subrange(pos as int, pos + 8),
            ),
            None => pos + 8 > bytes@.len(),
        },
{
    let len = bytes.len();
    if pos > len || len - pos < 8 {
        return None;
    }
    let mut value: u64 = 0;
    let mut i: usize = 8;
    proof {
        assert(bytes@.subrange(pos + 8, pos + 8) =~= Seq::<u8>::empty());
        lemma_pow256_of_8();
    }
    while i > 0
        invariant
            i <= 8,
            len == bytes@.len(),
            pos + 8 <= len,
            value as nat == le_value(bytes@.subrange(pos + i, pos + 8)),
            value < pow256((8 - i) as nat),
            pow256(8) == 0x1_0000_0000_0000_0000,
        decreases i,
    {
        i -= 1;
        let b: u8 = bytes[pos + i];
        proof {
            let wider = bytes@.subrange(pos + i, pos + 8);
            assert(wider.skip(1) =~= bytes@.subrange(pos + i + 1, pos + 8));
            assert(wider[0] == b);
            lemma_pow256_step((8 - i - 1) as nat, 7);
            assert(value as nat * 256 + b < pow256((8 - i) as nat));
            lemma_pow256_step((8 - i) as nat, 8);
        }
        value = value * 256 + b as u64;
    }
    Some(value)
}

/// `pow256` grows with its exponent.
pub proof fn lemma_pow256_step(n: nat, m: nat)
    requires
        n <= m,
    ensures
        pow256(n) <= pow256(m),
        pow256(n) >= 1,
        pow256(n + 1) == 256 * pow256(n),
    decreases m,
{
    if n > 0 {
        lemma_pow256_step((n - 1) as nat, (m - 1) as nat);
    }
    if n < m {
        lemma_pow256_step(n, (m - 1) as nat);
    }
}

} // verus!
