//! Fixed-width little-endian integers: the model every other encoding is built from.

use vstd::prelude::*;

verus! {

/// `256` to the power `width`.
pub open spec fn pow256(width: nat) -> nat
    decreases width,
{
    if width == 0 {
        1
    } else {
        256 * pow256((width - 1) as nat)
    }
}

/// The `width` low bytes of `value`, least significant first.
pub open spec fn le_bytes(value: nat, width: nat) -> Seq<u8>
    decreases width,
{
    if width == 0 {
        Seq::empty()
    } else {
        seq![(value % 256) as u8] + le_bytes(value / 256, (width - 1) as nat)
    }
}

/// The number that `bytes` spell, least significant byte first.
pub open spec fn le_value(bytes: Seq<u8>) -> nat
    decreases bytes.len(),
{
    if bytes.len() == 0 {
        0
    } else {
        bytes[0] as nat + 256 * le_value(bytes.skip(1))
    }
}

/// The powers of 256 that the integer widths need.
pub proof fn lemma_pow256_values()
    ensures
        pow256(0) == 1,
        pow256(1) == 0x100,
        pow256(2) == 0x1_0000,
        pow256(4) == 0x1_0000_0000,
        pow256(8) == 0x1_0000_0000_0000_0000,
        pow256(15) == 0x1_0000_0000_0000_0000_0000_0000_0000_00,
        pow256(16) == 0x1_0000_0000_0000_0000_0000_0000_0000_0000,
{
    reveal_with_fuel(pow256, 17);
}

/// A larger exponent gives a power that is no smaller, and every power is positive.
pub proof fn lemma_pow256_monotonic(a: nat, b: nat)
    requires
        a <= b,
    ensures
        0 < pow256(a) <= pow256(b),
    decreases b,
{
    if a == 0 && b == 0 {
    } else if a < b {
        lemma_pow256_monotonic(a, (b - 1) as nat);
    } else {
        lemma_pow256_monotonic((a - 1) as nat, (b - 1) as nat);
    }
}

/// A number written in `width` bytes takes `width` bytes.
pub proof fn lemma_le_bytes_len(value: nat, width: nat)
    ensures
        le_bytes(value, width).len() == width,
    decreases width,
{
    if width > 0 {
        lemma_le_bytes_len(value / 256, (width - 1) as nat);
    }
}

/// What `n` bytes spell is less than 256 to the power `n`.
pub proof fn lemma_le_value_bound(bytes: Seq<u8>)
    ensures
        le_value(bytes) < pow256(bytes.len()),
    decreases bytes.len(),
{
    if bytes.len() > 0 {
        lemma_le_value_bound(bytes.skip(1));
    }
}

/// Reading back what `le_bytes` wrote gives the value, if it fits the width.
pub proof fn lemma_le_value_of_bytes(value: nat, width: nat)
    requires
        value < pow256(width),
    ensures
        le_value(le_bytes(value, width)) == value,
    decreases width,
{
    if width > 0 {
        let rest = le_bytes(value / 256, (width - 1) as nat);
        let all = le_bytes(value, width);
        lemma_le_bytes_len(value / 256, (width - 1) as nat);
        assert(all.skip(1) =~= rest);
        assert(all[0] == (value % 256) as u8);
        lemma_le_value_of_bytes(value / 256, (width - 1) as nat);
    }
}

/// Writing the number that `bytes` spell gives `bytes` again.
pub proof fn lemma_le_bytes_of_value(bytes: Seq<u8>)
    ensures
        le_bytes(le_value(bytes), bytes.len()) == bytes,
    decreases bytes.len(),
{
    if bytes.len() > 0 {
        let v = le_value(bytes);
        let tail = bytes.skip(1);
        lemma_le_bytes_of_value(tail);
        assert(v % 256 == bytes[0] as nat);
        assert(v / 256 == le_value(tail));
        assert(le_bytes(v, bytes.len()) =~= bytes);
    } else {
        assert(le_bytes(le_value(bytes), bytes.len()) =~= bytes);
    }
}

/// Appends the `width` low bytes of `value` to `out`, least significant first.
pub fn push_le(out: &mut Vec<u8>, value: u128, width: usize)
    requires
        width <= 16,
    ensures
        final(out)@ == old(out)@ + le_bytes(value as nat, width as nat),
{
    let mut rest: u128 = value;
    let mut i: usize = 0;
    while i < width
        invariant
            i <= width,
            old(out)@ + le_bytes(value as nat, width as nat) == out@ + le_bytes(
                rest as nat,
                (width - i) as nat,
            ),
        decreases width - i,
    {
        let ghost before = out@;
        let byte: u8 = (rest % 256) as u8;
        out.push(byte);
        proof {
            let tail = le_bytes((rest / 256) as nat, (width - i - 1) as nat);
            assert(le_bytes(rest as nat, (width - i) as nat) == seq![byte] + tail);
            assert(before + (seq![byte] + tail) =~= before.push(byte) + tail);
        }
        rest = rest / 256;
        i = i + 1;
    }
    assert(out@ + le_bytes(rest as nat, 0) =~= out@);
}

/// Reads `width` bytes of `bytes` from `cursor` on as one number.
pub fn read_le(bytes: &[u8], cursor: usize, width: usize) -> (value: u128)
    requires
        width <= 16,
        cursor + width <= bytes@.len(),
    ensures
        value as nat == le_value(bytes@.subrange(cursor as int, cursor + width)),
{
    let ghost window = bytes@.subrange(cursor as int, cursor + width);
    let total: usize = bytes.len();
    let mut value: u128 = 0;
    let mut i: usize = width;
    assert(window.skip(width as int) =~= Seq::<u8>::empty());
    while i > 0
        invariant
            i <= width <= 16,
            total == bytes@.len(),
            cursor + width <= total,
            window == bytes@.subrange(cursor as int, cursor + width),
            value as nat == le_value(window.skip(i as int)),
        decreases i,
    {
        i = i - 1;
        proof {
            let here = window.skip(i as int);
            assert(here.skip(1) =~= window.skip(i + 1));
            assert(here[0] == bytes@[cursor + i]);
            lemma_le_value_bound(here.skip(1));
            lemma_pow256_monotonic(here.skip(1).len(), 15);
            lemma_pow256_values();
        }
        value = bytes[cursor + i] as u128 + 256 * value;
    }
    assert(window.skip(0) =~= window);
    value
}

} // verus!
