//! Single-bit access to bytes and words.
//!
//! The executable functions go through `bitvec`'s bit views; their contracts
//! say in shifts and masks what those views do, and the lemmas below relate
//! the two spellings.

use bitvec::order::Lsb0;
use bitvec::view::BitView;
use vstd::prelude::*;

verus! {

/// Bit `i` of `v`, counted from the least significant bit.
pub open spec fn bit8(v: u8, i: u8) -> bool {
    (v >> i) & 1u8 == 1u8
}

/// Bit `i` of `v`, counted from the least significant bit.
pub open spec fn bit16(v: u16, i: u16) -> bool {
    (v >> i) & 1u16 == 1u16
}

/// `v` with bit `i` replaced by `b`.
pub open spec fn set_bit8(v: u8, i: u8, b: bool) -> u8 {
    if b {
        v | (1u8 << i)
    } else {
        v & !(1u8 << i)
    }
}

/// `v` with bit `i` replaced by `b`.
pub open spec fn set_bit16(v: u16, i: u16, b: bool) -> u16 {
    if b {
        v | (1u16 << i)
    } else {
        v & !(1u16 << i)
    }
}

/// `v` with its eight bits in the opposite order.
pub open spec fn reversed8(v: u8) -> u8 {
    ((v & 0x01u8) << 7u8) | ((v & 0x02u8) << 5u8) | ((v & 0x04u8) << 3u8) | ((v & 0x08u8) << 1u8)
        | ((v & 0x10u8) >> 1u8) | ((v & 0x20u8) >> 3u8) | ((v & 0x40u8) >> 5u8) | ((v & 0x80u8)
        >> 7u8)
}

/// Reads one bit through `bitvec`: `BitView::view_bits::<Lsb0>` followed by
/// `BitSlice` indexing. Trusted to return bit `i` of `v` in least-significant-
/// first order; indexing panics from position 8 on, which `requires` excludes.
#[verifier::external_body]
pub(crate) fn test_bit8(v: u8, i: usize) -> (b: bool)
    requires
        i < 8,
    ensures
        b == bit8(v, i as u8),
{
    v.view_bits::<Lsb0>()[i]
}

/// Reads one bit of a word through `bitvec`: `BitView::view_bits::<Lsb0>`
/// followed by `BitSlice` indexing. Trusted to return bit `i` of `v` in
/// least-significant-first order; positions from 16 on are excluded.
#[verifier::external_body]
pub(crate) fn test_bit16(v: u16, i: usize) -> (b: bool)
    requires
        i < 16,
    ensures
        b == bit16(v, i as u16),
{
    v.view_bits::<Lsb0>()[i]
}

/// Writes one bit through `bitvec`: `BitView::view_bits_mut::<Lsb0>` followed
/// by `BitSlice::set`. Trusted to change bit `i` to `b` and nothing else;
/// `set` panics from position 8 on, which `requires` excludes.
#[verifier::external_body]
pub(crate) fn write_bit8(v: u8, i: usize, b: bool) -> (r: u8)
    requires
        i < 8,
    ensures
        r == set_bit8(v, i as u8, b),
{
    let mut v = v;
    v.view_bits_mut::<Lsb0>().set(i, b);
    v
}

/// Writes one bit of a word through `bitvec`: `BitView::view_bits_mut::<Lsb0>`
/// followed by `BitSlice::set`. Trusted to change bit `i` to `b` and nothing
/// else; positions from 16 on are excluded.
#[verifier::external_body]
pub(crate) fn write_bit16(v: u16, i: usize, b: bool) -> (r: u16)
    requires
        i < 16,
    ensures
        r == set_bit16(v, i as u16, b),
{
    let mut v = v;
    v.view_bits_mut::<Lsb0>().set(i, b);
    v
}

/// Reverses a byte through `bitvec`: `BitView::view_bits_mut::<Lsb0>` followed
/// by `BitSlice::reverse`. Trusted to exchange bit `i` with bit `7 - i`.
#[verifier::external_body]
pub(crate) fn reverse8(v: u8) -> (r: u8)
    ensures
        r == reversed8(v),
{
    let mut v = v;
    v.view_bits_mut::<Lsb0>().reverse();
    v
}

/// Reading back a bit that was just written gives the written value, and the
/// other bits keep theirs.
pub proof fn law_set_then_test8(v: u8, i: u8, j: u8, b: bool)
    by (bit_vector)
    requires
        i < 8,
        j < 8,
    ensures
        bit8(set_bit8(v, i, b), j) == (if i == j {
            b
        } else {
            bit8(v, j)
        }),
{
}

/// A bit is set exactly when masking with its weight leaves something.
pub proof fn law_bit8_as_mask(v: u8, i: u8)
    by (bit_vector)
    requires
        i < 8,
    ensures
        bit8(v, i) == (v & (1u8 << i) != 0),
{
}

/// Bit `i` of the reversed byte is bit `7 - i` of the byte.
pub proof fn law_reversed8(v: u8, i: u8)
    by (bit_vector)
    requires
        i < 8,
    ensures
        bit8(reversed8(v), i) == bit8(v, (7 - i) as u8),
{
}

/// Reversing twice gives the byte back.
pub proof fn law_reversed8_involution(v: u8)
    by (bit_vector)
    ensures
        reversed8(reversed8(v)) == v,
{
}

/// A word is its high byte above its low byte.
pub proof fn lemma_word_of_bytes(word: u16)
    by (bit_vector)
    ensures
        ((((word >> 8) as u8) as u16) << 8) | ((word as u8) as u16) == word,
{
}

} // verus!
