//! Arithmetic readings of the bit patterns the processor works with.
//!
//! Contracts in this crate speak of bytes as numbers (`v >= 128`, `v % 2`);
//! the executable code masks and shifts. The lemmas here connect the two.

use vstd::prelude::*;

verus! {

/// Single-bit masks on a byte, read as divisions.
pub proof fn lemma_masks(v: u8)
    by (bit_vector)
    ensures
        (v & 0x01u8 != 0) == (v % 2 == 1),
        (v & 0x02u8 != 0) == ((v / 2) % 2 == 1),
        (v & 0x04u8 != 0) == ((v / 4) % 2 == 1),
        (v & 0x08u8 != 0) == ((v / 8) % 2 == 1),
        (v & 0x10u8 != 0) == ((v / 16) % 2 == 1),
        (v & 0x20u8 != 0) == ((v / 32) % 2 == 1),
        (v & 0x40u8 != 0) == ((v / 64) % 2 == 1),
        (v & 0x80u8 != 0) == (v >= 128),
        (v & 0x80u8 > 0) == (v >= 128),
{
}

/// A word assembled from two bytes by shifting, read as a sum; and a word
/// taken apart by masking, read as remainder and quotient.
pub proof fn lemma_word(low: u8, high: u8)
    by (bit_vector)
    ensures
        (low as u16) | ((high as u16) << 8u16) == low as u16 + 256u16 * (high as u16),
        low as u16 + 256u16 * (high as u16) <= 0xFFFFu16,
{
}

/// The two halves of a word, taken by masking and shifting, are its
/// remainder and quotient by 256.
pub proof fn lemma_halves(w: u16)
    by (bit_vector)
    ensures
        (w & 0xFFu16) == w % 256u16,
        (w >> 8u16) == w / 256u16,
        (w & 0xFF00u16) == 256u16 * (w / 256u16),
{
}

/// The stack page ORed with a stack pointer is their sum.
pub proof fn lemma_stack(stack_pointer: u8)
    by (bit_vector)
    ensures
        0x100u16 | (stack_pointer as u16) == 0x100u16 + (stack_pointer as u16),
{
}

/// A byte reinterpreted as signed and widened to a word is the byte itself
/// below 128, and the byte with the high byte all ones from 128 on.
pub proof fn lemma_sign_extend(v: u8)
    by (bit_vector)
    ensures
        v < 128 ==> ((v as i8) as u16) == v as u16,
        v >= 128 ==> ((v as i8) as u16) == 0xFF00u16 + (v as u16),
{
}

/// Shifts of a byte by one place, and the bit that a rotation puts in.
proof fn lemma_shift_bits(v: u8)
    by (bit_vector)
    ensures
        v < 128 ==> (v << 1u8) == 2 * v,
        v >= 128 ==> (v << 1u8) == 2 * v - 256,
        (v >> 1u8) == v / 2u8,
        ((v << 1u8) | 1u8) == (v << 1u8) + 1,
        ((v >> 1u8) | 0x80u8) == (v >> 1u8) + 128,
{
}

/// Shifts of a byte by one place, read as doubling (with the ninth bit
/// dropped) and halving.
pub proof fn lemma_shifts(v: u8)
    ensures
        (v << 1u8) == (v * 2) % 256,
        (v >> 1u8) == v / 2,
        ((v << 1u8) | 1u8) == (v * 2) % 256 + 1,
        ((v >> 1u8) | 0x80u8) == v / 2 + 128,
{
    lemma_shift_bits(v);
}

/// The bitwise complement of a byte is its distance from 255.
pub proof fn lemma_complement(v: u8)
    by (bit_vector)
    ensures
        !v == 255 - v,
{
}

/// Bit 7 of the exclusive or of two bytes tells whether their signs differ.
pub proof fn lemma_signs(a: u8, b: u8)
    by (bit_vector)
    ensures
        ((a ^ b) & 0x80u8 == 0) == ((a >= 128) == (b >= 128)),
        ((a ^ b) & 0x80u8 != 0) == ((a >= 128) != (b >= 128)),
{
}

/// Setting bits 4 and 5 of a byte whose bit 5 is clear.
pub proof fn lemma_set_pushed_bits(v: u8)
    by (bit_vector)
    requires
        v & 0x20u8 == 0,
    ensures
        v & 0x10u8 != 0 ==> (v | 0x30u8) == v + 32,
        v & 0x10u8 == 0 ==> (v | 0x30u8) == v + 48,
{
}

} // verus!
