//! Small spec-level helpers for the 8/16-bit machine arithmetic the
//! processor core is built on: wrapping addition and subtraction, byte
//! extraction from 16-bit words, and sign extension of branch offsets.
use vstd::prelude::*;

verus! {

/// Wrapping 8-bit addition, as `u8::wrapping_add` computes it.
pub open spec fn wadd8(a: u8, b: u8) -> u8 {
    vstd::wrapping::u8_specs::wrapping_add(a, b)
}

/// Wrapping 8-bit subtraction, as `u8::wrapping_sub` computes it.
pub open spec fn wsub8(a: u8, b: u8) -> u8 {
    vstd::wrapping::u8_specs::wrapping_sub(a, b)
}

/// Wrapping 16-bit addition, as `u16::wrapping_add` computes it.
pub open spec fn wadd16(a: u16, b: u16) -> u16 {
    vstd::wrapping::u16_specs::wrapping_add(a, b)
}

/// Wrapping 16-bit subtraction, as `u16::wrapping_sub` computes it.
pub open spec fn wsub16(a: u16, b: u16) -> u16 {
    vstd::wrapping::u16_specs::wrapping_sub(a, b)
}

/// Wrapping 64-bit addition, used for the free-running cycle counter.
pub open spec fn wadd64(a: u64, b: u64) -> u64 {
    vstd::wrapping::u64_specs::wrapping_add(a, b)
}

/// The low byte of a 16-bit word.
pub open spec fn lo8(w: u16) -> u8 {
    (w & 0xFF) as u8
}

/// The high byte of a 16-bit word.
pub open spec fn hi8(w: u16) -> u8 {
    (w >> 8) as u8
}

/// A 16-bit word assembled little-endian from two bytes.
pub open spec fn make16(lo: u8, hi: u8) -> u16 {
    ((hi as u16) << 8) | (lo as u16)
}

/// A branch offset byte sign-extended to 16 bits, exactly as the cast
/// chain `u8 as i8 as u16` computes it.
pub open spec fn sign_ext8(j: u8) -> u16 {
    if j < 0x80 {
        j as u16
    } else {
        (j as int + 0xFF00) as u16
    }
}

pub proof fn lemma_shr8_bound(v: u16)
    by (bit_vector)
    ensures
        (v >> 8) < 256,
{
}

pub proof fn lemma_and_ff_bound(v: u16)
    by (bit_vector)
    ensures
        (v & 0xFF) < 256,
{
}

pub proof fn lemma_nib_hi_bound(v: u8)
    by (bit_vector)
    ensures
        (v >> 4) < 16,
{
}

pub proof fn lemma_nib_lo_bound(v: u8)
    by (bit_vector)
    ensures
        (v & 0xF) < 16,
{
}

/// Splitting a word into bytes and reassembling it is the identity, and
/// assembling two bytes then splitting returns the same bytes.
pub proof fn lemma_make16_split(w: u16, lo: u8, hi: u8)
    by (bit_vector)
    ensures
        make16(lo8(w), hi8(w)) == w,
        lo8(make16(lo, hi)) == lo,
        hi8(make16(lo, hi)) == hi,
{
}

/// Truncating a 16-bit value to a byte takes it modulo 256.
pub proof fn lemma_u16_as_u8(v: u16)
    by (bit_vector)
    ensures
        v as u8 == (v as int % 256) as u8,
{
}

/// The cast chain `u8 as i8 as u16` sign-extends the byte.
pub proof fn lemma_sign_ext8(j: u8)
    by (bit_vector)
    ensures
        (j as i8) as u16 == sign_ext8(j),
{
}

} // verus!
