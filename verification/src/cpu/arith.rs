use vstd::prelude::*;

verus! {

/// `n` reduced to a byte, as 8-bit hardware keeps it.
pub open spec fn wrap8(n: int) -> u8 {
    (n % 256) as u8
}

/// `n` reduced to 16 bits, as the address bus keeps it.
pub open spec fn wrap16(n: int) -> u16 {
    (n % 65536) as u16
}

/// The little-endian word made of a low and a high byte.
pub open spec fn word(lo: u8, hi: u8) -> u16 {
    (lo + 256 * hi) as u16
}

/// A byte read as a two's-complement number.
pub open spec fn signed8(b: u8) -> int {
    if b < 128 {
        b as int
    } else {
        b - 256
    }
}

/// Bit 7 of a byte, the sign bit.
pub open spec fn sign_bit(v: u8) -> bool {
    v >= 128
}

pub proof fn lemma_join_word(lo: u8, hi: u8)
    ensures
        ((hi as u16) << 8u16) | (lo as u16) == word(lo, hi),
{
    assert(((hi as u16) << 8u16) | (lo as u16) == lo + 256 * hi) by (bit_vector);
}

pub proof fn lemma_split_word(data: u16)
    ensures
        (data & 0xffu16) as u8 == data % 256,
        (data >> 8u16) as u8 == data / 256,
        data == word((data % 256) as u8, (data / 256) as u8),
{
    assert((data & 0xffu16) as u8 == data % 256) by (bit_vector);
    assert((data >> 8u16) as u8 == data / 256) by (bit_vector);
}

pub proof fn lemma_sign_mask(v: u8)
    ensures
        (v & 0b1000_0000u8 != 0) == sign_bit(v),
        (v & 0b0100_0000u8 != 0) == ((v / 64) % 2 == 1),
{
    assert((v & 0b1000_0000u8 != 0) == (v >= 128)) by (bit_vector);
    assert((v & 0b0100_0000u8 != 0) == ((v / 64) % 2 == 1)) by (bit_vector);
}

/// The page-wrapping address from which the indirect jump takes its high byte.
pub proof fn lemma_indirect_high(ptr: u16, next: u16)
    requires
        next == wrap16(ptr + 1),
    ensures
        (ptr & 0xFF00u16) | (next & 0x00FFu16) == (ptr / 256) * 256 + (ptr % 256 + 1) % 256,
{
    assert(ptr & 0xFF00u16 == ptr - ptr % 256u16) by (bit_vector);
    assert(next & 0x00FFu16 == next % 256u16) by (bit_vector);
    let hi = ptr & 0xFF00u16;
    let lo = next & 0x00FFu16;
    assert(hi | lo == hi + lo) by (bit_vector)
        requires
            hi % 256 == 0,
            lo < 256,
    ;
}

/// Sign extension of a branch offset to a 16-bit displacement.
pub proof fn lemma_sign_extend(b: u8, pc: u16)
    ensures
        pc.wrapping_add((b as i8) as u16) == wrap16(pc + signed8(b) + 65536),
{
    assert(b < 128 ==> #[verifier::truncate] ((b as i8) as u16) == b) by (bit_vector);
    assert(b >= 128 ==> #[verifier::truncate] ((b as i8) as u16) == b + 0xFF00) by (bit_vector);
}

pub proof fn lemma_shifts(v: u8, c: u8)
    requires
        c <= 1,
    ensures
        v << 1u8 == wrap8(2 * v),
        v >> 1u8 == v / 2,
        (v << 1u8) | c == wrap8(2 * v + c),
        (v >> 1u8) | (c << 7u8) == v / 2 + 128 * c,
        (v & 1u8 != 0) == (v % 2 == 1),
{
    assert(v << 1u8 == (2 * v) % 256) by (bit_vector);
    assert(v >> 1u8 == v / 2) by (bit_vector);
    assert((v << 1u8) | c == (2 * v + c) % 256) by (bit_vector)
        requires
            c <= 1,
    ;
    assert((v >> 1u8) | (c << 7u8) == v / 2 + 128 * c) by (bit_vector)
        requires
            c <= 1,
    ;
    assert((v & 1u8 != 0) == (v % 2 == 1)) by (bit_vector);
}

/// The overflow rule of an 8-bit add: the operands agree in sign and the
/// result does not.
pub proof fn lemma_add_overflow(a: u8, v: u8, c: u8, r: u8)
    requires
        c <= 1,
        r == wrap8(a + v + c),
    ensures
        ((a ^ r) & (v ^ r) & 0x80u8 != 0) == !(-128 <= signed8(a) + signed8(v) + c <= 127),
{
    assert(((a ^ r) & (v ^ r) & 0x80u8 != 0) == !(-128 <= (if a < 128 {
        a as int
    } else {
        a - 256
    }) + (if v < 128 {
        v as int
    } else {
        v - 256
    }) + c <= 127)) by (bit_vector)
        requires
            c <= 1,
            r == (a + v + c) % 256,
    ;
}

/// The complement of a byte, as used by subtraction.
pub proof fn lemma_complement(v: u8)
    ensures
        !v == 255 - v,
        signed8(!v) == -signed8(v) - 1,
{
    assert(!v == 255 - v) by (bit_vector);
}

} // verus!
