use vstd::prelude::*;

verus! {

/// The processor status register `P`, one field per flag that the CPU keeps.
///
/// In its byte form (see [`Status::to_byte`]) the flags sit at these bits:
/// carry 0, zero 1, interrupt-disable 2, decimal 3, overflow 6, negative 7.
/// Bit 4 (break) and bit 5 exist only in a pushed copy of the register.
#[derive(Debug, Clone, Copy)]
pub struct Status {
    pub carry: bool,
    pub zero: bool,
    pub interrupt: bool,
    pub decimal: bool,
    pub overflow: bool,
    pub negative: bool,
}

/// 1 for a set flag, 0 for a clear one.
pub open spec fn flag_value(b: bool) -> int {
    if b {
        1
    } else {
        0
    }
}

/// The status with every flag clear (the power-on and reset value).
pub open spec fn cleared_status() -> Status {
    Status {
        carry: false,
        zero: false,
        interrupt: false,
        decimal: false,
        overflow: false,
        negative: false,
    }
}

/// The byte that represents `s` on the stack, with bit 4 taken from `break_flag`
/// and bit 5 always set.
pub open spec fn status_byte(s: Status, break_flag: bool) -> int {
    flag_value(s.carry) + 2 * flag_value(s.zero) + 4 * flag_value(s.interrupt) + 8 * flag_value(
        s.decimal,
    ) + 16 * flag_value(break_flag) + 32 + 64 * flag_value(s.overflow) + 128 * flag_value(
        s.negative,
    )
}

/// The status that a byte stands for: bits 4 and 5 are ignored.
pub open spec fn status_from(b: u8) -> Status {
    Status {
        carry: b % 2 == 1,
        zero: (b / 2) % 2 == 1,
        interrupt: (b / 4) % 2 == 1,
        decimal: (b / 8) % 2 == 1,
        overflow: (b / 64) % 2 == 1,
        negative: (b / 128) % 2 == 1,
    }
}

impl Default for Status {
    fn default() -> (s: Self)
        ensures
            s == cleared_status(),
    {
        Status {
            carry: false,
            zero: false,
            interrupt: false,
            decimal: false,
            overflow: false,
            negative: false,
        }
    }
}

proof fn lemma_pack_bits(c: u8, z: u8, i: u8, d: u8, b: u8, v: u8, n: u8)
    requires
        c <= 1,
        z <= 1,
        i <= 1,
        d <= 1,
        b <= 1,
        v <= 1,
        n <= 1,
    ensures
        c | z << 1u8 | i << 2u8 | d << 3u8 | b << 4u8 | 1u8 << 5u8 | v << 6u8 | n << 7u8 == c + 2 * z
            + 4 * i + 8 * d + 16 * b + 32 + 64 * v + 128 * n,
{
    assert(c | z << 1u8 | i << 2u8 | d << 3u8 | b << 4u8 | 1u8 << 5u8 | v << 6u8 | n << 7u8 == c + 2
        * z + 4 * i + 8 * d + 16 * b + 32 + 64 * v + 128 * n) by (bit_vector)
        requires
            c <= 1,
            z <= 1,
            i <= 1,
            d <= 1,
            b <= 1,
            v <= 1,
            n <= 1,
    ;
}

proof fn lemma_masks(b: u8)
    ensures
        (b & 0b0000_0001 != 0) == (b % 2 == 1),
        (b & 0b0000_0010 != 0) == ((b / 2) % 2 == 1),
        (b & 0b0000_0100 != 0) == ((b / 4) % 2 == 1),
        (b & 0b0000_1000 != 0) == ((b / 8) % 2 == 1),
        (b & 0b0100_0000 != 0) == ((b / 64) % 2 == 1),
        (b & 0b1000_0000 != 0) == ((b / 128) % 2 == 1),
{
    assert(((b & 0b0000_0001 != 0) == (b % 2 == 1)) && ((b & 0b0000_0010 != 0) == ((b / 2) % 2
        == 1)) && ((b & 0b0000_0100 != 0) == ((b / 4) % 2 == 1)) && ((b & 0b0000_1000 != 0) == ((b
        / 8) % 2 == 1)) && ((b & 0b0100_0000 != 0) == ((b / 64) % 2 == 1)) && ((b & 0b1000_0000
        != 0) == ((b / 128) % 2 == 1))) by (bit_vector);
}

fn flag_bit(b: bool) -> (r: u8)
    ensures
        r == flag_value(b),
{
    if b {
        1
    } else {
        0
    }
}

impl Status {
    /// Packs the flags into a byte: carry in bit 0 up to negative in bit 7, with
    /// `break_flag` in bit 4 and bit 5 always set.
    pub fn to_byte(self, break_flag: bool) -> (byte: u8)
        ensures
            byte == status_byte(self, break_flag),
    {
        let c = flag_bit(self.carry);
        let z = flag_bit(self.zero);
        let i = flag_bit(self.interrupt);
        let d = flag_bit(self.decimal);
        let b = flag_bit(break_flag);
        let v = flag_bit(self.overflow);
        let n = flag_bit(self.negative);
        proof {
            lemma_pack_bits(c, z, i, d, b, v, n);
        }
        c | z << 1u8 | i << 2u8 | d << 3u8 | b << 4u8 | 1u8 << 5u8 | v << 6u8 | n << 7u8
    }

    /// Reads the flags back from a byte; bits 4 and 5 are ignored.
    pub fn from_byte(b: u8) -> (s: Self)
        ensures
            s == status_from(b),
    {
        proof {
            lemma_masks(b);
        }
        Status {
            carry: b & 0b0000_0001 != 0,
            zero: b & 0b0000_0010 != 0,
            interrupt: b & 0b0000_0100 != 0,
            decimal: b & 0b0000_1000 != 0,
            overflow: b & 0b0100_0000 != 0,
            negative: b & 0b1000_0000 != 0,
        }
    }
}

/// Reading back a pushed status gives the same flags, whatever the break bit was.
pub proof fn lemma_status_round_trip(s: Status, break_flag: bool)
    ensures
        0 <= status_byte(s, break_flag) < 256,
        status_from(status_byte(s, break_flag) as u8) == s,
{
}

/// Pushing a status read from `b` gives `b` back, except that bit 4 becomes the
/// break flag and bit 5 is set.
pub proof fn lemma_status_byte_of_byte(b: u8, break_flag: bool)
    ensures
        status_byte(status_from(b), break_flag) == (b & 0b1100_1111u8) | 0b0010_0000u8 | ((
        flag_value(break_flag) as u8) << 4u8),
{
    let f = flag_value(break_flag) as u8;
    assert((b % 2) + 2 * ((b / 2) % 2) + 4 * ((b / 4) % 2) + 8 * ((b / 8) % 2) + 16 * f + 32 + 64
        * ((b / 64) % 2) + 128 * ((b / 128) % 2) == (b & 0b1100_1111u8) | 0b0010_0000u8 | (f
        << 4u8)) by (bit_vector)
        requires
            f <= 1,
    ;
}

} // verus!
