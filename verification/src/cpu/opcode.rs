use vstd::prelude::*;

verus! {

/// The opcode bytes with a name of their own; every other byte is kept as
/// `Unknown`.
#[derive(Clone, Copy, PartialEq, Eq, Debug, Structural)]
pub enum Opcode {
    LDA,
    BRK,
    Unknown(u8),
}

/// The opcode that a byte stands for.
pub open spec fn opcode_of(b: u8) -> Opcode {
    if b == 0xA9 {
        Opcode::LDA
    } else if b == 0x00 {
        Opcode::BRK
    } else {
        Opcode::Unknown(b)
    }
}

/// The byte that an opcode stands for.
pub open spec fn byte_of(op: Opcode) -> u8 {
    match op {
        Opcode::LDA => 0xA9,
        Opcode::BRK => 0x00,
        Opcode::Unknown(b) => b,
    }
}

impl From<u8> for Opcode {
    fn from(b: u8) -> (op: Opcode) {
        match b {
            0xA9 => Opcode::LDA,
            0x00 => Opcode::BRK,
            other => Opcode::Unknown(other),
        }
    }
}

impl vstd::std_specs::convert::FromSpecImpl<u8> for Opcode {
    open spec fn obeys_from_spec() -> bool {
        true
    }

    open spec fn from_spec(b: u8) -> Opcode {
        opcode_of(b)
    }
}

impl From<Opcode> for u8 {
    fn from(op: Opcode) -> (b: u8) {
        match op {
            Opcode::LDA => 0xA9,
            Opcode::BRK => 0x00,
            Opcode::Unknown(b) => b,
        }
    }
}

impl vstd::std_specs::convert::FromSpecImpl<Opcode> for u8 {
    open spec fn obeys_from_spec() -> bool {
        true
    }

    open spec fn from_spec(op: Opcode) -> u8 {
        byte_of(op)
    }
}

/// Turning a byte into an opcode and back gives the byte.
pub proof fn lemma_byte_round_trip(b: u8)
    ensures
        byte_of(opcode_of(b)) == b,
{
}

/// `0xA9` is `LDA`, `0x00` is `BRK`, and every other byte is `Unknown` with
/// that byte.
pub proof fn law_opcode_names(b: u8)
    ensures
        (opcode_of(b) == Opcode::LDA) == (b == 0xA9),
        (opcode_of(b) == Opcode::BRK) == (b == 0x00),
        (opcode_of(b) is Unknown) == (b != 0xA9 && b != 0x00),
        opcode_of(b) is Unknown ==> opcode_of(b) == Opcode::Unknown(b),
        byte_of(Opcode::Unknown(b)) == b,
{
}

/// A named opcode turns into its byte and back into itself.
pub proof fn lemma_named_round_trip(op: Opcode)
    requires
        !(op is Unknown),
    ensures
        opcode_of(byte_of(op)) == op,
{
}

} // verus!
