use vstd::prelude::*;

verus! {

/// How an instruction finds its operand.
#[derive(Debug, Clone, Copy, PartialEq, Eq, Structural)]
pub enum AddressingMode {
    Implied,
    Accumulator,
    Immediate,
    ZeroPage,
    ZeroPageX,
    ZeroPageY,
    Absolute,
    AbsoluteX,
    AbsoluteY,
    Indirect,
    IndirectX,
    IndirectY,
    Relative,
}

/// The official 6502 instruction mnemonics.
#[derive(Debug, Clone, Copy, PartialEq, Eq, Structural)]
pub enum Mnemonic {
    // Load / store
    LDA,
    LDX,
    LDY,
    STA,
    STX,
    STY,
    // Register transfers
    TAX,
    TAY,
    TXA,
    TYA,
    TSX,
    TXS,
    // Stack
    PHA,
    PHP,
    PLA,
    PLP,
    // Logical
    AND,
    EOR,
    ORA,
    BIT,
    // Arithmetic
    ADC,
    SBC,
    CMP,
    CPX,
    CPY,
    // Increments / decrements
    INC,
    INX,
    INY,
    DEC,
    DEX,
    DEY,
    // Shifts
    ASL,
    LSR,
    ROL,
    ROR,
    // Jumps / calls
    JMP,
    JSR,
    RTS,
    // Branches
    BCC,
    BCS,
    BEQ,
    BMI,
    BNE,
    BPL,
    BVC,
    BVS,
    // Status flag changes
    CLC,
    CLD,
    CLI,
    CLV,
    SEC,
    SED,
    SEI,
    // System
    BRK,
    NOP,
    RTI,
}

/// A decoded opcode: what to do and where its operand comes from.
#[derive(Debug, Clone, Copy, PartialEq, Eq, Structural)]
pub struct Instruction {
    pub mnemonic: Mnemonic,
    pub mode: AddressingMode,
}

/// A resolved operand: none, the accumulator, or a memory address.
#[derive(Debug, Clone, Copy, PartialEq, Eq, Structural)]
pub enum Operand {
    Implied,
    Accumulator,
    Address(u16),
}

/// Number of operand bytes that follow the opcode in a given mode.
pub open spec fn operand_size(mode: AddressingMode) -> nat {
    match mode {
        AddressingMode::Implied | AddressingMode::Accumulator => 0,
        AddressingMode::Absolute | AddressingMode::AbsoluteX | AddressingMode::AbsoluteY
        | AddressingMode::Indirect => 2,
        _ => 1,
    }
}

/// The opcode table of the official 6502 instruction set: the instruction that
/// a byte encodes, or `None` for a byte that encodes no official instruction.
pub open spec fn opcode_table(byte: u8) -> Option<Instruction> {
    match byte {
        0x00 => Some(Instruction { mnemonic: Mnemonic::BRK, mode: AddressingMode::Implied }),
        0x01 => Some(Instruction { mnemonic: Mnemonic::ORA, mode: AddressingMode::IndirectX }),
        0x05 => Some(Instruction { mnemonic: Mnemonic::ORA, mode: AddressingMode::ZeroPage }),
        0x06 => Some(Instruction { mnemonic: Mnemonic::ASL, mode: AddressingMode::ZeroPage }),
        0x08 => Some(Instruction { mnemonic: Mnemonic::PHP, mode: AddressingMode::Implied }),
        0x09 => Some(Instruction { mnemonic: Mnemonic::ORA, mode: AddressingMode::Immediate }),
        0x0A => Some(Instruction { mnemonic: Mnemonic::ASL, mode: AddressingMode::Accumulator }),
        0x0D => Some(Instruction { mnemonic: Mnemonic::ORA, mode: AddressingMode::Absolute }),
        0x0E => Some(Instruction { mnemonic: Mnemonic::ASL, mode: AddressingMode::Absolute }),
        0x10 => Some(Instruction { mnemonic: Mnemonic::BPL, mode: AddressingMode::Relative }),
        0x11 => Some(Instruction { mnemonic: Mnemonic::ORA, mode: AddressingMode::IndirectY }),
        0x15 => Some(Instruction { mnemonic: Mnemonic::ORA, mode: AddressingMode::ZeroPageX }),
        0x16 => Some(Instruction { mnemonic: Mnemonic::ASL, mode: AddressingMode::ZeroPageX }),
        0x18 => Some(Instruction { mnemonic: Mnemonic::CLC, mode: AddressingMode::Implied }),
        0x19 => Some(Instruction { mnemonic: Mnemonic::ORA, mode: AddressingMode::AbsoluteY }),
        0x1D => Some(Instruction { mnemonic: Mnemonic::ORA, mode: AddressingMode::AbsoluteX }),
        0x1E => Some(Instruction { mnemonic: Mnemonic::ASL, mode: AddressingMode::AbsoluteX }),
        0x20 => Some(Instruction { mnemonic: Mnemonic::JSR, mode: AddressingMode::Absolute }),
        0x21 => Some(Instruction { mnemonic: Mnemonic::AND, mode: AddressingMode::IndirectX }),
        0x24 => Some(Instruction { mnemonic: Mnemonic::BIT, mode: AddressingMode::ZeroPage }),
        0x25 => Some(Instruction { mnemonic: Mnemonic::AND, mode: AddressingMode::ZeroPage }),
        0x26 => Some(Instruction { mnemonic: Mnemonic::ROL, mode: AddressingMode::ZeroPage }),
        0x28 => Some(Instruction { mnemonic: Mnemonic::PLP, mode: AddressingMode::Implied }),
        0x29 => Some(Instruction { mnemonic: Mnemonic::AND, mode: AddressingMode::Immediate }),
        0x2A => Some(Instruction { mnemonic: Mnemonic::ROL, mode: AddressingMode::Accumulator }),
        0x2C => Some(Instruction { mnemonic: Mnemonic::BIT, mode: AddressingMode::Absolute }),
        0x2D => Some(Instruction { mnemonic: Mnemonic::AND, mode: AddressingMode::Absolute }),
        0x2E => Some(Instruction { mnemonic: Mnemonic::ROL, mode: AddressingMode::Absolute }),
        0x30 => Some(Instruction { mnemonic: Mnemonic::BMI, mode: AddressingMode::Relative }),
        0x31 => Some(Instruction { mnemonic: Mnemonic::AND, mode: AddressingMode::IndirectY }),
        0x35 => Some(Instruction { mnemonic: Mnemonic::AND, mode: AddressingMode::ZeroPageX }),
        0x36 => Some(Instruction { mnemonic: Mnemonic::ROL, mode: AddressingMode::ZeroPageX }),
        0x38 => Some(Instruction { mnemonic: Mnemonic::SEC, mode: AddressingMode::Implied }),
        0x39 => Some(Instruction { mnemonic: Mnemonic::AND, mode: AddressingMode::AbsoluteY }),
        0x3D => Some(Instruction { mnemonic: Mnemonic::AND, mode: AddressingMode::AbsoluteX }),
        0x3E => Some(Instruction { mnemonic: Mnemonic::ROL, mode: AddressingMode::AbsoluteX }),
        0x40 => Some(Instruction { mnemonic: Mnemonic::RTI, mode: AddressingMode::Implied }),
        0x41 => Some(Instruction { mnemonic: Mnemonic::EOR, mode: AddressingMode::IndirectX }),
        0x45 => Some(Instruction { mnemonic: Mnemonic::EOR, mode: AddressingMode::ZeroPage }),
        0x46 => Some(Instruction { mnemonic: Mnemonic::LSR, mode: AddressingMode::ZeroPage }),
        0x48 => Some(Instruction { mnemonic: Mnemonic::PHA, mode: AddressingMode::Implied }),
        0x49 => Some(Instruction { mnemonic: Mnemonic::EOR, mode: AddressingMode::Immediate }),
        0x4A => Some(Instruction { mnemonic: Mnemonic::LSR, mode: AddressingMode::Accumulator }),
        0x4C => Some(Instruction { mnemonic: Mnemonic::JMP, mode: AddressingMode::Absolute }),
        0x4D => Some(Instruction { mnemonic: Mnemonic::EOR, mode: AddressingMode::Absolute }),
        0x4E => Some(Instruction { mnemonic: Mnemonic::LSR, mode: AddressingMode::Absolute }),
        0x50 => Some(Instruction { mnemonic: Mnemonic::BVC, mode: AddressingMode::Relative }),
        0x51 => Some(Instruction { mnemonic: Mnemonic::EOR, mode: AddressingMode::IndirectY }),
        0x55 => Some(Instruction { mnemonic: Mnemonic::EOR, mode: AddressingMode::ZeroPageX }),
        0x56 => Some(Instruction { mnemonic: Mnemonic::LSR, mode: AddressingMode::ZeroPageX }),
        0x58 => Some(Instruction { mnemonic: Mnemonic::CLI, mode: AddressingMode::Implied }),
        0x59 => Some(Instruction { mnemonic: Mnemonic::EOR, mode: AddressingMode::AbsoluteY }),
        0x5D => Some(Instruction { mnemonic: Mnemonic::EOR, mode: AddressingMode::AbsoluteX }),
        0x5E => Some(Instruction { mnemonic: Mnemonic::LSR, mode: AddressingMode::AbsoluteX }),
        0x60 => Some(Instruction { mnemonic: Mnemonic::RTS, mode: AddressingMode::Implied }),
        0x61 => Some(Instruction { mnemonic: Mnemonic::ADC, mode: AddressingMode::IndirectX }),
        0x65 => Some(Instruction { mnemonic: Mnemonic::ADC, mode: AddressingMode::ZeroPage }),
        0x66 => Some(Instruction { mnemonic: Mnemonic::ROR, mode: AddressingMode::ZeroPage }),
        0x68 => Some(Instruction { mnemonic: Mnemonic::PLA, mode: AddressingMode::Implied }),
        0x69 => Some(Instruction { mnemonic: Mnemonic::ADC, mode: AddressingMode::Immediate }),
        0x6A => Some(Instruction { mnemonic: Mnemonic::ROR, mode: AddressingMode::Accumulator }),
        0x6C => Some(Instruction { mnemonic: Mnemonic::JMP, mode: AddressingMode::Indirect }),
        0x6D => Some(Instruction { mnemonic: Mnemonic::ADC, mode: AddressingMode::Absolute }),
        0x6E => Some(Instruction { mnemonic: Mnemonic::ROR, mode: AddressingMode::Absolute }),
        0x70 => Some(Instruction { mnemonic: Mnemonic::BVS, mode: AddressingMode::Relative }),
        0x71 => Some(Instruction { mnemonic: Mnemonic::ADC, mode: AddressingMode::IndirectY }),
        0x75 => Some(Instruction { mnemonic: Mnemonic::ADC, mode: AddressingMode::ZeroPageX }),
        0x76 => Some(Instruction { mnemonic: Mnemonic::ROR, mode: AddressingMode::ZeroPageX }),
        0x78 => Some(Instruction { mnemonic: Mnemonic::SEI, mode: AddressingMode::Implied }),
        0x79 => Some(Instruction { mnemonic: Mnemonic::ADC, mode: AddressingMode::AbsoluteY }),
        0x7D => Some(Instruction { mnemonic: Mnemonic::ADC, mode: AddressingMode::AbsoluteX }),
        0x7E => Some(Instruction { mnemonic: Mnemonic::ROR, mode: AddressingMode::AbsoluteX }),
        0x81 => Some(Instruction { mnemonic: Mnemonic::STA, mode: AddressingMode::IndirectX }),
        0x84 => Some(Instruction { mnemonic: Mnemonic::STY, mode: AddressingMode::ZeroPage }),
        0x85 => Some(Instruction { mnemonic: Mnemonic::STA, mode: AddressingMode::ZeroPage }),
        0x86 => Some(Instruction { mnemonic: Mnemonic::STX, mode: AddressingMode::ZeroPage }),
        0x88 => Some(Instruction { mnemonic: Mnemonic::DEY, mode: AddressingMode::Implied }),
        0x8A => Some(Instruction { mnemonic: Mnemonic::TXA, mode: AddressingMode::Implied }),
        0x8C => Some(Instruction { mnemonic: Mnemonic::STY, mode: AddressingMode::Absolute }),
        0x8D => Some(Instruction { mnemonic: Mnemonic::STA, mode: AddressingMode::Absolute }),
        0x8E => Some(Instruction { mnemonic: Mnemonic::STX, mode: AddressingMode::Absolute }),
        0x90 => Some(Instruction { mnemonic: Mnemonic::BCC, mode: AddressingMode::Relative }),
        0x91 => Some(Instruction { mnemonic: Mnemonic::STA, mode: AddressingMode::IndirectY }),
        0x94 => Some(Instruction { mnemonic: Mnemonic::STY, mode: AddressingMode::ZeroPageX }),
        0x95 => Some(Instruction { mnemonic: Mnemonic::STA, mode: AddressingMode::ZeroPageX }),
        0x96 => Some(Instruction { mnemonic: Mnemonic::STX, mode: AddressingMode::ZeroPageY }),
        0x98 => Some(Instruction { mnemonic: Mnemonic::TYA, mode: AddressingMode::Implied }),
        0x99 => Some(Instruction { mnemonic: Mnemonic::STA, mode: AddressingMode::AbsoluteY }),
        0x9A => Some(Instruction { mnemonic: Mnemonic::TXS, mode: AddressingMode::Implied }),
        0x9D => Some(Instruction { mnemonic: Mnemonic::STA, mode: AddressingMode::AbsoluteX }),
        0xA0 => Some(Instruction { mnemonic: Mnemonic::LDY, mode: AddressingMode::Immediate }),
        0xA1 => Some(Instruction { mnemonic: Mnemonic::LDA, mode: AddressingMode::IndirectX }),
        0xA2 => Some(Instruction { mnemonic: Mnemonic::LDX, mode: AddressingMode::Immediate }),
        0xA4 => Some(Instruction { mnemonic: Mnemonic::LDY, mode: AddressingMode::ZeroPage }),
        0xA5 => Some(Instruction { mnemonic: Mnemonic::LDA, mode: AddressingMode::ZeroPage }),
        0xA6 => Some(Instruction { mnemonic: Mnemonic::LDX, mode: AddressingMode::ZeroPage }),
        0xA8 => Some(Instruction { mnemonic: Mnemonic::TAY, mode: AddressingMode::Implied }),
        0xA9 => Some(Instruction { mnemonic: Mnemonic::LDA, mode: AddressingMode::Immediate }),
        0xAA => Some(Instruction { mnemonic: Mnemonic::TAX, mode: AddressingMode::Implied }),
        0xAC => Some(Instruction { mnemonic: Mnemonic::LDY, mode: AddressingMode::Absolute }),
        0xAD => Some(Instruction { mnemonic: Mnemonic::LDA, mode: AddressingMode::Absolute }),
        0xAE => Some(Instruction { mnemonic: Mnemonic::LDX, mode: AddressingMode::Absolute }),
        0xB0 => Some(Instruction { mnemonic: Mnemonic::BCS, mode: AddressingMode::Relative }),
        0xB1 => Some(Instruction { mnemonic: Mnemonic::LDA, mode: AddressingMode::IndirectY }),
        0xB4 => Some(Instruction { mnemonic: Mnemonic::LDY, mode: AddressingMode::ZeroPageX }),
        0xB5 => Some(Instruction { mnemonic: Mnemonic::LDA, mode: AddressingMode::ZeroPageX }),
        0xB6 => Some(Instruction { mnemonic: Mnemonic::LDX, mode: AddressingMode::ZeroPageY }),
        0xB8 => Some(Instruction { mnemonic: Mnemonic::CLV, mode: AddressingMode::Implied }),
        0xB9 => Some(Instruction { mnemonic: Mnemonic::LDA, mode: AddressingMode::AbsoluteY }),
        0xBA => Some(Instruction { mnemonic: Mnemonic::TSX, mode: AddressingMode::Implied }),
        0xBC => Some(Instruction { mnemonic: Mnemonic::LDY, mode: AddressingMode::AbsoluteX }),
        0xBD => Some(Instruction { mnemonic: Mnemonic::LDA, mode: AddressingMode::AbsoluteX }),
        0xBE => Some(Instruction { mnemonic: Mnemonic::LDX, mode: AddressingMode::AbsoluteY }),
        0xC0 => Some(Instruction { mnemonic: Mnemonic::CPY, mode: AddressingMode::Immediate }),
        0xC1 => Some(Instruction { mnemonic: Mnemonic::CMP, mode: AddressingMode::IndirectX }),
        0xC4 => Some(Instruction { mnemonic: Mnemonic::CPY, mode: AddressingMode::ZeroPage }),
        0xC5 => Some(Instruction { mnemonic: Mnemonic::CMP, mode: AddressingMode::ZeroPage }),
        0xC6 => Some(Instruction { mnemonic: Mnemonic::DEC, mode: AddressingMode::ZeroPage }),
        0xC8 => Some(Instruction { mnemonic: Mnemonic::INY, mode: AddressingMode::Implied }),
        0xC9 => Some(Instruction { mnemonic: Mnemonic::CMP, mode: AddressingMode::Immediate }),
        0xCA => Some(Instruction { mnemonic: Mnemonic::DEX, mode: AddressingMode::Implied }),
        0xCC => Some(Instruction { mnemonic: Mnemonic::CPY, mode: AddressingMode::Absolute }),
        0xCD => Some(Instruction { mnemonic: Mnemonic::CMP, mode: AddressingMode::Absolute }),
        0xCE => Some(Instruction { mnemonic: Mnemonic::DEC, mode: AddressingMode::Absolute }),
        0xD0 => Some(Instruction { mnemonic: Mnemonic::BNE, mode: AddressingMode::Relative }),
        0xD1 => Some(Instruction { mnemonic: Mnemonic::CMP, mode: AddressingMode::IndirectY }),
        0xD5 => Some(Instruction { mnemonic: Mnemonic::CMP, mode: AddressingMode::ZeroPageX }),
        0xD6 => Some(Instruction { mnemonic: Mnemonic::DEC, mode: AddressingMode::ZeroPageX }),
        0xD8 => Some(Instruction { mnemonic: Mnemonic::CLD, mode: AddressingMode::Implied }),
        0xD9 => Some(Instruction { mnemonic: Mnemonic::CMP, mode: AddressingMode::AbsoluteY }),
        0xDD => Some(Instruction { mnemonic: Mnemonic::CMP, mode: AddressingMode::AbsoluteX }),
        0xDE => Some(Instruction { mnemonic: Mnemonic::DEC, mode: AddressingMode::AbsoluteX }),
        0xE0 => Some(Instruction { mnemonic: Mnemonic::CPX, mode: AddressingMode::Immediate }),
        0xE1 => Some(Instruction { mnemonic: Mnemonic::SBC, mode: AddressingMode::IndirectX }),
        0xE4 => Some(Instruction { mnemonic: Mnemonic::CPX, mode: AddressingMode::ZeroPage }),
        0xE5 => Some(Instruction { mnemonic: Mnemonic::SBC, mode: AddressingMode::ZeroPage }),
        0xE6 => Some(Instruction { mnemonic: Mnemonic::INC, mode: AddressingMode::ZeroPage }),
        0xE8 => Some(Instruction { mnemonic: Mnemonic::INX, mode: AddressingMode::Implied }),
        0xE9 => Some(Instruction { mnemonic: Mnemonic::SBC, mode: AddressingMode::Immediate }),
        0xEA => Some(Instruction { mnemonic: Mnemonic::NOP, mode: AddressingMode::Implied }),
        0xEC => Some(Instruction { mnemonic: Mnemonic::CPX, mode: AddressingMode::Absolute }),
        0xED => Some(Instruction { mnemonic: Mnemonic::SBC, mode: AddressingMode::Absolute }),
        0xEE => Some(Instruction { mnemonic: Mnemonic::INC, mode: AddressingMode::Absolute }),
        0xF0 => Some(Instruction { mnemonic: Mnemonic::BEQ, mode: AddressingMode::Relative }),
        0xF1 => Some(Instruction { mnemonic: Mnemonic::SBC, mode: AddressingMode::IndirectY }),
        0xF5 => Some(Instruction { mnemonic: Mnemonic::SBC, mode: AddressingMode::ZeroPageX }),
        0xF6 => Some(Instruction { mnemonic: Mnemonic::INC, mode: AddressingMode::ZeroPageX }),
        0xF8 => Some(Instruction { mnemonic: Mnemonic::SED, mode: AddressingMode::Implied }),
        0xF9 => Some(Instruction { mnemonic: Mnemonic::SBC, mode: AddressingMode::AbsoluteY }),
        0xFD => Some(Instruction { mnemonic: Mnemonic::SBC, mode: AddressingMode::AbsoluteX }),
        0xFE => Some(Instruction { mnemonic: Mnemonic::INC, mode: AddressingMode::AbsoluteX }),
        _ => None,
    }
}

/// The same table read the other way, mnemonic by mnemonic as 6502 reference
/// cards list it: the opcode byte of each official mnemonic and mode.
pub open spec fn opcode_for(mn: Mnemonic, mode: AddressingMode) -> Option<u8> {
    match mn {
        Mnemonic::ADC => match mode {
            AddressingMode::Immediate => Some(0x69u8),
            AddressingMode::ZeroPage => Some(0x65u8),
            AddressingMode::ZeroPageX => Some(0x75u8),
            AddressingMode::Absolute => Some(0x6Du8),
            AddressingMode::AbsoluteX => Some(0x7Du8),
            AddressingMode::AbsoluteY => Some(0x79u8),
            AddressingMode::IndirectX => Some(0x61u8),
            AddressingMode::IndirectY => Some(0x71u8),
            _ => None,
        },
        Mnemonic::AND => match mode {
            AddressingMode::Immediate => Some(0x29u8),
            AddressingMode::ZeroPage => Some(0x25u8),
            AddressingMode::ZeroPageX => Some(0x35u8),
            AddressingMode::Absolute => Some(0x2Du8),
            AddressingMode::AbsoluteX => Some(0x3Du8),
            AddressingMode::AbsoluteY => Some(0x39u8),
            AddressingMode::IndirectX => Some(0x21u8),
            AddressingMode::IndirectY => Some(0x31u8),
            _ => None,
        },
        Mnemonic::ASL => match mode {
            AddressingMode::Accumulator => Some(0x0Au8),
            AddressingMode::ZeroPage => Some(0x06u8),
            AddressingMode::ZeroPageX => Some(0x16u8),
            AddressingMode::Absolute => Some(0x0Eu8),
            AddressingMode::AbsoluteX => Some(0x1Eu8),
            _ => None,
        },
        Mnemonic::BCC => if mode == AddressingMode::Relative {
            Some(0x90u8)
        } else {
            None
        },
        Mnemonic::BCS => if mode == AddressingMode::Relative {
            Some(0xB0u8)
        } else {
            None
        },
        Mnemonic::BEQ => if mode == AddressingMode::Relative {
            Some(0xF0u8)
        } else {
            None
        },
        Mnemonic::BIT => match mode {
            AddressingMode::ZeroPage => Some(0x24u8),
            AddressingMode::Absolute => Some(0x2Cu8),
            _ => None,
        },
        Mnemonic::BMI => if mode == AddressingMode::Relative {
            Some(0x30u8)
        } else {
            None
        },
        Mnemonic::BNE => if mode == AddressingMode::Relative {
            Some(0xD0u8)
        } else {
            None
        },
        Mnemonic::BPL => if mode == AddressingMode::Relative {
            Some(0x10u8)
        } else {
            None
        },
        Mnemonic::BRK => if mode == AddressingMode::Implied {
            Some(0x00u8)
        } else {
            None
        },
        Mnemonic::BVC => if mode == AddressingMode::Relative {
            Some(0x50u8)
        } else {
            None
        },
        Mnemonic::BVS => if mode == AddressingMode::Relative {
            Some(0x70u8)
        } else {
            None
        },
        Mnemonic::CLC => if mode == AddressingMode::Implied {
            Some(0x18u8)
        } else {
            None
        },
        Mnemonic::CLD => if mode == AddressingMode::Implied {
            Some(0xD8u8)
        } else {
            None
        },
        Mnemonic::CLI => if mode == AddressingMode::Implied {
            Some(0x58u8)
        } else {
            None
        },
        Mnemonic::CLV => if mode == AddressingMode::Implied {
            Some(0xB8u8)
        } else {
            None
        },
        Mnemonic::CMP => match mode {
            AddressingMode::Immediate => Some(0xC9u8),
            AddressingMode::ZeroPage => Some(0xC5u8),
            AddressingMode::ZeroPageX => Some(0xD5u8),
            AddressingMode::Absolute => Some(0xCDu8),
            AddressingMode::AbsoluteX => Some(0xDDu8),
            AddressingMode::AbsoluteY => Some(0xD9u8),
            AddressingMode::IndirectX => Some(0xC1u8),
            AddressingMode::IndirectY => Some(0xD1u8),
            _ => None,
        },
        Mnemonic::CPX => match mode {
            AddressingMode::Immediate => Some(0xE0u8),
            AddressingMode::ZeroPage => Some(0xE4u8),
            AddressingMode::Absolute => Some(0xECu8),
            _ => None,
        },
        Mnemonic::CPY => match mode {
            AddressingMode::Immediate => Some(0xC0u8),
            AddressingMode::ZeroPage => Some(0xC4u8),
            AddressingMode::Absolute => Some(0xCCu8),
            _ => None,
        },
        Mnemonic::DEC => match mode {
            AddressingMode::ZeroPage => Some(0xC6u8),
            AddressingMode::ZeroPageX => Some(0xD6u8),
            AddressingMode::Absolute => Some(0xCEu8),
            AddressingMode::AbsoluteX => Some(0xDEu8),
            _ => None,
        },
        Mnemonic::DEX => if mode == AddressingMode::Implied {
            Some(0xCAu8)
        } else {
            None
        },
        Mnemonic::DEY => if mode == AddressingMode::Implied {
            Some(0x88u8)
        } else {
            None
        },
        Mnemonic::EOR => match mode {
            AddressingMode::Immediate => Some(0x49u8),
            AddressingMode::ZeroPage => Some(0x45u8),
            AddressingMode::ZeroPageX => Some(0x55u8),
            AddressingMode::Absolute => Some(0x4Du8),
            AddressingMode::AbsoluteX => Some(0x5Du8),
            AddressingMode::AbsoluteY => Some(0x59u8),
            AddressingMode::IndirectX => Some(0x41u8),
            AddressingMode::IndirectY => Some(0x51u8),
            _ => None,
        },
        Mnemonic::INC => match mode {
            AddressingMode::ZeroPage => Some(0xE6u8),
            AddressingMode::ZeroPageX => Some(0xF6u8),
            AddressingMode::Absolute => Some(0xEEu8),
            AddressingMode::AbsoluteX => Some(0xFEu8),
            _ => None,
        },
        Mnemonic::INX => if mode == AddressingMode::Implied {
            Some(0xE8u8)
        } else {
            None
        },
        Mnemonic::INY => if mode == AddressingMode::Implied {
            Some(0xC8u8)
        } else {
            None
        },
        Mnemonic::JMP => match mode {
            AddressingMode::Absolute => Some(0x4Cu8),
            AddressingMode::Indirect => Some(0x6Cu8),
            _ => None,
        },
        Mnemonic::JSR => if mode == AddressingMode::Absolute {
            Some(0x20u8)
        } else {
            None
        },
        Mnemonic::LDA => match mode {
            AddressingMode::Immediate => Some(0xA9u8),
            AddressingMode::ZeroPage => Some(0xA5u8),
            AddressingMode::ZeroPageX => Some(0xB5u8),
            AddressingMode::Absolute => Some(0xADu8),
            AddressingMode::AbsoluteX => Some(0xBDu8),
            AddressingMode::AbsoluteY => Some(0xB9u8),
            AddressingMode::IndirectX => Some(0xA1u8),
            AddressingMode::IndirectY => Some(0xB1u8),
            _ => None,
        },
        Mnemonic::LDX => match mode {
            AddressingMode::Immediate => Some(0xA2u8),
            AddressingMode::ZeroPage => Some(0xA6u8),
            AddressingMode::ZeroPageY => Some(0xB6u8),
            AddressingMode::Absolute => Some(0xAEu8),
            AddressingMode::AbsoluteY => Some(0xBEu8),
            _ => None,
        },
        Mnemonic::LDY => match mode {
            AddressingMode::Immediate => Some(0xA0u8),
            AddressingMode::ZeroPage => Some(0xA4u8),
            AddressingMode::ZeroPageX => Some(0xB4u8),
            AddressingMode::Absolute => Some(0xACu8),
            AddressingMode::AbsoluteX => Some(0xBCu8),
            _ => None,
        },
        Mnemonic::LSR => match mode {
            AddressingMode::Accumulator => Some(0x4Au8),
            AddressingMode::ZeroPage => Some(0x46u8),
            AddressingMode::ZeroPageX => Some(0x56u8),
            AddressingMode::Absolute => Some(0x4Eu8),
            AddressingMode::AbsoluteX => Some(0x5Eu8),
            _ => None,
        },
        Mnemonic::NOP => if mode == AddressingMode::Implied {
            Some(0xEAu8)
        } else {
            None
        },
        Mnemonic::ORA => match mode {
            AddressingMode::Immediate => Some(0x09u8),
            AddressingMode::ZeroPage => Some(0x05u8),
            AddressingMode::ZeroPageX => Some(0x15u8),
            AddressingMode::Absolute => Some(0x0Du8),
            AddressingMode::AbsoluteX => Some(0x1Du8),
            AddressingMode::AbsoluteY => Some(0x19u8),
            AddressingMode::IndirectX => Some(0x01u8),
            AddressingMode::IndirectY => Some(0x11u8),
            _ => None,
        },
        Mnemonic::PHA => if mode == AddressingMode::Implied {
            Some(0x48u8)
        } else {
            None
        },
        Mnemonic::PHP => if mode == AddressingMode::Implied {
            Some(0x08u8)
        } else {
            None
        },
        Mnemonic::PLA => if mode == AddressingMode::Implied {
            Some(0x68u8)
        } else {
            None
        },
        Mnemonic::PLP => if mode == AddressingMode::Implied {
            Some(0x28u8)
        } else {
            None
        },
        Mnemonic::ROL => match mode {
            AddressingMode::Accumulator => Some(0x2Au8),
            AddressingMode::ZeroPage => Some(0x26u8),
            AddressingMode::ZeroPageX => Some(0x36u8),
            AddressingMode::Absolute => Some(0x2Eu8),
            AddressingMode::AbsoluteX => Some(0x3Eu8),
            _ => None,
        },
        Mnemonic::ROR => match mode {
            AddressingMode::Accumulator => Some(0x6Au8),
            AddressingMode::ZeroPage => Some(0x66u8),
            AddressingMode::ZeroPageX => Some(0x76u8),
            AddressingMode::Absolute => Some(0x6Eu8),
            AddressingMode::AbsoluteX => Some(0x7Eu8),
            _ => None,
        },
        Mnemonic::RTI => if mode == AddressingMode::Implied {
            Some(0x40u8)
        } else {
            None
        },
        Mnemonic::RTS => if mode == AddressingMode::Implied {
            Some(0x60u8)
        } else {
            None
        },
        Mnemonic::SBC => match mode {
            AddressingMode::Immediate => Some(0xE9u8),
            AddressingMode::ZeroPage => Some(0xE5u8),
            AddressingMode::ZeroPageX => Some(0xF5u8),
            AddressingMode::Absolute => Some(0xEDu8),
            AddressingMode::AbsoluteX => Some(0xFDu8),
            AddressingMode::AbsoluteY => Some(0xF9u8),
            AddressingMode::IndirectX => Some(0xE1u8),
            AddressingMode::IndirectY => Some(0xF1u8),
            _ => None,
        },
        Mnemonic::SEC => if mode == AddressingMode::Implied {
            Some(0x38u8)
        } else {
            None
        },
        Mnemonic::SED => if mode == AddressingMode::Implied {
            Some(0xF8u8)
        } else {
            None
        },
        Mnemonic::SEI => if mode == AddressingMode::Implied {
            Some(0x78u8)
        } else {
            None
        },
        Mnemonic::STA => match mode {
            AddressingMode::ZeroPage => Some(0x85u8),
            AddressingMode::ZeroPageX => Some(0x95u8),
            AddressingMode::Absolute => Some(0x8Du8),
            AddressingMode::AbsoluteX => Some(0x9Du8),
            AddressingMode::AbsoluteY => Some(0x99u8),
            AddressingMode::IndirectX => Some(0x81u8),
            AddressingMode::IndirectY => Some(0x91u8),
            _ => None,
        },
        Mnemonic::STX => match mode {
            AddressingMode::ZeroPage => Some(0x86u8),
            AddressingMode::ZeroPageY => Some(0x96u8),
            AddressingMode::Absolute => Some(0x8Eu8),
            _ => None,
        },
        Mnemonic::STY => match mode {
            AddressingMode::ZeroPage => Some(0x84u8),
            AddressingMode::ZeroPageX => Some(0x94u8),
            AddressingMode::Absolute => Some(0x8Cu8),
            _ => None,
        },
        Mnemonic::TAX => if mode == AddressingMode::Implied {
            Some(0xAAu8)
        } else {
            None
        },
        Mnemonic::TAY => if mode == AddressingMode::Implied {
            Some(0xA8u8)
        } else {
            None
        },
        Mnemonic::TSX => if mode == AddressingMode::Implied {
            Some(0xBAu8)
        } else {
            None
        },
        Mnemonic::TXA => if mode == AddressingMode::Implied {
            Some(0x8Au8)
        } else {
            None
        },
        Mnemonic::TXS => if mode == AddressingMode::Implied {
            Some(0x9Au8)
        } else {
            None
        },
        Mnemonic::TYA => if mode == AddressingMode::Implied {
            Some(0x98u8)
        } else {
            None
        },
    }
}

/// Both tables list the same pairs: decoding the byte of an instruction gives
/// that instruction back.
pub proof fn lemma_encode_decode(mn: Mnemonic, mode: AddressingMode)
    ensures
        opcode_for(mn, mode) matches Some(b) ==> opcode_table(b) == Some(
            Instruction { mnemonic: mn, mode },
        ),
{
}

/// Both tables list the same pairs: a byte that decodes to an instruction is
/// that instruction's byte.
pub proof fn lemma_decode_encode(b: u8)
    ensures
        opcode_table(b) matches Some(i) ==> opcode_for(i.mnemonic, i.mode) == Some(b),
{
}

/// Looks an opcode byte up in the instruction table.
pub fn decode(byte: u8) -> (found: Option<Instruction>)
    ensures
        found == opcode_table(byte),
{
    match byte {
        0x00 => Some(Instruction { mnemonic: Mnemonic::BRK, mode: AddressingMode::Implied }),
        0x01 => Some(Instruction { mnemonic: Mnemonic::ORA, mode: AddressingMode::IndirectX }),
        0x05 => Some(Instruction { mnemonic: Mnemonic::ORA, mode: AddressingMode::ZeroPage }),
        0x06 => Some(Instruction { mnemonic: Mnemonic::ASL, mode: AddressingMode::ZeroPage }),
        0x08 => Some(Instruction { mnemonic: Mnemonic::PHP, mode: AddressingMode::Implied }),
        0x09 => Some(Instruction { mnemonic: Mnemonic::ORA, mode: AddressingMode::Immediate }),
        0x0A => Some(Instruction { mnemonic: Mnemonic::ASL, mode: AddressingMode::Accumulator }),
        0x0D => Some(Instruction { mnemonic: Mnemonic::ORA, mode: AddressingMode::Absolute }),
        0x0E => Some(Instruction { mnemonic: Mnemonic::ASL, mode: AddressingMode::Absolute }),
        0x10 => Some(Instruction { mnemonic: Mnemonic::BPL, mode: AddressingMode::Relative }),
        0x11 => Some(Instruction { mnemonic: Mnemonic::ORA, mode: AddressingMode::IndirectY }),
        0x15 => Some(Instruction { mnemonic: Mnemonic::ORA, mode: AddressingMode::ZeroPageX }),
        0x16 => Some(Instruction { mnemonic: Mnemonic::ASL, mode: AddressingMode::ZeroPageX }),
        0x18 => Some(Instruction { mnemonic: Mnemonic::CLC, mode: AddressingMode::Implied }),
        0x19 => Some(Instruction { mnemonic: Mnemonic::ORA, mode: AddressingMode::AbsoluteY }),
        0x1D => Some(Instruction { mnemonic: Mnemonic::ORA, mode: AddressingMode::AbsoluteX }),
        0x1E => Some(Instruction { mnemonic: Mnemonic::ASL, mode: AddressingMode::AbsoluteX }),
        0x20 => Some(Instruction { mnemonic: Mnemonic::JSR, mode: AddressingMode::Absolute }),
        0x21 => Some(Instruction { mnemonic: Mnemonic::AND, mode: AddressingMode::IndirectX }),
        0x24 => Some(Instruction { mnemonic: Mnemonic::BIT, mode: AddressingMode::ZeroPage }),
        0x25 => Some(Instruction { mnemonic: Mnemonic::AND, mode: AddressingMode::ZeroPage }),
        0x26 => Some(Instruction { mnemonic: Mnemonic::ROL, mode: AddressingMode::ZeroPage }),
        0x28 => Some(Instruction { mnemonic: Mnemonic::PLP, mode: AddressingMode::Implied }),
        0x29 => Some(Instruction { mnemonic: Mnemonic::AND, mode: AddressingMode::Immediate }),
        0x2A => Some(Instruction { mnemonic: Mnemonic::ROL, mode: AddressingMode::Accumulator }),
        0x2C => Some(Instruction { mnemonic: Mnemonic::BIT, mode: AddressingMode::Absolute }),
        0x2D => Some(Instruction { mnemonic: Mnemonic::AND, mode: AddressingMode::Absolute }),
        0x2E => Some(Instruction { mnemonic: Mnemonic::ROL, mode: AddressingMode::Absolute }),
        0x30 => Some(Instruction { mnemonic: Mnemonic::BMI, mode: AddressingMode::Relative }),
        0x31 => Some(Instruction { mnemonic: Mnemonic::AND, mode: AddressingMode::IndirectY }),
        0x35 => Some(Instruction { mnemonic: Mnemonic::AND, mode: AddressingMode::ZeroPageX }),
        0x36 => Some(Instruction { mnemonic: Mnemonic::ROL, mode: AddressingMode::ZeroPageX }),
        0x38 => Some(Instruction { mnemonic: Mnemonic::SEC, mode: AddressingMode::Implied }),
        0x39 => Some(Instruction { mnemonic: Mnemonic::AND, mode: AddressingMode::AbsoluteY }),
        0x3D => Some(Instruction { mnemonic: Mnemonic::AND, mode: AddressingMode::AbsoluteX }),
        0x3E => Some(Instruction { mnemonic: Mnemonic::ROL, mode: AddressingMode::AbsoluteX }),
        0x40 => Some(Instruction { mnemonic: Mnemonic::RTI, mode: AddressingMode::Implied }),
        0x41 => Some(Instruction { mnemonic: Mnemonic::EOR, mode: AddressingMode::IndirectX }),
        0x45 => Some(Instruction { mnemonic: Mnemonic::EOR, mode: AddressingMode::ZeroPage }),
        0x46 => Some(Instruction { mnemonic: Mnemonic::LSR, mode: AddressingMode::ZeroPage }),
        0x48 => Some(Instruction { mnemonic: Mnemonic::PHA, mode: AddressingMode::Implied }),
        0x49 => Some(Instruction { mnemonic: Mnemonic::EOR, mode: AddressingMode::Immediate }),
        0x4A => Some(Instruction { mnemonic: Mnemonic::LSR, mode: AddressingMode::Accumulator }),
        0x4C => Some(Instruction { mnemonic: Mnemonic::JMP, mode: AddressingMode::Absolute }),
        0x4D => Some(Instruction { mnemonic: Mnemonic::EOR, mode: AddressingMode::Absolute }),
        0x4E => Some(Instruction { mnemonic: Mnemonic::LSR, mode: AddressingMode::Absolute }),
        0x50 => Some(Instruction { mnemonic: Mnemonic::BVC, mode: AddressingMode::Relative }),
        0x51 => Some(Instruction { mnemonic: Mnemonic::EOR, mode: AddressingMode::IndirectY }),
        0x55 => Some(Instruction { mnemonic: Mnemonic::EOR, mode: AddressingMode::ZeroPageX }),
        0x56 => Some(Instruction { mnemonic: Mnemonic::LSR, mode: AddressingMode::ZeroPageX }),
        0x58 => Some(Instruction { mnemonic: Mnemonic::CLI, mode: AddressingMode::Implied }),
        0x59 => Some(Instruction { mnemonic: Mnemonic::EOR, mode: AddressingMode::AbsoluteY }),
        0x5D => Some(Instruction { mnemonic: Mnemonic::EOR, mode: AddressingMode::AbsoluteX }),
        0x5E => Some(Instruction { mnemonic: Mnemonic::LSR, mode: AddressingMode::AbsoluteX }),
        0x60 => Some(Instruction { mnemonic: Mnemonic::RTS, mode: AddressingMode::Implied }),
        0x61 => Some(Instruction { mnemonic: Mnemonic::ADC, mode: AddressingMode::IndirectX }),
        0x65 => Some(Instruction { mnemonic: Mnemonic::ADC, mode: AddressingMode::ZeroPage }),
        0x66 => Some(Instruction { mnemonic: Mnemonic::ROR, mode: AddressingMode::ZeroPage }),
        0x68 => Some(Instruction { mnemonic: Mnemonic::PLA, mode: AddressingMode::Implied }),
        0x69 => Some(Instruction { mnemonic: Mnemonic::ADC, mode: AddressingMode::Immediate }),
        0x6A => Some(Instruction { mnemonic: Mnemonic::ROR, mode: AddressingMode::Accumulator }),
        0x6C => Some(Instruction { mnemonic: Mnemonic::JMP, mode: AddressingMode::Indirect }),
        0x6D => Some(Instruction { mnemonic: Mnemonic::ADC, mode: AddressingMode::Absolute }),
        0x6E => Some(Instruction { mnemonic: Mnemonic::ROR, mode: AddressingMode::Absolute }),
        0x70 => Some(Instruction { mnemonic: Mnemonic::BVS, mode: AddressingMode::Relative }),
        0x71 => Some(Instruction { mnemonic: Mnemonic::ADC, mode: AddressingMode::IndirectY }),
        0x75 => Some(Instruction { mnemonic: Mnemonic::ADC, mode: AddressingMode::ZeroPageX }),
        0x76 => Some(Instruction { mnemonic: Mnemonic::ROR, mode: AddressingMode::ZeroPageX }),
        0x78 => Some(Instruction { mnemonic: Mnemonic::SEI, mode: AddressingMode::Implied }),
        0x79 => Some(Instruction { mnemonic: Mnemonic::ADC, mode: AddressingMode::AbsoluteY }),
        0x7D => Some(Instruction { mnemonic: Mnemonic::ADC, mode: AddressingMode::AbsoluteX }),
        0x7E => Some(Instruction { mnemonic: Mnemonic::ROR, mode: AddressingMode::AbsoluteX }),
        0x81 => Some(Instruction { mnemonic: Mnemonic::STA, mode: AddressingMode::IndirectX }),
        0x84 => Some(Instruction { mnemonic: Mnemonic::STY, mode: AddressingMode::ZeroPage }),
        0x85 => Some(Instruction { mnemonic: Mnemonic::STA, mode: AddressingMode::ZeroPage }),
        0x86 => Some(Instruction { mnemonic: Mnemonic::STX, mode: AddressingMode::ZeroPage }),
        0x88 => Some(Instruction { mnemonic: Mnemonic::DEY, mode: AddressingMode::Implied }),
        0x8A => Some(Instruction { mnemonic: Mnemonic::TXA, mode: AddressingMode::Implied }),
        0x8C => Some(Instruction { mnemonic: Mnemonic::STY, mode: AddressingMode::Absolute }),
        0x8D => Some(Instruction { mnemonic: Mnemonic::STA, mode: AddressingMode::Absolute }),
        0x8E => Some(Instruction { mnemonic: Mnemonic::STX, mode: AddressingMode::Absolute }),
        0x90 => Some(Instruction { mnemonic: Mnemonic::BCC, mode: AddressingMode::Relative }),
        0x91 => Some(Instruction { mnemonic: Mnemonic::STA, mode: AddressingMode::IndirectY }),
        0x94 => Some(Instruction { mnemonic: Mnemonic::STY, mode: AddressingMode::ZeroPageX }),
        0x95 => Some(Instruction { mnemonic: Mnemonic::STA, mode: AddressingMode::ZeroPageX }),
        0x96 => Some(Instruction { mnemonic: Mnemonic::STX, mode: AddressingMode::ZeroPageY }),
        0x98 => Some(Instruction { mnemonic: Mnemonic::TYA, mode: AddressingMode::Implied }),
        0x99 => Some(Instruction { mnemonic: Mnemonic::STA, mode: AddressingMode::AbsoluteY }),
        0x9A => Some(Instruction { mnemonic: Mnemonic::TXS, mode: AddressingMode::Implied }),
        0x9D => Some(Instruction { mnemonic: Mnemonic::STA, mode: AddressingMode::AbsoluteX }),
        0xA0 => Some(Instruction { mnemonic: Mnemonic::LDY, mode: AddressingMode::Immediate }),
        0xA1 => Some(Instruction { mnemonic: Mnemonic::LDA, mode: AddressingMode::IndirectX }),
        0xA2 => Some(Instruction { mnemonic: Mnemonic::LDX, mode: AddressingMode::Immediate }),
        0xA4 => Some(Instruction { mnemonic: Mnemonic::LDY, mode: AddressingMode::ZeroPage }),
        0xA5 => Some(Instruction { mnemonic: Mnemonic::LDA, mode: AddressingMode::ZeroPage }),
        0xA6 => Some(Instruction { mnemonic: Mnemonic::LDX, mode: AddressingMode::ZeroPage }),
        0xA8 => Some(Instruction { mnemonic: Mnemonic::TAY, mode: AddressingMode::Implied }),
        0xA9 => Some(Instruction { mnemonic: Mnemonic::LDA, mode: AddressingMode::Immediate }),
        0xAA => Some(Instruction { mnemonic: Mnemonic::TAX, mode: AddressingMode::Implied }),
        0xAC => Some(Instruction { mnemonic: Mnemonic::LDY, mode: AddressingMode::Absolute }),
        0xAD => Some(Instruction { mnemonic: Mnemonic::LDA, mode: AddressingMode::Absolute }),
        0xAE => Some(Instruction { mnemonic: Mnemonic::LDX, mode: AddressingMode::Absolute }),
        0xB0 => Some(Instruction { mnemonic: Mnemonic::BCS, mode: AddressingMode::Relative }),
        0xB1 => Some(Instruction { mnemonic: Mnemonic::LDA, mode: AddressingMode::IndirectY }),
        0xB4 => Some(Instruction { mnemonic: Mnemonic::LDY, mode: AddressingMode::ZeroPageX }),
        0xB5 => Some(Instruction { mnemonic: Mnemonic::LDA, mode: AddressingMode::ZeroPageX }),
        0xB6 => Some(Instruction { mnemonic: Mnemonic::LDX, mode: AddressingMode::ZeroPageY }),
        0xB8 => Some(Instruction { mnemonic: Mnemonic::CLV, mode: AddressingMode::Implied }),
        0xB9 => Some(Instruction { mnemonic: Mnemonic::LDA, mode: AddressingMode::AbsoluteY }),
        0xBA => Some(Instruction { mnemonic: Mnemonic::TSX, mode: AddressingMode::Implied }),
        0xBC => Some(Instruction { mnemonic: Mnemonic::LDY, mode: AddressingMode::AbsoluteX }),
        0xBD => Some(Instruction { mnemonic: Mnemonic::LDA, mode: AddressingMode::AbsoluteX }),
        0xBE => Some(Instruction { mnemonic: Mnemonic::LDX, mode: AddressingMode::AbsoluteY }),
        0xC0 => Some(Instruction { mnemonic: Mnemonic::CPY, mode: AddressingMode::Immediate }),
        0xC1 => Some(Instruction { mnemonic: Mnemonic::CMP, mode: AddressingMode::IndirectX }),
        0xC4 => Some(Instruction { mnemonic: Mnemonic::CPY, mode: AddressingMode::ZeroPage }),
        0xC5 => Some(Instruction { mnemonic: Mnemonic::CMP, mode: AddressingMode::ZeroPage }),
        0xC6 => Some(Instruction { mnemonic: Mnemonic::DEC, mode: AddressingMode::ZeroPage }),
        0xC8 => Some(Instruction { mnemonic: Mnemonic::INY, mode: AddressingMode::Implied }),
        0xC9 => Some(Instruction { mnemonic: Mnemonic::CMP, mode: AddressingMode::Immediate }),
        0xCA => Some(Instruction { mnemonic: Mnemonic::DEX, mode: AddressingMode::Implied }),
        0xCC => Some(Instruction { mnemonic: Mnemonic::CPY, mode: AddressingMode::Absolute }),
        0xCD => Some(Instruction { mnemonic: Mnemonic::CMP, mode: AddressingMode::Absolute }),
        0xCE => Some(Instruction { mnemonic: Mnemonic::DEC, mode: AddressingMode::Absolute }),
        0xD0 => Some(Instruction { mnemonic: Mnemonic::BNE, mode: AddressingMode::Relative }),
        0xD1 => Some(Instruction { mnemonic: Mnemonic::CMP, mode: AddressingMode::IndirectY }),
        0xD5 => Some(Instruction { mnemonic: Mnemonic::CMP, mode: AddressingMode::ZeroPageX }),
        0xD6 => Some(Instruction { mnemonic: Mnemonic::DEC, mode: AddressingMode::ZeroPageX }),
        0xD8 => Some(Instruction { mnemonic: Mnemonic::CLD, mode: AddressingMode::Implied }),
        0xD9 => Some(Instruction { mnemonic: Mnemonic::CMP, mode: AddressingMode::AbsoluteY }),
        0xDD => Some(Instruction { mnemonic: Mnemonic::CMP, mode: AddressingMode::AbsoluteX }),
        0xDE => Some(Instruction { mnemonic: Mnemonic::DEC, mode: AddressingMode::AbsoluteX }),
        0xE0 => Some(Instruction { mnemonic: Mnemonic::CPX, mode: AddressingMode::Immediate }),
        0xE1 => Some(Instruction { mnemonic: Mnemonic::SBC, mode: AddressingMode::IndirectX }),
        0xE4 => Some(Instruction { mnemonic: Mnemonic::CPX, mode: AddressingMode::ZeroPage }),
        0xE5 => Some(Instruction { mnemonic: Mnemonic::SBC, mode: AddressingMode::ZeroPage }),
        0xE6 => Some(Instruction { mnemonic: Mnemonic::INC, mode: AddressingMode::ZeroPage }),
        0xE8 => Some(Instruction { mnemonic: Mnemonic::INX, mode: AddressingMode::Implied }),
        0xE9 => Some(Instruction { mnemonic: Mnemonic::SBC, mode: AddressingMode::Immediate }),
        0xEA => Some(Instruction { mnemonic: Mnemonic::NOP, mode: AddressingMode::Implied }),
        0xEC => Some(Instruction { mnemonic: Mnemonic::CPX, mode: AddressingMode::Absolute }),
        0xED => Some(Instruction { mnemonic: Mnemonic::SBC, mode: AddressingMode::Absolute }),
        0xEE => Some(Instruction { mnemonic: Mnemonic::INC, mode: AddressingMode::Absolute }),
        0xF0 => Some(Instruction { mnemonic: Mnemonic::BEQ, mode: AddressingMode::Relative }),
        0xF1 => Some(Instruction { mnemonic: Mnemonic::SBC, mode: AddressingMode::IndirectY }),
        0xF5 => Some(Instruction { mnemonic: Mnemonic::SBC, mode: AddressingMode::ZeroPageX }),
        0xF6 => Some(Instruction { mnemonic: Mnemonic::INC, mode: AddressingMode::ZeroPageX }),
        0xF8 => Some(Instruction { mnemonic: Mnemonic::SED, mode: AddressingMode::Implied }),
        0xF9 => Some(Instruction { mnemonic: Mnemonic::SBC, mode: AddressingMode::AbsoluteY }),
        0xFD => Some(Instruction { mnemonic: Mnemonic::SBC, mode: AddressingMode::AbsoluteX }),
        0xFE => Some(Instruction { mnemonic: Mnemonic::INC, mode: AddressingMode::AbsoluteX }),
        _ => None,
    }
}

} // verus!
