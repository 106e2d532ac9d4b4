//! What the operations of the CPU do, stated directly over the bytes of memory
//! and the registers, with integer arithmetic in place of the helper functions
//! in which `semantics` is written.
use vstd::prelude::*;

use super::instruction::{AddressingMode, Mnemonic, Operand};
use super::instruction::{opcode_table, operand_size};
use super::semantics::{
    can_step, execute, flow_of, halts_after, load_state, power_on_state, read_word, reset_state,
    resolve_state, run_result, step_state, uses_target, well_formed, write_word, CpuState, Flow,
};
use super::arith::wrap8;
use super::semantics::{pulled, top};
use super::status::{status_byte, status_from, Status};

verus! {

/// A little-endian word is its low byte plus 256 times the byte after it,
/// the address after `0xFFFF` being `0x0000`.
pub proof fn law_read_word(m: CpuState, addr: u16)
    requires
        well_formed(m),
    ensures
        read_word(m, addr) == m.mem[addr as int] + 256 * m.mem[(addr + 1) % 65536],
{
}

// ---------------------------------------------------------------------------
// Addressing modes. `m.pc` points at the first byte after the opcode.
// ---------------------------------------------------------------------------
/// Modes without an operand byte consume nothing and change nothing.
pub proof fn law_resolve_no_operand(m: CpuState)
    ensures
        resolve_state(m, AddressingMode::Implied) == (m, Operand::Implied),
        resolve_state(m, AddressingMode::Accumulator) == (m, Operand::Accumulator),
{
}

/// Immediate: the operand is the byte after the opcode itself.
pub proof fn law_resolve_immediate(m: CpuState)
    requires
        well_formed(m),
        m.pc + 1 <= 0xFFFF,
    ensures
        resolve_state(m, AddressingMode::Immediate) == (CpuState { pc: (m.pc + 1) as u16, ..m }, Operand::Address(m.pc)),
{
}

/// Zero page, plain and indexed: the address is the operand byte, plus the index
/// register for the indexed forms, and wraps inside the zero page.
pub proof fn law_resolve_zero_page(m: CpuState)
    requires
        well_formed(m),
        m.pc + 1 <= 0xFFFF,
    ensures
        resolve_state(m, AddressingMode::ZeroPage) == (CpuState { pc: (m.pc + 1) as u16, ..m }, Operand::Address(m.mem[m.pc as int] as u16)),
        resolve_state(m, AddressingMode::ZeroPageX) == (CpuState { pc: (m.pc + 1) as u16, ..m }, Operand::Address(((m.mem[m.pc as int] + m.x) % 256) as u16)),
        resolve_state(m, AddressingMode::ZeroPageY) == (CpuState { pc: (m.pc + 1) as u16, ..m }, Operand::Address(((m.mem[m.pc as int] + m.y) % 256) as u16)),
{
}

/// Absolute, plain and indexed: the address is the little-endian operand word,
/// plus the index register for the indexed forms, modulo 65536.
pub proof fn law_resolve_absolute(m: CpuState)
    requires
        well_formed(m),
        m.pc + 2 <= 0xFFFF,
    ensures
        ({
            let w = m.mem[m.pc as int] + 256 * m.mem[m.pc + 1];
            let next = CpuState { pc: (m.pc + 2) as u16, ..m };
            &&& resolve_state(m, AddressingMode::Absolute) == (next, Operand::Address(w as u16))
            &&& resolve_state(m, AddressingMode::AbsoluteX) == (next, Operand::Address(((w + m.x) % 65536) as u16))
            &&& resolve_state(m, AddressingMode::AbsoluteY) == (next, Operand::Address(((w + m.y) % 65536) as u16))
        }),
{
}

/// Indirect (only `JMP` uses it): the target is the word stored at the pointer,
/// and its high byte is read from the same page as its low byte, so a pointer
/// at the end of a page takes the high byte from the start of that page.
pub proof fn law_resolve_indirect(m: CpuState)
    requires
        well_formed(m),
        m.pc + 2 <= 0xFFFF,
    ensures
        ({
            let lo_ptr = m.mem[m.pc as int];
            let hi_ptr = m.mem[m.pc + 1];
            let ptr = lo_ptr + 256 * hi_ptr;
            let hi_at = 256 * hi_ptr + (lo_ptr + 1) % 256;
            resolve_state(m, AddressingMode::Indirect) == (
                CpuState { pc: (m.pc + 2) as u16, ..m },
                Operand::Address((m.mem[ptr] + 256 * m.mem[hi_at]) as u16),
            )
        }),
{
}

/// Indexed indirect, `(zp,X)`: X is added to the zero-page operand (wrapping in
/// the zero page) and the address is the word stored there, whose high byte also
/// wraps in the zero page.
pub proof fn law_resolve_indexed_indirect(m: CpuState)
    requires
        well_formed(m),
        m.pc + 1 <= 0xFFFF,
    ensures
        ({
            let z = (m.mem[m.pc as int] + m.x) % 256;
            resolve_state(m, AddressingMode::IndirectX) == (
                CpuState { pc: (m.pc + 1) as u16, ..m },
                Operand::Address((m.mem[z] + 256 * m.mem[(z + 1) % 256]) as u16),
            )
        }),
{
}

/// Indirect indexed, `(zp),Y`: the 16-bit pointer stored in the zero page plus
/// Y, modulo 65536. The low byte of the address is the pointer's low byte plus Y
/// modulo 256, and the carry out of that sum goes into the high byte.
pub proof fn law_resolve_indirect_indexed(m: CpuState)
    requires
        well_formed(m),
        m.pc + 1 <= 0xFFFF,
    ensures
        ({
            let z = m.mem[m.pc as int];
            let lo = m.mem[z as int];
            let hi = m.mem[(z + 1) % 256];
            let carry = if lo + m.y >= 256 {
                1int
            } else {
                0int
            };
            &&& resolve_state(m, AddressingMode::IndirectY).0 == (CpuState { pc: (m.pc + 1) as u16, ..m })
            &&& resolve_state(m, AddressingMode::IndirectY).1 == Operand::Address(((lo + 256 * hi + m.y) % 65536) as u16)
            &&& resolve_state(m, AddressingMode::IndirectY).1 == Operand::Address(((lo + m.y) % 256 + 256 * ((hi + carry) % 256)) as u16)
        }),
{
    let z = m.mem[m.pc as int];
    let lo = m.mem[z as int];
    let hi = m.mem[(z + 1) % 256];
    let y = m.y;
    let carry = if lo + y >= 256 {
        1int
    } else {
        0int
    };
    assert((lo + 256 * hi + y) % 65536 == (lo + y) % 256 + 256 * ((hi + carry) % 256))
        by (nonlinear_arith)
        requires
            0 <= lo < 256,
            0 <= hi < 256,
            0 <= y < 256,
            carry == if lo + y >= 256 {
                1int
            } else {
                0int
            },
    {
        if lo + y >= 256 {
            assert(lo + 256 * hi + y == (lo + y - 256) + 256 * (hi + 1));
            if hi == 255 {
                assert((lo + 256 * hi + y) % 65536 == lo + y - 256);
            }
        }
    }
}

/// Relative: the target is the address after the offset byte, moved forward by
/// an offset below 128 and back by `256 - offset` otherwise, modulo 65536.
pub proof fn law_resolve_relative(m: CpuState)
    requires
        well_formed(m),
        m.pc + 1 <= 0xFFFF,
    ensures
        ({
            let off = m.mem[m.pc as int];
            let after = m.pc + 1;
            &&& resolve_state(m, AddressingMode::Relative).0 == (CpuState { pc: after as u16, ..m })
            &&& off < 128 ==> resolve_state(m, AddressingMode::Relative).1 == Operand::Address(((after + off) % 65536) as u16)
            &&& off >= 128 ==> resolve_state(m, AddressingMode::Relative).1 == Operand::Address(((after + 65536 - (256 - off)) % 65536) as u16)
        }),
{
}

// ---------------------------------------------------------------------------
// Instructions. Each law takes the operand as a memory address `addr` whose byte
// is `v = m.mem[addr]` (or the accumulator where the instruction allows it).
// ---------------------------------------------------------------------------
/// Loads copy the operand into the register; Z is set exactly when it is 0 and
/// N exactly when its bit 7 is set; nothing else changes.
pub proof fn law_loads(m: CpuState, addr: u16)
    requires
        well_formed(m),
    ensures
        ({
            let v = m.mem[addr as int];
            let s = Status { zero: v == 0, negative: v >= 128, ..m.status };
            &&& execute(m, Mnemonic::LDA, Operand::Address(addr)) == (CpuState { a: v, status: s, ..m })
            &&& execute(m, Mnemonic::LDX, Operand::Address(addr)) == (CpuState { x: v, status: s, ..m })
            &&& execute(m, Mnemonic::LDY, Operand::Address(addr)) == (CpuState { y: v, status: s, ..m })
        }),
{
}

/// Stores write the register to the addressed byte and change nothing else.
pub proof fn law_stores(m: CpuState, addr: u16)
    requires
        well_formed(m),
    ensures
        execute(m, Mnemonic::STA, Operand::Address(addr)) == (CpuState { mem: m.mem.update(addr as int, m.a), ..m }),
        execute(m, Mnemonic::STX, Operand::Address(addr)) == (CpuState { mem: m.mem.update(addr as int, m.x), ..m }),
        execute(m, Mnemonic::STY, Operand::Address(addr)) == (CpuState { mem: m.mem.update(addr as int, m.y), ..m }),
{
}

/// Transfers copy one register into another; all but `TXS` set Z and N from
/// the copied value.
pub proof fn law_transfers(m: CpuState, op: Operand)
    ensures
        execute(m, Mnemonic::TAX, op) == (CpuState { x: m.a, status: Status { zero: m.a == 0, negative: m.a >= 128, ..m.status }, ..m }),
        execute(m, Mnemonic::TAY, op) == (CpuState { y: m.a, status: Status { zero: m.a == 0, negative: m.a >= 128, ..m.status }, ..m }),
        execute(m, Mnemonic::TXA, op) == (CpuState { a: m.x, status: Status { zero: m.x == 0, negative: m.x >= 128, ..m.status }, ..m }),
        execute(m, Mnemonic::TYA, op) == (CpuState { a: m.y, status: Status { zero: m.y == 0, negative: m.y >= 128, ..m.status }, ..m }),
        execute(m, Mnemonic::TSX, op) == (CpuState { x: m.sp, status: Status { zero: m.sp == 0, negative: m.sp >= 128, ..m.status }, ..m }),
        execute(m, Mnemonic::TXS, op) == (CpuState { sp: m.x, ..m }),
{
}

/// `ADC` adds operand and carry to A modulo 256; carry out is set exactly when
/// the true sum exceeds 255, and overflow exactly when both inputs have the same
/// sign bit and the result has the other one.
#[verifier::spinoff_prover]
#[verifier::rlimit(40)]
pub proof fn law_adc(m: CpuState, addr: u16)
    requires
        well_formed(m),
    ensures
        ({
            let v = m.mem[addr as int];
            let c: int = if m.status.carry {
                1
            } else {
                0
            };
            let r = execute(m, Mnemonic::ADC, Operand::Address(addr));
            &&& r.a == (m.a + v + c) % 256
            &&& r.status.carry == (m.a + v + c >= 256)
            &&& r.status.overflow == ((m.a >= 128) == (v >= 128) && (r.a >= 128) != (m.a >= 128))
            &&& r.status.zero == (r.a == 0)
            &&& r.status.negative == (r.a >= 128)
            &&& r.status.interrupt == m.status.interrupt && r.status.decimal == m.status.decimal
            &&& r == (CpuState { a: r.a, status: r.status, ..m })
        }),
{
}

/// `SBC` subtracts the operand and the borrow (the clear carry) from A modulo
/// 256; carry is set exactly when no borrow was needed, and overflow exactly
/// when the inputs have different sign bits and the result's differs from A's.
#[verifier::spinoff_prover]
#[verifier::rlimit(40)]
pub proof fn law_sbc(m: CpuState, addr: u16)
    requires
        well_formed(m),
    ensures
        ({
            let v = m.mem[addr as int];
            let borrow: int = if m.status.carry {
                0
            } else {
                1
            };
            let r = execute(m, Mnemonic::SBC, Operand::Address(addr));
            &&& r.a == (m.a + 512 - v - borrow) % 256
            &&& r.status.carry == (m.a >= v + borrow)
            &&& r.status.overflow == ((m.a >= 128) != (v >= 128) && (r.a >= 128) != (m.a >= 128))
            &&& r.status.zero == (r.a == 0)
            &&& r.status.negative == (r.a >= 128)
            &&& r.status.interrupt == m.status.interrupt && r.status.decimal == m.status.decimal
            &&& r == (CpuState { a: r.a, status: r.status, ..m })
        }),
{
}

/// Compares leave the registers alone; carry says the register is at least the
/// operand, zero that they are equal, and negative is bit 7 of
/// `(register - operand) mod 256`.
pub proof fn law_compares(m: CpuState, addr: u16)
    requires
        well_formed(m),
    ensures
        ({
            let v = m.mem[addr as int];
            let flags = |reg: u8|
                Status {
                    carry: reg >= v,
                    zero: reg == v,
                    negative: (reg + 256 - v) % 256 >= 128,
                    ..m.status
                };
            &&& execute(m, Mnemonic::CMP, Operand::Address(addr)) == (CpuState { status: flags(m.a), ..m })
            &&& execute(m, Mnemonic::CPX, Operand::Address(addr)) == (CpuState { status: flags(m.x), ..m })
            &&& execute(m, Mnemonic::CPY, Operand::Address(addr)) == (CpuState { status: flags(m.y), ..m })
        }),
{
    let v = m.mem[addr as int];
    lemma_byte_difference(m.a, v);
    lemma_byte_difference(m.x, v);
    lemma_byte_difference(m.y, v);
}

/// `BIT` leaves A alone: zero says A and the operand share no set bit, negative
/// and overflow are bits 7 and 6 of the operand.
pub proof fn law_bit(m: CpuState, addr: u16)
    requires
        well_formed(m),
    ensures
        ({
            let v = m.mem[addr as int];
            execute(m, Mnemonic::BIT, Operand::Address(addr)) == (CpuState {
                status: Status {
                    zero: m.a & v == 0,
                    negative: v >= 128,
                    overflow: v % 128 >= 64,
                    ..m.status
                },
                ..m
            })
        }),
{
}

/// `AND`, `EOR`, `ORA` combine A with the operand bit by bit and set Z and N
/// from the result.
pub proof fn law_logic(m: CpuState, addr: u16)
    requires
        well_formed(m),
    ensures
        ({
            let v = m.mem[addr as int];
            &&& execute(m, Mnemonic::AND, Operand::Address(addr)) == (CpuState { a: m.a & v, status: Status { zero: m.a & v == 0, negative: m.a & v >= 128, ..m.status }, ..m })
            &&& execute(m, Mnemonic::EOR, Operand::Address(addr)) == (CpuState { a: m.a ^ v, status: Status { zero: m.a ^ v == 0, negative: m.a ^ v >= 128, ..m.status }, ..m })
            &&& execute(m, Mnemonic::ORA, Operand::Address(addr)) == (CpuState { a: m.a | v, status: Status { zero: m.a | v == 0, negative: m.a | v >= 128, ..m.status }, ..m })
        }),
{
}

/// `INC` and `DEC` step the addressed byte by one modulo 256 and set Z and N
/// from the new byte; carry and the registers are kept.
#[verifier::spinoff_prover]
#[verifier::rlimit(40)]
pub proof fn law_inc_dec_memory(m: CpuState, addr: u16)
    requires
        well_formed(m),
    ensures
        ({
            let v = m.mem[addr as int];
            let up = ((v + 1) % 256) as u8;
            let down = ((v + 255) % 256) as u8;
            &&& execute(m, Mnemonic::INC, Operand::Address(addr)) == (CpuState { mem: m.mem.update(addr as int, up), status: Status { zero: up == 0, negative: up >= 128, ..m.status }, ..m })
            &&& execute(m, Mnemonic::DEC, Operand::Address(addr)) == (CpuState { mem: m.mem.update(addr as int, down), status: Status { zero: down == 0, negative: down >= 128, ..m.status }, ..m })
        }),
{
}

/// `INX`, `INY`, `DEX`, `DEY` step the register by one modulo 256 and set Z and
/// N from it.
pub proof fn law_inc_dec_registers(m: CpuState, op: Operand)
    ensures
        execute(m, Mnemonic::INX, op).x == (m.x + 1) % 256,
        execute(m, Mnemonic::INY, op).y == (m.y + 1) % 256,
        execute(m, Mnemonic::DEX, op).x == (m.x + 255) % 256,
        execute(m, Mnemonic::DEY, op).y == (m.y + 255) % 256,
        execute(m, Mnemonic::INX, op) == (CpuState { x: execute(m, Mnemonic::INX, op).x, status: Status { zero: execute(m, Mnemonic::INX, op).x == 0, negative: execute(m, Mnemonic::INX, op).x >= 128, ..m.status }, ..m }),
        execute(m, Mnemonic::INY, op) == (CpuState { y: execute(m, Mnemonic::INY, op).y, status: Status { zero: execute(m, Mnemonic::INY, op).y == 0, negative: execute(m, Mnemonic::INY, op).y >= 128, ..m.status }, ..m }),
        execute(m, Mnemonic::DEX, op) == (CpuState { x: execute(m, Mnemonic::DEX, op).x, status: Status { zero: execute(m, Mnemonic::DEX, op).x == 0, negative: execute(m, Mnemonic::DEX, op).x >= 128, ..m.status }, ..m }),
        execute(m, Mnemonic::DEY, op) == (CpuState { y: execute(m, Mnemonic::DEY, op).y, status: Status { zero: execute(m, Mnemonic::DEY, op).y == 0, negative: execute(m, Mnemonic::DEY, op).y >= 128, ..m.status }, ..m }),
{
}

/// Shifts and rotates of the accumulator: the bit shifted out goes to carry,
/// `ROL`/`ROR` shift the old carry in, and Z and N follow the result.
pub proof fn law_shifts_accumulator(m: CpuState, op: Operand)
    requires
        op == Operand::Accumulator,
    ensures
        ({
            let v = m.a;
            let c: int = if m.status.carry {
                1
            } else {
                0
            };
            let f = |r: int, carry: bool|
                (CpuState { a: r as u8, status: Status { carry, zero: r == 0, negative: r >= 128, ..m.status }, ..m });
            &&& execute(m, Mnemonic::ASL, op) == f((2 * v) % 256, v >= 128)
            &&& execute(m, Mnemonic::LSR, op) == f(v as int / 2, v % 2 == 1)
            &&& execute(m, Mnemonic::ROL, op) == f((2 * v + c) % 256, v >= 128)
            &&& execute(m, Mnemonic::ROR, op) == f(v / 2 + 128 * c, v % 2 == 1)
        }),
{
}

/// Shifts and rotates of a memory byte: the same rule, written back to memory.
pub proof fn law_shifts_memory(m: CpuState, addr: u16)
    requires
        well_formed(m),
    ensures
        ({
            let v = m.mem[addr as int];
            let c: int = if m.status.carry {
                1
            } else {
                0
            };
            let op = Operand::Address(addr);
            let f = |r: int, carry: bool|
                (CpuState { mem: m.mem.update(addr as int, r as u8), status: Status { carry, zero: r == 0, negative: r >= 128, ..m.status }, ..m });
            &&& execute(m, Mnemonic::ASL, op) == f((2 * v) % 256, v >= 128)
            &&& execute(m, Mnemonic::LSR, op) == f(v as int / 2, v % 2 == 1)
            &&& execute(m, Mnemonic::ROL, op) == f((2 * v + c) % 256, v >= 128)
            &&& execute(m, Mnemonic::ROR, op) == f(v / 2 + 128 * c, v % 2 == 1)
        }),
{
}

// ---------------------------------------------------------------------------
// Stack, calls and returns. The stack lives at `0x0100 + sp`; a push stores at
// the stack pointer and moves it down, a pull moves it up and reads there.
// ---------------------------------------------------------------------------
/// `PHA` and `PHP` store one byte at `0x0100 + sp` and move the stack pointer
/// down by one; `PHP` stores the flags with bits 4 and 5 set.
pub proof fn law_pushes(m: CpuState, op: Operand)
    requires
        well_formed(m),
    ensures
        execute(m, Mnemonic::PHA, op) == (CpuState { sp: ((m.sp + 255) % 256) as u8, mem: m.mem.update(0x100 + m.sp, m.a), ..m }),
        execute(m, Mnemonic::PHP, op).sp == (m.sp + 255) % 256,
        execute(m, Mnemonic::PHP, op).mem == m.mem.update(0x100 + m.sp, status_byte(m.status, true) as u8),
        execute(m, Mnemonic::PHP, op) == (CpuState { sp: execute(m, Mnemonic::PHP, op).sp, mem: execute(m, Mnemonic::PHP, op).mem, ..m }),
{
}

/// The flags that a pushed status byte stands for: bit 0 carry, 1 zero,
/// 2 interrupt, 3 decimal, 6 overflow, 7 negative.
pub open spec fn flags_of_byte(b: int, s: Status) -> bool {
    &&& s.carry == (b % 2 == 1)
    &&& s.zero == (b % 4 >= 2)
    &&& s.interrupt == (b % 8 >= 4)
    &&& s.decimal == (b % 16 >= 8)
    &&& s.overflow == (b % 128 >= 64)
    &&& s.negative == (b >= 128)
}

proof fn lemma_flags_of_byte(b: u8)
    ensures
        flags_of_byte(b as int, status_from(b)),
{
    assert(((b / 2) % 2 == 1) == (b % 4 >= 2) && ((b / 4) % 2 == 1) == (b % 8 >= 4) && ((b / 8) % 2
        == 1) == (b % 16 >= 8) && ((b / 64) % 2 == 1) == (b % 128 >= 64) && ((b / 128) % 2 == 1)
        == (b >= 128)) by (bit_vector);
}

proof fn lemma_byte_difference(r: u8, v: u8)
    ensures
        wrap8(r - v) == (r + 256 - v) % 256,
{
    if r >= v {
        assert(r + 256 - v == (r - v) + 256);
    } else {
        assert(r - v + 256 == r + 256 - v);
    }
}

/// One pull: the stack pointer moves up by one and the byte read is the one at
/// `0x0100` plus the new stack pointer.
proof fn lemma_pull(m: CpuState)
    ensures
        pulled(m).sp == (m.sp + 1) % 256,
        top(m) == m.mem[0x100 + (m.sp + 1) % 256],
        pulled(m) == (CpuState { sp: pulled(m).sp, ..m }),
{
}

/// `PLA` and `PLP` move the stack pointer up by one and read the byte at
/// `0x0100 + sp` there, into A (with Z and N) or into the flags.
pub proof fn law_pulls(m: CpuState, op: Operand)
    requires
        well_formed(m),
    ensures
        ({
            let sp1 = (m.sp + 1) % 256;
            let b = m.mem[0x100 + sp1];
            &&& execute(m, Mnemonic::PLA, op) == (CpuState { a: b, sp: sp1 as u8, status: Status { zero: b == 0, negative: b >= 128, ..m.status }, ..m })
            &&& execute(m, Mnemonic::PLP, op) == (CpuState { sp: sp1 as u8, status: execute(m, Mnemonic::PLP, op).status, ..m })
            &&& flags_of_byte(b as int, execute(m, Mnemonic::PLP, op).status)
        }),
{
    lemma_pull(m);
    lemma_flags_of_byte(top(m));
}

/// `JSR` pushes the address of its own last byte, high byte first, moves the
/// stack pointer down by two and jumps.
#[verifier::spinoff_prover]
#[verifier::rlimit(40)]
pub proof fn law_jsr(m: CpuState, dest: u16)
    requires
        well_formed(m),
    ensures
        ({
            let ret = (m.pc + 65535) % 65536;
            let r = execute(m, Mnemonic::JSR, Operand::Address(dest));
            &&& r.pc == dest
            &&& r.sp == (m.sp + 254) % 256
            &&& r.mem == m.mem.update(0x100 + m.sp, (ret / 256) as u8).update(0x100 + (m.sp + 255) % 256, (ret % 256) as u8)
            &&& r == (CpuState { pc: dest, sp: r.sp, mem: r.mem, ..m })
        }),
{
}

/// `RTS` pulls the low then the high byte of an address, moves the stack
/// pointer up by two and continues one past that address.
#[verifier::spinoff_prover]
#[verifier::rlimit(40)]
pub proof fn law_rts(m: CpuState, op: Operand)
    requires
        well_formed(m),
    ensures
        ({
            let lo = m.mem[0x100 + (m.sp + 1) % 256];
            let hi = m.mem[0x100 + (m.sp + 2) % 256];
            execute(m, Mnemonic::RTS, op) == (CpuState {
                pc: ((lo + 256 * hi + 1) % 65536) as u16,
                sp: ((m.sp + 2) % 256) as u8,
                ..m
            })
        }),
{
    let p1 = pulled(m);
    let p2 = pulled(p1);
    lemma_pull(m);
    lemma_pull(p1);
    assert(((m.sp + 1) % 256 + 1) % 256 == (m.sp + 2) % 256);
    assert(top(p1) == m.mem[0x100 + (m.sp + 2) % 256]);
    let r = execute(m, Mnemonic::RTS, op);
    assert(r == (CpuState { pc: (((top(m) + 256 * top(p1)) as u16 + 1) % 65536) as u16, ..p2 }));
}

/// `RTI` pulls three bytes: the flags, then the low and high byte of the
/// return address, which it continues at; the stack pointer moves up by three.
#[verifier::spinoff_prover]
#[verifier::rlimit(40)]
pub proof fn law_rti(m: CpuState, op: Operand)
    requires
        well_formed(m),
    ensures
        ({
            let st = m.mem[0x100 + (m.sp + 1) % 256];
            let lo = m.mem[0x100 + (m.sp + 2) % 256];
            let hi = m.mem[0x100 + (m.sp + 3) % 256];
            let r = execute(m, Mnemonic::RTI, op);
            &&& r.pc == lo + 256 * hi
            &&& r.sp == (m.sp + 3) % 256
            &&& flags_of_byte(st as int, r.status)
            &&& r == (CpuState { pc: r.pc, sp: r.sp, status: r.status, ..m })
        }),
{
    let p1 = pulled(m);
    let p2 = pulled(p1);
    let p3 = pulled(p2);
    lemma_pull(m);
    lemma_pull(p1);
    lemma_pull(p2);
    assert(((m.sp + 1) % 256 + 1) % 256 == (m.sp + 2) % 256);
    assert(((m.sp + 2) % 256 + 1) % 256 == (m.sp + 3) % 256);
    assert(top(p1) == m.mem[0x100 + (m.sp + 2) % 256]);
    assert(top(p2) == m.mem[0x100 + (m.sp + 3) % 256]);
    lemma_flags_of_byte(top(m));
    let r = execute(m, Mnemonic::RTI, op);
    assert(r == (CpuState {
        status: status_from(top(m)),
        pc: (top(p1) + 256 * top(p2)) as u16,
        ..p3
    }));
}

// ---------------------------------------------------------------------------
// Control flow and flags
// ---------------------------------------------------------------------------
/// `JMP` continues at the operand address and changes nothing else.
pub proof fn law_jmp(m: CpuState, dest: u16)
    ensures
        execute(m, Mnemonic::JMP, Operand::Address(dest)) == (CpuState { pc: dest, ..m }),
{
}

/// A branch continues at its target exactly when its flag condition holds, and
/// otherwise changes nothing.
pub proof fn law_branches(m: CpuState, dest: u16)
    ensures
        ({
            let op = Operand::Address(dest);
            let go = |cond: bool|
                if cond {
                    CpuState { pc: dest, ..m }
                } else {
                    m
                };
            &&& execute(m, Mnemonic::BCC, op) == go(!m.status.carry)
            &&& execute(m, Mnemonic::BCS, op) == go(m.status.carry)
            &&& execute(m, Mnemonic::BEQ, op) == go(m.status.zero)
            &&& execute(m, Mnemonic::BNE, op) == go(!m.status.zero)
            &&& execute(m, Mnemonic::BMI, op) == go(m.status.negative)
            &&& execute(m, Mnemonic::BPL, op) == go(!m.status.negative)
            &&& execute(m, Mnemonic::BVS, op) == go(m.status.overflow)
            &&& execute(m, Mnemonic::BVC, op) == go(!m.status.overflow)
        }),
{
}

/// Each flag instruction sets or clears its one flag and nothing else.
pub proof fn law_flag_instructions(m: CpuState, op: Operand)
    ensures
        execute(m, Mnemonic::CLC, op) == (CpuState { status: Status { carry: false, ..m.status }, ..m }),
        execute(m, Mnemonic::SEC, op) == (CpuState { status: Status { carry: true, ..m.status }, ..m }),
        execute(m, Mnemonic::CLD, op) == (CpuState { status: Status { decimal: false, ..m.status }, ..m }),
        execute(m, Mnemonic::SED, op) == (CpuState { status: Status { decimal: true, ..m.status }, ..m }),
        execute(m, Mnemonic::CLI, op) == (CpuState { status: Status { interrupt: false, ..m.status }, ..m }),
        execute(m, Mnemonic::SEI, op) == (CpuState { status: Status { interrupt: true, ..m.status }, ..m }),
        execute(m, Mnemonic::CLV, op) == (CpuState { status: Status { overflow: false, ..m.status }, ..m }),
{
}

/// `NOP` and `BRK` change nothing; `BRK` is the one instruction that halts.
pub proof fn law_nop_brk(m: CpuState, op: Operand, mn: Mnemonic)
    ensures
        execute(m, Mnemonic::NOP, op) == m,
        execute(m, Mnemonic::BRK, op) == m,
        (flow_of(mn) == Flow::Halt) == (mn == Mnemonic::BRK),
{
}

/// Writing a word stores its low byte at `addr` and its high byte at the next
/// address, the address after `0xFFFF` being `0x0000`.
pub proof fn law_write_word(m: CpuState, addr: u16, data: u16)
    requires
        well_formed(m),
    ensures
        write_word(m, addr, data) == (CpuState {
            mem: m.mem.update(addr as int, (data % 256) as u8).update(
                (addr + 1) % 65536,
                (data / 256) as u8,
            ),
            ..m
        }),
{
}

/// At power-on every register, flag and memory byte is zero.
pub proof fn law_power_on()
    ensures
        ({
            let m = power_on_state();
            &&& m.a == 0 && m.x == 0 && m.y == 0 && m.sp == 0 && m.pc == 0
            &&& !m.status.carry && !m.status.zero && !m.status.interrupt
            &&& !m.status.decimal && !m.status.overflow && !m.status.negative
            &&& m.mem.len() == 0x10000
            &&& forall|i: int| 0 <= i < 0x10000 ==> m.mem[i] == 0
        }),
{
}

/// Loading puts the program's bytes at addresses `0, 1, ...`, leaves the rest of
/// memory and every register alone, and then sets the reset vector at
/// `0xFFFC`/`0xFFFD` to `0x0000`.
pub proof fn law_load(m: CpuState, program: Seq<u8>, i: int)
    requires
        well_formed(m),
        program.len() <= 0x10000,
        0 <= i < 0xFFFC,
    ensures
        ({
            let r = load_state(m, program);
            &&& r.mem.len() == 0x10000
            &&& i < program.len() ==> r.mem[i] == program[i]
            &&& i >= program.len() ==> r.mem[i] == m.mem[i]
            &&& r.mem[0xFFFC] == 0 && r.mem[0xFFFD] == 0
            &&& r == (CpuState { mem: r.mem, ..m })
        }),
{
}

/// Outside jumps, calls, returns and taken branches, one step moves the program
/// counter past the opcode and its operand bytes; `BRK` is the only
/// instruction after which the machine halts.
pub proof fn law_step(m: CpuState)
    requires
        well_formed(m),
        can_step(m),
    ensures
        ({
            let i = opcode_table(m.mem[m.pc as int]).unwrap();
            &&& (step_state(m).1 == Flow::Halt) == (i.mnemonic == Mnemonic::BRK)
            &&& !uses_target(i.mnemonic) && i.mnemonic != Mnemonic::RTS && i.mnemonic
                != Mnemonic::RTI ==> step_state(m).0.pc == m.pc + 1 + operand_size(i.mode)
        }),
{
    reveal(step_state);
    let i = opcode_table(m.mem[m.pc as int]).unwrap();
    let m1 = CpuState { pc: (m.pc + 1) as u16, ..m };
    lemma_resolve_pc(m1, i.mode);
    let (m2, op) = resolve_state(m1, i.mode);
    if !uses_target(i.mnemonic) && i.mnemonic != Mnemonic::RTS && i.mnemonic != Mnemonic::RTI {
        lemma_execute_keeps_pc(m2, i.mnemonic, op);
    }
}

proof fn lemma_resolve_pc(m: CpuState, mode: AddressingMode)
    requires
        m.pc + operand_size(mode) <= 0xFFFF,
    ensures
        resolve_state(m, mode).0.pc == m.pc + operand_size(mode),
{
}

#[verifier::spinoff_prover]
#[verifier::rlimit(60)]
proof fn lemma_execute_keeps_pc(m: CpuState, mn: Mnemonic, op: Operand)
    requires
        !uses_target(mn),
        mn != Mnemonic::RTS,
        mn != Mnemonic::RTI,
    ensures
        execute(m, mn, op).pc == m.pc,
{
}

/// The machine can take a step exactly when the byte at the program counter
/// is an official opcode and the opcode with its operand bytes ends at or
/// before `0xFFFE`, so the program counter does not pass `0xFFFF`.
pub proof fn law_can_step(m: CpuState)
    requires
        well_formed(m),
    ensures
        can_step(m) <==> (opcode_table(m.mem[m.pc as int]) is Some && m.pc + 1 + operand_size(
            opcode_table(m.mem[m.pc as int]).unwrap().mode,
        ) <= 0xFFFF),
{
}

/// A run that halts after `k` going-on instructions ends where the halting
/// instruction leaves the machine: after exactly `k + 1` steps, of which only
/// the last halts.
pub proof fn law_run(m: CpuState, k: nat)
    requires
        halts_after(m, k),
    ensures
        k == 0 ==> step_state(m).1 == Flow::Halt && run_result(m, k) == step_state(m).0,
        k > 0 ==> step_state(m).1 == Flow::Continue && halts_after(step_state(m).0, (k - 1) as nat)
            && run_result(m, k) == run_result(step_state(m).0, (k - 1) as nat),
{
}

/// A pushed status byte holds carry in bit 0, zero in bit 1, interrupt in bit 2,
/// decimal in bit 3, the break flag in bit 4, a set bit 5, overflow in bit 6
/// and negative in bit 7.
pub proof fn law_status_byte(s: Status, break_flag: bool)
    ensures
        0 <= status_byte(s, break_flag) < 256,
        flags_of_byte(status_byte(s, break_flag), s),
        (status_byte(s, break_flag) % 32 >= 16) == break_flag,
        status_byte(s, break_flag) % 64 >= 32,
{
}

/// A status read from a byte takes each flag from its bit position.
pub proof fn law_status_from_byte(b: u8)
    ensures
        flags_of_byte(b as int, status_from(b)),
{
    lemma_flags_of_byte(b);
}

// ---------------------------------------------------------------------------
// Reset
// ---------------------------------------------------------------------------
/// After a reset A, X and Y are 0, every flag is clear, the stack pointer is
/// `0xFD`, the program counter is the word at `0xFFFC`, and memory is untouched.
pub proof fn law_reset(m: CpuState)
    requires
        well_formed(m),
    ensures
        reset_state(m).a == 0 && reset_state(m).x == 0 && reset_state(m).y == 0,
        !reset_state(m).status.carry,
        !reset_state(m).status.zero,
        !reset_state(m).status.interrupt,
        !reset_state(m).status.decimal,
        !reset_state(m).status.overflow,
        !reset_state(m).status.negative,
        reset_state(m).sp == 0xFD,
        reset_state(m).pc == m.mem[0xFFFC] + 256 * m.mem[0xFFFD],
        reset_state(m).mem == m.mem,
{
}

} // verus!
