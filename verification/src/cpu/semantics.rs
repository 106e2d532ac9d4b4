use vstd::prelude::*;

use super::arith::{signed8, sign_bit, word, wrap16, wrap8};
use super::instruction::{operand_size, opcode_table, AddressingMode, Instruction, Mnemonic, Operand};
use super::status::{cleared_status, flag_value, status_byte, status_from, Status};

verus! {

/// Whether the machine goes on after an instruction or stops.
#[derive(Debug, Clone, Copy, PartialEq, Eq, Structural)]
pub enum Flow {
    Halt,
    Continue,
}

/// The whole machine as a mathematical value: registers, flags, program
/// counter and the 64 KiB address space.
#[verifier::ext_equal]
pub struct CpuState {
    pub a: u8,
    pub x: u8,
    pub y: u8,
    pub sp: u8,
    pub status: Status,
    pub pc: u16,
    pub mem: Seq<u8>,
}

/// Where a program is copied by `load`, and where the reset vector points.
pub const PROGRAM_START: u16 = 0x0000;

/// Address of the little-endian reset vector.
pub const RESET_VECTOR: u16 = 0xFFFC;

/// Stack pointer after a reset.
pub const STACK_RESET: u8 = 0xFD;

/// First address of the hardware stack page.
pub const STACK_PAGE: u16 = 0x0100;

/// A state whose memory covers the whole 16-bit address space.
pub open spec fn well_formed(m: CpuState) -> bool {
    m.mem.len() == 0x10000
}

pub open spec fn read_byte(m: CpuState, addr: u16) -> u8 {
    m.mem[addr as int]
}

/// The little-endian word at `addr`, whose high byte comes from the next
/// address (wrapping at the top of memory).
pub open spec fn read_word(m: CpuState, addr: u16) -> u16 {
    word(read_byte(m, addr), read_byte(m, wrap16(addr + 1)))
}

pub open spec fn write_byte(m: CpuState, addr: u16, v: u8) -> CpuState {
    CpuState { mem: m.mem.update(addr as int, v), ..m }
}

pub open spec fn write_word(m: CpuState, addr: u16, data: u16) -> CpuState {
    write_byte(write_byte(m, addr, (data % 256) as u8), wrap16(addr + 1), (data / 256) as u8)
}

/// Zero and negative flags set from a result byte, the rest kept.
pub open spec fn with_zn(s: Status, v: u8) -> Status {
    Status { zero: v == 0, negative: sign_bit(v), ..s }
}

pub open spec fn stack_addr(sp: u8) -> u16 {
    (STACK_PAGE + sp) as u16
}

/// Pushes a byte: it is stored at the stack pointer, which then moves down.
pub open spec fn push(m: CpuState, v: u8) -> CpuState {
    CpuState { sp: wrap8(m.sp - 1), ..write_byte(m, stack_addr(m.sp), v) }
}

/// The state after a pull: the stack pointer moves up.
pub open spec fn pulled(m: CpuState) -> CpuState {
    CpuState { sp: wrap8(m.sp + 1), ..m }
}

/// The byte at the top of the stack: what a pull from `m` gives.
pub open spec fn top(m: CpuState) -> u8 {
    read_byte(m, stack_addr(wrap8(m.sp + 1)))
}

/// The state after power-on.
pub open spec fn power_on_state() -> CpuState {
    CpuState {
        a: 0,
        x: 0,
        y: 0,
        sp: 0,
        status: cleared_status(),
        pc: 0,
        mem: Seq::new(0x10000, |i: int| 0u8),
    }
}

/// A reset clears the registers and flags, sets the stack pointer and takes the
/// program counter from the reset vector; memory is kept.
pub open spec fn reset_state(m: CpuState) -> CpuState {
    CpuState {
        a: 0,
        x: 0,
        y: 0,
        sp: STACK_RESET,
        status: cleared_status(),
        pc: read_word(m, RESET_VECTOR),
        ..m
    }
}

/// Memory after copying `program` to `PROGRAM_START`; the rest is kept.
pub open spec fn copy_program(mem: Seq<u8>, program: Seq<u8>) -> Seq<u8> {
    Seq::new(
        mem.len(),
        |i: int|
            if PROGRAM_START <= i < PROGRAM_START + program.len() {
                program[i - PROGRAM_START]
            } else {
                mem[i]
            },
    )
}

/// Loading copies the program into memory and points the reset vector at it.
pub open spec fn load_state(m: CpuState, program: Seq<u8>) -> CpuState {
    write_word(CpuState { mem: copy_program(m.mem, program), ..m }, RESET_VECTOR, PROGRAM_START)
}

/// The operand that an addressing mode yields, and the state once the operand
/// bytes after the opcode have been consumed. `m.pc` points just past the opcode.
pub open spec fn resolve_state(m: CpuState, mode: AddressingMode) -> (CpuState, Operand) {
    let pc = m.pc;
    let b = read_byte(m, pc);
    let w = read_word(m, pc);
    let one = CpuState { pc: (pc + 1) as u16, ..m };
    let two = CpuState { pc: (pc + 2) as u16, ..m };
    match mode {
        AddressingMode::Implied => (m, Operand::Implied),
        AddressingMode::Accumulator => (m, Operand::Accumulator),
        AddressingMode::Immediate => (one, Operand::Address(pc)),
        AddressingMode::ZeroPage => (one, Operand::Address(b as u16)),
        AddressingMode::ZeroPageX => (one, Operand::Address(wrap8(b + m.x) as u16)),
        AddressingMode::ZeroPageY => (one, Operand::Address(wrap8(b + m.y) as u16)),
        AddressingMode::Absolute => (two, Operand::Address(w)),
        AddressingMode::AbsoluteX => (two, Operand::Address(wrap16(w + m.x))),
        AddressingMode::AbsoluteY => (two, Operand::Address(wrap16(w + m.y))),
        AddressingMode::Indirect => {
            // the high byte comes from the same page as the low byte
            let hi_addr = ((w / 256) * 256 + (w % 256 + 1) % 256) as u16;
            (two, Operand::Address(word(read_byte(m, w), read_byte(m, hi_addr))))
        },
        AddressingMode::IndirectX => {
            let base = wrap8(b + m.x);
            (one, Operand::Address(word(read_byte(m, base as u16), read_byte(m, wrap8(base + 1) as u16))))
        },
        AddressingMode::IndirectY => {
            let ptr = word(read_byte(m, b as u16), read_byte(m, wrap8(b + 1) as u16));
            (one, Operand::Address(wrap16(ptr + m.y)))
        },
        AddressingMode::Relative => (one, Operand::Address(wrap16(pc + 1 + signed8(b)))),
    }
}

/// The byte an operand stands for.
pub open spec fn operand_value(m: CpuState, op: Operand) -> u8 {
    match op {
        Operand::Accumulator => m.a,
        Operand::Address(addr) => read_byte(m, addr),
        Operand::Implied => 0,
    }
}

/// Stores a byte where an operand points.
pub open spec fn store(m: CpuState, op: Operand, v: u8) -> CpuState {
    match op {
        Operand::Accumulator => CpuState { a: v, ..m },
        Operand::Address(addr) => write_byte(m, addr, v),
        Operand::Implied => m,
    }
}

pub open spec fn target(op: Operand) -> u16 {
    match op {
        Operand::Address(addr) => addr,
        _ => 0,
    }
}

/// Instructions that read or write their operand.
pub open spec fn uses_data(mn: Mnemonic) -> bool {
    match mn {
        Mnemonic::LDA | Mnemonic::LDX | Mnemonic::LDY | Mnemonic::STA | Mnemonic::STX
        | Mnemonic::STY | Mnemonic::AND | Mnemonic::EOR | Mnemonic::ORA | Mnemonic::BIT
        | Mnemonic::ADC | Mnemonic::SBC | Mnemonic::CMP | Mnemonic::CPX | Mnemonic::CPY
        | Mnemonic::INC | Mnemonic::DEC | Mnemonic::ASL | Mnemonic::LSR | Mnemonic::ROL
        | Mnemonic::ROR => true,
        _ => false,
    }
}

/// Instructions that transfer control to an address.
pub open spec fn uses_target(mn: Mnemonic) -> bool {
    match mn {
        Mnemonic::JMP | Mnemonic::JSR | Mnemonic::BCC | Mnemonic::BCS | Mnemonic::BEQ
        | Mnemonic::BMI | Mnemonic::BNE | Mnemonic::BPL | Mnemonic::BVC | Mnemonic::BVS => true,
        _ => false,
    }
}

/// The operand is of a kind the instruction can work with.
pub open spec fn operand_fits(mn: Mnemonic, op: Operand) -> bool {
    &&& uses_data(mn) ==> !(op is Implied)
    &&& uses_target(mn) ==> op is Address
}

/// `A + v + C`: carry out of bit 7, overflow when the signed sum leaves
/// the range of a byte.
pub open spec fn add_with_carry(m: CpuState, v: u8) -> CpuState {
    let c = flag_value(m.status.carry);
    let sum = m.a + v + c;
    let r = wrap8(sum);
    CpuState {
        a: r,
        status: Status {
            carry: sum > 255,
            overflow: !(-128 <= signed8(m.a) + signed8(v) + c <= 127),
            ..with_zn(m.status, r)
        },
        ..m
    }
}

/// `A - v - (1 - C)`: carry means no borrow was needed.
pub open spec fn subtract_with_borrow(m: CpuState, v: u8) -> CpuState {
    let c = flag_value(m.status.carry);
    let diff = m.a - v - (1 - c);
    let r = wrap8(diff);
    CpuState {
        a: r,
        status: Status {
            carry: diff >= 0,
            overflow: !(-128 <= signed8(m.a) - signed8(v) - (1 - c) <= 127),
            ..with_zn(m.status, r)
        },
        ..m
    }
}

/// Subtracting `v` with borrow is adding its complement with carry.
pub proof fn lemma_subtract_is_add_of_complement(m: CpuState, v: u8)
    ensures
        subtract_with_borrow(m, v) == add_with_carry(m, (255 - v) as u8),
{
}

/// Compares a register with a value as `reg - v` without keeping the result.
pub open spec fn compare(m: CpuState, reg: u8, v: u8) -> CpuState {
    CpuState {
        status: Status {
            carry: reg >= v,
            zero: reg == v,
            negative: sign_bit(wrap8(reg - v)),
            ..m.status
        },
        ..m
    }
}

/// Writes a shifted or stepped value back to the operand, with carry and the
/// zero and negative flags updated.
pub open spec fn modify(m: CpuState, op: Operand, r: u8, carry: bool) -> CpuState {
    CpuState { status: with_zn(Status { carry, ..m.status }, r), ..store(m, op, r) }
}

pub open spec fn branch(m: CpuState, taken: bool, op: Operand) -> CpuState {
    if taken {
        CpuState { pc: target(op), ..m }
    } else {
        m
    }
}

/// What an instruction does to the machine, its operand already resolved.
pub open spec fn execute(m: CpuState, mn: Mnemonic, op: Operand) -> CpuState {
    let v = operand_value(m, op);
    let c = flag_value(m.status.carry);
    let s = m.status;
    let p1 = pulled(m);
    let p2 = pulled(p1);
    let p3 = pulled(p2);
    match mn {
        // Load / store
        Mnemonic::LDA => CpuState { a: v, status: with_zn(s, v), ..m },
        Mnemonic::LDX => CpuState { x: v, status: with_zn(s, v), ..m },
        Mnemonic::LDY => CpuState { y: v, status: with_zn(s, v), ..m },
        Mnemonic::STA => store(m, op, m.a),
        Mnemonic::STX => store(m, op, m.x),
        Mnemonic::STY => store(m, op, m.y),
        // Register transfers
        Mnemonic::TAX => CpuState { x: m.a, status: with_zn(s, m.a), ..m },
        Mnemonic::TAY => CpuState { y: m.a, status: with_zn(s, m.a), ..m },
        Mnemonic::TXA => CpuState { a: m.x, status: with_zn(s, m.x), ..m },
        Mnemonic::TYA => CpuState { a: m.y, status: with_zn(s, m.y), ..m },
        Mnemonic::TSX => CpuState { x: m.sp, status: with_zn(s, m.sp), ..m },
        Mnemonic::TXS => CpuState { sp: m.x, ..m },
        // Stack
        Mnemonic::PHA => push(m, m.a),
        Mnemonic::PHP => push(m, status_byte(s, true) as u8),
        Mnemonic::PLA => CpuState { a: top(m), status: with_zn(s, top(m)), ..p1 },
        Mnemonic::PLP => CpuState { status: status_from(top(m)), ..p1 },
        // Logical
        Mnemonic::AND => CpuState { a: m.a & v, status: with_zn(s, m.a & v), ..m },
        Mnemonic::EOR => CpuState { a: m.a ^ v, status: with_zn(s, m.a ^ v), ..m },
        Mnemonic::ORA => CpuState { a: m.a | v, status: with_zn(s, m.a | v), ..m },
        Mnemonic::BIT => CpuState {
            status: Status {
                zero: m.a & v == 0,
                negative: sign_bit(v),
                overflow: (v / 64) % 2 == 1,
                ..s
            },
            ..m
        },
        // Arithmetic
        Mnemonic::ADC => add_with_carry(m, v),
        Mnemonic::SBC => subtract_with_borrow(m, v),
        Mnemonic::CMP => compare(m, m.a, v),
        Mnemonic::CPX => compare(m, m.x, v),
        Mnemonic::CPY => compare(m, m.y, v),
        // Increments / decrements
        Mnemonic::INC => modify(m, op, wrap8(v + 1), s.carry),
        Mnemonic::DEC => modify(m, op, wrap8(v - 1), s.carry),
        Mnemonic::INX => CpuState { x: wrap8(m.x + 1), status: with_zn(s, wrap8(m.x + 1)), ..m },
        Mnemonic::INY => CpuState { y: wrap8(m.y + 1), status: with_zn(s, wrap8(m.y + 1)), ..m },
        Mnemonic::DEX => CpuState { x: wrap8(m.x - 1), status: with_zn(s, wrap8(m.x - 1)), ..m },
        Mnemonic::DEY => CpuState { y: wrap8(m.y - 1), status: with_zn(s, wrap8(m.y - 1)), ..m },
        // Shifts
        Mnemonic::ASL => modify(m, op, wrap8(2 * v), sign_bit(v)),
        Mnemonic::LSR => modify(m, op, v / 2, v % 2 == 1),
        Mnemonic::ROL => modify(m, op, wrap8(2 * v + c), sign_bit(v)),
        Mnemonic::ROR => modify(m, op, (v / 2 + 128 * c) as u8, v % 2 == 1),
        // Jumps / calls
        Mnemonic::JMP => CpuState { pc: target(op), ..m },
        Mnemonic::JSR => {
            let ret = wrap16(m.pc - 1);
            CpuState { pc: target(op), ..push(push(m, (ret / 256) as u8), (ret % 256) as u8) }
        },
        Mnemonic::RTS => CpuState { pc: wrap16(word(top(m), top(p1)) + 1), ..p2 },
        // Branches
        Mnemonic::BCC => branch(m, !s.carry, op),
        Mnemonic::BCS => branch(m, s.carry, op),
        Mnemonic::BEQ => branch(m, s.zero, op),
        Mnemonic::BMI => branch(m, s.negative, op),
        Mnemonic::BNE => branch(m, !s.zero, op),
        Mnemonic::BPL => branch(m, !s.negative, op),
        Mnemonic::BVC => branch(m, !s.overflow, op),
        Mnemonic::BVS => branch(m, s.overflow, op),
        // Status flag changes
        Mnemonic::CLC => CpuState { status: Status { carry: false, ..s }, ..m },
        Mnemonic::CLD => CpuState { status: Status { decimal: false, ..s }, ..m },
        Mnemonic::CLI => CpuState { status: Status { interrupt: false, ..s }, ..m },
        Mnemonic::CLV => CpuState { status: Status { overflow: false, ..s }, ..m },
        Mnemonic::SEC => CpuState { status: Status { carry: true, ..s }, ..m },
        Mnemonic::SED => CpuState { status: Status { decimal: true, ..s }, ..m },
        Mnemonic::SEI => CpuState { status: Status { interrupt: true, ..s }, ..m },
        // System
        Mnemonic::BRK => m,
        Mnemonic::NOP => m,
        Mnemonic::RTI => CpuState {
            status: status_from(top(m)),
            pc: word(top(p1), top(p2)),
            ..p3
        },
    }
}

/// `BRK` stops the machine; every other instruction lets it go on.
pub open spec fn flow_of(mn: Mnemonic) -> Flow {
    if mn == Mnemonic::BRK {
        Flow::Halt
    } else {
        Flow::Continue
    }
}

/// The instruction whose opcode is at the program counter.
pub open spec fn fetch(m: CpuState) -> Option<Instruction> {
    opcode_table(read_byte(m, m.pc))
}

/// The byte at the program counter is an opcode, and the program counter does
/// not run past the top of memory while the instruction is read.
pub open spec fn can_step(m: CpuState) -> bool {
    match fetch(m) {
        Some(i) => m.pc + 1 + operand_size(i.mode) <= 0xFFFF,
        None => false,
    }
}

/// One fetch-decode-execute cycle.
#[verifier::opaque]
pub open spec fn step_state(m: CpuState) -> (CpuState, Flow) {
    let i = fetch(m).unwrap();
    let (m2, op) = resolve_state(CpuState { pc: (m.pc + 1) as u16, ..m }, i.mode);
    (execute(m2, i.mnemonic, op), flow_of(i.mnemonic))
}

/// From `m` the machine runs `k` instructions that go on and then one that
/// halts, each of them one that it can carry out.
pub open spec fn halts_after(m: CpuState, k: nat) -> bool
    decreases k,
{
    &&& can_step(m)
    &&& if k == 0 {
        step_state(m).1 == Flow::Halt
    } else {
        &&& step_state(m).1 == Flow::Continue
        &&& halts_after(step_state(m).0, (k - 1) as nat)
    }
}

/// The state in which the machine stops after `k` instructions that go on and
/// one that halts.
pub open spec fn run_result(m: CpuState, k: nat) -> CpuState
    decreases k,
{
    if k == 0 {
        step_state(m).0
    } else {
        run_result(step_state(m).0, (k - 1) as nat)
    }
}

/// A byte written to memory is read back; every other address keeps its byte.
pub proof fn lemma_read_after_write(m: CpuState, addr: u16, v: u8, other: u16)
    requires
        well_formed(m),
    ensures
        read_byte(write_byte(m, addr, v), addr) == v,
        other != addr ==> read_byte(write_byte(m, addr, v), other) == read_byte(m, other),
        well_formed(write_byte(m, addr, v)),
{
}

/// A word written to memory is read back, even across the top of memory.
pub proof fn lemma_word_round_trip(m: CpuState, addr: u16, data: u16)
    requires
        well_formed(m),
    ensures
        read_word(write_word(m, addr, data), addr) == data,
{
    super::arith::lemma_split_word(data);
}

/// A pull right after a push gives the pushed byte back and restores the stack
/// pointer; the pushed byte stays in the stack page.
pub proof fn lemma_push_pull(m: CpuState, v: u8)
    requires
        well_formed(m),
    ensures
        top(push(m, v)) == v,
        pulled(push(m, v)) == write_byte(m, stack_addr(m.sp), v),
{
    assert(wrap8(wrap8(m.sp - 1) + 1) == m.sp);
}

/// `PHA` followed by `PLA` leaves the accumulator and the stack pointer as
/// they were.
pub proof fn lemma_pha_pla(m: CpuState, op1: Operand, op2: Operand)
    requires
        well_formed(m),
    ensures
        execute(execute(m, Mnemonic::PHA, op1), Mnemonic::PLA, op2).a == m.a,
        execute(execute(m, Mnemonic::PHA, op1), Mnemonic::PLA, op2).sp == m.sp,
{
    lemma_push_pull(m, m.a);
}

/// `PHP` followed by `PLP` leaves every flag as it was.
pub proof fn lemma_php_plp(m: CpuState, op1: Operand, op2: Operand)
    requires
        well_formed(m),
    ensures
        execute(execute(m, Mnemonic::PHP, op1), Mnemonic::PLP, op2).status == m.status,
        execute(execute(m, Mnemonic::PHP, op1), Mnemonic::PLP, op2).sp == m.sp,
{
    let b = status_byte(m.status, true);
    super::status::lemma_status_round_trip(m.status, true);
    lemma_push_pull(m, b as u8);
}

/// `RTS` right after `JSR` comes back to the address that followed the `JSR`
/// and restores the stack pointer.
pub proof fn lemma_jsr_rts(m: CpuState, dest: u16, op: Operand)
    requires
        well_formed(m),
    ensures
        execute(execute(m, Mnemonic::JSR, Operand::Address(dest)), Mnemonic::RTS, op).pc == m.pc,
        execute(execute(m, Mnemonic::JSR, Operand::Address(dest)), Mnemonic::RTS, op).sp == m.sp,
{
    let ret = wrap16(m.pc - 1);
    let m1 = push(m, (ret / 256) as u8);
    let m2 = push(m1, (ret % 256) as u8);
    lemma_push_pull(m1, (ret % 256) as u8);
    // the two pushes land in neighbouring cells of the stack page
    assert(wrap8(wrap8(m.sp - 1) + 1) == m.sp);
    assert(stack_addr(m1.sp) != stack_addr(m.sp));
    assert(top(pulled(m2)) == (ret / 256) as u8);
    super::arith::lemma_split_word(ret);
}

/// The accumulator and carry after `ADC` hold the full sum `A + v + C`.
pub proof fn lemma_adc_sum(m: CpuState, v: u8)
    ensures
        add_with_carry(m, v).a + 256 * flag_value(add_with_carry(m, v).status.carry) == m.a + v
            + flag_value(m.status.carry),
{
}

/// After a load and a reset the program counter is at the loaded program, the
/// stack pointer is at its reset value, and the program is in memory (except
/// for bytes that fall on the reset vector).
pub proof fn lemma_load_then_reset(m: CpuState, program: Seq<u8>, i: int)
    requires
        well_formed(m),
        program.len() <= 0x10000 - PROGRAM_START,
        0 <= i < program.len(),
        PROGRAM_START + i != RESET_VECTOR,
        PROGRAM_START + i != RESET_VECTOR + 1,
    ensures
        reset_state(load_state(m, program)).pc == PROGRAM_START,
        reset_state(load_state(m, program)).sp == STACK_RESET,
        read_byte(reset_state(load_state(m, program)), (PROGRAM_START + i) as u16) == program[i],
{
    let loaded = CpuState { mem: copy_program(m.mem, program), ..m };
    lemma_word_round_trip(loaded, RESET_VECTOR, PROGRAM_START);
}

/// A branch whose condition fails leaves the machine as it was; one whose
/// condition holds only moves the program counter to the target.
pub proof fn lemma_branch(m: CpuState, taken: bool, dest: u16)
    ensures
        !taken ==> branch(m, taken, Operand::Address(dest)) == m,
        taken ==> branch(m, taken, Operand::Address(dest)) == (CpuState { pc: dest, ..m }),
{
}

/// The number of instructions before a halt is determined by the start state.
pub proof fn lemma_halt_count_unique(m: CpuState, j: nat, k: nat)
    requires
        halts_after(m, j),
        halts_after(m, k),
    ensures
        j == k,
    decreases j,
{
    if j > 0 && k > 0 {
        lemma_halt_count_unique(step_state(m).0, (j - 1) as nat, (k - 1) as nat);
    }
}

} // verus!
