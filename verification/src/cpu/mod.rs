pub mod arith;
pub mod instruction;
pub mod laws;
pub mod opcode;
pub mod semantics;
pub mod status;

use vstd::prelude::*;

use self::arith::{
    lemma_add_overflow, lemma_complement, lemma_indirect_high, lemma_join_word, lemma_shifts,
    lemma_sign_extend, lemma_sign_mask, lemma_split_word, wrap16, wrap8,
};
use self::instruction::{decode, operand_size, opcode_table, AddressingMode, Mnemonic, Operand};
use self::semantics::{
    add_with_carry, can_step, copy_program, execute, flow_of, halts_after,
    lemma_halt_count_unique, lemma_subtract_is_add_of_complement, load_state, modify,
    operand_fits, operand_value, power_on_state, pulled, push, read_byte, read_word, reset_state,
    resolve_state, run_result, step_state, store, top, uses_data, uses_target, well_formed,
    with_zn, write_byte, write_word, CpuState, Flow, PROGRAM_START, RESET_VECTOR, STACK_PAGE,
    STACK_RESET,
};
use self::status::Status;

verus! {

/// A 6502 CPU with its own flat 64 KiB memory.
///
/// Contracts speak of the CPU through its view, a [`CpuState`] that holds the
/// registers as they are and the memory as a sequence of 65536 bytes.
#[derive(Debug)]
pub struct Cpu {
    pub register_a: u8,
    pub register_x: u8,
    pub register_y: u8,
    pub stack_pointer: u8,
    pub status: Status,
    pub program_counter: u16,
    memory: [u8; 0x10000],
}

impl View for Cpu {
    type V = CpuState;

    closed spec fn view(&self) -> CpuState {
        CpuState {
            a: self.register_a,
            x: self.register_x,
            y: self.register_y,
            sp: self.stack_pointer,
            status: self.status,
            pc: self.program_counter,
            mem: self.mem(),
        }
    }
}

impl Cpu {
    /// The contents of the 64 KiB memory.
    pub closed spec fn mem(&self) -> Seq<u8> {
        self.memory@
    }

    /// Memory always covers the whole address space.
    pub proof fn lemma_well_formed(&self)
        ensures
            well_formed(self@),
    {
    }

    /// A CPU with every register, flag and memory byte at zero.
    pub fn new() -> (cpu: Self)
        ensures
            cpu@ == power_on_state(),
    {
        let cpu = Self {
            register_a: 0,
            register_x: 0,
            register_y: 0,
            stack_pointer: 0,
            status: Status::default(),
            program_counter: 0,
            memory: [0u8; 0x10000],
        };
        proof {
            broadcast use vstd::array::axiom_spec_array_fill_for_copy_type;

            assert(cpu@.mem =~= power_on_state().mem);
        }
        cpu
    }

    /// Clears the registers and flags, sets the stack pointer to `0xFD` and
    /// takes the program counter from the reset vector.
    pub fn reset(&mut self)
        ensures
            final(self)@ == reset_state(old(self)@),
    {
        self.register_a = 0;
        self.register_x = 0;
        self.register_y = 0;
        self.stack_pointer = STACK_RESET;
        self.status = Status::default();
        self.program_counter = self.mem_read_u16(RESET_VECTOR);  // from reset vector
    }

    /// Loads a program, resets and runs until an instruction halts. The
    /// program must fit in memory, and must halt.
    pub fn load_and_run(&mut self, program: Vec<u8>)
        requires
            program.len() <= 0x10000 - PROGRAM_START,
            exists|k: nat| halts_after(reset_state(load_state(old(self)@, program@)), k),
        ensures
            forall|k: nat|
                halts_after(reset_state(load_state(old(self)@, program@)), k) ==> final(self)@
                    == run_result(reset_state(load_state(old(self)@, program@)), k),
    {
        self.load(program);
        self.reset();
        self.run();
    }

    /// Copies the program to `PROGRAM_START` and points the reset vector there.
    pub fn load(&mut self, program: Vec<u8>)
        requires
            program.len() <= 0x10000 - PROGRAM_START,
        ensures
            final(self)@ == load_state(old(self)@, program@),
    {
        let ghost m0 = self@;
        let start: usize = PROGRAM_START as usize;
        let mut i: usize = 0;
        while i < program.len()
            invariant
                start == PROGRAM_START,
                i <= program.len(),
                program.len() <= 0x10000 - PROGRAM_START,
                self@ == (CpuState {
                    mem: copy_program(m0.mem, program@.take(i as int)),
                    ..m0
                }),
            decreases program.len() - i,
        {
            self.memory[start + i] = program[i];
            i += 1;
            assert(self.mem() =~= copy_program(m0.mem, program@.take(i as int)));
        }
        assert(program@.take(i as int) =~= program@);
        self.mem_write_u16(RESET_VECTOR, PROGRAM_START);  // reset vector -> program start
    }

    /// Runs instructions until one of them halts (`BRK`). The machine must
    /// get there: from this state it reaches a halting instruction after some
    /// number `k` of others, each of which it can carry out.
    pub fn run(&mut self)
        requires
            exists|k: nat| halts_after(old(self)@, k),
        ensures
            forall|k: nat| halts_after(old(self)@, k) ==> final(self)@ == run_result(old(self)@, k),
    {
        let ghost start = self@;
        let ghost mut k: nat = choose|k: nat| halts_after(start, k);
        assert forall|j: nat| halts_after(start, j) implies run_result(start, j) == run_result(
            start,
            k,
        ) by {
            lemma_halt_count_unique(start, j, k);
        }
        loop
            invariant_except_break
                halts_after(self@, k),
                forall|j: nat| halts_after(start, j) ==> run_result(start, j) == run_result(self@, k),
            ensures
                forall|j: nat| halts_after(start, j) ==> run_result(start, j) == self@,
            decreases k,
        {
            let ghost before = self@;
            match self.step() {
                Flow::Halt => {
                    assert(k == 0);
                    assert(run_result(before, k) == self@);
                    break;
                },
                Flow::Continue => {
                    proof {
                        k = (k - 1) as nat;
                    }
                },
            }
        }
    }

    /// Whether the next instruction can be carried out: its opcode is known and
    /// reading it does not run the program counter off the top of memory.
    pub fn can_step(&self) -> (ok: bool)
        ensures
            ok == can_step(self@),
    {
        let byte = self.mem_read(self.program_counter);
        match decode(byte) {
            Some(instruction) => (self.program_counter as u32) + 1 + operand_bytes(instruction.mode)
                <= 0xFFFF,
            None => false,
        }
    }

    /// Fetches, decodes and executes one instruction.
    pub fn step(&mut self) -> (flow: Flow)
        requires
            can_step(old(self)@),
        ensures
            (final(self)@, flow) == step_state(old(self)@),
    {
        let byte = self.mem_read(self.program_counter);
        let opcode = decode(byte);
        proof {
            reveal(step_state);
        }
        match opcode {
            Some(instruction) => {
                proof {
                    lemma_table_operands(byte);
                }
                self.program_counter = self.program_counter + 1;
                let operand = self.resolve(instruction.mode);
                self.apply(instruction.mnemonic, operand)
            },
            None => Flow::Halt,  // excluded by `can_step`
        }
    }

    // Memory Helpers
    /// The byte at `addr`.
    pub fn mem_read(&self, addr: u16) -> (data: u8)
        ensures
            data == read_byte(self@, addr),
    {
        self.memory[addr as usize]
    }

    /// Stores `data` at `addr`.
    pub fn mem_write(&mut self, addr: u16, data: u8)
        ensures
            final(self)@ == write_byte(old(self)@, addr, data),
    {
        self.memory[addr as usize] = data;
        assert(self.mem() =~= write_byte(old(self)@, addr, data).mem);
    }

    /// The little-endian word at `addr`; its high byte comes from the next
    /// address, wrapping at the top of memory.
    pub fn mem_read_u16(&self, addr: u16) -> (data: u16)
        ensures
            data == read_word(self@, addr),
    {
        let lo = self.mem_read(addr) as u16;
        let hi = self.mem_read(addr.wrapping_add(1)) as u16;
        proof {
            lemma_join_word(lo as u8, hi as u8);
        }
        (hi << 8) | lo
    }

    /// Stores a little-endian word at `addr` and the next address.
    pub fn mem_write_u16(&mut self, addr: u16, data: u16)
        ensures
            final(self)@ == write_word(old(self)@, addr, data),
    {
        proof {
            lemma_split_word(data);
        }
        let lo = (data & 0xff) as u8;
        let hi = (data >> 8) as u8;

        self.mem_write(addr, lo);
        self.mem_write(addr.wrapping_add(1), hi);
    }

    fn next_byte(&mut self) -> (byte: u8)
        requires
            old(self).program_counter < 0xFFFF,
        ensures
            byte == read_byte(old(self)@, old(self)@.pc),
            final(self)@ == (CpuState { pc: (old(self)@.pc + 1) as u16, ..old(self)@ }),
    {
        let byte = self.mem_read(self.program_counter);
        self.program_counter += 1;
        byte
    }

    fn next_word(&mut self) -> (w: u16)
        requires
            old(self).program_counter + 2 <= 0xFFFF,
        ensures
            w == read_word(old(self)@, old(self)@.pc),
            final(self)@ == (CpuState { pc: (old(self)@.pc + 2) as u16, ..old(self)@ }),
    {
        let w = self.mem_read_u16(self.program_counter);
        self.program_counter += 2;
        w
    }

    // Instruction Helpers
    fn resolve(&mut self, mode: AddressingMode) -> (operand: Operand)
        requires
            old(self).program_counter + operand_size(mode) <= 0xFFFF,
        ensures
            (final(self)@, operand) == resolve_state(old(self)@, mode),
    {
        match mode {
            AddressingMode::Implied => Operand::Implied,
            AddressingMode::Accumulator => Operand::Accumulator,
            AddressingMode::ZeroPage => Operand::Address(self.next_byte() as u16),
            AddressingMode::ZeroPageX => {
                let base = self.next_byte();
                let addr = base.wrapping_add(self.register_x);
                assert(addr == wrap8(base + self.register_x));
                Operand::Address(addr as u16)
            },
            AddressingMode::ZeroPageY => {
                let base = self.next_byte();
                let addr = base.wrapping_add(self.register_y);
                assert(addr == wrap8(base + self.register_y));
                Operand::Address(addr as u16)
            },
            AddressingMode::Absolute => Operand::Address(self.next_word()),
            AddressingMode::AbsoluteX => {
                let base = self.next_word();
                let addr = base.wrapping_add(self.register_x as u16);
                assert(addr == wrap16(base + self.register_x));
                Operand::Address(addr)
            },
            AddressingMode::AbsoluteY => {
                let base = self.next_word();
                let addr = base.wrapping_add(self.register_y as u16);
                assert(addr == wrap16(base + self.register_y));
                Operand::Address(addr)
            },
            AddressingMode::Indirect => {
                let ptr = self.next_word();
                let lo = self.mem_read(ptr);
                let next = ptr.wrapping_add(1);
                proof {
                    lemma_indirect_high(ptr, next);
                }
                let hi = self.mem_read((ptr & 0xFF00) | (next & 0x00FF));
                proof {
                    lemma_join_word(lo, hi);
                }
                Operand::Address(((hi as u16) << 8) | (lo as u16))
            },
            AddressingMode::IndirectX => {
                let base = self.next_byte().wrapping_add(self.register_x);
                assert(base == wrap8(read_byte(old(self)@, old(self)@.pc) + self.register_x));
                let next = base.wrapping_add(1);
                assert(next == wrap8(base + 1));
                let lo = self.mem_read(base as u16);
                let hi = self.mem_read(next as u16);
                proof {
                    lemma_join_word(lo, hi);
                }
                Operand::Address(((hi as u16) << 8) | (lo as u16))
            },
            AddressingMode::IndirectY => {
                let base = self.next_byte();
                let next = base.wrapping_add(1);
                assert(next == wrap8(base + 1));
                let lo = self.mem_read(base as u16);
                let hi = self.mem_read(next as u16);
                proof {
                    lemma_join_word(lo, hi);
                }
                let ptr = ((hi as u16) << 8) | (lo as u16);
                let addr = ptr.wrapping_add(self.register_y as u16);
                assert(addr == wrap16(ptr + self.register_y));
                Operand::Address(addr)
            },
            AddressingMode::Immediate => {
                let addr = self.program_counter;
                self.program_counter += 1;
                Operand::Address(addr)
            },
            AddressingMode::Relative => {
                let offset = self.next_byte();
                proof {
                    lemma_sign_extend(offset, self.program_counter);
                }
                // i8 to sign extend when cast to u16
                Operand::Address(
                    self.program_counter.wrapping_add(#[verifier::truncate] ((offset as i8) as u16)),
                )
            },
        }
    }

    fn apply(&mut self, mnemonic: Mnemonic, operand: Operand) -> (flow: Flow)
        requires
            operand_fits(mnemonic, operand),
        ensures
            final(self)@ == execute(old(self)@, mnemonic, operand),
            flow == flow_of(mnemonic),
    {
        match mnemonic {
            Mnemonic::BRK => return Flow::Halt,
            Mnemonic::LDA | Mnemonic::LDX | Mnemonic::LDY | Mnemonic::STA | Mnemonic::STX | Mnemonic::STY | Mnemonic::TAX | Mnemonic::TAY | Mnemonic::TXA | Mnemonic::TYA | Mnemonic::TSX | Mnemonic::TXS => {
                self.apply_load_store(mnemonic, operand)
            },
            Mnemonic::PHA | Mnemonic::PHP | Mnemonic::PLA | Mnemonic::PLP | Mnemonic::JMP | Mnemonic::JSR | Mnemonic::RTS | Mnemonic::RTI => {
                self.apply_stack_jump(mnemonic, operand)
            },
            Mnemonic::AND | Mnemonic::EOR | Mnemonic::ORA | Mnemonic::BIT | Mnemonic::ADC | Mnemonic::SBC | Mnemonic::CMP | Mnemonic::CPX | Mnemonic::CPY => {
                self.apply_logic_arith(mnemonic, operand)
            },
            Mnemonic::INC | Mnemonic::INX | Mnemonic::INY | Mnemonic::DEC | Mnemonic::DEX | Mnemonic::DEY | Mnemonic::ASL | Mnemonic::LSR | Mnemonic::ROL | Mnemonic::ROR => {
                self.apply_inc_shift(mnemonic, operand)
            },
            Mnemonic::BCC | Mnemonic::BCS | Mnemonic::BEQ | Mnemonic::BMI | Mnemonic::BNE | Mnemonic::BPL | Mnemonic::BVC | Mnemonic::BVS | Mnemonic::CLC | Mnemonic::CLD | Mnemonic::CLI | Mnemonic::CLV | Mnemonic::SEC | Mnemonic::SED | Mnemonic::SEI | Mnemonic::NOP => {
                self.apply_branch_flag(mnemonic, operand)
            },
        }

        Flow::Continue
    }

    /// Load, store and register transfer instructions.
    fn apply_load_store(&mut self, mnemonic: Mnemonic, operand: Operand)
        requires
            operand_fits(mnemonic, operand),
            (match mnemonic {
                Mnemonic::LDA | Mnemonic::LDX | Mnemonic::LDY | Mnemonic::STA | Mnemonic::STX | Mnemonic::STY | Mnemonic::TAX | Mnemonic::TAY | Mnemonic::TXA | Mnemonic::TYA | Mnemonic::TSX | Mnemonic::TXS => true,
                _ => false,
            }),
        ensures
            final(self)@ == execute(old(self)@, mnemonic, operand),
    {
        match mnemonic {
            Mnemonic::LDA => {
                let byte = self.op_read(operand);
                self.register_a = byte;
                self.update_zn(byte);
            },
            Mnemonic::LDX => {
                let byte = self.op_read(operand);
                self.register_x = byte;
                self.update_zn(byte);
            },
            Mnemonic::LDY => {
                let byte = self.op_read(operand);
                self.register_y = byte;
                self.update_zn(byte);
            },
            Mnemonic::STA => {
                let a = self.register_a;
                self.op_write(operand, a);
            },
            Mnemonic::STX => {
                let x = self.register_x;
                self.op_write(operand, x);
            },
            Mnemonic::STY => {
                let y = self.register_y;
                self.op_write(operand, y);
            },
            Mnemonic::TAX => {
                self.register_x = self.register_a;
                let x = self.register_x;
                self.update_zn(x);
            },
            Mnemonic::TAY => {
                self.register_y = self.register_a;
                let y = self.register_y;
                self.update_zn(y);
            },
            Mnemonic::TXA => {
                self.register_a = self.register_x;
                let a = self.register_a;
                self.update_zn(a);
            },
            Mnemonic::TYA => {
                self.register_a = self.register_y;
                let a = self.register_a;
                self.update_zn(a);
            },
            Mnemonic::TSX => {
                self.register_x = self.stack_pointer;
                let x = self.register_x;
                self.update_zn(x);
            },
            Mnemonic::TXS => self.stack_pointer = self.register_x,
            _ => {},
        }
    }

    /// Stack instructions, jumps, calls and returns.
    fn apply_stack_jump(&mut self, mnemonic: Mnemonic, operand: Operand)
        requires
            operand_fits(mnemonic, operand),
            (match mnemonic {
                Mnemonic::PHA | Mnemonic::PHP | Mnemonic::PLA | Mnemonic::PLP | Mnemonic::JMP | Mnemonic::JSR | Mnemonic::RTS | Mnemonic::RTI => true,
                _ => false,
            }),
        ensures
            final(self)@ == execute(old(self)@, mnemonic, operand),
    {
        match mnemonic {
            Mnemonic::PHA => {
                let a = self.register_a;
                self.push_byte(a);
            },
            Mnemonic::PHP => {
                let byte = self.status.to_byte(true);
                self.push_byte(byte);
            },
            Mnemonic::PLA => {
                let byte = self.pull_byte();
                self.register_a = byte;
                self.update_zn(byte);
            },
            Mnemonic::PLP => {
                let byte = self.pull_byte();
                self.status = Status::from_byte(byte);
            },
            Mnemonic::JMP => {
                if let Operand::Address(addr) = operand {
                    self.program_counter = addr;
                }
            },
            Mnemonic::JSR => {
                let ret = self.program_counter.wrapping_sub(1);
                proof {
                    lemma_split_word(ret);
                }
                self.push_byte((ret >> 8) as u8);
                self.push_byte((ret & 0xff) as u8);
                if let Operand::Address(addr) = operand {
                    self.program_counter = addr;
                }
            },
            Mnemonic::RTS => {
                let lo = self.pull_byte();
                let hi = self.pull_byte();
                proof {
                    lemma_join_word(lo, hi);
                }
                self.program_counter = (((hi as u16) << 8) | (lo as u16)).wrapping_add(1);
            },
            Mnemonic::RTI => {
                let byte = self.pull_byte();
                self.status = Status::from_byte(byte);
                let lo = self.pull_byte();
                let hi = self.pull_byte();
                proof {
                    lemma_join_word(lo, hi);
                }
                self.program_counter = ((hi as u16) << 8) | (lo as u16);
            },

            _ => {},
        }
    }

    /// Logical, arithmetic and compare instructions.
    fn apply_logic_arith(&mut self, mnemonic: Mnemonic, operand: Operand)
        requires
            operand_fits(mnemonic, operand),
            (match mnemonic {
                Mnemonic::AND | Mnemonic::EOR | Mnemonic::ORA | Mnemonic::BIT | Mnemonic::ADC | Mnemonic::SBC | Mnemonic::CMP | Mnemonic::CPX | Mnemonic::CPY => true,
                _ => false,
            }),
        ensures
            final(self)@ == execute(old(self)@, mnemonic, operand),
    {
        match mnemonic {
            Mnemonic::AND => {
                let byte = self.op_read(operand);
                let result = self.register_a & byte;
                self.register_a = result;
                self.update_zn(result);
            },
            Mnemonic::EOR => {
                let byte = self.op_read(operand);
                let result = self.register_a ^ byte;
                self.register_a = result;
                self.update_zn(result);
            },
            Mnemonic::ORA => {
                let byte = self.op_read(operand);
                let result = self.register_a | byte;
                self.register_a = result;
                self.update_zn(result);
            },
            Mnemonic::BIT => {
                let byte = self.op_read(operand);
                proof {
                    lemma_sign_mask(byte);
                }
                self.status.zero = self.register_a & byte == 0;
                self.status.negative = byte & 0b1000_0000 != 0;
                self.status.overflow = byte & 0b0100_0000 != 0;
            },
            Mnemonic::ADC => {
                let byte = self.op_read(operand);
                self.add_to_accumulator(byte);
            },
            Mnemonic::SBC => {
                let byte = self.op_read(operand);
                proof {
                    lemma_complement(byte);
                    lemma_subtract_is_add_of_complement(self@, byte);
                }
                self.add_to_accumulator(!byte);
            },
            Mnemonic::CMP => {
                let byte = self.op_read(operand);
                let a = self.register_a;
                self.compare_with(a, byte);
            },
            Mnemonic::CPX => {
                let byte = self.op_read(operand);
                let x = self.register_x;
                self.compare_with(x, byte);
            },
            Mnemonic::CPY => {
                let byte = self.op_read(operand);
                let y = self.register_y;
                self.compare_with(y, byte);
            },
            _ => {},
        }
    }

    /// Increments, decrements, shifts and rotates.
    fn apply_inc_shift(&mut self, mnemonic: Mnemonic, operand: Operand)
        requires
            operand_fits(mnemonic, operand),
            (match mnemonic {
                Mnemonic::INC | Mnemonic::INX | Mnemonic::INY | Mnemonic::DEC | Mnemonic::DEX | Mnemonic::DEY | Mnemonic::ASL | Mnemonic::LSR | Mnemonic::ROL | Mnemonic::ROR => true,
                _ => false,
            }),
        ensures
            final(self)@ == execute(old(self)@, mnemonic, operand),
    {
        match mnemonic {
            Mnemonic::INC => {
                let result = self.op_read(operand).wrapping_add(1);
                self.op_write(operand, result);
                self.update_zn(result);
            },
            Mnemonic::INX => {
                self.register_x = self.register_x.wrapping_add(1);
                let x = self.register_x;
                self.update_zn(x);
            },
            Mnemonic::INY => {
                self.register_y = self.register_y.wrapping_add(1);
                let y = self.register_y;
                self.update_zn(y);
            },
            Mnemonic::DEC => {
                let result = self.op_read(operand).wrapping_sub(1);
                self.op_write(operand, result);
                self.update_zn(result);
            },
            Mnemonic::DEX => {
                self.register_x = self.register_x.wrapping_sub(1);
                let x = self.register_x;
                self.update_zn(x);
            },
            Mnemonic::DEY => {
                self.register_y = self.register_y.wrapping_sub(1);
                let y = self.register_y;
                self.update_zn(y);
            },
            Mnemonic::ASL => {
                let byte = self.op_read(operand);
                proof {
                    lemma_shifts(byte, 0);
                    lemma_sign_mask(byte);
                }
                self.shift_result(operand, byte << 1, byte & 0b1000_0000 != 0);
            },
            Mnemonic::LSR => {
                let byte = self.op_read(operand);
                proof {
                    lemma_shifts(byte, 0);
                }
                self.shift_result(operand, byte >> 1, byte & 1 != 0);
            },
            Mnemonic::ROL => {
                let byte = self.op_read(operand);
                let carry_in: u8 = if self.status.carry {
                    1
                } else {
                    0
                };
                proof {
                    lemma_shifts(byte, carry_in);
                    lemma_sign_mask(byte);
                }
                self.shift_result(operand, (byte << 1) | carry_in, byte & 0b1000_0000 != 0);
            },
            Mnemonic::ROR => {
                let byte = self.op_read(operand);
                let carry_in: u8 = if self.status.carry {
                    1
                } else {
                    0
                };
                proof {
                    lemma_shifts(byte, carry_in);
                }
                self.shift_result(operand, (byte >> 1) | (carry_in << 7), byte & 1 != 0);
            },
            _ => {},
        }
    }

    /// Branches, flag changes and `NOP`.
    fn apply_branch_flag(&mut self, mnemonic: Mnemonic, operand: Operand)
        requires
            operand_fits(mnemonic, operand),
            (match mnemonic {
                Mnemonic::BCC | Mnemonic::BCS | Mnemonic::BEQ | Mnemonic::BMI | Mnemonic::BNE | Mnemonic::BPL | Mnemonic::BVC | Mnemonic::BVS | Mnemonic::CLC | Mnemonic::CLD | Mnemonic::CLI | Mnemonic::CLV | Mnemonic::SEC | Mnemonic::SED | Mnemonic::SEI | Mnemonic::NOP => true,
                _ => false,
            }),
        ensures
            final(self)@ == execute(old(self)@, mnemonic, operand),
    {
        match mnemonic {
            Mnemonic::BCC => {
                let taken = !self.status.carry;
                self.branch_if(taken, operand);
            },
            Mnemonic::BCS => {
                let taken = self.status.carry;
                self.branch_if(taken, operand);
            },
            Mnemonic::BEQ => {
                let taken = self.status.zero;
                self.branch_if(taken, operand);
            },
            Mnemonic::BMI => {
                let taken = self.status.negative;
                self.branch_if(taken, operand);
            },
            Mnemonic::BNE => {
                let taken = !self.status.zero;
                self.branch_if(taken, operand);
            },
            Mnemonic::BPL => {
                let taken = !self.status.negative;
                self.branch_if(taken, operand);
            },
            Mnemonic::BVC => {
                let taken = !self.status.overflow;
                self.branch_if(taken, operand);
            },
            Mnemonic::BVS => {
                let taken = self.status.overflow;
                self.branch_if(taken, operand);
            },
            Mnemonic::CLC => self.status.carry = false,
            Mnemonic::CLD => self.status.decimal = false,
            Mnemonic::CLI => self.status.interrupt = false,
            Mnemonic::CLV => self.status.overflow = false,
            Mnemonic::SEC => self.status.carry = true,
            Mnemonic::SED => self.status.decimal = true,
            Mnemonic::SEI => self.status.interrupt = true,
            Mnemonic::NOP => {},
            _ => {},
        }
    }

    // Operand Helpers
    fn op_read(&self, operand: Operand) -> (data: u8)
        requires
            !(operand is Implied),
        ensures
            data == operand_value(self@, operand),
    {
        match operand {
            Operand::Accumulator => self.register_a,
            Operand::Address(addr) => self.mem_read(addr),
            Operand::Implied => 0,  // excluded by the precondition
        }
    }

    fn op_write(&mut self, operand: Operand, data: u8)
        requires
            !(operand is Implied),
        ensures
            final(self)@ == store(old(self)@, operand, data),
    {
        match operand {
            Operand::Accumulator => self.register_a = data,
            Operand::Address(addr) => self.mem_write(addr, data),
            Operand::Implied => {},  // excluded by the precondition
        }
    }

    fn push_byte(&mut self, data: u8)
        ensures
            final(self)@ == push(old(self)@, data),
    {
        self.mem_write(STACK_PAGE + self.stack_pointer as u16, data);
        self.stack_pointer = self.stack_pointer.wrapping_sub(1);
    }

    fn pull_byte(&mut self) -> (data: u8)
        ensures
            data == top(old(self)@),
            final(self)@ == pulled(old(self)@),
    {
        self.stack_pointer = self.stack_pointer.wrapping_add(1);
        self.mem_read(STACK_PAGE + self.stack_pointer as u16)
    }

    fn add_to_accumulator(&mut self, data: u8)
        ensures
            final(self)@ == add_with_carry(old(self)@, data),
    {
        let carry_in: u16 = if self.status.carry {
            1
        } else {
            0
        };
        let sum: u16 = self.register_a as u16 + data as u16 + carry_in;
        let result: u8 = if sum > 0xFF {
            (sum - 0x100) as u8
        } else {
            sum as u8
        };
        proof {
            lemma_add_overflow(self.register_a, data, carry_in as u8, result);
        }
        self.status.carry = sum > 0xFF;
        self.status.overflow = (self.register_a ^ result) & (data ^ result) & 0x80 != 0;
        self.register_a = result;
        self.update_zn(result);
    }

    fn compare_with(&mut self, register: u8, data: u8)
        ensures
            final(self)@ == self::semantics::compare(old(self)@, register, data),
    {
        self.status.carry = register >= data;
        self.update_zn(register.wrapping_sub(data));
    }

    fn shift_result(&mut self, operand: Operand, result: u8, carry: bool)
        requires
            !(operand is Implied),
        ensures
            final(self)@ == modify(old(self)@, operand, result, carry),
    {
        self.op_write(operand, result);
        self.status.carry = carry;
        self.update_zn(result);
    }

    fn branch_if(&mut self, taken: bool, operand: Operand)
        requires
            operand is Address,
        ensures
            final(self)@ == self::semantics::branch(old(self)@, taken, operand),
    {
        if taken {
            if let Operand::Address(addr) = operand {
                self.program_counter = addr;
            }
        }
    }

    // Flag Helpers
    fn update_zn(&mut self, value: u8)
        ensures
            final(self)@ == (CpuState { status: with_zn(old(self)@.status, value), ..old(self)@ }),
    {
        proof {
            lemma_sign_mask(value);
        }
        self.status.zero = value == 0;
        self.status.negative = value & 0b1000_0000 != 0;
    }
}

/// Number of operand bytes in a mode, as a machine integer.
fn operand_bytes(mode: AddressingMode) -> (n: u32)
    ensures
        n == operand_size(mode),
{
    match mode {
        AddressingMode::Implied | AddressingMode::Accumulator => 0,
        AddressingMode::Absolute | AddressingMode::AbsoluteX | AddressingMode::AbsoluteY
        | AddressingMode::Indirect => 2,
        _ => 1,
    }
}

/// Every entry of the opcode table pairs an instruction with a mode that
/// yields the kind of operand it needs.
proof fn lemma_table_operands(byte: u8)
    ensures
        opcode_table(byte) matches Some(i) ==> {
            &&& uses_data(i.mnemonic) ==> !(i.mode is Implied)
            &&& uses_target(i.mnemonic) ==> !(i.mode is Implied) && !(i.mode is Accumulator)
        },
{
}

} // verus!
