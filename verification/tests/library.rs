use emunes::bus::{Bus, Mem};
use emunes::cpu::instruction::{decode, AddressingMode, Instruction, Mnemonic};
use emunes::cpu::opcode::Opcode;
use emunes::cpu::semantics::Flow;
use emunes::cpu::status::Status;
use emunes::cpu::Cpu;
use emunes::game::{color, input_for_key, read_screen_state, FRAME_LEN, SCREEN_START};

fn all_clear() -> Status {
    Status::default()
}

fn assemble(cpu: &mut Cpu, program: Vec<u8>) {
    cpu.load(program);
    cpu.reset();
}

#[test]
fn status_to_byte_sets_bit5_and_break() {
    assert_eq!(all_clear().to_byte(false), 0x20);
    assert_eq!(all_clear().to_byte(true), 0x30);
    let s = Status { carry: true, zero: false, interrupt: true, decimal: false, overflow: true, negative: false };
    assert_eq!(s.to_byte(false), 0b0110_0101);
    let all = Status { carry: true, zero: true, interrupt: true, decimal: true, overflow: true, negative: true };
    assert_eq!(all.to_byte(true), 0xFF);
    assert_eq!(all.to_byte(false), 0xEF);
}

#[test]
fn status_from_byte_reads_each_flag() {
    let s = Status::from_byte(0b1000_0010);
    assert!(s.negative && s.zero);
    assert!(!s.carry && !s.interrupt && !s.decimal && !s.overflow);
    let s = Status::from_byte(0b0100_1101);
    assert!(s.overflow && s.decimal && s.interrupt && s.carry);
    assert!(!s.zero && !s.negative);
}

#[test]
fn status_round_trip_for_every_flag_combination() {
    for bits in 0u8..64 {
        let s = Status {
            carry: bits & 1 != 0,
            zero: bits & 2 != 0,
            interrupt: bits & 4 != 0,
            decimal: bits & 8 != 0,
            overflow: bits & 16 != 0,
            negative: bits & 32 != 0,
        };
        for brk in [false, true] {
            let back = Status::from_byte(s.to_byte(brk));
            assert_eq!(back.to_byte(false), s.to_byte(false));
        }
    }
}

#[test]
fn status_byte_of_byte_replaces_bits_4_and_5() {
    for b in 0..=255u8 {
        assert_eq!(Status::from_byte(b).to_byte(true), (b & 0b1100_1111) | 0x30);
        assert_eq!(Status::from_byte(b).to_byte(false), (b & 0b1100_1111) | 0x20);
    }
}

#[test]
fn opcode_from_byte() {
    assert_eq!(Opcode::from(0xA9u8), Opcode::LDA);
    assert_eq!(Opcode::from(0x00u8), Opcode::BRK);
    assert_eq!(Opcode::from(0x42u8), Opcode::Unknown(0x42));
    assert_eq!(u8::from(Opcode::LDA), 0xA9);
    assert_eq!(u8::from(Opcode::BRK), 0x00);
    for b in 0..=255u8 {
        assert_eq!(u8::from(Opcode::from(b)), b);
    }
}

#[test]
fn bus_starts_zeroed_and_mirrors_ram() {
    let mut bus = Bus::default();
    assert_eq!(bus.mem_read(0x0000), 0);
    bus.mem_write(0x0001, 0x42);
    assert_eq!(bus.mem_read(0x0001), 0x42);
    assert_eq!(bus.mem_read(0x0801), 0x42);
    assert_eq!(bus.mem_read(0x1001), 0x42);
    assert_eq!(bus.mem_read(0x1801), 0x42);
    bus.mem_write(0x1FFF, 0x17);
    assert_eq!(bus.mem_read(0x07FF), 0x17);
}

#[test]
fn bus_ignores_accesses_outside_ram() {
    let mut bus = Bus::default();
    bus.mem_write(0x4000, 0x99);
    assert_eq!(bus.mem_read(0x4000), 0);
    assert_eq!(bus.mem_read(0x0000), 0);
    assert_eq!(bus.mem_read(0xFFFF), 0);
}

#[test]
fn bus_word_round_trip() {
    let mut bus = Bus::default();
    bus.mem_write_u16(0x0010, 0xBEEF);
    assert_eq!(bus.mem_read(0x0010), 0xEF);
    assert_eq!(bus.mem_read(0x0011), 0xBE);
    assert_eq!(bus.mem_read_u16(0x0810), 0xBEEF);
}

#[test]
fn cpu_new_is_cleared() {
    let cpu = Cpu::new();
    assert_eq!(cpu.register_a, 0);
    assert_eq!(cpu.stack_pointer, 0);
    assert_eq!(cpu.program_counter, 0);
    assert_eq!(cpu.status.to_byte(false), 0x20);
    assert_eq!(cpu.mem_read(0x1234), 0);
}

#[test]
fn cpu_word_round_trip_wraps_at_top_of_memory() {
    let mut cpu = Cpu::new();
    cpu.mem_write_u16(0x1000, 0x1234);
    assert_eq!(cpu.mem_read(0x1000), 0x34);
    assert_eq!(cpu.mem_read(0x1001), 0x12);
    assert_eq!(cpu.mem_read_u16(0x1000), 0x1234);
    cpu.mem_write_u16(0xFFFF, 0xABCD);
    assert_eq!(cpu.mem_read(0xFFFF), 0xCD);
    assert_eq!(cpu.mem_read(0x0000), 0xAB);
    assert_eq!(cpu.mem_read_u16(0xFFFF), 0xABCD);
}

#[test]
fn load_copies_program_and_sets_reset_vector() {
    let mut cpu = Cpu::new();
    cpu.mem_write(0x0003, 0x77);
    cpu.load(vec![0xA9, 0x05, 0x00]);
    assert_eq!(cpu.mem_read(0x0000), 0xA9);
    assert_eq!(cpu.mem_read(0x0001), 0x05);
    assert_eq!(cpu.mem_read(0x0002), 0x00);
    assert_eq!(cpu.mem_read(0x0003), 0x77);
    assert_eq!(cpu.mem_read_u16(0xFFFC), 0x0000);
}

#[test]
fn reset_clears_registers_and_reads_vector() {
    let mut cpu = Cpu::new();
    cpu.register_a = 1;
    cpu.register_x = 2;
    cpu.register_y = 3;
    cpu.status.carry = true;
    cpu.mem_write_u16(0xFFFC, 0x0600);
    cpu.reset();
    assert_eq!((cpu.register_a, cpu.register_x, cpu.register_y), (0, 0, 0));
    assert_eq!(cpu.stack_pointer, 0xFD);
    assert!(!cpu.status.carry);
    assert_eq!(cpu.program_counter, 0x0600);
}

#[test]
fn load_and_run_executes_until_brk() {
    let mut cpu = Cpu::new();
    cpu.load_and_run(vec![0xA9, 0x05, 0xAA, 0xE8, 0x00]);
    assert_eq!(cpu.register_a, 0x05);
    assert_eq!(cpu.register_x, 0x06);
    assert_eq!(cpu.program_counter, 0x0005);
}

#[test]
fn step_reports_halt_on_brk_only() {
    let mut cpu = Cpu::new();
    assemble(&mut cpu, vec![0xEA, 0x00]);
    assert!(cpu.can_step());
    assert_eq!(cpu.step(), Flow::Continue);
    assert_eq!(cpu.program_counter, 1);
    assert_eq!(cpu.step(), Flow::Halt);
    assert_eq!(cpu.program_counter, 2);
}

#[test]
fn can_step_rejects_unknown_opcode_and_end_of_memory() {
    let mut cpu = Cpu::new();
    assemble(&mut cpu, vec![0x02]);
    assert!(!cpu.can_step());
    cpu.program_counter = 0xFFFF;
    cpu.mem_write(0xFFFF, 0xEA);
    assert!(!cpu.can_step());
    cpu.program_counter = 0xFFFD;
    cpu.mem_write(0xFFFD, 0xAD); // LDA absolute needs two more bytes
    assert!(!cpu.can_step());
    cpu.mem_write(0xFFFD, 0xA9); // LDA immediate needs one
    assert!(cpu.can_step());
}

#[test]
fn decode_knows_the_official_opcodes() {
    let known = (0..=255u8).filter(|b| decode(*b).is_some()).count();
    assert_eq!(known, 151);
    assert_eq!(
        decode(0xA9),
        Some(Instruction { mnemonic: Mnemonic::LDA, mode: AddressingMode::Immediate })
    );
    assert_eq!(
        decode(0x6C),
        Some(Instruction { mnemonic: Mnemonic::JMP, mode: AddressingMode::Indirect })
    );
    assert_eq!(decode(0x02), None);
    assert_eq!(decode(0xFF), None);
}

#[test]
fn sbc_equals_adc_of_complement() {
    for (a, m, c) in [(0x50u8, 0x10u8, true), (0x50, 0xB0, true), (0x00, 0x01, false), (0x80, 0x7F, true)] {
        let flag = if c { 0x38 } else { 0x18 }; // SEC / CLC
        let mut s = Cpu::new();
        s.load_and_run(vec![flag, 0xA9, a, 0xE9, m, 0x00]);
        let mut d = Cpu::new();
        d.load_and_run(vec![flag, 0xA9, a, 0x69, !m, 0x00]);
        assert_eq!(s.register_a, d.register_a);
        assert_eq!(s.status.to_byte(false), d.status.to_byte(false));
    }
}

#[test]
fn adc_result_and_carry_hold_the_full_sum() {
    for (a, m) in [(0xFFu8, 0xFFu8), (0x80, 0x80), (0x01, 0x02), (0x7F, 0x01)] {
        let mut cpu = Cpu::new();
        cpu.load_and_run(vec![0x38, 0xA9, a, 0x69, m, 0x00]);
        let carry = if cpu.status.carry { 256 } else { 0 };
        assert_eq!(cpu.register_a as u32 + carry, a as u32 + m as u32 + 1);
    }
}

#[test]
fn php_plp_restores_flags() {
    // SEC; SED; LDA #$80 (N); PHP; CLC; CLD; LDA #$01; PLP; BRK
    let mut cpu = Cpu::new();
    cpu.load_and_run(vec![0x38, 0xF8, 0xA9, 0x80, 0x08, 0x18, 0xD8, 0xA9, 0x01, 0x28, 0x00]);
    assert!(cpu.status.carry && cpu.status.decimal && cpu.status.negative);
    assert!(!cpu.status.zero);
    assert_eq!(cpu.stack_pointer, 0xFD);
}

#[test]
fn jsr_rts_returns_after_call_with_stack_restored() {
    let mut cpu = Cpu::new();
    cpu.load(vec![0x20, 0x00, 0x06, 0xE8, 0x00]); // JSR $0600; INX; BRK
    cpu.reset();
    cpu.mem_write(0x0600, 0x60); // RTS
    cpu.run();
    assert_eq!(cpu.register_x, 1);
    assert_eq!(cpu.stack_pointer, 0xFD);
    assert_eq!(cpu.program_counter, 0x0005);
}

#[test]
fn stack_pointer_wraps_around_the_stack_page() {
    // LDX #$00; TXS; PHA; BRK -> push at 0x0100, S wraps to 0xFF
    let mut cpu = Cpu::new();
    cpu.load_and_run(vec![0xA2, 0x00, 0x9A, 0xA9, 0x33, 0x48, 0x00]);
    assert_eq!(cpu.mem_read(0x0100), 0x33);
    assert_eq!(cpu.stack_pointer, 0xFF);
}

#[test]
fn branch_offset_can_wrap_below_zero() {
    // LDA #0 sets Z; BEQ with offset 0x80 (-128) from 0x0004 wraps below 0x0000
    let mut cpu = Cpu::new();
    assemble(&mut cpu, vec![0xA9, 0x00, 0xF0, 0x80]);
    assert_eq!(cpu.step(), Flow::Continue);
    assert_eq!(cpu.step(), Flow::Continue);
    assert_eq!(cpu.program_counter, 0x0004u16.wrapping_sub(128));
}

#[test]
fn palette_colors() {
    assert_eq!(color(0), (0, 0, 0));
    assert_eq!(color(1), (255, 255, 255));
    assert_eq!(color(2), (128, 128, 128));
    assert_eq!(color(9), (128, 128, 128));
    assert_eq!(color(3), (255, 0, 0));
    assert_eq!(color(11), (0, 255, 0));
    assert_eq!(color(12), (0, 0, 255));
    assert_eq!(color(6), (255, 0, 255));
    assert_eq!(color(14), (255, 255, 0));
    assert_eq!(color(15), (0, 255, 255));
    assert_eq!(color(0xFF), (0, 255, 255));
}

#[test]
fn keys_map_to_direction_bytes() {
    assert_eq!(input_for_key('W'), Some(0x77));
    assert_eq!(input_for_key('S'), Some(0x73));
    assert_eq!(input_for_key('A'), Some(0x61));
    assert_eq!(input_for_key('D'), Some(0x64));
    assert_eq!(input_for_key('Q'), None);
}

#[test]
fn screen_state_updates_only_on_change() {
    let mut cpu = Cpu::new();
    let mut frame = [0u8; FRAME_LEN];
    // an all-black screen matches an all-zero frame
    assert!(!read_screen_state(&cpu, &mut frame));
    cpu.mem_write(SCREEN_START, 1);
    cpu.mem_write(SCREEN_START + 0x3FF, 3);
    assert!(read_screen_state(&cpu, &mut frame));
    assert_eq!(&frame[0..3], &[255, 255, 255]);
    assert_eq!(&frame[FRAME_LEN - 3..], &[255, 0, 0]);
    assert_eq!(frame[3..FRAME_LEN - 3].iter().filter(|b| **b != 0).count(), 0);
    assert!(!read_screen_state(&cpu, &mut frame));
}
