use lib::cpu::CPU;
use lib::flags::CpuFlags;
use lib::machine::{CpuError, StepOutcome};
use lib::opcodes::{lookup_opcode, AddressingMode, Instruction};

fn cpu_with(at: u16, bytes: &[u8]) -> CPU {
    let mut cpu = CPU::new();
    for (i, b) in bytes.iter().enumerate() {
        cpu.mem_write(at + i as u16, *b);
    }
    cpu.program_counter = at;
    cpu
}

#[test]
fn new_is_power_on_state() {
    let cpu = CPU::new();
    assert_eq!(cpu.register_a, 0);
    assert_eq!(cpu.register_x, 0);
    assert_eq!(cpu.register_y, 0);
    assert_eq!(cpu.program_counter, 0);
    assert_eq!(cpu.status.bits(), 0b0010_0100);
    assert!(cpu.memory.iter().all(|b| *b == 0));
    assert_eq!(cpu.memory.len(), 0xFFFF);
}

#[test]
fn read_after_write_and_neighbours_untouched() {
    let mut cpu = CPU::new();
    cpu.mem_write(0x1234, 0x77);
    assert_eq!(cpu.mem_read(0x1234), 0x77);
    assert_eq!(cpu.mem_read(0x1233), 0);
    assert_eq!(cpu.mem_read(0x1235), 0);
    cpu.mem_write(0xFFFE, 0x01);
    assert_eq!(cpu.mem_read(0xFFFE), 0x01);
}

#[test]
fn word_round_trip_is_little_endian() {
    let mut cpu = CPU::new();
    cpu.mem_write_u16(0x2000, 0xBEEF);
    assert_eq!(cpu.mem_read(0x2000), 0xEF);
    assert_eq!(cpu.mem_read(0x2001), 0xBE);
    assert_eq!(cpu.mem_read_u16(0x2000), 0xBEEF);
    cpu.mem_write_u16(0xFFFD, 0x1234);
    assert_eq!(cpu.mem_read_u16(0xFFFD), 0x1234);
}

#[test]
fn flags_set_insert_remove() {
    let mut f = CpuFlags::from_bits_truncate(0);
    f.insert(CpuFlags::CARRY);
    assert!(f.contains(CpuFlags::CARRY));
    assert_eq!(f.bits(), 0b0000_0001);
    f.set(CpuFlags::NEGATIVE, true);
    assert_eq!(f.bits(), 0b1000_0001);
    f.set(CpuFlags::CARRY, false);
    assert!(!f.contains(CpuFlags::CARRY));
    assert!(f.contains(CpuFlags::NEGATIVE));
    f.remove(CpuFlags::NEGATIVE);
    assert_eq!(f.bits(), 0);
    assert_eq!(CpuFlags::from_bits_truncate(0xFF).bits(), 0xFF);
}

#[test]
fn flag_instructions_touch_only_their_flag() {
    let mut cpu = CPU::new();
    cpu.status = CpuFlags::from_bits_truncate(0);
    cpu.sec();
    cpu.sed();
    cpu.sei();
    assert_eq!(cpu.status.bits(), 0b0000_1101);
    cpu.clc();
    assert_eq!(cpu.status.bits(), 0b0000_1100);
    cpu.status.insert(CpuFlags::OVERFLOW);
    cpu.clv();
    assert_eq!(cpu.status.bits(), 0b0000_1100);
}

#[test]
fn lda_sets_negative_flag() {
    let mut cpu = CPU::new();
    cpu.load_and_run(vec![0xa9, 0x80, 0x00]).unwrap();
    assert_eq!(cpu.register_a, 0x80);
    assert!(cpu.status.contains(CpuFlags::NEGATIVE));
    assert!(!cpu.status.contains(CpuFlags::ZERO));
}

#[test]
fn adc_signed_overflow() {
    let mut cpu = CPU::new();
    // 0x50 + 0x50 = 0xA0: no carry, but two positives gave a negative
    cpu.load_and_run(vec![0xa9, 0x50, 0x69, 0x50, 0x00]).unwrap();
    assert_eq!(cpu.register_a, 0xA0);
    assert!(cpu.status.contains(CpuFlags::OVERFLOW));
    assert!(!cpu.status.contains(CpuFlags::CARRY));
    assert!(cpu.status.contains(CpuFlags::NEGATIVE));
    // 0xD0 + 0x90 = 0x160: carry, and two negatives gave a positive
    cpu.load_and_run(vec![0xa9, 0xD0, 0x69, 0x90, 0x00]).unwrap();
    assert_eq!(cpu.register_a, 0x60);
    assert!(cpu.status.contains(CpuFlags::OVERFLOW));
    assert!(cpu.status.contains(CpuFlags::CARRY));
    // carry in: SEC; LDA #1; ADC #1 = 3
    cpu.load_and_run(vec![0x38, 0xa9, 0x01, 0x69, 0x01, 0x00]).unwrap();
    assert_eq!(cpu.register_a, 0x03);
    assert!(!cpu.status.contains(CpuFlags::OVERFLOW));
    assert!(!cpu.status.contains(CpuFlags::CARRY));
}

#[test]
fn compare_less_and_greater() {
    let mut cpu = CPU::new();
    // A = 0x10, CMP #0x20: borrow, result 0xF0 is negative
    cpu.load_and_run(vec![0xa9, 0x10, 0xC9, 0x20, 0x00]).unwrap();
    assert!(!cpu.status.contains(CpuFlags::CARRY));
    assert!(!cpu.status.contains(CpuFlags::ZERO));
    assert!(cpu.status.contains(CpuFlags::NEGATIVE));
    // X = 0x30, CPX #0x20
    cpu.load_and_run(vec![0xA2, 0x30, 0xE0, 0x20, 0x00]).unwrap();
    assert!(cpu.status.contains(CpuFlags::CARRY));
    assert!(!cpu.status.contains(CpuFlags::ZERO));
    assert!(!cpu.status.contains(CpuFlags::NEGATIVE));
    // Y = 0x05, CPY #0x05
    cpu.load_and_run(vec![0xA0, 0x05, 0xC0, 0x05, 0x00]).unwrap();
    assert!(cpu.status.contains(CpuFlags::CARRY));
    assert!(cpu.status.contains(CpuFlags::ZERO));
}

#[test]
fn increment_undoes_decrement() {
    let mut cpu = CPU::new();
    cpu.load_and_run(vec![0xA2, 0x00, 0xCA, 0xE8, 0xA0, 0x80, 0x88, 0xC8, 0x00]).unwrap();
    assert_eq!(cpu.register_x, 0x00);
    assert!(cpu.status.contains(CpuFlags::NEGATIVE));
    assert_eq!(cpu.register_y, 0x80);
    cpu.mem_write(0x40, 0x00);
    cpu.load_and_run(vec![0xC6, 0x40, 0xE6, 0x40, 0x00]).unwrap();
    assert_eq!(cpu.mem_read(0x40), 0x00);
    assert!(cpu.status.contains(CpuFlags::ZERO));
}

#[test]
fn wrapping_register_arithmetic() {
    let mut cpu = CPU::new();
    cpu.load_and_run(vec![0xA2, 0xFF, 0xE8, 0x00]).unwrap();
    assert_eq!(cpu.register_x, 0);
    assert!(cpu.status.contains(CpuFlags::ZERO));
    cpu.load_and_run(vec![0xA0, 0x00, 0x88, 0x00]).unwrap();
    assert_eq!(cpu.register_y, 0xFF);
    assert!(cpu.status.contains(CpuFlags::NEGATIVE));
}

#[test]
fn and_leaves_flags_alone() {
    let mut cpu = CPU::new();
    // LDA #0x80 sets negative; AND #0x00 gives zero but the flags stay
    cpu.load_and_run(vec![0xa9, 0x80, 0x29, 0x00, 0x00]).unwrap();
    assert_eq!(cpu.register_a, 0);
    assert!(cpu.status.contains(CpuFlags::NEGATIVE));
    assert!(!cpu.status.contains(CpuFlags::ZERO));
}

#[test]
fn asl_moves_bit_seven_to_carry() {
    let mut cpu = CPU::new();
    cpu.mem_write(0x10, 0b1000_0001);
    cpu.load_and_run(vec![0x06, 0x10, 0x00]).unwrap();
    assert_eq!(cpu.mem_read(0x10), 0b0000_0010);
    assert!(cpu.status.contains(CpuFlags::CARRY));
    assert!(!cpu.status.contains(CpuFlags::NEGATIVE));
}

#[test]
fn bit_takes_negative_from_bit_five() {
    let mut cpu = CPU::new();
    cpu.mem_write(0x20, 0b1000_0000);
    cpu.load_and_run(vec![0xa9, 0x0F, 0x24, 0x20, 0x00]).unwrap();
    assert!(cpu.status.contains(CpuFlags::ZERO));
    assert!(!cpu.status.contains(CpuFlags::NEGATIVE));
    assert!(!cpu.status.contains(CpuFlags::OVERFLOW));
}

#[test]
fn sta_and_indexed_modes() {
    let mut cpu = CPU::new();
    // LDX #2; LDA #0x99; STA $10,X; LDY #1; STA $3000,Y
    cpu.load_and_run(vec![0xA2, 0x02, 0xa9, 0x99, 0x95, 0x10, 0xA0, 0x01, 0x99, 0x00, 0x30, 0x00])
        .unwrap();
    assert_eq!(cpu.mem_read(0x12), 0x99);
    assert_eq!(cpu.mem_read(0x3001), 0x99);
    // zero page indexing wraps within the page
    cpu.load_and_run(vec![0xA2, 0x20, 0xa9, 0x42, 0x95, 0xF0, 0x00]).unwrap();
    assert_eq!(cpu.mem_read(0x10), 0x42);
}

#[test]
fn indirect_modes() {
    let mut cpu = CPU::new();
    cpu.mem_write_u16(0x24, 0x4000);
    cpu.mem_write(0x4000, 0xAB);
    cpu.mem_write(0x4003, 0xCD);
    // LDX #4; LDA ($20,X)
    cpu.load_and_run(vec![0xA2, 0x04, 0xA1, 0x20, 0x00]).unwrap();
    assert_eq!(cpu.register_a, 0xAB);
    // LDY #3; LDA ($24),Y
    cpu.load_and_run(vec![0xA0, 0x03, 0xB1, 0x24, 0x00]).unwrap();
    assert_eq!(cpu.register_a, 0xCD);
}

#[test]
fn branch_backwards() {
    let mut cpu = CPU::new();
    // LDX #3; loop: DEX; BNE loop (offset -3); BRK
    cpu.load_and_run(vec![0xA2, 0x03, 0xCA, 0xD0, 0xFD, 0x00]).unwrap();
    assert_eq!(cpu.register_x, 0);
    assert_eq!(cpu.program_counter, 0x8006);
}

#[test]
fn branch_to_its_own_operand_moves_on() {
    // BCC with offset -1 lands on the byte after the opcode; the counter then moves over
    // the operand as for an untaken branch
    let mut cpu = cpu_with(0x0200, &[0x90, 0xFF, 0x00]);
    assert_eq!(cpu.step(), Ok(StepOutcome::Continue));
    assert_eq!(cpu.program_counter, 0x0202);
}

#[test]
fn jump_indirect_wraps_within_page() {
    let mut cpu = cpu_with(0x0200, &[0x6C, 0xFF, 0x30]);
    cpu.mem_write(0x30FF, 0x40);
    cpu.mem_write(0x3000, 0x12);
    cpu.mem_write(0x3100, 0x99);
    assert_eq!(cpu.step(), Ok(StepOutcome::Continue));
    assert_eq!(cpu.program_counter, 0x1240);
    let mut cpu = cpu_with(0x0200, &[0x6C, 0x10, 0x30]);
    cpu.mem_write_u16(0x3010, 0x5678);
    assert_eq!(cpu.step(), Ok(StepOutcome::Continue));
    assert_eq!(cpu.program_counter, 0x5678);
}

#[test]
fn brk_halts_past_itself() {
    let mut cpu = cpu_with(0x0300, &[0x00]);
    assert_eq!(cpu.step(), Ok(StepOutcome::Halted));
    assert_eq!(cpu.program_counter, 0x0301);
    let mut cpu = CPU::new();
    cpu.load_and_run(vec![0x00]).unwrap();
    assert_eq!(cpu.program_counter, 0x8001);
}

#[test]
fn straight_line_instructions_advance_by_length() {
    let mut cpu = cpu_with(0x0400, &[0xAD, 0x00, 0x50, 0xA9, 0x01, 0xE8, 0x00]);
    assert_eq!(cpu.step(), Ok(StepOutcome::Continue));
    assert_eq!(cpu.program_counter, 0x0403);
    assert_eq!(cpu.step(), Ok(StepOutcome::Continue));
    assert_eq!(cpu.program_counter, 0x0405);
    assert_eq!(cpu.step(), Ok(StepOutcome::Continue));
    assert_eq!(cpu.program_counter, 0x0406);
}

#[test]
fn load_then_reset() {
    let mut cpu = CPU::new();
    cpu.register_a = 9;
    cpu.register_x = 9;
    cpu.register_y = 9;
    cpu.load(vec![0x11, 0x22, 0x33]);
    assert_eq!(cpu.mem_read(0x8000), 0x11);
    assert_eq!(cpu.mem_read(0x8002), 0x33);
    assert_eq!(cpu.mem_read_u16(0xFFFC), 0x8000);
    cpu.reset_interrupt();
    assert_eq!(cpu.program_counter, 0x8000);
    assert_eq!(cpu.register_a, 0);
    assert_eq!(cpu.register_x, 0);
    assert_eq!(cpu.register_y, 9);
    assert_eq!(cpu.status.bits(), 0b0010_0100);
}

#[test]
fn opcode_table_entries() {
    let op = lookup_opcode(0xBD).unwrap();
    assert_eq!(op.instruction, Instruction::Lda);
    assert_eq!(op.mode, AddressingMode::Absolute_X);
    assert_eq!(op.len, 3);
    assert_eq!(lookup_opcode(0x0A).unwrap().mode, AddressingMode::NoneAddressing);
    assert_eq!(lookup_opcode(0xD0).unwrap().instruction, Instruction::Bne);
    assert!(lookup_opcode(0xEA).is_none());
    assert!(lookup_opcode(0x21).is_none());
}

#[test]
fn fault_unsupported_opcode_changes_nothing() {
    let mut cpu = cpu_with(0x0500, &[0xEA]);
    cpu.register_a = 5;
    assert_eq!(cpu.step(), Err(CpuError::UnsupportedOpcode(0xEA)));
    assert_eq!(cpu.program_counter, 0x0500);
    assert_eq!(cpu.register_a, 5);
    let mut cpu = CPU::new();
    assert_eq!(cpu.load_and_run(vec![0xa9, 0x01, 0xFF]), Err(CpuError::UnsupportedOpcode(0xFF)));
    assert_eq!(cpu.register_a, 1);
    assert_eq!(cpu.program_counter, 0x8002);
}

#[test]
fn fault_accumulator_shift_mode() {
    let mut cpu = CPU::new();
    assert_eq!(cpu.load_and_run(vec![0x0A]), Err(CpuError::UnsupportedAddressingMode));
    assert_eq!(cpu.program_counter, 0x8000);
}

#[test]
fn fault_invalid_address() {
    // fetching at 0xFFFF
    let mut cpu = CPU::new();
    cpu.program_counter = 0xFFFF;
    assert_eq!(cpu.step(), Err(CpuError::InvalidAddress));
    assert_eq!(cpu.program_counter, 0xFFFF);
    // STA $FFFF
    let mut cpu = CPU::new();
    assert_eq!(cpu.load_and_run(vec![0xa9, 0x07, 0x8D, 0xFF, 0xFF]), Err(CpuError::InvalidAddress));
    assert_eq!(cpu.program_counter, 0x8002);
    assert_eq!(cpu.register_a, 7);
    // an absolute operand whose second byte would be at 0xFFFF
    let mut cpu = cpu_with(0xFFFD, &[0xAD, 0x00]);
    assert_eq!(cpu.step(), Err(CpuError::InvalidAddress));
    assert_eq!(cpu.program_counter, 0xFFFD);
}

#[test]
fn fault_program_counter_overflow() {
    // BCS not taken at 0xFFFE: stepping over the operand would pass 0xFFFF
    let mut cpu = cpu_with(0xFFFE, &[0xB0]);
    cpu.status.remove(CpuFlags::CARRY);
    assert_eq!(cpu.step(), Err(CpuError::ProgramCounterOverflow));
    assert_eq!(cpu.program_counter, 0xFFFE);
}

#[test]
fn run_stops_at_first_brk() {
    let mut cpu = CPU::new();
    cpu.load_and_run(vec![0xE8, 0x00, 0xE8, 0x00]).unwrap();
    assert_eq!(cpu.register_x, 1);
    assert_eq!(cpu.program_counter, 0x8002);
}
