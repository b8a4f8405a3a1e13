use lib::cpu::CPU;
use lib::flags::CpuFlags;

// ------------------- LDA ------------------
#[test]
fn test_0xa9_lda_immediato() {
    let mut cpu = CPU::new();

    cpu.load_and_run(vec![0xa9, 0x05, 0x00]).unwrap();
    assert_eq!(cpu.register_a, 0x05);
    assert!(!cpu.status.contains(CpuFlags::ZERO));
    assert!(!cpu.status.contains(CpuFlags::NEGATIVE));
}

#[test]
fn test_0xa9_lda_zero_flag() {
    let mut cpu = CPU::new();

    cpu.load_and_run(vec![0xa9, 0x00, 0x00]).unwrap();
    assert!(cpu.status.contains(CpuFlags::ZERO));
}

#[test]
fn test_lda_from_memory() {
    let mut cpu = CPU::new();
    cpu.mem_write(0x10, 0x55);

    cpu.load_and_run(vec![0xA5, 0x10, 0x00]).unwrap();
    assert_eq!(cpu.register_a, 0x55)
}

#[test]
fn test_ldx_from_memory() {
    let mut cpu = CPU::new();
    cpu.mem_write(0x10, 0x55);

    cpu.load_and_run(vec![0xA6, 0x10, 0x00]).unwrap();
    assert_eq!(cpu.register_x, 0x55)
}

#[test]
fn test_ldy_from_memory() {
    let mut cpu = CPU::new();
    cpu.mem_write(0x10, 0x55);

    cpu.load_and_run(vec![0xA4, 0x10, 0x00]).unwrap();
    assert_eq!(cpu.register_y, 0x55)
}

// ------------------- TAX ------------------
#[test]
fn test_0xaa_tax() {
    let mut cpu = CPU::new();

    cpu.load_and_run(vec![0xa9, 0x0a, 0xAA, 0x00]).unwrap();
    assert_eq!(cpu.register_x, 10)
}

// ------------------- INX ------------------
#[test]
fn test_0xe8_inx() {
    let mut cpu = CPU::new();
    cpu.load_and_run(vec![0xE8, 0x00]).unwrap();

    assert_eq!(cpu.register_x, 1)
}

// --------------- WRITE MEMORY --------------------
#[test]
fn test_write_mem() {
    let mut cpu = CPU::new();
    cpu.mem_write_u16(0x80ff, 0xef);

    assert_eq!(cpu.memory[0x80ff], 0xef);
}

// -------------------- ADC ------------------------
#[test]
fn test_adc_from_immediate() {
    let mut cpu = CPU::new();
    cpu.load_and_run(vec![0x69, 0x10, 0x69, 0x32]).unwrap();
    assert_eq!(cpu.register_a, 0x42);
}

#[test]
fn test_adc_from_memory() {
    let mut cpu = CPU::new();
    cpu.mem_write(0x10, 0xab);
    cpu.mem_write(0x20, 0x05);

    cpu.load_and_run(vec![
        0xa5, 0x10, // LDA ZeroPage, operand 0x10
        0x65, 0x20, // ADC ZeroPage, operand 0x20
        0x00, // BRK
    ])
    .unwrap();
    assert_eq!(cpu.register_a, 0xb0)
}

#[test]
fn test_adc_carry_flag() {
    let mut cpu = CPU::new();
    cpu.mem_write(0x10, 0xff);
    cpu.mem_write(0x20, 0x01);
    cpu.load_and_run(vec![0xa5, 0x10, 0x65, 0x20, 0x00]).unwrap();
    assert_eq!(cpu.register_a, 0x00);

    assert!(cpu.status.contains(CpuFlags::ZERO));
    assert!(cpu.status.contains(CpuFlags::CARRY));
}

#[test]
fn test_adc_carry_sum() {
    let mut cpu = CPU::new();
    cpu.mem_write(0x10, 0xff);
    cpu.mem_write(0x20, 0x01);
    cpu.load_and_run(vec![0xa5, 0x10, 0x65, 0x20, 0x69, 0x50, 0x00]).unwrap();

    assert!(!cpu.status.contains(CpuFlags::ZERO));
    assert!(!cpu.status.contains(CpuFlags::CARRY));

    assert_eq!(cpu.register_a, 0x51);
}

#[test]
fn test_clear_flags() {
    let mut cpu = CPU::new();
    cpu.status = CpuFlags::from_bits_truncate(0b0100_1101);

    assert!(cpu.status.contains(CpuFlags::CARRY));
    assert!(cpu.status.contains(CpuFlags::DECIMAL_MODE));
    assert!(cpu.status.contains(CpuFlags::INTERRUPT_DISABLE));
    assert!(cpu.status.contains(CpuFlags::OVERFLOW));

    cpu.clc();
    cpu.cld();
    cpu.cli();
    cpu.clv();

    assert!(!cpu.status.contains(CpuFlags::CARRY));
    assert!(!cpu.status.contains(CpuFlags::DECIMAL_MODE));
    assert!(!cpu.status.contains(CpuFlags::INTERRUPT_DISABLE));
    assert!(!cpu.status.contains(CpuFlags::OVERFLOW));
}

#[test]
fn test_set_flags() {
    let mut cpu = CPU::new();
    cpu.load_and_run(vec![0x38, 0xF8, 0x78]).unwrap();

    assert!(cpu.status.contains(CpuFlags::CARRY));
    assert!(cpu.status.contains(CpuFlags::DECIMAL_MODE));
    assert!(cpu.status.contains(CpuFlags::INTERRUPT_DISABLE));
}

#[test]
fn test_compare() {
    let mut cpu = CPU::new();
    cpu.mem_write(0x10, 0x2f);
    cpu.load_and_run(vec![0xa9, 0x2f, 0xC5, 0x10]).unwrap();

    assert!(cpu.status.contains(CpuFlags::ZERO));
    assert!(cpu.status.contains(CpuFlags::CARRY));
    assert!(!cpu.status.contains(CpuFlags::NEGATIVE));
}

#[test]
fn test_and_instruction() {
    let mut cpu = CPU::new();
    cpu.mem_write(0x10, 0x5C);
    cpu.load_and_run(vec![0xa9, 0x1A, 0x25, 0x10]).unwrap();
    assert_eq!(cpu.register_a, 0x18);
}

#[test]
fn test_asl_instruction() {
    let mut cpu = CPU::new();
    cpu.mem_write(0x10, 0b0001_0000);
    cpu.load_and_run(vec![0x06, 0x10]).unwrap();
    assert_eq!(cpu.mem_read(0x10), 0b0010_0000);
}

#[test]
fn test_bcc_instruction() {
    let mut cpu = CPU::new();
    // |0x38 - sec | 0x90 - bcc | 0x18 - clc |
    cpu.load_and_run(vec![0x90, 0x03, 0x00, 0x00, 0x00, 0xa9, 0xff, 0x00]).unwrap();
    assert_eq!(cpu.register_a, 0xff);
    cpu.load_and_run(vec![0x38, 0x90, 0x02, 0xa9, 0xab, 0x00]).unwrap();
    assert_eq!(cpu.register_a, 0xab);
}

#[test]
fn test_bit_instruction() {
    let mut cpu = CPU::new();
    cpu.mem_write(0x20, 0xf3);
    cpu.load_and_run(vec![0xa9, 0xf8, 0x24, 0x20]).unwrap();
    assert!(!cpu.status.contains(CpuFlags::ZERO));
    assert!(cpu.status.contains(CpuFlags::NEGATIVE));
    assert!(cpu.status.contains(CpuFlags::OVERFLOW));
}

#[test]
fn test_decrement_memory() {
    let mut cpu = CPU::new();
    cpu.mem_write(0x50, 0x0f);
    cpu.load_and_run(vec![0xc6, 0x50, 0x00]).unwrap();
    assert_eq!(cpu.mem_read(0x50), 0x0e);
}

#[test]
fn test_decrement_register() {
    let mut cpu = CPU::new();
    cpu.load_and_run(vec![0xA2, 0x0f, 0xCA, 0xA0, 0x09, 0x88, 0x00]).unwrap();

    assert_eq!(cpu.register_x, 0x0e);
    assert_eq!(cpu.register_y, 0x08);
}

#[test]
fn test_increment_mem() {
    let mut cpu = CPU::new();
    cpu.mem_write(0x10, 0x0e);
    cpu.load_and_run(vec![0xE6, 0x10, 0x00]).unwrap();
    assert_eq!(cpu.mem_read(0x10), 0x0f);
}

#[test]
fn test_jump_abs() {
    let mut cpu = CPU::new();
    cpu.load_and_run(vec![0x4c, 0x05, 0x80, 0xa9, 0x10, 0xA2, 0x30, 0x00]).unwrap();

    assert_ne!(cpu.register_a, 0x10);
    assert_eq!(cpu.register_x, 0x30);
}
