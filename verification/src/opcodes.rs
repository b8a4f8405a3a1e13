use vstd::prelude::*;

verus! {

/// How an instruction finds its operand.
#[allow(non_camel_case_types)]
#[derive(Clone, Copy, Debug, PartialEq, Eq, Structural)]
pub enum AddressingMode {
    Immediate,
    ZeroPage,
    Absolute,
    ZeroPage_X,
    ZeroPage_Y,
    Absolute_X,
    Absolute_Y,
    Indirect_X,
    Indirect_Y,
    NoneAddressing,
}

/// The operations this processor carries out.
///
/// `Bne` is opcode `0xD0` (branch when the zero flag is clear) and `Beq` is `0xF0`
/// (branch when it is set).
#[derive(Clone, Copy, Debug, PartialEq, Eq, Structural)]
pub enum Instruction {
    Lda,
    Ldx,
    Ldy,
    Sta,
    Adc,
    And,
    Asl,
    Bit,
    Cmp,
    Cpx,
    Cpy,
    Dec,
    Dex,
    Dey,
    Inc,
    Inx,
    Iny,
    Tax,
    Bcc,
    Bcs,
    Bne,
    Beq,
    Bpl,
    Bmi,
    Bvc,
    Bvs,
    Sec,
    Sed,
    Sei,
    Clc,
    Cld,
    Cli,
    Clv,
    JmpAbsolute,
    JmpIndirect,
    Brk,
}

/// One entry of the opcode table: the opcode byte, what it does, how many bytes the
/// instruction takes (opcode included) and how its operand is addressed.
#[derive(Clone, Copy, Debug, PartialEq, Eq, Structural)]
pub struct OpCode {
    pub code: u8,
    pub instruction: Instruction,
    pub len: u8,
    pub mode: AddressingMode,
}

/// The opcode table: the entry for each opcode this processor knows, `None` for the others.
pub open spec fn opcode_table(code: u8) -> Option<OpCode> {
    match code {
        0x00u8 => Some(OpCode { code: 0x00, instruction: Instruction::Brk, len: 1, mode: AddressingMode::NoneAddressing }),
        0xA9u8 => Some(OpCode { code: 0xA9, instruction: Instruction::Lda, len: 2, mode: AddressingMode::Immediate }),
        0xA5u8 => Some(OpCode { code: 0xA5, instruction: Instruction::Lda, len: 2, mode: AddressingMode::ZeroPage }),
        0xB5u8 => Some(OpCode { code: 0xB5, instruction: Instruction::Lda, len: 2, mode: AddressingMode::ZeroPage_X }),
        0xADu8 => Some(OpCode { code: 0xAD, instruction: Instruction::Lda, len: 3, mode: AddressingMode::Absolute }),
        0xBDu8 => Some(OpCode { code: 0xBD, instruction: Instruction::Lda, len: 3, mode: AddressingMode::Absolute_X }),
        0xB9u8 => Some(OpCode { code: 0xB9, instruction: Instruction::Lda, len: 3, mode: AddressingMode::Absolute_Y }),
        0xA1u8 => Some(OpCode { code: 0xA1, instruction: Instruction::Lda, len: 2, mode: AddressingMode::Indirect_X }),
        0xB1u8 => Some(OpCode { code: 0xB1, instruction: Instruction::Lda, len: 2, mode: AddressingMode::Indirect_Y }),
        0xA2u8 => Some(OpCode { code: 0xA2, instruction: Instruction::Ldx, len: 2, mode: AddressingMode::Immediate }),
        0xA6u8 => Some(OpCode { code: 0xA6, instruction: Instruction::Ldx, len: 2, mode: AddressingMode::ZeroPage }),
        0xB6u8 => Some(OpCode { code: 0xB6, instruction: Instruction::Ldx, len: 2, mode: AddressingMode::ZeroPage_Y }),
        0xAEu8 => Some(OpCode { code: 0xAE, instruction: Instruction::Ldx, len: 3, mode: AddressingMode::Absolute }),
        0xBEu8 => Some(OpCode { code: 0xBE, instruction: Instruction::Ldx, len: 3, mode: AddressingMode::Absolute_Y }),
        0xA0u8 => Some(OpCode { code: 0xA0, instruction: Instruction::Ldy, len: 2, mode: AddressingMode::Immediate }),
        0xA4u8 => Some(OpCode { code: 0xA4, instruction: Instruction::Ldy, len: 2, mode: AddressingMode::ZeroPage }),
        0xB4u8 => Some(OpCode { code: 0xB4, instruction: Instruction::Ldy, len: 2, mode: AddressingMode::ZeroPage_X }),
        0xACu8 => Some(OpCode { code: 0xAC, instruction: Instruction::Ldy, len: 3, mode: AddressingMode::Absolute }),
        0xBCu8 => Some(OpCode { code: 0xBC, instruction: Instruction::Ldy, len: 3, mode: AddressingMode::Absolute_X }),
        0x85u8 => Some(OpCode { code: 0x85, instruction: Instruction::Sta, len: 2, mode: AddressingMode::ZeroPage }),
        0x95u8 => Some(OpCode { code: 0x95, instruction: Instruction::Sta, len: 2, mode: AddressingMode::ZeroPage_X }),
        0x8Du8 => Some(OpCode { code: 0x8D, instruction: Instruction::Sta, len: 3, mode: AddressingMode::Absolute }),
        0x9Du8 => Some(OpCode { code: 0x9D, instruction: Instruction::Sta, len: 3, mode: AddressingMode::Absolute_X }),
        0x99u8 => Some(OpCode { code: 0x99, instruction: Instruction::Sta, len: 3, mode: AddressingMode::Absolute_Y }),
        0x81u8 => Some(OpCode { code: 0x81, instruction: Instruction::Sta, len: 2, mode: AddressingMode::Indirect_X }),
        0x91u8 => Some(OpCode { code: 0x91, instruction: Instruction::Sta, len: 2, mode: AddressingMode::Indirect_Y }),
        0x69u8 => Some(OpCode { code: 0x69, instruction: Instruction::Adc, len: 2, mode: AddressingMode::Immediate }),
        0x65u8 => Some(OpCode { code: 0x65, instruction: Instruction::Adc, len: 2, mode: AddressingMode::ZeroPage }),
        0x75u8 => Some(OpCode { code: 0x75, instruction: Instruction::Adc, len: 2, mode: AddressingMode::ZeroPage_X }),
        0x6Du8 => Some(OpCode { code: 0x6D, instruction: Instruction::Adc, len: 3, mode: AddressingMode::Absolute }),
        0x7Du8 => Some(OpCode { code: 0x7D, instruction: Instruction::Adc, len: 3, mode: AddressingMode::Absolute_X }),
        0x79u8 => Some(OpCode { code: 0x79, instruction: Instruction::Adc, len: 3, mode: AddressingMode::Absolute_Y }),
        0x61u8 => Some(OpCode { code: 0x61, instruction: Instruction::Adc, len: 2, mode: AddressingMode::Indirect_X }),
        0x71u8 => Some(OpCode { code: 0x71, instruction: Instruction::Adc, len: 2, mode: AddressingMode::Indirect_Y }),
        0xC9u8 => Some(OpCode { code: 0xC9, instruction: Instruction::Cmp, len: 2, mode: AddressingMode::Immediate }),
        0xC5u8 => Some(OpCode { code: 0xC5, instruction: Instruction::Cmp, len: 2, mode: AddressingMode::ZeroPage }),
        0xD5u8 => Some(OpCode { code: 0xD5, instruction: Instruction::Cmp, len: 2, mode: AddressingMode::ZeroPage_X }),
        0xCDu8 => Some(OpCode { code: 0xCD, instruction: Instruction::Cmp, len: 3, mode: AddressingMode::Absolute }),
        0xDDu8 => Some(OpCode { code: 0xDD, instruction: Instruction::Cmp, len: 3, mode: AddressingMode::Absolute_X }),
        0xD9u8 => Some(OpCode { code: 0xD9, instruction: Instruction::Cmp, len: 3, mode: AddressingMode::Absolute_Y }),
        0xC1u8 => Some(OpCode { code: 0xC1, instruction: Instruction::Cmp, len: 2, mode: AddressingMode::Indirect_X }),
        0xD1u8 => Some(OpCode { code: 0xD1, instruction: Instruction::Cmp, len: 2, mode: AddressingMode::Indirect_Y }),
        0xE0u8 => Some(OpCode { code: 0xE0, instruction: Instruction::Cpx, len: 2, mode: AddressingMode::Immediate }),
        0xE4u8 => Some(OpCode { code: 0xE4, instruction: Instruction::Cpx, len: 2, mode: AddressingMode::ZeroPage }),
        0xECu8 => Some(OpCode { code: 0xEC, instruction: Instruction::Cpx, len: 3, mode: AddressingMode::Absolute }),
        0xC0u8 => Some(OpCode { code: 0xC0, instruction: Instruction::Cpy, len: 2, mode: AddressingMode::Immediate }),
        0xC4u8 => Some(OpCode { code: 0xC4, instruction: Instruction::Cpy, len: 2, mode: AddressingMode::ZeroPage }),
        0xCCu8 => Some(OpCode { code: 0xCC, instruction: Instruction::Cpy, len: 3, mode: AddressingMode::Absolute }),
        0x29u8 => Some(OpCode { code: 0x29, instruction: Instruction::And, len: 2, mode: AddressingMode::Immediate }),
        0x25u8 => Some(OpCode { code: 0x25, instruction: Instruction::And, len: 2, mode: AddressingMode::ZeroPage }),
        0x35u8 => Some(OpCode { code: 0x35, instruction: Instruction::And, len: 2, mode: AddressingMode::ZeroPage_X }),
        0x2Du8 => Some(OpCode { code: 0x2D, instruction: Instruction::And, len: 3, mode: AddressingMode::Absolute }),
        0x3Du8 => Some(OpCode { code: 0x3D, instruction: Instruction::And, len: 3, mode: AddressingMode::Absolute_X }),
        0x39u8 => Some(OpCode { code: 0x39, instruction: Instruction::And, len: 3, mode: AddressingMode::Absolute_Y }),
        0x31u8 => Some(OpCode { code: 0x31, instruction: Instruction::And, len: 2, mode: AddressingMode::Indirect_Y }),
        0x0Au8 => Some(OpCode { code: 0x0A, instruction: Instruction::Asl, len: 1, mode: AddressingMode::NoneAddressing }),
        0x06u8 => Some(OpCode { code: 0x06, instruction: Instruction::Asl, len: 2, mode: AddressingMode::ZeroPage }),
        0x16u8 => Some(OpCode { code: 0x16, instruction: Instruction::Asl, len: 2, mode: AddressingMode::ZeroPage_X }),
        0x0Eu8 => Some(OpCode { code: 0x0E, instruction: Instruction::Asl, len: 3, mode: AddressingMode::Absolute }),
        0x1Eu8 => Some(OpCode { code: 0x1E, instruction: Instruction::Asl, len: 3, mode: AddressingMode::Absolute_X }),
        0x24u8 => Some(OpCode { code: 0x24, instruction: Instruction::Bit, len: 2, mode: AddressingMode::ZeroPage }),
        0x2Cu8 => Some(OpCode { code: 0x2C, instruction: Instruction::Bit, len: 3, mode: AddressingMode::Absolute }),
        0xC6u8 => Some(OpCode { code: 0xC6, instruction: Instruction::Dec, len: 2, mode: AddressingMode::ZeroPage }),
        0xD6u8 => Some(OpCode { code: 0xD6, instruction: Instruction::Dec, len: 2, mode: AddressingMode::ZeroPage_X }),
        0xCEu8 => Some(OpCode { code: 0xCE, instruction: Instruction::Dec, len: 3, mode: AddressingMode::Absolute }),
        0xDEu8 => Some(OpCode { code: 0xDE, instruction: Instruction::Dec, len: 3, mode: AddressingMode::Absolute_X }),
        0xE6u8 => Some(OpCode { code: 0xE6, instruction: Instruction::Inc, len: 2, mode: AddressingMode::ZeroPage }),
        0xF6u8 => Some(OpCode { code: 0xF6, instruction: Instruction::Inc, len: 2, mode: AddressingMode::ZeroPage_X }),
        0xEEu8 => Some(OpCode { code: 0xEE, instruction: Instruction::Inc, len: 3, mode: AddressingMode::Absolute }),
        0xFEu8 => Some(OpCode { code: 0xFE, instruction: Instruction::Inc, len: 3, mode: AddressingMode::Absolute_X }),
        0xCAu8 => Some(OpCode { code: 0xCA, instruction: Instruction::Dex, len: 1, mode: AddressingMode::NoneAddressing }),
        0x88u8 => Some(OpCode { code: 0x88, instruction: Instruction::Dey, len: 1, mode: AddressingMode::NoneAddressing }),
        0xE8u8 => Some(OpCode { code: 0xE8, instruction: Instruction::Inx, len: 1, mode: AddressingMode::NoneAddressing }),
        0xC8u8 => Some(OpCode { code: 0xC8, instruction: Instruction::Iny, len: 1, mode: AddressingMode::NoneAddressing }),
        0xAAu8 => Some(OpCode { code: 0xAA, instruction: Instruction::Tax, len: 1, mode: AddressingMode::NoneAddressing }),
        0x90u8 => Some(OpCode { code: 0x90, instruction: Instruction::Bcc, len: 2, mode: AddressingMode::NoneAddressing }),
        0xB0u8 => Some(OpCode { code: 0xB0, instruction: Instruction::Bcs, len: 2, mode: AddressingMode::NoneAddressing }),
        0xD0u8 => Some(OpCode { code: 0xD0, instruction: Instruction::Bne, len: 2, mode: AddressingMode::NoneAddressing }),
        0xF0u8 => Some(OpCode { code: 0xF0, instruction: Instruction::Beq, len: 2, mode: AddressingMode::NoneAddressing }),
        0x10u8 => Some(OpCode { code: 0x10, instruction: Instruction::Bpl, len: 2, mode: AddressingMode::NoneAddressing }),
        0x30u8 => Some(OpCode { code: 0x30, instruction: Instruction::Bmi, len: 2, mode: AddressingMode::NoneAddressing }),
        0x50u8 => Some(OpCode { code: 0x50, instruction: Instruction::Bvc, len: 2, mode: AddressingMode::NoneAddressing }),
        0x70u8 => Some(OpCode { code: 0x70, instruction: Instruction::Bvs, len: 2, mode: AddressingMode::NoneAddressing }),
        0x38u8 => Some(OpCode { code: 0x38, instruction: Instruction::Sec, len: 1, mode: AddressingMode::NoneAddressing }),
        0xF8u8 => Some(OpCode { code: 0xF8, instruction: Instruction::Sed, len: 1, mode: AddressingMode::NoneAddressing }),
        0x78u8 => Some(OpCode { code: 0x78, instruction: Instruction::Sei, len: 1, mode: AddressingMode::NoneAddressing }),
        0x18u8 => Some(OpCode { code: 0x18, instruction: Instruction::Clc, len: 1, mode: AddressingMode::NoneAddressing }),
        0xD8u8 => Some(OpCode { code: 0xD8, instruction: Instruction::Cld, len: 1, mode: AddressingMode::NoneAddressing }),
        0x58u8 => Some(OpCode { code: 0x58, instruction: Instruction::Cli, len: 1, mode: AddressingMode::NoneAddressing }),
        0xB8u8 => Some(OpCode { code: 0xB8, instruction: Instruction::Clv, len: 1, mode: AddressingMode::NoneAddressing }),
        0x4Cu8 => Some(OpCode { code: 0x4C, instruction: Instruction::JmpAbsolute, len: 3, mode: AddressingMode::NoneAddressing }),
        0x6Cu8 => Some(OpCode { code: 0x6C, instruction: Instruction::JmpIndirect, len: 3, mode: AddressingMode::NoneAddressing }),
        _ => None,
    }
}

/// Looks `code` up in the opcode table.
pub fn lookup_opcode(code: u8) -> (op: Option<OpCode>)
    ensures
        op == opcode_table(code),
        op matches Some(o) ==> o.code == code && 1 <= o.len <= 3,
{
    match code {
        0x00u8 => Some(OpCode { code: 0x00, instruction: Instruction::Brk, len: 1, mode: AddressingMode::NoneAddressing }),
        0xA9u8 => Some(OpCode { code: 0xA9, instruction: Instruction::Lda, len: 2, mode: AddressingMode::Immediate }),
        0xA5u8 => Some(OpCode { code: 0xA5, instruction: Instruction::Lda, len: 2, mode: AddressingMode::ZeroPage }),
        0xB5u8 => Some(OpCode { code: 0xB5, instruction: Instruction::Lda, len: 2, mode: AddressingMode::ZeroPage_X }),
        0xADu8 => Some(OpCode { code: 0xAD, instruction: Instruction::Lda, len: 3, mode: AddressingMode::Absolute }),
        0xBDu8 => Some(OpCode { code: 0xBD, instruction: Instruction::Lda, len: 3, mode: AddressingMode::Absolute_X }),
        0xB9u8 => Some(OpCode { code: 0xB9, instruction: Instruction::Lda, len: 3, mode: AddressingMode::Absolute_Y }),
        0xA1u8 => Some(OpCode { code: 0xA1, instruction: Instruction::Lda, len: 2, mode: AddressingMode::Indirect_X }),
        0xB1u8 => Some(OpCode { code: 0xB1, instruction: Instruction::Lda, len: 2, mode: AddressingMode::Indirect_Y }),
        0xA2u8 => Some(OpCode { code: 0xA2, instruction: Instruction::Ldx, len: 2, mode: AddressingMode::Immediate }),
        0xA6u8 => Some(OpCode { code: 0xA6, instruction: Instruction::Ldx, len: 2, mode: AddressingMode::ZeroPage }),
        0xB6u8 => Some(OpCode { code: 0xB6, instruction: Instruction::Ldx, len: 2, mode: AddressingMode::ZeroPage_Y }),
        0xAEu8 => Some(OpCode { code: 0xAE, instruction: Instruction::Ldx, len: 3, mode: AddressingMode::Absolute }),
        0xBEu8 => Some(OpCode { code: 0xBE, instruction: Instruction::Ldx, len: 3, mode: AddressingMode::Absolute_Y }),
        0xA0u8 => Some(OpCode { code: 0xA0, instruction: Instruction::Ldy, len: 2, mode: AddressingMode::Immediate }),
        0xA4u8 => Some(OpCode { code: 0xA4, instruction: Instruction::Ldy, len: 2, mode: AddressingMode::ZeroPage }),
        0xB4u8 => Some(OpCode { code: 0xB4, instruction: Instruction::Ldy, len: 2, mode: AddressingMode::ZeroPage_X }),
        0xACu8 => Some(OpCode { code: 0xAC, instruction: Instruction::Ldy, len: 3, mode: AddressingMode::Absolute }),
        0xBCu8 => Some(OpCode { code: 0xBC, instruction: Instruction::Ldy, len: 3, mode: AddressingMode::Absolute_X }),
        0x85u8 => Some(OpCode { code: 0x85, instruction: Instruction::Sta, len: 2, mode: AddressingMode::ZeroPage }),
        0x95u8 => Some(OpCode { code: 0x95, instruction: Instruction::Sta, len: 2, mode: AddressingMode::ZeroPage_X }),
        0x8Du8 => Some(OpCode { code: 0x8D, instruction: Instruction::Sta, len: 3, mode: AddressingMode::Absolute }),
        0x9Du8 => Some(OpCode { code: 0x9D, instruction: Instruction::Sta, len: 3, mode: AddressingMode::Absolute_X }),
        0x99u8 => Some(OpCode { code: 0x99, instruction: Instruction::Sta, len: 3, mode: AddressingMode::Absolute_Y }),
        0x81u8 => Some(OpCode { code: 0x81, instruction: Instruction::Sta, len: 2, mode: AddressingMode::Indirect_X }),
        0x91u8 => Some(OpCode { code: 0x91, instruction: Instruction::Sta, len: 2, mode: AddressingMode::Indirect_Y }),
        0x69u8 => Some(OpCode { code: 0x69, instruction: Instruction::Adc, len: 2, mode: AddressingMode::Immediate }),
        0x65u8 => Some(OpCode { code: 0x65, instruction: Instruction::Adc, len: 2, mode: AddressingMode::ZeroPage }),
        0x75u8 => Some(OpCode { code: 0x75, instruction: Instruction::Adc, len: 2, mode: AddressingMode::ZeroPage_X }),
        0x6Du8 => Some(OpCode { code: 0x6D, instruction: Instruction::Adc, len: 3, mode: AddressingMode::Absolute }),
        0x7Du8 => Some(OpCode { code: 0x7D, instruction: Instruction::Adc, len: 3, mode: AddressingMode::Absolute_X }),
        0x79u8 => Some(OpCode { code: 0x79, instruction: Instruction::Adc, len: 3, mode: AddressingMode::Absolute_Y }),
        0x61u8 => Some(OpCode { code: 0x61, instruction: Instruction::Adc, len: 2, mode: AddressingMode::Indirect_X }),
        0x71u8 => Some(OpCode { code: 0x71, instruction: Instruction::Adc, len: 2, mode: AddressingMode::Indirect_Y }),
        0xC9u8 => Some(OpCode { code: 0xC9, instruction: Instruction::Cmp, len: 2, mode: AddressingMode::Immediate }),
        0xC5u8 => Some(OpCode { code: 0xC5, instruction: Instruction::Cmp, len: 2, mode: AddressingMode::ZeroPage }),
        0xD5u8 => Some(OpCode { code: 0xD5, instruction: Instruction::Cmp, len: 2, mode: AddressingMode::ZeroPage_X }),
        0xCDu8 => Some(OpCode { code: 0xCD, instruction: Instruction::Cmp, len: 3, mode: AddressingMode::Absolute }),
        0xDDu8 => Some(OpCode { code: 0xDD, instruction: Instruction::Cmp, len: 3, mode: AddressingMode::Absolute_X }),
        0xD9u8 => Some(OpCode { code: 0xD9, instruction: Instruction::Cmp, len: 3, mode: AddressingMode::Absolute_Y }),
        0xC1u8 => Some(OpCode { code: 0xC1, instruction: Instruction::Cmp, len: 2, mode: AddressingMode::Indirect_X }),
        0xD1u8 => Some(OpCode { code: 0xD1, instruction: Instruction::Cmp, len: 2, mode: AddressingMode::Indirect_Y }),
        0xE0u8 => Some(OpCode { code: 0xE0, instruction: Instruction::Cpx, len: 2, mode: AddressingMode::Immediate }),
        0xE4u8 => Some(OpCode { code: 0xE4, instruction: Instruction::Cpx, len: 2, mode: AddressingMode::ZeroPage }),
        0xECu8 => Some(OpCode { code: 0xEC, instruction: Instruction::Cpx, len: 3, mode: AddressingMode::Absolute }),
        0xC0u8 => Some(OpCode { code: 0xC0, instruction: Instruction::Cpy, len: 2, mode: AddressingMode::Immediate }),
        0xC4u8 => Some(OpCode { code: 0xC4, instruction: Instruction::Cpy, len: 2, mode: AddressingMode::ZeroPage }),
        0xCCu8 => Some(OpCode { code: 0xCC, instruction: Instruction::Cpy, len: 3, mode: AddressingMode::Absolute }),
        0x29u8 => Some(OpCode { code: 0x29, instruction: Instruction::And, len: 2, mode: AddressingMode::Immediate }),
        0x25u8 => Some(OpCode { code: 0x25, instruction: Instruction::And, len: 2, mode: AddressingMode::ZeroPage }),
        0x35u8 => Some(OpCode { code: 0x35, instruction: Instruction::And, len: 2, mode: AddressingMode::ZeroPage_X }),
        0x2Du8 => Some(OpCode { code: 0x2D, instruction: Instruction::And, len: 3, mode: AddressingMode::Absolute }),
        0x3Du8 => Some(OpCode { code: 0x3D, instruction: Instruction::And, len: 3, mode: AddressingMode::Absolute_X }),
        0x39u8 => Some(OpCode { code: 0x39, instruction: Instruction::And, len: 3, mode: AddressingMode::Absolute_Y }),
        0x31u8 => Some(OpCode { code: 0x31, instruction: Instruction::And, len: 2, mode: AddressingMode::Indirect_Y }),
        0x0Au8 => Some(OpCode { code: 0x0A, instruction: Instruction::Asl, len: 1, mode: AddressingMode::NoneAddressing }),
        0x06u8 => Some(OpCode { code: 0x06, instruction: Instruction::Asl, len: 2, mode: AddressingMode::ZeroPage }),
        0x16u8 => Some(OpCode { code: 0x16, instruction: Instruction::Asl, len: 2, mode: AddressingMode::ZeroPage_X }),
        0x0Eu8 => Some(OpCode { code: 0x0E, instruction: Instruction::Asl, len: 3, mode: AddressingMode::Absolute }),
        0x1Eu8 => Some(OpCode { code: 0x1E, instruction: Instruction::Asl, len: 3, mode: AddressingMode::Absolute_X }),
        0x24u8 => Some(OpCode { code: 0x24, instruction: Instruction::Bit, len: 2, mode: AddressingMode::ZeroPage }),
        0x2Cu8 => Some(OpCode { code: 0x2C, instruction: Instruction::Bit, len: 3, mode: AddressingMode::Absolute }),
        0xC6u8 => Some(OpCode { code: 0xC6, instruction: Instruction::Dec, len: 2, mode: AddressingMode::ZeroPage }),
        0xD6u8 => Some(OpCode { code: 0xD6, instruction: Instruction::Dec, len: 2, mode: AddressingMode::ZeroPage_X }),
        0xCEu8 => Some(OpCode { code: 0xCE, instruction: Instruction::Dec, len: 3, mode: AddressingMode::Absolute }),
        0xDEu8 => Some(OpCode { code: 0xDE, instruction: Instruction::Dec, len: 3, mode: AddressingMode::Absolute_X }),
        0xE6u8 => Some(OpCode { code: 0xE6, instruction: Instruction::Inc, len: 2, mode: AddressingMode::ZeroPage }),
        0xF6u8 => Some(OpCode { code: 0xF6, instruction: Instruction::Inc, len: 2, mode: AddressingMode::ZeroPage_X }),
        0xEEu8 => Some(OpCode { code: 0xEE, instruction: Instruction::Inc, len: 3, mode: AddressingMode::Absolute }),
        0xFEu8 => Some(OpCode { code: 0xFE, instruction: Instruction::Inc, len: 3, mode: AddressingMode::Absolute_X }),
        0xCAu8 => Some(OpCode { code: 0xCA, instruction: Instruction::Dex, len: 1, mode: AddressingMode::NoneAddressing }),
        0x88u8 => Some(OpCode { code: 0x88, instruction: Instruction::Dey, len: 1, mode: AddressingMode::NoneAddressing }),
        0xE8u8 => Some(OpCode { code: 0xE8, instruction: Instruction::Inx, len: 1, mode: AddressingMode::NoneAddressing }),
        0xC8u8 => Some(OpCode { code: 0xC8, instruction: Instruction::Iny, len: 1, mode: AddressingMode::NoneAddressing }),
        0xAAu8 => Some(OpCode { code: 0xAA, instruction: Instruction::Tax, len: 1, mode: AddressingMode::NoneAddressing }),
        0x90u8 => Some(OpCode { code: 0x90, instruction: Instruction::Bcc, len: 2, mode: AddressingMode::NoneAddressing }),
        0xB0u8 => Some(OpCode { code: 0xB0, instruction: Instruction::Bcs, len: 2, mode: AddressingMode::NoneAddressing }),
        0xD0u8 => Some(OpCode { code: 0xD0, instruction: Instruction::Bne, len: 2, mode: AddressingMode::NoneAddressing }),
        0xF0u8 => Some(OpCode { code: 0xF0, instruction: Instruction::Beq, len: 2, mode: AddressingMode::NoneAddressing }),
        0x10u8 => Some(OpCode { code: 0x10, instruction: Instruction::Bpl, len: 2, mode: AddressingMode::NoneAddressing }),
        0x30u8 => Some(OpCode { code: 0x30, instruction: Instruction::Bmi, len: 2, mode: AddressingMode::NoneAddressing }),
        0x50u8 => Some(OpCode { code: 0x50, instruction: Instruction::Bvc, len: 2, mode: AddressingMode::NoneAddressing }),
        0x70u8 => Some(OpCode { code: 0x70, instruction: Instruction::Bvs, len: 2, mode: AddressingMode::NoneAddressing }),
        0x38u8 => Some(OpCode { code: 0x38, instruction: Instruction::Sec, len: 1, mode: AddressingMode::NoneAddressing }),
        0xF8u8 => Some(OpCode { code: 0xF8, instruction: Instruction::Sed, len: 1, mode: AddressingMode::NoneAddressing }),
        0x78u8 => Some(OpCode { code: 0x78, instruction: Instruction::Sei, len: 1, mode: AddressingMode::NoneAddressing }),
        0x18u8 => Some(OpCode { code: 0x18, instruction: Instruction::Clc, len: 1, mode: AddressingMode::NoneAddressing }),
        0xD8u8 => Some(OpCode { code: 0xD8, instruction: Instruction::Cld, len: 1, mode: AddressingMode::NoneAddressing }),
        0x58u8 => Some(OpCode { code: 0x58, instruction: Instruction::Cli, len: 1, mode: AddressingMode::NoneAddressing }),
        0xB8u8 => Some(OpCode { code: 0xB8, instruction: Instruction::Clv, len: 1, mode: AddressingMode::NoneAddressing }),
        0x4Cu8 => Some(OpCode { code: 0x4C, instruction: Instruction::JmpAbsolute, len: 3, mode: AddressingMode::NoneAddressing }),
        0x6Cu8 => Some(OpCode { code: 0x6C, instruction: Instruction::JmpIndirect, len: 3, mode: AddressingMode::NoneAddressing }),
        _ => None,
    }
}

} // verus!
