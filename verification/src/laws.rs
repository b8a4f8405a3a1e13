use vstd::prelude::*;

use crate::flags::{CpuFlags, has_flag, is_single_flag, lemma_with_flag, with_flag};
use crate::machine::{
    CpuError, CpuState, MEMORY_SIZE, PROGRAM_START, RESET_VECTOR, STATUS_RESET, StepOutcome,
    addr_ok, after_adc, after_instruction, after_compare, after_dec, after_dex, after_dey, after_inc, after_inx,
    after_iny, after_load, after_reset, carry_in, data_address, operand, read, read_u16, run_for,
    set_zn, signed, signed_overflow, step, store, store_u16, wrap8,
};
use crate::opcodes::{AddressingMode, Instruction, opcode_table};

verus! {

/// A read gives back what the last write to the same address stored, and a write leaves
/// every other address as it was.
pub proof fn law_read_after_store(s: CpuState, addr: int, v: u8, other: int)
    requires
        s.mem.len() == MEMORY_SIZE,
        addr_ok(addr),
        addr_ok(other),
    ensures
        read(store(s, addr, v), addr) == v,
        other != addr ==> read(store(s, addr, v), other) == read(s, other),
{
}

/// A word written little-endian at `addr` reads back as the same word.
pub proof fn law_read_u16_after_store_u16(s: CpuState, addr: int, d: u16)
    requires
        s.mem.len() == MEMORY_SIZE,
        addr_ok(addr + 1),
        addr >= 0,
    ensures
        read_u16(store_u16(s, addr, d), addr) == d,
{
}

/// After a result `r`, the zero flag says whether `r` is zero, the negative flag whether
/// bit 7 of `r` is set, and every other flag is as it was.
pub proof fn law_zero_and_negative_flags(p: u8, r: u8, other: u8)
    requires
        is_single_flag(other),
    ensures
        has_flag(set_zn(p, r), CpuFlags::ZERO) == (r == 0),
        has_flag(set_zn(p, r), CpuFlags::NEGATIVE) == (r >= 128),
        other != CpuFlags::ZERO && other != CpuFlags::NEGATIVE ==> has_flag(set_zn(p, r), other)
            == has_flag(p, other),
{
    let q = with_flag(p, CpuFlags::ZERO, r == 0);
    lemma_with_flag(p, CpuFlags::ZERO, r == 0, other);
    lemma_with_flag(p, CpuFlags::ZERO, r == 0, CpuFlags::NEGATIVE);
    lemma_with_flag(q, CpuFlags::NEGATIVE, r >= 128, other);
    lemma_with_flag(q, CpuFlags::NEGATIVE, r >= 128, CpuFlags::ZERO);
}

/// ADC adds: the new accumulator plus 256 for the carry out equals the old accumulator
/// plus the operand plus the carry in, and the overflow flag is set exactly when the
/// signed sum does not fit in a byte; when it fits, the accumulator read as a signed byte
/// is that sum.
pub proof fn law_adc_adds(s: CpuState, mode: AddressingMode)
    requires
        after_adc(s, mode) is Ok,
    ensures
        ({
            let t = after_adc(s, mode)->Ok_0;
            let v = operand(s, mode)->Ok_0;
            let c = carry_in(s.p);
            let carry_out: int = if has_flag(t.p, CpuFlags::CARRY) {
                1
            } else {
                0
            };
            &&& t.a + 256 * carry_out == s.a + v + c
            &&& has_flag(t.p, CpuFlags::OVERFLOW) == signed_overflow(s.a, v, c)
            &&& !signed_overflow(s.a, v, c) ==> signed(t.a) == signed(s.a) + signed(v) + c
        }),
{
    let v = operand(s, mode)->Ok_0;
    let c = carry_in(s.p);
    let sum = s.a + v + c;
    let r = wrap8(sum);
    let p1 = with_flag(s.p, CpuFlags::CARRY, sum > 255);
    let p2 = with_flag(p1, CpuFlags::OVERFLOW, signed_overflow(s.a, v, c));
    lemma_with_flag(s.p, CpuFlags::CARRY, sum > 255, CpuFlags::OVERFLOW);
    lemma_with_flag(p1, CpuFlags::OVERFLOW, signed_overflow(s.a, v, c), CpuFlags::CARRY);
    law_zero_and_negative_flags(p2, r, CpuFlags::CARRY);
    law_zero_and_negative_flags(p2, r, CpuFlags::OVERFLOW);
}

/// CMP, CPX and CPY: the carry flag says whether the register is at least the operand
/// (unsigned), the zero flag whether they are equal; nothing but the status changes.
pub proof fn law_compare(s: CpuState, mode: AddressingMode, register: u8)
    requires
        after_compare(s, mode, register) is Ok,
    ensures
        ({
            let t = after_compare(s, mode, register)->Ok_0;
            let v = operand(s, mode)->Ok_0;
            &&& has_flag(t.p, CpuFlags::CARRY) == (register >= v)
            &&& has_flag(t.p, CpuFlags::ZERO) == (register == v)
            &&& t.a == s.a && t.x == s.x && t.y == s.y && t.pc == s.pc && t.mem == s.mem
        }),
{
    let v = operand(s, mode)->Ok_0;
    let p1 = with_flag(s.p, CpuFlags::CARRY, register >= v);
    let p2 = with_flag(p1, CpuFlags::ZERO, register == v);
    lemma_with_flag(s.p, CpuFlags::CARRY, register >= v, CpuFlags::ZERO);
    lemma_with_flag(p1, CpuFlags::ZERO, register == v, CpuFlags::CARRY);
    lemma_with_flag(p2, CpuFlags::NEGATIVE, wrap8(register - v) >= 128, CpuFlags::CARRY);
    lemma_with_flag(p2, CpuFlags::NEGATIVE, wrap8(register - v) >= 128, CpuFlags::ZERO);
}

/// INX undoes DEX and INY undoes DEY: the register comes back, and the zero and negative
/// flags describe it.
pub proof fn law_increment_undoes_decrement(s: CpuState)
    ensures
        after_inx(after_dex(s)) == (CpuState { p: set_zn(s.p, s.x), ..s }),
        after_iny(after_dey(s)) == (CpuState { p: set_zn(s.p, s.y), ..s }),
{
    lemma_set_zn_twice(s.p, wrap8(s.x - 1), s.x);
    lemma_set_zn_twice(s.p, wrap8(s.y - 1), s.y);
}

proof fn lemma_set_zn_twice(p: u8, q: u8, r: u8)
    ensures
        set_zn(set_zn(p, q), r) == set_zn(p, r),
{
    assert(set_zn(set_zn(p, q), r) == set_zn(p, r)) by (bit_vector);
}

/// INC undoes DEC on a byte of memory, as long as the decrement does not move the
/// operand address.
pub proof fn law_inc_undoes_dec(s: CpuState, mode: AddressingMode)
    requires
        s.mem.len() == MEMORY_SIZE,
        after_dec(s, mode) is Ok,
        data_address(after_dec(s, mode)->Ok_0, mode) == data_address(s, mode),
    ensures
        after_inc(after_dec(s, mode)->Ok_0, mode) is Ok,
        (after_inc(after_dec(s, mode)->Ok_0, mode)->Ok_0).mem == s.mem,
{
    let addr = data_address(s, mode)->Ok_0 as int;
    let t = after_dec(s, mode)->Ok_0;
    assert(read(t, addr) == wrap8(read(s, addr) - 1));
    assert(wrap8(read(t, addr) + 1) == read(s, addr));
    assert((after_inc(t, mode)->Ok_0).mem =~= s.mem);
}

/// A fault leaves the processor exactly as it was.
pub proof fn law_fault_changes_nothing(s: CpuState)
    requires
        step(s).0 is Err,
    ensures
        step(s).1 == s,
{
}

/// `BRK` halts: the program counter moves past it and nothing else changes.
pub proof fn law_brk_halts(s: CpuState)
    requires
        addr_ok(s.pc as int),
        read(s, s.pc as int) == 0,
    ensures
        step(s) == (Ok::<StepOutcome, CpuError>(StepOutcome::Halted), CpuState {
            pc: (s.pc + 1) as u16,
            ..s
        }),
{
}

/// An instruction that does not jump moves the program counter over its own bytes.
pub proof fn law_straight_line_advance(s: CpuState)
    requires
        addr_ok(s.pc as int),
        opcode_table(read(s, s.pc as int)) matches Some(op) && op.instruction
            != Instruction::JmpAbsolute && op.instruction != Instruction::JmpIndirect
            && op.instruction != Instruction::Bcc && op.instruction != Instruction::Bcs
            && op.instruction != Instruction::Bne && op.instruction != Instruction::Beq
            && op.instruction != Instruction::Bpl && op.instruction != Instruction::Bmi
            && op.instruction != Instruction::Bvc && op.instruction != Instruction::Bvs,
        step(s).0 is Ok,
    ensures
        step(s).1.pc == s.pc + opcode_table(read(s, s.pc as int))->Some_0.len,
{
    let op = opcode_table(read(s, s.pc as int))->Some_0;
    let s1 = CpuState { pc: (s.pc + 1) as u16, ..s };
    if op.instruction != Instruction::Brk {
        lemma_keeps_pc(s1, op.instruction, op.mode);
    }
}

proof fn lemma_keeps_pc(s: CpuState, instruction: Instruction, mode: AddressingMode)
    requires
        instruction != Instruction::JmpAbsolute && instruction != Instruction::JmpIndirect
            && instruction != Instruction::Bcc && instruction != Instruction::Bcs && instruction
            != Instruction::Bne && instruction != Instruction::Beq && instruction
            != Instruction::Bpl && instruction != Instruction::Bmi && instruction
            != Instruction::Bvc && instruction != Instruction::Bvs,
        after_instruction(s, instruction, mode) is Ok,
    ensures
        (after_instruction(s, instruction, mode)->Ok_0).pc == s.pc,
{
}

/// After loading a program and resetting, execution starts at `PROGRAM_START`, the
/// program's bytes are in memory from there on (those the reset vector does not cover),
/// A and X are zero and the status is `STATUS_RESET`.
pub proof fn law_load_then_reset(s: CpuState, program: Seq<u8>, i: int)
    requires
        s.mem.len() == MEMORY_SIZE,
        program.len() <= 0x7FFF,
        0 <= i < program.len(),
        PROGRAM_START + i < RESET_VECTOR,
    ensures
        after_reset(after_load(s, program)).pc == PROGRAM_START,
        read(after_reset(after_load(s, program)), PROGRAM_START + i) == program[i],
        after_reset(after_load(s, program)).a == 0,
        after_reset(after_load(s, program)).x == 0,
        after_reset(after_load(s, program)).p == STATUS_RESET,
{
}

/// Running executes steps one after another: a step that continues hands the rest of the
/// run to the next state, a halt ends it with success and a fault ends it with that fault.
pub proof fn law_run_is_repeated_step(s: CpuState, fuel: nat)
    ensures
        step(s).0 == Ok::<StepOutcome, CpuError>(StepOutcome::Continue) ==> run_for(s, fuel + 1)
            == run_for(step(s).1, fuel),
        step(s).0 == Ok::<StepOutcome, CpuError>(StepOutcome::Halted) ==> run_for(s, fuel + 1)
            == (Ok::<(), CpuError>(()), step(s).1),
        step(s).0 matches Err(e) ==> run_for(s, fuel + 1) == (Err::<(), CpuError>(e), s),
{
}

} // verus!
