use vstd::prelude::*;

use crate::flags::{CpuFlags, has_flag, with_flag};
use crate::opcodes::{AddressingMode, Instruction, opcode_table};

verus! {

/// Number of bytes of memory: addresses `0` to `0xFFFE`. Address `0xFFFF` has no byte.
pub const MEMORY_SIZE: usize = 0xFFFF;

/// Address at which `load` places a program.
pub const PROGRAM_START: u16 = 0x8000;

/// Address of the little-endian word that holds the address execution starts from.
pub const RESET_VECTOR: u16 = 0xFFFC;

/// Status byte after power-on and after a reset: interrupts disabled and the unused bit 5 set.
pub const STATUS_RESET: u8 = 0b0010_0100;

/// Why the processor stopped without reaching a `BRK`.
#[derive(Clone, Copy, Debug, PartialEq, Eq, Structural)]
pub enum CpuError {
    /// An access to address `0xFFFF`, which has no byte.
    InvalidAddress,
    /// An opcode that is not in the opcode table.
    UnsupportedOpcode(u8),
    /// An instruction whose addressing mode has no operand address (`ASL A`).
    UnsupportedAddressingMode,
    /// Stepping the program counter over the instruction's bytes would pass `0xFFFF`.
    ProgramCounterOverflow,
    /// `run` executed `u64::MAX` instructions without reaching `BRK`.
    StepLimitReached,
}

/// What one executed instruction leaves the processor doing.
#[derive(Clone, Copy, Debug, PartialEq, Eq, Structural)]
pub enum StepOutcome {
    /// The instruction was carried out; the next one is at the program counter.
    Continue,
    /// The instruction was `BRK`: execution ends.
    Halted,
}

/// The mathematical model of the processor: registers, status byte, program counter and
/// the bytes of memory.
pub struct CpuState {
    pub a: u8,
    pub x: u8,
    pub y: u8,
    pub p: u8,
    pub pc: u16,
    pub mem: Seq<u8>,
}

// ---------------------------------------------------------------- integers

/// `v` reduced to a byte (wrapping arithmetic).
pub open spec fn wrap8(v: int) -> u8 {
    (v % 256) as u8
}

/// `v` reduced to a 16-bit word (wrapping arithmetic).
pub open spec fn wrap16(v: int) -> u16 {
    (v % 65536) as u16
}

/// The little-endian word made of the bytes `lo` and `hi`.
pub open spec fn word(lo: u8, hi: u8) -> u16 {
    (lo + 256 * hi) as u16
}

/// A byte read as a two's complement number.
pub open spec fn signed(v: u8) -> int {
    if v < 128 {
        v as int
    } else {
        v - 256
    }
}

// ---------------------------------------------------------------- memory

/// Whether `addr` names a byte of memory.
pub open spec fn addr_ok(addr: int) -> bool {
    0 <= addr < MEMORY_SIZE
}

/// The byte at `addr`.
pub open spec fn read(s: CpuState, addr: int) -> u8 {
    s.mem[addr]
}

/// The little-endian word at `addr` and `addr + 1`.
pub open spec fn read_u16(s: CpuState, addr: int) -> u16 {
    word(read(s, addr), read(s, addr + 1))
}

/// `s` with `v` stored at `addr`.
pub open spec fn store(s: CpuState, addr: int, v: u8) -> CpuState {
    CpuState { mem: s.mem.update(addr, v), ..s }
}

/// `s` with the word `d` stored little-endian at `addr` and `addr + 1`.
pub open spec fn store_u16(s: CpuState, addr: int, d: u16) -> CpuState {
    store(store(s, addr, (d % 256) as u8), addr + 1, (d / 256) as u8)
}

// ---------------------------------------------------------------- flags

/// The status byte `p` after a result `r`: zero flag when `r` is zero, negative flag when
/// bit 7 of `r` is set.
pub open spec fn set_zn(p: u8, r: u8) -> u8 {
    with_flag(with_flag(p, CpuFlags::ZERO, r == 0), CpuFlags::NEGATIVE, r >= 128)
}

/// `s` with the bits of `flag` set to `value` in the status byte.
pub open spec fn after_flag(s: CpuState, flag: u8, value: bool) -> CpuState {
    CpuState { p: with_flag(s.p, flag, value), ..s }
}

// ---------------------------------------------------------------- operands

/// The address of the operand of an instruction whose operand bytes start at `s.pc`, or
/// the fault met while computing it.
pub open spec fn operand_address(s: CpuState, mode: AddressingMode) -> Result<u16, CpuError> {
    let pc = s.pc as int;
    match mode {
        AddressingMode::Immediate => Ok(s.pc),
        AddressingMode::ZeroPage => if addr_ok(pc) {
            Ok(read(s, pc) as u16)
        } else {
            Err(CpuError::InvalidAddress)
        },
        AddressingMode::Absolute => if addr_ok(pc + 1) {
            Ok(read_u16(s, pc))
        } else {
            Err(CpuError::InvalidAddress)
        },
        AddressingMode::ZeroPage_X => if addr_ok(pc) {
            Ok(wrap8(read(s, pc) + s.x) as u16)
        } else {
            Err(CpuError::InvalidAddress)
        },
        AddressingMode::ZeroPage_Y => if addr_ok(pc) {
            Ok(wrap8(read(s, pc) + s.y) as u16)
        } else {
            Err(CpuError::InvalidAddress)
        },
        AddressingMode::Absolute_X => if addr_ok(pc + 1) {
            Ok(wrap16(read_u16(s, pc) + s.x))
        } else {
            Err(CpuError::InvalidAddress)
        },
        AddressingMode::Absolute_Y => if addr_ok(pc + 1) {
            Ok(wrap16(read_u16(s, pc) + s.y))
        } else {
            Err(CpuError::InvalidAddress)
        },
        AddressingMode::Indirect_X => if addr_ok(pc) {
            let ptr = wrap8(read(s, pc) + s.x);
            Ok(word(read(s, ptr as int), read(s, wrap8(ptr + 1) as int)))
        } else {
            Err(CpuError::InvalidAddress)
        },
        AddressingMode::Indirect_Y => if addr_ok(pc) {
            let base = read(s, pc);
            Ok(wrap16(word(read(s, base as int), read(s, wrap8(base + 1) as int)) + s.y))
        } else {
            Err(CpuError::InvalidAddress)
        },
        AddressingMode::NoneAddressing => Err(CpuError::UnsupportedAddressingMode),
    }
}

/// The address an instruction reads or writes, which must name a byte of memory.
pub open spec fn data_address(s: CpuState, mode: AddressingMode) -> Result<u16, CpuError> {
    match operand_address(s, mode) {
        Ok(addr) => if addr_ok(addr as int) {
            Ok(addr)
        } else {
            Err(CpuError::InvalidAddress)
        },
        Err(e) => Err(e),
    }
}

/// The operand byte of an instruction.
pub open spec fn operand(s: CpuState, mode: AddressingMode) -> Result<u8, CpuError> {
    match data_address(s, mode) {
        Ok(addr) => Ok(read(s, addr as int)),
        Err(e) => Err(e),
    }
}

// ---------------------------------------------------------------- instructions
// Each `after_*` gives the state after the instruction, the program counter pointing just
// past the opcode on entry and left as the instruction sets it, or the fault it meets.

/// LDA: load the accumulator.
pub open spec fn after_lda(s: CpuState, mode: AddressingMode) -> Result<CpuState, CpuError> {
    match operand(s, mode) {
        Ok(v) => Ok(CpuState { a: v, p: set_zn(s.p, v), ..s }),
        Err(e) => Err(e),
    }
}

/// LDX: load register X.
pub open spec fn after_ldx(s: CpuState, mode: AddressingMode) -> Result<CpuState, CpuError> {
    match operand(s, mode) {
        Ok(v) => Ok(CpuState { x: v, p: set_zn(s.p, v), ..s }),
        Err(e) => Err(e),
    }
}

/// LDY: load register Y.
pub open spec fn after_ldy(s: CpuState, mode: AddressingMode) -> Result<CpuState, CpuError> {
    match operand(s, mode) {
        Ok(v) => Ok(CpuState { y: v, p: set_zn(s.p, v), ..s }),
        Err(e) => Err(e),
    }
}

/// STA: store the accumulator.
pub open spec fn after_sta(s: CpuState, mode: AddressingMode) -> Result<CpuState, CpuError> {
    match data_address(s, mode) {
        Ok(addr) => Ok(store(s, addr as int, s.a)),
        Err(e) => Err(e),
    }
}

/// AND: bitwise and into the accumulator. The flags are left as they are.
pub open spec fn after_and(s: CpuState, mode: AddressingMode) -> Result<CpuState, CpuError> {
    match operand(s, mode) {
        Ok(v) => Ok(CpuState { a: s.a & v, ..s }),
        Err(e) => Err(e),
    }
}

/// BIT: zero flag from `A & M`; negative flag from bit 5 of `M`; overflow flag from bit 6.
pub open spec fn after_bit(s: CpuState, mode: AddressingMode) -> Result<CpuState, CpuError> {
    match operand(s, mode) {
        Ok(v) => Ok(
            CpuState {
                p: with_flag(
                    with_flag(
                        with_flag(s.p, CpuFlags::ZERO, s.a & v == 0),
                        CpuFlags::NEGATIVE,
                        v & 0b0010_0000 != 0,
                    ),
                    CpuFlags::OVERFLOW,
                    v & 0b0100_0000 != 0,
                ),
                ..s
            },
        ),
        Err(e) => Err(e),
    }
}

/// DEC: decrement a byte of memory.
pub open spec fn after_dec(s: CpuState, mode: AddressingMode) -> Result<CpuState, CpuError> {
    match data_address(s, mode) {
        Ok(addr) => {
            let r = wrap8(read(s, addr as int) - 1);
            Ok(CpuState { p: set_zn(s.p, r), ..store(s, addr as int, r) })
        },
        Err(e) => Err(e),
    }
}

/// INC: increment a byte of memory.
pub open spec fn after_inc(s: CpuState, mode: AddressingMode) -> Result<CpuState, CpuError> {
    match data_address(s, mode) {
        Ok(addr) => {
            let r = wrap8(read(s, addr as int) + 1);
            Ok(CpuState { p: set_zn(s.p, r), ..store(s, addr as int, r) })
        },
        Err(e) => Err(e),
    }
}

/// ASL: shift a byte of memory left; bit 7 goes to the carry flag.
pub open spec fn after_asl(s: CpuState, mode: AddressingMode) -> Result<CpuState, CpuError> {
    match data_address(s, mode) {
        Ok(addr) => {
            let v = read(s, addr as int);
            let r = wrap8(2 * v);
            Ok(
                CpuState {
                    p: set_zn(with_flag(s.p, CpuFlags::CARRY, v >= 128), r),
                    ..store(s, addr as int, r)
                },
            )
        },
        Err(e) => Err(e),
    }
}

/// DEX: decrement register X.
pub open spec fn after_dex(s: CpuState) -> CpuState {
    let r = wrap8(s.x - 1);
    CpuState { x: r, p: set_zn(s.p, r), ..s }
}

/// DEY: decrement register Y.
pub open spec fn after_dey(s: CpuState) -> CpuState {
    let r = wrap8(s.y - 1);
    CpuState { y: r, p: set_zn(s.p, r), ..s }
}

/// INX: increment register X.
pub open spec fn after_inx(s: CpuState) -> CpuState {
    let r = wrap8(s.x + 1);
    CpuState { x: r, p: set_zn(s.p, r), ..s }
}

/// INY: increment register Y.
pub open spec fn after_iny(s: CpuState) -> CpuState {
    let r = wrap8(s.y + 1);
    CpuState { y: r, p: set_zn(s.p, r), ..s }
}

/// TAX: copy the accumulator to register X.
pub open spec fn after_tax(s: CpuState) -> CpuState {
    CpuState { x: s.a, p: set_zn(s.p, s.a), ..s }
}

/// CMP, CPX, CPY: compare `register` with the operand. Carry when `register >= M`, zero
/// when they are equal, negative from bit 7 of `register - M`.
pub open spec fn after_compare(s: CpuState, mode: AddressingMode, register: u8) -> Result<
    CpuState,
    CpuError,
> {
    match operand(s, mode) {
        Ok(v) => Ok(
            CpuState {
                p: with_flag(
                    with_flag(
                        with_flag(s.p, CpuFlags::CARRY, register >= v),
                        CpuFlags::ZERO,
                        register == v,
                    ),
                    CpuFlags::NEGATIVE,
                    wrap8(register - v) >= 128,
                ),
                ..s
            },
        ),
        Err(e) => Err(e),
    }
}

/// The carry flag as a number.
pub open spec fn carry_in(p: u8) -> int {
    if has_flag(p, CpuFlags::CARRY) {
        1
    } else {
        0
    }
}

/// Whether `a + v + c`, read as two's complement numbers, lies outside `-128..=127`.
pub open spec fn signed_overflow(a: u8, v: u8, c: int) -> bool {
    let sum = signed(a) + signed(v) + c;
    sum < -128 || sum > 127
}

/// ADC: add the operand and the carry to the accumulator. Carry when the unsigned sum
/// passes 255, overflow when the signed sum leaves `-128..=127`.
pub open spec fn after_adc(s: CpuState, mode: AddressingMode) -> Result<CpuState, CpuError> {
    match operand(s, mode) {
        Ok(v) => {
            let c = carry_in(s.p);
            let sum = s.a + v + c;
            let r = wrap8(sum);
            Ok(
                CpuState {
                    a: r,
                    p: set_zn(
                        with_flag(
                            with_flag(s.p, CpuFlags::CARRY, sum > 255),
                            CpuFlags::OVERFLOW,
                            signed_overflow(s.a, v, c),
                        ),
                        r,
                    ),
                    ..s
                },
            )
        },
        Err(e) => Err(e),
    }
}

/// Branch: when `condition` holds, jump by the signed offset at the program counter,
/// counted from the byte after it; otherwise nothing changes.
pub open spec fn after_branch(s: CpuState, condition: bool) -> Result<CpuState, CpuError> {
    if !condition {
        Ok(s)
    } else if addr_ok(s.pc as int) {
        Ok(CpuState { pc: wrap16(s.pc + 1 + signed(read(s, s.pc as int))), ..s })
    } else {
        Err(CpuError::InvalidAddress)
    }
}

/// JMP absolute: jump to the word at the program counter.
pub open spec fn after_jmp_abs(s: CpuState) -> Result<CpuState, CpuError> {
    if addr_ok(s.pc + 1) {
        Ok(CpuState { pc: read_u16(s, s.pc as int), ..s })
    } else {
        Err(CpuError::InvalidAddress)
    }
}

/// JMP indirect: jump to the word stored at the address held at the program counter.
/// As on the 6502, when that address ends a page (low byte `0xFF`) the high byte is read
/// from the start of the same page, not from the next page.
pub open spec fn after_jmp_indirect(s: CpuState) -> Result<CpuState, CpuError> {
    if addr_ok(s.pc + 1) {
        let loc = read_u16(s, s.pc as int) as int;
        if loc % 256 == 255 {
            if addr_ok(loc) {
                Ok(CpuState { pc: word(read(s, loc), read(s, loc - 255)), ..s })
            } else {
                Err(CpuError::InvalidAddress)
            }
        } else if addr_ok(loc + 1) {
            Ok(CpuState { pc: read_u16(s, loc), ..s })
        } else {
            Err(CpuError::InvalidAddress)
        }
    } else {
        Err(CpuError::InvalidAddress)
    }
}

/// The state after `instruction` with operand addressing `mode`, or its fault.
pub open spec fn after_instruction(
    s: CpuState,
    instruction: Instruction,
    mode: AddressingMode,
) -> Result<CpuState, CpuError> {
    match instruction {
        Instruction::Lda => after_lda(s, mode),
        Instruction::Ldx => after_ldx(s, mode),
        Instruction::Ldy => after_ldy(s, mode),
        Instruction::Sta => after_sta(s, mode),
        Instruction::Adc => after_adc(s, mode),
        Instruction::And => after_and(s, mode),
        Instruction::Asl => after_asl(s, mode),
        Instruction::Bit => after_bit(s, mode),
        Instruction::Cmp => after_compare(s, mode, s.a),
        Instruction::Cpx => after_compare(s, mode, s.x),
        Instruction::Cpy => after_compare(s, mode, s.y),
        Instruction::Dec => after_dec(s, mode),
        Instruction::Dex => Ok(after_dex(s)),
        Instruction::Dey => Ok(after_dey(s)),
        Instruction::Inc => after_inc(s, mode),
        Instruction::Inx => Ok(after_inx(s)),
        Instruction::Iny => Ok(after_iny(s)),
        Instruction::Tax => Ok(after_tax(s)),
        Instruction::Bcc => after_branch(s, !has_flag(s.p, CpuFlags::CARRY)),
        Instruction::Bcs => after_branch(s, has_flag(s.p, CpuFlags::CARRY)),
        Instruction::Bne => after_branch(s, !has_flag(s.p, CpuFlags::ZERO)),
        Instruction::Beq => after_branch(s, has_flag(s.p, CpuFlags::ZERO)),
        Instruction::Bpl => after_branch(s, !has_flag(s.p, CpuFlags::NEGATIVE)),
        Instruction::Bmi => after_branch(s, has_flag(s.p, CpuFlags::NEGATIVE)),
        Instruction::Bvc => after_branch(s, !has_flag(s.p, CpuFlags::OVERFLOW)),
        Instruction::Bvs => after_branch(s, has_flag(s.p, CpuFlags::OVERFLOW)),
        Instruction::Sec => Ok(after_flag(s, CpuFlags::CARRY, true)),
        Instruction::Sed => Ok(after_flag(s, CpuFlags::DECIMAL_MODE, true)),
        Instruction::Sei => Ok(after_flag(s, CpuFlags::INTERRUPT_DISABLE, true)),
        Instruction::Clc => Ok(after_flag(s, CpuFlags::CARRY, false)),
        Instruction::Cld => Ok(after_flag(s, CpuFlags::DECIMAL_MODE, false)),
        Instruction::Cli => Ok(after_flag(s, CpuFlags::INTERRUPT_DISABLE, false)),
        Instruction::Clv => Ok(after_flag(s, CpuFlags::OVERFLOW, false)),
        Instruction::JmpAbsolute => after_jmp_abs(s),
        Instruction::JmpIndirect => after_jmp_indirect(s),
        Instruction::Brk => Ok(s),
    }
}

// ---------------------------------------------------------------- execution

/// One fetch and execute: the outcome and the state after it. A fault leaves the state as
/// it was. `BRK` halts with the program counter just past it. When the instruction leaves
/// the program counter where it was after the opcode, the counter then moves over the
/// instruction's remaining bytes.
pub open spec fn step(s: CpuState) -> (Result<StepOutcome, CpuError>, CpuState) {
    if !addr_ok(s.pc as int) {
        (Err(CpuError::InvalidAddress), s)
    } else {
        let code = read(s, s.pc as int);
        match opcode_table(code) {
            None => (Err(CpuError::UnsupportedOpcode(code)), s),
            Some(op) => {
                let s1 = CpuState { pc: (s.pc + 1) as u16, ..s };
                if op.instruction == Instruction::Brk {
                    (Ok(StepOutcome::Halted), s1)
                } else {
                    match after_instruction(s1, op.instruction, op.mode) {
                        Err(e) => (Err(e), s),
                        Ok(s2) => if s2.pc != s1.pc {
                            (Ok(StepOutcome::Continue), s2)
                        } else if s1.pc + op.len - 1 <= 0xFFFF {
                            (
                                Ok(StepOutcome::Continue),
                                CpuState { pc: (s1.pc + op.len - 1) as u16, ..s2 },
                            )
                        } else {
                            (Err(CpuError::ProgramCounterOverflow), s)
                        },
                    }
                }
            },
        }
    }
}

/// Steps until `BRK`, a fault, or `fuel` instructions have been carried out, whichever
/// comes first: the result and the final state.
pub open spec fn run_for(s: CpuState, fuel: nat) -> (Result<(), CpuError>, CpuState)
    decreases fuel,
{
    if fuel == 0 {
        (Err(CpuError::StepLimitReached), s)
    } else {
        let (r, t) = step(s);
        match r {
            Ok(StepOutcome::Continue) => run_for(t, (fuel - 1) as nat),
            Ok(StepOutcome::Halted) => (Ok(()), t),
            Err(e) => (Err(e), t),
        }
    }
}

/// The state of a processor just built: registers and memory zero, status `STATUS_RESET`.
pub open spec fn power_on() -> CpuState {
    CpuState {
        a: 0,
        x: 0,
        y: 0,
        p: STATUS_RESET,
        pc: 0,
        mem: Seq::new(MEMORY_SIZE as nat, |i: int| 0u8),
    }
}

/// `s` after loading `program` at `PROGRAM_START` and pointing the reset vector at it.
pub open spec fn after_load(s: CpuState, program: Seq<u8>) -> CpuState {
    let placed = CpuState {
        mem: Seq::new(
            s.mem.len(),
            |i: int|
                if PROGRAM_START <= i < PROGRAM_START + program.len() {
                    program[i - PROGRAM_START]
                } else {
                    s.mem[i]
                },
        ),
        ..s
    };
    store_u16(placed, RESET_VECTOR as int, PROGRAM_START)
}

/// `s` after a reset: A and X cleared, status `STATUS_RESET`, program counter taken from
/// the reset vector. Y and memory are kept.
pub open spec fn after_reset(s: CpuState) -> CpuState {
    CpuState { a: 0, x: 0, p: STATUS_RESET, pc: read_u16(s, RESET_VECTOR as int), ..s }
}

} // verus!
