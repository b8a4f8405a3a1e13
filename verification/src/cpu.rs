use vstd::prelude::*;

use crate::flags::CpuFlags;
use crate::machine::{
    CpuError, CpuState, PROGRAM_START, StepOutcome, addr_ok, after_adc, after_and, after_asl, after_bit,
    after_branch, after_compare, after_dec, after_dex, after_dey, after_flag, after_inc,
    after_instruction, after_inx, after_iny, after_jmp_abs, after_jmp_indirect, after_lda,
    after_ldx, after_ldy, after_load, after_reset, after_sta, after_tax, carry_in, data_address,
    operand, operand_address, power_on, read, read_u16, run_for, set_zn, signed, signed_overflow,
    step, word, wrap16, wrap8, store, store_u16,
};
use crate::opcodes::{AddressingMode, Instruction, OpCode, lookup_opcode};

verus! {

/// A 6502 processor with its registers and 64 KiB address space (the last address
/// excepted).
pub struct CPU {
    pub register_a: u8,
    pub register_x: u8,
    pub register_y: u8,
    pub status: CpuFlags,
    pub program_counter: u16,
    pub memory: [u8; 0xFFFF],
}

impl View for CPU {
    type V = CpuState;

    open spec fn view(&self) -> CpuState {
        CpuState {
            a: self.register_a,
            x: self.register_x,
            y: self.register_y,
            p: self.status@,
            pc: self.program_counter,
            mem: self.memory@,
        }
    }
}

proof fn lemma_word_bits(lo: u8, hi: u8)
    ensures
        ((hi as u16) << 8u16) | (lo as u16) == word(lo, hi),
{
    assert(((hi as u16) << 8u16) | (lo as u16) == lo + 256 * hi) by (bit_vector);
}

proof fn lemma_split_word(d: u16)
    ensures
        (d >> 8u16) as u8 == d / 256,
        (d & 0xffu16) as u8 == d % 256,
{
    assert((d >> 8u16) as u8 == d / 256) by (bit_vector);
    assert((d & 0xffu16) as u8 == d % 256) by (bit_vector);
}

proof fn lemma_wrap8(v: int)
    requires
        0 <= v < 512,
    ensures
        wrap8(v) == (if v > 255 { v - 256 } else { v }),
{
}

proof fn lemma_wrap16(v: int)
    requires
        0 <= v < 131072,
    ensures
        wrap16(v) == (if v > 65535 { v - 65536 } else { v }),
{
}

proof fn lemma_wrap8_sub(x: u8, y: u8)
    ensures
        wrap8(x - y) == (if x - y < 0 { x - y + 256 } else { x - y }),
        (wrap8(x - y) == 0) == (x == y),
{
}

proof fn lemma_adc_overflow(a: u8, v: u8, c: u8)
    requires
        c <= 1,
    ensures
        ((((a + v + c) as u8) ^ v) & (((a + v + c) as u8) ^ a) & 0b1000_0000u8 != 0)
            == signed_overflow(a, v, c as int),
{
    let r = (a + v + c) as u8;
    assert(c <= 1 ==> ((((a as u16 + v as u16 + c as u16) as u8) ^ v) & (((a as u16 + v as u16
        + c as u16) as u8) ^ a) & 0b1000_0000u8 != 0) == ((a < 128 && v < 128 && ((a as u16
        + v as u16 + c as u16) as u8) >= 128) || (a >= 128 && v >= 128 && ((a as u16 + v as u16
        + c as u16) as u8) < 128))) by (bit_vector);
    assert(r == (a as u16 + v as u16 + c as u16) as u8) by (bit_vector)
        requires
            r == (a + v + c) as u8,
    ;
    assert(r == (a + v + c) % 256) by (bit_vector)
        requires
            r == (a + v + c) as u8,
            c <= 1,
    ;
}

proof fn lemma_sign_extend(m: u8)
    ensures
        ((m as i8) as u16) == (if m < 128 { m as int } else { m + 0xFF00 }),
{
    assert(((m as i8) as u16) == (if m < 128 { m as u16 } else { ((m as u16) + 0xFF00u16) as u16 }))
        by (bit_vector);
}

proof fn lemma_page_end(loc: u16)
    ensures
        (loc & 0x00FFu16 == 0x00FFu16) == (loc % 256 == 255),
        loc & 0x00FFu16 == 0x00FFu16 ==> (loc & 0xFF00u16) == loc - 255,
{
    assert((loc & 0x00FFu16 == 0x00FFu16) == (loc % 256 == 255)) by (bit_vector);
    assert(loc & 0x00FFu16 == 0x00FFu16 ==> (loc & 0xFF00u16) == loc - 255) by (bit_vector);
}

/// For the instructions that read or write a byte of memory, the only faults are those of
/// the data address, and the program counter is left alone.
proof fn lemma_data_instruction(s: CpuState, instruction: Instruction, mode: AddressingMode)
    requires
        instruction == Instruction::Lda || instruction == Instruction::Ldx || instruction
            == Instruction::Ldy || instruction == Instruction::Sta || instruction
            == Instruction::Adc || instruction == Instruction::And || instruction
            == Instruction::Asl || instruction == Instruction::Bit || instruction
            == Instruction::Cmp || instruction == Instruction::Cpx || instruction
            == Instruction::Cpy || instruction == Instruction::Dec || instruction
            == Instruction::Inc,
    ensures
        match after_instruction(s, instruction, mode) {
            Ok(t) => data_address(s, mode) is Ok && t.pc == s.pc,
            Err(e) => data_address(s, mode) == Err::<u16, CpuError>(e),
        },
{
}

impl CPU {
    /// A processor at power-on: registers and memory zero, status `STATUS_RESET`.
    pub fn new() -> (cpu: CPU)
        ensures
            cpu@ == power_on(),
    {
        let cpu = CPU {
            register_a: 0,
            register_x: 0,
            register_y: 0,
            status: CpuFlags::from_bits_truncate(0b100100),
            program_counter: 0,
            memory: [0u8; 0xFFFF],
        };
        assert(cpu@.mem =~= power_on().mem);
        cpu
    }

    /// The byte at `addr`.
    pub fn mem_read(&self, addr: u16) -> (data: u8)
        requires
            addr_ok(addr as int),
        ensures
            data == read(self@, addr as int),
    {
        self.memory[addr as usize]
    }

    /// Stores `data` at `addr`.
    pub fn mem_write(&mut self, addr: u16, data: u8)
        requires
            addr_ok(addr as int),
        ensures
            final(self)@ == store(old(self)@, addr as int, data),
    {
        self.memory[addr as usize] = data;
        assert(self@.mem =~= store(old(self)@, addr as int, data).mem);
    }

    /// The little-endian word at `pos` and `pos + 1`.
    pub fn mem_read_u16(&self, pos: u16) -> (data: u16)
        requires
            addr_ok(pos + 1),
        ensures
            data == read_u16(self@, pos as int),
    {
        let lo = self.mem_read(pos) as u16;
        let hi = self.mem_read(pos + 1) as u16;
        proof {
            lemma_word_bits(lo as u8, hi as u8);
        }
        (hi << 8) | (lo as u16)
    }

    /// Stores the word `data` little-endian at `pos` and `pos + 1`.
    pub fn mem_write_u16(&mut self, pos: u16, data: u16)
        requires
            addr_ok(pos + 1),
        ensures
            final(self)@ == store_u16(old(self)@, pos as int, data),
    {
        let hi = (data >> 8) as u8;
        let lo = (data & 0xff) as u8;
        proof {
            lemma_split_word(data);
        }
        self.mem_write(pos, lo);
        self.mem_write(pos + 1, hi);
    }

    /// Sets the zero flag when `result` is zero and the negative flag from its bit 7.
    fn update_zero_and_negative_flags(&mut self, result: u8)
        ensures
            final(self)@ == (CpuState { p: set_zn(old(self)@.p, result), ..old(self)@ }),
    {
        self.status.set(CpuFlags::ZERO, result == 0);
        proof {
            assert((result & 0b1000_0000u8 != 0) == (result >= 128)) by (bit_vector);
        }
        self.status.set(CpuFlags::NEGATIVE, result & 0b1000_0000 != 0);
    }

    /// The address of the operand of the instruction whose operand bytes start at the
    /// program counter.
    fn get_oprand_adress(&self, mode: &AddressingMode) -> (addr: u16)
        requires
            operand_address(self@, *mode) is Ok,
        ensures
            operand_address(self@, *mode) == Ok::<u16, CpuError>(addr),
    {
        match mode {
            AddressingMode::Immediate => self.program_counter,
            AddressingMode::ZeroPage => self.mem_read(self.program_counter) as u16,
            AddressingMode::Absolute => self.mem_read_u16(self.program_counter),
            AddressingMode::ZeroPage_X => {
                let pos = self.mem_read(self.program_counter);
                proof {
                    lemma_wrap8(pos + self.register_x);
                }
                let addr = pos.wrapping_add(self.register_x) as u16;
                addr
            },
            AddressingMode::ZeroPage_Y => {
                let pos = self.mem_read(self.program_counter);
                proof {
                    lemma_wrap8(pos + self.register_y);
                }
                let addr = pos.wrapping_add(self.register_y) as u16;
                addr
            },
            AddressingMode::Absolute_X => {
                let base = self.mem_read_u16(self.program_counter);
                proof {
                    lemma_wrap16(base + self.register_x);
                }
                let addr = base.wrapping_add(self.register_x as u16);
                addr
            },
            AddressingMode::Absolute_Y => {
                let base = self.mem_read_u16(self.program_counter);
                proof {
                    lemma_wrap16(base + self.register_y);
                }
                let addr = base.wrapping_add(self.register_y as u16);
                addr
            },
            AddressingMode::Indirect_X => {
                let base = self.mem_read(self.program_counter);
                proof {
                    lemma_wrap8(base + self.register_x);
                    lemma_wrap8(wrap8(base + self.register_x) + 1);
                }
                let ptr: u8 = base.wrapping_add(self.register_x);
                let lo = self.mem_read(ptr as u16);
                let hi = self.mem_read(ptr.wrapping_add(1) as u16);
                proof {
                    lemma_word_bits(lo, hi);
                }
                (hi as u16) << 8 | (lo as u16)
            },
            AddressingMode::Indirect_Y => {
                let base = self.mem_read(self.program_counter);
                proof {
                    lemma_wrap8(base + 1);
                }
                let lo = self.mem_read(base as u16);
                let hi = self.mem_read(base.wrapping_add(1) as u16);
                proof {
                    lemma_word_bits(lo, hi);
                }
                let deref_base = (hi as u16) << 8 | (lo as u16);
                proof {
                    lemma_wrap16(deref_base + self.register_y);
                }
                let deref = deref_base.wrapping_add(self.register_y as u16);
                deref
            },
            // excluded by the precondition: this mode has no operand address
            AddressingMode::NoneAddressing => 0,
        }
    }
    /// LDA: loads the operand into the accumulator.
    fn lda(&mut self, mode: &AddressingMode)
        requires
            after_lda(old(self)@, *mode) is Ok,
        ensures
            after_lda(old(self)@, *mode) == Ok::<CpuState, CpuError>(final(self)@),
    {
        let addr = self.get_oprand_adress(mode);
        let value = self.mem_read(addr);
        self.register_a = value;
        self.update_zero_and_negative_flags(self.register_a);
    }

    /// LDX: loads the operand into register X.
    fn ldx(&mut self, mode: &AddressingMode)
        requires
            after_ldx(old(self)@, *mode) is Ok,
        ensures
            after_ldx(old(self)@, *mode) == Ok::<CpuState, CpuError>(final(self)@),
    {
        let addr = self.get_oprand_adress(mode);
        let val = self.mem_read(addr);
        self.register_x = val;
        self.update_zero_and_negative_flags(self.register_x);
    }

    /// LDY: loads the operand into register Y.
    fn ldy(&mut self, mode: &AddressingMode)
        requires
            after_ldy(old(self)@, *mode) is Ok,
        ensures
            after_ldy(old(self)@, *mode) == Ok::<CpuState, CpuError>(final(self)@),
    {
        let addr = self.get_oprand_adress(mode);
        let val = self.mem_read(addr);
        self.register_y = val;
        self.update_zero_and_negative_flags(self.register_y);
    }

    /// STA: stores the accumulator at the operand address.
    fn sta(&mut self, mode: &AddressingMode)
        requires
            after_sta(old(self)@, *mode) is Ok,
        ensures
            after_sta(old(self)@, *mode) == Ok::<CpuState, CpuError>(final(self)@),
    {
        let addr = self.get_oprand_adress(mode);
        self.mem_write(addr, self.register_a);
    }

    /// AND: ands the operand into the accumulator, leaving the flags alone.
    fn and(&mut self, mode: &AddressingMode)
        requires
            after_and(old(self)@, *mode) is Ok,
        ensures
            after_and(old(self)@, *mode) == Ok::<CpuState, CpuError>(final(self)@),
    {
        let addr = self.get_oprand_adress(mode);
        let data = self.mem_read(addr);
        self.register_a = self.register_a & data;
    }

    /// BIT: zero flag from `A & M`, negative flag from bit 5 of `M`, overflow flag from bit 6.
    fn bit(&mut self, mode: &AddressingMode)
        requires
            after_bit(old(self)@, *mode) is Ok,
        ensures
            after_bit(old(self)@, *mode) == Ok::<CpuState, CpuError>(final(self)@),
    {
        let addr = self.get_oprand_adress(mode);
        let data = self.mem_read(addr);
        let modification = self.register_a & data;
        self.status.set(CpuFlags::ZERO, modification == 0);
        self.status.set(CpuFlags::NEGATIVE, data & 0b0010_0000 != 0);
        self.status.set(CpuFlags::OVERFLOW, data & 0b0100_0000 != 0);
    }

    /// DEX: decrements register X.
    fn dex(&mut self)
        ensures
            final(self)@ == after_dex(old(self)@),
    {
        proof {
            lemma_wrap8_sub(self.register_x, 1);
        }
        self.register_x = self.register_x.wrapping_sub(1);
        self.update_zero_and_negative_flags(self.register_x);
    }

    /// DEY: decrements register Y.
    fn dey(&mut self)
        ensures
            final(self)@ == after_dey(old(self)@),
    {
        proof {
            lemma_wrap8_sub(self.register_y, 1);
        }
        self.register_y = self.register_y.wrapping_sub(1);
        self.update_zero_and_negative_flags(self.register_y);
    }

    /// DEC: decrements the byte at the operand address.
    fn dec_mem(&mut self, mode: &AddressingMode)
        requires
            after_dec(old(self)@, *mode) is Ok,
        ensures
            after_dec(old(self)@, *mode) == Ok::<CpuState, CpuError>(final(self)@),
    {
        let addr = self.get_oprand_adress(mode);
        let data = self.mem_read(addr);
        proof {
            lemma_wrap8_sub(data, 1);
        }
        let modification = data.wrapping_sub(1);
        self.mem_write(addr, modification);
        self.update_zero_and_negative_flags(modification);
    }

    /// ASL: shifts the byte at the operand address left, bit 7 going to the carry flag;
    /// returns the shifted byte.
    fn asl(&mut self, mode: &AddressingMode) -> (shifted: u8)
        requires
            after_asl(old(self)@, *mode) is Ok,
        ensures
            after_asl(old(self)@, *mode) == Ok::<CpuState, CpuError>(final(self)@),
            data_address(old(self)@, *mode) matches Ok(addr) && shifted == read(
                final(self)@,
                addr as int,
            ),
    {
        let addr = self.get_oprand_adress(mode);
        let mut data = self.mem_read(addr);
        proof {
            assert((data >> 7u8 == 1u8) == (data >= 128)) by (bit_vector);
            assert(data << 1u8 == (2 * data) % 256) by (bit_vector);
        }
        if data >> 7 == 1 {
            self.status.insert(CpuFlags::CARRY);
        } else {
            self.status.remove(CpuFlags::CARRY);
        }
        data = data << 1;
        self.mem_write(addr, data);
        self.update_zero_and_negative_flags(data);
        return data;
    }

    /// JMP absolute: jumps to the word at the program counter.
    fn jmp_abs(&mut self)
        requires
            after_jmp_abs(old(self)@) is Ok,
        ensures
            after_jmp_abs(old(self)@) == Ok::<CpuState, CpuError>(final(self)@),
    {
        let location = self.mem_read_u16(self.program_counter);
        self.program_counter = location;
    }

    /// JMP indirect: jumps to the word stored at the address held at the program counter,
    /// reading the high byte from the start of the page when that address ends a page.
    fn jmp_indrect(&mut self)
        requires
            after_jmp_indirect(old(self)@) is Ok,
        ensures
            after_jmp_indirect(old(self)@) == Ok::<CpuState, CpuError>(final(self)@),
    {
        let location = self.mem_read_u16(self.program_counter);
        let indirect_ref: u16;
        proof {
            lemma_page_end(location);
        }
        if location & 0x00FF == 0x00FF {
            // the 6502 does not carry into the high byte of the pointer: it wraps within
            // the page
            let lo = self.mem_read(location);
            let hi = self.mem_read(location & 0xFF00);
            proof {
                lemma_word_bits(lo, hi);
            }
            indirect_ref = (hi as u16) << 8 | (lo as u16);
        } else {
            indirect_ref = self.mem_read_u16(location);
        }
        self.program_counter = indirect_ref;
    }

    /// SEC: sets the carry flag.
    pub fn sec(&mut self)
        ensures
            final(self)@ == after_flag(old(self)@, CpuFlags::CARRY, true),
    {
        self.status.insert(CpuFlags::CARRY);
    }

    /// CLC: clears the carry flag.
    pub fn clc(&mut self)
        ensures
            final(self)@ == after_flag(old(self)@, CpuFlags::CARRY, false),
    {
        self.status.remove(CpuFlags::CARRY)
    }

    /// SED: sets the decimal mode flag.
    pub fn sed(&mut self)
        ensures
            final(self)@ == after_flag(old(self)@, CpuFlags::DECIMAL_MODE, true),
    {
        self.status.insert(CpuFlags::DECIMAL_MODE);
    }

    /// CLD: clears the decimal mode flag.
    pub fn cld(&mut self)
        ensures
            final(self)@ == after_flag(old(self)@, CpuFlags::DECIMAL_MODE, false),
    {
        self.status.remove(CpuFlags::DECIMAL_MODE);
    }

    /// SEI: sets the interrupt disable flag.
    pub fn sei(&mut self)
        ensures
            final(self)@ == after_flag(old(self)@, CpuFlags::INTERRUPT_DISABLE, true),
    {
        self.status.insert(CpuFlags::INTERRUPT_DISABLE);
    }

    /// CLI: clears the interrupt disable flag.
    pub fn cli(&mut self)
        ensures
            final(self)@ == after_flag(old(self)@, CpuFlags::INTERRUPT_DISABLE, false),
    {
        self.status.remove(CpuFlags::INTERRUPT_DISABLE);
    }

    /// CLV: clears the overflow flag.
    pub fn clv(&mut self)
        ensures
            final(self)@ == after_flag(old(self)@, CpuFlags::OVERFLOW, false),
    {
        self.status.remove(CpuFlags::OVERFLOW);
    }

    /// Branch: when `condition` holds, jumps by the signed offset at the program counter,
    /// counted from the byte after it.
    fn branch_if(&mut self, condition: bool)
        requires
            after_branch(old(self)@, condition) is Ok,
        ensures
            after_branch(old(self)@, condition) == Ok::<CpuState, CpuError>(final(self)@),
    {
        if condition {
            let offset = self.mem_read(self.program_counter) as i8;
            let base_addr = self.program_counter.wrapping_add(1);
            proof {
                let m = read(old(self)@, old(self)@.pc as int);
                lemma_sign_extend(m);
                lemma_wrap16(self.program_counter + 1);
                lemma_wrap16(base_addr + (offset as u16));
                assert(wrap16(self.program_counter + 1 + signed(m)) == wrap16(base_addr + (
                offset as u16)));
            }
            let new_program_counter = base_addr.wrapping_add(offset as u16);
            self.program_counter = new_program_counter;
        }
    }

    /// CMP, CPX, CPY: compares `register` with the operand.
    fn compare(&mut self, mode: &AddressingMode, register: u8)
        requires
            after_compare(old(self)@, *mode, register) is Ok,
        ensures
            after_compare(old(self)@, *mode, register) == Ok::<CpuState, CpuError>(final(self)@),
    {
        let addr = self.get_oprand_adress(mode);
        let mem_val = self.mem_read(addr);
        if register >= mem_val {
            self.status.insert(CpuFlags::CARRY);
        } else {
            self.status.remove(CpuFlags::CARRY);
        }
        proof {
            lemma_wrap8_sub(register, mem_val);
        }
        let result = register.wrapping_sub(mem_val);
        if result == 0 {
            self.status.insert(CpuFlags::ZERO);
        } else {
            self.status.remove(CpuFlags::ZERO);
        }
        proof {
            assert((result & 0b1000_0000u8 != 0) == (result >= 128)) by (bit_vector);
        }
        if (result & 0b1000_0000) != 0 {
            self.status.insert(CpuFlags::NEGATIVE);
        } else {
            self.status.remove(CpuFlags::NEGATIVE);
        }
    }

    /// ADC: adds the operand and the carry to the accumulator, setting carry on unsigned
    /// overflow and overflow on signed overflow.
    fn adc(&mut self, mode: &AddressingMode)
        requires
            after_adc(old(self)@, *mode) is Ok,
        ensures
            after_adc(old(self)@, *mode) == Ok::<CpuState, CpuError>(final(self)@),
    {
        let addr = self.get_oprand_adress(mode);
        let val = self.mem_read(addr);
        let c: u16 = if self.status.contains(CpuFlags::CARRY) {
            1
        } else {
            0
        };
        let sum = self.register_a as u16 + val as u16 + c;
        proof {
            lemma_adc_overflow(self.register_a, val, c as u8);
        }
        if sum > 0xff {
            self.status.insert(CpuFlags::CARRY);
        } else {
            self.status.remove(CpuFlags::CARRY);
        }
        let result = sum as u8;
        proof {
            assert(result == sum % 256) by (bit_vector)
                requires
                    result == sum as u8,
            ;
            assert(result == (self.register_a + val + c) as u8);
            assert(c == carry_in(old(self)@.p));
        }
        if (result ^ val) & (result ^ self.register_a) & 0b1000_0000 != 0 {
            self.status.insert(CpuFlags::OVERFLOW);
        } else {
            self.status.remove(CpuFlags::OVERFLOW);
        }
        self.register_a = result;
        self.update_zero_and_negative_flags(self.register_a);
    }

    /// TAX: copies the accumulator to register X.
    fn tax(&mut self)
        ensures
            final(self)@ == after_tax(old(self)@),
    {
        self.register_x = self.register_a;
        self.update_zero_and_negative_flags(self.register_x);
    }

    /// INC: increments the byte at the operand address.
    fn inc_mem(&mut self, mode: &AddressingMode)
        requires
            after_inc(old(self)@, *mode) is Ok,
        ensures
            after_inc(old(self)@, *mode) == Ok::<CpuState, CpuError>(final(self)@),
    {
        let addr = self.get_oprand_adress(mode);
        let data = self.mem_read(addr);
        proof {
            lemma_wrap8(data + 1);
        }
        let modification = data.wrapping_add(1);
        self.mem_write(addr, modification);
        self.update_zero_and_negative_flags(modification);
    }

    /// INX: increments register X.
    fn inx(&mut self)
        ensures
            final(self)@ == after_inx(old(self)@),
    {
        proof {
            lemma_wrap8(self.register_x + 1);
        }
        self.register_x = self.register_x.wrapping_add(1);
        self.update_zero_and_negative_flags(self.register_x);
    }

    /// INY: increments register Y.
    fn iny(&mut self)
        ensures
            final(self)@ == after_iny(old(self)@),
    {
        proof {
            lemma_wrap8(self.register_y + 1);
        }
        self.register_y = self.register_y.wrapping_add(1);
        self.update_zero_and_negative_flags(self.register_y);
    }
    /// The address an instruction reads or writes, or the fault that computing or using it
    /// meets; nothing is changed.
    fn checked_data_address(&self, mode: &AddressingMode) -> (addr: Result<u16, CpuError>)
        ensures
            addr == data_address(self@, *mode),
    {
        match mode {
            AddressingMode::NoneAddressing => {
                return Err(CpuError::UnsupportedAddressingMode);
            },
            AddressingMode::Immediate => {},
            AddressingMode::Absolute | AddressingMode::Absolute_X | AddressingMode::Absolute_Y => {
                if self.program_counter >= 0xFFFE {
                    return Err(CpuError::InvalidAddress);
                }
            },
            _ => {
                if self.program_counter >= 0xFFFF {
                    return Err(CpuError::InvalidAddress);
                }
            },
        }
        let addr = self.get_oprand_adress(mode);
        if addr >= 0xFFFF {
            Err(CpuError::InvalidAddress)
        } else {
            Ok(addr)
        }
    }

    /// Where JMP indirect would jump, or the fault it would meet; nothing is changed.
    fn indirect_jump_target(&self) -> (target: Result<u16, CpuError>)
        ensures
            match after_jmp_indirect(self@) {
                Ok(t) => target == Ok::<u16, CpuError>(t.pc),
                Err(e) => target == Err::<u16, CpuError>(e),
            },
    {
        if self.program_counter >= 0xFFFE {
            return Err(CpuError::InvalidAddress);
        }
        let location = self.mem_read_u16(self.program_counter);
        proof {
            lemma_page_end(location);
        }
        if location & 0x00FF == 0x00FF {
            if location >= 0xFFFF {
                return Err(CpuError::InvalidAddress);
            }
            let lo = self.mem_read(location);
            let hi = self.mem_read(location & 0xFF00);
            proof {
                lemma_word_bits(lo, hi);
            }
            Ok((hi as u16) << 8 | (lo as u16))
        } else {
            if location >= 0xFFFE {
                return Err(CpuError::InvalidAddress);
            }
            Ok(self.mem_read_u16(location))
        }
    }

    /// The program counter the instruction would leave, or the fault it would meet; nothing
    /// is changed.
    fn next_program_counter(&self, op: &OpCode) -> (pc: Result<u16, CpuError>)
        ensures
            match after_instruction(self@, op.instruction, op.mode) {
                Ok(t) => pc == Ok::<u16, CpuError>(t.pc),
                Err(e) => pc == Err::<u16, CpuError>(e),
            },
    {
        let condition = match op.instruction {
            Instruction::Lda | Instruction::Ldx | Instruction::Ldy | Instruction::Sta
            | Instruction::Adc | Instruction::And | Instruction::Asl | Instruction::Bit
            | Instruction::Cmp | Instruction::Cpx | Instruction::Cpy | Instruction::Dec
            | Instruction::Inc => {
                proof {
                    lemma_data_instruction(self@, op.instruction, op.mode);
                }
                return match self.checked_data_address(&op.mode) {
                    Ok(_) => Ok(self.program_counter),
                    Err(e) => Err(e),
                };
            },
            Instruction::JmpAbsolute => {
                if self.program_counter >= 0xFFFE {
                    return Err(CpuError::InvalidAddress);
                }
                return Ok(self.mem_read_u16(self.program_counter));
            },
            Instruction::JmpIndirect => {
                return self.indirect_jump_target();
            },
            Instruction::Bcc => !self.status.contains(CpuFlags::CARRY),
            Instruction::Bcs => self.status.contains(CpuFlags::CARRY),
            Instruction::Bne => !self.status.contains(CpuFlags::ZERO),
            Instruction::Beq => self.status.contains(CpuFlags::ZERO),
            Instruction::Bpl => !self.status.contains(CpuFlags::NEGATIVE),
            Instruction::Bmi => self.status.contains(CpuFlags::NEGATIVE),
            Instruction::Bvc => !self.status.contains(CpuFlags::OVERFLOW),
            Instruction::Bvs => self.status.contains(CpuFlags::OVERFLOW),
            _ => false,
        };
        if !condition {
            Ok(self.program_counter)
        } else if self.program_counter >= 0xFFFF {
            Err(CpuError::InvalidAddress)
        } else {
            let offset = self.mem_read(self.program_counter) as i8;
            let base_addr = self.program_counter.wrapping_add(1);
            proof {
                let m = read(self@, self@.pc as int);
                lemma_sign_extend(m);
                lemma_wrap16(self.program_counter + 1);
                lemma_wrap16(base_addr + (offset as u16));
                assert(wrap16(self.program_counter + 1 + signed(m)) == wrap16(base_addr + (
                offset as u16)));
            }
            Ok(base_addr.wrapping_add(offset as u16))
        }
    }

    /// Carries out `op`, whose operand bytes start at the program counter.
    fn execute(&mut self, op: &OpCode)
        requires
            after_instruction(old(self)@, op.instruction, op.mode) is Ok,
        ensures
            after_instruction(old(self)@, op.instruction, op.mode) == Ok::<CpuState, CpuError>(
                final(self)@,
            ),
    {
        match op.instruction {
            Instruction::Lda => self.lda(&op.mode),
            Instruction::Ldx => self.ldx(&op.mode),
            Instruction::Ldy => self.ldy(&op.mode),
            Instruction::Sta => self.sta(&op.mode),
            Instruction::Adc => self.adc(&op.mode),
            Instruction::And => self.and(&op.mode),
            Instruction::Asl => {
                self.asl(&op.mode);
            },
            Instruction::Bit => self.bit(&op.mode),
            Instruction::Cmp => self.compare(&op.mode, self.register_a),
            Instruction::Cpx => self.compare(&op.mode, self.register_x),
            Instruction::Cpy => self.compare(&op.mode, self.register_y),
            Instruction::Dec => self.dec_mem(&op.mode),
            Instruction::Dex => self.dex(),
            Instruction::Dey => self.dey(),
            Instruction::Inc => self.inc_mem(&op.mode),
            Instruction::Inx => self.inx(),
            Instruction::Iny => self.iny(),
            Instruction::Tax => self.tax(),
            Instruction::Bcc => self.branch_if(!self.status.contains(CpuFlags::CARRY)),
            Instruction::Bcs => self.branch_if(self.status.contains(CpuFlags::CARRY)),
            Instruction::Bne => self.branch_if(!self.status.contains(CpuFlags::ZERO)),
            Instruction::Beq => self.branch_if(self.status.contains(CpuFlags::ZERO)),
            Instruction::Bpl => self.branch_if(!self.status.contains(CpuFlags::NEGATIVE)),
            Instruction::Bmi => self.branch_if(self.status.contains(CpuFlags::NEGATIVE)),
            Instruction::Bvc => self.branch_if(!self.status.contains(CpuFlags::OVERFLOW)),
            Instruction::Bvs => self.branch_if(self.status.contains(CpuFlags::OVERFLOW)),
            Instruction::Sec => self.sec(),
            Instruction::Sed => self.sed(),
            Instruction::Sei => self.sei(),
            Instruction::Clc => self.clc(),
            Instruction::Cld => self.cld(),
            Instruction::Cli => self.cli(),
            Instruction::Clv => self.clv(),
            Instruction::JmpAbsolute => self.jmp_abs(),
            Instruction::JmpIndirect => self.jmp_indrect(),
            Instruction::Brk => {},
        }
    }

    /// Fetches and carries out one instruction. On a fault nothing changes; on `BRK` only
    /// the program counter moves past it.
    pub fn step(&mut self) -> (outcome: Result<StepOutcome, CpuError>)
        ensures
            (outcome, final(self)@) == step(old(self)@),
    {
        let start = self.program_counter;
        if start >= 0xFFFF {
            return Err(CpuError::InvalidAddress);
        }
        let code = self.mem_read(start);
        let opcode = match lookup_opcode(code) {
            Some(op) => op,
            None => {
                return Err(CpuError::UnsupportedOpcode(code));
            },
        };
        self.program_counter = start + 1;
        let program_counter_state = self.program_counter;
        if let Instruction::Brk = opcode.instruction {
            return Ok(StepOutcome::Halted);
        }
        let next = match self.next_program_counter(&opcode) {
            Ok(pc) => pc,
            Err(e) => {
                self.program_counter = start;
                return Err(e);
            },
        };
        if next == program_counter_state && program_counter_state as u32 + opcode.len as u32 - 1
            > 0xFFFF {
            self.program_counter = start;
            return Err(CpuError::ProgramCounterOverflow);
        }
        self.execute(&opcode);
        if program_counter_state == self.program_counter {
            self.program_counter += (opcode.len - 1) as u16;
        }
        Ok(StepOutcome::Continue)
    }

    /// Executes instructions from the program counter until `BRK`, a fault, or `u64::MAX`
    /// instructions, whichever comes first.
    pub fn run(&mut self) -> (result: Result<(), CpuError>)
        ensures
            (result, final(self)@) == run_for(old(self)@, u64::MAX as nat),
    {
        let mut remaining: u64 = u64::MAX;
        while remaining > 0
            invariant
                run_for(self@, remaining as nat) == run_for(old(self)@, u64::MAX as nat),
            decreases remaining,
        {
            match self.step() {
                Ok(StepOutcome::Continue) => {},
                Ok(StepOutcome::Halted) => {
                    return Ok(());
                },
                Err(e) => {
                    return Err(e);
                },
            }
            remaining = remaining - 1;
        }
        Err(CpuError::StepLimitReached)
    }

    /// Copies `program` to memory from `PROGRAM_START` on and points the reset vector at it.
    pub fn load(&mut self, program: Vec<u8>)
        requires
            program.len() <= 0x7FFF,
        ensures
            final(self)@ == after_load(old(self)@, program@),
    {
        let mut i: usize = 0;
        while i < program.len()
            invariant
                i <= program.len() <= 0x7FFF,
                self.register_a == old(self).register_a,
                self.register_x == old(self).register_x,
                self.register_y == old(self).register_y,
                self.status == old(self).status,
                self.program_counter == old(self).program_counter,
                forall|j: int|
                    0 <= j < 0xFFFF ==> #[trigger] self.memory@[j] == (if 0x8000 <= j < 0x8000 + i {
                        program@[j - 0x8000]
                    } else {
                        old(self).memory@[j]
                    }),
            decreases program.len() - i,
        {
            self.memory[0x8000 + i] = program[i];
            i = i + 1;
        }
        proof {
            let placed = CpuState {
                mem: Seq::new(
                    old(self)@.mem.len(),
                    |j: int|
                        if PROGRAM_START <= j < PROGRAM_START + program@.len() {
                            program@[j - PROGRAM_START]
                        } else {
                            old(self)@.mem[j]
                        },
                ),
                ..old(self)@
            };
            assert(self@.mem =~= placed.mem);
        }
        self.mem_write_u16(0xFFFC, 0x8000);
    }

    /// Reset: clears A and X, sets the status to `STATUS_RESET` and takes the program
    /// counter from the reset vector.
    pub fn reset_interrupt(&mut self)
        ensures
            final(self)@ == after_reset(old(self)@),
    {
        self.register_a = 0;
        self.register_x = 0;
        self.status = CpuFlags::from_bits_truncate(0b100100);
        self.program_counter = self.mem_read_u16(0xFFFC);
    }

    /// Loads `program`, resets and runs.
    pub fn load_and_run(&mut self, program: Vec<u8>) -> (result: Result<(), CpuError>)
        requires
            program.len() <= 0x7FFF,
        ensures
            (result, final(self)@) == run_for(
                after_reset(after_load(old(self)@, program@)),
                u64::MAX as nat,
            ),
    {
        self.load(program);
        self.reset_interrupt();
        self.run()
    }
}

} // verus!
