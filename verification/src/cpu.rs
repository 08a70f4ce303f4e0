//! The 6502 processor: registers, status flags, stack, addressing modes and
//! the execution of one instruction per tick.

use vstd::prelude::*;
use crate::addressable;
use crate::addressable::{read16_le, spec_read16_le, word_le, Address, Addressable};
use crate::bits::{bit, lemma_mask_is_bit, lemma_shift_is_arithmetic};
use crate::instruction;
use crate::instruction::{AddressingMode, Instruction, MemoryAddressingMode};
use crate::text::{
    lemma_append,
    push_hex_byte,
    push_hex_short,
    push_str,
    spec_hex_byte,
    spec_hex_short,
};
use vstd::string::StringSliceAdditionalSpecFns;

verus! {

pub type Result<T> = std::result::Result<T, Error>;

#[derive(Debug, Clone, Copy, PartialEq, Eq)]
pub enum Error {
    /// The fetched byte is no opcode.
    InstructionError(instruction::Error),
    /// The bus refused an access.
    MemoryError(addressable::Error),
    /// The opcode is known but the processor does not carry it out.
    UnimplementedInstruction(Instruction),
    /// The mode names no address in memory.
    UnimplementedMemoryAddressingMode(MemoryAddressingMode),
    UnimplementedAddressingMode(AddressingMode),
}

/// The seven flags of the processor status.
#[derive(Debug, Clone, Copy, PartialEq, Eq)]
pub struct StatusRegister {
    pub negative: bool,
    pub overflow: bool,
    pub brk_command: bool,
    pub decimal_mode: bool,
    pub irq_disable: bool,
    pub zero: bool,
    pub carry: bool,
}

pub const STATUS_CARRY: u8 = 0x01;

pub const STATUS_ZERO: u8 = 0x02;

pub const STATUS_IRQ_DISABLE: u8 = 0x04;

pub const STATUS_DECIMAL: u8 = 0x08;

pub const STATUS_BRK: u8 = 0x10;

pub const STATUS_UNUSED: u8 = 0x20;

pub const STATUS_OVERFLOW: u8 = 0x40;

pub const STATUS_NEGATIVE: u8 = 0x80;

/// The weight that a flag contributes to the packed status byte.
pub open spec fn flag_weight(flag: bool, weight: int) -> int {
    if flag {
        weight
    } else {
        0
    }
}

/// The byte that follows `v`, wrapping from 255 to 0.
pub open spec fn increment(v: u8) -> u8 {
    if v == 0xff {
        0
    } else {
        (v + 1) as u8
    }
}

/// The byte that precedes `v`, wrapping from 0 to 255.
pub open spec fn decrement(v: u8) -> u8 {
    if v == 0 {
        0xff
    } else {
        (v - 1) as u8
    }
}

/// The byte read as a two's complement number.
pub open spec fn signed(v: u8) -> int {
    if v < 0x80 {
        v as int
    } else {
        v - 0x100
    }
}

impl StatusRegister {
    pub fn new() -> (r: Self)
        ensures
            r == (StatusRegister {
                negative: false,
                overflow: false,
                brk_command: false,
                decimal_mode: false,
                irq_disable: false,
                zero: false,
                carry: false,
            }),
    {
        StatusRegister {
            negative: false,
            overflow: false,
            brk_command: false,
            decimal_mode: false,
            irq_disable: false,
            zero: false,
            carry: false,
        }
    }

    /// The flags after comparing `register` with `memory`: carry where the
    /// register is not below, zero where the two are equal, negative from bit
    /// 7 of the difference.
    pub open spec fn spec_compare(self, register: u8, memory: u8) -> Self {
        StatusRegister {
            negative: (register - memory) % 0x100 >= 0x80,
            zero: register == memory,
            carry: register >= memory,
            ..self
        }
    }

    pub fn compare(&mut self, register: u8, memory: u8)
        ensures
            *final(self) == old(self).spec_compare(register, memory),
    {
        let difference = register.wrapping_sub(memory);
        proof {
            lemma_mask_is_bit(difference);
        }
        self.negative = difference & 0x80 != 0;
        self.zero = register == memory;
        self.carry = register >= memory;
    }

    /// The flags packed into one byte: N V 1 B D I Z C from bit 7 down.
    pub open spec fn spec_to_byte(self) -> u8 {
        (0x20 + flag_weight(self.negative, 0x80) + flag_weight(self.overflow, 0x40) + flag_weight(
            self.brk_command,
            0x10,
        ) + flag_weight(self.decimal_mode, 0x08) + flag_weight(self.irq_disable, 0x04)
            + flag_weight(self.zero, 0x02) + flag_weight(self.carry, 0x01)) as u8
    }

    pub fn to_byte(&self) -> (byte: u8)
        ensures
            byte == self.spec_to_byte(),
    {
        let mut byte = STATUS_UNUSED;
        if self.negative {
            byte += STATUS_NEGATIVE;
        }
        if self.overflow {
            byte += STATUS_OVERFLOW;
        }
        if self.brk_command {
            byte += STATUS_BRK;
        }
        if self.decimal_mode {
            byte += STATUS_DECIMAL;
        }
        if self.irq_disable {
            byte += STATUS_IRQ_DISABLE;
        }
        if self.zero {
            byte += STATUS_ZERO;
        }
        if self.carry {
            byte += STATUS_CARRY;
        }
        byte
    }

    /// The flags that a packed status byte holds; bit 5 is ignored.
    pub open spec fn spec_from_byte(byte: u8) -> Self {
        StatusRegister {
            negative: bit(byte, 7),
            overflow: bit(byte, 6),
            brk_command: bit(byte, 4),
            decimal_mode: bit(byte, 3),
            irq_disable: bit(byte, 2),
            zero: bit(byte, 1),
            carry: bit(byte, 0),
        }
    }

    pub fn from_byte(byte: u8) -> (status: Self)
        ensures
            status == Self::spec_from_byte(byte),
    {
        proof {
            lemma_mask_is_bit(byte);
        }
        let mut status = Self::new();
        if byte & STATUS_CARRY != 0 {
            status.carry = true;
        }
        if byte & STATUS_ZERO != 0 {
            status.zero = true;
        }
        if byte & STATUS_IRQ_DISABLE != 0 {
            status.irq_disable = true;
        }
        if byte & STATUS_DECIMAL != 0 {
            status.decimal_mode = true;
        }
        if byte & STATUS_BRK != 0 {
            status.brk_command = true;
        }
        if byte & STATUS_OVERFLOW != 0 {
            status.overflow = true;
        }
        if byte & STATUS_NEGATIVE != 0 {
            status.negative = true;
        }
        status
    }
}

/// How a flag is shown: by its letter where it is set, by a dash where it is
/// clear.
pub open spec fn spec_flag_text(flag: bool, letter: &str) -> Seq<u8> {
    if flag {
        letter.spec_bytes()
    } else {
        "- ".spec_bytes()
    }
}

fn push_flag(out: &mut Vec<u8>, flag: bool, letter: &str)
    ensures
        final(out)@ == old(out)@ + spec_flag_text(flag, letter),
{
    if flag {
        push_str(out, letter);
    } else {
        push_str(out, "- ");
    }
}

impl StatusRegister {
    /// The flags as text: `N V _ B D I Z C`, each followed by a blank, with a
    /// dash in place of each flag that is clear.
    pub open spec fn spec_text(self) -> Seq<u8> {
        spec_flag_text(self.negative, "N ") + spec_flag_text(self.overflow, "V ")
            + "_ ".spec_bytes() + spec_flag_text(self.brk_command, "B ") + spec_flag_text(
            self.decimal_mode,
            "D ",
        ) + spec_flag_text(self.irq_disable, "I ") + spec_flag_text(self.zero, "Z ")
            + spec_flag_text(self.carry, "C ")
    }

    fn push_text(&self, out: &mut Vec<u8>)
        ensures
            final(out)@ == old(out)@ + self.spec_text(),
    {
        let ghost start = out@;
        push_flag(out, self.negative, "N ");
        let ghost text = spec_flag_text(self.negative, "N ");
        push_flag(out, self.overflow, "V ");
        proof {
            lemma_append(start, text, spec_flag_text(self.overflow, "V "));
            text = text + spec_flag_text(self.overflow, "V ");
        }
        push_str(out, "_ ");
        proof {
            lemma_append(start, text, "_ ".spec_bytes());
            text = text + "_ ".spec_bytes();
        }
        push_flag(out, self.brk_command, "B ");
        proof {
            lemma_append(start, text, spec_flag_text(self.brk_command, "B "));
            text = text + spec_flag_text(self.brk_command, "B ");
        }
        push_flag(out, self.decimal_mode, "D ");
        proof {
            lemma_append(start, text, spec_flag_text(self.decimal_mode, "D "));
            text = text + spec_flag_text(self.decimal_mode, "D ");
        }
        push_flag(out, self.irq_disable, "I ");
        proof {
            lemma_append(start, text, spec_flag_text(self.irq_disable, "I "));
            text = text + spec_flag_text(self.irq_disable, "I ");
        }
        push_flag(out, self.zero, "Z ");
        proof {
            lemma_append(start, text, spec_flag_text(self.zero, "Z "));
            text = text + spec_flag_text(self.zero, "Z ");
        }
        push_flag(out, self.carry, "C ");
        proof {
            lemma_append(start, text, spec_flag_text(self.carry, "C "));
        }
    }

    /// The flags as ASCII text.
    pub fn text(&self) -> (out: Vec<u8>)
        ensures
            out@ == self.spec_text(),
    {
        let mut out: Vec<u8> = Vec::new();
        self.push_text(&mut out);
        assert(out@ =~= self.spec_text());
        out
    }
}

/// Packing the flags and unpacking the byte gives the flags back.
pub proof fn lemma_status_round_trip(status: StatusRegister)
    ensures
        StatusRegister::spec_from_byte(status.spec_to_byte()) == status,
{
}

/// The result of a shift or rotate, and the bit that left the byte.
pub struct Shifted {
    pub value: u8,
    pub carry: bool,
}

/// Arithmetic shift left: bit 7 leaves, a zero enters at bit 0.
pub open spec fn spec_asl(value: u8) -> Shifted {
    Shifted { value: ((value * 2) % 0x100) as u8, carry: value >= 0x80 }
}

/// Logical shift right: bit 0 leaves, a zero enters at bit 7.
pub open spec fn spec_lsr(value: u8) -> Shifted {
    Shifted { value: value / 2, carry: value % 2 == 1 }
}

/// Rotate left: bit 7 leaves, the incoming carry enters at bit 0.
pub open spec fn spec_rol(value: u8, carry: bool) -> Shifted {
    Shifted { value: ((value * 2) % 0x100 + flag_weight(carry, 1)) as u8, carry: value >= 0x80 }
}

/// Rotate right: bit 0 leaves, the incoming carry enters at bit 7.
pub open spec fn spec_ror(value: u8, carry: bool) -> Shifted {
    Shifted { value: (value / 2 + flag_weight(carry, 0x80)) as u8, carry: value % 2 == 1 }
}

/// What `instruction`, a shift or rotate, makes of `value` with the incoming
/// `carry`.
pub open spec fn spec_shift(instruction: Instruction, value: u8, carry: bool) -> Shifted {
    match instruction {
        Instruction::ASL(_) => spec_asl(value),
        Instruction::LSR(_) => spec_lsr(value),
        Instruction::ROL(_) => spec_rol(value, carry),
        _ => spec_ror(value, carry),
    }
}

fn shift(instruction: Instruction, value: u8, carry: bool) -> (r: Shifted)
    requires
        instruction is ASL || instruction is LSR || instruction is ROL || instruction is ROR,
    ensures
        r == spec_shift(instruction, value, carry),
{
    proof {
        lemma_mask_is_bit(value);
        lemma_shift_is_arithmetic(value);
    }
    match instruction {
        Instruction::ASL(_) => Shifted { value: value << 1, carry: value & 0x80 != 0 },
        Instruction::LSR(_) => Shifted { value: value >> 1, carry: value & 0x01 != 0 },
        Instruction::ROL(_) => {
            let mut shifted = value << 1;
            if carry {
                shifted |= 0x01;
            }
            Shifted { value: shifted, carry: value & 0x80 != 0 }
        },
        _ => {
            let mut shifted = value >> 1;
            if carry {
                shifted |= 0x80;
            }
            Shifted { value: shifted, carry: value & 0x01 != 0 }
        },
    }
}

/// The registers of the processor.
#[derive(Debug, Clone, Copy, PartialEq, Eq)]
pub struct RegisterFile {
    pub accumulator: u8,
    pub x_index: u8,
    pub y_index: u8,
    pub stack_pointer: u8,
    pub program_counter: u16,
    pub status: StatusRegister,
}

impl RegisterFile {
    pub fn new() -> (r: Self)
        ensures
            r == (RegisterFile {
                accumulator: 0,
                x_index: 0,
                y_index: 0,
                stack_pointer: 0,
                program_counter: 0,
                status: StatusRegister {
                    negative: false,
                    overflow: false,
                    brk_command: false,
                    decimal_mode: false,
                    irq_disable: false,
                    zero: false,
                    carry: false,
                },
            }),
    {
        RegisterFile {
            accumulator: 0,
            x_index: 0,
            y_index: 0,
            stack_pointer: 0,
            program_counter: 0,
            status: StatusRegister::new(),
        }
    }

    /// The registers as text: each on a tab stop, in hexadecimal, the status
    /// last.
    pub open spec fn spec_text(self) -> Seq<u8> {
        "\tPC:     0x".spec_bytes() + spec_hex_short(self.program_counter)
            + "\tSP:     0x".spec_bytes() + spec_hex_byte(self.stack_pointer)
            + "\tACC:    0x".spec_bytes() + spec_hex_byte(self.accumulator)
            + "\tX:      0x".spec_bytes() + spec_hex_byte(self.x_index)
            + "\tY:      0x".spec_bytes() + spec_hex_byte(self.y_index)
            + "\tStatus: ".spec_bytes() + self.status.spec_text()
    }

    /// The registers as ASCII text.
    pub fn text(&self) -> (out: Vec<u8>)
        ensures
            out@ == self.spec_text(),
    {
        let mut out: Vec<u8> = Vec::new();
        push_str(&mut out, "\tPC:     0x");
        push_hex_short(&mut out, self.program_counter);
        push_str(&mut out, "\tSP:     0x");
        push_hex_byte(&mut out, self.stack_pointer);
        push_str(&mut out, "\tACC:    0x");
        push_hex_byte(&mut out, self.accumulator);
        push_str(&mut out, "\tX:      0x");
        push_hex_byte(&mut out, self.x_index);
        push_str(&mut out, "\tY:      0x");
        push_hex_byte(&mut out, self.y_index);
        push_str(&mut out, "\tStatus: ");
        self.status.push_text(&mut out);
        assert(out@ =~= self.spec_text());
        out
    }

    /// The registers with N and Z set from `data`: N is bit 7 of `data`, Z says
    /// that `data` is zero.
    pub open spec fn spec_set_arithmetic_flags(self, data: u8) -> Self {
        RegisterFile {
            status: StatusRegister { negative: data >= 0x80, zero: data == 0, ..self.status },
            ..self
        }
    }

    pub fn set_arithmetic_flags(&mut self, data: u8)
        ensures
            *final(self) == old(self).spec_set_arithmetic_flags(data),
            final(self).status.zero <==> data == 0,
            final(self).status.negative <==> bit(data, 7),
    {
        proof {
            lemma_mask_is_bit(data);
        }
        self.status.negative = data & 0x80 != 0;
        self.status.zero = data == 0;
    }

    pub fn set_arithmetic_flags_accumulator(&mut self)
        ensures
            *final(self) == old(self).spec_set_arithmetic_flags(old(self).accumulator),
    {
        let accumulator = self.accumulator;
        self.set_arithmetic_flags(accumulator);
    }

    pub fn set_arithmetic_flags_x_index(&mut self)
        ensures
            *final(self) == old(self).spec_set_arithmetic_flags(old(self).x_index),
    {
        let x_index = self.x_index;
        self.set_arithmetic_flags(x_index);
    }

    pub fn set_arithmetic_flags_y_index(&mut self)
        ensures
            *final(self) == old(self).spec_set_arithmetic_flags(old(self).y_index),
    {
        let y_index = self.y_index;
        self.set_arithmetic_flags(y_index);
    }

    /// The registers with `data` in the accumulator and N, Z set from it.
    pub open spec fn spec_load_accumulator(self, data: u8) -> Self {
        RegisterFile { accumulator: data, ..self }.spec_set_arithmetic_flags(data)
    }

    /// The registers with `data` in X and N, Z set from it.
    pub open spec fn spec_load_x_index(self, data: u8) -> Self {
        RegisterFile { x_index: data, ..self }.spec_set_arithmetic_flags(data)
    }

    /// The registers with `data` in Y and N, Z set from it.
    pub open spec fn spec_load_y_index(self, data: u8) -> Self {
        RegisterFile { y_index: data, ..self }.spec_set_arithmetic_flags(data)
    }

    /// Add with carry: the accumulator takes `A + M + C` modulo 256, C is the
    /// carry out of bit 7, V says that the operands agree in sign and the sum
    /// does not. Decimal mode is ignored.
    pub open spec fn spec_adc(self, operand: u8) -> Self {
        let sum = self.accumulator + operand + flag_weight(self.status.carry, 1);
        let result = (sum % 0x100) as u8;
        RegisterFile {
            status: StatusRegister {
                carry: sum >= 0x100,
                overflow: (self.accumulator >= 0x80) == (operand >= 0x80) && (result >= 0x80) != (
                self.accumulator >= 0x80),
                ..self.status
            },
            ..self
        }.spec_load_accumulator(result)
    }

    fn adc(&mut self, operand: u8)
        ensures
            *final(self) == old(self).spec_adc(operand),
    {
        let accumulator = self.accumulator;
        let carry_in: u16 = if self.status.carry {
            1
        } else {
            0
        };
        let sum: u16 = accumulator as u16 + operand as u16 + carry_in;
        let result: u8 = (sum % 0x100) as u8;
        assert(((accumulator ^ result) & (operand ^ result) & 0x80 != 0) == ((accumulator >= 0x80)
            == (operand >= 0x80) && (result >= 0x80) != (accumulator >= 0x80))) by (bit_vector);
        self.status.overflow = (accumulator ^ result) & (operand ^ result) & 0x80 != 0;
        self.status.carry = sum > 0xff;
        self.accumulator = result;
        self.set_arithmetic_flags_accumulator();
    }

    /// Subtract with borrow: add with carry of the operand with every bit
    /// inverted.
    pub open spec fn spec_sbc(self, operand: u8) -> Self {
        self.spec_adc((0xff - operand) as u8)
    }

    fn sbc(&mut self, operand: u8)
        ensures
            *final(self) == old(self).spec_sbc(operand),
    {
        assert(!operand == 0xff - operand) by (bit_vector);
        self.adc(!operand);
    }

    /// The bit test: Z says that `A & M` is zero, N and V are bits 7 and 6 of
    /// the operand.
    pub open spec fn spec_bit_test(self, operand: u8) -> Self {
        RegisterFile {
            status: StatusRegister {
                zero: self.accumulator & operand == 0,
                negative: bit(operand, 7),
                overflow: bit(operand, 6),
                ..self.status
            },
            ..self
        }
    }

    /// What an instruction that reads one operand makes of the registers.
    pub open spec fn spec_apply_operand(self, instruction: Instruction, operand: u8) -> Self {
        match instruction {
            Instruction::LDA(_) => self.spec_load_accumulator(operand),
            Instruction::LDX(_) => self.spec_load_x_index(operand),
            Instruction::LDY(_) => self.spec_load_y_index(operand),
            Instruction::AND(_) => self.spec_load_accumulator(self.accumulator & operand),
            Instruction::ORA(_) => self.spec_load_accumulator(self.accumulator | operand),
            Instruction::EOR(_) => self.spec_load_accumulator(self.accumulator ^ operand),
            Instruction::CMP(_) => RegisterFile {
                status: self.status.spec_compare(self.accumulator, operand),
                ..self
            },
            Instruction::CPX(_) => RegisterFile {
                status: self.status.spec_compare(self.x_index, operand),
                ..self
            },
            Instruction::CPY(_) => RegisterFile {
                status: self.status.spec_compare(self.y_index, operand),
                ..self
            },
            Instruction::BIT(_) => self.spec_bit_test(operand),
            Instruction::ADC(_) => self.spec_adc(operand),
            Instruction::SBC(_) => self.spec_sbc(operand),
            _ => self,
        }
    }

    fn apply_operand(&mut self, instruction: Instruction, operand: u8)
        ensures
            *final(self) == old(self).spec_apply_operand(instruction, operand),
    {
        match instruction {
            Instruction::LDA(_) => {
                self.accumulator = operand;
                self.set_arithmetic_flags_accumulator();
            },
            Instruction::LDX(_) => {
                self.x_index = operand;
                self.set_arithmetic_flags_x_index();
            },
            Instruction::LDY(_) => {
                self.y_index = operand;
                self.set_arithmetic_flags_y_index();
            },
            Instruction::AND(_) => {
                self.accumulator &= operand;
                self.set_arithmetic_flags_accumulator();
            },
            Instruction::ORA(_) => {
                self.accumulator |= operand;
                self.set_arithmetic_flags_accumulator();
            },
            Instruction::EOR(_) => {
                self.accumulator ^= operand;
                self.set_arithmetic_flags_accumulator();
            },
            Instruction::CMP(_) => {
                let accumulator = self.accumulator;
                self.status.compare(accumulator, operand);
            },
            Instruction::CPX(_) => {
                let x_index = self.x_index;
                self.status.compare(x_index, operand);
            },
            Instruction::CPY(_) => {
                let y_index = self.y_index;
                self.status.compare(y_index, operand);
            },
            Instruction::BIT(_) => {
                proof {
                    lemma_mask_is_bit(operand);
                }
                let and = self.accumulator & operand;
                self.status.zero = and == 0;
                self.status.negative = operand & 0x80 != 0;
                self.status.overflow = operand & 0x40 != 0;
            },
            Instruction::ADC(_) => {
                self.adc(operand);
            },
            Instruction::SBC(_) => {
                self.sbc(operand);
            },
            _ => {},
        }
    }

    /// The registers after `instruction`, a shift or rotate, has worked on the
    /// accumulator: C is the bit that left, N and Z follow the result.
    pub open spec fn spec_shift_accumulator(self, instruction: Instruction) -> Self {
        let shifted = spec_shift(instruction, self.accumulator, self.status.carry);
        RegisterFile {
            status: StatusRegister { carry: shifted.carry, ..self.status },
            ..self
        }.spec_load_accumulator(shifted.value)
    }

    fn shift_accumulator(&mut self, instruction: Instruction)
        requires
            instruction is ASL || instruction is LSR || instruction is ROL || instruction is ROR,
        ensures
            *final(self) == old(self).spec_shift_accumulator(instruction),
    {
        let shifted = shift(instruction, self.accumulator, self.status.carry);
        self.status.carry = shifted.carry;
        self.accumulator = shifted.value;
        self.set_arithmetic_flags_accumulator();
    }

    /// What an instruction without operand makes of the registers: flag
    /// changes, transfers, and counting in X and Y.
    pub open spec fn spec_apply_implied(self, instruction: Instruction) -> Self {
        match instruction {
            Instruction::SEI => RegisterFile {
                status: StatusRegister { irq_disable: true, ..self.status },
                ..self
            },
            Instruction::CLI => RegisterFile {
                status: StatusRegister { irq_disable: false, ..self.status },
                ..self
            },
            Instruction::SED => RegisterFile {
                status: StatusRegister { decimal_mode: true, ..self.status },
                ..self
            },
            Instruction::CLD => RegisterFile {
                status: StatusRegister { decimal_mode: false, ..self.status },
                ..self
            },
            Instruction::CLC => RegisterFile {
                status: StatusRegister { carry: false, ..self.status },
                ..self
            },
            Instruction::SEC => RegisterFile {
                status: StatusRegister { carry: true, ..self.status },
                ..self
            },
            Instruction::TXS => RegisterFile { stack_pointer: self.x_index, ..self },
            Instruction::TXA => self.spec_load_accumulator(self.x_index),
            Instruction::TYA => self.spec_load_accumulator(self.y_index),
            Instruction::TAX => self.spec_load_x_index(self.accumulator),
            Instruction::TAY => self.spec_load_y_index(self.accumulator),
            Instruction::DEX => self.spec_load_x_index(decrement(self.x_index)),
            Instruction::INX => self.spec_load_x_index(increment(self.x_index)),
            Instruction::DEY => self.spec_load_y_index(decrement(self.y_index)),
            Instruction::INY => self.spec_load_y_index(increment(self.y_index)),
            _ => self,
        }
    }

    fn apply_implied(&mut self, instruction: Instruction)
        ensures
            *final(self) == old(self).spec_apply_implied(instruction),
    {
        match instruction {
            Instruction::SEI => {
                self.status.irq_disable = true;
            },
            Instruction::CLI => {
                self.status.irq_disable = false;
            },
            Instruction::SED => {
                self.status.decimal_mode = true;
            },
            Instruction::CLD => {
                self.status.decimal_mode = false;
            },
            Instruction::CLC => {
                self.status.carry = false;
            },
            Instruction::SEC => {
                self.status.carry = true;
            },
            Instruction::TXS => {
                self.stack_pointer = self.x_index;
            },
            Instruction::TXA => {
                self.accumulator = self.x_index;
                self.set_arithmetic_flags_accumulator();
            },
            Instruction::TYA => {
                self.accumulator = self.y_index;
                self.set_arithmetic_flags_accumulator();
            },
            Instruction::TAX => {
                self.x_index = self.accumulator;
                self.set_arithmetic_flags_x_index();
            },
            Instruction::TAY => {
                self.y_index = self.accumulator;
                self.set_arithmetic_flags_y_index();
            },
            Instruction::DEX => {
                self.x_index = self.x_index.wrapping_sub(1);
                self.set_arithmetic_flags_x_index();
            },
            Instruction::INX => {
                self.x_index = self.x_index.wrapping_add(1);
                self.set_arithmetic_flags_x_index();
            },
            Instruction::DEY => {
                self.y_index = self.y_index.wrapping_sub(1);
                self.set_arithmetic_flags_y_index();
            },
            Instruction::INY => {
                self.y_index = self.y_index.wrapping_add(1);
                self.set_arithmetic_flags_y_index();
            },
            _ => {},
        }
    }

    /// The program counter after a taken branch: the offset is a signed byte.
    pub open spec fn spec_branch_target(program_counter: u16, offset: u8) -> u16 {
        wrap16(program_counter + signed(offset))
    }

    /// Whether `instruction`, a conditional branch, is taken with these flags.
    pub open spec fn spec_branch_taken(self, instruction: Instruction) -> bool {
        match instruction {
            Instruction::BPL => !self.status.negative,
            Instruction::BMI => self.status.negative,
            Instruction::BVC => !self.status.overflow,
            Instruction::BVS => self.status.overflow,
            Instruction::BCC => !self.status.carry,
            Instruction::BCS => self.status.carry,
            Instruction::BNE => !self.status.zero,
            Instruction::BEQ => self.status.zero,
            _ => false,
        }
    }

    fn branch_taken(&self, instruction: Instruction) -> (taken: bool)
        ensures
            taken == self.spec_branch_taken(instruction),
    {
        match instruction {
            Instruction::BPL => !self.status.negative,
            Instruction::BMI => self.status.negative,
            Instruction::BVC => !self.status.overflow,
            Instruction::BVS => self.status.overflow,
            Instruction::BCC => !self.status.carry,
            Instruction::BCS => self.status.carry,
            Instruction::BNE => !self.status.zero,
            Instruction::BEQ => self.status.zero,
            _ => false,
        }
    }
}

/// Subtract with borrow computes `A - M - (1 - C)` modulo 256 and leaves the
/// carry set exactly when no borrow was needed.
pub proof fn lemma_sbc_is_subtraction(registers: RegisterFile, operand: u8)
    ensures
        registers.spec_sbc(operand).accumulator == (registers.accumulator - operand - (1
            - flag_weight(registers.status.carry, 1))) % 0x100,
        registers.spec_sbc(operand).status.carry <==> registers.accumulator - operand - (1
            - flag_weight(registers.status.carry, 1)) >= 0,
{
}

/// Whether an interrupt waits to be served.
#[derive(Debug, Clone, Copy, PartialEq, Eq)]
pub struct InterruptState {
    pub nmi: bool,
}

impl InterruptState {
    pub fn new() -> (r: Self)
        ensures
            !r.nmi,
    {
        InterruptState { nmi: false }
    }
}


/// The processor: its registers, the interrupt that may wait, and the number
/// of instructions carried out so far.
#[derive(Debug, Clone, Copy, PartialEq, Eq)]
pub struct Cpu {
    pub registers: RegisterFile,
    pub interrupts: InterruptState,
    pub count: u64,
}

pub const RESET_VECTOR: Address = 0xfffc;

pub const NMI_VECTOR: Address = 0xfffa;

pub const STACK_PAGE_BOTTOM: Address = 0x0100;

/// How a step of the processor ends: what it returns, and the processor and
/// the memory as it leaves them. A step that fails keeps what it changed
/// before the failure.
pub struct Step<T, S> {
    pub value: Result<T>,
    pub cpu: Cpu,
    pub memory: S,
}

/// The bus's answer as the processor passes it on.
pub open spec fn spec_memory_result<T>(r: addressable::Result<T>) -> Result<T> {
    match r {
        Ok(v) => Ok(v),
        Err(e) => Err(Error::MemoryError(e)),
    }
}

fn memory_result<T>(r: addressable::Result<T>) -> (out: Result<T>)
    ensures
        out == spec_memory_result(r),
{
    match r {
        Ok(v) => Ok(v),
        Err(e) => Err(Error::MemoryError(e)),
    }
}

/// The step that fails with the error of `step`, in the state that `step`
/// left.
pub open spec fn spec_failed<T, U, S>(step: Step<T, S>) -> Step<U, S> {
    Step { value: Err(step.value->Err_0), cpu: step.cpu, memory: step.memory }
}

/// `v` modulo 65536, for a value that is less than 65536 away from the range
/// of a word.
pub open spec fn wrap16(v: int) -> u16 {
    if v < 0 {
        (v + 0x10000) as u16
    } else if v >= 0x10000 {
        (v - 0x10000) as u16
    } else {
        v as u16
    }
}

/// The address `base + index` within the zero page: the sum modulo 256.
pub open spec fn zero_page_indexed(base: u8, index: u8) -> Address {
    if base + index >= 0x100 {
        (base + index - 0x100) as u16
    } else {
        (base + index) as u16
    }
}

/// The address `base + index`, wrapping at 16 bits: the sum modulo 65536.
pub open spec fn absolute_indexed(base: u16, index: u8) -> Address {
    wrap16(base + index)
}

/// The address of the stack slot that the stack pointer names.
pub open spec fn stack_address(stack_pointer: u8) -> Address {
    (0x0100 + stack_pointer) as u16
}

/// The value that a read-modify-write instruction writes back, and the carry
/// flag after it: counting leaves the carry alone, a shift or rotate puts the
/// bit that left the byte there.
pub open spec fn spec_modified(instruction: Instruction, value: u8, carry: bool) -> Shifted {
    match instruction {
        Instruction::DEC(_) => Shifted { value: decrement(value), carry },
        Instruction::INC(_) => Shifted { value: increment(value), carry },
        _ => spec_shift(instruction, value, carry),
    }
}

fn modified(instruction: Instruction, value: u8, carry: bool) -> (r: Shifted)
    requires
        instruction is DEC || instruction is INC || instruction is ASL || instruction is LSR
            || instruction is ROL || instruction is ROR,
    ensures
        r == spec_modified(instruction, value, carry),
{
    match instruction {
        Instruction::DEC(_) => Shifted { value: value.wrapping_sub(1), carry },
        Instruction::INC(_) => Shifted { value: value.wrapping_add(1), carry },
        _ => shift(instruction, value, carry),
    }
}

impl Cpu {
    /// The processor before reset: every register zero, no interrupt waiting.
    pub open spec fn spec_new() -> Self {
        Cpu {
            registers: RegisterFile {
                accumulator: 0,
                x_index: 0,
                y_index: 0,
                stack_pointer: 0,
                program_counter: 0,
                status: StatusRegister {
                    negative: false,
                    overflow: false,
                    brk_command: false,
                    decimal_mode: false,
                    irq_disable: false,
                    zero: false,
                    carry: false,
                },
            },
            interrupts: InterruptState { nmi: false },
            count: 0,
        }
    }

    pub fn new() -> (r: Self)
        ensures
            r == Self::spec_new(),
    {
        Cpu { registers: RegisterFile::new(), interrupts: InterruptState::new(), count: 0 }
    }

    /// The processor with other registers.
    pub open spec fn with_registers(self, registers: RegisterFile) -> Self {
        Cpu { registers, ..self }
    }

    /// The processor with the program counter at `program_counter`.
    pub open spec fn with_program_counter(self, program_counter: u16) -> Self {
        self.with_registers(RegisterFile { program_counter, ..self.registers })
    }

    /// The processor with the stack pointer at `stack_pointer`.
    pub open spec fn with_stack_pointer(self, stack_pointer: u8) -> Self {
        self.with_registers(RegisterFile { stack_pointer, ..self.registers })
    }

    /// The step that succeeds with `value` and leaves this processor and
    /// `memory`.
    pub open spec fn spec_done<T, S>(self, value: T, memory: S) -> Step<T, S> {
        Step { value: Ok(value), cpu: self, memory }
    }

    /// Reset: the program counter is loaded from the reset vector.
    pub open spec fn spec_init<M: Addressable>(self, memory: M::V) -> Step<(), M::V> {
        let read = spec_read16_le::<M>(memory, RESET_VECTOR);
        match read.0 {
            Ok(address) => self.with_program_counter(address).spec_done((), read.1),
            Err(e) => Step { value: Err(Error::MemoryError(e)), cpu: self, memory: read.1 },
        }
    }

    pub fn init<Memory: Addressable>(&mut self, memory: &mut Memory) -> (r: Result<()>)
        ensures
            (Step { value: r, cpu: *final(self), memory: final(memory)@ }) == old(
                self,
            ).spec_init::<Memory>(old(memory)@),
    {
        let address = memory_result(read16_le(memory, RESET_VECTOR))?;
        self.registers.program_counter = address;
        Ok(())
    }

    /// One tick: a waiting NMI is entered first, then one instruction is
    /// fetched, decoded and carried out, and counted.
    pub open spec fn spec_tick<M: Addressable>(self, memory: M::V) -> Step<(), M::V> {
        let entered = if self.interrupts.nmi {
            self.spec_nmi::<M>(memory)
        } else {
            self.spec_done((), memory)
        };
        if entered.value is Err {
            entered
        } else {
            let fetched = entered.cpu.spec_fetch8::<M>(entered.memory);
            match fetched.value {
                Err(e) => spec_failed(fetched),
                Ok(opcode) => match Instruction::spec_decode(opcode) {
                    Err(e) => Step {
                        value: Err(Error::InstructionError(e)),
                        cpu: fetched.cpu,
                        memory: fetched.memory,
                    },
                    Ok(instruction) => {
                        let executed = fetched.cpu.spec_emulate_instruction::<M>(
                            fetched.memory,
                            instruction,
                        );
                        if executed.value is Err {
                            executed
                        } else {
                            Step {
                                value: Ok(()),
                                cpu: Cpu {
                                    count: if executed.cpu.count == u64::MAX {
                                        0
                                    } else {
                                        (executed.cpu.count + 1) as u64
                                    },
                                    ..executed.cpu
                                },
                                memory: executed.memory,
                            }
                        }
                    },
                },
            }
        }
    }

    pub fn tick<Memory: Addressable>(&mut self, memory: &mut Memory) -> (r: Result<()>)
        ensures
            (Step { value: r, cpu: *final(self), memory: final(memory)@ }) == old(
                self,
            ).spec_tick::<Memory>(old(memory)@),
    {
        if self.interrupts.nmi {
            self.nmi(memory)?;
        }
        let opcode = self.fetch8(memory)?;
        let instruction = Self::decode_instruction(opcode)?;
        self.emulate_instruction(instruction, memory)?;
        self.count = self.count.wrapping_add(1);
        Ok(())
    }

    /// What every interrupt does first: the program counter is pushed, high
    /// byte first, then the packed status.
    pub open spec fn spec_interrupt_common<M: Addressable>(self, memory: M::V) -> Step<(), M::V> {
        let pushed = self.spec_push16_le::<M>(memory, self.registers.program_counter);
        if pushed.value is Err {
            pushed
        } else {
            pushed.cpu.spec_push8::<M>(pushed.memory, self.registers.status.spec_to_byte())
        }
    }

    /// Pushes the program counter and the status, as every interrupt does first.
    pub fn interrupt_common<Memory: Addressable>(&mut self, memory: &mut Memory) -> (r: Result<()>)
        ensures
            (Step { value: r, cpu: *final(self), memory: final(memory)@ }) == old(
                self,
            ).spec_interrupt_common::<Memory>(old(memory)@),
    {
        let pc = self.registers.program_counter;
        let status = self.registers.status.to_byte();
        self.push16_le(pc, memory)?;
        self.push8(status, memory)?;
        Ok(())
    }

    /// Entering the non-maskable interrupt: the waiting flag is cleared, the
    /// program counter and the status are pushed, and the program counter is
    /// loaded from the NMI vector.
    pub open spec fn spec_nmi<M: Addressable>(self, memory: M::V) -> Step<(), M::V> {
        let pushed = Cpu {
            interrupts: InterruptState { nmi: false },
            ..self
        }.spec_interrupt_common::<M>(memory);
        if pushed.value is Err {
            pushed
        } else {
            let read = spec_read16_le::<M>(pushed.memory, NMI_VECTOR);
            match read.0 {
                Ok(address) => pushed.cpu.with_program_counter(address).spec_done((), read.1),
                Err(e) => Step {
                    value: Err(Error::MemoryError(e)),
                    cpu: pushed.cpu,
                    memory: read.1,
                },
            }
        }
    }

    /// Enters the non-maskable interrupt.
    pub fn nmi<Memory: Addressable>(&mut self, memory: &mut Memory) -> (r: Result<()>)
        ensures
            (Step { value: r, cpu: *final(self), memory: final(memory)@ }) == old(
                self,
            ).spec_nmi::<Memory>(old(memory)@),
    {
        self.interrupts.nmi = false;
        self.interrupt_common(memory)?;
        let address = memory_result(read16_le(memory, NMI_VECTOR))?;
        self.registers.program_counter = address;
        Ok(())
    }

    /// Decodes an opcode for the processor.
    pub fn decode_instruction(opcode: u8) -> (r: Result<Instruction>)
        ensures
            r == match Instruction::spec_decode(opcode) {
                Ok(i) => Ok::<Instruction, Error>(i),
                Err(e) => Err(Error::InstructionError(e)),
            },
    {
        match Instruction::decode(opcode) {
            Ok(i) => Ok(i),
            Err(e) => Err(Error::InstructionError(e)),
        }
    }

    /// Fetching a byte: the byte at the program counter, which then moves on
    /// by one.
    pub open spec fn spec_fetch8<M: Addressable>(self, memory: M::V) -> Step<u8, M::V> {
        let read = M::spec_read8(memory, self.registers.program_counter);
        match read.0 {
            Ok(data) => self.with_program_counter(
                absolute_indexed(self.registers.program_counter, 1),
            ).spec_done(data, read.1),
            Err(e) => Step { value: Err(Error::MemoryError(e)), cpu: self, memory: read.1 },
        }
    }

    /// Fetches the byte at the program counter.
    pub fn fetch8<Memory: Addressable>(&mut self, memory: &mut Memory) -> (r: Result<u8>)
        ensures
            (Step { value: r, cpu: *final(self), memory: final(memory)@ }) == old(
                self,
            ).spec_fetch8::<Memory>(old(memory)@),
    {
        let pc = self.registers.program_counter;
        let opcode = memory_result(memory.read8(pc))?;
        self.registers.program_counter = pc.wrapping_add(1);
        Ok(opcode)
    }

    /// Fetching a word: the little-endian word at the program counter, which
    /// then moves on by two.
    pub open spec fn spec_fetch16_le<M: Addressable>(self, memory: M::V) -> Step<u16, M::V> {
        let read = spec_read16_le::<M>(memory, self.registers.program_counter);
        match read.0 {
            Ok(data) => self.with_program_counter(
                absolute_indexed(self.registers.program_counter, 2),
            ).spec_done(data, read.1),
            Err(e) => Step { value: Err(Error::MemoryError(e)), cpu: self, memory: read.1 },
        }
    }

    /// Fetches the little-endian word at the program counter.
    pub fn fetch16_le<Memory: Addressable>(&mut self, memory: &mut Memory) -> (r: Result<u16>)
        ensures
            (Step { value: r, cpu: *final(self), memory: final(memory)@ }) == old(
                self,
            ).spec_fetch16_le::<Memory>(old(memory)@),
    {
        let pc = self.registers.program_counter;
        let opcode = memory_result(read16_le(memory, pc))?;
        self.registers.program_counter = pc.wrapping_add(2);
        Ok(opcode)
    }

    /// The operand of an instruction: the fetched byte itself in immediate
    /// mode, else the byte at the effective address.
    pub open spec fn spec_addressing_mode_load<M: Addressable>(
        self,
        memory: M::V,
        mode: MemoryAddressingMode,
    ) -> Step<u8, M::V> {
        match mode {
            MemoryAddressingMode::Immediate => self.spec_fetch8::<M>(memory),
            _ => {
                let found = self.spec_addressing_mode_address::<M>(memory, mode);
                match found.value {
                    Err(e) => spec_failed(found),
                    Ok(address) => {
                        let read = M::spec_read8(found.memory, address);
                        Step {
                            value: spec_memory_result(read.0),
                            cpu: found.cpu,
                            memory: read.1,
                        }
                    },
                }
            },
        }
    }

    /// Loads the operand that `mode` names.
    pub fn addressing_mode_load<Memory: Addressable>(
        &mut self,
        mode: MemoryAddressingMode,
        memory: &mut Memory,
    ) -> (r: Result<u8>)
        ensures
            (Step { value: r, cpu: *final(self), memory: final(memory)@ }) == old(
                self,
            ).spec_addressing_mode_load::<Memory>(old(memory)@, mode),
    {
        match mode {
            MemoryAddressingMode::Immediate => self.fetch8(memory),
            _ => {
                let address = self.addressing_mode_address(mode, memory)?;
                memory_result(memory.read8(address))
            },
        }
    }

    /// Storing `data` at the effective address.
    pub open spec fn spec_addressing_mode_store<M: Addressable>(
        self,
        memory: M::V,
        mode: MemoryAddressingMode,
        data: u8,
    ) -> Step<(), M::V> {
        let found = self.spec_addressing_mode_address::<M>(memory, mode);
        match found.value {
            Err(e) => spec_failed(found),
            Ok(address) => {
                let written = M::spec_write8(found.memory, address, data);
                Step { value: spec_memory_result(written.0), cpu: found.cpu, memory: written.1 }
            },
        }
    }

    /// Stores `data` where `mode` says.
    pub fn addressing_mode_store<Memory: Addressable>(
        &mut self,
        mode: MemoryAddressingMode,
        data: u8,
        memory: &mut Memory,
    ) -> (r: Result<()>)
        ensures
            (Step { value: r, cpu: *final(self), memory: final(memory)@ }) == old(
                self,
            ).spec_addressing_mode_store::<Memory>(old(memory)@, mode, data),
    {
        let address = self.addressing_mode_address(mode, memory)?;
        memory_result(memory.write8(address, data))
    }

    /// The step `fetched` with its byte taken as a zero-page address and
    /// `index` added within the zero page.
    pub open spec fn spec_zero_page<S>(fetched: Step<u8, S>, index: u8) -> Step<Address, S> {
        match fetched.value {
            Ok(base) => fetched.cpu.spec_done(zero_page_indexed(base, index), fetched.memory),
            Err(e) => spec_failed(fetched),
        }
    }

    /// The step `fetched` with `index` added to its word, wrapping at 16 bits.
    pub open spec fn spec_absolute<S>(fetched: Step<u16, S>, index: u8) -> Step<Address, S> {
        match fetched.value {
            Ok(base) => fetched.cpu.spec_done(absolute_indexed(base, index), fetched.memory),
            Err(e) => spec_failed(fetched),
        }
    }

    /// The step `found` followed by a read of the little-endian word at the
    /// address that it found.
    pub open spec fn spec_indirect<M: Addressable>(found: Step<Address, M::V>) -> Step<
        Address,
        M::V,
    > {
        match found.value {
            Ok(pointer) => {
                let read = spec_read16_le::<M>(found.memory, pointer);
                Step { value: spec_memory_result(read.0), cpu: found.cpu, memory: read.1 }
            },
            Err(e) => spec_failed(found),
        }
    }

    /// The effective address of an operand in memory.
    ///
    /// | mode | address |
    /// |---|---|
    /// | zero page | the fetched byte |
    /// | zero page, X or Y | the fetched byte plus the index, modulo 256 |
    /// | absolute | the fetched word |
    /// | absolute, X or Y | the fetched word plus the index, modulo 65536 |
    /// | (indirect, X) | the word at the fetched byte plus X, modulo 256 |
    /// | (indirect), Y | the word at the fetched byte, plus Y, modulo 65536 |
    ///
    /// Immediate mode names no address and is refused.
    pub open spec fn spec_addressing_mode_address<M: Addressable>(
        self,
        memory: M::V,
        mode: MemoryAddressingMode,
    ) -> Step<Address, M::V> {
        match mode {
            MemoryAddressingMode::ZeroPage => Self::spec_zero_page(
                self.spec_fetch8::<M>(memory),
                0,
            ),
            MemoryAddressingMode::ZeroPageXIndexed => Self::spec_zero_page(
                self.spec_fetch8::<M>(memory),
                self.registers.x_index,
            ),
            MemoryAddressingMode::ZeroPageYIndexed => Self::spec_zero_page(
                self.spec_fetch8::<M>(memory),
                self.registers.y_index,
            ),
            MemoryAddressingMode::Absolute => Self::spec_absolute(
                self.spec_fetch16_le::<M>(memory),
                0,
            ),
            MemoryAddressingMode::AbsoluteXIndexed => Self::spec_absolute(
                self.spec_fetch16_le::<M>(memory),
                self.registers.x_index,
            ),
            MemoryAddressingMode::AbsoluteYIndexed => Self::spec_absolute(
                self.spec_fetch16_le::<M>(memory),
                self.registers.y_index,
            ),
            MemoryAddressingMode::XIndexedIndirect => Self::spec_indirect::<M>(
                Self::spec_zero_page(self.spec_fetch8::<M>(memory), self.registers.x_index),
            ),
            MemoryAddressingMode::IndirectYIndexed => Self::spec_absolute(
                Self::spec_indirect::<M>(Self::spec_zero_page(self.spec_fetch8::<M>(memory), 0)),
                self.registers.y_index,
            ),
            MemoryAddressingMode::Immediate => Step {
                value: Err(Error::UnimplementedMemoryAddressingMode(mode)),
                cpu: self,
                memory,
            },
        }
    }

    fn zero_page_address<Memory: Addressable>(&mut self, index: u8, memory: &mut Memory) -> (r:
        Result<Address>)
        ensures
            (Step { value: r, cpu: *final(self), memory: final(memory)@ }) == Self::spec_zero_page(
                old(self).spec_fetch8::<Memory>(old(memory)@),
                index,
            ),
    {
        let base = self.fetch8(memory)?;
        Ok(base.wrapping_add(index) as u16)
    }

    fn absolute_address<Memory: Addressable>(&mut self, index: u8, memory: &mut Memory) -> (r:
        Result<Address>)
        ensures
            (Step { value: r, cpu: *final(self), memory: final(memory)@ }) == Self::spec_absolute(
                old(self).spec_fetch16_le::<Memory>(old(memory)@),
                index,
            ),
    {
        let base = self.fetch16_le(memory)?;
        Ok(base.wrapping_add(index as u16))
    }

    fn indirect_address<Memory: Addressable>(&mut self, index: u8, memory: &mut Memory) -> (r:
        Result<Address>)
        ensures
            (Step { value: r, cpu: *final(self), memory: final(memory)@ })
                == Self::spec_indirect::<Memory>(
                Self::spec_zero_page(old(self).spec_fetch8::<Memory>(old(memory)@), index),
            ),
    {
        let address_ptr = self.zero_page_address(index, memory)?;
        memory_result(read16_le(memory, address_ptr))
    }

    /// Computes the effective address that `mode` names.
    pub fn addressing_mode_address<Memory: Addressable>(
        &mut self,
        mode: MemoryAddressingMode,
        memory: &mut Memory,
    ) -> (r: Result<Address>)
        ensures
            (Step { value: r, cpu: *final(self), memory: final(memory)@ }) == old(
                self,
            ).spec_addressing_mode_address::<Memory>(old(memory)@, mode),
    {
        match mode {
            MemoryAddressingMode::ZeroPage => self.zero_page_address(0, memory),
            MemoryAddressingMode::Absolute => self.absolute_address(0, memory),
            MemoryAddressingMode::AbsoluteXIndexed => {
                let x_index = self.registers.x_index;
                self.absolute_address(x_index, memory)
            },
            MemoryAddressingMode::AbsoluteYIndexed => {
                let y_index = self.registers.y_index;
                self.absolute_address(y_index, memory)
            },
            MemoryAddressingMode::XIndexedIndirect => {
                let x_index = self.registers.x_index;
                self.indirect_address(x_index, memory)
            },
            MemoryAddressingMode::IndirectYIndexed => {
                let address = self.indirect_address(0, memory)?;
                Ok(address.wrapping_add(self.registers.y_index as u16))
            },
            MemoryAddressingMode::ZeroPageXIndexed => {
                let x_index = self.registers.x_index;
                self.zero_page_address(x_index, memory)
            },
            MemoryAddressingMode::ZeroPageYIndexed => {
                let y_index = self.registers.y_index;
                self.zero_page_address(y_index, memory)
            },
            MemoryAddressingMode::Immediate => Err(
                Error::UnimplementedMemoryAddressingMode(mode),
            ),
        }
    }

    /// An instruction that reads one operand: the operand is loaded, then
    /// the registers change.
    pub open spec fn spec_operand_instruction<M: Addressable>(
        self,
        memory: M::V,
        instruction: Instruction,
        mode: MemoryAddressingMode,
    ) -> Step<(), M::V> {
        let loaded = self.spec_addressing_mode_load::<M>(memory, mode);
        match loaded.value {
            Err(e) => spec_failed(loaded),
            Ok(operand) => loaded.cpu.with_registers(
                loaded.cpu.registers.spec_apply_operand(instruction, operand),
            ).spec_done((), loaded.memory),
        }
    }

    fn operand_instruction<Memory: Addressable>(
        &mut self,
        instruction: Instruction,
        mode: MemoryAddressingMode,
        memory: &mut Memory,
    ) -> (r: Result<()>)
        ensures
            (Step { value: r, cpu: *final(self), memory: final(memory)@ }) == old(
                self,
            ).spec_operand_instruction::<Memory>(old(memory)@, instruction, mode),
    {
        let operand = self.addressing_mode_load(mode, memory)?;
        self.registers.apply_operand(instruction, operand);
        Ok(())
    }

    /// An instruction that reads a byte in memory, changes it and writes it
    /// back: the carry changes before the write, N and Z follow the written
    /// value after it.
    pub open spec fn spec_modify_instruction<M: Addressable>(
        self,
        memory: M::V,
        instruction: Instruction,
        mode: MemoryAddressingMode,
    ) -> Step<(), M::V> {
        let found = self.spec_addressing_mode_address::<M>(memory, mode);
        match found.value {
            Err(e) => spec_failed(found),
            Ok(address) => {
                let read = M::spec_read8(found.memory, address);
                match read.0 {
                    Err(e) => Step {
                        value: Err(Error::MemoryError(e)),
                        cpu: found.cpu,
                        memory: read.1,
                    },
                    Ok(value) => {
                        let result = spec_modified(
                            instruction,
                            value,
                            found.cpu.registers.status.carry,
                        );
                        let carried = found.cpu.with_registers(
                            RegisterFile {
                                status: StatusRegister {
                                    carry: result.carry,
                                    ..found.cpu.registers.status
                                },
                                ..found.cpu.registers
                            },
                        );
                        let written = M::spec_write8(read.1, address, result.value);
                        match written.0 {
                            Err(e) => Step {
                                value: Err(Error::MemoryError(e)),
                                cpu: carried,
                                memory: written.1,
                            },
                            Ok(()) => carried.with_registers(
                                carried.registers.spec_set_arithmetic_flags(result.value),
                            ).spec_done((), written.1),
                        }
                    },
                }
            },
        }
    }

    fn modify_instruction<Memory: Addressable>(
        &mut self,
        instruction: Instruction,
        mode: MemoryAddressingMode,
        memory: &mut Memory,
    ) -> (r: Result<()>)
        requires
            instruction is DEC || instruction is INC || instruction is ASL || instruction is LSR
                || instruction is ROL || instruction is ROR,
        ensures
            (Step { value: r, cpu: *final(self), memory: final(memory)@ }) == old(
                self,
            ).spec_modify_instruction::<Memory>(old(memory)@, instruction, mode),
    {
        let address = self.addressing_mode_address(mode, memory)?;
        let value = memory_result(memory.read8(address))?;
        let result = modified(instruction, value, self.registers.status.carry);
        self.registers.status.carry = result.carry;
        memory_result(memory.write8(address, result.value))?;
        self.registers.set_arithmetic_flags(result.value);
        Ok(())
    }

    /// A shift or rotate, of the accumulator or of a byte in memory.
    pub open spec fn spec_shift_instruction<M: Addressable>(
        self,
        memory: M::V,
        instruction: Instruction,
        mode: AddressingMode,
    ) -> Step<(), M::V> {
        match mode {
            AddressingMode::Accumulator => self.with_registers(
                self.registers.spec_shift_accumulator(instruction),
            ).spec_done((), memory),
            AddressingMode::Memory(memory_mode) => self.spec_modify_instruction::<M>(
                memory,
                instruction,
                memory_mode,
            ),
        }
    }

    fn shift_instruction<Memory: Addressable>(
        &mut self,
        instruction: Instruction,
        mode: AddressingMode,
        memory: &mut Memory,
    ) -> (r: Result<()>)
        requires
            instruction is ASL || instruction is LSR || instruction is ROL || instruction is ROR,
        ensures
            (Step { value: r, cpu: *final(self), memory: final(memory)@ }) == old(
                self,
            ).spec_shift_instruction::<Memory>(old(memory)@, instruction, mode),
    {
        match mode {
            AddressingMode::Accumulator => {
                self.registers.shift_accumulator(instruction);
                Ok(())
            },
            AddressingMode::Memory(memory_mode) => self.modify_instruction(
                instruction,
                memory_mode,
                memory,
            ),
        }
    }

    /// A conditional branch: the offset is fetched, and where the tested flag
    /// matches, the signed offset is added to the program counter.
    pub open spec fn spec_branch_instruction<M: Addressable>(
        self,
        memory: M::V,
        instruction: Instruction,
    ) -> Step<(), M::V> {
        let fetched = self.spec_fetch8::<M>(memory);
        match fetched.value {
            Err(e) => spec_failed(fetched),
            Ok(offset) => if fetched.cpu.registers.spec_branch_taken(instruction) {
                fetched.cpu.with_program_counter(
                    RegisterFile::spec_branch_target(
                        fetched.cpu.registers.program_counter,
                        offset,
                    ),
                ).spec_done((), fetched.memory)
            } else {
                fetched.cpu.spec_done((), fetched.memory)
            },
        }
    }

    fn branch_instruction<Memory: Addressable>(
        &mut self,
        instruction: Instruction,
        memory: &mut Memory,
    ) -> (r: Result<()>)
        ensures
            (Step { value: r, cpu: *final(self), memory: final(memory)@ }) == old(
                self,
            ).spec_branch_instruction::<Memory>(old(memory)@, instruction),
    {
        let offset = self.fetch8(memory)?;
        if self.registers.branch_taken(instruction) {
            self.relative_branch(offset);
        }
        Ok(())
    }

    /// Pulling the accumulator, which sets N and Z, or the status.
    pub open spec fn spec_pull_instruction<M: Addressable>(
        self,
        memory: M::V,
        instruction: Instruction,
    ) -> Step<(), M::V> {
        let pulled = self.spec_pull8::<M>(memory);
        match pulled.value {
            Err(e) => spec_failed(pulled),
            Ok(data) => pulled.cpu.with_registers(
                if instruction is PLA {
                    pulled.cpu.registers.spec_load_accumulator(data)
                } else {
                    RegisterFile {
                        status: StatusRegister::spec_from_byte(data),
                        ..pulled.cpu.registers
                    }
                },
            ).spec_done((), pulled.memory),
        }
    }

    fn pull_instruction<Memory: Addressable>(
        &mut self,
        instruction: Instruction,
        memory: &mut Memory,
    ) -> (r: Result<()>)
        ensures
            (Step { value: r, cpu: *final(self), memory: final(memory)@ }) == old(
                self,
            ).spec_pull_instruction::<Memory>(old(memory)@, instruction),
    {
        let data = self.pull8(memory)?;
        match instruction {
            Instruction::PLA => {
                self.registers.accumulator = data;
                self.registers.set_arithmetic_flags_accumulator();
            },
            _ => {
                self.registers.status = StatusRegister::from_byte(data);
            },
        }
        Ok(())
    }

    /// Jump to subroutine: the target is fetched, the address of the last
    /// byte of the instruction is pushed, and the program counter takes the
    /// target.
    pub open spec fn spec_jsr<M: Addressable>(self, memory: M::V) -> Step<(), M::V> {
        let fetched = self.spec_fetch16_le::<M>(memory);
        match fetched.value {
            Err(e) => spec_failed(fetched),
            Ok(target) => {
                let pushed = fetched.cpu.spec_push16_le::<M>(
                    fetched.memory,
                    wrap16(fetched.cpu.registers.program_counter - 1),
                );
                if pushed.value is Err {
                    pushed
                } else {
                    pushed.cpu.with_program_counter(target).spec_done((), pushed.memory)
                }
            },
        }
    }

    /// Return from subroutine: the program counter takes the pulled word plus
    /// one.
    pub open spec fn spec_rts<M: Addressable>(self, memory: M::V) -> Step<(), M::V> {
        let pulled = self.spec_pull16_le::<M>(memory);
        match pulled.value {
            Err(e) => spec_failed(pulled),
            Ok(address) => pulled.cpu.with_program_counter(
                absolute_indexed(address, 1),
            ).spec_done((), pulled.memory),
        }
    }

    /// Return from interrupt: the status is pulled, then the program counter,
    /// to which nothing is added.
    pub open spec fn spec_rti<M: Addressable>(self, memory: M::V) -> Step<(), M::V> {
        let restored = self.spec_pull_instruction::<M>(memory, Instruction::PLP);
        if restored.value is Err {
            restored
        } else {
            let pulled = restored.cpu.spec_pull16_le::<M>(restored.memory);
            match pulled.value {
                Err(e) => spec_failed(pulled),
                Ok(address) => pulled.cpu.with_program_counter(address).spec_done(
                    (),
                    pulled.memory,
                ),
            }
        }
    }

    /// Absolute jump: the program counter takes the fetched word.
    pub open spec fn spec_jmp<M: Addressable>(self, memory: M::V) -> Step<(), M::V> {
        let fetched = self.spec_fetch16_le::<M>(memory);
        match fetched.value {
            Err(e) => spec_failed(fetched),
            Ok(target) => fetched.cpu.with_program_counter(target).spec_done(
                (),
                fetched.memory,
            ),
        }
    }

    /// Indirect jump: the pointer is fetched byte by byte, and the target is
    /// read through it. The high byte of the target comes from the page of the
    /// low byte: a pointer at the last byte of a page wraps to the first byte
    /// of the same page.
    pub open spec fn spec_jmpi<M: Addressable>(self, memory: M::V) -> Step<(), M::V> {
        let low = self.spec_fetch8::<M>(memory);
        match low.value {
            Err(e) => spec_failed(low),
            Ok(pointer_lo) => {
                let high = low.cpu.spec_fetch8::<M>(low.memory);
                match high.value {
                    Err(e) => spec_failed(high),
                    Ok(pointer_hi) => {
                        let first = M::spec_read8(high.memory, word_le(pointer_lo, pointer_hi));
                        match first.0 {
                            Err(e) => Step {
                                value: Err(Error::MemoryError(e)),
                                cpu: high.cpu,
                                memory: first.1,
                            },
                            Ok(target_lo) => {
                                let second = M::spec_read8(
                                    first.1,
                                    word_le(increment(pointer_lo), pointer_hi),
                                );
                                match second.0 {
                                    Err(e) => Step {
                                        value: Err(Error::MemoryError(e)),
                                        cpu: high.cpu,
                                        memory: second.1,
                                    },
                                    Ok(target_hi) => high.cpu.with_program_counter(
                                        word_le(target_lo, target_hi),
                                    ).spec_done((), second.1),
                                }
                            },
                        }
                    },
                }
            },
        }
    }

    fn jsr<Memory: Addressable>(&mut self, memory: &mut Memory) -> (r: Result<()>)
        ensures
            (Step { value: r, cpu: *final(self), memory: final(memory)@ }) == old(
                self,
            ).spec_jsr::<Memory>(old(memory)@),
    {
        let subroutine_address = self.fetch16_le(memory)?;
        let return_address = self.registers.program_counter.wrapping_sub(1);
        self.push16_le(return_address, memory)?;
        self.registers.program_counter = subroutine_address;
        Ok(())
    }

    fn rts<Memory: Addressable>(&mut self, memory: &mut Memory) -> (r: Result<()>)
        ensures
            (Step { value: r, cpu: *final(self), memory: final(memory)@ }) == old(
                self,
            ).spec_rts::<Memory>(old(memory)@),
    {
        let address = self.pull16_le(memory)?.wrapping_add(1);
        self.registers.program_counter = address;
        Ok(())
    }

    fn rti<Memory: Addressable>(&mut self, memory: &mut Memory) -> (r: Result<()>)
        ensures
            (Step { value: r, cpu: *final(self), memory: final(memory)@ }) == old(
                self,
            ).spec_rti::<Memory>(old(memory)@),
    {
        self.pull_instruction(Instruction::PLP, memory)?;
        let program_counter = self.pull16_le(memory)?;
        self.registers.program_counter = program_counter;
        Ok(())
    }

    fn jmp<Memory: Addressable>(&mut self, memory: &mut Memory) -> (r: Result<()>)
        ensures
            (Step { value: r, cpu: *final(self), memory: final(memory)@ }) == old(
                self,
            ).spec_jmp::<Memory>(old(memory)@),
    {
        self.registers.program_counter = self.fetch16_le(memory)?;
        Ok(())
    }

    fn jmpi<Memory: Addressable>(&mut self, memory: &mut Memory) -> (r: Result<()>)
        ensures
            (Step { value: r, cpu: *final(self), memory: final(memory)@ }) == old(
                self,
            ).spec_jmpi::<Memory>(old(memory)@),
    {
        let address_ptr_lo = self.fetch8(memory)?;
        let address_ptr_hi = self.fetch8(memory)? as u16;
        let address_lo = memory_result(
            memory.read8(address_ptr_hi * 0x100 + address_ptr_lo as u16),
        )? as u16;
        let address_ptr_lo = address_ptr_lo.wrapping_add(1);
        let address_hi = memory_result(
            memory.read8(address_ptr_hi * 0x100 + address_ptr_lo as u16),
        )? as u16;
        self.registers.program_counter = address_hi * 0x100 + address_lo;
        Ok(())
    }

    /// What one instruction does to the processor and the memory.
    ///
    /// `BRK`, `CLV`, `TSX` and `NOP` are decoded but not carried out: they are
    /// refused and change nothing.
    pub open spec fn spec_emulate_instruction<M: Addressable>(
        self,
        memory: M::V,
        instruction: Instruction,
    ) -> Step<(), M::V> {
        match instruction {
            Instruction::SEI => self.spec_implied_instruction(memory, instruction),
            Instruction::CLI => self.spec_implied_instruction(memory, instruction),
            Instruction::SED => self.spec_implied_instruction(memory, instruction),
            Instruction::CLD => self.spec_implied_instruction(memory, instruction),
            Instruction::CLC => self.spec_implied_instruction(memory, instruction),
            Instruction::SEC => self.spec_implied_instruction(memory, instruction),
            Instruction::TXS => self.spec_implied_instruction(memory, instruction),
            Instruction::TXA => self.spec_implied_instruction(memory, instruction),
            Instruction::TYA => self.spec_implied_instruction(memory, instruction),
            Instruction::TAX => self.spec_implied_instruction(memory, instruction),
            Instruction::TAY => self.spec_implied_instruction(memory, instruction),
            Instruction::DEX => self.spec_implied_instruction(memory, instruction),
            Instruction::INX => self.spec_implied_instruction(memory, instruction),
            Instruction::DEY => self.spec_implied_instruction(memory, instruction),
            Instruction::INY => self.spec_implied_instruction(memory, instruction),
            Instruction::LDA(mode) => self.spec_operand_instruction::<M>(memory, instruction, mode),
            Instruction::LDX(mode) => self.spec_operand_instruction::<M>(memory, instruction, mode),
            Instruction::LDY(mode) => self.spec_operand_instruction::<M>(memory, instruction, mode),
            Instruction::AND(mode) => self.spec_operand_instruction::<M>(memory, instruction, mode),
            Instruction::ORA(mode) => self.spec_operand_instruction::<M>(memory, instruction, mode),
            Instruction::EOR(mode) => self.spec_operand_instruction::<M>(memory, instruction, mode),
            Instruction::CMP(mode) => self.spec_operand_instruction::<M>(memory, instruction, mode),
            Instruction::CPX(mode) => self.spec_operand_instruction::<M>(memory, instruction, mode),
            Instruction::CPY(mode) => self.spec_operand_instruction::<M>(memory, instruction, mode),
            Instruction::BIT(mode) => self.spec_operand_instruction::<M>(memory, instruction, mode),
            Instruction::ADC(mode) => self.spec_operand_instruction::<M>(memory, instruction, mode),
            Instruction::SBC(mode) => self.spec_operand_instruction::<M>(memory, instruction, mode),
            Instruction::STA(mode) => self.spec_addressing_mode_store::<M>(
                memory,
                mode,
                self.registers.accumulator,
            ),
            Instruction::STX(mode) => self.spec_addressing_mode_store::<M>(
                memory,
                mode,
                self.registers.x_index,
            ),
            Instruction::STY(mode) => self.spec_addressing_mode_store::<M>(
                memory,
                mode,
                self.registers.y_index,
            ),
            Instruction::DEC(mode) => self.spec_modify_instruction::<M>(memory, instruction, mode),
            Instruction::INC(mode) => self.spec_modify_instruction::<M>(memory, instruction, mode),
            Instruction::ASL(mode) => self.spec_shift_instruction::<M>(memory, instruction, mode),
            Instruction::LSR(mode) => self.spec_shift_instruction::<M>(memory, instruction, mode),
            Instruction::ROL(mode) => self.spec_shift_instruction::<M>(memory, instruction, mode),
            Instruction::ROR(mode) => self.spec_shift_instruction::<M>(memory, instruction, mode),
            Instruction::BPL => self.spec_branch_instruction::<M>(memory, instruction),
            Instruction::BMI => self.spec_branch_instruction::<M>(memory, instruction),
            Instruction::BVC => self.spec_branch_instruction::<M>(memory, instruction),
            Instruction::BVS => self.spec_branch_instruction::<M>(memory, instruction),
            Instruction::BCC => self.spec_branch_instruction::<M>(memory, instruction),
            Instruction::BCS => self.spec_branch_instruction::<M>(memory, instruction),
            Instruction::BNE => self.spec_branch_instruction::<M>(memory, instruction),
            Instruction::BEQ => self.spec_branch_instruction::<M>(memory, instruction),
            Instruction::PHA => self.spec_push8::<M>(memory, self.registers.accumulator),
            Instruction::PHP => self.spec_push8::<M>(memory, self.registers.status.spec_to_byte()),
            Instruction::PLA => self.spec_pull_instruction::<M>(memory, instruction),
            Instruction::PLP => self.spec_pull_instruction::<M>(memory, instruction),
            Instruction::JSR => self.spec_jsr::<M>(memory),
            Instruction::RTS => self.spec_rts::<M>(memory),
            Instruction::RTI => self.spec_rti::<M>(memory),
            Instruction::JMP => self.spec_jmp::<M>(memory),
            Instruction::JMPI => self.spec_jmpi::<M>(memory),
            _ => Step { value: Err(Error::UnimplementedInstruction(instruction)), cpu: self, memory },
        }
    }

    /// An instruction that only changes registers.
    pub open spec fn spec_implied_instruction<S>(self, memory: S, instruction: Instruction) -> Step<
        (),
        S,
    > {
        self.with_registers(self.registers.spec_apply_implied(instruction)).spec_done((), memory)
    }

    /// Carries out one decoded instruction.
    pub fn emulate_instruction<Memory: Addressable>(
        &mut self,
        instruction: Instruction,
        memory: &mut Memory,
    ) -> (r: Result<()>)
        ensures
            (Step { value: r, cpu: *final(self), memory: final(memory)@ }) == old(
                self,
            ).spec_emulate_instruction::<Memory>(old(memory)@, instruction),
    {
        match instruction {
            Instruction::SEI => {
                self.set_disable_interrupt_status();
                Ok(())
            },
            Instruction::CLI => {
                self.clear_disable_interrupt_status();
                Ok(())
            },
            Instruction::SED => {
                self.set_decimal_mode();
                Ok(())
            },
            Instruction::CLD => {
                self.clear_decimal_mode();
                Ok(())
            },
            Instruction::CLC
            | Instruction::SEC
            | Instruction::TXS
            | Instruction::TXA
            | Instruction::TYA
            | Instruction::TAX
            | Instruction::TAY
            | Instruction::DEX
            | Instruction::INX
            | Instruction::DEY
            | Instruction::INY => {
                self.registers.apply_implied(instruction);
                Ok(())
            },
            Instruction::LDA(mode)
            | Instruction::LDX(mode)
            | Instruction::LDY(mode)
            | Instruction::AND(mode)
            | Instruction::ORA(mode)
            | Instruction::EOR(mode)
            | Instruction::CMP(mode)
            | Instruction::CPX(mode)
            | Instruction::CPY(mode)
            | Instruction::BIT(mode)
            | Instruction::ADC(mode)
            | Instruction::SBC(mode) => self.operand_instruction(instruction, mode, memory),
            Instruction::STA(mode) => {
                let accumulator = self.registers.accumulator;
                self.addressing_mode_store(mode, accumulator, memory)
            },
            Instruction::STX(mode) => {
                let x_index = self.registers.x_index;
                self.addressing_mode_store(mode, x_index, memory)
            },
            Instruction::STY(mode) => {
                let y_index = self.registers.y_index;
                self.addressing_mode_store(mode, y_index, memory)
            },
            Instruction::DEC(mode) | Instruction::INC(mode) => self.modify_instruction(
                instruction,
                mode,
                memory,
            ),
            Instruction::ASL(mode)
            | Instruction::LSR(mode)
            | Instruction::ROL(mode)
            | Instruction::ROR(mode) => self.shift_instruction(instruction, mode, memory),
            Instruction::BPL
            | Instruction::BMI
            | Instruction::BVC
            | Instruction::BVS
            | Instruction::BCC
            | Instruction::BCS
            | Instruction::BNE
            | Instruction::BEQ => self.branch_instruction(instruction, memory),
            Instruction::PHA => {
                let accumulator = self.registers.accumulator;
                self.push8(accumulator, memory)
            },
            Instruction::PHP => {
                let status = self.registers.status.to_byte();
                self.push8(status, memory)
            },
            Instruction::PLA | Instruction::PLP => self.pull_instruction(instruction, memory),
            Instruction::JSR => self.jsr(memory),
            Instruction::RTS => self.rts(memory),
            Instruction::RTI => self.rti(memory),
            Instruction::JMP => self.jmp(memory),
            Instruction::JMPI => self.jmpi(memory),
            _ => Err(Error::UnimplementedInstruction(instruction)),
        }
    }

    pub fn set_disable_interrupt_status(&mut self)
        ensures
            *final(self) == old(self).with_registers(
                old(self).registers.spec_apply_implied(Instruction::SEI),
            ),
    {
        self.registers.status.irq_disable = true;
    }

    pub fn clear_disable_interrupt_status(&mut self)
        ensures
            *final(self) == old(self).with_registers(
                old(self).registers.spec_apply_implied(Instruction::CLI),
            ),
    {
        self.registers.status.irq_disable = false;
    }

    pub fn set_decimal_mode(&mut self)
        ensures
            *final(self) == old(self).with_registers(
                old(self).registers.spec_apply_implied(Instruction::SED),
            ),
    {
        self.registers.status.decimal_mode = true;
    }

    pub fn clear_decimal_mode(&mut self)
        ensures
            *final(self) == old(self).with_registers(
                old(self).registers.spec_apply_implied(Instruction::CLD),
            ),
    {
        self.registers.status.decimal_mode = false;
    }

    /// Takes a branch: adds the signed `offset` to the program counter.
    pub fn relative_branch(&mut self, offset: u8)
        ensures
            *final(self) == old(self).with_program_counter(
                RegisterFile::spec_branch_target(old(self).registers.program_counter, offset),
            ),
    {
        let pc = self.registers.program_counter;
        if offset < 0x80 {
            self.registers.program_counter = pc.wrapping_add(offset as u16);
        } else {
            self.registers.program_counter = pc.wrapping_sub(0x100 - offset as u16);
        }
    }

    /// Pushing a byte: it is written to the stack slot, and the stack pointer
    /// then moves down by one, wrapping within the stack page.
    pub open spec fn spec_push8<M: Addressable>(self, memory: M::V, data: u8) -> Step<(), M::V> {
        let written = M::spec_write8(memory, stack_address(self.registers.stack_pointer), data);
        match written.0 {
            Ok(()) => self.with_stack_pointer(decrement(self.registers.stack_pointer)).spec_done(
                (),
                written.1,
            ),
            Err(e) => Step { value: Err(Error::MemoryError(e)), cpu: self, memory: written.1 },
        }
    }

    /// Pushes a byte onto the stack.
    pub fn push8<Memory: Addressable>(&mut self, data: u8, memory: &mut Memory) -> (r: Result<()>)
        ensures
            (Step { value: r, cpu: *final(self), memory: final(memory)@ }) == old(
                self,
            ).spec_push8::<Memory>(old(memory)@, data),
    {
        memory_result(
            memory.write8(STACK_PAGE_BOTTOM + self.registers.stack_pointer as u16, data),
        )?;
        self.registers.stack_pointer = self.registers.stack_pointer.wrapping_sub(1);
        Ok(())
    }

    /// Pulling a byte: the stack pointer moves up by one, wrapping within the
    /// stack page, and the byte in the slot that it then names is read.
    pub open spec fn spec_pull8<M: Addressable>(self, memory: M::V) -> Step<u8, M::V> {
        let stack_pointer = increment(self.registers.stack_pointer);
        let read = M::spec_read8(memory, stack_address(stack_pointer));
        Step {
            value: spec_memory_result(read.0),
            cpu: self.with_stack_pointer(stack_pointer),
            memory: read.1,
        }
    }

    /// Pulls a byte from the stack.
    pub fn pull8<Memory: Addressable>(&mut self, memory: &mut Memory) -> (r: Result<u8>)
        ensures
            (Step { value: r, cpu: *final(self), memory: final(memory)@ }) == old(
                self,
            ).spec_pull8::<Memory>(old(memory)@),
    {
        self.registers.stack_pointer = self.registers.stack_pointer.wrapping_add(1);
        memory_result(memory.read8(STACK_PAGE_BOTTOM + self.registers.stack_pointer as u16))
    }

    /// Pushing a word: the high byte first, then the low byte.
    pub open spec fn spec_push16_le<M: Addressable>(self, memory: M::V, data: u16) -> Step<
        (),
        M::V,
    > {
        let pushed = self.spec_push8::<M>(memory, (data / 0x100) as u8);
        if pushed.value is Err {
            pushed
        } else {
            pushed.cpu.spec_push8::<M>(pushed.memory, (data % 0x100) as u8)
        }
    }

    /// Pushes a word onto the stack, high byte first.
    pub fn push16_le<Memory: Addressable>(&mut self, data: u16, memory: &mut Memory) -> (r: Result<
        (),
    >)
        ensures
            (Step { value: r, cpu: *final(self), memory: final(memory)@ }) == old(
                self,
            ).spec_push16_le::<Memory>(old(memory)@, data),
    {
        let lo = (data % 0x100) as u8;
        let hi = (data / 0x100) as u8;
        self.push8(hi, memory)?;
        self.push8(lo, memory)
    }

    /// Pulling a word: the low byte first, then the high byte.
    pub open spec fn spec_pull16_le<M: Addressable>(self, memory: M::V) -> Step<u16, M::V> {
        let low = self.spec_pull8::<M>(memory);
        match low.value {
            Err(e) => spec_failed(low),
            Ok(lo) => {
                let high = low.cpu.spec_pull8::<M>(low.memory);
                match high.value {
                    Err(e) => spec_failed(high),
                    Ok(hi) => high.cpu.spec_done(word_le(lo, hi), high.memory),
                }
            },
        }
    }

    /// Pulls a word from the stack, low byte first.
    pub fn pull16_le<Memory: Addressable>(&mut self, memory: &mut Memory) -> (r: Result<u16>)
        ensures
            (Step { value: r, cpu: *final(self), memory: final(memory)@ }) == old(
                self,
            ).spec_pull16_le::<Memory>(old(memory)@),
    {
        let lo = self.pull8(memory)? as u16;
        let hi = self.pull8(memory)? as u16;
        Ok(hi * 0x100 + lo)
    }
}

} // verus!
