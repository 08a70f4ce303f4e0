//! The instruction set of the processor: operations, addressing modes and the
//! opcode map.

use vstd::prelude::*;

verus! {

pub type Result<T> = std::result::Result<T, Error>;

#[derive(Debug, Clone, Copy, PartialEq, Eq)]
pub enum Error {
    /// The byte is none of the 151 documented opcodes.
    InvalidOpcode(u8),
}

/// Where a shift or rotate finds its operand.
#[derive(Debug, Clone, Copy, PartialEq, Eq)]
pub enum AddressingMode {
    Accumulator,
    Memory(MemoryAddressingMode),
}

/// The addressing modes that name an operand in memory.
#[derive(Debug, Clone, Copy, PartialEq, Eq)]
pub enum MemoryAddressingMode {
    Immediate,
    Absolute,
    ZeroPage,
    AbsoluteXIndexed,
    AbsoluteYIndexed,
    ZeroPageXIndexed,
    ZeroPageYIndexed,
    XIndexedIndirect,
    IndirectYIndexed,
}

#[derive(Debug, Clone, Copy, PartialEq, Eq)]
pub enum Instruction {
    // operations that take an addressing mode
    ORA(MemoryAddressingMode),
    AND(MemoryAddressingMode),
    EOR(MemoryAddressingMode),
    ADC(MemoryAddressingMode),
    STA(MemoryAddressingMode),
    LDA(MemoryAddressingMode),
    CMP(MemoryAddressingMode),
    SBC(MemoryAddressingMode),
    ASL(AddressingMode),
    ROL(AddressingMode),
    LSR(AddressingMode),
    ROR(AddressingMode),
    STX(MemoryAddressingMode),
    LDX(MemoryAddressingMode),
    DEC(MemoryAddressingMode),
    INC(MemoryAddressingMode),
    BIT(MemoryAddressingMode),
    STY(MemoryAddressingMode),
    LDY(MemoryAddressingMode),
    CPY(MemoryAddressingMode),
    CPX(MemoryAddressingMode),
    // jumps
    /// Jump to an absolute address.
    JMP,
    /// Jump through a pointer.
    JMPI,
    // conditional branches
    BPL,
    BMI,
    BVC,
    BVS,
    BCC,
    BCS,
    BNE,
    BEQ,
    // interrupts and subroutines
    BRK,
    JSR,
    RTI,
    RTS,
    // others
    PHP,
    PLP,
    PHA,
    PLA,
    DEY,
    TAY,
    INY,
    INX,
    CLC,
    SEC,
    CLI,
    SEI,
    TYA,
    CLV,
    CLD,
    SED,
    TXA,
    TXS,
    TAX,
    TSX,
    DEX,
    NOP,
}

impl Instruction {
    /// The opcode that encodes this instruction, mnemonic by mnemonic, or
    /// `None` where the processor offers the operation in no such mode.
    pub open spec fn opcode(self) -> Option<u8> {
        match self {
            Instruction::ORA(mode) => match mode {
                MemoryAddressingMode::Immediate => Some(0x09u8),
                MemoryAddressingMode::Absolute => Some(0x0du8),
                MemoryAddressingMode::ZeroPage => Some(0x05u8),
                MemoryAddressingMode::AbsoluteXIndexed => Some(0x1du8),
                MemoryAddressingMode::AbsoluteYIndexed => Some(0x19u8),
                MemoryAddressingMode::ZeroPageXIndexed => Some(0x15u8),
                MemoryAddressingMode::XIndexedIndirect => Some(0x01u8),
                MemoryAddressingMode::IndirectYIndexed => Some(0x11u8),
                _ => None,
            },
            Instruction::AND(mode) => match mode {
                MemoryAddressingMode::Immediate => Some(0x29u8),
                MemoryAddressingMode::Absolute => Some(0x2du8),
                MemoryAddressingMode::ZeroPage => Some(0x25u8),
                MemoryAddressingMode::AbsoluteXIndexed => Some(0x3du8),
                MemoryAddressingMode::AbsoluteYIndexed => Some(0x39u8),
                MemoryAddressingMode::ZeroPageXIndexed => Some(0x35u8),
                MemoryAddressingMode::XIndexedIndirect => Some(0x21u8),
                MemoryAddressingMode::IndirectYIndexed => Some(0x31u8),
                _ => None,
            },
            Instruction::EOR(mode) => match mode {
                MemoryAddressingMode::Immediate => Some(0x49u8),
                MemoryAddressingMode::Absolute => Some(0x4du8),
                MemoryAddressingMode::ZeroPage => Some(0x45u8),
                MemoryAddressingMode::AbsoluteXIndexed => Some(0x5du8),
                MemoryAddressingMode::AbsoluteYIndexed => Some(0x59u8),
                MemoryAddressingMode::ZeroPageXIndexed => Some(0x55u8),
                MemoryAddressingMode::XIndexedIndirect => Some(0x41u8),
                MemoryAddressingMode::IndirectYIndexed => Some(0x51u8),
                _ => None,
            },
            Instruction::ADC(mode) => match mode {
                MemoryAddressingMode::Immediate => Some(0x69u8),
                MemoryAddressingMode::Absolute => Some(0x6du8),
                MemoryAddressingMode::ZeroPage => Some(0x65u8),
                MemoryAddressingMode::AbsoluteXIndexed => Some(0x7du8),
                MemoryAddressingMode::AbsoluteYIndexed => Some(0x79u8),
                MemoryAddressingMode::ZeroPageXIndexed => Some(0x75u8),
                MemoryAddressingMode::XIndexedIndirect => Some(0x61u8),
                MemoryAddressingMode::IndirectYIndexed => Some(0x71u8),
                _ => None,
            },
            Instruction::STA(mode) => match mode {
                MemoryAddressingMode::Absolute => Some(0x8du8),
                MemoryAddressingMode::ZeroPage => Some(0x85u8),
                MemoryAddressingMode::AbsoluteXIndexed => Some(0x9du8),
                MemoryAddressingMode::AbsoluteYIndexed => Some(0x99u8),
                MemoryAddressingMode::ZeroPageXIndexed => Some(0x95u8),
                MemoryAddressingMode::XIndexedIndirect => Some(0x81u8),
                MemoryAddressingMode::IndirectYIndexed => Some(0x91u8),
                _ => None,
            },
            Instruction::LDA(mode) => match mode {
                MemoryAddressingMode::Immediate => Some(0xa9u8),
                MemoryAddressingMode::Absolute => Some(0xadu8),
                MemoryAddressingMode::ZeroPage => Some(0xa5u8),
                MemoryAddressingMode::AbsoluteXIndexed => Some(0xbdu8),
                MemoryAddressingMode::AbsoluteYIndexed => Some(0xb9u8),
                MemoryAddressingMode::ZeroPageXIndexed => Some(0xb5u8),
                MemoryAddressingMode::XIndexedIndirect => Some(0xa1u8),
                MemoryAddressingMode::IndirectYIndexed => Some(0xb1u8),
                _ => None,
            },
            Instruction::CMP(mode) => match mode {
                MemoryAddressingMode::Immediate => Some(0xc9u8),
                MemoryAddressingMode::Absolute => Some(0xcdu8),
                MemoryAddressingMode::ZeroPage => Some(0xc5u8),
                MemoryAddressingMode::AbsoluteXIndexed => Some(0xddu8),
                MemoryAddressingMode::AbsoluteYIndexed => Some(0xd9u8),
                MemoryAddressingMode::ZeroPageXIndexed => Some(0xd5u8),
                MemoryAddressingMode::XIndexedIndirect => Some(0xc1u8),
                MemoryAddressingMode::IndirectYIndexed => Some(0xd1u8),
                _ => None,
            },
            Instruction::SBC(mode) => match mode {
                MemoryAddressingMode::Immediate => Some(0xe9u8),
                MemoryAddressingMode::Absolute => Some(0xedu8),
                MemoryAddressingMode::ZeroPage => Some(0xe5u8),
                MemoryAddressingMode::AbsoluteXIndexed => Some(0xfdu8),
                MemoryAddressingMode::AbsoluteYIndexed => Some(0xf9u8),
                MemoryAddressingMode::ZeroPageXIndexed => Some(0xf5u8),
                MemoryAddressingMode::XIndexedIndirect => Some(0xe1u8),
                MemoryAddressingMode::IndirectYIndexed => Some(0xf1u8),
                _ => None,
            },
            Instruction::ASL(mode) => match mode {
                AddressingMode::Accumulator => Some(0x0au8),
                AddressingMode::Memory(MemoryAddressingMode::Absolute) => Some(0x0eu8),
                AddressingMode::Memory(MemoryAddressingMode::ZeroPage) => Some(0x06u8),
                AddressingMode::Memory(MemoryAddressingMode::AbsoluteXIndexed) => Some(0x1eu8),
                AddressingMode::Memory(MemoryAddressingMode::ZeroPageXIndexed) => Some(0x16u8),
                _ => None,
            },
            Instruction::ROL(mode) => match mode {
                AddressingMode::Accumulator => Some(0x2au8),
                AddressingMode::Memory(MemoryAddressingMode::Absolute) => Some(0x2eu8),
                AddressingMode::Memory(MemoryAddressingMode::ZeroPage) => Some(0x26u8),
                AddressingMode::Memory(MemoryAddressingMode::AbsoluteXIndexed) => Some(0x3eu8),
                AddressingMode::Memory(MemoryAddressingMode::ZeroPageXIndexed) => Some(0x36u8),
                _ => None,
            },
            Instruction::LSR(mode) => match mode {
                AddressingMode::Accumulator => Some(0x4au8),
                AddressingMode::Memory(MemoryAddressingMode::Absolute) => Some(0x4eu8),
                AddressingMode::Memory(MemoryAddressingMode::ZeroPage) => Some(0x46u8),
                AddressingMode::Memory(MemoryAddressingMode::AbsoluteXIndexed) => Some(0x5eu8),
                AddressingMode::Memory(MemoryAddressingMode::ZeroPageXIndexed) => Some(0x56u8),
                _ => None,
            },
            Instruction::ROR(mode) => match mode {
                AddressingMode::Accumulator => Some(0x6au8),
                AddressingMode::Memory(MemoryAddressingMode::Absolute) => Some(0x6eu8),
                AddressingMode::Memory(MemoryAddressingMode::ZeroPage) => Some(0x66u8),
                AddressingMode::Memory(MemoryAddressingMode::AbsoluteXIndexed) => Some(0x7eu8),
                AddressingMode::Memory(MemoryAddressingMode::ZeroPageXIndexed) => Some(0x76u8),
                _ => None,
            },
            Instruction::STX(mode) => match mode {
                MemoryAddressingMode::Absolute => Some(0x8eu8),
                MemoryAddressingMode::ZeroPage => Some(0x86u8),
                MemoryAddressingMode::ZeroPageYIndexed => Some(0x96u8),
                _ => None,
            },
            Instruction::LDX(mode) => match mode {
                MemoryAddressingMode::Immediate => Some(0xa2u8),
                MemoryAddressingMode::Absolute => Some(0xaeu8),
                MemoryAddressingMode::ZeroPage => Some(0xa6u8),
                MemoryAddressingMode::AbsoluteYIndexed => Some(0xbeu8),
                MemoryAddressingMode::ZeroPageYIndexed => Some(0xb6u8),
                _ => None,
            },
            Instruction::DEC(mode) => match mode {
                MemoryAddressingMode::Absolute => Some(0xceu8),
                MemoryAddressingMode::ZeroPage => Some(0xc6u8),
                MemoryAddressingMode::AbsoluteXIndexed => Some(0xdeu8),
                MemoryAddressingMode::ZeroPageXIndexed => Some(0xd6u8),
                _ => None,
            },
            Instruction::INC(mode) => match mode {
                MemoryAddressingMode::Absolute => Some(0xeeu8),
                MemoryAddressingMode::ZeroPage => Some(0xe6u8),
                MemoryAddressingMode::AbsoluteXIndexed => Some(0xfeu8),
                MemoryAddressingMode::ZeroPageXIndexed => Some(0xf6u8),
                _ => None,
            },
            Instruction::BIT(mode) => match mode {
                MemoryAddressingMode::Absolute => Some(0x2cu8),
                MemoryAddressingMode::ZeroPage => Some(0x24u8),
                _ => None,
            },
            Instruction::STY(mode) => match mode {
                MemoryAddressingMode::Absolute => Some(0x8cu8),
                MemoryAddressingMode::ZeroPage => Some(0x84u8),
                MemoryAddressingMode::ZeroPageXIndexed => Some(0x94u8),
                _ => None,
            },
            Instruction::LDY(mode) => match mode {
                MemoryAddressingMode::Immediate => Some(0xa0u8),
                MemoryAddressingMode::Absolute => Some(0xacu8),
                MemoryAddressingMode::ZeroPage => Some(0xa4u8),
                MemoryAddressingMode::AbsoluteXIndexed => Some(0xbcu8),
                MemoryAddressingMode::ZeroPageXIndexed => Some(0xb4u8),
                _ => None,
            },
            Instruction::CPY(mode) => match mode {
                MemoryAddressingMode::Immediate => Some(0xc0u8),
                MemoryAddressingMode::Absolute => Some(0xccu8),
                MemoryAddressingMode::ZeroPage => Some(0xc4u8),
                _ => None,
            },
            Instruction::CPX(mode) => match mode {
                MemoryAddressingMode::Immediate => Some(0xe0u8),
                MemoryAddressingMode::Absolute => Some(0xecu8),
                MemoryAddressingMode::ZeroPage => Some(0xe4u8),
                _ => None,
            },
            Instruction::JMP => Some(0x4cu8),
            Instruction::JMPI => Some(0x6cu8),
            Instruction::BPL => Some(0x10u8),
            Instruction::BMI => Some(0x30u8),
            Instruction::BVC => Some(0x50u8),
            Instruction::BVS => Some(0x70u8),
            Instruction::BCC => Some(0x90u8),
            Instruction::BCS => Some(0xb0u8),
            Instruction::BNE => Some(0xd0u8),
            Instruction::BEQ => Some(0xf0u8),
            Instruction::BRK => Some(0x00u8),
            Instruction::JSR => Some(0x20u8),
            Instruction::RTI => Some(0x40u8),
            Instruction::RTS => Some(0x60u8),
            Instruction::PHP => Some(0x08u8),
            Instruction::PLP => Some(0x28u8),
            Instruction::PHA => Some(0x48u8),
            Instruction::PLA => Some(0x68u8),
            Instruction::DEY => Some(0x88u8),
            Instruction::TAY => Some(0xa8u8),
            Instruction::INY => Some(0xc8u8),
            Instruction::INX => Some(0xe8u8),
            Instruction::CLC => Some(0x18u8),
            Instruction::SEC => Some(0x38u8),
            Instruction::CLI => Some(0x58u8),
            Instruction::SEI => Some(0x78u8),
            Instruction::TYA => Some(0x98u8),
            Instruction::CLV => Some(0xb8u8),
            Instruction::CLD => Some(0xd8u8),
            Instruction::SED => Some(0xf8u8),
            Instruction::TXA => Some(0x8au8),
            Instruction::TXS => Some(0x9au8),
            Instruction::TAX => Some(0xaau8),
            Instruction::TSX => Some(0xbau8),
            Instruction::DEX => Some(0xcau8),
            Instruction::NOP => Some(0xeau8),
        }
    }

    /// The instruction that `opcode` encodes; a byte that encodes none is
    /// refused with the byte itself.
    pub open spec fn spec_decode(opcode: u8) -> Result<Self> {
        if exists|i: Instruction| i.opcode() == Some(opcode) {
            Ok(choose|i: Instruction| i.opcode() == Some(opcode))
        } else {
            Err(Error::InvalidOpcode(opcode))
        }
    }

    /// Decodes one opcode byte.
    pub fn decode(opcode: u8) -> (r: Result<Self>)
        ensures
            r == Self::spec_decode(opcode),
            match r {
                Ok(instruction) => instruction.opcode() == Some(opcode),
                Err(e) => e == Error::InvalidOpcode(opcode) && forall|i: Instruction|
                    i.opcode() != Some(opcode),
            },
    {
        match Self::lookup(opcode) {
            Some(instruction) => {
                proof {
                    lemma_decode(instruction);
                }
                Ok(instruction)
            },
            None => Err(Error::InvalidOpcode(opcode)),
        }
    }

    /// The opcode map, opcode by opcode.
    fn lookup(opcode: u8) -> (r: Option<Self>)
        ensures
            match r {
                Some(instruction) => instruction.opcode() == Some(opcode),
                None => forall|i: Instruction| i.opcode() != Some(opcode),
            },
    {
        let instruction = match opcode {
            0x00 => Instruction::BRK,
            0x01 => Instruction::ORA(MemoryAddressingMode::XIndexedIndirect),
            0x05 => Instruction::ORA(MemoryAddressingMode::ZeroPage),
            0x06 => Instruction::ASL(AddressingMode::Memory(MemoryAddressingMode::ZeroPage)),
            0x08 => Instruction::PHP,
            0x09 => Instruction::ORA(MemoryAddressingMode::Immediate),
            0x0a => Instruction::ASL(AddressingMode::Accumulator),
            0x0d => Instruction::ORA(MemoryAddressingMode::Absolute),
            0x0e => Instruction::ASL(AddressingMode::Memory(MemoryAddressingMode::Absolute)),
            0x10 => Instruction::BPL,
            0x11 => Instruction::ORA(MemoryAddressingMode::IndirectYIndexed),
            0x15 => Instruction::ORA(MemoryAddressingMode::ZeroPageXIndexed),
            0x16 => Instruction::ASL(AddressingMode::Memory(MemoryAddressingMode::ZeroPageXIndexed)),
            0x18 => Instruction::CLC,
            0x19 => Instruction::ORA(MemoryAddressingMode::AbsoluteYIndexed),
            0x1d => Instruction::ORA(MemoryAddressingMode::AbsoluteXIndexed),
            0x1e => Instruction::ASL(AddressingMode::Memory(MemoryAddressingMode::AbsoluteXIndexed)),
            0x20 => Instruction::JSR,
            0x21 => Instruction::AND(MemoryAddressingMode::XIndexedIndirect),
            0x24 => Instruction::BIT(MemoryAddressingMode::ZeroPage),
            0x25 => Instruction::AND(MemoryAddressingMode::ZeroPage),
            0x26 => Instruction::ROL(AddressingMode::Memory(MemoryAddressingMode::ZeroPage)),
            0x28 => Instruction::PLP,
            0x29 => Instruction::AND(MemoryAddressingMode::Immediate),
            0x2a => Instruction::ROL(AddressingMode::Accumulator),
            0x2c => Instruction::BIT(MemoryAddressingMode::Absolute),
            0x2d => Instruction::AND(MemoryAddressingMode::Absolute),
            0x2e => Instruction::ROL(AddressingMode::Memory(MemoryAddressingMode::Absolute)),
            0x30 => Instruction::BMI,
            0x31 => Instruction::AND(MemoryAddressingMode::IndirectYIndexed),
            0x35 => Instruction::AND(MemoryAddressingMode::ZeroPageXIndexed),
            0x36 => Instruction::ROL(AddressingMode::Memory(MemoryAddressingMode::ZeroPageXIndexed)),
            0x38 => Instruction::SEC,
            0x39 => Instruction::AND(MemoryAddressingMode::AbsoluteYIndexed),
            0x3d => Instruction::AND(MemoryAddressingMode::AbsoluteXIndexed),
            0x3e => Instruction::ROL(AddressingMode::Memory(MemoryAddressingMode::AbsoluteXIndexed)),
            0x40 => Instruction::RTI,
            0x41 => Instruction::EOR(MemoryAddressingMode::XIndexedIndirect),
            0x45 => Instruction::EOR(MemoryAddressingMode::ZeroPage),
            0x46 => Instruction::LSR(AddressingMode::Memory(MemoryAddressingMode::ZeroPage)),
            0x48 => Instruction::PHA,
            0x49 => Instruction::EOR(MemoryAddressingMode::Immediate),
            0x4a => Instruction::LSR(AddressingMode::Accumulator),
            0x4c => Instruction::JMP,
            0x4d => Instruction::EOR(MemoryAddressingMode::Absolute),
            0x4e => Instruction::LSR(AddressingMode::Memory(MemoryAddressingMode::Absolute)),
            0x50 => Instruction::BVC,
            0x51 => Instruction::EOR(MemoryAddressingMode::IndirectYIndexed),
            0x55 => Instruction::EOR(MemoryAddressingMode::ZeroPageXIndexed),
            0x56 => Instruction::LSR(AddressingMode::Memory(MemoryAddressingMode::ZeroPageXIndexed)),
            0x58 => Instruction::CLI,
            0x59 => Instruction::EOR(MemoryAddressingMode::AbsoluteYIndexed),
            0x5d => Instruction::EOR(MemoryAddressingMode::AbsoluteXIndexed),
            0x5e => Instruction::LSR(AddressingMode::Memory(MemoryAddressingMode::AbsoluteXIndexed)),
            0x60 => Instruction::RTS,
            0x61 => Instruction::ADC(MemoryAddressingMode::XIndexedIndirect),
            0x65 => Instruction::ADC(MemoryAddressingMode::ZeroPage),
            0x66 => Instruction::ROR(AddressingMode::Memory(MemoryAddressingMode::ZeroPage)),
            0x68 => Instruction::PLA,
            0x69 => Instruction::ADC(MemoryAddressingMode::Immediate),
            0x6a => Instruction::ROR(AddressingMode::Accumulator),
            0x6c => Instruction::JMPI,
            0x6d => Instruction::ADC(MemoryAddressingMode::Absolute),
            0x6e => Instruction::ROR(AddressingMode::Memory(MemoryAddressingMode::Absolute)),
            0x70 => Instruction::BVS,
            0x71 => Instruction::ADC(MemoryAddressingMode::IndirectYIndexed),
            0x75 => Instruction::ADC(MemoryAddressingMode::ZeroPageXIndexed),
            0x76 => Instruction::ROR(AddressingMode::Memory(MemoryAddressingMode::ZeroPageXIndexed)),
            0x78 => Instruction::SEI,
            0x79 => Instruction::ADC(MemoryAddressingMode::AbsoluteYIndexed),
            0x7d => Instruction::ADC(MemoryAddressingMode::AbsoluteXIndexed),
            0x7e => Instruction::ROR(AddressingMode::Memory(MemoryAddressingMode::AbsoluteXIndexed)),
            0x81 => Instruction::STA(MemoryAddressingMode::XIndexedIndirect),
            0x84 => Instruction::STY(MemoryAddressingMode::ZeroPage),
            0x85 => Instruction::STA(MemoryAddressingMode::ZeroPage),
            0x86 => Instruction::STX(MemoryAddressingMode::ZeroPage),
            0x88 => Instruction::DEY,
            0x8a => Instruction::TXA,
            0x8c => Instruction::STY(MemoryAddressingMode::Absolute),
            0x8d => Instruction::STA(MemoryAddressingMode::Absolute),
            0x8e => Instruction::STX(MemoryAddressingMode::Absolute),
            0x90 => Instruction::BCC,
            0x91 => Instruction::STA(MemoryAddressingMode::IndirectYIndexed),
            0x94 => Instruction::STY(MemoryAddressingMode::ZeroPageXIndexed),
            0x95 => Instruction::STA(MemoryAddressingMode::ZeroPageXIndexed),
            0x96 => Instruction::STX(MemoryAddressingMode::ZeroPageYIndexed),
            0x98 => Instruction::TYA,
            0x99 => Instruction::STA(MemoryAddressingMode::AbsoluteYIndexed),
            0x9a => Instruction::TXS,
            0x9d => Instruction::STA(MemoryAddressingMode::AbsoluteXIndexed),
            0xa0 => Instruction::LDY(MemoryAddressingMode::Immediate),
            0xa1 => Instruction::LDA(MemoryAddressingMode::XIndexedIndirect),
            0xa2 => Instruction::LDX(MemoryAddressingMode::Immediate),
            0xa4 => Instruction::LDY(MemoryAddressingMode::ZeroPage),
            0xa5 => Instruction::LDA(MemoryAddressingMode::ZeroPage),
            0xa6 => Instruction::LDX(MemoryAddressingMode::ZeroPage),
            0xa8 => Instruction::TAY,
            0xa9 => Instruction::LDA(MemoryAddressingMode::Immediate),
            0xaa => Instruction::TAX,
            0xac => Instruction::LDY(MemoryAddressingMode::Absolute),
            0xad => Instruction::LDA(MemoryAddressingMode::Absolute),
            0xae => Instruction::LDX(MemoryAddressingMode::Absolute),
            0xb0 => Instruction::BCS,
            0xb1 => Instruction::LDA(MemoryAddressingMode::IndirectYIndexed),
            0xb4 => Instruction::LDY(MemoryAddressingMode::ZeroPageXIndexed),
            0xb5 => Instruction::LDA(MemoryAddressingMode::ZeroPageXIndexed),
            0xb6 => Instruction::LDX(MemoryAddressingMode::ZeroPageYIndexed),
            0xb8 => Instruction::CLV,
            0xb9 => Instruction::LDA(MemoryAddressingMode::AbsoluteYIndexed),
            0xba => Instruction::TSX,
            0xbc => Instruction::LDY(MemoryAddressingMode::AbsoluteXIndexed),
            0xbd => Instruction::LDA(MemoryAddressingMode::AbsoluteXIndexed),
            0xbe => Instruction::LDX(MemoryAddressingMode::AbsoluteYIndexed),
            0xc0 => Instruction::CPY(MemoryAddressingMode::Immediate),
            0xc1 => Instruction::CMP(MemoryAddressingMode::XIndexedIndirect),
            0xc4 => Instruction::CPY(MemoryAddressingMode::ZeroPage),
            0xc5 => Instruction::CMP(MemoryAddressingMode::ZeroPage),
            0xc6 => Instruction::DEC(MemoryAddressingMode::ZeroPage),
            0xc8 => Instruction::INY,
            0xc9 => Instruction::CMP(MemoryAddressingMode::Immediate),
            0xca => Instruction::DEX,
            0xcc => Instruction::CPY(MemoryAddressingMode::Absolute),
            0xcd => Instruction::CMP(MemoryAddressingMode::Absolute),
            0xce => Instruction::DEC(MemoryAddressingMode::Absolute),
            0xd0 => Instruction::BNE,
            0xd1 => Instruction::CMP(MemoryAddressingMode::IndirectYIndexed),
            0xd5 => Instruction::CMP(MemoryAddressingMode::ZeroPageXIndexed),
            0xd6 => Instruction::DEC(MemoryAddressingMode::ZeroPageXIndexed),
            0xd8 => Instruction::CLD,
            0xd9 => Instruction::CMP(MemoryAddressingMode::AbsoluteYIndexed),
            0xdd => Instruction::CMP(MemoryAddressingMode::AbsoluteXIndexed),
            0xde => Instruction::DEC(MemoryAddressingMode::AbsoluteXIndexed),
            0xe0 => Instruction::CPX(MemoryAddressingMode::Immediate),
            0xe1 => Instruction::SBC(MemoryAddressingMode::XIndexedIndirect),
            0xe4 => Instruction::CPX(MemoryAddressingMode::ZeroPage),
            0xe5 => Instruction::SBC(MemoryAddressingMode::ZeroPage),
            0xe6 => Instruction::INC(MemoryAddressingMode::ZeroPage),
            0xe8 => Instruction::INX,
            0xe9 => Instruction::SBC(MemoryAddressingMode::Immediate),
            0xea => Instruction::NOP,
            0xec => Instruction::CPX(MemoryAddressingMode::Absolute),
            0xed => Instruction::SBC(MemoryAddressingMode::Absolute),
            0xee => Instruction::INC(MemoryAddressingMode::Absolute),
            0xf0 => Instruction::BEQ,
            0xf1 => Instruction::SBC(MemoryAddressingMode::IndirectYIndexed),
            0xf5 => Instruction::SBC(MemoryAddressingMode::ZeroPageXIndexed),
            0xf6 => Instruction::INC(MemoryAddressingMode::ZeroPageXIndexed),
            0xf8 => Instruction::SED,
            0xf9 => Instruction::SBC(MemoryAddressingMode::AbsoluteYIndexed),
            0xfd => Instruction::SBC(MemoryAddressingMode::AbsoluteXIndexed),
            0xfe => Instruction::INC(MemoryAddressingMode::AbsoluteXIndexed),
            _ => {
                return None;
            },
        };
        Some(instruction)
    }
}

/// The instruction filed under each opcode: the opcode map read the other
/// way round.
spec fn instruction_at(opcode: u8) -> Option<Instruction> {
    match opcode {

        0x00 => Some(Instruction::BRK),
        0x01 => Some(Instruction::ORA(MemoryAddressingMode::XIndexedIndirect)),
        0x05 => Some(Instruction::ORA(MemoryAddressingMode::ZeroPage)),
        0x06 => Some(Instruction::ASL(AddressingMode::Memory(MemoryAddressingMode::ZeroPage))),
        0x08 => Some(Instruction::PHP),
        0x09 => Some(Instruction::ORA(MemoryAddressingMode::Immediate)),
        0x0a => Some(Instruction::ASL(AddressingMode::Accumulator)),
        0x0d => Some(Instruction::ORA(MemoryAddressingMode::Absolute)),
        0x0e => Some(Instruction::ASL(AddressingMode::Memory(MemoryAddressingMode::Absolute))),
        0x10 => Some(Instruction::BPL),
        0x11 => Some(Instruction::ORA(MemoryAddressingMode::IndirectYIndexed)),
        0x15 => Some(Instruction::ORA(MemoryAddressingMode::ZeroPageXIndexed)),
        0x16 => Some(Instruction::ASL(AddressingMode::Memory(MemoryAddressingMode::ZeroPageXIndexed))),
        0x18 => Some(Instruction::CLC),
        0x19 => Some(Instruction::ORA(MemoryAddressingMode::AbsoluteYIndexed)),
        0x1d => Some(Instruction::ORA(MemoryAddressingMode::AbsoluteXIndexed)),
        0x1e => Some(Instruction::ASL(AddressingMode::Memory(MemoryAddressingMode::AbsoluteXIndexed))),
        0x20 => Some(Instruction::JSR),
        0x21 => Some(Instruction::AND(MemoryAddressingMode::XIndexedIndirect)),
        0x24 => Some(Instruction::BIT(MemoryAddressingMode::ZeroPage)),
        0x25 => Some(Instruction::AND(MemoryAddressingMode::ZeroPage)),
        0x26 => Some(Instruction::ROL(AddressingMode::Memory(MemoryAddressingMode::ZeroPage))),
        0x28 => Some(Instruction::PLP),
        0x29 => Some(Instruction::AND(MemoryAddressingMode::Immediate)),
        0x2a => Some(Instruction::ROL(AddressingMode::Accumulator)),
        0x2c => Some(Instruction::BIT(MemoryAddressingMode::Absolute)),
        0x2d => Some(Instruction::AND(MemoryAddressingMode::Absolute)),
        0x2e => Some(Instruction::ROL(AddressingMode::Memory(MemoryAddressingMode::Absolute))),
        0x30 => Some(Instruction::BMI),
        0x31 => Some(Instruction::AND(MemoryAddressingMode::IndirectYIndexed)),
        0x35 => Some(Instruction::AND(MemoryAddressingMode::ZeroPageXIndexed)),
        0x36 => Some(Instruction::ROL(AddressingMode::Memory(MemoryAddressingMode::ZeroPageXIndexed))),
        0x38 => Some(Instruction::SEC),
        0x39 => Some(Instruction::AND(MemoryAddressingMode::AbsoluteYIndexed)),
        0x3d => Some(Instruction::AND(MemoryAddressingMode::AbsoluteXIndexed)),
        0x3e => Some(Instruction::ROL(AddressingMode::Memory(MemoryAddressingMode::AbsoluteXIndexed))),
        0x40 => Some(Instruction::RTI),
        0x41 => Some(Instruction::EOR(MemoryAddressingMode::XIndexedIndirect)),
        0x45 => Some(Instruction::EOR(MemoryAddressingMode::ZeroPage)),
        0x46 => Some(Instruction::LSR(AddressingMode::Memory(MemoryAddressingMode::ZeroPage))),
        0x48 => Some(Instruction::PHA),
        0x49 => Some(Instruction::EOR(MemoryAddressingMode::Immediate)),
        0x4a => Some(Instruction::LSR(AddressingMode::Accumulator)),
        0x4c => Some(Instruction::JMP),
        0x4d => Some(Instruction::EOR(MemoryAddressingMode::Absolute)),
        0x4e => Some(Instruction::LSR(AddressingMode::Memory(MemoryAddressingMode::Absolute))),
        0x50 => Some(Instruction::BVC),
        0x51 => Some(Instruction::EOR(MemoryAddressingMode::IndirectYIndexed)),
        0x55 => Some(Instruction::EOR(MemoryAddressingMode::ZeroPageXIndexed)),
        0x56 => Some(Instruction::LSR(AddressingMode::Memory(MemoryAddressingMode::ZeroPageXIndexed))),
        0x58 => Some(Instruction::CLI),
        0x59 => Some(Instruction::EOR(MemoryAddressingMode::AbsoluteYIndexed)),
        0x5d => Some(Instruction::EOR(MemoryAddressingMode::AbsoluteXIndexed)),
        0x5e => Some(Instruction::LSR(AddressingMode::Memory(MemoryAddressingMode::AbsoluteXIndexed))),
        0x60 => Some(Instruction::RTS),
        0x61 => Some(Instruction::ADC(MemoryAddressingMode::XIndexedIndirect)),
        0x65 => Some(Instruction::ADC(MemoryAddressingMode::ZeroPage)),
        0x66 => Some(Instruction::ROR(AddressingMode::Memory(MemoryAddressingMode::ZeroPage))),
        0x68 => Some(Instruction::PLA),
        0x69 => Some(Instruction::ADC(MemoryAddressingMode::Immediate)),
        0x6a => Some(Instruction::ROR(AddressingMode::Accumulator)),
        0x6c => Some(Instruction::JMPI),
        0x6d => Some(Instruction::ADC(MemoryAddressingMode::Absolute)),
        0x6e => Some(Instruction::ROR(AddressingMode::Memory(MemoryAddressingMode::Absolute))),
        0x70 => Some(Instruction::BVS),
        0x71 => Some(Instruction::ADC(MemoryAddressingMode::IndirectYIndexed)),
        0x75 => Some(Instruction::ADC(MemoryAddressingMode::ZeroPageXIndexed)),
        0x76 => Some(Instruction::ROR(AddressingMode::Memory(MemoryAddressingMode::ZeroPageXIndexed))),
        0x78 => Some(Instruction::SEI),
        0x79 => Some(Instruction::ADC(MemoryAddressingMode::AbsoluteYIndexed)),
        0x7d => Some(Instruction::ADC(MemoryAddressingMode::AbsoluteXIndexed)),
        0x7e => Some(Instruction::ROR(AddressingMode::Memory(MemoryAddressingMode::AbsoluteXIndexed))),
        0x81 => Some(Instruction::STA(MemoryAddressingMode::XIndexedIndirect)),
        0x84 => Some(Instruction::STY(MemoryAddressingMode::ZeroPage)),
        0x85 => Some(Instruction::STA(MemoryAddressingMode::ZeroPage)),
        0x86 => Some(Instruction::STX(MemoryAddressingMode::ZeroPage)),
        0x88 => Some(Instruction::DEY),
        0x8a => Some(Instruction::TXA),
        0x8c => Some(Instruction::STY(MemoryAddressingMode::Absolute)),
        0x8d => Some(Instruction::STA(MemoryAddressingMode::Absolute)),
        0x8e => Some(Instruction::STX(MemoryAddressingMode::Absolute)),
        0x90 => Some(Instruction::BCC),
        0x91 => Some(Instruction::STA(MemoryAddressingMode::IndirectYIndexed)),
        0x94 => Some(Instruction::STY(MemoryAddressingMode::ZeroPageXIndexed)),
        0x95 => Some(Instruction::STA(MemoryAddressingMode::ZeroPageXIndexed)),
        0x96 => Some(Instruction::STX(MemoryAddressingMode::ZeroPageYIndexed)),
        0x98 => Some(Instruction::TYA),
        0x99 => Some(Instruction::STA(MemoryAddressingMode::AbsoluteYIndexed)),
        0x9a => Some(Instruction::TXS),
        0x9d => Some(Instruction::STA(MemoryAddressingMode::AbsoluteXIndexed)),
        0xa0 => Some(Instruction::LDY(MemoryAddressingMode::Immediate)),
        0xa1 => Some(Instruction::LDA(MemoryAddressingMode::XIndexedIndirect)),
        0xa2 => Some(Instruction::LDX(MemoryAddressingMode::Immediate)),
        0xa4 => Some(Instruction::LDY(MemoryAddressingMode::ZeroPage)),
        0xa5 => Some(Instruction::LDA(MemoryAddressingMode::ZeroPage)),
        0xa6 => Some(Instruction::LDX(MemoryAddressingMode::ZeroPage)),
        0xa8 => Some(Instruction::TAY),
        0xa9 => Some(Instruction::LDA(MemoryAddressingMode::Immediate)),
        0xaa => Some(Instruction::TAX),
        0xac => Some(Instruction::LDY(MemoryAddressingMode::Absolute)),
        0xad => Some(Instruction::LDA(MemoryAddressingMode::Absolute)),
        0xae => Some(Instruction::LDX(MemoryAddressingMode::Absolute)),
        0xb0 => Some(Instruction::BCS),
        0xb1 => Some(Instruction::LDA(MemoryAddressingMode::IndirectYIndexed)),
        0xb4 => Some(Instruction::LDY(MemoryAddressingMode::ZeroPageXIndexed)),
        0xb5 => Some(Instruction::LDA(MemoryAddressingMode::ZeroPageXIndexed)),
        0xb6 => Some(Instruction::LDX(MemoryAddressingMode::ZeroPageYIndexed)),
        0xb8 => Some(Instruction::CLV),
        0xb9 => Some(Instruction::LDA(MemoryAddressingMode::AbsoluteYIndexed)),
        0xba => Some(Instruction::TSX),
        0xbc => Some(Instruction::LDY(MemoryAddressingMode::AbsoluteXIndexed)),
        0xbd => Some(Instruction::LDA(MemoryAddressingMode::AbsoluteXIndexed)),
        0xbe => Some(Instruction::LDX(MemoryAddressingMode::AbsoluteYIndexed)),
        0xc0 => Some(Instruction::CPY(MemoryAddressingMode::Immediate)),
        0xc1 => Some(Instruction::CMP(MemoryAddressingMode::XIndexedIndirect)),
        0xc4 => Some(Instruction::CPY(MemoryAddressingMode::ZeroPage)),
        0xc5 => Some(Instruction::CMP(MemoryAddressingMode::ZeroPage)),
        0xc6 => Some(Instruction::DEC(MemoryAddressingMode::ZeroPage)),
        0xc8 => Some(Instruction::INY),
        0xc9 => Some(Instruction::CMP(MemoryAddressingMode::Immediate)),
        0xca => Some(Instruction::DEX),
        0xcc => Some(Instruction::CPY(MemoryAddressingMode::Absolute)),
        0xcd => Some(Instruction::CMP(MemoryAddressingMode::Absolute)),
        0xce => Some(Instruction::DEC(MemoryAddressingMode::Absolute)),
        0xd0 => Some(Instruction::BNE),
        0xd1 => Some(Instruction::CMP(MemoryAddressingMode::IndirectYIndexed)),
        0xd5 => Some(Instruction::CMP(MemoryAddressingMode::ZeroPageXIndexed)),
        0xd6 => Some(Instruction::DEC(MemoryAddressingMode::ZeroPageXIndexed)),
        0xd8 => Some(Instruction::CLD),
        0xd9 => Some(Instruction::CMP(MemoryAddressingMode::AbsoluteYIndexed)),
        0xdd => Some(Instruction::CMP(MemoryAddressingMode::AbsoluteXIndexed)),
        0xde => Some(Instruction::DEC(MemoryAddressingMode::AbsoluteXIndexed)),
        0xe0 => Some(Instruction::CPX(MemoryAddressingMode::Immediate)),
        0xe1 => Some(Instruction::SBC(MemoryAddressingMode::XIndexedIndirect)),
        0xe4 => Some(Instruction::CPX(MemoryAddressingMode::ZeroPage)),
        0xe5 => Some(Instruction::SBC(MemoryAddressingMode::ZeroPage)),
        0xe6 => Some(Instruction::INC(MemoryAddressingMode::ZeroPage)),
        0xe8 => Some(Instruction::INX),
        0xe9 => Some(Instruction::SBC(MemoryAddressingMode::Immediate)),
        0xea => Some(Instruction::NOP),
        0xec => Some(Instruction::CPX(MemoryAddressingMode::Absolute)),
        0xed => Some(Instruction::SBC(MemoryAddressingMode::Absolute)),
        0xee => Some(Instruction::INC(MemoryAddressingMode::Absolute)),
        0xf0 => Some(Instruction::BEQ),
        0xf1 => Some(Instruction::SBC(MemoryAddressingMode::IndirectYIndexed)),
        0xf5 => Some(Instruction::SBC(MemoryAddressingMode::ZeroPageXIndexed)),
        0xf6 => Some(Instruction::INC(MemoryAddressingMode::ZeroPageXIndexed)),
        0xf8 => Some(Instruction::SED),
        0xf9 => Some(Instruction::SBC(MemoryAddressingMode::AbsoluteYIndexed)),
        0xfd => Some(Instruction::SBC(MemoryAddressingMode::AbsoluteXIndexed)),
        0xfe => Some(Instruction::INC(MemoryAddressingMode::AbsoluteXIndexed)),
        _ => None,
    }
}

#[verifier::rlimit(100)]
#[verifier::spinoff_prover]
proof fn lemma_instruction_at_inverts_opcode(i: Instruction)
    requires
        i.opcode() is Some,
    ensures
        instruction_at(i.opcode()->Some_0) == Some(i),
{
    match i {

        Instruction::ORA(mode) => match mode {
            MemoryAddressingMode::Immediate => {
                assert(instruction_at(0x09) == Some(i));
            },
            MemoryAddressingMode::Absolute => {
                assert(instruction_at(0x0d) == Some(i));
            },
            MemoryAddressingMode::ZeroPage => {
                assert(instruction_at(0x05) == Some(i));
            },
            MemoryAddressingMode::AbsoluteXIndexed => {
                assert(instruction_at(0x1d) == Some(i));
            },
            MemoryAddressingMode::AbsoluteYIndexed => {
                assert(instruction_at(0x19) == Some(i));
            },
            MemoryAddressingMode::ZeroPageXIndexed => {
                assert(instruction_at(0x15) == Some(i));
            },
            MemoryAddressingMode::XIndexedIndirect => {
                assert(instruction_at(0x01) == Some(i));
            },
            MemoryAddressingMode::IndirectYIndexed => {
                assert(instruction_at(0x11) == Some(i));
            },
            _ => {},
        },
        Instruction::AND(mode) => match mode {
            MemoryAddressingMode::Immediate => {
                assert(instruction_at(0x29) == Some(i));
            },
            MemoryAddressingMode::Absolute => {
                assert(instruction_at(0x2d) == Some(i));
            },
            MemoryAddressingMode::ZeroPage => {
                assert(instruction_at(0x25) == Some(i));
            },
            MemoryAddressingMode::AbsoluteXIndexed => {
                assert(instruction_at(0x3d) == Some(i));
            },
            MemoryAddressingMode::AbsoluteYIndexed => {
                assert(instruction_at(0x39) == Some(i));
            },
            MemoryAddressingMode::ZeroPageXIndexed => {
                assert(instruction_at(0x35) == Some(i));
            },
            MemoryAddressingMode::XIndexedIndirect => {
                assert(instruction_at(0x21) == Some(i));
            },
            MemoryAddressingMode::IndirectYIndexed => {
                assert(instruction_at(0x31) == Some(i));
            },
            _ => {},
        },
        Instruction::EOR(mode) => match mode {
            MemoryAddressingMode::Immediate => {
                assert(instruction_at(0x49) == Some(i));
            },
            MemoryAddressingMode::Absolute => {
                assert(instruction_at(0x4d) == Some(i));
            },
            MemoryAddressingMode::ZeroPage => {
                assert(instruction_at(0x45) == Some(i));
            },
            MemoryAddressingMode::AbsoluteXIndexed => {
                assert(instruction_at(0x5d) == Some(i));
            },
            MemoryAddressingMode::AbsoluteYIndexed => {
                assert(instruction_at(0x59) == Some(i));
            },
            MemoryAddressingMode::ZeroPageXIndexed => {
                assert(instruction_at(0x55) == Some(i));
            },
            MemoryAddressingMode::XIndexedIndirect => {
                assert(instruction_at(0x41) == Some(i));
            },
            MemoryAddressingMode::IndirectYIndexed => {
                assert(instruction_at(0x51) == Some(i));
            },
            _ => {},
        },
        Instruction::ADC(mode) => match mode {
            MemoryAddressingMode::Immediate => {
                assert(instruction_at(0x69) == Some(i));
            },
            MemoryAddressingMode::Absolute => {
                assert(instruction_at(0x6d) == Some(i));
            },
            MemoryAddressingMode::ZeroPage => {
                assert(instruction_at(0x65) == Some(i));
            },
            MemoryAddressingMode::AbsoluteXIndexed => {
                assert(instruction_at(0x7d) == Some(i));
            },
            MemoryAddressingMode::AbsoluteYIndexed => {
                assert(instruction_at(0x79) == Some(i));
            },
            MemoryAddressingMode::ZeroPageXIndexed => {
                assert(instruction_at(0x75) == Some(i));
            },
            MemoryAddressingMode::XIndexedIndirect => {
                assert(instruction_at(0x61) == Some(i));
            },
            MemoryAddressingMode::IndirectYIndexed => {
                assert(instruction_at(0x71) == Some(i));
            },
            _ => {},
        },
        Instruction::STA(mode) => match mode {
            MemoryAddressingMode::Absolute => {
                assert(instruction_at(0x8d) == Some(i));
            },
            MemoryAddressingMode::ZeroPage => {
                assert(instruction_at(0x85) == Some(i));
            },
            MemoryAddressingMode::AbsoluteXIndexed => {
                assert(instruction_at(0x9d) == Some(i));
            },
            MemoryAddressingMode::AbsoluteYIndexed => {
                assert(instruction_at(0x99) == Some(i));
            },
            MemoryAddressingMode::ZeroPageXIndexed => {
                assert(instruction_at(0x95) == Some(i));
            },
            MemoryAddressingMode::XIndexedIndirect => {
                assert(instruction_at(0x81) == Some(i));
            },
            MemoryAddressingMode::IndirectYIndexed => {
                assert(instruction_at(0x91) == Some(i));
            },
            _ => {},
        },
        Instruction::LDA(mode) => match mode {
            MemoryAddressingMode::Immediate => {
                assert(instruction_at(0xa9) == Some(i));
            },
            MemoryAddressingMode::Absolute => {
                assert(instruction_at(0xad) == Some(i));
            },
            MemoryAddressingMode::ZeroPage => {
                assert(instruction_at(0xa5) == Some(i));
            },
            MemoryAddressingMode::AbsoluteXIndexed => {
                assert(instruction_at(0xbd) == Some(i));
            },
            MemoryAddressingMode::AbsoluteYIndexed => {
                assert(instruction_at(0xb9) == Some(i));
            },
            MemoryAddressingMode::ZeroPageXIndexed => {
                assert(instruction_at(0xb5) == Some(i));
            },
            MemoryAddressingMode::XIndexedIndirect => {
                assert(instruction_at(0xa1) == Some(i));
            },
            MemoryAddressingMode::IndirectYIndexed => {
                assert(instruction_at(0xb1) == Some(i));
            },
            _ => {},
        },
        Instruction::CMP(mode) => match mode {
            MemoryAddressingMode::Immediate => {
                assert(instruction_at(0xc9) == Some(i));
            },
            MemoryAddressingMode::Absolute => {
                assert(instruction_at(0xcd) == Some(i));
            },
            MemoryAddressingMode::ZeroPage => {
                assert(instruction_at(0xc5) == Some(i));
            },
            MemoryAddressingMode::AbsoluteXIndexed => {
                assert(instruction_at(0xdd) == Some(i));
            },
            MemoryAddressingMode::AbsoluteYIndexed => {
                assert(instruction_at(0xd9) == Some(i));
            },
            MemoryAddressingMode::ZeroPageXIndexed => {
                assert(instruction_at(0xd5) == Some(i));
            },
            MemoryAddressingMode::XIndexedIndirect => {
                assert(instruction_at(0xc1) == Some(i));
            },
            MemoryAddressingMode::IndirectYIndexed => {
                assert(instruction_at(0xd1) == Some(i));
            },
            _ => {},
        },
        Instruction::SBC(mode) => match mode {
            MemoryAddressingMode::Immediate => {
                assert(instruction_at(0xe9) == Some(i));
            },
            MemoryAddressingMode::Absolute => {
                assert(instruction_at(0xed) == Some(i));
            },
            MemoryAddressingMode::ZeroPage => {
                assert(instruction_at(0xe5) == Some(i));
            },
            MemoryAddressingMode::AbsoluteXIndexed => {
                assert(instruction_at(0xfd) == Some(i));
            },
            MemoryAddressingMode::AbsoluteYIndexed => {
                assert(instruction_at(0xf9) == Some(i));
            },
            MemoryAddressingMode::ZeroPageXIndexed => {
                assert(instruction_at(0xf5) == Some(i));
            },
            MemoryAddressingMode::XIndexedIndirect => {
                assert(instruction_at(0xe1) == Some(i));
            },
            MemoryAddressingMode::IndirectYIndexed => {
                assert(instruction_at(0xf1) == Some(i));
            },
            _ => {},
        },
        Instruction::STX(mode) => match mode {
            MemoryAddressingMode::Absolute => {
                assert(instruction_at(0x8e) == Some(i));
            },
            MemoryAddressingMode::ZeroPage => {
                assert(instruction_at(0x86) == Some(i));
            },
            MemoryAddressingMode::ZeroPageYIndexed => {
                assert(instruction_at(0x96) == Some(i));
            },
            _ => {},
        },
        Instruction::LDX(mode) => match mode {
            MemoryAddressingMode::Immediate => {
                assert(instruction_at(0xa2) == Some(i));
            },
            MemoryAddressingMode::Absolute => {
                assert(instruction_at(0xae) == Some(i));
            },
            MemoryAddressingMode::ZeroPage => {
                assert(instruction_at(0xa6) == Some(i));
            },
            MemoryAddressingMode::AbsoluteYIndexed => {
                assert(instruction_at(0xbe) == Some(i));
            },
            MemoryAddressingMode::ZeroPageYIndexed => {
                assert(instruction_at(0xb6) == Some(i));
            },
            _ => {},
        },
        Instruction::DEC(mode) => match mode {
            MemoryAddressingMode::Absolute => {
                assert(instruction_at(0xce) == Some(i));
            },
            MemoryAddressingMode::ZeroPage => {
                assert(instruction_at(0xc6) == Some(i));
            },
            MemoryAddressingMode::AbsoluteXIndexed => {
                assert(instruction_at(0xde) == Some(i));
            },
            MemoryAddressingMode::ZeroPageXIndexed => {
                assert(instruction_at(0xd6) == Some(i));
            },
            _ => {},
        },
        Instruction::INC(mode) => match mode {
            MemoryAddressingMode::Absolute => {
                assert(instruction_at(0xee) == Some(i));
            },
            MemoryAddressingMode::ZeroPage => {
                assert(instruction_at(0xe6) == Some(i));
            },
            MemoryAddressingMode::AbsoluteXIndexed => {
                assert(instruction_at(0xfe) == Some(i));
            },
            MemoryAddressingMode::ZeroPageXIndexed => {
                assert(instruction_at(0xf6) == Some(i));
            },
            _ => {},
        },
        Instruction::BIT(mode) => match mode {
            MemoryAddressingMode::Absolute => {
                assert(instruction_at(0x2c) == Some(i));
            },
            MemoryAddressingMode::ZeroPage => {
                assert(instruction_at(0x24) == Some(i));
            },
            _ => {},
        },
        Instruction::STY(mode) => match mode {
            MemoryAddressingMode::Absolute => {
                assert(instruction_at(0x8c) == Some(i));
            },
            MemoryAddressingMode::ZeroPage => {
                assert(instruction_at(0x84) == Some(i));
            },
            MemoryAddressingMode::ZeroPageXIndexed => {
                assert(instruction_at(0x94) == Some(i));
            },
            _ => {},
        },
        Instruction::LDY(mode) => match mode {
            MemoryAddressingMode::Immediate => {
                assert(instruction_at(0xa0) == Some(i));
            },
            MemoryAddressingMode::Absolute => {
                assert(instruction_at(0xac) == Some(i));
            },
            MemoryAddressingMode::ZeroPage => {
                assert(instruction_at(0xa4) == Some(i));
            },
            MemoryAddressingMode::AbsoluteXIndexed => {
                assert(instruction_at(0xbc) == Some(i));
            },
            MemoryAddressingMode::ZeroPageXIndexed => {
                assert(instruction_at(0xb4) == Some(i));
            },
            _ => {},
        },
        Instruction::CPY(mode) => match mode {
            MemoryAddressingMode::Immediate => {
                assert(instruction_at(0xc0) == Some(i));
            },
            MemoryAddressingMode::Absolute => {
                assert(instruction_at(0xcc) == Some(i));
            },
            MemoryAddressingMode::ZeroPage => {
                assert(instruction_at(0xc4) == Some(i));
            },
            _ => {},
        },
        Instruction::CPX(mode) => match mode {
            MemoryAddressingMode::Immediate => {
                assert(instruction_at(0xe0) == Some(i));
            },
            MemoryAddressingMode::Absolute => {
                assert(instruction_at(0xec) == Some(i));
            },
            MemoryAddressingMode::ZeroPage => {
                assert(instruction_at(0xe4) == Some(i));
            },
            _ => {},
        },
        Instruction::ASL(mode) => match mode {
            AddressingMode::Accumulator => {
                assert(instruction_at(0x0a) == Some(i));
            },
            AddressingMode::Memory(memory_mode) => match memory_mode {
                MemoryAddressingMode::Absolute => {
                    assert(instruction_at(0x0e) == Some(i));
                },
                MemoryAddressingMode::ZeroPage => {
                    assert(instruction_at(0x06) == Some(i));
                },
                MemoryAddressingMode::AbsoluteXIndexed => {
                    assert(instruction_at(0x1e) == Some(i));
                },
                MemoryAddressingMode::ZeroPageXIndexed => {
                    assert(instruction_at(0x16) == Some(i));
                },
                _ => {},
            },
        },
        Instruction::ROL(mode) => match mode {
            AddressingMode::Accumulator => {
                assert(instruction_at(0x2a) == Some(i));
            },
            AddressingMode::Memory(memory_mode) => match memory_mode {
                MemoryAddressingMode::Absolute => {
                    assert(instruction_at(0x2e) == Some(i));
                },
                MemoryAddressingMode::ZeroPage => {
                    assert(instruction_at(0x26) == Some(i));
                },
                MemoryAddressingMode::AbsoluteXIndexed => {
                    assert(instruction_at(0x3e) == Some(i));
                },
                MemoryAddressingMode::ZeroPageXIndexed => {
                    assert(instruction_at(0x36) == Some(i));
                },
                _ => {},
            },
        },
        Instruction::LSR(mode) => match mode {
            AddressingMode::Accumulator => {
                assert(instruction_at(0x4a) == Some(i));
            },
            AddressingMode::Memory(memory_mode) => match memory_mode {
                MemoryAddressingMode::Absolute => {
                    assert(instruction_at(0x4e) == Some(i));
                },
                MemoryAddressingMode::ZeroPage => {
                    assert(instruction_at(0x46) == Some(i));
                },
                MemoryAddressingMode::AbsoluteXIndexed => {
                    assert(instruction_at(0x5e) == Some(i));
                },
                MemoryAddressingMode::ZeroPageXIndexed => {
                    assert(instruction_at(0x56) == Some(i));
                },
                _ => {},
            },
        },
        Instruction::ROR(mode) => match mode {
            AddressingMode::Accumulator => {
                assert(instruction_at(0x6a) == Some(i));
            },
            AddressingMode::Memory(memory_mode) => match memory_mode {
                MemoryAddressingMode::Absolute => {
                    assert(instruction_at(0x6e) == Some(i));
                },
                MemoryAddressingMode::ZeroPage => {
                    assert(instruction_at(0x66) == Some(i));
                },
                MemoryAddressingMode::AbsoluteXIndexed => {
                    assert(instruction_at(0x7e) == Some(i));
                },
                MemoryAddressingMode::ZeroPageXIndexed => {
                    assert(instruction_at(0x76) == Some(i));
                },
                _ => {},
            },
        },
        _ => {},
    }
}

/// No two instructions share an opcode, so an opcode names its instruction.
pub proof fn lemma_opcode_names_one_instruction(i: Instruction, j: Instruction)
    requires
        i.opcode() is Some,
        i.opcode() == j.opcode(),
    ensures
        i == j,
{
    lemma_instruction_at_inverts_opcode(i);
    lemma_instruction_at_inverts_opcode(j);
}

/// An instruction is what its opcode decodes to.
pub proof fn lemma_decode(i: Instruction)
    requires
        i.opcode() is Some,
    ensures
        Instruction::spec_decode(i.opcode()->Some_0) == Ok::<Instruction, Error>(i),
{
    let opcode = i.opcode()->Some_0;
    let chosen = choose|j: Instruction| j.opcode() == Some(opcode);
    lemma_opcode_names_one_instruction(i, chosen);
}

} // verus!
