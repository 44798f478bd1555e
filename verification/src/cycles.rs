//! The base cycle counts, by addressing mode and operation.
use vstd::prelude::*;
use crate::addressing_mode::AddressingMode;
use crate::operation_type::OperationType;

verus! {

/// The cycle-count table: the base cycles of each pairing of addressing mode
/// and operation, and `None` for a pairing that the table does not hold.
///
/// A count is that of the plain instruction: it leaves out the cycle that a
/// taken branch adds and the one that crossing a page adds. A pairing outside
/// the documented instruction set has the count of its access pattern: a read
/// takes what a load takes in that mode, a store what a store takes.
pub open spec fn cycle_table(mode: AddressingMode, operation: OperationType) -> Option<u8> {
    match mode {
        AddressingMode::Immediate => match operation {
            OperationType::ADC | OperationType::AND | OperationType::ASL | OperationType::CMP
            | OperationType::CPX | OperationType::CPY | OperationType::DEC | OperationType::EOR
            | OperationType::INC | OperationType::LDA | OperationType::LDX | OperationType::LDY
            | OperationType::LSR | OperationType::ORA | OperationType::ROL | OperationType::ROR
            | OperationType::SBC | OperationType::STA | OperationType::STX | OperationType::STY
            => Some(2),
            _ => None,
        },
        AddressingMode::ZeroPage => match operation {
            OperationType::ADC | OperationType::AND | OperationType::BIT | OperationType::CMP
            | OperationType::CPX | OperationType::CPY | OperationType::EOR | OperationType::JMP
            | OperationType::LDA | OperationType::LDX | OperationType::LDY | OperationType::ORA
            | OperationType::SBC | OperationType::STA | OperationType::STX | OperationType::STY
            => Some(3),
            OperationType::ASL | OperationType::DEC | OperationType::INC | OperationType::LSR
            | OperationType::ROL | OperationType::ROR => Some(5),
            _ => None,
        },
        AddressingMode::ZeroPageX => match operation {
            OperationType::ADC | OperationType::AND | OperationType::BIT | OperationType::CMP
            | OperationType::CPX | OperationType::CPY | OperationType::EOR | OperationType::JMP
            | OperationType::LDA | OperationType::LDY | OperationType::ORA | OperationType::SBC
            | OperationType::STA | OperationType::STY => Some(4),
            OperationType::ASL | OperationType::DEC | OperationType::INC | OperationType::LSR
            | OperationType::ROL | OperationType::ROR => Some(6),
            _ => None,
        },
        AddressingMode::ZeroPageY => match operation {
            OperationType::LDX | OperationType::STX => Some(4),
            _ => None,
        },
        AddressingMode::Absolute => match operation {
            OperationType::JMP => Some(3),
            OperationType::ADC | OperationType::AND | OperationType::BIT | OperationType::CMP
            | OperationType::CPX | OperationType::CPY | OperationType::EOR | OperationType::LDA
            | OperationType::LDX | OperationType::LDY | OperationType::ORA | OperationType::SBC
            | OperationType::STA | OperationType::STX | OperationType::STY => Some(4),
            OperationType::ASL | OperationType::DEC | OperationType::INC | OperationType::JSR
            | OperationType::LSR | OperationType::ROL | OperationType::ROR => Some(6),
            _ => None,
        },
        AddressingMode::AbsoluteX => match operation {
            OperationType::ADC | OperationType::AND | OperationType::BIT | OperationType::CMP
            | OperationType::CPX | OperationType::CPY | OperationType::EOR | OperationType::JMP
            | OperationType::LDA | OperationType::LDY | OperationType::ORA | OperationType::SBC
            => Some(4),
            OperationType::STA | OperationType::STY => Some(5),
            OperationType::ASL | OperationType::DEC | OperationType::INC | OperationType::LSR
            | OperationType::ROL | OperationType::ROR => Some(7),
            _ => None,
        },
        AddressingMode::AbsoluteY => match operation {
            OperationType::ADC | OperationType::AND | OperationType::CMP | OperationType::EOR
            | OperationType::LDA | OperationType::LDX | OperationType::ORA | OperationType::SBC
            => Some(4),
            OperationType::STA | OperationType::STX => Some(5),
            _ => None,
        },
        AddressingMode::AbsoluteIndirect => match operation {
            OperationType::JMP => Some(5),
            _ => None,
        },
        AddressingMode::ZeroPageIndexedIndirectX => match operation {
            OperationType::ADC | OperationType::AND | OperationType::CMP | OperationType::EOR
            | OperationType::LDA | OperationType::ORA | OperationType::SBC | OperationType::STA
            => Some(6),
            _ => None,
        },
        AddressingMode::ZeroPageIndirectIndexedY => match operation {
            OperationType::ADC | OperationType::AND | OperationType::CMP | OperationType::EOR
            | OperationType::LDA | OperationType::ORA | OperationType::SBC => Some(5),
            OperationType::STA => Some(6),
            _ => None,
        },
        AddressingMode::Accumulator => match operation {
            OperationType::ASL | OperationType::LSR | OperationType::ROL | OperationType::ROR
            => Some(2),
            _ => None,
        },
        AddressingMode::Implied => match operation {
            OperationType::CLC | OperationType::CLD | OperationType::CLI | OperationType::CLV
            | OperationType::DEX | OperationType::DEY | OperationType::INX | OperationType::INY
            | OperationType::NOP | OperationType::SEC | OperationType::SED | OperationType::SEI
            | OperationType::TAX | OperationType::TAY | OperationType::TSX | OperationType::TXA
            | OperationType::TXS | OperationType::TYA => Some(2),
            OperationType::RTI | OperationType::RTS => Some(6),
            OperationType::BRK => Some(7),
            _ => None,
        },
        AddressingMode::Stack => match operation {
            OperationType::PHA | OperationType::PHP => Some(3),
            OperationType::PLA | OperationType::PLP => Some(4),
            _ => None,
        },
        AddressingMode::Relative => match operation {
            OperationType::BCC | OperationType::BCS | OperationType::BEQ | OperationType::BMI
            | OperationType::BNE | OperationType::BPL | OperationType::BVC | OperationType::BVS
            => Some(2),
            _ => None,
        },
    }
}

/// Looks up the base cycle count of an operation in an addressing mode.
pub fn base_cycles(mode: AddressingMode, operation: OperationType) -> (r: Option<u8>)
    ensures
        r == cycle_table(mode, operation),
{
    match mode {
        AddressingMode::Immediate => match operation {
            OperationType::ADC | OperationType::AND | OperationType::ASL | OperationType::CMP
            | OperationType::CPX | OperationType::CPY | OperationType::DEC | OperationType::EOR
            | OperationType::INC | OperationType::LDA | OperationType::LDX | OperationType::LDY
            | OperationType::LSR | OperationType::ORA | OperationType::ROL | OperationType::ROR
            | OperationType::SBC | OperationType::STA | OperationType::STX | OperationType::STY
            => Some(2),
            _ => None,
        },
        AddressingMode::ZeroPage => match operation {
            OperationType::ADC | OperationType::AND | OperationType::BIT | OperationType::CMP
            | OperationType::CPX | OperationType::CPY | OperationType::EOR | OperationType::JMP
            | OperationType::LDA | OperationType::LDX | OperationType::LDY | OperationType::ORA
            | OperationType::SBC | OperationType::STA | OperationType::STX | OperationType::STY
            => Some(3),
            OperationType::ASL | OperationType::DEC | OperationType::INC | OperationType::LSR
            | OperationType::ROL | OperationType::ROR => Some(5),
            _ => None,
        },
        AddressingMode::ZeroPageX => match operation {
            OperationType::ADC | OperationType::AND | OperationType::BIT | OperationType::CMP
            | OperationType::CPX | OperationType::CPY | OperationType::EOR | OperationType::JMP
            | OperationType::LDA | OperationType::LDY | OperationType::ORA | OperationType::SBC
            | OperationType::STA | OperationType::STY => Some(4),
            OperationType::ASL | OperationType::DEC | OperationType::INC | OperationType::LSR
            | OperationType::ROL | OperationType::ROR => Some(6),
            _ => None,
        },
        AddressingMode::ZeroPageY => match operation {
            OperationType::LDX | OperationType::STX => Some(4),
            _ => None,
        },
        AddressingMode::Absolute => match operation {
            OperationType::JMP => Some(3),
            OperationType::ADC | OperationType::AND | OperationType::BIT | OperationType::CMP
            | OperationType::CPX | OperationType::CPY | OperationType::EOR | OperationType::LDA
            | OperationType::LDX | OperationType::LDY | OperationType::ORA | OperationType::SBC
            | OperationType::STA | OperationType::STX | OperationType::STY => Some(4),
            OperationType::ASL | OperationType::DEC | OperationType::INC | OperationType::JSR
            | OperationType::LSR | OperationType::ROL | OperationType::ROR => Some(6),
            _ => None,
        },
        AddressingMode::AbsoluteX => match operation {
            OperationType::ADC | OperationType::AND | OperationType::BIT | OperationType::CMP
            | OperationType::CPX | OperationType::CPY | OperationType::EOR | OperationType::JMP
            | OperationType::LDA | OperationType::LDY | OperationType::ORA | OperationType::SBC
            => Some(4),
            OperationType::STA | OperationType::STY => Some(5),
            OperationType::ASL | OperationType::DEC | OperationType::INC | OperationType::LSR
            | OperationType::ROL | OperationType::ROR => Some(7),
            _ => None,
        },
        AddressingMode::AbsoluteY => match operation {
            OperationType::ADC | OperationType::AND | OperationType::CMP | OperationType::EOR
            | OperationType::LDA | OperationType::LDX | OperationType::ORA | OperationType::SBC
            => Some(4),
            OperationType::STA | OperationType::STX => Some(5),
            _ => None,
        },
        AddressingMode::AbsoluteIndirect => match operation {
            OperationType::JMP => Some(5),
            _ => None,
        },
        AddressingMode::ZeroPageIndexedIndirectX => match operation {
            OperationType::ADC | OperationType::AND | OperationType::CMP | OperationType::EOR
            | OperationType::LDA | OperationType::ORA | OperationType::SBC | OperationType::STA
            => Some(6),
            _ => None,
        },
        AddressingMode::ZeroPageIndirectIndexedY => match operation {
            OperationType::ADC | OperationType::AND | OperationType::CMP | OperationType::EOR
            | OperationType::LDA | OperationType::ORA | OperationType::SBC => Some(5),
            OperationType::STA => Some(6),
            _ => None,
        },
        AddressingMode::Accumulator => match operation {
            OperationType::ASL | OperationType::LSR | OperationType::ROL | OperationType::ROR
            => Some(2),
            _ => None,
        },
        AddressingMode::Implied => match operation {
            OperationType::CLC | OperationType::CLD | OperationType::CLI | OperationType::CLV
            | OperationType::DEX | OperationType::DEY | OperationType::INX | OperationType::INY
            | OperationType::NOP | OperationType::SEC | OperationType::SED | OperationType::SEI
            | OperationType::TAX | OperationType::TAY | OperationType::TSX | OperationType::TXA
            | OperationType::TXS | OperationType::TYA => Some(2),
            OperationType::RTI | OperationType::RTS => Some(6),
            OperationType::BRK => Some(7),
            _ => None,
        },
        AddressingMode::Stack => match operation {
            OperationType::PHA | OperationType::PHP => Some(3),
            OperationType::PLA | OperationType::PLP => Some(4),
            _ => None,
        },
        AddressingMode::Relative => match operation {
            OperationType::BCC | OperationType::BCS | OperationType::BEQ | OperationType::BMI
            | OperationType::BNE | OperationType::BPL | OperationType::BVC | OperationType::BVS
            => Some(2),
            _ => None,
        },
    }
}

} // verus!
