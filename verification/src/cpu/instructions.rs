//! The decode table: the instruction, the addressing mode and the base
//! cycle count of each of the 256 opcodes.

use vstd::prelude::*;
use crate::cpu::cpu_addr;
use crate::cpu::cpu_instr;
use crate::cpu::cpu_instr::nop_reads;
use crate::cpu::state::{hint, CpuState};
use crate::cpu::CPU;

verus! {

/// The instruction names of the 6502. `XXX` stands for every opcode that is
/// bound to no documented instruction.
#[derive(Clone, Copy, Debug, PartialEq, Eq, Structural)]
pub enum Mnemonic {
    // Storage
    LDA, LDX, LDY, STA, STX, STY, TAX, TAY, TSX, TXA, TXS, TYA,
    // Math
    ADC, DEC, DEX, DEY, INC, INX, INY, SBC,
    // Bitwise
    AND, ASL, BIT, EOR, LSR, ORA, ROL, ROR,
    // Branch
    BCC, BCS, BEQ, BMI, BNE, BPL, BVC, BVS,
    // Jump
    JMP, JSR, RTI, RTS,
    // Registers
    CLC, CLD, CLI, CLV, CMP, CPX, CPY, SEC, SED, SEI,
    // Stack
    PHA, PHP, PLA, PLP,
    // System
    BRK, NOP,
    // Illegal
    XXX,
}

/// How an instruction finds its operand.
#[derive(Clone, Copy, Debug, PartialEq, Eq, Structural)]
pub enum AddressingMode {
    /// Zero page: a one-byte address in page zero.
    ZP0,
    /// Zero page indexed by X, wrapping inside page zero.
    ZPX,
    /// Zero page indexed by Y, wrapping inside page zero.
    ZPY,
    /// Absolute: a two-byte address.
    ABS,
    /// Absolute indexed by X.
    ABX,
    /// Absolute indexed by Y.
    ABY,
    /// Indirect: a two-byte pointer to the address.
    IND,
    /// Implied: no operand bytes.
    IMP,
    /// Accumulator: no operand bytes. The decode table uses `IMP` in its place.
    ACC,
    /// Immediate: the operand is the byte after the opcode.
    IMM,
    /// Relative: a signed one-byte branch offset.
    REL,
    /// Indexed indirect: a zero-page pointer, indexed by X before it is read.
    IZX,
    /// Indirect indexed: a zero-page pointer whose target is indexed by Y.
    IZY,
}

pub type OpCode = u8;

/// One row of the decode table.
#[derive(Clone, Copy, Debug, PartialEq, Eq, Structural)]
pub struct Instruction {
    pub mnemonic: Mnemonic,
    pub mode: AddressingMode,
    pub cycles: u8,
}

/// The instruction name bound to each opcode.
pub open spec fn mnemonic_of(opcode: u8) -> Mnemonic {
    match opcode {
        0xA1 | 0xA5 | 0xA9 | 0xAD | 0xB1 | 0xB5 | 0xB9 | 0xBD => Mnemonic::LDA,
        0xA2 | 0xA6 | 0xAE | 0xB6 | 0xBE => Mnemonic::LDX,
        0xA0 | 0xA4 | 0xAC | 0xB4 | 0xBC => Mnemonic::LDY,
        0x81 | 0x85 | 0x8D | 0x91 | 0x95 | 0x99 | 0x9D => Mnemonic::STA,
        0x86 | 0x8E | 0x96 => Mnemonic::STX,
        0x84 | 0x8C | 0x94 => Mnemonic::STY,
        0xAA => Mnemonic::TAX,
        0xA8 => Mnemonic::TAY,
        0xBA => Mnemonic::TSX,
        0x8A => Mnemonic::TXA,
        0x9A => Mnemonic::TXS,
        0x98 => Mnemonic::TYA,
        0x61 | 0x65 | 0x69 | 0x6D | 0x71 | 0x75 | 0x79 | 0x7D => Mnemonic::ADC,
        0xC6 | 0xCE | 0xD6 | 0xDE => Mnemonic::DEC,
        0xCA => Mnemonic::DEX,
        0x88 => Mnemonic::DEY,
        0xE6 | 0xEE | 0xF6 | 0xFE => Mnemonic::INC,
        0xE8 => Mnemonic::INX,
        0xC8 => Mnemonic::INY,
        0xE1 | 0xE5 | 0xE9 | 0xEB | 0xED | 0xF1 | 0xF5 | 0xF9 | 0xFD => Mnemonic::SBC,
        0x21 | 0x25 | 0x29 | 0x2D | 0x31 | 0x35 | 0x39 | 0x3D => Mnemonic::AND,
        0x06 | 0x0A | 0x0E | 0x16 | 0x1E => Mnemonic::ASL,
        0x24 | 0x2C => Mnemonic::BIT,
        0x41 | 0x45 | 0x49 | 0x4D | 0x51 | 0x55 | 0x59 | 0x5D => Mnemonic::EOR,
        0x46 | 0x4A | 0x4E | 0x56 | 0x5E => Mnemonic::LSR,
        0x01 | 0x05 | 0x09 | 0x0D | 0x11 | 0x15 | 0x19 | 0x1D => Mnemonic::ORA,
        0x26 | 0x2A | 0x2E | 0x36 | 0x3E => Mnemonic::ROL,
        0x66 | 0x6A | 0x6E | 0x76 | 0x7E => Mnemonic::ROR,
        0x90 => Mnemonic::BCC,
        0xB0 => Mnemonic::BCS,
        0xF0 => Mnemonic::BEQ,
        0x30 => Mnemonic::BMI,
        0xD0 => Mnemonic::BNE,
        0x10 => Mnemonic::BPL,
        0x50 => Mnemonic::BVC,
        0x70 => Mnemonic::BVS,
        0x4C | 0x6C => Mnemonic::JMP,
        0x20 => Mnemonic::JSR,
        0x40 => Mnemonic::RTI,
        0x60 => Mnemonic::RTS,
        0x18 => Mnemonic::CLC,
        0xD8 => Mnemonic::CLD,
        0x58 => Mnemonic::CLI,
        0xB8 => Mnemonic::CLV,
        0xC1 | 0xC5 | 0xC9 | 0xCD | 0xD1 | 0xD5 | 0xD9 | 0xDD => Mnemonic::CMP,
        0xE0 | 0xE4 | 0xEC => Mnemonic::CPX,
        0xC0 | 0xC4 | 0xCC => Mnemonic::CPY,
        0x38 => Mnemonic::SEC,
        0xF8 => Mnemonic::SED,
        0x78 => Mnemonic::SEI,
        0x48 => Mnemonic::PHA,
        0x08 => Mnemonic::PHP,
        0x68 => Mnemonic::PLA,
        0x28 => Mnemonic::PLP,
        0x00 => Mnemonic::BRK,
        0x04 | 0x0C | 0x14 | 0x1A | 0x1C | 0x34 | 0x3A | 0x3C | 0x44
        | 0x54 | 0x5A | 0x5C | 0x64 | 0x74 | 0x7A | 0x7C | 0x80 | 0x82
        | 0x89 | 0x9C | 0xC2 | 0xD4 | 0xDA | 0xDC | 0xE2 | 0xEA | 0xF4
        | 0xFA | 0xFC => Mnemonic::NOP,
        _ => Mnemonic::XXX,
    }
}

/// The addressing mode bound to each opcode.
pub open spec fn mode_of(opcode: u8) -> AddressingMode {
    match opcode {
        0x05 | 0x06 | 0x24 | 0x25 | 0x26 | 0x45 | 0x46 | 0x65 | 0x66
        | 0x84 | 0x85 | 0x86 | 0xA4 | 0xA5 | 0xA6 | 0xC4 | 0xC5 | 0xC6
        | 0xE4 | 0xE5 | 0xE6 => AddressingMode::ZP0,
        0x15 | 0x16 | 0x35 | 0x36 | 0x55 | 0x56 | 0x75 | 0x76 | 0x94
        | 0x95 | 0xB4 | 0xB5 | 0xD5 | 0xD6 | 0xF5 | 0xF6 => AddressingMode::ZPX,
        0x96 | 0xB6 => AddressingMode::ZPY,
        0x0D | 0x0E | 0x20 | 0x2C | 0x2D | 0x2E | 0x4C | 0x4D | 0x4E
        | 0x6D | 0x6E | 0x8C | 0x8D | 0x8E | 0xAC | 0xAD | 0xAE | 0xCC
        | 0xCD | 0xCE | 0xEC | 0xED | 0xEE => AddressingMode::ABS,
        0x1D | 0x1E | 0x3D | 0x3E | 0x5D | 0x5E | 0x7D | 0x7E | 0x9D
        | 0xBC | 0xBD | 0xDD | 0xDE | 0xFD | 0xFE => AddressingMode::ABX,
        0x19 | 0x39 | 0x59 | 0x79 | 0x99 | 0xB9 | 0xBE | 0xD9 | 0xF9 => AddressingMode::ABY,
        0x6C => AddressingMode::IND,
        0x00 | 0x09 | 0x29 | 0x49 | 0x69 | 0xA0 | 0xA2 | 0xA9 | 0xC0
        | 0xC9 | 0xE0 | 0xE9 => AddressingMode::IMM,
        0x10 | 0x30 | 0x50 | 0x70 | 0x90 | 0xB0 | 0xD0 | 0xF0 => AddressingMode::REL,
        0x01 | 0x21 | 0x41 | 0x61 | 0x81 | 0xA1 | 0xC1 | 0xE1 => AddressingMode::IZX,
        0x11 | 0x31 | 0x51 | 0x71 | 0x91 | 0xB1 | 0xD1 | 0xF1 => AddressingMode::IZY,
        _ => AddressingMode::IMP,
    }
}

/// The base cycle count bound to each opcode.
pub open spec fn cycles_of(opcode: u8) -> u8 {
    match opcode {
        0x04 | 0x05 | 0x08 | 0x24 | 0x25 | 0x44 | 0x45 | 0x48 | 0x4C
        | 0x64 | 0x65 | 0x84 | 0x85 | 0x86 | 0x87 | 0xA4 | 0xA5 | 0xA6
        | 0xA7 | 0xC4 | 0xC5 | 0xE4 | 0xE5 => 3,
        0x0C | 0x0D | 0x14 | 0x15 | 0x19 | 0x1C | 0x1D | 0x28 | 0x2C
        | 0x2D | 0x34 | 0x35 | 0x39 | 0x3C | 0x3D | 0x4D | 0x54 | 0x55
        | 0x59 | 0x5C | 0x5D | 0x68 | 0x6D | 0x74 | 0x75 | 0x79 | 0x7C
        | 0x7D | 0x8C | 0x8D | 0x8E | 0x8F | 0x94 | 0x95 | 0x96 | 0x97
        | 0xAC | 0xAD | 0xAE | 0xAF | 0xB4 | 0xB5 | 0xB6 | 0xB7 | 0xB9
        | 0xBB | 0xBC | 0xBD | 0xBE | 0xBF | 0xCC | 0xCD | 0xD4 | 0xD5
        | 0xD9 | 0xDC | 0xDD | 0xEC | 0xED | 0xF4 | 0xF5 | 0xF9 | 0xFC
        | 0xFD => 4,
        0x06 | 0x07 | 0x11 | 0x26 | 0x27 | 0x31 | 0x46 | 0x47 | 0x51
        | 0x66 | 0x67 | 0x6C | 0x71 | 0x99 | 0x9B | 0x9C | 0x9D | 0x9E
        | 0x9F | 0xB1 | 0xB3 | 0xC6 | 0xC7 | 0xD1 | 0xE6 | 0xE7 | 0xF1 => 5,
        0x01 | 0x0E | 0x0F | 0x16 | 0x17 | 0x20 | 0x21 | 0x2E | 0x2F
        | 0x36 | 0x37 | 0x40 | 0x41 | 0x4E | 0x4F | 0x56 | 0x57 | 0x60
        | 0x61 | 0x6E | 0x6F | 0x76 | 0x77 | 0x81 | 0x83 | 0x91 | 0x93
        | 0xA1 | 0xA3 | 0xC1 | 0xCE | 0xCF | 0xD6 | 0xD7 | 0xE1 | 0xEE
        | 0xEF | 0xF6 | 0xF7 => 6,
        0x00 | 0x1B | 0x1E | 0x1F | 0x3B | 0x3E | 0x3F | 0x5B | 0x5E
        | 0x5F | 0x7B | 0x7E | 0x7F | 0xDB | 0xDE | 0xDF | 0xFB | 0xFE
        | 0xFF => 7,
        0x03 | 0x13 | 0x23 | 0x33 | 0x43 | 0x53 | 0x63 | 0x73 | 0xC3
        | 0xD3 | 0xE3 | 0xF3 => 8,
        _ => 2,
    }
}

impl AddressingMode {
    /// Number of operand bytes that follow the opcode byte.
    pub open spec fn spec_operand_len(self) -> u16 {
        match self {
            AddressingMode::IMP | AddressingMode::ACC => 0,
            AddressingMode::ABS
            | AddressingMode::ABX
            | AddressingMode::ABY
            | AddressingMode::IND => 2,
            _ => 1,
        }
    }

    /// Number of operand bytes that follow the opcode byte.
    #[verifier::when_used_as_spec(spec_operand_len)]
    pub fn operand_len(self) -> (n: u16)
        ensures
            n == self.spec_operand_len(),
    {
        match self {
            AddressingMode::IMP | AddressingMode::ACC => 0,
            AddressingMode::ABS
            | AddressingMode::ABX
            | AddressingMode::ABY
            | AddressingMode::IND => 2,
            _ => 1,
        }
    }
}

impl Mnemonic {
    /// Whether the instruction is one of the eight conditional branches.
    pub open spec fn is_branch(self) -> bool {
        self == Mnemonic::BCC || self == Mnemonic::BCS || self == Mnemonic::BEQ || self
            == Mnemonic::BMI || self == Mnemonic::BNE || self == Mnemonic::BPL || self
            == Mnemonic::BVC || self == Mnemonic::BVS
    }

    /// Whether the instruction loads the program counter whatever the flags
    /// hold: the jump, the call, the two returns and the break.
    pub open spec fn sets_pc(self) -> bool {
        self == Mnemonic::JMP || self == Mnemonic::JSR || self == Mnemonic::RTS || self
            == Mnemonic::RTI || self == Mnemonic::BRK
    }

    /// Whether the instruction reads its operand and stores nothing. Such an
    /// instruction pays for a page that its addressing mode crossed.
    pub open spec fn reads_operand(self) -> bool {
        self == Mnemonic::ADC || self == Mnemonic::SBC || self == Mnemonic::AND || self
            == Mnemonic::EOR || self == Mnemonic::ORA || self == Mnemonic::LDA || self
            == Mnemonic::LDX || self == Mnemonic::LDY || self == Mnemonic::CMP
    }

    /// The three-letter name, as the disassembler prints it.
    pub open spec fn spec_name(self) -> Seq<char> {
        match self {
            Mnemonic::LDA => "LDA"@,
            Mnemonic::LDX => "LDX"@,
            Mnemonic::LDY => "LDY"@,
            Mnemonic::STA => "STA"@,
            Mnemonic::STX => "STX"@,
            Mnemonic::STY => "STY"@,
            Mnemonic::TAX => "TAX"@,
            Mnemonic::TAY => "TAY"@,
            Mnemonic::TSX => "TSX"@,
            Mnemonic::TXA => "TXA"@,
            Mnemonic::TXS => "TXS"@,
            Mnemonic::TYA => "TYA"@,
            Mnemonic::ADC => "ADC"@,
            Mnemonic::DEC => "DEC"@,
            Mnemonic::DEX => "DEX"@,
            Mnemonic::DEY => "DEY"@,
            Mnemonic::INC => "INC"@,
            Mnemonic::INX => "INX"@,
            Mnemonic::INY => "INY"@,
            Mnemonic::SBC => "SBC"@,
            Mnemonic::AND => "AND"@,
            Mnemonic::ASL => "ASL"@,
            Mnemonic::BIT => "BIT"@,
            Mnemonic::EOR => "EOR"@,
            Mnemonic::LSR => "LSR"@,
            Mnemonic::ORA => "ORA"@,
            Mnemonic::ROL => "ROL"@,
            Mnemonic::ROR => "ROR"@,
            Mnemonic::BCC => "BCC"@,
            Mnemonic::BCS => "BCS"@,
            Mnemonic::BEQ => "BEQ"@,
            Mnemonic::BMI => "BMI"@,
            Mnemonic::BNE => "BNE"@,
            Mnemonic::BPL => "BPL"@,
            Mnemonic::BVC => "BVC"@,
            Mnemonic::BVS => "BVS"@,
            Mnemonic::JMP => "JMP"@,
            Mnemonic::JSR => "JSR"@,
            Mnemonic::RTI => "RTI"@,
            Mnemonic::RTS => "RTS"@,
            Mnemonic::CLC => "CLC"@,
            Mnemonic::CLD => "CLD"@,
            Mnemonic::CLI => "CLI"@,
            Mnemonic::CLV => "CLV"@,
            Mnemonic::CMP => "CMP"@,
            Mnemonic::CPX => "CPX"@,
            Mnemonic::CPY => "CPY"@,
            Mnemonic::SEC => "SEC"@,
            Mnemonic::SED => "SED"@,
            Mnemonic::SEI => "SEI"@,
            Mnemonic::PHA => "PHA"@,
            Mnemonic::PHP => "PHP"@,
            Mnemonic::PLA => "PLA"@,
            Mnemonic::PLP => "PLP"@,
            Mnemonic::BRK => "BRK"@,
            Mnemonic::NOP => "NOP"@,
            Mnemonic::XXX => "XXX"@,
        }
    }

    /// The three-letter name, as the disassembler prints it.
    pub fn name(self) -> (text: &'static str)
        ensures
            text@ == self.spec_name(),
            text@.len() == 3,
    {
        proof {
            reveal_strlit("LDA");
            reveal_strlit("LDX");
            reveal_strlit("LDY");
            reveal_strlit("STA");
            reveal_strlit("STX");
            reveal_strlit("STY");
            reveal_strlit("TAX");
            reveal_strlit("TAY");
            reveal_strlit("TSX");
            reveal_strlit("TXA");
            reveal_strlit("TXS");
            reveal_strlit("TYA");
            reveal_strlit("ADC");
            reveal_strlit("DEC");
            reveal_strlit("DEX");
            reveal_strlit("DEY");
            reveal_strlit("INC");
            reveal_strlit("INX");
            reveal_strlit("INY");
            reveal_strlit("SBC");
            reveal_strlit("AND");
            reveal_strlit("ASL");
            reveal_strlit("BIT");
            reveal_strlit("EOR");
            reveal_strlit("LSR");
            reveal_strlit("ORA");
            reveal_strlit("ROL");
            reveal_strlit("ROR");
            reveal_strlit("BCC");
            reveal_strlit("BCS");
            reveal_strlit("BEQ");
            reveal_strlit("BMI");
            reveal_strlit("BNE");
            reveal_strlit("BPL");
            reveal_strlit("BVC");
            reveal_strlit("BVS");
            reveal_strlit("JMP");
            reveal_strlit("JSR");
            reveal_strlit("RTI");
            reveal_strlit("RTS");
            reveal_strlit("CLC");
            reveal_strlit("CLD");
            reveal_strlit("CLI");
            reveal_strlit("CLV");
            reveal_strlit("CMP");
            reveal_strlit("CPX");
            reveal_strlit("CPY");
            reveal_strlit("SEC");
            reveal_strlit("SED");
            reveal_strlit("SEI");
            reveal_strlit("PHA");
            reveal_strlit("PHP");
            reveal_strlit("PLA");
            reveal_strlit("PLP");
            reveal_strlit("BRK");
            reveal_strlit("NOP");
            reveal_strlit("XXX");
        }
        match self {
            Mnemonic::LDA => "LDA",
            Mnemonic::LDX => "LDX",
            Mnemonic::LDY => "LDY",
            Mnemonic::STA => "STA",
            Mnemonic::STX => "STX",
            Mnemonic::STY => "STY",
            Mnemonic::TAX => "TAX",
            Mnemonic::TAY => "TAY",
            Mnemonic::TSX => "TSX",
            Mnemonic::TXA => "TXA",
            Mnemonic::TXS => "TXS",
            Mnemonic::TYA => "TYA",
            Mnemonic::ADC => "ADC",
            Mnemonic::DEC => "DEC",
            Mnemonic::DEX => "DEX",
            Mnemonic::DEY => "DEY",
            Mnemonic::INC => "INC",
            Mnemonic::INX => "INX",
            Mnemonic::INY => "INY",
            Mnemonic::SBC => "SBC",
            Mnemonic::AND => "AND",
            Mnemonic::ASL => "ASL",
            Mnemonic::BIT => "BIT",
            Mnemonic::EOR => "EOR",
            Mnemonic::LSR => "LSR",
            Mnemonic::ORA => "ORA",
            Mnemonic::ROL => "ROL",
            Mnemonic::ROR => "ROR",
            Mnemonic::BCC => "BCC",
            Mnemonic::BCS => "BCS",
            Mnemonic::BEQ => "BEQ",
            Mnemonic::BMI => "BMI",
            Mnemonic::BNE => "BNE",
            Mnemonic::BPL => "BPL",
            Mnemonic::BVC => "BVC",
            Mnemonic::BVS => "BVS",
            Mnemonic::JMP => "JMP",
            Mnemonic::JSR => "JSR",
            Mnemonic::RTI => "RTI",
            Mnemonic::RTS => "RTS",
            Mnemonic::CLC => "CLC",
            Mnemonic::CLD => "CLD",
            Mnemonic::CLI => "CLI",
            Mnemonic::CLV => "CLV",
            Mnemonic::CMP => "CMP",
            Mnemonic::CPX => "CPX",
            Mnemonic::CPY => "CPY",
            Mnemonic::SEC => "SEC",
            Mnemonic::SED => "SED",
            Mnemonic::SEI => "SEI",
            Mnemonic::PHA => "PHA",
            Mnemonic::PHP => "PHP",
            Mnemonic::PLA => "PLA",
            Mnemonic::PLP => "PLP",
            Mnemonic::BRK => "BRK",
            Mnemonic::NOP => "NOP",
            Mnemonic::XXX => "XXX",
        }
    }
}

impl Instruction {
    /// The table row of `opcode`, as a value.
    pub open spec fn spec_decode(opcode: OpCode) -> Instruction {
        Instruction {
            mnemonic: mnemonic_of(opcode),
            mode: mode_of(opcode),
            cycles: cycles_of(opcode),
        }
    }

    /// Looks `opcode` up in the 256-entry decode table.
    #[verifier::when_used_as_spec(spec_decode)]
    pub fn decode(opcode: OpCode) -> (entry: Instruction)
        ensures
            entry == Instruction::spec_decode(opcode),
            entry.mode != AddressingMode::ACC,
            2 <= entry.cycles <= 8,
    {
        match opcode {
            0x00 => Instruction { mnemonic: Mnemonic::BRK, mode: AddressingMode::IMM, cycles: 7 },
            0x01 => Instruction { mnemonic: Mnemonic::ORA, mode: AddressingMode::IZX, cycles: 6 },
            0x02 => Instruction { mnemonic: Mnemonic::XXX, mode: AddressingMode::IMP, cycles: 2 },
            0x03 => Instruction { mnemonic: Mnemonic::XXX, mode: AddressingMode::IMP, cycles: 8 },
            0x04 => Instruction { mnemonic: Mnemonic::NOP, mode: AddressingMode::IMP, cycles: 3 },
            0x05 => Instruction { mnemonic: Mnemonic::ORA, mode: AddressingMode::ZP0, cycles: 3 },
            0x06 => Instruction { mnemonic: Mnemonic::ASL, mode: AddressingMode::ZP0, cycles: 5 },
            0x07 => Instruction { mnemonic: Mnemonic::XXX, mode: AddressingMode::IMP, cycles: 5 },
            0x08 => Instruction { mnemonic: Mnemonic::PHP, mode: AddressingMode::IMP, cycles: 3 },
            0x09 => Instruction { mnemonic: Mnemonic::ORA, mode: AddressingMode::IMM, cycles: 2 },
            0x0A => Instruction { mnemonic: Mnemonic::ASL, mode: AddressingMode::IMP, cycles: 2 },
            0x0B => Instruction { mnemonic: Mnemonic::XXX, mode: AddressingMode::IMP, cycles: 2 },
            0x0C => Instruction { mnemonic: Mnemonic::NOP, mode: AddressingMode::IMP, cycles: 4 },
            0x0D => Instruction { mnemonic: Mnemonic::ORA, mode: AddressingMode::ABS, cycles: 4 },
            0x0E => Instruction { mnemonic: Mnemonic::ASL, mode: AddressingMode::ABS, cycles: 6 },
            0x0F => Instruction { mnemonic: Mnemonic::XXX, mode: AddressingMode::IMP, cycles: 6 },
            0x10 => Instruction { mnemonic: Mnemonic::BPL, mode: AddressingMode::REL, cycles: 2 },
            0x11 => Instruction { mnemonic: Mnemonic::ORA, mode: AddressingMode::IZY, cycles: 5 },
            0x12 => Instruction { mnemonic: Mnemonic::XXX, mode: AddressingMode::IMP, cycles: 2 },
            0x13 => Instruction { mnemonic: Mnemonic::XXX, mode: AddressingMode::IMP, cycles: 8 },
            0x14 => Instruction { mnemonic: Mnemonic::NOP, mode: AddressingMode::IMP, cycles: 4 },
            0x15 => Instruction { mnemonic: Mnemonic::ORA, mode: AddressingMode::ZPX, cycles: 4 },
            0x16 => Instruction { mnemonic: Mnemonic::ASL, mode: AddressingMode::ZPX, cycles: 6 },
            0x17 => Instruction { mnemonic: Mnemonic::XXX, mode: AddressingMode::IMP, cycles: 6 },
            0x18 => Instruction { mnemonic: Mnemonic::CLC, mode: AddressingMode::IMP, cycles: 2 },
            0x19 => Instruction { mnemonic: Mnemonic::ORA, mode: AddressingMode::ABY, cycles: 4 },
            0x1A => Instruction { mnemonic: Mnemonic::NOP, mode: AddressingMode::IMP, cycles: 2 },
            0x1B => Instruction { mnemonic: Mnemonic::XXX, mode: AddressingMode::IMP, cycles: 7 },
            0x1C => Instruction { mnemonic: Mnemonic::NOP, mode: AddressingMode::IMP, cycles: 4 },
            0x1D => Instruction { mnemonic: Mnemonic::ORA, mode: AddressingMode::ABX, cycles: 4 },
            0x1E => Instruction { mnemonic: Mnemonic::ASL, mode: AddressingMode::ABX, cycles: 7 },
            0x1F => Instruction { mnemonic: Mnemonic::XXX, mode: AddressingMode::IMP, cycles: 7 },
            0x20 => Instruction { mnemonic: Mnemonic::JSR, mode: AddressingMode::ABS, cycles: 6 },
            0x21 => Instruction { mnemonic: Mnemonic::AND, mode: AddressingMode::IZX, cycles: 6 },
            0x22 => Instruction { mnemonic: Mnemonic::XXX, mode: AddressingMode::IMP, cycles: 2 },
            0x23 => Instruction { mnemonic: Mnemonic::XXX, mode: AddressingMode::IMP, cycles: 8 },
            0x24 => Instruction { mnemonic: Mnemonic::BIT, mode: AddressingMode::ZP0, cycles: 3 },
            0x25 => Instruction { mnemonic: Mnemonic::AND, mode: AddressingMode::ZP0, cycles: 3 },
            0x26 => Instruction { mnemonic: Mnemonic::ROL, mode: AddressingMode::ZP0, cycles: 5 },
            0x27 => Instruction { mnemonic: Mnemonic::XXX, mode: AddressingMode::IMP, cycles: 5 },
            0x28 => Instruction { mnemonic: Mnemonic::PLP, mode: AddressingMode::IMP, cycles: 4 },
            0x29 => Instruction { mnemonic: Mnemonic::AND, mode: AddressingMode::IMM, cycles: 2 },
            0x2A => Instruction { mnemonic: Mnemonic::ROL, mode: AddressingMode::IMP, cycles: 2 },
            0x2B => Instruction { mnemonic: Mnemonic::XXX, mode: AddressingMode::IMP, cycles: 2 },
            0x2C => Instruction { mnemonic: Mnemonic::BIT, mode: AddressingMode::ABS, cycles: 4 },
            0x2D => Instruction { mnemonic: Mnemonic::AND, mode: AddressingMode::ABS, cycles: 4 },
            0x2E => Instruction { mnemonic: Mnemonic::ROL, mode: AddressingMode::ABS, cycles: 6 },
            0x2F => Instruction { mnemonic: Mnemonic::XXX, mode: AddressingMode::IMP, cycles: 6 },
            0x30 => Instruction { mnemonic: Mnemonic::BMI, mode: AddressingMode::REL, cycles: 2 },
            0x31 => Instruction { mnemonic: Mnemonic::AND, mode: AddressingMode::IZY, cycles: 5 },
            0x32 => Instruction { mnemonic: Mnemonic::XXX, mode: AddressingMode::IMP, cycles: 2 },
            0x33 => Instruction { mnemonic: Mnemonic::XXX, mode: AddressingMode::IMP, cycles: 8 },
            0x34 => Instruction { mnemonic: Mnemonic::NOP, mode: AddressingMode::IMP, cycles: 4 },
            0x35 => Instruction { mnemonic: Mnemonic::AND, mode: AddressingMode::ZPX, cycles: 4 },
            0x36 => Instruction { mnemonic: Mnemonic::ROL, mode: AddressingMode::ZPX, cycles: 6 },
            0x37 => Instruction { mnemonic: Mnemonic::XXX, mode: AddressingMode::IMP, cycles: 6 },
            0x38 => Instruction { mnemonic: Mnemonic::SEC, mode: AddressingMode::IMP, cycles: 2 },
            0x39 => Instruction { mnemonic: Mnemonic::AND, mode: AddressingMode::ABY, cycles: 4 },
            0x3A => Instruction { mnemonic: Mnemonic::NOP, mode: AddressingMode::IMP, cycles: 2 },
            0x3B => Instruction { mnemonic: Mnemonic::XXX, mode: AddressingMode::IMP, cycles: 7 },
            0x3C => Instruction { mnemonic: Mnemonic::NOP, mode: AddressingMode::IMP, cycles: 4 },
            0x3D => Instruction { mnemonic: Mnemonic::AND, mode: AddressingMode::ABX, cycles: 4 },
            0x3E => Instruction { mnemonic: Mnemonic::ROL, mode: AddressingMode::ABX, cycles: 7 },
            0x3F => Instruction { mnemonic: Mnemonic::XXX, mode: AddressingMode::IMP, cycles: 7 },
            0x40 => Instruction { mnemonic: Mnemonic::RTI, mode: AddressingMode::IMP, cycles: 6 },
            0x41 => Instruction { mnemonic: Mnemonic::EOR, mode: AddressingMode::IZX, cycles: 6 },
            0x42 => Instruction { mnemonic: Mnemonic::XXX, mode: AddressingMode::IMP, cycles: 2 },
            0x43 => Instruction { mnemonic: Mnemonic::XXX, mode: AddressingMode::IMP, cycles: 8 },
            0x44 => Instruction { mnemonic: Mnemonic::NOP, mode: AddressingMode::IMP, cycles: 3 },
            0x45 => Instruction { mnemonic: Mnemonic::EOR, mode: AddressingMode::ZP0, cycles: 3 },
            0x46 => Instruction { mnemonic: Mnemonic::LSR, mode: AddressingMode::ZP0, cycles: 5 },
            0x47 => Instruction { mnemonic: Mnemonic::XXX, mode: AddressingMode::IMP, cycles: 5 },
            0x48 => Instruction { mnemonic: Mnemonic::PHA, mode: AddressingMode::IMP, cycles: 3 },
            0x49 => Instruction { mnemonic: Mnemonic::EOR, mode: AddressingMode::IMM, cycles: 2 },
            0x4A => Instruction { mnemonic: Mnemonic::LSR, mode: AddressingMode::IMP, cycles: 2 },
            0x4B => Instruction { mnemonic: Mnemonic::XXX, mode: AddressingMode::IMP, cycles: 2 },
            0x4C => Instruction { mnemonic: Mnemonic::JMP, mode: AddressingMode::ABS, cycles: 3 },
            0x4D => Instruction { mnemonic: Mnemonic::EOR, mode: AddressingMode::ABS, cycles: 4 },
            0x4E => Instruction { mnemonic: Mnemonic::LSR, mode: AddressingMode::ABS, cycles: 6 },
            0x4F => Instruction { mnemonic: Mnemonic::XXX, mode: AddressingMode::IMP, cycles: 6 },
            0x50 => Instruction { mnemonic: Mnemonic::BVC, mode: AddressingMode::REL, cycles: 2 },
            0x51 => Instruction { mnemonic: Mnemonic::EOR, mode: AddressingMode::IZY, cycles: 5 },
            0x52 => Instruction { mnemonic: Mnemonic::XXX, mode: AddressingMode::IMP, cycles: 2 },
            0x53 => Instruction { mnemonic: Mnemonic::XXX, mode: AddressingMode::IMP, cycles: 8 },
            0x54 => Instruction { mnemonic: Mnemonic::NOP, mode: AddressingMode::IMP, cycles: 4 },
            0x55 => Instruction { mnemonic: Mnemonic::EOR, mode: AddressingMode::ZPX, cycles: 4 },
            0x56 => Instruction { mnemonic: Mnemonic::LSR, mode: AddressingMode::ZPX, cycles: 6 },
            0x57 => Instruction { mnemonic: Mnemonic::XXX, mode: AddressingMode::IMP, cycles: 6 },
            0x58 => Instruction { mnemonic: Mnemonic::CLI, mode: AddressingMode::IMP, cycles: 2 },
            0x59 => Instruction { mnemonic: Mnemonic::EOR, mode: AddressingMode::ABY, cycles: 4 },
            0x5A => Instruction { mnemonic: Mnemonic::NOP, mode: AddressingMode::IMP, cycles: 2 },
            0x5B => Instruction { mnemonic: Mnemonic::XXX, mode: AddressingMode::IMP, cycles: 7 },
            0x5C => Instruction { mnemonic: Mnemonic::NOP, mode: AddressingMode::IMP, cycles: 4 },
            0x5D => Instruction { mnemonic: Mnemonic::EOR, mode: AddressingMode::ABX, cycles: 4 },
            0x5E => Instruction { mnemonic: Mnemonic::LSR, mode: AddressingMode::ABX, cycles: 7 },
            0x5F => Instruction { mnemonic: Mnemonic::XXX, mode: AddressingMode::IMP, cycles: 7 },
            0x60 => Instruction { mnemonic: Mnemonic::RTS, mode: AddressingMode::IMP, cycles: 6 },
            0x61 => Instruction { mnemonic: Mnemonic::ADC, mode: AddressingMode::IZX, cycles: 6 },
            0x62 => Instruction { mnemonic: Mnemonic::XXX, mode: AddressingMode::IMP, cycles: 2 },
            0x63 => Instruction { mnemonic: Mnemonic::XXX, mode: AddressingMode::IMP, cycles: 8 },
            0x64 => Instruction { mnemonic: Mnemonic::NOP, mode: AddressingMode::IMP, cycles: 3 },
            0x65 => Instruction { mnemonic: Mnemonic::ADC, mode: AddressingMode::ZP0, cycles: 3 },
            0x66 => Instruction { mnemonic: Mnemonic::ROR, mode: AddressingMode::ZP0, cycles: 5 },
            0x67 => Instruction { mnemonic: Mnemonic::XXX, mode: AddressingMode::IMP, cycles: 5 },
            0x68 => Instruction { mnemonic: Mnemonic::PLA, mode: AddressingMode::IMP, cycles: 4 },
            0x69 => Instruction { mnemonic: Mnemonic::ADC, mode: AddressingMode::IMM, cycles: 2 },
            0x6A => Instruction { mnemonic: Mnemonic::ROR, mode: AddressingMode::IMP, cycles: 2 },
            0x6B => Instruction { mnemonic: Mnemonic::XXX, mode: AddressingMode::IMP, cycles: 2 },
            0x6C => Instruction { mnemonic: Mnemonic::JMP, mode: AddressingMode::IND, cycles: 5 },
            0x6D => Instruction { mnemonic: Mnemonic::ADC, mode: AddressingMode::ABS, cycles: 4 },
            0x6E => Instruction { mnemonic: Mnemonic::ROR, mode: AddressingMode::ABS, cycles: 6 },
            0x6F => Instruction { mnemonic: Mnemonic::XXX, mode: AddressingMode::IMP, cycles: 6 },
            0x70 => Instruction { mnemonic: Mnemonic::BVS, mode: AddressingMode::REL, cycles: 2 },
            0x71 => Instruction { mnemonic: Mnemonic::ADC, mode: AddressingMode::IZY, cycles: 5 },
            0x72 => Instruction { mnemonic: Mnemonic::XXX, mode: AddressingMode::IMP, cycles: 2 },
            0x73 => Instruction { mnemonic: Mnemonic::XXX, mode: AddressingMode::IMP, cycles: 8 },
            0x74 => Instruction { mnemonic: Mnemonic::NOP, mode: AddressingMode::IMP, cycles: 4 },
            0x75 => Instruction { mnemonic: Mnemonic::ADC, mode: AddressingMode::ZPX, cycles: 4 },
            0x76 => Instruction { mnemonic: Mnemonic::ROR, mode: AddressingMode::ZPX, cycles: 6 },
            0x77 => Instruction { mnemonic: Mnemonic::XXX, mode: AddressingMode::IMP, cycles: 6 },
            0x78 => Instruction { mnemonic: Mnemonic::SEI, mode: AddressingMode::IMP, cycles: 2 },
            0x79 => Instruction { mnemonic: Mnemonic::ADC, mode: AddressingMode::ABY, cycles: 4 },
            0x7A => Instruction { mnemonic: Mnemonic::NOP, mode: AddressingMode::IMP, cycles: 2 },
            0x7B => Instruction { mnemonic: Mnemonic::XXX, mode: AddressingMode::IMP, cycles: 7 },
            0x7C => Instruction { mnemonic: Mnemonic::NOP, mode: AddressingMode::IMP, cycles: 4 },
            0x7D => Instruction { mnemonic: Mnemonic::ADC, mode: AddressingMode::ABX, cycles: 4 },
            0x7E => Instruction { mnemonic: Mnemonic::ROR, mode: AddressingMode::ABX, cycles: 7 },
            0x7F => Instruction { mnemonic: Mnemonic::XXX, mode: AddressingMode::IMP, cycles: 7 },
            0x80 => Instruction { mnemonic: Mnemonic::NOP, mode: AddressingMode::IMP, cycles: 2 },
            0x81 => Instruction { mnemonic: Mnemonic::STA, mode: AddressingMode::IZX, cycles: 6 },
            0x82 => Instruction { mnemonic: Mnemonic::NOP, mode: AddressingMode::IMP, cycles: 2 },
            0x83 => Instruction { mnemonic: Mnemonic::XXX, mode: AddressingMode::IMP, cycles: 6 },
            0x84 => Instruction { mnemonic: Mnemonic::STY, mode: AddressingMode::ZP0, cycles: 3 },
            0x85 => Instruction { mnemonic: Mnemonic::STA, mode: AddressingMode::ZP0, cycles: 3 },
            0x86 => Instruction { mnemonic: Mnemonic::STX, mode: AddressingMode::ZP0, cycles: 3 },
            0x87 => Instruction { mnemonic: Mnemonic::XXX, mode: AddressingMode::IMP, cycles: 3 },
            0x88 => Instruction { mnemonic: Mnemonic::DEY, mode: AddressingMode::IMP, cycles: 2 },
            0x89 => Instruction { mnemonic: Mnemonic::NOP, mode: AddressingMode::IMP, cycles: 2 },
            0x8A => Instruction { mnemonic: Mnemonic::TXA, mode: AddressingMode::IMP, cycles: 2 },
            0x8B => Instruction { mnemonic: Mnemonic::XXX, mode: AddressingMode::IMP, cycles: 2 },
            0x8C => Instruction { mnemonic: Mnemonic::STY, mode: AddressingMode::ABS, cycles: 4 },
            0x8D => Instruction { mnemonic: Mnemonic::STA, mode: AddressingMode::ABS, cycles: 4 },
            0x8E => Instruction { mnemonic: Mnemonic::STX, mode: AddressingMode::ABS, cycles: 4 },
            0x8F => Instruction { mnemonic: Mnemonic::XXX, mode: AddressingMode::IMP, cycles: 4 },
            0x90 => Instruction { mnemonic: Mnemonic::BCC, mode: AddressingMode::REL, cycles: 2 },
            0x91 => Instruction { mnemonic: Mnemonic::STA, mode: AddressingMode::IZY, cycles: 6 },
            0x92 => Instruction { mnemonic: Mnemonic::XXX, mode: AddressingMode::IMP, cycles: 2 },
            0x93 => Instruction { mnemonic: Mnemonic::XXX, mode: AddressingMode::IMP, cycles: 6 },
            0x94 => Instruction { mnemonic: Mnemonic::STY, mode: AddressingMode::ZPX, cycles: 4 },
            0x95 => Instruction { mnemonic: Mnemonic::STA, mode: AddressingMode::ZPX, cycles: 4 },
            0x96 => Instruction { mnemonic: Mnemonic::STX, mode: AddressingMode::ZPY, cycles: 4 },
            0x97 => Instruction { mnemonic: Mnemonic::XXX, mode: AddressingMode::IMP, cycles: 4 },
            0x98 => Instruction { mnemonic: Mnemonic::TYA, mode: AddressingMode::IMP, cycles: 2 },
            0x99 => Instruction { mnemonic: Mnemonic::STA, mode: AddressingMode::ABY, cycles: 5 },
            0x9A => Instruction { mnemonic: Mnemonic::TXS, mode: AddressingMode::IMP, cycles: 2 },
            0x9B => Instruction { mnemonic: Mnemonic::XXX, mode: AddressingMode::IMP, cycles: 5 },
            0x9C => Instruction { mnemonic: Mnemonic::NOP, mode: AddressingMode::IMP, cycles: 5 },
            0x9D => Instruction { mnemonic: Mnemonic::STA, mode: AddressingMode::ABX, cycles: 5 },
            0x9E => Instruction { mnemonic: Mnemonic::XXX, mode: AddressingMode::IMP, cycles: 5 },
            0x9F => Instruction { mnemonic: Mnemonic::XXX, mode: AddressingMode::IMP, cycles: 5 },
            0xA0 => Instruction { mnemonic: Mnemonic::LDY, mode: AddressingMode::IMM, cycles: 2 },
            0xA1 => Instruction { mnemonic: Mnemonic::LDA, mode: AddressingMode::IZX, cycles: 6 },
            0xA2 => Instruction { mnemonic: Mnemonic::LDX, mode: AddressingMode::IMM, cycles: 2 },
            0xA3 => Instruction { mnemonic: Mnemonic::XXX, mode: AddressingMode::IMP, cycles: 6 },
            0xA4 => Instruction { mnemonic: Mnemonic::LDY, mode: AddressingMode::ZP0, cycles: 3 },
            0xA5 => Instruction { mnemonic: Mnemonic::LDA, mode: AddressingMode::ZP0, cycles: 3 },
            0xA6 => Instruction { mnemonic: Mnemonic::LDX, mode: AddressingMode::ZP0, cycles: 3 },
            0xA7 => Instruction { mnemonic: Mnemonic::XXX, mode: AddressingMode::IMP, cycles: 3 },
            0xA8 => Instruction { mnemonic: Mnemonic::TAY, mode: AddressingMode::IMP, cycles: 2 },
            0xA9 => Instruction { mnemonic: Mnemonic::LDA, mode: AddressingMode::IMM, cycles: 2 },
            0xAA => Instruction { mnemonic: Mnemonic::TAX, mode: AddressingMode::IMP, cycles: 2 },
            0xAB => Instruction { mnemonic: Mnemonic::XXX, mode: AddressingMode::IMP, cycles: 2 },
            0xAC => Instruction { mnemonic: Mnemonic::LDY, mode: AddressingMode::ABS, cycles: 4 },
            0xAD => Instruction { mnemonic: Mnemonic::LDA, mode: AddressingMode::ABS, cycles: 4 },
            0xAE => Instruction { mnemonic: Mnemonic::LDX, mode: AddressingMode::ABS, cycles: 4 },
            0xAF => Instruction { mnemonic: Mnemonic::XXX, mode: AddressingMode::IMP, cycles: 4 },
            0xB0 => Instruction { mnemonic: Mnemonic::BCS, mode: AddressingMode::REL, cycles: 2 },
            0xB1 => Instruction { mnemonic: Mnemonic::LDA, mode: AddressingMode::IZY, cycles: 5 },
            0xB2 => Instruction { mnemonic: Mnemonic::XXX, mode: AddressingMode::IMP, cycles: 2 },
            0xB3 => Instruction { mnemonic: Mnemonic::XXX, mode: AddressingMode::IMP, cycles: 5 },
            0xB4 => Instruction { mnemonic: Mnemonic::LDY, mode: AddressingMode::ZPX, cycles: 4 },
            0xB5 => Instruction { mnemonic: Mnemonic::LDA, mode: AddressingMode::ZPX, cycles: 4 },
            0xB6 => Instruction { mnemonic: Mnemonic::LDX, mode: AddressingMode::ZPY, cycles: 4 },
            0xB7 => Instruction { mnemonic: Mnemonic::XXX, mode: AddressingMode::IMP, cycles: 4 },
            0xB8 => Instruction { mnemonic: Mnemonic::CLV, mode: AddressingMode::IMP, cycles: 2 },
            0xB9 => Instruction { mnemonic: Mnemonic::LDA, mode: AddressingMode::ABY, cycles: 4 },
            0xBA => Instruction { mnemonic: Mnemonic::TSX, mode: AddressingMode::IMP, cycles: 2 },
            0xBB => Instruction { mnemonic: Mnemonic::XXX, mode: AddressingMode::IMP, cycles: 4 },
            0xBC => Instruction { mnemonic: Mnemonic::LDY, mode: AddressingMode::ABX, cycles: 4 },
            0xBD => Instruction { mnemonic: Mnemonic::LDA, mode: AddressingMode::ABX, cycles: 4 },
            0xBE => Instruction { mnemonic: Mnemonic::LDX, mode: AddressingMode::ABY, cycles: 4 },
            0xBF => Instruction { mnemonic: Mnemonic::XXX, mode: AddressingMode::IMP, cycles: 4 },
            0xC0 => Instruction { mnemonic: Mnemonic::CPY, mode: AddressingMode::IMM, cycles: 2 },
            0xC1 => Instruction { mnemonic: Mnemonic::CMP, mode: AddressingMode::IZX, cycles: 6 },
            0xC2 => Instruction { mnemonic: Mnemonic::NOP, mode: AddressingMode::IMP, cycles: 2 },
            0xC3 => Instruction { mnemonic: Mnemonic::XXX, mode: AddressingMode::IMP, cycles: 8 },
            0xC4 => Instruction { mnemonic: Mnemonic::CPY, mode: AddressingMode::ZP0, cycles: 3 },
            0xC5 => Instruction { mnemonic: Mnemonic::CMP, mode: AddressingMode::ZP0, cycles: 3 },
            0xC6 => Instruction { mnemonic: Mnemonic::DEC, mode: AddressingMode::ZP0, cycles: 5 },
            0xC7 => Instruction { mnemonic: Mnemonic::XXX, mode: AddressingMode::IMP, cycles: 5 },
            0xC8 => Instruction { mnemonic: Mnemonic::INY, mode: AddressingMode::IMP, cycles: 2 },
            0xC9 => Instruction { mnemonic: Mnemonic::CMP, mode: AddressingMode::IMM, cycles: 2 },
            0xCA => Instruction { mnemonic: Mnemonic::DEX, mode: AddressingMode::IMP, cycles: 2 },
            0xCB => Instruction { mnemonic: Mnemonic::XXX, mode: AddressingMode::IMP, cycles: 2 },
            0xCC => Instruction { mnemonic: Mnemonic::CPY, mode: AddressingMode::ABS, cycles: 4 },
            0xCD => Instruction { mnemonic: Mnemonic::CMP, mode: AddressingMode::ABS, cycles: 4 },
            0xCE => Instruction { mnemonic: Mnemonic::DEC, mode: AddressingMode::ABS, cycles: 6 },
            0xCF => Instruction { mnemonic: Mnemonic::XXX, mode: AddressingMode::IMP, cycles: 6 },
            0xD0 => Instruction { mnemonic: Mnemonic::BNE, mode: AddressingMode::REL, cycles: 2 },
            0xD1 => Instruction { mnemonic: Mnemonic::CMP, mode: AddressingMode::IZY, cycles: 5 },
            0xD2 => Instruction { mnemonic: Mnemonic::XXX, mode: AddressingMode::IMP, cycles: 2 },
            0xD3 => Instruction { mnemonic: Mnemonic::XXX, mode: AddressingMode::IMP, cycles: 8 },
            0xD4 => Instruction { mnemonic: Mnemonic::NOP, mode: AddressingMode::IMP, cycles: 4 },
            0xD5 => Instruction { mnemonic: Mnemonic::CMP, mode: AddressingMode::ZPX, cycles: 4 },
            0xD6 => Instruction { mnemonic: Mnemonic::DEC, mode: AddressingMode::ZPX, cycles: 6 },
            0xD7 => Instruction { mnemonic: Mnemonic::XXX, mode: AddressingMode::IMP, cycles: 6 },
            0xD8 => Instruction { mnemonic: Mnemonic::CLD, mode: AddressingMode::IMP, cycles: 2 },
            0xD9 => Instruction { mnemonic: Mnemonic::CMP, mode: AddressingMode::ABY, cycles: 4 },
            0xDA => Instruction { mnemonic: Mnemonic::NOP, mode: AddressingMode::IMP, cycles: 2 },
            0xDB => Instruction { mnemonic: Mnemonic::XXX, mode: AddressingMode::IMP, cycles: 7 },
            0xDC => Instruction { mnemonic: Mnemonic::NOP, mode: AddressingMode::IMP, cycles: 4 },
            0xDD => Instruction { mnemonic: Mnemonic::CMP, mode: AddressingMode::ABX, cycles: 4 },
            0xDE => Instruction { mnemonic: Mnemonic::DEC, mode: AddressingMode::ABX, cycles: 7 },
            0xDF => Instruction { mnemonic: Mnemonic::XXX, mode: AddressingMode::IMP, cycles: 7 },
            0xE0 => Instruction { mnemonic: Mnemonic::CPX, mode: AddressingMode::IMM, cycles: 2 },
            0xE1 => Instruction { mnemonic: Mnemonic::SBC, mode: AddressingMode::IZX, cycles: 6 },
            0xE2 => Instruction { mnemonic: Mnemonic::NOP, mode: AddressingMode::IMP, cycles: 2 },
            0xE3 => Instruction { mnemonic: Mnemonic::XXX, mode: AddressingMode::IMP, cycles: 8 },
            0xE4 => Instruction { mnemonic: Mnemonic::CPX, mode: AddressingMode::ZP0, cycles: 3 },
            0xE5 => Instruction { mnemonic: Mnemonic::SBC, mode: AddressingMode::ZP0, cycles: 3 },
            0xE6 => Instruction { mnemonic: Mnemonic::INC, mode: AddressingMode::ZP0, cycles: 5 },
            0xE7 => Instruction { mnemonic: Mnemonic::XXX, mode: AddressingMode::IMP, cycles: 5 },
            0xE8 => Instruction { mnemonic: Mnemonic::INX, mode: AddressingMode::IMP, cycles: 2 },
            0xE9 => Instruction { mnemonic: Mnemonic::SBC, mode: AddressingMode::IMM, cycles: 2 },
            0xEA => Instruction { mnemonic: Mnemonic::NOP, mode: AddressingMode::IMP, cycles: 2 },
            0xEB => Instruction { mnemonic: Mnemonic::SBC, mode: AddressingMode::IMP, cycles: 2 },
            0xEC => Instruction { mnemonic: Mnemonic::CPX, mode: AddressingMode::ABS, cycles: 4 },
            0xED => Instruction { mnemonic: Mnemonic::SBC, mode: AddressingMode::ABS, cycles: 4 },
            0xEE => Instruction { mnemonic: Mnemonic::INC, mode: AddressingMode::ABS, cycles: 6 },
            0xEF => Instruction { mnemonic: Mnemonic::XXX, mode: AddressingMode::IMP, cycles: 6 },
            0xF0 => Instruction { mnemonic: Mnemonic::BEQ, mode: AddressingMode::REL, cycles: 2 },
            0xF1 => Instruction { mnemonic: Mnemonic::SBC, mode: AddressingMode::IZY, cycles: 5 },
            0xF2 => Instruction { mnemonic: Mnemonic::XXX, mode: AddressingMode::IMP, cycles: 2 },
            0xF3 => Instruction { mnemonic: Mnemonic::XXX, mode: AddressingMode::IMP, cycles: 8 },
            0xF4 => Instruction { mnemonic: Mnemonic::NOP, mode: AddressingMode::IMP, cycles: 4 },
            0xF5 => Instruction { mnemonic: Mnemonic::SBC, mode: AddressingMode::ZPX, cycles: 4 },
            0xF6 => Instruction { mnemonic: Mnemonic::INC, mode: AddressingMode::ZPX, cycles: 6 },
            0xF7 => Instruction { mnemonic: Mnemonic::XXX, mode: AddressingMode::IMP, cycles: 6 },
            0xF8 => Instruction { mnemonic: Mnemonic::SED, mode: AddressingMode::IMP, cycles: 2 },
            0xF9 => Instruction { mnemonic: Mnemonic::SBC, mode: AddressingMode::ABY, cycles: 4 },
            0xFA => Instruction { mnemonic: Mnemonic::NOP, mode: AddressingMode::IMP, cycles: 2 },
            0xFB => Instruction { mnemonic: Mnemonic::XXX, mode: AddressingMode::IMP, cycles: 7 },
            0xFC => Instruction { mnemonic: Mnemonic::NOP, mode: AddressingMode::IMP, cycles: 4 },
            0xFD => Instruction { mnemonic: Mnemonic::SBC, mode: AddressingMode::ABX, cycles: 4 },
            0xFE => Instruction { mnemonic: Mnemonic::INC, mode: AddressingMode::ABX, cycles: 7 },
            0xFF => Instruction { mnemonic: Mnemonic::XXX, mode: AddressingMode::IMP, cycles: 7 },
        }
    }
}

impl CpuState {
    /// The machine after the operand of an instruction with mode `mode` is
    /// located. The accumulator mode is handled as the implied mode.
    pub open spec fn address(self, mode: AddressingMode) -> CpuState {
        match mode {
            AddressingMode::ZP0 => self.zp0(),
            AddressingMode::ZPX => self.zpx(),
            AddressingMode::ZPY => self.zpy(),
            AddressingMode::ABS => self.abs(),
            AddressingMode::ABX => self.abx(),
            AddressingMode::ABY => self.aby(),
            AddressingMode::IND => self.ind(),
            AddressingMode::IMP => self.imp(),
            AddressingMode::ACC => self.imp(),
            AddressingMode::IMM => self.imm(),
            AddressingMode::REL => self.rel(),
            AddressingMode::IZX => self.izx(),
            AddressingMode::IZY => self.izy(),
        }
    }

    /// Whether locating the operand crosses a page, so that an instruction
    /// that reads it owes one more cycle.
    pub open spec fn address_owes(self, mode: AddressingMode) -> bool {
        match mode {
            AddressingMode::ABX => self.abx_crossed(),
            AddressingMode::ABY => self.aby_crossed(),
            AddressingMode::IZY => self.izy_crossed(),
            _ => false,
        }
    }

    /// The machine after the instruction `mnemonic` is executed on the
    /// operand that its addressing mode located.
    pub open spec fn execute(self, mnemonic: Mnemonic) -> CpuState {
        match mnemonic {
            Mnemonic::LDA => self.lda(),
            Mnemonic::LDX => self.ldx(),
            Mnemonic::LDY => self.ldy(),
            Mnemonic::STA => self.sta(),
            Mnemonic::STX => self.stx(),
            Mnemonic::STY => self.sty(),
            Mnemonic::TAX => self.tax(),
            Mnemonic::TAY => self.tay(),
            Mnemonic::TSX => self.tsx(),
            Mnemonic::TXA => self.txa(),
            Mnemonic::TXS => self.txs(),
            Mnemonic::TYA => self.tya(),
            Mnemonic::ADC => self.adc(),
            Mnemonic::DEC => self.dec(),
            Mnemonic::DEX => self.dex(),
            Mnemonic::DEY => self.dey(),
            Mnemonic::INC => self.inc(),
            Mnemonic::INX => self.inx(),
            Mnemonic::INY => self.iny(),
            Mnemonic::SBC => self.sbc(),
            Mnemonic::AND => self.and(),
            Mnemonic::ASL => self.asl(),
            Mnemonic::BIT => self.bit(),
            Mnemonic::EOR => self.eor(),
            Mnemonic::LSR => self.lsr(),
            Mnemonic::ORA => self.ora(),
            Mnemonic::ROL => self.rol(),
            Mnemonic::ROR => self.ror(),
            Mnemonic::BCC => self.bcc(),
            Mnemonic::BCS => self.bcs(),
            Mnemonic::BEQ => self.beq(),
            Mnemonic::BMI => self.bmi(),
            Mnemonic::BNE => self.bne(),
            Mnemonic::BPL => self.bpl(),
            Mnemonic::BVC => self.bvc(),
            Mnemonic::BVS => self.bvs(),
            Mnemonic::JMP => self.jmp(),
            Mnemonic::JSR => self.jsr(),
            Mnemonic::RTI => self.rti(),
            Mnemonic::RTS => self.rts(),
            Mnemonic::CLC => self.clc(),
            Mnemonic::CLD => self.cld(),
            Mnemonic::CLI => self.cli(),
            Mnemonic::CLV => self.clv(),
            Mnemonic::CMP => self.compare(self.a),
            Mnemonic::CPX => self.compare(self.x),
            Mnemonic::CPY => self.compare(self.y),
            Mnemonic::SEC => self.sec(),
            Mnemonic::SED => self.sed(),
            Mnemonic::SEI => self.sei(),
            Mnemonic::PHA => self.pha(),
            Mnemonic::PHP => self.php(),
            Mnemonic::PLA => self.pla(),
            Mnemonic::PLP => self.plp(),
            Mnemonic::BRK => self.brk(),
            Mnemonic::NOP => self.nop(),
            Mnemonic::XXX => self.xxx(),
        }
    }

    /// Whether `mnemonic` pays for a page that its addressing mode crossed:
    /// the instructions that read their operand and store nothing do, and
    /// so do the undocumented NOPs that read memory.
    pub open spec fn execute_owes(self, mnemonic: Mnemonic) -> bool {
        mnemonic.reads_operand() || (mnemonic == Mnemonic::NOP && nop_reads(self.opcode))
    }
}

impl Instruction {
    /// Runs the addressing mode of the entry on `cpu`.
    pub fn mode_exec(&self, cpu: &mut CPU) -> (extra: u8)
        ensures
            final(cpu)@ == old(cpu)@.address(self.mode),
            extra == hint(old(cpu)@.address_owes(self.mode)),
    {
        match self.mode {
            AddressingMode::ZP0 => cpu_addr::zp0(cpu),
            AddressingMode::ZPX => cpu_addr::zpx(cpu),
            AddressingMode::ZPY => cpu_addr::zpy(cpu),
            AddressingMode::ABS => cpu_addr::abs(cpu),
            AddressingMode::ABX => cpu_addr::abx(cpu),
            AddressingMode::ABY => cpu_addr::aby(cpu),
            AddressingMode::IND => cpu_addr::ind(cpu),
            AddressingMode::IMP => cpu_addr::imp(cpu),
            AddressingMode::ACC => cpu_addr::imp(cpu),
            AddressingMode::IMM => cpu_addr::imm(cpu),
            AddressingMode::REL => cpu_addr::rel(cpu),
            AddressingMode::IZX => cpu_addr::izx(cpu),
            AddressingMode::IZY => cpu_addr::izy(cpu),
        }
    }

    /// Runs the instruction of the entry on `cpu`.
    pub fn op_exec(&self, cpu: &mut CPU) -> (extra: u8)
        ensures
            final(cpu)@ == old(cpu)@.execute(self.mnemonic),
            extra == hint(old(cpu)@.execute_owes(self.mnemonic)),
    {
        match self.mnemonic {
            Mnemonic::LDA => cpu_instr::lda(cpu),
            Mnemonic::LDX => cpu_instr::ldx(cpu),
            Mnemonic::LDY => cpu_instr::ldy(cpu),
            Mnemonic::STA => cpu_instr::sta(cpu),
            Mnemonic::STX => cpu_instr::stx(cpu),
            Mnemonic::STY => cpu_instr::sty(cpu),
            Mnemonic::TAX => cpu_instr::tax(cpu),
            Mnemonic::TAY => cpu_instr::tay(cpu),
            Mnemonic::TSX => cpu_instr::tsx(cpu),
            Mnemonic::TXA => cpu_instr::txa(cpu),
            Mnemonic::TXS => cpu_instr::txs(cpu),
            Mnemonic::TYA => cpu_instr::tya(cpu),
            Mnemonic::ADC => cpu_instr::adc(cpu),
            Mnemonic::DEC => cpu_instr::dec(cpu),
            Mnemonic::DEX => cpu_instr::dex(cpu),
            Mnemonic::DEY => cpu_instr::dey(cpu),
            Mnemonic::INC => cpu_instr::inc(cpu),
            Mnemonic::INX => cpu_instr::inx(cpu),
            Mnemonic::INY => cpu_instr::iny(cpu),
            Mnemonic::SBC => cpu_instr::sbc(cpu),
            Mnemonic::AND => cpu_instr::and(cpu),
            Mnemonic::ASL => cpu_instr::asl(cpu),
            Mnemonic::BIT => cpu_instr::bit(cpu),
            Mnemonic::EOR => cpu_instr::eor(cpu),
            Mnemonic::LSR => cpu_instr::lsr(cpu),
            Mnemonic::ORA => cpu_instr::ora(cpu),
            Mnemonic::ROL => cpu_instr::rol(cpu),
            Mnemonic::ROR => cpu_instr::ror(cpu),
            Mnemonic::BCC => cpu_instr::bcc(cpu),
            Mnemonic::BCS => cpu_instr::bcs(cpu),
            Mnemonic::BEQ => cpu_instr::beq(cpu),
            Mnemonic::BMI => cpu_instr::bmi(cpu),
            Mnemonic::BNE => cpu_instr::bne(cpu),
            Mnemonic::BPL => cpu_instr::bpl(cpu),
            Mnemonic::BVC => cpu_instr::bvc(cpu),
            Mnemonic::BVS => cpu_instr::bvs(cpu),
            Mnemonic::JMP => cpu_instr::jmp(cpu),
            Mnemonic::JSR => cpu_instr::jsr(cpu),
            Mnemonic::RTI => cpu_instr::rti(cpu),
            Mnemonic::RTS => cpu_instr::rts(cpu),
            Mnemonic::CLC => cpu_instr::clc(cpu),
            Mnemonic::CLD => cpu_instr::cld(cpu),
            Mnemonic::CLI => cpu_instr::cli(cpu),
            Mnemonic::CLV => cpu_instr::clv(cpu),
            Mnemonic::CMP => cpu_instr::cmp(cpu),
            Mnemonic::CPX => cpu_instr::cpx(cpu),
            Mnemonic::CPY => cpu_instr::cpy(cpu),
            Mnemonic::SEC => cpu_instr::sec(cpu),
            Mnemonic::SED => cpu_instr::sed(cpu),
            Mnemonic::SEI => cpu_instr::sei(cpu),
            Mnemonic::PHA => cpu_instr::pha(cpu),
            Mnemonic::PHP => cpu_instr::php(cpu),
            Mnemonic::PLA => cpu_instr::pla(cpu),
            Mnemonic::PLP => cpu_instr::plp(cpu),
            Mnemonic::BRK => cpu_instr::brk(cpu),
            Mnemonic::NOP => cpu_instr::nop(cpu),
            Mnemonic::XXX => cpu_instr::xxx(cpu),
        }
    }
}

} // verus!
