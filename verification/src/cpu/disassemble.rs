//! The disassembler: the text of the instructions in a range of memory.

use vstd::prelude::*;
use crate::cpu::instructions::{AddressingMode, Instruction};
use crate::cpu::state::{high, low, signed, word};
use crate::cpu::CPU;

verus! {

/// The upper-case hexadecimal digit of `d`, for `d` below sixteen.
pub open spec fn hex_digit(d: int) -> char {
    if d == 0 {
        '0'
    } else if d == 1 {
        '1'
    } else if d == 2 {
        '2'
    } else if d == 3 {
        '3'
    } else if d == 4 {
        '4'
    } else if d == 5 {
        '5'
    } else if d == 6 {
        '6'
    } else if d == 7 {
        '7'
    } else if d == 8 {
        '8'
    } else if d == 9 {
        '9'
    } else if d == 10 {
        'A'
    } else if d == 11 {
        'B'
    } else if d == 12 {
        'C'
    } else if d == 13 {
        'D'
    } else if d == 14 {
        'E'
    } else {
        'F'
    }
}

/// A byte as two hexadecimal digits.
pub open spec fn hex_byte(v: u8) -> Seq<char> {
    seq![hex_digit(v as int / 16), hex_digit(v as int % 16)]
}

/// A word as four hexadecimal digits.
pub open spec fn hex_word(v: u16) -> Seq<char> {
    hex_byte(high(v)) + hex_byte(low(v))
}

/// A number in hexadecimal, padded with zeros to four digits and longer
/// where it needs more.
pub open spec fn hex_wide(v: u32) -> Seq<char>
    decreases v,
{
    if v < 0x1_0000 {
        hex_word(v as u16)
    } else {
        hex_wide(v / 16).push(hex_digit(v as int % 16))
    }
}

/// Where a branch at `addr` with the offset byte `offset` leads: the
/// address after the two-byte instruction plus the offset read as a signed
/// byte, wrapped to 32 bits.
pub open spec fn branch_target(addr: u16, offset: u8) -> u32 {
    ((addr + 2 + signed(offset)) % 0x1_0000_0000) as u32
}

/// The text of the instruction at `addr`: the address, the mnemonic, the
/// operand in the syntax of the instruction's addressing mode, and a tag in
/// braces. The operand bytes are those after the opcode, also where they
/// lie beyond the end of memory and so at its start. An immediate operand
/// carries the tag `{IMP}`.
pub open spec fn line_text(mem: Seq<u8>, addr: u16) -> Seq<char> {
    let op = Instruction::decode(mem[addr as int]);
    let head = "$"@ + hex_word(addr) + ": "@ + op.mnemonic.spec_name();
    let first = mem[addr.wrapping_add(1) as int];
    let second = mem[addr.wrapping_add(2) as int];
    match op.mode {
        AddressingMode::IMP => head + "  {IMP}"@,
        AddressingMode::IMM => head + " #$"@ + hex_byte(first) + " {IMP}"@,
        AddressingMode::ZP0 => head + " $"@ + hex_byte(first) + " {ZP0}"@,
        AddressingMode::ZPX => head + " $"@ + hex_byte(first) + ", X {ZPX}"@,
        AddressingMode::ZPY => head + " $"@ + hex_byte(first) + ", Y {ZPY}"@,
        AddressingMode::ABS => head + " $"@ + hex_word(word(first, second)) + " {ABS}"@,
        AddressingMode::ABX => head + " $"@ + hex_word(word(first, second)) + ", X {ABX}"@,
        AddressingMode::ABY => head + " $"@ + hex_word(word(first, second)) + ", Y {ABY}"@,
        AddressingMode::IND => head + " ($"@ + hex_word(word(first, second)) + ") {IND}"@,
        AddressingMode::ACC => head,
        AddressingMode::REL => head + " $"@ + hex_byte(first) + " [$"@ + hex_wide(
            branch_target(addr, first),
        ) + "] {REL}"@,
        AddressingMode::IZX => head + " ($"@ + hex_byte(first) + ", X) {IZX}"@,
        AddressingMode::IZY => head + " ($"@ + hex_byte(first) + "), Y {IZY}"@,
    }
}

/// The number of bytes that the instruction at `addr` takes: its opcode
/// and the operand bytes of its addressing mode.
pub open spec fn line_len(mem: Seq<u8>, addr: u16) -> int {
    1 + Instruction::decode(mem[addr as int]).mode.spec_operand_len()
}

/// The listing of the instructions from `cur` on, one after the other,
/// as long as an instruction starts at or before `stop`.
pub open spec fn listing(mem: Seq<u8>, cur: int, stop: u16) -> Seq<(u16, Seq<char>)>
    decreases stop + 3 - cur,
{
    if 0 <= cur <= stop {
        seq![(cur as u16, line_text(mem, cur as u16))] + listing(
            mem,
            cur + line_len(mem, cur as u16),
            stop,
        )
    } else {
        Seq::empty()
    }
}

/// What a list of lines says: each line's address and the characters of its text.
pub open spec fn lines_view(lines: Seq<(u16, String)>) -> Seq<(u16, Seq<char>)> {
    lines.map_values(|line: (u16, String)| (line.0, line.1@))
}

/// The one-character string of a hexadecimal digit.
fn hex_digit_str(d: u8) -> (s: &'static str)
    requires
        d < 16,
    ensures
        s@ == seq![hex_digit(d as int)],
{
    proof {
        reveal_strlit("0");
        reveal_strlit("1");
        reveal_strlit("2");
        reveal_strlit("3");
        reveal_strlit("4");
        reveal_strlit("5");
        reveal_strlit("6");
        reveal_strlit("7");
        reveal_strlit("8");
        reveal_strlit("9");
        reveal_strlit("A");
        reveal_strlit("B");
        reveal_strlit("C");
        reveal_strlit("D");
        reveal_strlit("E");
        reveal_strlit("F");
    }
    let s: &'static str = match d {
        0 => "0",
        1 => "1",
        2 => "2",
        3 => "3",
        4 => "4",
        5 => "5",
        6 => "6",
        7 => "7",
        8 => "8",
        9 => "9",
        10 => "A",
        11 => "B",
        12 => "C",
        13 => "D",
        14 => "E",
        _ => "F",
    };
    assert(s@ =~= seq![hex_digit(d as int)]);
    s
}

/// Appends a byte as two hexadecimal digits.
fn push_hex_byte(text: &mut String, v: u8)
    ensures
        final(text)@ == old(text)@ + hex_byte(v),
{
    text.append(hex_digit_str(v / 16));
    text.append(hex_digit_str(v % 16));
    assert(text@ =~= old(text)@ + hex_byte(v));
}

/// Appends a word as four hexadecimal digits.
fn push_hex_word(text: &mut String, v: u16)
    ensures
        final(text)@ == old(text)@ + hex_word(v),
{
    push_hex_byte(text, high(v));
    push_hex_byte(text, low(v));
    assert(text@ =~= old(text)@ + hex_word(v));
}

/// Appends a number in hexadecimal, with four digits or more.
fn push_hex_wide(text: &mut String, v: u32)
    ensures
        final(text)@ == old(text)@ + hex_wide(v),
    decreases v,
{
    if v < 0x1_0000 {
        push_hex_word(text, v as u16);
    } else {
        push_hex_wide(text, v / 16);
        text.append(hex_digit_str((v % 16) as u8));
        assert(text@ =~= old(text)@ + hex_wide(v));
    }
}

pub struct Disassembler;

impl Disassembler {
    /// The text of the instruction at `addr`.
    pub fn line(cpu: &CPU, addr: u16) -> (text: String)
        ensures
            text@ == line_text(cpu@.mem, addr),
    {
        let op: Instruction = Instruction::decode(cpu.read(addr));
        let first: u8 = cpu.read(addr.wrapping_add(1));
        let second: u8 = cpu.read(addr.wrapping_add(2));

        let mut instr: String = String::new();
        instr.append("$");
        push_hex_word(&mut instr, addr);
        instr.append(": ");
        instr.append(op.mnemonic.name());
        let ghost head = instr@;
        assert(head =~= "$"@ + hex_word(addr) + ": "@ + op.mnemonic.spec_name());

        match op.mode {
            AddressingMode::IMP => {
                instr.append("  {IMP}");
            },
            AddressingMode::IMM => {
                instr.append(" #$");
                push_hex_byte(&mut instr, first);
                instr.append(" {IMP}");
            },
            AddressingMode::ZP0 => {
                instr.append(" $");
                push_hex_byte(&mut instr, first);
                instr.append(" {ZP0}");
            },
            AddressingMode::ZPX => {
                instr.append(" $");
                push_hex_byte(&mut instr, first);
                instr.append(", X {ZPX}");
            },
            AddressingMode::ZPY => {
                instr.append(" $");
                push_hex_byte(&mut instr, first);
                instr.append(", Y {ZPY}");
            },
            AddressingMode::ABS => {
                instr.append(" $");
                push_hex_word(&mut instr, word(first, second));
                instr.append(" {ABS}");
            },
            AddressingMode::ABX => {
                instr.append(" $");
                push_hex_word(&mut instr, word(first, second));
                instr.append(", X {ABX}");
            },
            AddressingMode::ABY => {
                instr.append(" $");
                push_hex_word(&mut instr, word(first, second));
                instr.append(", Y {ABY}");
            },
            AddressingMode::IND => {
                instr.append(" ($");
                push_hex_word(&mut instr, word(first, second));
                instr.append(") {IND}");
            },
            AddressingMode::ACC => {
                // Nothing follows the mnemonic.
            },
            AddressingMode::REL => {
                let after: u32 = addr as u32 + 2;
                let offset: u32 = if first < 0x80 {
                    first as u32
                } else {
                    0xFFFF_FF00 + first as u32
                };
                let target: u32 = after.wrapping_add(offset);
                assert(target == branch_target(addr, first));
                instr.append(" $");
                push_hex_byte(&mut instr, first);
                instr.append(" [$");
                push_hex_wide(&mut instr, target);
                instr.append("] {REL}");
            },
            AddressingMode::IZX => {
                instr.append(" ($");
                push_hex_byte(&mut instr, first);
                instr.append(", X) {IZX}");
            },
            AddressingMode::IZY => {
                instr.append(" ($");
                push_hex_byte(&mut instr, first);
                instr.append("), Y {IZY}");
            },
        }
        instr
    }

    /// Disassembles the program in memory: the instruction at `start`, then
    /// the one after its last byte, and so on while an instruction starts at
    /// or before `stop`. Each line holds the instruction's address and text.
    pub fn for_range(cpu: &CPU, start: u16, stop: u16) -> (lines: Vec<(u16, String)>)
        ensures
            lines_view(lines@) == listing(cpu@.mem, start as int, stop),
            lines@.len() == listing(cpu@.mem, start as int, stop).len(),
            forall|i: int|
                0 <= i < lines@.len() ==> (#[trigger] lines@[i]).0 == listing(
                    cpu@.mem,
                    start as int,
                    stop,
                )[i].0 && lines@[i].1@ == listing(cpu@.mem, start as int, stop)[i].1,
    {
        let mut current_addr: u32 = start as u32;
        let mut instr_lines: Vec<(u16, String)> = Vec::new();
        assert(lines_view(instr_lines@) =~= Seq::empty());

        while current_addr <= stop as u32
            invariant
                current_addr <= 0x1_0002,
                lines_view(instr_lines@) + listing(cpu@.mem, current_addr as int, stop)
                    == listing(cpu@.mem, start as int, stop),
            decreases 0x1_0002 - current_addr,
        {
            let op_addr: u16 = current_addr as u16;
            let op: Instruction = Instruction::decode(cpu.read(op_addr));
            let text: String = Self::line(cpu, op_addr);
            let ghost before = instr_lines@;
            let ghost rest = listing(
                cpu@.mem,
                current_addr + line_len(cpu@.mem, op_addr),
                stop,
            );

            instr_lines.push((op_addr, text));
            current_addr += 1 + op.mode.operand_len() as u32;

            proof {
                let entry = (op_addr, line_text(cpu@.mem, op_addr));
                assert(lines_view(instr_lines@) =~= lines_view(before).push(entry));
                assert(lines_view(before).push(entry) + rest =~= lines_view(before) + (seq![entry]
                    + rest));
            }
        }

        assert(listing(cpu@.mem, current_addr as int, stop) =~= Seq::empty());
        assert forall|i: int| 0 <= i < instr_lines@.len() implies (#[trigger] instr_lines@[i]).0
            == listing(cpu@.mem, start as int, stop)[i].0 && instr_lines@[i].1@ == listing(
            cpu@.mem,
            start as int,
            stop,
        )[i].1 by {
            assert(lines_view(instr_lines@)[i] == (instr_lines@[i].0, instr_lines@[i].1@));
        }
        instr_lines
    }
}

} // verus!
