//! The addressing modes. Each locates the operand of the running
//! instruction, moves the program counter past the operand bytes, and
//! returns 1 where an instruction that reads the operand owes one more
//! cycle.

use vstd::prelude::*;
use crate::cpu::state::{crosses_page, high, hint, low, negative, word, CpuState};
use crate::cpu::CPU;

verus! {

impl CpuState {
    /// Implied: no operand bytes; `fetched` takes a copy of the accumulator.
    pub open spec fn imp(self) -> CpuState {
        CpuState { fetched: self.a, ..self }
    }

    /// Immediate: the operand is the byte at the program counter.
    pub open spec fn imm(self) -> CpuState {
        CpuState { addr_abs: self.pc, pc: self.pc.wrapping_add(1), ..self }
    }

    /// Zero page: the operand byte is an address in page zero.
    pub open spec fn zp0(self) -> CpuState {
        CpuState { addr_abs: self.read(self.pc) as u16, pc: self.pc.wrapping_add(1), ..self }
    }

    /// Zero page indexed by X: the sum wraps inside page zero.
    pub open spec fn zpx(self) -> CpuState {
        CpuState {
            addr_abs: self.read(self.pc).wrapping_add(self.x) as u16,
            pc: self.pc.wrapping_add(1),
            ..self
        }
    }

    /// Zero page indexed by Y: the sum wraps inside page zero.
    pub open spec fn zpy(self) -> CpuState {
        CpuState {
            addr_abs: self.read(self.pc).wrapping_add(self.y) as u16,
            pc: self.pc.wrapping_add(1),
            ..self
        }
    }

    /// The branch offset `offset`, a signed byte, extended to sixteen bits.
    pub open spec fn sign_extend(offset: u8) -> u16 {
        if negative(offset) {
            (0xFF00 + offset) as u16
        } else {
            offset as u16
        }
    }

    /// Relative: the operand byte is a signed branch offset.
    pub open spec fn rel(self) -> CpuState {
        CpuState {
            addr_rel: Self::sign_extend(self.read(self.pc)),
            pc: self.pc.wrapping_add(1),
            ..self
        }
    }

    /// Absolute: the two operand bytes are the address, low byte first.
    pub open spec fn abs(self) -> CpuState {
        CpuState { addr_abs: self.read_word(self.pc), pc: self.pc.wrapping_add(2), ..self }
    }

    /// Absolute indexed by X.
    pub open spec fn abx(self) -> CpuState {
        CpuState {
            addr_abs: self.read_word(self.pc).wrapping_add(self.x as u16),
            pc: self.pc.wrapping_add(2),
            ..self
        }
    }

    /// Whether the absolute X-indexed address lies in another page than
    /// the address in the operand bytes.
    pub open spec fn abx_crossed(self) -> bool {
        crosses_page(self.read_word(self.pc), self.x)
    }

    /// Absolute indexed by Y.
    pub open spec fn aby(self) -> CpuState {
        CpuState {
            addr_abs: self.read_word(self.pc).wrapping_add(self.y as u16),
            pc: self.pc.wrapping_add(2),
            ..self
        }
    }

    /// Whether the absolute Y-indexed address lies in another page than
    /// the address in the operand bytes.
    pub open spec fn aby_crossed(self) -> bool {
        crosses_page(self.read_word(self.pc), self.y)
    }

    /// The address that the indirect pointer `ptr` leads to. The low byte
    /// comes from `ptr`. The high byte comes from the address after it, but
    /// for a pointer at the end of a page, whose low byte is `0xFF`: there
    /// it comes from the start of the same page, as on the hardware.
    pub open spec fn indirect_target(self, ptr: u16) -> u16 {
        if low(ptr) == 0xFF {
            word(self.read(ptr), self.read(word(0x00, high(ptr))))
        } else {
            word(self.read(ptr), self.read((ptr + 1) as u16))
        }
    }

    /// Indirect: the two operand bytes point to the address.
    pub open spec fn ind(self) -> CpuState {
        CpuState {
            addr_abs: self.indirect_target(self.read_word(self.pc)),
            pc: self.pc.wrapping_add(2),
            ..self
        }
    }

    /// Indexed indirect: the operand byte plus X, wrapped inside page zero,
    /// points to the address, which is read from page zero.
    pub open spec fn izx(self) -> CpuState {
        CpuState {
            addr_abs: self.read_zero_page_word(self.read(self.pc).wrapping_add(self.x)),
            pc: self.pc.wrapping_add(1),
            ..self
        }
    }

    /// Indirect indexed: the operand byte points to a base address in page
    /// zero, to which Y is added.
    pub open spec fn izy(self) -> CpuState {
        CpuState {
            addr_abs: self.read_zero_page_word(self.read(self.pc)).wrapping_add(self.y as u16),
            pc: self.pc.wrapping_add(1),
            ..self
        }
    }

    /// Whether the indirect indexed address lies in another page than the
    /// base address that the pointer holds.
    pub open spec fn izy_crossed(self) -> bool {
        crosses_page(self.read_zero_page_word(self.read(self.pc)), self.y)
    }
}

/// Implied addressing. The instruction has no operand bytes; some implied
/// instructions work on the accumulator, so `fetched` takes its value.
#[inline]
pub fn imp(cpu: &mut CPU) -> (extra: u8)
    ensures
        final(cpu)@ == old(cpu)@.imp(),
        extra == 0,
{
    cpu.fetched = cpu.a;
    0
}

/// Immediate addressing. The operand is the byte after the opcode.
#[inline]
pub fn imm(cpu: &mut CPU) -> (extra: u8)
    ensures
        final(cpu)@ == old(cpu)@.imm(),
        extra == 0,
{
    cpu.addr_abs = cpu.pc;
    cpu.pc = cpu.pc.wrapping_add(1);
    0
}

/// Zero page addressing. The operand byte is an address in page zero,
/// where working memory usually lies.
#[inline]
pub fn zp0(cpu: &mut CPU) -> (extra: u8)
    ensures
        final(cpu)@ == old(cpu)@.zp0(),
        extra == 0,
{
    cpu.addr_abs = cpu.read(cpu.pc) as u16;
    cpu.pc = cpu.pc.wrapping_add(1);
    0
}

/// Zero page addressing with the X register added to the operand byte.
#[inline]
pub fn zpx(cpu: &mut CPU) -> (extra: u8)
    ensures
        final(cpu)@ == old(cpu)@.zpx(),
        extra == 0,
{
    cpu.addr_abs = cpu.read(cpu.pc).wrapping_add(cpu.x) as u16;
    cpu.pc = cpu.pc.wrapping_add(1);
    0
}

/// Zero page addressing with the Y register added to the operand byte.
#[inline]
pub fn zpy(cpu: &mut CPU) -> (extra: u8)
    ensures
        final(cpu)@ == old(cpu)@.zpy(),
        extra == 0,
{
    cpu.addr_abs = cpu.read(cpu.pc).wrapping_add(cpu.y) as u16;
    cpu.pc = cpu.pc.wrapping_add(1);
    0
}

/// Relative addressing, which only branches use.
#[inline]
pub fn rel(cpu: &mut CPU) -> (extra: u8)
    ensures
        final(cpu)@ == old(cpu)@.rel(),
        extra == 0,
{
    let offset: u8 = cpu.read(cpu.pc);
    cpu.pc = cpu.pc.wrapping_add(1);

    // A set top bit marks a jump backwards: the high byte becomes all ones.
    if negative(offset) {
        cpu.addr_rel = 0xFF00 + offset as u16;
    } else {
        cpu.addr_rel = offset as u16;
    }
    0
}

/// Absolute addressing. The two operand bytes hold the whole address.
#[inline]
pub fn abs(cpu: &mut CPU) -> (extra: u8)
    ensures
        final(cpu)@ == old(cpu)@.abs(),
        extra == 0,
{
    let lo: u8 = cpu.read(cpu.pc);
    let hi: u8 = cpu.read(cpu.pc.wrapping_add(1));

    cpu.pc = cpu.pc.wrapping_add(2);
    cpu.addr_abs = word(lo, hi);
    0
}

/// Absolute addressing with the X register added. A further cycle is owed
/// where the sum lies in another page.
#[inline]
pub fn abx(cpu: &mut CPU) -> (extra: u8)
    ensures
        final(cpu)@ == old(cpu)@.abx(),
        extra == hint(old(cpu)@.abx_crossed()),
{
    let lo: u8 = cpu.read(cpu.pc);
    let hi: u8 = cpu.read(cpu.pc.wrapping_add(1));
    let base: u16 = word(lo, hi);

    cpu.pc = cpu.pc.wrapping_add(2);
    cpu.addr_abs = base.wrapping_add(cpu.x as u16);
    hint(crosses_page(base, cpu.x))
}

/// Absolute addressing with the Y register added. A further cycle is owed
/// where the sum lies in another page.
#[inline]
pub fn aby(cpu: &mut CPU) -> (extra: u8)
    ensures
        final(cpu)@ == old(cpu)@.aby(),
        extra == hint(old(cpu)@.aby_crossed()),
{
    let lo: u8 = cpu.read(cpu.pc);
    let hi: u8 = cpu.read(cpu.pc.wrapping_add(1));
    let base: u16 = word(lo, hi);

    cpu.pc = cpu.pc.wrapping_add(2);
    cpu.addr_abs = base.wrapping_add(cpu.y as u16);
    hint(crosses_page(base, cpu.y))
}

/// Indirect addressing: the operand bytes are a pointer to the address.
#[inline]
pub fn ind(cpu: &mut CPU) -> (extra: u8)
    ensures
        final(cpu)@ == old(cpu)@.ind(),
        extra == 0,
{
    let ptr_lo: u8 = cpu.read(cpu.pc);
    let ptr_hi: u8 = cpu.read(cpu.pc.wrapping_add(1));
    let ptr: u16 = word(ptr_lo, ptr_hi);
    cpu.pc = cpu.pc.wrapping_add(2);

    // The hardware does not carry into the pointer's high byte: with the
    // pointer at the end of a page, the second read stays in that page.
    if ptr_lo == 0xFF {
        cpu.addr_abs = word(cpu.read(ptr), cpu.read(word(0x00, ptr_hi)));
    } else {
        cpu.addr_abs = word(cpu.read(ptr), cpu.read(ptr + 1));
    }
    0
}

/// Indirect addressing through page zero, with X added to the pointer.
#[inline]
pub fn izx(cpu: &mut CPU) -> (extra: u8)
    ensures
        final(cpu)@ == old(cpu)@.izx(),
        extra == 0,
{
    let ptr: u8 = cpu.read(cpu.pc).wrapping_add(cpu.x);
    let lo: u8 = cpu.read(ptr as u16);
    let hi: u8 = cpu.read(ptr.wrapping_add(1) as u16);

    cpu.pc = cpu.pc.wrapping_add(1);
    cpu.addr_abs = word(lo, hi);
    0
}

/// Indirect addressing through page zero, with Y added to the address
/// read. A further cycle is owed where the sum lies in another page.
#[inline]
pub fn izy(cpu: &mut CPU) -> (extra: u8)
    ensures
        final(cpu)@ == old(cpu)@.izy(),
        extra == hint(old(cpu)@.izy_crossed()),
{
    let ptr: u8 = cpu.read(cpu.pc);
    let lo: u8 = cpu.read(ptr as u16);
    let hi: u8 = cpu.read(ptr.wrapping_add(1) as u16);
    let base: u16 = word(lo, hi);

    cpu.pc = cpu.pc.wrapping_add(1);
    cpu.addr_abs = base.wrapping_add(cpu.y as u16);
    hint(crosses_page(base, cpu.y))
}

} // verus!
