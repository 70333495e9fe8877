//! The machine as the contracts speak of it: bytes, words and pages, and
//! `CpuState`, the registers, scratch slots and memory as plain values.

use vstd::prelude::*;
use crate::cpu::instructions::{AddressingMode, Instruction};
use crate::cpu::status::{Flag, Flags};

verus! {

/// The 16-bit word whose low byte is `lo` and whose high byte is `hi`.
pub open spec fn spec_word(lo: u8, hi: u8) -> u16 {
    (lo + 256 * hi) as u16
}

/// The 16-bit word whose low byte is `lo` and whose high byte is `hi`.
#[verifier::when_used_as_spec(spec_word)]
pub fn word(lo: u8, hi: u8) -> (w: u16)
    ensures
        w == spec_word(lo, hi),
        w == lo + 256 * hi,
{
    hi as u16 * 256 + lo as u16
}

/// The low byte of `w`.
pub open spec fn spec_low(w: u16) -> u8 {
    (w % 256) as u8
}

/// The low byte of `w`.
#[verifier::when_used_as_spec(spec_low)]
pub fn low(w: u16) -> (b: u8)
    ensures
        b == spec_low(w),
{
    (w % 256) as u8
}

/// The high byte of `w`: the page that the address `w` lies in.
pub open spec fn spec_high(w: u16) -> u8 {
    (w / 256) as u8
}

/// The high byte of `w`: the page that the address `w` lies in.
#[verifier::when_used_as_spec(spec_high)]
pub fn high(w: u16) -> (b: u8)
    ensures
        b == spec_high(w),
{
    (w / 256) as u8
}

/// Whether bit 7 of `v` is set: `v`, read as a signed byte, is negative.
pub open spec fn spec_negative(v: u8) -> bool {
    v >= 0x80
}

/// Whether bit 7 of `v` is set: `v`, read as a signed byte, is negative.
#[verifier::when_used_as_spec(spec_negative)]
pub fn negative(v: u8) -> (n: bool)
    ensures
        n == spec_negative(v),
{
    v >= 0x80
}

/// The byte `v` read as a signed number, from -128 to 127.
pub open spec fn signed(v: u8) -> int {
    if negative(v) {
        v - 0x100
    } else {
        v as int
    }
}

/// Whether adding `index` to the address `base` leaves the page of `base`.
pub open spec fn spec_crosses_page(base: u16, index: u8) -> bool {
    high(base.wrapping_add(index as u16)) != high(base)
}

/// Whether adding `index` to the address `base` leaves the page of `base`.
#[verifier::when_used_as_spec(spec_crosses_page)]
pub fn crosses_page(base: u16, index: u8) -> (crossed: bool)
    ensures
        crossed == spec_crosses_page(base, index),
{
    high(base.wrapping_add(index as u16)) != high(base)
}

/// The extra-cycle hint that stands for `owed`.
pub open spec fn spec_hint(owed: bool) -> u8 {
    if owed {
        1
    } else {
        0
    }
}

/// The extra-cycle hint that stands for `owed`.
#[verifier::when_used_as_spec(spec_hint)]
pub fn hint(owed: bool) -> (h: u8)
    ensures
        h == spec_hint(owed),
{
    if owed {
        1
    } else {
        0
    }
}

/// The programmer-visible machine: registers, scratch slots and memory.
/// It is the view of a `CPU`.
#[verifier::ext_equal]
pub struct CpuState {
    /// Accumulator.
    pub a: u8,
    /// Index register X.
    pub x: u8,
    /// Index register Y.
    pub y: u8,
    /// Stack pointer: the stack's next free byte is at `0x0100 + sp`.
    pub sp: u8,
    /// Program counter.
    pub pc: u16,
    /// Status register.
    pub status: Flags,
    /// The operand byte that the running instruction last fetched.
    pub fetched: u8,
    /// The effective address of the running instruction.
    pub addr_abs: u16,
    /// The sign-extended branch offset of the running instruction.
    pub addr_rel: u16,
    /// Ticks that the running instruction still owes.
    pub cycles_remaining: u8,
    /// The opcode of the running instruction.
    pub opcode: u8,
    /// Memory, one byte for each of the 65,536 addresses.
    pub mem: Seq<u8>,
}

impl CpuState {
    /// Memory covers the whole address space.
    pub open spec fn wf(self) -> bool {
        self.mem.len() == 65536
    }

    /// The byte at `addr`.
    pub open spec fn read(self, addr: u16) -> u8 {
        self.mem[addr as int]
    }

    /// The machine after `data` is stored at `addr`.
    pub open spec fn write(self, addr: u16, data: u8) -> CpuState {
        CpuState { mem: self.mem.update(addr as int, data), ..self }
    }

    /// The little-endian word at `addr` and the address after it.
    pub open spec fn read_word(self, addr: u16) -> u16 {
        word(self.read(addr), self.read(addr.wrapping_add(1)))
    }

    /// The little-endian word at the zero-page address `ptr` and the one
    /// after it, which wraps inside page zero.
    pub open spec fn read_zero_page_word(self, ptr: u8) -> u16 {
        word(self.read(ptr as u16), self.read(ptr.wrapping_add(1) as u16))
    }

    /// The address in the stack page that `sp` names.
    pub open spec fn stack_addr(sp: u8) -> u16 {
        (0x0100 + sp) as u16
    }

    /// The machine after `data` is pushed: stored where the stack pointer
    /// points, which then moves down by one, wrapping inside the stack page.
    pub open spec fn push(self, data: u8) -> CpuState {
        CpuState {
            sp: self.sp.wrapping_sub(1),
            mem: self.mem.update(Self::stack_addr(self.sp) as int, data),
            ..self
        }
    }

    /// The byte that the next pull yields: the one above the stack pointer.
    pub open spec fn top(self) -> u8 {
        self.read(Self::stack_addr(self.sp.wrapping_add(1)))
    }

    /// The machine after one byte is pulled: the stack pointer moves up by
    /// one, wrapping inside the stack page.
    pub open spec fn pop(self) -> CpuState {
        CpuState { sp: self.sp.wrapping_add(1), ..self }
    }

    /// The machine with Z and N set from `value`.
    pub open spec fn flag_zn(self, value: u8) -> CpuState {
        CpuState {
            status: self.status.with(Flag::Z, value == 0).with(Flag::N, negative(value)),
            ..self
        }
    }

    /// The operand of the running instruction: the accumulator copy in
    /// `fetched` where its mode is implied, the byte at the effective
    /// address otherwise.
    pub open spec fn operand(self) -> u8 {
        if Instruction::decode(self.opcode).mode == AddressingMode::IMP {
            self.fetched
        } else {
            self.read(self.addr_abs)
        }
    }

    /// The machine after the operand is fetched into `fetched`.
    pub open spec fn fetch(self) -> CpuState {
        CpuState { fetched: self.operand(), ..self }
    }
}

} // verus!
