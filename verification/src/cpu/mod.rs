//! The processor: its registers, the clock tick that carries out one
//! instruction and pays its cycles, the reset and the two interrupts.

pub mod cpu_addr;
pub mod cpu_instr;
pub mod disassemble;
pub mod instructions;
pub mod laws;
pub mod state;
pub mod status;

use vstd::prelude::*;
use crate::bus::Bus;
use self::instructions::{AddressingMode, Instruction};
use self::laws::{lemma_address_frame, lemma_execute_cost, lemma_hints_combine};
use self::state::{high, hint, low, negative, word, CpuState};
pub use self::status::{Flag, Flags, StatusFlags};

verus! {

/// Base address of the stack page; the stack pointer is an offset into it.
pub const STACK_BASE: u16 = 0x0100;

/// Address of the reset vector: the little-endian entry address after a reset.
pub const PC_POINTER: u16 = 0xFFFC;

/// Address of the IRQ/BRK vector.
pub const IRQ_POINTER: u16 = 0xFFFE;

/// Address of the NMI vector.
pub const NMI_POINTER: u16 = 0xFFFA;

/// The processor with its memory: the registers, the scratch slots of the
/// instruction that is running, and the bus.
#[derive(Debug)]
pub struct CPU {
    /// The memory bus.
    pub bus: Bus,
    /// The status register.
    pub status: StatusFlags,
    /// The accumulator.
    pub a: u8,
    /// Index register X.
    pub x: u8,
    /// Index register Y.
    pub y: u8,
    /// The stack pointer.
    pub sp: u8,
    /// The program counter.
    pub pc: u16,
    /// The operand byte that the running instruction last fetched.
    pub fetched: u8,
    /// The effective address of the running instruction.
    pub addr_abs: u16,
    /// The sign-extended branch offset of the running instruction.
    pub addr_rel: u16,
    /// Ticks that the running instruction still owes.
    pub cycles_remaining: u8,
    /// The opcode of the running instruction.
    pub opcode: u8,
}

impl View for CPU {
    type V = CpuState;

    open spec fn view(&self) -> CpuState {
        CpuState {
            a: self.a,
            x: self.x,
            y: self.y,
            sp: self.sp,
            pc: self.pc,
            status: self.status@,
            fetched: self.fetched,
            addr_abs: self.addr_abs,
            addr_rel: self.addr_rel,
            cycles_remaining: self.cycles_remaining,
            opcode: self.opcode,
            mem: self.bus@,
        }
    }
}

impl CpuState {
    /// The machine as it is switched on: every register, scratch slot and
    /// memory byte zero.
    pub open spec fn power_on() -> CpuState {
        CpuState {
            a: 0,
            x: 0,
            y: 0,
            sp: 0,
            pc: 0,
            status: Flags::empty(),
            fetched: 0,
            addr_abs: 0,
            addr_rel: 0,
            cycles_remaining: 0,
            opcode: 0,
            mem: Seq::new(65536, |i: int| 0u8),
        }
    }

    /// The machine after a reset. Nothing is pushed; memory and the opcode
    /// slot keep their contents.
    pub open spec fn reset(self) -> CpuState {
        CpuState {
            a: 0,
            x: 0,
            y: 0,
            sp: 0xFD,
            pc: self.read_word(PC_POINTER),
            status: Flags::empty().with(Flag::U, true),
            fetched: 0,
            addr_abs: 0,
            addr_rel: 0,
            cycles_remaining: 8,
            ..self
        }
    }

    /// The machine after it enters an interrupt handler through the vector
    /// at `vector`, which costs `cycles` ticks: the program counter is pushed
    /// high byte first, then the status byte with B clear and U and I set.
    pub open spec fn interrupt(self, vector: u16, cycles: u8) -> CpuState {
        let pushed_pc = self.push(high(self.pc)).push(low(self.pc));
        let status = self.status.with(Flag::B, false).with(Flag::U, true).with(Flag::I, true);
        let entered = CpuState { status, ..pushed_pc }.push(status.bits());
        CpuState { pc: entered.read_word(vector), cycles_remaining: cycles, ..entered }
    }

    /// The machine after one whole instruction is carried out: the opcode
    /// at the program counter is fetched and decoded, its addressing mode
    /// locates the operand, and the instruction is executed. The cycles
    /// owed are those of the decode table, those that a taken branch adds,
    /// and one more where both the addressing mode and the instruction say
    /// so. At the end U is set.
    pub open spec fn dispatch(self) -> CpuState {
        let opcode = self.read(self.pc);
        let entry = Instruction::decode(opcode);
        let fetched = CpuState {
            opcode,
            pc: self.pc.wrapping_add(1),
            cycles_remaining: entry.cycles,
            ..self
        };
        let addressed = fetched.address(entry.mode);
        let executed = addressed.execute(entry.mnemonic);
        let owed = fetched.address_owes(entry.mode) && addressed.execute_owes(entry.mnemonic);
        CpuState {
            cycles_remaining: executed.cycles_remaining.wrapping_add(hint(owed)),
            status: executed.status.with(Flag::U, true),
            ..executed
        }
    }

    /// The machine after one tick: where no cycle is owed the next
    /// instruction is carried out first; then one owed cycle is paid.
    pub open spec fn clock(self) -> CpuState {
        let s = if self.cycles_remaining == 0 {
            self.dispatch()
        } else {
            self
        };
        CpuState { cycles_remaining: (s.cycles_remaining - 1) as u8, ..s }
    }

    /// The machine after an interrupt request: ignored while I is set.
    pub open spec fn irq(self) -> CpuState {
        if self.status.has(Flag::I) {
            self
        } else {
            self.interrupt(IRQ_POINTER, 7)
        }
    }

    /// The machine after a non-maskable interrupt.
    pub open spec fn nmi(self) -> CpuState {
        self.interrupt(NMI_POINTER, 8)
    }
}

impl CPU {
    /// A CPU with zeroed registers and zeroed memory.
    pub fn new() -> (cpu: Self)
        ensures
            cpu@ == CpuState::power_on(),
    {
        CPU {
            bus: Bus::new(),
            status: StatusFlags::empty(),
            a: 0,
            x: 0,
            y: 0,
            sp: 0,
            pc: 0,
            fetched: 0,
            addr_abs: 0,
            addr_rel: 0,
            cycles_remaining: 0,
            opcode: 0,
        }
    }

    /// The byte at `address`.
    pub open spec fn spec_read(&self, address: u16) -> u8 {
        self@.read(address)
    }

    /// The byte at `address`.
    #[verifier::when_used_as_spec(spec_read)]
    pub fn read(&self, address: u16) -> (data: u8)
        ensures
            data == self@.read(address),
    {
        self.bus.read(address)
    }

    /// Stores `data` at `address`.
    pub fn write(&mut self, address: u16, data: u8)
        ensures
            final(self)@ == old(self)@.write(address, data),
    {
        self.bus.write(address, data);
    }

    /// The little-endian word at `address`.
    fn read_word(&self, address: u16) -> (w: u16)
        ensures
            w == self@.read_word(address),
    {
        let lo: u8 = self.read(address);
        let hi: u8 = self.read(address.wrapping_add(1));
        word(lo, hi)
    }

    /// Pushes `data` on the stack.
    fn push(&mut self, data: u8)
        ensures
            final(self)@ == old(self)@.push(data),
    {
        self.write(STACK_BASE + self.sp as u16, data);
        self.sp = self.sp.wrapping_sub(1);
    }

    /// Pulls one byte from the stack.
    fn pull(&mut self) -> (data: u8)
        ensures
            final(self)@ == old(self)@.pop(),
            data == old(self)@.top(),
    {
        self.sp = self.sp.wrapping_add(1);
        self.read(STACK_BASE + self.sp as u16)
    }

    /// Puts the CPU in its boot state and loads the program counter from
    /// the reset vector.
    pub fn reset(&mut self)
        ensures
            final(self)@ == old(self)@.reset(),
            final(self).sp == 0xFD,
            final(self).pc == word(old(self)@.mem[0xFFFC], old(self)@.mem[0xFFFD]),
    {
        self.a = 0;
        self.x = 0;
        self.y = 0;

        self.sp = 0xFD;
        self.status = StatusFlags::from_bits(Flag::U.mask());

        self.pc = self.read_word(PC_POINTER);

        self.addr_rel = 0x0000;
        self.addr_abs = 0x0000;
        self.fetched = 0x00;

        // A reset takes time too.
        self.cycles_remaining = 8;
    }

    /// Fetches the operand of the running instruction into `fetched`,
    /// unless its mode is implied, and returns it.
    fn fetch(&mut self) -> (data: u8)
        ensures
            final(self)@ == old(self)@.fetch(),
            data == old(self)@.operand(),
    {
        let instr: Instruction = Instruction::decode(self.opcode);

        if instr.mode != AddressingMode::IMP {
            self.fetched = self.read(self.addr_abs);
        }
        self.fetched
    }

    /// Sets Z and N from `value`.
    fn set_zn(&mut self, value: u8)
        ensures
            final(self)@ == old(self)@.flag_zn(value),
    {
        self.status.set(Flag::Z, value == 0);
        self.status.set(Flag::N, negative(value));
    }

    /// Saves the program counter and the status register on the stack and
    /// continues at the address that the vector at `vector` holds.
    fn interrupt(&mut self, vector: u16, cycles: u8)
        ensures
            final(self)@ == old(self)@.interrupt(vector, cycles),
    {
        self.push(high(self.pc));
        self.push(low(self.pc));

        self.status.set(Flag::B, false);
        self.status.set(Flag::U, true);
        self.status.set(Flag::I, true);
        self.push(self.status.bits());

        self.pc = self.read_word(vector);
        self.cycles_remaining = cycles;
    }

    /// One clock tick. An instruction is carried out as a whole on the
    /// tick that finds no cycle owed; the ticks after it pay its cycles.
    pub fn clock(&mut self)
        ensures
            final(self)@ == old(self)@.clock(),
    {
        if self.cycles_remaining == 0 {
            self.opcode = self.read(self.pc);
            self.pc = self.pc.wrapping_add(1);

            let entry: Instruction = Instruction::decode(self.opcode);
            self.cycles_remaining = entry.cycles;

            let ghost fetched = self@;
            let more_cycles1: u8 = entry.mode_exec(self);
            let ghost addressed = self@;
            let more_cycles2: u8 = entry.op_exec(self);

            proof {
                lemma_address_frame(fetched, entry.mode);
                lemma_execute_cost(addressed, entry.mnemonic);
                lemma_hints_combine(
                    fetched.address_owes(entry.mode),
                    addressed.execute_owes(entry.mnemonic),
                );
            }
            // The cycle is owed only where both the mode and the instruction ask for it.
            self.cycles_remaining += more_cycles1 & more_cycles2;
            self.status.set(Flag::U, true);
        }
        self.cycles_remaining -= 1;
    }

    /// An interrupt request. It is ignored while the I flag is set.
    pub fn irq(&mut self)
        ensures
            final(self)@ == old(self)@.irq(),
    {
        if !self.status.contains(Flag::I) {
            self.interrupt(IRQ_POINTER, 7);
        }
    }

    /// A non-maskable interrupt: it is taken whatever the I flag holds.
    pub fn nmi(&mut self)
        ensures
            final(self)@ == old(self)@.nmi(),
    {
        self.interrupt(NMI_POINTER, 8);
    }
}

} // verus!
