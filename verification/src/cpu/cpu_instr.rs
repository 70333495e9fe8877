//! The instructions. Each works on the operand that the addressing mode
//! located, and returns 1 where it pays for a page that the mode crossed.

use vstd::prelude::*;
use crate::cpu::instructions::{AddressingMode, Instruction};
use crate::cpu::state::{high, hint, low, negative, word, CpuState};
use crate::cpu::status::{Flag, Flags, StatusFlags};
use crate::cpu::{CPU, IRQ_POINTER};

verus! {

/// The overflow rule of an addition: both inputs have the sign that the
/// result lacks.
pub open spec fn add_overflows(a: u8, operand: u8, result: u8) -> bool {
    negative(a) == negative(operand) && negative(result) != negative(a)
}

/// The overflow rule of a subtraction: the inputs differ in sign, and the
/// result has not the sign of the value that was subtracted from.
pub open spec fn sub_overflows(a: u8, operand: u8, result: u8) -> bool {
    negative(a) != negative(operand) && negative(result) != negative(a)
}

/// The opcodes of the undocumented NOPs that read memory.
pub open spec fn nop_reads(opcode: u8) -> bool {
    opcode == 0x1C || opcode == 0x3C || opcode == 0x5C || opcode == 0x7C || opcode == 0xDC
        || opcode == 0xFC
}

impl CpuState {
    /// The carry flag as a number.
    pub open spec fn carry(self) -> int {
        if self.status.has(Flag::C) {
            1
        } else {
            0
        }
    }

    /// The machine after `operand` and the carry are added to the
    /// accumulator. The decimal flag plays no part.
    pub open spec fn add_with_carry(self, operand: u8) -> CpuState {
        let sum: int = self.a + operand + self.carry();
        let result: u8 = (sum % 256) as u8;
        CpuState {
            a: result,
            status: self.status.with(Flag::C, sum > 255).with(Flag::Z, result == 0).with(
                Flag::N,
                negative(result),
            ).with(Flag::V, add_overflows(self.a, operand, result)),
            ..self
        }
    }

    /// The machine after `operand` is subtracted from the accumulator, and
    /// one more where the carry is clear. The carry is set where nothing had
    /// to be borrowed. The decimal flag plays no part.
    pub open spec fn subtract_with_borrow(self, operand: u8) -> CpuState {
        let difference: int = self.a - operand - (1 - self.carry());
        let result: u8 = (difference % 256) as u8;
        CpuState {
            a: result,
            status: self.status.with(Flag::C, difference >= 0).with(Flag::Z, result == 0).with(
                Flag::N,
                negative(result),
            ).with(Flag::V, sub_overflows(self.a, operand, result)),
            ..self
        }
    }

    /// The machine after `result` is stored where a shift or rotate puts
    /// it: in the accumulator where the mode of the running instruction is
    /// implied, at the effective address otherwise.
    pub open spec fn store_shifted(self, result: u8) -> CpuState {
        if Instruction::decode(self.opcode).mode == AddressingMode::IMP {
            CpuState { a: result, ..self }
        } else {
            self.write(self.addr_abs, result)
        }
    }

    /// The machine after `reg` is compared with the operand: C where
    /// `reg` is not below it, Z and N from the difference.
    pub open spec fn compare(self, reg: u8) -> CpuState {
        let s = self.fetch();
        CpuState { status: s.status.with(Flag::C, reg >= s.fetched), ..s }.flag_zn(
            reg.wrapping_sub(s.fetched),
        )
    }

    /// The machine with `flag` set to `value`.
    pub open spec fn flag(self, flag: Flag, value: bool) -> CpuState {
        CpuState { status: self.status.with(flag, value), ..self }
    }

    /// The machine after a branch is taken: one more cycle is owed, and a
    /// second one where the target lies in another page than the
    /// instruction that follows the branch.
    pub open spec fn branch(self) -> CpuState {
        let target: u16 = self.pc.wrapping_add(self.addr_rel);
        let owed: u8 = if high(target) != high(self.pc) {
            2
        } else {
            1
        };
        CpuState {
            cycles_remaining: self.cycles_remaining.wrapping_add(owed),
            addr_abs: target,
            pc: target,
            ..self
        }
    }

    /// The machine after a branch instruction whose condition is `taken`.
    pub open spec fn branch_if(self, taken: bool) -> CpuState {
        if taken {
            self.branch()
        } else {
            self
        }
    }

    /// ADC: the operand and the carry are added to the accumulator.
    pub open spec fn adc(self) -> CpuState {
        let s = self.fetch();
        s.add_with_carry(s.fetched)
    }

    /// SBC: the operand is subtracted from the accumulator, with borrow.
    pub open spec fn sbc(self) -> CpuState {
        let s = self.fetch();
        s.subtract_with_borrow(s.fetched)
    }

    /// AND: the accumulator is ANDed with the operand; Z and N follow it.
    pub open spec fn and(self) -> CpuState {
        let s = self.fetch();
        CpuState { a: s.a & s.fetched, ..s }.flag_zn(s.a & s.fetched)
    }

    /// ASL: the operand is shifted left by one bit; bit 7 goes to C.
    pub open spec fn asl(self) -> CpuState {
        let s = self.fetch();
        let shifted: int = 2 * s.fetched;
        let result: u8 = (shifted % 256) as u8;
        s.flag(Flag::C, shifted > 255).flag_zn(result).store_shifted(result)
    }

    /// BCC: branch where C is clear.
    pub open spec fn bcc(self) -> CpuState {
        self.branch_if(!self.status.has(Flag::C))
    }

    /// BCS: branch where C is set.
    pub open spec fn bcs(self) -> CpuState {
        self.branch_if(self.status.has(Flag::C))
    }

    /// BEQ: branch where Z is set.
    pub open spec fn beq(self) -> CpuState {
        self.branch_if(self.status.has(Flag::Z))
    }

    /// BIT: Z tells whether the accumulator and the operand share no bit;
    /// N and V take bits 7 and 6 of the operand.
    pub open spec fn bit(self) -> CpuState {
        let s = self.fetch();
        s.flag(Flag::Z, s.a & s.fetched == 0).flag(Flag::N, negative(s.fetched)).flag(
            Flag::V,
            (s.fetched / 64) % 2 == 1,
        )
    }

    /// BMI: branch where N is set.
    pub open spec fn bmi(self) -> CpuState {
        self.branch_if(self.status.has(Flag::N))
    }

    /// BNE: branch where Z is clear.
    pub open spec fn bne(self) -> CpuState {
        self.branch_if(!self.status.has(Flag::Z))
    }

    /// BPL: branch where N is clear.
    pub open spec fn bpl(self) -> CpuState {
        self.branch_if(!self.status.has(Flag::N))
    }

    /// BRK: a software interrupt. The program counter skips one byte, I is
    /// set, and the machine enters the handler of the IRQ vector. The status
    /// byte on the stack has B and U set; in the register B stays as it was.
    pub open spec fn brk(self) -> CpuState {
        let ret: u16 = self.pc.wrapping_add(1);
        let s = self.flag(Flag::I, true).push(high(ret)).push(low(ret));
        let pushed = s.push(s.status.pushed());
        CpuState { pc: pushed.read_word(IRQ_POINTER), ..pushed }
    }

    /// BVC: branch where V is clear.
    pub open spec fn bvc(self) -> CpuState {
        self.branch_if(!self.status.has(Flag::V))
    }

    /// BVS: branch where V is set.
    pub open spec fn bvs(self) -> CpuState {
        self.branch_if(self.status.has(Flag::V))
    }

    /// CLC: C is cleared.
    pub open spec fn clc(self) -> CpuState {
        self.flag(Flag::C, false)
    }

    /// CLD: D is cleared.
    pub open spec fn cld(self) -> CpuState {
        self.flag(Flag::D, false)
    }

    /// CLI: I is cleared.
    pub open spec fn cli(self) -> CpuState {
        self.flag(Flag::I, false)
    }

    /// CLV: V is cleared.
    pub open spec fn clv(self) -> CpuState {
        self.flag(Flag::V, false)
    }

    /// DEC: the byte at the effective address goes down by one, wrapping;
    /// Z and N follow it.
    pub open spec fn dec(self) -> CpuState {
        let s = self.fetch();
        let result: u8 = s.fetched.wrapping_sub(1);
        s.write(s.addr_abs, result).flag_zn(result)
    }

    /// DEX: X goes down by one, wrapping; Z and N follow it.
    pub open spec fn dex(self) -> CpuState {
        CpuState { x: self.x.wrapping_sub(1), ..self }.flag_zn(self.x.wrapping_sub(1))
    }

    /// DEY: Y goes down by one, wrapping; Z and N follow it.
    pub open spec fn dey(self) -> CpuState {
        CpuState { y: self.y.wrapping_sub(1), ..self }.flag_zn(self.y.wrapping_sub(1))
    }

    /// EOR: the accumulator is exclusive-ORed with the operand; Z and N follow it.
    pub open spec fn eor(self) -> CpuState {
        let s = self.fetch();
        CpuState { a: s.a ^ s.fetched, ..s }.flag_zn(s.a ^ s.fetched)
    }

    /// INC: the byte at the effective address goes up by one, wrapping;
    /// Z and N follow it.
    pub open spec fn inc(self) -> CpuState {
        let s = self.fetch();
        let result: u8 = s.fetched.wrapping_add(1);
        s.write(s.addr_abs, result).flag_zn(result)
    }

    /// INX: X goes up by one, wrapping; Z and N follow it.
    pub open spec fn inx(self) -> CpuState {
        CpuState { x: self.x.wrapping_add(1), ..self }.flag_zn(self.x.wrapping_add(1))
    }

    /// INY: Y goes up by one, wrapping; Z and N follow it.
    pub open spec fn iny(self) -> CpuState {
        CpuState { y: self.y.wrapping_add(1), ..self }.flag_zn(self.y.wrapping_add(1))
    }

    /// JMP: the program counter takes the effective address.
    pub open spec fn jmp(self) -> CpuState {
        CpuState { pc: self.addr_abs, ..self }
    }

    /// JSR: a subroutine call. The address of the last byte of the JSR
    /// instruction is pushed, high byte first.
    pub open spec fn jsr(self) -> CpuState {
        let ret: u16 = self.pc.wrapping_sub(1);
        CpuState { pc: self.addr_abs, ..self.push(high(ret)).push(low(ret)) }
    }

    /// LDA: the accumulator takes the operand; Z and N follow it.
    pub open spec fn lda(self) -> CpuState {
        let s = self.fetch();
        CpuState { a: s.fetched, ..s }.flag_zn(s.fetched)
    }

    /// LDX: X takes the operand; Z and N follow it.
    pub open spec fn ldx(self) -> CpuState {
        let s = self.fetch();
        CpuState { x: s.fetched, ..s }.flag_zn(s.fetched)
    }

    /// LDY: Y takes the operand; Z and N follow it.
    pub open spec fn ldy(self) -> CpuState {
        let s = self.fetch();
        CpuState { y: s.fetched, ..s }.flag_zn(s.fetched)
    }

    /// LSR: the operand is shifted right by one bit; bit 0 goes to C.
    pub open spec fn lsr(self) -> CpuState {
        let s = self.fetch();
        let result: u8 = s.fetched / 2;
        s.flag(Flag::C, s.fetched % 2 == 1).flag_zn(result).store_shifted(result)
    }

    /// NOP: nothing changes.
    pub open spec fn nop(self) -> CpuState {
        self
    }

    /// ORA: the accumulator is ORed with the operand; Z and N follow it.
    pub open spec fn ora(self) -> CpuState {
        let s = self.fetch();
        CpuState { a: s.a | s.fetched, ..s }.flag_zn(s.a | s.fetched)
    }

    /// PHA: the accumulator is pushed.
    pub open spec fn pha(self) -> CpuState {
        self.push(self.a)
    }

    /// PHP: the status register is pushed. The byte on the stack has B and
    /// U set; the register itself keeps its value.
    pub open spec fn php(self) -> CpuState {
        self.push(self.status.pushed())
    }

    /// PLA: the accumulator is pulled; Z and N follow it.
    pub open spec fn pla(self) -> CpuState {
        CpuState { a: self.top(), ..self.pop() }.flag_zn(self.top())
    }

    /// PLP: the status register is pulled; B reads as clear and U as set.
    pub open spec fn plp(self) -> CpuState {
        CpuState { status: Flags::pulled(self.top()), ..self.pop() }
    }

    /// ROL: the operand is rotated left through the carry.
    pub open spec fn rol(self) -> CpuState {
        let s = self.fetch();
        let rotated: int = 2 * s.fetched + s.carry();
        let result: u8 = (rotated % 256) as u8;
        s.flag(Flag::C, rotated > 255).flag_zn(result).store_shifted(result)
    }

    /// ROR: the operand is rotated right through the carry.
    pub open spec fn ror(self) -> CpuState {
        let s = self.fetch();
        let result: u8 = (128 * s.carry() + s.fetched / 2) as u8;
        s.flag(Flag::C, s.fetched % 2 == 1).flag_zn(result).store_shifted(result)
    }

    /// RTI: the return from an interrupt handler. The status register is
    /// pulled first, then the program counter, low byte first. Nothing is
    /// added to the program counter.
    pub open spec fn rti(self) -> CpuState {
        let s1 = CpuState { status: Flags::pulled(self.top()), ..self.pop() };
        let s2 = s1.pop();
        let s3 = s2.pop();
        CpuState { pc: word(s1.top(), s2.top()), ..s3 }
    }

    /// RTS: the return from a subroutine. The program counter is pulled, low
    /// byte first, and moves on by one.
    pub open spec fn rts(self) -> CpuState {
        let s1 = self.pop();
        let s2 = s1.pop();
        CpuState { pc: word(self.top(), s1.top()).wrapping_add(1), ..s2 }
    }

    /// SEC: C is set.
    pub open spec fn sec(self) -> CpuState {
        self.flag(Flag::C, true)
    }

    /// SED: D is set.
    pub open spec fn sed(self) -> CpuState {
        self.flag(Flag::D, true)
    }

    /// SEI: I is set.
    pub open spec fn sei(self) -> CpuState {
        self.flag(Flag::I, true)
    }

    /// STA: the accumulator is stored at the effective address.
    pub open spec fn sta(self) -> CpuState {
        self.write(self.addr_abs, self.a)
    }

    /// STX: X is stored at the effective address.
    pub open spec fn stx(self) -> CpuState {
        self.write(self.addr_abs, self.x)
    }

    /// STY: Y is stored at the effective address.
    pub open spec fn sty(self) -> CpuState {
        self.write(self.addr_abs, self.y)
    }

    /// TAX: X takes the accumulator; Z and N follow it.
    pub open spec fn tax(self) -> CpuState {
        CpuState { x: self.a, ..self }.flag_zn(self.a)
    }

    /// TAY: Y takes the accumulator; Z and N follow it.
    pub open spec fn tay(self) -> CpuState {
        CpuState { y: self.a, ..self }.flag_zn(self.a)
    }

    /// TSX: X takes the stack pointer; Z and N follow it.
    pub open spec fn tsx(self) -> CpuState {
        CpuState { x: self.sp, ..self }.flag_zn(self.sp)
    }

    /// TXA: the accumulator takes X; Z and N follow it.
    pub open spec fn txa(self) -> CpuState {
        CpuState { a: self.x, ..self }.flag_zn(self.x)
    }

    /// TYA: the accumulator takes Y; Z and N follow it.
    pub open spec fn tya(self) -> CpuState {
        CpuState { a: self.y, ..self }.flag_zn(self.y)
    }

    /// TXS: the stack pointer takes X. It is the one transfer that touches
    /// no flag.
    pub open spec fn txs(self) -> CpuState {
        CpuState { sp: self.x, ..self }
    }

    /// An opcode that is bound to no instruction: nothing changes.
    pub open spec fn xxx(self) -> CpuState {
        self
    }
}

/// Complementing a byte subtracts it from 255, and with a complemented
/// operand the overflow rule of the addition is that of the subtraction.
pub proof fn lemma_complement(a: u8, operand: u8, result: u8)
    ensures
        operand ^ 0xFF == 255 - operand,
        add_overflows(a, operand ^ 0xFF, result) == sub_overflows(a, operand, result),
{
    assert(operand ^ 0xFF == 255 - operand) by (bit_vector);
}

/// The overflow rule of the addition on the bits of the three bytes: bit 7
/// of the accumulator and of the operand is the same, and is not bit 7 of
/// the result. That is the same as: bit 7 of the result differs from that
/// of either input.
pub proof fn lemma_sign_rule(a: u8, operand: u8, result: u8)
    ensures
        add_overflows(a, operand, result) == ((!(a ^ operand) & (a ^ result) & 0x80) != 0),
        add_overflows(a, operand, result) == (((a ^ result) & (operand ^ result) & 0x80) != 0),
        sub_overflows(a, operand, result) == (((a ^ operand) & (a ^ result) & 0x80) != 0),
{
    assert(((a >= 0x80) == (operand >= 0x80) && (result >= 0x80) != (a >= 0x80)) == ((!(a
        ^ operand) & (a ^ result) & 0x80) != 0)) by (bit_vector);
    assert(((a >= 0x80) == (operand >= 0x80) && (result >= 0x80) != (a >= 0x80)) == (((a ^ result)
        & (operand ^ result) & 0x80) != 0)) by (bit_vector);
    assert(((a >= 0x80) != (operand >= 0x80) && (result >= 0x80) != (a >= 0x80)) == (((a
        ^ operand) & (a ^ result) & 0x80) != 0)) by (bit_vector);
}

/// Subtracting with borrow is adding the complement of the operand with
/// carry: the accumulator and every flag come out the same.
pub proof fn lemma_sbc_is_adc_of_complement(s: CpuState, operand: u8)
    ensures
        s.subtract_with_borrow(operand) == s.add_with_carry(operand ^ 0xFF),
{
    lemma_complement(s.a, operand, 0);
    let complement: u8 = operand ^ 0xFF;
    let sum: int = s.a + complement + s.carry();
    let difference: int = s.a - operand - (1 - s.carry());
    assert(sum == difference + 256);
    let result: u8 = (sum % 256) as u8;
    assert(result == (difference % 256) as u8);
    lemma_complement(s.a, operand, result);
}

impl CPU {
    /// Adds `operand` and the carry to the accumulator.
    fn add_with_carry(&mut self, operand: u8)
        ensures
            final(self)@ == old(self)@.add_with_carry(operand),
    {
        let carry: u16 = if self.status.contains(Flag::C) {
            1
        } else {
            0
        };
        // The sum is taken in sixteen bits, so that the carry out of bit 7 shows.
        let sum: u16 = self.a as u16 + operand as u16 + carry;
        let result: u8 = (sum % 256) as u8;
        let overflow: bool = (!(self.a ^ operand) & (self.a ^ result) & 0x80) != 0;
        proof {
            lemma_sign_rule(self.a, operand, result);
        }

        self.status.set(Flag::C, sum > 255);
        self.status.set(Flag::Z, result == 0);
        self.status.set(Flag::N, negative(result));
        self.status.set(Flag::V, overflow);

        self.a = result;
    }

    /// Stores the result of a shift or rotate: in the accumulator where the
    /// mode of the running instruction is implied, in memory otherwise.
    fn store_shifted(&mut self, result: u8)
        ensures
            final(self)@ == old(self)@.store_shifted(result),
    {
        if Instruction::decode(self.opcode).mode == AddressingMode::IMP {
            self.a = result;
        } else {
            self.write(self.addr_abs, result);
        }
    }

    /// Compares `reg` with the operand.
    fn compare(&mut self, reg: u8)
        ensures
            final(self)@ == old(self)@.compare(reg),
    {
        let fetched: u8 = self.fetch();
        self.status.set(Flag::C, reg >= fetched);
        self.set_zn(reg.wrapping_sub(fetched));
    }
}

/// Add with carry in. A result above 255 sets the carry, so that additions
/// can be chained to add numbers wider than eight bits.
pub fn adc(cpu: &mut CPU) -> (extra: u8)
    ensures
        final(cpu)@ == old(cpu)@.adc(),
        extra == 1,
{
    let fetched: u8 = cpu.fetch();
    cpu.add_with_carry(fetched);
    1
}

/// Subtract with borrow in. The operand is complemented and added: in
/// eight bits that is the subtraction.
pub fn sbc(cpu: &mut CPU) -> (extra: u8)
    ensures
        final(cpu)@ == old(cpu)@.sbc(),
        final(cpu)@ == old(cpu)@.fetch().add_with_carry(old(cpu)@.operand() ^ 0xFF),
        extra == 1,
{
    let fetched: u8 = cpu.fetch();
    proof {
        lemma_sbc_is_adc_of_complement(cpu@, fetched);
    }
    cpu.add_with_carry(fetched ^ 0xFF);
    1
}

/// Logical AND on the accumulator.
pub fn and(cpu: &mut CPU) -> (extra: u8)
    ensures
        final(cpu)@ == old(cpu)@.and(),
        extra == 1,
{
    cpu.a = cpu.a & cpu.fetch();
    cpu.set_zn(cpu.a);
    1
}

/// Arithmetic shift left.
pub fn asl(cpu: &mut CPU) -> (extra: u8)
    ensures
        final(cpu)@ == old(cpu)@.asl(),
        extra == 0,
{
    let fetched: u16 = cpu.fetch() as u16;
    let shifted: u16 = 2 * fetched;
    let result: u8 = (shifted % 256) as u8;

    cpu.status.set(Flag::C, shifted > 255);
    cpu.set_zn(result);
    cpu.store_shifted(result);
    0
}

/// Branch if the carry is clear.
pub fn bcc(cpu: &mut CPU) -> (extra: u8)
    ensures
        final(cpu)@ == old(cpu)@.bcc(),
        extra == 0,
{
    if !cpu.status.contains(Flag::C) {
        branch(cpu);
    }
    0
}

/// Branch if the carry is set.
pub fn bcs(cpu: &mut CPU) -> (extra: u8)
    ensures
        final(cpu)@ == old(cpu)@.bcs(),
        extra == 0,
{
    if cpu.status.contains(Flag::C) {
        branch(cpu);
    }
    0
}

/// Branch if equal: the zero flag is set.
pub fn beq(cpu: &mut CPU) -> (extra: u8)
    ensures
        final(cpu)@ == old(cpu)@.beq(),
        extra == 0,
{
    if cpu.status.contains(Flag::Z) {
        branch(cpu);
    }
    0
}

/// Tests bits in memory with the accumulator.
pub fn bit(cpu: &mut CPU) -> (extra: u8)
    ensures
        final(cpu)@ == old(cpu)@.bit(),
        extra == 0,
{
    let fetched: u8 = cpu.fetch();
    let tested: u8 = cpu.a & fetched;

    cpu.status.set(Flag::Z, tested == 0);
    cpu.status.set(Flag::N, negative(fetched));
    cpu.status.set(Flag::V, (fetched / 64) % 2 == 1);
    0
}

/// Branch if negative.
pub fn bmi(cpu: &mut CPU) -> (extra: u8)
    ensures
        final(cpu)@ == old(cpu)@.bmi(),
        extra == 0,
{
    if cpu.status.contains(Flag::N) {
        branch(cpu);
    }
    0
}

/// Branch if not equal: the zero flag is clear.
pub fn bne(cpu: &mut CPU) -> (extra: u8)
    ensures
        final(cpu)@ == old(cpu)@.bne(),
        extra == 0,
{
    if !cpu.status.contains(Flag::Z) {
        branch(cpu);
    }
    0
}

/// Branch if positive.
pub fn bpl(cpu: &mut CPU) -> (extra: u8)
    ensures
        final(cpu)@ == old(cpu)@.bpl(),
        extra == 0,
{
    if !cpu.status.contains(Flag::N) {
        branch(cpu);
    }
    0
}

/// Break: a software interrupt through the IRQ vector.
pub fn brk(cpu: &mut CPU) -> (extra: u8)
    ensures
        final(cpu)@ == old(cpu)@.brk(),
        extra == 0,
{
    cpu.pc = cpu.pc.wrapping_add(1);

    cpu.status.set(Flag::I, true);
    cpu.push(high(cpu.pc));
    cpu.push(low(cpu.pc));

    // B is set in the copy on the stack only: it tells the handler that
    // the interrupt came from software.
    cpu.push(cpu.status.pushed());

    cpu.pc = cpu.read_word(IRQ_POINTER);
    0
}

/// Branch if the overflow flag is clear.
pub fn bvc(cpu: &mut CPU) -> (extra: u8)
    ensures
        final(cpu)@ == old(cpu)@.bvc(),
        extra == 0,
{
    if !cpu.status.contains(Flag::V) {
        branch(cpu);
    }
    0
}

/// Branch if the overflow flag is set.
pub fn bvs(cpu: &mut CPU) -> (extra: u8)
    ensures
        final(cpu)@ == old(cpu)@.bvs(),
        extra == 0,
{
    if cpu.status.contains(Flag::V) {
        branch(cpu);
    }
    0
}

/// Clear the carry flag.
pub fn clc(cpu: &mut CPU) -> (extra: u8)
    ensures
        final(cpu)@ == old(cpu)@.clc(),
        extra == 0,
{
    cpu.status.set(Flag::C, false);
    0
}

/// Clear the decimal flag.
pub fn cld(cpu: &mut CPU) -> (extra: u8)
    ensures
        final(cpu)@ == old(cpu)@.cld(),
        extra == 0,
{
    cpu.status.set(Flag::D, false);
    0
}

/// Clear the interrupt disable flag.
pub fn cli(cpu: &mut CPU) -> (extra: u8)
    ensures
        final(cpu)@ == old(cpu)@.cli(),
        extra == 0,
{
    cpu.status.set(Flag::I, false);
    0
}

/// Clear the overflow flag.
pub fn clv(cpu: &mut CPU) -> (extra: u8)
    ensures
        final(cpu)@ == old(cpu)@.clv(),
        extra == 0,
{
    cpu.status.set(Flag::V, false);
    0
}

/// Compare the accumulator with the operand.
pub fn cmp(cpu: &mut CPU) -> (extra: u8)
    ensures
        final(cpu)@ == old(cpu)@.compare(old(cpu).a),
        extra == 1,
{
    let reg: u8 = cpu.a;
    cpu.compare(reg);
    1
}

/// Compare the X register with the operand.
pub fn cpx(cpu: &mut CPU) -> (extra: u8)
    ensures
        final(cpu)@ == old(cpu)@.compare(old(cpu).x),
        extra == 0,
{
    let reg: u8 = cpu.x;
    cpu.compare(reg);
    0
}

/// Compare the Y register with the operand.
pub fn cpy(cpu: &mut CPU) -> (extra: u8)
    ensures
        final(cpu)@ == old(cpu)@.compare(old(cpu).y),
        extra == 0,
{
    let reg: u8 = cpu.y;
    cpu.compare(reg);
    0
}

/// Decrement the value at a memory location.
pub fn dec(cpu: &mut CPU) -> (extra: u8)
    ensures
        final(cpu)@ == old(cpu)@.dec(),
        extra == 0,
{
    let decrement: u8 = cpu.fetch().wrapping_sub(1);
    cpu.write(cpu.addr_abs, decrement);
    cpu.set_zn(decrement);
    0
}

/// Decrement the X register.
pub fn dex(cpu: &mut CPU) -> (extra: u8)
    ensures
        final(cpu)@ == old(cpu)@.dex(),
        extra == 0,
{
    cpu.x = cpu.x.wrapping_sub(1);
    cpu.set_zn(cpu.x);
    0
}

/// Decrement the Y register.
pub fn dey(cpu: &mut CPU) -> (extra: u8)
    ensures
        final(cpu)@ == old(cpu)@.dey(),
        extra == 0,
{
    cpu.y = cpu.y.wrapping_sub(1);
    cpu.set_zn(cpu.y);
    0
}

/// Bitwise exclusive OR on the accumulator.
pub fn eor(cpu: &mut CPU) -> (extra: u8)
    ensures
        final(cpu)@ == old(cpu)@.eor(),
        extra == 1,
{
    let fetched: u8 = cpu.fetch();
    cpu.a = cpu.a ^ fetched;
    cpu.set_zn(cpu.a);
    1
}

/// Increment the value at a memory location.
pub fn inc(cpu: &mut CPU) -> (extra: u8)
    ensures
        final(cpu)@ == old(cpu)@.inc(),
        extra == 0,
{
    let increment: u8 = cpu.fetch().wrapping_add(1);
    cpu.write(cpu.addr_abs, increment);
    cpu.set_zn(increment);
    0
}

/// Increment the X register.
pub fn inx(cpu: &mut CPU) -> (extra: u8)
    ensures
        final(cpu)@ == old(cpu)@.inx(),
        extra == 0,
{
    cpu.x = cpu.x.wrapping_add(1);
    cpu.set_zn(cpu.x);
    0
}

/// Increment the Y register.
pub fn iny(cpu: &mut CPU) -> (extra: u8)
    ensures
        final(cpu)@ == old(cpu)@.iny(),
        extra == 0,
{
    cpu.y = cpu.y.wrapping_add(1);
    cpu.set_zn(cpu.y);
    0
}

/// Jump to the effective address.
pub fn jmp(cpu: &mut CPU) -> (extra: u8)
    ensures
        final(cpu)@ == old(cpu)@.jmp(),
        extra == 0,
{
    cpu.pc = cpu.addr_abs;
    0
}

/// Jump to a subroutine, leaving the way back on the stack.
pub fn jsr(cpu: &mut CPU) -> (extra: u8)
    ensures
        final(cpu)@ == old(cpu)@.jsr(),
        extra == 0,
{
    cpu.pc = cpu.pc.wrapping_sub(1);
    cpu.push(high(cpu.pc));
    cpu.push(low(cpu.pc));
    cpu.pc = cpu.addr_abs;
    0
}

/// Load the accumulator.
pub fn lda(cpu: &mut CPU) -> (extra: u8)
    ensures
        final(cpu)@ == old(cpu)@.lda(),
        extra == 1,
{
    cpu.a = cpu.fetch();
    cpu.set_zn(cpu.a);
    1
}

/// Load the X register.
pub fn ldx(cpu: &mut CPU) -> (extra: u8)
    ensures
        final(cpu)@ == old(cpu)@.ldx(),
        extra == 1,
{
    cpu.x = cpu.fetch();
    cpu.set_zn(cpu.x);
    1
}

/// Load the Y register.
pub fn ldy(cpu: &mut CPU) -> (extra: u8)
    ensures
        final(cpu)@ == old(cpu)@.ldy(),
        extra == 1,
{
    cpu.y = cpu.fetch();
    cpu.set_zn(cpu.y);
    1
}

/// Shift one bit right, in memory or in the accumulator.
pub fn lsr(cpu: &mut CPU) -> (extra: u8)
    ensures
        final(cpu)@ == old(cpu)@.lsr(),
        extra == 0,
{
    let fetched: u8 = cpu.fetch();
    let shifted: u8 = fetched / 2;

    cpu.status.set(Flag::C, fetched % 2 == 1);
    cpu.set_zn(shifted);
    cpu.store_shifted(shifted);
    0
}

/// No operation. Not every NOP is the same: the undocumented ones that
/// read memory owe a cycle where the read crosses a page.
pub fn nop(cpu: &mut CPU) -> (extra: u8)
    ensures
        final(cpu)@ == old(cpu)@.nop(),
        extra == hint(nop_reads(old(cpu).opcode)),
{
    match cpu.opcode {
        0x1C | 0x3C | 0x5C | 0x7C | 0xDC | 0xFC => 1,
        _ => 0,
    }
}

/// Bitwise OR on the accumulator.
pub fn ora(cpu: &mut CPU) -> (extra: u8)
    ensures
        final(cpu)@ == old(cpu)@.ora(),
        extra == 1,
{
    let fetched: u8 = cpu.fetch();
    cpu.a = cpu.a | fetched;
    cpu.set_zn(cpu.a);
    1
}

/// Push the accumulator on the stack.
pub fn pha(cpu: &mut CPU) -> (extra: u8)
    ensures
        final(cpu)@ == old(cpu)@.pha(),
        extra == 0,
{
    cpu.push(cpu.a);
    0
}

/// Push the status register on the stack.
pub fn php(cpu: &mut CPU) -> (extra: u8)
    ensures
        final(cpu)@ == old(cpu)@.php(),
        extra == 0,
{
    cpu.push(cpu.status.pushed());
    0
}

/// Pull the accumulator from the stack.
pub fn pla(cpu: &mut CPU) -> (extra: u8)
    ensures
        final(cpu)@ == old(cpu)@.pla(),
        extra == 0,
{
    cpu.a = cpu.pull();
    cpu.set_zn(cpu.a);
    0
}

/// Pull the status register from the stack.
pub fn plp(cpu: &mut CPU) -> (extra: u8)
    ensures
        final(cpu)@ == old(cpu)@.plp(),
        extra == 0,
{
    let bits: u8 = cpu.pull();
    cpu.status = StatusFlags::pulled(bits);
    0
}

/// Rotate one bit left through the carry, in memory or in the accumulator.
pub fn rol(cpu: &mut CPU) -> (extra: u8)
    ensures
        final(cpu)@ == old(cpu)@.rol(),
        extra == 0,
{
    let fetched: u16 = cpu.fetch() as u16;
    let carry: u16 = if cpu.status.contains(Flag::C) {
        1
    } else {
        0
    };
    let rotated: u16 = 2 * fetched + carry;
    let result: u8 = (rotated % 256) as u8;

    cpu.status.set(Flag::C, rotated > 255);
    cpu.set_zn(result);
    cpu.store_shifted(result);
    0
}

/// Rotate one bit right through the carry, in memory or in the accumulator.
pub fn ror(cpu: &mut CPU) -> (extra: u8)
    ensures
        final(cpu)@ == old(cpu)@.ror(),
        extra == 0,
{
    let fetched: u8 = cpu.fetch();
    let carry: u8 = if cpu.status.contains(Flag::C) {
        128
    } else {
        0
    };
    let result: u8 = carry + fetched / 2;

    cpu.status.set(Flag::C, fetched % 2 == 1);
    cpu.set_zn(result);
    cpu.store_shifted(result);
    0
}

/// Return from an interrupt handler.
pub fn rti(cpu: &mut CPU) -> (extra: u8)
    ensures
        final(cpu)@ == old(cpu)@.rti(),
        extra == 0,
{
    let bits: u8 = cpu.pull();
    cpu.status = StatusFlags::pulled(bits);

    let lo: u8 = cpu.pull();
    let hi: u8 = cpu.pull();
    cpu.pc = word(lo, hi);
    0
}

/// Return from a subroutine.
pub fn rts(cpu: &mut CPU) -> (extra: u8)
    ensures
        final(cpu)@ == old(cpu)@.rts(),
        extra == 0,
{
    let lo: u8 = cpu.pull();
    let hi: u8 = cpu.pull();
    cpu.pc = word(lo, hi).wrapping_add(1);
    0
}

/// Set the carry flag.
pub fn sec(cpu: &mut CPU) -> (extra: u8)
    ensures
        final(cpu)@ == old(cpu)@.sec(),
        extra == 0,
{
    cpu.status.set(Flag::C, true);
    0
}

/// Set the decimal flag.
pub fn sed(cpu: &mut CPU) -> (extra: u8)
    ensures
        final(cpu)@ == old(cpu)@.sed(),
        extra == 0,
{
    cpu.status.set(Flag::D, true);
    0
}

/// Set the interrupt disable flag.
pub fn sei(cpu: &mut CPU) -> (extra: u8)
    ensures
        final(cpu)@ == old(cpu)@.sei(),
        extra == 0,
{
    cpu.status.set(Flag::I, true);
    0
}

/// Store the accumulator.
pub fn sta(cpu: &mut CPU) -> (extra: u8)
    ensures
        final(cpu)@ == old(cpu)@.sta(),
        extra == 0,
{
    cpu.write(cpu.addr_abs, cpu.a);
    0
}

/// Store the X register.
pub fn stx(cpu: &mut CPU) -> (extra: u8)
    ensures
        final(cpu)@ == old(cpu)@.stx(),
        extra == 0,
{
    cpu.write(cpu.addr_abs, cpu.x);
    0
}

/// Store the Y register.
pub fn sty(cpu: &mut CPU) -> (extra: u8)
    ensures
        final(cpu)@ == old(cpu)@.sty(),
        extra == 0,
{
    cpu.write(cpu.addr_abs, cpu.y);
    0
}

/// Transfer the accumulator to X.
pub fn tax(cpu: &mut CPU) -> (extra: u8)
    ensures
        final(cpu)@ == old(cpu)@.tax(),
        extra == 0,
{
    cpu.x = cpu.a;
    cpu.set_zn(cpu.x);
    0
}

/// Transfer the accumulator to Y.
pub fn tay(cpu: &mut CPU) -> (extra: u8)
    ensures
        final(cpu)@ == old(cpu)@.tay(),
        extra == 0,
{
    cpu.y = cpu.a;
    cpu.set_zn(cpu.y);
    0
}

/// Transfer the stack pointer to X.
pub fn tsx(cpu: &mut CPU) -> (extra: u8)
    ensures
        final(cpu)@ == old(cpu)@.tsx(),
        extra == 0,
{
    cpu.x = cpu.sp;
    cpu.set_zn(cpu.x);
    0
}

/// Transfer X to the accumulator.
pub fn txa(cpu: &mut CPU) -> (extra: u8)
    ensures
        final(cpu)@ == old(cpu)@.txa(),
        extra == 0,
{
    cpu.a = cpu.x;
    cpu.set_zn(cpu.a);
    0
}

/// Transfer Y to the accumulator.
pub fn tya(cpu: &mut CPU) -> (extra: u8)
    ensures
        final(cpu)@ == old(cpu)@.tya(),
        extra == 0,
{
    cpu.a = cpu.y;
    cpu.set_zn(cpu.a);
    0
}

/// Transfer X to the stack pointer. No flag changes.
pub fn txs(cpu: &mut CPU) -> (extra: u8)
    ensures
        final(cpu)@ == old(cpu)@.txs(),
        extra == 0,
{
    cpu.sp = cpu.x;
    0
}

/// An opcode that is bound to no instruction: nothing happens.
pub fn xxx(cpu: &mut CPU) -> (extra: u8)
    ensures
        final(cpu)@ == old(cpu)@.xxx(),
        extra == 0,
{
    0
}

/// The branch itself, once its condition holds.
fn branch(cpu: &mut CPU)
    ensures
        final(cpu)@ == old(cpu)@.branch(),
{
    cpu.cycles_remaining = cpu.cycles_remaining.wrapping_add(1);
    cpu.addr_abs = cpu.pc.wrapping_add(cpu.addr_rel);

    // A branch into another page takes one cycle more.
    if high(cpu.addr_abs) != high(cpu.pc) {
        cpu.cycles_remaining = cpu.cycles_remaining.wrapping_add(1);
    }
    cpu.pc = cpu.addr_abs;
}

} // verus!
