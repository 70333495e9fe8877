//! What holds of the machine whatever state it is in: how far the program
//! counter moves, what instructions cost, what the stack gives back, and
//! how the arithmetic sets its flags.

use vstd::prelude::*;
use crate::cpu::instructions::{AddressingMode, Instruction, Mnemonic};
use crate::cpu::cpu_instr::{lemma_sbc_is_adc_of_complement, lemma_sign_rule};
use crate::cpu::state::{high, hint, low, signed, word, CpuState};
use crate::cpu::status::{lemma_packed_round_trip, Flag, Flags};
use crate::cpu::CPU;

verus! {

/// The view of a CPU is a machine whose memory covers the whole address
/// space.
pub proof fn lemma_view_is_well_formed(cpu: CPU)
    ensures
        cpu@.wf(),
{
}

/// No step of the machine changes the size of its memory.
pub proof fn lemma_steps_keep_memory_whole(s: CpuState, mode: AddressingMode, mnemonic: Mnemonic)
    requires
        s.wf(),
    ensures
        s.address(mode).wf(),
        s.execute(mnemonic).wf(),
        s.dispatch().wf(),
        s.clock().wf(),
        s.reset().wf(),
        s.irq().wf(),
        s.nmi().wf(),
        CpuState::power_on().wf(),
{
    let opcode = s.read(s.pc);
    let entry = Instruction::decode(opcode);
    let fetched = CpuState {
        opcode,
        pc: s.pc.wrapping_add(1),
        cycles_remaining: entry.cycles,
        ..s
    };
    lemma_address_frame(fetched, entry.mode);
    lemma_execute_keeps_memory_whole(fetched.address(entry.mode), entry.mnemonic);
    lemma_execute_keeps_memory_whole(s, mnemonic);
}

/// No instruction changes the size of memory.
pub proof fn lemma_execute_keeps_memory_whole(s: CpuState, mnemonic: Mnemonic)
    requires
        s.wf(),
    ensures
        s.execute(mnemonic).wf(),
{
}

/// Two extra-cycle hints combine by bitwise AND: the cycle is owed only
/// where both say so.
pub proof fn lemma_hints_combine(first: bool, second: bool)
    ensures
        hint(first) & hint(second) == hint(first && second),
{
    assert(0u8 & 0u8 == 0u8 && 0u8 & 1u8 == 0u8 && 1u8 & 0u8 == 0u8 && 1u8 & 1u8 == 1u8)
        by (bit_vector);
}

/// Locating the operand changes neither the cycles owed nor the opcode
/// slot, nor memory, the registers or the flags.
pub proof fn lemma_address_frame(s: CpuState, mode: AddressingMode)
    ensures
        s.address(mode).cycles_remaining == s.cycles_remaining,
        s.address(mode).opcode == s.opcode,
        s.address(mode).mem == s.mem,
        s.address(mode).status == s.status,
        s.address(mode).a == s.a,
        s.address(mode).x == s.x,
        s.address(mode).y == s.y,
        s.address(mode).sp == s.sp,
{
}

/// Only a taken branch adds to the cycles owed: one cycle, or two.
pub proof fn lemma_execute_cost(s: CpuState, mnemonic: Mnemonic)
    ensures
        s.execute(mnemonic).opcode == s.opcode,
        s.execute(mnemonic).cycles_remaining == s.cycles_remaining || s.execute(
            mnemonic,
        ).cycles_remaining == s.cycles_remaining.wrapping_add(1) || s.execute(
            mnemonic,
        ).cycles_remaining == s.cycles_remaining.wrapping_add(2),
{
}

/// Whether the machine `s` takes the branch `mnemonic`.
pub open spec fn branch_taken(s: CpuState, mnemonic: Mnemonic) -> bool {
    match mnemonic {
        Mnemonic::BCC => !s.status.has(Flag::C),
        Mnemonic::BCS => s.status.has(Flag::C),
        Mnemonic::BEQ => s.status.has(Flag::Z),
        Mnemonic::BMI => s.status.has(Flag::N),
        Mnemonic::BNE => !s.status.has(Flag::Z),
        Mnemonic::BPL => !s.status.has(Flag::N),
        Mnemonic::BVC => !s.status.has(Flag::V),
        Mnemonic::BVS => s.status.has(Flag::V),
        _ => false,
    }
}

/// Every addressing mode moves the program counter past its operand bytes.
pub proof fn lemma_address_advances(s: CpuState, mode: AddressingMode)
    ensures
        s.address(mode).pc == s.pc.wrapping_add(mode.operand_len()),
{
}

/// An instruction that is no jump, call, return or break, and no branch
/// that is taken, leaves the program counter where its addressing mode
/// put it.
pub proof fn lemma_execute_keeps_pc(s: CpuState, mnemonic: Mnemonic)
    requires
        !mnemonic.sets_pc(),
        !branch_taken(s, mnemonic),
    ensures
        s.execute(mnemonic).pc == s.pc,
{
}

/// After an instruction is carried out, the program counter has moved on
/// by the opcode byte and the operand bytes of the addressing mode, unless
/// the instruction is a jump, call, return or break, or a branch that is
/// taken.
pub proof fn lemma_pc_advances(s: CpuState)
    requires
        !Instruction::decode(s.read(s.pc)).mnemonic.sets_pc(),
        !branch_taken(s, Instruction::decode(s.read(s.pc)).mnemonic),
    ensures
        s.dispatch().pc == s.pc.wrapping_add(
            (1 + Instruction::decode(s.read(s.pc)).mode.operand_len()) as u16,
        ),
        s.cycles_remaining == 0 ==> s.clock().pc == s.dispatch().pc,
{
    let opcode = s.read(s.pc);
    let entry = Instruction::decode(opcode);
    let fetched = CpuState {
        opcode,
        pc: s.pc.wrapping_add(1),
        cycles_remaining: entry.cycles,
        ..s
    };
    lemma_address_advances(fetched, entry.mode);
    lemma_address_frame(fetched, entry.mode);
    lemma_execute_keeps_pc(fetched.address(entry.mode), entry.mnemonic);
}

/// A branch that is not taken costs the cycles of the decode table. One that
/// is taken costs one more, and two more where its target lies in another
/// page than the instruction after the branch.
pub proof fn lemma_branch_cost(s: CpuState)
    requires
        Instruction::decode(s.read(s.pc)).mnemonic.is_branch(),
    ensures
        ({
            let entry = Instruction::decode(s.read(s.pc));
            let next = s.pc.wrapping_add(2);
            let offset = CpuState::sign_extend(s.read(s.pc.wrapping_add(1)));
            let target = next.wrapping_add(offset);
            let t = s.dispatch();
            if !branch_taken(s, entry.mnemonic) {
                t.cycles_remaining == entry.cycles && t.pc == next
            } else if high(target) == high(next) {
                t.cycles_remaining == entry.cycles + 1 && t.pc == target
            } else {
                t.cycles_remaining == entry.cycles + 2 && t.pc == target
            }
        }),
{
    let opcode = s.read(s.pc);
    let entry = Instruction::decode(opcode);
    let fetched = CpuState {
        opcode,
        pc: s.pc.wrapping_add(1),
        cycles_remaining: entry.cycles,
        ..s
    };
    assert(entry.mode == AddressingMode::REL);
    assert(entry.cycles == 2);
    let addressed = fetched.address(entry.mode);
    assert(addressed == fetched.rel());
    assert(addressed.status == s.status);
    assert(!fetched.address_owes(entry.mode));
}

/// The address that an indexed addressing mode adds its index register to:
/// the operand word for the absolute modes, the word that the zero-page
/// pointer holds for the indirect mode.
pub open spec fn index_base(s: CpuState, mode: AddressingMode) -> u16 {
    if mode == AddressingMode::IZY {
        s.read_zero_page_word(s.read(s.pc.wrapping_add(1)))
    } else {
        s.read_word(s.pc.wrapping_add(1))
    }
}

/// An instruction that reads its operand through an X- or Y-indexed
/// absolute address or a Y-indexed indirect address costs the cycles of the
/// decode table, and one more where the effective address lies in another
/// page than the base address.
pub proof fn lemma_indexed_read_cost(s: CpuState)
    requires
        Instruction::decode(s.read(s.pc)).mnemonic.reads_operand(),
        Instruction::decode(s.read(s.pc)).mode == AddressingMode::ABX || Instruction::decode(
            s.read(s.pc),
        ).mode == AddressingMode::ABY || Instruction::decode(s.read(s.pc)).mode
            == AddressingMode::IZY,
    ensures
        ({
            let entry = Instruction::decode(s.read(s.pc));
            let base = index_base(s, entry.mode);
            let index = if entry.mode == AddressingMode::ABX {
                s.x
            } else {
                s.y
            };
            let t = s.dispatch();
            &&& t.addr_abs == base.wrapping_add(index as u16)
            &&& t.cycles_remaining == entry.cycles + hint(high(t.addr_abs) != high(base))
        }),
{
    let opcode = s.read(s.pc);
    let entry = Instruction::decode(opcode);
    let fetched = CpuState {
        opcode,
        pc: s.pc.wrapping_add(1),
        cycles_remaining: entry.cycles,
        ..s
    };
    lemma_address_frame(fetched, entry.mode);
    let addressed = fetched.address(entry.mode);
    assert(addressed.execute_owes(entry.mnemonic));
    assert(addressed.execute(entry.mnemonic).cycles_remaining == entry.cycles);
    assert(addressed.execute(entry.mnemonic).addr_abs == addressed.addr_abs);
}

/// An instruction that stores or modifies through an indexed address pays
/// nothing for a page that was crossed.
pub proof fn lemma_indexed_write_cost(s: CpuState)
    requires
        !Instruction::decode(s.read(s.pc)).mnemonic.reads_operand(),
        Instruction::decode(s.read(s.pc)).mode == AddressingMode::ABX || Instruction::decode(
            s.read(s.pc),
        ).mode == AddressingMode::ABY || Instruction::decode(s.read(s.pc)).mode
            == AddressingMode::IZY,
    ensures
        s.dispatch().cycles_remaining == Instruction::decode(s.read(s.pc)).cycles,
{
    let opcode = s.read(s.pc);
    let entry = Instruction::decode(opcode);
    let fetched = CpuState {
        opcode,
        pc: s.pc.wrapping_add(1),
        cycles_remaining: entry.cycles,
        ..s
    };
    lemma_address_frame(fetched, entry.mode);
    let addressed = fetched.address(entry.mode);
    assert(!addressed.execute_owes(entry.mnemonic));
    assert(addressed.execute(entry.mnemonic).cycles_remaining == entry.cycles);
}

/// What an instruction costs lies between the cycles of the decode table
/// and two more, so that a tick always finds a cycle to pay. After every
/// instruction U is set.
pub proof fn lemma_cost_bounds(s: CpuState)
    ensures
        2 <= Instruction::decode(s.read(s.pc)).cycles <= s.dispatch().cycles_remaining
            <= Instruction::decode(s.read(s.pc)).cycles + 2 <= 10,
        s.dispatch().status.has(Flag::U),
        s.cycles_remaining == 0 ==> s.clock().cycles_remaining == s.dispatch().cycles_remaining
            - 1,
        s.cycles_remaining > 0 ==> s.clock() == (CpuState {
            cycles_remaining: (s.cycles_remaining - 1) as u8,
            ..s
        }),
{
    let opcode = s.read(s.pc);
    let entry = Instruction::decode(opcode);
    let fetched = CpuState {
        opcode,
        pc: s.pc.wrapping_add(1),
        cycles_remaining: entry.cycles,
        ..s
    };
    lemma_address_frame(fetched, entry.mode);
    let addressed = fetched.address(entry.mode);
    lemma_execute_cost(addressed, entry.mnemonic);
}

/// The stack lies in page one: a push stores one byte there, moves the
/// stack pointer and changes nothing else, and a pull changes nothing but
/// the stack pointer.
pub proof fn lemma_stack_page(s: CpuState, data: u8, addr: u16)
    requires
        s.wf(),
    ensures
        0x0100 <= CpuState::stack_addr(s.sp) <= 0x01FF,
        s.push(data).read(CpuState::stack_addr(s.sp)) == data,
        addr != CpuState::stack_addr(s.sp) ==> s.push(data).read(addr) == s.read(addr),
        s.push(data) == (CpuState { sp: s.push(data).sp, mem: s.push(data).mem, ..s }),
        s.push(data).top() == data,
        s.push(data).pop().sp == s.sp,
        s.pop() == (CpuState { sp: s.sp.wrapping_add(1), ..s }),
{
}

/// Pushing the accumulator and pulling it again restores the accumulator
/// and the stack pointer and sets Z and N from the accumulator. The byte
/// that was pushed stays in the stack page, above the stack pointer after
/// the push, and no other byte of memory changes.
pub proof fn lemma_pha_then_pla(s: CpuState)
    requires
        s.wf(),
    ensures
        s.pha().top() == s.a,
        s.pha().pla().a == s.a,
        s.pha().pla().sp == s.sp,
        s.pha().pla().status == s.status.with(Flag::Z, s.a == 0).with(Flag::N, s.a >= 0x80),
        s.pha().pla().mem == s.mem.update(0x0100 + s.sp, s.a),
        s.pha().pla().read(CpuState::stack_addr(s.sp)) == s.a,
{
}

/// Indirect addressing through a pointer at the end of a page, whose low
/// byte is `0xFF`, takes the high byte of the address from the start of
/// that page, `ptr & 0xFF00`, not from the next page.
pub proof fn lemma_indirect_page_wrap(s: CpuState, ptr: u16)
    requires
        low(ptr) == 0xFF,
    ensures
        ptr & 0xFF00 == ptr - 0xFF,
        s.indirect_target(ptr) == word(s.read(ptr), s.read(ptr & 0xFF00)),
{
    assert(ptr & 0xFF00 == ptr - 0xFF) by (bit_vector)
        requires
            ptr % 256 == 0xFF,
    ;
    assert(word(0x00, high(ptr)) == ptr - 0xFF);
}

/// An indirect jump through such a pointer continues at that address.
pub proof fn lemma_indirect_jump_page_wrap(s: CpuState)
    requires
        s.read(s.pc) == 0x6C,
        s.read(s.pc.wrapping_add(1)) == 0xFF,
    ensures
        ({
            let ptr = s.read_word(s.pc.wrapping_add(1));
            s.dispatch().pc == word(s.read(ptr), s.read(ptr & 0xFF00))
        }),
{
    let ptr = s.read_word(s.pc.wrapping_add(1));
    lemma_indirect_page_wrap(s, ptr);
    let entry = Instruction::decode(0x6C);
    assert(entry.mode == AddressingMode::IND && entry.mnemonic == Mnemonic::JMP);
}

/// After a reset the stack pointer is `0xFD` and the program counter is
/// the little-endian word of the reset vector at `0xFFFC`.
pub proof fn lemma_reset(s: CpuState)
    ensures
        s.reset().sp == 0xFD,
        s.reset().pc == word(s.mem[0xFFFC], s.mem[0xFFFD]),
        s.reset().pc == s.mem[0xFFFC] + 256 * s.mem[0xFFFD],
        s.reset().mem == s.mem,
{
}

/// After an addition the accumulator holds the low byte of the sum, C is
/// set where the sum is above 255, and V is set exactly where the
/// accumulator and the operand both differ in sign from the result: where
/// the sum of the two, read as signed bytes, does not fit a signed byte.
pub proof fn lemma_adc_overflow_rule(s: CpuState, operand: u8)
    ensures
        s.add_with_carry(operand).a == (s.a + operand + s.carry()) % 256,
        s.add_with_carry(operand).status.has(Flag::C) == (s.a + operand + s.carry() > 255),
        s.add_with_carry(operand).status.has(Flag::V) == (((s.a ^ s.add_with_carry(operand).a) & (
            operand ^ s.add_with_carry(operand).a) & 0x80) != 0),
        s.add_with_carry(operand).status.has(Flag::V) == ((!(s.a ^ operand) & (s.a
            ^ s.add_with_carry(operand).a) & 0x80) != 0),
        s.add_with_carry(operand).status.has(Flag::V) == !(-128 <= signed(s.a) + signed(operand)
            + s.carry() <= 127),
{
    lemma_sign_rule(s.a, operand, s.add_with_carry(operand).a);
}

/// The ADC instruction sets V by the same rule, on the operand that it fetched.
pub proof fn lemma_adc_sets_overflow(s: CpuState)
    ensures
        s.adc().status.has(Flag::V) == (((s.a ^ s.adc().a) & (s.operand() ^ s.adc().a) & 0x80)
            != 0),
{
    lemma_adc_overflow_rule(s.fetch(), s.operand());
}

/// After a subtraction the accumulator holds the difference modulo 256, C
/// is set where nothing was borrowed, and V is set exactly where the
/// difference of the two, read as signed bytes, does not fit a signed byte.
pub proof fn lemma_sbc_overflow_rule(s: CpuState, operand: u8)
    ensures
        s.subtract_with_borrow(operand).a == (s.a - operand - (1 - s.carry())) % 256,
        s.subtract_with_borrow(operand).status.has(Flag::C) == (s.a >= operand + (1 - s.carry())),
        s.subtract_with_borrow(operand).status.has(Flag::V) == !(-128 <= signed(s.a) - signed(
            operand,
        ) - (1 - s.carry()) <= 127),
{
}

/// The SBC instruction is the ADC instruction on the complemented operand:
/// the accumulator, every flag and all the rest of the machine come out
/// the same.
pub proof fn lemma_sbc_is_adc(s: CpuState)
    ensures
        s.sbc() == s.fetch().add_with_carry(s.operand() ^ 0xFF),
{
    lemma_sbc_is_adc_of_complement(s.fetch(), s.operand());
}

/// The decimal flag changes nothing in an addition or a subtraction: with
/// the flag set or clear, the accumulator and the other flags come out the
/// same, and the flag itself stays as it is.
pub proof fn lemma_decimal_is_ignored(s: CpuState, operand: u8, decimal: bool)
    ensures
        s.flag(Flag::D, decimal).add_with_carry(operand) == s.add_with_carry(operand).flag(
            Flag::D,
            decimal,
        ),
        s.flag(Flag::D, decimal).subtract_with_borrow(operand) == s.subtract_with_borrow(
            operand,
        ).flag(Flag::D, decimal),
{
}

/// A status register that was pulled from the stack has U set and B
/// clear; every other flag is as the stack byte holds it.
pub proof fn lemma_pulled_status(bits: u8, flag: Flag)
    ensures
        Flags::pulled(bits).has(Flag::U),
        !Flags::pulled(bits).has(Flag::B),
        flag != Flag::U && flag != Flag::B ==> Flags::pulled(bits).has(flag) == Flags::from_bits(
            bits,
        ).has(flag),
{
}

/// The status byte that software pushes has B and U set; every other flag
/// is as the register holds it.
pub proof fn lemma_pushed_status(flags: Flags, flag: Flag)
    ensures
        Flags::from_bits(flags.pushed()).has(Flag::B),
        Flags::from_bits(flags.pushed()).has(Flag::U),
        flag != Flag::U && flag != Flag::B ==> Flags::from_bits(flags.pushed()).has(flag)
            == flags.has(flag),
        Flags::pulled(flags.pushed()) == flags.with(Flag::B, false).with(Flag::U, true),
{
    lemma_packed_round_trip(flags.with(Flag::B, true).with(Flag::U, true), 0);
}

/// Pushing the status register and pulling it again restores the stack
/// pointer and every flag but B and U, which read as clear and as set.
pub proof fn lemma_php_then_plp(s: CpuState)
    requires
        s.wf(),
    ensures
        s.php().plp().sp == s.sp,
        s.php().plp().status == s.status.with(Flag::B, false).with(Flag::U, true),
{
    assert(s.php().top() == s.status.pushed());
    lemma_pushed_status(s.status, Flag::C);
}

/// A subroutine call followed by a return continues after the call, with
/// the stack pointer where it was.
pub proof fn lemma_jsr_then_rts(s: CpuState)
    requires
        s.wf(),
    ensures
        s.jsr().pc == s.addr_abs,
        s.jsr().sp == s.sp.wrapping_sub(2),
        s.jsr().rts().pc == s.pc,
        s.jsr().rts().sp == s.sp,
{
    let ret: u16 = s.pc.wrapping_sub(1);
    let called = s.jsr();
    assert(called.top() == low(ret));
    assert(called.pop().top() == high(ret));
    assert(word(low(ret), high(ret)) == ret);
}

/// An interrupt followed by a return from it continues where the
/// interrupt struck, with the stack pointer where it was. The status byte
/// is pushed after I is set, so I is set after the return as well; B reads
/// as clear, U as set, and every other flag is as before the interrupt.
pub proof fn lemma_interrupt_then_rti(s: CpuState, vector: u16, cycles: u8)
    requires
        s.wf(),
    ensures
        s.interrupt(vector, cycles).status == s.status.with(Flag::B, false).with(
            Flag::U,
            true,
        ).with(Flag::I, true),
        s.interrupt(vector, cycles).cycles_remaining == cycles,
        s.interrupt(vector, cycles).sp == s.sp.wrapping_sub(3),
        s.interrupt(vector, cycles).rti().pc == s.pc,
        s.interrupt(vector, cycles).rti().sp == s.sp,
        s.interrupt(vector, cycles).rti().status == s.interrupt(vector, cycles).status,
{
    let status = s.status.with(Flag::B, false).with(Flag::U, true).with(Flag::I, true);
    let t = s.interrupt(vector, cycles);
    let r1 = t.pop();
    let r2 = r1.pop();
    assert(t.top() == status.bits());
    assert(r1.top() == low(s.pc));
    assert(r2.top() == high(s.pc));
    assert(word(low(s.pc), high(s.pc)) == s.pc);
    lemma_packed_round_trip(status, 0);
}

/// An interrupt request changes nothing while I is set. Otherwise it
/// enters the handler of the vector at `0xFFFE` and owes seven cycles; a
/// non-maskable interrupt enters the handler of the vector at `0xFFFA`,
/// whatever I holds, and owes eight. The stack page holds no vector, so
/// the handler's address is the word that the vector held before.
pub proof fn lemma_interrupt_entry(s: CpuState)
    requires
        s.wf(),
    ensures
        s.status.has(Flag::I) ==> s.irq() == s,
        !s.status.has(Flag::I) ==> s.irq().pc == s.read_word(0xFFFE) && s.irq().cycles_remaining
            == 7,
        s.nmi().pc == s.read_word(0xFFFA),
        s.nmi().cycles_remaining == 8,
{
}

} // verus!
