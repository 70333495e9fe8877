use powerglove::cpu::cpu_instr::{bcc, bcs, beq, bmi, bne, bpl, bvc, bvs};
use powerglove::cpu::instructions::{AddressingMode, Instruction, Mnemonic};
use powerglove::cpu::{Flag, StatusFlags, CPU};

/// Runs one whole instruction and returns the number of ticks it took.
fn step(cpu: &mut CPU) -> u32 {
    assert_eq!(cpu.cycles_remaining, 0);
    let mut ticks: u32 = 0;
    loop {
        cpu.clock();
        ticks += 1;
        if cpu.cycles_remaining == 0 {
            break;
        }
    }
    ticks
}

/// The flag that a branch tests, and the value on which it is taken.
fn condition(mnemonic: Mnemonic) -> Option<(Flag, bool)> {
    match mnemonic {
        Mnemonic::BCC => Some((Flag::C, false)),
        Mnemonic::BCS => Some((Flag::C, true)),
        Mnemonic::BEQ => Some((Flag::Z, true)),
        Mnemonic::BMI => Some((Flag::N, true)),
        Mnemonic::BNE => Some((Flag::Z, false)),
        Mnemonic::BPL => Some((Flag::N, false)),
        Mnemonic::BVC => Some((Flag::V, false)),
        Mnemonic::BVS => Some((Flag::V, true)),
        _ => None,
    }
}

fn reads(mnemonic: Mnemonic) -> bool {
    matches!(
        mnemonic,
        Mnemonic::ADC
            | Mnemonic::SBC
            | Mnemonic::AND
            | Mnemonic::EOR
            | Mnemonic::ORA
            | Mnemonic::LDA
            | Mnemonic::LDX
            | Mnemonic::LDY
            | Mnemonic::CMP
    )
}

#[test]
fn clock_pays_one_cycle_per_tick() {
    let mut cpu: CPU = CPU::new();
    cpu.pc = 0x8000;
    // LDA $0200 takes four cycles.
    cpu.write(0x8000, 0xAD);
    cpu.write(0x8001, 0x00);
    cpu.write(0x8002, 0x02);
    cpu.write(0x0200, 0x99);

    cpu.clock();
    // The whole instruction happens on the first tick.
    assert_eq!(cpu.a, 0x99);
    assert_eq!(cpu.pc, 0x8003);
    assert_eq!(cpu.opcode, 0xAD);
    assert_eq!(cpu.cycles_remaining, 3);
    cpu.a = 0x11;
    cpu.clock();
    assert_eq!(cpu.cycles_remaining, 2);
    cpu.clock();
    assert_eq!(cpu.cycles_remaining, 1);
    cpu.clock();
    assert_eq!(cpu.cycles_remaining, 0);
    // The ticks in between changed nothing else.
    assert_eq!(cpu.a, 0x11);
    assert_eq!(cpu.pc, 0x8003);
}

#[test]
fn clock_sets_the_unused_flag() {
    let mut cpu: CPU = CPU::new();
    cpu.pc = 0x8000;
    cpu.write(0x8000, 0xEA);
    assert_eq!(cpu.status.bits(), 0x00);
    cpu.clock();
    assert_eq!(cpu.status.bits(), 0x20);
    assert_eq!(cpu.cycles_remaining, 1);
}

#[test]
fn program_counter_advances_past_the_instruction() {
    for opcode in 0..=255u8 {
        let instr: Instruction = Instruction::decode(opcode);
        if matches!(
            instr.mnemonic,
            Mnemonic::JMP | Mnemonic::JSR | Mnemonic::RTS | Mnemonic::RTI | Mnemonic::BRK
        ) {
            continue;
        }
        for start in [0x4000u16, 0xFFFE, 0xFFFF] {
            let mut cpu: CPU = CPU::new();
            cpu.pc = start;
            cpu.write(start, opcode);
            cpu.write(start.wrapping_add(1), 0x10);
            cpu.write(start.wrapping_add(2), 0x20);
            cpu.status = StatusFlags::from_bits(0x20);
            if let Some((flag, taken_on)) = condition(instr.mnemonic) {
                cpu.status.set(flag, !taken_on);
            }
            cpu.clock();
            let length: u16 = 1 + instr.mode.operand_len();
            assert_eq!(cpu.pc, start.wrapping_add(length), "opcode {:02X}", opcode);
            assert_eq!(cpu.opcode, opcode);
        }
    }
}

#[test]
fn branch_costs() {
    for opcode in [0x10u8, 0x30, 0x50, 0x70, 0x90, 0xB0, 0xD0, 0xF0] {
        let instr: Instruction = Instruction::decode(opcode);
        let (flag, taken_on): (Flag, bool) = condition(instr.mnemonic).unwrap();
        // (address of the branch, offset, target, extra cycles when taken)
        let cases: [(u16, u8, u16, u32); 6] = [
            (0x8000, 0x05, 0x8007, 1),
            (0x8010, 0xFB, 0x800D, 1),
            (0x80FD, 0x05, 0x8104, 2),
            (0x8000, 0xFB, 0x7FFD, 2),
            (0x80FD, 0x00, 0x80FF, 1),
            (0xFFFD, 0x01, 0x0000, 2),
        ];
        for (at, offset, target, extra) in cases {
            let mut cpu: CPU = CPU::new();
            cpu.pc = at;
            cpu.write(at, opcode);
            cpu.write(at.wrapping_add(1), offset);
            cpu.status.set(flag, !taken_on);
            assert_eq!(step(&mut cpu), 2);
            assert_eq!(cpu.pc, at.wrapping_add(2));

            let mut cpu: CPU = CPU::new();
            cpu.pc = at;
            cpu.write(at, opcode);
            cpu.write(at.wrapping_add(1), offset);
            cpu.status.set(flag, taken_on);
            assert_eq!(step(&mut cpu), 2 + extra);
            assert_eq!(cpu.pc, target);
            assert_eq!(cpu.addr_abs, target);
        }
    }
}

#[test]
fn branch_handlers_test_their_flag() {
    let handlers: [(fn(&mut CPU) -> u8, Flag, bool); 8] = [
        (bcc, Flag::C, false),
        (bcs, Flag::C, true),
        (beq, Flag::Z, true),
        (bne, Flag::Z, false),
        (bmi, Flag::N, true),
        (bpl, Flag::N, false),
        (bvc, Flag::V, false),
        (bvs, Flag::V, true),
    ];
    for (handler, flag, taken_on) in handlers {
        for bits in [0x00u8, 0xFF] {
            for value in [false, true] {
                let mut cpu: CPU = CPU::new();
                cpu.pc = 0x8002;
                cpu.addr_rel = 0x0010;
                cpu.cycles_remaining = 2;
                // Every other flag the other way round: only `flag` decides.
                cpu.status = StatusFlags::from_bits(bits);
                cpu.status.set(flag, value);
                let before: u8 = cpu.status.bits();
                assert_eq!(handler(&mut cpu), 0);
                if value == taken_on {
                    assert_eq!(cpu.pc, 0x8012);
                    assert_eq!(cpu.addr_abs, 0x8012);
                    assert_eq!(cpu.cycles_remaining, 3);
                } else {
                    assert_eq!(cpu.pc, 0x8002);
                    assert_eq!(cpu.addr_abs, 0x0000);
                    assert_eq!(cpu.cycles_remaining, 2);
                }
                assert_eq!(cpu.status.bits(), before);
            }
        }
    }
}

#[test]
fn branch_target_wraps() {
    let mut cpu: CPU = CPU::new();
    cpu.pc = 0x0001;
    cpu.addr_rel = 0xFFF0;
    cpu.cycles_remaining = 2;
    bne(&mut cpu);
    assert_eq!(cpu.pc, 0xFFF1);
    assert_eq!(cpu.cycles_remaining, 4);
}

#[test]
fn indexed_reads_pay_for_a_page_cross() {
    let mut seen: u32 = 0;
    for opcode in 0..=255u8 {
        let instr: Instruction = Instruction::decode(opcode);
        if !matches!(instr.mode, AddressingMode::ABX | AddressingMode::ABY | AddressingMode::IZY) {
            continue;
        }
        seen += 1;
        for crossing in [false, true] {
            let mut cpu: CPU = CPU::new();
            cpu.pc = 0x8000;
            cpu.write(0x8000, opcode);
            let index: u8 = if crossing { 0x20 } else { 0x0F };
            cpu.x = index;
            cpu.y = index;
            if instr.mode == AddressingMode::IZY {
                // The pointer at 0x0040 holds the base address 0x12F0.
                cpu.write(0x8001, 0x40);
                cpu.write(0x0040, 0xF0);
                cpu.write(0x0041, 0x12);
            } else {
                cpu.write(0x8001, 0xF0);
                cpu.write(0x8002, 0x12);
            }
            let ticks: u32 = step(&mut cpu);
            assert_eq!(cpu.addr_abs, 0x12F0 + index as u16);
            let penalty: u32 = if crossing && reads(instr.mnemonic) { 1 } else { 0 };
            assert_eq!(ticks, instr.cycles as u32 + penalty, "opcode {:02X}", opcode);
        }
    }
    assert_eq!(seen, 15 + 9 + 8);
}

#[test]
fn other_instructions_cost_their_base_cycles() {
    for opcode in 0..=255u8 {
        let instr: Instruction = Instruction::decode(opcode);
        if condition(instr.mnemonic).is_some() {
            continue;
        }
        let mut cpu: CPU = CPU::new();
        cpu.pc = 0x8000;
        cpu.write(0x8000, opcode);
        cpu.write(0x8001, 0x10);
        cpu.write(0x8002, 0x20);
        // No index: no page can be crossed.
        assert_eq!(step(&mut cpu), instr.cycles as u32, "opcode {:02X}", opcode);
        assert!(cpu.status.contains(Flag::U));
    }
}
