use powerglove::cpu::cpu_instr::{brk, jmp, jsr, pha, php, pla, plp, rti, rts};
use powerglove::cpu::{Flag, StatusFlags, CPU};

#[test]
fn pha_then_pla() {
    for a in [0x00u8, 0x01, 0x7F, 0x80, 0xFF] {
        let mut cpu: CPU = CPU::new();
        cpu.sp = 0xFD;
        cpu.a = a;
        cpu.status = StatusFlags::from_bits(0x45);
        assert_eq!(pha(&mut cpu), 0);
        assert_eq!(cpu.sp, 0xFC);
        assert_eq!(cpu.read(0x01FD), a);
        assert_eq!(cpu.status.bits(), 0x45);

        cpu.a = 0x33;
        assert_eq!(pla(&mut cpu), 0);
        assert_eq!(cpu.a, a);
        assert_eq!(cpu.sp, 0xFD);
        assert_eq!(cpu.status.contains(Flag::Z), a == 0);
        assert_eq!(cpu.status.contains(Flag::N), a >= 0x80);
        assert!(cpu.status.contains(Flag::C));
        assert!(cpu.status.contains(Flag::I));
        assert!(cpu.status.contains(Flag::V));
        // The byte is still in the stack page.
        assert_eq!(cpu.read(0x01FD), a);
    }
}

#[test]
fn stack_pointer_wraps_inside_the_stack_page() {
    let mut cpu: CPU = CPU::new();
    cpu.sp = 0x00;
    cpu.a = 0xAB;
    pha(&mut cpu);
    assert_eq!(cpu.sp, 0xFF);
    assert_eq!(cpu.read(0x0100), 0xAB);
    assert_eq!(cpu.read(0x0200), 0x00);
    assert_eq!(cpu.read(0x00FF), 0x00);

    cpu.a = 0;
    pla(&mut cpu);
    assert_eq!(cpu.sp, 0x00);
    assert_eq!(cpu.a, 0xAB);
}

#[test]
fn php_pushes_break_and_unused() {
    let mut cpu: CPU = CPU::new();
    cpu.sp = 0xFD;
    cpu.status = StatusFlags::from_bits(0x00);
    assert_eq!(php(&mut cpu), 0);
    assert_eq!(cpu.read(0x01FD), 0x30);
    assert_eq!(cpu.sp, 0xFC);
    assert_eq!(cpu.status.bits(), 0x00);

    cpu.status = StatusFlags::from_bits(0xC3);
    php(&mut cpu);
    assert_eq!(cpu.read(0x01FC), 0xF3);
    assert_eq!(cpu.sp, 0xFB);
    assert_eq!(cpu.status.bits(), 0xC3);
}

#[test]
fn plp_forces_break_and_unused() {
    let mut cpu: CPU = CPU::new();
    cpu.sp = 0xFC;
    cpu.write(0x01FD, 0xFF);
    assert_eq!(plp(&mut cpu), 0);
    assert_eq!(cpu.status.bits(), 0xEF);
    assert_eq!(cpu.sp, 0xFD);

    cpu.write(0x01FE, 0x00);
    plp(&mut cpu);
    assert_eq!(cpu.status.bits(), 0x20);
    assert_eq!(cpu.sp, 0xFE);
}

#[test]
fn php_then_plp_keeps_the_flags() {
    for bits in 0..=255u8 {
        let mut cpu: CPU = CPU::new();
        cpu.sp = 0x80;
        cpu.status = StatusFlags::from_bits(bits);
        php(&mut cpu);
        cpu.status = StatusFlags::empty();
        plp(&mut cpu);
        assert_eq!(cpu.status.bits(), (bits & 0xCF) | 0x20);
        assert_eq!(cpu.sp, 0x80);
    }
}

#[test]
fn jmp_loads_the_program_counter() {
    let mut cpu: CPU = CPU::new();
    cpu.pc = 0x8003;
    cpu.addr_abs = 0x1234;
    cpu.sp = 0xFD;
    assert_eq!(jmp(&mut cpu), 0);
    assert_eq!(cpu.pc, 0x1234);
    assert_eq!(cpu.sp, 0xFD);
}

#[test]
fn jsr_then_rts() {
    let mut cpu: CPU = CPU::new();
    cpu.sp = 0xFD;
    // The program counter after the three bytes of the JSR at 0x8000.
    cpu.pc = 0x8003;
    cpu.addr_abs = 0x9000;
    assert_eq!(jsr(&mut cpu), 0);
    assert_eq!(cpu.pc, 0x9000);
    assert_eq!(cpu.sp, 0xFB);
    assert_eq!(cpu.read(0x01FD), 0x80);
    assert_eq!(cpu.read(0x01FC), 0x02);

    assert_eq!(rts(&mut cpu), 0);
    assert_eq!(cpu.pc, 0x8003);
    assert_eq!(cpu.sp, 0xFD);
}

#[test]
fn jsr_wraps_the_stack_pointer() {
    let mut cpu: CPU = CPU::new();
    cpu.sp = 0x00;
    cpu.pc = 0x1200;
    cpu.addr_abs = 0x9000;
    jsr(&mut cpu);
    assert_eq!(cpu.sp, 0xFE);
    assert_eq!(cpu.read(0x0100), 0x11);
    assert_eq!(cpu.read(0x01FF), 0xFF);
    assert_eq!(cpu.pc, 0x9000);

    rts(&mut cpu);
    assert_eq!(cpu.pc, 0x1200);
    assert_eq!(cpu.sp, 0x00);
}

#[test]
fn rts_adds_one() {
    let mut cpu: CPU = CPU::new();
    cpu.sp = 0xFB;
    cpu.write(0x01FC, 0xFF);
    cpu.write(0x01FD, 0xFF);
    rts(&mut cpu);
    assert_eq!(cpu.pc, 0x0000);
    assert_eq!(cpu.sp, 0xFD);

    let mut cpu: CPU = CPU::new();
    cpu.sp = 0xFB;
    cpu.write(0x01FC, 0x34);
    cpu.write(0x01FD, 0x12);
    rts(&mut cpu);
    assert_eq!(cpu.pc, 0x1235);
}

#[test]
fn rti_pulls_status_then_program_counter() {
    let mut cpu: CPU = CPU::new();
    cpu.sp = 0xFA;
    cpu.write(0x01FB, 0xD3);
    cpu.write(0x01FC, 0x34);
    cpu.write(0x01FD, 0x12);
    assert_eq!(rti(&mut cpu), 0);
    // B reads as clear, U as set.
    assert_eq!(cpu.status.bits(), 0xE3);
    // Nothing is added to the program counter.
    assert_eq!(cpu.pc, 0x1234);
    assert_eq!(cpu.sp, 0xFD);
}

#[test]
fn brk_enters_the_irq_handler() {
    let mut cpu: CPU = CPU::new();
    cpu.write(0xFFFE, 0x00);
    cpu.write(0xFFFF, 0x90);
    cpu.sp = 0xFD;
    cpu.pc = 0x8002;
    cpu.status = StatusFlags::from_bits(0x23);
    assert_eq!(brk(&mut cpu), 0);
    assert_eq!(cpu.pc, 0x9000);
    assert_eq!(cpu.sp, 0xFA);
    assert_eq!(cpu.read(0x01FD), 0x80);
    assert_eq!(cpu.read(0x01FC), 0x03);
    // The pushed byte has I, B and U set.
    assert_eq!(cpu.read(0x01FB), 0x37);
    // In the register I is set and B is not.
    assert_eq!(cpu.status.bits(), 0x27);

    assert_eq!(rti(&mut cpu), 0);
    assert_eq!(cpu.pc, 0x8003);
    assert_eq!(cpu.sp, 0xFD);
    assert_eq!(cpu.status.bits(), 0x27);
}
