use powerglove::cpu::cpu_addr::{abs, abx, aby, imm, imp, ind, izx, izy, rel, zp0, zpx, zpy};
use powerglove::cpu::CPU;

fn cpu_at(pc: u16, operands: &[u8]) -> CPU {
    let mut cpu: CPU = CPU::new();
    cpu.pc = pc;
    for (i, byte) in operands.iter().enumerate() {
        cpu.write(pc.wrapping_add(i as u16), *byte);
    }
    cpu
}

#[test]
fn implied_copies_the_accumulator() {
    let mut cpu: CPU = cpu_at(0x8000, &[]);
    cpu.a = 0x5A;
    assert_eq!(imp(&mut cpu), 0);
    assert_eq!(cpu.fetched, 0x5A);
    assert_eq!(cpu.pc, 0x8000);
    assert_eq!(cpu.addr_abs, 0);
}

#[test]
fn immediate_points_at_the_operand() {
    let mut cpu: CPU = cpu_at(0x8000, &[0x42]);
    assert_eq!(imm(&mut cpu), 0);
    assert_eq!(cpu.addr_abs, 0x8000);
    assert_eq!(cpu.pc, 0x8001);

    let mut last: CPU = cpu_at(0xFFFF, &[0x42]);
    imm(&mut last);
    assert_eq!(last.addr_abs, 0xFFFF);
    assert_eq!(last.pc, 0x0000);
}

#[test]
fn zero_page() {
    let mut cpu: CPU = cpu_at(0x8000, &[0xEE]);
    assert_eq!(zp0(&mut cpu), 0);
    assert_eq!(cpu.addr_abs, 0x00EE);
    assert_eq!(cpu.pc, 0x8001);
}

#[test]
fn zero_page_indexed_wraps_in_page_zero() {
    let mut cpu: CPU = cpu_at(0x8000, &[0xF0]);
    cpu.x = 0x20;
    cpu.y = 0x01;
    assert_eq!(zpx(&mut cpu), 0);
    assert_eq!(cpu.addr_abs, 0x0010);
    assert_eq!(cpu.pc, 0x8001);

    let mut cpu: CPU = cpu_at(0x8000, &[0xFF]);
    cpu.x = 0x20;
    cpu.y = 0x01;
    assert_eq!(zpy(&mut cpu), 0);
    assert_eq!(cpu.addr_abs, 0x0000);
    assert_eq!(cpu.pc, 0x8001);

    let mut cpu: CPU = cpu_at(0x8000, &[0x10]);
    cpu.x = 0x05;
    cpu.y = 0x07;
    zpx(&mut cpu);
    assert_eq!(cpu.addr_abs, 0x0015);
    cpu.pc = 0x8000;
    zpy(&mut cpu);
    assert_eq!(cpu.addr_abs, 0x0017);
}

#[test]
fn relative_sign_extends() {
    let cases: [(u8, u16); 6] = [
        (0x00, 0x0000),
        (0x05, 0x0005),
        (0x7F, 0x007F),
        (0x80, 0xFF80),
        (0xFB, 0xFFFB),
        (0xFF, 0xFFFF),
    ];
    for (offset, extended) in cases {
        let mut cpu: CPU = cpu_at(0x8000, &[offset]);
        assert_eq!(rel(&mut cpu), 0);
        assert_eq!(cpu.addr_rel, extended);
        assert_eq!(cpu.pc, 0x8001);
    }
}

#[test]
fn absolute_is_little_endian() {
    let mut cpu: CPU = cpu_at(0x8000, &[0x34, 0x12]);
    assert_eq!(abs(&mut cpu), 0);
    assert_eq!(cpu.addr_abs, 0x1234);
    assert_eq!(cpu.pc, 0x8002);

    // The operand bytes wrap round the end of memory.
    let mut last: CPU = cpu_at(0xFFFF, &[0x34, 0x12]);
    assert_eq!(last.read(0x0000), 0x12);
    abs(&mut last);
    assert_eq!(last.addr_abs, 0x1234);
    assert_eq!(last.pc, 0x0001);
}

#[test]
fn absolute_indexed_reports_page_cross() {
    let mut cpu: CPU = cpu_at(0x8000, &[0xF0, 0x12]);
    cpu.x = 0x0F;
    assert_eq!(abx(&mut cpu), 0);
    assert_eq!(cpu.addr_abs, 0x12FF);
    assert_eq!(cpu.pc, 0x8002);

    let mut cpu: CPU = cpu_at(0x8000, &[0xF0, 0x12]);
    cpu.x = 0x10;
    assert_eq!(abx(&mut cpu), 1);
    assert_eq!(cpu.addr_abs, 0x1300);

    let mut cpu: CPU = cpu_at(0x8000, &[0xF0, 0x12]);
    cpu.y = 0x0F;
    cpu.x = 0x10;
    assert_eq!(aby(&mut cpu), 0);
    assert_eq!(cpu.addr_abs, 0x12FF);

    let mut cpu: CPU = cpu_at(0x8000, &[0xF0, 0x12]);
    cpu.y = 0x20;
    assert_eq!(aby(&mut cpu), 1);
    assert_eq!(cpu.addr_abs, 0x1310);
    assert_eq!(cpu.pc, 0x8002);

    // The sum wraps round the end of memory, into page zero.
    let mut cpu: CPU = cpu_at(0x8000, &[0xFF, 0xFF]);
    cpu.x = 0x02;
    assert_eq!(abx(&mut cpu), 1);
    assert_eq!(cpu.addr_abs, 0x0001);
}

#[test]
fn indirect_reads_the_pointer() {
    let mut cpu: CPU = cpu_at(0x8000, &[0x20, 0x03]);
    cpu.write(0x0320, 0xCD);
    cpu.write(0x0321, 0xAB);
    assert_eq!(ind(&mut cpu), 0);
    assert_eq!(cpu.addr_abs, 0xABCD);
    assert_eq!(cpu.pc, 0x8002);
}

#[test]
fn indirect_does_not_carry_into_the_next_page() {
    let mut cpu: CPU = cpu_at(0x8000, &[0xFF, 0x02]);
    cpu.write(0x02FF, 0x00);
    cpu.write(0x0300, 0x40);
    cpu.write(0x0200, 0x80);
    assert_eq!(ind(&mut cpu), 0);
    assert_eq!(cpu.addr_abs, 0x8000);

    let mut cpu: CPU = cpu_at(0x8000, &[0xFF, 0xFF]);
    cpu.write(0xFFFF, 0x11);
    cpu.write(0xFF00, 0x22);
    cpu.write(0x0000, 0x33);
    ind(&mut cpu);
    assert_eq!(cpu.addr_abs, 0x2211);
}

#[test]
fn indexed_indirect() {
    let mut cpu: CPU = cpu_at(0x8000, &[0x40]);
    cpu.x = 0x04;
    cpu.write(0x0044, 0x78);
    cpu.write(0x0045, 0x56);
    assert_eq!(izx(&mut cpu), 0);
    assert_eq!(cpu.addr_abs, 0x5678);
    assert_eq!(cpu.pc, 0x8001);

    // Both the pointer and its second byte wrap inside page zero.
    let mut cpu: CPU = cpu_at(0x8000, &[0xFE]);
    cpu.x = 0x01;
    cpu.write(0x00FF, 0x34);
    cpu.write(0x0000, 0x12);
    cpu.write(0x0100, 0x99);
    izx(&mut cpu);
    assert_eq!(cpu.addr_abs, 0x1234);

    let mut cpu: CPU = cpu_at(0x8000, &[0xF0]);
    cpu.x = 0x20;
    cpu.write(0x0010, 0xEF);
    cpu.write(0x0011, 0xBE);
    izx(&mut cpu);
    assert_eq!(cpu.addr_abs, 0xBEEF);
}

#[test]
fn indirect_indexed_reports_page_cross() {
    let mut cpu: CPU = cpu_at(0x8000, &[0x46]);
    cpu.y = 0x10;
    cpu.write(0x0046, 0x00);
    cpu.write(0x0047, 0x30);
    assert_eq!(izy(&mut cpu), 0);
    assert_eq!(cpu.addr_abs, 0x3010);
    assert_eq!(cpu.pc, 0x8001);

    let mut cpu: CPU = cpu_at(0x8000, &[0x46]);
    cpu.y = 0x10;
    cpu.write(0x0046, 0xF8);
    cpu.write(0x0047, 0x30);
    assert_eq!(izy(&mut cpu), 1);
    assert_eq!(cpu.addr_abs, 0x3108);

    // The pointer's second byte wraps inside page zero.
    let mut cpu: CPU = cpu_at(0x8000, &[0xFF]);
    cpu.y = 0x01;
    cpu.write(0x00FF, 0x34);
    cpu.write(0x0000, 0x12);
    cpu.write(0x0100, 0x99);
    assert_eq!(izy(&mut cpu), 0);
    assert_eq!(cpu.addr_abs, 0x1235);
}
