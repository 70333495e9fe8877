use powerglove::cpu::disassemble::Disassembler;
use powerglove::cpu::CPU;

fn load(cpu: &mut CPU, at: u16, bytes: &[u8]) {
    for (i, byte) in bytes.iter().enumerate() {
        cpu.write(at.wrapping_add(i as u16), *byte);
    }
}

fn line_at(at: u16, bytes: &[u8]) -> String {
    let mut cpu: CPU = CPU::new();
    load(&mut cpu, at, bytes);
    Disassembler::line(&cpu, at)
}

const PROGRAM: [u8; 65] = [
    0xA2, 0x00, 0x8E, 0x00, 0x00, 0xA2, 0x40, 0x8E, 0x01, 0x00, 0xA9, 0x00, 0x8D, 0x10, 0x00, 0x8D,
    0x11, 0x00, 0xA2, 0x08, 0x38, 0xAD, 0x00, 0x00, 0xE9, 0x40, 0xA8, 0xAD, 0x11, 0x00, 0xED, 0x10,
    0x00, 0x90, 0x06, 0x8C, 0x00, 0x00, 0x8D, 0x11, 0x00, 0x2E, 0x10, 0x00, 0x0E, 0x01, 0x00, 0x2E,
    0x00, 0x00, 0x2E, 0x11, 0x00, 0x0E, 0x01, 0x00, 0x2E, 0x00, 0x00, 0x2E, 0x11, 0x00, 0xCA, 0xD0,
    0xD3,
];

#[test]
fn disassembles_a_program() {
    let mut cpu: CPU = CPU::new();
    load(&mut cpu, 0x8000, &PROGRAM);
    let expected: [(u16, &str); 29] = [
        (0x8000, "$8000: LDX #$00 {IMP}"),
        (0x8002, "$8002: STX $0000 {ABS}"),
        (0x8005, "$8005: LDX #$40 {IMP}"),
        (0x8007, "$8007: STX $0001 {ABS}"),
        (0x800A, "$800A: LDA #$00 {IMP}"),
        (0x800C, "$800C: STA $0010 {ABS}"),
        (0x800F, "$800F: STA $0011 {ABS}"),
        (0x8012, "$8012: LDX #$08 {IMP}"),
        (0x8014, "$8014: SEC  {IMP}"),
        (0x8015, "$8015: LDA $0000 {ABS}"),
        (0x8018, "$8018: SBC #$40 {IMP}"),
        (0x801A, "$801A: TAY  {IMP}"),
        (0x801B, "$801B: LDA $0011 {ABS}"),
        (0x801E, "$801E: SBC $0010 {ABS}"),
        (0x8021, "$8021: BCC $06 [$8029] {REL}"),
        (0x8023, "$8023: STY $0000 {ABS}"),
        (0x8026, "$8026: STA $0011 {ABS}"),
        (0x8029, "$8029: ROL $0010 {ABS}"),
        (0x802C, "$802C: ASL $0001 {ABS}"),
        (0x802F, "$802F: ROL $0000 {ABS}"),
        (0x8032, "$8032: ROL $0011 {ABS}"),
        (0x8035, "$8035: ASL $0001 {ABS}"),
        (0x8038, "$8038: ROL $0000 {ABS}"),
        (0x803B, "$803B: ROL $0011 {ABS}"),
        (0x803E, "$803E: DEX  {IMP}"),
        (0x803F, "$803F: BNE $D3 [$8014] {REL}"),
        (0x8041, "$8041: BRK #$00 {IMP}"),
        (0x8043, "$8043: BRK #$00 {IMP}"),
        (0x8045, "$8045: BRK #$00 {IMP}"),
    ];
    let lines: Vec<(u16, String)> = Disassembler::for_range(&cpu, 0x8000, 0x8045);
    assert_eq!(lines.len(), expected.len());
    for (line, (addr, text)) in lines.iter().zip(expected.iter()) {
        assert_eq!(line.0, *addr);
        assert_eq!(line.1, *text);
    }
}

#[test]
fn disassembles_to_the_end_of_memory() {
    let mut cpu: CPU = CPU::new();
    load(&mut cpu, 0x8000, &PROGRAM);
    cpu.bus.ram[0xFFFC] = 0x00;
    cpu.bus.ram[0xFFFD] = 0x80;
    let lines: Vec<(u16, String)> = Disassembler::for_range(&cpu, 0x8000, 0xFFFF);
    assert_eq!(lines.len(), 16378);
    assert_eq!(lines[0], (0x8000, String::from("$8000: LDX #$00 {IMP}")));
    assert_eq!(lines[16375], (0xFFFB, String::from("$FFFB: BRK #$00 {IMP}")));
    assert_eq!(lines[16376], (0xFFFD, String::from("$FFFD: NOP  {IMP}")));
    assert_eq!(lines[16377], (0xFFFE, String::from("$FFFE: BRK #$00 {IMP}")));
    // Each line starts where the one before it ended.
    for pair in lines.windows(2) {
        assert!(pair[0].0 < pair[1].0);
        assert!(pair[1].0 - pair[0].0 <= 3);
    }
}

#[test]
fn the_last_instruction_may_start_at_stop() {
    let mut cpu: CPU = CPU::new();
    load(&mut cpu, 0x8000, &[0xAD, 0x34, 0x12, 0xEA, 0xAD, 0x78, 0x56]);
    let lines: Vec<(u16, String)> = Disassembler::for_range(&cpu, 0x8000, 0x8004);
    let addresses: Vec<u16> = lines.iter().map(|line| line.0).collect();
    assert_eq!(addresses, vec![0x8000, 0x8003, 0x8004]);
    assert_eq!(lines[2].1, "$8004: LDA $5678 {ABS}");

    // An instruction that starts after `stop` is left out, also where the
    // one before it reaches past `stop`.
    let lines: Vec<(u16, String)> = Disassembler::for_range(&cpu, 0x8000, 0x8001);
    assert_eq!(lines, vec![(0x8000, String::from("$8000: LDA $1234 {ABS}"))]);

    let lines: Vec<(u16, String)> = Disassembler::for_range(&cpu, 0x8003, 0x8003);
    assert_eq!(lines, vec![(0x8003, String::from("$8003: NOP  {IMP}"))]);
}

#[test]
fn an_empty_range_gives_no_line() {
    let cpu: CPU = CPU::new();
    assert!(Disassembler::for_range(&cpu, 0x8001, 0x8000).is_empty());
    assert!(Disassembler::for_range(&cpu, 0xFFFF, 0x0000).is_empty());
    assert_eq!(Disassembler::for_range(&cpu, 0x0000, 0x0000).len(), 1);
}

#[test]
fn disassembling_changes_nothing() {
    let mut cpu: CPU = CPU::new();
    load(&mut cpu, 0x8000, &PROGRAM);
    cpu.pc = 0x8000;
    cpu.a = 0x12;
    let _ = Disassembler::for_range(&cpu, 0x8000, 0x8100);
    assert_eq!((cpu.pc, cpu.a, cpu.x, cpu.sp, cpu.cycles_remaining), (0x8000, 0x12, 0, 0, 0));
    assert_eq!(cpu.read(0x8000), 0xA2);
    assert_eq!(cpu.read(0x0000), 0x00);
}

#[test]
fn syntax_of_each_addressing_mode() {
    assert_eq!(line_at(0x1000, &[0xAA]), "$1000: TAX  {IMP}");
    assert_eq!(line_at(0x1000, &[0x0A]), "$1000: ASL  {IMP}");
    assert_eq!(line_at(0x1000, &[0xA9, 0x07]), "$1000: LDA #$07 {IMP}");
    assert_eq!(line_at(0x1000, &[0xA5, 0xEE]), "$1000: LDA $EE {ZP0}");
    assert_eq!(line_at(0x1000, &[0x95, 0x0A]), "$1000: STA $0A, X {ZPX}");
    assert_eq!(line_at(0x1000, &[0x96, 0xF0]), "$1000: STX $F0, Y {ZPY}");
    assert_eq!(line_at(0x1000, &[0xAD, 0xA0, 0x16]), "$1000: LDA $16A0 {ABS}");
    assert_eq!(line_at(0x1000, &[0x9D, 0x00, 0x10]), "$1000: STA $1000, X {ABX}");
    assert_eq!(line_at(0x1000, &[0xB9, 0x34, 0x12]), "$1000: LDA $1234, Y {ABY}");
    assert_eq!(line_at(0x1000, &[0x6C, 0x20, 0x00]), "$1000: JMP ($0020) {IND}");
    assert_eq!(line_at(0x1000, &[0x6C, 0xCD, 0xAB]), "$1000: JMP ($ABCD) {IND}");
    assert_eq!(line_at(0x1000, &[0xF0, 0x04]), "$1000: BEQ $04 [$1006] {REL}");
    assert_eq!(line_at(0x1000, &[0xA1, 0x40]), "$1000: LDA ($40, X) {IZX}");
    assert_eq!(line_at(0x1000, &[0xB1, 0x46]), "$1000: LDA ($46), Y {IZY}");
    assert_eq!(line_at(0x1000, &[0x02]), "$1000: XXX  {IMP}");
    assert_eq!(line_at(0x1000, &[0x1C, 0x34, 0x12]), "$1000: NOP  {IMP}");
}

#[test]
fn hexadecimal_is_upper_case_and_padded() {
    assert_eq!(line_at(0x000A, &[0xA9, 0x0B]), "$000A: LDA #$0B {IMP}");
    assert_eq!(line_at(0xBEEF, &[0xAD, 0x0D, 0xF0]), "$BEEF: LDA $F00D {ABS}");
    assert_eq!(line_at(0x0000, &[0xAD, 0x9A, 0x00]), "$0000: LDA $009A {ABS}");
    assert_eq!(line_at(0xCDEF, &[0xA5, 0xC9]), "$CDEF: LDA $C9 {ZP0}");
    assert_eq!(line_at(0x1234, &[0xA5, 0x7F]), "$1234: LDA $7F {ZP0}");
    assert_eq!(line_at(0x5678, &[0xA5, 0x3E]), "$5678: LDA $3E {ZP0}");
}

#[test]
fn branch_targets() {
    assert_eq!(line_at(0x8000, &[0xD0, 0x00]), "$8000: BNE $00 [$8002] {REL}");
    assert_eq!(line_at(0x8000, &[0xD0, 0x7F]), "$8000: BNE $7F [$8081] {REL}");
    assert_eq!(line_at(0x8000, &[0xD0, 0x80]), "$8000: BNE $80 [$7F82] {REL}");
    assert_eq!(line_at(0x8000, &[0xD0, 0xFE]), "$8000: BNE $FE [$8000] {REL}");
    assert_eq!(line_at(0x00FE, &[0x10, 0x00]), "$00FE: BPL $00 [$0100] {REL}");
    // The target is not wrapped to sixteen bits: past the end of memory it
    // takes a fifth digit, and before the start it wraps to 32 bits.
    assert_eq!(line_at(0xFFFE, &[0x10, 0x10]), "$FFFE: BPL $10 [$10010] {REL}");
    assert_eq!(line_at(0xFFF0, &[0x10, 0x0E]), "$FFF0: BPL $0E [$10000] {REL}");
    assert_eq!(line_at(0x0000, &[0x10, 0x80]), "$0000: BPL $80 [$FFFFFF82] {REL}");
    assert_eq!(line_at(0x0001, &[0x10, 0xFC]), "$0001: BPL $FC [$FFFFFFFF] {REL}");
    assert_eq!(line_at(0x0002, &[0x10, 0xFC]), "$0002: BPL $FC [$0000] {REL}");
}

#[test]
fn operands_wrap_round_the_end_of_memory() {
    let mut cpu: CPU = CPU::new();
    cpu.write(0xFFFF, 0xAD);
    cpu.write(0x0000, 0x34);
    cpu.write(0x0001, 0x12);
    assert_eq!(Disassembler::line(&cpu, 0xFFFF), "$FFFF: LDA $1234 {ABS}");
    let lines: Vec<(u16, String)> = Disassembler::for_range(&cpu, 0xFFFF, 0xFFFF);
    assert_eq!(lines, vec![(0xFFFF, String::from("$FFFF: LDA $1234 {ABS}"))]);

    cpu.write(0xFFFE, 0xA9);
    cpu.write(0xFFFF, 0x42);
    let lines: Vec<(u16, String)> = Disassembler::for_range(&cpu, 0xFFFE, 0xFFFF);
    assert_eq!(lines, vec![(0xFFFE, String::from("$FFFE: LDA #$42 {IMP}"))]);
}
