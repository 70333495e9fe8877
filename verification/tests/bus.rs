use powerglove::bus::Bus;

#[test]
fn new_bus_is_zeroed() {
    let bus: Bus = Bus::new();
    assert_eq!(bus.ram.len(), 64 * 1024);
    for address in 0..=0xFFFFu16 {
        assert_eq!(bus.read(address), 0);
    }
}

#[test]
fn write_then_read() {
    let mut bus: Bus = Bus::new();
    bus.write(0x0000, 0x11);
    bus.write(0x1234, 0x22);
    bus.write(0xFFFF, 0x33);
    assert_eq!(bus.read(0x0000), 0x11);
    assert_eq!(bus.read(0x1234), 0x22);
    assert_eq!(bus.read(0xFFFF), 0x33);
    assert_eq!(bus.ram[0x1234], 0x22);
}

#[test]
fn write_changes_one_byte() {
    let mut bus: Bus = Bus::new();
    bus.write(0x8000, 0xAB);
    for address in 0..=0xFFFFu16 {
        let expected: u8 = if address == 0x8000 { 0xAB } else { 0 };
        assert_eq!(bus.read(address), expected);
    }
    bus.write(0x8000, 0xCD);
    assert_eq!(bus.read(0x8000), 0xCD);
}
