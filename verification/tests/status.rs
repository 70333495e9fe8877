use powerglove::cpu::{Flag, StatusFlags};

const FLAGS: [Flag; 8] =
    [Flag::C, Flag::Z, Flag::I, Flag::D, Flag::B, Flag::U, Flag::V, Flag::N];

#[test]
fn flag_bit_positions() {
    assert_eq!(Flag::C.mask(), 0b0000_0001);
    assert_eq!(Flag::Z.mask(), 0b0000_0010);
    assert_eq!(Flag::I.mask(), 0b0000_0100);
    assert_eq!(Flag::D.mask(), 0b0000_1000);
    assert_eq!(Flag::B.mask(), 0b0001_0000);
    assert_eq!(Flag::U.mask(), 0b0010_0000);
    assert_eq!(Flag::V.mask(), 0b0100_0000);
    assert_eq!(Flag::N.mask(), 0b1000_0000);
}

#[test]
fn empty_register_has_no_flag() {
    let p: StatusFlags = StatusFlags::empty();
    assert_eq!(p.bits(), 0);
    for flag in FLAGS {
        assert!(!p.contains(flag));
    }
}

#[test]
fn set_writes_one_flag_only() {
    for (i, flag) in FLAGS.iter().enumerate() {
        let mut p: StatusFlags = StatusFlags::empty();
        p.set(*flag, true);
        assert_eq!(p.bits(), 1u8 << i);
        for other in FLAGS {
            assert_eq!(p.contains(other), other == *flag);
        }

        let mut q: StatusFlags = StatusFlags::from_bits(0xFF);
        q.set(*flag, false);
        assert_eq!(q.bits(), !(1u8 << i));
        for other in FLAGS {
            assert_eq!(q.contains(other), other != *flag);
        }
    }
}

#[test]
fn packed_byte_round_trip() {
    for byte in 0..=255u8 {
        let p: StatusFlags = StatusFlags::from_bits(byte);
        assert_eq!(p.bits(), byte);
        assert_eq!(StatusFlags::from_bits(p.bits()), p);
        for flag in FLAGS {
            // Reading a flag and writing it back changes nothing.
            let mut q: StatusFlags = p;
            q.set(flag, p.contains(flag));
            assert_eq!(q.bits(), byte);
            assert_eq!(p.contains(flag), byte & flag.mask() != 0);
        }
    }
}

#[test]
fn flags_rebuild_the_byte() {
    for byte in 0..=255u8 {
        let p: StatusFlags = StatusFlags::from_bits(byte);
        let mut q: StatusFlags = StatusFlags::empty();
        for flag in FLAGS {
            q.set(flag, p.contains(flag));
        }
        assert_eq!(q.bits(), byte);
    }
}

#[test]
fn pushed_byte_has_break_and_unused_set() {
    assert_eq!(StatusFlags::from_bits(0x00).pushed(), 0x30);
    assert_eq!(StatusFlags::from_bits(0xCF).pushed(), 0xFF);
    assert_eq!(StatusFlags::from_bits(0x81).pushed(), 0xB1);
    let p: StatusFlags = StatusFlags::from_bits(0x01);
    let _ = p.pushed();
    assert_eq!(p.bits(), 0x01);
}

#[test]
fn pulled_register_has_break_clear_and_unused_set() {
    assert_eq!(StatusFlags::pulled(0xFF).bits(), 0xEF);
    assert_eq!(StatusFlags::pulled(0x00).bits(), 0x20);
    assert_eq!(StatusFlags::pulled(0x10).bits(), 0x20);
    assert_eq!(StatusFlags::pulled(0xC3).bits(), 0xE3);
    for byte in 0..=255u8 {
        let p: StatusFlags = StatusFlags::pulled(StatusFlags::from_bits(byte).pushed());
        assert_eq!(p.bits(), (byte & !0x10) | 0x20);
    }
}
