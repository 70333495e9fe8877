//! The status register: its eight flags and the byte that packs them.

use vstd::prelude::*;

verus! {

/// The eight flags of the status register.
#[derive(Clone, Copy, Debug, PartialEq, Eq, Structural)]
pub enum Flag {
    /// Carry, bit 0.
    C,
    /// Zero, bit 1.
    Z,
    /// Interrupt disable, bit 2.
    I,
    /// Decimal mode, bit 3. It can be stored and read back; arithmetic never looks at it.
    D,
    /// Break, bit 4.
    B,
    /// Unused, bit 5.
    U,
    /// Overflow, bit 6.
    V,
    /// Negative, bit 7.
    N,
}

impl Flag {
    /// The value of the flag's bit in the packed status byte.
    pub open spec fn spec_mask(self) -> u8 {
        match self {
            Flag::C => 0x01,
            Flag::Z => 0x02,
            Flag::I => 0x04,
            Flag::D => 0x08,
            Flag::B => 0x10,
            Flag::U => 0x20,
            Flag::V => 0x40,
            Flag::N => 0x80,
        }
    }

    /// The value of the flag's bit in the packed status byte.
    #[verifier::when_used_as_spec(spec_mask)]
    pub fn mask(self) -> (m: u8)
        ensures
            m == self.spec_mask(),
    {
        match self {
            Flag::C => 0x01,
            Flag::Z => 0x02,
            Flag::I => 0x04,
            Flag::D => 0x08,
            Flag::B => 0x10,
            Flag::U => 0x20,
            Flag::V => 0x40,
            Flag::N => 0x80,
        }
    }
}

/// What the status register holds: the eight flags, each by itself. It is
/// the view of a `StatusFlags`.
pub struct Flags {
    pub c: bool,
    pub z: bool,
    pub i: bool,
    pub d: bool,
    pub b: bool,
    pub u: bool,
    pub v: bool,
    pub n: bool,
}

/// The value that a bit of weight `weight` adds to a byte.
pub open spec fn bit_value(set: bool, weight: int) -> int {
    if set {
        weight
    } else {
        0
    }
}

impl Flags {
    /// No flag is set.
    pub open spec fn empty() -> Flags {
        Flags { c: false, z: false, i: false, d: false, b: false, u: false, v: false, n: false }
    }

    /// Whether `flag` is set.
    pub open spec fn has(self, flag: Flag) -> bool {
        match flag {
            Flag::C => self.c,
            Flag::Z => self.z,
            Flag::I => self.i,
            Flag::D => self.d,
            Flag::B => self.b,
            Flag::U => self.u,
            Flag::V => self.v,
            Flag::N => self.n,
        }
    }

    /// The flags with `flag` set to `value` and every other flag as it was.
    pub open spec fn with(self, flag: Flag, value: bool) -> Flags {
        match flag {
            Flag::C => Flags { c: value, ..self },
            Flag::Z => Flags { z: value, ..self },
            Flag::I => Flags { i: value, ..self },
            Flag::D => Flags { d: value, ..self },
            Flag::B => Flags { b: value, ..self },
            Flag::U => Flags { u: value, ..self },
            Flag::V => Flags { v: value, ..self },
            Flag::N => Flags { n: value, ..self },
        }
    }

    /// The packed status byte: C is bit 0, then Z, I, D, B, U, V, and N is bit 7.
    pub open spec fn bits(self) -> u8 {
        (bit_value(self.c, 1) + bit_value(self.z, 2) + bit_value(self.i, 4) + bit_value(self.d, 8)
            + bit_value(self.b, 16) + bit_value(self.u, 32) + bit_value(self.v, 64) + bit_value(
            self.n,
            128,
        )) as u8
    }

    /// The flags that the packed status byte `bits` stands for.
    pub open spec fn from_bits(bits: u8) -> Flags {
        Flags {
            c: bits % 2 == 1,
            z: (bits / 2) % 2 == 1,
            i: (bits / 4) % 2 == 1,
            d: (bits / 8) % 2 == 1,
            b: (bits / 16) % 2 == 1,
            u: (bits / 32) % 2 == 1,
            v: (bits / 64) % 2 == 1,
            n: (bits / 128) % 2 == 1,
        }
    }

    /// The byte that software pushes for the flags: B and U read as set.
    pub open spec fn pushed(self) -> u8 {
        self.with(Flag::B, true).with(Flag::U, true).bits()
    }

    /// The flags that the stack byte `bits` restores: B reads as clear and
    /// U as set, whatever the byte holds for them.
    pub open spec fn pulled(bits: u8) -> Flags {
        Flags::from_bits(bits).with(Flag::B, false).with(Flag::U, true)
    }
}

/// Unpacking a byte and packing the flags again gives the byte back.
pub proof fn lemma_pack_unpacked(bits: u8)
    ensures
        Flags::from_bits(bits).bits() == bits,
{
    let c: u8 = if bits % 2 == 1 { 1 } else { 0 };
    let z: u8 = if (bits / 2) % 2 == 1 { 2 } else { 0 };
    let i: u8 = if (bits / 4) % 2 == 1 { 4 } else { 0 };
    let d: u8 = if (bits / 8) % 2 == 1 { 8 } else { 0 };
    let b: u8 = if (bits / 16) % 2 == 1 { 16 } else { 0 };
    let u: u8 = if (bits / 32) % 2 == 1 { 32 } else { 0 };
    let v: u8 = if (bits / 64) % 2 == 1 { 64 } else { 0 };
    let n: u8 = if (bits / 128) % 2 == 1 { 128 } else { 0 };
    assert(c + z + i + d + b + u + v + n == bits) by (bit_vector)
        requires
            c == (if bits % 2 == 1 { 1u8 } else { 0u8 }),
            z == (if (bits / 2) % 2 == 1 { 2u8 } else { 0u8 }),
            i == (if (bits / 4) % 2 == 1 { 4u8 } else { 0u8 }),
            d == (if (bits / 8) % 2 == 1 { 8u8 } else { 0u8 }),
            b == (if (bits / 16) % 2 == 1 { 16u8 } else { 0u8 }),
            u == (if (bits / 32) % 2 == 1 { 32u8 } else { 0u8 }),
            v == (if (bits / 64) % 2 == 1 { 64u8 } else { 0u8 }),
            n == (if (bits / 128) % 2 == 1 { 128u8 } else { 0u8 }),
    ;
}

/// Packing the flags in a byte and unpacking the byte gives the flags back.
pub proof fn lemma_unpack_packed(flags: Flags)
    ensures
        Flags::from_bits(flags.bits()) == flags,
{
    let c: u8 = if flags.c { 1 } else { 0 };
    let z: u8 = if flags.z { 2 } else { 0 };
    let i: u8 = if flags.i { 4 } else { 0 };
    let d: u8 = if flags.d { 8 } else { 0 };
    let b: u8 = if flags.b { 16 } else { 0 };
    let u: u8 = if flags.u { 32 } else { 0 };
    let v: u8 = if flags.v { 64 } else { 0 };
    let n: u8 = if flags.n { 128 } else { 0 };
    let packed: u8 = flags.bits();
    assert(packed == c + z + i + d + b + u + v + n);
    assert((packed % 2 == 1) == (c == 1) && ((packed / 2) % 2 == 1) == (z == 2) && ((packed / 4)
        % 2 == 1) == (i == 4) && ((packed / 8) % 2 == 1) == (d == 8) && ((packed / 16) % 2 == 1)
        == (b == 16) && ((packed / 32) % 2 == 1) == (u == 32) && ((packed / 64) % 2 == 1) == (v
        == 64) && ((packed / 128) % 2 == 1) == (n == 128)) by (bit_vector)
        requires
            c == 0 || c == 1,
            z == 0 || z == 2,
            i == 0 || i == 4,
            d == 0 || d == 8,
            b == 0 || b == 16,
            u == 0 || u == 32,
            v == 0 || v == 64,
            n == 0 || n == 128,
            packed == c + z + i + d + b + u + v + n,
    ;
}

/// Packing the flags in a byte and unpacking the byte gives the flags
/// back, and the other way round: the byte and the flags stand for each other.
pub proof fn lemma_packed_round_trip(flags: Flags, bits: u8)
    ensures
        Flags::from_bits(flags.bits()) == flags,
        Flags::from_bits(bits).bits() == bits,
{
    lemma_pack_unpacked(bits);
    lemma_unpack_packed(flags);
}

/// Writing a flag back with the value that was read from it changes
/// nothing; a flag that was written reads back as written, and every other
/// flag reads as before.
pub proof fn lemma_read_and_write(flags: Flags, written: Flag, value: bool, read: Flag)
    ensures
        flags.with(written, flags.has(written)) == flags,
        flags.with(written, flags.has(written)).bits() == flags.bits(),
        flags.with(written, value).has(read) == (if read == written {
            value
        } else {
            flags.has(read)
        }),
{
}

/// A flag is set exactly where the bit of its mask is set in the packed byte.
pub proof fn lemma_flag_is_its_bit(bits: u8, flag: Flag)
    ensures
        Flags::from_bits(bits).has(flag) == (bits & flag.mask() != 0),
{
    assert((bits & 0x01 != 0) == (bits % 2 == 1) && (bits & 0x02 != 0) == ((bits / 2) % 2 == 1) && (
    bits & 0x04 != 0) == ((bits / 4) % 2 == 1) && (bits & 0x08 != 0) == ((bits / 8) % 2 == 1) && (
    bits & 0x10 != 0) == ((bits / 16) % 2 == 1) && (bits & 0x20 != 0) == ((bits / 32) % 2 == 1)
        && (bits & 0x40 != 0) == ((bits / 64) % 2 == 1) && (bits & 0x80 != 0) == ((bits / 128) % 2
        == 1)) by (bit_vector);
}

/// A byte with exactly one bit set.
pub open spec fn single_bit(m: u8) -> bool {
    m == 0x01 || m == 0x02 || m == 0x04 || m == 0x08 || m == 0x10 || m == 0x20 || m == 0x40
        || m == 0x80
}

/// Setting or clearing one bit of a byte decides that bit and no other.
pub proof fn lemma_write_bit(b: u8, m: u8, n: u8)
    requires
        single_bit(m),
        single_bit(n),
    ensures
        ((b | m) & n != 0) == (m == n || b & n != 0),
        ((b & !m) & n != 0) == (m != n && b & n != 0),
{
    assert(((b | m) & n != 0) == (m == n || b & n != 0) && ((b & !m) & n != 0) == (m != n && b & n
        != 0)) by (bit_vector)
        requires
            m == 0x01 || m == 0x02 || m == 0x04 || m == 0x08 || m == 0x10 || m == 0x20 || m == 0x40
                || m == 0x80,
            n == 0x01 || n == 0x02 || n == 0x04 || n == 0x08 || n == 0x10 || n == 0x20 || n == 0x40
                || n == 0x80,
    ;
}

/// The status register `P`, as its packed byte.
#[derive(Clone, Copy, Debug, PartialEq, Eq, Structural)]
pub struct StatusFlags {
    pub bits: u8,
}

impl View for StatusFlags {
    type V = Flags;

    open spec fn view(&self) -> Flags {
        Flags::from_bits(self.bits)
    }
}

impl StatusFlags {
    /// Whether `flag` is set.
    pub open spec fn spec_contains(&self, flag: Flag) -> bool {
        self@.has(flag)
    }

    /// The register with every flag clear.
    pub fn empty() -> (p: StatusFlags)
        ensures
            p.bits == 0,
            p@ == Flags::empty(),
    {
        StatusFlags { bits: 0 }
    }

    /// Loads the register from its packed byte.
    pub fn from_bits(bits: u8) -> (p: StatusFlags)
        ensures
            p.bits == bits,
            p@ == Flags::from_bits(bits),
    {
        StatusFlags { bits }
    }

    /// The packed byte.
    pub fn bits(&self) -> (bits: u8)
        ensures
            bits == self.bits,
            bits == self@.bits(),
    {
        proof {
            lemma_pack_unpacked(self.bits);
        }
        self.bits
    }

    /// Whether `flag` is set.
    #[verifier::when_used_as_spec(spec_contains)]
    pub fn contains(&self, flag: Flag) -> (set: bool)
        ensures
            set == self@.has(flag),
    {
        proof {
            lemma_flag_is_its_bit(self.bits, flag);
        }
        self.bits & flag.mask() != 0
    }

    /// Sets `flag` to `value` and leaves every other flag as it was.
    pub fn set(&mut self, flag: Flag, value: bool)
        ensures
            final(self)@ == old(self)@.with(flag, value),
    {
        if value {
            self.bits = self.bits | flag.mask();
        } else {
            self.bits = self.bits & !flag.mask();
        }
        proof {
            let changed: u8 = self.bits;
            assert forall|other: Flag| #[trigger]
                Flags::from_bits(changed).has(other) == old(self)@.with(flag, value).has(
                    other,
                ) by {
                lemma_flag_is_its_bit(changed, other);
                lemma_flag_is_its_bit(old(self).bits, other);
                lemma_write_bit(old(self).bits, flag.mask(), other.mask());
            }
            lemma_same_flags(self@, old(self)@.with(flag, value));
        }
    }

    /// The byte that software pushes for the register: B and U read as set.
    pub fn pushed(&self) -> (bits: u8)
        ensures
            bits == self@.pushed(),
    {
        let mut copy: StatusFlags = *self;
        copy.set(Flag::B, true);
        copy.set(Flag::U, true);
        copy.bits()
    }

    /// The register that the stack byte `bits` restores: B reads as clear
    /// and U as set, whatever the byte holds for them.
    pub fn pulled(bits: u8) -> (p: StatusFlags)
        ensures
            p@ == Flags::pulled(bits),
    {
        let mut p: StatusFlags = StatusFlags::from_bits(bits);
        p.set(Flag::B, false);
        let ghost cleared = p@;
        p.set(Flag::U, true);
        assert(cleared == Flags::from_bits(bits).with(Flag::B, false));
        assert(p@ == cleared.with(Flag::U, true));
        p
    }
}

/// Flags that agree in every single flag are the same flags.
pub proof fn lemma_same_flags(first: Flags, second: Flags)
    requires
        forall|flag: Flag| #[trigger] first.has(flag) == second.has(flag),
    ensures
        first == second,
{
    assert(first.has(Flag::C) == second.has(Flag::C));
    assert(first.has(Flag::Z) == second.has(Flag::Z));
    assert(first.has(Flag::I) == second.has(Flag::I));
    assert(first.has(Flag::D) == second.has(Flag::D));
    assert(first.has(Flag::B) == second.has(Flag::B));
    assert(first.has(Flag::U) == second.has(Flag::U));
    assert(first.has(Flag::V) == second.has(Flag::V));
    assert(first.has(Flag::N) == second.has(Flag::N));
}

/// Two registers that hold the same flags hold the same byte.
pub proof fn lemma_flags_fix_the_byte(first: StatusFlags, second: StatusFlags)
    requires
        first@ == second@,
    ensures
        first == second,
{
    lemma_packed_round_trip(first@, first.bits);
    lemma_packed_round_trip(second@, second.bits);
}

} // verus!
