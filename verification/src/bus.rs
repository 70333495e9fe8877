//! The memory bus: a flat array of 64 KiB, with no mapping and no side effect on a read.

use vstd::prelude::*;

verus! {

/// Number of addressable bytes: the full 16-bit address space.
pub const RAM_SIZE: usize = 65536;

/// Flat 64 KiB memory. Every 16-bit address names exactly one byte.
#[derive(Debug)]
pub struct Bus {
    pub ram: [u8; RAM_SIZE],
}

impl View for Bus {
    type V = Seq<u8>;

    open spec fn view(&self) -> Seq<u8> {
        self.ram@
    }
}

impl Bus {
    /// A bus whose memory is all zero.
    pub fn new() -> (bus: Self)
        ensures
            bus@ == Seq::new(65536, |i: int| 0u8),
    {
        let bus = Bus { ram: [0u8; RAM_SIZE] };
        assert(bus.ram@ =~= Seq::new(65536, |i: int| 0u8));
        bus
    }

    /// The byte stored at `address`.
    pub open spec fn spec_read(&self, address: u16) -> u8 {
        self@[address as int]
    }

    /// The byte stored at `address`.
    #[verifier::when_used_as_spec(spec_read)]
    pub fn read(&self, address: u16) -> (data: u8)
        ensures
            data == self@[address as int],
    {
        self.ram[address as usize]
    }

    /// Stores `data` at `address`; every other byte keeps its value.
    pub fn write(&mut self, address: u16, data: u8)
        ensures
            final(self)@ == old(self)@.update(address as int, data),
    {
        self.ram[address as usize] = data;
    }
}

} // verus!
