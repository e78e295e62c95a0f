use vstd::prelude::*;

verus! {

/// A flat, byte-addressable memory that answers every 16-bit address.
///
/// Its view is the total map from addresses to the bytes they hold.
pub struct BUS {
    ram: [u8; 65536],
}

impl View for BUS {
    type V = Map<u16, u8>;

    closed spec fn view(&self) -> Map<u16, u8> {
        Map::total(|a: u16| self.ram@[a as int])
    }
}

impl BUS {
    /// A bus whose every byte is zero.
    pub fn new() -> (bus: Self)
        ensures
            bus@ == Map::<u16, u8>::total(|a: u16| 0u8),
    {
        let bus = BUS { ram: [0u8; 65536] };
        assert(bus@ =~= Map::<u16, u8>::total(|a: u16| 0u8));
        bus
    }

    /// Stores `data` at `address`; every other byte keeps its value.
    pub fn write(&mut self, address: u16, data: u8)
        ensures
            final(self)@ == old(self)@.insert(address, data),
    {
        self.ram[address as usize] = data;
        assert(self@ =~= old(self)@.insert(address, data));
    }

    /// The byte stored at `address`.
    pub fn read(&self, address: u16) -> (data: u8)
        ensures
            data == self@[address],
    {
        self.ram[address as usize]
    }
}

} // verus!
