//! The memory bus that the core reads and writes.

use vstd::prelude::*;

verus! {

/// Number of addressable bytes behind the bus: the whole 16-bit space.
pub const RAM_SIZE: usize = 0x10000;

/// A flat 64 KiB memory that answers every 16-bit address.
pub struct Bus {
    pub ram: [u8; RAM_SIZE],
}

impl View for Bus {
    type V = Seq<u8>;

    /// The memory as a sequence of 65536 bytes, indexed by address.
    open spec fn view(&self) -> Seq<u8> {
        self.ram@
    }
}

impl Bus {
    /// A bus whose every byte is zero.
    pub fn new() -> (r: Self)
        ensures
            r@.len() == RAM_SIZE,
            forall|i: int| 0 <= i < RAM_SIZE ==> #[trigger] r@[i] == 0u8,
    {
        Self { ram: [0x00u8; RAM_SIZE] }
    }

    /// Stores `data` at `addr`; every other byte is kept.
    pub fn write(&mut self, addr: u16, data: u8)
        ensures
            final(self)@ == old(self)@.update(addr as int, data),
    {
        self.ram[addr as usize] = data;
    }

    /// The byte stored at `addr`.
    pub fn read(&self, addr: u16) -> (r: u8)
        ensures
            r == self@[addr as int],
    {
        self.ram[addr as usize]
    }
}

} // verus!
