use vstd::prelude::*;

verus! {

/// A cartridge without bank switching: 0x0000 to 0x7FFF map straight onto the ROM image.
pub struct ROMOnly {
    rom: Vec<u8>,
}

impl View for ROMOnly {
    type V = Seq<u8>;

    closed spec fn view(&self) -> Seq<u8> {
        self.rom@
    }
}

impl ROMOnly {
    pub fn new(rom: Vec<u8>) -> (r: ROMOnly)
        ensures
            r@ == rom@,
    {
        ROMOnly { rom }
    }

    /// The ROM byte at `a`.
    pub fn read(&self, a: u16) -> (r: u8)
        requires
            a <= 0x7FFF,
            a < self@.len(),
        ensures
            r == self@[a as int],
    {
        self.rom[a as usize]
    }

    /// Writes to a ROM-only cartridge change nothing.
    pub fn write(&mut self, a: u16, v: u8)
        ensures
            final(self)@ == old(self)@,
    {
    }
}

} // verus!
