//! The 32 bytes of palette memory inside the picture unit.

use vstd::prelude::*;
use crate::addressable::{Address, Error, Result};
use crate::ram::{zeroed, zeroed_bytes};

verus! {

pub const PALETTE_SIZE: usize = 0x20;

/// Palette memory. Its view is its 32 bytes.
pub struct Palette {
    ram: Vec<u8>,
}

impl View for Palette {
    type V = Seq<u8>;

    closed spec fn view(&self) -> Seq<u8> {
        self.ram@
    }
}

impl Palette {
    pub fn new() -> (r: Self)
        ensures
            r@ == zeroed(PALETTE_SIZE as nat),
    {
        Palette { ram: zeroed_bytes(PALETTE_SIZE) }
    }

    /// An offset within the memory is served; any other is refused as a bus error.
    pub open spec fn spec_ppu_read8(s: Seq<u8>, address: Address) -> Result<u8> {
        if address < s.len() {
            Ok(s[address as int])
        } else {
            Err(Error::BusErrorRead(address))
        }
    }

    /// An offset within the memory takes the byte; any other is refused as a bus error.
    pub open spec fn spec_ppu_write8(s: Seq<u8>, address: Address, data: u8) -> (
        Result<()>,
        Seq<u8>,
    ) {
        if address < s.len() {
            (Ok(()), s.update(address as int, data))
        } else {
            (Err(Error::BusErrorWrite(address)), s)
        }
    }

    pub fn ppu_read8(&mut self, address: Address) -> (r: Result<u8>)
        ensures
            r == Self::spec_ppu_read8(old(self)@, address),
            final(self)@ == old(self)@,
    {
        if (address as usize) < self.ram.len() {
            Ok(self.ram[address as usize])
        } else {
            Err(Error::BusErrorRead(address))
        }
    }

    pub fn ppu_write8(&mut self, address: Address, data: u8) -> (r: Result<()>)
        ensures
            (r, final(self)@) == Self::spec_ppu_write8(old(self)@, address, data),
    {
        if (address as usize) < self.ram.len() {
            self.ram[address as usize] = data;
            Ok(())
        } else {
            Err(Error::BusErrorWrite(address))
        }
    }
}

} // verus!
