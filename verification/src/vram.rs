//! The 2 KiB of video RAM that holds two nametables.

use vstd::prelude::*;
use crate::addressable::{Address, PpuAddressable, Error, Result};
use crate::ram::{zeroed, zeroed_bytes};

verus! {

pub const NES_VRAM_NUM_BYTES: usize = 0x800;

/// Video RAM. Its view is its 2048 bytes.
pub struct NesVram {
    ram: Vec<u8>,
}

impl View for NesVram {
    type V = Seq<u8>;

    closed spec fn view(&self) -> Seq<u8> {
        self.ram@
    }
}

impl NesVram {
    pub fn new() -> (r: Self)
        ensures
            r@ == zeroed(NES_VRAM_NUM_BYTES as nat),
    {
        NesVram { ram: zeroed_bytes(NES_VRAM_NUM_BYTES) }
    }
}

impl PpuAddressable for NesVram {
    /// An offset within the memory is served; any other is refused as a bus error.
    open spec fn spec_ppu_read8(s: Seq<u8>, address: Address) -> Result<u8> {
        if address < s.len() {
            Ok(s[address as int])
        } else {
            Err(Error::BusErrorRead(address))
        }
    }

    /// An offset within the memory takes the byte; any other is refused as a bus
    /// error.
    open spec fn spec_ppu_write8(s: Seq<u8>, address: Address, data: u8) -> (Result<()>, Seq<u8>) {
        if address < s.len() {
            (Ok(()), s.update(address as int, data))
        } else {
            (Err(Error::BusErrorWrite(address)), s)
        }
    }

    fn ppu_read8(&mut self, address: Address) -> (r: Result<u8>) {
        if (address as usize) < self.ram.len() {
            Ok(self.ram[address as usize])
        } else {
            Err(Error::BusErrorRead(address))
        }
    }

    fn ppu_write8(&mut self, address: Address, data: u8) -> (r: Result<()>) {
        if (address as usize) < self.ram.len() {
            self.ram[address as usize] = data;
            Ok(())
        } else {
            Err(Error::BusErrorWrite(address))
        }
    }
}

} // verus!
