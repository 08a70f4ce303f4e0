//! The 2 KiB of work RAM inside the console.

use vstd::prelude::*;
use crate::addressable::{Address, Addressable, Error, Result};

verus! {

pub const NES_RAM_NUM_BYTES: usize = 0x800;

/// The bytes of a memory that is `size` bytes long and holds zero everywhere.
pub open spec fn zeroed(size: nat) -> Seq<u8> {
    Seq::new(size, |i: int| 0u8)
}

/// A new vector of `size` zero bytes.
pub fn zeroed_bytes(size: usize) -> (bytes: Vec<u8>)
    ensures
        bytes@ == zeroed(size as nat),
{
    let bytes = vec![0u8; size];
    assert(bytes@ =~= zeroed(size as nat));
    bytes
}

/// Work RAM. Its view is its 2048 bytes.
pub struct NesRam {
    ram: Vec<u8>,
}

impl View for NesRam {
    type V = Seq<u8>;

    closed spec fn view(&self) -> Seq<u8> {
        self.ram@
    }
}

impl NesRam {
    pub fn new() -> (r: Self)
        ensures
            r@ == zeroed(NES_RAM_NUM_BYTES as nat),
    {
        NesRam { ram: zeroed_bytes(NES_RAM_NUM_BYTES) }
    }
}

impl Addressable for NesRam {
    /// An offset within the memory is served and changes nothing; any other is
    /// refused as a bus error.
    open spec fn spec_read8(s: Seq<u8>, address: Address) -> (Result<u8>, Seq<u8>) {
        if address < s.len() {
            (Ok(s[address as int]), s)
        } else {
            (Err(Error::BusErrorRead(address)), s)
        }
    }

    /// An offset within the memory takes the byte; any other is refused as a bus
    /// error.
    open spec fn spec_write8(s: Seq<u8>, address: Address, data: u8) -> (Result<()>, Seq<u8>) {
        if address < s.len() {
            (Ok(()), s.update(address as int, data))
        } else {
            (Err(Error::BusErrorWrite(address)), s)
        }
    }

    fn write8(&mut self, address: Address, data: u8) -> (r: Result<()>) {
        if (address as usize) < self.ram.len() {
            self.ram[address as usize] = data;
            Ok(())
        } else {
            Err(Error::BusErrorWrite(address))
        }
    }

    fn read8(&mut self, address: Address) -> (r: Result<u8>) {
        if (address as usize) < self.ram.len() {
            Ok(self.ram[address as usize])
        } else {
            Err(Error::BusErrorRead(address))
        }
    }
}

} // verus!
