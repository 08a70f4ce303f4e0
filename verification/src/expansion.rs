//! A stand-in for the expansion ROM: it refuses every access.

use vstd::prelude::*;
use crate::addressable::{Address, Addressable, Error, Result};

verus! {

pub struct NesExpansionRom {}

impl View for NesExpansionRom {
    type V = ();

    open spec fn view(&self) -> () {
        ()
    }
}

impl NesExpansionRom {
    pub fn new() -> Self {
        NesExpansionRom {  }
    }
}

impl Addressable for NesExpansionRom {
    /// Every read is refused as unimplemented.
    open spec fn spec_read8(s: (), address: Address) -> (Result<u8>, ()) {
        (Err(Error::UnimplementedRead(address)), ())
    }

    /// Every write is refused as unimplemented.
    open spec fn spec_write8(s: (), address: Address, data: u8) -> (Result<()>, ()) {
        (Err(Error::UnimplementedWrite(address)), ())
    }

    fn write8(&mut self, address: Address, _data: u8) -> (r: Result<()>) {
        Err(Error::UnimplementedWrite(address))
    }

    fn read8(&mut self, address: Address) -> (r: Result<u8>) {
        Err(Error::UnimplementedRead(address))
    }
}

} // verus!
