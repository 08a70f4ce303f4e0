//! A stand-in for the I/O ports: it refuses every access.

use vstd::prelude::*;
use crate::addressable::{Address, Addressable, Error, Result};

verus! {

pub struct NesIoPorts {}

impl View for NesIoPorts {
    type V = ();

    open spec fn view(&self) -> () {
        ()
    }
}

impl NesIoPorts {
    pub fn new() -> Self {
        NesIoPorts {  }
    }
}

impl Addressable for NesIoPorts {
    /// Every read is refused as unimplemented.
    open spec fn spec_read8(s: (), address: Address) -> (Result<u8>, ()) {
        (Err(Error::UnimplementedRead(address)), ())
    }

    /// Every write is refused as unimplemented.
    open spec fn spec_write8(s: (), address: Address, data: u8) -> (Result<()>, ()) {
        (Err(Error::UnimplementedWrite(address)), ())
    }

    fn write8(&mut self, address: Address, _data: u8) -> (r: Result<()>) {
        Err(Error::UnimplementedWrite(address))
    }

    fn read8(&mut self, address: Address) -> (r: Result<u8>) {
        Err(Error::UnimplementedRead(address))
    }
}

} // verus!
