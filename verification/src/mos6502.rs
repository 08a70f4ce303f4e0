//! A processor socket: a memory that the processor is plugged into, passed
//! through unchanged.

use vstd::prelude::*;
use crate::addressable::{Address, Addressable, Result};

verus! {

pub struct Mos6502<Memory: Addressable> {
    pub memory: Memory,
}

impl<Memory: Addressable> View for Mos6502<Memory> {
    type V = Memory::V;

    open spec fn view(&self) -> Memory::V {
        self.memory@
    }
}

impl<Memory: Addressable> Mos6502<Memory> {
    pub fn new(memory: Memory) -> (r: Self)
        ensures
            r.memory == memory,
    {
        Mos6502 { memory }
    }
}

impl<Memory: Addressable> Addressable for Mos6502<Memory> {
    /// Every access is served as the memory serves it.
    open spec fn spec_read8(s: Memory::V, address: Address) -> (Result<u8>, Memory::V) {
        Memory::spec_read8(s, address)
    }

    open spec fn spec_write8(s: Memory::V, address: Address, data: u8) -> (Result<()>, Memory::V) {
        Memory::spec_write8(s, address, data)
    }

    fn write8(&mut self, address: Address, data: u8) -> (r: Result<()>) {
        self.memory.write8(address, data)
    }

    fn read8(&mut self, address: Address) -> (r: Result<u8>) {
        self.memory.read8(address)
    }
}

} // verus!
