//! Addresses, bus errors and the two families of addressable components: those
//! that sit in the processor's address space and those that sit in the picture
//! unit's.

use vstd::prelude::*;

verus! {

/// A 16-bit address in one of the two address spaces.
pub type Address = u16;

/// A distance between two addresses.
pub type AddressDiff = u16;

pub type Result<T> = std::result::Result<T, Error>;

/// What a component answers when it cannot serve an access.
#[derive(Debug, Clone, Copy, PartialEq, Eq)]
pub enum Error {
    BusErrorRead(Address),
    BusErrorWrite(Address),
    IllegalWrite(Address),
    IllegalRead(Address),
    UnimplementedRead(Address),
    UnimplementedWrite(Address),
}

/// The address that follows `address`, wrapping at the top of the address space.
pub open spec fn next_address(address: Address) -> Address {
    if address == 0xffff {
        0
    } else {
        (address + 1) as u16
    }
}

/// The 16-bit word with low byte `lo` and high byte `hi`.
pub open spec fn word_le(lo: u8, hi: u8) -> u16 {
    (hi * 256 + lo) as u16
}

/// A component in the processor's address space.
///
/// Its behaviour is a deterministic state machine over its view: an access is
/// served or refused, and leaves the component in a new state. Reads may have
/// side effects.
pub trait Addressable: View + Sized {
    /// The answer to a read of `address` in state `s`, and the state after it.
    spec fn spec_read8(s: Self::V, address: Address) -> (Result<u8>, Self::V);

    /// The answer to a write of `data` at `address` in state `s`, and the state
    /// after it.
    spec fn spec_write8(s: Self::V, address: Address, data: u8) -> (Result<()>, Self::V);

    fn write8(&mut self, address: Address, data: u8) -> (r: Result<()>)
        ensures
            (r, final(self)@) == Self::spec_write8(old(self)@, address, data),
    ;

    fn read8(&mut self, address: Address) -> (r: Result<u8>)
        ensures
            (r, final(self)@) == Self::spec_read8(old(self)@, address),
    ;
}

/// The answer to a little-endian 16-bit read at `address` in state `s`, and
/// the state after it: the low byte is read first, the high byte from the
/// following address, and the first refusal ends the read.
pub open spec fn spec_read16_le<M: Addressable>(s: M::V, address: Address) -> (Result<u16>, M::V) {
    let low = M::spec_read8(s, address);
    match low.0 {
        Err(e) => (Err(e), low.1),
        Ok(lo) => {
            let high = M::spec_read8(low.1, next_address(address));
            match high.0 {
                Err(e) => (Err(e), high.1),
                Ok(hi) => (Ok(word_le(lo, hi)), high.1),
            }
        },
    }
}

/// Reads a little-endian 16-bit word through two byte reads.
pub fn read16_le<M: Addressable>(memory: &mut M, address: Address) -> (r: Result<u16>)
    ensures
        (r, final(memory)@) == spec_read16_le::<M>(old(memory)@, address),
{
    let lo = match memory.read8(address) {
        Ok(v) => v,
        Err(e) => {
            return Err(e);
        },
    };
    let hi = match memory.read8(address.wrapping_add(1)) {
        Ok(v) => v,
        Err(e) => {
            return Err(e);
        },
    };
    Ok((hi as u16) * 256 + (lo as u16))
}

/// A read that is meant only to look at memory. It is served like any other
/// read.
pub fn read8_pure<M: Addressable>(memory: &mut M, address: Address) -> (r: Result<u8>)
    ensures
        (r, final(memory)@) == M::spec_read8(old(memory)@, address),
{
    memory.read8(address)
}

/// The answer to a read that is made for its side effects only, and the state
/// after it.
pub open spec fn spec_read8_side_effects<M: Addressable>(s: M::V, address: Address) -> (
    Result<()>,
    M::V,
) {
    let read = M::spec_read8(s, address);
    (
        match read.0 {
            Ok(_) => Ok(()),
            Err(e) => Err(e),
        },
        read.1,
    )
}

/// A read that is made for its side effects only: the byte is dropped.
pub fn read8_side_effects<M: Addressable>(memory: &mut M, address: Address) -> (r: Result<()>)
    ensures
        (r, final(memory)@) == spec_read8_side_effects::<M>(old(memory)@, address),
{
    memory.read8(address)?;
    Ok(())
}

/// A little-endian 16-bit read that is meant only to look at memory. It is
/// served like any other such read.
pub fn read16_le_pure<M: Addressable>(memory: &mut M, address: Address) -> (r: Result<u16>)
    ensures
        (r, final(memory)@) == spec_read16_le::<M>(old(memory)@, address),
{
    let lo = match read8_pure(memory, address) {
        Ok(v) => v,
        Err(e) => {
            return Err(e);
        },
    };
    let hi = match read8_pure(memory, address.wrapping_add(1)) {
        Ok(v) => v,
        Err(e) => {
            return Err(e);
        },
    };
    Ok((hi as u16) * 256 + (lo as u16))
}

/// A component in the picture unit's address space.
///
/// Reads are pure: they leave the view as it was.
pub trait PpuAddressable: View + Sized {
    /// The answer to a read of `address` in state `s`.
    spec fn spec_ppu_read8(s: Self::V, address: Address) -> Result<u8>;

    /// The answer to a write of `data` at `address` in state `s`, and the state
    /// after it.
    spec fn spec_ppu_write8(s: Self::V, address: Address, data: u8) -> (Result<()>, Self::V);

    fn ppu_read8(&mut self, address: Address) -> (r: Result<u8>)
        ensures
            r == Self::spec_ppu_read8(old(self)@, address),
            final(self)@ == old(self)@,
    ;

    fn ppu_write8(&mut self, address: Address, data: u8) -> (r: Result<()>)
        ensures
            (r, final(self)@) == Self::spec_ppu_write8(old(self)@, address, data),
    ;
}

/// A cartridge: one component that is wired into both address spaces.
pub trait CartridgeAddressable: Addressable + PpuAddressable {

}

} // verus!
