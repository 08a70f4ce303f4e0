//! A small bus for the processor: work RAM, the registers of the picture
//! unit and the cartridge, without I/O bank and without palette.

use vstd::prelude::*;
use crate::addressable::{Address, AddressDiff, Addressable, CartridgeAddressable, Error, Result};
use crate::ppu::{Ppu, PpuState};
use crate::ram::NesRam;

verus! {

pub const RAM_START: Address = 0x0000;

pub const RAM_END: Address = 0x07ff;

pub const RAM_MIRROR_END: Address = 0x1fff;

pub const RAM_SIZE: AddressDiff = 0x0800;

pub const PPU_REGISTER_START: Address = 0x2000;

pub const PPU_REGISTER_END: Address = 0x2007;

pub const PPU_REGISTER_MIRROR_START: Address = 0x2008;

pub const PPU_REGISTER_MIRROR_END: Address = 0x3fff;

pub const PPU_REGISTER_SIZE: AddressDiff = 8;

pub const CARTRIDGE_START: Address = 0x6000;

pub const CARTRIDGE_END: Address = 0xffff;

/// The small bus, with what it dispatches to. The picture unit reaches the
/// cartridge directly.
pub struct NesCpuMemoryLayout<C: CartridgeAddressable> {
    pub cartridge: C,
    pub ppu: Ppu,
    pub ram: NesRam,
}

/// What is reachable on the small bus.
pub struct CpuBusState<S> {
    pub cartridge: S,
    pub ppu: PpuState,
    /// The 2 KiB of work RAM.
    pub ram: Seq<u8>,
}

impl<C: CartridgeAddressable> View for NesCpuMemoryLayout<C> {
    type V = CpuBusState<C::V>;

    open spec fn view(&self) -> CpuBusState<C::V> {
        CpuBusState { cartridge: self.cartridge@, ppu: self.ppu@, ram: self.ram@ }
    }
}

impl<C: CartridgeAddressable> NesCpuMemoryLayout<C> {
    pub fn new(cartridge: C, ppu: Ppu, ram: NesRam) -> (r: Self)
        ensures
            r.cartridge == cartridge,
            r.ppu == ppu,
            r.ram == ram,
    {
        NesCpuMemoryLayout { cartridge, ppu, ram }
    }
}

impl<C: CartridgeAddressable> Addressable for NesCpuMemoryLayout<C> {
    /// | address | served by |
    /// |---|---|
    /// | `$0000-$1FFF` | work RAM, at the address modulo `$0800` |
    /// | `$2000-$3FFF` | the picture unit's register of number `(address - $2000) mod 8` |
    /// | `$6000-$FFFF` | the cartridge, at `address - $6000` |
    ///
    /// Every other address is refused as unimplemented.
    open spec fn spec_read8(s: CpuBusState<C::V>, address: Address) -> (
        Result<u8>,
        CpuBusState<C::V>,
    ) {
        if address <= RAM_MIRROR_END {
            let read = NesRam::spec_read8(s.ram, address % RAM_SIZE);
            (read.0, CpuBusState { ram: read.1, ..s })
        } else if address <= PPU_REGISTER_MIRROR_END {
            let read = s.ppu.spec_read8::<C>(
                ((address - PPU_REGISTER_START) % (PPU_REGISTER_SIZE as int)) as u16,
                s.cartridge,
            );
            (read.0, CpuBusState { ppu: read.1, ..s })
        } else if address >= CARTRIDGE_START {
            let read = <C as Addressable>::spec_read8(
                s.cartridge,
                (address - CARTRIDGE_START) as u16,
            );
            (read.0, CpuBusState { cartridge: read.1, ..s })
        } else {
            (Err(Error::UnimplementedRead(address)), s)
        }
    }

    open spec fn spec_write8(s: CpuBusState<C::V>, address: Address, data: u8) -> (
        Result<()>,
        CpuBusState<C::V>,
    ) {
        if address <= RAM_MIRROR_END {
            let written = NesRam::spec_write8(s.ram, address % RAM_SIZE, data);
            (written.0, CpuBusState { ram: written.1, ..s })
        } else if address <= PPU_REGISTER_MIRROR_END {
            let written = s.ppu.spec_write8::<C>(
                ((address - PPU_REGISTER_START) % (PPU_REGISTER_SIZE as int)) as u16,
                data,
                s.cartridge,
            );
            (written.0, CpuBusState { ppu: written.1, cartridge: written.2, ..s })
        } else if address >= CARTRIDGE_START {
            let written = <C as Addressable>::spec_write8(
                s.cartridge,
                (address - CARTRIDGE_START) as u16,
                data,
            );
            (written.0, CpuBusState { cartridge: written.1, ..s })
        } else {
            (Err(Error::UnimplementedWrite(address)), s)
        }
    }

    fn write8(&mut self, address: Address, data: u8) -> (r: Result<()>) {
        if address <= RAM_MIRROR_END {
            self.ram.write8(address % RAM_SIZE, data)
        } else if address <= PPU_REGISTER_MIRROR_END {
            self.ppu.write8(
                (address - PPU_REGISTER_START) % PPU_REGISTER_SIZE,
                data,
                &mut self.cartridge,
            )
        } else if address >= CARTRIDGE_START {
            self.cartridge.write8(address - CARTRIDGE_START, data)
        } else {
            Err(Error::UnimplementedWrite(address))
        }
    }

    fn read8(&mut self, address: Address) -> (r: Result<u8>) {
        if address <= RAM_MIRROR_END {
            self.ram.read8(address % RAM_SIZE)
        } else if address <= PPU_REGISTER_MIRROR_END {
            self.ppu.read8((address - PPU_REGISTER_START) % PPU_REGISTER_SIZE, &mut self.cartridge)
        } else if address >= CARTRIDGE_START {
            self.cartridge.read8(address - CARTRIDGE_START)
        } else {
            Err(Error::UnimplementedRead(address))
        }
    }
}

} // verus!
