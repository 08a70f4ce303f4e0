//! The picture unit's address space: pattern tables and nametables on the
//! cartridge, the mirror of the nametables, and the palette with its mirrors.

use vstd::prelude::*;
use crate::addressable::{Address, AddressDiff, Error, PpuAddressable, Result};
use crate::palette::Palette;

verus! {

pub const CARTRIDGE_START: Address = 0x0000;

pub const CARTRIDGE_END: Address = 0x2fff;

pub const NAME_TABLE_MIRROR_START: Address = 0x3000;

pub const NAME_TABLE_MIRROR_END: Address = 0x3eff;

pub const PALETTE_START: Address = 0x3f00;

pub const PALETTE_END: Address = 0x3f1f;

pub const PALETTE_MIRROR_START: Address = 0x3f20;

pub const PALETTE_MIRROR_END: Address = 0x3fff;

pub const NAME_TABLE_MIRROR_OFFSET: AddressDiff = 0x1000;

pub const PALETTE_SIZE: AddressDiff = 0x20;

/// The picture unit's bus, with what it dispatches to.
pub struct NesPpuMemoryLayout<C: PpuAddressable> {
    pub cartridge: C,
    pub palette: Palette,
}

/// What is reachable in the picture unit's address space.
pub struct PpuBusState<S> {
    pub cartridge: S,
    /// The 32 bytes of the palette.
    pub palette: Seq<u8>,
}

impl<C: PpuAddressable> View for NesPpuMemoryLayout<C> {
    type V = PpuBusState<C::V>;

    open spec fn view(&self) -> PpuBusState<C::V> {
        PpuBusState { cartridge: self.cartridge@, palette: self.palette@ }
    }
}

impl<C: PpuAddressable> NesPpuMemoryLayout<C> {
    pub fn new(cartridge: C, palette: Palette) -> (r: Self)
        ensures
            r.cartridge == cartridge,
            r.palette == palette,
    {
        NesPpuMemoryLayout { cartridge, palette }
    }
}

/// The offset in the palette that serves the palette address `address`.
pub open spec fn palette_offset(address: Address) -> Address {
    ((address - PALETTE_START) % (PALETTE_SIZE as int)) as u16
}

impl<C: PpuAddressable> PpuAddressable for NesPpuMemoryLayout<C> {
    /// | address | served by |
    /// |---|---|
    /// | `$0000-$2FFF` | the cartridge, at the same address |
    /// | `$3000-$3EFF` | the cartridge, `$1000` lower |
    /// | `$3F00-$3FFF` | the palette, at the offset modulo 32 |
    ///
    /// Every other address is a bus error.
    open spec fn spec_ppu_read8(s: PpuBusState<C::V>, address: Address) -> Result<u8> {
        if address <= CARTRIDGE_END {
            C::spec_ppu_read8(s.cartridge, address)
        } else if address <= NAME_TABLE_MIRROR_END {
            C::spec_ppu_read8(s.cartridge, (address - NAME_TABLE_MIRROR_OFFSET) as u16)
        } else if address <= PALETTE_MIRROR_END {
            Palette::spec_ppu_read8(s.palette, palette_offset(address))
        } else {
            Err(Error::BusErrorRead(address))
        }
    }

    open spec fn spec_ppu_write8(s: PpuBusState<C::V>, address: Address, data: u8) -> (
        Result<()>,
        PpuBusState<C::V>,
    ) {
        if address <= CARTRIDGE_END {
            let written = C::spec_ppu_write8(s.cartridge, address, data);
            (written.0, PpuBusState { cartridge: written.1, ..s })
        } else if address <= NAME_TABLE_MIRROR_END {
            let written = C::spec_ppu_write8(
                s.cartridge,
                (address - NAME_TABLE_MIRROR_OFFSET) as u16,
                data,
            );
            (written.0, PpuBusState { cartridge: written.1, ..s })
        } else if address <= PALETTE_MIRROR_END {
            let written = Palette::spec_ppu_write8(s.palette, palette_offset(address), data);
            (written.0, PpuBusState { palette: written.1, ..s })
        } else {
            (Err(Error::BusErrorWrite(address)), s)
        }
    }

    fn ppu_read8(&mut self, address: Address) -> (r: Result<u8>) {
        if address <= CARTRIDGE_END {
            self.cartridge.ppu_read8(address)
        } else if address <= NAME_TABLE_MIRROR_END {
            self.cartridge.ppu_read8(address - NAME_TABLE_MIRROR_OFFSET)
        } else if address <= PALETTE_MIRROR_END {
            self.palette.ppu_read8((address - PALETTE_START) % PALETTE_SIZE)
        } else {
            Err(Error::BusErrorRead(address))
        }
    }

    fn ppu_write8(&mut self, address: Address, data: u8) -> (r: Result<()>) {
        if address <= CARTRIDGE_END {
            self.cartridge.ppu_write8(address, data)
        } else if address <= NAME_TABLE_MIRROR_END {
            self.cartridge.ppu_write8(address - NAME_TABLE_MIRROR_OFFSET, data)
        } else if address <= PALETTE_MIRROR_END {
            self.palette.ppu_write8((address - PALETTE_START) % PALETTE_SIZE, data)
        } else {
            Err(Error::BusErrorWrite(address))
        }
    }
}

} // verus!
