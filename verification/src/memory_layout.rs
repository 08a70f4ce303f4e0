//! The processor's address space: work RAM and its mirrors, the registers of
//! the picture unit and their mirrors, the I/O bank with the sprite DMA, and
//! the cartridge.

use vstd::prelude::*;
use crate::addressable::{Address, AddressDiff, Addressable, CartridgeAddressable, Error, Result};
use crate::io::{Io, IoState};
use crate::palette::Palette;
use crate::ppu::{Ppu, PpuState};
use crate::ppu_memory_layout::{NesPpuMemoryLayout, PpuBusState};
use crate::ram::NesRam;

verus! {

pub const RAM_START: Address = 0x0000;

pub const RAM_END: Address = 0x07ff;

pub const RAM_MIRROR_END: Address = 0x1fff;

pub const RAM_SIZE: AddressDiff = 0x0800;

pub const PPU_REGISTER_START: Address = 0x2000;

pub const PPU_REGISTER_END: Address = 0x2007;

pub const PPU_REGISTER_MIRROR_START: Address = 0x2008;

pub const PPU_REGISTER_MIRROR_END: Address = 0x3fff;

pub const PPU_REGISTER_SIZE: AddressDiff = 8;

pub const IO_PORTS_START: Address = 0x4000;

pub const IO_PORTS_END: Address = 0x401f;

pub const EXPANSION_ROM_START: Address = 0x4020;

pub const EXPANSION_ROM_END: Address = 0x5fff;

pub const CARTRIDGE_START: Address = 0x6000;

pub const CARTRIDGE_END: Address = 0xffff;

pub const IO_REGISTER_START: Address = 0x4000;

pub const IO_REGISTER_END: Address = 0x401f;

pub const PPU_OAM_DMA: Address = 0x4014;

/// The number of bytes that one sprite DMA moves.
pub const OAM_DMA_NUM_BYTES: AddressDiff = 0x100;

/// The processor's bus, with what it dispatches to. The cartridge and the
/// palette are held by the picture unit's bus, through which the picture unit
/// reaches them.
pub struct MemoryLayout<C: CartridgeAddressable> {
    pub ppu_memory: NesPpuMemoryLayout<C>,
    pub ppu: Ppu,
    pub io: Io,
    pub ram: NesRam,
}

/// What is reachable in the processor's address space.
pub struct BusState<S> {
    /// The 2 KiB of work RAM.
    pub ram: Seq<u8>,
    pub ppu: PpuState,
    pub io: IoState,
    /// The cartridge and the palette.
    pub ppu_memory: PpuBusState<S>,
}

impl<S> BusState<S> {
    /// This with the cartridge in state `cartridge`.
    pub open spec fn with_cartridge(self, cartridge: S) -> Self {
        BusState { ppu_memory: PpuBusState { cartridge, ..self.ppu_memory }, ..self }
    }
}

impl<C: CartridgeAddressable> View for MemoryLayout<C> {
    type V = BusState<C::V>;

    open spec fn view(&self) -> BusState<C::V> {
        BusState { ram: self.ram@, ppu: self.ppu@, io: self.io@, ppu_memory: self.ppu_memory@ }
    }
}

impl<C: CartridgeAddressable> MemoryLayout<C> {
    pub fn new(cartridge: C, ppu: Ppu, io: Io, ram: NesRam, palette: Palette) -> (r: Self)
        ensures
            r.ppu_memory.cartridge == cartridge,
            r.ppu_memory.palette == palette,
            r.ppu == ppu,
            r.io == io,
            r.ram == ram,
    {
        MemoryLayout { ppu_memory: NesPpuMemoryLayout::new(cartridge, palette), ppu, io, ram }
    }

    /// The picture unit's bus.
    pub fn ppu_memory_layout(&mut self) -> (r: &mut NesPpuMemoryLayout<C>)
        ensures
            *r == old(self).ppu_memory,
            *final(self) == (MemoryLayout { ppu_memory: *final(r), ..*old(self) }),
    {
        &mut self.ppu_memory
    }

    /// The sprite DMA from byte `index` of page `page` on: each byte is read
    /// through this bus and written to the sprite memory at its cursor, which
    /// moves on. The first refusal ends the transfer.
    pub open spec fn spec_oam_dma(s: BusState<C::V>, page: u8, index: int) -> (
        Result<()>,
        BusState<C::V>,
    )
        decreases OAM_DMA_NUM_BYTES - index,
    {
        if index >= OAM_DMA_NUM_BYTES || index < 0 {
            (Ok(()), s)
        } else {
            let read = Self::spec_bus_read8(s, (page * 0x100 + index) as u16);
            match read.0 {
                Err(e) => (Err(e), read.1),
                Ok(data) => Self::spec_oam_dma(
                    BusState { ppu: read.1.ppu.spec_oam_data_write(data), ..read.1 },
                    page,
                    index + 1,
                ),
            }
        }
    }

    /// A read on the bus.
    ///
    /// | address | served by |
    /// |---|---|
    /// | `$0000-$1FFF` | work RAM, at the address modulo `$0800` |
    /// | `$2000-$3FFF` | the picture unit's register of number `(address - $2000) mod 8` |
    /// | `$4000-$401F` | the I/O bank, at `address - $4000` |
    /// | `$6000-$FFFF` | the cartridge, at `address - $6000` |
    ///
    /// Every other address is refused as unimplemented.
    pub open spec fn spec_bus_read8(s: BusState<C::V>, address: Address) -> (
        Result<u8>,
        BusState<C::V>,
    ) {
        if address <= RAM_MIRROR_END {
            let read = NesRam::spec_read8(s.ram, address % RAM_SIZE);
            (read.0, BusState { ram: read.1, ..s })
        } else if address <= PPU_REGISTER_MIRROR_END {
            let read = s.ppu.spec_read8::<NesPpuMemoryLayout<C>>(
                ((address - PPU_REGISTER_START) % (PPU_REGISTER_SIZE as int)) as u16,
                s.ppu_memory,
            );
            (read.0, BusState { ppu: read.1, ..s })
        } else if address <= IO_REGISTER_END {
            let read = Io::spec_read8(s.io, (address - IO_REGISTER_START) as u16);
            (read.0, BusState { io: read.1, ..s })
        } else if address >= CARTRIDGE_START {
            let read = <C as Addressable>::spec_read8(
                s.ppu_memory.cartridge,
                (address - CARTRIDGE_START) as u16,
            );
            (read.0, s.with_cartridge(read.1))
        } else {
            (Err(Error::UnimplementedRead(address)), s)
        }
    }

    /// A write on the bus. A write to `$4014` starts the sprite DMA from the
    /// page that the byte names; every other address is served as for a read.
    pub open spec fn spec_bus_write8(s: BusState<C::V>, address: Address, data: u8) -> (
        Result<()>,
        BusState<C::V>,
    ) {
        if address == PPU_OAM_DMA {
            Self::spec_oam_dma(s, data, 0)
        } else if address <= RAM_MIRROR_END {
            let written = NesRam::spec_write8(s.ram, address % RAM_SIZE, data);
            (written.0, BusState { ram: written.1, ..s })
        } else if address <= PPU_REGISTER_MIRROR_END {
            let written = s.ppu.spec_write8::<NesPpuMemoryLayout<C>>(
                ((address - PPU_REGISTER_START) % (PPU_REGISTER_SIZE as int)) as u16,
                data,
                s.ppu_memory,
            );
            (written.0, BusState { ppu: written.1, ppu_memory: written.2, ..s })
        } else if address <= IO_REGISTER_END {
            let written = Io::spec_write8(s.io, (address - IO_REGISTER_START) as u16, data);
            (written.0, BusState { io: written.1, ..s })
        } else if address >= CARTRIDGE_START {
            let written = <C as Addressable>::spec_write8(
                s.ppu_memory.cartridge,
                (address - CARTRIDGE_START) as u16,
                data,
            );
            (written.0, s.with_cartridge(written.1))
        } else {
            (Err(Error::UnimplementedWrite(address)), s)
        }
    }

    fn ppu_oam_dma(&mut self, page: u8) -> (r: Result<()>)
        ensures
            (r, final(self)@) == Self::spec_oam_dma(old(self)@, page, 0),
    {
        let mut index: AddressDiff = 0;
        while index < OAM_DMA_NUM_BYTES
            invariant
                index <= OAM_DMA_NUM_BYTES,
                Self::spec_oam_dma(self@, page, index as int) == Self::spec_oam_dma(
                    old(self)@,
                    page,
                    0,
                ),
            decreases OAM_DMA_NUM_BYTES - index,
        {
            let data = self.read8((page as u16) * 0x100 + index)?;
            self.ppu.oam_data_write(data);
            index += 1;
        }
        Ok(())
    }
}

impl<C: CartridgeAddressable> Addressable for MemoryLayout<C> {
    open spec fn spec_read8(s: BusState<C::V>, address: Address) -> (Result<u8>, BusState<C::V>) {
        Self::spec_bus_read8(s, address)
    }

    open spec fn spec_write8(s: BusState<C::V>, address: Address, data: u8) -> (
        Result<()>,
        BusState<C::V>,
    ) {
        Self::spec_bus_write8(s, address, data)
    }

    fn write8(&mut self, address: Address, data: u8) -> (r: Result<()>) {
        if address == PPU_OAM_DMA {
            return self.ppu_oam_dma(data);
        }
        if address <= RAM_MIRROR_END {
            self.ram.write8(address % RAM_SIZE, data)
        } else if address <= PPU_REGISTER_MIRROR_END {
            self.ppu.write8(
                (address - PPU_REGISTER_START) % PPU_REGISTER_SIZE,
                data,
                &mut self.ppu_memory,
            )
        } else if address <= IO_REGISTER_END {
            self.io.write8(address - IO_REGISTER_START, data)
        } else if address >= CARTRIDGE_START {
            self.ppu_memory.cartridge.write8(address - CARTRIDGE_START, data)
        } else {
            Err(Error::UnimplementedWrite(address))
        }
    }

    fn read8(&mut self, address: Address) -> (r: Result<u8>) {
        if address <= RAM_MIRROR_END {
            self.ram.read8(address % RAM_SIZE)
        } else if address <= PPU_REGISTER_MIRROR_END {
            self.ppu.read8((address - PPU_REGISTER_START) % PPU_REGISTER_SIZE, &mut self.ppu_memory)
        } else if address <= IO_REGISTER_END {
            self.io.read8(address - IO_REGISTER_START)
        } else if address >= CARTRIDGE_START {
            self.ppu_memory.cartridge.read8(address - CARTRIDGE_START)
        } else {
            Err(Error::UnimplementedRead(address))
        }
    }
}

} // verus!
