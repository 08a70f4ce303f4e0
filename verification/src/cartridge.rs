//! What a cartridge offers to the two address spaces, zone by zone, and how
//! addresses are dispatched to the zones.

use vstd::prelude::*;
use crate::addressable;
use crate::addressable::{Address, Addressable, PpuAddressable};

verus! {

pub type Result<T> = std::result::Result<T, Error>;

// Mapper numbers
pub const NROM: usize = 0;

/// Why no cartridge can be made of an image.
#[derive(Debug, Clone, Copy, PartialEq, Eq)]
pub enum Error {
    /// The program ROM is neither one bank nor two.
    InvalidRomSize,
    /// The pattern ROM is not one bank.
    InvalidChrRomSize,
    /// The image names another mapper than the cartridge implements.
    IncorrectMapper,
    /// No cartridge is known for the mapper of this number.
    UnknownMapper(usize),
    /// The cartridge cannot arrange the nametables as the image asks.
    InvalidNametableMirroring,
}

pub const ROM_BANK_SIZE: usize = 0x4000;

pub const RAM_BANK_SIZE: usize = 0x2000;

pub const CHR_ROM_BANK_SIZE: usize = 0x2000;

// Offsets within the cartridge, as the processor sees it
pub const CARTRIDGE_START: Address = 0x6000;

pub const RAM_START: Address = 0x0000;

pub const RAM_END: Address = 0x1fff;

pub const LOWER_ROM_START: Address = 0x2000;

pub const LOWER_ROM_END: Address = 0x5fff;

pub const UPPER_ROM_START: Address = 0x6000;

pub const UPPER_ROM_END: Address = 0x9fff;

// Addresses in the picture unit's space
pub const PATTERN_TABLE_START: Address = 0x0000;

pub const PATTERN_TABLE_END: Address = 0x1fff;

pub const NAME_TABLE_START: Address = 0x2000;

pub const NAME_TABLE_END: Address = 0x2fff;

/// The zones that a cartridge offers to the processor. Each takes an offset
/// within the zone.
pub trait CpuInterface: View + Sized {
    spec fn spec_ram_read(s: Self::V, address: Address) -> (addressable::Result<u8>, Self::V);

    spec fn spec_ram_write(s: Self::V, address: Address, data: u8) -> (
        addressable::Result<()>,
        Self::V,
    );

    spec fn spec_lower_rom_read(s: Self::V, address: Address) -> (
        addressable::Result<u8>,
        Self::V,
    );

    spec fn spec_lower_rom_write(s: Self::V, address: Address, data: u8) -> (
        addressable::Result<()>,
        Self::V,
    );

    spec fn spec_upper_rom_read(s: Self::V, address: Address) -> (
        addressable::Result<u8>,
        Self::V,
    );

    spec fn spec_upper_rom_write(s: Self::V, address: Address, data: u8) -> (
        addressable::Result<()>,
        Self::V,
    );

    fn ram_read(&mut self, address: Address) -> (r: addressable::Result<u8>)
        ensures
            (r, final(self)@) == Self::spec_ram_read(old(self)@, address),
    ;

    fn ram_write(&mut self, address: Address, data: u8) -> (r: addressable::Result<()>)
        ensures
            (r, final(self)@) == Self::spec_ram_write(old(self)@, address, data),
    ;

    fn lower_rom_read(&mut self, address: Address) -> (r: addressable::Result<u8>)
        ensures
            (r, final(self)@) == Self::spec_lower_rom_read(old(self)@, address),
    ;

    fn lower_rom_write(&mut self, address: Address, data: u8) -> (r: addressable::Result<()>)
        ensures
            (r, final(self)@) == Self::spec_lower_rom_write(old(self)@, address, data),
    ;

    fn upper_rom_read(&mut self, address: Address) -> (r: addressable::Result<u8>)
        ensures
            (r, final(self)@) == Self::spec_upper_rom_read(old(self)@, address),
    ;

    fn upper_rom_write(&mut self, address: Address, data: u8) -> (r: addressable::Result<()>)
        ensures
            (r, final(self)@) == Self::spec_upper_rom_write(old(self)@, address, data),
    ;
}

/// The zones that a cartridge offers to the picture unit. Each takes an offset
/// within the zone; reads change nothing.
pub trait PpuInterface: View + Sized {
    spec fn spec_pattern_table_read(s: Self::V, address: Address) -> addressable::Result<u8>;

    spec fn spec_pattern_table_write(s: Self::V, address: Address, data: u8) -> (
        addressable::Result<()>,
        Self::V,
    );

    spec fn spec_name_table_read(s: Self::V, address: Address) -> addressable::Result<u8>;

    spec fn spec_name_table_write(s: Self::V, address: Address, data: u8) -> (
        addressable::Result<()>,
        Self::V,
    );

    fn pattern_table_read(&mut self, address: Address) -> (r: addressable::Result<u8>)
        ensures
            r == Self::spec_pattern_table_read(old(self)@, address),
            final(self)@ == old(self)@,
    ;

    fn pattern_table_write(&mut self, address: Address, data: u8) -> (r: addressable::Result<()>)
        ensures
            (r, final(self)@) == Self::spec_pattern_table_write(old(self)@, address, data),
    ;

    fn name_table_read(&mut self, address: Address) -> (r: addressable::Result<u8>)
        ensures
            r == Self::spec_name_table_read(old(self)@, address),
            final(self)@ == old(self)@,
    ;

    fn name_table_write(&mut self, address: Address, data: u8) -> (r: addressable::Result<()>)
        ensures
            (r, final(self)@) == Self::spec_name_table_write(old(self)@, address, data),
    ;
}

impl<C: CpuInterface> Addressable for C {
    /// Offsets `$0000-$1FFF` reach the program RAM, `$2000-$5FFF` the lower
    /// bank of program ROM, `$6000-$9FFF` the upper bank; every other offset is
    /// a bus error.
    open spec fn spec_read8(s: C::V, address: Address) -> (addressable::Result<u8>, C::V) {
        if address <= RAM_END {
            C::spec_ram_read(s, address)
        } else if address <= LOWER_ROM_END {
            C::spec_lower_rom_read(s, (address - LOWER_ROM_START) as u16)
        } else if address <= UPPER_ROM_END {
            C::spec_upper_rom_read(s, (address - UPPER_ROM_START) as u16)
        } else {
            (Err(addressable::Error::BusErrorRead(address)), s)
        }
    }

    open spec fn spec_write8(s: C::V, address: Address, data: u8) -> (
        addressable::Result<()>,
        C::V,
    ) {
        if address <= RAM_END {
            C::spec_ram_write(s, address, data)
        } else if address <= LOWER_ROM_END {
            C::spec_lower_rom_write(s, (address - LOWER_ROM_START) as u16, data)
        } else if address <= UPPER_ROM_END {
            C::spec_upper_rom_write(s, (address - UPPER_ROM_START) as u16, data)
        } else {
            (Err(addressable::Error::BusErrorWrite(address)), s)
        }
    }

    fn write8(&mut self, address: Address, data: u8) -> (r: addressable::Result<()>) {
        if address <= RAM_END {
            self.ram_write(address - RAM_START, data)
        } else if address <= LOWER_ROM_END {
            self.lower_rom_write(address - LOWER_ROM_START, data)
        } else if address <= UPPER_ROM_END {
            self.upper_rom_write(address - UPPER_ROM_START, data)
        } else {
            Err(addressable::Error::BusErrorWrite(address))
        }
    }

    fn read8(&mut self, address: Address) -> (r: addressable::Result<u8>) {
        if address <= RAM_END {
            self.ram_read(address - RAM_START)
        } else if address <= LOWER_ROM_END {
            self.lower_rom_read(address - LOWER_ROM_START)
        } else if address <= UPPER_ROM_END {
            self.upper_rom_read(address - UPPER_ROM_START)
        } else {
            Err(addressable::Error::BusErrorRead(address))
        }
    }
}

impl<P: PpuInterface> PpuAddressable for P {
    /// Addresses `$0000-$1FFF` reach the pattern table, `$2000-$2FFF` the
    /// nametables; every other address is a bus error.
    open spec fn spec_ppu_read8(s: P::V, address: Address) -> addressable::Result<u8> {
        if address <= PATTERN_TABLE_END {
            P::spec_pattern_table_read(s, address)
        } else if address <= NAME_TABLE_END {
            P::spec_name_table_read(s, (address - NAME_TABLE_START) as u16)
        } else {
            Err(addressable::Error::BusErrorRead(address))
        }
    }

    open spec fn spec_ppu_write8(s: P::V, address: Address, data: u8) -> (
        addressable::Result<()>,
        P::V,
    ) {
        if address <= PATTERN_TABLE_END {
            P::spec_pattern_table_write(s, address, data)
        } else if address <= NAME_TABLE_END {
            P::spec_name_table_write(s, (address - NAME_TABLE_START) as u16, data)
        } else {
            (Err(addressable::Error::BusErrorWrite(address)), s)
        }
    }

    fn ppu_read8(&mut self, address: Address) -> (r: addressable::Result<u8>) {
        if address <= PATTERN_TABLE_END {
            self.pattern_table_read(address - PATTERN_TABLE_START)
        } else if address <= NAME_TABLE_END {
            self.name_table_read(address - NAME_TABLE_START)
        } else {
            Err(addressable::Error::BusErrorRead(address))
        }
    }

    fn ppu_write8(&mut self, address: Address, data: u8) -> (r: addressable::Result<()>) {
        if address <= PATTERN_TABLE_END {
            self.pattern_table_write(address - PATTERN_TABLE_START, data)
        } else if address <= NAME_TABLE_END {
            self.name_table_write(address - NAME_TABLE_START, data)
        } else {
            Err(addressable::Error::BusErrorWrite(address))
        }
    }
}

} // verus!
