//! The NROM cartridge (mapper 0): 32 KiB of program ROM, 8 KiB of program
//! RAM, 8 KiB of pattern ROM and 2 KiB of nametable RAM behind a fixed
//! mirroring.

use vstd::prelude::*;
use vstd::slice::slice_to_vec;
use crate::addressable;
use crate::addressable::{Address, CartridgeAddressable, PpuAddressable};
use crate::cartridge;
use crate::cartridge::{CpuInterface, PpuInterface, CHR_ROM_BANK_SIZE, RAM_BANK_SIZE, ROM_BANK_SIZE};
use crate::image::{NesImage, NesImageView, VideoArrangement};
use crate::mirror::{HorizontalMirror, Mirror, VerticalMirror};
use crate::ram::{zeroed, zeroed_bytes};
use crate::vram::{NesVram, NES_VRAM_NUM_BYTES};

verus! {

/// What the processor sees of the cartridge.
pub struct NromCpuInterface {
    rom: Vec<u8>,
    ram: Vec<u8>,
}

/// What the picture unit sees of the cartridge.
pub struct NromPpuInterface<M: Mirror> {
    internal_ram: NesVram,
    mirror: M,
    rom: Vec<u8>,
}

/// An NROM cartridge whose nametables are mirrored as `M` says.
pub struct NromCartridgeWithMirror<M: Mirror> {
    cpu_interface: NromCpuInterface,
    ppu_interface: NromPpuInterface<M>,
}

/// The memories of an NROM cartridge.
pub struct NromState {
    /// The 32 KiB of program ROM: the lower bank, then the upper bank.
    pub prg_rom: Seq<u8>,
    /// The 8 KiB of program RAM.
    pub prg_ram: Seq<u8>,
    /// The 8 KiB of pattern ROM.
    pub chr_rom: Seq<u8>,
    /// The 2 KiB of nametable RAM.
    pub nametable: Seq<u8>,
}

impl NromState {
    /// Each memory has its size.
    pub open spec fn wf(self) -> bool {
        &&& self.prg_rom.len() == 2 * ROM_BANK_SIZE
        &&& self.prg_ram.len() == RAM_BANK_SIZE
        &&& self.chr_rom.len() == CHR_ROM_BANK_SIZE
        &&& self.nametable.len() == NES_VRAM_NUM_BYTES
    }
}

impl<M: Mirror> View for NromCartridgeWithMirror<M> {
    type V = NromState;

    closed spec fn view(&self) -> NromState {
        NromState {
            prg_rom: self.cpu_interface.rom@,
            prg_ram: self.cpu_interface.ram@,
            chr_rom: self.ppu_interface.rom@,
            nametable: self.ppu_interface.internal_ram@,
        }
    }
}

impl<M: Mirror> CartridgeAddressable for NromCartridgeWithMirror<M> {

}

/// An NROM cartridge with the mirroring that its image asks for.
pub enum NromCartridge {
    HorizontalMirroring(NromCartridgeWithMirror<HorizontalMirror>),
    VerticalMirroring(NromCartridgeWithMirror<VerticalMirror>),
}

/// The memories of the NROM cartridge that `image` describes: an image with
/// one bank of program ROM has it in both halves of the cartridge's ROM, the
/// two RAMs start out zero.
pub open spec fn spec_nrom_state(image: NesImageView) -> cartridge::Result<NromState> {
    if image.header.mapper_number != cartridge::NROM {
        Err(cartridge::Error::IncorrectMapper)
    } else if image.header.prg_rom_size != 1 && image.header.prg_rom_size != 2 {
        Err(cartridge::Error::InvalidRomSize)
    } else if image.header.chr_rom_size != 1 {
        Err(cartridge::Error::InvalidChrRomSize)
    } else {
        Ok(
            NromState {
                prg_rom: if image.header.prg_rom_size == 1 {
                    image.prg_rom + image.prg_rom
                } else {
                    image.prg_rom
                },
                prg_ram: zeroed(RAM_BANK_SIZE as nat),
                chr_rom: image.chr_rom,
                nametable: zeroed(NES_VRAM_NUM_BYTES as nat),
            },
        )
    }
}

/// Which cartridge `NromCartridge::new` makes of `image`.
pub open spec fn spec_nrom_cartridge(image: NesImageView) -> cartridge::Result<
    (VideoArrangement, NromState),
> {
    match image.header.video_arrangement {
        VideoArrangement::FourScreenVram => Err(cartridge::Error::InvalidNametableMirroring),
        arrangement => match spec_nrom_state(image) {
            Ok(state) => Ok((arrangement, state)),
            Err(e) => Err(e),
        },
    }
}

impl NromCartridge {
    /// The arrangement of the nametables.
    pub open spec fn arrangement(&self) -> VideoArrangement {
        match self {
            NromCartridge::HorizontalMirroring(_) => VideoArrangement::HorizontalMirroring,
            NromCartridge::VerticalMirroring(_) => VideoArrangement::VerticalMirroring,
        }
    }

    /// The memories of the cartridge.
    pub open spec fn state(&self) -> NromState {
        match self {
            NromCartridge::HorizontalMirroring(c) => c@,
            NromCartridge::VerticalMirroring(c) => c@,
        }
    }

    /// Makes the cartridge of an image. Four-screen images are refused.
    pub fn new(image: &NesImage) -> (r: cartridge::Result<Self>)
        requires
            image@.wf(),
        ensures
            match r {
                Ok(c) => spec_nrom_cartridge(image@) == Ok::<
                    (VideoArrangement, NromState),
                    cartridge::Error,
                >((c.arrangement(), c.state())) && c.state().wf(),
                Err(e) => spec_nrom_cartridge(image@) == Err::<
                    (VideoArrangement, NromState),
                    cartridge::Error,
                >(e),
            },
    {
        match image.header.video_arrangement {
            VideoArrangement::HorizontalMirroring => {
                Ok(
                    NromCartridge::HorizontalMirroring(
                        NromCartridgeWithMirror::new(image, HorizontalMirror)?,
                    ),
                )
            },
            VideoArrangement::VerticalMirroring => {
                Ok(
                    NromCartridge::VerticalMirroring(
                        NromCartridgeWithMirror::new(image, VerticalMirror)?,
                    ),
                )
            },
            _ => Err(cartridge::Error::InvalidNametableMirroring),
        }
    }
}

/// Which cartridge fits `image`: the mapper number selects the kind of
/// cartridge, and only NROM is known.
pub open spec fn spec_make_cartridge(image: NesImageView) -> cartridge::Result<
    (VideoArrangement, NromState),
> {
    if image.header.mapper_number == cartridge::NROM {
        spec_nrom_cartridge(image)
    } else {
        Err(cartridge::Error::UnknownMapper(image.header.mapper_number))
    }
}

/// Makes the cartridge that the mapper number of `image` asks for.
pub fn make_cartridge(image: &NesImage) -> (r: cartridge::Result<NromCartridge>)
    requires
        image@.wf(),
    ensures
        match r {
            Ok(c) => spec_make_cartridge(image@) == Ok::<
                (VideoArrangement, NromState),
                cartridge::Error,
            >((c.arrangement(), c.state())) && c.state().wf(),
            Err(e) => spec_make_cartridge(image@) == Err::<
                (VideoArrangement, NromState),
                cartridge::Error,
            >(e),
        },
{
    match image.header.mapper_number {
        cartridge::NROM => NromCartridge::new(image),
        other => Err(cartridge::Error::UnknownMapper(other)),
    }
}

/// Appends the bytes of `source` to `target`.
fn append_bytes(target: &mut Vec<u8>, source: &[u8])
    ensures
        final(target)@ == old(target)@ + source@,
{
    let mut i: usize = 0;
    while i < source.len()
        invariant
            i <= source.len(),
            target@ == old(target)@ + source@.subrange(0, i as int),
        decreases source.len() - i,
    {
        target.push(source[i]);
        i += 1;
        assert(target@ =~= old(target)@ + source@.subrange(0, i as int));
    }
    assert(source@.subrange(0, i as int) =~= source@);
}

impl<M: Mirror> NromCartridgeWithMirror<M> {
    /// Makes the cartridge of an image, with the mirroring `mirror`.
    pub fn new(image: &NesImage, mirror: M) -> (r: cartridge::Result<Self>)
        requires
            image@.wf(),
        ensures
            match r {
                Ok(c) => spec_nrom_state(image@) == Ok::<NromState, cartridge::Error>(c@)
                    && c@.wf(),
                Err(e) => spec_nrom_state(image@) == Err::<NromState, cartridge::Error>(e),
            },
    {
        if image.header.mapper_number != cartridge::NROM {
            return Err(cartridge::Error::IncorrectMapper);
        }
        let rom = if image.header.prg_rom_size == 1 {
            let mut bank = Vec::new();
            append_bytes(&mut bank, &image.prg_rom[0..ROM_BANK_SIZE]);
            append_bytes(&mut bank, &image.prg_rom[0..ROM_BANK_SIZE]);
            assert(bank@ =~= image@.prg_rom + image@.prg_rom);
            bank
        } else if image.header.prg_rom_size == 2 {
            let banks = slice_to_vec(&image.prg_rom[0..ROM_BANK_SIZE * 2]);
            assert(banks@ =~= image@.prg_rom);
            banks
        } else {
            return Err(cartridge::Error::InvalidRomSize);
        };
        let ram = zeroed_bytes(RAM_BANK_SIZE);
        let chr_rom = if image.header.chr_rom_size == 1 {
            let bank = slice_to_vec(&image.chr_rom[0..CHR_ROM_BANK_SIZE]);
            assert(bank@ =~= image@.chr_rom);
            bank
        } else {
            return Err(cartridge::Error::InvalidChrRomSize);
        };
        Ok(
            NromCartridgeWithMirror {
                cpu_interface: NromCpuInterface { rom, ram },
                ppu_interface: NromPpuInterface { internal_ram: NesVram::new(), mirror, rom: chr_rom },
            },
        )
    }
}

impl<M: Mirror> CpuInterface for NromCartridgeWithMirror<M> {
    /// The program RAM serves the offsets within it.
    open spec fn spec_ram_read(s: NromState, address: Address) -> (
        addressable::Result<u8>,
        NromState,
    ) {
        if address < s.prg_ram.len() {
            (Ok(s.prg_ram[address as int]), s)
        } else {
            (Err(addressable::Error::BusErrorRead(address)), s)
        }
    }

    open spec fn spec_ram_write(s: NromState, address: Address, data: u8) -> (
        addressable::Result<()>,
        NromState,
    ) {
        if address < s.prg_ram.len() {
            (Ok(()), NromState { prg_ram: s.prg_ram.update(address as int, data), ..s })
        } else {
            (Err(addressable::Error::BusErrorWrite(address)), s)
        }
    }

    /// The lower bank is the first 16 KiB of the program ROM; an offset
    /// beyond the bank is a bus error.
    open spec fn spec_lower_rom_read(s: NromState, address: Address) -> (
        addressable::Result<u8>,
        NromState,
    ) {
        if address < ROM_BANK_SIZE && address < s.prg_rom.len() {
            (Ok(s.prg_rom[address as int]), s)
        } else {
            (Err(addressable::Error::BusErrorRead(address)), s)
        }
    }

    /// ROM cannot be written.
    open spec fn spec_lower_rom_write(s: NromState, address: Address, data: u8) -> (
        addressable::Result<()>,
        NromState,
    ) {
        (Err(addressable::Error::IllegalWrite(address)), s)
    }

    /// The upper bank is the second 16 KiB of the program ROM; an offset
    /// beyond the bank is a bus error.
    open spec fn spec_upper_rom_read(s: NromState, address: Address) -> (
        addressable::Result<u8>,
        NromState,
    ) {
        if address < ROM_BANK_SIZE && address + ROM_BANK_SIZE < s.prg_rom.len() {
            (Ok(s.prg_rom[address + ROM_BANK_SIZE]), s)
        } else {
            (Err(addressable::Error::BusErrorRead(address)), s)
        }
    }

    /// ROM cannot be written.
    open spec fn spec_upper_rom_write(s: NromState, address: Address, data: u8) -> (
        addressable::Result<()>,
        NromState,
    ) {
        (Err(addressable::Error::IllegalWrite(address)), s)
    }

    fn ram_read(&mut self, address: Address) -> (r: addressable::Result<u8>) {
        if (address as usize) < self.cpu_interface.ram.len() {
            Ok(self.cpu_interface.ram[address as usize])
        } else {
            Err(addressable::Error::BusErrorRead(address))
        }
    }

    fn ram_write(&mut self, address: Address, data: u8) -> (r: addressable::Result<()>) {
        if (address as usize) < self.cpu_interface.ram.len() {
            self.cpu_interface.ram[address as usize] = data;
            Ok(())
        } else {
            Err(addressable::Error::BusErrorWrite(address))
        }
    }

    fn lower_rom_read(&mut self, address: Address) -> (r: addressable::Result<u8>) {
        if (address as usize) < ROM_BANK_SIZE && (address as usize) < self.cpu_interface.rom.len() {
            Ok(self.cpu_interface.rom[address as usize])
        } else {
            Err(addressable::Error::BusErrorRead(address))
        }
    }

    fn lower_rom_write(&mut self, address: Address, _data: u8) -> (r: addressable::Result<()>) {
        Err(addressable::Error::IllegalWrite(address))
    }

    fn upper_rom_read(&mut self, address: Address) -> (r: addressable::Result<u8>) {
        if (address as usize) < ROM_BANK_SIZE && address as usize + ROM_BANK_SIZE
            < self.cpu_interface.rom.len() {
            Ok(self.cpu_interface.rom[address as usize + ROM_BANK_SIZE])
        } else {
            Err(addressable::Error::BusErrorRead(address))
        }
    }

    fn upper_rom_write(&mut self, address: Address, _data: u8) -> (r: addressable::Result<()>) {
        Err(addressable::Error::IllegalWrite(address))
    }
}

impl<M: Mirror> PpuInterface for NromCartridgeWithMirror<M> {
    /// The pattern table is the pattern ROM.
    open spec fn spec_pattern_table_read(s: NromState, address: Address) -> addressable::Result<
        u8,
    > {
        if address < s.chr_rom.len() {
            Ok(s.chr_rom[address as int])
        } else {
            Err(addressable::Error::BusErrorRead(address))
        }
    }

    /// ROM cannot be written.
    open spec fn spec_pattern_table_write(s: NromState, address: Address, data: u8) -> (
        addressable::Result<()>,
        NromState,
    ) {
        (Err(addressable::Error::IllegalWrite(address)), s)
    }

    /// A nametable offset is folded by the mirroring and served by the
    /// nametable RAM.
    open spec fn spec_name_table_read(s: NromState, address: Address) -> addressable::Result<
        u8,
    > {
        NesVram::spec_ppu_read8(s.nametable, M::spec_mirror(address))
    }

    open spec fn spec_name_table_write(s: NromState, address: Address, data: u8) -> (
        addressable::Result<()>,
        NromState,
    ) {
        let written = NesVram::spec_ppu_write8(s.nametable, M::spec_mirror(address), data);
        (written.0, NromState { nametable: written.1, ..s })
    }

    fn pattern_table_read(&mut self, address: Address) -> (r: addressable::Result<u8>) {
        if (address as usize) < self.ppu_interface.rom.len() {
            Ok(self.ppu_interface.rom[address as usize])
        } else {
            Err(addressable::Error::BusErrorRead(address))
        }
    }

    fn pattern_table_write(&mut self, address: Address, _data: u8) -> (r: addressable::Result<
        (),
    >) {
        Err(addressable::Error::IllegalWrite(address))
    }

    fn name_table_read(&mut self, address: Address) -> (r: addressable::Result<u8>) {
        self.ppu_interface.internal_ram.ppu_read8(M::mirror(address))
    }

    fn name_table_write(&mut self, address: Address, data: u8) -> (r: addressable::Result<()>) {
        self.ppu_interface.internal_ram.ppu_write8(M::mirror(address), data)
    }
}

} // verus!
