use nes_emulator::addressable::Error as BusError;
use nes_emulator::addressable::{Addressable, PpuAddressable};
use nes_emulator::cartridge::{CpuInterface, Error, PpuInterface};
use nes_emulator::image::{NesHeader, NesImage, TvSystem, VideoArrangement};
use nes_emulator::mirror::{HorizontalMirror, Mirror, VerticalMirror};
use nes_emulator::nrom_cartridge::{make_cartridge, NromCartridge, NromCartridgeWithMirror};

fn image(prg_banks: usize, chr_banks: usize, mapper: usize, arrangement: VideoArrangement) -> NesImage {
    NesImage {
        header: NesHeader {
            prg_rom_size: prg_banks,
            chr_rom_size: chr_banks,
            prg_ram_size: None,
            trainer_present: false,
            vs_unisystem_present: false,
            playchoice_present: false,
            nes2_format: false,
            mapper_number: mapper,
            video_arrangement: arrangement,
            tv_system: TvSystem::Ntsc,
        },
        trainer: None,
        prg_rom: (0..prg_banks * 0x4000).map(|i| (i % 253) as u8).collect(),
        chr_rom: (0..chr_banks * 0x2000).map(|i| (i % 241) as u8).collect(),
        playchoice_inst_rom: None,
        playchoice_prom: None,
        extra: Vec::new(),
    }
}

fn vertical() -> NromCartridgeWithMirror<VerticalMirror> {
    NromCartridgeWithMirror::new(&image(2, 1, 0, VideoArrangement::VerticalMirroring), VerticalMirror)
        .unwrap()
}

fn horizontal() -> NromCartridgeWithMirror<HorizontalMirror> {
    NromCartridgeWithMirror::new(
        &image(1, 1, 0, VideoArrangement::HorizontalMirroring),
        HorizontalMirror,
    )
    .unwrap()
}

#[test]
fn mirrors_fold_addresses() {
    assert_eq!(HorizontalMirror::mirror(0x0000), 0x0000);
    assert_eq!(HorizontalMirror::mirror(0x0001), 0x0000);
    assert_eq!(HorizontalMirror::mirror(0x0400), 0x0200);
    assert_eq!(HorizontalMirror::mirror(0x0fff), 0x07ff);
    assert_eq!(VerticalMirror::mirror(0x0000), 0x0000);
    assert_eq!(VerticalMirror::mirror(0x07ff), 0x07ff);
    assert_eq!(VerticalMirror::mirror(0x0800), 0x0000);
    assert_eq!(VerticalMirror::mirror(0x0fff), 0x07ff);
}

#[test]
fn construction_errors() {
    assert_eq!(
        NromCartridgeWithMirror::new(&image(1, 1, 1, VideoArrangement::VerticalMirroring), VerticalMirror).err(),
        Some(Error::IncorrectMapper)
    );
    assert_eq!(
        NromCartridgeWithMirror::new(&image(0, 1, 0, VideoArrangement::VerticalMirroring), VerticalMirror).err(),
        Some(Error::InvalidRomSize)
    );
    assert_eq!(
        NromCartridgeWithMirror::new(&image(3, 1, 0, VideoArrangement::VerticalMirroring), VerticalMirror).err(),
        Some(Error::InvalidRomSize)
    );
    assert_eq!(
        NromCartridgeWithMirror::new(&image(1, 0, 0, VideoArrangement::VerticalMirroring), VerticalMirror).err(),
        Some(Error::InvalidChrRomSize)
    );
    assert_eq!(
        NromCartridgeWithMirror::new(&image(2, 2, 0, VideoArrangement::VerticalMirroring), VerticalMirror).err(),
        Some(Error::InvalidChrRomSize)
    );
    assert_eq!(
        NromCartridgeWithMirror::new(&image(3, 2, 7, VideoArrangement::VerticalMirroring), VerticalMirror).err(),
        Some(Error::IncorrectMapper)
    );
}

#[test]
fn arrangement_selects_the_mirroring() {
    assert!(matches!(
        NromCartridge::new(&image(1, 1, 0, VideoArrangement::HorizontalMirroring)),
        Ok(NromCartridge::HorizontalMirroring(_))
    ));
    assert!(matches!(
        NromCartridge::new(&image(1, 1, 0, VideoArrangement::VerticalMirroring)),
        Ok(NromCartridge::VerticalMirroring(_))
    ));
    assert!(matches!(
        NromCartridge::new(&image(1, 1, 0, VideoArrangement::FourScreenVram)),
        Err(Error::InvalidNametableMirroring)
    ));
    assert!(matches!(
        NromCartridge::new(&image(3, 1, 0, VideoArrangement::FourScreenVram)),
        Err(Error::InvalidNametableMirroring)
    ));
    assert!(matches!(
        NromCartridge::new(&image(3, 1, 0, VideoArrangement::VerticalMirroring)),
        Err(Error::InvalidRomSize)
    ));
}

#[test]
fn mapper_number_selects_the_cartridge() {
    assert!(matches!(
        make_cartridge(&image(1, 1, 0, VideoArrangement::VerticalMirroring)),
        Ok(NromCartridge::VerticalMirroring(_))
    ));
    assert!(matches!(
        make_cartridge(&image(1, 1, 4, VideoArrangement::VerticalMirroring)),
        Err(Error::UnknownMapper(4))
    ));
    assert!(matches!(
        make_cartridge(&image(1, 1, 0, VideoArrangement::FourScreenVram)),
        Err(Error::InvalidNametableMirroring)
    ));
}

#[test]
fn one_bank_fills_both_halves() {
    let mut cartridge = horizontal();
    for offset in [0x0000u16, 0x0001, 0x1234, 0x3fff] {
        let expected = (offset as usize % 253) as u8;
        assert_eq!(cartridge.read8(0x2000 + offset), Ok(expected));
        assert_eq!(cartridge.read8(0x6000 + offset), Ok(expected));
        assert_eq!(cartridge.lower_rom_read(offset), Ok(expected));
        assert_eq!(cartridge.upper_rom_read(offset), Ok(expected));
    }
}

#[test]
fn two_banks_fill_a_half_each() {
    let mut cartridge = vertical();
    for offset in [0x0000u16, 0x0001, 0x1234, 0x3fff] {
        assert_eq!(cartridge.read8(0x2000 + offset), Ok((offset as usize % 253) as u8));
        assert_eq!(
            cartridge.read8(0x6000 + offset),
            Ok(((offset as usize + 0x4000) % 253) as u8)
        );
    }
}

#[test]
fn program_ram_starts_zero_and_keeps_what_is_written() {
    let mut cartridge = vertical();
    assert_eq!(cartridge.read8(0x0000), Ok(0));
    assert_eq!(cartridge.read8(0x1fff), Ok(0));
    assert_eq!(cartridge.write8(0x0000, 0x12), Ok(()));
    assert_eq!(cartridge.write8(0x1fff, 0x34), Ok(()));
    assert_eq!(cartridge.read8(0x0000), Ok(0x12));
    assert_eq!(cartridge.read8(0x1fff), Ok(0x34));
    assert_eq!(cartridge.ram_read(0x0000), Ok(0x12));
    assert_eq!(cartridge.ram_write(0x0001, 0x56), Ok(()));
    assert_eq!(cartridge.read8(0x0001), Ok(0x56));
}

#[test]
fn rom_cannot_be_written() {
    let mut cartridge = vertical();
    assert_eq!(cartridge.write8(0x2000, 1), Err(BusError::IllegalWrite(0x0000)));
    assert_eq!(cartridge.write8(0x5fff, 1), Err(BusError::IllegalWrite(0x3fff)));
    assert_eq!(cartridge.write8(0x6000, 1), Err(BusError::IllegalWrite(0x0000)));
    assert_eq!(cartridge.write8(0x9fff, 1), Err(BusError::IllegalWrite(0x3fff)));
    assert_eq!(cartridge.ppu_write8(0x0000, 1), Err(BusError::IllegalWrite(0x0000)));
    assert_eq!(cartridge.ppu_write8(0x1fff, 1), Err(BusError::IllegalWrite(0x1fff)));
    assert_eq!(cartridge.read8(0x2000), Ok(0));
}

#[test]
fn addresses_outside_the_zones_are_bus_errors() {
    let mut cartridge = vertical();
    assert_eq!(cartridge.read8(0xa000), Err(BusError::BusErrorRead(0xa000)));
    assert_eq!(cartridge.read8(0xffff), Err(BusError::BusErrorRead(0xffff)));
    assert_eq!(cartridge.write8(0xa000, 1), Err(BusError::BusErrorWrite(0xa000)));
    assert_eq!(cartridge.ppu_read8(0x3000), Err(BusError::BusErrorRead(0x3000)));
    assert_eq!(cartridge.ppu_write8(0x3000, 1), Err(BusError::BusErrorWrite(0x3000)));
    assert_eq!(cartridge.lower_rom_read(0x4000), Err(BusError::BusErrorRead(0x4000)));
    assert_eq!(cartridge.upper_rom_read(0x4000), Err(BusError::BusErrorRead(0x4000)));
    assert_eq!(cartridge.ram_read(0x2000), Err(BusError::BusErrorRead(0x2000)));
    assert_eq!(cartridge.ram_write(0x2000, 1), Err(BusError::BusErrorWrite(0x2000)));
    assert_eq!(cartridge.pattern_table_read(0x2000), Err(BusError::BusErrorRead(0x2000)));
    assert_eq!(cartridge.name_table_read(0x1000), Ok(0));
    assert_eq!(horizontal().name_table_read(0x1000), Err(BusError::BusErrorRead(0x0800)));
    assert_eq!(horizontal().name_table_write(0x1000, 1), Err(BusError::BusErrorWrite(0x0800)));
}

#[test]
fn pattern_table_is_the_pattern_rom() {
    let mut cartridge = vertical();
    for address in [0x0000u16, 0x0010, 0x1000, 0x1fff] {
        assert_eq!(cartridge.ppu_read8(address), Ok((address as usize % 241) as u8));
        assert_eq!(cartridge.pattern_table_read(address), Ok((address as usize % 241) as u8));
    }
}

#[test]
fn vertical_mirroring() {
    let mut cartridge = vertical();
    for offset in [0x000u16, 0x001, 0x155, 0x3ff] {
        let data = (offset % 200) as u8 + 1;
        assert_eq!(cartridge.ppu_write8(0x2000 + offset, data), Ok(()));
        assert_eq!(cartridge.ppu_read8(0x2000 + offset), Ok(data));
        assert_eq!(cartridge.ppu_read8(0x2800 + offset), Ok(data));
        assert_eq!(cartridge.ppu_write8(0x2c00 + offset, data + 1), Ok(()));
        assert_eq!(cartridge.ppu_read8(0x2400 + offset), Ok(data + 1));
        assert_eq!(cartridge.ppu_read8(0x2000 + offset), Ok(data));
    }
}

#[test]
fn horizontal_mirroring_halves_the_offset() {
    let mut cartridge = horizontal();
    assert_eq!(cartridge.ppu_write8(0x2000, 0x11), Ok(()));
    assert_eq!(cartridge.ppu_read8(0x2001), Ok(0x11));
    assert_eq!(cartridge.ppu_write8(0x2403, 0x22), Ok(()));
    assert_eq!(cartridge.ppu_read8(0x2402), Ok(0x22));
    assert_eq!(cartridge.ppu_read8(0x2400), Ok(0));
    assert_eq!(cartridge.ppu_read8(0x2000), Ok(0x11));
    assert_eq!(cartridge.ppu_write8(0x2fff, 0x33), Ok(()));
    assert_eq!(cartridge.ppu_read8(0x2ffe), Ok(0x33));
    assert_eq!(cartridge.name_table_read(0x0ffe), Ok(0x33));
    assert_eq!(cartridge.name_table_write(0x0002, 0x44), Ok(()));
    assert_eq!(cartridge.ppu_read8(0x2003), Ok(0x44));
}

#[test]
fn horizontal_mirroring_of_equal_bytes() {
    let mut cartridge = horizontal();
    for offset in [0x000u16, 0x155, 0x3ff] {
        assert_eq!(cartridge.ppu_read8(0x2000 + offset), cartridge.ppu_read8(0x2400 + offset));
    }
    cartridge.ppu_write8(0x2010, 0x77).unwrap();
    cartridge.ppu_write8(0x2410, 0x77).unwrap();
    assert_eq!(cartridge.ppu_read8(0x2010), cartridge.ppu_read8(0x2410));
    assert_eq!(cartridge.ppu_read8(0x2011), cartridge.ppu_read8(0x2411));
}
