use nes_emulator::image::{NesHeader, TvSystem, VideoArrangement};
use nes_emulator::ines::{load, parse, parse_header, Error};

fn header_bytes(prg: u8, chr: u8, flags6: u8, flags7: u8) -> Vec<u8> {
    vec![0x4e, 0x45, 0x53, 0x1a, prg, chr, flags6, flags7, 0, 0, 0, 0, 0, 0, 0, 0]
}

fn file(prg: u8, chr: u8, flags6: u8, flags7: u8, body: usize) -> Vec<u8> {
    let mut bytes = header_bytes(prg, chr, flags6, flags7);
    for i in 0..body {
        bytes.push((i % 251) as u8);
    }
    bytes
}

#[test]
fn header_fields_are_decoded() {
    let mut bytes = header_bytes(2, 1, 0x00, 0x00);
    bytes[8] = 3;
    let header = parse_header(&bytes).unwrap();
    assert_eq!(
        header,
        NesHeader {
            prg_rom_size: 2,
            chr_rom_size: 1,
            prg_ram_size: None,
            trainer_present: false,
            vs_unisystem_present: false,
            playchoice_present: false,
            nes2_format: false,
            mapper_number: 0,
            video_arrangement: VideoArrangement::HorizontalMirroring,
            tv_system: TvSystem::Ntsc,
        }
    );
}

#[test]
fn flag_bits_are_decoded() {
    let mut bytes = header_bytes(1, 1, 0x07, 0x03);
    bytes[8] = 3;
    bytes[9] = 1;
    let header = parse_header(&bytes).unwrap();
    assert_eq!(header.video_arrangement, VideoArrangement::VerticalMirroring);
    assert_eq!(header.prg_ram_size, Some(3));
    assert!(header.trainer_present);
    assert!(header.vs_unisystem_present);
    assert!(header.playchoice_present);
    assert_eq!(header.tv_system, TvSystem::Pal);
    assert_eq!(header.mapper_number, 0);
}

#[test]
fn four_screen_dominates_the_mirroring_bit() {
    let header = parse_header(&header_bytes(1, 1, 0x09, 0)).unwrap();
    assert_eq!(header.video_arrangement, VideoArrangement::FourScreenVram);
    let header = parse_header(&header_bytes(1, 1, 0x08, 0)).unwrap();
    assert_eq!(header.video_arrangement, VideoArrangement::FourScreenVram);
}

#[test]
fn mapper_number_joins_the_two_nibbles() {
    let header = parse_header(&header_bytes(1, 1, 0x40, 0x00)).unwrap();
    assert_eq!(header.mapper_number, 4);
    let header = parse_header(&header_bytes(1, 1, 0x10, 0x20)).unwrap();
    assert_eq!(header.mapper_number, 0x21);
    let header = parse_header(&header_bytes(1, 1, 0xf0, 0xf0)).unwrap();
    assert_eq!(header.mapper_number, 0xff);
    let header = parse_header(&header_bytes(1, 1, 0x0f, 0x0f)).unwrap();
    assert_eq!(header.mapper_number, 0);
}

#[test]
fn nes2_format_needs_selector_bits_one_zero() {
    assert!(parse_header(&header_bytes(1, 1, 0, 0x08)).unwrap().nes2_format);
    assert!(!parse_header(&header_bytes(1, 1, 0, 0x0c)).unwrap().nes2_format);
    assert!(!parse_header(&header_bytes(1, 1, 0, 0x04)).unwrap().nes2_format);
    assert!(!parse_header(&header_bytes(1, 1, 0, 0x00)).unwrap().nes2_format);
}

#[test]
fn wrong_magic_is_an_invalid_checksum() {
    for i in 0..4 {
        let mut bytes = header_bytes(1, 1, 0, 0);
        bytes[i] ^= 1;
        assert!(matches!(parse_header(&bytes), Err(Error::InvalidChecksum)));
        assert!(matches!(parse(&bytes), Err(Error::InvalidChecksum)));
    }
}

#[test]
fn padding_must_be_zero() {
    for i in 11..16 {
        let mut bytes = header_bytes(1, 1, 0, 0);
        bytes[i] = 1;
        assert!(matches!(parse_header(&bytes), Err(Error::InvalidHeader)));
    }
    let mut bytes = header_bytes(1, 1, 0, 0);
    bytes[10] = 0xff;
    assert!(parse_header(&bytes).is_ok());
}

#[test]
fn magic_is_checked_before_padding() {
    let mut bytes = header_bytes(1, 1, 0, 0);
    bytes[0] = 0;
    bytes[15] = 1;
    assert!(matches!(parse_header(&bytes), Err(Error::InvalidChecksum)));
}

#[test]
fn short_files_are_too_small() {
    assert!(matches!(parse(&[]), Err(Error::RomTooSmall)));
    assert!(matches!(parse(&header_bytes(0, 0, 0, 0)[..15]), Err(Error::RomTooSmall)));
    assert!(matches!(parse_header(&[0x4e, 0x45, 0x53]), Err(Error::RomTooSmall)));
    assert!(matches!(parse(&file(1, 1, 0, 0, 16384 + 8191)), Err(Error::RomTooSmall)));
    assert!(matches!(parse(&file(1, 1, 0x04, 0, 16384 + 8192)), Err(Error::RomTooSmall)));
    assert!(matches!(parse(&file(1, 1, 0, 0x02, 16384 + 8192)), Err(Error::RomTooSmall)));
}

#[test]
fn empty_image_parses() {
    let image = parse(&header_bytes(0, 0, 0, 0)).unwrap();
    assert!(image.prg_rom.is_empty());
    assert!(image.chr_rom.is_empty());
    assert!(image.extra.is_empty());
    assert_eq!(image.trainer, None);
}

#[test]
fn body_is_cut_into_regions() {
    let bytes = file(2, 1, 0, 0, 2 * 16384 + 8192 + 5);
    let image = parse(&bytes).unwrap();
    assert_eq!(image.header.prg_rom_size, 2);
    assert_eq!(image.trainer, None);
    assert_eq!(image.prg_rom, bytes[16..16 + 32768].to_vec());
    assert_eq!(image.chr_rom, bytes[16 + 32768..16 + 32768 + 8192].to_vec());
    assert_eq!(image.playchoice_inst_rom, None);
    assert_eq!(image.playchoice_prom, None);
    assert_eq!(image.extra, bytes[16 + 32768 + 8192..].to_vec());
    assert_eq!(image.extra.len(), 5);
}

#[test]
fn trainer_and_playchoice_regions() {
    let bytes = file(1, 1, 0x04, 0x02, 512 + 16384 + 8192 + 8192 + 16 + 16 + 3);
    let image = parse(&bytes).unwrap();
    let body = &bytes[16..];
    assert_eq!(image.trainer, Some(body[..512].to_vec()));
    assert_eq!(image.prg_rom, body[512..512 + 16384].to_vec());
    let chr = 512 + 16384;
    assert_eq!(image.chr_rom, body[chr..chr + 8192].to_vec());
    let inst = chr + 8192;
    assert_eq!(image.playchoice_inst_rom, Some(body[inst..inst + 8192].to_vec()));
    let prom = image.playchoice_prom.unwrap();
    assert_eq!(prom.data, body[inst + 8192..inst + 8192 + 16].to_vec());
    assert_eq!(prom.counter_out, body[inst + 8192 + 16..inst + 8192 + 32].to_vec());
    assert_eq!(image.extra, body[inst + 8192 + 32..].to_vec());
}

#[test]
fn load_cuts_a_body() {
    let header = parse_header(&header_bytes(1, 0, 0, 0)).unwrap();
    let body: Vec<u8> = (0..16384 + 2).map(|i| (i % 7) as u8).collect();
    let image = load(header, &body).unwrap();
    assert_eq!(image.prg_rom, body[..16384].to_vec());
    assert!(image.chr_rom.is_empty());
    assert_eq!(image.extra, vec![(16384 % 7) as u8, (16385 % 7) as u8]);
    assert!(matches!(load(header, &body[..16383]), Err(Error::RomTooSmall)));
}
