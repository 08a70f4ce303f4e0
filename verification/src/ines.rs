//! The iNES file format: a 16-byte header, then the regions of the body.

use vstd::prelude::*;
use vstd::slice::slice_to_vec;
use crate::bits::{bit, lemma_mask_is_bit};
use crate::image::{
    NesHeader,
    NesImage,
    NesImageView,
    PlaychoiceProm,
    PlaychoicePromView,
    TvSystem,
    VideoArrangement,
    CHR_ROM_BLOCK_SIZE,
    PLAYCHOICE_NUM_BYTES,
    PLAYCHOICE_PROM_COUNTER_OUT_NUM_BYTES,
    PLAYCHOICE_PROM_DATA_NUM_BYTES,
    PRG_ROM_BLOCK_SIZE,
    TRAINER_NUM_BYTES,
};

verus! {

/// `std::io::Error`, the error of a read that the operating system refused.
/// The library only carries it: nothing is claimed of it.
#[verifier::external_type_specification]
#[verifier::external_body]
pub struct ExIoError(std::io::Error);

#[derive(Debug)]
pub enum Error {
    /// The file does not start with the magic bytes.
    InvalidChecksum,
    /// The padding at the end of the header is not zero.
    InvalidHeader,
    /// The file is shorter than the header, or the body is shorter than the
    /// header declares.
    RomTooSmall,
    /// The file could not be read.
    IoError(std::io::Error),
}

pub type Result<T> = std::result::Result<T, Error>;

pub const HEADER_NUM_BYTES: usize = 16;

// Header fields
pub const HEADER_PRG_ROM_SIZE: usize = 4;

pub const HEADER_CHR_ROM_SIZE: usize = 5;

pub const HEADER_FLAGS_6: usize = 6;

pub const HEADER_FLAGS_7: usize = 7;

pub const HEADER_PRG_RAM_SIZE: usize = 8;

pub const HEADER_FLAGS_9: usize = 9;

/// Whether `header` starts with the magic bytes `4E 45 53 1A`.
pub open spec fn has_magic(header: Seq<u8>) -> bool {
    header[0] == 0x4e && header[1] == 0x45 && header[2] == 0x53 && header[3] == 0x1a
}

/// Whether bytes 11 to 15 of `header` are zero.
pub open spec fn has_zero_padding(header: Seq<u8>) -> bool {
    header[11] == 0 && header[12] == 0 && header[13] == 0 && header[14] == 0 && header[15] == 0
}

/// The mapper number: its low nibble is the high nibble of flag byte 6, its
/// high nibble the high nibble of flag byte 7.
pub open spec fn spec_mapper_number(flags6: u8, flags7: u8) -> int {
    flags6 / 16 + (flags7 / 16) * 16
}

/// The arrangement of the nametables: the four-screen bit wins over the
/// mirroring bit.
pub open spec fn spec_video_arrangement(flags6: u8) -> VideoArrangement {
    if bit(flags6, 3) {
        VideoArrangement::FourScreenVram
    } else if bit(flags6, 0) {
        VideoArrangement::VerticalMirroring
    } else {
        VideoArrangement::HorizontalMirroring
    }
}

/// What a header decodes to: a header of fewer than 16 bytes is too small,
/// one without the magic bytes has an invalid checksum, one with padding that
/// is not zero is invalid.
pub open spec fn spec_parse_header(header: Seq<u8>) -> Result<NesHeader> {
    if header.len() < HEADER_NUM_BYTES {
        Err(Error::RomTooSmall)
    } else if !has_magic(header) {
        Err(Error::InvalidChecksum)
    } else if !has_zero_padding(header) {
        Err(Error::InvalidHeader)
    } else {
        let flags6 = header[HEADER_FLAGS_6 as int];
        let flags7 = header[HEADER_FLAGS_7 as int];
        let flags9 = header[HEADER_FLAGS_9 as int];
        Ok(
            NesHeader {
                prg_rom_size: header[HEADER_PRG_ROM_SIZE as int] as usize,
                chr_rom_size: header[HEADER_CHR_ROM_SIZE as int] as usize,
                prg_ram_size: if bit(flags6, 1) {
                    Some(header[HEADER_PRG_RAM_SIZE as int] as usize)
                } else {
                    None
                },
                trainer_present: bit(flags6, 2),
                vs_unisystem_present: bit(flags7, 0),
                playchoice_present: bit(flags7, 1),
                nes2_format: bit(flags7, 3) && !bit(flags7, 2),
                mapper_number: spec_mapper_number(flags6, flags7) as usize,
                video_arrangement: spec_video_arrangement(flags6),
                tv_system: if bit(flags9, 0) {
                    TvSystem::Pal
                } else {
                    TvSystem::Ntsc
                },
            },
        )
    }
}

/// Decodes the 16 bytes at the start of `header`.
pub fn parse_header(header: &[u8]) -> (r: Result<NesHeader>)
    ensures
        r == spec_parse_header(header@),
{
    if header.len() < HEADER_NUM_BYTES {
        return Err(Error::RomTooSmall);
    }
    // validate checksum
    if header[0] != 0x4e || header[1] != 0x45 || header[2] != 0x53 || header[3] != 0x1a {
        return Err(Error::InvalidChecksum);
    }
    // check zero-filled end of header
    if header[11] != 0 || header[12] != 0 || header[13] != 0 || header[14] != 0 || header[15]
        != 0 {
        return Err(Error::InvalidHeader);
    }
    let flags6 = header[HEADER_FLAGS_6];
    let flags7 = header[HEADER_FLAGS_7];
    let flags9 = header[HEADER_FLAGS_9];
    proof {
        lemma_mask_is_bit(flags6);
        lemma_mask_is_bit(flags7);
        lemma_mask_is_bit(flags9);
        assert(((flags6 >> 4) | ((flags7 >> 4) << 4)) == flags6 / 16 + (flags7 / 16) * 16)
            by (bit_vector);
        assert((((flags7 & 0x0c) >> 2) == 2) == ((flags7 & 0x08 != 0) && !(flags7 & 0x04 != 0)))
            by (bit_vector);
    }
    let video_arrangement = if flags6 & 0x08 != 0 {
        VideoArrangement::FourScreenVram
    } else if flags6 & 0x01 != 0 {
        VideoArrangement::VerticalMirroring
    } else {
        VideoArrangement::HorizontalMirroring
    };
    let prg_ram_size = if flags6 & 0x02 != 0 {
        Some(header[HEADER_PRG_RAM_SIZE] as usize)
    } else {
        None
    };
    let trainer_present = flags6 & 0x04 != 0;
    let playchoice_present = flags7 & 0x02 != 0;
    let vs_unisystem_present = flags7 & 0x01 != 0;
    let mapper_number_low = flags6 >> 4;
    let mapper_number_high = flags7 >> 4;
    let mapper_number = mapper_number_low | (mapper_number_high << 4);
    let nes2_format = ((flags7 & 0x0c) >> 2) == 2;
    let tv_system = if flags9 & 0x01 != 0 {
        TvSystem::Pal
    } else {
        TvSystem::Ntsc
    };
    Ok(
        NesHeader {
            prg_rom_size: header[HEADER_PRG_ROM_SIZE] as usize,
            chr_rom_size: header[HEADER_CHR_ROM_SIZE] as usize,
            prg_ram_size,
            trainer_present,
            mapper_number: mapper_number as usize,
            playchoice_present,
            vs_unisystem_present,
            nes2_format,
            video_arrangement,
            tv_system,
        },
    )
}

/// The length of the trainer that `header` declares.
pub open spec fn trainer_len(header: NesHeader) -> int {
    if header.trainer_present {
        TRAINER_NUM_BYTES as int
    } else {
        0
    }
}

/// The length of the Playchoice regions that `header` declares.
pub open spec fn playchoice_len(header: NesHeader) -> int {
    if header.playchoice_present {
        PLAYCHOICE_NUM_BYTES + PLAYCHOICE_PROM_DATA_NUM_BYTES
            + PLAYCHOICE_PROM_COUNTER_OUT_NUM_BYTES
    } else {
        0
    }
}

/// The offset in the body at which the pattern ROM starts.
pub open spec fn chr_rom_start(header: NesHeader) -> int {
    trainer_len(header) + header.prg_rom_size * PRG_ROM_BLOCK_SIZE
}

/// The offset in the body at which the Playchoice regions start.
pub open spec fn playchoice_start(header: NesHeader) -> int {
    chr_rom_start(header) + header.chr_rom_size * CHR_ROM_BLOCK_SIZE
}

/// The length of the body that `header` declares.
pub open spec fn declared_len(header: NesHeader) -> int {
    playchoice_start(header) + playchoice_len(header)
}

/// The image with header `header` and body `data`: the trainer if there is
/// one, the program ROM, the pattern ROM, the Playchoice regions if there are
/// any, and whatever follows. A body shorter than declared is too small.
pub open spec fn spec_load(header: NesHeader, data: Seq<u8>) -> Result<NesImageView> {
    if data.len() < declared_len(header) {
        Err(Error::RomTooSmall)
    } else {
        let playchoice = playchoice_start(header);
        Ok(
            NesImageView {
                header,
                trainer: if header.trainer_present {
                    Some(data.subrange(0, TRAINER_NUM_BYTES as int))
                } else {
                    None
                },
                prg_rom: data.subrange(trainer_len(header), chr_rom_start(header)),
                chr_rom: data.subrange(chr_rom_start(header), playchoice),
                playchoice_inst_rom: if header.playchoice_present {
                    Some(data.subrange(playchoice, playchoice + PLAYCHOICE_NUM_BYTES))
                } else {
                    None
                },
                playchoice_prom: if header.playchoice_present {
                    Some(
                        PlaychoicePromView {
                            data: data.subrange(
                                playchoice + PLAYCHOICE_NUM_BYTES,
                                playchoice + PLAYCHOICE_NUM_BYTES
                                    + PLAYCHOICE_PROM_DATA_NUM_BYTES,
                            ),
                            counter_out: data.subrange(
                                playchoice + PLAYCHOICE_NUM_BYTES
                                    + PLAYCHOICE_PROM_DATA_NUM_BYTES,
                                declared_len(header),
                            ),
                        },
                    )
                } else {
                    None
                },
                extra: data.subrange(declared_len(header), data.len() as int),
            },
        )
    }
}

/// Cuts the body `data` into the regions that `header` declares.
pub fn load(header: NesHeader, data: &[u8]) -> (r: Result<NesImage>)
    requires
        header.prg_rom_size <= 0xff,
        header.chr_rom_size <= 0xff,
    ensures
        match r {
            Ok(image) => spec_load(header, data@) == Ok::<NesImageView, Error>(image@)
                && image@.wf(),
            Err(e) => spec_load(header, data@) == Err::<NesImageView, Error>(e),
        },
{
    let trainer_num_bytes = if header.trainer_present {
        TRAINER_NUM_BYTES
    } else {
        0
    };
    let playchoice_num_bytes = if header.playchoice_present {
        PLAYCHOICE_NUM_BYTES + PLAYCHOICE_PROM_DATA_NUM_BYTES
            + PLAYCHOICE_PROM_COUNTER_OUT_NUM_BYTES
    } else {
        0
    };
    let prg_rom_num_bytes = header.prg_rom_size * PRG_ROM_BLOCK_SIZE;
    let chr_rom_num_bytes = header.chr_rom_size * CHR_ROM_BLOCK_SIZE;
    let declared = trainer_num_bytes + prg_rom_num_bytes + chr_rom_num_bytes
        + playchoice_num_bytes;
    if data.len() < declared {
        return Err(Error::RomTooSmall);
    }
    let mut index: usize = 0;
    let trainer = if header.trainer_present {
        let v = slice_to_vec(&data[index..(index + TRAINER_NUM_BYTES)]);
        index += TRAINER_NUM_BYTES;
        Some(v)
    } else {
        None
    };
    let prg_rom = slice_to_vec(&data[index..(index + prg_rom_num_bytes)]);
    index += prg_rom_num_bytes;
    let chr_rom = slice_to_vec(&data[index..(index + chr_rom_num_bytes)]);
    index += chr_rom_num_bytes;
    let (playchoice_inst_rom, playchoice_prom) = if header.playchoice_present {
        let inst_rom = slice_to_vec(&data[index..(index + PLAYCHOICE_NUM_BYTES)]);
        index += PLAYCHOICE_NUM_BYTES;
        let prom_data = slice_to_vec(&data[index..(index + PLAYCHOICE_PROM_DATA_NUM_BYTES)]);
        index += PLAYCHOICE_PROM_DATA_NUM_BYTES;
        let prom_counter_out = slice_to_vec(
            &data[index..(index + PLAYCHOICE_PROM_COUNTER_OUT_NUM_BYTES)],
        );
        index += PLAYCHOICE_PROM_COUNTER_OUT_NUM_BYTES;
        (Some(inst_rom), Some(PlaychoiceProm { data: prom_data, counter_out: prom_counter_out }))
    } else {
        (None, None)
    };
    let extra = slice_to_vec(&data[index..data.len()]);
    Ok(
        NesImage {
            header,
            trainer,
            prg_rom,
            chr_rom,
            playchoice_inst_rom,
            playchoice_prom,
            extra,
        },
    )
}

/// The image that the bytes of a file hold.
pub open spec fn spec_parse(data: Seq<u8>) -> Result<NesImageView> {
    if data.len() < HEADER_NUM_BYTES {
        Err(Error::RomTooSmall)
    } else {
        match spec_parse_header(data.subrange(0, HEADER_NUM_BYTES as int)) {
            Err(e) => Err(e),
            Ok(header) => spec_load(header, data.subrange(HEADER_NUM_BYTES as int, data.len() as int)),
        }
    }
}

/// Parses the bytes of an iNES file.
pub fn parse(data: &[u8]) -> (r: Result<NesImage>)
    ensures
        match r {
            Ok(image) => spec_parse(data@) == Ok::<NesImageView, Error>(image@) && image@.wf(),
            Err(e) => spec_parse(data@) == Err::<NesImageView, Error>(e),
        },
{
    if data.len() < HEADER_NUM_BYTES {
        return Err(Error::RomTooSmall);
    }
    let header = parse_header(&data[0..HEADER_NUM_BYTES])?;
    load(header, &data[HEADER_NUM_BYTES..data.len()])
}

} // verus!
