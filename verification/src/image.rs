//! A ROM image as the iNES format describes it.

use vstd::prelude::*;

verus! {

pub const TRAINER_NUM_BYTES: usize = 512;

pub const PRG_ROM_BLOCK_SIZE: usize = 16384;

pub const CHR_ROM_BLOCK_SIZE: usize = 8192;

pub const PLAYCHOICE_NUM_BYTES: usize = 8192;

pub const PLAYCHOICE_PROM_DATA_NUM_BYTES: usize = 16;

pub const PLAYCHOICE_PROM_COUNTER_OUT_NUM_BYTES: usize = 16;

/// How the nametables are arranged.
#[derive(Debug, Clone, Copy, PartialEq, Eq)]
pub enum VideoArrangement {
    HorizontalMirroring,
    VerticalMirroring,
    FourScreenVram,
}

#[derive(Debug, Clone, Copy, PartialEq, Eq)]
pub enum TvSystem {
    Ntsc,
    Pal,
}

/// The decoded header of an image.
#[derive(Debug, Clone, Copy, PartialEq, Eq)]
pub struct NesHeader {
    /// The size of the program ROM in units of 16 KiB.
    pub prg_rom_size: usize,
    /// The size of the pattern ROM in units of 8 KiB.
    pub chr_rom_size: usize,
    /// The size of the program RAM, where the image declares one.
    pub prg_ram_size: Option<usize>,
    pub trainer_present: bool,
    pub vs_unisystem_present: bool,
    pub playchoice_present: bool,
    pub nes2_format: bool,
    pub mapper_number: usize,
    pub video_arrangement: VideoArrangement,
    pub tv_system: TvSystem,
}

#[derive(Debug, Clone, PartialEq, Eq)]
pub struct PlaychoiceProm {
    pub data: Vec<u8>,
    pub counter_out: Vec<u8>,
}

/// The bytes of the two Playchoice PROM regions.
pub struct PlaychoicePromView {
    pub data: Seq<u8>,
    pub counter_out: Seq<u8>,
}

impl View for PlaychoiceProm {
    type V = PlaychoicePromView;

    open spec fn view(&self) -> PlaychoicePromView {
        PlaychoicePromView { data: self.data@, counter_out: self.counter_out@ }
    }
}

/// A parsed image: the header and the regions of the body, in file order.
#[derive(Debug, Clone, PartialEq, Eq)]
pub struct NesImage {
    pub header: NesHeader,
    pub trainer: Option<Vec<u8>>,
    pub prg_rom: Vec<u8>,
    pub chr_rom: Vec<u8>,
    pub playchoice_inst_rom: Option<Vec<u8>>,
    pub playchoice_prom: Option<PlaychoiceProm>,
    pub extra: Vec<u8>,
}

/// The header and the bytes of each region of an image.
pub struct NesImageView {
    pub header: NesHeader,
    pub trainer: Option<Seq<u8>>,
    pub prg_rom: Seq<u8>,
    pub chr_rom: Seq<u8>,
    pub playchoice_inst_rom: Option<Seq<u8>>,
    pub playchoice_prom: Option<PlaychoicePromView>,
    pub extra: Seq<u8>,
}

impl NesImageView {
    /// Every region is present exactly where the header says so, and as long
    /// as the header says.
    pub open spec fn wf(self) -> bool {
        &&& self.trainer is Some <==> self.header.trainer_present
        &&& self.trainer is Some ==> self.trainer->Some_0.len() == TRAINER_NUM_BYTES
        &&& self.prg_rom.len() == self.header.prg_rom_size * PRG_ROM_BLOCK_SIZE
        &&& self.chr_rom.len() == self.header.chr_rom_size * CHR_ROM_BLOCK_SIZE
        &&& self.playchoice_inst_rom is Some <==> self.header.playchoice_present
        &&& self.playchoice_prom is Some <==> self.header.playchoice_present
        &&& self.playchoice_inst_rom is Some ==> self.playchoice_inst_rom->Some_0.len()
            == PLAYCHOICE_NUM_BYTES
        &&& self.playchoice_prom is Some ==> {
            &&& self.playchoice_prom->Some_0.data.len() == PLAYCHOICE_PROM_DATA_NUM_BYTES
            &&& self.playchoice_prom->Some_0.counter_out.len()
                == PLAYCHOICE_PROM_COUNTER_OUT_NUM_BYTES
        }
    }
}

impl View for NesImage {
    type V = NesImageView;

    open spec fn view(&self) -> NesImageView {
        NesImageView {
            header: self.header,
            trainer: match self.trainer {
                Some(v) => Some(v@),
                None => None,
            },
            prg_rom: self.prg_rom@,
            chr_rom: self.chr_rom@,
            playchoice_inst_rom: match self.playchoice_inst_rom {
                Some(v) => Some(v@),
                None => None,
            },
            playchoice_prom: match self.playchoice_prom {
                Some(p) => Some(p@),
                None => None,
            },
            extra: self.extra@,
        }
    }
}

} // verus!
