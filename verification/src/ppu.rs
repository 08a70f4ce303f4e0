//! The picture processing unit: its eight registers as the processor sees
//! them, the vertical blank, and the rendering of the background.

use vstd::prelude::*;
use crate::addressable::{Address, AddressDiff, Error, PpuAddressable, Result};
use crate::bits::{bit, lemma_mask_is_bit, lemma_shift_is_arithmetic};
use crate::cpu::{increment, wrap16, InterruptState};
use crate::renderer::{pixel_index, Frame, DISPLAY_HEIGHT, DISPLAY_WIDTH, NUM_PIXELS};
use crate::text::{
    push_decimal,
    push_hex_byte,
    push_hex_word,
    push_str,
    spec_decimal,
    spec_hex_byte,
    spec_hex_word,
};
use vstd::string::StringSliceAdditionalSpecFns;

verus! {

pub const CONTROLLER: Address = 0;

pub const MASK: Address = 1;

pub const STATUS: Address = 2;

pub const OAM_ADDRESS: Address = 3;

pub const OAM_DATA: Address = 4;

pub const SCROLL: Address = 5;

pub const ADDRESS: Address = 6;

pub const DATA: Address = 7;

pub const CONTROLLER_BASE_NAMETABLE_ADDRESS_MASK: u8 = 0x03;

pub const CONTROLLER_VRAM_ADDRESS_INCREMENT: u8 = 0x04;

pub const CONTROLLER_BACKGROUND_PATTERN_TABLE: u8 = 0x10;

pub const CONTROLLER_VBLANK_NMI: u8 = 0x80;

pub const STATUS_LAST_WRITE_MASK: u8 = 0x1f;

pub const STATUS_VBLANK: u8 = 0x80;

pub const OAM_SIZE: usize = 0x100;

pub const NAMETABLE_SIZE: AddressDiff = 0x400;

pub const NAMETABLE_OFFSET: AddressDiff = 0x2000;

pub const WIDTH_TILES: AddressDiff = 32;

pub const HEIGHT_TILES: AddressDiff = 30;

pub const TILE_WIDTH: AddressDiff = 8;

pub const TILE_HEIGHT: AddressDiff = 8;

pub const PATTERN_TABLE_ENTRY_BYTES: AddressDiff = 16;

pub const ATTRIBUTE_TABLE_OFFSET: AddressDiff = 0x3c0;

pub const PALETTE_STRIDE: AddressDiff = 4;

pub const UNIVERSAL_BACKGROUND_COLOUR: Address = 0x3f00;

pub const BACKGROUND_PALETTE_BASE: Address = 0x3f00;

pub const SPRITE_PALETTE_BASE: Address = 0x3f10;

/// Which scroll position the next write to the scroll register gives.
#[derive(Debug, Clone, Copy, PartialEq, Eq)]
pub enum ScrollAxis {
    X,
    Y,
}

/// Which half of the address the next write to the address register gives.
#[derive(Debug, Clone, Copy, PartialEq, Eq)]
pub enum AddressPhase {
    LOW,
    HIGH,
}

/// The register latches of the picture unit.
pub struct PpuRegisterFile {
    controller: u8,
    mask: u8,
    status: u8,
    oam_address: u8,
    scroll: u8,
    address: u8,
}

impl PpuRegisterFile {
    fn new() -> (r: Self)
        ensures
            r.controller == 0,
            r.mask == 0,
            r.status == 0,
            r.oam_address == 0,
            r.scroll == 0,
            r.address == 0,
    {
        PpuRegisterFile { controller: 0, mask: 0, status: 0, oam_address: 0, scroll: 0, address: 0 }
    }
}

/// The picture unit.
pub struct Ppu {
    pub registers: PpuRegisterFile,
    scroll_axis: ScrollAxis,
    scroll_x: u8,
    scroll_y: u8,
    address_phase: AddressPhase,
    address: Address,
    oam: [u8; OAM_SIZE],
    data_latch: u8,
}

/// Everything that the picture unit holds.
pub struct PpuState {
    /// PPUCTRL as last written.
    pub controller: u8,
    /// PPUMASK as last written.
    pub mask: u8,
    /// PPUSTATUS: bit 7 is the vertical blank, the low five bits are those of
    /// the byte last written to any register.
    pub status: u8,
    /// OAMADDR: the cursor into the sprite memory.
    pub oam_address: u8,
    /// The byte last written to the scroll register.
    pub scroll: u8,
    /// The byte last written to the address register.
    pub address_latch: u8,
    /// The toggle of the scroll register.
    pub scroll_axis: ScrollAxis,
    pub scroll_x: u8,
    pub scroll_y: u8,
    /// The toggle of the address register.
    pub address_phase: AddressPhase,
    /// The cursor into the picture unit's address space.
    pub address: Address,
    /// The 256 bytes of sprite memory.
    pub oam: Seq<u8>,
    /// The byte that the next read of the data register answers.
    pub data_latch: u8,
}

impl View for Ppu {
    type V = PpuState;

    closed spec fn view(&self) -> PpuState {
        PpuState {
            controller: self.registers.controller,
            mask: self.registers.mask,
            status: self.registers.status,
            oam_address: self.registers.oam_address,
            scroll: self.registers.scroll,
            address_latch: self.registers.address,
            scroll_axis: self.scroll_axis,
            scroll_x: self.scroll_x,
            scroll_y: self.scroll_y,
            address_phase: self.address_phase,
            address: self.address,
            oam: self.oam@,
            data_latch: self.data_latch,
        }
    }
}

/// `status` with the vertical blank bit set or cleared.
pub open spec fn with_vblank(status: u8, vblank: bool) -> u8 {
    if vblank {
        (status % 0x80 + 0x80) as u8
    } else {
        status % 0x80
    }
}

/// `status` with its low five bits replaced by those of `data`.
pub open spec fn with_last_write(status: u8, data: u8) -> u8 {
    ((status / 0x20) * 0x20 + data % 0x20) as u8
}

impl PpuState {
    /// The picture unit at power-on: everything zero, both toggles in their
    /// first phase.
    pub open spec fn spec_new() -> Self {
        PpuState {
            controller: 0,
            mask: 0,
            status: 0,
            oam_address: 0,
            scroll: 0,
            address_latch: 0,
            scroll_axis: ScrollAxis::X,
            scroll_x: 0,
            scroll_y: 0,
            address_phase: AddressPhase::HIGH,
            address: 0,
            oam: Seq::new(OAM_SIZE as nat, |i: int| 0u8),
            data_latch: 0,
        }
    }

    /// The sprite memory is 256 bytes long.
    pub open spec fn wf(self) -> bool {
        self.oam.len() == OAM_SIZE
    }

    /// The start of the vertical blank: the blank bit of the status is set,
    /// and where PPUCTRL enables it, a non-maskable interrupt is raised.
    pub open spec fn spec_vblank_start(self, interrupts: InterruptState) -> (
        PpuState,
        InterruptState,
    ) {
        (
            PpuState { status: with_vblank(self.status, true), ..self },
            InterruptState { nmi: interrupts.nmi || bit(self.controller, 7) },
        )
    }

    /// The end of the vertical blank: the blank bit of the status is cleared.
    pub open spec fn spec_vblank_end(self) -> PpuState {
        PpuState { status: with_vblank(self.status, false), ..self }
    }

    /// A write to the sprite memory at the cursor, which then moves on by one.
    pub open spec fn spec_oam_data_write(self, data: u8) -> PpuState {
        PpuState {
            oam: self.oam.update(self.oam_address as int, data),
            oam_address: increment(self.oam_address),
            ..self
        }
    }

    /// The cursor moved on after an access to the data register: by 32 where
    /// bit 2 of PPUCTRL is set, else by 1.
    pub open spec fn spec_increment_address(self) -> PpuState {
        PpuState {
            address: wrap16(
                self.address + if bit(self.controller, 2) {
                    32int
                } else {
                    1int
                },
            ),
            ..self
        }
    }

    /// A read of the register at `address`, an offset from 0 to 7, with the
    /// picture unit's memory in state `memory`.
    ///
    /// - PPUSTATUS answers the status, clears the vertical blank and puts both
    ///   toggles back into their first phase.
    /// - OAMDATA answers the sprite byte at the cursor.
    /// - PPUDATA answers the data latch, which is then filled from the memory
    ///   at the cursor, and the cursor moves on; where the memory refuses the
    ///   read, nothing changes and its error is the answer.
    /// - The other registers cannot be read.
    pub open spec fn spec_read8<M: PpuAddressable>(self, address: Address, memory: M::V) -> (
        Result<u8>,
        PpuState,
    ) {
        if address == STATUS {
            (
                Ok(self.status),
                PpuState {
                    status: with_vblank(self.status, false),
                    scroll_axis: ScrollAxis::X,
                    address_phase: AddressPhase::HIGH,
                    ..self
                },
            )
        } else if address == OAM_DATA {
            (Ok(self.oam[self.oam_address as int]), self)
        } else if address == DATA {
            match M::spec_ppu_read8(memory, self.address) {
                Ok(data) => (
                    Ok(self.data_latch),
                    PpuState { data_latch: data, ..self }.spec_increment_address(),
                ),
                Err(e) => (Err(e), self),
            }
        } else if address <= DATA {
            (Err(Error::IllegalRead(address)), self)
        } else {
            (Err(Error::UnimplementedRead(address)), self)
        }
    }

    /// A write of `data` to the register at `address`, an offset from 0 to 7,
    /// with the picture unit's memory in state `memory`: what is answered, the
    /// picture unit after it and the memory after it.
    ///
    /// Every write first puts the low five bits of `data` into the status.
    ///
    /// - PPUCTRL, PPUMASK and OAMADDR store the byte.
    /// - OAMDATA stores it in the sprite memory at the cursor.
    /// - The first write to the scroll register only flips its toggle; the
    ///   second flips it back and makes the byte before it the horizontal and
    ///   this byte the vertical position.
    /// - The first write to the address register only flips its toggle; the
    ///   second flips it back and makes the byte before it the high and this
    ///   byte the low half of the cursor.
    /// - PPUDATA writes to the memory at the cursor, which then moves on; where
    ///   the memory refuses the write, the cursor stays.
    /// - PPUSTATUS cannot be written.
    pub open spec fn spec_write8<M: PpuAddressable>(
        self,
        address: Address,
        data: u8,
        memory: M::V,
    ) -> (Result<()>, PpuState, M::V) {
        let latched = PpuState { status: with_last_write(self.status, data), ..self };
        if address == CONTROLLER {
            (Ok(()), PpuState { controller: data, ..latched }, memory)
        } else if address == MASK {
            (Ok(()), PpuState { mask: data, ..latched }, memory)
        } else if address == STATUS {
            (Err(Error::IllegalWrite(address)), latched, memory)
        } else if address == OAM_ADDRESS {
            (Ok(()), PpuState { oam_address: data, ..latched }, memory)
        } else if address == OAM_DATA {
            (Ok(()), latched.spec_oam_data_write(data), memory)
        } else if address == SCROLL {
            (
                Ok(()),
                match self.scroll_axis {
                    ScrollAxis::X => PpuState {
                        scroll_axis: ScrollAxis::Y,
                        scroll: data,
                        ..latched
                    },
                    ScrollAxis::Y => PpuState {
                        scroll_axis: ScrollAxis::X,
                        scroll_x: self.scroll,
                        scroll_y: data,
                        scroll: data,
                        ..latched
                    },
                },
                memory,
            )
        } else if address == ADDRESS {
            (
                Ok(()),
                match self.address_phase {
                    AddressPhase::HIGH => PpuState {
                        address_phase: AddressPhase::LOW,
                        address_latch: data,
                        ..latched
                    },
                    AddressPhase::LOW => PpuState {
                        address_phase: AddressPhase::HIGH,
                        address: (self.address_latch * 0x100 + data) as u16,
                        address_latch: data,
                        ..latched
                    },
                },
                memory,
            )
        } else if address == DATA {
            let written = M::spec_ppu_write8(memory, self.address, data);
            match written.0 {
                Ok(()) => (Ok(()), latched.spec_increment_address(), written.1),
                Err(e) => (Err(e), latched, written.1),
            }
        } else {
            (Err(Error::UnimplementedWrite(address)), latched, memory)
        }
    }
}

impl Ppu {
    pub fn new() -> (r: Self)
        ensures
            r@ == PpuState::spec_new(),
    {
        let r = Ppu {
            registers: PpuRegisterFile::new(),
            scroll_axis: ScrollAxis::X,
            scroll_x: 0,
            scroll_y: 0,
            address_phase: AddressPhase::HIGH,
            address: 0,
            oam: [0u8;OAM_SIZE],
            data_latch: 0,
        };
        assert(r@.oam =~= PpuState::spec_new().oam);
        r
    }

    pub fn vblank_start(&mut self, mut interrupts: InterruptState) -> (r: InterruptState)
        ensures
            (final(self)@, r) == old(self)@.spec_vblank_start(interrupts),
    {
        let status = self.registers.status;
        let controller = self.registers.controller;
        proof {
            lemma_mask_is_bit(controller);
            assert(status | 0x80 == status % 0x80 + 0x80) by (bit_vector);
        }
        self.registers.status |= STATUS_VBLANK;
        if self.registers.controller & CONTROLLER_VBLANK_NMI != 0 {
            interrupts.nmi = true;
        }
        interrupts
    }

    pub fn vblank_end(&mut self, interrupts: InterruptState) -> (r: InterruptState)
        ensures
            final(self)@ == old(self)@.spec_vblank_end(),
            r == interrupts,
    {
        let status = self.registers.status;
        assert(status & 0x7f == status % 0x80) by (bit_vector);
        self.registers.status &= 0x7f;
        interrupts
    }

    pub fn set_oam_address(&mut self, address: u8)
        ensures
            final(self)@ == (PpuState { oam_address: address, ..old(self)@ }),
    {
        self.registers.oam_address = address;
    }

    pub fn oam_data_write(&mut self, data: u8)
        ensures
            final(self)@ == old(self)@.spec_oam_data_write(data),
    {
        self.oam[self.registers.oam_address as usize] = data;
        self.registers.oam_address = self.registers.oam_address.wrapping_add(1);
    }

    fn increment_address(&mut self)
        ensures
            final(self)@ == old(self)@.spec_increment_address(),
    {
        proof {
            lemma_mask_is_bit(self.registers.controller);
        }
        if self.registers.controller & CONTROLLER_VRAM_ADDRESS_INCREMENT != 0 {
            self.address = self.address.wrapping_add(32);
        } else {
            self.address = self.address.wrapping_add(1);
        }
    }

    /// Serves a read of the register at offset `address` for the processor.
    pub fn read8<Memory: PpuAddressable>(&mut self, address: Address, memory: &mut Memory) -> (r:
        Result<u8>)
        ensures
            (r, final(self)@) == old(self)@.spec_read8::<Memory>(address, old(memory)@),
            final(memory)@ == old(memory)@,
    {
        let data = match address {
            0 => {
                return Err(Error::IllegalRead(address));
            },
            1 => {
                return Err(Error::IllegalRead(address));
            },
            2 => {
                let value = self.registers.status;
                assert(value & 0x7f == value % 0x80) by (bit_vector);
                self.registers.status &= 0x7f;
                self.scroll_axis = ScrollAxis::X;
                self.address_phase = AddressPhase::HIGH;
                value
            },
            3 => {
                return Err(Error::IllegalRead(address));
            },
            4 => self.oam[self.registers.oam_address as usize],
            5 => {
                return Err(Error::IllegalRead(address));
            },
            6 => {
                return Err(Error::IllegalRead(address));
            },
            7 => {
                let data = self.data_latch;
                self.data_latch = memory.ppu_read8(self.address)?;
                self.increment_address();
                data
            },
            _ => {
                return Err(Error::UnimplementedRead(address));
            },
        };
        Ok(data)
    }

    /// Serves a write to the register at offset `address` for the processor.
    pub fn write8<Memory: PpuAddressable>(
        &mut self,
        address: Address,
        data: u8,
        memory: &mut Memory,
    ) -> (r: Result<()>)
        ensures
            (r, final(self)@, final(memory)@) == old(self)@.spec_write8::<Memory>(
                address,
                data,
                old(memory)@,
            ),
    {
        let status = self.registers.status;
        assert((status & 0xe0) | (data & 0x1f) == (status / 0x20) * 0x20 + data % 0x20)
            by (bit_vector);
        self.registers.status = (status & 0xe0) | (data & STATUS_LAST_WRITE_MASK);
        match address {
            0 => {
                self.registers.controller = data;
            },
            1 => {
                self.registers.mask = data;
            },
            2 => {
                return Err(Error::IllegalWrite(address));
            },
            3 => {
                self.set_oam_address(data);
            },
            4 => {
                self.oam_data_write(data);
            },
            5 => {
                match self.scroll_axis {
                    ScrollAxis::X => {
                        self.scroll_axis = ScrollAxis::Y;
                    },
                    ScrollAxis::Y => {
                        self.scroll_axis = ScrollAxis::X;
                        self.scroll_x = self.registers.scroll;
                        self.scroll_y = data;
                    },
                }
                self.registers.scroll = data;
            },
            6 => {
                match self.address_phase {
                    AddressPhase::HIGH => {
                        self.address_phase = AddressPhase::LOW;
                    },
                    AddressPhase::LOW => {
                        self.address_phase = AddressPhase::HIGH;
                        self.address = (self.registers.address as u16) * 0x100 + (data as u16);
                    },
                }
                self.registers.address = data;
            },
            7 => {
                memory.ppu_write8(self.address, data)?;
                self.increment_address();
            },
            _ => {
                return Err(Error::UnimplementedWrite(address));
            },
        }
        Ok(())
    }
}


/// The number of sprite bytes that a line of text shows.
pub const OAM_TEXT_WIDTH: usize = 16;

impl PpuState {
    /// The four registers that the processor sets, one per line.
    pub open spec fn spec_registers_text(self) -> Seq<u8> {
        "PPUCTRL: ".spec_bytes() + spec_hex_byte(self.controller) + "\n".spec_bytes()
            + "PPUMASK: ".spec_bytes() + spec_hex_byte(self.mask) + "\n".spec_bytes()
            + "PPUSTATUS: ".spec_bytes() + spec_hex_byte(self.status) + "\n".spec_bytes()
            + "OAMADDR: ".spec_bytes() + spec_hex_byte(self.oam_address) + "\n".spec_bytes()
    }

    /// The first `count` bytes of line `line` of the sprite memory, each
    /// after a blank.
    pub open spec fn spec_oam_bytes_text(self, line: int, count: nat) -> Seq<u8>
        decreases count,
    {
        if count == 0 {
            Seq::empty()
        } else {
            self.spec_oam_bytes_text(line, (count - 1) as nat) + " ".spec_bytes() + spec_hex_byte(
                self.oam[line * OAM_TEXT_WIDTH + count - 1],
            )
        }
    }

    /// The first `count` lines of the sprite memory: the offset, a colon, and
    /// 16 bytes.
    pub open spec fn spec_oam_text(self, count: nat) -> Seq<u8>
        decreases count,
    {
        if count == 0 {
            Seq::empty()
        } else {
            self.spec_oam_text((count - 1) as nat) + "0x".spec_bytes() + spec_hex_byte(
                ((count - 1) * OAM_TEXT_WIDTH) as u8,
            ) + ":".spec_bytes() + self.spec_oam_bytes_text(count - 1, OAM_TEXT_WIDTH as nat)
                + "\n".spec_bytes()
        }
    }

    /// The picture unit as text: the scroll position, the cursor, the
    /// registers and the sprite memory.
    pub open spec fn spec_text(self) -> Seq<u8> {
        "scroll: [ x: ".spec_bytes() + spec_decimal(self.scroll_x) + ", y: ".spec_bytes()
            + spec_decimal(self.scroll_y) + " ]\n".spec_bytes() + "address: ".spec_bytes()
            + spec_hex_word(self.address) + "\n".spec_bytes() + "registers:\n".spec_bytes()
            + self.spec_registers_text() + "OAM:\n".spec_bytes() + self.spec_oam_text(
            (OAM_SIZE / OAM_TEXT_WIDTH) as nat,
        )
    }
}

impl Ppu {
    fn push_registers_text(&self, out: &mut Vec<u8>)
        ensures
            final(out)@ == old(out)@ + self@.spec_registers_text(),
    {
        push_str(out, "PPUCTRL: ");
        push_hex_byte(out, self.registers.controller);
        push_str(out, "\n");
        push_str(out, "PPUMASK: ");
        push_hex_byte(out, self.registers.mask);
        push_str(out, "\n");
        push_str(out, "PPUSTATUS: ");
        push_hex_byte(out, self.registers.status);
        push_str(out, "\n");
        push_str(out, "OAMADDR: ");
        push_hex_byte(out, self.registers.oam_address);
        push_str(out, "\n");
        assert(out@ =~= old(out)@ + self@.spec_registers_text());
    }

    fn push_oam_text(&self, out: &mut Vec<u8>)
        ensures
            final(out)@ == old(out)@ + self@.spec_oam_text((OAM_SIZE / OAM_TEXT_WIDTH) as nat),
    {
        let mut line: usize = 0;
        assert(out@ =~= old(out)@ + self@.spec_oam_text(0));
        while line < OAM_SIZE / OAM_TEXT_WIDTH
            invariant
                line <= OAM_SIZE / OAM_TEXT_WIDTH,
                out@ == old(out)@ + self@.spec_oam_text(line as nat),
            decreases OAM_SIZE / OAM_TEXT_WIDTH - line,
        {
            let ghost before = out@;
            push_str(out, "0x");
            push_hex_byte(out, (line * OAM_TEXT_WIDTH) as u8);
            push_str(out, ":");
            let ghost head = out@;
            let mut column: usize = 0;
            assert(out@ =~= head + self@.spec_oam_bytes_text(line as int, 0));
            while column < OAM_TEXT_WIDTH
                invariant
                    line < OAM_SIZE / OAM_TEXT_WIDTH,
                    column <= OAM_TEXT_WIDTH,
                    out@ == head + self@.spec_oam_bytes_text(line as int, column as nat),
                decreases OAM_TEXT_WIDTH - column,
            {
                push_str(out, " ");
                push_hex_byte(out, self.oam[line * OAM_TEXT_WIDTH + column]);
                column += 1;
                assert(out@ =~= head + self@.spec_oam_bytes_text(line as int, column as nat));
            }
            push_str(out, "\n");
            line += 1;
            assert(out@ =~= old(out)@ + self@.spec_oam_text(line as nat));
        }
    }

    /// The picture unit as ASCII text.
    pub fn text(&self) -> (out: Vec<u8>)
        ensures
            out@ == self@.spec_text(),
    {
        let mut out: Vec<u8> = Vec::new();
        push_str(&mut out, "scroll: [ x: ");
        push_decimal(&mut out, self.scroll_x);
        push_str(&mut out, ", y: ");
        push_decimal(&mut out, self.scroll_y);
        push_str(&mut out, " ]\n");
        push_str(&mut out, "address: ");
        push_hex_word(&mut out, self.address);
        push_str(&mut out, "\n");
        push_str(&mut out, "registers:\n");
        self.push_registers_text(&mut out);
        push_str(&mut out, "OAM:\n");
        self.push_oam_text(&mut out);
        assert(out@ =~= self@.spec_text());
        out
    }
}

/// The colour that a palette byte names: its low six bits.
pub open spec fn colour_of(byte: u8) -> u8 {
    byte % 64
}

/// The address of the nametable that PPUCTRL selects with its low two bits.
pub open spec fn spec_base_nametable_address(controller: u8) -> Address {
    (NAMETABLE_OFFSET + (controller % 4) * NAMETABLE_SIZE) as u16
}

/// The address of the pattern table that PPUCTRL selects for the background
/// with bit 4.
pub open spec fn spec_base_patterntable_address(controller: u8) -> Address {
    if bit(controller, 4) {
        0x1000
    } else {
        0x0000
    }
}

/// The place of a tile within its attribute byte, from 0 to 3.
pub open spec fn spec_metatile_id(tile_x: AddressDiff, tile_y: AddressDiff) -> u8 {
    ((tile_y % 2) * 2 + tile_x % 2) as u8
}

/// The two bits of the attribute byte that belong to the place `metatile`.
pub open spec fn spec_attribute_bits(attribute: u8, metatile: u8) -> u8 {
    if metatile == 0 {
        attribute % 4
    } else if metatile == 1 {
        (attribute / 4) % 4
    } else if metatile == 2 {
        (attribute / 16) % 4
    } else {
        attribute / 64
    }
}

/// The pixels after one row of a tile has been painted from column `column`
/// on, or the first refusal of the memory and the pixels painted before it.
///
/// `row_0` and `row_1` are the two planes of the row, shifted right by
/// `column`: their lowest bits give the palette index of the column, which is
/// painted at `pixel_base_x + 7 - column` unless the index is zero.
pub open spec fn spec_render_columns<M: PpuAddressable>(
    memory: M::V,
    pixels: Seq<u8>,
    palette_base: Address,
    row_0: u8,
    row_1: u8,
    pixel_base_x: int,
    pixel_y: int,
    column: int,
) -> (Result<()>, Seq<u8>)
    decreases 8 - column,
{
    if column >= 8 {
        (Ok(()), pixels)
    } else {
        let palette_index = row_0 % 2 + 2 * (row_1 % 2);
        if palette_index == 0 {
            spec_render_columns::<M>(
                memory,
                pixels,
                palette_base,
                row_0 / 2,
                row_1 / 2,
                pixel_base_x,
                pixel_y,
                column + 1,
            )
        } else {
            match M::spec_ppu_read8(memory, (palette_base + palette_index) as u16) {
                Err(e) => (Err(e), pixels),
                Ok(colour) => spec_render_columns::<M>(
                    memory,
                    pixels.update(
                        pixel_index(pixel_base_x + 7 - column, pixel_y),
                        colour_of(colour),
                    ),
                    palette_base,
                    row_0 / 2,
                    row_1 / 2,
                    pixel_base_x,
                    pixel_y,
                    column + 1,
                ),
            }
        }
    }
}

/// The pixels after the rows of a tile have been painted from row `row` on,
/// or the first refusal of the memory and the pixels painted before it. The
/// low plane of a row is at `pt_address + row`, the high plane eight bytes
/// further.
pub open spec fn spec_render_rows<M: PpuAddressable>(
    memory: M::V,
    pixels: Seq<u8>,
    pt_address: Address,
    palette_base: Address,
    pixel_base_x: int,
    pixel_base_y: int,
    row: int,
) -> (Result<()>, Seq<u8>)
    decreases 8 - row,
{
    if row >= 8 {
        (Ok(()), pixels)
    } else {
        match M::spec_ppu_read8(memory, (pt_address + row) as u16) {
            Err(e) => (Err(e), pixels),
            Ok(row_0) => match M::spec_ppu_read8(memory, (pt_address + 8 + row) as u16) {
                Err(e) => (Err(e), pixels),
                Ok(row_1) => {
                    let painted = spec_render_columns::<M>(
                        memory,
                        pixels,
                        palette_base,
                        row_0,
                        row_1,
                        pixel_base_x,
                        pixel_base_y + row,
                        0,
                    );
                    if painted.0 is Err {
                        painted
                    } else {
                        spec_render_rows::<M>(
                            memory,
                            painted.1,
                            pt_address,
                            palette_base,
                            pixel_base_x,
                            pixel_base_y,
                            row + 1,
                        )
                    }
                },
            },
        }
    }
}

/// The pixels after the tile `(tile_x, tile_y)` has been painted: its id is
/// read from the nametable, its palette from the attribute table, its rows
/// from the pattern table.
pub open spec fn spec_render_background_tile<M: PpuAddressable>(
    memory: M::V,
    pixels: Seq<u8>,
    nt_base: Address,
    pt_base: Address,
    tile_x: AddressDiff,
    tile_y: AddressDiff,
) -> (Result<()>, Seq<u8>) {
    match M::spec_ppu_read8(memory, (nt_base + tile_y * WIDTH_TILES + tile_x) as u16) {
        Err(e) => (Err(e), pixels),
        Ok(pt_index) => match M::spec_ppu_read8(
            memory,
            (nt_base + ATTRIBUTE_TABLE_OFFSET + (tile_y / 4) * 8 + tile_x / 4) as u16,
        ) {
            Err(e) => (Err(e), pixels),
            Ok(attribute) => spec_render_rows::<M>(
                memory,
                pixels,
                (pt_base + pt_index * PATTERN_TABLE_ENTRY_BYTES) as u16,
                (BACKGROUND_PALETTE_BASE + spec_attribute_bits(
                    attribute,
                    spec_metatile_id(tile_x, tile_y),
                ) * PALETTE_STRIDE) as u16,
                tile_x * TILE_WIDTH,
                tile_y * TILE_HEIGHT,
                0,
            ),
        },
    }
}

/// The pixels after the tiles have been painted from the tile of number
/// `tile` on, row by row, or the first refusal of the memory and the pixels
/// painted before it.
pub open spec fn spec_render_tiles<M: PpuAddressable>(
    memory: M::V,
    pixels: Seq<u8>,
    nt_base: Address,
    pt_base: Address,
    tile: int,
) -> (Result<()>, Seq<u8>)
    decreases WIDTH_TILES * HEIGHT_TILES - tile,
{
    if tile >= WIDTH_TILES * HEIGHT_TILES || tile < 0 {
        (Ok(()), pixels)
    } else {
        let painted = spec_render_background_tile::<M>(
            memory,
            pixels,
            nt_base,
            pt_base,
            (tile % (WIDTH_TILES as int)) as u16,
            (tile / (WIDTH_TILES as int)) as u16,
        );
        if painted.0 is Err {
            painted
        } else {
            spec_render_tiles::<M>(memory, painted.1, nt_base, pt_base, tile + 1)
        }
    }
}

/// The pixels after every pixel has taken the universal background colour,
/// which is the palette byte at `$3F00`.
pub open spec fn spec_render_universal_background<M: PpuAddressable>(
    memory: M::V,
    pixels: Seq<u8>,
) -> (Result<()>, Seq<u8>) {
    match M::spec_ppu_read8(memory, UNIVERSAL_BACKGROUND_COLOUR) {
        Err(e) => (Err(e), pixels),
        Ok(colour) => (Ok(()), Seq::new(NUM_PIXELS as nat, |i: int| colour_of(colour))),
    }
}

/// The picture of the background: every pixel takes the universal background
/// colour, then the 30 rows of 32 tiles are painted over it.
pub open spec fn spec_render<M: PpuAddressable>(memory: M::V, controller: u8, pixels: Seq<u8>) -> (
    Result<()>,
    Seq<u8>,
) {
    let filled = spec_render_universal_background::<M>(memory, pixels);
    if filled.0 is Err {
        filled
    } else {
        spec_render_tiles::<M>(
            memory,
            filled.1,
            spec_base_nametable_address(controller),
            spec_base_patterntable_address(controller),
            0,
        )
    }
}

impl Ppu {
    fn base_nametable_address(&self) -> (r: Address)
        ensures
            r == spec_base_nametable_address(self@.controller),
    {
        let controller = self.registers.controller;
        assert(controller & 0x03 == controller % 4) by (bit_vector);
        let index = self.registers.controller & CONTROLLER_BASE_NAMETABLE_ADDRESS_MASK;
        NAMETABLE_OFFSET + (index as u16) * NAMETABLE_SIZE
    }

    fn base_patterntable_address(&self) -> (r: Address)
        ensures
            r == spec_base_patterntable_address(self@.controller),
    {
        proof {
            lemma_mask_is_bit(self.registers.controller);
        }
        if self.registers.controller & CONTROLLER_BACKGROUND_PATTERN_TABLE == 0 {
            0x0000
        } else {
            0x1000
        }
    }

    fn metatile_id(tile_x: AddressDiff, tile_y: AddressDiff) -> (r: u8)
        ensures
            r == spec_metatile_id(tile_x, tile_y),
    {
        assert((((tile_y & 1) << 1) | (tile_x & 1)) == (tile_y % 2) * 2 + tile_x % 2)
            by (bit_vector);
        (((tile_y & 1) << 1) | (tile_x & 1)) as u8
    }

    fn render_tile_row<F: Frame, M: PpuAddressable>(
        frame: &mut F,
        memory: &mut M,
        palette_base: Address,
        row_0: u8,
        row_1: u8,
        pixel_base_x: AddressDiff,
        pixel_y: AddressDiff,
    ) -> (r: Result<()>)
        requires
            old(frame).pixels().len() == NUM_PIXELS,
            palette_base <= 0x3f0c,
            pixel_base_x + TILE_WIDTH <= DISPLAY_WIDTH,
            pixel_y < DISPLAY_HEIGHT,
        ensures
            (r, final(frame).pixels()) == spec_render_columns::<M>(
                old(memory)@,
                old(frame).pixels(),
                palette_base,
                row_0,
                row_1,
                pixel_base_x as int,
                pixel_y as int,
                0,
            ),
            final(frame).pixels().len() == NUM_PIXELS,
            final(memory)@ == old(memory)@,
    {
        let mut plane_0 = row_0;
        let mut plane_1 = row_1;
        let mut j: AddressDiff = 0;
        while j < TILE_WIDTH
            invariant
                j <= TILE_WIDTH,
                frame.pixels().len() == NUM_PIXELS,
                memory@ == old(memory)@,
                palette_base <= 0x3f0c,
                pixel_base_x + TILE_WIDTH <= DISPLAY_WIDTH,
                pixel_y < DISPLAY_HEIGHT,
                spec_render_columns::<M>(
                    memory@,
                    frame.pixels(),
                    palette_base,
                    plane_0,
                    plane_1,
                    pixel_base_x as int,
                    pixel_y as int,
                    j as int,
                ) == spec_render_columns::<M>(
                    old(memory)@,
                    old(frame).pixels(),
                    palette_base,
                    row_0,
                    row_1,
                    pixel_base_x as int,
                    pixel_y as int,
                    0,
                ),
            decreases TILE_WIDTH - j,
        {
            proof {
                assert(((plane_0 & 1) | ((plane_1 & 1) << 1)) == plane_0 % 2 + 2 * (plane_1 % 2))
                    by (bit_vector);
                lemma_shift_is_arithmetic(plane_0);
                lemma_shift_is_arithmetic(plane_1);
            }
            let palette_index = (plane_0 & 1) | ((plane_1 & 1) << 1);
            plane_0 >>= 1;
            plane_1 >>= 1;
            if palette_index != 0 {
                let palette_address = palette_base + palette_index as AddressDiff;
                let colour = memory.ppu_read8(palette_address)?;
                assert(colour & 0x3f == colour % 64) by (bit_vector);
                let pixel_x = pixel_base_x + TILE_WIDTH - 1 - j;
                frame.set_pixel(pixel_x as usize, pixel_y as usize, colour & 0x3f);
            }
            j += 1;
        }
        Ok(())
    }

    fn render_background_tile<F: Frame, M: PpuAddressable>(
        &mut self,
        frame: &mut F,
        memory: &mut M,
        nt_base: Address,
        nt_offset: AddressDiff,
        pt_base: Address,
        tile_x: AddressDiff,
        tile_y: AddressDiff,
    ) -> (r: Result<()>)
        requires
            old(frame).pixels().len() == NUM_PIXELS,
            nt_base <= 0x2c00,
            pt_base <= 0x1000,
            tile_x < WIDTH_TILES,
            tile_y < HEIGHT_TILES,
            nt_offset == tile_y * WIDTH_TILES + tile_x,
        ensures
            (r, final(frame).pixels()) == spec_render_background_tile::<M>(
                old(memory)@,
                old(frame).pixels(),
                nt_base,
                pt_base,
                tile_x,
                tile_y,
            ),
            final(frame).pixels().len() == NUM_PIXELS,
            final(memory)@ == old(memory)@,
            final(self)@ == old(self)@,
    {
        let nt_address = nt_base + nt_offset;
        let pt_index = memory.ppu_read8(nt_address)? as AddressDiff;
        let pt_offset = pt_index * PATTERN_TABLE_ENTRY_BYTES;
        let pt_address = pt_base + pt_offset;
        let at_base = nt_base + ATTRIBUTE_TABLE_OFFSET;
        let at_index = (tile_y / 4) * (WIDTH_TILES / 4) + (tile_x / 4);
        let at_byte_address = at_base + at_index;
        let at_byte = memory.ppu_read8(at_byte_address)?;
        let metatile = Self::metatile_id(tile_x, tile_y);
        assert(metatile < 4 ==> (at_byte >> (metatile * 2)) & 3 == if metatile == 0 {
            at_byte % 4
        } else if metatile == 1 {
            (at_byte / 4) % 4
        } else if metatile == 2 {
            (at_byte / 16) % 4
        } else {
            at_byte / 64
        }) by (bit_vector);
        let at_bits = (at_byte >> (metatile * 2)) & 3;
        let palette_base = BACKGROUND_PALETTE_BASE + at_bits as AddressDiff * PALETTE_STRIDE;
        let pixel_base_x = tile_x * TILE_WIDTH;
        let pixel_base_y = tile_y * TILE_HEIGHT;
        let ghost start = frame.pixels();
        let mut i: AddressDiff = 0;
        while i < TILE_HEIGHT
            invariant
                i <= TILE_HEIGHT,
                frame.pixels().len() == NUM_PIXELS,
                memory@ == old(memory)@,
                self@ == old(self)@,
                palette_base <= 0x3f0c,
                pt_address <= 0x1ff0,
                pixel_base_x + TILE_WIDTH <= DISPLAY_WIDTH,
                pixel_base_y + TILE_HEIGHT <= DISPLAY_HEIGHT,
                spec_render_rows::<M>(
                    memory@,
                    frame.pixels(),
                    pt_address,
                    palette_base,
                    pixel_base_x as int,
                    pixel_base_y as int,
                    i as int,
                ) == spec_render_rows::<M>(
                    old(memory)@,
                    start,
                    pt_address,
                    palette_base,
                    pixel_base_x as int,
                    pixel_base_y as int,
                    0,
                ),
                spec_render_rows::<M>(
                    old(memory)@,
                    start,
                    pt_address,
                    palette_base,
                    pixel_base_x as int,
                    pixel_base_y as int,
                    0,
                ) == spec_render_background_tile::<M>(
                    old(memory)@,
                    old(frame).pixels(),
                    nt_base,
                    pt_base,
                    tile_x,
                    tile_y,
                ),
            decreases TILE_HEIGHT - i,
        {
            let row_0 = memory.ppu_read8(pt_address + i)?;
            let row_1 = memory.ppu_read8(pt_address + TILE_HEIGHT + i)?;
            let pixel_y = pixel_base_y + i;
            Self::render_tile_row(frame, memory, palette_base, row_0, row_1, pixel_base_x, pixel_y)?;
            i += 1;
        }
        Ok(())
    }

    fn render_universal_background<F: Frame, M: PpuAddressable>(
        &mut self,
        frame: &mut F,
        memory: &mut M,
    ) -> (r: Result<()>)
        requires
            old(frame).pixels().len() == NUM_PIXELS,
        ensures
            (r, final(frame).pixels()) == spec_render_universal_background::<M>(
                old(memory)@,
                old(frame).pixels(),
            ),
            final(frame).pixels().len() == NUM_PIXELS,
            final(memory)@ == old(memory)@,
            final(self)@ == old(self)@,
    {
        let colour = memory.ppu_read8(UNIVERSAL_BACKGROUND_COLOUR)?;
        assert(colour & 0x3f == colour % 64) by (bit_vector);
        let colour = colour & 0x3f;
        let mut i: usize = 0;
        while i < DISPLAY_HEIGHT
            invariant
                i <= DISPLAY_HEIGHT,
                colour < 64,
                frame.pixels().len() == NUM_PIXELS,
                memory@ == old(memory)@,
                self@ == old(self)@,
                forall|k: int| 0 <= k < i * DISPLAY_WIDTH ==> frame.pixels()[k] == colour,
            decreases DISPLAY_HEIGHT - i,
        {
            let mut j: usize = 0;
            while j < DISPLAY_WIDTH
                invariant
                    i < DISPLAY_HEIGHT,
                    j <= DISPLAY_WIDTH,
                    colour < 64,
                    frame.pixels().len() == NUM_PIXELS,
                    memory@ == old(memory)@,
                    self@ == old(self)@,
                    forall|k: int| 0 <= k < i * DISPLAY_WIDTH + j ==> frame.pixels()[k] == colour,
                decreases DISPLAY_WIDTH - j,
            {
                frame.set_pixel(j, i, colour);
                j += 1;
            }
            i += 1;
        }
        assert(frame.pixels() =~= Seq::new(NUM_PIXELS as nat, |i: int| colour));
        Ok(())
    }

    fn render_background<F: Frame, M: PpuAddressable>(
        &mut self,
        frame: &mut F,
        memory: &mut M,
    ) -> (r: Result<()>)
        requires
            old(frame).pixels().len() == NUM_PIXELS,
        ensures
            (r, final(frame).pixels()) == spec_render_tiles::<M>(
                old(memory)@,
                old(frame).pixels(),
                spec_base_nametable_address(old(self)@.controller),
                spec_base_patterntable_address(old(self)@.controller),
                0,
            ),
            final(frame).pixels().len() == NUM_PIXELS,
            final(memory)@ == old(memory)@,
            final(self)@ == old(self)@,
    {
        let base_address = self.base_nametable_address();
        let patterntable_address = self.base_patterntable_address();
        let mut tile: AddressDiff = 0;
        while tile < WIDTH_TILES * HEIGHT_TILES
            invariant
                tile <= WIDTH_TILES * HEIGHT_TILES,
                frame.pixels().len() == NUM_PIXELS,
                memory@ == old(memory)@,
                self@ == old(self)@,
                base_address <= 0x2c00,
                patterntable_address <= 0x1000,
                base_address == spec_base_nametable_address(old(self)@.controller),
                patterntable_address == spec_base_patterntable_address(old(self)@.controller),
                spec_render_tiles::<M>(
                    memory@,
                    frame.pixels(),
                    base_address,
                    patterntable_address,
                    tile as int,
                ) == spec_render_tiles::<M>(
                    old(memory)@,
                    old(frame).pixels(),
                    base_address,
                    patterntable_address,
                    0,
                ),
            decreases WIDTH_TILES * HEIGHT_TILES - tile,
        {
            let tile_x = tile % WIDTH_TILES;
            let tile_y = tile / WIDTH_TILES;
            self.render_background_tile(
                frame,
                memory,
                base_address,
                tile,
                patterntable_address,
                tile_x,
                tile_y,
            )?;
            tile += 1;
        }
        Ok(())
    }

    /// Paints the background into `frame`.
    ///
    /// The picture unit and the memory stay as they are. Where the memory
    /// refuses a read, painting stops there and the refusal is returned; the
    /// frame keeps what was painted before.
    pub fn render<F: Frame, M: PpuAddressable>(&mut self, frame: &mut F, memory: &mut M) -> (r:
        Result<()>)
        requires
            old(frame).pixels().len() == NUM_PIXELS,
        ensures
            (r, final(frame).pixels()) == spec_render::<M>(
                old(memory)@,
                old(self)@.controller,
                old(frame).pixels(),
            ),
            final(frame).pixels().len() == NUM_PIXELS,
            final(memory)@ == old(memory)@,
            final(self)@ == old(self)@,
    {
        self.render_universal_background(frame, memory)?;
        self.render_background(frame, memory)?;
        Ok(())
    }
}

} // verus!
