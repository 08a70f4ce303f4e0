//! A frame in the layout of an RGB24 texture: three bytes per pixel, rows
//! `pitch` bytes apart.

use vstd::prelude::*;
use crate::renderer::{pixel_index, Frame, NUM_PIXELS};

verus! {

/// The number of bytes of one pixel.
pub const BYTES_PER_PIXEL: usize = 3;

/// Red, green and blue of a pixel.
pub struct Rgb {
    pub red: u8,
    pub green: u8,
    pub blue: u8,
}

/// The colour of the console's palette that a colour index names.
pub open spec fn spec_convert_colour(nes_colour: u8) -> Rgb {
    let rgb = spec_colour_table()[nes_colour as int];
    Rgb { red: rgb.0, green: rgb.1, blue: rgb.2 }
}

/// The 64 colours of the console's palette, by colour index.
pub open spec fn spec_colour_table() -> Seq<(u8, u8, u8)> {
    seq![
        (124, 124, 124), (0, 0, 252), (0, 0, 118), (68, 40, 188),
        (140, 0, 32), (168, 16, 0), (168, 0, 16), (136, 20, 0),
        (80, 48, 0), (0, 120, 0), (0, 104, 0), (0, 88, 0),
        (0, 64, 88), (0, 0, 0), (0, 0, 0), (0, 0, 0),
        (188, 188, 188), (0, 120, 248), (0, 88, 248), (104, 68, 252),
        (216, 0, 204), (228, 0, 88), (248, 56, 0), (228, 92, 16),
        (172, 124, 0), (0, 184, 0), (0, 168, 0), (0, 168, 68),
        (0, 136, 136), (0, 0, 0), (0, 0, 0), (0, 0, 0),
        (248, 248, 248), (60, 188, 252), (104, 136, 252), (152, 120, 248),
        (248, 120, 248), (248, 88, 152), (248, 120, 88), (252, 160, 68),
        (248, 184, 0), (184, 248, 24), (88, 216, 84), (88, 248, 152),
        (0, 232, 216), (120, 120, 120), (0, 0, 0), (0, 0, 0),
        (252, 252, 252), (164, 228, 252), (184, 184, 248), (216, 184, 248),
        (248, 184, 248), (248, 164, 192), (240, 208, 176), (252, 224, 168),
        (248, 216, 120), (216, 248, 120), (184, 248, 184), (184, 248, 216),
        (0, 252, 252), (216, 216, 216), (0, 0, 0), (0, 0, 0),
    ]
}

/// A frame that holds its pixels as RGB bytes.
pub struct SdlFrame {
    /// The bytes of the texture.
    pub buffer: Vec<u8>,
    /// The number of bytes from one row to the next.
    pub pitch: usize,
    /// The colour index that each pixel was last painted with, 0 where it was
    /// never painted.
    pub painted: Ghost<Seq<u8>>,
}

/// The offset in the buffer at which the pixel `(x, y)` starts.
pub open spec fn spec_pixel_offset(pitch: usize, x: int, y: int) -> int {
    y * pitch + x * BYTES_PER_PIXEL
}

/// The bytes of a buffer after the pixel at `offset` has taken the colour
/// `rgb`. A pixel that does not lie within the buffer with all its bytes is
/// dropped.
pub open spec fn spec_put_rgb(buffer: Seq<u8>, offset: int, rgb: Rgb) -> Seq<u8> {
    if offset + 2 < buffer.len() {
        buffer.update(offset, rgb.red).update(offset + 1, rgb.green).update(offset + 2, rgb.blue)
    } else {
        buffer
    }
}

impl SdlFrame {
    pub fn new(buffer: Vec<u8>, pitch: usize) -> (r: Self)
        ensures
            r.buffer == buffer,
            r.pitch == pitch,
            r.painted@ == Seq::new(NUM_PIXELS as nat, |i: int| 0u8),
    {
        SdlFrame { buffer, pitch, painted: Ghost(Seq::new(NUM_PIXELS as nat, |i: int| 0u8)) }
    }

    /// Looks a colour index up in the console's palette.
    pub fn convert_colour(nes_colour: u8) -> (rgb: (u8, u8, u8))
        requires
            nes_colour < 64,
        ensures
            (Rgb { red: rgb.0, green: rgb.1, blue: rgb.2 }) == spec_convert_colour(nes_colour),
    {
        match nes_colour {
            0x00 => (124, 124, 124),
            0x01 => (0, 0, 252),
            0x02 => (0, 0, 118),
            0x03 => (68, 40, 188),
            0x04 => (140, 0, 32),
            0x05 => (168, 16, 0),
            0x06 => (168, 0, 16),
            0x07 => (136, 20, 0),
            0x08 => (80, 48, 0),
            0x09 => (0, 120, 0),
            0x0a => (0, 104, 0),
            0x0b => (0, 88, 0),
            0x0c => (0, 64, 88),
            0x0d => (0, 0, 0),
            0x0e => (0, 0, 0),
            0x0f => (0, 0, 0),
            0x10 => (188, 188, 188),
            0x11 => (0, 120, 248),
            0x12 => (0, 88, 248),
            0x13 => (104, 68, 252),
            0x14 => (216, 0, 204),
            0x15 => (228, 0, 88),
            0x16 => (248, 56, 0),
            0x17 => (228, 92, 16),
            0x18 => (172, 124, 0),
            0x19 => (0, 184, 0),
            0x1a => (0, 168, 0),
            0x1b => (0, 168, 68),
            0x1c => (0, 136, 136),
            0x1d => (0, 0, 0),
            0x1e => (0, 0, 0),
            0x1f => (0, 0, 0),
            0x20 => (248, 248, 248),
            0x21 => (60, 188, 252),
            0x22 => (104, 136, 252),
            0x23 => (152, 120, 248),
            0x24 => (248, 120, 248),
            0x25 => (248, 88, 152),
            0x26 => (248, 120, 88),
            0x27 => (252, 160, 68),
            0x28 => (248, 184, 0),
            0x29 => (184, 248, 24),
            0x2a => (88, 216, 84),
            0x2b => (88, 248, 152),
            0x2c => (0, 232, 216),
            0x2d => (120, 120, 120),
            0x2e => (0, 0, 0),
            0x2f => (0, 0, 0),
            0x30 => (252, 252, 252),
            0x31 => (164, 228, 252),
            0x32 => (184, 184, 248),
            0x33 => (216, 184, 248),
            0x34 => (248, 184, 248),
            0x35 => (248, 164, 192),
            0x36 => (240, 208, 176),
            0x37 => (252, 224, 168),
            0x38 => (248, 216, 120),
            0x39 => (216, 248, 120),
            0x3a => (184, 248, 184),
            0x3b => (184, 248, 216),
            0x3c => (0, 252, 252),
            0x3d => (216, 216, 216),
            0x3e => (0, 0, 0),
            _ => (0, 0, 0),
        }
    }
}

impl Frame for SdlFrame {
    open spec fn pixels(&self) -> Seq<u8> {
        self.painted@
    }

    /// Paints the three bytes of the pixel. A pixel that does not lie within
    /// the buffer is dropped.
    fn set_pixel(&mut self, x: usize, y: usize, colour: u8)
        ensures
            final(self).pitch == old(self).pitch,
            final(self).buffer@ == spec_put_rgb(
                old(self).buffer@,
                spec_pixel_offset(old(self).pitch, x as int, y as int),
                spec_convert_colour(colour),
            ),
    {
        proof {
            self.painted@ = self.painted@.update(pixel_index(x as int, y as int), colour);
        }
        let (r, g, b) = Self::convert_colour(colour);
        let len = self.buffer.len();
        let row = match y.checked_mul(self.pitch) {
            Some(row) => row,
            None => {
                return ;
            },
        };
        let offset = match row.checked_add(x * BYTES_PER_PIXEL) {
            Some(offset) => offset,
            None => {
                return ;
            },
        };
        if offset < len && 2 < len - offset {
            self.buffer[offset] = r;
            self.buffer[offset + 1] = g;
            self.buffer[offset + 2] = b;
        }
    }
}

} // verus!
