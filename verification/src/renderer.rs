//! The frame: the sink that takes the pixels of a picture.

use vstd::prelude::*;

verus! {

pub const DISPLAY_WIDTH: usize = 256;

pub const DISPLAY_HEIGHT: usize = 240;

pub const NUM_PIXELS: usize = 61440;

/// The number of colours that the picture unit can name.
pub const NUM_COLOURS: u8 = 64;

/// The place of the pixel `(x, y)` in a frame's pixels.
pub open spec fn pixel_index(x: int, y: int) -> int {
    y * DISPLAY_WIDTH + x
}

/// A picture of 256 by 240 pixels that is painted pixel by pixel.
///
/// Its pixels are colour indices, row after row from the top, each row from
/// the left.
pub trait Frame {
    /// The colour index of every pixel.
    spec fn pixels(&self) -> Seq<u8>;

    fn set_pixel(&mut self, x: usize, y: usize, colour: u8)
        requires
            x < DISPLAY_WIDTH,
            y < DISPLAY_HEIGHT,
            colour < NUM_COLOURS,
            old(self).pixels().len() == NUM_PIXELS,
        ensures
            final(self).pixels() == old(self).pixels().update(
                pixel_index(x as int, y as int),
                colour,
            ),
    ;
}

/// A frame that keeps the colour index of every pixel.
pub struct FrameBuffer {
    pub pixels: Vec<u8>,
}

impl FrameBuffer {
    /// A frame whose pixels all have the colour index 0.
    pub fn new() -> (r: Self)
        ensures
            r.pixels@ == Seq::new(NUM_PIXELS as nat, |i: int| 0u8),
    {
        let pixels = vec![0u8; NUM_PIXELS];
        assert(pixels@ =~= Seq::new(NUM_PIXELS as nat, |i: int| 0u8));
        FrameBuffer { pixels }
    }

    /// The colour index of the pixel `(x, y)`.
    pub fn get(&self, x: usize, y: usize) -> (colour: u8)
        requires
            x < DISPLAY_WIDTH,
            y < DISPLAY_HEIGHT,
            self.pixels@.len() == NUM_PIXELS,
        ensures
            colour == self.pixels@[pixel_index(x as int, y as int)],
    {
        self.pixels[y * DISPLAY_WIDTH + x]
    }
}

impl Frame for FrameBuffer {
    open spec fn pixels(&self) -> Seq<u8> {
        self.pixels@
    }

    fn set_pixel(&mut self, x: usize, y: usize, colour: u8) {
        self.pixels[y * DISPLAY_WIDTH + x] = colour;
    }
}

} // verus!
