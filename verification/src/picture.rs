//! The picture that the background renderer paints, pixel by pixel.

use vstd::prelude::*;
use crate::addressable::{Address, AddressDiff, PpuAddressable};
use crate::bits::bit;
use crate::ppu::{
    colour_of,
    spec_attribute_bits,
    spec_base_nametable_address,
    spec_base_patterntable_address,
    spec_metatile_id,
    spec_render,
    spec_render_background_tile,
    spec_render_columns,
    spec_render_rows,
    spec_render_tiles,
    spec_render_universal_background,
    ATTRIBUTE_TABLE_OFFSET,
    BACKGROUND_PALETTE_BASE,
    HEIGHT_TILES,
    PALETTE_STRIDE,
    PATTERN_TABLE_ENTRY_BYTES,
    UNIVERSAL_BACKGROUND_COLOUR,
    WIDTH_TILES,
};
use crate::renderer::{pixel_index, DISPLAY_HEIGHT, DISPLAY_WIDTH, NUM_PIXELS};

verus! {

/// The byte that the memory answers at `address`, where it answers.
pub open spec fn spec_byte_at<M: PpuAddressable>(memory: M::V, address: int) -> u8 {
    M::spec_ppu_read8(memory, address as u16)->Ok_0
}

/// The palette index of a pixel: bit `column` of the low plane, and twice bit
/// `column` of the high plane.
pub open spec fn spec_palette_index(low: u8, high: u8, column: int) -> int {
    (if bit(low, column) {
        1int
    } else {
        0int
    }) + (if bit(high, column) {
        2int
    } else {
        0int
    })
}

/// The address of the palette byte that colours a pixel of the tile whose
/// pattern starts at `pt_address` and whose palette starts at `palette_base`:
/// palette index zero is transparent and shows the universal background
/// colour.
pub open spec fn spec_colour_address<M: PpuAddressable>(
    memory: M::V,
    pt_address: int,
    palette_base: int,
    row: int,
    column: int,
) -> int {
    let index = spec_palette_index(
        spec_byte_at::<M>(memory, pt_address + row),
        spec_byte_at::<M>(memory, pt_address + 8 + row),
        column,
    );
    if index == 0 {
        UNIVERSAL_BACKGROUND_COLOUR as int
    } else {
        palette_base + index
    }
}

/// The address at which the pattern of the tile `(tile_x, tile_y)` starts.
pub open spec fn spec_pattern_address<M: PpuAddressable>(
    memory: M::V,
    controller: u8,
    tile_x: int,
    tile_y: int,
) -> int {
    spec_base_patterntable_address(controller) + spec_byte_at::<M>(
        memory,
        spec_base_nametable_address(controller) + tile_y * WIDTH_TILES + tile_x,
    ) * PATTERN_TABLE_ENTRY_BYTES
}

/// The address at which the palette of the tile `(tile_x, tile_y)` starts.
pub open spec fn spec_palette_address<M: PpuAddressable>(
    memory: M::V,
    controller: u8,
    tile_x: int,
    tile_y: int,
) -> int {
    BACKGROUND_PALETTE_BASE + spec_attribute_bits(
        spec_byte_at::<M>(
            memory,
            spec_base_nametable_address(controller) + ATTRIBUTE_TABLE_OFFSET + (tile_y / 4) * 8
                + tile_x / 4,
        ),
        spec_metatile_id(tile_x as u16, tile_y as u16),
    ) * PALETTE_STRIDE
}

/// The colour of the pixel `(x, y)` of the background: the pixel lies in the
/// tile `(x / 8, y / 8)`, in its row `y mod 8`, and is coloured by bit
/// `7 - x mod 8` of the two planes of that row.
pub open spec fn spec_background_pixel<M: PpuAddressable>(
    memory: M::V,
    controller: u8,
    x: int,
    y: int,
) -> u8 {
    colour_of(
        spec_byte_at::<M>(
            memory,
            spec_colour_address::<M>(
                memory,
                spec_pattern_address::<M>(memory, controller, x / 8, y / 8),
                spec_palette_address::<M>(memory, controller, x / 8, y / 8),
                y % 8,
                7 - x % 8,
            ),
        ),
    )
}

/// Bit `k` of half a byte is bit `k + 1` of the byte.
proof fn lemma_bit_of_half(v: u8, k: int)
    requires
        0 <= k < 7,
    ensures
        bit((v / 2) as u8, k) == bit(v, k + 1),
        bit(v, 0) == (v % 2 == 1),
{
}

/// What painting the columns of a row from `column` on leaves at the pixel
/// `(x, y)`.
proof fn lemma_columns<M: PpuAddressable>(
    memory: M::V,
    pixels: Seq<u8>,
    palette_base: Address,
    row_0: u8,
    row_1: u8,
    pixel_base_x: int,
    pixel_y: int,
    column: int,
    x: int,
    y: int,
)
    requires
        0 <= column <= 8,
        0 <= pixel_base_x <= DISPLAY_WIDTH - 8,
        0 <= pixel_y < DISPLAY_HEIGHT,
        0 <= x < DISPLAY_WIDTH,
        0 <= y < DISPLAY_HEIGHT,
        pixels.len() == NUM_PIXELS,
        palette_base <= 0x3f0c,
        spec_render_columns::<M>(
            memory,
            pixels,
            palette_base,
            row_0,
            row_1,
            pixel_base_x,
            pixel_y,
            column,
        ).0 is Ok,
    ensures
        ({
            let painted = spec_render_columns::<M>(
                memory,
                pixels,
                palette_base,
                row_0,
                row_1,
                pixel_base_x,
                pixel_y,
                column,
            ).1;
            let index = spec_palette_index(row_0, row_1, pixel_base_x + 7 - x - column);
            &&& painted.len() == NUM_PIXELS
            &&& painted[pixel_index(x, y)] == if y == pixel_y && pixel_base_x <= x
                && x + column <= pixel_base_x + 7 && index != 0 {
                colour_of(spec_byte_at::<M>(memory, palette_base + index))
            } else {
                pixels[pixel_index(x, y)]
            }
        }),
    decreases 8 - column,
{
    if column < 8 {
        let index = row_0 % 2 + 2 * (row_1 % 2);
        let next = if index == 0 {
            pixels
        } else {
            pixels.update(
                pixel_index(pixel_base_x + 7 - column, pixel_y),
                colour_of(spec_byte_at::<M>(memory, palette_base + index)),
            )
        };
        lemma_columns::<M>(
            memory,
            next,
            palette_base,
            row_0 / 2,
            row_1 / 2,
            pixel_base_x,
            pixel_y,
            column + 1,
            x,
            y,
        );
        let distance = pixel_base_x + 7 - x - column;
        lemma_bit_of_half(row_0, 0);
        lemma_bit_of_half(row_1, 0);
        if 1 <= distance <= 7 {
            lemma_bit_of_half(row_0, distance - 1);
            lemma_bit_of_half(row_1, distance - 1);
        }
    }
}

/// What painting the rows of a tile from `row` on leaves at the pixel
/// `(x, y)`.
proof fn lemma_rows<M: PpuAddressable>(
    memory: M::V,
    pixels: Seq<u8>,
    pt_address: Address,
    palette_base: Address,
    pixel_base_x: int,
    pixel_base_y: int,
    row: int,
    x: int,
    y: int,
)
    requires
        0 <= row <= 8,
        0 <= pixel_base_x <= DISPLAY_WIDTH - 8,
        0 <= pixel_base_y <= DISPLAY_HEIGHT - 8,
        0 <= x < DISPLAY_WIDTH,
        0 <= y < DISPLAY_HEIGHT,
        pixels.len() == NUM_PIXELS,
        BACKGROUND_PALETTE_BASE <= palette_base <= 0x3f0c,
        pt_address <= 0x1ff0,
        spec_render_rows::<M>(
            memory,
            pixels,
            pt_address,
            palette_base,
            pixel_base_x,
            pixel_base_y,
            row,
        ).0 is Ok,
    ensures
        ({
            let painted = spec_render_rows::<M>(
                memory,
                pixels,
                pt_address,
                palette_base,
                pixel_base_x,
                pixel_base_y,
                row,
            ).1;
            let address = spec_colour_address::<M>(
                memory,
                pt_address as int,
                palette_base as int,
                y - pixel_base_y,
                pixel_base_x + 7 - x,
            );
            &&& painted.len() == NUM_PIXELS
            &&& painted[pixel_index(x, y)] == if pixel_base_x <= x < pixel_base_x + 8
                && pixel_base_y + row <= y < pixel_base_y + 8 && address
                != UNIVERSAL_BACKGROUND_COLOUR {
                colour_of(spec_byte_at::<M>(memory, address))
            } else {
                pixels[pixel_index(x, y)]
            }
        }),
    decreases 8 - row,
{
    if row < 8 {
        let row_0 = spec_byte_at::<M>(memory, pt_address + row);
        let row_1 = spec_byte_at::<M>(memory, pt_address + 8 + row);
        let painted = spec_render_columns::<M>(
            memory,
            pixels,
            palette_base,
            row_0,
            row_1,
            pixel_base_x,
            pixel_base_y + row,
            0,
        );
        lemma_columns::<M>(
            memory,
            pixels,
            palette_base,
            row_0,
            row_1,
            pixel_base_x,
            pixel_base_y + row,
            0,
            x,
            y,
        );
        lemma_rows::<M>(
            memory,
            painted.1,
            pt_address,
            palette_base,
            pixel_base_x,
            pixel_base_y,
            row + 1,
            x,
            y,
        );
    }
}

/// The number of the tile in which the pixel `(x, y)` lies.
pub open spec fn spec_tile_of(x: int, y: int) -> int {
    (y / 8) * WIDTH_TILES + x / 8
}

/// What painting the tiles from `tile` on leaves at the pixel `(x, y)`.
proof fn lemma_tiles<M: PpuAddressable>(
    memory: M::V,
    controller: u8,
    pixels: Seq<u8>,
    tile: int,
    x: int,
    y: int,
)
    requires
        0 <= tile <= WIDTH_TILES * HEIGHT_TILES,
        0 <= x < DISPLAY_WIDTH,
        0 <= y < DISPLAY_HEIGHT,
        pixels.len() == NUM_PIXELS,
        spec_render_tiles::<M>(
            memory,
            pixels,
            spec_base_nametable_address(controller),
            spec_base_patterntable_address(controller),
            tile,
        ).0 is Ok,
    ensures
        ({
            let painted = spec_render_tiles::<M>(
                memory,
                pixels,
                spec_base_nametable_address(controller),
                spec_base_patterntable_address(controller),
                tile,
            ).1;
            let address = spec_colour_address::<M>(
                memory,
                spec_pattern_address::<M>(memory, controller, x / 8, y / 8),
                spec_palette_address::<M>(memory, controller, x / 8, y / 8),
                y % 8,
                7 - x % 8,
            );
            &&& painted.len() == NUM_PIXELS
            &&& painted[pixel_index(x, y)] == if tile <= spec_tile_of(x, y) && address
                != UNIVERSAL_BACKGROUND_COLOUR {
                colour_of(spec_byte_at::<M>(memory, address))
            } else {
                pixels[pixel_index(x, y)]
            }
        }),
    decreases WIDTH_TILES * HEIGHT_TILES - tile,
{
    if tile < WIDTH_TILES * HEIGHT_TILES {
        let nt_base = spec_base_nametable_address(controller);
        let pt_base = spec_base_patterntable_address(controller);
        let tile_x = tile % (WIDTH_TILES as int);
        let tile_y = tile / (WIDTH_TILES as int);
        let painted = spec_render_background_tile::<M>(
            memory,
            pixels,
            nt_base,
            pt_base,
            tile_x as u16,
            tile_y as u16,
        );
        let pt_address = spec_pattern_address::<M>(memory, controller, tile_x, tile_y);
        let palette_base = spec_palette_address::<M>(memory, controller, tile_x, tile_y);
        lemma_rows::<M>(
            memory,
            pixels,
            pt_address as u16,
            palette_base as u16,
            tile_x * 8,
            tile_y * 8,
            0,
            x,
            y,
        );
        lemma_tiles::<M>(memory, controller, painted.1, tile + 1, x, y);
    }
}

/// Where the renderer succeeds, every pixel of the frame has the colour of the
/// background at its place, whatever the frame held before.
pub proof fn lemma_render_paints_the_background<M: PpuAddressable>(
    memory: M::V,
    controller: u8,
    pixels: Seq<u8>,
    x: int,
    y: int,
)
    requires
        0 <= x < DISPLAY_WIDTH,
        0 <= y < DISPLAY_HEIGHT,
        spec_render::<M>(memory, controller, pixels).0 is Ok,
    ensures
        spec_render::<M>(memory, controller, pixels).1.len() == NUM_PIXELS,
        spec_render::<M>(memory, controller, pixels).1[pixel_index(x, y)]
            == spec_background_pixel::<M>(memory, controller, x, y),
{
    let filled = spec_render_universal_background::<M>(memory, pixels);
    lemma_tiles::<M>(memory, controller, filled.1, 0, x, y);
}

/// Whether the memory answers every read up to `$3FFF`.
pub open spec fn spec_serves_reads<M: PpuAddressable>(memory: M::V) -> bool {
    forall|address: Address| address <= 0x3fff ==> (#[trigger] M::spec_ppu_read8(
        memory,
        address,
    )) is Ok
}

proof fn lemma_columns_succeed<M: PpuAddressable>(
    memory: M::V,
    pixels: Seq<u8>,
    palette_base: Address,
    row_0: u8,
    row_1: u8,
    pixel_base_x: int,
    pixel_y: int,
    column: int,
)
    requires
        spec_serves_reads::<M>(memory),
        palette_base <= 0x3f0c,
        0 <= column <= 8,
    ensures
        spec_render_columns::<M>(
            memory,
            pixels,
            palette_base,
            row_0,
            row_1,
            pixel_base_x,
            pixel_y,
            column,
        ).0 is Ok,
    decreases 8 - column,
{
    if column < 8 {
        let index = row_0 % 2 + 2 * (row_1 % 2);
        let read = M::spec_ppu_read8(memory, (palette_base + index) as u16);
        let next = if index == 0 {
            pixels
        } else {
            pixels.update(
                pixel_index(pixel_base_x + 7 - column, pixel_y),
                colour_of(read->Ok_0),
            )
        };
        lemma_columns_succeed::<M>(
            memory,
            next,
            palette_base,
            row_0 / 2,
            row_1 / 2,
            pixel_base_x,
            pixel_y,
            column + 1,
        );
    }
}

proof fn lemma_rows_succeed<M: PpuAddressable>(
    memory: M::V,
    pixels: Seq<u8>,
    pt_address: Address,
    palette_base: Address,
    pixel_base_x: int,
    pixel_base_y: int,
    row: int,
)
    requires
        spec_serves_reads::<M>(memory),
        palette_base <= 0x3f0c,
        pt_address <= 0x1ff0,
        0 <= row <= 8,
    ensures
        spec_render_rows::<M>(
            memory,
            pixels,
            pt_address,
            palette_base,
            pixel_base_x,
            pixel_base_y,
            row,
        ).0 is Ok,
    decreases 8 - row,
{
    if row < 8 {
        let row_0 = M::spec_ppu_read8(memory, (pt_address + row) as u16);
        let row_1 = M::spec_ppu_read8(memory, (pt_address + 8 + row) as u16);
        lemma_columns_succeed::<M>(
            memory,
            pixels,
            palette_base,
            row_0->Ok_0,
            row_1->Ok_0,
            pixel_base_x,
            pixel_base_y + row,
            0,
        );
        let painted = spec_render_columns::<M>(
            memory,
            pixels,
            palette_base,
            row_0->Ok_0,
            row_1->Ok_0,
            pixel_base_x,
            pixel_base_y + row,
            0,
        );
        lemma_rows_succeed::<M>(
            memory,
            painted.1,
            pt_address,
            palette_base,
            pixel_base_x,
            pixel_base_y,
            row + 1,
        );
    }
}

proof fn lemma_tiles_succeed<M: PpuAddressable>(
    memory: M::V,
    controller: u8,
    pixels: Seq<u8>,
    tile: int,
)
    requires
        spec_serves_reads::<M>(memory),
        0 <= tile <= WIDTH_TILES * HEIGHT_TILES,
    ensures
        spec_render_tiles::<M>(
            memory,
            pixels,
            spec_base_nametable_address(controller),
            spec_base_patterntable_address(controller),
            tile,
        ).0 is Ok,
    decreases WIDTH_TILES * HEIGHT_TILES - tile,
{
    if tile < WIDTH_TILES * HEIGHT_TILES {
        let nt_base = spec_base_nametable_address(controller);
        let pt_base = spec_base_patterntable_address(controller);
        let tile_x = tile % (WIDTH_TILES as int);
        let tile_y = tile / (WIDTH_TILES as int);
        let id = M::spec_ppu_read8(memory, (nt_base + tile_y * WIDTH_TILES + tile_x) as u16);
        let attribute = M::spec_ppu_read8(
            memory,
            (nt_base + ATTRIBUTE_TABLE_OFFSET + (tile_y / 4) * 8 + tile_x / 4) as u16,
        );
        lemma_rows_succeed::<M>(
            memory,
            pixels,
            spec_pattern_address::<M>(memory, controller, tile_x, tile_y) as u16,
            spec_palette_address::<M>(memory, controller, tile_x, tile_y) as u16,
            tile_x * 8,
            tile_y * 8,
            0,
        );
        let painted = spec_render_background_tile::<M>(
            memory,
            pixels,
            nt_base,
            pt_base,
            tile_x as u16,
            tile_y as u16,
        );
        lemma_tiles_succeed::<M>(memory, controller, painted.1, tile + 1);
    }
}

/// On a memory that answers every read up to `$3FFF`, the renderer succeeds.
pub proof fn lemma_render_succeeds<M: PpuAddressable>(
    memory: M::V,
    controller: u8,
    pixels: Seq<u8>,
)
    requires
        spec_serves_reads::<M>(memory),
    ensures
        spec_render::<M>(memory, controller, pixels).0 is Ok,
{
    let filled = spec_render_universal_background::<M>(memory, pixels);
    lemma_tiles_succeed::<M>(memory, controller, filled.1, 0);
}

} // verus!
