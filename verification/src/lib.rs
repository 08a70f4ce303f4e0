//! Emulation core of the Nintendo Entertainment System: a 6502 processor, the
//! picture processing unit, the two address spaces that join them, the NROM
//! cartridge and the iNES image format.
//!
//! Every component is described by an abstract state (its view) and by spec
//! functions over that state; the executable functions are proved to follow
//! them.

pub mod addressable;
pub mod bits;
pub mod text;
pub mod instruction;
pub mod cpu;
pub mod ram;
pub mod vram;
pub mod palette;
pub mod io;
pub mod input;
pub mod io_ports;
pub mod expansion;
pub mod mirror;
pub mod image;
pub mod ines;
pub mod cartridge;
pub mod nrom_cartridge;
pub mod renderer;
pub mod ppu;
pub mod picture;
pub mod sdl_frame;
pub mod ppu_memory_layout;
pub mod memory_layout;
pub mod cpu_memory_layout;
pub mod cpu_memory_layout_change;
pub mod mos6502;
pub mod nes;
pub mod debug;
pub mod invariants;
pub mod laws;

