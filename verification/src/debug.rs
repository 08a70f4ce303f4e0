//! Dumps of memory for inspection: what the two address spaces answer over a
//! range of addresses, and the text that shows it.

use std::ops::Range;
use vstd::prelude::*;
use vstd::string::StringSliceAdditionalSpecFns;
use crate::addressable;
use crate::addressable::{Address, AddressDiff, Addressable, CartridgeAddressable, PpuAddressable};
use crate::nes::NesWithCartridge;
use crate::text::{
    push_hex_byte,
    push_hex_word,
    push_str,
    spec_hex_byte,
    spec_hex_word,
};

verus! {

/// The number of bytes that a line of a dump shows.
pub const WIDTH: AddressDiff = 32;

pub const PRG_ROM_START: Address = 0x8000;

pub const PRG_ROM_SIZE: AddressDiff = 0x8000;

pub const PATTERN_TABLE_START: Address = 0x0000;

pub const PATTERN_TABLE_SIZE: AddressDiff = 0x2000;

/// The program ROM and the pattern tables as far as they could be read.
pub struct NesRomDump {
    /// The bytes from `$8000` on in the processor's space, up to the first
    /// address that could not be read.
    pub prg_rom: Vec<u8>,
    /// The bytes from `$0000` on in the picture unit's space, up to the first
    /// address that could not be read.
    pub pattern_tables: Vec<u8>,
}

/// What the processor's address space answered from `start` on: a byte for
/// every address, or `None` where the read was refused.
pub struct NesMemoryDump {
    pub start: Address,
    pub cells: Vec<Option<u8>>,
}

/// What the picture unit's address space answered from `start` on: a byte for
/// every address, or `None` where the read was refused.
pub struct NesPpuMemoryDump {
    pub start: Address,
    pub cells: Vec<Option<u8>>,
}

/// What a dump keeps of the answer to a read.
pub open spec fn spec_cell(answer: addressable::Result<u8>) -> Option<u8> {
    match answer {
        Ok(data) => Some(data),
        Err(_) => None,
    }
}

/// The answers to reads of the `count` addresses from `start` on, in rising
/// order, and the state after them. A refusal does not end the reads.
pub open spec fn spec_dump_cells<M: Addressable>(s: M::V, start: Address, count: nat) -> (
    Seq<Option<u8>>,
    M::V,
)
    decreases count,
{
    if count == 0 {
        (Seq::empty(), s)
    } else {
        let before = spec_dump_cells::<M>(s, start, (count - 1) as nat);
        let read = M::spec_read8(before.1, (start + count - 1) as u16);
        (before.0.push(spec_cell(read.0)), read.1)
    }
}

/// The answers to reads of the `count` addresses from `start` on in the
/// picture unit's space.
pub open spec fn spec_ppu_dump_cells<M: PpuAddressable>(s: M::V, start: Address, count: nat) -> Seq<
    Option<u8>,
> {
    Seq::new(count, |i: int| spec_cell(M::spec_ppu_read8(s, (start + i) as u16)))
}

/// The bytes read from `start` on, in rising order, up to `count` bytes or
/// the first refusal, the state after the reads, and whether a read was
/// refused.
pub open spec fn spec_dump_prefix<M: Addressable>(s: M::V, start: Address, count: nat) -> (
    Seq<u8>,
    M::V,
    bool,
)
    decreases count,
{
    if count == 0 {
        (Seq::empty(), s, false)
    } else {
        let before = spec_dump_prefix::<M>(s, start, (count - 1) as nat);
        if before.2 {
            before
        } else {
            let read = M::spec_read8(before.1, (start + count - 1) as u16);
            match read.0 {
                Ok(data) => (before.0.push(data), read.1, false),
                Err(_) => (before.0, read.1, true),
            }
        }
    }
}

/// The bytes read from `start` on in the picture unit's space, up to `count`
/// bytes or the first refusal, and whether a read was refused.
pub open spec fn spec_ppu_dump_prefix<M: PpuAddressable>(s: M::V, start: Address, count: nat) -> (
    Seq<u8>,
    bool,
)
    decreases count,
{
    if count == 0 {
        (Seq::empty(), false)
    } else {
        let before = spec_ppu_dump_prefix::<M>(s, start, (count - 1) as nat);
        if before.1 {
            before
        } else {
            match M::spec_ppu_read8(s, (start + count - 1) as u16) {
                Ok(data) => (before.0.push(data), false),
                Err(_) => (before.0, true),
            }
        }
    }
}

/// Reads the addresses from `start` to `end`, both included.
fn dump_cells<M: Addressable>(memory: &mut M, start: Address, end: Address) -> (cells: Vec<
    Option<u8>,
>)
    requires
        start <= end,
    ensures
        (cells@, final(memory)@) == spec_dump_cells::<M>(
            old(memory)@,
            start,
            (end - start + 1) as nat,
        ),
        cells@.len() == end - start + 1,
{
    let count: u32 = (end - start) as u32 + 1;
    let mut cells: Vec<Option<u8>> = Vec::new();
    let mut done: u32 = 0;
    while done < count
        invariant
            done <= count,
            count == end - start + 1,
            cells@.len() == done,
            (cells@, memory@) == spec_dump_cells::<M>(old(memory)@, start, done as nat),
        decreases count - done,
    {
        let cell = match memory.read8(start + done as u16) {
            Ok(data) => Some(data),
            Err(_) => None,
        };
        cells.push(cell);
        done += 1;
    }
    cells
}

/// Reads the addresses from `start` to `end`, both included, in the picture
/// unit's space.
fn ppu_dump_cells<M: PpuAddressable>(memory: &mut M, start: Address, end: Address) -> (cells: Vec<
    Option<u8>,
>)
    requires
        start <= end,
    ensures
        cells@ == spec_ppu_dump_cells::<M>(old(memory)@, start, (end - start + 1) as nat),
        final(memory)@ == old(memory)@,
{
    let count: u32 = (end - start) as u32 + 1;
    let mut cells: Vec<Option<u8>> = Vec::new();
    let mut done: u32 = 0;
    while done < count
        invariant
            done <= count,
            count == end - start + 1,
            memory@ == old(memory)@,
            cells@ == spec_ppu_dump_cells::<M>(old(memory)@, start, done as nat),
        decreases count - done,
    {
        let cell = match memory.ppu_read8(start + done as u16) {
            Ok(data) => Some(data),
            Err(_) => None,
        };
        cells.push(cell);
        done += 1;
        assert(cells@ =~= spec_ppu_dump_cells::<M>(old(memory)@, start, done as nat));
    }
    cells
}

/// Reads up to `count` bytes from `start` on and stops at the first refusal.
fn dump_prefix<M: Addressable>(memory: &mut M, start: Address, count: AddressDiff) -> (bytes: Vec<
    u8,
>)
    requires
        start + count <= 0x10000,
    ensures
        bytes@ == spec_dump_prefix::<M>(old(memory)@, start, count as nat).0,
        final(memory)@ == spec_dump_prefix::<M>(old(memory)@, start, count as nat).1,
{
    let mut bytes: Vec<u8> = Vec::new();
    let mut done: AddressDiff = 0;
    let mut stopped = false;
    while done < count && !stopped
        invariant
            done <= count,
            start + count <= 0x10000,
            (bytes@, memory@, stopped) == spec_dump_prefix::<M>(old(memory)@, start, done as nat),
            stopped ==> spec_dump_prefix::<M>(old(memory)@, start, count as nat)
                == spec_dump_prefix::<M>(old(memory)@, start, done as nat),
        decreases count - done,
    {
        match memory.read8(start + done) {
            Ok(data) => {
                bytes.push(data);
            },
            Err(_) => {
                stopped = true;
            },
        }
        done += 1;
        proof {
            if stopped {
                lemma_dump_prefix_stays_stopped::<M>(
                    old(memory)@,
                    start,
                    done as nat,
                    count as nat,
                );
            }
        }
    }
    bytes
}

/// Once a read has been refused, further reads are not made.
proof fn lemma_dump_prefix_stays_stopped<M: Addressable>(
    s: M::V,
    start: Address,
    done: nat,
    count: nat,
)
    requires
        done <= count,
        spec_dump_prefix::<M>(s, start, done).2,
    ensures
        spec_dump_prefix::<M>(s, start, count) == spec_dump_prefix::<M>(s, start, done),
    decreases count - done,
{
    if done < count {
        lemma_dump_prefix_stays_stopped::<M>(s, start, done, (count - 1) as nat);
    }
}

/// Once a read has been refused, further reads are not made.
proof fn lemma_ppu_dump_prefix_stays_stopped<M: PpuAddressable>(
    s: M::V,
    start: Address,
    done: nat,
    count: nat,
)
    requires
        done <= count,
        spec_ppu_dump_prefix::<M>(s, start, done).1,
    ensures
        spec_ppu_dump_prefix::<M>(s, start, count) == spec_ppu_dump_prefix::<M>(s, start, done),
    decreases count - done,
{
    if done < count {
        lemma_ppu_dump_prefix_stays_stopped::<M>(s, start, done, (count - 1) as nat);
    }
}

/// Reads up to `count` bytes from `start` on in the picture unit's space and
/// stops at the first refusal.
fn ppu_dump_prefix<M: PpuAddressable>(memory: &mut M, start: Address, count: AddressDiff) -> (bytes:
    Vec<u8>)
    requires
        start + count <= 0x10000,
    ensures
        bytes@ == spec_ppu_dump_prefix::<M>(old(memory)@, start, count as nat).0,
        final(memory)@ == old(memory)@,
{
    let mut bytes: Vec<u8> = Vec::new();
    let mut done: AddressDiff = 0;
    let mut stopped = false;
    while done < count && !stopped
        invariant
            done <= count,
            start + count <= 0x10000,
            memory@ == old(memory)@,
            (bytes@, stopped) == spec_ppu_dump_prefix::<M>(old(memory)@, start, done as nat),
            stopped ==> spec_ppu_dump_prefix::<M>(old(memory)@, start, count as nat)
                == spec_ppu_dump_prefix::<M>(old(memory)@, start, done as nat),
        decreases count - done,
    {
        match memory.ppu_read8(start + done) {
            Ok(data) => {
                bytes.push(data);
            },
            Err(_) => {
                stopped = true;
            },
        }
        done += 1;
        proof {
            if stopped {
                lemma_ppu_dump_prefix_stays_stopped::<M>(
                    old(memory)@,
                    start,
                    done as nat,
                    count as nat,
                );
            }
        }
    }
    bytes
}

/// Dumps for inspection. The reads go through the same buses as those of the
/// processor and the picture unit, side effects included.
pub trait NesDebug: Sized {
    /// Dumps the program ROM and the pattern tables.
    fn dump_rom(&mut self) -> NesRomDump;

    /// Dumps the processor's address space from `range.start` to `range.end`,
    /// both included.
    fn dump_memory(&mut self, range: Range<Address>) -> NesMemoryDump
        requires
            range.start <= range.end,
    ;

    /// Dumps the picture unit's address space from `range.start` to
    /// `range.end`, both included.
    fn ppu_dump_memory(&mut self, range: Range<Address>) -> NesPpuMemoryDump
        requires
            range.start <= range.end,
    ;
}

impl<C: CartridgeAddressable> NesDebug for NesWithCartridge<C> {
    fn dump_rom(&mut self) -> (r: NesRomDump)
        ensures
            r.prg_rom@ == spec_dump_prefix::<Self>(
                old(self)@,
                PRG_ROM_START,
                PRG_ROM_SIZE as nat,
            ).0,
            final(self)@ == spec_dump_prefix::<Self>(
                old(self)@,
                PRG_ROM_START,
                PRG_ROM_SIZE as nat,
            ).1,
            r.pattern_tables@ == spec_ppu_dump_prefix::<Self>(
                final(self)@,
                PATTERN_TABLE_START,
                PATTERN_TABLE_SIZE as nat,
            ).0,
    {
        let prg_rom = dump_prefix(self, PRG_ROM_START, PRG_ROM_SIZE);
        let pattern_tables = ppu_dump_prefix(self, PATTERN_TABLE_START, PATTERN_TABLE_SIZE);
        NesRomDump { prg_rom, pattern_tables }
    }

    fn dump_memory(&mut self, range: Range<Address>) -> (r: NesMemoryDump)
        ensures
            r.start == range.start,
            (r.cells@, final(self)@) == spec_dump_cells::<Self>(
                old(self)@,
                range.start,
                (range.end - range.start + 1) as nat,
            ),
            r.cells@.len() == range.end - range.start + 1,
    {
        let cells = dump_cells(self, range.start, range.end);
        NesMemoryDump { start: range.start, cells }
    }

    fn ppu_dump_memory(&mut self, range: Range<Address>) -> (r: NesPpuMemoryDump)
        ensures
            r.start == range.start,
            r.cells@ == spec_ppu_dump_cells::<Self>(
                old(self)@,
                range.start,
                (range.end - range.start + 1) as nat,
            ),
            final(self)@ == old(self)@,
    {
        let cells = ppu_dump_cells(self, range.start, range.end);
        NesPpuMemoryDump { start: range.start, cells }
    }
}

/// What stands before the byte at `address` in a dump: the address at the
/// start of each line of 32 bytes, else a blank.
pub open spec fn spec_separator(address: Address) -> Seq<u8> {
    if address % WIDTH == 0 {
        "\n0x".spec_bytes() + spec_hex_word(address) + ": ".spec_bytes()
    } else {
        " ".spec_bytes()
    }
}

fn push_separator(out: &mut Vec<u8>, address: Address)
    ensures
        final(out)@ == old(out)@ + spec_separator(address),
{
    if address % WIDTH == 0 {
        push_str(out, "\n0x");
        push_hex_word(out, address);
        push_str(out, ": ");
        assert(out@ =~= old(out)@ + spec_separator(address));
    } else {
        push_str(out, " ");
    }
}

/// How a dump of memory shows one answer: two dots for zero, two question
/// marks for a refusal, else two hexadecimal digits.
pub open spec fn spec_cell_text(cell: Option<u8>) -> Seq<u8> {
    match cell {
        None => "??".spec_bytes(),
        Some(data) => if data == 0 {
            "..".spec_bytes()
        } else {
            spec_hex_byte(data)
        },
    }
}

/// The text of the first `count` answers of a dump that starts at `start`.
pub open spec fn spec_memory_dump_text(start: Address, cells: Seq<Option<u8>>, count: nat) -> Seq<
    u8,
>
    decreases count,
{
    if count == 0 {
        Seq::empty()
    } else {
        spec_memory_dump_text(start, cells, (count - 1) as nat) + spec_separator(
            (start + count - 1) as u16,
        ) + spec_cell_text(cells[count - 1])
    }
}

fn memory_dump_text(start: Address, cells: &Vec<Option<u8>>) -> (out: Vec<u8>)
    requires
        start + cells.len() <= 0x10000,
    ensures
        out@ == spec_memory_dump_text(start, cells@, cells@.len()),
{
    let mut out: Vec<u8> = Vec::new();
    let mut done: usize = 0;
    while done < cells.len()
        invariant
            done <= cells.len(),
            start + cells.len() <= 0x10000,
            out@ == spec_memory_dump_text(start, cells@, done as nat),
        decreases cells.len() - done,
    {
        let ghost before = out@;
        push_separator(&mut out, start + done as u16);
        match cells[done] {
            None => {
                push_str(&mut out, "??");
            },
            Some(data) => {
                if data == 0 {
                    push_str(&mut out, "..");
                } else {
                    push_hex_byte(&mut out, data);
                }
            },
        }
        assert(out@ == before + spec_separator((start + done) as u16) + spec_cell_text(
            cells@[done as int],
        ));
        done += 1;
    }
    out
}

impl NesMemoryDump {
    /// The text of the dump, in ASCII.
    pub fn text(&self) -> (out: Vec<u8>)
        requires
            self.start + self.cells.len() <= 0x10000,
        ensures
            out@ == spec_memory_dump_text(self.start, self.cells@, self.cells@.len()),
    {
        memory_dump_text(self.start, &self.cells)
    }
}

impl NesPpuMemoryDump {
    /// The text of the dump, in ASCII.
    pub fn text(&self) -> (out: Vec<u8>)
        requires
            self.start + self.cells.len() <= 0x10000,
        ensures
            out@ == spec_memory_dump_text(self.start, self.cells@, self.cells@.len()),
    {
        memory_dump_text(self.start, &self.cells)
    }
}

/// The heading that stands before byte `index` of a bank dump: the first
/// title before the first byte, the second title before the first byte of the
/// second half, else nothing.
pub open spec fn spec_bank_heading(index: int, half: int, first: &str, second: &str) -> Seq<u8> {
    if index == 0 {
        "\n".spec_bytes() + first.spec_bytes()
            + "\n-------------------------------------------".spec_bytes()
    } else if index == half {
        "\n\n".spec_bytes() + second.spec_bytes()
            + "\n-------------------------------------------".spec_bytes()
    } else {
        Seq::empty()
    }
}

/// The text of the first `count` bytes of a ROM that starts at `start` and
/// has two halves of `half` bytes each.
pub open spec fn spec_bank_text(
    start: Address,
    bytes: Seq<u8>,
    half: int,
    first: &str,
    second: &str,
    count: nat,
) -> Seq<u8>
    decreases count,
{
    if count == 0 {
        Seq::empty()
    } else {
        spec_bank_text(start, bytes, half, first, second, (count - 1) as nat) + spec_bank_heading(
            count - 1,
            half,
            first,
            second,
        ) + spec_separator((start + count - 1) as u16) + spec_hex_byte(bytes[count - 1])
    }
}

fn push_bank_text(
    out: &mut Vec<u8>,
    start: Address,
    bytes: &Vec<u8>,
    half: usize,
    first: &str,
    second: &str,
)
    requires
        start + bytes.len() <= 0x10000,
    ensures
        final(out)@ == old(out)@ + spec_bank_text(
            start,
            bytes@,
            half as int,
            first,
            second,
            bytes@.len(),
        ),
{
    let mut done: usize = 0;
    assert(out@ =~= old(out)@ + spec_bank_text(start, bytes@, half as int, first, second, 0));
    while done < bytes.len()
        invariant
            done <= bytes.len(),
            start + bytes.len() <= 0x10000,
            out@ == old(out)@ + spec_bank_text(
                start,
                bytes@,
                half as int,
                first,
                second,
                done as nat,
            ),
        decreases bytes.len() - done,
    {
        let ghost before = out@;
        if done == 0 {
            push_str(out, "\n");
            push_str(out, first);
            push_str(out, "\n-------------------------------------------");
        } else if done == half {
            push_str(out, "\n\n");
            push_str(out, second);
            push_str(out, "\n-------------------------------------------");
        }
        assert(out@ =~= before + spec_bank_heading(done as int, half as int, first, second));
        push_separator(out, start + done as u16);
        push_hex_byte(out, bytes[done]);
        done += 1;
        assert(out@ =~= old(out)@ + spec_bank_text(
            start,
            bytes@,
            half as int,
            first,
            second,
            done as nat,
        ));
    }
}

/// The text of a dump of the ROMs: the program ROM bank by bank, then the
/// pattern tables one by one.
pub open spec fn spec_rom_dump_text(prg_rom: Seq<u8>, pattern_tables: Seq<u8>) -> Seq<u8> {
    "\nCPU\n===========================================\n".spec_bytes() + spec_bank_text(
        PRG_ROM_START,
        prg_rom,
        PRG_ROM_SIZE as int / 2,
        "PRG ROM Bank 0:",
        "PRG ROM Bank 1:",
        prg_rom.len(),
    ) + "\nPPU\n==========================================\n".spec_bytes() + spec_bank_text(
        PATTERN_TABLE_START,
        pattern_tables,
        PATTERN_TABLE_SIZE as int / 2,
        "Pattern Table 0:",
        "Pattern Table 1:",
        pattern_tables.len(),
    )
}

impl NesRomDump {
    /// The text of the dump, in ASCII.
    pub fn text(&self) -> (out: Vec<u8>)
        requires
            self.prg_rom.len() <= PRG_ROM_SIZE,
            self.pattern_tables.len() <= PATTERN_TABLE_SIZE,
        ensures
            out@ == spec_rom_dump_text(self.prg_rom@, self.pattern_tables@),
    {
        let mut out: Vec<u8> = Vec::new();
        push_str(&mut out, "\nCPU\n===========================================\n");
        push_bank_text(
            &mut out,
            PRG_ROM_START,
            &self.prg_rom,
            (PRG_ROM_SIZE / 2) as usize,
            "PRG ROM Bank 0:",
            "PRG ROM Bank 1:",
        );
        push_str(&mut out, "\nPPU\n==========================================\n");
        push_bank_text(
            &mut out,
            PATTERN_TABLE_START,
            &self.pattern_tables,
            (PATTERN_TABLE_SIZE / 2) as usize,
            "Pattern Table 0:",
            "Pattern Table 1:",
        );
        assert(out@ =~= spec_rom_dump_text(self.prg_rom@, self.pattern_tables@));
        out
    }
}

/// The text that shows the state of a console: work RAM, the nametables, the
/// palette, the registers of the processor and the picture unit, each under
/// its heading.
pub open spec fn spec_state_text<C: CartridgeAddressable>(
    s: <NesWithCartridge<C> as View>::V,
) -> Seq<u8> {
    let ram = spec_dump_cells::<NesWithCartridge<C>>(s, 0x0000, 0x0800);
    "\nRAM".spec_bytes() + spec_memory_dump_text(0x0000, ram.0, 0x0800) + "\n\nVRAM".spec_bytes()
        + spec_memory_dump_text(
        0x2000,
        spec_ppu_dump_cells::<NesWithCartridge<C>>(ram.1, 0x2000, 0x1000),
        0x1000,
    ) + "\n\nPalette".spec_bytes() + spec_memory_dump_text(
        0x3f00,
        spec_ppu_dump_cells::<NesWithCartridge<C>>(ram.1, 0x3f00, 0x20),
        0x20,
    ) + "\n\nCPU\n".spec_bytes() + ram.1.cpu.registers.spec_text() + "\n\nPPU\n".spec_bytes()
        + ram.1.memory.ppu.spec_text() + "\n".spec_bytes()
}

/// Dumps the state of a console as ASCII text. Work RAM is read through the
/// processor's bus.
pub fn state_text<C: CartridgeAddressable>(nes: &mut NesWithCartridge<C>) -> (out: Vec<u8>)
    ensures
        out@ == spec_state_text::<C>(old(nes)@),
        final(nes)@ == spec_dump_cells::<NesWithCartridge<C>>(old(nes)@, 0x0000, 0x0800).1,
{
    let ram = nes.dump_memory(0x0000..0x07ff);
    let vram = nes.ppu_dump_memory(0x2000..0x2fff);
    let palette = nes.ppu_dump_memory(0x3f00..0x3f1f);
    let mut out: Vec<u8> = Vec::new();
    push_str(&mut out, "\nRAM");
    assert(out@ =~= "\nRAM".spec_bytes());
    let mut piece = ram.text();
    out.append(&mut piece);
    push_str(&mut out, "\n\nVRAM");
    let mut piece = vram.text();
    out.append(&mut piece);
    push_str(&mut out, "\n\nPalette");
    let mut piece = palette.text();
    out.append(&mut piece);
    push_str(&mut out, "\n\nCPU\n");
    let mut piece = nes.cpu.registers.text();
    out.append(&mut piece);
    push_str(&mut out, "\n\nPPU\n");
    let mut piece = nes.memory.ppu.text();
    out.append(&mut piece);
    push_str(&mut out, "\n");
    out
}

} // verus!
