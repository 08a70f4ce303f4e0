//! Laws that relate several operations of the console: what is written can be
//! read back, the stack gives back what it took in reverse order, mirrored
//! addresses answer alike, and the registers of the picture unit keep to
//! their protocol.

use vstd::prelude::*;
use crate::addressable::{spec_read16_le, Address, Addressable, CartridgeAddressable, Error, PpuAddressable};
use crate::bits::bit;
use crate::cpu;
use crate::cpu::{Cpu, RegisterFile};
use crate::instruction::{Instruction, MemoryAddressingMode};
use crate::invariants::{lemma_tick_keeps, spec_kept};
use crate::memory_layout::{
    BusState,
    MemoryLayout,
    OAM_DMA_NUM_BYTES,
    PPU_OAM_DMA,
    RAM_MIRROR_END,
    RAM_SIZE,
};
use crate::nes::{NesState, NesWithCartridge, INSTRUCTIONS_PER_INTERVAL};
use crate::mirror::{HorizontalMirror, Mirror, VerticalMirror};
use crate::palette::PALETTE_SIZE;
use crate::picture::{
    lemma_render_paints_the_background,
    lemma_render_succeeds,
    spec_background_pixel,
    spec_serves_reads,
};
use crate::renderer::{pixel_index, DISPLAY_HEIGHT, DISPLAY_WIDTH, NUM_PIXELS};
use crate::nrom_cartridge::{NromCartridgeWithMirror, NromState};
use crate::ppu::{AddressPhase, PpuState, ScrollAxis, ADDRESS, DATA, STATUS};
use crate::ppu_memory_layout::{NesPpuMemoryLayout, PpuBusState};
use crate::ram::NES_RAM_NUM_BYTES;

verus! {

/// A word written to work RAM as two bytes, low byte first, is the word that a
/// little-endian read at the same address answers.
pub proof fn lemma_word_round_trip<C: CartridgeAddressable>(
    s: BusState<C::V>,
    address: Address,
    word: u16,
)
    requires
        s.ram.len() == NES_RAM_NUM_BYTES,
        address < RAM_MIRROR_END,
    ensures
        ({
            let low = MemoryLayout::<C>::spec_bus_write8(s, address, (word % 0x100) as u8);
            let high = MemoryLayout::<C>::spec_bus_write8(
                low.1,
                (address + 1) as u16,
                (word / 0x100) as u8,
            );
            &&& low.0 is Ok
            &&& high.0 is Ok
            &&& spec_read16_le::<MemoryLayout<C>>(high.1, address).0 == Ok::<u16, Error>(word)
            &&& spec_read16_le::<MemoryLayout<C>>(high.1, address).1 == high.1
        }),
{
}

/// A word written to the program RAM of an NROM cartridge as two bytes, low
/// byte first, is the word that a little-endian read at the same address
/// answers.
pub proof fn lemma_word_round_trip_in_cartridge<M: Mirror>(
    s: BusState<NromState>,
    address: Address,
    word: u16,
)
    requires
        s.ppu_memory.cartridge.wf(),
        0x6000 <= address < 0x7fff,
    ensures
        ({
            let low = MemoryLayout::<NromCartridgeWithMirror<M>>::spec_bus_write8(
                s,
                address,
                (word % 0x100) as u8,
            );
            let high = MemoryLayout::<NromCartridgeWithMirror<M>>::spec_bus_write8(
                low.1,
                (address + 1) as u16,
                (word / 0x100) as u8,
            );
            &&& low.0 is Ok
            &&& high.0 is Ok
            &&& spec_read16_le::<MemoryLayout<NromCartridgeWithMirror<M>>>(high.1, address).0
                == Ok::<u16, Error>(word)
        }),
{
}

/// The register that holds the result of an instruction which loads or
/// computes a value in a register, and `None` for every other instruction.
pub open spec fn spec_result_register(registers: RegisterFile, instruction: Instruction) -> Option<
    u8,
> {
    match instruction {
        Instruction::LDA(_) => Some(registers.accumulator),
        Instruction::AND(_) => Some(registers.accumulator),
        Instruction::ORA(_) => Some(registers.accumulator),
        Instruction::EOR(_) => Some(registers.accumulator),
        Instruction::ADC(_) => Some(registers.accumulator),
        Instruction::SBC(_) => Some(registers.accumulator),
        Instruction::PLA => Some(registers.accumulator),
        Instruction::TXA => Some(registers.accumulator),
        Instruction::TYA => Some(registers.accumulator),
        Instruction::ASL(mode) => if mode is Accumulator {
            Some(registers.accumulator)
        } else {
            None
        },
        Instruction::LSR(mode) => if mode is Accumulator {
            Some(registers.accumulator)
        } else {
            None
        },
        Instruction::ROL(mode) => if mode is Accumulator {
            Some(registers.accumulator)
        } else {
            None
        },
        Instruction::ROR(mode) => if mode is Accumulator {
            Some(registers.accumulator)
        } else {
            None
        },
        Instruction::LDX(_) => Some(registers.x_index),
        Instruction::TAX => Some(registers.x_index),
        Instruction::INX => Some(registers.x_index),
        Instruction::DEX => Some(registers.x_index),
        Instruction::LDY(_) => Some(registers.y_index),
        Instruction::TAY => Some(registers.y_index),
        Instruction::INY => Some(registers.y_index),
        Instruction::DEY => Some(registers.y_index),
        _ => None,
    }
}

/// Whether N and Z of `registers` follow `result`.
pub open spec fn flags_follow(registers: RegisterFile, result: u8) -> bool {
    &&& registers.status.zero <==> result == 0
    &&& registers.status.negative <==> bit(result, 7)
}

proof fn lemma_flags_follow_operand(registers: RegisterFile, instruction: Instruction, operand: u8)
    requires
        instruction is LDA || instruction is AND || instruction is ORA || instruction is EOR
            || instruction is ADC || instruction is SBC || instruction is LDX || instruction is LDY,
    ensures
        flags_follow(
            registers.spec_apply_operand(instruction, operand),
            spec_result_register(
                registers.spec_apply_operand(instruction, operand),
                instruction,
            )->Some_0,
        ),
{
}

proof fn lemma_flags_follow_implied(registers: RegisterFile, instruction: Instruction)
    requires
        instruction is TXA || instruction is TYA || instruction is TAX || instruction is INX
            || instruction is DEX || instruction is TAY || instruction is INY || instruction is DEY,
    ensures
        flags_follow(
            registers.spec_apply_implied(instruction),
            spec_result_register(registers.spec_apply_implied(instruction), instruction)->Some_0,
        ),
{
}

proof fn lemma_flags_follow_shift(registers: RegisterFile, instruction: Instruction)
    requires
        instruction is ASL || instruction is LSR || instruction is ROL || instruction is ROR,
    ensures
        flags_follow(
            registers.spec_shift_accumulator(instruction),
            registers.spec_shift_accumulator(instruction).accumulator,
        ),
{
}

/// After an instruction that loads or computes a value in a register, the
/// zero flag says that the value is zero and the negative flag is its bit 7.
pub proof fn lemma_flags_follow_result<M: Addressable>(
    cpu: Cpu,
    memory: M::V,
    instruction: Instruction,
)
    requires
        cpu.spec_emulate_instruction::<M>(memory, instruction).value is Ok,
        spec_result_register(cpu.registers, instruction) is Some,
    ensures
        ({
            let after = cpu.spec_emulate_instruction::<M>(memory, instruction).cpu.registers;
            flags_follow(after, spec_result_register(after, instruction)->Some_0)
        }),
{
    match instruction {
        Instruction::PLA => {},
        Instruction::TXA
        | Instruction::TYA
        | Instruction::TAX
        | Instruction::INX
        | Instruction::DEX
        | Instruction::TAY
        | Instruction::INY
        | Instruction::DEY => {
            lemma_flags_follow_implied(cpu.registers, instruction);
        },
        Instruction::ASL(_) | Instruction::LSR(_) | Instruction::ROL(_) | Instruction::ROR(_) => {
            lemma_flags_follow_shift(cpu.registers, instruction);
        },
        Instruction::LDA(mode)
        | Instruction::AND(mode)
        | Instruction::ORA(mode)
        | Instruction::EOR(mode)
        | Instruction::ADC(mode)
        | Instruction::SBC(mode)
        | Instruction::LDX(mode)
        | Instruction::LDY(mode) => {
            let loaded = cpu.spec_addressing_mode_load::<M>(memory, mode);
            lemma_flags_follow_operand(loaded.cpu.registers, instruction, loaded.value->Ok_0);
        },
        _ => {},
    }
}

/// After an instruction that changes a byte in memory, the zero flag says
/// that the written byte is zero and the negative flag is its bit 7.
pub proof fn lemma_flags_follow_written_byte<M: Addressable>(
    cpu: Cpu,
    memory: M::V,
    instruction: Instruction,
    mode: MemoryAddressingMode,
)
    requires
        cpu.spec_modify_instruction::<M>(memory, instruction, mode).value is Ok,
    ensures
        ({
            let found = cpu.spec_addressing_mode_address::<M>(memory, mode);
            let read = M::spec_read8(found.memory, found.value->Ok_0);
            let written = cpu::spec_modified(
                instruction,
                read.0->Ok_0,
                found.cpu.registers.status.carry,
            ).value;
            let after = cpu.spec_modify_instruction::<M>(memory, instruction, mode).cpu.registers;
            &&& found.value is Ok
            &&& read.0 is Ok
            &&& after.status.zero <==> written == 0
            &&& after.status.negative <==> bit(written, 7)
        }),
{
}

/// Two bytes pushed come back in reverse order, and the stack pointer is back
/// where it was.
pub proof fn lemma_stack_is_lifo<C: CartridgeAddressable>(
    cpu: Cpu,
    s: BusState<C::V>,
    first: u8,
    second: u8,
)
    requires
        s.ram.len() == NES_RAM_NUM_BYTES,
    ensures
        ({
            let pushed_first = cpu.spec_push8::<MemoryLayout<C>>(s, first);
            let pushed_second = pushed_first.cpu.spec_push8::<MemoryLayout<C>>(
                pushed_first.memory,
                second,
            );
            let pulled_second = pushed_second.cpu.spec_pull8::<MemoryLayout<C>>(
                pushed_second.memory,
            );
            let pulled_first = pulled_second.cpu.spec_pull8::<MemoryLayout<C>>(
                pulled_second.memory,
            );
            &&& pushed_first.value is Ok
            &&& pushed_second.value is Ok
            &&& pulled_second.value == Ok::<u8, cpu::Error>(second)
            &&& pulled_first.value == Ok::<u8, cpu::Error>(first)
            &&& pulled_first.cpu == cpu
        }),
{
}

/// A word pushed is the word pulled, and the stack pointer is back where it
/// was.
pub proof fn lemma_stack_word_round_trip<C: CartridgeAddressable>(
    cpu: Cpu,
    s: BusState<C::V>,
    word: u16,
)
    requires
        s.ram.len() == NES_RAM_NUM_BYTES,
    ensures
        ({
            let pushed = cpu.spec_push16_le::<MemoryLayout<C>>(s, word);
            let pulled = pushed.cpu.spec_pull16_le::<MemoryLayout<C>>(pushed.memory);
            &&& pushed.value is Ok
            &&& pulled.value == Ok::<u16, cpu::Error>(word)
            &&& pulled.cpu == cpu
        }),
{
}

/// After comparing the accumulator with an immediate operand, the carry says
/// that the accumulator is not below the operand and the zero flag that the
/// two are equal.
pub proof fn lemma_compare_immediate<M: Addressable>(cpu: Cpu, memory: M::V)
    requires
        M::spec_read8(memory, cpu.registers.program_counter).0 is Ok,
    ensures
        ({
            let operand = M::spec_read8(memory, cpu.registers.program_counter).0->Ok_0;
            let step = cpu.spec_emulate_instruction::<M>(
                memory,
                Instruction::CMP(MemoryAddressingMode::Immediate),
            );
            &&& step.value is Ok
            &&& step.cpu.registers.status.carry <==> cpu.registers.accumulator >= operand
            &&& step.cpu.registers.status.zero <==> cpu.registers.accumulator == operand
        }),
{
}

/// Work RAM is mirrored every 2 KiB up to `$1FFF`: an address there is served
/// like the address modulo `$0800`.
pub proof fn lemma_work_ram_is_mirrored<C: CartridgeAddressable>(
    s: BusState<C::V>,
    address: Address,
    data: u8,
)
    requires
        address <= RAM_MIRROR_END,
    ensures
        MemoryLayout::<C>::spec_bus_read8(s, address) == MemoryLayout::<C>::spec_bus_read8(
            s,
            address % RAM_SIZE,
        ),
        MemoryLayout::<C>::spec_bus_write8(s, address, data) == MemoryLayout::<
            C,
        >::spec_bus_write8(s, address % RAM_SIZE, data),
{
}

/// The nametables are mirrored at `$3000-$3EFF`: an address there is served
/// like the address `$1000` below.
pub proof fn lemma_nametables_are_mirrored<C: PpuAddressable>(
    s: PpuBusState<C::V>,
    address: Address,
    data: u8,
)
    requires
        0x3000 <= address <= 0x3eff,
    ensures
        NesPpuMemoryLayout::<C>::spec_ppu_read8(s, address) == NesPpuMemoryLayout::<
            C,
        >::spec_ppu_read8(s, (address - 0x1000) as u16),
        NesPpuMemoryLayout::<C>::spec_ppu_write8(s, address, data) == NesPpuMemoryLayout::<
            C,
        >::spec_ppu_write8(s, (address - 0x1000) as u16, data),
{
}

/// The palette is mirrored every 32 bytes up to `$3FFF`: an address there is
/// served like `$3F00` plus the offset modulo 32.
pub proof fn lemma_palette_is_mirrored<C: PpuAddressable>(
    s: PpuBusState<C::V>,
    address: Address,
    data: u8,
)
    requires
        0x3f20 <= address <= 0x3fff,
    ensures
        NesPpuMemoryLayout::<C>::spec_ppu_read8(s, address) == NesPpuMemoryLayout::<
            C,
        >::spec_ppu_read8(s, (0x3f00 + (address - 0x3f00) % 0x20) as u16),
        NesPpuMemoryLayout::<C>::spec_ppu_write8(s, address, data) == NesPpuMemoryLayout::<
            C,
        >::spec_ppu_write8(s, (0x3f00 + (address - 0x3f00) % 0x20) as u16, data),
{
}

/// With vertical mirroring the nametable at `$2800` is the nametable at
/// `$2000`.
pub proof fn lemma_vertical_mirroring(s: NromState, offset: Address)
    requires
        offset <= 0x3ff,
    ensures
        NromCartridgeWithMirror::<VerticalMirror>::spec_ppu_read8(s, (0x2000 + offset) as u16)
            == NromCartridgeWithMirror::<VerticalMirror>::spec_ppu_read8(
            s,
            (0x2800 + offset) as u16,
        ),
{
}

/// With horizontal mirroring two neighbouring nametable addresses, an even
/// one and the odd one after it, are served by the same byte of nametable
/// RAM.
pub proof fn lemma_horizontal_mirroring_pairs(s: NromState, offset: Address)
    requires
        offset <= 0xfff,
        offset % 2 == 0,
    ensures
        NromCartridgeWithMirror::<HorizontalMirror>::spec_ppu_read8(
            s,
            (0x2000 + offset) as u16,
        ) == NromCartridgeWithMirror::<HorizontalMirror>::spec_ppu_read8(
            s,
            (0x2001 + offset) as u16,
        ),
{
}

/// With horizontal mirroring the nametables at `$2000` and at `$2400` answer
/// alike at an offset wherever the two bytes of nametable RAM that serve it
/// hold the same.
pub proof fn lemma_horizontal_mirroring(s: NromState, offset: Address)
    requires
        offset <= 0x3ff,
        s.nametable[offset as int / 2] == s.nametable[0x200 + offset as int / 2],
        s.nametable.len() == 0x800,
    ensures
        NromCartridgeWithMirror::<HorizontalMirror>::spec_ppu_read8(
            s,
            (0x2000 + offset) as u16,
        ) == NromCartridgeWithMirror::<HorizontalMirror>::spec_ppu_read8(
            s,
            (0x2400 + offset) as u16,
        ),
{
}

/// A read of the status register through the processor's bus, at `$2002` or
/// any of its mirrors, leaves both toggles of the picture unit in their first
/// phase.
pub proof fn lemma_status_read_resets_toggles<C: CartridgeAddressable>(
    s: BusState<C::V>,
    address: Address,
)
    requires
        0x2000 <= address <= 0x3fff,
        (address - 0x2000) % 8 == STATUS as int,
    ensures
        ({
            let read = MemoryLayout::<C>::spec_bus_read8(s, address);
            &&& read.0 == Ok::<u8, Error>(s.ppu.status)
            &&& read.1.ppu.scroll_axis == ScrollAxis::X
            &&& read.1.ppu.address_phase == AddressPhase::HIGH
        }),
{
}

/// Reads of the data register are buffered: after the address has been set
/// by two writes, the first read answers what the data latch held before, and
/// the second read answers the byte at the address that was set.
pub proof fn lemma_data_reads_are_buffered<M: PpuAddressable>(
    ppu: PpuState,
    memory: M::V,
    high: u8,
    low: u8,
)
    requires
        ppu.address_phase == AddressPhase::HIGH,
        M::spec_ppu_read8(memory, (high * 0x100 + low) as u16) is Ok,
    ensures
        ({
            let set_high = ppu.spec_write8::<M>(ADDRESS, high, memory);
            let set_low = set_high.1.spec_write8::<M>(ADDRESS, low, set_high.2);
            let first = set_low.1.spec_read8::<M>(DATA, set_low.2);
            let second = first.1.spec_read8::<M>(DATA, set_low.2);
            &&& set_low.1.address == high * 0x100 + low
            &&& set_low.2 == memory
            &&& first.0 == Ok::<u8, Error>(ppu.data_latch)
            &&& M::spec_ppu_read8(memory, first.1.address) is Ok ==> second.0 == M::spec_ppu_read8(
                memory,
                (high * 0x100 + low) as u16,
            )
        }),
{
}

/// With an NROM cartridge in place, the picture unit's bus answers every read
/// up to `$3FFF`: the renderer never fails on the console.
pub proof fn lemma_console_serves_the_renderer<M: Mirror>(s: PpuBusState<NromState>)
    requires
        s.cartridge.wf(),
        s.palette.len() == PALETTE_SIZE,
    ensures
        spec_serves_reads::<NesPpuMemoryLayout<NromCartridgeWithMirror<M>>>(s),
{
    assert forall|address: Address| address <= 0x3fff implies (#[trigger] NesPpuMemoryLayout::<
        NromCartridgeWithMirror<M>,
    >::spec_ppu_read8(s, address)) is Ok by {
        if 0x2000 <= address <= 0x2fff {
            M::lemma_mirror_in_range((address - 0x2000) as u16);
        } else if 0x3000 <= address <= 0x3eff {
            M::lemma_mirror_in_range((address - 0x3000) as u16);
        }
    }
}

/// Every memory of a console with an NROM cartridge has its size.
pub open spec fn spec_console_sizes(s: BusState<NromState>) -> bool {
    &&& s.ram.len() == NES_RAM_NUM_BYTES
    &&& s.ppu.wf()
    &&& s.ppu_memory.cartridge.wf()
    &&& s.ppu_memory.palette.len() == PALETTE_SIZE
}

/// A new console with a cartridge whose memories have their sizes is a
/// console whose memories have their sizes.
pub proof fn lemma_new_console_has_sizes<M: Mirror>(cartridge: NromState)
    requires
        cartridge.wf(),
    ensures
        spec_console_sizes(
            NesWithCartridge::<NromCartridgeWithMirror<M>>::spec_new(cartridge).memory,
        ),
{
}

proof fn lemma_access_keeps_sizes<M: Mirror>(s: BusState<NromState>, address: Address, data: u8)
    requires
        spec_console_sizes(s),
    ensures
        spec_console_sizes(
            MemoryLayout::<NromCartridgeWithMirror<M>>::spec_bus_read8(s, address).1,
        ),
        address != PPU_OAM_DMA ==> spec_console_sizes(
            MemoryLayout::<NromCartridgeWithMirror<M>>::spec_bus_write8(s, address, data).1,
        ),
{
}

proof fn lemma_oam_dma_keeps_sizes<M: Mirror>(s: BusState<NromState>, page: u8, index: int)
    requires
        spec_console_sizes(s),
        0 <= index <= OAM_DMA_NUM_BYTES,
    ensures
        spec_console_sizes(
            MemoryLayout::<NromCartridgeWithMirror<M>>::spec_oam_dma(s, page, index).1,
        ),
    decreases OAM_DMA_NUM_BYTES - index,
{
    if index < OAM_DMA_NUM_BYTES {
        let address = (page * 0x100 + index) as u16;
        lemma_access_keeps_sizes::<M>(s, address, 0);
        let read = MemoryLayout::<NromCartridgeWithMirror<M>>::spec_bus_read8(s, address);
        if read.0 is Ok {
            lemma_oam_dma_keeps_sizes::<M>(
                BusState { ppu: read.1.ppu.spec_oam_data_write(read.0->Ok_0), ..read.1 },
                page,
                index + 1,
            );
        }
    }
}

/// No access through the bus of the console changes the size of a memory.
pub proof fn lemma_console_keeps_sizes<M: Mirror>()
    ensures
        spec_kept::<MemoryLayout<NromCartridgeWithMirror<M>>>(
            |s: BusState<NromState>| spec_console_sizes(s),
        ),
{
    assert forall|s: BusState<NromState>, address: Address| spec_console_sizes(s) implies spec_console_sizes(
        (#[trigger] MemoryLayout::<NromCartridgeWithMirror<M>>::spec_read8(s, address)).1,
    ) by {
        lemma_access_keeps_sizes::<M>(s, address, 0);
    }
    assert forall|s: BusState<NromState>, address: Address, data: u8| spec_console_sizes(s) implies spec_console_sizes(
        (#[trigger] MemoryLayout::<NromCartridgeWithMirror<M>>::spec_write8(s, address, data)).1,
    ) by {
        lemma_access_keeps_sizes::<M>(s, address, data);
        lemma_oam_dma_keeps_sizes::<M>(s, data, 0);
    }
}

/// A run of ticks does not break what no access breaks.
pub proof fn lemma_run_keeps<C: CartridgeAddressable>(
    inv: spec_fn(BusState<C::V>) -> bool,
    cpu: Cpu,
    memory: BusState<C::V>,
    count: nat,
)
    requires
        spec_kept::<MemoryLayout<C>>(inv),
        inv(memory),
    ensures
        inv(NesWithCartridge::<C>::spec_run(cpu, memory, count).memory),
    decreases count,
{
    if count > 0 {
        lemma_tick_keeps::<MemoryLayout<C>>(inv, cpu, memory);
        let step = cpu.spec_tick::<MemoryLayout<C>>(memory);
        if step.value is Ok {
            lemma_run_keeps::<C>(inv, step.cpu, step.memory, (count - 1) as nat);
        }
    }
}

/// A frame leaves every memory of the console with its size.
pub proof fn lemma_frame_keeps_sizes<M: Mirror>(s: NesState<NromState>, pixels: Seq<u8>)
    requires
        spec_console_sizes(s.memory),
    ensures
        spec_console_sizes(
            NesWithCartridge::<NromCartridgeWithMirror<M>>::spec_vblank_interval(s).1.memory,
        ),
        spec_console_sizes(
            NesWithCartridge::<NromCartridgeWithMirror<M>>::spec_emulate_frame(s, pixels).1.memory,
        ),
{
    let inv = |m: BusState<NromState>| spec_console_sizes(m);
    lemma_console_keeps_sizes::<M>();
    let started = s.memory.ppu.spec_vblank_start(s.cpu.interrupts);
    let entered = NesState {
        cpu: Cpu { interrupts: started.1, ..s.cpu },
        memory: BusState { ppu: started.0, ..s.memory },
    };
    lemma_run_keeps::<NromCartridgeWithMirror<M>>(
        inv,
        entered.cpu,
        entered.memory,
        INSTRUCTIONS_PER_INTERVAL as nat,
    );
    let blank = NesWithCartridge::<NromCartridgeWithMirror<M>>::spec_vblank_interval(s);
    let ended = NesState {
        memory: BusState { ppu: blank.1.memory.ppu.spec_vblank_end(), ..blank.1.memory },
        ..blank.1
    };
    lemma_run_keeps::<NromCartridgeWithMirror<M>>(
        inv,
        ended.cpu,
        ended.memory,
        INSTRUCTIONS_PER_INTERVAL as nat,
    );
}

/// Where the processor gets through the vertical blank, the frame shows the
/// background as the picture unit's memory holds it at the end of the blank:
/// on the console the renderer does not fail, and it paints every pixel.
pub proof fn lemma_frame_shows_the_background<M: Mirror>(
    s: NesState<NromState>,
    pixels: Seq<u8>,
    x: int,
    y: int,
)
    requires
        spec_console_sizes(s.memory),
        NesWithCartridge::<NromCartridgeWithMirror<M>>::spec_vblank_interval(s).0 is Ok,
        0 <= x < DISPLAY_WIDTH,
        0 <= y < DISPLAY_HEIGHT,
    ensures
        ({
            let shown = NesWithCartridge::<NromCartridgeWithMirror<M>>::spec_vblank_interval(
                s,
            ).1.memory;
            let frame = NesWithCartridge::<NromCartridgeWithMirror<M>>::spec_emulate_frame(
                s,
                pixels,
            );
            &&& frame.2.len() == NUM_PIXELS
            &&& frame.2[pixel_index(x, y)] == spec_background_pixel::<
                NesPpuMemoryLayout<NromCartridgeWithMirror<M>>,
            >(shown.ppu_memory, shown.ppu.controller, x, y)
        }),
{
    lemma_frame_keeps_sizes::<M>(s, pixels);
    let shown = NesWithCartridge::<NromCartridgeWithMirror<M>>::spec_vblank_interval(s).1.memory;
    lemma_console_serves_the_renderer::<M>(shown.ppu_memory);
    lemma_render_succeeds::<NesPpuMemoryLayout<NromCartridgeWithMirror<M>>>(
        shown.ppu_memory,
        shown.ppu.controller,
        pixels,
    );
    lemma_render_paints_the_background::<NesPpuMemoryLayout<NromCartridgeWithMirror<M>>>(
        shown.ppu_memory,
        shown.ppu.controller,
        pixels,
        x,
        y,
    );
}

} // verus!
