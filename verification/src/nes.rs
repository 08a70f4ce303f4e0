//! The console: the processor on its bus, and the frame loop that paces the
//! processor against the picture unit.

use vstd::prelude::*;
use crate::addressable;
use crate::addressable::{Address, Addressable, CartridgeAddressable, PpuAddressable};
use crate::cpu;
use crate::cpu::{Cpu, Step};
use crate::io::{Io, IoState};
use crate::memory_layout::{BusState, MemoryLayout};
use crate::palette::{Palette, PALETTE_SIZE};
use crate::ppu::{spec_render, Ppu, PpuState};
use crate::ppu_memory_layout::{NesPpuMemoryLayout, PpuBusState};
use crate::ram::{zeroed, NesRam, NES_RAM_NUM_BYTES};
use crate::renderer::{Frame, NUM_PIXELS};

verus! {

/// The number of instructions that the processor carries out during the
/// vertical blank, and again while the picture is shown.
pub const INSTRUCTIONS_PER_INTERVAL: usize = 2000;

/// A console with a cartridge in it.
pub struct NesWithCartridge<C: CartridgeAddressable> {
    pub cpu: Cpu,
    pub memory: MemoryLayout<C>,
}

/// The processor and everything on its bus.
pub struct NesState<S> {
    pub cpu: Cpu,
    pub memory: BusState<S>,
}

impl<C: CartridgeAddressable> View for NesWithCartridge<C> {
    type V = NesState<C::V>;

    open spec fn view(&self) -> NesState<C::V> {
        NesState { cpu: self.cpu, memory: self.memory@ }
    }
}

impl<C: CartridgeAddressable> NesWithCartridge<C> {
    /// The console at power-on with a cartridge in state `cartridge`.
    pub open spec fn spec_new(cartridge: C::V) -> NesState<C::V> {
        NesState {
            cpu: Cpu::spec_new(),
            memory: BusState {
                ram: zeroed(NES_RAM_NUM_BYTES as nat),
                ppu: PpuState::spec_new(),
                io: IoState { shadow: 0, latch: 0 },
                ppu_memory: PpuBusState { cartridge, palette: zeroed(PALETTE_SIZE as nat) },
            },
        }
    }

    pub fn new(cartridge: C) -> (r: Self)
        ensures
            r@ == Self::spec_new(cartridge@),
    {
        NesWithCartridge {
            cpu: Cpu::new(),
            memory: MemoryLayout::new(
                cartridge,
                Ppu::new(),
                Io::new(),
                NesRam::new(),
                Palette::new(),
            ),
        }
    }

    /// The console with the outcome of a step of its processor: the memory is
    /// as the step left it, and the processor too unless the step failed, in
    /// which case the processor is as it was.
    pub open spec fn spec_commit(s: NesState<C::V>, step: Step<(), BusState<C::V>>) -> (
        cpu::Result<()>,
        NesState<C::V>,
    ) {
        (
            step.value,
            NesState {
                cpu: if step.value is Ok {
                    step.cpu
                } else {
                    s.cpu
                },
                memory: step.memory,
            },
        )
    }

    /// Reset: the program counter is loaded from the reset vector.
    pub open spec fn spec_init(s: NesState<C::V>) -> (cpu::Result<()>, NesState<C::V>) {
        Self::spec_commit(s, s.cpu.spec_init::<MemoryLayout<C>>(s.memory))
    }

    pub fn init(&mut self) -> (r: cpu::Result<()>)
        ensures
            (r, final(self)@) == Self::spec_init(old(self)@),
    {
        let mut cpu = self.cpu;
        cpu.init(&mut self.memory)?;
        self.cpu = cpu;
        Ok(())
    }

    /// `count` ticks of the processor, ended by the first that fails.
    pub open spec fn spec_run(cpu: Cpu, memory: BusState<C::V>, count: nat) -> Step<
        (),
        BusState<C::V>,
    >
        decreases count,
    {
        if count == 0 {
            cpu.spec_done((), memory)
        } else {
            let step = cpu.spec_tick::<MemoryLayout<C>>(memory);
            if step.value is Err {
                step
            } else {
                Self::spec_run(step.cpu, step.memory, (count - 1) as nat)
            }
        }
    }

    /// The console after `count` ticks of its processor.
    pub open spec fn spec_emulate_cpu(s: NesState<C::V>, count: nat) -> (
        cpu::Result<()>,
        NesState<C::V>,
    ) {
        Self::spec_commit(s, Self::spec_run(s.cpu, s.memory, count))
    }

    fn emulate_cpu(&mut self, num_instructions: usize) -> (r: cpu::Result<()>)
        ensures
            (r, final(self)@) == Self::spec_emulate_cpu(old(self)@, num_instructions as nat),
    {
        let mut cpu = self.cpu;
        let mut done: usize = 0;
        while done < num_instructions
            invariant
                done <= num_instructions,
                self.cpu == old(self).cpu,
                Self::spec_run(cpu, self.memory@, (num_instructions - done) as nat)
                    == Self::spec_run(
                    old(self).cpu,
                    old(self).memory@,
                    num_instructions as nat,
                ),
            decreases num_instructions - done,
        {
            cpu.tick(&mut self.memory)?;
            done += 1;
        }
        self.cpu = cpu;
        Ok(())
    }

    /// The vertical blank: the picture unit enters it, which may raise the
    /// non-maskable interrupt, and the processor runs for one interval.
    pub open spec fn spec_vblank_interval(s: NesState<C::V>) -> (
        cpu::Result<()>,
        NesState<C::V>,
    ) {
        let started = s.memory.ppu.spec_vblank_start(s.cpu.interrupts);
        Self::spec_emulate_cpu(
            NesState {
                cpu: Cpu { interrupts: started.1, ..s.cpu },
                memory: BusState { ppu: started.0, ..s.memory },
            },
            INSTRUCTIONS_PER_INTERVAL as nat,
        )
    }

    fn vblank_interval(&mut self) -> (r: cpu::Result<()>)
        ensures
            (r, final(self)@) == Self::spec_vblank_interval(old(self)@),
    {
        let mut interrupts = self.cpu.interrupts;
        interrupts = self.memory.ppu.vblank_start(interrupts);
        self.cpu.interrupts = interrupts;
        self.emulate_cpu(INSTRUCTIONS_PER_INTERVAL)
    }

    /// The visible part of a frame: the picture unit leaves the vertical
    /// blank, the background is painted over `pixels`, and the processor runs
    /// for one interval. A refusal while painting ends the frame as a memory
    /// error.
    pub open spec fn spec_render_interval(s: NesState<C::V>, pixels: Seq<u8>) -> (
        cpu::Result<()>,
        NesState<C::V>,
        Seq<u8>,
    ) {
        let ended = NesState {
            memory: BusState { ppu: s.memory.ppu.spec_vblank_end(), ..s.memory },
            ..s
        };
        let painted = spec_render::<NesPpuMemoryLayout<C>>(
            ended.memory.ppu_memory,
            ended.memory.ppu.controller,
            pixels,
        );
        match painted.0 {
            Err(e) => (Err(cpu::Error::MemoryError(e)), ended, painted.1),
            Ok(()) => {
                let run = Self::spec_emulate_cpu(ended, INSTRUCTIONS_PER_INTERVAL as nat);
                (run.0, run.1, painted.1)
            },
        }
    }

    fn render_interval<F: Frame>(&mut self, frame: &mut F) -> (r: cpu::Result<()>)
        requires
            old(frame).pixels().len() == NUM_PIXELS,
        ensures
            (r, final(self)@, final(frame).pixels()) == Self::spec_render_interval(
                old(self)@,
                old(frame).pixels(),
            ),
            final(frame).pixels().len() == NUM_PIXELS,
    {
        let mut interrupts = self.cpu.interrupts;
        interrupts = self.memory.ppu.vblank_end(interrupts);
        self.cpu.interrupts = interrupts;
        match self.memory.ppu.render(frame, &mut self.memory.ppu_memory) {
            Ok(()) => {},
            Err(e) => {
                return Err(cpu::Error::MemoryError(e));
            },
        }
        self.emulate_cpu(INSTRUCTIONS_PER_INTERVAL)
    }

    /// One frame: the vertical blank, then the visible part. The first
    /// failure ends the frame.
    pub open spec fn spec_emulate_frame(s: NesState<C::V>, pixels: Seq<u8>) -> (
        cpu::Result<()>,
        NesState<C::V>,
        Seq<u8>,
    ) {
        let blank = Self::spec_vblank_interval(s);
        if blank.0 is Err {
            (blank.0, blank.1, pixels)
        } else {
            Self::spec_render_interval(blank.1, pixels)
        }
    }

    /// Emulates one frame and paints its background into `frame`.
    pub fn emulate_frame<F: Frame>(&mut self, frame: &mut F) -> (r: cpu::Result<()>)
        requires
            old(frame).pixels().len() == NUM_PIXELS,
        ensures
            (r, final(self)@, final(frame).pixels()) == Self::spec_emulate_frame(
                old(self)@,
                old(frame).pixels(),
            ),
            final(frame).pixels().len() == NUM_PIXELS,
    {
        self.vblank_interval()?;
        self.render_interval(frame)?;
        Ok(())
    }
}

impl<C: CartridgeAddressable> Addressable for NesWithCartridge<C> {
    /// The console serves an access as its bus does.
    open spec fn spec_read8(s: NesState<C::V>, address: Address) -> (
        addressable::Result<u8>,
        NesState<C::V>,
    ) {
        let read = MemoryLayout::<C>::spec_bus_read8(s.memory, address);
        (read.0, NesState { memory: read.1, ..s })
    }

    open spec fn spec_write8(s: NesState<C::V>, address: Address, data: u8) -> (
        addressable::Result<()>,
        NesState<C::V>,
    ) {
        let written = MemoryLayout::<C>::spec_bus_write8(s.memory, address, data);
        (written.0, NesState { memory: written.1, ..s })
    }

    fn write8(&mut self, address: Address, data: u8) -> (r: addressable::Result<()>) {
        self.memory.write8(address, data)
    }

    fn read8(&mut self, address: Address) -> (r: addressable::Result<u8>) {
        self.memory.read8(address)
    }
}

impl<C: CartridgeAddressable> PpuAddressable for NesWithCartridge<C> {
    /// The console serves an access in the picture unit's space as the
    /// picture unit's bus does.
    open spec fn spec_ppu_read8(s: NesState<C::V>, address: Address) -> addressable::Result<u8> {
        NesPpuMemoryLayout::<C>::spec_ppu_read8(s.memory.ppu_memory, address)
    }

    open spec fn spec_ppu_write8(s: NesState<C::V>, address: Address, data: u8) -> (
        addressable::Result<()>,
        NesState<C::V>,
    ) {
        let written = NesPpuMemoryLayout::<C>::spec_ppu_write8(
            s.memory.ppu_memory,
            address,
            data,
        );
        (written.0, NesState { memory: BusState { ppu_memory: written.1, ..s.memory }, ..s })
    }

    fn ppu_read8(&mut self, address: Address) -> (r: addressable::Result<u8>) {
        self.memory.ppu_memory.ppu_read8(address)
    }

    fn ppu_write8(&mut self, address: Address, data: u8) -> (r: addressable::Result<()>) {
        self.memory.ppu_memory.ppu_write8(address, data)
    }
}

} // verus!
