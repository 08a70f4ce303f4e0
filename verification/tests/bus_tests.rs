use nes_emulator::addressable::Error as BusError;
use nes_emulator::addressable::{
    read16_le_pure, read8_pure, read8_side_effects, Addressable, PpuAddressable,
};
use nes_emulator::cpu_memory_layout::NesCpuMemoryLayout;
use nes_emulator::cpu_memory_layout_change::{MemoryWrite, NesCpuMemoryLayoutBuffer};
use nes_emulator::input::{button, get_input, InputEvent, Key, MetaControl};
use nes_emulator::expansion::NesExpansionRom;
use nes_emulator::image::{NesHeader, NesImage, TvSystem, VideoArrangement};
use nes_emulator::io::{
    Io, BUTTON_A, BUTTON_B, BUTTON_DOWN, BUTTON_LEFT, BUTTON_RIGHT, BUTTON_SELECT, BUTTON_START,
    BUTTON_UP,
};
use nes_emulator::io_ports::NesIoPorts;
use nes_emulator::memory_layout::MemoryLayout;
use nes_emulator::mirror::VerticalMirror;
use nes_emulator::mos6502::Mos6502;
use nes_emulator::nrom_cartridge::NromCartridgeWithMirror;
use nes_emulator::palette::Palette;
use nes_emulator::ppu::Ppu;
use nes_emulator::ppu_memory_layout::NesPpuMemoryLayout;
use nes_emulator::ram::NesRam;
use nes_emulator::vram::NesVram;

fn cartridge() -> NromCartridgeWithMirror<VerticalMirror> {
    let image = NesImage {
        header: NesHeader {
            prg_rom_size: 2,
            chr_rom_size: 1,
            prg_ram_size: None,
            trainer_present: false,
            vs_unisystem_present: false,
            playchoice_present: false,
            nes2_format: false,
            mapper_number: 0,
            video_arrangement: VideoArrangement::VerticalMirroring,
            tv_system: TvSystem::Ntsc,
        },
        trainer: None,
        prg_rom: (0..0x8000).map(|i| (i % 253) as u8).collect(),
        chr_rom: (0..0x2000).map(|i| (i % 241) as u8).collect(),
        playchoice_inst_rom: None,
        playchoice_prom: None,
        extra: Vec::new(),
    };
    NromCartridgeWithMirror::new(&image, VerticalMirror).unwrap()
}

fn bus() -> MemoryLayout<NromCartridgeWithMirror<VerticalMirror>> {
    MemoryLayout::new(cartridge(), Ppu::new(), Io::new(), NesRam::new(), Palette::new())
}

fn ppu_bus() -> NesPpuMemoryLayout<NromCartridgeWithMirror<VerticalMirror>> {
    NesPpuMemoryLayout::new(cartridge(), Palette::new())
}

#[test]
fn ram_serves_its_bytes() {
    let mut ram = NesRam::new();
    assert_eq!(ram.read8(0x0000), Ok(0));
    assert_eq!(ram.read8(0x07ff), Ok(0));
    assert_eq!(ram.write8(0x07ff, 9), Ok(()));
    assert_eq!(ram.read8(0x07ff), Ok(9));
    assert_eq!(ram.read8(0x0800), Err(BusError::BusErrorRead(0x0800)));
    assert_eq!(ram.write8(0x0800, 1), Err(BusError::BusErrorWrite(0x0800)));
}

#[test]
fn vram_serves_its_bytes() {
    let mut vram = NesVram::new();
    assert_eq!(vram.ppu_read8(0x07ff), Ok(0));
    assert_eq!(vram.ppu_write8(0x0123, 7), Ok(()));
    assert_eq!(vram.ppu_read8(0x0123), Ok(7));
    assert_eq!(vram.ppu_read8(0x0800), Err(BusError::BusErrorRead(0x0800)));
    assert_eq!(vram.ppu_write8(0x0800, 1), Err(BusError::BusErrorWrite(0x0800)));
}

#[test]
fn palette_serves_its_bytes() {
    let mut palette = Palette::new();
    assert_eq!(palette.ppu_read8(0x1f), Ok(0));
    assert_eq!(palette.ppu_write8(0x1f, 0x3f), Ok(()));
    assert_eq!(palette.ppu_read8(0x1f), Ok(0x3f));
    assert_eq!(palette.ppu_read8(0x20), Err(BusError::BusErrorRead(0x20)));
    assert_eq!(palette.ppu_write8(0x20, 1), Err(BusError::BusErrorWrite(0x20)));
}

#[test]
fn stand_ins_refuse_every_access() {
    let mut ports = NesIoPorts::new();
    assert_eq!(ports.read8(0x16), Err(BusError::UnimplementedRead(0x16)));
    assert_eq!(ports.write8(0x16, 0), Err(BusError::UnimplementedWrite(0x16)));
    let mut expansion = NesExpansionRom::new();
    assert_eq!(expansion.read8(0x4020), Err(BusError::UnimplementedRead(0x4020)));
    assert_eq!(expansion.write8(0x4020, 0), Err(BusError::UnimplementedWrite(0x4020)));
}

#[test]
fn socket_passes_accesses_through() {
    let mut socket = Mos6502::new(NesRam::new());
    assert_eq!(socket.write8(0x0010, 0x99), Ok(()));
    assert_eq!(socket.read8(0x0010), Ok(0x99));
    assert_eq!(socket.memory.read8(0x0010), Ok(0x99));
    assert_eq!(socket.read8(0x0800), Err(BusError::BusErrorRead(0x0800)));
}

#[test]
fn work_ram_is_mirrored() {
    let mut bus = bus();
    for address in [0x0000u16, 0x0001, 0x07ff, 0x0800, 0x0fff, 0x1234, 0x1fff] {
        let data = (address % 199) as u8 + 1;
        assert_eq!(bus.write8(address, data), Ok(()));
        assert_eq!(bus.read8(address), Ok(data));
        assert_eq!(bus.read8(address % 0x0800), Ok(data));
        assert_eq!(bus.read8(address % 0x0800 + 0x0800), Ok(data));
        assert_eq!(bus.read8(address % 0x0800 + 0x1800), Ok(data));
    }
}

#[test]
fn cartridge_is_at_6000() {
    let mut bus = bus();
    assert_eq!(bus.read8(0x8000), Ok(0));
    assert_eq!(bus.read8(0x8001), Ok(1));
    assert_eq!(bus.read8(0xc000), Ok((0x4000 % 253) as u8));
    assert_eq!(bus.read8(0xffff), Ok((0x7fff % 253) as u8));
    assert_eq!(bus.write8(0x6000, 0x5a), Ok(()));
    assert_eq!(bus.read8(0x6000), Ok(0x5a));
    assert_eq!(bus.write8(0x8000, 1), Err(BusError::IllegalWrite(0x0000)));
    assert_eq!(bus.write8(0xc005, 1), Err(BusError::IllegalWrite(0x0005)));
}

#[test]
fn expansion_range_is_unimplemented() {
    let mut bus = bus();
    assert_eq!(bus.read8(0x4020), Err(BusError::UnimplementedRead(0x4020)));
    assert_eq!(bus.read8(0x5fff), Err(BusError::UnimplementedRead(0x5fff)));
    assert_eq!(bus.write8(0x4020, 1), Err(BusError::UnimplementedWrite(0x4020)));
    assert_eq!(bus.write8(0x5fff, 1), Err(BusError::UnimplementedWrite(0x5fff)));
}

#[test]
fn apu_registers_are_stubs() {
    let mut bus = bus();
    for address in [0x4000u16, 0x4013, 0x4014, 0x4015, 0x4017, 0x401f] {
        assert_eq!(bus.read8(address), Ok(0));
    }
    for address in [0x4000u16, 0x4013, 0x4015, 0x4017, 0x401f] {
        assert_eq!(bus.write8(address, 0xff), Ok(()));
    }
}

#[test]
fn ppu_registers_are_mirrored_every_eight_bytes() {
    let mut bus = bus();
    assert_eq!(bus.write8(0x2000, 0x80), Ok(()));
    assert_eq!(bus.write8(0x3ff8 + 3, 0x10), Ok(()));
    assert_eq!(bus.write8(0x2008 + 4, 0xaa), Ok(()));
    assert_eq!(bus.write8(0x2003, 0x10), Ok(()));
    assert_eq!(bus.read8(0x3004), Ok(0xaa));
    assert_eq!(bus.read8(0x2001), Err(BusError::IllegalRead(1)));
    assert_eq!(bus.read8(0x3ff9), Err(BusError::IllegalRead(1)));
    assert_eq!(bus.write8(0x200a, 0), Err(BusError::IllegalWrite(2)));
}

#[test]
fn controller_is_read_bit_by_bit() {
    let mut bus = bus();
    bus.io.joy1_press(BUTTON_A);
    bus.io.joy1_press(BUTTON_START);
    bus.io.joy1_press(BUTTON_RIGHT);
    assert_eq!(bus.read8(0x4016), Ok(0));
    assert_eq!(bus.write8(0x4016, 1), Ok(()));
    assert_eq!(bus.read8(0x4016), Ok(0));
    assert_eq!(bus.write8(0x4016, 0), Ok(()));
    let bits: Vec<u8> = (0..9).map(|_| bus.read8(0x4016).unwrap()).collect();
    assert_eq!(bits, vec![1, 0, 0, 1, 0, 0, 0, 1, 0]);
    assert_eq!(bus.write8(0x4016, 0), Ok(()));
    assert_eq!(bus.read8(0x4016), Ok(0));
}

#[test]
fn buttons_have_their_bits() {
    assert_eq!(
        [
            BUTTON_A,
            BUTTON_B,
            BUTTON_SELECT,
            BUTTON_START,
            BUTTON_UP,
            BUTTON_DOWN,
            BUTTON_LEFT,
            BUTTON_RIGHT
        ],
        [0x01, 0x02, 0x04, 0x08, 0x10, 0x20, 0x40, 0x80]
    );
    let mut io = Io::new();
    io.joy1_press(BUTTON_B);
    io.joy1_press(BUTTON_UP);
    io.joy1_press(BUTTON_B);
    assert_eq!(io.write8(0x16, 0), Ok(()));
    let bits: Vec<u8> = (0..8).map(|_| io.read8(0x16).unwrap()).collect();
    assert_eq!(bits, vec![0, 1, 0, 0, 1, 0, 0, 0]);
    assert_eq!(io.read8(0x15), Ok(0));
    assert_eq!(io.write8(0x17, 0), Ok(()));
}

#[test]
fn oam_dma_copies_a_page() {
    let mut bus = bus();
    for i in 0..256u16 {
        bus.write8(0x0300 + i, (i as u8) ^ 0x5a).unwrap();
    }
    assert_eq!(bus.write8(0x2003, 0x00), Ok(()));
    assert_eq!(bus.write8(0x4014, 0x03), Ok(()));
    for i in [0u8, 1, 0x7f, 0xff] {
        bus.write8(0x2003, i).unwrap();
        assert_eq!(bus.read8(0x2004), Ok(i ^ 0x5a));
    }
}

#[test]
fn oam_dma_starts_at_the_cursor_and_wraps() {
    let mut bus = bus();
    for i in 0..256u16 {
        bus.write8(0x0700 + i, i as u8).unwrap();
    }
    bus.write8(0x2003, 0x10).unwrap();
    assert_eq!(bus.write8(0x4014, 0x0f), Ok(()));
    bus.write8(0x2003, 0x10).unwrap();
    assert_eq!(bus.read8(0x2004), Ok(0x00));
    bus.write8(0x2003, 0x0f).unwrap();
    assert_eq!(bus.read8(0x2004), Ok(0xff));
    bus.write8(0x2003, 0x00).unwrap();
    assert_eq!(bus.read8(0x2004), Ok(0xf0));
}

#[test]
fn oam_dma_stops_at_the_first_refusal() {
    let mut bus = bus();
    assert_eq!(bus.write8(0x4014, 0x50), Err(BusError::UnimplementedRead(0x5000)));
    assert_eq!(bus.write8(0x4014, 0x20), Err(BusError::IllegalRead(0)));
    bus.write8(0x2003, 0x00).unwrap();
    assert_eq!(bus.write8(0x4014, 0x40), Err(BusError::UnimplementedRead(0x4020)));
    assert_eq!(bus.read8(0x2004), Ok(0));
}

#[test]
fn ppu_bus_reaches_the_cartridge() {
    let mut bus = ppu_bus();
    assert_eq!(bus.ppu_read8(0x0005), Ok(5));
    assert_eq!(bus.ppu_read8(0x1fff), Ok((0x1fff % 241) as u8));
    assert_eq!(bus.ppu_write8(0x0005, 1), Err(BusError::IllegalWrite(0x0005)));
    assert_eq!(bus.ppu_write8(0x2000, 0x42), Ok(()));
    assert_eq!(bus.ppu_read8(0x2000), Ok(0x42));
    assert_eq!(bus.ppu_read8(0x2800), Ok(0x42));
    assert_eq!(bus.cartridge.ppu_read8(0x2000), Ok(0x42));
}

#[test]
fn nametables_are_mirrored_at_3000() {
    let mut bus = ppu_bus();
    for address in [0x3000u16, 0x3123, 0x3eff] {
        let data = (address % 251) as u8 + 1;
        assert_eq!(bus.ppu_write8(address, data), Ok(()));
        assert_eq!(bus.ppu_read8(address), Ok(data));
        assert_eq!(bus.ppu_read8(address - 0x1000), Ok(data));
        assert_eq!(bus.ppu_write8(address - 0x1000, data + 1), Ok(()));
        assert_eq!(bus.ppu_read8(address), Ok(data + 1));
    }
}

#[test]
fn palette_is_mirrored_every_32_bytes() {
    let mut bus = ppu_bus();
    for address in [0x3f00u16, 0x3f01, 0x3f1f, 0x3f20, 0x3f3f, 0x3fe5, 0x3fff] {
        let data = (address % 64) as u8;
        assert_eq!(bus.ppu_write8(address, data), Ok(()));
        assert_eq!(bus.ppu_read8(address), Ok(data));
        assert_eq!(bus.ppu_read8(0x3f00 + (address - 0x3f00) % 0x20), Ok(data));
        assert_eq!(bus.palette.ppu_read8((address - 0x3f00) % 0x20), Ok(data));
    }
}

#[test]
fn ppu_addresses_above_3fff_are_bus_errors() {
    let mut bus = ppu_bus();
    assert_eq!(bus.ppu_read8(0x4000), Err(BusError::BusErrorRead(0x4000)));
    assert_eq!(bus.ppu_read8(0xffff), Err(BusError::BusErrorRead(0xffff)));
    assert_eq!(bus.ppu_write8(0x4000, 1), Err(BusError::BusErrorWrite(0x4000)));
}

#[test]
fn bus_hands_out_the_ppu_bus() {
    let mut bus = bus();
    bus.ppu_memory_layout().ppu_write8(0x3f01, 0x16).unwrap();
    assert_eq!(bus.ppu_memory.ppu_read8(0x3f21), Ok(0x16));
}

#[test]
fn keys_press_buttons() {
    assert_eq!(button(Key::Return), Some(BUTTON_START));
    assert_eq!(button(Key::RShift), Some(BUTTON_SELECT));
    assert_eq!(button(Key::A), Some(BUTTON_A));
    assert_eq!(button(Key::B), Some(BUTTON_B));
    assert_eq!(button(Key::Left), Some(BUTTON_LEFT));
    assert_eq!(button(Key::Right), Some(BUTTON_RIGHT));
    assert_eq!(button(Key::Up), Some(BUTTON_UP));
    assert_eq!(button(Key::Down), Some(BUTTON_DOWN));
    assert_eq!(button(Key::Escape), None);
    assert_eq!(button(Key::Other), None);
}

fn latched_buttons(io: &mut Io) -> u8 {
    io.write8(0x16, 0).unwrap();
    (0..8).map(|bit| io.read8(0x16).unwrap() << bit).sum()
}

#[test]
fn events_press_buttons_until_one_quits() {
    let mut io = Io::new();
    let events = [
        InputEvent::KeyDown(Key::A),
        InputEvent::Other,
        InputEvent::KeyDown(Key::Other),
        InputEvent::KeyDown(Key::Up),
    ];
    assert_eq!(get_input(&mut io, &events), None);
    assert_eq!(latched_buttons(&mut io), BUTTON_A | BUTTON_UP);
    let events = [
        InputEvent::KeyDown(Key::Left),
        InputEvent::KeyDown(Key::Escape),
        InputEvent::KeyDown(Key::Right),
    ];
    assert_eq!(get_input(&mut io, &events), Some(MetaControl::Quit));
    assert_eq!(latched_buttons(&mut io), BUTTON_LEFT);
    let events = [InputEvent::Quit, InputEvent::KeyDown(Key::B)];
    assert_eq!(get_input(&mut io, &events), Some(MetaControl::Quit));
    assert_eq!(latched_buttons(&mut io), 0);
    assert_eq!(get_input(&mut io, &[]), None);
}

fn small_bus() -> NesCpuMemoryLayout<NromCartridgeWithMirror<VerticalMirror>> {
    NesCpuMemoryLayout::new(cartridge(), Ppu::new(), NesRam::new())
}

#[test]
fn small_bus_has_three_zones() {
    let mut bus = small_bus();
    assert_eq!(bus.write8(0x0801, 0x12), Ok(()));
    assert_eq!(bus.read8(0x1801), Ok(0x12));
    assert_eq!(bus.read8(0x8001), Ok(1));
    assert_eq!(bus.write8(0x8001, 1), Err(BusError::IllegalWrite(0x0001)));
    assert_eq!(bus.read8(0x4016), Err(BusError::UnimplementedRead(0x4016)));
    assert_eq!(bus.write8(0x4014, 0), Err(BusError::UnimplementedWrite(0x4014)));
    assert_eq!(bus.read8(0x5fff), Err(BusError::UnimplementedRead(0x5fff)));
    assert_eq!(bus.write8(0x2006, 0x20), Ok(()));
    assert_eq!(bus.write8(0x2006, 0x05), Ok(()));
    assert_eq!(bus.write8(0x2007, 0x99), Ok(()));
    assert_eq!(bus.cartridge.ppu_read8(0x2005), Ok(0x99));
    assert_eq!(bus.write8(0x2006, 0x3f), Ok(()));
    assert_eq!(bus.write8(0x2006, 0x00), Ok(()));
    assert_eq!(bus.read8(0x2007), Err(BusError::BusErrorRead(0x3f00)));
    assert_eq!(bus.read8(0x2002), Ok(0x00));
}

#[test]
fn recording_bus_holds_writes_back() {
    let mut buffer = NesCpuMemoryLayoutBuffer::new(small_bus(), Vec::new(), Vec::new());
    assert_eq!(buffer.write8(0x0010, 0x11), Ok(()));
    assert_eq!(buffer.write8(0x0011, 0x22), Ok(()));
    assert_eq!(buffer.write8(0x0010, 0x33), Ok(()));
    assert_eq!(buffer.read8(0x0010), Ok(0x00));
    assert_eq!(buffer.read8(0x8002), Ok(2));
    assert_eq!(buffer.reads, vec![0x0010, 0x8002]);
    assert_eq!(
        buffer.writes,
        vec![
            MemoryWrite { address: 0x0010, data: 0x11 },
            MemoryWrite { address: 0x0011, data: 0x22 },
            MemoryWrite { address: 0x0010, data: 0x33 },
        ]
    );
    assert_eq!(buffer.apply(), Ok(()));
    assert!(buffer.reads.is_empty());
    assert!(buffer.writes.is_empty());
    assert_eq!(buffer.memory.read8(0x0010), Ok(0x33));
    assert_eq!(buffer.memory.read8(0x0011), Ok(0x22));
    assert_eq!(buffer.apply(), Ok(()));
}

#[test]
fn recording_bus_stops_at_the_first_refusal() {
    let mut buffer = NesCpuMemoryLayoutBuffer::new(small_bus(), Vec::new(), Vec::new());
    assert_eq!(buffer.write8(0x0010, 0x11), Ok(()));
    assert_eq!(buffer.read8(0x5000), Err(BusError::UnimplementedRead(0x5000)));
    assert_eq!(buffer.apply(), Err(BusError::UnimplementedRead(0x5000)));
    assert!(buffer.reads.is_empty());
    assert_eq!(buffer.writes.len(), 1);
    assert_eq!(buffer.memory.read8(0x0010), Ok(0x00));
    assert_eq!(buffer.write8(0x8000, 0x22), Ok(()));
    assert_eq!(buffer.write8(0x0012, 0x33), Ok(()));
    assert_eq!(buffer.apply(), Err(BusError::IllegalWrite(0x0000)));
    assert!(buffer.writes.is_empty());
    assert_eq!(buffer.memory.read8(0x0010), Ok(0x11));
    assert_eq!(buffer.memory.read8(0x0012), Ok(0x00));
}

#[test]
fn reads_in_other_words() {
    let mut ram = NesRam::new();
    ram.write8(0x0010, 0x34).unwrap();
    ram.write8(0x0011, 0x12).unwrap();
    assert_eq!(read8_pure(&mut ram, 0x0010), Ok(0x34));
    assert_eq!(read16_le_pure(&mut ram, 0x0010), Ok(0x1234));
    assert_eq!(read8_side_effects(&mut ram, 0x0010), Ok(()));
    assert_eq!(read8_side_effects(&mut ram, 0x0800), Err(BusError::BusErrorRead(0x0800)));
    assert_eq!(read16_le_pure(&mut ram, 0x07ff), Err(BusError::BusErrorRead(0x0800)));
    let mut io = Io::new();
    io.joy1_press(BUTTON_A);
    io.write8(0x16, 0).unwrap();
    assert_eq!(read8_side_effects(&mut io, 0x16), Ok(()));
    assert_eq!(io.read8(0x16), Ok(0));
}
