use nes_emulator::addressable::Error as BusError;
use nes_emulator::addressable::PpuAddressable;
use nes_emulator::cpu::InterruptState;
use nes_emulator::image::{NesHeader, NesImage, TvSystem, VideoArrangement};
use nes_emulator::mirror::VerticalMirror;
use nes_emulator::nrom_cartridge::NromCartridgeWithMirror;
use nes_emulator::palette::Palette;
use nes_emulator::ppu::Ppu;
use nes_emulator::ppu_memory_layout::NesPpuMemoryLayout;
use nes_emulator::renderer::{Frame, FrameBuffer, DISPLAY_HEIGHT, DISPLAY_WIDTH};

type PpuBus = NesPpuMemoryLayout<NromCartridgeWithMirror<VerticalMirror>>;

fn ppu_bus_with(chr_rom: Vec<u8>) -> PpuBus {
    let image = NesImage {
        header: NesHeader {
            prg_rom_size: 1,
            chr_rom_size: 1,
            prg_ram_size: None,
            trainer_present: false,
            vs_unisystem_present: false,
            playchoice_present: false,
            nes2_format: false,
            mapper_number: 0,
            video_arrangement: VideoArrangement::VerticalMirroring,
            tv_system: TvSystem::Ntsc,
        },
        trainer: None,
        prg_rom: vec![0u8; 0x4000],
        chr_rom,
        playchoice_inst_rom: None,
        playchoice_prom: None,
        extra: Vec::new(),
    };
    NesPpuMemoryLayout::new(
        NromCartridgeWithMirror::new(&image, VerticalMirror).unwrap(),
        Palette::new(),
    )
}

fn ppu_bus() -> PpuBus {
    ppu_bus_with((0..0x2000).map(|i| (i % 241) as u8).collect())
}

fn frame_filled_with(fill: u8) -> FrameBuffer {
    let mut frame = FrameBuffer::new();
    for pixel in frame.pixels.iter_mut() {
        *pixel = fill;
    }
    frame
}

fn set_address(ppu: &mut Ppu, bus: &mut PpuBus, address: u16) {
    ppu.write8(6, (address >> 8) as u8, bus).unwrap();
    ppu.write8(6, (address & 0xff) as u8, bus).unwrap();
}

#[test]
fn write_only_registers_cannot_be_read() {
    let mut ppu = Ppu::new();
    let mut bus = ppu_bus();
    for register in [0u16, 1, 3, 5, 6] {
        assert_eq!(ppu.read8(register, &mut bus), Err(BusError::IllegalRead(register)));
    }
    assert_eq!(ppu.read8(8, &mut bus), Err(BusError::UnimplementedRead(8)));
    assert_eq!(ppu.write8(8, 0, &mut bus), Err(BusError::UnimplementedWrite(8)));
    assert_eq!(ppu.write8(2, 0, &mut bus), Err(BusError::IllegalWrite(2)));
}

#[test]
fn every_write_latches_its_low_five_bits_into_the_status() {
    let mut ppu = Ppu::new();
    let mut bus = ppu_bus();
    ppu.vblank_start(InterruptState { nmi: false });
    ppu.write8(1, 0xff, &mut bus).unwrap();
    assert_eq!(ppu.read8(2, &mut bus), Ok(0x9f));
    ppu.write8(3, 0x20, &mut bus).unwrap();
    assert_eq!(ppu.read8(2, &mut bus), Ok(0x00));
    assert_eq!(ppu.write8(2, 0x15, &mut bus), Err(BusError::IllegalWrite(2)));
    assert_eq!(ppu.read8(2, &mut bus), Ok(0x15));
}

#[test]
fn status_read_clears_vblank() {
    let mut ppu = Ppu::new();
    let mut bus = ppu_bus();
    let interrupts = ppu.vblank_start(InterruptState { nmi: false });
    assert!(!interrupts.nmi);
    assert_eq!(ppu.read8(2, &mut bus), Ok(0x80));
    assert_eq!(ppu.read8(2, &mut bus), Ok(0x00));
    ppu.vblank_start(InterruptState { nmi: false });
    let interrupts = ppu.vblank_end(InterruptState { nmi: true });
    assert!(interrupts.nmi);
    assert_eq!(ppu.read8(2, &mut bus), Ok(0x00));
}

#[test]
fn vblank_raises_nmi_where_enabled() {
    let mut ppu = Ppu::new();
    let mut bus = ppu_bus();
    ppu.write8(0, 0x80, &mut bus).unwrap();
    assert!(ppu.vblank_start(InterruptState { nmi: false }).nmi);
    ppu.write8(0, 0x7f, &mut bus).unwrap();
    assert!(!ppu.vblank_start(InterruptState { nmi: false }).nmi);
    assert!(ppu.vblank_start(InterruptState { nmi: true }).nmi);
}

#[test]
fn status_read_resets_the_address_toggle() {
    let mut ppu = Ppu::new();
    let mut bus = ppu_bus();
    bus.ppu_write8(0x2155, 0x77).unwrap();
    bus.ppu_write8(0x2100, 0x66).unwrap();
    ppu.write8(6, 0x3f, &mut bus).unwrap();
    ppu.read8(2, &mut bus).unwrap();
    set_address(&mut ppu, &mut bus, 0x2155);
    ppu.read8(7, &mut bus).unwrap();
    assert_eq!(ppu.read8(7, &mut bus), Ok(0x77));
}

#[test]
fn without_a_status_read_the_toggle_stays() {
    let mut ppu = Ppu::new();
    let mut bus = ppu_bus();
    bus.ppu_write8(0x2155, 0x77).unwrap();
    bus.ppu_write8(0x3f01, 0x19).unwrap();
    ppu.write8(6, 0x3f, &mut bus).unwrap();
    set_address(&mut ppu, &mut bus, 0x2155);
    ppu.read8(7, &mut bus).unwrap();
    assert_eq!(ppu.read8(7, &mut bus), Ok(0x19));
}

#[test]
fn status_read_resets_the_scroll_toggle() {
    let mut ppu = Ppu::new();
    let mut bus = ppu_bus();
    ppu.write8(5, 0x11, &mut bus).unwrap();
    ppu.read8(2, &mut bus).unwrap();
    ppu.write8(5, 0x22, &mut bus).unwrap();
    ppu.write8(5, 0x33, &mut bus).unwrap();
    let text = String::from_utf8(ppu.text()).unwrap();
    assert!(text.starts_with("scroll: [ x: 34, y: 51 ]\n"));
}

#[test]
fn scroll_takes_two_writes() {
    let mut ppu = Ppu::new();
    let mut bus = ppu_bus();
    ppu.write8(5, 200, &mut bus).unwrap();
    assert!(String::from_utf8(ppu.text()).unwrap().starts_with("scroll: [ x: 0, y: 0 ]\n"));
    ppu.write8(5, 7, &mut bus).unwrap();
    assert!(String::from_utf8(ppu.text()).unwrap().starts_with("scroll: [ x: 200, y: 7 ]\n"));
}

#[test]
fn data_reads_are_buffered() {
    let mut ppu = Ppu::new();
    let mut bus = ppu_bus();
    bus.ppu_write8(0x2000, 0xa1).unwrap();
    bus.ppu_write8(0x2001, 0xa2).unwrap();
    bus.ppu_write8(0x2002, 0xa3).unwrap();
    set_address(&mut ppu, &mut bus, 0x2000);
    assert_eq!(ppu.read8(7, &mut bus), Ok(0x00));
    assert_eq!(ppu.read8(7, &mut bus), Ok(0xa1));
    assert_eq!(ppu.read8(7, &mut bus), Ok(0xa2));
    set_address(&mut ppu, &mut bus, 0x0010);
    assert_eq!(ppu.read8(7, &mut bus), Ok(0xa3));
    assert_eq!(ppu.read8(7, &mut bus), Ok(0x10));
}

#[test]
fn data_writes_go_to_the_cursor_and_move_it() {
    let mut ppu = Ppu::new();
    let mut bus = ppu_bus();
    set_address(&mut ppu, &mut bus, 0x23fe);
    ppu.write8(7, 0x01, &mut bus).unwrap();
    ppu.write8(7, 0x02, &mut bus).unwrap();
    ppu.write8(7, 0x03, &mut bus).unwrap();
    assert_eq!(bus.ppu_read8(0x23fe), Ok(0x01));
    assert_eq!(bus.ppu_read8(0x23ff), Ok(0x02));
    assert_eq!(bus.ppu_read8(0x2400), Ok(0x03));
    ppu.write8(0, 0x04, &mut bus).unwrap();
    set_address(&mut ppu, &mut bus, 0x2000);
    ppu.write8(7, 0x0a, &mut bus).unwrap();
    ppu.write8(7, 0x0b, &mut bus).unwrap();
    assert_eq!(bus.ppu_read8(0x2000), Ok(0x0a));
    assert_eq!(bus.ppu_read8(0x2020), Ok(0x0b));
    assert_eq!(bus.ppu_read8(0x2001), Ok(0x00));
}

#[test]
fn refused_data_access_leaves_the_cursor() {
    let mut ppu = Ppu::new();
    let mut bus = ppu_bus();
    set_address(&mut ppu, &mut bus, 0x0004);
    assert_eq!(ppu.write8(7, 0x55, &mut bus), Err(BusError::IllegalWrite(0x0004)));
    assert_eq!(ppu.read8(2, &mut bus), Ok(0x15));
    assert_eq!(ppu.read8(7, &mut bus), Ok(0x00));
    assert_eq!(ppu.read8(7, &mut bus), Ok(0x04));
    set_address(&mut ppu, &mut bus, 0x4000);
    assert_eq!(ppu.read8(7, &mut bus), Err(BusError::BusErrorRead(0x4000)));
    assert_eq!(ppu.read8(7, &mut bus), Err(BusError::BusErrorRead(0x4000)));
    set_address(&mut ppu, &mut bus, 0x0000);
    assert_eq!(ppu.read8(7, &mut bus), Ok(0x05));
}

#[test]
fn cursor_wraps_at_sixteen_bits() {
    let mut ppu = Ppu::new();
    let mut bus = ppu_bus();
    bus.ppu_write8(0x3fff, 0x2a).unwrap();
    ppu.write8(0, 0x04, &mut bus).unwrap();
    set_address(&mut ppu, &mut bus, 0x3fff);
    assert_eq!(ppu.read8(7, &mut bus), Ok(0x00));
    assert_eq!(ppu.read8(7, &mut bus), Err(BusError::BusErrorRead(0x401f)));
    set_address(&mut ppu, &mut bus, 0xffe5);
    assert_eq!(ppu.write8(7, 1, &mut bus), Err(BusError::BusErrorWrite(0xffe5)));
}

#[test]
fn oam_is_written_at_the_cursor() {
    let mut ppu = Ppu::new();
    let mut bus = ppu_bus();
    ppu.set_oam_address(0xfe);
    ppu.oam_data_write(0x11);
    ppu.oam_data_write(0x22);
    ppu.oam_data_write(0x33);
    assert_eq!(ppu.read8(4, &mut bus), Ok(0x00));
    ppu.set_oam_address(0xfe);
    assert_eq!(ppu.read8(4, &mut bus), Ok(0x11));
    assert_eq!(ppu.read8(4, &mut bus), Ok(0x11));
    ppu.write8(3, 0xff, &mut bus).unwrap();
    assert_eq!(ppu.read8(4, &mut bus), Ok(0x22));
    ppu.write8(3, 0x00, &mut bus).unwrap();
    assert_eq!(ppu.read8(4, &mut bus), Ok(0x33));
    ppu.write8(4, 0x44, &mut bus).unwrap();
    ppu.write8(3, 0x00, &mut bus).unwrap();
    assert_eq!(ppu.read8(4, &mut bus), Ok(0x44));
}

#[test]
fn ppu_text() {
    let mut ppu = Ppu::new();
    let mut bus = ppu_bus();
    ppu.write8(0, 0x90, &mut bus).unwrap();
    ppu.write8(1, 0x1e, &mut bus).unwrap();
    set_address(&mut ppu, &mut bus, 0x23c0);
    ppu.write8(3, 0x10, &mut bus).unwrap();
    ppu.write8(4, 0xab, &mut bus).unwrap();
    let text = String::from_utf8(ppu.text()).unwrap();
    let mut expected = String::new();
    expected.push_str("scroll: [ x: 0, y: 0 ]\n");
    expected.push_str("address: 23c0\n");
    expected.push_str("registers:\n");
    expected.push_str("PPUCTRL: 90\nPPUMASK: 1e\nPPUSTATUS: 0b\nOAMADDR: 11\n");
    expected.push_str("OAM:\n");
    for line in 0..16 {
        expected.push_str(&format!("0x{:02x}:", line * 16));
        for column in 0..16 {
            let value = if line == 1 && column == 0 { 0xab } else { 0 };
            expected.push_str(&format!(" {:02x}", value));
        }
        expected.push_str("\n");
    }
    assert_eq!(text, expected);
}

fn tile_one_chr() -> Vec<u8> {
    let mut chr = vec![0u8; 0x2000];
    chr[16] = 0xff;
    chr
}

#[test]
fn frame_buffer_keeps_what_is_painted() {
    let mut frame = FrameBuffer::new();
    assert_eq!(frame.pixels.len(), DISPLAY_WIDTH * DISPLAY_HEIGHT);
    assert_eq!(frame.get(255, 239), 0);
    frame.set_pixel(255, 239, 0x3f);
    frame.set_pixel(1, 2, 0x21);
    assert_eq!(frame.get(255, 239), 0x3f);
    assert_eq!(frame.get(1, 2), 0x21);
    assert_eq!(frame.pixels[2 * 256 + 1], 0x21);
    assert_eq!(frame.get(2, 1), 0);
}

#[test]
fn background_render() {
    let mut ppu = Ppu::new();
    let mut bus = ppu_bus_with(tile_one_chr());
    for i in 0..0x3c0u16 {
        bus.ppu_write8(0x2000 + i, 1).unwrap();
    }
    bus.ppu_write8(0x3f00, 0x0f).unwrap();
    bus.ppu_write8(0x3f01, 0x16).unwrap();
    let mut frame = frame_filled_with(0x3f);
    assert_eq!(ppu.render(&mut frame, &mut bus), Ok(()));
    for x in 0..8 {
        assert_eq!(frame.get(x, 0), 0x16);
        assert_eq!(frame.get(x, 1), 0x0f);
    }
    for y in 0..DISPLAY_HEIGHT {
        for x in 0..DISPLAY_WIDTH {
            let expected = if y % 8 == 0 { 0x16 } else { 0x0f };
            assert_eq!(frame.get(x, y), expected);
        }
    }
}

#[test]
fn render_places_the_highest_bit_leftmost() {
    let mut chr = vec![0u8; 0x2000];
    // tile 2: row 3 has the low plane 0b1000_0001 and the high plane 0b1100_0000
    chr[2 * 16 + 3] = 0x81;
    chr[2 * 16 + 8 + 3] = 0xc0;
    let mut ppu = Ppu::new();
    let mut bus = ppu_bus_with(chr);
    bus.ppu_write8(0x2000 + 5 * 32 + 7, 2).unwrap();
    bus.ppu_write8(0x3f00, 0x01).unwrap();
    bus.ppu_write8(0x3f01, 0x11).unwrap();
    bus.ppu_write8(0x3f02, 0x12).unwrap();
    bus.ppu_write8(0x3f03, 0x13).unwrap();
    let mut frame = frame_filled_with(0);
    assert_eq!(ppu.render(&mut frame, &mut bus), Ok(()));
    let y = 5 * 8 + 3;
    let row: Vec<u8> = (0..8).map(|x| frame.get(7 * 8 + x, y)).collect();
    assert_eq!(row, vec![0x13, 0x12, 0x01, 0x01, 0x01, 0x01, 0x01, 0x11]);
    assert_eq!(frame.get(7 * 8 - 1, y), 0x01);
    assert_eq!(frame.get(8 * 8, y), 0x01);
    assert_eq!(frame.get(7 * 8, y + 1), 0x01);
}

#[test]
fn render_selects_the_palette_by_attribute_bits() {
    let mut chr = vec![0u8; 0x2000];
    for row in 0..8 {
        chr[16 + row] = 0xff;
    }
    let mut ppu = Ppu::new();
    let mut bus = ppu_bus_with(chr);
    for (tile_x, tile_y) in [(0u16, 0u16), (1, 0), (0, 1), (1, 1), (4, 0)] {
        bus.ppu_write8(0x2000 + tile_y * 32 + tile_x, 1).unwrap();
    }
    // attribute byte of the first block: selectors 0, 1, 2, 3 for places 0 to 3
    bus.ppu_write8(0x23c0, 0b11_10_01_00).unwrap();
    bus.ppu_write8(0x23c1, 0b00_00_00_10).unwrap();
    for selector in 0..4u16 {
        bus.ppu_write8(0x3f00 + selector * 4 + 1, 0x20 + selector as u8).unwrap();
    }
    bus.ppu_write8(0x3f00, 0x3f).unwrap();
    let mut frame = frame_filled_with(0);
    assert_eq!(ppu.render(&mut frame, &mut bus), Ok(()));
    assert_eq!(frame.get(0, 0), 0x20);
    assert_eq!(frame.get(8, 0), 0x21);
    assert_eq!(frame.get(0, 8), 0x22);
    assert_eq!(frame.get(8, 8), 0x23);
    assert_eq!(frame.get(32, 0), 0x22);
    assert_eq!(frame.get(16, 0), 0x3f);
}

#[test]
fn render_uses_the_selected_tables() {
    let mut chr = vec![0u8; 0x2000];
    chr[0x1000 + 16] = 0xff;
    let mut ppu = Ppu::new();
    let mut bus = ppu_bus_with(chr);
    bus.ppu_write8(0x2400, 1).unwrap();
    bus.ppu_write8(0x3f00, 0x02).unwrap();
    bus.ppu_write8(0x3f01, 0x30).unwrap();
    let mut frame = frame_filled_with(0);
    assert_eq!(ppu.render(&mut frame, &mut bus), Ok(()));
    assert_eq!(frame.get(0, 0), 0x02);
    ppu.write8(0, 0x11, &mut bus).unwrap();
    assert_eq!(ppu.render(&mut frame, &mut bus), Ok(()));
    assert_eq!(frame.get(0, 0), 0x30);
    assert_eq!(frame.get(8, 0), 0x02);
    ppu.write8(0, 0x01, &mut bus).unwrap();
    assert_eq!(ppu.render(&mut frame, &mut bus), Ok(()));
    assert_eq!(frame.get(0, 0), 0x02);
}

#[test]
fn render_keeps_six_bits_of_a_palette_byte() {
    let mut ppu = Ppu::new();
    let mut bus = ppu_bus_with(tile_one_chr());
    bus.ppu_write8(0x2000, 1).unwrap();
    bus.ppu_write8(0x3f00, 0xc5).unwrap();
    bus.ppu_write8(0x3f01, 0xff).unwrap();
    let mut frame = frame_filled_with(0);
    assert_eq!(ppu.render(&mut frame, &mut bus), Ok(()));
    assert_eq!(frame.get(0, 0), 0x3f);
    assert_eq!(frame.get(0, 1), 0x05);
}

/// A memory for the picture unit that refuses every access above a limit.
struct Limited {
    limit: u16,
}

impl vstd::prelude::View for Limited {
    type V = ();

    fn view(&self) {}
}

impl PpuAddressable for Limited {
    fn spec_ppu_read8(_s: (), _address: u16) -> Result<u8, BusError> {
        unreachable!()
    }

    fn spec_ppu_write8(_s: (), _address: u16, _data: u8) -> (Result<(), BusError>, ()) {
        unreachable!()
    }

    fn ppu_read8(&mut self, address: u16) -> Result<u8, BusError> {
        if address <= self.limit {
            Ok(1)
        } else {
            Err(BusError::BusErrorRead(address))
        }
    }

    fn ppu_write8(&mut self, address: u16, _data: u8) -> Result<(), BusError> {
        Err(BusError::IllegalWrite(address))
    }
}

#[test]
fn render_stops_at_the_first_refusal() {
    let mut ppu = Ppu::new();
    let mut frame = frame_filled_with(9);
    assert_eq!(
        ppu.render(&mut frame, &mut Limited { limit: 0x3eff }),
        Err(BusError::BusErrorRead(0x3f00))
    );
    assert!(frame.pixels.iter().all(|pixel| *pixel == 9));
    let mut frame = frame_filled_with(9);
    assert_eq!(
        ppu.render(&mut frame, &mut Limited { limit: 0x3f00 }),
        Err(BusError::BusErrorRead(0x3f07))
    );
    assert!(frame.pixels.iter().all(|pixel| *pixel == 1));
}
