use nes_emulator::addressable::{Addressable, PpuAddressable};
use nes_emulator::cpu::{Cpu, Error};
use nes_emulator::debug::{state_text, NesDebug};
use nes_emulator::image::{NesHeader, NesImage, TvSystem, VideoArrangement};
use nes_emulator::instruction::Error as InstructionError;
use nes_emulator::mirror::VerticalMirror;
use nes_emulator::nes::NesWithCartridge;
use nes_emulator::nrom_cartridge::NromCartridgeWithMirror;
use nes_emulator::renderer::FrameBuffer;

type Nes = NesWithCartridge<NromCartridgeWithMirror<VerticalMirror>>;

fn console_with(pieces: &[(u16, &[u8])], chr_rom: Vec<u8>) -> Nes {
    let mut prg_rom = vec![0u8; 0x4000];
    for (address, bytes) in pieces {
        let offset = (*address as usize) & 0x3fff;
        prg_rom[offset..offset + bytes.len()].copy_from_slice(bytes);
    }
    prg_rom[0x3ffa] = 0x00;
    prg_rom[0x3ffb] = 0x90;
    prg_rom[0x3ffc] = 0x00;
    prg_rom[0x3ffd] = 0x80;
    let image = NesImage {
        header: NesHeader {
            prg_rom_size: 1,
            chr_rom_size: 1,
            prg_ram_size: None,
            trainer_present: false,
            vs_unisystem_present: false,
            playchoice_present: false,
            nes2_format: false,
            mapper_number: 0,
            video_arrangement: VideoArrangement::VerticalMirroring,
            tv_system: TvSystem::Ntsc,
        },
        trainer: None,
        prg_rom,
        chr_rom,
        playchoice_inst_rom: None,
        playchoice_prom: None,
        extra: Vec::new(),
    };
    let mut nes = NesWithCartridge::new(NromCartridgeWithMirror::new(&image, VerticalMirror).unwrap());
    nes.init().unwrap();
    nes
}

fn console(program: &[u8]) -> Nes {
    console_with(&[(0x8000, program)], vec![0u8; 0x2000])
}

#[test]
fn new_console_is_zeroed() {
    let image_less = console(&[]);
    assert_eq!(image_less.cpu.registers.program_counter, 0x8000);
    let mut nes = image_less;
    nes.cpu = Cpu::new();
    assert_eq!(nes.read8(0x0000), Ok(0));
    assert_eq!(nes.read8(0x07ff), Ok(0));
    assert_eq!(nes.read8(0x2002), Ok(0));
    assert_eq!(nes.read8(0x6000), Ok(0));
    assert_eq!(nes.ppu_read8(0x2000), Ok(0));
    assert_eq!(nes.ppu_read8(0x3f1f), Ok(0));
}

#[test]
fn console_is_addressable_in_both_spaces() {
    let mut nes = console(&[0xa9]);
    assert_eq!(nes.write8(0x0801, 0x12), Ok(()));
    assert_eq!(nes.read8(0x0001), Ok(0x12));
    assert_eq!(nes.read8(0x8000), Ok(0xa9));
    assert_eq!(nes.ppu_write8(0x3f00, 0x05), Ok(()));
    assert_eq!(nes.ppu_read8(0x3f20), Ok(0x05));
    assert_eq!(nes.memory.ppu_memory.ppu_read8(0x3f00), Ok(0x05));
}

#[test]
fn frame_runs_two_intervals_and_paints() {
    let mut nes = console(&[0x4c, 0x00, 0x80]);
    nes.ppu_write8(0x3f00, 0x21).unwrap();
    let mut frame = FrameBuffer::new();
    assert_eq!(nes.emulate_frame(&mut frame), Ok(()));
    assert_eq!(nes.cpu.count, 4000);
    assert_eq!(nes.cpu.registers.program_counter, 0x8000);
    assert!(frame.pixels.iter().all(|pixel| *pixel == 0x21));
    assert_eq!(nes.read8(0x2002), Ok(0x00));
}

#[test]
fn vblank_interrupt_runs_once_per_frame() {
    // LDA #$80; STA $2000; loop: JMP loop -- and the handler: INC $10; RTI
    let mut nes = console_with(
        &[
            (0x8000, &[0xa9, 0x80, 0x8d, 0x00, 0x20, 0x4c, 0x05, 0x80]),
            (0x9000, &[0xe6, 0x10, 0x40]),
        ],
        vec![0u8; 0x2000],
    );
    nes.cpu.registers.stack_pointer = 0xff;
    let mut frame = FrameBuffer::new();
    assert_eq!(nes.emulate_frame(&mut frame), Ok(()));
    assert_eq!(nes.read8(0x0010), Ok(0));
    assert_eq!(nes.emulate_frame(&mut frame), Ok(()));
    assert_eq!(nes.read8(0x0010), Ok(1));
    assert_eq!(nes.emulate_frame(&mut frame), Ok(()));
    assert_eq!(nes.read8(0x0010), Ok(2));
    assert_eq!(nes.cpu.count, 12000);
    assert_eq!(nes.cpu.registers.stack_pointer, 0xff);
    assert_eq!(nes.cpu.registers.program_counter, 0x8005);
    assert!(!nes.cpu.interrupts.nmi);
}

#[test]
fn vblank_is_set_during_the_first_interval() {
    // loop: LDA $2002; BPL loop; STA $10; hang: JMP hang
    let mut nes = console(&[0xad, 0x02, 0x20, 0x10, 0xfb, 0x85, 0x10, 0x4c, 0x07, 0x80]);
    let mut frame = FrameBuffer::new();
    assert_eq!(nes.emulate_frame(&mut frame), Ok(()));
    assert_eq!(nes.read8(0x0010), Ok(0x80));
    assert_eq!(nes.cpu.registers.program_counter, 0x8007);
}

#[test]
fn failure_keeps_memory_but_not_registers() {
    let mut nes = console(&[0xa9, 0x01, 0x85, 0x10, 0x02]);
    let mut frame = FrameBuffer::new();
    frame.pixels[0] = 0x11;
    assert_eq!(
        nes.emulate_frame(&mut frame),
        Err(Error::InstructionError(InstructionError::InvalidOpcode(0x02)))
    );
    assert_eq!(nes.read8(0x0010), Ok(0x01));
    assert_eq!(nes.cpu.registers.accumulator, 0x00);
    assert_eq!(nes.cpu.registers.program_counter, 0x8000);
    assert_eq!(nes.cpu.count, 0);
    assert_eq!(frame.pixels[0], 0x11);
    assert_eq!(nes.read8(0x2002), Ok(0x80));
}

#[test]
fn frame_shows_the_background() {
    let mut chr = vec![0u8; 0x2000];
    chr[16] = 0xff;
    let mut nes = console_with(&[(0x8000, &[0x4c, 0x00, 0x80])], chr);
    for i in 0..0x3c0u16 {
        nes.ppu_write8(0x2000 + i, 1).unwrap();
    }
    nes.ppu_write8(0x3f00, 0x0f).unwrap();
    nes.ppu_write8(0x3f01, 0x16).unwrap();
    let mut frame = FrameBuffer::new();
    assert_eq!(nes.emulate_frame(&mut frame), Ok(()));
    for x in 0..8 {
        assert_eq!(frame.get(x, 0), 0x16);
        assert_eq!(frame.get(x, 1), 0x0f);
    }
}

fn oracle_memory_text(start: u16, cells: &[Option<u8>]) -> String {
    let mut text = String::new();
    for (i, cell) in cells.iter().enumerate() {
        let address = start as usize + i;
        if address % 32 == 0 {
            text.push_str(&format!("\n0x{:04x}: ", address));
        } else {
            text.push_str(" ");
        }
        match cell {
            Some(0) => text.push_str(".."),
            Some(data) => text.push_str(&format!("{:02x}", data)),
            None => text.push_str("??"),
        }
    }
    text
}

#[test]
fn memory_dump_shows_what_the_bus_answers() {
    let mut nes = console(&[]);
    nes.write8(0x0001, 0xab).unwrap();
    nes.write8(0x0020, 0x0c).unwrap();
    let dump = nes.dump_memory(0x0000..0x003f);
    assert_eq!(dump.start, 0);
    assert_eq!(dump.cells.len(), 64);
    assert_eq!(dump.cells[1], Some(0xab));
    let text = String::from_utf8(dump.text()).unwrap();
    assert_eq!(text, oracle_memory_text(0, &dump.cells));
    assert!(text.starts_with("\n0x0000: .. ab .. .."));
    assert!(text.contains("\n0x0020: 0c .."));
}

#[test]
fn memory_dump_marks_refused_addresses() {
    let mut nes = console(&[]);
    let dump = nes.dump_memory(0x401e..0x4021);
    assert_eq!(dump.cells, vec![Some(0), Some(0), None, None]);
    assert_eq!(String::from_utf8(dump.text()).unwrap(), " .. ..\n0x4020: ?? ??");
    let dump = nes.dump_memory(0xfffd..0xffff);
    assert_eq!(dump.cells, vec![Some(0x80), Some(0), Some(0)]);
    assert_eq!(String::from_utf8(dump.text()).unwrap(), " 80 .. ..");
    let dump = nes.dump_memory(0xffe0..0xffe0);
    assert_eq!(String::from_utf8(dump.text()).unwrap(), "\n0xffe0: ..");
}

#[test]
fn ppu_memory_dump() {
    let mut nes = console(&[]);
    nes.ppu_write8(0x3f01, 0x16).unwrap();
    let dump = nes.ppu_dump_memory(0x3f00..0x3f1f);
    assert_eq!(dump.cells.len(), 32);
    let text = String::from_utf8(dump.text()).unwrap();
    assert_eq!(text, oracle_memory_text(0x3f00, &dump.cells));
    assert!(text.starts_with("\n0x3f00: .. 16 .."));
    let dump = nes.ppu_dump_memory(0x3fff..0x4001);
    assert_eq!(dump.cells, vec![Some(0), None, None]);
    assert_eq!(String::from_utf8(dump.text()).unwrap(), " ..\n0x4000: ?? ??");
}

#[test]
fn rom_dump() {
    let mut chr = vec![0u8; 0x2000];
    chr[0x1000] = 0x7e;
    let mut nes = console_with(&[(0x8000, &[0xa9, 0x42])], chr);
    let dump = nes.dump_rom();
    assert_eq!(dump.prg_rom.len(), 0x8000);
    assert_eq!(dump.pattern_tables.len(), 0x2000);
    assert_eq!(&dump.prg_rom[..2], &[0xa9, 0x42]);
    assert_eq!(&dump.prg_rom[0x4000..0x4002], &[0xa9, 0x42]);
    let text = String::from_utf8(dump.text()).unwrap();
    let mut expected = String::new();
    expected.push_str("\nCPU\n");
    expected.push_str("===========================================\n");
    for (i, data) in dump.prg_rom.iter().enumerate() {
        if i == 0 {
            expected.push_str("\nPRG ROM Bank 0:");
            expected.push_str("\n-------------------------------------------");
        } else if i == 0x4000 {
            expected.push_str("\n\nPRG ROM Bank 1:");
            expected.push_str("\n-------------------------------------------");
        }
        if i % 32 == 0 {
            expected.push_str(&format!("\n0x{:04x}: ", 0x8000 + i));
        } else {
            expected.push_str(" ");
        }
        expected.push_str(&format!("{:02x}", data));
    }
    expected.push_str("\nPPU\n");
    expected.push_str("==========================================\n");
    for (i, data) in dump.pattern_tables.iter().enumerate() {
        if i == 0 {
            expected.push_str("\nPattern Table 0:");
            expected.push_str("\n-------------------------------------------");
        } else if i == 0x1000 {
            expected.push_str("\n\nPattern Table 1:");
            expected.push_str("\n-------------------------------------------");
        }
        if i % 32 == 0 {
            expected.push_str(&format!("\n0x{:04x}: ", i));
        } else {
            expected.push_str(" ");
        }
        expected.push_str(&format!("{:02x}", data));
    }
    assert_eq!(text, expected);
    assert!(text.contains("\n\nPattern Table 1:\n-------------------------------------------\n0x1000: 7e 00"));
}

#[test]
fn state_text_shows_each_part_under_its_heading() {
    let mut nes = console(&[]);
    nes.write8(0x0003, 0x5a).unwrap();
    nes.ppu_write8(0x2001, 0x07).unwrap();
    nes.ppu_write8(0x3f02, 0x2c).unwrap();
    nes.cpu.registers.accumulator = 0x42;
    let text = String::from_utf8(state_text(&mut nes)).unwrap();
    let mut expected = String::new();
    expected.push_str("\nRAM");
    expected.push_str(&String::from_utf8(nes.dump_memory(0x0000..0x07ff).text()).unwrap());
    expected.push_str("\n\nVRAM");
    expected.push_str(&String::from_utf8(nes.ppu_dump_memory(0x2000..0x2fff).text()).unwrap());
    expected.push_str("\n\nPalette");
    expected.push_str(&String::from_utf8(nes.ppu_dump_memory(0x3f00..0x3f1f).text()).unwrap());
    expected.push_str("\n\nCPU\n");
    expected.push_str(&String::from_utf8(nes.cpu.registers.text()).unwrap());
    expected.push_str("\n\nPPU\n");
    expected.push_str(&String::from_utf8(nes.memory.ppu.text()).unwrap());
    expected.push_str("\n");
    assert_eq!(text, expected);
    assert!(text.starts_with("\nRAM\n0x0000: .. .. .. 5a .."));
    assert!(text.contains("\n\nVRAM\n0x2000: .. 07 .."));
    assert!(text.contains("\n\nPalette\n0x3f00: .. .. 2c .."));
    assert!(text.contains("\n\nCPU\n\tPC:     0x8000\tSP:     0x00\tACC:    0x42"));
    assert!(text.contains("\n\nPPU\nscroll: [ x: 0, y: 0 ]\n"));
    assert!(text.ends_with(" 00 00\n\n"));
}
