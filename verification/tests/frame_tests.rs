use nes_emulator::renderer::Frame;
use nes_emulator::sdl_frame::SdlFrame;

#[test]
fn colours_of_the_palette() {
    assert_eq!(SdlFrame::convert_colour(0x00), (124, 124, 124));
    assert_eq!(SdlFrame::convert_colour(0x01), (0, 0, 252));
    assert_eq!(SdlFrame::convert_colour(0x0d), (0, 0, 0));
    assert_eq!(SdlFrame::convert_colour(0x16), (248, 56, 0));
    assert_eq!(SdlFrame::convert_colour(0x20), (248, 248, 248));
    assert_eq!(SdlFrame::convert_colour(0x2c), (0, 232, 216));
    assert_eq!(SdlFrame::convert_colour(0x30), (252, 252, 252));
    assert_eq!(SdlFrame::convert_colour(0x3d), (216, 216, 216));
    assert_eq!(SdlFrame::convert_colour(0x3f), (0, 0, 0));
}

#[test]
fn pixel_takes_three_bytes_at_its_offset() {
    let mut frame = SdlFrame::new(vec![7u8; 256 * 240 * 3], 768);
    frame.set_pixel(1, 2, 0x16);
    let offset = 2 * 768 + 3;
    assert_eq!(&frame.buffer[offset..offset + 3], &[248, 56, 0]);
    assert_eq!(frame.buffer[offset - 1], 7);
    assert_eq!(frame.buffer[offset + 3], 7);
    frame.set_pixel(255, 239, 0x01);
    assert_eq!(&frame.buffer[256 * 240 * 3 - 3..], &[0, 0, 252]);
    assert_eq!(frame.pitch, 768);
}

#[test]
fn pitch_sets_the_distance_of_rows() {
    let mut frame = SdlFrame::new(vec![0u8; 1000 * 240], 1000);
    frame.set_pixel(0, 1, 0x30);
    assert_eq!(&frame.buffer[1000..1003], &[252, 252, 252]);
    assert_eq!(&frame.buffer[768..771], &[0, 0, 0]);
}

#[test]
fn pixels_outside_the_buffer_are_dropped() {
    let mut frame = SdlFrame::new(vec![9u8; 5], 768);
    frame.set_pixel(1, 0, 0x30);
    assert_eq!(frame.buffer, vec![9u8; 5]);
    frame.set_pixel(0, 1, 0x30);
    assert_eq!(frame.buffer, vec![9u8; 5]);
    frame.set_pixel(0, 0, 0x30);
    assert_eq!(frame.buffer, vec![252, 252, 252, 9, 9]);
    let mut frame = SdlFrame::new(vec![9u8; 6], 768);
    frame.set_pixel(1, 0, 0x16);
    assert_eq!(frame.buffer, vec![9, 9, 9, 248, 56, 0]);
    let mut frame = SdlFrame::new(vec![9u8; 6], usize::MAX);
    frame.set_pixel(1, 2, 0x16);
    frame.set_pixel(255, 1, 0x16);
    assert_eq!(frame.buffer, vec![9u8; 6]);
    frame.set_pixel(1, 0, 0x16);
    assert_eq!(frame.buffer, vec![9, 9, 9, 248, 56, 0]);
}
