use vga::colors::Color16Bit;
use vga::vga::Vga;
use vga::writers::graphics_640x480x16::{bit_index, byte_offset, Graphics640x480x16};

fn fresh_mode_set_device() -> (Graphics640x480x16, Vga) {
    let writer = Graphics640x480x16::new();
    let mut device = Vga::new();
    writer.set_mode(&mut device);
    (writer, device)
}

#[test]
fn addressing_of_screen_corners() {
    assert_eq!(byte_offset(0, 0), 0);
    assert_eq!(bit_index(0), 7);
    assert_eq!(byte_offset(639, 479), 79 + 80 * 479);
    assert_eq!(byte_offset(639, 479), 38399);
    assert_eq!(bit_index(639), 0);
    assert_eq!(byte_offset(8, 1), 81);
    assert_eq!(bit_index(9), 6);
}

#[test]
fn set_mode_loads_default_palette() {
    let (_writer, device) = fresh_mode_set_device();
    // Entry 0 is black, entry 1 is blue, entry 7 is grey, entry 255 is white.
    assert_eq!(device.palette_byte_at(0), 0x0);
    assert_eq!(device.palette_byte_at(5), 0x2A);
    assert_eq!(device.palette_byte_at(21), 0x2A);
    assert_eq!(device.palette_byte_at(767), 0x3F);
    for j in 0..768 {
        assert!(device.palette_byte_at(j) <= 63);
    }
}

#[test]
fn white_pixel_at_origin_sets_bit_seven_of_every_plane() {
    let (writer, mut device) = fresh_mode_set_device();
    // Give the neighboring pixel (1, 0) a color first, so that clearing
    // (0, 0) can be seen to leave the rest of the byte alone.
    writer.set_pixel(&mut device, 1, 0, Color16Bit::White);
    writer.set_pixel(&mut device, 0, 0, Color16Bit::White);
    for plane in 0..4 {
        assert_eq!(device.plane_byte(plane, 0) & 0x80, 0x80);
    }
    writer.set_pixel(&mut device, 0, 0, Color16Bit::Black);
    for plane in 0..4 {
        let byte = device.plane_byte(plane, 0);
        assert_eq!(byte & 0x80, 0x00);
        assert_eq!(byte & 0x40, 0x40);
    }
}

#[test]
fn set_pixel_reads_back_the_written_code() {
    let (writer, mut device) = fresh_mode_set_device();
    let cases = [
        (0usize, 0usize, Color16Bit::White),
        (639, 479, Color16Bit::Yellow),
        (123, 456, Color16Bit::LightCyan),
        (7, 0, Color16Bit::Blue),
        (8, 0, Color16Bit::Magenta),
        (0, 479, Color16Bit::Black),
    ];
    for (x, y, color) in cases.iter() {
        writer.set_pixel(&mut device, *x, *y, *color);
        assert_eq!(writer.read_pixel(&mut device, *x, *y), color.code());
    }
}

#[test]
fn pixels_in_the_same_byte_do_not_disturb_each_other() {
    let (writer, mut device) = fresh_mode_set_device();
    writer.set_pixel(&mut device, 3, 7, Color16Bit::Red);
    writer.set_pixel(&mut device, 4, 7, Color16Bit::LightGreen);
    assert_eq!(writer.read_pixel(&mut device, 3, 7), Color16Bit::Red.code());
    assert_eq!(writer.read_pixel(&mut device, 4, 7), Color16Bit::LightGreen.code());
}

#[test]
fn clear_screen_zeroes_every_plane_and_is_idempotent() {
    let (writer, mut device) = fresh_mode_set_device();
    writer.set_pixel(&mut device, 10, 10, Color16Bit::Pink);
    writer.set_pixel(&mut device, 639, 479, Color16Bit::White);
    writer.clear_screen(&mut device);
    let samples = [0usize, byte_offset(10, 10), byte_offset(639, 479), 76799];
    for plane in 0..4 {
        for offset in samples.iter() {
            assert_eq!(device.plane_byte(plane, *offset), 0);
        }
    }
    assert_eq!(writer.read_pixel(&mut device, 10, 10), Color16Bit::Black.code());
    // A second clear leaves the same all-zero frame.
    writer.clear_screen(&mut device);
    for plane in 0..4 {
        for offset in samples.iter() {
            assert_eq!(device.plane_byte(plane, *offset), 0);
        }
    }
}
