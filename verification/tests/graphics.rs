//! The graphics writers against the planar memory model.

use vga::colors::Color16;
use vga::drawing::Rectangle;
use vga::registers::ReadPlane;
use vga::vga::Vga;
use vga::writers::{
    Graphics1280x800x256, Graphics320x200x256, Graphics320x240x256, Graphics640x480x16,
};

#[test]
fn packed_mode_pixel_round_trip() {
    let mode = Graphics320x200x256::new();
    let mut vga = Vga::new();
    mode.set_mode(&mut vga);
    let samples = [(0usize, 0usize, 1u8), (319, 0, 0x7F), (0, 199, 0xFF), (37, 121, 0x42)];
    for (x, y, c) in samples {
        mode.set_pixel(&mut vga, x, y, c);
        assert_eq!(vga.vram_read(y * 320 + x), c);
    }
}

#[test]
fn packed_mode_clear_screen_fills_every_byte() {
    let mode = Graphics320x200x256::new();
    let mut vga = Vga::new();
    mode.set_mode(&mut vga);
    mode.clear_screen(&mut vga, 0x42);
    assert_eq!(vga.vram_read(0), 0x42);
    assert_eq!(vga.vram_read(31999), 0x42);
    assert_eq!(vga.vram_read(63999), 0x42);
}

#[test]
fn packed_mode_draw_character_matches_basic_font() {
    let mode = Graphics320x200x256::new();
    let mut vga = Vga::new();
    mode.set_mode(&mut vga);
    mode.clear_screen(&mut vga, 0);
    mode.draw_character(&mut vga, 100, 50, 'A', 9);
    let glyph = font8x8::unicode::UnicodeFonts::get(&font8x8::BASIC_FONTS, 'A').unwrap();
    for row in 0..8usize {
        for bit in 0..8usize {
            let expected = if glyph[row] & (1 << bit) != 0 { 9 } else { 0 };
            assert_eq!(vga.vram_read((50 + row) * 320 + 100 + bit), expected);
        }
    }
}

#[test]
fn packed_mode_draw_line_paints_the_walk() {
    let mode = Graphics320x200x256::new();
    let mut vga = Vga::new();
    mode.set_mode(&mut vga);
    mode.clear_screen(&mut vga, 0);
    mode.draw_line(&mut vga, (0, 0), (5, 3), 0xEE);
    for (x, y) in [(0usize, 0usize), (1, 0), (2, 1), (3, 1), (4, 2), (5, 3)] {
        assert_eq!(vga.vram_read(y * 320 + x), 0xEE);
    }
    assert_eq!(vga.vram_read(1 * 320 + 1), 0);
}

#[test]
fn mode_x_set_pixel_lands_in_its_plane() {
    let mode = Graphics320x240x256::new();
    let mut vga = Vga::new();
    mode.set_mode(&mut vga);
    mode.clear_screen(&mut vga, 0);
    // Pixel (6, 10): plane 2, byte (320 * 10 + 6) / 4 = 801.
    mode.set_pixel(&mut vga, 6, 10, 0x5A);
    vga.graphics_controller_registers.write_read_plane(ReadPlane::Plane2);
    assert_eq!(vga.vram_read(801), 0x5A);
    vga.graphics_controller_registers.write_read_plane(ReadPlane::Plane1);
    assert_eq!(vga.vram_read(801), 0);
}

#[test]
fn mode_x_clear_screen_covers_one_quarter_of_the_addresses() {
    let mode = Graphics320x240x256::new();
    let mut vga = Vga::new();
    mode.set_mode(&mut vga);
    mode.clear_screen(&mut vga, 0x33);
    // 320 * 240 / 4 = 19200 byte addresses; each carries four pixels.
    vga.graphics_controller_registers.write_read_plane(ReadPlane::Plane0);
    assert_eq!(vga.vram_read(0), 0x33);
    assert_eq!(vga.vram_read(19199), 0x33);
    assert_eq!(vga.vram_read(19200), 0);
    vga.graphics_controller_registers.write_read_plane(ReadPlane::Plane3);
    assert_eq!(vga.vram_read(19199), 0x33);
    assert_eq!(vga.vram_read(19200), 0);
}

fn planar16_read_pixel(vga: &mut Vga, x: usize, y: usize) -> u8 {
    let offset = y * 80 + x / 8;
    let bit = 7 - (x % 8);
    let mut color = 0u8;
    for plane in 0..4u8 {
        let read_plane = match plane {
            0 => ReadPlane::Plane0,
            1 => ReadPlane::Plane1,
            2 => ReadPlane::Plane2,
            _ => ReadPlane::Plane3,
        };
        vga.graphics_controller_registers.write_read_plane(read_plane);
        let byte = vga.vram_read(offset);
        if byte & (1 << bit) != 0 {
            color |= 1 << plane;
        }
    }
    color
}

#[test]
fn planar16_set_pixel_spreads_the_color_across_planes() {
    let mode = Graphics640x480x16::new();
    let mut vga = Vga::new();
    mode.set_mode(&mut vga);
    mode.clear_screen(&mut vga, Color16::Black);
    mode.set_pixel(&mut vga, 13, 27, Color16::Yellow);
    assert_eq!(planar16_read_pixel(&mut vga, 13, 27), 14);
    assert_eq!(planar16_read_pixel(&mut vga, 12, 27), 0);
    assert_eq!(planar16_read_pixel(&mut vga, 14, 27), 0);
}

#[test]
fn planar16_clear_screen_sets_every_pixel() {
    let mode = Graphics640x480x16::new();
    let mut vga = Vga::new();
    mode.set_mode(&mut vga);
    mode.clear_screen(&mut vga, Color16::LightCyan);
    assert_eq!(planar16_read_pixel(&mut vga, 0, 0), 11);
    assert_eq!(planar16_read_pixel(&mut vga, 639, 479), 11);
    assert_eq!(planar16_read_pixel(&mut vga, 320, 240), 11);
}

#[test]
fn planar16_draw_line_uses_set_reset() {
    let mode = Graphics640x480x16::new();
    let mut vga = Vga::new();
    mode.set_mode(&mut vga);
    mode.clear_screen(&mut vga, Color16::Black);
    mode.draw_line(&mut vga, (80, 60), (85, 63), Color16::White);
    assert_eq!(planar16_read_pixel(&mut vga, 80, 60), 15);
    assert_eq!(planar16_read_pixel(&mut vga, 85, 63), 15);
    assert_eq!(planar16_read_pixel(&mut vga, 79, 60), 0);
}

#[test]
fn linear_mode_pixel_and_clear() {
    let mode = Graphics1280x800x256::new();
    let mut vga = Vga::new();
    mode.set_mode(&mut vga);
    mode.clear_screen(&mut vga, 0x00FF_0000);
    assert_eq!(vga.linear_read(0), 0x00FF_0000);
    assert_eq!(vga.linear_read(1280 * 800 - 1), 0x00FF_0000);
    mode.set_pixel(&mut vga, 3, 2, 0x1234_5678);
    assert_eq!(vga.linear_read(2 * 1280 + 3), 0x1234_5678);
    assert_eq!(vga.linear_read(2 * 1280 + 4), 0x00FF_0000);
}

#[test]
fn linear_mode_rectangle_outline_only() {
    let mode = Graphics1280x800x256::new();
    let mut vga = Vga::new();
    mode.set_mode(&mut vga);
    mode.clear_screen(&mut vga, 1);
    // Corners (100, 50) and (110, 58): edges on columns 100 and 110,
    // rows 50 and 58.
    mode.draw_rectangle(&mut vga, &Rectangle::new(100, 50, 10, 8), 0xAB);
    assert_eq!(vga.linear_read(54 * 1280 + 100), 0xAB);
    assert_eq!(vga.linear_read(54 * 1280 + 110), 0xAB);
    assert_eq!(vga.linear_read(50 * 1280 + 105), 0xAB);
    assert_eq!(vga.linear_read(58 * 1280 + 105), 0xAB);
    // The interior and the surroundings keep the cleared color.
    assert_eq!(vga.linear_read(54 * 1280 + 105), 1);
    assert_eq!(vga.linear_read(54 * 1280 + 111), 1);
    assert_eq!(vga.linear_read(49 * 1280 + 100), 1);
}
