//! The text writers: cell round trips, screen fills, fonts and the
//! hardware cursor.

use vga::colors::{Color16, TextModeColor};
use vga::registers::{CrtcControllerIndex, ReadPlane, SequencerIndex};
use vga::vga::{FrameBuffer, Vga};
use vga::writers::{ScreenCharacter, Text40x25, Text40x50, Text80x25};

#[test]
fn write_then_read_character() {
    let text = Text80x25::new();
    let mut vga = Vga::new();
    text.set_mode(&mut vga);
    let cell = ScreenCharacter::new(b'T', TextModeColor::new(Color16::White, Color16::Blue));
    text.write_character(&mut vga, 3, 7, cell);
    let read_back = text.read_character(&mut vga, 3, 7);
    assert_eq!(read_back.get_character(), b'T');
    assert_eq!(read_back.get_color(), TextModeColor::new(Color16::White, Color16::Blue));
}

#[test]
fn clear_screen_blanks_every_cell() {
    let text = Text40x25::new();
    let mut vga = Vga::new();
    text.set_mode(&mut vga);
    text.clear_screen(&mut vga);
    let blank_color = TextModeColor::new(Color16::Yellow, Color16::Black);
    for (x, y) in [(0usize, 0usize), (39, 0), (0, 24), (39, 24), (20, 12)] {
        let cell = text.read_character(&mut vga, x, y);
        assert_eq!(cell.get_character(), b' ');
        assert_eq!(cell.get_color(), blank_color);
    }
}

#[test]
fn fill_screen_40x50() {
    let text = Text40x50::new();
    let mut vga = Vga::new();
    text.set_mode(&mut vga);
    let cell = ScreenCharacter::new(b'#', TextModeColor::new(Color16::Green, Color16::Black));
    text.fill_screen(&mut vga, cell);
    assert_eq!(text.read_character(&mut vga, 39, 49).get_character(), b'#');
    assert_eq!(text.read_character(&mut vga, 0, 0).get_character(), b'#');
}

#[test]
fn attribute_byte_packs_foreground_low() {
    let color = TextModeColor::new(Color16::LightRed, Color16::Blue);
    assert_eq!(color.packed, 0x1C);
    let mut color = color;
    color.set_foreground(Color16::Black);
    assert_eq!(color.packed, 0x10);
    color.set_background(Color16::White);
    assert_eq!(color.packed, 0xF0);
}

#[test]
fn cursor_position_writes_split_offset() {
    let text = Text80x25::new();
    let mut vga = Vga::new();
    text.set_mode(&mut vga);
    let em = vga.get_emulation_mode();
    // Cell (41, 20): offset 80 * 20 + 41 = 1641 = 0x0669.
    text.set_cursor_position(&mut vga, 41, 20);
    let low = vga.crtc_controller_registers.read(em, CrtcControllerIndex::TextCursorLocationLow);
    let high = vga.crtc_controller_registers.read(em, CrtcControllerIndex::TextCursorLocationHigh);
    assert_eq!(low, 0x69);
    assert_eq!(high, 0x06);
    assert_eq!((high as usize) << 8 | low as usize, 80 * 20 + 41);
}

#[test]
fn cursor_position_leaves_other_registers() {
    let text = Text80x25::new();
    let mut vga = Vga::new();
    text.set_mode(&mut vga);
    let em = vga.get_emulation_mode();
    let start_before = vga.crtc_controller_registers.read(em, CrtcControllerIndex::TextCursorStart);
    let end_before = vga.crtc_controller_registers.read(em, CrtcControllerIndex::TextCursorEnd);
    let overflow_before = vga.crtc_controller_registers.read(em, CrtcControllerIndex::Overflow);
    text.set_cursor_position(&mut vga, 7, 3);
    let start_after = vga.crtc_controller_registers.read(em, CrtcControllerIndex::TextCursorStart);
    let end_after = vga.crtc_controller_registers.read(em, CrtcControllerIndex::TextCursorEnd);
    let overflow_after = vga.crtc_controller_registers.read(em, CrtcControllerIndex::Overflow);
    assert_eq!(start_after, start_before);
    assert_eq!(end_after, end_before);
    assert_eq!(overflow_after, overflow_before);
}

#[test]
fn fill_screen_leaves_bytes_beyond_cells() {
    let text = Text80x25::new();
    let mut vga = Vga::new();
    text.set_mode(&mut vga);
    // The 2000 cells end at byte offset 4000 of the odd/even pair; a
    // byte past them must survive a fill.
    vga.vram_write(4000, 0x5A);
    let cell = ScreenCharacter::new(b'*', TextModeColor::new(Color16::Red, Color16::Black));
    text.fill_screen(&mut vga, cell);
    assert_eq!(vga.vram_read(4000), 0x5A);
    assert_eq!(vga.vram_read(3998), b'*');
}

#[test]
fn cursor_shape_and_visibility() {
    let text = Text40x25::new();
    let mut vga = Vga::new();
    text.set_mode(&mut vga);
    let em = vga.get_emulation_mode();
    text.set_cursor(&mut vga, 0x05, 0x0A);
    let start = vga.crtc_controller_registers.read(em, CrtcControllerIndex::TextCursorStart);
    let end = vga.crtc_controller_registers.read(em, CrtcControllerIndex::TextCursorEnd);
    assert_eq!(start & 0x1F, 0x05);
    assert_eq!(end & 0x1F, 0x0A);
    text.disable_cursor(&mut vga);
    let start = vga.crtc_controller_registers.read(em, CrtcControllerIndex::TextCursorStart);
    assert_eq!(start & 0x20, 0x20);
    text.enable_cursor(&mut vga);
    let start = vga.crtc_controller_registers.read(em, CrtcControllerIndex::TextCursorStart);
    assert_eq!(start & 0x20, 0x00);
}

#[test]
fn text_mode_maps_the_color_window() {
    let text = Text80x25::new();
    let mut vga = Vga::new();
    text.set_mode(&mut vga);
    let frame_buffer = vga.get_frame_buffer();
    assert_eq!(frame_buffer, FrameBuffer::CgaMode(0xB8000));
    assert_eq!(frame_buffer.address(), 0xB8000);
}

#[test]
fn font_upload_fills_glyph_slots() {
    let text = Text80x25::new();
    let mut vga = Vga::new();
    text.set_mode(&mut vga);
    // After the upload, plane 2 holds each 16-line glyph in a 32-byte
    // slot; the 8 by 16 font doubles each row of the basic 8 by 8 set.
    let glyph = font8x8::unicode::UnicodeFonts::get(&font8x8::BASIC_FONTS, 'A').unwrap();
    let code = b'A' as usize;
    vga.graphics_controller_registers.write_read_plane(ReadPlane::Plane2);
    // Reading plane 2 needs flat addressing; switch the memory model
    // off odd/even as the upload itself does.
    vga.sequencer_registers.write(SequencerIndex::MemoryMode, 0x06);
    for row in 0..16usize {
        let byte = vga.vram_read(code * 32 + row);
        assert_eq!(byte, glyph[row / 2]);
    }
}
