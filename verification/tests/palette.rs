//! DAC palette round trips.

use vga::colors::{default_palette, PALETTE_SIZE};
use vga::vga::Vga;

#[test]
fn load_palette_then_read_palette_returns_default() {
    let mut vga = Vga::new();
    let palette = default_palette();
    vga.color_palette_registers.load_palette(&palette);
    let mut read_back = vec![0u8; PALETTE_SIZE];
    vga.color_palette_registers.read_palette(&mut read_back);
    for i in 0..PALETTE_SIZE {
        assert_eq!(read_back[i], palette[i]);
    }
}

#[test]
fn load_palette_then_read_palette_returns_arbitrary_bytes() {
    let mut vga = Vga::new();
    let mut palette = vec![0u8; PALETTE_SIZE];
    for i in 0..PALETTE_SIZE {
        palette[i] = (i * 7 % 64) as u8;
    }
    vga.color_palette_registers.load_palette(&palette);
    let mut read_back = vec![0xAAu8; PALETTE_SIZE];
    vga.color_palette_registers.read_palette(&mut read_back);
    assert_eq!(read_back, palette);
}

#[test]
fn default_palette_shape() {
    let palette = default_palette();
    assert_eq!(palette.len(), 768);
    // The sixteen EGA colors head the palette: white is entry 15.
    assert_eq!(palette[45], 63);
    assert_eq!(palette[46], 63);
    assert_eq!(palette[47], 63);
    // Black leads.
    assert_eq!(palette[0], 0);
}
