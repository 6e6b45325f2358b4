//! A cell-oriented writer for the 40 by 25 text mode.

use crate::colors::{Color16, TextModeColor};
use crate::configurations::mode_configuration;
use crate::vga::{
    register_readback_holds, same_but_latches, same_but_planes, Vga, VideoMode, PLANE_SIZE,
};
use crate::writers::{
    cursor_disable, cursor_enable, cursor_set_position, cursor_set_shape, text_attr_at,
    text_char_at, text_fill, text_load_cell, text_memory_state, text_store_cell, ScreenCharacter,
};
use vstd::prelude::*;

verus! {

/// A writer for the 40 by 25 text mode (1000 cells of 16 scan
/// lines each).
#[derive(Debug, Clone, Copy, PartialEq, Eq, Structural)]
pub struct Text40x25;

impl Text40x25 {
    /// A new writer.  The writer itself is stateless; every operation
    /// works on the adapter it is handed.
    pub fn new() -> (r: Text40x25)
        ensures
            r == Text40x25,
    {
        Text40x25
    }

    /// Programs the adapter to the 40 by 25 text mode, reloads the
    /// default palette (some firmware corrupts the DAC on a mode
    /// switch), and uploads the 8 by 16 font.
    pub fn set_mode(&self, vga: &mut Vga)
        requires
            old(vga).wf(),
        ensures
            final(vga).wf(),
            register_readback_holds(*final(vga), mode_configuration(VideoMode::Mode40x25)),
            text_memory_state(*final(vga)),
            final(vga).most_recent_video_mode == Some(VideoMode::Mode40x25),
            final(vga).color_palette_registers.data@.len() == 768,
            forall|i: int|
                0 <= i < 768 ==> final(vga).color_palette_registers.data@[i]
                    == crate::colors::default_palette_byte(i),
            forall|c: int, r: int|
                0 <= c < 256 && 0 <= r < 16 ==> final(vga).plane(2)[c * 32 + r]
                    == crate::fonts::font_8x16_byte(c, r),
            final(vga).video_memory_start == old(vga).video_memory_start,
            final(vga).linear == old(vga).linear,
    {
        vga.set_video_mode(VideoMode::Mode40x25);
        proof {
            let c = mode_configuration(VideoMode::Mode40x25);
            assert(c.sequencer_registers[2] == (2u8, 0x03u8));
            assert(c.sequencer_registers[4] == (4u8, 0x02u8));
            assert(c.graphics_controller_registers[1] == (1u8, 0x00u8));
            assert(c.graphics_controller_registers[3] == (3u8, 0x00u8));
            assert(c.graphics_controller_registers[5] == (5u8, 0x10u8));
            assert(c.graphics_controller_registers[6] == (6u8, 0x0Eu8));
            assert(c.graphics_controller_registers[8] == (8u8, 0xFFu8));
            assert(vga.seq_reg(2) == 0x03 && vga.seq_reg(4) == 0x02);
            assert(vga.gfx_reg(1) == 0x00 && vga.gfx_reg(3) == 0x00 && vga.gfx_reg(5) == 0x10
                && vga.gfx_reg(6) == 0x0E && vga.gfx_reg(8) == 0xFF);
            crate::vga::lemma_mask_table();
        }
        let palette = crate::colors::default_palette();
        vga.color_palette_registers.load_palette(&palette);
        let font = crate::fonts::text_8x16_font();
        vga.load_font(&font);
        proof {
            assert forall|c: int, r: int| 0 <= c < 256 && 0 <= r < 16 implies final(vga).plane(
                2,
            )[c * 32 + r] == crate::fonts::font_8x16_byte(c, r) by {
                assert((c * 32 + r) / 32 == c && (c * 32 + r) % 32 == r) by (nonlinear_arith)
                    requires
                        0 <= c,
                        0 <= r < 32,
                ;
                assert(font.data@[c * 16 + r] == crate::fonts::font_8x16_byte(c, r));
            }
        }
    }

    /// Writes one cell at `(x, y)`.
    pub fn write_character(
        &self,
        vga: &mut Vga,
        x: usize,
        y: usize,
        screen_character: ScreenCharacter,
    )
        requires
            old(vga).wf(),
            text_memory_state(*old(vga)),
            x < 40,
            y < 25,
        ensures
            final(vga).wf(),
            text_memory_state(*final(vga)),
            same_but_planes(*old(vga), *final(vga)),
            final(vga).plane(2) == old(vga).plane(2),
            final(vga).plane(3) == old(vga).plane(3),
            final(vga).plane(0) == old(vga).plane(0).update(
                2 * (40 * y + x),
                screen_character.character,
            ),
            final(vga).plane(1) == old(vga).plane(1).update(
                2 * (40 * y + x) + 1,
                screen_character.color.packed,
            ),
            text_char_at(*final(vga), 40, x as int, y as int) == screen_character.character,
            text_attr_at(*final(vga), 40, x as int, y as int) == screen_character.color.packed,
    {
        text_store_cell(vga, 40 * y + x, screen_character);
    }

    /// Reads the cell at `(x, y)` back.
    pub fn read_character(&self, vga: &mut Vga, x: usize, y: usize) -> (r: ScreenCharacter)
        requires
            old(vga).wf(),
            text_memory_state(*old(vga)),
            x < 40,
            y < 25,
        ensures
            final(vga).wf(),
            same_but_latches(*old(vga), *final(vga)),
            r.character == text_char_at(*old(vga), 40, x as int, y as int),
            r.color.packed == text_attr_at(*old(vga), 40, x as int, y as int),
    {
        text_load_cell(vga, 40 * y + x)
    }

    /// Fills every cell with `screen_character`.
    pub fn fill_screen(&self, vga: &mut Vga, screen_character: ScreenCharacter)
        requires
            old(vga).wf(),
            text_memory_state(*old(vga)),
        ensures
            final(vga).wf(),
            text_memory_state(*final(vga)),
            same_but_planes(*old(vga), *final(vga)),
            final(vga).plane(2) == old(vga).plane(2),
            final(vga).plane(3) == old(vga).plane(3),
            forall|x: int, y: int|
                0 <= x < 40 && 0 <= y < 25 ==> text_char_at(*final(vga), 40, x, y)
                    == screen_character.character && text_attr_at(*final(vga), 40, x, y)
                    == screen_character.color.packed,
            forall|o: int|
                0 <= o < PLANE_SIZE ==> final(vga).plane(0)[o] == (if o % 2 == 0 && o < 2000 {
                    screen_character.character
                } else {
                    old(vga).plane(0)[o]
                }),
            forall|o: int|
                0 <= o < PLANE_SIZE ==> final(vga).plane(1)[o] == (if o % 2 == 1 && o < 2000 {
                    screen_character.color.packed
                } else {
                    old(vga).plane(1)[o]
                }),
    {
        text_fill(vga, 1000, screen_character);
        proof {
            assert forall|x: int, y: int| 0 <= x < 40 && 0 <= y < 25 implies text_char_at(
                *final(vga),
                40,
                x,
                y,
            ) == screen_character.character && text_attr_at(*final(vga), 40, x, y)
                == screen_character.color.packed by {
                assert(0 <= 40 * y + x < 1000) by (nonlinear_arith)
                    requires
                        0 <= x < 40,
                        0 <= y < 25,
                ;
            }
        }
    }

    /// Clears the screen: every cell becomes a space in yellow on
    /// black.
    pub fn clear_screen(&self, vga: &mut Vga)
        requires
            old(vga).wf(),
            text_memory_state(*old(vga)),
        ensures
            final(vga).wf(),
            text_memory_state(*final(vga)),
            same_but_planes(*old(vga), *final(vga)),
            final(vga).plane(2) == old(vga).plane(2),
            final(vga).plane(3) == old(vga).plane(3),
            forall|x: int, y: int|
                0 <= x < 40 && 0 <= y < 25 ==> text_char_at(*final(vga), 40, x, y) == 0x20
                    && text_attr_at(*final(vga), 40, x, y) == crate::colors::pack_color(
                    Color16::Yellow,
                    Color16::Black,
                ),
            forall|o: int|
                0 <= o < PLANE_SIZE ==> final(vga).plane(0)[o] == (if o % 2 == 0 && o < 2000 {
                    0x20u8
                } else {
                    old(vga).plane(0)[o]
                }),
            forall|o: int|
                0 <= o < PLANE_SIZE ==> final(vga).plane(1)[o] == (if o % 2 == 1 && o < 2000 {
                    crate::colors::pack_color(Color16::Yellow, Color16::Black)
                } else {
                    old(vga).plane(1)[o]
                }),
    {
        let blank = ScreenCharacter::new(0x20, TextModeColor::new(Color16::Yellow, Color16::Black));
        self.fill_screen(vga, blank);
    }

    /// Sets the cursor shape to the given start and end scan lines.
    pub fn set_cursor(&self, vga: &mut Vga, scan_line_start: u8, scan_line_end: u8)
        requires
            old(vga).wf(),
        ensures
            final(vga).wf(),
            final(vga).crtc_reg(0x0A) == ((old(vga).crtc_reg(0x0A) & 0xC0) | scan_line_start),
            final(vga).crtc_reg(0x0B) == ((old(vga).crtc_reg(0x0B) & 0xE0) | scan_line_end),
            forall|i: int|
                0 <= i < 37 && i != 0x0A && i != 0x0B ==> final(vga).crtc_reg(i) == old(
                    vga,
                ).crtc_reg(i),
            *final(vga) == (Vga {
                crtc_controller_registers: final(vga).crtc_controller_registers,
                ..*old(vga)
            }),
    {
        cursor_set_shape(vga, scan_line_start, scan_line_end);
    }

    /// Hides the hardware cursor.
    pub fn disable_cursor(&self, vga: &mut Vga)
        requires
            old(vga).wf(),
        ensures
            final(vga).wf(),
            final(vga).crtc_reg(0x0A) == (old(vga).crtc_reg(0x0A) | 0x20),
            forall|i: int|
                0 <= i < 37 && i != 0x0A ==> final(vga).crtc_reg(i) == old(vga).crtc_reg(i),
            *final(vga) == (Vga {
                crtc_controller_registers: final(vga).crtc_controller_registers,
                ..*old(vga)
            }),
    {
        cursor_disable(vga);
    }

    /// Shows the hardware cursor.
    pub fn enable_cursor(&self, vga: &mut Vga)
        requires
            old(vga).wf(),
        ensures
            final(vga).wf(),
            final(vga).crtc_reg(0x0A) == (old(vga).crtc_reg(0x0A) & 0xDF),
            forall|i: int|
                0 <= i < 37 && i != 0x0A ==> final(vga).crtc_reg(i) == old(vga).crtc_reg(i),
            *final(vga) == (Vga {
                crtc_controller_registers: final(vga).crtc_controller_registers,
                ..*old(vga)
            }),
    {
        cursor_enable(vga);
    }

    /// Moves the hardware cursor to the cell at `(x, y)`: the cell
    /// offset's low byte goes to the cursor location low register, its
    /// high byte to the high one.
    pub fn set_cursor_position(&self, vga: &mut Vga, x: usize, y: usize)
        requires
            old(vga).wf(),
            x < 40,
            y < 25,
        ensures
            final(vga).wf(),
            final(vga).crtc_reg(0x0F) == (40 * y + x) % 256,
            final(vga).crtc_reg(0x0E) == ((40 * y + x) / 256) % 256,
            forall|i: int|
                0 <= i < 37 && i != 0x0E && i != 0x0F ==> final(vga).crtc_reg(i) == old(
                    vga,
                ).crtc_reg(i),
            *final(vga) == (Vga {
                crtc_controller_registers: final(vga).crtc_controller_registers,
                ..*old(vga)
            }),
    {
        cursor_set_position(vga, 40 * y + x);
    }
}


impl crate::writers::Screen for Text40x25 {
    open spec fn width_spec(&self) -> int {
        40
    }

    open spec fn height_spec(&self) -> int {
        25
    }

    open spec fn size_spec(&self) -> int {
        1000
    }

    fn get_width(&self) -> (r: usize) {
        40
    }

    fn get_height(&self) -> (r: usize) {
        25
    }

    fn get_size(&self) -> (r: usize) {
        1000
    }
}

} // verus!
