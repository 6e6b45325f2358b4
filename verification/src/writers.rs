//! Writers for the supported video modes: cell-oriented text writers
//! and pixel-oriented graphics writers, all operating on the adapter
//! through its register files and memory planes.

use crate::colors::TextModeColor;
use crate::drawing::Point;
use crate::vga::{bit8, same_but_latches, same_but_planes, Vga, PLANE_SIZE};
use vstd::prelude::*;

pub mod graphics_1280x800x256;
pub mod graphics_320x200x256;
pub mod graphics_320x240x256;
pub mod graphics_640x480x16;
pub mod text_40x25;
pub mod text_40x50;
pub mod text_80x25;

pub use graphics_1280x800x256::Graphics1280x800x256;
pub use graphics_320x200x256::Graphics320x200x256;
pub use graphics_320x240x256::Graphics320x240x256;
pub use graphics_640x480x16::Graphics640x480x16;
pub use text_40x25::Text40x25;
pub use text_40x50::Text40x50;
pub use text_80x25::Text80x25;

verus! {

/// One text cell: a code byte and an attribute byte.
#[derive(Debug, Copy, Clone, PartialEq, Eq, Structural)]
pub struct ScreenCharacter {
    /// The code byte.
    pub character: u8,
    /// The attribute byte.
    pub color: TextModeColor,
}

impl ScreenCharacter {
    /// A cell from a code byte and a color.
    pub fn new(character: u8, color: TextModeColor) -> (r: ScreenCharacter)
        ensures
            r == (ScreenCharacter { character, color }),
    {
        ScreenCharacter { character, color }
    }

    /// The cell's code byte.
    pub fn get_character(self) -> (r: u8)
        ensures
            r == self.character,
    {
        self.character
    }

    /// The cell's color.
    pub fn get_color(self) -> (r: TextModeColor)
        ensures
            r == self.color,
    {
        self.color
    }
}

/// A screen with a fixed size: its dimensions in the mode's natural
/// units and the byte size of its frame buffer.
pub trait Screen {
    /// The width in the mode's units.
    spec fn width_spec(&self) -> int;

    /// The height in the mode's units.
    spec fn height_spec(&self) -> int;

    /// The frame buffer size in bytes.
    spec fn size_spec(&self) -> int;

    /// The width.
    fn get_width(&self) -> (r: usize)
        ensures
            r == self.width_spec(),
    ;

    /// The height.
    fn get_height(&self) -> (r: usize)
        ensures
            r == self.height_spec(),
    ;

    /// The frame buffer size in bytes.
    fn get_size(&self) -> (r: usize)
        ensures
            r == self.size_spec(),
    ;
}

/// A pixel-oriented writer for one graphics mode.  The exact pixel
/// semantics of each operation live on the writers' own methods; this
/// trait carries what every mode offers, over each writer's own
/// readiness state.
pub trait GraphicsWriter<Color: Copy>: Screen {
    /// Whether the adapter is in the state this writer's mode switch
    /// leaves behind, as far as its drawing operations rely on it.
    spec fn mode_ready(&self, vga: Vga) -> bool;

    /// Programs the adapter for this writer's mode.
    fn set_mode(&self, vga: &mut Vga)
        requires
            old(vga).wf(),
        ensures
            self.mode_ready(*final(vga)),
    ;

    /// Clears the screen to `color`.
    fn clear_screen(&self, vga: &mut Vga, color: Color)
        requires
            self.mode_ready(*old(vga)),
        ensures
            self.mode_ready(*final(vga)),
    ;

    /// Sets the pixel at `(x, y)` to `color`.
    fn set_pixel(&self, vga: &mut Vga, x: usize, y: usize, color: Color)
        requires
            self.mode_ready(*old(vga)),
            x < self.width_spec(),
            y < self.height_spec(),
        ensures
            self.mode_ready(*final(vga)),
    ;

    /// Draws the 8 by 8 glyph of `character` at `(x, y)`.
    fn draw_character(&self, vga: &mut Vga, x: usize, y: usize, character: char, color: Color)
        requires
            self.mode_ready(*old(vga)),
            x + 8 <= self.width_spec(),
            y + 8 <= self.height_spec(),
        ensures
            self.mode_ready(*final(vga)),
    ;
}

/// Primitive shapes on top of a graphics writer.
pub trait PrimitiveDrawing<Color: Copy>: GraphicsWriter<Color> {
    /// Draws a line from `start` to `end` with `color`.
    fn draw_line(&self, vga: &mut Vga, start: Point<isize>, end: Point<isize>, color: Color)
        requires
            self.mode_ready(*old(vga)),
            0 <= start.0 < self.width_spec(),
            0 <= start.1 < self.height_spec(),
            0 <= end.0 < self.width_spec(),
            0 <= end.1 < self.height_spec(),
        ensures
            self.mode_ready(*final(vga)),
    ;

    /// Fills the rectangle from `p1` (inclusive) to `p2` (exclusive)
    /// with `color`.
    fn draw_rect(&self, vga: &mut Vga, p1: Point<usize>, p2: Point<usize>, color: Color)
        requires
            self.mode_ready(*old(vga)),
            p1.0 <= p2.0 <= self.width_spec(),
            p1.1 <= p2.1 <= self.height_spec(),
        ensures
            self.mode_ready(*final(vga)),
    ;
}

/// The register state every text mode's table programs, as far as the
/// memory path depends on it: odd/even addressing over planes 0 and 1,
/// write mode 0 with no rotate, set/reset off, an open bit mask, and
/// the color text window.
pub open spec fn text_memory_state(v: Vga) -> bool {
    &&& v.seq_reg(2) == 0x03
    &&& v.seq_reg(4) == 0x02
    &&& v.gfx_reg(1) == 0x00
    &&& v.gfx_reg(3) == 0x00
    &&& v.gfx_reg(5) == 0x10
    &&& v.gfx_reg(6) == 0x0E
    &&& v.gfx_reg(8) == 0xFF
}

/// The code byte of the text cell at `(x, y)`.
pub open spec fn text_char_at(v: Vga, width: int, x: int, y: int) -> u8 {
    v.plane(0)[2 * (width * y + x)]
}

/// The attribute byte of the text cell at `(x, y)`.
pub open spec fn text_attr_at(v: Vga, width: int, x: int, y: int) -> u8 {
    v.plane(1)[2 * (width * y + x) + 1]
}

/// Stores one text cell: the code byte to plane 0 and the attribute
/// byte to plane 1, through two odd/even framebuffer writes.
pub(crate) fn text_store_cell(vga: &mut Vga, cell: usize, screen_character: ScreenCharacter)
    requires
        old(vga).wf(),
        text_memory_state(*old(vga)),
        cell < 0x4000,
    ensures
        final(vga).wf(),
        text_memory_state(*final(vga)),
        same_but_planes(*old(vga), *final(vga)),
        final(vga).plane(0) == old(vga).plane(0).update(2 * cell as int, screen_character.character),
        final(vga).plane(1) == old(vga).plane(1).update(
            2 * cell as int + 1,
            screen_character.color.packed,
        ),
        final(vga).plane(2) == old(vga).plane(2),
        final(vga).plane(3) == old(vga).plane(3),
{
    let offset = 2 * cell;
    proof {
        crate::vga::lemma_mask_table();
        text_write_facts(*old(vga), offset as int);
        crate::vga::lemma_plain_write_result(
            *old(vga),
            0,
            screen_character.character,
            old(vga).latch0,
        );
    }
    vga.vram_write(offset, screen_character.character);
    proof {
        assert(vga.write_plane_enable(offset as int + 1) == old(vga).write_plane_enable(
            offset as int + 1,
        ));
        assert(vga.write_result(1, screen_character.color.packed, vga.latch1) == old(
            vga,
        ).write_result(1, screen_character.color.packed, vga.latch1));
        crate::vga::lemma_mask_table();
        text_write_facts(*old(vga), offset as int);
        crate::vga::lemma_plain_write_result(
            *old(vga),
            1,
            screen_character.color.packed,
            vga.latch1,
        );
    }
    vga.vram_write(offset + 1, screen_character.color.packed);
}

/// In the text-mode register state, an even framebuffer address enables
/// plane 0 alone and the following odd address plane 1 alone.
proof fn text_write_facts(v: Vga, o: int)
    requires
        text_memory_state(v),
        o % 2 == 0,
    ensures
        v.write_plane_enable(o) == 0x01,
        v.write_plane_enable(o + 1) == 0x02,
        bit8(0x01, 0) && !bit8(0x01, 1) && !bit8(0x01, 2) && !bit8(0x01, 3),
        !bit8(0x02, 0) && bit8(0x02, 1) && !bit8(0x02, 2) && !bit8(0x02, 3),
{
    crate::vga::lemma_mask_table();
    crate::vga::lemma_low_bits(0x01);
    crate::vga::lemma_low_bits(0x02);
}

/// Reads one text cell back, through two odd/even framebuffer reads.
pub(crate) fn text_load_cell(vga: &mut Vga, cell: usize) -> (r: ScreenCharacter)
    requires
        old(vga).wf(),
        text_memory_state(*old(vga)),
        cell < 0x4000,
    ensures
        final(vga).wf(),
        same_but_latches(*old(vga), *final(vga)),
        r.character == old(vga).plane(0)[2 * cell as int],
        r.color.packed == old(vga).plane(1)[2 * cell as int + 1],
{
    let offset = 2 * cell;
    proof {
        crate::vga::lemma_mask_table();
    }
    let character = vga.vram_read(offset);
    let packed = vga.vram_read(offset + 1);
    ScreenCharacter { character, color: TextModeColor { packed } }
}

/// Fills the first `size` text cells with one character.
pub(crate) fn text_fill(vga: &mut Vga, size: usize, screen_character: ScreenCharacter)
    requires
        old(vga).wf(),
        text_memory_state(*old(vga)),
        size <= 0x4000,
    ensures
        final(vga).wf(),
        text_memory_state(*final(vga)),
        same_but_planes(*old(vga), *final(vga)),
        final(vga).plane(2) == old(vga).plane(2),
        final(vga).plane(3) == old(vga).plane(3),
        forall|o: int|
            0 <= o < PLANE_SIZE ==> final(vga).plane(0)[o] == (if o % 2 == 0 && o < 2 * size {
                screen_character.character
            } else {
                old(vga).plane(0)[o]
            }),
        forall|o: int|
            0 <= o < PLANE_SIZE ==> final(vga).plane(1)[o] == (if o % 2 == 1 && o < 2 * size {
                screen_character.color.packed
            } else {
                old(vga).plane(1)[o]
            }),
{
    let mut i: usize = 0;
    while i < size
        invariant
            i <= size,
            size <= 0x4000,
            vga.wf(),
            text_memory_state(*vga),
            same_but_planes(*old(vga), *vga),
            vga.plane(2) == old(vga).plane(2),
            vga.plane(3) == old(vga).plane(3),
            forall|o: int|
                0 <= o < PLANE_SIZE ==> vga.plane(0)[o] == (if o % 2 == 0 && o < 2 * i {
                    screen_character.character
                } else {
                    old(vga).plane(0)[o]
                }),
            forall|o: int|
                0 <= o < PLANE_SIZE ==> vga.plane(1)[o] == (if o % 2 == 1 && o < 2 * i {
                    screen_character.color.packed
                } else {
                    old(vga).plane(1)[o]
                }),
        decreases size - i,
    {
        text_store_cell(vga, i, screen_character);
        i = i + 1;
    }
}

/// Sets the cursor shape: the low bits of the text cursor start and end
/// registers take the scan lines, their high bits stay.
pub(crate) fn cursor_set_shape(vga: &mut Vga, scan_line_start: u8, scan_line_end: u8)
    requires
        old(vga).wf(),
    ensures
        final(vga).wf(),
        final(vga).crtc_reg(0x0A) == ((old(vga).crtc_reg(0x0A) & 0xC0) | scan_line_start),
        final(vga).crtc_reg(0x0B) == ((old(vga).crtc_reg(0x0B) & 0xE0) | scan_line_end),
        forall|i: int|
            0 <= i < 37 && i != 0x0A && i != 0x0B ==> final(vga).crtc_reg(i) == old(vga).crtc_reg(
                i,
            ),
        *final(vga) == (Vga {
            crtc_controller_registers: final(vga).crtc_controller_registers,
            ..*old(vga)
        }),
{
    let emulation_mode = vga.get_emulation_mode();
    let cursor_start = vga.crtc_controller_registers.read(
        emulation_mode,
        crate::registers::CrtcControllerIndex::TextCursorStart,
    ) & 0xC0;
    let cursor_end = vga.crtc_controller_registers.read(
        emulation_mode,
        crate::registers::CrtcControllerIndex::TextCursorEnd,
    ) & 0xE0;
    vga.crtc_controller_registers.write(
        emulation_mode,
        crate::registers::CrtcControllerIndex::TextCursorStart,
        cursor_start | scan_line_start,
    );
    vga.crtc_controller_registers.write(
        emulation_mode,
        crate::registers::CrtcControllerIndex::TextCursorEnd,
        cursor_end | scan_line_end,
    );
}

/// Sets bit 5 of the text cursor start register, which hides the
/// cursor.
pub(crate) fn cursor_disable(vga: &mut Vga)
    requires
        old(vga).wf(),
    ensures
        final(vga).wf(),
        final(vga).crtc_reg(0x0A) == (old(vga).crtc_reg(0x0A) | 0x20),
        forall|i: int|
            0 <= i < 37 && i != 0x0A ==> final(vga).crtc_reg(i) == old(vga).crtc_reg(i),
        *final(vga) == (Vga {
            crtc_controller_registers: final(vga).crtc_controller_registers,
            ..*old(vga)
        }),
{
    let emulation_mode = vga.get_emulation_mode();
    let cursor_start = vga.crtc_controller_registers.read(
        emulation_mode,
        crate::registers::CrtcControllerIndex::TextCursorStart,
    );
    vga.crtc_controller_registers.write(
        emulation_mode,
        crate::registers::CrtcControllerIndex::TextCursorStart,
        cursor_start | 0x20,
    );
}

/// Clears bit 5 of the text cursor start register, which shows the
/// cursor.
pub(crate) fn cursor_enable(vga: &mut Vga)
    requires
        old(vga).wf(),
    ensures
        final(vga).wf(),
        final(vga).crtc_reg(0x0A) == (old(vga).crtc_reg(0x0A) & 0xDF),
        forall|i: int|
            0 <= i < 37 && i != 0x0A ==> final(vga).crtc_reg(i) == old(vga).crtc_reg(i),
        *final(vga) == (Vga {
            crtc_controller_registers: final(vga).crtc_controller_registers,
            ..*old(vga)
        }),
{
    let emulation_mode = vga.get_emulation_mode();
    let cursor_start = vga.crtc_controller_registers.read(
        emulation_mode,
        crate::registers::CrtcControllerIndex::TextCursorStart,
    );
    vga.crtc_controller_registers.write(
        emulation_mode,
        crate::registers::CrtcControllerIndex::TextCursorStart,
        cursor_start & 0xDF,
    );
}

/// Moves the hardware cursor to the cell at `offset`: its low byte goes
/// to the cursor location low register, its high byte to the high one.
pub(crate) fn cursor_set_position(vga: &mut Vga, offset: usize)
    requires
        old(vga).wf(),
        offset < 0x10000,
    ensures
        final(vga).wf(),
        final(vga).crtc_reg(0x0F) == offset % 256,
        final(vga).crtc_reg(0x0E) == (offset / 256) % 256,
        forall|i: int|
            0 <= i < 37 && i != 0x0E && i != 0x0F ==> final(vga).crtc_reg(i) == old(vga).crtc_reg(
                i,
            ),
        *final(vga) == (Vga {
            crtc_controller_registers: final(vga).crtc_controller_registers,
            ..*old(vga)
        }),
{
    let emulation_mode = vga.get_emulation_mode();
    let cursor_low = offset & 0xFF;
    let cursor_high = (offset >> 8) & 0xFF;
    assert(cursor_low == offset % 256 && cursor_high == (offset / 256) % 256 && cursor_low < 256
        && cursor_high < 256) by (bit_vector)
        requires
            cursor_low == offset & 0xFF,
            cursor_high == (offset >> 8) & 0xFF,
    ;
    vga.crtc_controller_registers.write(
        emulation_mode,
        crate::registers::CrtcControllerIndex::TextCursorLocationLow,
        cursor_low as u8,
    );
    vga.crtc_controller_registers.write(
        emulation_mode,
        crate::registers::CrtcControllerIndex::TextCursorLocationHigh,
        cursor_high as u8,
    );
}

} // verus!
