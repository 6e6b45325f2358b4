//! The VGA adapter as one machine: the five register files, the DAC, the
//! four 64K memory planes with their latches, and a 32-bpp linear frame
//! buffer for the high-resolution packed mode.
//!
//! CPU accesses to video memory go through `vram_write` and `vram_read`,
//! which apply the addressing rules (chain-4, odd/even, planar) and the
//! write-mode arithmetic that the sequencer and graphics controller
//! registers currently select — exactly what the hardware does with a
//! store to or a load from the framebuffer window.

use crate::registers::attribute_controller::AttributeControllerRegisters;
use crate::registers::color_palette::ColorPaletteRegisters;
use crate::registers::crtc_controller::CrtcControllerRegisters;
use crate::registers::general::GeneralRegisters;
use crate::registers::graphics_controller::GraphicsControllerRegisters;
use crate::registers::sequencer::SequencerRegisters;
use crate::registers::EmulationMode;
use vstd::pervasive::VecAdditionalExecFns;
use vstd::prelude::*;

verus! {

/// Bytes in one memory plane.
pub const PLANE_SIZE: usize = 65536;

/// Pixels in the 32-bpp linear frame buffer (1280 by 800).
pub const LINEAR_PIXELS: usize = 1280 * 800;

/// Default physical base of the VGA memory window.
pub const DEFAULT_VIDEO_MEMORY_START: usize = 0xA0000;

/// Whether bit `i` of `v` is set.
pub open spec fn bit8(v: u8, i: int) -> bool {
    (v >> (i as u8)) & 1 == 1
}

/// A byte of all ones or all zeros, from one bit.
pub open spec fn expand_bit(b: bool) -> u8 {
    if b {
        0xFF
    } else {
        0x00
    }
}

/// Bitwise merge: data bits where the mask is set, latch bits elsewhere.
pub open spec fn merge_bits(mask: u8, data: u8, latch: u8) -> u8 {
    (mask & data) | (!mask & latch)
}

/// `b` rotated right by `r & 7` bit positions.
pub open spec fn ror8(b: u8, r: u8) -> u8 {
    (b >> (r & 7)) | (b << (((8 - (r & 7)) as u8) & 7))
}

/// The single-plane mask chain-4 addressing derives from an address:
/// bit `o % 4`.
pub open spec fn chain4_plane_mask(o: int) -> u8 {
    if o % 4 == 0 {
        1
    } else if o % 4 == 1 {
        2
    } else if o % 4 == 2 {
        4
    } else {
        8
    }
}

/// The plane pair odd/even addressing derives from an address: planes
/// 0 and 2 for even bytes, 1 and 3 for odd ones.
pub open spec fn odd_even_plane_mask(o: int) -> u8 {
    if o % 2 == 0 {
        0b0101
    } else {
        0b1010
    }
}

/// The starting address of the frame buffer window for the current
/// memory-map select, relative to the video memory base.
#[derive(Debug, Copy, Clone, PartialEq, Eq, Structural)]
pub enum FrameBuffer {
    /// The 64K window at the base itself, used by the graphics modes.
    GraphicsMode(usize),
    /// The 32K monochrome text window at base + 0x10000.
    MdaMode(usize),
    /// The 32K color text window at base + 0x18000.
    CgaMode(usize),
}

impl FrameBuffer {
    /// The window a memory-map select chooses.  Selects 1, 2 and 3 name
    /// the graphics, monochrome and color windows; 0 maps no window and
    /// is rejected by the driver before this point.
    pub fn new(memory_map_mode: u8, video_memory_start: usize) -> (r: FrameBuffer)
        requires
            1 <= memory_map_mode <= 3,
            video_memory_start + 0x18000 <= usize::MAX,
        ensures
            memory_map_mode == 1 ==> r == FrameBuffer::GraphicsMode(video_memory_start),
            memory_map_mode == 2 ==> r == FrameBuffer::MdaMode(
                (video_memory_start + 0x10000) as usize,
            ),
            memory_map_mode == 3 ==> r == FrameBuffer::CgaMode(
                (video_memory_start + 0x18000) as usize,
            ),
    {
        match memory_map_mode {
            0x1 => FrameBuffer::GraphicsMode(video_memory_start),
            0x2 => FrameBuffer::MdaMode(video_memory_start + 0x10000),
            _ => FrameBuffer::CgaMode(video_memory_start + 0x18000),
        }
    }

    /// The address the window starts at.
    pub fn address(self) -> (r: usize)
        ensures
            r == frame_buffer_address(self),
    {
        match self {
            FrameBuffer::GraphicsMode(addr) => addr,
            FrameBuffer::CgaMode(addr) => addr,
            FrameBuffer::MdaMode(addr) => addr,
        }
    }
}

/// The address carried by a `FrameBuffer`.
pub open spec fn frame_buffer_address(f: FrameBuffer) -> usize {
    match f {
        FrameBuffer::GraphicsMode(addr) => addr,
        FrameBuffer::CgaMode(addr) => addr,
        FrameBuffer::MdaMode(addr) => addr,
    }
}

/// A supported video mode.
#[derive(Debug, Clone, Copy, PartialEq, Eq, Structural)]
pub enum VideoMode {
    /// Text mode, 40 by 25 cells.
    Mode40x25,
    /// Text mode, 40 by 50 cells.
    Mode40x50,
    /// Text mode, 80 by 25 cells.
    Mode80x25,
    /// Packed 256-color graphics, 320 by 200.
    Mode320x200x256,
    /// Planar 256-color graphics, 320 by 240.
    Mode320x240x256,
    /// Planar 16-color graphics, 640 by 480.
    Mode640x480x16,
    /// Packed 32-bpp graphics, 1280 by 800, on a linear frame buffer.
    Mode1280x800x256,
}

/// The VGA adapter: register files, planar memory, latches and the most
/// recently programmed video mode.
pub struct Vga {
    /// The general registers.
    pub general_registers: GeneralRegisters,
    /// The sequencer registers.
    pub sequencer_registers: SequencerRegisters,
    /// The graphics controller registers.
    pub graphics_controller_registers: GraphicsControllerRegisters,
    /// The attribute controller registers.
    pub attribute_controller_registers: AttributeControllerRegisters,
    /// The CRTC registers.
    pub crtc_controller_registers: CrtcControllerRegisters,
    /// The DAC palette registers.
    pub color_palette_registers: ColorPaletteRegisters,
    /// The most recently set video mode, if any.
    pub most_recent_video_mode: Option<VideoMode>,
    /// Base address of the VGA memory window as the caller mapped it.
    pub video_memory_start: usize,
    /// Memory plane 0.
    pub plane0: Vec<u8>,
    /// Memory plane 1.
    pub plane1: Vec<u8>,
    /// Memory plane 2.
    pub plane2: Vec<u8>,
    /// Memory plane 3.
    pub plane3: Vec<u8>,
    /// Latch for plane 0, loaded by every framebuffer read.
    pub latch0: u8,
    /// Latch for plane 1.
    pub latch1: u8,
    /// Latch for plane 2.
    pub latch2: u8,
    /// Latch for plane 3.
    pub latch3: u8,
    /// The externally established 32-bpp linear frame buffer.
    pub linear: Vec<u32>,
}

impl Vga {
    /// Every register file and memory plane has its full size.
    pub open spec fn wf(&self) -> bool {
        &&& self.sequencer_registers.wf()
        &&& self.graphics_controller_registers.wf()
        &&& self.attribute_controller_registers.wf()
        &&& self.crtc_controller_registers.wf()
        &&& self.color_palette_registers.wf()
        &&& self.plane0@.len() == PLANE_SIZE
        &&& self.plane1@.len() == PLANE_SIZE
        &&& self.plane2@.len() == PLANE_SIZE
        &&& self.plane3@.len() == PLANE_SIZE
        &&& self.linear@.len() == LINEAR_PIXELS
    }

    /// The contents of plane `p`.
    pub open spec fn plane(&self, p: int) -> Seq<u8> {
        if p == 0 {
            self.plane0@
        } else if p == 1 {
            self.plane1@
        } else if p == 2 {
            self.plane2@
        } else {
            self.plane3@
        }
    }

    /// The latch of plane `p`.
    pub open spec fn latch(&self, p: int) -> u8 {
        if p == 0 {
            self.latch0
        } else if p == 1 {
            self.latch1
        } else if p == 2 {
            self.latch2
        } else {
            self.latch3
        }
    }

    /// Sequencer register `i`.
    pub open spec fn seq_reg(&self, i: int) -> u8 {
        self.sequencer_registers.registers@[i]
    }

    /// Graphics controller register `i`.
    pub open spec fn gfx_reg(&self, i: int) -> u8 {
        self.graphics_controller_registers.registers@[i]
    }

    /// CRTC register `i`.
    pub open spec fn crtc_reg(&self, i: int) -> u8 {
        self.crtc_controller_registers.registers@[i]
    }

    /// Attribute controller register `i`.
    pub open spec fn attr_reg(&self, i: int) -> u8 {
        self.attribute_controller_registers.registers@[i]
    }

    /// Whether chain-4 addressing is on: bit 3 of the sequencer memory
    /// mode register.
    pub open spec fn chain4_active(&self) -> bool {
        self.seq_reg(4) & 0x08 != 0
    }

    /// Whether odd/even addressing is on: chain-4 off and bit 2 of the
    /// sequencer memory mode register clear.
    pub open spec fn odd_even_active(&self) -> bool {
        !self.chain4_active() && self.seq_reg(4) & 0x04 == 0
    }

    /// The planes a write to address `o` reaches: the plane mask register
    /// gated by the addressing rule.
    pub open spec fn write_plane_enable(&self, o: int) -> u8 {
        let sr2 = self.seq_reg(2) & 0x0F;
        if self.chain4_active() {
            sr2 & chain4_plane_mask(o)
        } else if self.odd_even_active() {
            sr2 & odd_even_plane_mask(o)
        } else {
            sr2
        }
    }

    /// The byte plane `p` stores when the CPU writes `b`, under the
    /// current write mode, data rotate, set/reset and bit mask registers,
    /// with `latch` the plane's latch.
    pub open spec fn write_result(&self, p: int, b: u8, latch: u8) -> u8 {
        let rotate = self.gfx_reg(3) & 7;
        let write_mode = self.gfx_reg(5) & 3;
        let bit_mask = self.gfx_reg(8);
        if write_mode == 0 {
            let data = if bit8(self.gfx_reg(1), p) {
                expand_bit(bit8(self.gfx_reg(0), p))
            } else {
                ror8(b, rotate)
            };
            merge_bits(bit_mask, data, latch)
        } else if write_mode == 1 {
            latch
        } else if write_mode == 2 {
            merge_bits(bit_mask, expand_bit(bit8(b, p)), latch)
        } else {
            let mask = bit_mask & ror8(b, rotate);
            merge_bits(mask, expand_bit(bit8(self.gfx_reg(0), p)), latch)
        }
    }

    /// What a CPU read of address `o` returns under the current
    /// addressing rule and read plane select.
    pub open spec fn vram_read_value(&self, o: int) -> u8 {
        if self.chain4_active() {
            self.plane(o % 4)[o]
        } else if self.odd_even_active() {
            self.plane(o % 2)[o]
        } else {
            self.plane((self.gfx_reg(4) & 3) as int)[o]
        }
    }
}

/// All state outside the four memory planes is unchanged.
pub open spec fn same_but_planes(pre: Vga, post: Vga) -> bool {
    &&& post.general_registers == pre.general_registers
    &&& post.sequencer_registers == pre.sequencer_registers
    &&& post.graphics_controller_registers == pre.graphics_controller_registers
    &&& post.attribute_controller_registers == pre.attribute_controller_registers
    &&& post.crtc_controller_registers == pre.crtc_controller_registers
    &&& post.color_palette_registers == pre.color_palette_registers
    &&& post.most_recent_video_mode == pre.most_recent_video_mode
    &&& post.video_memory_start == pre.video_memory_start
    &&& post.latch0 == pre.latch0
    &&& post.latch1 == pre.latch1
    &&& post.latch2 == pre.latch2
    &&& post.latch3 == pre.latch3
    &&& post.linear == pre.linear
}

/// All state outside the four latches is unchanged.
pub open spec fn same_but_latches(pre: Vga, post: Vga) -> bool {
    &&& post.general_registers == pre.general_registers
    &&& post.sequencer_registers == pre.sequencer_registers
    &&& post.graphics_controller_registers == pre.graphics_controller_registers
    &&& post.attribute_controller_registers == pre.attribute_controller_registers
    &&& post.crtc_controller_registers == pre.crtc_controller_registers
    &&& post.color_palette_registers == pre.color_palette_registers
    &&& post.most_recent_video_mode == pre.most_recent_video_mode
    &&& post.video_memory_start == pre.video_memory_start
    &&& post.plane0 == pre.plane0
    &&& post.plane1 == pre.plane1
    &&& post.plane2 == pre.plane2
    &&& post.plane3 == pre.plane3
    &&& post.linear == pre.linear
}

/// What one CPU write of `b` to address `o` leaves in the planes.
pub open spec fn vram_write_post(pre: Vga, post: Vga, o: int, b: u8) -> bool {
    &&& same_but_planes(pre, post)
    &&& forall|p: int|
        0 <= p < 4 ==> post.plane(p) == (if bit8(pre.write_plane_enable(o), p) {
            pre.plane(p).update(o, pre.write_result(p, b, pre.latch(p)))
        } else {
            pre.plane(p)
        })
}

/// What one CPU read of address `o` leaves behind: every latch loaded
/// from its plane.
pub open spec fn vram_read_post(pre: Vga, post: Vga, o: int) -> bool {
    &&& same_but_latches(pre, post)
    &&& post.latch0 == pre.plane(0)[o]
    &&& post.latch1 == pre.plane(1)[o]
    &&& post.latch2 == pre.plane(2)[o]
    &&& post.latch3 == pre.plane(3)[o]
}

impl Vga {
    /// A VGA adapter in its cleared power-on state, with the memory
    /// window at its physical identity-mapped default.
    pub fn new() -> (r: Vga)
        ensures
            r.wf(),
            r.most_recent_video_mode is None,
            r.video_memory_start == DEFAULT_VIDEO_MEMORY_START,
    {
        Vga {
            general_registers: GeneralRegisters::new(),
            sequencer_registers: SequencerRegisters::new(),
            graphics_controller_registers: GraphicsControllerRegisters::new(),
            attribute_controller_registers: AttributeControllerRegisters::new(),
            crtc_controller_registers: CrtcControllerRegisters::new(),
            color_palette_registers: ColorPaletteRegisters::new(),
            most_recent_video_mode: None,
            video_memory_start: DEFAULT_VIDEO_MEMORY_START,
            plane0: zero_plane(),
            plane1: zero_plane(),
            plane2: zero_plane(),
            plane3: zero_plane(),
            latch0: 0,
            latch1: 0,
            latch2: 0,
            latch3: 0,
            linear: zero_linear(),
        }
    }

    /// Moves the VGA memory window: callers that map the region somewhere
    /// other than 0xA0000 tell the driver where.
    pub fn set_memory_start(&mut self, video_memory_start: usize)
        ensures
            *final(self) == (Vga { video_memory_start, ..*old(self) }),
    {
        self.video_memory_start = video_memory_start;
    }

    /// The most recently set video mode, or `None` before the first
    /// mode switch.
    pub fn get_most_recent_video_mode(&self) -> (r: Option<VideoMode>)
        ensures
            r == self.most_recent_video_mode,
    {
        self.most_recent_video_mode
    }

    /// The emulation mode bit 0 of the Miscellaneous Output Register
    /// currently selects.
    pub fn get_emulation_mode(&mut self) -> (r: EmulationMode)
        ensures
            *final(self) == *old(self),
            r == crate::registers::emulation_mode_of_msr(old(self).general_registers.msr),
    {
        let msr = self.general_registers.read_msr();
        let bit = msr & 0x1;
        assert(bit < 2) by (bit_vector)
            requires
                bit == msr & 0x1,
        ;
        EmulationMode::from(bit)
    }

    /// The frame buffer window the graphics controller miscellaneous
    /// register currently maps, from its memory-map select bits.
    pub fn get_frame_buffer(&mut self) -> (r: FrameBuffer)
        requires
            old(self).wf(),
            (old(self).gfx_reg(6) >> 2) & 3 >= 1,
            old(self).video_memory_start + 0x18000 <= usize::MAX,
        ensures
            *final(self) == *old(self),
            r == spec_frame_buffer(*old(self)),
    {
        let miscellaneous_graphics = self.graphics_controller_registers.registers[6];
        let memory_map_mode = (miscellaneous_graphics >> 2) & 0x3;
        assert(memory_map_mode <= 3) by (bit_vector)
            requires
                memory_map_mode == (miscellaneous_graphics >> 2) & 0x3,
        ;
        let r = FrameBuffer::new(memory_map_mode, self.video_memory_start);
        r
    }

    /// One 32-bit store to the linear frame buffer, as the packed
    /// 32-bpp mode performs it.
    pub fn linear_write(&mut self, o: usize, color: u32)
        requires
            old(self).wf(),
            o < LINEAR_PIXELS,
        ensures
            final(self).wf(),
            final(self).linear@ == old(self).linear@.update(o as int, color),
            *final(self) == (Vga { linear: final(self).linear, ..*old(self) }),
    {
        self.linear.set(o, color);
    }

    /// One 32-bit load from the linear frame buffer.
    pub fn linear_read(&self, o: usize) -> (r: u32)
        requires
            self.wf(),
            o < LINEAR_PIXELS,
        ensures
            r == self.linear@[o as int],
    {
        self.linear[o]
    }

    /// One CPU write of `b` to framebuffer address `o`: each plane the
    /// plane mask and addressing rule enable stores the write-mode
    /// result.
    pub fn vram_write(&mut self, o: usize, b: u8)
        requires
            old(self).wf(),
            o < PLANE_SIZE,
        ensures
            final(self).wf(),
            vram_write_post(*old(self), *final(self), o as int, b),
    {
        let enable = self.write_plane_enable_exec(o);
        proof {
            lemma_low_bits(enable);
        }
        if enable & 1 != 0 {
            let v = self.write_result_exec(0, b, self.latch0);
            self.plane0.set(o, v);
        }
        if enable & 2 != 0 {
            let v = self.write_result_exec(1, b, self.latch1);
            self.plane1.set(o, v);
        }
        if enable & 4 != 0 {
            let v = self.write_result_exec(2, b, self.latch2);
            self.plane2.set(o, v);
        }
        if enable & 8 != 0 {
            let v = self.write_result_exec(3, b, self.latch3);
            self.plane3.set(o, v);
        }
    }

    /// One CPU read of framebuffer address `o`: loads all four latches
    /// and returns the byte the addressing rule selects.
    pub fn vram_read(&mut self, o: usize) -> (r: u8)
        requires
            old(self).wf(),
            o < PLANE_SIZE,
        ensures
            final(self).wf(),
            vram_read_post(*old(self), *final(self), o as int),
            r == old(self).vram_read_value(o as int),
    {
        self.latch0 = self.plane0[o];
        self.latch1 = self.plane1[o];
        self.latch2 = self.plane2[o];
        self.latch3 = self.plane3[o];
        let memory_mode = self.sequencer_registers.registers[4];
        if memory_mode & 0x08 != 0 {
            match o % 4 {
                0 => self.plane0[o],
                1 => self.plane1[o],
                2 => self.plane2[o],
                _ => self.plane3[o],
            }
        } else if memory_mode & 0x04 == 0 {
            if o % 2 == 0 {
                self.plane0[o]
            } else {
                self.plane1[o]
            }
        } else {
            let gfx4 = self.graphics_controller_registers.registers[4];
            let read_plane = gfx4 & 3;
            match read_plane {
                0 => self.plane0[o],
                1 => self.plane1[o],
                2 => self.plane2[o],
                _ => {
                    assert(read_plane == 3) by (bit_vector)
                        requires
                            read_plane == gfx4 & 3,
                            read_plane != 0,
                            read_plane != 1,
                            read_plane != 2,
                    ;
                    self.plane3[o]
                },
            }
        }
    }

    /// The plane enable mask for a write to `o`, from the current
    /// registers.
    fn write_plane_enable_exec(&self, o: usize) -> (r: u8)
        requires
            self.wf(),
        ensures
            r == self.write_plane_enable(o as int),
            r < 16,
    {
        let raw2 = self.sequencer_registers.registers[2];
        let sr2 = raw2 & 0x0F;
        let memory_mode = self.sequencer_registers.registers[4];
        let r = if memory_mode & 0x08 != 0 {
            let select: u8 = match o % 4 {
                0 => 1,
                1 => 2,
                2 => 4,
                _ => 8,
            };
            sr2 & select
        } else if memory_mode & 0x04 == 0 {
            if o % 2 == 0 {
                sr2 & 0b0101
            } else {
                sr2 & 0b1010
            }
        } else {
            sr2
        };
        assert(raw2 & 0x0F < 16 && forall|s: u8| (raw2 & 0x0F) & s < 16) by (bit_vector);
        r
    }

    /// The write-mode result for plane `p`, from the current registers.
    fn write_result_exec(&self, p: u8, b: u8, latch: u8) -> (r: u8)
        requires
            self.wf(),
            p < 4,
        ensures
            r == self.write_result(p as int, b, latch),
    {
        let rotate = self.graphics_controller_registers.registers[3] & 7;
        let write_mode = self.graphics_controller_registers.registers[5] & 3;
        let bit_mask = self.graphics_controller_registers.registers[8];
        let set_reset = self.graphics_controller_registers.registers[0];
        let enable_set_reset = self.graphics_controller_registers.registers[1];
        if write_mode == 0 {
            let data = if (enable_set_reset >> p) & 1 == 1 {
                if (set_reset >> p) & 1 == 1 {
                    0xFF
                } else {
                    0x00
                }
            } else {
                ror8_exec(b, rotate)
            };
            (bit_mask & data) | (!bit_mask & latch)
        } else if write_mode == 1 {
            latch
        } else if write_mode == 2 {
            let data = if (b >> p) & 1 == 1 {
                0xFFu8
            } else {
                0x00u8
            };
            (bit_mask & data) | (!bit_mask & latch)
        } else {
            let mask = bit_mask & ror8_exec(b, rotate);
            let data = if (set_reset >> p) & 1 == 1 {
                0xFFu8
            } else {
                0x00u8
            };
            (mask & data) | (!mask & latch)
        }
    }
}

/// How the four low bits of a byte read as bit tests.
pub proof fn lemma_low_bits(e: u8)
    ensures
        bit8(e, 0) == (e & 1 != 0),
        bit8(e, 1) == (e & 2 != 0),
        bit8(e, 2) == (e & 4 != 0),
        bit8(e, 3) == (e & 8 != 0),
{
    assert(((e >> 0u8) & 1 == 1) == (e & 1 != 0) && ((e >> 1u8) & 1 == 1) == (e & 2 != 0) && ((e
        >> 2u8) & 1 == 1) == (e & 4 != 0) && ((e >> 3u8) & 1 == 1) == (e & 8 != 0)) by (bit_vector);
}

/// The bit shapes of the masks the driver writes: single-plane bits,
/// the full plane nibble, the addressing bits of the memory mode
/// register, the odd/even pair masks, and the write-mode fields.
pub proof fn lemma_mask_table()
    ensures
        0x01u8 & 1 != 0 && 0x01u8 & 2 == 0 && 0x01u8 & 4 == 0 && 0x01u8 & 8 == 0,
        0x02u8 & 1 == 0 && 0x02u8 & 2 != 0 && 0x02u8 & 4 == 0 && 0x02u8 & 8 == 0,
        0x04u8 & 1 == 0 && 0x04u8 & 2 == 0 && 0x04u8 & 4 != 0 && 0x04u8 & 8 == 0,
        0x08u8 & 1 == 0 && 0x08u8 & 2 == 0 && 0x08u8 & 4 == 0 && 0x08u8 & 8 != 0,
        0x0Fu8 & 1 != 0 && 0x0Fu8 & 2 != 0 && 0x0Fu8 & 4 != 0 && 0x0Fu8 & 8 != 0,
        0x0Fu8 & 1 == 1 && 0x0Fu8 & 2 == 2 && 0x0Fu8 & 4 == 4 && 0x0Fu8 & 8 == 8,
        0x0Eu8 & 0x08 != 0 && 0x06u8 & 0x08 == 0 && 0x06u8 & 0x04 != 0,
        0x02u8 & 0x08 == 0 && 0x02u8 & 0x04 == 0,
        0x03u8 & 0x0F == 0x03 && 0x03u8 & 0b0101 == 0x01 && 0x03u8 & 0b1010 == 0x02,
        0x10u8 & 3 == 0 && 0x40u8 & 3 == 0 && 0x00u8 & 3 == 0,
        0x00u8 & 7 == 0 && 0x00u8 & 0x0F == 0 && 0x00u8 & 0xF0 == 0 && 0x00u8 & 0xFC == 0,
        0x0Fu8 & 0x0F == 0x0F && 0x0Fu8 & 0xF0 == 0,
        0x02u16 & 0x02 != 0 && (0x01u16 | 0x40) == 0x41,
{
    assert(0x0Fu8 & 1 == 1 && 0x0Fu8 & 2 == 2 && 0x0Fu8 & 4 == 4 && 0x0Fu8 & 8 == 8 && 0x01u8 & 1
        != 0 && 0x01u8 & 2 == 0 && 0x01u8 & 4 == 0 && 0x01u8 & 8 == 0 && 0x02u8 & 1
        == 0 && 0x02u8 & 2 != 0 && 0x02u8 & 4 == 0 && 0x02u8 & 8 == 0 && 0x04u8 & 1 == 0 && 0x04u8
        & 2 == 0 && 0x04u8 & 4 != 0 && 0x04u8 & 8 == 0 && 0x08u8 & 1 == 0 && 0x08u8 & 2 == 0
        && 0x08u8 & 4 == 0 && 0x08u8 & 8 != 0 && 0x0Fu8 & 1 != 0 && 0x0Fu8 & 2 != 0 && 0x0Fu8 & 4
        != 0 && 0x0Fu8 & 8 != 0 && 0x0Eu8 & 0x08 != 0 && 0x06u8 & 0x08 == 0 && 0x06u8 & 0x04 != 0
        && 0x02u8 & 0x08 == 0 && 0x02u8 & 0x04 == 0 && 0x03u8 & 0x0F == 0x03 && 0x03u8 & 0b0101
        == 0x01 && 0x03u8 & 0b1010 == 0x02 && 0x10u8 & 3 == 0 && 0x40u8 & 3 == 0 && 0x00u8 & 3
        == 0 && 0x00u8 & 7 == 0 && 0x00u8 & 0x0F == 0 && 0x00u8 & 0xF0 == 0 && 0x00u8 & 0xFC == 0
        && 0x0Fu8 & 0x0F == 0x0F && 0x0Fu8 & 0xF0 == 0 && 0x02u16 & 0x02 != 0 && (0x01u16 | 0x40)
        == 0x41) by (bit_vector);
}

/// A read-modify-write that keeps a register's high nibble and puts
/// `v` in the low one stores exactly those fields.
pub proof fn lemma_rmw_low_nibble(o: u8, v: u8)
    requires
        v < 16,
    ensures
        ((o & 0xF0) | v) & 0x0F == v,
        ((o & 0xF0) | v) & 0xF0 == o & 0xF0,
{
    assert(((o & 0xF0) | v) & 0x0F == v && ((o & 0xF0) | v) & 0xF0 == o & 0xF0) by (bit_vector)
        requires
            v < 16,
    ;
}

/// A read-modify-write of the write-mode field keeps the upper bits.
pub proof fn lemma_rmw_write_mode(o: u8, m: u8)
    requires
        m < 4,
    ensures
        ((o & 0xFC) | m) & 3 == m,
        ((o & 0xFC) | m) & 0xFC == o & 0xFC,
{
    assert(((o & 0xFC) | m) & 3 == m && ((o & 0xFC) | m) & 0xFC == o & 0xFC) by (bit_vector)
        requires
            m < 4,
    ;
}

/// The two spellings of a glyph bit test agree.
pub proof fn lemma_glyph_bit(byte: u8, bt: u8)
    requires
        bt < 8,
    ensures
        (byte & (1u8 << bt) != 0) == ((byte >> bt) & 1 == 1),
{
    assert((byte & (1u8 << bt) != 0) == ((byte >> bt) & 1 == 1)) by (bit_vector)
        requires
            bt < 8,
    ;
}

/// An open bit mask passes the data byte through the merge.
pub proof fn lemma_merge_full_all()
    ensures
        forall|d: u8, l: u8| #[trigger] merge_bits(0xFF, d, l) == d,
{
    assert(forall|d: u8, l: u8| ((0xFFu8 & d) | (!0xFFu8 & l)) == d) by (bit_vector);
}

/// Rotating by zero returns every byte unchanged.
pub proof fn lemma_ror8_zero_all()
    ensures
        forall|b: u8| #[trigger] ror8(b, 0) == b,
{
    assert(forall|b: u8| ((b >> (0u8 & 7)) | (b << (((8 - (0u8 & 7)) as u8) & 7))) == b)
        by (bit_vector);
}

/// Every bit of an all-ones byte is set, every bit of a zero byte
/// clear.
pub proof fn lemma_expand_table()
    ensures
        forall|i: u8| i < 8 ==> (#[trigger] (0xFFu8 >> i)) & 1 == 1,
        forall|i: u8| i < 8 ==> (#[trigger] (0x00u8 >> i)) & 1 == 0,
{
    assert(forall|i: u8| i < 8 ==> ((0xFFu8 >> i) & 1 == 1 && ((0x00u8 >> i)) & 1 == 0))
        by (bit_vector);
}

/// The low three bits of an address are its remainder by eight.
pub proof fn lemma_low3(x: usize)
    ensures
        x & 7 < 8,
        x & 7 == x % 8,
{
    assert(x & 7 < 8 && x & 7 == x % 8) by (bit_vector);
}

/// The low two bits of an address are its remainder by four.
pub proof fn lemma_low2(x: usize)
    ensures
        x & 3 < 4,
        x & 3 == x % 4,
{
    assert(x & 3 < 4 && x & 3 == x % 4) by (bit_vector);
}

/// `b` rotated right by `r & 7` bit positions.
fn ror8_exec(b: u8, r: u8) -> (result: u8)
    ensures
        result == ror8(b, r),
{
    let rot = r & 7;
    assert(rot < 8) by (bit_vector)
        requires
            rot == r & 7,
    ;
    let sh = (8 - rot) & 7;
    assert(sh < 8) by (bit_vector)
        requires
            sh == ((8 - rot) as u8) & 7,
    ;
    let result = (b >> rot) | (b << sh);
    assert(result == ror8(b, r)) by (bit_vector)
        requires
            rot == r & 7,
            sh == ((8 - rot) as u8) & 7,
            result == ((b >> rot) | (b << sh)),
    ;
    result
}

/// A zeroed 64K memory plane.
fn zero_plane() -> (r: Vec<u8>)
    ensures
        r@.len() == PLANE_SIZE,
        forall|i: int| 0 <= i < PLANE_SIZE ==> r@[i] == 0,
{
    let mut v: Vec<u8> = Vec::new();
    let mut i: usize = 0;
    while i < PLANE_SIZE
        invariant
            i <= PLANE_SIZE,
            v@.len() == i,
            forall|k: int| 0 <= k < i ==> v@[k] == 0,
        decreases PLANE_SIZE - i,
    {
        v.push(0);
        i = i + 1;
    }
    v
}

/// A zeroed 32-bpp linear frame buffer.
fn zero_linear() -> (r: Vec<u32>)
    ensures
        r@.len() == LINEAR_PIXELS,
        forall|i: int| 0 <= i < LINEAR_PIXELS ==> r@[i] == 0,
{
    let mut v: Vec<u32> = Vec::new();
    let mut i: usize = 0;
    while i < LINEAR_PIXELS
        invariant
            i <= LINEAR_PIXELS,
            v@.len() == i,
            forall|k: int| 0 <= k < i ==> v@[k] == 0,
        decreases LINEAR_PIXELS - i,
    {
        v.push(0);
        i = i + 1;
    }
    v
}

/// The CRTC registers after the unlock dance: the horizontal blanking
/// end register written back with its top bit set (a write the protect
/// bit may drop), then the vertical sync end register written back with
/// its protect bit cleared.
pub open spec fn crtc_unlocked(registers: Seq<u8>) -> Seq<u8> {
    let a = crate::registers::crtc_controller::crtc_write_effect(
        registers,
        3,
        registers[3] | 0x80,
    );
    crate::registers::crtc_controller::crtc_write_effect(a, 0x11, a[0x11] & 0x7F)
}

/// What one full register programming pass leaves behind: the MSR holds
/// the mode's miscellaneous byte, each file holds its write list folded
/// over its previous contents (the CRTC first unlocked), the attribute
/// controller ends unblanked, and nothing else moves.
pub open spec fn set_registers_post(
    pre: Vga,
    post: Vga,
    c: crate::configurations::ConfigurationSpec,
) -> bool {
    &&& post.general_registers.msr == c.miscellaneous_output
    &&& post.sequencer_registers.registers@ == crate::registers::apply_reg_writes(
        pre.sequencer_registers.registers@,
        c.sequencer_registers,
    )
    &&& post.crtc_controller_registers.registers@
        == crate::registers::crtc_controller::apply_crtc_writes(
        crtc_unlocked(pre.crtc_controller_registers.registers@),
        c.crtc_controller_registers,
    )
    &&& post.graphics_controller_registers.registers@ == crate::registers::apply_reg_writes(
        pre.graphics_controller_registers.registers@,
        c.graphics_controller_registers,
    )
    &&& post.attribute_controller_registers.registers@ == crate::registers::apply_reg_writes(
        pre.attribute_controller_registers.registers@,
        c.attribute_controller_registers,
    )
    &&& post.attribute_controller_registers.address & 0x20 != 0
    &&& post.color_palette_registers == pre.color_palette_registers
    &&& post.most_recent_video_mode == pre.most_recent_video_mode
    &&& post.video_memory_start == pre.video_memory_start
    &&& post.plane0 == pre.plane0
    &&& post.plane1 == pre.plane1
    &&& post.plane2 == pre.plane2
    &&& post.plane3 == pre.plane3
    &&& post.latch0 == pre.latch0
    &&& post.latch1 == pre.latch1
    &&& post.latch2 == pre.latch2
    &&& post.latch3 == pre.latch3
    &&& post.linear == pre.linear
}

/// Every register pair of a configuration reads back as written.
pub open spec fn register_readback_holds(
    v: Vga,
    c: crate::configurations::ConfigurationSpec,
) -> bool {
    &&& v.general_registers.msr == c.miscellaneous_output
    &&& forall|k: int|
        0 <= k < c.sequencer_registers.len() ==> v.seq_reg(
            (#[trigger] c.sequencer_registers[k]).0 as int,
        ) == c.sequencer_registers[k].1
    &&& forall|k: int|
        0 <= k < c.crtc_controller_registers.len() ==> v.crtc_reg(
            (#[trigger] c.crtc_controller_registers[k]).0 as int,
        ) == c.crtc_controller_registers[k].1
    &&& forall|k: int|
        0 <= k < c.graphics_controller_registers.len() ==> v.gfx_reg(
            (#[trigger] c.graphics_controller_registers[k]).0 as int,
        ) == c.graphics_controller_registers[k].1
    &&& forall|k: int|
        0 <= k < c.attribute_controller_registers.len() ==> v.attr_reg(
            (#[trigger] c.attribute_controller_registers[k]).0 as int,
        ) == c.attribute_controller_registers[k].1
}

/// After a mode switch, the emulation mode is the low bit of the mode's
/// miscellaneous output byte.
pub proof fn lemma_emulation_mode_consistency(v: Vga, mode: VideoMode)
    requires
        register_readback_holds(v, crate::configurations::mode_configuration(mode)),
    ensures
        crate::registers::emulation_mode_of_msr(v.general_registers.msr)
            == crate::registers::emulation_mode_of_msr(
            crate::configurations::mode_configuration(mode).miscellaneous_output,
        ),
{
}

impl Vga {
    /// Unlocks CRTC registers 0 through 7 by clearing the protect bit:
    /// reads the horizontal blanking end register back with bit 7 set
    /// (ignored on modern hardware, kept for older parts), then the
    /// vertical sync end register back with bit 7 cleared.
    fn unlock_crtc_registers(&mut self, emulation_mode: EmulationMode)
        requires
            old(self).wf(),
        ensures
            final(self).wf(),
            final(self).crtc_controller_registers.registers@ == crtc_unlocked(
                old(self).crtc_controller_registers.registers@,
            ),
            *final(self) == (Vga {
                crtc_controller_registers: final(self).crtc_controller_registers,
                ..*old(self)
            }),
    {
        let horizontal_blanking_end = self.crtc_controller_registers.read(
            emulation_mode,
            crate::registers::CrtcControllerIndex::HorizontalBlankingEnd,
        );
        self.crtc_controller_registers.write(
            emulation_mode,
            crate::registers::CrtcControllerIndex::HorizontalBlankingEnd,
            horizontal_blanking_end | 0x80,
        );
        let vertical_sync_end = self.crtc_controller_registers.read(
            emulation_mode,
            crate::registers::CrtcControllerIndex::VerticalSyncEnd,
        );
        self.crtc_controller_registers.write(
            emulation_mode,
            crate::registers::CrtcControllerIndex::VerticalSyncEnd,
            vertical_sync_end & 0x7F,
        );
    }

    /// Programs one mode configuration into every register file, in the
    /// order the hardware requires: miscellaneous output first, then the
    /// sequencer, the unlocked CRTC, the graphics controller, and the
    /// attribute controller between a blank and an unblank.
    fn set_registers(&mut self, configuration: &crate::configurations::VgaConfiguration)
        requires
            old(self).wf(),
            crate::configurations::configuration_wf(configuration@),
        ensures
            final(self).wf(),
            set_registers_post(*old(self), *final(self), configuration@),
    {
        self.general_registers.write_msr(configuration.miscellaneous_output);
        let emulation_mode = self.get_emulation_mode();
        proof {
            crate::configurations::lemma_below_pairwise(configuration@.sequencer_registers, 8);
            crate::configurations::lemma_below_pairwise(
                configuration@.crtc_controller_registers,
                37,
            );
            crate::configurations::lemma_below_pairwise(
                configuration@.graphics_controller_registers,
                25,
            );
            crate::configurations::lemma_below_pairwise(
                configuration@.attribute_controller_registers,
                21,
            );
        }
        self.sequencer_registers.write_list(&configuration.sequencer_registers);
        self.unlock_crtc_registers(emulation_mode);
        self.crtc_controller_registers.write_list(
            emulation_mode,
            &configuration.crtc_controller_registers,
        );
        self.graphics_controller_registers.write_list(
            &configuration.graphics_controller_registers,
        );
        self.attribute_controller_registers.blank_screen(emulation_mode);
        self.attribute_controller_registers.write_list(
            emulation_mode,
            &configuration.attribute_controller_registers,
        );
        self.attribute_controller_registers.unblank_screen(emulation_mode);
        proof {
            let addr = final(self).attribute_controller_registers.address;
            assert(forall|x: u8| (x | 0x20) & 0x20 != 0) by (bit_vector);
        }
    }

    /// Switches the adapter to `mode`: programs the mode's full register
    /// table and records the mode.  Afterwards every configured register
    /// reads back as its table value, whatever state the adapter was in.
    pub fn set_video_mode(&mut self, mode: VideoMode)
        requires
            old(self).wf(),
        ensures
            final(self).wf(),
            register_readback_holds(
                *final(self),
                crate::configurations::mode_configuration(mode),
            ),
            set_registers_post(
                Vga { most_recent_video_mode: old(self).most_recent_video_mode, ..*old(self) },
                Vga { most_recent_video_mode: old(self).most_recent_video_mode, ..*final(self) },
                crate::configurations::mode_configuration(mode),
            ),
            final(self).most_recent_video_mode == Some(mode),
    {
        let configuration = crate::configurations::get_configuration(mode);
        proof {
            crate::configurations::lemma_mode_configuration_wf(mode);
        }
        self.set_registers(&configuration);
        self.most_recent_video_mode = Some(mode);
        proof {
            let c = crate::configurations::mode_configuration(mode);
            crate::configurations::lemma_ascending_pairwise(c.sequencer_registers);
            crate::configurations::lemma_below_pairwise(c.sequencer_registers, 8);
            crate::registers::lemma_apply_reg_writes_readback(
                old(self).sequencer_registers.registers@,
                c.sequencer_registers,
            );
            crate::configurations::lemma_ascending_pairwise(c.graphics_controller_registers);
            crate::configurations::lemma_below_pairwise(c.graphics_controller_registers, 25);
            crate::registers::lemma_apply_reg_writes_readback(
                old(self).graphics_controller_registers.registers@,
                c.graphics_controller_registers,
            );
            crate::configurations::lemma_ascending_pairwise(c.attribute_controller_registers);
            crate::configurations::lemma_below_pairwise(c.attribute_controller_registers, 21);
            crate::registers::lemma_apply_reg_writes_readback(
                old(self).attribute_controller_registers.registers@,
                c.attribute_controller_registers,
            );
            crate::configurations::lemma_ascending_pairwise(c.crtc_controller_registers);
            crate::configurations::lemma_below_pairwise(c.crtc_controller_registers, 37);
            let unlocked = crtc_unlocked(old(self).crtc_controller_registers.registers@);
            assert(forall|x: u8| (x & 0x7F) & 0x80 == 0) by (bit_vector);
            assert(!crate::registers::crtc_controller::crtc_protected(unlocked));
            crate::registers::crtc_controller::lemma_apply_crtc_writes_readback(
                unlocked,
                c.crtc_controller_registers,
            );
        }
    }
}

impl Vga {
    /// Loads a text-mode font into plane 2: saves the five addressing
    /// registers, switches to flat planar addressing restricted to plane
    /// 2, stores each glyph into its 32-byte slot, and restores the
    /// registers.  The caller has the write path in its text-mode state:
    /// write mode 0, no rotate, set/reset off, bit mask open, chain-4
    /// off.
    pub fn load_font(&mut self, vga_font: &crate::fonts::VgaFont)
        requires
            old(self).wf(),
            vga_font.wf(),
            old(self).seq_reg(4) & 0x08 == 0,
            old(self).gfx_reg(5) & 3 == 0,
            old(self).gfx_reg(1) & 0x0F == 0,
            old(self).gfx_reg(3) & 7 == 0,
            old(self).gfx_reg(8) == 0xFF,
        ensures
            final(self).wf(),
            final(self).sequencer_registers.registers@ == old(self).sequencer_registers.registers@,
            final(self).graphics_controller_registers.registers@ == old(
                self,
            ).graphics_controller_registers.registers@,
            final(self).general_registers == old(self).general_registers,
            final(self).attribute_controller_registers == old(self).attribute_controller_registers,
            final(self).crtc_controller_registers == old(self).crtc_controller_registers,
            final(self).color_palette_registers == old(self).color_palette_registers,
            final(self).most_recent_video_mode == old(self).most_recent_video_mode,
            final(self).video_memory_start == old(self).video_memory_start,
            final(self).linear == old(self).linear,
            final(self).latch0 == old(self).latch0,
            final(self).latch1 == old(self).latch1,
            final(self).latch2 == old(self).latch2,
            final(self).latch3 == old(self).latch3,
            final(self).plane(0) == old(self).plane(0),
            final(self).plane(1) == old(self).plane(1),
            final(self).plane(3) == old(self).plane(3),
            forall|o: int|
                0 <= o < PLANE_SIZE ==> final(self).plane(2)[o] == (if o / 32
                    < vga_font.characters && o % 32 < vga_font.character_height {
                    vga_font.data@[(o / 32) * vga_font.character_height + o % 32]
                } else {
                    old(self).plane(2)[o]
                }),
    {
        let (plane_mask, sequencer_memory_mode, read_plane_select, graphics_mode,
            miscellaneous_graphics) = self.save_font_registers();

        // Switch to flat addressing.
        self.sequencer_registers.write(
            crate::registers::SequencerIndex::MemoryMode,
            sequencer_memory_mode | 0x04,
        );

        // Disable odd/even addressing.
        self.graphics_controller_registers.write(
            crate::registers::GraphicsControllerIndex::GraphicsMode,
            graphics_mode & 0xEF,
        );
        self.graphics_controller_registers.write(
            crate::registers::GraphicsControllerIndex::Miscellaneous,
            miscellaneous_graphics & 0xFD,
        );

        // Restrict writes to plane 2.
        self.sequencer_registers.set_plane_mask(crate::registers::PlaneMask::plane2());

        let ghost setup = *self;
        proof {
            let s4 = setup.seq_reg(4);
            let s2 = setup.seq_reg(2);
            let o4 = old(self).seq_reg(4);
            let o2 = old(self).seq_reg(2);
            assert(s4 == (o4 | 0x04) && s2 == ((o2 & 0xF0) | 0x04));
            assert((o4 | 0x04) & 0x08 == 0 && (o4 | 0x04) & 0x04 != 0) by (bit_vector)
                requires
                    o4 & 0x08 == 0,
            ;
            lemma_rmw_low_nibble(o2, 0x04);
            assert(forall|o: int| setup.write_plane_enable(o) == 0x04);
            lemma_low_bits(0x04);
            lemma_mask_table();
            let g5 = setup.gfx_reg(5);
            let g1 = setup.gfx_reg(1);
            let og5 = old(self).gfx_reg(5);
            assert(g5 == (og5 & 0xEF));
            assert((og5 & 0xEF) & 3 == 0) by (bit_vector)
                requires
                    og5 & 3 == 0,
            ;
            assert forall|b: u8, latch: u8| #[trigger] setup.write_result(2, b, latch) == b by {
                lemma_plain_write_result(setup, 2, b, latch);
            }
        }

        // Store each glyph into its 32-byte slot in plane 2.
        let characters = vga_font.characters;
        let character_height = vga_font.character_height;
        let mut character: usize = 0;
        while character < characters
            invariant
                self.wf(),
                vga_font.wf(),
                characters == vga_font.characters,
                character_height == vga_font.character_height,
                character <= characters,
                same_but_planes(setup, *self),
                forall|o: int| setup.write_plane_enable(o) == 0x04,
                !bit8(0x04, 0) && bit8(0x04, 2) && !bit8(0x04, 1) && !bit8(0x04, 3),
                forall|b: u8, latch: u8| #[trigger] setup.write_result(2, b, latch) == b,
                self.plane(0) == setup.plane(0),
                self.plane(1) == setup.plane(1),
                self.plane(3) == setup.plane(3),
                forall|o: int|
                    0 <= o < PLANE_SIZE ==> self.plane(2)[o] == (if o / 32 < character && o % 32
                        < character_height {
                        vga_font.data@[(o / 32) * character_height + o % 32]
                    } else {
                        setup.plane(2)[o]
                    }),
            decreases characters - character,
        {
            let mut row: usize = 0;
            while row < character_height
                invariant
                    self.wf(),
                    vga_font.wf(),
                    characters == vga_font.characters,
                    character_height == vga_font.character_height,
                    character < characters,
                    row <= character_height,
                    same_but_planes(setup, *self),
                    forall|o: int| setup.write_plane_enable(o) == 0x04,
                    !bit8(0x04, 0) && bit8(0x04, 2) && !bit8(0x04, 1) && !bit8(0x04, 3),
                    forall|b: u8, latch: u8| #[trigger] setup.write_result(2, b, latch) == b,
                    self.plane(0) == setup.plane(0),
                    self.plane(1) == setup.plane(1),
                    self.plane(3) == setup.plane(3),
                    forall|o: int|
                        0 <= o < PLANE_SIZE ==> self.plane(2)[o] == (if (o / 32 < character && o
                            % 32 < character_height) || (o / 32 == character && o % 32 < row) {
                            vga_font.data@[(o / 32) * character_height + o % 32]
                        } else {
                            setup.plane(2)[o]
                        }),
                decreases character_height - row,
            {
                proof {
                    assert(character * 32 + row < 65536 && (character * 32 + row) / 32 == character
                        && (character * 32 + row) % 32 == row && character * character_height + row
                        < vga_font.characters * vga_font.character_height && character
                        * character_height + row < 65536) by (nonlinear_arith)
                        requires
                            0 <= character < vga_font.characters,
                            0 <= row < character_height,
                            character_height == vga_font.character_height,
                            vga_font.characters <= 2048,
                            character_height <= 32,
                    ;
                }
                let offset = character * 32 + row;
                let font_offset = character * character_height + row;
                let byte = vga_font.data[font_offset];
                proof {
                    assert(self.write_plane_enable(offset as int) == setup.write_plane_enable(
                        offset as int,
                    ));
                    assert(self.write_result(2, byte, self.latch(2)) == setup.write_result(
                        2,
                        byte,
                        self.latch(2),
                    ));
                    assert(setup.write_result(2, byte, self.latch(2)) == byte);
                }
                self.vram_write(offset, byte);
                row = row + 1;
            }
            character = character + 1;
        }

        let ghost done = *self;
        self.restore_font_registers(
            plane_mask,
            sequencer_memory_mode,
            read_plane_select,
            graphics_mode,
            miscellaneous_graphics,
        );
        proof {
            assert(final(self).sequencer_registers.registers@ =~= old(
                self,
            ).sequencer_registers.registers@);
            assert(final(self).graphics_controller_registers.registers@ =~= old(
                self,
            ).graphics_controller_registers.registers@);
            assert(setup.plane(2) == old(self).plane(2));
            assert forall|o: int| 0 <= o < PLANE_SIZE implies final(self).plane(2)[o] == (if o / 32
                < vga_font.characters && o % 32 < vga_font.character_height {
                vga_font.data@[(o / 32) * vga_font.character_height + o % 32]
            } else {
                old(self).plane(2)[o]
            }) by {
                assert(final(self).plane(2) == done.plane(2));
                assert(done.plane(2)[o] == (if o / 32 < vga_font.characters && o % 32
                    < vga_font.character_height {
                    vga_font.data@[(o / 32) * vga_font.character_height + o % 32]
                } else {
                    setup.plane(2)[o]
                }));
            }
        }
    }

    /// Reads the five registers the font upload changes, in the order
    /// they are restored.
    fn save_font_registers(&mut self) -> (r: (u8, u8, u8, u8, u8))
        requires
            old(self).wf(),
        ensures
            final(self).wf(),
            r.0 == old(self).seq_reg(2),
            r.1 == old(self).seq_reg(4),
            r.2 == old(self).gfx_reg(4),
            r.3 == old(self).gfx_reg(5),
            r.4 == old(self).gfx_reg(6),
            final(self).sequencer_registers.registers == old(self).sequencer_registers.registers,
            final(self).graphics_controller_registers.registers == old(
                self,
            ).graphics_controller_registers.registers,
            *final(self) == (Vga {
                sequencer_registers: final(self).sequencer_registers,
                graphics_controller_registers: final(self).graphics_controller_registers,
                ..*old(self)
            }),
    {
        let plane_mask = self.sequencer_registers.read(crate::registers::SequencerIndex::PlaneMask);
        let memory_mode = self.sequencer_registers.read(crate::registers::SequencerIndex::MemoryMode);
        let read_plane_select = self.graphics_controller_registers.read(
            crate::registers::GraphicsControllerIndex::ReadPlaneSelect,
        );
        let graphics_mode = self.graphics_controller_registers.read(
            crate::registers::GraphicsControllerIndex::GraphicsMode,
        );
        let miscellaneous_graphics = self.graphics_controller_registers.read(
            crate::registers::GraphicsControllerIndex::Miscellaneous,
        );
        (plane_mask, memory_mode, read_plane_select, graphics_mode, miscellaneous_graphics)
    }

    /// Writes the five saved registers back, in reverse order of the
    /// changes the upload made.
    fn restore_font_registers(
        &mut self,
        plane_mask: u8,
        sequencer_memory_mode: u8,
        read_plane_select: u8,
        graphics_mode: u8,
        miscellaneous_graphics: u8,
    )
        requires
            old(self).wf(),
        ensures
            final(self).wf(),
            final(self).sequencer_registers.registers@ == old(
                self,
            ).sequencer_registers.registers@.update(2, plane_mask).update(
                4,
                sequencer_memory_mode,
            ),
            final(self).graphics_controller_registers.registers@ == old(
                self,
            ).graphics_controller_registers.registers@.update(4, read_plane_select).update(
                5,
                graphics_mode,
            ).update(6, miscellaneous_graphics),
            *final(self) == (Vga {
                sequencer_registers: final(self).sequencer_registers,
                graphics_controller_registers: final(self).graphics_controller_registers,
                ..*old(self)
            }),
    {
        self.sequencer_registers.write(crate::registers::SequencerIndex::PlaneMask, plane_mask);
        self.sequencer_registers.write(
            crate::registers::SequencerIndex::MemoryMode,
            sequencer_memory_mode,
        );
        self.graphics_controller_registers.write(
            crate::registers::GraphicsControllerIndex::ReadPlaneSelect,
            read_plane_select,
        );
        self.graphics_controller_registers.write(
            crate::registers::GraphicsControllerIndex::GraphicsMode,
            graphics_mode,
        );
        self.graphics_controller_registers.write(
            crate::registers::GraphicsControllerIndex::Miscellaneous,
            miscellaneous_graphics,
        );
    }
}

/// Under write mode 0 with no rotate, set/reset off and an open bit
/// mask, a CPU write stores its byte unchanged.
pub proof fn lemma_plain_write_result(v: Vga, p: int, b: u8, latch: u8)
    requires
        0 <= p < 4,
        v.gfx_reg(5) & 3 == 0,
        v.gfx_reg(3) & 7 == 0,
        v.gfx_reg(1) & 0x0F == 0,
        v.gfx_reg(8) == 0xFF,
    ensures
        v.write_result(p, b, latch) == b,
{
    let g1 = v.gfx_reg(1);
    assert(g1 & 1 == 0 && g1 & 2 == 0 && g1 & 4 == 0 && g1 & 8 == 0) by (bit_vector)
        requires
            g1 & 0x0F == 0,
    ;
    lemma_low_bits(g1);
    lemma_ror8_zero_all();
    lemma_merge_full_all();
}

/// Under write mode 2 with latches freshly loaded from the target byte,
/// a CPU write of a color changes exactly the bits the bit mask opens:
/// opened bits take the color's bit for their plane, the rest keep the
/// byte that was read.
pub proof fn lemma_mode2_write_result(v: Vga, p: int, b: u8, latch: u8, i: int)
    requires
        0 <= p < 4,
        0 <= i < 8,
        v.gfx_reg(5) & 3 == 2,
    ensures
        bit8(v.write_result(p, b, latch), i) == (if bit8(v.gfx_reg(8), i) {
            bit8(b, p)
        } else {
            bit8(latch, i)
        }),
{
    let mask = v.gfx_reg(8);
    let data = expand_bit(bit8(b, p));
    let iu = i as u8;
    assert(bit8(merge_bits(mask, data, latch), i) == (if bit8(mask, i) {
        bit8(data, i)
    } else {
        bit8(latch, i)
    })) by {
        assert((((mask & data) | (!mask & latch)) >> iu) & 1 == (if (mask >> iu) & 1 == 1 {
            (data >> iu) & 1
        } else {
            (latch >> iu) & 1
        })) by (bit_vector);
    }
    lemma_expand_table();
    assert(bit8(data, i) == bit8(b, p));
}

/// Under write mode 0 with set/reset enabled on all planes and no
/// rotate, a CPU write changes exactly the bits the bit mask opens:
/// opened bits take the set/reset color's bit for their plane, the rest
/// keep the latched byte.
pub proof fn lemma_set_reset_write_result(v: Vga, p: int, b: u8, latch: u8, i: int)
    requires
        0 <= p < 4,
        0 <= i < 8,
        v.gfx_reg(5) & 3 == 0,
        v.gfx_reg(1) & 0x0F == 0x0F,
    ensures
        bit8(v.write_result(p, b, latch), i) == (if bit8(v.gfx_reg(8), i) {
            bit8(v.gfx_reg(0), p)
        } else {
            bit8(latch, i)
        }),
{
    let g1 = v.gfx_reg(1);
    assert(g1 & 1 != 0 && g1 & 2 != 0 && g1 & 4 != 0 && g1 & 8 != 0) by (bit_vector)
        requires
            g1 & 0x0F == 0x0F,
    ;
    lemma_low_bits(g1);
    let mask = v.gfx_reg(8);
    let data = expand_bit(bit8(v.gfx_reg(0), p));
    let iu = i as u8;
    assert(bit8(merge_bits(mask, data, latch), i) == (if bit8(mask, i) {
        bit8(data, i)
    } else {
        bit8(latch, i)
    })) by {
        assert((((mask & data) | (!mask & latch)) >> iu) & 1 == (if (mask >> iu) & 1 == 1 {
            (data >> iu) & 1
        } else {
            (latch >> iu) & 1
        })) by (bit_vector);
    }
    lemma_expand_table();
    assert(bit8(data, i) == bit8(v.gfx_reg(0), p));
}

/// A color nibble is rebuilt exactly from its four bits.
pub proof fn lemma_nibble_bits(c: u8)
    requires
        c < 16,
    ensures
        c == ((if bit8(c, 0) {
            1u8
        } else {
            0u8
        }) | (if bit8(c, 1) {
            2u8
        } else {
            0u8
        }) | (if bit8(c, 2) {
            4u8
        } else {
            0u8
        }) | (if bit8(c, 3) {
            8u8
        } else {
            0u8
        })),
{
    lemma_low_bits(c);
    assert(c == ((if c & 1 != 0 {
        1u8
    } else {
        0u8
    }) | (if c & 2 != 0 {
        2u8
    } else {
        0u8
    }) | (if c & 4 != 0 {
        4u8
    } else {
        0u8
    }) | (if c & 8 != 0 {
        8u8
    } else {
        0u8
    }))) by (bit_vector)
        requires
            c < 16,
    ;
}

/// The frame buffer `get_frame_buffer` returns, from the memory-map
/// select bits.
pub open spec fn spec_frame_buffer(v: Vga) -> FrameBuffer {
    let mode = (v.gfx_reg(6) >> 2) & 3;
    if mode == 1 {
        FrameBuffer::GraphicsMode(v.video_memory_start)
    } else if mode == 2 {
        FrameBuffer::MdaMode((v.video_memory_start + 0x10000) as usize)
    } else {
        FrameBuffer::CgaMode((v.video_memory_start + 0x18000) as usize)
    }
}

} // verus!
