//! The Bochs VBE DISPI adapter: found by a PCI scan, programmed
//! through a 16-bit index/data port pair, and drawn to through its own
//! 32-bpp linear frame buffer.  It shares nothing with the VGA core.

use super::pci::{find_pci_device, space_has_id, PciConfigSpace, PciDevice, BOCHS_ID};
use crate::drawing::bresenham::{
    bres_points, lemma_bresenham_axis_points, lemma_bresenham_shape, Bresenham,
};
use crate::drawing::octant::COORDINATE_LIMIT;
use crate::drawing::{point_int, rect_outline_contains, Point, Rectangle};
use crate::fonts::glyph_rows;
use crate::writers::graphics_320x200x256::glyph_pixel;
use vstd::pervasive::VecAdditionalExecFns;
use vstd::prelude::*;

verus! {

/// A display resolution in pixels.
#[derive(Debug, Copy, Clone, PartialEq, Eq, Structural)]
pub struct Resolution {
    /// Width in pixels.
    pub width: usize,
    /// Height in pixels.
    pub height: usize,
}

impl Resolution {
    /// A resolution from its width and height.
    pub fn new(width: usize, height: usize) -> (r: Resolution)
        ensures
            r == (Resolution { width, height }),
    {
        Resolution { width, height }
    }
}

/// The Bochs adapter: its DISPI registers, the capability ceiling the
/// device reports, the PCI header it was found with, its frame buffer
/// addresses, and the frame buffer contents.
#[derive(Debug)]
pub struct BochsDevice {
    /// The latched DISPI register index.
    pub index: u16,
    /// The X resolution register.
    pub xres: u16,
    /// The Y resolution register.
    pub yres: u16,
    /// The bits-per-pixel register.
    pub bpp: u16,
    /// The enable register.
    pub enable: u16,
    /// The maximum resolution the adapter reports for capability reads.
    pub caps: Resolution,
    /// The PCI header the scan found.
    pub pci_device: PciDevice,
    /// The physical frame buffer base from BAR 0.
    pub physical_address: u64,
    /// The virtual address drawing goes through; the physical base
    /// until the caller remaps it.
    pub virtual_address: u64,
    /// The resolution most recently programmed.
    pub current_resolution: Resolution,
    /// The 32-bpp frame buffer contents.
    pub frame_buffer: Vec<u32>,
}

/// The 32-bpp pixel at `(x, y)` of the adapter's frame buffer.
pub open spec fn bochs_pixel(d: BochsDevice, x: int, y: int) -> u32 {
    d.frame_buffer@[d.current_resolution.width * y + x]
}

/// All state but the frame buffer contents is unchanged.
pub open spec fn same_but_frame_buffer(pre: BochsDevice, post: BochsDevice) -> bool {
    &&& post.index == pre.index
    &&& post.xres == pre.xres
    &&& post.yres == pre.yres
    &&& post.bpp == pre.bpp
    &&& post.enable == pre.enable
    &&& post.caps == pre.caps
    &&& post.pci_device == pre.pci_device
    &&& post.physical_address == pre.physical_address
    &&& post.virtual_address == pre.virtual_address
    &&& post.current_resolution == pre.current_resolution
}

impl BochsDevice {
    /// The frame buffer covers the programmed resolution, which stays
    /// within the 16-bit DISPI registers and the line walker's range.
    pub open spec fn wf(&self) -> bool {
        &&& self.frame_buffer@.len() == self.current_resolution.width
            * self.current_resolution.height
        &&& self.current_resolution.width <= 0xFFFF
        &&& self.current_resolution.height <= 0xFFFF
    }

    /// Finds the adapter on the PCI bus and takes its frame buffer base
    /// from BAR 0.  `capabilities` is the resolution ceiling the
    /// adapter was built with; capability reads report it.  The caller
    /// has established that the adapter is present.
    pub fn new(space: &PciConfigSpace, capabilities: Resolution) -> (r: BochsDevice)
        requires
            space.wf(),
            space_has_id(space.devices@, BOCHS_ID),
            capabilities.width <= 0xFFFF,
            capabilities.height <= 0xFFFF,
        ensures
            r.wf(),
            r.caps == capabilities,
            r.current_resolution == (Resolution { width: 0, height: 0 }),
            r.physical_address == r.pci_device.base_addresses@[0] & 0xFFFF_FFF0,
            r.virtual_address == r.physical_address,
    {
        let found = find_pci_device(space, BOCHS_ID);
        let pci_device = found.unwrap();
        let base_address = pci_device.base_addresses[0] & 0xFFFF_FFF0;
        let physical_address = base_address as u64;
        let virtual_address = base_address as u64;
        proof {
            assert(0int * 0 == 0) by (nonlinear_arith);
        }
        BochsDevice {
            index: 0,
            xres: 0,
            yres: 0,
            bpp: 0,
            enable: 0,
            caps: capabilities,
            pci_device,
            physical_address,
            virtual_address,
            current_resolution: Resolution { width: 0, height: 0 },
            frame_buffer: Vec::new(),
        }
    }

    /// The physical address the frame buffer is mapped to.
    pub fn physical_address(&self) -> (r: u64)
        ensures
            r == self.physical_address,
    {
        self.physical_address
    }

    /// The virtual address drawing goes through.
    pub fn virtual_address(&self) -> (r: u64)
        ensures
            r == self.virtual_address,
    {
        self.virtual_address
    }

    /// Tells the driver where the frame buffer was remapped.
    pub fn set_virtual_address(&mut self, virtual_address: u64)
        ensures
            *final(self) == (BochsDevice { virtual_address, ..*old(self) }),
    {
        self.virtual_address = virtual_address;
    }

    /// One write to the DISPI data port: stores to the register the
    /// latched index names.
    fn data_write(&mut self, value: u16)
        ensures
            *final(self) == (BochsDevice {
                xres: if old(self).index == 1 {
                    value
                } else {
                    old(self).xres
                },
                yres: if old(self).index == 2 {
                    value
                } else {
                    old(self).yres
                },
                bpp: if old(self).index == 3 {
                    value
                } else {
                    old(self).bpp
                },
                enable: if old(self).index == 4 {
                    value
                } else {
                    old(self).enable
                },
                ..*old(self)
            }),
    {
        match self.index {
            1 => self.xres = value,
            2 => self.yres = value,
            3 => self.bpp = value,
            4 => self.enable = value,
            _ => (),
        }
    }

    /// One read from the DISPI data port.  While the capability bit is
    /// set in the enable register, the resolution registers report the
    /// adapter's ceiling instead of their contents.
    fn data_read(&self) -> (r: u16)
        requires
            self.caps.width <= 0xFFFF,
            self.caps.height <= 0xFFFF,
        ensures
            r == spec_data_read(*self),
    {
        match self.index {
            1 => if self.enable & 0x02 != 0 {
                self.caps.width as u16
            } else {
                self.xres
            },
            2 => if self.enable & 0x02 != 0 {
                self.caps.height as u16
            } else {
                self.yres
            },
            3 => self.bpp,
            4 => self.enable,
            _ => 0,
        }
    }

    /// Reads the maximum resolution the adapter supports, preserving
    /// the enable register: the capability bit is set, both resolution
    /// registers read, and the old enable value written back.
    pub fn capabilities(&mut self) -> (r: Resolution)
        requires
            old(self).wf(),
            old(self).caps.width <= 0xFFFF,
            old(self).caps.height <= 0xFFFF,
        ensures
            final(self).wf(),
            r == old(self).caps,
            *final(self) == (BochsDevice { index: 4, ..*old(self) }),
    {
        // Save the current enable value and request capability reads.
        self.index = 4;
        let original_value = self.data_read();
        self.data_write(0x02);
        proof {
            crate::vga::lemma_mask_table();
        }

        // Read the ceiling.
        self.index = 1;
        let width = self.data_read() as usize;
        self.index = 2;
        let height = self.data_read() as usize;

        // Restore the enable register.
        self.index = 4;
        self.data_write(original_value);

        Resolution { width, height }
    }

    /// Disables the display: zero to the enable register.
    fn disable_display(&mut self)
        ensures
            *final(self) == (BochsDevice { index: 4, enable: 0, ..*old(self) }),
    {
        self.index = 4;
        self.data_write(0);
    }

    /// Enables the display with the linear frame buffer: enable and LFB
    /// bits to the enable register.
    fn enable_display(&mut self)
        ensures
            *final(self) == (BochsDevice { index: 4, enable: 0x41, ..*old(self) }),
    {
        proof {
            crate::vga::lemma_mask_table();
        }
        self.index = 4;
        self.data_write(0x01 | 0x40);
    }

    /// The resolution the DISPI registers currently hold.
    pub fn current_resolution(&mut self) -> (r: Resolution)
        requires
            old(self).caps.width <= 0xFFFF,
            old(self).caps.height <= 0xFFFF,
            old(self).enable & 0x02 == 0,
        ensures
            *final(self) == (BochsDevice { index: 2, ..*old(self) }),
            r.width == old(self).xres,
            r.height == old(self).yres,
    {
        let width = self.get_width();
        let height = self.get_height();
        Resolution { width, height }
    }

    /// Reads the X resolution register.
    fn get_width(&mut self) -> (r: usize)
        requires
            old(self).caps.width <= 0xFFFF,
            old(self).caps.height <= 0xFFFF,
            old(self).enable & 0x02 == 0,
        ensures
            *final(self) == (BochsDevice { index: 1, ..*old(self) }),
            r == old(self).xres,
    {
        self.index = 1;
        self.data_read() as usize
    }

    /// Reads the Y resolution register.
    fn get_height(&mut self) -> (r: usize)
        requires
            old(self).caps.width <= 0xFFFF,
            old(self).caps.height <= 0xFFFF,
            old(self).enable & 0x02 == 0,
        ensures
            *final(self) == (BochsDevice { index: 2, ..*old(self) }),
            r == old(self).yres,
    {
        self.index = 2;
        self.data_read() as usize
    }

    /// Writes the X resolution register.
    fn set_width(&mut self, width: usize)
        requires
            width <= 0xFFFF,
        ensures
            *final(self) == (BochsDevice { index: 1, xres: width as u16, ..*old(self) }),
    {
        self.index = 1;
        self.data_write(width as u16);
    }

    /// Writes the Y resolution register.
    fn set_height(&mut self, height: usize)
        requires
            height <= 0xFFFF,
        ensures
            *final(self) == (BochsDevice { index: 2, yres: height as u16, ..*old(self) }),
    {
        self.index = 2;
        self.data_write(height as u16);
    }

    /// Writes the bits-per-pixel register: always 32.
    fn set_bpp(&mut self)
        ensures
            *final(self) == (BochsDevice { index: 3, bpp: 0x20, ..*old(self) }),
    {
        self.index = 3;
        self.data_write(0x20);
    }

    /// Programs the adapter to `resolution`: display disabled, both
    /// resolution registers and the depth written, display re-enabled
    /// with the linear frame buffer.  The frame buffer is re-sized to
    /// the new resolution and cleared.
    pub fn set_resolution(&mut self, resolution: Resolution)
        requires
            old(self).wf(),
            resolution.width <= 0xFFFF,
            resolution.height <= 0xFFFF,
        ensures
            final(self).wf(),
            *final(self) == (BochsDevice {
                index: 4,
                xres: resolution.width as u16,
                yres: resolution.height as u16,
                bpp: 0x20,
                enable: 0x41,
                current_resolution: resolution,
                frame_buffer: final(self).frame_buffer,
                ..*old(self)
            }),
            final(self).frame_buffer@.len() == resolution.width * resolution.height,
            forall|k: int|
                0 <= k < resolution.width * resolution.height ==> final(self).frame_buffer@[k]
                    == 0,
    {
        self.disable_display();
        self.set_width(resolution.width);
        self.set_height(resolution.height);
        self.set_bpp();
        self.enable_display();
        self.current_resolution = resolution;
        proof {
            assert(resolution.width * resolution.height <= 0xFFFF * 0xFFFF) by (nonlinear_arith)
                requires
                    resolution.width <= 0xFFFF,
                    resolution.height <= 0xFFFF,
            ;
        }
        let pixels = resolution.width * resolution.height;
        let mut frame_buffer: Vec<u32> = Vec::new();
        let mut k: usize = 0;
        while k < pixels
            invariant
                k <= pixels,
                frame_buffer@.len() == k,
                forall|j: int| 0 <= j < k ==> frame_buffer@[j] == 0,
            decreases pixels - k,
        {
            frame_buffer.push(0);
            k = k + 1;
        }
        self.frame_buffer = frame_buffer;
    }

    /// The frame buffer contents.
    pub fn get_frame_buffer(&self) -> (r: &Vec<u32>)
        ensures
            r@ == self.frame_buffer@,
    {
        &self.frame_buffer
    }

    /// Sets the pixel at `(x, y)` to the 32-bit `color`.
    pub fn set_pixel(&mut self, x: usize, y: usize, color: u32)
        requires
            old(self).wf(),
            x < old(self).current_resolution.width,
            y < old(self).current_resolution.height,
        ensures
            final(self).wf(),
            same_but_frame_buffer(*old(self), *final(self)),
            forall|px: int, py: int|
                #![trigger bochs_pixel(*final(self), px, py)]
                0 <= px < old(self).current_resolution.width && 0 <= py < old(
                    self,
                ).current_resolution.height ==> bochs_pixel(*final(self), px, py) == (if px == x
                    && py == y {
                    color
                } else {
                    bochs_pixel(*old(self), px, py)
                }),
    {
        let width = self.current_resolution.width;
        let ghost h = old(self).current_resolution.height;
        proof {
            assert(y * width + x < width * h && width * h <= 0xFFFF * 0xFFFF)
                by (nonlinear_arith)
                requires
                    x < width,
                    y < h,
                    width <= 0xFFFF,
                    h <= 0xFFFF,
            ;
        }
        let offset = y * width + x;
        self.frame_buffer.set(offset, color);
        proof {
            assert forall|px: int, py: int|
                0 <= px < old(self).current_resolution.width && 0 <= py < old(
                    self,
                ).current_resolution.height implies #[trigger] bochs_pixel(*final(self), px, py)
                == (if px == x && py == y {
                color
            } else {
                bochs_pixel(*old(self), px, py)
            }) by {
                assert(0 <= width * py + px && width * py + px < width * h) by (nonlinear_arith)
                    requires
                        0 <= px < width,
                        0 <= py < h,
                ;
                if width * py + px == offset {
                    assert(py == y && px == x) by (nonlinear_arith)
                        requires
                            0 <= px < width,
                            0 <= x < width,
                            0 <= py,
                            0 <= y,
                            offset == y * width + x,
                            width * py + px == offset,
                    ;
                }
                assert(final(self).frame_buffer@ == old(self).frame_buffer@.update(
                    offset as int,
                    color,
                ));
                assert(bochs_pixel(*final(self), px, py) == final(self).frame_buffer@[width * py
                    + px]);
                assert(width * y + x == offset);
            }
        }
    }

    /// Clears the screen: every pixel of the current resolution becomes
    /// `color`.
    pub fn clear_screen(&mut self, color: u32)
        requires
            old(self).wf(),
        ensures
            final(self).wf(),
            same_but_frame_buffer(*old(self), *final(self)),
            forall|k: int|
                0 <= k < old(self).frame_buffer@.len() ==> final(self).frame_buffer@[k] == color,
    {
        let screen_size = self.frame_buffer.len();
        let mut offset: usize = 0;
        while offset < screen_size
            invariant
                offset <= screen_size,
                self.wf(),
                screen_size == self.frame_buffer@.len(),
                same_but_frame_buffer(*old(self), *self),
                forall|k: int| 0 <= k < offset ==> self.frame_buffer@[k] == color,
            decreases screen_size - offset,
        {
            self.frame_buffer.set(offset, color);
            offset = offset + 1;
        }
    }

    /// Fills `rectangle` with `color`, row by row.
    pub fn fill_rectangle(&mut self, rectangle: &Rectangle, color: u32)
        requires
            old(self).wf(),
            rectangle.x + rectangle.width <= old(self).current_resolution.width,
            rectangle.y + rectangle.height <= old(self).current_resolution.height,
        ensures
            final(self).wf(),
            same_but_frame_buffer(*old(self), *final(self)),
            forall|px: int, py: int|
                #![trigger bochs_pixel(*final(self), px, py)]
                0 <= px < old(self).current_resolution.width && 0 <= py < old(
                    self,
                ).current_resolution.height ==> bochs_pixel(*final(self), px, py) == (
                if rectangle.x <= px < rectangle.x + rectangle.width && rectangle.y <= py
                    < rectangle.y + rectangle.height {
                    color
                } else {
                    bochs_pixel(*old(self), px, py)
                }),
    {
        let x0 = rectangle.x;
        let x1 = rectangle.right();
        let y1 = rectangle.bottom();
        let mut y = rectangle.y;
        while y < y1
            invariant
                rectangle.y <= y <= y1,
                x0 == rectangle.x,
                x1 == rectangle.x + rectangle.width,
                y1 == rectangle.y + rectangle.height,
                x1 <= self.current_resolution.width,
                y1 <= self.current_resolution.height,
                self.wf(),
                same_but_frame_buffer(*old(self), *self),
                forall|px: int, py: int|
                    #![trigger bochs_pixel(*self, px, py)]
                    0 <= px < old(self).current_resolution.width && 0 <= py < old(
                        self,
                    ).current_resolution.height ==> bochs_pixel(*self, px, py) == (if x0 <= px < x1
                        && rectangle.y <= py < y {
                        color
                    } else {
                        bochs_pixel(*old(self), px, py)
                    }),
            decreases y1 - y,
        {
            let mut x = x0;
            while x < x1
                invariant
                    x0 <= x <= x1,
                    rectangle.y <= y < y1,
                    x1 <= self.current_resolution.width,
                    y1 <= self.current_resolution.height,
                    self.wf(),
                    same_but_frame_buffer(*old(self), *self),
                    forall|px: int, py: int|
                        #![trigger bochs_pixel(*self, px, py)]
                        0 <= px < old(self).current_resolution.width && 0 <= py < old(
                            self,
                        ).current_resolution.height ==> bochs_pixel(*self, px, py) == (if (x0 <= px
                            < x1 && rectangle.y <= py < y) || (py == y && x0 <= px < x) {
                            color
                        } else {
                            bochs_pixel(*old(self), px, py)
                        }),
                decreases x1 - x,
            {
                let ghost prev = *self;
                self.set_pixel(x, y, color);
                proof {
                    assert forall|px: int, py: int|
                        0 <= px < old(self).current_resolution.width && 0 <= py < old(
                            self,
                        ).current_resolution.height implies #[trigger] bochs_pixel(
                        *self,
                        px,
                        py,
                    ) == (if (x0 <= px < x1 && rectangle.y <= py < y) || (py == y && x0 <= px < x
                        + 1) {
                        color
                    } else {
                        bochs_pixel(*old(self), px, py)
                    }) by {
                        assert(bochs_pixel(*self, px, py) == (if px == x && py == y {
                            color
                        } else {
                            bochs_pixel(prev, px, py)
                        }));
                    }
                }
                x = x + 1;
            }
            y = y + 1;
        }
    }

    /// Draws a line from `start` to `end` with `color`: every point of
    /// the Bresenham walk is painted, nothing else moves.
    pub fn draw_line(&mut self, start: Point<isize>, end: Point<isize>, color: u32)
        requires
            old(self).wf(),
            0 <= start.0 < old(self).current_resolution.width,
            0 <= start.1 < old(self).current_resolution.height,
            0 <= end.0 < old(self).current_resolution.width,
            0 <= end.1 < old(self).current_resolution.height,
        ensures
            final(self).wf(),
            same_but_frame_buffer(*old(self), *final(self)),
            forall|px: int, py: int|
                #![trigger bochs_pixel(*final(self), px, py)]
                0 <= px < old(self).current_resolution.width && 0 <= py < old(
                    self,
                ).current_resolution.height ==> bochs_pixel(*final(self), px, py) == (
                if bres_points(point_int(start), point_int(end)).contains((px, py)) {
                    color
                } else {
                    bochs_pixel(*old(self), px, py)
                }),
    {
        let ghost full = bres_points(point_int(start), point_int(end));
        proof {
            lemma_bresenham_shape(point_int(start), point_int(end));
            assert(COORDINATE_LIMIT >= 0x10000);
        }
        let mut walk = Bresenham::new(start, end);
        let ghost mut done: int = 0;
        while !walk.is_done()
            invariant
                self.wf(),
                same_but_frame_buffer(*old(self), *self),
                walk.wf(),
                0 <= done <= full.len(),
                walk.remaining() =~= full.skip(done),
                forall|k: int|
                    #![trigger full[k]]
                    0 <= k < full.len() ==> 0 <= full[k].0 < old(self).current_resolution.width
                        && 0 <= full[k].1 < old(self).current_resolution.height,
                forall|px: int, py: int|
                    #![trigger bochs_pixel(*self, px, py)]
                    0 <= px < old(self).current_resolution.width && 0 <= py < old(
                        self,
                    ).current_resolution.height ==> bochs_pixel(*self, px, py) == (
                    if full.take(done).contains((px, py)) {
                        color
                    } else {
                        bochs_pixel(*old(self), px, py)
                    }),
            decreases walk.remaining().len(),
        {
            let p = walk.next();
            proof {
                assert(full.skip(done)[0] == full[done]);
            }
            let point = p.unwrap();
            let ghost prev = *self;
            proof {
                assert(point_int(point) == full[done]);
            }
            let px_u = point.0 as usize;
            let py_u = point.1 as usize;
            self.set_pixel(px_u, py_u, color);
            proof {
                assert(px_u as int == full[done].0 && py_u as int == full[done].1);
                assert(full.take(done + 1) =~= full.take(done).push(full[done]));
                assert(full.skip(done).drop_first() =~= full.skip(done + 1));
                done = done + 1;
                assert forall|px: int, py: int|
                    0 <= px < old(self).current_resolution.width && 0 <= py < old(
                        self,
                    ).current_resolution.height implies #[trigger] bochs_pixel(*self, px, py) == (
                if full.take(done).contains((px, py)) {
                    color
                } else {
                    bochs_pixel(*old(self), px, py)
                }) by {
                    assert(bochs_pixel(*self, px, py) == (if px == px_u && py == py_u {
                        color
                    } else {
                        bochs_pixel(prev, px, py)
                    }));
                    if (px, py) == full[done - 1] {
                        assert(full.take(done)[done - 1] == (px, py));
                        assert(full.take(done).contains((px, py)));
                    } else {
                        assert(full.take(done).contains((px, py)) == full.take(done - 1).contains(
                            (px, py),
                        )) by {
                            if full.take(done - 1).contains((px, py)) {
                                let k = choose|k: int|
                                    0 <= k < full.take(done - 1).len() && #[trigger] full.take(
                                        done - 1,
                                    )[k] == (px, py);
                                assert(full.take(done)[k] == (px, py));
                            }
                            if full.take(done).contains((px, py)) {
                                let k = choose|k: int|
                                    0 <= k < full.take(done).len() && #[trigger] full.take(done)[k]
                                        == (px, py);
                                if k < done - 1 {
                                    assert(full.take(done - 1)[k] == (px, py));
                                }
                            }
                        }
                    }
                }
            }
        }
        proof {
            assert(full.take(done) =~= full);
        }
    }

    /// Draws the outline of `rectangle` with `color`: its four edges as
    /// Bresenham lines.  Every pixel on the outline is painted, nothing
    /// else moves.
    pub fn draw_rectangle(&mut self, rectangle: &Rectangle, color: u32)
        requires
            old(self).wf(),
            rectangle.width >= 1,
            rectangle.height >= 1,
            rectangle.x + rectangle.width < old(self).current_resolution.width,
            rectangle.y + rectangle.height < old(self).current_resolution.height,
        ensures
            final(self).wf(),
            same_but_frame_buffer(*old(self), *final(self)),
            forall|px: int, py: int|
                #![trigger bochs_pixel(*final(self), px, py)]
                0 <= px < old(self).current_resolution.width && 0 <= py < old(
                    self,
                ).current_resolution.height ==> bochs_pixel(*final(self), px, py) == (
                if rect_outline_contains(*rectangle, (px, py)) {
                    color
                } else {
                    bochs_pixel(*old(self), px, py)
                }),
    {
        let ghost l = rectangle.x as int;
        let ghost t = rectangle.y as int;
        let ghost rt = rectangle.x as int + rectangle.width as int;
        let ghost bm = rectangle.y as int + rectangle.height as int;
        let left = rectangle.x as isize;
        let top = rectangle.y as isize;
        let right = rectangle.right() as isize;
        let bottom = rectangle.bottom() as isize;
        proof {
            lemma_bresenham_axis_points((l, t), (l, bm));
            lemma_bresenham_axis_points((l, bm), (rt, bm));
            lemma_bresenham_axis_points((rt, bm), (rt, t));
            lemma_bresenham_axis_points((rt, t), (l, t));
        }
        self.draw_line((left, top), (left, bottom), color);
        let ghost s1 = *self;
        self.draw_line((left, bottom), (right, bottom), color);
        let ghost s2 = *self;
        self.draw_line((right, bottom), (right, top), color);
        let ghost s3 = *self;
        self.draw_line((right, top), (left, top), color);
        proof {
            assert forall|px: int, py: int|
                0 <= px < old(self).current_resolution.width && 0 <= py < old(
                    self,
                ).current_resolution.height implies #[trigger] bochs_pixel(*self, px, py) == (
            if rect_outline_contains(*rectangle, (px, py)) {
                color
            } else {
                bochs_pixel(*old(self), px, py)
            }) by {
                assert(bochs_pixel(*self, px, py) == (if bres_points((rt, t), (l, t)).contains(
                    (px, py),
                ) {
                    color
                } else {
                    bochs_pixel(s3, px, py)
                }));
                assert(bochs_pixel(s3, px, py) == (if bres_points((rt, bm), (rt, t)).contains(
                    (px, py),
                ) {
                    color
                } else {
                    bochs_pixel(s2, px, py)
                }));
                assert(bochs_pixel(s2, px, py) == (if bres_points((l, bm), (rt, bm)).contains(
                    (px, py),
                ) {
                    color
                } else {
                    bochs_pixel(s1, px, py)
                }));
                assert(bochs_pixel(s1, px, py) == (if bres_points((l, t), (l, bm)).contains(
                    (px, py),
                ) {
                    color
                } else {
                    bochs_pixel(*old(self), px, py)
                }));
            }
        }
    }

    /// Draws the 8 by 8 glyph of `character` with its top-left pixel at
    /// `(x, y)`.
    pub fn draw_character(&mut self, x: usize, y: usize, character: char, color: u32)
        requires
            old(self).wf(),
            x + 8 <= old(self).current_resolution.width,
            y + 8 <= old(self).current_resolution.height,
        ensures
            final(self).wf(),
            same_but_frame_buffer(*old(self), *final(self)),
            forall|px: int, py: int|
                #![trigger bochs_pixel(*final(self), px, py)]
                0 <= px < old(self).current_resolution.width && 0 <= py < old(
                    self,
                ).current_resolution.height ==> bochs_pixel(*final(self), px, py) == (if x <= px
                    < x + 8 && y <= py < y + 8 && glyph_pixel(character, px - x, py - y) {
                    color
                } else {
                    bochs_pixel(*old(self), px, py)
                }),
    {
        let glyph = crate::fonts::glyph_for(character);
        let mut row: usize = 0;
        while row < 8
            invariant
                row <= 8,
                x + 8 <= old(self).current_resolution.width,
                y + 8 <= old(self).current_resolution.height,
                glyph@ == glyph_rows(character),
                self.wf(),
                same_but_frame_buffer(*old(self), *self),
                forall|px: int, py: int|
                    #![trigger bochs_pixel(*self, px, py)]
                    0 <= px < old(self).current_resolution.width && 0 <= py < old(
                        self,
                    ).current_resolution.height ==> bochs_pixel(*self, px, py) == (if x <= px < x
                        + 8 && y <= py < y + row && glyph_pixel(character, px - x, py - y) {
                        color
                    } else {
                        bochs_pixel(*old(self), px, py)
                    }),
            decreases 8 - row,
        {
            let byte = glyph[row];
            let mut bit: usize = 0;
            while bit < 8
                invariant
                    bit <= 8,
                    row < 8,
                    x + 8 <= old(self).current_resolution.width,
                    y + 8 <= old(self).current_resolution.height,
                    glyph@ == glyph_rows(character),
                    byte == glyph_rows(character)[row as int],
                    self.wf(),
                    same_but_frame_buffer(*old(self), *self),
                    forall|px: int, py: int|
                        #![trigger bochs_pixel(*self, px, py)]
                        0 <= px < old(self).current_resolution.width && 0 <= py < old(
                            self,
                        ).current_resolution.height ==> bochs_pixel(*self, px, py) == (if x <= px
                            < x + 8 && ((y <= py < y + row) || (py == y + row && px < x + bit))
                            && glyph_pixel(character, px - x, py - y) {
                            color
                        } else {
                            bochs_pixel(*old(self), px, py)
                        }),
                decreases 8 - bit,
            {
                let set = byte & (1u8 << bit) != 0;
                proof {
                    let bt = bit as u8;
                    crate::vga::lemma_glyph_bit(byte, bt);
                    assert(set == glyph_pixel(character, bit as int, row as int));
                }
                let ghost prev = *self;
                if set {
                    self.set_pixel(x + bit, y + row, color);
                }
                proof {
                    assert forall|px: int, py: int|
                        0 <= px < old(self).current_resolution.width && 0 <= py < old(
                            self,
                        ).current_resolution.height implies #[trigger] bochs_pixel(
                        *self,
                        px,
                        py,
                    ) == (if x <= px < x + 8 && ((y <= py < y + row) || (py == y + row && px < x
                        + bit + 1)) && glyph_pixel(character, px - x, py - y) {
                        color
                    } else {
                        bochs_pixel(*old(self), px, py)
                    }) by {
                        assert(bochs_pixel(prev, px, py) == (if x <= px < x + 8 && ((y <= py < y
                            + row) || (py == y + row && px < x + bit)) && glyph_pixel(
                            character,
                            px - x,
                            py - y,
                        ) {
                            color
                        } else {
                            bochs_pixel(*old(self), px, py)
                        }));
                        if set {
                            assert(bochs_pixel(*self, px, py) == (if px == x + bit && py == y
                                + row {
                                color
                            } else {
                                bochs_pixel(prev, px, py)
                            }));
                        }
                    }
                }
                bit = bit + 1;
            }
            row = row + 1;
        }
    }
}

/// What a DISPI data-port read returns in a given state.
pub open spec fn spec_data_read(d: BochsDevice) -> u16 {
    if d.index == 1 {
        if d.enable & 0x02 != 0 {
            d.caps.width as u16
        } else {
            d.xres
        }
    } else if d.index == 2 {
        if d.enable & 0x02 != 0 {
            d.caps.height as u16
        } else {
            d.yres
        }
    } else if d.index == 3 {
        d.bpp
    } else if d.index == 4 {
        d.enable
    } else {
        0
    }
}

} // verus!
