//! The graphics controller register file: index port 0x3CE, data port
//! 0x3CF.  Its registers steer how CPU writes combine with the set/reset
//! color, the latches and the bit mask on their way into planar memory.

use crate::colors::Color16;
use vstd::pervasive::VecAdditionalExecFns;
use vstd::prelude::*;

verus! {

/// Number of graphics controller registers the model holds
/// (indices 0x00 through 0x18).
pub const GRAPHICS_REGISTER_COUNT: usize = 25;

/// A plane number for the read plane select register.
#[derive(Debug, Copy, Clone, PartialEq, Eq, Structural)]
pub enum ReadPlane {
    /// Plane 0.
    Plane0,
    /// Plane 1.
    Plane1,
    /// Plane 2.
    Plane2,
    /// Plane 3.
    Plane3,
}

/// The plane number a `ReadPlane` stands for.
pub open spec fn read_plane_value(p: ReadPlane) -> u8 {
    match p {
        ReadPlane::Plane0 => 0,
        ReadPlane::Plane1 => 1,
        ReadPlane::Plane2 => 2,
        ReadPlane::Plane3 => 3,
    }
}

impl ReadPlane {
    /// The raw plane number.
    pub fn to_u8(self) -> (r: u8)
        ensures
            r == read_plane_value(self),
            r < 4,
    {
        match self {
            ReadPlane::Plane0 => 0,
            ReadPlane::Plane1 => 1,
            ReadPlane::Plane2 => 2,
            ReadPlane::Plane3 => 3,
        }
    }

    /// The plane a raw number names; numbers above 3 are rejected.
    pub fn try_from(value: u8) -> (r: Result<ReadPlane, &'static str>)
        ensures
            value < 4 ==> (r matches Ok(p) && read_plane_value(p) == value),
            value >= 4 ==> r is Err,
    {
        match value {
            0 => Ok(ReadPlane::Plane0),
            1 => Ok(ReadPlane::Plane1),
            2 => Ok(ReadPlane::Plane2),
            3 => Ok(ReadPlane::Plane3),
            _ => Err("ReadPlane only accepts values between 0-3!"),
        }
    }
}

/// An index into the graphics controller register file.
#[derive(Debug, Copy, Clone, PartialEq, Eq, Structural)]
pub enum GraphicsControllerIndex {
    /// The `Set/Reset` register (0x0).
    SetReset,
    /// The `Enable Set/Reset` register (0x1).
    EnableSetReset,
    /// The `Color Compare` register (0x2).
    ColorCompare,
    /// The `Data Rotate` register (0x3).
    DataRotate,
    /// The `Read Plane Select` register (0x4).
    ReadPlaneSelect,
    /// The `Graphics Mode` register (0x5).
    GraphicsMode,
    /// The `Miscellaneous` register (0x6).
    Miscellaneous,
    /// The `Color Don't Care` register (0x7).
    ColorDontCare,
    /// The `Bit Mask` register (0x8).
    BitMask,
    /// The `Address Mapping` register (0x10).
    AddressMapping,
    /// The `Page Selector` register (0x11).
    PageSelector,
    /// The `Software Flags` register (0x18).
    SoftwareFlags,
}

/// The raw index a `GraphicsControllerIndex` stands for.
pub open spec fn graphics_index_value(i: GraphicsControllerIndex) -> u8 {
    match i {
        GraphicsControllerIndex::SetReset => 0x0,
        GraphicsControllerIndex::EnableSetReset => 0x1,
        GraphicsControllerIndex::ColorCompare => 0x2,
        GraphicsControllerIndex::DataRotate => 0x3,
        GraphicsControllerIndex::ReadPlaneSelect => 0x4,
        GraphicsControllerIndex::GraphicsMode => 0x5,
        GraphicsControllerIndex::Miscellaneous => 0x6,
        GraphicsControllerIndex::ColorDontCare => 0x7,
        GraphicsControllerIndex::BitMask => 0x8,
        GraphicsControllerIndex::AddressMapping => 0x10,
        GraphicsControllerIndex::PageSelector => 0x11,
        GraphicsControllerIndex::SoftwareFlags => 0x18,
    }
}

impl GraphicsControllerIndex {
    /// The raw register index.
    pub fn to_u8(self) -> (r: u8)
        ensures
            r == graphics_index_value(self),
            r < GRAPHICS_REGISTER_COUNT,
    {
        match self {
            GraphicsControllerIndex::SetReset => 0x0,
            GraphicsControllerIndex::EnableSetReset => 0x1,
            GraphicsControllerIndex::ColorCompare => 0x2,
            GraphicsControllerIndex::DataRotate => 0x3,
            GraphicsControllerIndex::ReadPlaneSelect => 0x4,
            GraphicsControllerIndex::GraphicsMode => 0x5,
            GraphicsControllerIndex::Miscellaneous => 0x6,
            GraphicsControllerIndex::ColorDontCare => 0x7,
            GraphicsControllerIndex::BitMask => 0x8,
            GraphicsControllerIndex::AddressMapping => 0x10,
            GraphicsControllerIndex::PageSelector => 0x11,
            GraphicsControllerIndex::SoftwareFlags => 0x18,
        }
    }
}

/// One of the four policies by which a CPU write to the frame buffer
/// combines with the set/reset registers, the latches and the bit mask.
#[derive(Debug, Copy, Clone, PartialEq, Eq, Structural)]
pub enum WriteMode {
    /// CPU data, rotated, with set/reset substituted on enabled planes.
    Mode0,
    /// The latches are written back unchanged.
    Mode1,
    /// The low four CPU data bits are treated as a color and expanded
    /// across the bit mask.
    Mode2,
    /// CPU data ANDed with the bit mask masks the set/reset color in.
    Mode3,
}

/// The raw mode number a `WriteMode` stands for.
pub open spec fn write_mode_value(m: WriteMode) -> u8 {
    match m {
        WriteMode::Mode0 => 0,
        WriteMode::Mode1 => 1,
        WriteMode::Mode2 => 2,
        WriteMode::Mode3 => 3,
    }
}

impl WriteMode {
    /// The raw mode number.
    pub fn to_u8(self) -> (r: u8)
        ensures
            r == write_mode_value(self),
            r < 4,
    {
        match self {
            WriteMode::Mode0 => 0,
            WriteMode::Mode1 => 1,
            WriteMode::Mode2 => 2,
            WriteMode::Mode3 => 3,
        }
    }
}

/// The graphics controller register file, with its latched index.
#[derive(Debug, Clone, PartialEq, Eq)]
pub struct GraphicsControllerRegisters {
    /// The value last written to the index port.
    pub index: u8,
    /// The registers, by raw index.
    pub registers: Vec<u8>,
}

impl GraphicsControllerRegisters {
    /// The file holds all its registers.
    pub open spec fn wf(&self) -> bool {
        self.registers@.len() == GRAPHICS_REGISTER_COUNT
    }

    /// A graphics controller file in its cleared power-on state.
    pub fn new() -> (r: GraphicsControllerRegisters)
        ensures
            r.wf(),
            r.index == 0,
            forall|i: int| 0 <= i < GRAPHICS_REGISTER_COUNT ==> r.registers@[i] == 0,
    {
        let mut registers: Vec<u8> = Vec::new();
        let mut i: usize = 0;
        while i < GRAPHICS_REGISTER_COUNT
            invariant
                i <= GRAPHICS_REGISTER_COUNT,
                registers@.len() == i,
                forall|k: int| 0 <= k < i ==> registers@[k] == 0,
            decreases GRAPHICS_REGISTER_COUNT - i,
        {
            registers.push(0);
            i = i + 1;
        }
        GraphicsControllerRegisters { index: 0, registers }
    }

    /// Writes `value` to the register at raw index `index`.
    pub fn write_at(&mut self, index: u8, value: u8)
        requires
            old(self).wf(),
            index < GRAPHICS_REGISTER_COUNT,
        ensures
            final(self).wf(),
            final(self).index == index,
            final(self).registers@ == old(self).registers@.update(index as int, value),
    {
        self.index = index;
        self.registers.set(index as usize, value);
    }

    /// Reads the register at raw index `index`.
    pub fn read_at(&mut self, index: u8) -> (r: u8)
        requires
            old(self).wf(),
            index < GRAPHICS_REGISTER_COUNT,
        ensures
            final(self).wf(),
            final(self).index == index,
            final(self).registers == old(self).registers,
            r == old(self).registers@[index as int],
    {
        self.index = index;
        self.registers[index as usize]
    }

    /// Writes `value` to the register `index` names.
    pub fn write(&mut self, index: GraphicsControllerIndex, value: u8)
        requires
            old(self).wf(),
        ensures
            final(self).wf(),
            final(self).index == graphics_index_value(index),
            final(self).registers@ == old(self).registers@.update(
                graphics_index_value(index) as int,
                value,
            ),
    {
        let i = index.to_u8();
        self.write_at(i, value);
    }

    /// Reads the register `index` names.
    pub fn read(&mut self, index: GraphicsControllerIndex) -> (r: u8)
        requires
            old(self).wf(),
        ensures
            final(self).wf(),
            final(self).index == graphics_index_value(index),
            final(self).registers == old(self).registers,
            r == old(self).registers@[graphics_index_value(index) as int],
    {
        let i = index.to_u8();
        self.read_at(i)
    }

    /// Writes an ordered (index, value) list, one register at a time.
    pub fn write_list(&mut self, l: &Vec<(u8, u8)>)
        requires
            old(self).wf(),
            forall|k: int| 0 <= k < l@.len() ==> (#[trigger] l@[k]).0 < GRAPHICS_REGISTER_COUNT,
        ensures
            final(self).wf(),
            final(self).registers@ == crate::registers::apply_reg_writes(
                old(self).registers@,
                l@,
            ),
    {
        let mut i: usize = 0;
        while i < l.len()
            invariant
                i <= l@.len(),
                self.wf(),
                forall|k: int|
                    0 <= k < l@.len() ==> (#[trigger] l@[k]).0 < GRAPHICS_REGISTER_COUNT,
                self.registers@ == crate::registers::apply_reg_writes(
                    old(self).registers@,
                    l@.take(i as int),
                ),
            decreases l@.len() - i,
        {
            let (index, value) = l[i];
            proof {
                crate::registers::lemma_apply_reg_writes_snoc(
                    old(self).registers@,
                    l@.take(i as int),
                    l@[i as int],
                );
                assert(l@.take(i as int + 1) =~= l@.take(i as int).push(l@[i as int]));
            }
            self.write_at(index, value);
            i = i + 1;
        }
        proof {
            assert(l@.take(l@.len() as int) =~= l@);
        }
    }

    /// Selects the plane framebuffer reads return, by writing the read
    /// plane select register.
    pub fn write_read_plane(&mut self, read_plane: ReadPlane)
        requires
            old(self).wf(),
        ensures
            final(self).wf(),
            final(self).registers@ == old(self).registers@.update(
                0x4,
                (read_plane_value(read_plane) & 0x3) as u8,
            ),
    {
        let plane = read_plane.to_u8() & 0x3;
        self.write(GraphicsControllerIndex::ReadPlaneSelect, plane);
    }

    /// Sets the low nibble of the set/reset register to `color`, keeping
    /// the high nibble: a read-modify-write of register 0x0.
    pub fn write_set_reset(&mut self, color: Color16)
        requires
            old(self).wf(),
        ensures
            final(self).wf(),
            final(self).registers@ == old(self).registers@.update(
                0x0,
                ((old(self).registers@[0x0] & 0xF0) | crate::colors::color16_index(color)) as u8,
            ),
    {
        let original_value = self.read(GraphicsControllerIndex::SetReset) & 0xF0;
        self.write(GraphicsControllerIndex::SetReset, original_value | color.to_u8());
    }

    /// Sets the low nibble of the enable set/reset register to
    /// `bit_mask`, keeping the high nibble.
    pub fn write_enable_set_reset(&mut self, bit_mask: u8)
        requires
            old(self).wf(),
            bit_mask < 16,
        ensures
            final(self).wf(),
            final(self).registers@ == old(self).registers@.update(
                0x1,
                ((old(self).registers@[0x1] & 0xF0) | bit_mask) as u8,
            ),
    {
        let original_value = self.read(GraphicsControllerIndex::EnableSetReset) & 0xF0;
        self.write(GraphicsControllerIndex::EnableSetReset, original_value | bit_mask);
    }

    /// Sets the write mode bits (bits 0 and 1) of the graphics mode
    /// register, keeping the remaining bits.
    pub fn set_write_mode(&mut self, write_mode: WriteMode)
        requires
            old(self).wf(),
        ensures
            final(self).wf(),
            final(self).registers@ == old(self).registers@.update(
                0x5,
                ((old(self).registers@[0x5] & 0xFC) | write_mode_value(write_mode)) as u8,
            ),
    {
        let original_value = self.read(GraphicsControllerIndex::GraphicsMode) & 0xFC;
        self.write(GraphicsControllerIndex::GraphicsMode, original_value | write_mode.to_u8());
    }

    /// Writes the bit mask register.
    pub fn set_bit_mask(&mut self, bit_mask: u8)
        requires
            old(self).wf(),
        ensures
            final(self).wf(),
            final(self).registers@ == old(self).registers@.update(0x8, bit_mask),
    {
        self.write(GraphicsControllerIndex::BitMask, bit_mask);
    }
}

} // verus!
