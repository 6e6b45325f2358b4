//! The attribute controller register file.  Index and data share port
//! 0x3C0, alternated by a write flip-flop; reading input status register 1
//! (0x3BA or 0x3DA by emulation mode) resets the flip-flop so the next
//! write is taken as an index.  Bit 5 of the latched address is the
//! palette address source bit: while it is clear the screen is blanked
//! and the sixteen palette registers are CPU-accessible.

use super::EmulationMode;
use vstd::pervasive::VecAdditionalExecFns;
use vstd::prelude::*;

verus! {

/// Number of attribute controller registers the model holds
/// (indices 0x00 through 0x14).
pub const ATTRIBUTE_REGISTER_COUNT: usize = 21;

/// An index into the attribute controller register file.
#[derive(Debug, Copy, Clone, PartialEq, Eq, Structural)]
pub enum AttributeControllerIndex {
    /// The `Palette 0` register (0x00).
    PaletteRegister0,
    /// The `Palette 1` register (0x01).
    PaletteRegister1,
    /// The `Palette 2` register (0x02).
    PaletteRegister2,
    /// The `Palette 3` register (0x03).
    PaletteRegister3,
    /// The `Palette 4` register (0x04).
    PaletteRegister4,
    /// The `Palette 5` register (0x05).
    PaletteRegister5,
    /// The `Palette 6` register (0x06).
    PaletteRegister6,
    /// The `Palette 7` register (0x07).
    PaletteRegister7,
    /// The `Palette 8` register (0x08).
    PaletteRegister8,
    /// The `Palette 9` register (0x09).
    PaletteRegister9,
    /// The `Palette A` register (0x0A).
    PaletteRegisterA,
    /// The `Palette B` register (0x0B).
    PaletteRegisterB,
    /// The `Palette C` register (0x0C).
    PaletteRegisterC,
    /// The `Palette D` register (0x0D).
    PaletteRegisterD,
    /// The `Palette E` register (0x0E).
    PaletteRegisterE,
    /// The `Palette F` register (0x0F).
    PaletteRegisterF,
    /// The `Mode Control` register (0x10).
    ModeControl,
    /// The `Overscan Color` register (0x11).
    OverscanColor,
    /// The `Memory Plane Enable` register (0x12).
    MemoryPlaneEnable,
    /// The `Horizontal Pixel Panning` register (0x13).
    HorizontalPixelPanning,
    /// The `Color Select` register (0x14).
    ColorSelect,
}

/// The raw index an `AttributeControllerIndex` stands for.
pub open spec fn attribute_index_value(i: AttributeControllerIndex) -> u8 {
    match i {
        AttributeControllerIndex::PaletteRegister0 => 0x00,
        AttributeControllerIndex::PaletteRegister1 => 0x01,
        AttributeControllerIndex::PaletteRegister2 => 0x02,
        AttributeControllerIndex::PaletteRegister3 => 0x03,
        AttributeControllerIndex::PaletteRegister4 => 0x04,
        AttributeControllerIndex::PaletteRegister5 => 0x05,
        AttributeControllerIndex::PaletteRegister6 => 0x06,
        AttributeControllerIndex::PaletteRegister7 => 0x07,
        AttributeControllerIndex::PaletteRegister8 => 0x08,
        AttributeControllerIndex::PaletteRegister9 => 0x09,
        AttributeControllerIndex::PaletteRegisterA => 0x0A,
        AttributeControllerIndex::PaletteRegisterB => 0x0B,
        AttributeControllerIndex::PaletteRegisterC => 0x0C,
        AttributeControllerIndex::PaletteRegisterD => 0x0D,
        AttributeControllerIndex::PaletteRegisterE => 0x0E,
        AttributeControllerIndex::PaletteRegisterF => 0x0F,
        AttributeControllerIndex::ModeControl => 0x10,
        AttributeControllerIndex::OverscanColor => 0x11,
        AttributeControllerIndex::MemoryPlaneEnable => 0x12,
        AttributeControllerIndex::HorizontalPixelPanning => 0x13,
        AttributeControllerIndex::ColorSelect => 0x14,
    }
}

impl AttributeControllerIndex {
    /// The raw register index.
    pub fn to_u8(self) -> (r: u8)
        ensures
            r == attribute_index_value(self),
            r < ATTRIBUTE_REGISTER_COUNT,
    {
        match self {
            AttributeControllerIndex::PaletteRegister0 => 0x00,
            AttributeControllerIndex::PaletteRegister1 => 0x01,
            AttributeControllerIndex::PaletteRegister2 => 0x02,
            AttributeControllerIndex::PaletteRegister3 => 0x03,
            AttributeControllerIndex::PaletteRegister4 => 0x04,
            AttributeControllerIndex::PaletteRegister5 => 0x05,
            AttributeControllerIndex::PaletteRegister6 => 0x06,
            AttributeControllerIndex::PaletteRegister7 => 0x07,
            AttributeControllerIndex::PaletteRegister8 => 0x08,
            AttributeControllerIndex::PaletteRegister9 => 0x09,
            AttributeControllerIndex::PaletteRegisterA => 0x0A,
            AttributeControllerIndex::PaletteRegisterB => 0x0B,
            AttributeControllerIndex::PaletteRegisterC => 0x0C,
            AttributeControllerIndex::PaletteRegisterD => 0x0D,
            AttributeControllerIndex::PaletteRegisterE => 0x0E,
            AttributeControllerIndex::PaletteRegisterF => 0x0F,
            AttributeControllerIndex::ModeControl => 0x10,
            AttributeControllerIndex::OverscanColor => 0x11,
            AttributeControllerIndex::MemoryPlaneEnable => 0x12,
            AttributeControllerIndex::HorizontalPixelPanning => 0x13,
            AttributeControllerIndex::ColorSelect => 0x14,
        }
    }
}

/// The attribute controller register file, with its latched address and
/// index/data flip-flop.
#[derive(Debug, Clone, PartialEq, Eq)]
pub struct AttributeControllerRegisters {
    /// The registers, by raw index.
    pub registers: Vec<u8>,
    /// The latched address byte: a register index in the low five bits
    /// and the palette address source bit as bit 5.
    pub address: u8,
    /// True when the next write to the combined port is taken as an
    /// index, false when it is taken as data.
    pub next_is_index: bool,
}

impl AttributeControllerRegisters {
    /// The file holds all its registers.
    pub open spec fn wf(&self) -> bool {
        self.registers@.len() == ATTRIBUTE_REGISTER_COUNT
    }

    /// An attribute controller file in its cleared power-on state.
    pub fn new() -> (r: AttributeControllerRegisters)
        ensures
            r.wf(),
            r.address == 0,
            r.next_is_index,
            forall|i: int| 0 <= i < ATTRIBUTE_REGISTER_COUNT ==> r.registers@[i] == 0,
    {
        let mut registers: Vec<u8> = Vec::new();
        let mut i: usize = 0;
        while i < ATTRIBUTE_REGISTER_COUNT
            invariant
                i <= ATTRIBUTE_REGISTER_COUNT,
                registers@.len() == i,
                forall|k: int| 0 <= k < i ==> registers@[k] == 0,
            decreases ATTRIBUTE_REGISTER_COUNT - i,
        {
            registers.push(0);
            i = i + 1;
        }
        AttributeControllerRegisters { registers, address: 0, next_is_index: true }
    }

    /// One write to the combined index/data port 0x3C0: an index write
    /// latches the address, a data write stores to the register the
    /// latched address names (writes to unimplemented indices are
    /// dropped), and the flip-flop alternates.
    fn port_write(&mut self, value: u8)
        requires
            old(self).wf(),
        ensures
            final(self).wf(),
            old(self).next_is_index ==> {
                &&& final(self).address == value
                &&& final(self).registers == old(self).registers
                &&& !final(self).next_is_index
            },
            !old(self).next_is_index ==> {
                &&& final(self).address == old(self).address
                &&& final(self).registers@ == (if (old(self).address & 0x1F)
                    < ATTRIBUTE_REGISTER_COUNT {
                    old(self).registers@.update((old(self).address & 0x1F) as int, value)
                } else {
                    old(self).registers@
                })
                &&& final(self).next_is_index
            },
    {
        if self.next_is_index {
            self.address = value;
            self.next_is_index = false;
        } else {
            let index = self.address & 0x1F;
            if (index as usize) < ATTRIBUTE_REGISTER_COUNT {
                self.registers.set(index as usize, value);
            }
            self.next_is_index = true;
        }
    }

    /// Resets the flip-flop to its index state by reading input status
    /// register 1 at the port `emulation_mode` selects.
    fn toggle_index(&mut self, emulation_mode: EmulationMode)
        ensures
            final(self).registers == old(self).registers,
            final(self).address == old(self).address,
            final(self).next_is_index,
    {
        let _ = emulation_mode;
        self.next_is_index = true;
    }

    /// Writes `value` to the register `index` names: flip-flop reset,
    /// index write, data write.
    pub fn write(&mut self, emulation_mode: EmulationMode, index: AttributeControllerIndex, value: u8)
        requires
            old(self).wf(),
        ensures
            final(self).wf(),
            final(self).registers@ == old(self).registers@.update(
                attribute_index_value(index) as int,
                value,
            ),
            final(self).address == attribute_index_value(index),
            final(self).next_is_index,
    {
        self.toggle_index(emulation_mode);
        let i = index.to_u8();
        self.port_write(i);
        proof {
            lemma_index_unmasked(i);
        }
        self.port_write(value);
    }

    /// Writes `value` to the register at raw index `index`: flip-flop
    /// reset, index write, data write.
    pub fn write_at(&mut self, emulation_mode: EmulationMode, index: u8, value: u8)
        requires
            old(self).wf(),
            index < ATTRIBUTE_REGISTER_COUNT,
        ensures
            final(self).wf(),
            final(self).registers@ == old(self).registers@.update(index as int, value),
            final(self).address == index,
            final(self).next_is_index,
    {
        self.toggle_index(emulation_mode);
        self.port_write(index);
        proof {
            lemma_index_unmasked(index);
        }
        self.port_write(value);
    }

    /// Writes an ordered (index, value) list, one register at a time.
    pub fn write_list(&mut self, emulation_mode: EmulationMode, l: &Vec<(u8, u8)>)
        requires
            old(self).wf(),
            forall|k: int| 0 <= k < l@.len() ==> (#[trigger] l@[k]).0 < ATTRIBUTE_REGISTER_COUNT,
        ensures
            final(self).wf(),
            final(self).registers@ == crate::registers::apply_reg_writes(
                old(self).registers@,
                l@,
            ),
            l@.len() > 0 ==> final(self).next_is_index,
    {
        let mut i: usize = 0;
        while i < l.len()
            invariant
                i <= l@.len(),
                self.wf(),
                forall|k: int|
                    0 <= k < l@.len() ==> (#[trigger] l@[k]).0 < ATTRIBUTE_REGISTER_COUNT,
                self.registers@ == crate::registers::apply_reg_writes(
                    old(self).registers@,
                    l@.take(i as int),
                ),
                i > 0 ==> self.next_is_index,
            decreases l@.len() - i,
        {
            let (index, value) = l[i];
            proof {
                crate::registers::lemma_apply_reg_writes_snoc(
                    old(self).registers@,
                    l@.take(i as int),
                    l@[i as int],
                );
                assert(l@.take(i as int + 1) =~= l@.take(i as int).push(l@[i as int]));
            }
            self.write_at(emulation_mode, index, value);
            i = i + 1;
        }
        proof {
            assert(l@.take(l@.len() as int) =~= l@);
        }
    }

    /// Reads the register `index` names: flip-flop reset, index write,
    /// then a data-port read, which does not advance the flip-flop.
    pub fn read(&mut self, emulation_mode: EmulationMode, index: AttributeControllerIndex) -> (r: u8)
        requires
            old(self).wf(),
        ensures
            final(self).wf(),
            final(self).registers == old(self).registers,
            final(self).address == attribute_index_value(index),
            !final(self).next_is_index,
            r == old(self).registers@[attribute_index_value(index) as int],
    {
        self.toggle_index(emulation_mode);
        let i = index.to_u8();
        self.port_write(i);
        self.registers[i as usize]
    }

    /// Reads the register at raw index `index`: flip-flop reset, index
    /// write, then a data-port read, which does not advance the
    /// flip-flop.
    pub fn read_at(&mut self, emulation_mode: EmulationMode, index: u8) -> (r: u8)
        requires
            old(self).wf(),
            index < ATTRIBUTE_REGISTER_COUNT,
        ensures
            final(self).wf(),
            final(self).registers == old(self).registers,
            final(self).address == index,
            !final(self).next_is_index,
            r == old(self).registers@[index as int],
    {
        self.toggle_index(emulation_mode);
        self.port_write(index);
        self.registers[index as usize]
    }

    /// Clears the palette address source bit: the screen blanks and the
    /// palette registers become CPU-accessible.  The flip-flop is reset,
    /// the latched address read back, and the masked value written as an
    /// index.
    pub fn blank_screen(&mut self, emulation_mode: EmulationMode)
        requires
            old(self).wf(),
        ensures
            final(self).wf(),
            final(self).registers == old(self).registers,
            final(self).address == (old(self).address & 0xDF),
            !final(self).next_is_index,
    {
        self.toggle_index(emulation_mode);
        let arx_index_value = self.address;
        self.port_write(arx_index_value & 0xDF);
    }

    /// Sets the palette address source bit: the display runs from the
    /// palette registers again and they are locked against the CPU.
    pub fn unblank_screen(&mut self, emulation_mode: EmulationMode)
        requires
            old(self).wf(),
        ensures
            final(self).wf(),
            final(self).registers == old(self).registers,
            final(self).address == (old(self).address | 0x20),
            !final(self).next_is_index,
    {
        self.toggle_index(emulation_mode);
        let arx_index_value = self.address;
        self.port_write(arx_index_value | 0x20);
    }
}

/// A register index below the implemented range passes through the
/// five address bits unchanged.
proof fn lemma_index_unmasked(i: u8)
    requires
        i < 32,
    ensures
        i & 0x1F == i,
{
    assert(i & 0x1F == i) by (bit_vector)
        requires
            i < 32,
    ;
}

} // verus!
