//! The sequencer register file: index port 0x3C4, data port 0x3C5.
//! Its plane mask register gates which of the four memory planes CPU
//! writes reach.

use vstd::pervasive::VecAdditionalExecFns;
use vstd::prelude::*;

verus! {

/// Number of sequencer registers the model holds (indices 0x0 through 0x7).
pub const SEQUENCER_REGISTER_COUNT: usize = 8;

/// An index into the sequencer register file.
#[derive(Debug, Clone, Copy, PartialEq, Eq, Structural)]
pub enum SequencerIndex {
    /// The `Sequencer Reset` register (0x0).
    SequencerReset,
    /// The `Clocking Mode` register (0x1).
    ClockingMode,
    /// The `Plane/Map` mask register (0x2).
    PlaneMask,
    /// The `Character Font` register (0x3).
    CharacterFont,
    /// The `Memory Mode` register (0x4).
    MemoryMode,
    /// The `Horizontal Character Counter Reset` register (0x7).
    CounterReset,
}

/// The raw index a `SequencerIndex` stands for.
pub open spec fn sequencer_index_value(i: SequencerIndex) -> u8 {
    match i {
        SequencerIndex::SequencerReset => 0x0,
        SequencerIndex::ClockingMode => 0x1,
        SequencerIndex::PlaneMask => 0x2,
        SequencerIndex::CharacterFont => 0x3,
        SequencerIndex::MemoryMode => 0x4,
        SequencerIndex::CounterReset => 0x7,
    }
}

impl SequencerIndex {
    /// The raw register index.
    pub fn to_u8(self) -> (r: u8)
        ensures
            r == sequencer_index_value(self),
            r < SEQUENCER_REGISTER_COUNT,
    {
        match self {
            SequencerIndex::SequencerReset => 0x0,
            SequencerIndex::ClockingMode => 0x1,
            SequencerIndex::PlaneMask => 0x2,
            SequencerIndex::CharacterFont => 0x3,
            SequencerIndex::MemoryMode => 0x4,
            SequencerIndex::CounterReset => 0x7,
        }
    }
}

/// A set of memory planes, held as the low four bits of the plane mask
/// register.  Bit `p` set means plane `p` receives CPU writes.
#[derive(Debug, Copy, Clone, PartialEq, Eq, Structural)]
pub struct PlaneMask {
    /// The mask bits; only the low nibble is ever set.
    pub bits: u8,
}

impl PlaneMask {
    /// The empty plane set.
    pub fn none() -> (r: PlaneMask)
        ensures
            r.bits == 0,
    {
        PlaneMask { bits: 0b0000 }
    }

    /// Plane 0 alone.
    pub fn plane0() -> (r: PlaneMask)
        ensures
            r.bits == 1,
    {
        PlaneMask { bits: 0b0001 }
    }

    /// Plane 1 alone.
    pub fn plane1() -> (r: PlaneMask)
        ensures
            r.bits == 2,
    {
        PlaneMask { bits: 0b0010 }
    }

    /// Plane 2 alone.
    pub fn plane2() -> (r: PlaneMask)
        ensures
            r.bits == 4,
    {
        PlaneMask { bits: 0b0100 }
    }

    /// Plane 3 alone.
    pub fn plane3() -> (r: PlaneMask)
        ensures
            r.bits == 8,
    {
        PlaneMask { bits: 0b1000 }
    }

    /// All four planes.
    pub fn all_planes() -> (r: PlaneMask)
        ensures
            r.bits == 0xF,
    {
        PlaneMask { bits: 0b1111 }
    }

    /// A mask from its raw bits; `None` when a bit outside the four
    /// plane bits is set.
    pub fn from_bits(bits: u8) -> (r: Option<PlaneMask>)
        ensures
            bits < 16 ==> r == Some(PlaneMask { bits }),
            bits >= 16 ==> r is None,
    {
        if bits < 16 {
            Some(PlaneMask { bits })
        } else {
            None
        }
    }

    /// The single-plane mask for a plane number 0 through 3; any other
    /// number is rejected.
    pub fn try_from(value: u8) -> (r: Result<PlaneMask, &'static str>)
        ensures
            value == 0 ==> r == Ok::<PlaneMask, &'static str>(PlaneMask { bits: 1 }),
            value == 1 ==> r == Ok::<PlaneMask, &'static str>(PlaneMask { bits: 2 }),
            value == 2 ==> r == Ok::<PlaneMask, &'static str>(PlaneMask { bits: 4 }),
            value == 3 ==> r == Ok::<PlaneMask, &'static str>(PlaneMask { bits: 8 }),
            value > 3 ==> r is Err,
    {
        match value {
            0 => Ok(PlaneMask { bits: 0b0001 }),
            1 => Ok(PlaneMask { bits: 0b0010 }),
            2 => Ok(PlaneMask { bits: 0b0100 }),
            3 => Ok(PlaneMask { bits: 0b1000 }),
            _ => Err("PlaneMask only accepts values between 0-3!"),
        }
    }
}

/// The sequencer register file, with its latched index.
#[derive(Debug, Clone, PartialEq, Eq)]
pub struct SequencerRegisters {
    /// The value last written to the index port.
    pub index: u8,
    /// The registers, by raw index.
    pub registers: Vec<u8>,
}

impl SequencerRegisters {
    /// The file holds all its registers.
    pub open spec fn wf(&self) -> bool {
        self.registers@.len() == SEQUENCER_REGISTER_COUNT
    }

    /// A sequencer file in its cleared power-on state.
    pub fn new() -> (r: SequencerRegisters)
        ensures
            r.wf(),
            r.index == 0,
            forall|i: int| 0 <= i < SEQUENCER_REGISTER_COUNT ==> r.registers@[i] == 0,
    {
        let mut registers: Vec<u8> = Vec::new();
        let mut i: usize = 0;
        while i < SEQUENCER_REGISTER_COUNT
            invariant
                i <= SEQUENCER_REGISTER_COUNT,
                registers@.len() == i,
                forall|k: int| 0 <= k < i ==> registers@[k] == 0,
            decreases SEQUENCER_REGISTER_COUNT - i,
        {
            registers.push(0);
            i = i + 1;
        }
        SequencerRegisters { index: 0, registers }
    }

    /// Writes `value` to the register at raw index `index`: an index-port
    /// write followed by a data-port write.
    pub fn write_at(&mut self, index: u8, value: u8)
        requires
            old(self).wf(),
            index < SEQUENCER_REGISTER_COUNT,
        ensures
            final(self).wf(),
            final(self).index == index,
            final(self).registers@ == old(self).registers@.update(index as int, value),
    {
        self.index = index;
        self.registers.set(index as usize, value);
    }

    /// Reads the register at raw index `index`.
    pub fn read_at(&mut self, index: u8) -> (r: u8)
        requires
            old(self).wf(),
            index < SEQUENCER_REGISTER_COUNT,
        ensures
            final(self).wf(),
            final(self).index == index,
            final(self).registers == old(self).registers,
            r == old(self).registers@[index as int],
    {
        self.index = index;
        self.registers[index as usize]
    }

    /// Writes `value` to the register `index` names.
    pub fn write(&mut self, index: SequencerIndex, value: u8)
        requires
            old(self).wf(),
        ensures
            final(self).wf(),
            final(self).index == sequencer_index_value(index),
            final(self).registers@ == old(self).registers@.update(
                sequencer_index_value(index) as int,
                value,
            ),
    {
        let i = index.to_u8();
        self.write_at(i, value);
    }

    /// Reads the register `index` names.
    pub fn read(&mut self, index: SequencerIndex) -> (r: u8)
        requires
            old(self).wf(),
        ensures
            final(self).wf(),
            final(self).index == sequencer_index_value(index),
            final(self).registers == old(self).registers,
            r == old(self).registers@[sequencer_index_value(index) as int],
    {
        let i = index.to_u8();
        self.read_at(i)
    }

    /// Writes an ordered (index, value) list, one register at a time.
    pub fn write_list(&mut self, l: &Vec<(u8, u8)>)
        requires
            old(self).wf(),
            forall|k: int| 0 <= k < l@.len() ==> (#[trigger] l@[k]).0 < SEQUENCER_REGISTER_COUNT,
        ensures
            final(self).wf(),
            final(self).registers@ == crate::registers::apply_reg_writes(
                old(self).registers@,
                l@,
            ),
    {
        let mut i: usize = 0;
        while i < l.len()
            invariant
                i <= l@.len(),
                self.wf(),
                forall|k: int|
                    0 <= k < l@.len() ==> (#[trigger] l@[k]).0 < SEQUENCER_REGISTER_COUNT,
                self.registers@ == crate::registers::apply_reg_writes(
                    old(self).registers@,
                    l@.take(i as int),
                ),
            decreases l@.len() - i,
        {
            let (index, value) = l[i];
            proof {
                crate::registers::lemma_apply_reg_writes_snoc(
                    old(self).registers@,
                    l@.take(i as int),
                    l@[i as int],
                );
                assert(l@.take(i as int + 1) =~= l@.take(i as int).push(l@[i as int]));
            }
            self.write_at(index, value);
            i = i + 1;
        }
        proof {
            assert(l@.take(l@.len() as int) =~= l@);
        }
    }

    /// Sets the low nibble of the plane mask register to `plane_mask`,
    /// keeping the high nibble: a read-modify-write of register 0x2.
    pub fn set_plane_mask(&mut self, plane_mask: PlaneMask)
        requires
            old(self).wf(),
            plane_mask.bits < 16,
        ensures
            final(self).wf(),
            final(self).registers@ == old(self).registers@.update(
                2,
                ((old(self).registers@[2] & 0xF0) | plane_mask.bits) as u8,
            ),
            final(self).index == 2,
    {
        let original_value = self.read(SequencerIndex::PlaneMask) & 0xF0;
        self.write(SequencerIndex::PlaneMask, original_value | plane_mask.bits);
    }
}

} // verus!
