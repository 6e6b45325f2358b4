//! The CRTC register file.  Its port pair depends on the emulation mode:
//! 0x3B4/0x3B5 in monochrome emulation, 0x3D4/0x3D5 in color emulation.
//! Bit 7 of the vertical sync end register (0x11) write-protects
//! registers 0x00 through 0x07, except bit 4 of the overflow register
//! (0x07), which stays writable.

use super::EmulationMode;
use vstd::pervasive::VecAdditionalExecFns;
use vstd::prelude::*;

verus! {

/// Number of CRTC registers the model holds (indices 0x00 through 0x24).
pub const CRTC_REGISTER_COUNT: usize = 37;

/// An index into the CRTC register file.
#[derive(Debug, Copy, Clone, PartialEq, Eq, Structural)]
pub enum CrtcControllerIndex {
    /// The `Horizontal Total` register (0x00).
    HorizontalTotal,
    /// The `Horizontal Display Enable End` register (0x01).
    HorizontalDisplayEnableEnd,
    /// The `Horizontal Blanking Start` register (0x02).
    HorizontalBlankingStart,
    /// The `Horizontal Blanking End` register (0x03).
    HorizontalBlankingEnd,
    /// The `Horizontal Sync Start` register (0x04).
    HorizontalSyncStart,
    /// The `Horizontal Sync End` register (0x05).
    HorizontalSyncEnd,
    /// The `Vertical Total` register (0x06).
    VeritcalTotal,
    /// The `Overflow` register (0x07).
    Overflow,
    /// The `Preset Row Scan` register (0x08).
    PresetRowScan,
    /// The `Maximum Scan Line` register (0x09).
    MaximumScanLine,
    /// The `Text Cursor Start` register (0x0A).
    TextCursorStart,
    /// The `Text Cursor End` register (0x0B).
    TextCursorEnd,
    /// The `Start Address High` register (0x0C).
    StartAddressHigh,
    /// The `Start Address Low` register (0x0D).
    StartAddressLow,
    /// The `Text Cursor Location High` register (0x0E).
    TextCursorLocationHigh,
    /// The `Text Cursor Location Low` register (0x0F).
    TextCursorLocationLow,
    /// The `Vertical Sync Start` register (0x10).
    VerticalSyncStart,
    /// The `Vertical Sync End` register (0x11).
    VerticalSyncEnd,
    /// The `Vertical Display Enable End` register (0x12).
    VerticalDisplayEnableEnd,
    /// The `Offset` register (0x13).
    Offset,
    /// The `Underline Location` register (0x14).
    UnderlineLocation,
    /// The `Vertical Blanking Start` register (0x15).
    VerticalBlankingStart,
    /// The `Vertical Blanking End` register (0x16).
    VerticalBlankingEnd,
    /// The `Mode Control` register (0x17).
    ModeControl,
    /// The `Line Compare` register (0x18).
    LineCompare,
    /// The `Memory Read Latch Data` register (0x22).
    MemoryReadLatchData,
    /// The `Toggle State Of Attribute Controller` register (0x24).
    ToggleStateOfAttributeController,
}

/// The raw index a `CrtcControllerIndex` stands for.
pub open spec fn crtc_index_value(i: CrtcControllerIndex) -> u8 {
    match i {
        CrtcControllerIndex::HorizontalTotal => 0x00,
        CrtcControllerIndex::HorizontalDisplayEnableEnd => 0x01,
        CrtcControllerIndex::HorizontalBlankingStart => 0x02,
        CrtcControllerIndex::HorizontalBlankingEnd => 0x03,
        CrtcControllerIndex::HorizontalSyncStart => 0x04,
        CrtcControllerIndex::HorizontalSyncEnd => 0x05,
        CrtcControllerIndex::VeritcalTotal => 0x06,
        CrtcControllerIndex::Overflow => 0x07,
        CrtcControllerIndex::PresetRowScan => 0x08,
        CrtcControllerIndex::MaximumScanLine => 0x09,
        CrtcControllerIndex::TextCursorStart => 0x0A,
        CrtcControllerIndex::TextCursorEnd => 0x0B,
        CrtcControllerIndex::StartAddressHigh => 0x0C,
        CrtcControllerIndex::StartAddressLow => 0x0D,
        CrtcControllerIndex::TextCursorLocationHigh => 0x0E,
        CrtcControllerIndex::TextCursorLocationLow => 0x0F,
        CrtcControllerIndex::VerticalSyncStart => 0x10,
        CrtcControllerIndex::VerticalSyncEnd => 0x11,
        CrtcControllerIndex::VerticalDisplayEnableEnd => 0x12,
        CrtcControllerIndex::Offset => 0x13,
        CrtcControllerIndex::UnderlineLocation => 0x14,
        CrtcControllerIndex::VerticalBlankingStart => 0x15,
        CrtcControllerIndex::VerticalBlankingEnd => 0x16,
        CrtcControllerIndex::ModeControl => 0x17,
        CrtcControllerIndex::LineCompare => 0x18,
        CrtcControllerIndex::MemoryReadLatchData => 0x22,
        CrtcControllerIndex::ToggleStateOfAttributeController => 0x24,
    }
}

impl CrtcControllerIndex {
    /// The raw register index.
    pub fn to_u8(self) -> (r: u8)
        ensures
            r == crtc_index_value(self),
            r < CRTC_REGISTER_COUNT,
    {
        match self {
            CrtcControllerIndex::HorizontalTotal => 0x00,
            CrtcControllerIndex::HorizontalDisplayEnableEnd => 0x01,
            CrtcControllerIndex::HorizontalBlankingStart => 0x02,
            CrtcControllerIndex::HorizontalBlankingEnd => 0x03,
            CrtcControllerIndex::HorizontalSyncStart => 0x04,
            CrtcControllerIndex::HorizontalSyncEnd => 0x05,
            CrtcControllerIndex::VeritcalTotal => 0x06,
            CrtcControllerIndex::Overflow => 0x07,
            CrtcControllerIndex::PresetRowScan => 0x08,
            CrtcControllerIndex::MaximumScanLine => 0x09,
            CrtcControllerIndex::TextCursorStart => 0x0A,
            CrtcControllerIndex::TextCursorEnd => 0x0B,
            CrtcControllerIndex::StartAddressHigh => 0x0C,
            CrtcControllerIndex::StartAddressLow => 0x0D,
            CrtcControllerIndex::TextCursorLocationHigh => 0x0E,
            CrtcControllerIndex::TextCursorLocationLow => 0x0F,
            CrtcControllerIndex::VerticalSyncStart => 0x10,
            CrtcControllerIndex::VerticalSyncEnd => 0x11,
            CrtcControllerIndex::VerticalDisplayEnableEnd => 0x12,
            CrtcControllerIndex::Offset => 0x13,
            CrtcControllerIndex::UnderlineLocation => 0x14,
            CrtcControllerIndex::VerticalBlankingStart => 0x15,
            CrtcControllerIndex::VerticalBlankingEnd => 0x16,
            CrtcControllerIndex::ModeControl => 0x17,
            CrtcControllerIndex::LineCompare => 0x18,
            CrtcControllerIndex::MemoryReadLatchData => 0x22,
            CrtcControllerIndex::ToggleStateOfAttributeController => 0x24,
        }
    }
}

/// Whether the protect bit (bit 7 of the vertical sync end register)
/// currently locks registers 0x00 through 0x07 against writes.
pub open spec fn crtc_protected(registers: Seq<u8>) -> bool {
    registers[0x11] & 0x80 != 0
}

/// The register contents after a write of `value` at raw index `index`:
/// protected low registers are left alone, except bit 4 of the overflow
/// register, which is always written.
pub open spec fn crtc_write_effect(registers: Seq<u8>, index: u8, value: u8) -> Seq<u8> {
    if index <= 7 && crtc_protected(registers) {
        if index == 7 {
            registers.update(7, ((registers[7] & 0xEF) | (value & 0x10)) as u8)
        } else {
            registers
        }
    } else {
        registers.update(index as int, value)
    }
}

/// The register contents after an ordered list of (index, value) writes,
/// each honoring the protect bit as it stands at that point.
pub open spec fn apply_crtc_writes(registers: Seq<u8>, l: Seq<(u8, u8)>) -> Seq<u8>
    decreases l.len(),
{
    if l.len() == 0 {
        registers
    } else {
        apply_crtc_writes(crtc_write_effect(registers, l[0].0, l[0].1), l.drop_first())
    }
}

/// A CRTC write list ends with one more write appended.
pub proof fn lemma_apply_crtc_writes_snoc(registers: Seq<u8>, l: Seq<(u8, u8)>, p: (u8, u8))
    ensures
        apply_crtc_writes(registers, l.push(p)) == crtc_write_effect(
            apply_crtc_writes(registers, l),
            p.0,
            p.1,
        ),
    decreases l.len(),
{
    if l.len() == 0 {
        assert(l.push(p)[0] == p);
        assert(l.push(p).drop_first() =~= Seq::<(u8, u8)>::empty());
        let registers1 = crtc_write_effect(registers, p.0, p.1);
        assert(apply_crtc_writes(registers1, Seq::<(u8, u8)>::empty()) == registers1);
    } else {
        assert(l.push(p)[0] == l[0]);
        assert(l.push(p).drop_first() =~= l.drop_first().push(p));
        lemma_apply_crtc_writes_snoc(
            crtc_write_effect(registers, l[0].0, l[0].1),
            l.drop_first(),
            p,
        );
    }
}

/// After a CRTC write list with strictly ascending indices, started in
/// an unprotected state (or with only high registers left to write),
/// each register named in the list holds the value written to it, and
/// every other register is untouched.
pub proof fn lemma_apply_crtc_writes_readback(registers: Seq<u8>, l: Seq<(u8, u8)>)
    requires
        registers.len() == CRTC_REGISTER_COUNT,
        forall|j: int, k: int|
            #![trigger l[j], l[k]]
            0 <= j < k < l.len() ==> l[j].0 < l[k].0,
        forall|k: int| 0 <= k < l.len() ==> (#[trigger] l[k]).0 < CRTC_REGISTER_COUNT,
        crtc_protected(registers) ==> forall|k: int| 0 <= k < l.len() ==> (#[trigger] l[k]).0 > 7,
    ensures
        apply_crtc_writes(registers, l).len() == CRTC_REGISTER_COUNT,
        forall|k: int|
            0 <= k < l.len() ==> apply_crtc_writes(registers, l)[(#[trigger] l[k]).0 as int]
                == l[k].1,
        forall|i: int|
            0 <= i < CRTC_REGISTER_COUNT && !crate::registers::list_has_index(l, i)
                ==> apply_crtc_writes(registers, l)[i] == registers[i],
    decreases l.len(),
{
    if l.len() > 0 {
        let head = l[0];
        let tail = l.drop_first();
        // Under the premise the protect branch is never taken: either the
        // state is unprotected, or every index left is above 7.
        assert(crtc_write_effect(registers, head.0, head.1) == registers.update(
            head.0 as int,
            head.1,
        ));
        let registers1 = registers.update(head.0 as int, head.1);
        assert(forall|k: int| 0 <= k < tail.len() ==> #[trigger] tail[k] == l[k + 1]);
        if crtc_protected(registers1) {
            // Protection can only stand because register 0x11 now has its
            // top bit set; ascending order puts every remaining index
            // above it, hence above 7.
            if head.0 != 0x11 {
                assert(registers1[0x11] == registers[0x11]);
            }
            assert forall|k: int| 0 <= k < tail.len() implies (#[trigger] tail[k]).0 > 7 by {
                assert(tail[k] == l[k + 1]);
                if head.0 == 0x11 {
                    assert(l[k + 1].0 > l[0].0);
                } else {
                    assert(crtc_protected(registers));
                }
            }
        }
        assert forall|j: int, k: int|
            #![trigger tail[j], tail[k]]
            0 <= j < k < tail.len() implies tail[j].0 < tail[k].0 by {
            assert(tail[j] == l[j + 1]);
            assert(tail[k] == l[k + 1]);
        }
        assert forall|k: int| 0 <= k < tail.len() implies (#[trigger] tail[k]).0
            < CRTC_REGISTER_COUNT by {
            assert(tail[k] == l[k + 1]);
        }
        assert(apply_crtc_writes(registers, l) == apply_crtc_writes(registers1, tail));
        lemma_apply_crtc_writes_readback(registers1, tail);
        let result = apply_crtc_writes(registers, l);
        assert(!crate::registers::list_has_index(tail, head.0 as int)) by {
            if crate::registers::list_has_index(tail, head.0 as int) {
                let k = choose|k: int|
                    0 <= k < tail.len() && (#[trigger] tail[k]).0 == head.0 as int;
                assert(tail[k] == l[k + 1]);
                assert(l[0].0 < l[k + 1].0);
            }
        }
        assert(result[head.0 as int] == registers1[head.0 as int]);
        assert forall|k: int| 0 <= k < l.len() implies result[(#[trigger] l[k]).0 as int]
            == l[k].1 by {
            if k > 0 {
                assert(tail[k - 1] == l[k]);
                assert(apply_crtc_writes(registers1, tail)[(tail[k - 1]).0 as int] == tail[k
                    - 1].1);
            }
        }
        assert forall|i: int|
            0 <= i < CRTC_REGISTER_COUNT && !crate::registers::list_has_index(l, i)
            implies result[i] == registers[i] by {
            assert(!crate::registers::list_has_index(tail, i)) by {
                if crate::registers::list_has_index(tail, i) {
                    let k = choose|k: int| 0 <= k < tail.len() && (#[trigger] tail[k]).0 == i;
                    assert(l[k + 1].0 == i);
                }
            }
            if head.0 as int == i {
                assert((l[0]).0 == i);
                assert(crate::registers::list_has_index(l, i));
            }
            assert(result[i] == registers1[i]);
        }
    }
}

/// The CRTC register file, with the latched index of each port pair.
#[derive(Debug, Clone, PartialEq, Eq)]
pub struct CrtcControllerRegisters {
    /// The value last written to the CGA-group index port 0x3D4.
    pub index_cga: u8,
    /// The value last written to the MDA-group index port 0x3B4.
    pub index_mda: u8,
    /// The registers, by raw index.
    pub registers: Vec<u8>,
}

impl CrtcControllerRegisters {
    /// The file holds all its registers.
    pub open spec fn wf(&self) -> bool {
        self.registers@.len() == CRTC_REGISTER_COUNT
    }

    /// A CRTC file in its cleared power-on state.
    pub fn new() -> (r: CrtcControllerRegisters)
        ensures
            r.wf(),
            r.index_cga == 0,
            r.index_mda == 0,
            forall|i: int| 0 <= i < CRTC_REGISTER_COUNT ==> r.registers@[i] == 0,
    {
        let mut registers: Vec<u8> = Vec::new();
        let mut i: usize = 0;
        while i < CRTC_REGISTER_COUNT
            invariant
                i <= CRTC_REGISTER_COUNT,
                registers@.len() == i,
                forall|k: int| 0 <= k < i ==> registers@[k] == 0,
            decreases CRTC_REGISTER_COUNT - i,
        {
            registers.push(0);
            i = i + 1;
        }
        CrtcControllerRegisters { index_cga: 0, index_mda: 0, registers }
    }

    /// Writes `value` at raw index `index` through the port pair
    /// `emulation_mode` selects, honoring the protect bit.
    pub fn write_at(&mut self, emulation_mode: EmulationMode, index: u8, value: u8)
        requires
            old(self).wf(),
            index < CRTC_REGISTER_COUNT,
        ensures
            final(self).wf(),
            final(self).registers@ == crtc_write_effect(old(self).registers@, index, value),
            emulation_mode == EmulationMode::Cga ==> final(self).index_cga == index
                && final(self).index_mda == old(self).index_mda,
            emulation_mode == EmulationMode::Mda ==> final(self).index_mda == index
                && final(self).index_cga == old(self).index_cga,
    {
        match emulation_mode {
            EmulationMode::Cga => {
                self.index_cga = index;
            },
            EmulationMode::Mda => {
                self.index_mda = index;
            },
        }
        let protect = self.registers[0x11] & 0x80 != 0;
        if index <= 7 && protect {
            if index == 7 {
                let kept = self.registers[7] & 0xEF;
                self.registers.set(7, kept | (value & 0x10));
            }
        } else {
            self.registers.set(index as usize, value);
        }
    }

    /// Reads the register at raw index `index` through the port pair
    /// `emulation_mode` selects.
    pub fn read_at(&mut self, emulation_mode: EmulationMode, index: u8) -> (r: u8)
        requires
            old(self).wf(),
            index < CRTC_REGISTER_COUNT,
        ensures
            final(self).wf(),
            final(self).registers == old(self).registers,
            r == old(self).registers@[index as int],
            emulation_mode == EmulationMode::Cga ==> final(self).index_cga == index
                && final(self).index_mda == old(self).index_mda,
            emulation_mode == EmulationMode::Mda ==> final(self).index_mda == index
                && final(self).index_cga == old(self).index_cga,
    {
        match emulation_mode {
            EmulationMode::Cga => {
                self.index_cga = index;
            },
            EmulationMode::Mda => {
                self.index_mda = index;
            },
        }
        self.registers[index as usize]
    }

    /// Writes an ordered (index, value) list, one register at a time.
    pub fn write_list(&mut self, emulation_mode: EmulationMode, l: &Vec<(u8, u8)>)
        requires
            old(self).wf(),
            forall|k: int| 0 <= k < l@.len() ==> (#[trigger] l@[k]).0 < CRTC_REGISTER_COUNT,
        ensures
            final(self).wf(),
            final(self).registers@ == apply_crtc_writes(old(self).registers@, l@),
    {
        let mut i: usize = 0;
        while i < l.len()
            invariant
                i <= l@.len(),
                self.wf(),
                forall|k: int| 0 <= k < l@.len() ==> (#[trigger] l@[k]).0 < CRTC_REGISTER_COUNT,
                self.registers@ == apply_crtc_writes(old(self).registers@, l@.take(i as int)),
            decreases l@.len() - i,
        {
            let (index, value) = l[i];
            proof {
                lemma_apply_crtc_writes_snoc(
                    old(self).registers@,
                    l@.take(i as int),
                    l@[i as int],
                );
                assert(l@.take(i as int + 1) =~= l@.take(i as int).push(l@[i as int]));
            }
            self.write_at(emulation_mode, index, value);
            i = i + 1;
        }
        proof {
            assert(l@.take(l@.len() as int) =~= l@);
        }
    }

    /// Writes `value` to the register `index` names.
    pub fn write(&mut self, emulation_mode: EmulationMode, index: CrtcControllerIndex, value: u8)
        requires
            old(self).wf(),
        ensures
            final(self).wf(),
            final(self).registers@ == crtc_write_effect(
                old(self).registers@,
                crtc_index_value(index),
                value,
            ),
    {
        let i = index.to_u8();
        self.write_at(emulation_mode, i, value);
    }

    /// Reads the register `index` names.
    pub fn read(&mut self, emulation_mode: EmulationMode, index: CrtcControllerIndex) -> (r: u8)
        requires
            old(self).wf(),
        ensures
            final(self).wf(),
            final(self).registers == old(self).registers,
            r == old(self).registers@[crtc_index_value(index) as int],
    {
        let i = index.to_u8();
        self.read_at(emulation_mode, i)
    }
}

} // verus!
