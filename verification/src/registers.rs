//! Models of the five indexed register files of the VGA adapter and of the
//! DAC palette registers.
//!
//! On hardware each file is a pair of I/O ports: an index port selecting an
//! 8-bit register and a data port reading or writing it.  Here each file
//! holds its registers, and its latched index, as plain state; the methods
//! perform exactly the port protocol the driver relies on, including the
//! attribute controller's write flip-flop and the CRTC write protection.

use vstd::prelude::*;

pub mod attribute_controller;
pub mod color_palette;
pub mod crtc_controller;
pub mod general;
pub mod graphics_controller;
pub mod sequencer;

pub use attribute_controller::AttributeControllerIndex;
pub use attribute_controller::AttributeControllerRegisters;
pub use color_palette::ColorPaletteRegisters;
pub use crtc_controller::CrtcControllerIndex;
pub use crtc_controller::CrtcControllerRegisters;
pub use general::GeneralRegisters;
pub use graphics_controller::GraphicsControllerIndex;
pub use graphics_controller::GraphicsControllerRegisters;
pub use graphics_controller::ReadPlane;
pub use graphics_controller::WriteMode;
pub use sequencer::PlaneMask;
pub use sequencer::SequencerIndex;
pub use sequencer::SequencerRegisters;

verus! {

/// Which port group the CRTC and input status register 1 occupy:
/// monochrome (0x3B4/0x3B5, 0x3BA) or color (0x3D4/0x3D5, 0x3DA).
#[derive(Debug, Copy, Clone, PartialEq, Eq, Structural)]
pub enum EmulationMode {
    /// Monochrome emulation: the MDA port group.
    Mda,
    /// Color emulation: the CGA port group.
    Cga,
}

/// The value of bit 0 of the Miscellaneous Output Register that selects
/// an emulation mode.
pub open spec fn emulation_mode_bit(m: EmulationMode) -> u8 {
    match m {
        EmulationMode::Mda => 0,
        EmulationMode::Cga => 1,
    }
}

/// The emulation mode selected by a Miscellaneous Output Register value.
pub open spec fn emulation_mode_of_msr(msr: u8) -> EmulationMode {
    if msr & 0x1 == 0 {
        EmulationMode::Mda
    } else {
        EmulationMode::Cga
    }
}

/// The register contents after an ordered list of (index, value) writes.
pub open spec fn apply_reg_writes(registers: Seq<u8>, l: Seq<(u8, u8)>) -> Seq<u8>
    decreases l.len(),
{
    if l.len() == 0 {
        registers
    } else {
        apply_reg_writes(registers.update(l[0].0 as int, l[0].1), l.drop_first())
    }
}

/// Whether some entry of a write list names index `i`.
pub open spec fn list_has_index(l: Seq<(u8, u8)>, i: int) -> bool {
    exists|k: int| 0 <= k < l.len() && (#[trigger] l[k]).0 == i
}

/// A write list ends with one more write appended.
pub proof fn lemma_apply_reg_writes_snoc(registers: Seq<u8>, l: Seq<(u8, u8)>, p: (u8, u8))
    ensures
        apply_reg_writes(registers, l.push(p)) == apply_reg_writes(registers, l).update(
            p.0 as int,
            p.1,
        ),
    decreases l.len(),
{
    if l.len() == 0 {
        assert(l.push(p)[0] == p);
        assert(l.push(p).drop_first() =~= Seq::<(u8, u8)>::empty());
        let registers1 = registers.update(p.0 as int, p.1);
        assert(apply_reg_writes(registers1, Seq::<(u8, u8)>::empty()) == registers1);
    } else {
        assert(l.push(p)[0] == l[0]);
        assert(l.push(p).drop_first() =~= l.drop_first().push(p));
        lemma_apply_reg_writes_snoc(registers.update(l[0].0 as int, l[0].1), l.drop_first(), p);
    }
}

/// Applying a write list keeps the register count.
pub proof fn lemma_apply_reg_writes_len(registers: Seq<u8>, l: Seq<(u8, u8)>)
    requires
        forall|k: int| 0 <= k < l.len() ==> (#[trigger] l[k]).0 < registers.len(),
    ensures
        apply_reg_writes(registers, l).len() == registers.len(),
    decreases l.len(),
{
    if l.len() > 0 {
        let tail = l.drop_first();
        assert(forall|k: int| 0 <= k < tail.len() ==> #[trigger] tail[k] == l[k + 1]);
        lemma_apply_reg_writes_len(registers.update(l[0].0 as int, l[0].1), tail);
    }
}

/// After a write list with strictly ascending indices, each register
/// named in the list holds the value written to it, and every other
/// register is untouched.
pub proof fn lemma_apply_reg_writes_readback(registers: Seq<u8>, l: Seq<(u8, u8)>)
    requires
        forall|j: int, k: int|
            #![trigger l[j], l[k]]
            0 <= j < k < l.len() ==> l[j].0 < l[k].0,
        forall|k: int| 0 <= k < l.len() ==> (#[trigger] l[k]).0 < registers.len(),
    ensures
        forall|k: int|
            0 <= k < l.len() ==> apply_reg_writes(registers, l)[(#[trigger] l[k]).0 as int]
                == l[k].1,
        forall|i: int|
            0 <= i < registers.len() && !list_has_index(l, i) ==> apply_reg_writes(registers, l)[i]
                == registers[i],
    decreases l.len(),
{
    if l.len() > 0 {
        let head = l[0];
        let tail = l.drop_first();
        let registers1 = registers.update(head.0 as int, head.1);
        assert(forall|k: int| 0 <= k < tail.len() ==> #[trigger] tail[k] == l[k + 1]);
        assert forall|j: int, k: int|
            #![trigger tail[j], tail[k]]
            0 <= j < k < tail.len() implies tail[j].0 < tail[k].0 by {
            assert(tail[j] == l[j + 1]);
            assert(tail[k] == l[k + 1]);
        }
        assert forall|k: int| 0 <= k < tail.len() implies (#[trigger] tail[k]).0
            < registers1.len() by {
            assert(tail[k] == l[k + 1]);
        }
        assert(apply_reg_writes(registers, l) == apply_reg_writes(registers1, tail));
        lemma_apply_reg_writes_readback(registers1, tail);
        let result = apply_reg_writes(registers, l);
        assert(!list_has_index(tail, head.0 as int)) by {
            if list_has_index(tail, head.0 as int) {
                let k = choose|k: int|
                    0 <= k < tail.len() && (#[trigger] tail[k]).0 == head.0 as int;
                assert(tail[k] == l[k + 1]);
                assert(l[0].0 < l[k + 1].0);
            }
        }
        assert(result[head.0 as int] == registers1[head.0 as int]);
        assert forall|k: int| 0 <= k < l.len() implies result[(#[trigger] l[k]).0 as int]
            == l[k].1 by {
            if k > 0 {
                assert(tail[k - 1] == l[k]);
                assert(apply_reg_writes(registers1, tail)[(tail[k - 1]).0 as int] == tail[k
                    - 1].1);
            }
        }
        assert forall|i: int| 0 <= i < registers.len() && !list_has_index(l, i) implies result[i]
            == registers[i] by {
            assert(!list_has_index(tail, i)) by {
                if list_has_index(tail, i) {
                    let k = choose|k: int| 0 <= k < tail.len() && (#[trigger] tail[k]).0 == i;
                    assert(l[k + 1].0 == i);
                }
            }
            if head.0 as int == i {
                assert((l[0]).0 == i);
                assert(list_has_index(l, i));
            }
            assert(result[i] == registers1[i]);
        }
    }
}

impl EmulationMode {
    /// The emulation mode a raw bit stands for.  Only 0 (monochrome) and
    /// 1 (color) name a mode; the caller masks the MSR down to its low bit.
    pub fn from(value: u8) -> (r: EmulationMode)
        requires
            value < 2,
        ensures
            r == (if value == 0 { EmulationMode::Mda } else { EmulationMode::Cga }),
    {
        if value == 0 {
            EmulationMode::Mda
        } else {
            EmulationMode::Cga
        }
    }
}

} // verus!
