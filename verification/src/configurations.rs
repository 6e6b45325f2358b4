//! The register configuration of each supported video mode: one
//! Miscellaneous Output byte and an ordered (index, value) list for the
//! sequencer, CRTC, graphics controller and attribute controller files.
//! The order matters on hardware, so each list is programmed exactly as
//! written here; every list keeps its indices strictly ascending.

use crate::vga::VideoMode;
use vstd::prelude::*;

verus! {

/// The mathematical content of a mode configuration.
#[verifier::ext_equal]
pub struct ConfigurationSpec {
    /// The Miscellaneous Output Register byte.
    pub miscellaneous_output: u8,
    /// Ordered (index, value) writes for the sequencer.
    pub sequencer_registers: Seq<(u8, u8)>,
    /// Ordered (index, value) writes for the CRTC.
    pub crtc_controller_registers: Seq<(u8, u8)>,
    /// Ordered (index, value) writes for the graphics controller.
    pub graphics_controller_registers: Seq<(u8, u8)>,
    /// Ordered (index, value) writes for the attribute controller.
    pub attribute_controller_registers: Seq<(u8, u8)>,
}

/// A mode configuration as the driver carries it.
pub struct VgaConfiguration {
    /// The Miscellaneous Output Register byte.
    pub miscellaneous_output: u8,
    /// Ordered (index, value) writes for the sequencer.
    pub sequencer_registers: Vec<(u8, u8)>,
    /// Ordered (index, value) writes for the CRTC.
    pub crtc_controller_registers: Vec<(u8, u8)>,
    /// Ordered (index, value) writes for the graphics controller.
    pub graphics_controller_registers: Vec<(u8, u8)>,
    /// Ordered (index, value) writes for the attribute controller.
    pub attribute_controller_registers: Vec<(u8, u8)>,
}

impl View for VgaConfiguration {
    type V = ConfigurationSpec;

    open spec fn view(&self) -> ConfigurationSpec {
        ConfigurationSpec {
            miscellaneous_output: self.miscellaneous_output,
            sequencer_registers: self.sequencer_registers@,
            crtc_controller_registers: self.crtc_controller_registers@,
            graphics_controller_registers: self.graphics_controller_registers@,
            attribute_controller_registers: self.attribute_controller_registers@,
        }
    }
}

/// Whether the indices of a register list are strictly ascending.
pub open spec fn list_indices_ascending(l: Seq<(u8, u8)>) -> bool
    decreases l.len(),
{
    if l.len() <= 1 {
        true
    } else {
        l[0].0 < l[1].0 && list_indices_ascending(l.drop_first())
    }
}

/// Whether every index of a register list lies below `bound`.
pub open spec fn list_indices_below(l: Seq<(u8, u8)>, bound: u8) -> bool
    decreases l.len(),
{
    if l.len() == 0 {
        true
    } else {
        l[0].0 < bound && list_indices_below(l.drop_first(), bound)
    }
}

/// A configuration fit for programming: every list ascending and within
/// its register file.
pub open spec fn configuration_wf(c: ConfigurationSpec) -> bool {
    &&& list_indices_ascending(c.sequencer_registers)
    &&& list_indices_below(c.sequencer_registers, 8)
    &&& list_indices_ascending(c.crtc_controller_registers)
    &&& list_indices_below(c.crtc_controller_registers, 37)
    &&& list_indices_ascending(c.graphics_controller_registers)
    &&& list_indices_below(c.graphics_controller_registers, 25)
    &&& list_indices_ascending(c.attribute_controller_registers)
    &&& list_indices_below(c.attribute_controller_registers, 21)
}

/// Strictly ascending indices, element by element.
pub proof fn lemma_ascending_pairwise(l: Seq<(u8, u8)>)
    requires
        list_indices_ascending(l),
    ensures
        forall|j: int, k: int|
            #![trigger l[j], l[k]]
            0 <= j < k < l.len() ==> l[j].0 < l[k].0,
    decreases l.len(),
{
    if l.len() > 1 {
        let tail = l.drop_first();
        assert(forall|k: int| 0 <= k < tail.len() ==> #[trigger] tail[k] == l[k + 1]);
        lemma_ascending_pairwise(tail);
        assert forall|j: int, k: int|
            #![trigger l[j], l[k]]
            0 <= j < k < l.len() implies l[j].0 < l[k].0 by {
            if j == 0 {
                if k > 1 {
                    assert(tail[0].0 < tail[k - 1].0);
                }
            } else {
                assert(tail[j - 1].0 < tail[k - 1].0);
            }
        }
    }
}

/// Indices below a bound, element by element.
pub proof fn lemma_below_pairwise(l: Seq<(u8, u8)>, bound: u8)
    requires
        list_indices_below(l, bound),
    ensures
        forall|k: int| 0 <= k < l.len() ==> (#[trigger] l[k]).0 < bound,
    decreases l.len(),
{
    if l.len() > 0 {
        let tail = l.drop_first();
        assert(forall|k: int| 0 <= k < tail.len() ==> #[trigger] tail[k] == l[k + 1]);
        lemma_below_pairwise(tail, bound);
        assert forall|k: int| 0 <= k < l.len() implies (#[trigger] l[k]).0 < bound by {
            if k > 0 {
                assert(tail[k - 1].0 < bound);
            }
        }
    }
}

/// The register table of mode 40x25.
pub open spec fn mode_40x25_config() -> ConfigurationSpec {
    ConfigurationSpec {
        miscellaneous_output: 0x67,
        sequencer_registers: seq![(0x00u8, 0x03u8), (0x01u8, 0x08u8), (0x02u8, 0x03u8), (0x03u8, 0x00u8), (0x04u8, 0x02u8)],
        crtc_controller_registers: seq![(0x00u8, 0x2Du8), (0x01u8, 0x27u8), (0x02u8, 0x28u8), (0x03u8, 0x90u8), (0x04u8, 0x2Bu8), (0x05u8, 0xA0u8), (0x06u8, 0xBFu8), (0x07u8, 0x1Fu8), (0x08u8, 0x00u8), (0x09u8, 0x4Fu8), (0x0Au8, 0x0Du8), (0x0Bu8, 0x0Eu8), (0x0Cu8, 0x00u8), (0x0Du8, 0x00u8), (0x0Eu8, 0x00u8), (0x0Fu8, 0x00u8), (0x10u8, 0x9Cu8), (0x11u8, 0x8Eu8), (0x12u8, 0x8Fu8), (0x13u8, 0x14u8), (0x14u8, 0x1Fu8), (0x15u8, 0x96u8), (0x16u8, 0xB9u8), (0x17u8, 0xA3u8), (0x18u8, 0xFFu8)],
        graphics_controller_registers: seq![(0x00u8, 0x00u8), (0x01u8, 0x00u8), (0x02u8, 0x00u8), (0x03u8, 0x00u8), (0x04u8, 0x00u8), (0x05u8, 0x10u8), (0x06u8, 0x0Eu8), (0x07u8, 0x00u8), (0x08u8, 0xFFu8)],
        attribute_controller_registers: seq![(0x00u8, 0x00u8), (0x01u8, 0x01u8), (0x02u8, 0x02u8), (0x03u8, 0x03u8), (0x04u8, 0x04u8), (0x05u8, 0x05u8), (0x06u8, 0x14u8), (0x07u8, 0x07u8), (0x08u8, 0x38u8), (0x09u8, 0x39u8), (0x0Au8, 0x3Au8), (0x0Bu8, 0x3Bu8), (0x0Cu8, 0x3Cu8), (0x0Du8, 0x3Du8), (0x0Eu8, 0x3Eu8), (0x0Fu8, 0x3Fu8), (0x10u8, 0x0Cu8), (0x11u8, 0x00u8), (0x12u8, 0x0Fu8), (0x13u8, 0x08u8), (0x14u8, 0x00u8)],
    }
}

/// Builds the register table of mode 40x25.
pub fn mode_40x25() -> (c: VgaConfiguration)
    ensures
        c@ =~~= mode_40x25_config(),
{
    VgaConfiguration {
        miscellaneous_output: 0x67,
        sequencer_registers: vec![(0x00u8, 0x03u8), (0x01u8, 0x08u8), (0x02u8, 0x03u8), (0x03u8, 0x00u8), (0x04u8, 0x02u8)],
        crtc_controller_registers: vec![(0x00u8, 0x2Du8), (0x01u8, 0x27u8), (0x02u8, 0x28u8), (0x03u8, 0x90u8), (0x04u8, 0x2Bu8), (0x05u8, 0xA0u8), (0x06u8, 0xBFu8), (0x07u8, 0x1Fu8), (0x08u8, 0x00u8), (0x09u8, 0x4Fu8), (0x0Au8, 0x0Du8), (0x0Bu8, 0x0Eu8), (0x0Cu8, 0x00u8), (0x0Du8, 0x00u8), (0x0Eu8, 0x00u8), (0x0Fu8, 0x00u8), (0x10u8, 0x9Cu8), (0x11u8, 0x8Eu8), (0x12u8, 0x8Fu8), (0x13u8, 0x14u8), (0x14u8, 0x1Fu8), (0x15u8, 0x96u8), (0x16u8, 0xB9u8), (0x17u8, 0xA3u8), (0x18u8, 0xFFu8)],
        graphics_controller_registers: vec![(0x00u8, 0x00u8), (0x01u8, 0x00u8), (0x02u8, 0x00u8), (0x03u8, 0x00u8), (0x04u8, 0x00u8), (0x05u8, 0x10u8), (0x06u8, 0x0Eu8), (0x07u8, 0x00u8), (0x08u8, 0xFFu8)],
        attribute_controller_registers: vec![(0x00u8, 0x00u8), (0x01u8, 0x01u8), (0x02u8, 0x02u8), (0x03u8, 0x03u8), (0x04u8, 0x04u8), (0x05u8, 0x05u8), (0x06u8, 0x14u8), (0x07u8, 0x07u8), (0x08u8, 0x38u8), (0x09u8, 0x39u8), (0x0Au8, 0x3Au8), (0x0Bu8, 0x3Bu8), (0x0Cu8, 0x3Cu8), (0x0Du8, 0x3Du8), (0x0Eu8, 0x3Eu8), (0x0Fu8, 0x3Fu8), (0x10u8, 0x0Cu8), (0x11u8, 0x00u8), (0x12u8, 0x0Fu8), (0x13u8, 0x08u8), (0x14u8, 0x00u8)],
    }
}

/// The register table of mode 40x50.
pub open spec fn mode_40x50_config() -> ConfigurationSpec {
    ConfigurationSpec {
        miscellaneous_output: 0x67,
        sequencer_registers: seq![(0x00u8, 0x03u8), (0x01u8, 0x08u8), (0x02u8, 0x03u8), (0x03u8, 0x00u8), (0x04u8, 0x02u8)],
        crtc_controller_registers: seq![(0x00u8, 0x2Du8), (0x01u8, 0x27u8), (0x02u8, 0x28u8), (0x03u8, 0x90u8), (0x04u8, 0x2Bu8), (0x05u8, 0xA0u8), (0x06u8, 0xBFu8), (0x07u8, 0x1Fu8), (0x08u8, 0x00u8), (0x09u8, 0x47u8), (0x0Au8, 0x06u8), (0x0Bu8, 0x07u8), (0x0Cu8, 0x00u8), (0x0Du8, 0x00u8), (0x0Eu8, 0x00u8), (0x0Fu8, 0x00u8), (0x10u8, 0x9Cu8), (0x11u8, 0x8Eu8), (0x12u8, 0x8Fu8), (0x13u8, 0x14u8), (0x14u8, 0x1Fu8), (0x15u8, 0x96u8), (0x16u8, 0xB9u8), (0x17u8, 0xA3u8), (0x18u8, 0xFFu8)],
        graphics_controller_registers: seq![(0x00u8, 0x00u8), (0x01u8, 0x00u8), (0x02u8, 0x00u8), (0x03u8, 0x00u8), (0x04u8, 0x00u8), (0x05u8, 0x10u8), (0x06u8, 0x0Eu8), (0x07u8, 0x00u8), (0x08u8, 0xFFu8)],
        attribute_controller_registers: seq![(0x00u8, 0x00u8), (0x01u8, 0x01u8), (0x02u8, 0x02u8), (0x03u8, 0x03u8), (0x04u8, 0x04u8), (0x05u8, 0x05u8), (0x06u8, 0x14u8), (0x07u8, 0x07u8), (0x08u8, 0x38u8), (0x09u8, 0x39u8), (0x0Au8, 0x3Au8), (0x0Bu8, 0x3Bu8), (0x0Cu8, 0x3Cu8), (0x0Du8, 0x3Du8), (0x0Eu8, 0x3Eu8), (0x0Fu8, 0x3Fu8), (0x10u8, 0x0Cu8), (0x11u8, 0x00u8), (0x12u8, 0x0Fu8), (0x13u8, 0x08u8), (0x14u8, 0x00u8)],
    }
}

/// Builds the register table of mode 40x50.
pub fn mode_40x50() -> (c: VgaConfiguration)
    ensures
        c@ =~~= mode_40x50_config(),
{
    VgaConfiguration {
        miscellaneous_output: 0x67,
        sequencer_registers: vec![(0x00u8, 0x03u8), (0x01u8, 0x08u8), (0x02u8, 0x03u8), (0x03u8, 0x00u8), (0x04u8, 0x02u8)],
        crtc_controller_registers: vec![(0x00u8, 0x2Du8), (0x01u8, 0x27u8), (0x02u8, 0x28u8), (0x03u8, 0x90u8), (0x04u8, 0x2Bu8), (0x05u8, 0xA0u8), (0x06u8, 0xBFu8), (0x07u8, 0x1Fu8), (0x08u8, 0x00u8), (0x09u8, 0x47u8), (0x0Au8, 0x06u8), (0x0Bu8, 0x07u8), (0x0Cu8, 0x00u8), (0x0Du8, 0x00u8), (0x0Eu8, 0x00u8), (0x0Fu8, 0x00u8), (0x10u8, 0x9Cu8), (0x11u8, 0x8Eu8), (0x12u8, 0x8Fu8), (0x13u8, 0x14u8), (0x14u8, 0x1Fu8), (0x15u8, 0x96u8), (0x16u8, 0xB9u8), (0x17u8, 0xA3u8), (0x18u8, 0xFFu8)],
        graphics_controller_registers: vec![(0x00u8, 0x00u8), (0x01u8, 0x00u8), (0x02u8, 0x00u8), (0x03u8, 0x00u8), (0x04u8, 0x00u8), (0x05u8, 0x10u8), (0x06u8, 0x0Eu8), (0x07u8, 0x00u8), (0x08u8, 0xFFu8)],
        attribute_controller_registers: vec![(0x00u8, 0x00u8), (0x01u8, 0x01u8), (0x02u8, 0x02u8), (0x03u8, 0x03u8), (0x04u8, 0x04u8), (0x05u8, 0x05u8), (0x06u8, 0x14u8), (0x07u8, 0x07u8), (0x08u8, 0x38u8), (0x09u8, 0x39u8), (0x0Au8, 0x3Au8), (0x0Bu8, 0x3Bu8), (0x0Cu8, 0x3Cu8), (0x0Du8, 0x3Du8), (0x0Eu8, 0x3Eu8), (0x0Fu8, 0x3Fu8), (0x10u8, 0x0Cu8), (0x11u8, 0x00u8), (0x12u8, 0x0Fu8), (0x13u8, 0x08u8), (0x14u8, 0x00u8)],
    }
}

/// The register table of mode 80x25.
pub open spec fn mode_80x25_config() -> ConfigurationSpec {
    ConfigurationSpec {
        miscellaneous_output: 0x67,
        sequencer_registers: seq![(0x00u8, 0x03u8), (0x01u8, 0x00u8), (0x02u8, 0x03u8), (0x03u8, 0x00u8), (0x04u8, 0x02u8)],
        crtc_controller_registers: seq![(0x00u8, 0x5Fu8), (0x01u8, 0x4Fu8), (0x02u8, 0x50u8), (0x03u8, 0x82u8), (0x04u8, 0x55u8), (0x05u8, 0x81u8), (0x06u8, 0xBFu8), (0x07u8, 0x1Fu8), (0x08u8, 0x00u8), (0x09u8, 0x4Fu8), (0x0Au8, 0x0Du8), (0x0Bu8, 0x0Eu8), (0x0Cu8, 0x00u8), (0x0Du8, 0x00u8), (0x0Eu8, 0x00u8), (0x0Fu8, 0x00u8), (0x10u8, 0x9Cu8), (0x11u8, 0x8Eu8), (0x12u8, 0x8Fu8), (0x13u8, 0x28u8), (0x14u8, 0x1Fu8), (0x15u8, 0x96u8), (0x16u8, 0xB9u8), (0x17u8, 0xA3u8), (0x18u8, 0xFFu8)],
        graphics_controller_registers: seq![(0x00u8, 0x00u8), (0x01u8, 0x00u8), (0x02u8, 0x00u8), (0x03u8, 0x00u8), (0x04u8, 0x00u8), (0x05u8, 0x10u8), (0x06u8, 0x0Eu8), (0x07u8, 0x00u8), (0x08u8, 0xFFu8)],
        attribute_controller_registers: seq![(0x00u8, 0x00u8), (0x01u8, 0x01u8), (0x02u8, 0x02u8), (0x03u8, 0x03u8), (0x04u8, 0x04u8), (0x05u8, 0x05u8), (0x06u8, 0x14u8), (0x07u8, 0x07u8), (0x08u8, 0x38u8), (0x09u8, 0x39u8), (0x0Au8, 0x3Au8), (0x0Bu8, 0x3Bu8), (0x0Cu8, 0x3Cu8), (0x0Du8, 0x3Du8), (0x0Eu8, 0x3Eu8), (0x0Fu8, 0x3Fu8), (0x10u8, 0x0Cu8), (0x11u8, 0x00u8), (0x12u8, 0x0Fu8), (0x13u8, 0x08u8), (0x14u8, 0x00u8)],
    }
}

/// Builds the register table of mode 80x25.
pub fn mode_80x25() -> (c: VgaConfiguration)
    ensures
        c@ =~~= mode_80x25_config(),
{
    VgaConfiguration {
        miscellaneous_output: 0x67,
        sequencer_registers: vec![(0x00u8, 0x03u8), (0x01u8, 0x00u8), (0x02u8, 0x03u8), (0x03u8, 0x00u8), (0x04u8, 0x02u8)],
        crtc_controller_registers: vec![(0x00u8, 0x5Fu8), (0x01u8, 0x4Fu8), (0x02u8, 0x50u8), (0x03u8, 0x82u8), (0x04u8, 0x55u8), (0x05u8, 0x81u8), (0x06u8, 0xBFu8), (0x07u8, 0x1Fu8), (0x08u8, 0x00u8), (0x09u8, 0x4Fu8), (0x0Au8, 0x0Du8), (0x0Bu8, 0x0Eu8), (0x0Cu8, 0x00u8), (0x0Du8, 0x00u8), (0x0Eu8, 0x00u8), (0x0Fu8, 0x00u8), (0x10u8, 0x9Cu8), (0x11u8, 0x8Eu8), (0x12u8, 0x8Fu8), (0x13u8, 0x28u8), (0x14u8, 0x1Fu8), (0x15u8, 0x96u8), (0x16u8, 0xB9u8), (0x17u8, 0xA3u8), (0x18u8, 0xFFu8)],
        graphics_controller_registers: vec![(0x00u8, 0x00u8), (0x01u8, 0x00u8), (0x02u8, 0x00u8), (0x03u8, 0x00u8), (0x04u8, 0x00u8), (0x05u8, 0x10u8), (0x06u8, 0x0Eu8), (0x07u8, 0x00u8), (0x08u8, 0xFFu8)],
        attribute_controller_registers: vec![(0x00u8, 0x00u8), (0x01u8, 0x01u8), (0x02u8, 0x02u8), (0x03u8, 0x03u8), (0x04u8, 0x04u8), (0x05u8, 0x05u8), (0x06u8, 0x14u8), (0x07u8, 0x07u8), (0x08u8, 0x38u8), (0x09u8, 0x39u8), (0x0Au8, 0x3Au8), (0x0Bu8, 0x3Bu8), (0x0Cu8, 0x3Cu8), (0x0Du8, 0x3Du8), (0x0Eu8, 0x3Eu8), (0x0Fu8, 0x3Fu8), (0x10u8, 0x0Cu8), (0x11u8, 0x00u8), (0x12u8, 0x0Fu8), (0x13u8, 0x08u8), (0x14u8, 0x00u8)],
    }
}

/// The register table of mode 320x200x256.
pub open spec fn mode_320x200x256_config() -> ConfigurationSpec {
    ConfigurationSpec {
        miscellaneous_output: 0x63,
        sequencer_registers: seq![(0x00u8, 0x03u8), (0x01u8, 0x01u8), (0x02u8, 0x0Fu8), (0x03u8, 0x00u8), (0x04u8, 0x0Eu8)],
        crtc_controller_registers: seq![(0x00u8, 0x5Fu8), (0x01u8, 0x4Fu8), (0x02u8, 0x50u8), (0x03u8, 0x82u8), (0x04u8, 0x54u8), (0x05u8, 0x80u8), (0x06u8, 0xBFu8), (0x07u8, 0x1Fu8), (0x08u8, 0x00u8), (0x09u8, 0x41u8), (0x0Au8, 0x00u8), (0x0Bu8, 0x00u8), (0x0Cu8, 0x00u8), (0x0Du8, 0x00u8), (0x0Eu8, 0x00u8), (0x0Fu8, 0x00u8), (0x10u8, 0x9Cu8), (0x11u8, 0x8Eu8), (0x12u8, 0x8Fu8), (0x13u8, 0x28u8), (0x14u8, 0x40u8), (0x15u8, 0x96u8), (0x16u8, 0xB9u8), (0x17u8, 0xA3u8), (0x18u8, 0xFFu8)],
        graphics_controller_registers: seq![(0x00u8, 0x00u8), (0x01u8, 0x00u8), (0x02u8, 0x00u8), (0x03u8, 0x00u8), (0x04u8, 0x00u8), (0x05u8, 0x40u8), (0x06u8, 0x05u8), (0x07u8, 0x0Fu8), (0x08u8, 0xFFu8)],
        attribute_controller_registers: seq![(0x00u8, 0x00u8), (0x01u8, 0x01u8), (0x02u8, 0x02u8), (0x03u8, 0x03u8), (0x04u8, 0x04u8), (0x05u8, 0x05u8), (0x06u8, 0x06u8), (0x07u8, 0x07u8), (0x08u8, 0x08u8), (0x09u8, 0x09u8), (0x0Au8, 0x0Au8), (0x0Bu8, 0x0Bu8), (0x0Cu8, 0x0Cu8), (0x0Du8, 0x0Du8), (0x0Eu8, 0x0Eu8), (0x0Fu8, 0x0Fu8), (0x10u8, 0x41u8), (0x11u8, 0x00u8), (0x12u8, 0x0Fu8), (0x13u8, 0x00u8), (0x14u8, 0x00u8)],
    }
}

/// Builds the register table of mode 320x200x256.
pub fn mode_320x200x256() -> (c: VgaConfiguration)
    ensures
        c@ =~~= mode_320x200x256_config(),
{
    VgaConfiguration {
        miscellaneous_output: 0x63,
        sequencer_registers: vec![(0x00u8, 0x03u8), (0x01u8, 0x01u8), (0x02u8, 0x0Fu8), (0x03u8, 0x00u8), (0x04u8, 0x0Eu8)],
        crtc_controller_registers: vec![(0x00u8, 0x5Fu8), (0x01u8, 0x4Fu8), (0x02u8, 0x50u8), (0x03u8, 0x82u8), (0x04u8, 0x54u8), (0x05u8, 0x80u8), (0x06u8, 0xBFu8), (0x07u8, 0x1Fu8), (0x08u8, 0x00u8), (0x09u8, 0x41u8), (0x0Au8, 0x00u8), (0x0Bu8, 0x00u8), (0x0Cu8, 0x00u8), (0x0Du8, 0x00u8), (0x0Eu8, 0x00u8), (0x0Fu8, 0x00u8), (0x10u8, 0x9Cu8), (0x11u8, 0x8Eu8), (0x12u8, 0x8Fu8), (0x13u8, 0x28u8), (0x14u8, 0x40u8), (0x15u8, 0x96u8), (0x16u8, 0xB9u8), (0x17u8, 0xA3u8), (0x18u8, 0xFFu8)],
        graphics_controller_registers: vec![(0x00u8, 0x00u8), (0x01u8, 0x00u8), (0x02u8, 0x00u8), (0x03u8, 0x00u8), (0x04u8, 0x00u8), (0x05u8, 0x40u8), (0x06u8, 0x05u8), (0x07u8, 0x0Fu8), (0x08u8, 0xFFu8)],
        attribute_controller_registers: vec![(0x00u8, 0x00u8), (0x01u8, 0x01u8), (0x02u8, 0x02u8), (0x03u8, 0x03u8), (0x04u8, 0x04u8), (0x05u8, 0x05u8), (0x06u8, 0x06u8), (0x07u8, 0x07u8), (0x08u8, 0x08u8), (0x09u8, 0x09u8), (0x0Au8, 0x0Au8), (0x0Bu8, 0x0Bu8), (0x0Cu8, 0x0Cu8), (0x0Du8, 0x0Du8), (0x0Eu8, 0x0Eu8), (0x0Fu8, 0x0Fu8), (0x10u8, 0x41u8), (0x11u8, 0x00u8), (0x12u8, 0x0Fu8), (0x13u8, 0x00u8), (0x14u8, 0x00u8)],
    }
}

/// The register table of mode 320x240x256.
pub open spec fn mode_320x240x256_config() -> ConfigurationSpec {
    ConfigurationSpec {
        miscellaneous_output: 0xE3,
        sequencer_registers: seq![(0x00u8, 0x03u8), (0x01u8, 0x01u8), (0x02u8, 0x0Fu8), (0x03u8, 0x00u8), (0x04u8, 0x06u8)],
        crtc_controller_registers: seq![(0x00u8, 0x5Fu8), (0x01u8, 0x4Fu8), (0x02u8, 0x50u8), (0x03u8, 0x82u8), (0x04u8, 0x54u8), (0x05u8, 0x80u8), (0x06u8, 0x0Du8), (0x07u8, 0x3Eu8), (0x08u8, 0x00u8), (0x09u8, 0x41u8), (0x0Au8, 0x00u8), (0x0Bu8, 0x00u8), (0x0Cu8, 0x00u8), (0x0Du8, 0x00u8), (0x0Eu8, 0x00u8), (0x0Fu8, 0x00u8), (0x10u8, 0xEAu8), (0x11u8, 0xACu8), (0x12u8, 0xDFu8), (0x13u8, 0x28u8), (0x14u8, 0x00u8), (0x15u8, 0xE7u8), (0x16u8, 0x06u8), (0x17u8, 0xE3u8), (0x18u8, 0xFFu8)],
        graphics_controller_registers: seq![(0x00u8, 0x00u8), (0x01u8, 0x00u8), (0x02u8, 0x00u8), (0x03u8, 0x00u8), (0x04u8, 0x00u8), (0x05u8, 0x40u8), (0x06u8, 0x05u8), (0x07u8, 0x0Fu8), (0x08u8, 0xFFu8)],
        attribute_controller_registers: seq![(0x00u8, 0x00u8), (0x01u8, 0x01u8), (0x02u8, 0x02u8), (0x03u8, 0x03u8), (0x04u8, 0x04u8), (0x05u8, 0x05u8), (0x06u8, 0x06u8), (0x07u8, 0x07u8), (0x08u8, 0x08u8), (0x09u8, 0x09u8), (0x0Au8, 0x0Au8), (0x0Bu8, 0x0Bu8), (0x0Cu8, 0x0Cu8), (0x0Du8, 0x0Du8), (0x0Eu8, 0x0Eu8), (0x0Fu8, 0x0Fu8), (0x10u8, 0x41u8), (0x11u8, 0x00u8), (0x12u8, 0x0Fu8), (0x13u8, 0x00u8), (0x14u8, 0x00u8)],
    }
}

/// Builds the register table of mode 320x240x256.
pub fn mode_320x240x256() -> (c: VgaConfiguration)
    ensures
        c@ =~~= mode_320x240x256_config(),
{
    VgaConfiguration {
        miscellaneous_output: 0xE3,
        sequencer_registers: vec![(0x00u8, 0x03u8), (0x01u8, 0x01u8), (0x02u8, 0x0Fu8), (0x03u8, 0x00u8), (0x04u8, 0x06u8)],
        crtc_controller_registers: vec![(0x00u8, 0x5Fu8), (0x01u8, 0x4Fu8), (0x02u8, 0x50u8), (0x03u8, 0x82u8), (0x04u8, 0x54u8), (0x05u8, 0x80u8), (0x06u8, 0x0Du8), (0x07u8, 0x3Eu8), (0x08u8, 0x00u8), (0x09u8, 0x41u8), (0x0Au8, 0x00u8), (0x0Bu8, 0x00u8), (0x0Cu8, 0x00u8), (0x0Du8, 0x00u8), (0x0Eu8, 0x00u8), (0x0Fu8, 0x00u8), (0x10u8, 0xEAu8), (0x11u8, 0xACu8), (0x12u8, 0xDFu8), (0x13u8, 0x28u8), (0x14u8, 0x00u8), (0x15u8, 0xE7u8), (0x16u8, 0x06u8), (0x17u8, 0xE3u8), (0x18u8, 0xFFu8)],
        graphics_controller_registers: vec![(0x00u8, 0x00u8), (0x01u8, 0x00u8), (0x02u8, 0x00u8), (0x03u8, 0x00u8), (0x04u8, 0x00u8), (0x05u8, 0x40u8), (0x06u8, 0x05u8), (0x07u8, 0x0Fu8), (0x08u8, 0xFFu8)],
        attribute_controller_registers: vec![(0x00u8, 0x00u8), (0x01u8, 0x01u8), (0x02u8, 0x02u8), (0x03u8, 0x03u8), (0x04u8, 0x04u8), (0x05u8, 0x05u8), (0x06u8, 0x06u8), (0x07u8, 0x07u8), (0x08u8, 0x08u8), (0x09u8, 0x09u8), (0x0Au8, 0x0Au8), (0x0Bu8, 0x0Bu8), (0x0Cu8, 0x0Cu8), (0x0Du8, 0x0Du8), (0x0Eu8, 0x0Eu8), (0x0Fu8, 0x0Fu8), (0x10u8, 0x41u8), (0x11u8, 0x00u8), (0x12u8, 0x0Fu8), (0x13u8, 0x00u8), (0x14u8, 0x00u8)],
    }
}

/// The register table of mode 640x480x16.
pub open spec fn mode_640x480x16_config() -> ConfigurationSpec {
    ConfigurationSpec {
        miscellaneous_output: 0xE3,
        sequencer_registers: seq![(0x00u8, 0x03u8), (0x01u8, 0x01u8), (0x02u8, 0x0Fu8), (0x03u8, 0x00u8), (0x04u8, 0x06u8)],
        crtc_controller_registers: seq![(0x00u8, 0x5Fu8), (0x01u8, 0x4Fu8), (0x02u8, 0x50u8), (0x03u8, 0x82u8), (0x04u8, 0x54u8), (0x05u8, 0x80u8), (0x06u8, 0x0Bu8), (0x07u8, 0x3Eu8), (0x08u8, 0x00u8), (0x09u8, 0x40u8), (0x0Au8, 0x00u8), (0x0Bu8, 0x00u8), (0x0Cu8, 0x00u8), (0x0Du8, 0x00u8), (0x0Eu8, 0x00u8), (0x0Fu8, 0x00u8), (0x10u8, 0xEAu8), (0x11u8, 0x8Cu8), (0x12u8, 0xDFu8), (0x13u8, 0x28u8), (0x14u8, 0x00u8), (0x15u8, 0xE7u8), (0x16u8, 0x04u8), (0x17u8, 0xE3u8), (0x18u8, 0xFFu8)],
        graphics_controller_registers: seq![(0x00u8, 0x00u8), (0x01u8, 0x00u8), (0x02u8, 0x00u8), (0x03u8, 0x00u8), (0x04u8, 0x00u8), (0x05u8, 0x00u8), (0x06u8, 0x05u8), (0x07u8, 0x0Fu8), (0x08u8, 0xFFu8)],
        attribute_controller_registers: seq![(0x00u8, 0x00u8), (0x01u8, 0x01u8), (0x02u8, 0x02u8), (0x03u8, 0x03u8), (0x04u8, 0x04u8), (0x05u8, 0x05u8), (0x06u8, 0x14u8), (0x07u8, 0x07u8), (0x08u8, 0x38u8), (0x09u8, 0x39u8), (0x0Au8, 0x3Au8), (0x0Bu8, 0x3Bu8), (0x0Cu8, 0x3Cu8), (0x0Du8, 0x3Du8), (0x0Eu8, 0x3Eu8), (0x0Fu8, 0x3Fu8), (0x10u8, 0x01u8), (0x11u8, 0x00u8), (0x12u8, 0x0Fu8), (0x13u8, 0x00u8), (0x14u8, 0x00u8)],
    }
}

/// Builds the register table of mode 640x480x16.
pub fn mode_640x480x16() -> (c: VgaConfiguration)
    ensures
        c@ =~~= mode_640x480x16_config(),
{
    VgaConfiguration {
        miscellaneous_output: 0xE3,
        sequencer_registers: vec![(0x00u8, 0x03u8), (0x01u8, 0x01u8), (0x02u8, 0x0Fu8), (0x03u8, 0x00u8), (0x04u8, 0x06u8)],
        crtc_controller_registers: vec![(0x00u8, 0x5Fu8), (0x01u8, 0x4Fu8), (0x02u8, 0x50u8), (0x03u8, 0x82u8), (0x04u8, 0x54u8), (0x05u8, 0x80u8), (0x06u8, 0x0Bu8), (0x07u8, 0x3Eu8), (0x08u8, 0x00u8), (0x09u8, 0x40u8), (0x0Au8, 0x00u8), (0x0Bu8, 0x00u8), (0x0Cu8, 0x00u8), (0x0Du8, 0x00u8), (0x0Eu8, 0x00u8), (0x0Fu8, 0x00u8), (0x10u8, 0xEAu8), (0x11u8, 0x8Cu8), (0x12u8, 0xDFu8), (0x13u8, 0x28u8), (0x14u8, 0x00u8), (0x15u8, 0xE7u8), (0x16u8, 0x04u8), (0x17u8, 0xE3u8), (0x18u8, 0xFFu8)],
        graphics_controller_registers: vec![(0x00u8, 0x00u8), (0x01u8, 0x00u8), (0x02u8, 0x00u8), (0x03u8, 0x00u8), (0x04u8, 0x00u8), (0x05u8, 0x00u8), (0x06u8, 0x05u8), (0x07u8, 0x0Fu8), (0x08u8, 0xFFu8)],
        attribute_controller_registers: vec![(0x00u8, 0x00u8), (0x01u8, 0x01u8), (0x02u8, 0x02u8), (0x03u8, 0x03u8), (0x04u8, 0x04u8), (0x05u8, 0x05u8), (0x06u8, 0x14u8), (0x07u8, 0x07u8), (0x08u8, 0x38u8), (0x09u8, 0x39u8), (0x0Au8, 0x3Au8), (0x0Bu8, 0x3Bu8), (0x0Cu8, 0x3Cu8), (0x0Du8, 0x3Du8), (0x0Eu8, 0x3Eu8), (0x0Fu8, 0x3Fu8), (0x10u8, 0x01u8), (0x11u8, 0x00u8), (0x12u8, 0x0Fu8), (0x13u8, 0x00u8), (0x14u8, 0x00u8)],
    }
}

/// The register table of mode 1280x800x256.
pub open spec fn mode_1280x800x256_config() -> ConfigurationSpec {
    ConfigurationSpec {
        miscellaneous_output: 0xE3,
        sequencer_registers: seq![(0x00u8, 0x03u8), (0x01u8, 0x01u8), (0x02u8, 0x0Fu8), (0x03u8, 0x00u8), (0x04u8, 0x0Eu8)],
        crtc_controller_registers: seq![(0x00u8, 0x5Fu8), (0x01u8, 0x4Fu8), (0x02u8, 0x50u8), (0x03u8, 0x82u8), (0x04u8, 0x54u8), (0x05u8, 0x80u8), (0x06u8, 0xBFu8), (0x07u8, 0x1Fu8), (0x08u8, 0x00u8), (0x09u8, 0x41u8), (0x0Au8, 0x00u8), (0x0Bu8, 0x00u8), (0x0Cu8, 0x00u8), (0x0Du8, 0x00u8), (0x0Eu8, 0x00u8), (0x0Fu8, 0x00u8), (0x10u8, 0x9Cu8), (0x11u8, 0x8Eu8), (0x12u8, 0x8Fu8), (0x13u8, 0x28u8), (0x14u8, 0x40u8), (0x15u8, 0x96u8), (0x16u8, 0xB9u8), (0x17u8, 0xA3u8), (0x18u8, 0xFFu8)],
        graphics_controller_registers: seq![(0x00u8, 0x00u8), (0x01u8, 0x00u8), (0x02u8, 0x00u8), (0x03u8, 0x00u8), (0x04u8, 0x00u8), (0x05u8, 0x40u8), (0x06u8, 0x05u8), (0x07u8, 0x0Fu8), (0x08u8, 0xFFu8)],
        attribute_controller_registers: seq![(0x00u8, 0x00u8), (0x01u8, 0x01u8), (0x02u8, 0x02u8), (0x03u8, 0x03u8), (0x04u8, 0x04u8), (0x05u8, 0x05u8), (0x06u8, 0x06u8), (0x07u8, 0x07u8), (0x08u8, 0x08u8), (0x09u8, 0x09u8), (0x0Au8, 0x0Au8), (0x0Bu8, 0x0Bu8), (0x0Cu8, 0x0Cu8), (0x0Du8, 0x0Du8), (0x0Eu8, 0x0Eu8), (0x0Fu8, 0x0Fu8), (0x10u8, 0x41u8), (0x11u8, 0x00u8), (0x12u8, 0x0Fu8), (0x13u8, 0x00u8), (0x14u8, 0x00u8)],
    }
}

/// Builds the register table of mode 1280x800x256.
pub fn mode_1280x800x256() -> (c: VgaConfiguration)
    ensures
        c@ =~~= mode_1280x800x256_config(),
{
    VgaConfiguration {
        miscellaneous_output: 0xE3,
        sequencer_registers: vec![(0x00u8, 0x03u8), (0x01u8, 0x01u8), (0x02u8, 0x0Fu8), (0x03u8, 0x00u8), (0x04u8, 0x0Eu8)],
        crtc_controller_registers: vec![(0x00u8, 0x5Fu8), (0x01u8, 0x4Fu8), (0x02u8, 0x50u8), (0x03u8, 0x82u8), (0x04u8, 0x54u8), (0x05u8, 0x80u8), (0x06u8, 0xBFu8), (0x07u8, 0x1Fu8), (0x08u8, 0x00u8), (0x09u8, 0x41u8), (0x0Au8, 0x00u8), (0x0Bu8, 0x00u8), (0x0Cu8, 0x00u8), (0x0Du8, 0x00u8), (0x0Eu8, 0x00u8), (0x0Fu8, 0x00u8), (0x10u8, 0x9Cu8), (0x11u8, 0x8Eu8), (0x12u8, 0x8Fu8), (0x13u8, 0x28u8), (0x14u8, 0x40u8), (0x15u8, 0x96u8), (0x16u8, 0xB9u8), (0x17u8, 0xA3u8), (0x18u8, 0xFFu8)],
        graphics_controller_registers: vec![(0x00u8, 0x00u8), (0x01u8, 0x00u8), (0x02u8, 0x00u8), (0x03u8, 0x00u8), (0x04u8, 0x00u8), (0x05u8, 0x40u8), (0x06u8, 0x05u8), (0x07u8, 0x0Fu8), (0x08u8, 0xFFu8)],
        attribute_controller_registers: vec![(0x00u8, 0x00u8), (0x01u8, 0x01u8), (0x02u8, 0x02u8), (0x03u8, 0x03u8), (0x04u8, 0x04u8), (0x05u8, 0x05u8), (0x06u8, 0x06u8), (0x07u8, 0x07u8), (0x08u8, 0x08u8), (0x09u8, 0x09u8), (0x0Au8, 0x0Au8), (0x0Bu8, 0x0Bu8), (0x0Cu8, 0x0Cu8), (0x0Du8, 0x0Du8), (0x0Eu8, 0x0Eu8), (0x0Fu8, 0x0Fu8), (0x10u8, 0x41u8), (0x11u8, 0x00u8), (0x12u8, 0x0Fu8), (0x13u8, 0x00u8), (0x14u8, 0x00u8)],
    }
}

/// The register table of a video mode.
pub open spec fn mode_configuration(m: VideoMode) -> ConfigurationSpec {
    match m {
        VideoMode::Mode40x25 => mode_40x25_config(),
        VideoMode::Mode40x50 => mode_40x50_config(),
        VideoMode::Mode80x25 => mode_80x25_config(),
        VideoMode::Mode320x200x256 => mode_320x200x256_config(),
        VideoMode::Mode320x240x256 => mode_320x240x256_config(),
        VideoMode::Mode640x480x16 => mode_640x480x16_config(),
        VideoMode::Mode1280x800x256 => mode_1280x800x256_config(),
    }
}

/// Builds the register table of a video mode.
pub fn get_configuration(m: VideoMode) -> (c: VgaConfiguration)
    ensures
        c@ =~~= mode_configuration(m),
{
    match m {
        VideoMode::Mode40x25 => mode_40x25(),
        VideoMode::Mode40x50 => mode_40x50(),
        VideoMode::Mode80x25 => mode_80x25(),
        VideoMode::Mode320x200x256 => mode_320x200x256(),
        VideoMode::Mode320x240x256 => mode_320x240x256(),
        VideoMode::Mode640x480x16 => mode_640x480x16(),
        VideoMode::Mode1280x800x256 => mode_1280x800x256(),
    }
}

/// Every mode's register table is fit for programming.
pub proof fn lemma_mode_configuration_wf(m: VideoMode)
    ensures
        configuration_wf(mode_configuration(m)),
{
    reveal_with_fuel(list_indices_ascending, 27);
    reveal_with_fuel(list_indices_below, 27);
    match m {
        VideoMode::Mode40x25 => {
            assert(configuration_wf(mode_40x25_config()));
        },
        VideoMode::Mode40x50 => {
            assert(configuration_wf(mode_40x50_config()));
        },
        VideoMode::Mode80x25 => {
            assert(configuration_wf(mode_80x25_config()));
        },
        VideoMode::Mode320x200x256 => {
            assert(configuration_wf(mode_320x200x256_config()));
        },
        VideoMode::Mode320x240x256 => {
            assert(configuration_wf(mode_320x240x256_config()));
        },
        VideoMode::Mode640x480x16 => {
            assert(configuration_wf(mode_640x480x16_config()));
        },
        VideoMode::Mode1280x800x256 => {
            assert(configuration_wf(mode_1280x800x256_config()));
        },
    }
}

} // verus!
