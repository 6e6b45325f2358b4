//! The general registers: here only the Miscellaneous Output Register,
//! read at port 0x3CC and written at port 0x3C2, which among other things
//! selects the emulation mode through its bit 0.

use vstd::prelude::*;

verus! {

/// The general register file.  The model keeps the one register the
/// driver programs: the Miscellaneous Output Register.
#[derive(Debug, Clone, PartialEq, Eq, Structural)]
pub struct GeneralRegisters {
    /// Current value of the Miscellaneous Output Register.
    pub msr: u8,
}

impl GeneralRegisters {
    /// A general register file in its cleared power-on state.
    pub fn new() -> (r: GeneralRegisters)
        ensures
            r.msr == 0,
    {
        GeneralRegisters { msr: 0 }
    }

    /// Reads the Miscellaneous Output Register.
    pub fn read_msr(&mut self) -> (r: u8)
        ensures
            r == old(self).msr,
            *final(self) == *old(self),
    {
        self.msr
    }

    /// Writes the Miscellaneous Output Register.
    pub fn write_msr(&mut self, value: u8)
        ensures
            final(self).msr == value,
    {
        self.msr = value;
    }
}

} // verus!
