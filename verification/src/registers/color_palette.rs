//! The DAC palette registers: write index port 0x3C8, read index port
//! 0x3C7, data port 0x3C9.  The DAC holds 256 colors of three six-bit
//! channels; each data access moves an internal position one byte
//! forward, wrapping after the last channel of the last color.

use vstd::pervasive::VecAdditionalExecFns;
use vstd::prelude::*;

verus! {

/// Number of palette bytes: 256 colors, 3 channels each.
pub const PALETTE_BYTES: usize = 768;

/// The DAC palette registers, with their read and write positions held
/// as flat byte offsets into the 768-byte palette.
#[derive(Debug, Clone, PartialEq, Eq)]
pub struct ColorPaletteRegisters {
    /// The 768 palette bytes.
    pub data: Vec<u8>,
    /// Byte position the next data-port write stores to.
    pub write_pos: usize,
    /// Byte position the next data-port read returns.
    pub read_pos: usize,
}

/// What a full load of `palette` leaves behind: the DAC holds exactly
/// `palette` and the write position has wrapped back to the start.
pub open spec fn load_palette_post(
    pre: ColorPaletteRegisters,
    post: ColorPaletteRegisters,
    palette: Seq<u8>,
) -> bool {
    &&& post.data@ == palette
    &&& post.write_pos == 0
    &&& post.read_pos == pre.read_pos
}

/// What a full read of the palette returns.
pub open spec fn read_palette_result(r: ColorPaletteRegisters) -> Seq<u8> {
    r.data@
}

impl ColorPaletteRegisters {
    /// The file holds all 768 palette bytes.
    pub open spec fn wf(&self) -> bool {
        self.data@.len() == PALETTE_BYTES
    }

    /// A palette file in its cleared power-on state.
    pub fn new() -> (r: ColorPaletteRegisters)
        ensures
            r.wf(),
            r.write_pos == 0,
            r.read_pos == 0,
            forall|i: int| 0 <= i < PALETTE_BYTES ==> r.data@[i] == 0,
    {
        let mut data: Vec<u8> = Vec::new();
        let mut i: usize = 0;
        while i < PALETTE_BYTES
            invariant
                i <= PALETTE_BYTES,
                data@.len() == i,
                forall|k: int| 0 <= k < i ==> data@[k] == 0,
            decreases PALETTE_BYTES - i,
        {
            data.push(0);
            i = i + 1;
        }
        ColorPaletteRegisters { data, write_pos: 0, read_pos: 0 }
    }

    /// Loads a full 256-color palette: one write of 0 to the write index
    /// port, then 768 sequential data-port writes.
    pub fn load_palette(&mut self, palette: &Vec<u8>)
        requires
            old(self).wf(),
            palette@.len() == PALETTE_BYTES,
        ensures
            final(self).wf(),
            load_palette_post(*old(self), *final(self), palette@),
    {
        self.write_pos = 0;
        let mut i: usize = 0;
        while i < PALETTE_BYTES
            invariant
                i <= PALETTE_BYTES,
                self.wf(),
                palette@.len() == PALETTE_BYTES,
                self.write_pos == (if i < PALETTE_BYTES { i } else { 0 }),
                self.read_pos == old(self).read_pos,
                forall|k: int| 0 <= k < i ==> self.data@[k] == palette@[k],
                forall|k: int| i <= k < PALETTE_BYTES ==> self.data@[k] == old(self).data@[k],
            decreases PALETTE_BYTES - i,
        {
            self.data.set(self.write_pos, palette[i]);
            self.write_pos = if self.write_pos + 1 == PALETTE_BYTES {
                0
            } else {
                self.write_pos + 1
            };
            i = i + 1;
        }
        assert(self.data@ =~= palette@);
    }

    /// Reads the full palette back: one write of 0 to the read index
    /// port, then 768 sequential data-port reads into `palette`.
    pub fn read_palette(&mut self, palette: &mut Vec<u8>)
        requires
            old(self).wf(),
            old(palette)@.len() == PALETTE_BYTES,
        ensures
            final(self).wf(),
            final(self).data == old(self).data,
            final(self).write_pos == old(self).write_pos,
            final(self).read_pos == 0,
            final(palette)@ == old(self).data@,
    {
        self.read_pos = 0;
        let mut i: usize = 0;
        while i < PALETTE_BYTES
            invariant
                i <= PALETTE_BYTES,
                self.wf(),
                palette@.len() == PALETTE_BYTES,
                self.data == old(self).data,
                self.write_pos == old(self).write_pos,
                self.read_pos == (if i < PALETTE_BYTES { i } else { 0 }),
                forall|k: int| 0 <= k < i ==> palette@[k] == self.data@[k],
            decreases PALETTE_BYTES - i,
        {
            let byte = self.data[self.read_pos];
            palette.set(i, byte);
            self.read_pos = if self.read_pos + 1 == PALETTE_BYTES {
                0
            } else {
                self.read_pos + 1
            };
            i = i + 1;
        }
        assert(palette@ =~= self.data@);
    }
}

/// After any 768-byte palette is loaded, reading the palette back
/// returns it byte for byte.
pub proof fn lemma_palette_round_trip(
    pre: ColorPaletteRegisters,
    post: ColorPaletteRegisters,
    palette: Seq<u8>,
)
    requires
        palette.len() == PALETTE_BYTES,
        load_palette_post(pre, post, palette),
    ensures
        read_palette_result(post) == palette,
{
}

} // verus!
