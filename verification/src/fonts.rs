//! Text-mode fonts: the glyph lookup into the basic 8-by-8 bitmap set,
//! and the flat font tables uploaded to plane 2 for the text modes.

use vstd::prelude::*;

verus! {

/// The 8-byte bitmap the basic font set holds for a character, when it
/// holds one.  Row `r` of the glyph is byte `r`; bit `b` of a row is the
/// pixel at horizontal offset `b`.
pub uninterp spec fn basic_glyph(c: char) -> Option<Seq<u8>>;

/// Relies on font8x8's `BASIC_FONTS.get`: the bitmap returned depends on
/// the character alone, and is present exactly for the characters the
/// basic set covers.
#[verifier::external_body]
fn basic_font_get(c: char) -> (r: Option<[u8; 8]>)
    ensures
        r is Some <==> basic_glyph(c) is Some,
        r matches Some(g) ==> basic_glyph(c) == Some(g@),
{
    font8x8::unicode::UnicodeFonts::get(&font8x8::BASIC_FONTS, c)
}

/// The glyph drawn for a character: its basic-set bitmap, or a solid
/// 8-by-8 block for characters the set does not cover.
pub open spec fn glyph_rows(c: char) -> Seq<u8> {
    match basic_glyph(c) {
        Some(rows) => rows,
        None => seq![0xFFu8; 8],
    }
}

/// Looks a character's glyph up, falling back to the solid block.
pub fn glyph_for(c: char) -> (g: [u8; 8])
    ensures
        g@ == glyph_rows(c),
        g@.len() == 8,
{
    match basic_font_get(c) {
        Some(g) => g,
        None => {
            let block: [u8; 8] = [0xFF, 0xFF, 0xFF, 0xFF, 0xFF, 0xFF, 0xFF, 0xFF];
            assert(block@ =~= seq![0xFFu8; 8]);
            block
        },
    }
}

/// A flat text-mode font: `characters` glyphs of `character_height`
/// bytes each, one byte per scan line.
pub struct VgaFont {
    /// Number of glyphs.
    pub characters: usize,
    /// Scan lines per glyph.
    pub character_height: usize,
    /// The glyph bytes, glyph after glyph.
    pub data: Vec<u8>,
}

impl VgaFont {
    /// The font fits the 32-byte glyph slots of plane 2.
    pub open spec fn wf(&self) -> bool {
        &&& self.characters <= 2048
        &&& self.character_height <= 32
        &&& self.data@.len() == self.characters * self.character_height
    }
}

/// Scan line `r` of character `c` in the 8-scan-line font.
pub open spec fn font_8x8_byte(c: int, r: int) -> u8 {
    glyph_rows(c as u8 as char)[r]
}

/// Scan line `r` of character `c` in the 16-scan-line font: the 8-by-8
/// glyph with every row doubled.
pub open spec fn font_8x16_byte(c: int, r: int) -> u8 {
    glyph_rows(c as u8 as char)[r / 2]
}

/// The 8-by-8 text font: 256 characters, one glyph row per scan line.
pub fn text_8x8_font() -> (f: VgaFont)
    ensures
        f.wf(),
        f.characters == 256,
        f.character_height == 8,
        forall|c: int, r: int|
            0 <= c < 256 && 0 <= r < 8 ==> f.data@[c * 8 + r] == font_8x8_byte(c, r),
{
    let mut data: Vec<u8> = Vec::new();
    let mut c: usize = 0;
    while c < 256
        invariant
            c <= 256,
            data@.len() == c * 8,
            forall|c2: int, r: int|
                0 <= c2 < c && 0 <= r < 8 ==> data@[c2 * 8 + r] == font_8x8_byte(c2, r),
        decreases 256 - c,
    {
        let glyph = glyph_for(c as u8 as char);
        let mut r: usize = 0;
        while r < 8
            invariant
                r <= 8,
                c < 256,
                glyph@ == glyph_rows(c as u8 as char),
                data@.len() == c * 8 + r,
                forall|c2: int, r2: int|
                    0 <= c2 < c && 0 <= r2 < 8 ==> data@[c2 * 8 + r2] == font_8x8_byte(c2, r2),
                forall|r2: int| 0 <= r2 < r ==> data@[c * 8 + r2] == font_8x8_byte(c as int, r2),
            decreases 8 - r,
        {
            data.push(glyph[r]);
            r = r + 1;
        }
        c = c + 1;
    }
    VgaFont { characters: 256, character_height: 8, data }
}

/// The 8-by-16 text font: 256 characters, each 8-by-8 glyph stretched to
/// sixteen scan lines by doubling every row.
pub fn text_8x16_font() -> (f: VgaFont)
    ensures
        f.wf(),
        f.characters == 256,
        f.character_height == 16,
        forall|c: int, r: int|
            0 <= c < 256 && 0 <= r < 16 ==> f.data@[c * 16 + r] == font_8x16_byte(c, r),
{
    let mut data: Vec<u8> = Vec::new();
    let mut c: usize = 0;
    while c < 256
        invariant
            c <= 256,
            data@.len() == c * 16,
            forall|c2: int, r: int|
                0 <= c2 < c && 0 <= r < 16 ==> data@[c2 * 16 + r] == font_8x16_byte(c2, r),
        decreases 256 - c,
    {
        let glyph = glyph_for(c as u8 as char);
        let mut r: usize = 0;
        while r < 16
            invariant
                r <= 16,
                c < 256,
                glyph@ == glyph_rows(c as u8 as char),
                data@.len() == c * 16 + r,
                forall|c2: int, r2: int|
                    0 <= c2 < c && 0 <= r2 < 16 ==> data@[c2 * 16 + r2] == font_8x16_byte(c2, r2),
                forall|r2: int| 0 <= r2 < r ==> data@[c * 16 + r2] == font_8x16_byte(c as int, r2),
            decreases 16 - r,
        {
            data.push(glyph[r / 2]);
            r = r + 1;
        }
        c = c + 1;
    }
    VgaFont { characters: 256, character_height: 16, data }
}

} // verus!
