//! Character maps: the rules that turn a block of luminance samples into one
//! glyph.
//!
//! The ramps below are strings of characters ordered from sparse to dense.
//! A ramp becomes a lookup map that reads one sample for each glyph. The
//! other maps read a block of samples, light one dot of the glyph for each
//! bright sample, and so draw several samples with one character:
//!
//! * `CHARS1`: 10 characters, ASCII only.
//! * `CHARS2`: 67 characters, ASCII only.
//! * `CHARS3`: 92 characters, ASCII only.
//! * `SOLID`: 1 character, a solid block.
//! * `DOTTED`: 1 character, a dotted block.
//! * `GRADIENT`: 5 characters, a gradient of solid blocks.
//! * `BLACKWHITE`: 2 characters, a space and a solid block.
//! * `BW_DOTTED`: 2 characters, a space and a dotted block.
use crate::pipeline::buffers::{BlockView, PixelBlock};
use vstd::prelude::*;

verus! {

/// Ramp of 10 characters.
pub const CHARS1: &'static str = " .:-=+*#%@";

/// Ramp of 67 characters.
pub const CHARS2: &'static str =
    " .'`^\",:;Il!i~+_-?][}{1)(|/tfjrxnuvczXYUJCLQ0OZmwqpdbkhao*#MW&8%B@$";

/// Ramp of 92 characters.
pub const CHARS3: &'static str =
    " `.-':_,^=;><+!rc*/z?sLTv)J7(|Fi{C}fI31tlu[neoZ5Yxjya]2ESwqkP6h9d4VpOGbUAKXHm8RD#$Bg0MNWQ%&@";

/// One solid block.
pub const SOLID: &'static str = "\u{2588}";

/// One dotted block.
pub const DOTTED: &'static str = "\u{28FF}";

/// Five steps from blank to a solid block.
pub const GRADIENT: &'static str = " \u{2591}\u{2592}\u{2593}\u{2588}";

/// A space and a solid block.
pub const BLACKWHITE: &'static str = " \u{2588}";

/// A space and a dotted block.
pub const BW_DOTTED: &'static str = " \u{28FF}";

/// Samples above this luminance light their dot.
pub const THRESHOLD: u8 = 127;

/// Code point of the Braille cell with no dot raised.
pub const BRAILLE_BLANK: u32 = 0x2800;

/// Code point of the first sextant glyph.
pub const MOSAIC_BASE: u32 = 0x1FB00;

/// Code point that the teletext glyph of the empty mask has.
pub const TELETEXT_BASE: u32 = 0xE020;

/// First code point of the range kept for teletext glyphs.
pub const TELETEXT_FIRST: u32 = 0xE000;

/// Last code point of the range kept for teletext glyphs.
pub const TELETEXT_LAST: u32 = 0xE0FF;

/// `char::from_u32`: the character with the given code point, for every code
/// point that is a Unicode scalar value, that is for all up to 0x10FFFF but
/// the surrogates 0xD800 to 0xDFFF; none for any other number.
pub assume_specification[ char::from_u32 ](code: u32) -> (c: Option<char>)
    ensures
        c == (if code <= 0xD7FF || (0xE000 <= code && code <= 0x10FFFF) {
            Some(code as char)
        } else {
            None::<char>
        }),
;

/// Whether a sample is bright enough to light its dot.
pub open spec fn lit(sample: u8) -> bool {
    sample > THRESHOLD
}

/// What a sample adds to the mask of its block: the weight of its dot if the
/// sample is lit, nothing if it is not.
pub open spec fn dot(sample: u8, weight: nat) -> nat {
    if lit(sample) {
        weight
    } else {
        0
    }
}

/// Position in a ramp of `len` characters of the character for one sample:
/// the ramp is spread evenly over the 256 levels of luminance.
pub open spec fn lookup_index(len: nat, luminance: u8) -> nat {
    (len * luminance / 256) as nat
}

/// The mask of raised dots of a Braille cell: the two columns and four rows
/// of the block, each with the weight that the Braille patterns give its dot.
pub open spec fn braille_mask(block: BlockView) -> nat {
    dot(block.at(0, 0), 0x01) + dot(block.at(1, 0), 0x08) + dot(block.at(0, 1), 0x02) + dot(
        block.at(1, 1),
        0x10,
    ) + dot(block.at(0, 2), 0x04) + dot(block.at(1, 2), 0x20) + dot(block.at(0, 3), 0x40) + dot(
        block.at(1, 3),
        0x80,
    )
}

/// The mask of lit cells of a mosaic glyph: the two columns and three rows of
/// the block, row by row, each with the next power of two.
pub open spec fn mosaic_mask(block: BlockView) -> nat {
    dot(block.at(0, 0), 0x01) + dot(block.at(1, 0), 0x02) + dot(block.at(0, 1), 0x04) + dot(
        block.at(1, 1),
        0x08,
    ) + dot(block.at(0, 2), 0x10) + dot(block.at(1, 2), 0x20)
}

/// Code point of the sextant glyph with the given mask of lit cells. The
/// sextant block counts the masks in order but leaves out the empty cell, the
/// two half blocks and the full block, which have code points of their own.
pub open spec fn mosaic_code(mask: nat) -> nat {
    if mask == 0 {
        0x20
    } else if mask <= 0x14 {
        (MOSAIC_BASE + mask - 0x01) as nat
    } else if mask == 0x15 {
        0x258C
    } else if mask <= 0x29 {
        (MOSAIC_BASE + mask - 0x02) as nat
    } else if mask == 0x2A {
        0x2590
    } else if mask <= 0x3E {
        (MOSAIC_BASE + mask - 0x03) as nat
    } else {
        0x2588
    }
}

/// Code point of the teletext glyph with the given mask of lit cells: the
/// five low bits of the mask stay where they are and the sixth moves up by
/// one place.
pub open spec fn teletext_code(mask: u8) -> nat {
    (TELETEXT_BASE + (mask as u32 & 0x1F) + ((mask as u32 & 0x20) << 1)) as nat
}

/// The same code point by plain arithmetic: masks from 0x20 on lie 0x20
/// further up.
pub open spec fn teletext_code_by_range(mask: nat) -> nat {
    if mask < 0x20 {
        TELETEXT_BASE as nat + mask
    } else {
        TELETEXT_BASE as nat + mask + 0x20
    }
}

/// The sextant glyph for a mask of lit cells.
pub fn mosaic_char(bitmask: u8) -> (glyph: char)
    requires
        bitmask <= 0x3F,
    ensures
        glyph as nat == mosaic_code(bitmask as nat),
{
    let code: u32 = if bitmask == 0 {
        0x20
    } else if bitmask <= 0x14 {
        MOSAIC_BASE + bitmask as u32 - 0x01
    } else if bitmask == 0x15 {
        0x258C
    } else if bitmask <= 0x29 {
        MOSAIC_BASE + bitmask as u32 - 0x02
    } else if bitmask == 0x2A {
        0x2590
    } else if bitmask <= 0x3E {
        MOSAIC_BASE + bitmask as u32 - 0x03
    } else {
        0x2588
    };
    char::from_u32(code).unwrap()
}

/// The teletext glyph for a mask of lit cells.
pub fn teletext_mosaic_char(bitmask: u8) -> (glyph: char)
    requires
        bitmask < 0x40,
    ensures
        glyph as nat == teletext_code(bitmask),
        TELETEXT_FIRST <= glyph as nat <= TELETEXT_LAST,
{
    let bitmask = bitmask as u32;
    assert((bitmask & 0x1F) <= 0x1F && ((bitmask & 0x20) << 1) <= 0x40) by (bit_vector);
    let mosaic: u32 = TELETEXT_BASE + (bitmask & 0x1F) + ((bitmask & 0x20) << 1);
    char::from_u32(mosaic).unwrap()
}

/// A rule that picks one character for a block of luminance samples.
///
/// A map fixes the size of the block it reads, the character it gives for
/// each block of that size, and the text that must open every line of its
/// output.
pub trait CharMap: Clone {
    /// Whether the map can give a glyph at all.
    spec fn wf(&self) -> bool;

    /// Width and height of the block that decides one glyph.
    spec fn subpixels(&self) -> (u32, u32);

    /// The glyph for a block.
    spec fn glyph(&self, block: BlockView) -> char;

    /// The text that opens every line.
    spec fn line_prefix(&self) -> Seq<char>;

    /// Picks the glyph for the block in the top left corner of `image`.
    fn get_char(&self, image: &PixelBlock) -> (glyph: char)
        requires
            self.wf(),
            image@.width >= self.subpixels().0,
            image@.height >= self.subpixels().1,
        ensures
            glyph == self.glyph(image@),
    ;

    /// Width and height of the block that decides one glyph, both at least
    /// one.
    fn get_subpixels(&self) -> (dims: (u32, u32))
        ensures
            dims == self.subpixels(),
            dims.0 >= 1,
            dims.1 >= 1,
    ;

    /// The text that opens every line.
    fn get_line_prefix(&self) -> (prefix: &str)
        ensures
            prefix@ == self.line_prefix(),
    ;
}

/// The weight of the dot at column `x` of row `y`, if its sample is lit.
fn sample_dot(image: &PixelBlock, x: u32, y: u32, weight: u32) -> (mask: u32)
    requires
        x < image@.width,
        y < image@.height,
    ensures
        mask == dot(image@.at(x as int, y as int), weight as nat),
{
    if image.get_pixel(x, y) > THRESHOLD {
        weight
    } else {
        0
    }
}

/// The mask of lit cells of the two by three block in the corner of `image`.
fn sample_mosaic(image: &PixelBlock) -> (mask: u8)
    requires
        image@.width >= 2,
        image@.height >= 3,
    ensures
        mask == mosaic_mask(image@),
        mask <= 0x3F,
{
    let mosaic: u32 = sample_dot(image, 0, 0, 0x01) + sample_dot(image, 1, 0, 0x02) + sample_dot(
        image,
        0,
        1,
        0x04,
    ) + sample_dot(image, 1, 1, 0x08) + sample_dot(image, 0, 2, 0x10) + sample_dot(
        image,
        1,
        2,
        0x20,
    );
    mosaic as u8
}

/// A ramp of characters: one sample picks one character, darker samples
/// those near the front.
impl CharMap for Vec<char> {
    open spec fn wf(&self) -> bool {
        self@.len() > 0
    }

    open spec fn subpixels(&self) -> (u32, u32) {
        (1, 1)
    }

    open spec fn glyph(&self, block: BlockView) -> char {
        self@[lookup_index(self@.len(), block.at(0, 0)) as int]
    }

    open spec fn line_prefix(&self) -> Seq<char> {
        Seq::empty()
    }

    fn get_char(&self, image: &PixelBlock) -> (glyph: char) {
        let lum = image.get_pixel(0, 0);
        proof {
            lemma_lookup_index_in_ramp(self@.len(), lum);
        }
        assert(self.len() as u128 * lum as u128 <= u128::MAX) by (nonlinear_arith)
            requires
                self.len() <= u64::MAX,
                lum <= 255,
        ;
        let lookup_idx = (self.len() as u128 * lum as u128 / 256) as usize;
        self[lookup_idx]
    }

    fn get_subpixels(&self) -> (dims: (u32, u32)) {
        (1, 1)
    }

    fn get_line_prefix(&self) -> (prefix: &str) {
        proof {
            reveal_strlit("");
        }
        ""
    }
}

/// Braille patterns: a block of two by four samples raises the dots of one
/// Braille cell.
#[derive(Debug, Clone, Copy, PartialEq, Eq)]
pub struct Braille;

impl CharMap for Braille {
    open spec fn wf(&self) -> bool {
        true
    }

    open spec fn subpixels(&self) -> (u32, u32) {
        (2, 4)
    }

    open spec fn glyph(&self, block: BlockView) -> char {
        (BRAILLE_BLANK + braille_mask(block)) as char
    }

    open spec fn line_prefix(&self) -> Seq<char> {
        Seq::empty()
    }

    fn get_char(&self, image: &PixelBlock) -> (glyph: char) {
        let d0 = sample_dot(image, 0, 0, 0x01);
        let d1 = sample_dot(image, 1, 0, 0x08);
        let d2 = sample_dot(image, 0, 1, 0x02);
        let d3 = sample_dot(image, 1, 1, 0x10);
        let d4 = sample_dot(image, 0, 2, 0x04);
        let d5 = sample_dot(image, 1, 2, 0x20);
        let d6 = sample_dot(image, 0, 3, 0x40);
        let d7 = sample_dot(image, 1, 3, 0x80);
        let braille = BRAILLE_BLANK | d0 | d1 | d2 | d3 | d4 | d5 | d6 | d7;
        assert(0x2800u32 | d0 | d1 | d2 | d3 | d4 | d5 | d6 | d7 == 0x2800u32 + d0 + d1 + d2 + d3
            + d4 + d5 + d6 + d7) by (bit_vector)
            requires
                d0 == 0 || d0 == 0x01,
                d1 == 0 || d1 == 0x08,
                d2 == 0 || d2 == 0x02,
                d3 == 0 || d3 == 0x10,
                d4 == 0 || d4 == 0x04,
                d5 == 0 || d5 == 0x20,
                d6 == 0 || d6 == 0x40,
                d7 == 0 || d7 == 0x80,
        ;
        char::from_u32(braille).unwrap()
    }

    fn get_subpixels(&self) -> (dims: (u32, u32)) {
        (2, 4)
    }

    fn get_line_prefix(&self) -> (prefix: &str) {
        proof {
            reveal_strlit("");
        }
        ""
    }
}

/// Sextants: a block of two by three samples lights the cells of one block
/// mosaic glyph.
#[derive(Debug, Clone, Copy, PartialEq, Eq)]
pub struct Mosaic;

impl CharMap for Mosaic {
    open spec fn wf(&self) -> bool {
        true
    }

    open spec fn subpixels(&self) -> (u32, u32) {
        (2, 3)
    }

    open spec fn glyph(&self, block: BlockView) -> char {
        mosaic_code(mosaic_mask(block)) as char
    }

    open spec fn line_prefix(&self) -> Seq<char> {
        Seq::empty()
    }

    fn get_char(&self, image: &PixelBlock) -> (glyph: char) {
        mosaic_char(sample_mosaic(image))
    }

    fn get_subpixels(&self) -> (dims: (u32, u32)) {
        (2, 3)
    }

    fn get_line_prefix(&self) -> (prefix: &str) {
        proof {
            reveal_strlit("");
        }
        ""
    }
}

/// Teletext mosaics: a block of two by three samples lights the cells of one
/// glyph of the teletext graphics set. Every line opens with the control
/// character that switches a teletext display to graphics.
#[derive(Debug, Clone, Copy, PartialEq, Eq)]
pub struct TeletextMosaic;

impl CharMap for TeletextMosaic {
    open spec fn wf(&self) -> bool {
        true
    }

    open spec fn subpixels(&self) -> (u32, u32) {
        (2, 3)
    }

    open spec fn glyph(&self, block: BlockView) -> char {
        teletext_code(mosaic_mask(block) as u8) as char
    }

    open spec fn line_prefix(&self) -> Seq<char> {
        seq!['\u{E017}']
    }

    fn get_char(&self, image: &PixelBlock) -> (glyph: char) {
        teletext_mosaic_char(sample_mosaic(image))
    }

    fn get_subpixels(&self) -> (dims: (u32, u32)) {
        (2, 3)
    }

    fn get_line_prefix(&self) -> (prefix: &str) {
        proof {
            reveal_strlit("\u{E017}");
            assert("\u{E017}"@ =~= seq!['\u{E017}']);
        }
        "\u{E017}"
    }
}

/// Any of the character maps of this library, chosen at run time.
#[derive(Debug, PartialEq, Eq)]
pub enum CharMaps {
    /// A ramp of characters.
    Simple(Vec<char>),
    /// Braille patterns.
    Braille,
    /// Sextants.
    Mosaic,
    /// Teletext mosaics.
    TeletextMosaic,
}

/// A copy is the same map: it reads the same block and gives the same glyphs.
impl Clone for CharMaps {
    fn clone(&self) -> (copy: Self)
        ensures
            copy.wf() == self.wf(),
            copy.subpixels() == self.subpixels(),
            copy.line_prefix() == self.line_prefix(),
            forall|block: BlockView| #[trigger] copy.glyph(block) == self.glyph(block),
    {
        match self {
            CharMaps::Simple(ramp) => CharMaps::Simple(ramp.clone()),
            CharMaps::Braille => CharMaps::Braille,
            CharMaps::Mosaic => CharMaps::Mosaic,
            CharMaps::TeletextMosaic => CharMaps::TeletextMosaic,
        }
    }
}

impl CharMap for CharMaps {
    open spec fn wf(&self) -> bool {
        match self {
            CharMaps::Simple(ramp) => ramp.wf(),
            CharMaps::Braille => Braille.wf(),
            CharMaps::Mosaic => Mosaic.wf(),
            CharMaps::TeletextMosaic => TeletextMosaic.wf(),
        }
    }

    open spec fn subpixels(&self) -> (u32, u32) {
        match self {
            CharMaps::Simple(ramp) => ramp.subpixels(),
            CharMaps::Braille => Braille.subpixels(),
            CharMaps::Mosaic => Mosaic.subpixels(),
            CharMaps::TeletextMosaic => TeletextMosaic.subpixels(),
        }
    }

    open spec fn glyph(&self, block: BlockView) -> char {
        match self {
            CharMaps::Simple(ramp) => ramp.glyph(block),
            CharMaps::Braille => Braille.glyph(block),
            CharMaps::Mosaic => Mosaic.glyph(block),
            CharMaps::TeletextMosaic => TeletextMosaic.glyph(block),
        }
    }

    open spec fn line_prefix(&self) -> Seq<char> {
        match self {
            CharMaps::Simple(ramp) => ramp.line_prefix(),
            CharMaps::Braille => Braille.line_prefix(),
            CharMaps::Mosaic => Mosaic.line_prefix(),
            CharMaps::TeletextMosaic => TeletextMosaic.line_prefix(),
        }
    }

    fn get_char(&self, image: &PixelBlock) -> (glyph: char) {
        match self {
            CharMaps::Simple(ramp) => ramp.get_char(image),
            CharMaps::Braille => Braille.get_char(image),
            CharMaps::Mosaic => Mosaic.get_char(image),
            CharMaps::TeletextMosaic => TeletextMosaic.get_char(image),
        }
    }

    fn get_subpixels(&self) -> (dims: (u32, u32)) {
        match self {
            CharMaps::Simple(ramp) => ramp.get_subpixels(),
            CharMaps::Braille => Braille.get_subpixels(),
            CharMaps::Mosaic => Mosaic.get_subpixels(),
            CharMaps::TeletextMosaic => TeletextMosaic.get_subpixels(),
        }
    }

    fn get_line_prefix(&self) -> (prefix: &str) {
        match self {
            CharMaps::TeletextMosaic => TeletextMosaic.get_line_prefix(),
            _ => {
                proof {
                    reveal_strlit("");
                }
                ""
            },
        }
    }
}

/// The characters of a string, in order.
pub fn ramp_of(text: &str) -> (ramp: Vec<char>)
    ensures
        ramp@ == text@,
{
    let mut ramp: Vec<char> = Vec::new();
    for c in it: text.chars()
        invariant
            ramp@ == it.seq().take(it.index() as int),
    {
        ramp.push(c);
    }
    ramp
}

/// What `From` promises is stated on `from` itself: two vectors are one
/// value only if they are the same vector, so the ramp is described by its
/// characters and not handed out as a value here.
impl vstd::std_specs::convert::FromSpecImpl<&str> for CharMaps {
    open spec fn obeys_from_spec() -> bool {
        false
    }

    open spec fn from_spec(value: &str) -> CharMaps {
        CharMaps::Simple(choose|ramp: Vec<char>| ramp@ == value@)
    }
}

/// The lookup map whose ramp holds the characters of a string.
impl From<&str> for CharMaps {
    fn from(value: &str) -> (map: CharMaps)
        ensures
            map matches CharMaps::Simple(ramp) && ramp@ == value@,
    {
        CharMaps::Simple(ramp_of(value))
    }
}

/// As for `&str`: the ramp is described by its characters.
impl vstd::std_specs::convert::FromSpecImpl<String> for CharMaps {
    open spec fn obeys_from_spec() -> bool {
        false
    }

    open spec fn from_spec(value: String) -> CharMaps {
        CharMaps::Simple(choose|ramp: Vec<char>| ramp@ == value@)
    }
}

/// The lookup map whose ramp holds the characters of a string.
impl From<String> for CharMaps {
    fn from(value: String) -> (map: CharMaps)
        ensures
            map matches CharMaps::Simple(ramp) && ramp@ == value@,
    {
        CharMaps::Simple(ramp_of(value.as_str()))
    }
}

/// Every sample finds a character in a ramp that has one: the index stays
/// below the length of the ramp, and the darkest sample picks the first
/// character.
pub proof fn lemma_lookup_index_in_ramp(len: nat, luminance: u8)
    requires
        len > 0,
    ensures
        lookup_index(len, luminance) < len,
        lookup_index(len, 0) == 0,
        lookup_index(len, 255) < len,
{
    assert(len * luminance <= len * 255) by (nonlinear_arith)
        requires
            luminance <= 255,
    ;
    assert(len * 0 == 0) by (nonlinear_arith);
}

/// A ramp gives its first character for the darkest sample.
pub proof fn lemma_darkest_sample_first_char(ramp: Vec<char>, block: BlockView)
    requires
        ramp.wf(),
        block.at(0, 0) == 0,
    ensures
        ramp.glyph(block) == ramp@[0],
{
    lemma_lookup_index_in_ramp(ramp@.len(), 0);
}

/// A block whose eight samples are all lit gives the Braille cell with every
/// dot raised; a block with no sample lit gives the blank cell.
pub proof fn lemma_braille_extremes(block: BlockView)
    ensures
        (forall|x: int, y: int| 0 <= x < 2 && 0 <= y < 4 ==> lit(#[trigger] block.at(x, y)))
            ==> Braille.glyph(block) == '\u{28FF}',
        (forall|x: int, y: int| 0 <= x < 2 && 0 <= y < 4 ==> !lit(#[trigger] block.at(x, y)))
            ==> Braille.glyph(block) == '\u{2800}',
        BRAILLE_BLANK <= Braille.glyph(block) as nat <= BRAILLE_BLANK + 0xFF,
{
}

/// The mask of a two by three block has six bits.
pub proof fn lemma_mosaic_mask_six_bits(block: BlockView)
    ensures
        mosaic_mask(block) <= 0x3F,
{
}

/// Every mask of six bits has its teletext glyph inside the range kept for
/// teletext glyphs, at the place that plain arithmetic gives.
pub proof fn lemma_teletext_code_in_range(mask: u8)
    requires
        mask <= 0x3F,
    ensures
        teletext_code(mask) == teletext_code_by_range(mask as nat),
        TELETEXT_FIRST <= TELETEXT_BASE <= teletext_code(mask) <= TELETEXT_BASE + 0x5F
            <= TELETEXT_LAST,
{
    let wide = mask as u32;
    assert(wide < 0x20 ==> (wide & 0x1F) + ((wide & 0x20) << 1) == wide) by (bit_vector);
    assert(0x20 <= wide <= 0x3F ==> (wide & 0x1F) + ((wide & 0x20) << 1) == wide + 0x20)
        by (bit_vector);
}

/// Every sextant glyph is the space, a half block, the full block, or one
/// of the sixty glyphs of the sextant block, and no two masks share a glyph.
pub proof fn lemma_mosaic_code_distinct(a: nat, b: nat)
    requires
        a <= 0x3F,
        b <= 0x3F,
        a != b,
    ensures
        mosaic_code(a) != mosaic_code(b),
        mosaic_code(a) == 0x20 || mosaic_code(a) == 0x258C || mosaic_code(a) == 0x2590
            || mosaic_code(a) == 0x2588 || MOSAIC_BASE <= mosaic_code(a) < MOSAIC_BASE + 60,
{
}

/// The blocks of the maps of this library are at least one sample and at
/// most four samples wide and high.
pub proof fn lemma_block_sizes_small(map: CharMaps)
    ensures
        1 <= map.subpixels().0 <= 4,
        1 <= map.subpixels().1 <= 4,
{
}

} // verus!
