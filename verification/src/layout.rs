//! Where the timestamp text goes: its measured width and its origin.

use vstd::prelude::*;
use crate::style::{banner_height_of, Position, TextAlign};

verus! {

/// Margin between an overlaid timestamp and the edge of the image.
pub const OVERLAY_MARGIN: u32 = 10;

/// Margin between a banner timestamp and the left or right edge.
pub const BANNER_PADDING: u32 = 20;

/// The unscaled horizontal advance of the glyph of one character.
#[derive(Clone, Copy, Debug)]
pub struct GlyphAdvance {
    pub glyph: char,
    pub advance: u16,
}

/// What text measurement reads from a font: its units per em and the
/// unscaled horizontal advance of each glyph, in font units. Loaded once and
/// never changed afterwards.
#[derive(Clone, Debug)]
pub struct FontMetrics {
    pub units_per_em: u16,
    /// Advance of the glyph that stands for a character the table lacks.
    pub missing_advance: u16,
    pub advances: Vec<GlyphAdvance>,
}

/// The advance of `c`: that of the first entry for it, and `missing` where
/// the table has none.
pub open spec fn advance_in(table: Seq<GlyphAdvance>, missing: u16, c: char) -> u16
    decreases table.len(),
{
    if table.len() == 0 {
        missing
    } else if table[0].glyph == c {
        table[0].advance
    } else {
        advance_in(table.drop_first(), missing, c)
    }
}

/// Sum of the horizontal advances, in font units.
pub open spec fn advance_sum(advances: Seq<u16>) -> nat
    decreases advances.len(),
{
    if advances.len() == 0 {
        0
    } else {
        advance_sum(advances.drop_last()) + advances.last() as nat
    }
}

/// The nearest value that 32 signed bits can hold.
pub open spec fn saturated(v: int) -> i32 {
    if v > i32::MAX {
        i32::MAX
    } else if v < i32::MIN {
        i32::MIN
    } else {
        v as i32
    }
}

/// Width in pixels of a text whose glyphs have the given unscaled advances:
/// their sum, scaled by font size over units per em, rounded down and
/// saturated.
pub open spec fn scaled_width(advances: Seq<u16>, font_size: int, units_per_em: int) -> i32 {
    saturated(advance_sum(advances) * font_size / units_per_em)
}

/// Half of `d`, rounded toward zero.
pub open spec fn half(d: int) -> int {
    if d >= 0 {
        d / 2
    } else {
        -((-d) / 2)
    }
}

/// Column at which a text of width `text_width` starts in a row of `width`
/// pixels: `margin` from the left edge, `margin` from the right edge, or
/// centred.
pub open spec fn aligned_x(width: int, text_width: int, margin: int, align: TextAlign) -> int {
    match align {
        TextAlign::Left => margin,
        TextAlign::Right => width - text_width - margin,
        TextAlign::Center => half(width - text_width),
    }
}

/// Row at which an overlaid text starts: 10 px below the top edge, or so
/// that a text of the font's size ends 10 px above the bottom edge.
pub open spec fn overlay_y(height: int, font_size: int, position: Position) -> int {
    match position {
        Position::Top => OVERLAY_MARGIN as int,
        Position::Bottom => height - font_size - OVERLAY_MARGIN,
    }
}

/// Row at which a banner text starts: vertically centred in the strip, which
/// begins at row `strip_top` and is `strip` rows high.
pub open spec fn banner_y(strip_top: int, strip: int, font_size: int) -> int {
    strip_top + half(strip - font_size)
}

impl FontMetrics {
    /// The font has a usable scale.
    pub open spec fn well_formed(&self) -> bool {
        self.units_per_em > 0
    }

    /// The advance of the glyph of `c`.
    pub open spec fn advance_of(&self, c: char) -> u16 {
        advance_in(self.advances@, self.missing_advance, c)
    }

    /// The advances of the glyphs of a text, one for each character.
    pub open spec fn advances_of(&self, text: Seq<char>) -> Seq<u16> {
        Seq::new(text.len(), |i: int| self.advance_of(text[i]))
    }

    /// The width in pixels of `text` at `font_size`.
    pub open spec fn width_of(&self, text: Seq<char>, font_size: int) -> i32 {
        scaled_width(self.advances_of(text), font_size, self.units_per_em as int)
    }

    /// Looks up the advance of the glyph of `c`.
    pub fn advance(&self, c: char) -> (r: u16)
        ensures
            r == self.advance_of(c),
    {
        let mut i: usize = 0;
        assert(self.advances@.subrange(0, self.advances@.len() as int) == self.advances@);
        while i < self.advances.len()
            invariant
                i <= self.advances@.len(),
                self.advance_of(c) == advance_in(
                    self.advances@.subrange(i as int, self.advances@.len() as int),
                    self.missing_advance,
                    c,
                ),
            decreases self.advances@.len() - i,
        {
            let entry = self.advances[i];
            if entry.glyph == c {
                return entry.advance;
            }
            assert(self.advances@.subrange(i as int, self.advances@.len() as int).drop_first()
                == self.advances@.subrange(i + 1, self.advances@.len() as int));
            i += 1;
        }
        self.missing_advance
    }

    /// Measures a text: the sum of the advances of its characters, scaled by
    /// font size over units per em.
    pub fn get_text_width(&self, font_size: u32, text: &str) -> (r: i32)
        requires
            self.well_formed(),
        ensures
            r == self.width_of(text@, font_size as int),
            r >= 0,
    {
        let count: usize = text.unicode_len();
        let mut advances: Vec<u16> = Vec::new();
        let mut i: usize = 0;
        while i < count
            invariant
                count == text@.len(),
                i <= count,
                advances@ == self.advances_of(text@).subrange(0, i as int),
            decreases count - i,
        {
            let c = text.get_char(i);
            let a = self.advance(c);
            advances.push(a);
            i += 1;
            assert(advances@ == self.advances_of(text@).subrange(0, i as int));
        }
        assert(advances@ == self.advances_of(text@));
        text_width(&advances, font_size, self.units_per_em)
    }
}

/// Clamps to the range of `i32`.
pub fn saturate(v: i64) -> (r: i32)
    ensures
        r == saturated(v as int),
{
    if v > i32::MAX as i64 {
        i32::MAX
    } else if v < i32::MIN as i64 {
        i32::MIN
    } else {
        v as i32
    }
}

/// Width in pixels of a text, from the unscaled advances of its glyphs.
pub fn text_width(advances: &Vec<u16>, font_size: u32, units_per_em: u16) -> (r: i32)
    requires
        units_per_em > 0,
    ensures
        r == scaled_width(advances@, font_size as int, units_per_em as int),
        r >= 0,
{
    let mut sum: u128 = 0;
    let mut i: usize = 0;
    while i < advances.len()
        invariant
            i <= advances@.len(),
            sum == advance_sum(advances@.subrange(0, i as int)),
            sum <= i * 65535,
        decreases advances@.len() - i,
    {
        assert(advances@.subrange(0, i + 1).drop_last() == advances@.subrange(0, i as int));
        sum = sum + advances[i] as u128;
        i += 1;
    }
    assert(advances@.subrange(0, i as int) == advances@);
    assert(0 <= sum * font_size <= 0x1_0000_0000_0000_0000 * 65535 * 0x1_0000_0000)
        by (nonlinear_arith)
        requires
            0 <= sum <= 0x1_0000_0000_0000_0000 * 65535,
            0 <= font_size <= 0x1_0000_0000,
    ;
    let scaled: u128 = sum * font_size as u128 / units_per_em as u128;
    if scaled > i32::MAX as u128 {
        i32::MAX
    } else {
        scaled as i32
    }
}

/// Half of `d`, rounded toward zero.
fn halve(d: i64) -> (r: i64)
    requires
        d > i64::MIN,
    ensures
        r == half(d as int),
{
    if d >= 0 {
        d / 2
    } else {
        -((-d) / 2)
    }
}

/// Column at which the text starts.
pub fn align_text(width: u32, text_width: i32, margin: u32, align: TextAlign) -> (r: i32)
    ensures
        r == saturated(aligned_x(width as int, text_width as int, margin as int, align)),
{
    let x: i64 = match align {
        TextAlign::Left => margin as i64,
        TextAlign::Right => width as i64 - text_width as i64 - margin as i64,
        TextAlign::Center => halve(width as i64 - text_width as i64),
    };
    saturate(x)
}

/// A text aligned left starts at the margin, one aligned right ends at the
/// margin from the right edge, and a centred one leaves the same room on
/// both sides, up to one pixel.
pub proof fn alignment_keeps_the_margins(width: int, text_width: int, margin: int)
    ensures
        aligned_x(width, text_width, margin, TextAlign::Left) == margin,
        aligned_x(width, text_width, margin, TextAlign::Right) + text_width + margin == width,
        ({
            let left = aligned_x(width, text_width, margin, TextAlign::Center);
            let right = width - text_width - left;
            -1 <= right - left <= 1
        }),
{
}

/// A banner text of the font's height lies inside the strip, with at least
/// ten rows of background above it and below it.
pub proof fn banner_text_lies_in_the_strip(strip_top: int, font_size: int)
    requires
        font_size >= 0,
    ensures
        ({
            let strip = banner_height_of(font_size);
            let y = banner_y(strip_top, strip, font_size);
            strip_top + 10 <= y && y + font_size + 10 <= strip_top + strip
        }),
{
}

/// An overlaid text of the font's height starts ten rows below the top
/// edge, or ends ten rows above the bottom edge.
pub proof fn overlay_text_keeps_the_margin(height: int, font_size: int)
    ensures
        overlay_y(height, font_size, Position::Top) == 10,
        overlay_y(height, font_size, Position::Bottom) + font_size + 10 == height,
{
}

/// Row at which an overlaid text starts.
pub fn overlay_text_y(height: u32, font_size: u32, position: Position) -> (r: i32)
    ensures
        r == saturated(overlay_y(height as int, font_size as int, position)),
{
    let y: i64 = match position {
        Position::Top => OVERLAY_MARGIN as i64,
        Position::Bottom => height as i64 - font_size as i64 - OVERLAY_MARGIN as i64,
    };
    saturate(y)
}

/// Row at which a banner text starts.
pub fn banner_text_y(strip_top: u32, strip: u32, font_size: u32) -> (r: i32)
    ensures
        r == saturated(banner_y(strip_top as int, strip as int, font_size as int)),
{
    saturate(strip_top as i64 + halve(strip as i64 - font_size as i64))
}

} // verus!
