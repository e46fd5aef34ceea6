//! Loading the metrics of a font file.

use vstd::prelude::*;
use crate::annotate::EncodingError;
use crate::backend::{
    font_glyph_advance, font_glyph_index, font_units_per_em, glyph_advance, glyph_index,
    units_per_em,
};
use crate::layout::{FontMetrics, GlyphAdvance};

verus! {

/// The table entry of `c`: its character and the advance of its glyph in
/// the font file; `None` where the font cannot be read.
pub open spec fn advance_entry(font: Seq<u8>, c: char) -> Option<GlyphAdvance> {
    match font_glyph_index(font, c) {
        Some(glyph) => match font_glyph_advance(font, glyph) {
            Some(advance) => Some(GlyphAdvance { glyph: c, advance }),
            None => None,
        },
        None => None,
    }
}

/// The table of the characters of `alphabet`, in their order; `None` where
/// the font cannot be read for one of them.
pub open spec fn advance_table(font: Seq<u8>, alphabet: Seq<char>) -> Option<Seq<GlyphAdvance>>
    decreases alphabet.len(),
{
    if alphabet.len() == 0 {
        Some(Seq::empty())
    } else {
        match (advance_table(font, alphabet.drop_last()), advance_entry(font, alphabet.last())) {
            (Some(table), Some(entry)) => Some(table.push(entry)),
            _ => None,
        }
    }
}

/// The font file yields metrics: a scale above zero, the advance of the
/// glyph for missing characters, and an entry for each character of the
/// alphabet.
pub open spec fn font_is_usable(font: Seq<u8>, alphabet: Seq<char>) -> bool {
    &&& font_units_per_em(font) matches Some(units) && units > 0
    &&& font_glyph_advance(font, 0) is Some
    &&& advance_table(font, alphabet) is Some
}

/// Where the table of a prefix of the alphabet cannot be read, neither can
/// that of the whole alphabet.
proof fn lemma_table_fails_with_its_prefix(font: Seq<u8>, alphabet: Seq<char>, i: int)
    requires
        0 <= i <= alphabet.len(),
        advance_table(font, alphabet.subrange(0, i)) is None,
    ensures
        advance_table(font, alphabet) is None,
    decreases alphabet.len() - i,
{
    if i < alphabet.len() {
        assert(alphabet.subrange(0, i + 1).drop_last() == alphabet.subrange(0, i));
        lemma_table_fails_with_its_prefix(font, alphabet, i + 1);
    } else {
        assert(alphabet.subrange(0, i) == alphabet);
    }
}

/// Reads from a font file what text measurement needs: the units per em,
/// the advance of the glyph that stands for missing characters, and the
/// advance of the glyph of each character of `alphabet`.
pub fn load_font_metrics(font_data: &[u8], alphabet: &str) -> (r: Result<FontMetrics, EncodingError>)
    ensures
        r is Ok <==> font_is_usable(font_data@, alphabet@),
        r matches Ok(metrics) ==> metrics.well_formed() && Some(metrics.units_per_em)
            == font_units_per_em(font_data@) && Some(metrics.missing_advance)
            == font_glyph_advance(font_data@, 0) && Some(metrics.advances@) == advance_table(
            font_data@,
            alphabet@,
        ),
        r matches Err(e) ==> e == EncodingError::FontLoadFailed,
{
    let units = match units_per_em(font_data) {
        Ok(units) => units,
        Err(_) => {
            return Err(EncodingError::FontLoadFailed);
        },
    };
    if units == 0 {
        return Err(EncodingError::FontLoadFailed);
    }
    let missing_advance = match glyph_advance(font_data, 0) {
        Ok(advance) => advance,
        Err(_) => {
            return Err(EncodingError::FontLoadFailed);
        },
    };
    let count: usize = alphabet.unicode_len();
    let mut advances: Vec<GlyphAdvance> = Vec::new();
    let mut i: usize = 0;
    while i < count
        invariant
            count == alphabet@.len(),
            i <= count,
            advance_table(font_data@, alphabet@.subrange(0, i as int)) == Some(advances@),
        decreases count - i,
    {
        let c = alphabet.get_char(i);
        proof {
            assert(alphabet@.subrange(0, i + 1).drop_last() == alphabet@.subrange(0, i as int));
            assert(alphabet@.subrange(0, i + 1).last() == c);
        }
        let glyph = match glyph_index(font_data, c) {
            Ok(glyph) => glyph,
            Err(_) => {
                proof {
                    lemma_table_fails_with_its_prefix(font_data@, alphabet@, i + 1);
                }
                return Err(EncodingError::FontLoadFailed);
            },
        };
        let advance = match glyph_advance(font_data, glyph) {
            Ok(advance) => advance,
            Err(_) => {
                proof {
                    lemma_table_fails_with_its_prefix(font_data@, alphabet@, i + 1);
                }
                return Err(EncodingError::FontLoadFailed);
            },
        };
        advances.push(GlyphAdvance { glyph: c, advance });
        i += 1;
    }
    assert(alphabet@.subrange(0, i as int) == alphabet@);
    Ok(FontMetrics { units_per_em: units, missing_advance, advances })
}

} // verus!
