//! The calls into the image codec, the font parser, the clock and the
//! base64 encoder. Their contracts are stated here and believed, not proved.

use vstd::prelude::*;
use crate::clock::Moment;
use crate::frame::{FrameView, RawScreenshot};
use crate::style::OutputFormat;

verus! {

/// The error type of the `image` crate.
#[verifier::external_type_specification]
#[verifier::external_body]
pub struct ExImageError(image::ImageError);

/// The error type of `ab_glyph` for data that is no font.
#[verifier::external_type_specification]
#[verifier::external_body]
pub struct ExInvalidFont(ab_glyph::InvalidFont);

/// What `image::load_from_memory_with_format` yields, converted to RGBA8,
/// for the given file content in the format that `image::guess_format`
/// finds for it; `None` where either reports an error.
pub uninterp spec fn decoded_image(data: Seq<u8>) -> Option<FrameView>;

/// What `image::DynamicImage::write_to` writes for an RGBA8 image of the
/// given bytes and size, as PNG (`png`) or as JPEG; `None` where it reports
/// an error.
pub uninterp spec fn encoded_image(pixels: Seq<u8>, width: nat, height: nat, png: bool) -> Option<
    Seq<u8>,
>;

/// The units per em that `ab_glyph` reads from the given font file; `None`
/// where the data is no font or the font states none.
pub uninterp spec fn font_units_per_em(font: Seq<u8>) -> Option<u16>;

/// The index of the glyph that the given font file has for `c`, 0 being
/// the glyph for characters that the font lacks; `None` where the data is
/// no font.
pub uninterp spec fn font_glyph_index(font: Seq<u8>, c: char) -> Option<u16>;

/// The unscaled horizontal advance, in font units, that the given font file
/// states for the glyph of the given index; `None` where the data is no
/// font.
pub uninterp spec fn font_glyph_advance(font: Seq<u8>, glyph: u16) -> Option<u16>;

/// The standard base64 text (with padding) of the given bytes.
pub uninterp spec fn base64_text(data: Seq<u8>) -> Seq<char>;

/// Calls `image::guess_format` and, with the format found,
/// `image::load_from_memory_with_format`, then converts the image to RGBA8
/// with `DynamicImage::to_rgba8`. Both go to the decoders that the crate
/// was built with. Claimed: the outcome depends on the file content alone.
#[verifier::external_body]
pub(crate) fn decode_rgba(data: &[u8]) -> (r: Result<RawScreenshot, image::ImageError>)
    ensures
        r is Ok <==> decoded_image(data@) is Some,
        r matches Ok(frame) ==> decoded_image(data@) == Some(frame@),
{
    let format = image::guess_format(data)?;
    let img = image::load_from_memory_with_format(data, format)?.to_rgba8();
    Ok(RawScreenshot { width: img.width(), height: img.height(), data: img.into_raw() })
}

/// Calls `image::DynamicImage::write_to` on an RGBA8 image into a buffer in
/// memory. Claimed: the outcome depends on the pixels, the size and the
/// format alone.
#[verifier::external_body]
pub(crate) fn encode_rgba(frame: RawScreenshot, format: OutputFormat) -> (r: Result<
    Vec<u8>,
    image::ImageError,
>)
    requires
        frame.well_formed(),
    ensures
        r is Ok <==> encoded_image(
            frame@.pixels,
            frame@.width,
            frame@.height,
            format == OutputFormat::Png,
        ) is Some,
        r matches Ok(bytes) ==> encoded_image(
            frame@.pixels,
            frame@.width,
            frame@.height,
            format == OutputFormat::Png,
        ) == Some(bytes@),
{
    let img = image::RgbaImage::from_raw(frame.width, frame.height, frame.data).unwrap();
    let target = match format {
        OutputFormat::Png => image::ImageFormat::Png,
        OutputFormat::Jpeg => image::ImageFormat::Jpeg,
    };
    let mut buffer = std::io::Cursor::new(Vec::new());
    image::DynamicImage::ImageRgba8(img).write_to(&mut buffer, target)?;
    Ok(buffer.into_inner())
}

/// Parses the font with `ab_glyph::FontRef::try_from_slice` and calls
/// `Font::units_per_em`, whose value the font file holds as a 16-bit
/// number. Claimed: the outcome depends on the font file alone. A font that
/// states no units per em is reported as invalid.
#[verifier::external_body]
pub(crate) fn units_per_em(font: &[u8]) -> (r: Result<u16, ab_glyph::InvalidFont>)
    ensures
        r is Ok <==> font_units_per_em(font@) is Some,
        r matches Ok(units) ==> font_units_per_em(font@) == Some(units),
{
    let face = ab_glyph::FontRef::try_from_slice(font)?;
    ab_glyph::Font::units_per_em(&face).map(|units| units as u16).ok_or(ab_glyph::InvalidFont)
}

/// Parses the font with `ab_glyph::FontRef::try_from_slice` and calls
/// `Font::glyph_id`. Claimed: the outcome depends on the font file and the
/// character alone.
#[verifier::external_body]
pub(crate) fn glyph_index(font: &[u8], c: char) -> (r: Result<u16, ab_glyph::InvalidFont>)
    ensures
        r is Ok <==> font_glyph_index(font@, c) is Some,
        r matches Ok(glyph) ==> font_glyph_index(font@, c) == Some(glyph),
{
    let face = ab_glyph::FontRef::try_from_slice(font)?;
    Ok(ab_glyph::Font::glyph_id(&face, c).0)
}

/// Parses the font with `ab_glyph::FontRef::try_from_slice` and calls
/// `Font::h_advance_unscaled`, whose value the font file holds as a 16-bit
/// number. Claimed: the outcome depends on the font file and the glyph
/// index alone.
#[verifier::external_body]
pub(crate) fn glyph_advance(font: &[u8], glyph: u16) -> (r: Result<u16, ab_glyph::InvalidFont>)
    ensures
        r is Ok <==> font_glyph_advance(font@, glyph) is Some,
        r matches Ok(advance) ==> font_glyph_advance(font@, glyph) == Some(advance),
{
    let face = ab_glyph::FontRef::try_from_slice(font)?;
    Ok(ab_glyph::Font::h_advance_unscaled(&face, ab_glyph::GlyphId(glyph)) as u16)
}

/// Calls `chrono::Local::now` and reads the calendar fields of the moment
/// with `Datelike::year`, `month`, `day` and `Timelike::hour`, `minute`,
/// `second`. Claimed: each field lies in the range that chrono documents
/// for it. Nothing is claimed of the moment itself: it depends on the clock
/// and the time zone of the machine.
#[verifier::external_body]
pub(crate) fn local_now() -> (r: Moment)
    ensures
        r.well_formed(),
{
    let now = chrono::Local::now();
    Moment {
        year: chrono::Datelike::year(&now),
        month: chrono::Datelike::month(&now),
        day: chrono::Datelike::day(&now),
        hour: chrono::Timelike::hour(&now),
        minute: chrono::Timelike::minute(&now),
        second: chrono::Timelike::second(&now),
    }
}

/// Calls `base64::Engine::encode` of the engine
/// `base64::engine::general_purpose::STANDARD`. Claimed: the text depends on
/// the bytes alone.
#[verifier::external_body]
pub(crate) fn base64_standard(data: &[u8]) -> (r: String)
    ensures
        r@ == base64_text(data@),
{
    base64::Engine::encode(&base64::engine::general_purpose::STANDARD, data)
}

} // verus!
