//! Compositing the timestamp: the canvas, the place of the text on it, and
//! the encoding of the finished image.

use vstd::prelude::*;
use crate::backend::{decode_rgba, decoded_image, encode_rgba, encoded_image, local_now};
use crate::banner::{add_banner, banner_canvas, canvas_fits, strip_top};
use crate::clock::{timestamp_text, timestamp_text_of, Moment};
use crate::frame::{FrameView, RawScreenshot};
use crate::layout::{
    align_text, aligned_x, banner_text_y, banner_y, overlay_text_y, overlay_y, saturated,
    FontMetrics, BANNER_PADDING, OVERLAY_MARGIN,
};
use crate::style::{
    banner_color, banner_color_of, banner_height, banner_height_of, output_format_of,
    parse_output_format, Color, DisplayMode, OutputFormat, Position, TimestampOptions,
    TimestampStyle,
};

verus! {

/// Why an image could not be annotated or encoded.
#[derive(Clone, Copy, Debug, PartialEq, Eq, Structural)]
pub enum EncodingError {
    /// The input is no image that the decoder reads.
    DecodeFailed,
    /// The buffer is malformed, the canvas too large, or the encoder failed.
    EncodeFailed,
    /// The font has no usable metrics.
    FontLoadFailed,
}

/// Where and how the timestamp text is drawn on a canvas.
#[derive(Clone, Copy, Debug, PartialEq, Eq, Structural)]
pub struct TextPlacement {
    pub x: i32,
    pub y: i32,
    pub font_size: u32,
    pub color: Color,
}

/// A canvas and the text that remains to be drawn on it.
#[derive(Clone, Debug)]
pub struct Annotation {
    pub canvas: RawScreenshot,
    pub text: String,
    /// `None` where nothing is to be drawn.
    pub placement: Option<TextPlacement>,
}

/// The mathematical content of an annotation.
pub ghost struct AnnotationView {
    pub canvas: FrameView,
    pub text: Seq<char>,
    pub placement: Option<TextPlacement>,
}

impl View for Annotation {
    type V = AnnotationView;

    open spec fn view(&self) -> AnnotationView {
        AnnotationView { canvas: self.canvas@, text: self.text@, placement: self.placement }
    }
}

/// The place of a text of width `text_width` drawn over the image itself.
pub open spec fn overlay_placement(f: FrameView, style: TimestampStyle, text_width: int) -> TextPlacement {
    TextPlacement {
        x: saturated(aligned_x(f.width as int, text_width, OVERLAY_MARGIN as int, style.align)),
        y: saturated(overlay_y(f.height as int, style.font_size as int, style.position)),
        font_size: style.font_size,
        color: style.color,
    }
}

/// The place of a text of width `text_width` in the banner of the canvas
/// of `f`.
pub open spec fn banner_placement(f: FrameView, style: TimestampStyle, text_width: int) -> TextPlacement {
    TextPlacement {
        x: saturated(aligned_x(f.width as int, text_width, BANNER_PADDING as int, style.align)),
        y: saturated(
            banner_y(
                strip_top(f, style.position),
                banner_height_of(style.font_size as int),
                style.font_size as int,
            ),
        ),
        font_size: style.font_size,
        color: style.color,
    }
}

/// The canvas has room for the banner of the style.
pub open spec fn banner_fits(f: FrameView, style: TimestampStyle) -> bool {
    &&& banner_height_of(style.font_size as int) <= u32::MAX
    &&& canvas_fits(f, banner_height_of(style.font_size as int) as nat)
}

/// The annotation of the frame `f` with `text`, whose measured width is
/// `text_width`: the image itself in overlay mode, the banner canvas
/// otherwise, and the place of the text on it.
pub open spec fn placed(
    f: FrameView,
    style: TimestampStyle,
    text: Seq<char>,
    text_width: int,
) -> Result<AnnotationView, EncodingError> {
    if style.mode == DisplayMode::Overlay {
        Ok(
            AnnotationView {
                canvas: f,
                text,
                placement: Some(overlay_placement(f, style, text_width)),
            },
        )
    } else if banner_fits(f, style) {
        Ok(
            AnnotationView {
                canvas: banner_canvas(
                    f,
                    banner_height_of(style.font_size as int) as nat,
                    banner_color_of(style.mode),
                    style.position,
                ),
                text,
                placement: Some(banner_placement(f, style, text_width)),
            },
        )
    } else {
        Err(EncodingError::EncodeFailed)
    }
}

/// What annotating the frame `f` with the timestamp `text` yields.
pub open spec fn composed(
    f: FrameView,
    options: TimestampOptions,
    metrics: FontMetrics,
    text: Seq<char>,
) -> Result<AnnotationView, EncodingError> {
    if !options.enabled {
        Ok(AnnotationView { canvas: f, text: Seq::empty(), placement: None })
    } else if !metrics.well_formed() {
        Err(EncodingError::FontLoadFailed)
    } else {
        placed(f, options.style(), text, metrics.width_of(text, options.font_size as int) as int)
    }
}

/// `r` is the outcome `expected`.
pub open spec fn is_outcome(
    r: Result<Annotation, EncodingError>,
    expected: Result<AnnotationView, EncodingError>,
) -> bool {
    match r {
        Ok(annotation) => expected == Ok::<AnnotationView, EncodingError>(annotation@)
            && annotation.canvas.well_formed(),
        Err(e) => expected == Err::<AnnotationView, EncodingError>(e),
    }
}

/// With the timestamp switched off the frame is left as it is, and nothing
/// is to be drawn.
pub proof fn disabled_keeps_frame(
    f: FrameView,
    options: TimestampOptions,
    metrics: FontMetrics,
    text: Seq<char>,
)
    requires
        !options.enabled,
    ensures
        composed(f, options, metrics, text) matches Ok(a) && a.canvas == f && a.placement is None,
{
}

/// In either banner mode, and for a banner above as for one below, the
/// canvas is as wide as the image and higher by exactly the banner height.
pub proof fn banner_adds_strip(
    f: FrameView,
    options: TimestampOptions,
    metrics: FontMetrics,
    text: Seq<char>,
)
    requires
        options.enabled,
        options.style().mode != DisplayMode::Overlay,
        composed(f, options, metrics, text) is Ok,
    ensures
        composed(f, options, metrics, text)->Ok_0.canvas.width == f.width,
        composed(f, options, metrics, text)->Ok_0.canvas.height == f.height + banner_height_of(
            options.font_size as int,
        ),
        banner_height_of(options.font_size as int) == vstd::math::max(
            options.font_size + 20,
            30,
        ),
{
}

/// In overlay mode the canvas is the image itself: its size and its pixels
/// before the text is drawn are those of the input.
pub proof fn overlay_keeps_size(
    f: FrameView,
    options: TimestampOptions,
    metrics: FontMetrics,
    text: Seq<char>,
)
    requires
        options.enabled,
        options.style().mode == DisplayMode::Overlay,
        composed(f, options, metrics, text) is Ok,
    ensures
        composed(f, options, metrics, text)->Ok_0.canvas == f,
{
}

/// Lays out the timestamp for a text whose width has been measured.
pub fn place_timestamp(
    frame: RawScreenshot,
    style: &TimestampStyle,
    text: &str,
    text_width: i32,
) -> (r: Result<Annotation, EncodingError>)
    requires
        frame.well_formed(),
    ensures
        is_outcome(r, placed(frame@, *style, text@, text_width as int)),
{
    match style.mode {
        DisplayMode::Overlay => {
            let placement = TextPlacement {
                x: align_text(frame.width, text_width, OVERLAY_MARGIN, style.align),
                y: overlay_text_y(frame.height, style.font_size, style.position),
                font_size: style.font_size,
                color: style.color,
            };
            Ok(Annotation { canvas: frame, text: text.to_owned(), placement: Some(placement) })
        },
        _ => {
            let strip = match banner_height(style.font_size) {
                Some(strip) => strip,
                None => {
                    return Err(EncodingError::EncodeFailed);
                },
            };
            let background = banner_color(style.mode);
            let canvas = match add_banner(&frame, strip, background, style.position) {
                Some(canvas) => canvas,
                None => {
                    return Err(EncodingError::EncodeFailed);
                },
            };
            let top: u32 = match style.position {
                Position::Top => 0,
                Position::Bottom => frame.height,
            };
            let placement = TextPlacement {
                x: align_text(frame.width, text_width, BANNER_PADDING, style.align),
                y: banner_text_y(top, strip, style.font_size),
                font_size: style.font_size,
                color: style.color,
            };
            Ok(Annotation { canvas, text: text.to_owned(), placement: Some(placement) })
        },
    }
}

/// Annotates a frame with a timestamp text: measures the text, builds the
/// canvas and says where the text is to be drawn on it.
pub fn compose_timestamp(
    frame: RawScreenshot,
    options: &TimestampOptions,
    metrics: &FontMetrics,
    timestamp: &str,
) -> (r: Result<Annotation, EncodingError>)
    requires
        frame.well_formed(),
    ensures
        is_outcome(r, composed(frame@, *options, *metrics, timestamp@)),
{
    if !options.enabled {
        return Ok(Annotation { canvas: frame, text: String::new(), placement: None });
    }
    if metrics.units_per_em == 0 {
        return Err(EncodingError::FontLoadFailed);
    }
    let style = options.resolve();
    let text_width = metrics.get_text_width(options.font_size, timestamp);
    place_timestamp(frame, &style, timestamp, text_width)
}

/// What decoding an image file yields: the decoder's frame, and
/// `DecodeFailed` where the decoder fails or hands back a malformed buffer.
pub open spec fn decoded(image_data: Seq<u8>) -> Result<FrameView, EncodingError> {
    match decoded_image(image_data) {
        Some(f) => if f.well_formed() {
            Ok(f)
        } else {
            Err(EncodingError::DecodeFailed)
        },
        None => Err(EncodingError::DecodeFailed),
    }
}

/// Decodes an image file into an RGBA frame.
pub fn decode_image(image_data: &[u8]) -> (r: Result<RawScreenshot, EncodingError>)
    ensures
        match decoded(image_data@) {
            Ok(f) => r matches Ok(frame) && frame@ == f && frame.well_formed(),
            Err(e) => r == Err::<RawScreenshot, EncodingError>(e),
        },
{
    match decode_rgba(image_data) {
        Ok(frame) => {
            if frame.is_well_formed() {
                Ok(frame)
            } else {
                Err(EncodingError::DecodeFailed)
            }
        },
        Err(_) => Err(EncodingError::DecodeFailed),
    }
}

/// What encoding a frame in the format of the given name yields: the
/// encoder's bytes, and `EncodeFailed` for a malformed frame or where the
/// encoder fails.
pub open spec fn encoded(f: FrameView, format: Seq<char>) -> Result<Seq<u8>, EncodingError> {
    if !f.well_formed() {
        Err(EncodingError::EncodeFailed)
    } else {
        match encoded_image(
            f.pixels,
            f.width,
            f.height,
            output_format_of(format) == OutputFormat::Png,
        ) {
            Some(bytes) => Ok(bytes),
            None => Err(EncodingError::EncodeFailed),
        }
    }
}

/// Encodes a frame as PNG where `format` is `png`, as JPEG otherwise.
pub fn encode_image(frame: RawScreenshot, format: &str) -> (r: Result<Vec<u8>, EncodingError>)
    ensures
        match encoded(frame@, format@) {
            Ok(bytes) => r matches Ok(v) && v@ == bytes,
            Err(e) => r == Err::<Vec<u8>, EncodingError>(e),
        },
{
    if !frame.is_well_formed() {
        return Err(EncodingError::EncodeFailed);
    }
    match encode_rgba(frame, parse_output_format(format)) {
        Ok(bytes) => Ok(bytes),
        Err(_) => Err(EncodingError::EncodeFailed),
    }
}

impl Annotation {
    /// What the annotation encodes to once the text has been drawn and the
    /// canvas holds the bytes `drawn`: an image of the size of the canvas,
    /// and `EncodeFailed` where `drawn` has not the length of the canvas.
    pub open spec fn finished(self, drawn: Seq<u8>, format: Seq<char>) -> Result<
        Seq<u8>,
        EncodingError,
    > {
        if drawn.len() != self.canvas.data@.len() {
            Err(EncodingError::EncodeFailed)
        } else {
            encoded(
                FrameView { pixels: drawn, width: self.canvas@.width, height: self.canvas@.height },
                format,
            )
        }
    }

    /// Encodes the annotated image from the bytes of the canvas after the
    /// text has been drawn on it. Whatever was drawn, the image has the size
    /// of the canvas.
    pub fn finish(self, drawn: Vec<u8>, format: &str) -> (r: Result<Vec<u8>, EncodingError>)
        ensures
            match self.finished(drawn@, format@) {
                Ok(bytes) => r matches Ok(v) && v@ == bytes,
                Err(e) => r == Err::<Vec<u8>, EncodingError>(e),
            },
    {
        if drawn.len() != self.canvas.data.len() {
            return Err(EncodingError::EncodeFailed);
        }
        encode_image(
            RawScreenshot { data: drawn, width: self.canvas.width, height: self.canvas.height },
            format,
        )
    }
}

/// Decodes an image file and annotates it with the local time of this
/// call, written as day/month/year and time of day.
///
/// The clock is read only where the timestamp is enabled. Whatever moment
/// it returns, the outcome is that of `compose_timestamp` for the timestamp
/// text of that moment.
pub fn add_timestamp_to_image(
    image_data: &[u8],
    options: &TimestampOptions,
    metrics: &FontMetrics,
) -> (r: Result<Annotation, EncodingError>)
    ensures
        match decoded(image_data@) {
            Ok(f) => exists|m: Moment|
                m.well_formed() && #[trigger] is_outcome(
                    r,
                    composed(f, *options, *metrics, timestamp_text_of(m)),
                ),
            Err(e) => r == Err::<Annotation, EncodingError>(e),
        },
{
    let frame = match decode_image(image_data) {
        Ok(frame) => frame,
        Err(e) => {
            return Err(e);
        },
    };
    let ghost f = frame@;
    if !options.enabled {
        let r = compose_timestamp(frame, options, metrics, "");
        let ghost midnight = Moment { year: 0, month: 1, day: 1, hour: 0, minute: 0, second: 0 };
        assert(midnight.well_formed() && is_outcome(
            r,
            composed(f, *options, *metrics, timestamp_text_of(midnight)),
        ));
        return r;
    }
    let now = local_now();
    let timestamp = timestamp_text(&now);
    let r = compose_timestamp(frame, options, metrics, timestamp.as_str());
    assert(now.well_formed() && is_outcome(
        r,
        composed(f, *options, *metrics, timestamp_text_of(now)),
    ));
    r
}

} // verus!
