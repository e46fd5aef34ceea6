//! One capture session: the frame in flight, the file that previews it, and
//! the cropped image that waits to be saved.

use vstd::prelude::*;
use vstd::string::StringExecFns;
use crate::annotate::{
    compose_timestamp, composed, encode_image, encoded, Annotation, AnnotationView, EncodingError,
};
use crate::backend::{base64_standard, base64_text, local_now};
use crate::clock::{file_stamp, file_stamp_of, Moment};
use crate::frame::{cropped, RawScreenshot, SelectionBounds, ValidationError};
use crate::layout::FontMetrics;
use crate::style::TimestampOptions;

verus! {

/// Why a display could not be captured.
#[derive(Clone, Copy, Debug, PartialEq, Eq, Structural)]
pub enum CaptureError {
    /// No display was enumerated.
    NoDisplayFound,
    /// The system refused the capture, or handed back a malformed buffer.
    CaptureFailed,
}

/// Why a step of the pipeline failed.
#[derive(Clone, Copy, Debug, PartialEq, Eq, Structural)]
pub enum PipelineError {
    /// No capture is in flight.
    NoScreenshot,
    /// No cropped image waits to be saved.
    NoPendingScreenshot,
    Capture(CaptureError),
    Validation(ValidationError),
    Encoding(EncodingError),
}

/// A cropped image, PNG-encoded, that waits to be saved.
#[derive(Clone, Debug)]
pub struct PendingScreenshot {
    pub image_data: Vec<u8>,
    pub default_filename: String,
}

/// The state of a capture session. A new capture replaces whatever the
/// session held.
#[derive(Debug)]
pub struct AppState {
    pub current_screenshot: Option<RawScreenshot>,
    pub current_screenshot_path: Option<String>,
    pub pending_screenshot: Option<PendingScreenshot>,
}

/// What a capture is worth: the frame where a display was found and the
/// system handed back a well-formed buffer.
pub open spec fn capture_outcome(displays_found: nat, capture: Option<RawScreenshot>) -> Result<
    RawScreenshot,
    CaptureError,
> {
    if displays_found == 0 {
        Err(CaptureError::NoDisplayFound)
    } else {
        match capture {
            Some(frame) => if frame.well_formed() {
                Ok(frame)
            } else {
                Err(CaptureError::CaptureFailed)
            },
            None => Err(CaptureError::CaptureFailed),
        }
    }
}

/// Judges what the pixel source returned.
pub fn accept_capture(displays_found: usize, capture: Option<RawScreenshot>) -> (r: Result<
    RawScreenshot,
    CaptureError,
>)
    ensures
        r == capture_outcome(displays_found as nat, capture),
{
    if displays_found == 0 {
        return Err(CaptureError::NoDisplayFound);
    }
    match capture {
        Some(frame) => {
            if frame.is_well_formed() {
                Ok(frame)
            } else {
                Err(CaptureError::CaptureFailed)
            }
        },
        None => Err(CaptureError::CaptureFailed),
    }
}

/// The PNG file of the selection `bounds` of `frame`.
pub open spec fn cropped_png(frame: RawScreenshot, bounds: SelectionBounds) -> Result<
    Seq<u8>,
    PipelineError,
> {
    if !bounds.fits(frame.width as nat, frame.height as nat) {
        Err(PipelineError::Validation(ValidationError::InvalidRegion))
    } else {
        match encoded(cropped(frame@, bounds), "png"@) {
            Ok(bytes) => Ok(bytes),
            Err(e) => Err(PipelineError::Encoding(e)),
        }
    }
}

/// Crops a frame and encodes the selection as PNG.
pub fn crop_to_png(frame: &RawScreenshot, bounds: &SelectionBounds) -> (r: Result<
    Vec<u8>,
    PipelineError,
>)
    requires
        frame.well_formed(),
    ensures
        match cropped_png(*frame, *bounds) {
            Ok(bytes) => r matches Ok(v) && v@ == bytes,
            Err(e) => r == Err::<Vec<u8>, PipelineError>(e),
        },
{
    let selection = match frame.crop(bounds) {
        Ok(selection) => selection,
        Err(e) => {
            return Err(PipelineError::Validation(e));
        },
    };
    match encode_image(selection, "png") {
        Ok(bytes) => Ok(bytes),
        Err(e) => Err(PipelineError::Encoding(e)),
    }
}

/// What cropping `frame` to `bounds` and annotating the selection with
/// `text` yields; the first stage that fails decides the error.
pub open spec fn cropped_and_composed(
    frame: RawScreenshot,
    bounds: SelectionBounds,
    options: TimestampOptions,
    metrics: FontMetrics,
    text: Seq<char>,
) -> Result<AnnotationView, PipelineError> {
    if !bounds.fits(frame.width as nat, frame.height as nat) {
        Err(PipelineError::Validation(ValidationError::InvalidRegion))
    } else {
        match composed(cropped(frame@, bounds), options, metrics, text) {
            Ok(annotation) => Ok(annotation),
            Err(e) => Err(PipelineError::Encoding(e)),
        }
    }
}

/// Crops a frame to the selection and annotates the selection with the
/// given timestamp text.
pub fn crop_and_annotate(
    frame: &RawScreenshot,
    bounds: &SelectionBounds,
    options: &TimestampOptions,
    metrics: &FontMetrics,
    timestamp: &str,
) -> (r: Result<Annotation, PipelineError>)
    requires
        frame.well_formed(),
    ensures
        match cropped_and_composed(*frame, *bounds, *options, *metrics, timestamp@) {
            Ok(annotation) => r matches Ok(a) && a@ == annotation && a.canvas.well_formed(),
            Err(e) => r == Err::<Annotation, PipelineError>(e),
        },
{
    let selection = match frame.crop(bounds) {
        Ok(selection) => selection,
        Err(e) => {
            return Err(PipelineError::Validation(e));
        },
    };
    match compose_timestamp(selection, options, metrics, timestamp) {
        Ok(annotation) => Ok(annotation),
        Err(e) => Err(PipelineError::Encoding(e)),
    }
}

/// A default file name from the local time of this call: the moment as
/// year, month, day and time of day, followed by `_capture`.
///
/// Whatever moment the clock returns, the name is that of
/// `default_filename_from` for the file stamp of that moment.
pub fn generate_default_filename() -> (r: String)
    ensures
        is_default_filename(r@),
{
    let now = local_now();
    let name = default_filename_from(file_stamp(&now));
    assert(now.well_formed() && name@ == default_filename_of(file_stamp_of(now)));
    name
}

/// The text is the default file name of some moment.
pub open spec fn is_default_filename(name: Seq<char>) -> bool {
    exists|m: Moment| m.well_formed() && name == default_filename_of(#[trigger] file_stamp_of(m))
}

/// The default file name for a moment written as `stamp`: the stamp
/// followed by `_capture`.
pub open spec fn default_filename_of(stamp: Seq<char>) -> Seq<char> {
    stamp + "_capture"@
}

/// Makes the default file name of a capture from the text of its moment.
pub fn default_filename_from(stamp: String) -> (r: String)
    ensures
        r@ == default_filename_of(stamp@),
{
    stamp.concat("_capture")
}

impl Default for AppState {
    /// A session that holds nothing.
    fn default() -> (r: AppState)
        ensures
            r.current_screenshot is None,
            r.current_screenshot_path is None,
            r.pending_screenshot is None,
    {
        AppState::new()
    }
}

impl AppState {
    /// The frame in flight, if any, is well formed.
    pub open spec fn well_formed(&self) -> bool {
        self.current_screenshot matches Some(frame) ==> frame.well_formed()
    }

    /// A session that holds nothing.
    pub fn new() -> (r: AppState)
        ensures
            r.current_screenshot is None,
            r.current_screenshot_path is None,
            r.pending_screenshot is None,
            r.well_formed(),
    {
        AppState { current_screenshot: None, current_screenshot_path: None, pending_screenshot: None }
    }

    /// Starts a session with a fresh capture. The last capture wins: the
    /// frame and the preview path replace those of an earlier capture, and
    /// an image that still waited to be saved is discarded.
    pub fn begin_capture(&mut self, frame: RawScreenshot, preview_path: String)
        requires
            frame.well_formed(),
        ensures
            final(self).current_screenshot == Some(frame),
            final(self).current_screenshot_path == Some(preview_path),
            final(self).pending_screenshot is None,
            final(self).well_formed(),
    {
        self.current_screenshot = Some(frame);
        self.current_screenshot_path = Some(preview_path);
        self.pending_screenshot = None;
    }

    /// The path of the preview file of the capture in flight.
    pub fn capture_screen(&self) -> (r: Result<String, PipelineError>)
        ensures
            match self.current_screenshot_path {
                Some(path) => r == Ok::<String, PipelineError>(path),
                None => r == Err::<String, PipelineError>(PipelineError::NoScreenshot),
            },
    {
        match &self.current_screenshot_path {
            Some(path) => Ok(path.clone()),
            None => Err(PipelineError::NoScreenshot),
        }
    }

    /// Stores the selection of the frame in flight as the pending image,
    /// under the given default file name. The frame in flight stays. On an
    /// error the session is unchanged.
    pub fn store_selection(&mut self, bounds: &SelectionBounds, default_filename: String) -> (r:
        Result<(), PipelineError>)
        requires
            old(self).well_formed(),
        ensures
            final(self).well_formed(),
            final(self).current_screenshot == old(self).current_screenshot,
            final(self).current_screenshot_path == old(self).current_screenshot_path,
            match old(self).current_screenshot {
                None => r == Err::<(), PipelineError>(PipelineError::NoScreenshot)
                    && final(self).pending_screenshot == old(self).pending_screenshot,
                Some(frame) => match cropped_png(frame, *bounds) {
                    Ok(bytes) => r is Ok && (final(self).pending_screenshot matches Some(pending)
                        && pending.image_data@ == bytes && pending.default_filename
                        == default_filename),
                    Err(e) => r == Err::<(), PipelineError>(e) && final(self).pending_screenshot
                        == old(self).pending_screenshot,
                },
            },
    {
        let outcome = match &self.current_screenshot {
            None => Err(PipelineError::NoScreenshot),
            Some(frame) => crop_to_png(frame, bounds),
        };
        match outcome {
            Ok(image_data) => {
                self.pending_screenshot = Some(PendingScreenshot { image_data, default_filename });
                Ok(())
            },
            Err(e) => Err(e),
        }
    }

    /// Crops the frame in flight to the selection and keeps the result, with
    /// a default file name from the local time, until it is saved.
    ///
    /// Whatever the clock returns, the outcome is that of `store_selection`
    /// for that name.
    pub fn process_selection(&mut self, bounds: &SelectionBounds) -> (r: Result<(), PipelineError>)
        requires
            old(self).well_formed(),
        ensures
            final(self).well_formed(),
            final(self).current_screenshot == old(self).current_screenshot,
            final(self).current_screenshot_path == old(self).current_screenshot_path,
            match old(self).current_screenshot {
                None => r == Err::<(), PipelineError>(PipelineError::NoScreenshot)
                    && final(self).pending_screenshot == old(self).pending_screenshot,
                Some(frame) => match cropped_png(frame, *bounds) {
                    Ok(bytes) => r is Ok && (final(self).pending_screenshot matches Some(pending)
                        && pending.image_data@ == bytes && is_default_filename(
                        pending.default_filename@,
                    )),
                    Err(e) => r == Err::<(), PipelineError>(e) && final(self).pending_screenshot
                        == old(self).pending_screenshot,
                },
            },
    {
        let name = generate_default_filename();
        self.store_selection(bounds, name)
    }

    /// Hands out the pending image for saving; the session holds it no
    /// longer.
    pub fn take_pending(&mut self) -> (r: Result<PendingScreenshot, PipelineError>)
        ensures
            final(self).pending_screenshot is None,
            final(self).current_screenshot == old(self).current_screenshot,
            final(self).current_screenshot_path == old(self).current_screenshot_path,
            match old(self).pending_screenshot {
                Some(pending) => r == Ok::<PendingScreenshot, PipelineError>(pending),
                None => r == Err::<PendingScreenshot, PipelineError>(
                    PipelineError::NoPendingScreenshot,
                ),
            },
    {
        match self.pending_screenshot.take() {
            Some(pending) => Ok(pending),
            None => Err(PipelineError::NoPendingScreenshot),
        }
    }

    /// The default file name of the pending image; without a pending image,
    /// one from the local time of this call.
    pub fn get_default_filename(&self) -> (r: String)
        ensures
            match self.pending_screenshot {
                Some(pending) => r == pending.default_filename,
                None => is_default_filename(r@),
            },
    {
        match &self.pending_screenshot {
            Some(pending) => pending.default_filename.clone(),
            None => generate_default_filename(),
        }
    }

    /// The pending image as standard base64 text.
    pub fn get_preview_image(&self) -> (r: Result<String, PipelineError>)
        ensures
            match self.pending_screenshot {
                Some(pending) => r matches Ok(text) && text@ == base64_text(pending.image_data@),
                None => r == Err::<String, PipelineError>(PipelineError::NoPendingScreenshot),
            },
    {
        match &self.pending_screenshot {
            Some(pending) => Ok(base64_standard(pending.image_data.as_slice())),
            None => Err(PipelineError::NoPendingScreenshot),
        }
    }

    /// Discards the frame in flight, its preview path and the pending
    /// image.
    pub fn cancel_screenshot(&mut self)
        ensures
            final(self).current_screenshot is None,
            final(self).current_screenshot_path is None,
            final(self).pending_screenshot is None,
            final(self).well_formed(),
    {
        self.pending_screenshot = None;
        self.current_screenshot = None;
        self.current_screenshot_path = None;
    }
}

} // verus!
