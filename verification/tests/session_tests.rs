use smart_prtscr::annotate::{decode_image, EncodingError};
use smart_prtscr::autostart::{is_enabled, verify_and_repair, RepairAction};
use smart_prtscr::frame::{RawScreenshot, SelectionBounds, ValidationError};
use smart_prtscr::layout::FontMetrics;
use smart_prtscr::session::{
    accept_capture, crop_and_annotate, crop_to_png, default_filename_from,
    generate_default_filename, AppState, CaptureError, PendingScreenshot, PipelineError,
};
use smart_prtscr::settings::{file_extension, resolve_settings, SaveData};
use smart_prtscr::style::TimestampOptions;

fn frame(width: u32, height: u32) -> RawScreenshot {
    let mut data = Vec::new();
    for y in 0..height {
        for x in 0..width {
            data.extend_from_slice(&[x as u8, y as u8, 9, 255]);
        }
    }
    RawScreenshot::from_raw(width, height, data).unwrap()
}

#[test]
fn capture_needs_a_display_and_a_sound_buffer() {
    assert_eq!(accept_capture(0, Some(frame(2, 2))).err(), Some(CaptureError::NoDisplayFound));
    assert_eq!(accept_capture(0, None).err(), Some(CaptureError::NoDisplayFound));
    assert_eq!(accept_capture(1, None).err(), Some(CaptureError::CaptureFailed));
    let torn = RawScreenshot { data: vec![0; 7], width: 2, height: 2 };
    assert_eq!(accept_capture(2, Some(torn)).err(), Some(CaptureError::CaptureFailed));
    let ok = accept_capture(1, Some(frame(3, 2))).unwrap();
    assert_eq!((ok.width, ok.height), (3, 2));
    assert_eq!(ok.data, frame(3, 2).data);
}

#[test]
fn new_session_holds_nothing() {
    let mut state = AppState::new();
    assert!(state.current_screenshot.is_none());
    assert!(state.current_screenshot_path.is_none());
    assert!(state.pending_screenshot.is_none());
    assert_eq!(state.capture_screen().err(), Some(PipelineError::NoScreenshot));
    assert_eq!(state.get_preview_image().err(), Some(PipelineError::NoPendingScreenshot));
    assert_eq!(state.take_pending().err(), Some(PipelineError::NoPendingScreenshot));
    let bounds = SelectionBounds { x: 0, y: 0, width: 1, height: 1 };
    assert_eq!(state.process_selection(&bounds).err(), Some(PipelineError::NoScreenshot));
    assert!(state.pending_screenshot.is_none());
}

#[test]
fn last_capture_wins() {
    let mut state = AppState::new();
    state.begin_capture(frame(4, 4), "first.bmp".to_string());
    let bounds = SelectionBounds { x: 1, y: 1, width: 2, height: 2 };
    state.process_selection(&bounds).unwrap();
    assert!(state.pending_screenshot.is_some());
    state.begin_capture(frame(6, 5), "second.bmp".to_string());
    assert_eq!(state.capture_screen().unwrap(), "second.bmp");
    assert_eq!(state.current_screenshot.as_ref().unwrap().width, 6);
    assert_eq!(state.current_screenshot.as_ref().unwrap().height, 5);
    assert!(state.pending_screenshot.is_none());
}

#[test]
fn selection_is_cropped_and_kept_as_png() {
    let mut state = AppState::new();
    state.begin_capture(frame(8, 6), "preview.bmp".to_string());
    let bounds = SelectionBounds { x: 2, y: 1, width: 3, height: 4 };
    state.store_selection(&bounds, "shot".to_string()).unwrap();
    let pending = state.pending_screenshot.as_ref().unwrap();
    assert_eq!(pending.default_filename, "shot");
    let back = decode_image(&pending.image_data).unwrap();
    assert_eq!((back.width, back.height), (3, 4));
    assert_eq!(back.data, frame(8, 6).crop(&bounds).unwrap().data);
    assert_eq!(state.get_default_filename(), "shot");
    assert_eq!(state.current_screenshot.as_ref().unwrap().data, frame(8, 6).data);
    assert_eq!(state.capture_screen().unwrap(), "preview.bmp");
}

#[test]
fn selection_outside_the_frame_changes_nothing() {
    let mut state = AppState::new();
    state.begin_capture(frame(200, 200), "preview.bmp".to_string());
    let inside = SelectionBounds { x: 0, y: 0, width: 2, height: 2 };
    state.store_selection(&inside, "kept".to_string()).unwrap();
    let outside = SelectionBounds { x: 190, y: 0, width: 20, height: 20 };
    assert_eq!(
        state.store_selection(&outside, "lost".to_string()).err(),
        Some(PipelineError::Validation(ValidationError::InvalidRegion))
    );
    assert_eq!(
        state.process_selection(&outside).err(),
        Some(PipelineError::Validation(ValidationError::InvalidRegion))
    );
    assert_eq!(state.pending_screenshot.as_ref().unwrap().default_filename, "kept");
}

#[test]
fn crop_to_png_reports_each_failure() {
    let f = frame(5, 5);
    let outside = SelectionBounds { x: 3, y: 3, width: 3, height: 1 };
    assert_eq!(
        crop_to_png(&f, &outside).err(),
        Some(PipelineError::Validation(ValidationError::InvalidRegion))
    );
    let inside = SelectionBounds { x: 3, y: 3, width: 2, height: 1 };
    let png = crop_to_png(&f, &inside).unwrap();
    assert_eq!(decode_image(&png).unwrap().data, vec![3, 3, 9, 255, 4, 3, 9, 255]);
    assert_eq!(PipelineError::Encoding(EncodingError::EncodeFailed), PipelineError::Encoding(EncodingError::EncodeFailed));
}

#[test]
fn preview_is_standard_base64() {
    let mut state = AppState::new();
    state.pending_screenshot = Some(PendingScreenshot {
        image_data: b"hello world~".to_vec(),
        default_filename: "n".to_string(),
    });
    assert_eq!(state.get_preview_image().unwrap(), "aGVsbG8gd29ybGR+");
    state.pending_screenshot = Some(PendingScreenshot {
        image_data: vec![0xFB, 0xFF],
        default_filename: "n".to_string(),
    });
    assert_eq!(state.get_preview_image().unwrap(), "+/8=");
    state.pending_screenshot = Some(PendingScreenshot {
        image_data: Vec::new(),
        default_filename: "n".to_string(),
    });
    assert_eq!(state.get_preview_image().unwrap(), "");
}

#[test]
fn take_pending_hands_the_image_out_once() {
    let mut state = AppState::new();
    state.begin_capture(frame(4, 4), "p".to_string());
    let bounds = SelectionBounds { x: 0, y: 0, width: 4, height: 4 };
    state.store_selection(&bounds, "name".to_string()).unwrap();
    let pending = state.take_pending().unwrap();
    assert_eq!(pending.default_filename, "name");
    assert!(!pending.image_data.is_empty());
    assert!(state.pending_screenshot.is_none());
    assert!(state.current_screenshot.is_some());
    assert_eq!(state.take_pending().err(), Some(PipelineError::NoPendingScreenshot));
}

#[test]
fn cancel_discards_everything() {
    let mut state = AppState::new();
    state.begin_capture(frame(4, 4), "p".to_string());
    let bounds = SelectionBounds { x: 0, y: 0, width: 4, height: 4 };
    state.process_selection(&bounds).unwrap();
    state.cancel_screenshot();
    assert!(state.current_screenshot.is_none());
    assert!(state.current_screenshot_path.is_none());
    assert!(state.pending_screenshot.is_none());
    assert_eq!(state.capture_screen().err(), Some(PipelineError::NoScreenshot));
}

#[test]
fn default_filename_is_made_from_the_local_time() {
    let name = generate_default_filename();
    let chars: Vec<char> = name.chars().collect();
    assert_eq!(chars.len(), 27);
    assert!(name.ends_with("_capture"));
    assert_eq!(chars[4], '-');
    assert_eq!(chars[7], '-');
    assert_eq!(chars[10], 'T');
    assert_eq!(chars[13], '-');
    assert_eq!(chars[16], '-');
    let state = AppState::new();
    assert!(state.get_default_filename().ends_with("_capture"));
}

#[test]
fn autostart_is_never_registered_here() {
    assert_eq!(is_enabled(), Ok(false));
}

#[test]
fn repair_follows_the_difference() {
    assert_eq!(verify_and_repair(true, false), RepairAction::Enable);
    assert_eq!(verify_and_repair(false, true), RepairAction::Disable);
    assert_eq!(verify_and_repair(true, true), RepairAction::Keep);
    assert_eq!(verify_and_repair(false, false), RepairAction::Keep);
    assert!(RepairAction::Keep.verified());
    assert!(!RepairAction::Enable.verified());
    assert!(!RepairAction::Disable.verified());
}

#[test]
fn file_name_takes_the_extension_of_the_format() {
    assert_eq!(file_extension("png"), "png");
    assert_eq!(file_extension("jpg"), "jpg");
    assert_eq!(file_extension("bmp"), "jpg");
    let data = SaveData {
        filename: "2026-10-27T12-00-00_capture".to_string(),
        timestamp_options: TimestampOptions::default(),
        image_format: "png".to_string(),
    };
    assert_eq!(data.file_name(), "2026-10-27T12-00-00_capture.png");
    let other = SaveData { image_format: "jpeg".to_string(), ..data };
    assert_eq!(other.file_name(), "2026-10-27T12-00-00_capture.jpg");
}

#[test]
fn settings_fall_back_to_their_defaults() {
    let s = resolve_settings(None, "/pictures/Screenshots".to_string(), None, None, None, None, TimestampOptions::default());
    assert_eq!(s.save_path, "/pictures/Screenshots");
    assert!(!s.auto_start);
    assert_eq!(s.image_format, "jpg");
    assert!(!s.windows_prtscr_disabled);
    assert_eq!(s.timestamp_options.font_size, 14);
    assert_eq!(s.timestamp_options.display_type, "banner-dark");
    let mut stored = TimestampOptions::default();
    stored.font_size = 22;
    let s = resolve_settings(
        Some("/tmp/x".to_string()),
        "/pictures/Screenshots".to_string(),
        Some(true),
        Some("png".to_string()),
        Some(true),
        Some(stored),
        TimestampOptions::default(),
    );
    assert_eq!(s.save_path, "/tmp/x");
    assert!(s.auto_start);
    assert_eq!(s.image_format, "png");
    assert!(s.windows_prtscr_disabled);
    assert_eq!(s.timestamp_options.font_size, 22);
}

#[test]
fn crop_and_annotate_stops_at_the_first_failure() {
    let metrics = FontMetrics { units_per_em: 1000, missing_advance: 500, advances: Vec::new() };
    let broken = FontMetrics { units_per_em: 0, missing_advance: 500, advances: Vec::new() };
    let options = TimestampOptions::default();
    let f = frame(200, 200);
    let outside = SelectionBounds { x: 190, y: 0, width: 20, height: 20 };
    assert_eq!(
        crop_and_annotate(&f, &outside, &options, &broken, "12:00").err(),
        Some(PipelineError::Validation(ValidationError::InvalidRegion))
    );
    let inside = SelectionBounds { x: 150, y: 100, width: 50, height: 40 };
    assert_eq!(
        crop_and_annotate(&f, &inside, &options, &broken, "12:00").err(),
        Some(PipelineError::Encoding(EncodingError::FontLoadFailed))
    );
    let out = crop_and_annotate(&f, &inside, &options, &metrics, "12:00").unwrap();
    assert_eq!((out.canvas.width, out.canvas.height), (50, 74));
    let selection = f.crop(&inside).unwrap();
    assert_eq!(&out.canvas.data[..selection.data.len()], &selection.data[..]);
    assert_eq!(out.text, "12:00");
    let placement = out.placement.unwrap();
    assert_eq!((placement.x, placement.y), ((50 - 35) / 2, 40 + 10));
}

#[test]
fn default_session_holds_nothing() {
    let state = AppState::default();
    assert!(state.current_screenshot.is_none());
    assert!(state.current_screenshot_path.is_none());
    assert!(state.pending_screenshot.is_none());
}

#[test]
fn default_filename_appends_the_suffix_to_the_moment() {
    assert_eq!(
        default_filename_from("2026-10-27T12-34-56".to_string()),
        "2026-10-27T12-34-56_capture"
    );
    assert_eq!(default_filename_from(String::new()), "_capture");
    let name = generate_default_filename();
    let moment = &name[..name.len() - "_capture".len()];
    assert_eq!(default_filename_from(moment.to_string()), name);
    assert_eq!(moment.len(), 19);
    for (i, c) in moment.chars().enumerate() {
        match i {
            4 | 7 | 13 | 16 => assert_eq!(c, '-'),
            10 => assert_eq!(c, 'T'),
            _ => assert!(c.is_ascii_digit()),
        }
    }
}
