use base64::Engine;
use screen_capture::encode::{encode_frame, payload_from_png, EncodeError};
use screen_capture::frame::{extract_region, FrameBuffer};
use screen_capture::region::{clamp_selection, CropWindow, SelectionCoords};
use screen_capture::session::{
    capture_failed, capture_selected_area, close_overlay_window, overlay_failed, start_screen_capture,
    store_captures, CaptureError, CaptureState,
};

fn pattern_frame(width: u32, height: u32, seed: u32) -> FrameBuffer {
    let n = (width * height * 4) as usize;
    let pixels: Vec<u8> = (0..n).map(|i| ((i as u32 * 7 + seed) % 251) as u8).collect();
    FrameBuffer::new(width, height, pixels).unwrap()
}

fn decode_payload(text: &str) -> image::RgbaImage {
    let png = base64::engine::general_purpose::STANDARD.decode(text).unwrap();
    image::load_from_memory_with_format(&png, image::ImageFormat::Png)
        .unwrap()
        .to_rgba8()
}

fn crop_reference(frame: &FrameBuffer, x: u32, y: u32, w: u32, h: u32) -> Vec<u8> {
    let mut out = Vec::new();
    for row in y..y + h {
        let start = ((row * frame.width() + x) * 4) as usize;
        out.extend_from_slice(&frame.pixels()[start..start + (w * 4) as usize]);
    }
    out
}

fn sel(x: u32, y: u32, width: u32, height: u32) -> SelectionCoords {
    SelectionCoords { x, y, width, height }
}

#[test]
fn clamp_keeps_selection_inside_frame() {
    let w = clamp_selection(&sel(10, 20, 30, 40), 100, 100);
    assert_eq!(w, CropWindow { x: 10, y: 20, width: 30, height: 40 });
}

#[test]
fn clamp_shrinks_selection_past_edges() {
    let w = clamp_selection(&sel(90, 95, 50, 50), 100, 100);
    assert_eq!(w, CropWindow { x: 90, y: 95, width: 10, height: 5 });
}

#[test]
fn clamp_moves_origin_outside_frame_to_last_pixel() {
    let w = clamp_selection(&sel(500, 700, 20, 20), 100, 80);
    assert_eq!(w, CropWindow { x: 99, y: 79, width: 1, height: 1 });
}

#[test]
fn clamp_on_empty_frame_is_empty() {
    let w = clamp_selection(&sel(5, 5, 5, 5), 0, 0);
    assert_eq!(w, CropWindow { x: 0, y: 0, width: 0, height: 0 });
}

#[test]
fn clamp_largest_values() {
    let w = clamp_selection(&sel(u32::MAX, u32::MAX, u32::MAX, u32::MAX), 1920, 1080);
    assert_eq!(w, CropWindow { x: 1919, y: 1079, width: 1, height: 1 });
}

#[test]
fn frame_rejects_wrong_length() {
    assert!(FrameBuffer::new(2, 2, vec![0; 15]).is_none());
    assert!(FrameBuffer::new(2, 2, vec![0; 16]).is_some());
}

#[test]
fn extract_region_copies_window_pixels() {
    let f = pattern_frame(5, 4, 3);
    let r = extract_region(&f, &sel(1, 2, 3, 2));
    assert_eq!((r.width(), r.height()), (3, 2));
    assert_eq!(r.pixels(), &crop_reference(&f, 1, 2, 3, 2));
}

#[test]
fn extract_region_out_of_range_is_clamped() {
    let f = pattern_frame(5, 4, 9);
    let r = extract_region(&f, &sel(3, 1, 10, 10));
    assert_eq!((r.width(), r.height()), (2, 3));
    assert_eq!(r.pixels(), &crop_reference(&f, 3, 1, 2, 3));
}

#[test]
fn encode_frame_is_lossless_png_in_base64() {
    let f = pattern_frame(3, 2, 1);
    let text = encode_frame(&f).unwrap();
    assert_eq!(text.len() % 4, 0);
    let img = decode_payload(&text);
    assert_eq!(img.dimensions(), (3, 2));
    assert_eq!(img.as_raw(), f.pixels());
}

#[test]
fn payload_from_png_encodes_bytes() {
    assert_eq!(payload_from_png(Ok(vec![1, 2, 3, 4])).unwrap(), "AQIDBA==");
}

#[test]
fn start_without_monitors_fails_and_changes_nothing() {
    let mut state = CaptureState::new();
    let r = start_screen_capture(&mut state, 0);
    assert!(matches!(r, Err(CaptureError::NoMonitors)));
    assert!(!state.overlay_active);
    assert!(state.captured_monitors.is_empty());
}

#[test]
fn two_displays_extract_from_first() {
    let mut state = CaptureState::default();
    assert!(matches!(start_screen_capture(&mut state, 2), Ok(false)));
    assert!(state.overlay_active);
    let first = pattern_frame(1920, 1080, 5);
    let second = pattern_frame(1080, 1920, 11);
    let expected = crop_reference(&first, 100, 100, 500, 300);
    store_captures(&mut state, vec![first, second]);
    assert_eq!(state.captured_monitors.len(), 2);
    let text = capture_selected_area(&mut state, &sel(100, 100, 500, 300), 0).unwrap();
    let img = decode_payload(&text);
    assert_eq!(img.dimensions(), (500, 300));
    assert_eq!(img.as_raw(), &expected);
    assert!(state.captured_monitors.is_empty());
    assert!(!state.overlay_active);
}

#[test]
fn second_extraction_for_same_display_fails() {
    let mut state = CaptureState::new();
    start_screen_capture(&mut state, 1).unwrap();
    store_captures(&mut state, vec![pattern_frame(4, 4, 0)]);
    assert!(capture_selected_area(&mut state, &sel(0, 0, 2, 2), 0).is_ok());
    let r = capture_selected_area(&mut state, &sel(0, 0, 2, 2), 0);
    assert!(matches!(r, Err(CaptureError::MissingFrame { monitor_index: 0 })));
    assert!(!state.overlay_active);
}

#[test]
fn second_extraction_after_invalid_selection_fails() {
    let mut state = CaptureState::new();
    start_screen_capture(&mut state, 2).unwrap();
    store_captures(&mut state, vec![pattern_frame(4, 4, 0), pattern_frame(4, 4, 1)]);
    let r = capture_selected_area(&mut state, &sel(0, 0, 0, 2), 0);
    assert!(matches!(r, Err(CaptureError::InvalidSelection)));
    assert!(state.overlay_active);
    assert_eq!(state.captured_monitors.len(), 1);
    let r = capture_selected_area(&mut state, &sel(0, 0, 2, 2), 0);
    assert!(matches!(r, Err(CaptureError::MissingFrame { monitor_index: 0 })));
}

#[test]
fn restart_replaces_previous_session() {
    let mut state = CaptureState::new();
    start_screen_capture(&mut state, 2).unwrap();
    store_captures(&mut state, vec![pattern_frame(4, 4, 0), pattern_frame(6, 6, 1)]);
    assert!(matches!(start_screen_capture(&mut state, 1), Ok(true)));
    assert!(state.captured_monitors.is_empty());
    assert!(state.overlay_active);
    store_captures(&mut state, vec![pattern_frame(3, 3, 2)]);
    assert_eq!(state.captured_monitors.len(), 1);
    assert_eq!(state.captured_monitors[&0].image.width(), 3);
}

#[test]
fn full_selection_round_trips() {
    let frame = pattern_frame(7, 5, 4);
    let original = frame.pixels().clone();
    let mut state = CaptureState::new();
    start_screen_capture(&mut state, 1).unwrap();
    store_captures(&mut state, vec![frame]);
    let text = capture_selected_area(&mut state, &sel(0, 0, 7, 5), 0).unwrap();
    let img = decode_payload(&text);
    assert_eq!(img.dimensions(), (7, 5));
    assert_eq!(img.as_raw(), &original);
}

#[test]
fn extraction_without_session_fails() {
    let mut state = CaptureState::new();
    let r = capture_selected_area(&mut state, &sel(0, 0, 1, 1), 3);
    assert!(matches!(r, Err(CaptureError::MissingFrame { monitor_index: 3 })));
    assert!(!state.overlay_active);
}

#[test]
fn capture_failure_ends_session() {
    let mut state = CaptureState::new();
    start_screen_capture(&mut state, 2).unwrap();
    let e = capture_failed(&mut state, 1, "denied".to_string());
    assert!(matches!(e, CaptureError::CaptureFailed { index: 1, .. }));
    assert!(!state.overlay_active);
    assert!(state.captured_monitors.is_empty());
}

#[test]
fn close_drops_frames() {
    let mut state = CaptureState::new();
    start_screen_capture(&mut state, 1).unwrap();
    store_captures(&mut state, vec![pattern_frame(2, 2, 0)]);
    close_overlay_window(&mut state);
    assert!(state.captured_monitors.is_empty());
    assert!(!state.overlay_active);
}

#[test]
fn encode_error_kinds_are_distinct() {
    assert_ne!(EncodeError::Png, EncodeError::TooLarge);
}

#[test]
fn overlay_failure_ends_session() {
    let mut state = CaptureState::new();
    start_screen_capture(&mut state, 1).unwrap();
    store_captures(&mut state, vec![pattern_frame(2, 2, 0)]);
    let e = overlay_failed(&mut state, 0, "no surface".to_string());
    assert!(matches!(e, CaptureError::OverlayFailed { index: 0, .. }));
    assert!(!state.overlay_active);
    assert!(state.captured_monitors.is_empty());
}
