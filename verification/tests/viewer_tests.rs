use hello_egui_image::decode::{decode_image_bytes, DecodeResult, ImagePayload};
use hello_egui_image::viewer::{DrainOutcome, ViewerState};

/// Encodes a `width` x `height` RGBA image as PNG bytes.
fn png_rgba_bytes(width: u32, height: u32) -> Vec<u8> {
    let img = image::RgbaImage::from_pixel(width, height, image::Rgba([5, 6, 7, 250]));
    let mut bytes: Vec<u8> = Vec::new();
    img.write_to(
        &mut std::io::Cursor::new(&mut bytes),
        image::ImageFormat::Png,
    )
    .unwrap();
    bytes
}

/// A small well-formed payload built by the library's own decoder.
fn decoded_payload(width: u32, height: u32) -> ImagePayload {
    match decode_image_bytes(&png_rgba_bytes(width, height)) {
        DecodeResult::Success(p) => p,
        DecodeResult::Failure => panic!("expected a successful decode"),
    }
}

#[test]
fn new_viewer_starts_idle_with_bootstrap_owed() {
    let s = ViewerState::new();
    assert_eq!(s.displayed_width, 300);
    assert_eq!(s.displayed_height, 300);
    assert!(s.label.is_none());
    assert!(s.texture.is_none());
    assert!(!s.busy);
    assert!(s.boot_pending);
}

#[test]
fn bootstrap_dispatches_once_then_never_again() {
    let mut s = ViewerState::new();
    assert!(s.frame_bootstrap());
    assert!(s.busy);
    assert!(!s.boot_pending);

    // Worker completes; the first drain applies the result.
    let outcome = s.drain(Some(DecodeResult::Success(decoded_payload(6, 4))));
    assert_eq!(outcome, DrainOutcome::Applied { created: true });
    assert!(!s.busy);
    assert!(s.texture.is_some());

    // A second bootstrap is a no-op: nothing dispatched, nothing changed.
    let before_label = s.label.clone();
    assert!(!s.frame_bootstrap());
    assert!(!s.busy);
    assert_eq!(s.label, before_label);
}

#[test]
fn request_while_busy_is_dropped() {
    let mut s = ViewerState::new();
    assert!(s.frame_bootstrap());

    // Request A is in flight; request B must be silently dropped.
    let accepted = s.request_load();
    assert!(!accepted);
    assert!(s.busy);

    // Only A's result is ever observed downstream.
    let payload_a = decoded_payload(6, 4);
    let outcome = s.drain(Some(DecodeResult::Success(payload_a)));
    assert_eq!(outcome, DrainOutcome::Applied { created: true });
    assert_eq!(s.displayed_width, 6);
    assert_eq!(s.displayed_height, 4);
}

#[test]
fn request_while_idle_is_accepted() {
    let mut s = ViewerState::new();
    assert!(s.frame_bootstrap());
    s.drain(Some(DecodeResult::Failure));
    assert!(!s.busy);

    assert!(s.request_load());
    assert!(s.busy);
}

#[test]
fn empty_drain_changes_nothing() {
    let mut s = ViewerState::new();
    assert!(s.frame_bootstrap());
    let outcome = s.drain(None);
    assert_eq!(outcome, DrainOutcome::NoMessage);
    assert!(s.busy);
    assert!(s.texture.is_none());
}

#[test]
fn failure_drain_preserves_the_display() {
    let mut s = ViewerState::new();
    assert!(s.frame_bootstrap());
    s.drain(Some(DecodeResult::Success(decoded_payload(6, 4))));

    // Snapshot the displayed state, then drain a failure.
    let width_before = s.displayed_width;
    let height_before = s.displayed_height;
    let label_before = s.label.clone();
    let texture_before = s.texture.clone();

    assert!(s.request_load());
    let outcome = s.drain(Some(DecodeResult::Failure));
    assert_eq!(outcome, DrainOutcome::FailureDrained);

    // Busy clears; everything displayed is byte-for-byte untouched.
    assert!(!s.busy);
    assert_eq!(s.displayed_width, width_before);
    assert_eq!(s.displayed_height, height_before);
    assert_eq!(s.label, label_before);
    assert_eq!(s.texture, texture_before);
}

#[test]
fn round_trip_publishes_dimensions_and_label() {
    let mut s = ViewerState::new();
    assert!(s.frame_bootstrap());

    let bytes = png_rgba_bytes(7, 5);
    let result = decode_image_bytes(&bytes);
    let outcome = s.drain(Some(result));

    assert_eq!(outcome, DrainOutcome::Applied { created: true });
    assert_eq!(s.displayed_width, 7);
    assert_eq!(s.displayed_height, 5);
    assert!(s.label.as_ref().unwrap().contains("7x5"));
    let t = s.texture.as_ref().unwrap();
    assert_eq!(t.width, 7);
    assert_eq!(t.height, 5);
    assert_eq!(t.pixels.len(), 7 * 5 * 4);
}

#[test]
fn second_success_updates_texture_in_place() {
    let mut s = ViewerState::new();
    assert!(s.frame_bootstrap());
    let first = s.drain(Some(DecodeResult::Success(decoded_payload(6, 4))));
    assert_eq!(first, DrainOutcome::Applied { created: true });

    assert!(s.request_load());
    let second = s.drain(Some(DecodeResult::Success(decoded_payload(2, 2))));
    assert_eq!(second, DrainOutcome::Applied { created: false });
    assert_eq!(s.displayed_width, 2);
    assert_eq!(s.displayed_height, 2);
}
