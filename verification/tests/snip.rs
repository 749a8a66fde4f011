use rxing::Writer;
use snipstack::snip::{
    can_scan_barcodes, clamp_selection, copies_to_clipboard, refreshes_search_text, scan_for_barcodes, crop_selection, decode_barcodes, encode_png, encode_preview_jpeg,
    completion_event, focused_monitor_index, CropRect, OverlayAction, RgbaFrame, SnipEnd, SnipError,
    SnipState,
};
use snipstack::window_state::MonitorArea;

fn filled(width: u32, height: u32, rgba: [u8; 4]) -> RgbaFrame {
    RgbaFrame::filled(width, height, rgba).expect("frame fits")
}

/// Encodes a QR code with rxing, then runs the product decoding path on it.
#[test]
fn decodes_qr_code_in_selection() {
    let content = "https://github.com/snipstack/SnipStack";
    let matrix = rxing::qrcode::QRCodeWriter
        .encode(content, &rxing::BarcodeFormat::QR_CODE, 240, 240)
        .expect("encode qr fixture");

    let (width, height) = (matrix.width(), matrix.height());
    let mut pixels = Vec::with_capacity((width * height * 4) as usize);
    for y in 0..height {
        for x in 0..width {
            if matrix.get(x, y) {
                pixels.extend_from_slice(&[0, 0, 0, 255]);
            } else {
                pixels.extend_from_slice(&[255, 255, 255, 255]);
            }
        }
    }
    let img = RgbaFrame::from_raw(width, height, pixels).expect("frame");

    let decoded = decode_barcodes(&img).expect("decode qr");
    assert_eq!(decoded, content);
}

#[test]
fn plain_text_region_has_no_barcode() {
    let img = filled(160, 60, [250, 250, 250, 255]);
    assert!(decode_barcodes(&img).is_none());
}

/// The frozen frame preview goes through RGB: JPEG does not take RGBA.
#[test]
fn frozen_frame_jpeg_encoding_accepts_converted_rgb() {
    let rgba = filled(64, 48, [120, 180, 240, 255]);
    let out = encode_preview_jpeg(&rgba).expect("jpeg encode rgb frame");
    assert!(!out.is_empty());
    assert_eq!(&out[..2], &[0xFF, 0xD8], "JPEG start-of-image marker");
}

#[test]
fn png_of_a_crop_starts_with_the_png_signature() {
    let frame = filled(8, 8, [1, 2, 3, 255]);
    let png = encode_png(&frame).expect("png");
    assert_eq!(&png[..8], &[0x89, b'P', b'N', b'G', 0x0D, 0x0A, 0x1A, 0x0A]);
}

#[test]
fn from_raw_needs_four_bytes_per_pixel() {
    assert!(RgbaFrame::from_raw(2, 2, vec![0; 16]).is_some());
    assert!(RgbaFrame::from_raw(2, 2, vec![0; 15]).is_none());
    assert!(RgbaFrame::from_raw(2, 2, vec![0; 17]).is_none());
    assert!(RgbaFrame::from_raw(0, 7, vec![]).is_some());
}

#[test]
fn selection_is_clamped_into_the_frame() {
    assert_eq!(
        clamp_selection(10, 20, 100, 50, 1920, 1080),
        Some(CropRect { x: 10, y: 20, width: 100, height: 50 })
    );
    // Dragged past the right and bottom edges.
    assert_eq!(
        clamp_selection(1900, 1000, 500, 500, 1920, 1080),
        Some(CropRect { x: 1900, y: 1000, width: 20, height: 80 })
    );
    // A corner beyond the frame is pulled back to the last pixel, leaving a 1 px crop.
    assert_eq!(clamp_selection(5000, 10, 100, 100, 1920, 1080), None);
}

#[test]
fn tiny_selection_counts_as_a_misclick() {
    assert_eq!(clamp_selection(10, 10, 3, 100, 1920, 1080), None);
    assert_eq!(clamp_selection(10, 10, 100, 3, 1920, 1080), None);
    assert_eq!(
        clamp_selection(10, 10, 4, 4, 1920, 1080),
        Some(CropRect { x: 10, y: 10, width: 4, height: 4 })
    );
    assert_eq!(clamp_selection(0, 0, 10, 10, 0, 0), None);
}

#[test]
fn crop_copies_the_selected_block() {
    // 6x5 frame whose red channel is the column and green channel the row.
    let mut pixels = Vec::new();
    for row in 0..5u8 {
        for col in 0..6u8 {
            pixels.extend_from_slice(&[col, row, 7, 255]);
        }
    }
    let frame = RgbaFrame::from_raw(6, 5, pixels).expect("frame");
    let crop = crop_selection(&frame, 1, 1, 4, 4).expect("crop");
    assert_eq!((crop.width_px(), crop.height_px()), (4, 4));
    let raw = crop.as_raw();
    assert_eq!(&raw[0..4], &[1, 1, 7, 255]);
    assert_eq!(&raw[(3 * 4 + 3) * 4..(3 * 4 + 3) * 4 + 4], &[4, 4, 7, 255]);
    assert!(crop_selection(&frame, 1, 1, 3, 4).is_none());
}

#[test]
fn focus_goes_to_the_monitor_under_the_cursor() {
    let monitors = vec![
        MonitorArea { x: 0, y: 0, width: 1920, height: 1080 },
        MonitorArea { x: 1920, y: 0, width: 2560, height: 1440 },
        MonitorArea { x: -1280, y: 0, width: 1280, height: 1024 },
    ];
    assert_eq!(focused_monitor_index(Some((2000, 100)), &monitors), 1);
    assert_eq!(focused_monitor_index(Some((-1, 5)), &monitors), 2);
    assert_eq!(focused_monitor_index(Some((1919, 1079)), &monitors), 0);
    assert_eq!(focused_monitor_index(Some((1920, 1079)), &monitors), 1);
    assert_eq!(focused_monitor_index(Some((100, 5000)), &monitors), 0);
    assert_eq!(focused_monitor_index(None, &monitors), 0);
}

#[test]
fn only_one_session_at_a_time() {
    let mut state: SnipState<u32> = SnipState::new();
    let id = state.start_snip().expect("first start");
    assert_eq!(id.len(), 36);
    assert!(state.start_snip().is_none(), "second start is ignored");
    assert!(state.is_current(&id));
    assert_eq!(state.cancel_snip(), Some(id.clone()));
    assert!(!state.is_current(&id));
    assert!(state.cancel_snip().is_none());
    assert!(state.start_snip().is_some());
}

#[test]
fn stale_steps_do_not_touch_a_newer_session() {
    let mut state: SnipState<u32> = SnipState::new();
    let old = state.start_snip().expect("start");
    assert!(state.cancel_snip_if(&old));
    let new = state.start_snip().expect("restart");
    assert_ne!(old, new);
    assert!(!state.install_frames(&old, vec![1, 2], 1), "late frames are discarded");
    assert!(!state.cancel_snip_if(&old), "late failure does not cancel");
    assert!(state.is_current(&new));
    assert_eq!(state.frame_preview(0), Err(SnipError::MonitorOutOfRange(0)));
    assert!(state.install_frames(&new, vec![10, 20, 30], 2));
    assert_eq!(state.frame_preview(1), Ok(&20));
}

#[test]
fn overlay_is_shown_and_focused_only_for_a_live_session() {
    let mut state: SnipState<u32> = SnipState::new();
    assert_eq!(state.overlay_ready(0), OverlayAction::Destroy);
    let id = state.start_snip().expect("start");
    assert!(state.install_frames(&id, vec![1, 2], 1));
    assert_eq!(state.overlay_ready(1), OverlayAction::Show { focus: true });
    assert_eq!(state.overlay_ready(0), OverlayAction::Show { focus: false });
    state.cancel_snip();
    assert_eq!(state.overlay_ready(1), OverlayAction::Destroy);
}

#[test]
fn confirm_takes_the_frame_and_ends_the_session() {
    let mut state: SnipState<u32> = SnipState::new();
    assert_eq!(state.take_for_confirm(0), Err(SnipError::NoActiveSession));
    assert_eq!(state.frame_preview(0), Err(SnipError::NoActiveSession));
    let id = state.start_snip().expect("start");
    assert!(state.install_frames(&id, vec![7, 8, 9], 0));
    assert_eq!(state.take_for_confirm(1), Ok((id.clone(), Some(8))));
    assert!(!state.is_current(&id));
    let id = state.start_snip().expect("start");
    assert!(state.install_frames(&id, vec![7], 0));
    assert_eq!(state.take_for_confirm(3), Ok((id, None)));
}

#[test]
fn reader_is_only_run_on_shapes_it_handles() {
    assert!(can_scan_barcodes(&filled(33, 50, [0, 0, 0, 255])));
    assert!(can_scan_barcodes(&filled(4, 12, [0, 0, 0, 255])));
    assert!(can_scan_barcodes(&filled(300, 2, [0, 0, 0, 255])));
    assert!(can_scan_barcodes(&filled(12, 13, [0, 0, 0, 255])));
    assert!(can_scan_barcodes(&filled(300, 20, [0, 0, 0, 255])));
    assert!(!can_scan_barcodes(&filled(0, 0, [0, 0, 0, 255])));
    assert!(!can_scan_barcodes(&filled(5, 0, [0, 0, 0, 255])));
    assert!(decode_barcodes(&filled(13, 13, [0, 0, 0, 255])).is_none());
}

#[test]
fn empty_frame_cannot_be_encoded() {
    assert_eq!(encode_png(&filled(0, 0, [0, 0, 0, 0])), Err(SnipError::EncodeFailed));
    assert_eq!(encode_preview_jpeg(&filled(5, 0, [0, 0, 0, 0])), Err(SnipError::EncodeFailed));
}

#[test]
fn barcode_scan_respects_the_setting() {
    let plain = filled(20, 20, [250, 250, 250, 255]);
    assert!(scan_for_barcodes(&plain, true).is_none());
    assert!(scan_for_barcodes(&plain, false).is_none());
    assert!(scan_for_barcodes(&filled(4, 40, [0, 0, 0, 255]), true).is_none());
}

#[test]
fn history_text_is_refreshed_only_with_real_text() {
    assert!(refreshes_search_text(true, "hello"));
    assert!(!refreshes_search_text(true, ""));
    assert!(!refreshes_search_text(false, "hello"));
    assert!(copies_to_clipboard(true, "x"));
    assert!(!copies_to_clipboard(true, ""));
    assert!(!copies_to_clipboard(false, "x"));
}

/// A frame whose pixel at (x, y) is black or white as `black(x, y)` says.
fn pattern(width: u32, height: u32, black: impl Fn(u32, u32) -> bool) -> RgbaFrame {
    let mut pixels = Vec::with_capacity((width * height * 4) as usize);
    for y in 0..height {
        for x in 0..width {
            let v = if black(x, y) { 0 } else { 255 };
            pixels.extend_from_slice(&[v, v, v, 255]);
        }
    }
    RgbaFrame::from_raw(width, height, pixels).expect("frame")
}

/// Runs the reader on every admitted shape up to `max` pixels a side, for
/// several contents; each call must come back, and any text it yields has
/// no empty line.
fn sweep(max: u32, black: impl Fn(u32, u32) -> bool + Copy) {
    for width in 1..=max {
        for height in 1..=max {
            let frame = pattern(width, height, black);
            if can_scan_barcodes(&frame) {
                if let Some(text) = scan_for_barcodes(&frame, true) {
                    assert!(text.lines().all(|line| !line.trim().is_empty()), "{width}x{height}");
                }
            } else {
                assert!(scan_for_barcodes(&frame, true).is_none());
            }
        }
    }
}

#[test]
fn reader_returns_on_small_uniform_frames() {
    sweep(24, |_, _| false);
    sweep(24, |_, _| true);
}

#[test]
fn reader_returns_on_small_striped_frames() {
    sweep(24, |x, _| x % 2 == 0);
    sweep(24, |_, y| y % 3 == 0);
}

#[test]
fn reader_returns_on_small_checkered_frames() {
    sweep(24, |x, y| (x + y) % 2 == 0);
    sweep(24, |x, y| (x / 2 + y / 2) % 2 == 0);
}

/// Checkered frames look like MaxiCode bullseyes, a scan the reader is run
/// without.
#[test]
fn reader_returns_on_checkered_frames_of_the_smallest_square_shapes() {
    for width in 33..=40 {
        for height in 33..=40 {
            for black in [
                (|x: u32, y: u32| (x + y) % 2 == 0) as fn(u32, u32) -> bool,
                |x: u32, y: u32| (x / 2 + y / 2) % 2 == 0,
            ] {
                let frame = pattern(width, height, black);
                assert!(can_scan_barcodes(&frame));
                if let Some(text) = scan_for_barcodes(&frame, true) {
                    assert!(text.lines().all(|line| !line.trim().is_empty()), "{width}x{height}");
                }
            }
        }
    }
}

#[test]
fn every_end_but_a_misclick_is_reported_once() {
    assert!(completion_event(SnipEnd::TooSmall).is_none());
    let done = completion_event(SnipEnd::Done { text: "二维码 ok".to_owned() }).expect("event");
    assert!(done.ok);
    assert_eq!(done.chars, 6);
    assert_eq!(done.error, None);
    let failed = completion_event(SnipEnd::Failed("no active snip session".to_owned())).expect("event");
    assert!(!failed.ok);
    assert_eq!(failed.chars, 0);
    assert_eq!(failed.error.as_deref(), Some("no active snip session"));
    let copy = completion_event(SnipEnd::CopyFailed {
        text: "abc".to_owned(),
        error: "clipboard busy".to_owned(),
    })
    .expect("event");
    assert!(!copy.ok);
    assert_eq!(copy.chars, 3);
    assert_eq!(copy.error.as_deref(), Some("clipboard busy"));
}

#[test]
fn late_failure_reports_only_for_the_live_session() {
    let mut state: SnipState<u32> = SnipState::new();
    let old = state.start_snip().expect("start");
    let event = state.fail_session(&old, "capture failed".to_owned()).expect("event");
    assert!(!event.ok);
    assert_eq!(event.error.as_deref(), Some("capture failed"));
    assert!(!state.is_current(&old));
    let new = state.start_snip().expect("restart");
    assert!(state.fail_session(&old, "late".to_owned()).is_none());
    assert!(state.is_current(&new));
}

#[test]
fn filled_frame_has_four_bytes_per_pixel() {
    let frame = filled(3, 2, [9, 8, 7, 6]);
    assert_eq!(frame.as_raw().len(), 24);
    assert_eq!(&frame.as_raw()[4..8], &[9, 8, 7, 6]);
}

/// A 1D barcode in a short, wide crop is decoded.
#[test]
fn decodes_code_128_in_a_wide_short_selection() {
    let matrix = rxing::MultiFormatWriter
        .encode("SNIP-123", &rxing::BarcodeFormat::CODE_128, 300, 20)
        .expect("encode code 128 fixture");
    let (width, height) = (matrix.width(), matrix.height());
    assert!(height < 33);
    let frame = pattern(width, height, |x, y| matrix.get(x, y));
    assert_eq!(scan_for_barcodes(&frame, true).as_deref(), Some("SNIP-123"));
}
