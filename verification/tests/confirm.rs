use rxing::Writer;
use snipstack::confirm::{ConfirmAction, ConfirmEvent, ConfirmFlow, ConfirmSettings};
use snipstack::snip::{RgbaFrame, SnipDone};
use snipstack::text::{OcrLine, SnipLineBreak};

fn settings(detect_qr: bool, save_to_history: bool, auto_copy: bool) -> ConfirmSettings {
    ConfirmSettings { detect_qr, line_break: SnipLineBreak::Keep, save_to_history, auto_copy }
}

fn plain() -> RgbaFrame {
    RgbaFrame::filled(40, 20, [250, 250, 250, 255]).expect("frame")
}

fn qr(content: &str) -> RgbaFrame {
    let matrix = rxing::qrcode::QRCodeWriter
        .encode(content, &rxing::BarcodeFormat::QR_CODE, 120, 120)
        .expect("encode qr fixture");
    let (width, height) = (matrix.width(), matrix.height());
    let mut pixels = Vec::new();
    for y in 0..height {
        for x in 0..width {
            let v = if matrix.get(x, y) { 0 } else { 255 };
            pixels.extend_from_slice(&[v, v, v, 255]);
        }
    }
    RgbaFrame::from_raw(width, height, pixels).expect("frame")
}

fn lines(texts: &[&str]) -> Vec<OcrLine> {
    texts.iter().map(|t| OcrLine { text: (*t).to_owned() }).collect()
}

fn finished(action: ConfirmAction) -> Option<SnipDone> {
    match action {
        ConfirmAction::Finish(done) => done,
        _ => panic!("the flow did not finish"),
    }
}

#[test]
fn too_small_selection_ends_silently() {
    let mut flow = ConfirmFlow::new(settings(true, true, true));
    assert!(finished(flow.step(ConfirmEvent::Taken(Ok(None)))).is_none());
    assert!(matches!(flow.step(ConfirmEvent::Copied(Ok(()))), ConfirmAction::Ignored));
}

#[test]
fn missing_session_is_reported() {
    let mut flow = ConfirmFlow::new(settings(true, true, true));
    let done = finished(flow.step(ConfirmEvent::Taken(Err("no active snip session".to_owned()))))
        .expect("event");
    assert!(!done.ok);
    assert_eq!(done.error.as_deref(), Some("no active snip session"));
}

#[test]
fn barcode_text_skips_ocr_and_history_comes_before_clipboard() {
    let mut flow = ConfirmFlow::new(settings(true, true, true));
    let frame = qr("https://example.com/snip");
    let (w, h) = (frame.width_px(), frame.height_px());
    match flow.step(ConfirmEvent::Taken(Ok(Some(frame)))) {
        ConfirmAction::SaveImage { png, width, height } => {
            assert_eq!((width, height), (w, h));
            assert_eq!(&png[1..4], b"PNG");
        }
        _ => panic!("expected the history entry first"),
    }
    match flow.step(ConfirmEvent::Saved(Ok(false))) {
        ConfirmAction::WriteClipboard(text) => assert_eq!(text, "https://example.com/snip"),
        _ => panic!("expected the clipboard"),
    }
    let done = finished(flow.step(ConfirmEvent::Copied(Ok(())))).expect("event");
    assert!(done.ok);
    assert_eq!(done.chars, 24);
    assert_eq!(done.error, None);
}

#[test]
fn ocr_is_the_fallback_when_no_barcode_is_found() {
    let mut flow = ConfirmFlow::new(settings(true, false, true));
    assert!(matches!(flow.step(ConfirmEvent::Taken(Ok(Some(plain())))), ConfirmAction::Recognize));
    assert_eq!(flow.pending_frame().map(|f| f.width_px()), Some(40));
    match flow.step(ConfirmEvent::Recognized(Ok(lines(&["hello", "world"])))) {
        ConfirmAction::WriteClipboard(text) => assert_eq!(text, "hello\nworld"),
        _ => panic!("expected the clipboard"),
    }
}

#[test]
fn disabled_barcode_detection_goes_straight_to_ocr() {
    let mut flow = ConfirmFlow::new(settings(false, false, false));
    assert!(matches!(
        flow.step(ConfirmEvent::Taken(Ok(Some(qr("abc"))))),
        ConfirmAction::Recognize
    ));
    let done = finished(flow.step(ConfirmEvent::Recognized(Ok(lines(&["abc"]))))).expect("event");
    assert!(done.ok);
    assert_eq!(done.chars, 3);
}

#[test]
fn recognition_failure_is_reported() {
    let mut flow = ConfirmFlow::new(settings(true, true, true));
    flow.step(ConfirmEvent::Taken(Ok(Some(plain()))));
    let done = finished(flow.step(ConfirmEvent::Recognized(Err("ocr failed".to_owned()))))
        .expect("event");
    assert!(!done.ok);
    assert_eq!(done.chars, 0);
    assert_eq!(done.error.as_deref(), Some("ocr failed"));
}

#[test]
fn history_failure_is_only_logged_and_clipboard_failure_is_reported() {
    let mut flow = ConfirmFlow::new(settings(false, true, true));
    flow.step(ConfirmEvent::Taken(Ok(Some(plain()))));
    assert!(matches!(
        flow.step(ConfirmEvent::Recognized(Ok(lines(&["abc"])))),
        ConfirmAction::SaveImage { .. }
    ));
    assert!(matches!(
        flow.step(ConfirmEvent::Saved(Err("db locked".to_owned()))),
        ConfirmAction::WriteClipboard(_)
    ));
    let done = finished(flow.step(ConfirmEvent::Copied(Err("clipboard busy".to_owned()))))
        .expect("event");
    assert!(!done.ok);
    assert_eq!(done.chars, 3);
    assert_eq!(done.error.as_deref(), Some("clipboard busy"));
}

#[test]
fn deduplicated_entry_gets_its_search_text_refreshed() {
    let mut flow = ConfirmFlow::new(settings(false, true, false));
    flow.step(ConfirmEvent::Taken(Ok(Some(plain()))));
    flow.step(ConfirmEvent::Recognized(Ok(lines(&["abc"]))));
    match flow.step(ConfirmEvent::Saved(Ok(true))) {
        ConfirmAction::RefreshSearchText(text) => assert_eq!(text, "abc"),
        _ => panic!("expected the refresh"),
    }
    let done = finished(flow.step(ConfirmEvent::Refreshed(Err("db locked".to_owned()))))
        .expect("event");
    assert!(done.ok);
}

#[test]
fn empty_text_is_not_copied_nor_refreshed() {
    let mut flow = ConfirmFlow::new(settings(false, true, true));
    flow.step(ConfirmEvent::Taken(Ok(Some(plain()))));
    flow.step(ConfirmEvent::Recognized(Ok(Vec::new())));
    let done = finished(flow.step(ConfirmEvent::Saved(Ok(true)))).expect("event");
    assert!(done.ok);
    assert_eq!(done.chars, 0);
}
