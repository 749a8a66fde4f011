use snipstack::ocr::{engine_key, needs_backfill, needs_rebuild, uses_language_pack, EvictionClock};

#[test]
fn later_recognition_cancels_earlier_eviction() {
    let mut clock = EvictionClock::new();
    let first = clock.schedule();
    assert!(clock.should_evict(first));
    let second = clock.schedule();
    assert!(!clock.should_evict(first));
    assert!(clock.should_evict(second));
}

#[test]
fn builtin_or_missing_pack_falls_back_to_builtin_model() {
    assert!(!uses_language_pack("zhEn", true));
    assert!(!uses_language_pack("korean", false));
    assert!(uses_language_pack("korean", true));
}

#[test]
fn backfill_only_fills_empty_search_text() {
    assert!(!needs_backfill(&None));
    assert!(needs_backfill(&Some(None)));
    assert!(needs_backfill(&Some(Some(String::new()))));
    assert!(!needs_backfill(&Some(Some("截屏取字".to_owned()))));
}

#[test]
fn engine_is_rebuilt_when_the_language_changes() {
    assert_eq!(engine_key("latin", true), "latin");
    assert_eq!(engine_key("latin", false), "zhEn");
    assert_eq!(engine_key("zhEn", true), "zhEn");
    assert!(needs_rebuild(None, "zhEn"));
    assert!(needs_rebuild(Some("zhEn"), "latin"));
    assert!(!needs_rebuild(Some("latin"), "latin"));
}

#[test]
fn backfill_stores_only_recognized_text() {
    let lines = vec![
        snipstack::text::OcrLine { text: "a".to_owned() },
        snipstack::text::OcrLine { text: "b".to_owned() },
    ];
    assert_eq!(snipstack::ocr::backfill_text(&lines), Some("a\nb".to_owned()));
    assert_eq!(snipstack::ocr::backfill_text(&[]), None);
}
