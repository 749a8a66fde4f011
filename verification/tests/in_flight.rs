use snipstack::in_flight::InFlight;

#[test]
fn rejects_duplicate_and_releases_on_drop() {
    let mut registry = InFlight::new();
    let guard = registry.try_begin("a").expect("first begin");
    assert!(
        registry.try_begin("a").is_none(),
        "duplicate must be rejected"
    );
    assert!(registry.try_begin("b").is_some(), "other keys unaffected");
    registry.finish(guard);
    assert!(registry.try_begin("a").is_some(), "released after drop");
}

#[test]
fn finishing_one_key_keeps_the_others_held() {
    let mut registry = InFlight::new();
    let a = registry.try_begin("korean").expect("korean");
    let _b = registry.try_begin("latin").expect("latin");
    registry.finish(a);
    assert!(registry.try_begin("latin").is_none());
    assert!(registry.try_begin("korean").is_some());
}

#[test]
fn empty_key_is_a_key_like_any_other() {
    let mut registry = InFlight::new();
    let guard = registry.try_begin("").expect("empty key");
    assert!(registry.try_begin("").is_none());
    registry.finish(guard);
    assert!(registry.try_begin("").is_some());
}
