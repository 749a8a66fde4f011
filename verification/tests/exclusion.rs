use snipstack::exclusion::{exclusion_reason, should_exclude_current, ClipboardMarkers, ExclusionReason};

fn none_present() -> ClipboardMarkers {
    ClipboardMarkers {
        exclude_from_monitor: 49_300,
        exclude_from_monitor_present: false,
        viewer_ignore: 49_301,
        viewer_ignore_present: false,
        can_include_in_history: 49_302,
        can_include_in_history_present: false,
        can_include_in_history_value: None,
    }
}

#[test]
fn markers_exclude_in_order() {
    let mut m = none_present();
    assert_eq!(exclusion_reason(&m), None);
    m.can_include_in_history_present = true;
    m.can_include_in_history_value = Some(0);
    assert_eq!(exclusion_reason(&m), Some(ExclusionReason::NotForHistory));
    m.viewer_ignore_present = true;
    assert_eq!(exclusion_reason(&m), Some(ExclusionReason::ViewerIgnore));
    m.exclude_from_monitor_present = true;
    assert_eq!(exclusion_reason(&m), Some(ExclusionReason::ExcludeFromMonitor));
}

#[test]
fn history_marker_excludes_only_at_zero() {
    let mut m = none_present();
    m.can_include_in_history_present = true;
    m.can_include_in_history_value = Some(1);
    assert_eq!(exclusion_reason(&m), None);
    m.can_include_in_history_value = None;
    assert_eq!(exclusion_reason(&m), None);
}

#[test]
fn unregistered_formats_fail_open() {
    let mut m = none_present();
    m.exclude_from_monitor = 0;
    m.exclude_from_monitor_present = true;
    m.viewer_ignore = 0;
    m.viewer_ignore_present = true;
    assert_eq!(exclusion_reason(&m), None);
    assert!(!should_exclude_current());
}
