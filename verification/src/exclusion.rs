//! Clipboard exclusion conventions honoured by the history watcher.
//!
//! Password managers mark sensitive clipboard content with named formats:
//! `ExcludeClipboardContentFromMonitorProcessing` and `Clipboard Viewer Ignore`
//! exclude it by their mere presence; `CanIncludeInClipboardHistory` excludes it
//! when its DWORD value is 0. A failed probe counts as "not excluded".
use vstd::prelude::*;

verus! {

/// What the clipboard shows of the exclusion markers. A format id of 0 means
/// the format could not be registered; a marker that is not present, or whose
/// value cannot be read, has `false` / `None`.
#[derive(Debug, Clone, Copy)]
pub struct ClipboardMarkers {
    pub exclude_from_monitor: u32,
    pub exclude_from_monitor_present: bool,
    pub viewer_ignore: u32,
    pub viewer_ignore_present: bool,
    pub can_include_in_history: u32,
    pub can_include_in_history_present: bool,
    pub can_include_in_history_value: Option<u32>,
}

/// Which marker excluded the content.
#[derive(Debug, Clone, Copy, PartialEq, Eq, Structural)]
pub enum ExclusionReason {
    ExcludeFromMonitor,
    ViewerIgnore,
    NotForHistory,
}

/// The marker that excludes the content, checked in this order; `None` when
/// the content is to be recorded.
pub open spec fn spec_exclusion_reason(m: ClipboardMarkers) -> Option<ExclusionReason> {
    if m.exclude_from_monitor != 0 && m.exclude_from_monitor_present {
        Some(ExclusionReason::ExcludeFromMonitor)
    } else if m.viewer_ignore != 0 && m.viewer_ignore_present {
        Some(ExclusionReason::ViewerIgnore)
    } else if m.can_include_in_history != 0 && m.can_include_in_history_present
        && m.can_include_in_history_value == Some(0u32) {
        Some(ExclusionReason::NotForHistory)
    } else {
        None
    }
}

/// Decides whether clipboard content with these markers must be left out of
/// the history, and why.
pub fn exclusion_reason(markers: &ClipboardMarkers) -> (reason: Option<ExclusionReason>)
    ensures
        reason == spec_exclusion_reason(*markers),
{
    if markers.exclude_from_monitor != 0 && markers.exclude_from_monitor_present {
        return Some(ExclusionReason::ExcludeFromMonitor);
    }
    if markers.viewer_ignore != 0 && markers.viewer_ignore_present {
        return Some(ExclusionReason::ViewerIgnore);
    }
    let opted_out = match markers.can_include_in_history_value {
        Some(v) => v == 0,
        None => false,
    };
    if markers.can_include_in_history != 0 && markers.can_include_in_history_present && opted_out {
        return Some(ExclusionReason::NotForHistory);
    }
    None
}

/// Whether the current clipboard content is to be left out of the history on
/// a platform whose clipboard carries none of the exclusion markers: never.
pub fn should_exclude_current() -> (exclude: bool)
    ensures
        !exclude,
{
    false
}

/// Failing open: markers that could not be observed (unregistered formats,
/// absent markers, an unreadable value) never exclude content.
pub proof fn lemma_fail_open(m: ClipboardMarkers)
    requires
        m.exclude_from_monitor == 0 || !m.exclude_from_monitor_present,
        m.viewer_ignore == 0 || !m.viewer_ignore_present,
        m.can_include_in_history_value is None,
    ensures
        spec_exclusion_reason(m) is None,
{
}

/// Each marker excludes on its own: a registered, present
/// `ExcludeClipboardContentFromMonitorProcessing` excludes whatever the other
/// markers say; a registered, present `Clipboard Viewer Ignore` excludes
/// unless the first one already did; a registered, present
/// `CanIncludeInClipboardHistory` whose value is 0 excludes unless one of the
/// others already did. Content is excluded exactly when one of them holds, and
/// a value other than 0 never excludes.
pub proof fn lemma_each_marker_excludes(m: ClipboardMarkers)
    ensures
        m.exclude_from_monitor != 0 && m.exclude_from_monitor_present ==> spec_exclusion_reason(m)
            == Some(ExclusionReason::ExcludeFromMonitor),
        !(m.exclude_from_monitor != 0 && m.exclude_from_monitor_present) && m.viewer_ignore != 0
            && m.viewer_ignore_present ==> spec_exclusion_reason(m) == Some(
            ExclusionReason::ViewerIgnore,
        ),
        !(m.exclude_from_monitor != 0 && m.exclude_from_monitor_present) && !(m.viewer_ignore != 0
            && m.viewer_ignore_present) && m.can_include_in_history != 0
            && m.can_include_in_history_present && m.can_include_in_history_value == Some(0u32)
            ==> spec_exclusion_reason(m) == Some(ExclusionReason::NotForHistory),
        spec_exclusion_reason(m) is Some <==> ((m.exclude_from_monitor != 0
            && m.exclude_from_monitor_present) || (m.viewer_ignore != 0 && m.viewer_ignore_present)
            || (m.can_include_in_history != 0 && m.can_include_in_history_present
            && m.can_include_in_history_value == Some(0u32))),
        spec_exclusion_reason(m) == Some(ExclusionReason::ViewerIgnore) ==> m.viewer_ignore != 0
            && m.viewer_ignore_present,
        spec_exclusion_reason(m) == Some(ExclusionReason::NotForHistory)
            ==> m.can_include_in_history_value == Some(0u32),
{
}

/// Adding a marker never lets excluded content back in: with every marker of
/// `fewer` also shown by `more`, content `fewer` excludes is excluded by
/// `more` too.
pub proof fn lemma_more_markers_still_exclude(fewer: ClipboardMarkers, more: ClipboardMarkers)
    requires
        fewer.exclude_from_monitor == more.exclude_from_monitor,
        fewer.viewer_ignore == more.viewer_ignore,
        fewer.can_include_in_history == more.can_include_in_history,
        fewer.exclude_from_monitor_present ==> more.exclude_from_monitor_present,
        fewer.viewer_ignore_present ==> more.viewer_ignore_present,
        fewer.can_include_in_history_present ==> more.can_include_in_history_present,
        fewer.can_include_in_history_value is Some ==> more.can_include_in_history_value
            == fewer.can_include_in_history_value,
    ensures
        spec_exclusion_reason(fewer) is Some ==> spec_exclusion_reason(more) is Some,
{
}

} // verus!
