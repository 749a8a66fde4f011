//! Decisions around the OCR engine: which model to load, when an idle engine
//! may be dropped, and which history images still need background recognition.
use vstd::prelude::*;

use crate::packs::BUILTIN_LANGUAGE_ID;
use crate::text::{join_lines, spec_join_lines, OcrLine, SnipLineBreak};

verus! {

/// Counts recognitions so that the idle eviction scheduled after one of them
/// only fires when no later recognition happened.
pub struct EvictionClock {
    epoch: u64,
}

impl EvictionClock {
    /// Recognitions counted so far (wrapping at the maximum).
    pub closed spec fn epoch(&self) -> u64 {
        self.epoch
    }

    /// No recognition yet.
    pub fn new() -> (clock: Self)
        ensures
            clock.epoch() == 0,
    {
        EvictionClock { epoch: 0 }
    }

    /// Counts a finished recognition and returns the ticket its delayed
    /// eviction check carries.
    pub fn schedule(&mut self) -> (ticket: u64)
        ensures
            final(self).epoch() == vstd::wrapping::u64_specs::wrapping_add(old(self).epoch(), 1),
            ticket == final(self).epoch(),
    {
        self.epoch = self.epoch.wrapping_add(1);
        self.epoch
    }

    /// Whether the engine may be dropped when the check carrying `ticket`
    /// runs: only if no recognition happened since.
    pub fn should_evict(&self, ticket: u64) -> (evict: bool)
        ensures
            evict == (self.epoch() == ticket),
    {
        self.epoch == ticket
    }
}

/// A later recognition cancels the pending eviction of an earlier one: the
/// ticket of a recognition never matches the count after another recognition,
/// while the latest recognition's ticket matches it.
pub proof fn lemma_later_use_postpones_eviction(epoch: u64)
    ensures
        vstd::wrapping::u64_specs::wrapping_add(epoch, 1) != vstd::wrapping::u64_specs::wrapping_add(
            vstd::wrapping::u64_specs::wrapping_add(epoch, 1),
            1,
        ),
{
}

/// Whether the engine is built from a downloaded language pack: only when a
/// language other than the built-in one is selected and its pack is complete
/// on disk; otherwise recognition falls back to the built-in model.
pub fn uses_language_pack(selected: &str, pack_ready: bool) -> (use_pack: bool)
    ensures
        use_pack == (selected@ != BUILTIN_LANGUAGE_ID@ && pack_ready),
{
    let builtin = BUILTIN_LANGUAGE_ID.to_owned();
    let chosen = selected.to_owned();
    chosen != builtin && pack_ready
}

/// Whether a history image still needs background recognition, given what the
/// database holds for its row: `None` when the row is gone, otherwise its
/// search text. Only rows without text (or with empty text) are recognized;
/// existing text is never overwritten.
pub fn needs_backfill(existing: &Option<Option<String>>) -> (needed: bool)
    ensures
        needed == (match existing {
            None => false,
            Some(None) => true,
            Some(Some(text)) => text@.len() == 0,
        }),
{
    match existing {
        None => false,
        Some(None) => true,
        Some(Some(text)) => text.as_str().unicode_len() == 0,
    }
}

/// The key of the engine for the `selected` language: the language itself
/// when its pack is used, the built-in language otherwise.
pub open spec fn spec_engine_key(selected: Seq<char>, pack_ready: bool) -> Seq<char> {
    if selected != BUILTIN_LANGUAGE_ID@ && pack_ready {
        selected
    } else {
        BUILTIN_LANGUAGE_ID@
    }
}

/// The key the engine for the `selected` language is cached under; `pack_ready`
/// tells whether its pack is complete on disk.
pub fn engine_key(selected: &str, pack_ready: bool) -> (key: String)
    ensures
        key@ == spec_engine_key(selected@, pack_ready),
{
    if uses_language_pack(selected, pack_ready) {
        selected.to_owned()
    } else {
        BUILTIN_LANGUAGE_ID.to_owned()
    }
}

/// Whether the engine must be (re)built before a recognition that needs the
/// engine keyed `key`: when none is cached, or the cached one was built for
/// another language.
pub fn needs_rebuild(cached_key: Option<&str>, key: &str) -> (rebuild: bool)
    ensures
        rebuild == (cached_key is None || cached_key->0@ != key@),
{
    match cached_key {
        None => true,
        Some(cached) => cached.to_owned() != key.to_owned(),
    }
}

/// The search text background recognition stores for a history image: its
/// lines one per line (layout does not matter for search, and context shows
/// better line by line); `None` when nothing was recognized, so the row stays
/// without text.
pub fn backfill_text(lines: &[OcrLine]) -> (text: Option<String>)
    ensures
        spec_join_lines(lines@, SnipLineBreak::Keep).len() == 0 ==> text is None,
        spec_join_lines(lines@, SnipLineBreak::Keep).len() > 0 ==> (text matches Some(t) && t@
            == spec_join_lines(lines@, SnipLineBreak::Keep)),
{
    let text = join_lines(lines, SnipLineBreak::Keep);
    if text.as_str().unicode_len() == 0 {
        None
    } else {
        Some(text)
    }
}

} // verus!
