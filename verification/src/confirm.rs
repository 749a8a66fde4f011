//! The confirmed-snip flow: what happens after the user confirms a
//! selection, one step at a time.
//!
//! The caller performs the outside work each action asks for (recognizing
//! text, storing the history entry, refreshing its search text, writing the
//! clipboard) and hands the outcome back as the next event. The flow decides
//! the rest: barcode payloads come first and OCR is the fallback, the PNG is
//! encoded only when the snip is saved to history, the history entry is
//! written before the clipboard, a failed history write is only logged, and
//! every end but a too-small selection finishes with exactly one completion
//! event.
use vstd::prelude::*;

use crate::snip::{
    barcode_scannable, completion_event, copies_to_clipboard, encode_png, failure_event,
    is_barcode_text, refreshes_search_text, scan_block, spec_png, RgbaFrame, SnipDone, SnipEnd,
};
use crate::text::{join_lines, spec_join_lines, OcrLine, SnipLineBreak};

verus! {

/// The snip settings a confirmed selection follows.
#[derive(Debug, Clone, Copy)]
pub struct ConfirmSettings {
    /// Decode barcodes before running OCR.
    pub detect_qr: bool,
    /// How recognized lines are joined.
    pub line_break: SnipLineBreak,
    /// Store the snipped image (and its text) in the history.
    pub save_to_history: bool,
    /// Copy the text to the clipboard.
    pub auto_copy: bool,
}

/// Where a confirmed snip stands.
pub enum ConfirmStage {
    /// Waiting for the selected block of the frozen frame.
    Taking,
    /// Waiting for the OCR of this block.
    Recognizing(RgbaFrame),
    /// Waiting for the history entry of this text to be stored.
    Saving(String),
    /// Waiting for the search text of a deduplicated entry to be refreshed.
    Refreshing(String),
    /// Waiting for this text to be written to the clipboard.
    Copying(String),
    /// The snip has ended.
    Finished,
}

/// The outcome of the outside work the last action asked for.
pub enum ConfirmEvent {
    /// The selected block: an error (no live session, monitor out of range),
    /// `None` for a selection too small to count, or the block.
    Taken(Result<Option<RgbaFrame>, String>),
    /// The recognized lines, or why recognition failed.
    Recognized(Result<Vec<OcrLine>, String>),
    /// Whether the stored history entry matched an existing one
    /// (deduplicated), or why storing it failed.
    Saved(Result<bool, String>),
    /// The search text was refreshed, or why that failed.
    Refreshed(Result<(), String>),
    /// The text was written to the clipboard, or why that failed.
    Copied(Result<(), String>),
}

/// What the caller does next.
pub enum ConfirmAction {
    /// Run OCR on the block the flow holds ([`ConfirmFlow::pending_frame`]).
    Recognize,
    /// Store this PNG of the block in the history, with the text.
    SaveImage { png: Vec<u8>, width: u32, height: u32 },
    /// Refresh the search text of the deduplicated history entry.
    RefreshSearchText(String),
    /// Write this text to the clipboard.
    WriteClipboard(String),
    /// The snip has ended: broadcast this completion event, if any.
    Finish(Option<SnipDone>),
    /// The flow was not waiting for this event; nothing changed.
    Ignored,
}

/// A confirmed snip in progress.
pub struct ConfirmFlow {
    pub settings: ConfirmSettings,
    pub stage: ConfirmStage,
    /// Whether the barcode reader was run on the block.
    pub read_barcodes: Ghost<bool>,
}

/// Message of the failure event when the PNG of the block cannot be encoded.
pub const ENCODE_FAILED_MESSAGE: &'static str = "encode snip png";

/// The flow ends with the failure event carrying `message`.
pub open spec fn ends_failed(message: Seq<char>, stage: ConfirmStage, action: ConfirmAction) -> bool {
    &&& stage is Finished
    &&& action matches ConfirmAction::Finish(Some(e)) && e@ == failure_event(message)
}

/// After the history step with text `text`: the clipboard when the text is
/// to be copied, otherwise the end with the success event.
pub open spec fn after_history(
    auto_copy: bool,
    text: Seq<char>,
    stage: ConfirmStage,
    action: ConfirmAction,
) -> bool {
    if auto_copy && text.len() > 0 {
        &&& stage matches ConfirmStage::Copying(t) && t@ == text
        &&& action matches ConfirmAction::WriteClipboard(u) && u@ == text
    } else {
        &&& stage is Finished
        &&& action matches ConfirmAction::Finish(Some(e)) && e@ == (true, text.len(), None::<Seq<char>>)
    }
}

/// Once the block `frame` has its text `text`: the history entry when the snip
/// is saved (its PNG, or the failure event when it cannot be encoded),
/// otherwise straight on to the clipboard step.
pub open spec fn with_text(
    settings: ConfirmSettings,
    frame: RgbaFrame,
    text: Seq<char>,
    stage: ConfirmStage,
    action: ConfirmAction,
) -> bool {
    if settings.save_to_history {
        match spec_png(frame.pixels(), frame.width(), frame.height()) {
            None => ends_failed(ENCODE_FAILED_MESSAGE@, stage, action),
            Some(bytes) => {
                &&& stage matches ConfirmStage::Saving(t) && t@ == text
                &&& action matches ConfirmAction::SaveImage { png, width, height } && png@ == bytes
                    && width == frame.width() && height == frame.height()
            },
        }
    } else {
        after_history(settings.auto_copy, text, stage, action)
    }
}

/// Whether the flow in `stage` is waiting for `event`.
pub open spec fn awaits(stage: ConfirmStage, event: ConfirmEvent) -> bool {
    match stage {
        ConfirmStage::Taking => event is Taken,
        ConfirmStage::Recognizing(_) => event is Recognized,
        ConfirmStage::Saving(_) => event is Saved,
        ConfirmStage::Refreshing(_) => event is Refreshed,
        ConfirmStage::Copying(_) => event is Copied,
        ConfirmStage::Finished => false,
    }
}

/// The next stage and action of a flow with `settings` in `stage` that gets
/// `event`, for every pair but the barcode step (see [`ConfirmFlow::step`]).
pub open spec fn spec_step(
    settings: ConfirmSettings,
    stage: ConfirmStage,
    event: ConfirmEvent,
    next: ConfirmStage,
    action: ConfirmAction,
) -> bool {
    match (stage, event) {
        (ConfirmStage::Taking, ConfirmEvent::Taken(Err(m))) => ends_failed(m@, next, action),
        (ConfirmStage::Taking, ConfirmEvent::Taken(Ok(None))) => {
            &&& next is Finished
            &&& action matches ConfirmAction::Finish(None)
        },
        (ConfirmStage::Recognizing(_), ConfirmEvent::Recognized(Err(m))) => ends_failed(
            m@,
            next,
            action,
        ),
        (ConfirmStage::Recognizing(f), ConfirmEvent::Recognized(Ok(lines))) => with_text(
            settings,
            f,
            spec_join_lines(lines@, settings.line_break),
            next,
            action,
        ),
        (ConfirmStage::Saving(t), ConfirmEvent::Saved(Ok(deduplicated))) => if deduplicated
            && t@.len() > 0 {
            &&& next matches ConfirmStage::Refreshing(u) && u@ == t@
            &&& action matches ConfirmAction::RefreshSearchText(v) && v@ == t@
        } else {
            after_history(settings.auto_copy, t@, next, action)
        },
        (ConfirmStage::Saving(t), ConfirmEvent::Saved(Err(_))) => after_history(
            settings.auto_copy,
            t@,
            next,
            action,
        ),
        (ConfirmStage::Refreshing(t), ConfirmEvent::Refreshed(_)) => after_history(
            settings.auto_copy,
            t@,
            next,
            action,
        ),
        (ConfirmStage::Copying(t), ConfirmEvent::Copied(Ok(()))) => {
            &&& next is Finished
            &&& action matches ConfirmAction::Finish(Some(e)) && e@ == (true, t@.len(), None::<
                Seq<char>,
            >)
        },
        (ConfirmStage::Copying(t), ConfirmEvent::Copied(Err(m))) => {
            &&& next is Finished
            &&& action matches ConfirmAction::Finish(Some(e)) && e@ == (false, t@.len(), Some(m@))
        },
        _ => true,
    }
}

/// When the block `frame` arrives: OCR is asked for, or, when barcode
/// detection is on and the block has a shape the reader handles, the text of
/// the barcodes it holds becomes the snip's text.
pub open spec fn barcode_or_ocr(
    settings: ConfirmSettings,
    frame: RgbaFrame,
    stage: ConfirmStage,
    action: ConfirmAction,
) -> bool {
    ||| (stage == ConfirmStage::Recognizing(frame) && action is Recognize)
    ||| (settings.detect_qr && barcode_scannable(frame.width(), frame.height()) && exists|t: Seq<
        char,
    >| is_barcode_text(t) && #[trigger] with_text(settings, frame, t, stage, action))
}

fn finish(end: SnipEnd) -> (result: (ConfirmStage, ConfirmAction))
    ensures
        result.0 is Finished,
        result.1 matches ConfirmAction::Finish(e) && (e matches Some(d) ==> spec_completion_of(end)
            == Some(d@)) && (e is None ==> spec_completion_of(end) is None),
{
    (ConfirmStage::Finished, ConfirmAction::Finish(completion_event(end)))
}

/// The completion event of `end`, as [`completion_event`] gives it.
pub open spec fn spec_completion_of(end: SnipEnd) -> Option<(bool, nat, Option<Seq<char>>)> {
    crate::snip::spec_completion_event(end)
}

fn after_history_step(auto_copy: bool, text: String) -> (result: (ConfirmStage, ConfirmAction))
    ensures
        after_history(auto_copy, text@, result.0, result.1),
{
    if copies_to_clipboard(auto_copy, text.as_str()) {
        let copy = text.clone();
        (ConfirmStage::Copying(text), ConfirmAction::WriteClipboard(copy))
    } else {
        finish(SnipEnd::Done { text })
    }
}

fn with_text_step(settings: ConfirmSettings, frame: RgbaFrame, text: String) -> (result: (
    ConfirmStage,
    ConfirmAction,
))
    ensures
        with_text(settings, frame, text@, result.0, result.1),
{
    if settings.save_to_history {
        match encode_png(&frame) {
            Ok(png) => {
                let width = frame.width_px();
                let height = frame.height_px();
                (ConfirmStage::Saving(text), ConfirmAction::SaveImage { png, width, height })
            },
            Err(_) => finish(SnipEnd::Failed(ENCODE_FAILED_MESSAGE.to_owned())),
        }
    } else {
        after_history_step(settings.auto_copy, text)
    }
}

impl ConfirmFlow {
    /// Whether the barcode reader was run on the block of this snip.
    pub open spec fn barcodes_read(&self) -> bool {
        self.read_barcodes@
    }

    /// A flow for a just-confirmed selection, waiting for its block.
    pub fn new(settings: ConfirmSettings) -> (flow: Self)
        ensures
            flow.settings == settings,
            flow.stage is Taking,
            !flow.barcodes_read(),
    {
        ConfirmFlow { settings, stage: ConfirmStage::Taking, read_barcodes: Ghost(false) }
    }

    /// The block OCR is to run on, while the flow waits for it.
    pub fn pending_frame(&self) -> (frame: Option<&RgbaFrame>)
        ensures
            self.stage matches ConfirmStage::Recognizing(f) ==> frame == Some(&f),
            !(self.stage is Recognizing) ==> frame is None,
    {
        match &self.stage {
            ConfirmStage::Recognizing(f) => Some(f),
            _ => None,
        }
    }

    /// Takes the flow one step: `event` is the outcome of the last action.
    ///
    /// When the block arrives, its barcodes are decoded first (when enabled
    /// and the block has a shape the reader handles); their text, if any, is
    /// the snip's text, otherwise the flow asks for OCR. An event the flow is
    /// not waiting for changes nothing.
    pub fn step(&mut self, event: ConfirmEvent) -> (action: ConfirmAction)
        ensures
            final(self).settings == old(self).settings,
            !awaits(old(self).stage, event) ==> final(self).stage == old(self).stage && action is Ignored,
            awaits(old(self).stage, event) ==> spec_step(
                old(self).settings,
                old(self).stage,
                event,
                final(self).stage,
                action,
            ),
            old(self).stage is Taking ==> match event {
                ConfirmEvent::Taken(Ok(Some(f))) => barcode_or_ocr(
                    old(self).settings,
                    f,
                    final(self).stage,
                    action,
                ) && final(self).barcodes_read() == (old(self).settings.detect_qr
                    && barcode_scannable(f.width(), f.height())),
                _ => final(self).barcodes_read() == old(self).barcodes_read(),
            },
            !(old(self).stage is Taking) ==> final(self).barcodes_read() == old(self).barcodes_read(),
    {
        let settings = self.settings;
        let mut stage = ConfirmStage::Finished;
        std::mem::swap(&mut stage, &mut self.stage);
        let (next, action) = match (stage, event) {
            (ConfirmStage::Taking, ConfirmEvent::Taken(taken)) => match taken {
                Err(message) => finish(SnipEnd::Failed(message)),
                Ok(None) => finish(SnipEnd::TooSmall),
                Ok(Some(frame)) => {
                    let (found, read) = scan_block(&frame, settings.detect_qr);
                    self.read_barcodes = read;
                    match found {
                    Some(text) => {
                        let ghost t = text@;
                        let result = with_text_step(settings, frame, text);
                        assert(is_barcode_text(t) && with_text(settings, frame, t, result.0, result.1));
                        result
                    },
                    None => (ConfirmStage::Recognizing(frame), ConfirmAction::Recognize),
                }
                },
            },
            (ConfirmStage::Recognizing(frame), ConfirmEvent::Recognized(recognized)) => match recognized {
                Err(message) => finish(SnipEnd::Failed(message)),
                Ok(lines) => {
                    let text = join_lines(lines.as_slice(), settings.line_break);
                    with_text_step(settings, frame, text)
                },
            },
            (ConfirmStage::Saving(text), ConfirmEvent::Saved(saved)) => {
                let deduplicated = match saved {
                    Ok(d) => d,
                    Err(_) => false,
                };
                if refreshes_search_text(deduplicated, text.as_str()) {
                    let copy = text.clone();
                    (ConfirmStage::Refreshing(text), ConfirmAction::RefreshSearchText(copy))
                } else {
                    after_history_step(settings.auto_copy, text)
                }
            },
            (ConfirmStage::Refreshing(text), ConfirmEvent::Refreshed(_)) => {
                after_history_step(settings.auto_copy, text)
            },
            (ConfirmStage::Copying(text), ConfirmEvent::Copied(copied)) => match copied {
                Ok(()) => finish(SnipEnd::Done { text }),
                Err(error) => finish(SnipEnd::CopyFailed { text, error }),
            },
            (other, _) => (other, ConfirmAction::Ignored),
        };
        self.stage = next;
        action
    }
}

/// Exactly one end per snip: once finished, a flow waits for nothing, so no
/// later event produces a second completion event.
pub proof fn lemma_finished_flow_waits_for_nothing(event: ConfirmEvent)
    ensures
        !awaits(ConfirmStage::Finished, event),
{
}

/// History before clipboard: once a saved snip has its text, the next action
/// is the history entry (or the end, when its PNG cannot be encoded), never
/// the clipboard.
pub proof fn lemma_history_before_clipboard(
    settings: ConfirmSettings,
    frame: RgbaFrame,
    text: Seq<char>,
    stage: ConfirmStage,
    action: ConfirmAction,
)
    requires
        settings.save_to_history,
        with_text(settings, frame, text, stage, action),
    ensures
        !(action is WriteClipboard),
        action is SaveImage || action is Finish,
{
}

/// Every end but a selection too small to count is reported: a failed step
/// ends with the failure event carrying its message.
pub proof fn lemma_failures_are_reported(message: Seq<char>, stage: ConfirmStage, action: ConfirmAction)
    requires
        ends_failed(message, stage, action),
    ensures
        action matches ConfirmAction::Finish(e) && e is Some,
{
}

} // verus!
