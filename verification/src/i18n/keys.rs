use vstd::prelude::*;

verus! {

/// Entries of the clipboard item context menu.
#[derive(Debug, Clone, Copy)]
pub enum ClipboardMenuKey {
    Paste,
    PasteAsPlainText,
    PasteAsPath,
    Copy,
    SaveImage,
    OpenLink,
    SendEmail,
    RevealInFinder,
    RevealInExplorer,
    Favorite,
    Unfavorite,
    PinItem,
    UnpinItem,
    MoveToGroup,
    AddNote,
    EditNote,
    Delete,
}

/// Root causes reported by failed commands.
#[derive(Debug, Clone, Copy)]
pub enum CommandKey {
    DragSourceFilesMissing,
    DragImageMissing,
    DragTextEmpty,
    ExternalUrlUnsupported,
    OcrModelMissing,
    OcrEngineBuildFailed,
    OcrRecognizeFailed,
    OcrPackUnknown,
    OcrPackRequestFailed,
    OcrPackHttpError,
    OcrPackDownloadInterrupted,
    OcrPackDownloadFailed,
    OcrPackSizeMismatch,
    OcrPackHashMismatch,
}

/// Entries of the tray menu.
#[derive(Debug, Clone, Copy)]
pub enum TrayKey {
    Snip,
    Preference,
    StartListening,
    StopListening,
    OpenSourceAddress,
    CheckForUpdates,
    Version,
    Relaunch,
    Exit,
}

} // verus!
