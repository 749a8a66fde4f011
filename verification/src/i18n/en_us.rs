use vstd::prelude::*;

use super::keys::CommandKey;

verus! {

/// The US English text for each command failure.
pub open spec fn spec_label(key: CommandKey) -> Seq<char> {
    match key {
        CommandKey::DragSourceFilesMissing => "The dragged source files no longer exist"@,
        CommandKey::DragImageMissing => "The image file no longer exists"@,
        CommandKey::DragTextEmpty => "Text content is empty"@,
        CommandKey::ExternalUrlUnsupported => "Only links starting with http or https can be opened"@,
        CommandKey::OcrModelMissing => "OCR model files are missing, please reinstall the app"@,
        CommandKey::OcrEngineBuildFailed => "Could not build the OCR engine"@,
        CommandKey::OcrRecognizeFailed => "Text recognition could not complete"@,
        CommandKey::OcrPackUnknown => "Unknown language pack"@,
        CommandKey::OcrPackRequestFailed => "Network request failed"@,
        CommandKey::OcrPackHttpError => "The download source returned an error"@,
        CommandKey::OcrPackDownloadInterrupted => "Download interrupted"@,
        CommandKey::OcrPackDownloadFailed => "No download source is reachable"@,
        CommandKey::OcrPackSizeMismatch => "Downloaded file is incomplete and was discarded"@,
        CommandKey::OcrPackHashMismatch =>
            "Downloaded file failed verification (corrupt or tampered) and was discarded"@,
    }
}

/// Returns the US English root-cause text of a failed command.
pub fn label(key: CommandKey) -> (text: &'static str)
    ensures
        text@ == spec_label(key),
{
    match key {
        CommandKey::DragSourceFilesMissing => "The dragged source files no longer exist",
        CommandKey::DragImageMissing => "The image file no longer exists",
        CommandKey::DragTextEmpty => "Text content is empty",
        CommandKey::ExternalUrlUnsupported => "Only links starting with http or https can be opened",
        CommandKey::OcrModelMissing => "OCR model files are missing, please reinstall the app",
        CommandKey::OcrEngineBuildFailed => "Could not build the OCR engine",
        CommandKey::OcrRecognizeFailed => "Text recognition could not complete",
        CommandKey::OcrPackUnknown => "Unknown language pack",
        CommandKey::OcrPackRequestFailed => "Network request failed",
        CommandKey::OcrPackHttpError => "The download source returned an error",
        CommandKey::OcrPackDownloadInterrupted => "Download interrupted",
        CommandKey::OcrPackDownloadFailed => "No download source is reachable",
        CommandKey::OcrPackSizeMismatch => "Downloaded file is incomplete and was discarded",
        CommandKey::OcrPackHashMismatch => {
            "Downloaded file failed verification (corrupt or tampered) and was discarded"
        },
    }
}

} // verus!
