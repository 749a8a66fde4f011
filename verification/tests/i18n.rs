use snipstack::i18n::keys::CommandKey;
use snipstack::i18n::{en_us, zh_cn};

#[test]
fn english_labels() {
    assert_eq!(en_us::label(CommandKey::OcrPackUnknown), "Unknown language pack");
    assert_eq!(
        en_us::label(CommandKey::ExternalUrlUnsupported),
        "Only links starting with http or https can be opened"
    );
    assert_eq!(
        en_us::label(CommandKey::OcrPackHashMismatch),
        "Downloaded file failed verification (corrupt or tampered) and was discarded"
    );
}

#[test]
fn chinese_labels() {
    assert_eq!(zh_cn::label(CommandKey::DragTextEmpty), "文本内容为空");
    assert_eq!(zh_cn::label(CommandKey::OcrPackDownloadFailed), "所有下载源均不可用");
}
