use snipstack::text::{barcode_text, collect_lines, join_lines, joins_without_space, OcrLine, RecognizedRegion, SnipLineBreak};

fn line(text: &str) -> OcrLine {
    OcrLine {
        text: text.to_owned(),
    }
}

#[test]
fn keep_mode_preserves_line_breaks() {
    let lines = [line("第一行"), line("second line")];
    assert_eq!(
        join_lines(&lines, SnipLineBreak::Keep),
        "第一行\nsecond line"
    );
}

#[test]
fn merge_mode_joins_cjk_without_space() {
    let lines = [line("剪贴板历史管理,支持"), line("全文搜索与置顶。")];
    assert_eq!(
        join_lines(&lines, SnipLineBreak::Merge),
        "剪贴板历史管理,支持全文搜索与置顶。"
    );
}

#[test]
fn merge_mode_joins_latin_with_space() {
    let lines = [line("clipboard history with"), line("full-text search")];
    assert_eq!(
        join_lines(&lines, SnipLineBreak::Merge),
        "clipboard history with full-text search"
    );
}

#[test]
fn merge_mode_mixed_boundary_prefers_no_space() {
    let lines = [line("支持 Windows 11"), line("与中英混排 OCR")];
    assert_eq!(
        join_lines(&lines, SnipLineBreak::Merge),
        "支持 Windows 11与中英混排 OCR"
    );
}

#[test]
fn join_of_no_lines_is_empty() {
    assert_eq!(join_lines(&[], SnipLineBreak::Keep), "");
    assert_eq!(join_lines(&[], SnipLineBreak::Merge), "");
}

#[test]
fn merge_mode_latin_before_cjk_has_no_space() {
    let lines = [line("OCR"), line("识别"), line("done")];
    assert_eq!(join_lines(&lines, SnipLineBreak::Merge), "OCR识别done");
}

#[test]
fn merge_mode_empty_line_after_latin_adds_a_space() {
    let lines = [line("abc"), line(""), line("def")];
    assert_eq!(join_lines(&lines, SnipLineBreak::Merge), "abc  def");
    assert_eq!(join_lines(&lines, SnipLineBreak::Keep), "abc\n\ndef");
}

#[test]
fn merge_mode_leading_empty_lines_add_nothing() {
    let lines = [line(""), line(""), line("abc")];
    assert_eq!(join_lines(&lines, SnipLineBreak::Merge), "abc");
}

#[test]
fn joiner_ranges_cover_cjk_kana_fullwidth_and_extension_b() {
    assert!(joins_without_space(Some('中')));
    assert!(joins_without_space(Some('か')));
    assert!(joins_without_space(Some('，')));
    assert!(joins_without_space(Some('。')));
    assert!(joins_without_space(Some('\u{20000}')));
    assert!(!joins_without_space(Some('a')));
    assert!(!joins_without_space(Some(',')));
    assert!(!joins_without_space(Some('한')));
    assert!(!joins_without_space(None));
}

#[test]
fn collect_lines_trims_and_drops_empty_and_doubtful_regions() {
    let regions = vec![
        RecognizedRegion { text: Some("  hello \t".to_owned()), confident: true },
        RecognizedRegion { text: Some("   ".to_owned()), confident: true },
        RecognizedRegion { text: None, confident: true },
        RecognizedRegion { text: Some("noise".to_owned()), confident: false },
        RecognizedRegion { text: Some("\u{3000}世界\u{3000}".to_owned()), confident: true },
    ];
    let lines = collect_lines(&regions);
    let texts: Vec<&str> = lines.iter().map(|l| l.text.as_str()).collect();
    assert_eq!(texts, vec!["hello", "世界"]);
}

#[test]
fn barcode_payloads_are_trimmed_and_joined_per_line() {
    let payloads = vec![" https://a.example ".to_owned(), "  ".to_owned(), "12345\n".to_owned()];
    assert_eq!(barcode_text(&payloads), Some("https://a.example\n12345".to_owned()));
    assert_eq!(barcode_text(&vec![" ".to_owned(), String::new()]), None);
    assert_eq!(barcode_text(&vec![]), None);
}

#[test]
fn payloads_are_trimmed_of_unicode_whitespace() {
    let payloads = vec![
        " \u{3000}a b\t".to_owned(),
        "  \u{2003}".to_owned(),
        "\u{85}c\u{a0}".to_owned(),
        "x\u{200b}".to_owned(),
    ];
    assert_eq!(
        snipstack::text::barcode_text(&payloads),
        Some("a b\nc\nx\u{200b}".to_owned())
    );
    assert_eq!(snipstack::text::barcode_text(&vec![" \n ".to_owned()]), None);
}
