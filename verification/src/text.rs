//! Joining recognized text: trimming, dropping empty pieces and gluing lines
//! together the way Chinese/English mixed text reads.
use vstd::prelude::*;

verus! {

/// How recognized lines are joined into the final text.
#[derive(Debug, Clone, Copy, PartialEq, Eq, Structural)]
pub enum SnipLineBreak {
    /// Keep one line per recognized line.
    Keep,
    /// Join everything into one paragraph.
    Merge,
}

/// One recognized line of text, in reading order.
pub struct OcrLine {
    pub text: String,
}

/// A piece of text the recognizer found, before filtering: its text (if any)
/// and whether its confidence reached the acceptance threshold.
pub struct RecognizedRegion {
    pub text: Option<String>,
    pub confident: bool,
}

/// Unicode White_Space, the whitespace that trimming removes.
pub open spec fn is_white_space(c: char) -> bool {
    let u = c as u32;
    ||| 0x09 <= u <= 0x0D
    ||| u == 0x20
    ||| u == 0x85
    ||| u == 0xA0
    ||| u == 0x1680
    ||| 0x2000 <= u <= 0x200A
    ||| u == 0x2028
    ||| u == 0x2029
    ||| u == 0x202F
    ||| u == 0x205F
    ||| u == 0x3000
}

/// `s` without its leading whitespace.
pub open spec fn trim_start(s: Seq<char>) -> Seq<char>
    decreases s.len(),
{
    if s.len() > 0 && is_white_space(s[0]) {
        trim_start(s.drop_first())
    } else {
        s
    }
}

/// `s` without its trailing whitespace.
pub open spec fn trim_end(s: Seq<char>) -> Seq<char>
    decreases s.len(),
{
    if s.len() > 0 && is_white_space(s.last()) {
        trim_end(s.drop_last())
    } else {
        s
    }
}

/// `s` without leading and trailing whitespace.
pub open spec fn trimmed(s: Seq<char>) -> Seq<char> {
    trim_end(trim_start(s))
}

fn is_white_space_char(c: char) -> (ws: bool)
    ensures
        ws == is_white_space(c),
{
    let u = c as u32;
    (0x09 <= u && u <= 0x0D) || u == 0x20 || u == 0x85 || u == 0xA0 || u == 0x1680 || (0x2000 <= u
        && u <= 0x200A) || u == 0x2028 || u == 0x2029 || u == 0x202F || u == 0x205F || u == 0x3000
}

proof fn lemma_trim_start_skips(s: Seq<char>, n: int)
    requires
        0 <= n <= s.len(),
        forall|k: int| 0 <= k < n ==> is_white_space(#[trigger] s[k]),
    ensures
        trim_start(s) == trim_start(s.subrange(n, s.len() as int)),
    decreases n,
{
    if n == 0 {
        assert(s.subrange(0, s.len() as int) =~= s);
    } else {
        let rest = s.drop_first();
        assert forall|k: int| 0 <= k < n - 1 implies is_white_space(#[trigger] rest[k]) by {
            assert(rest[k] == s[k + 1]);
        }
        lemma_trim_start_skips(rest, n - 1);
        assert(rest.subrange(n - 1, rest.len() as int) =~= s.subrange(n, s.len() as int));
    }
}

proof fn lemma_trim_end_skips(s: Seq<char>, n: int)
    requires
        0 <= n <= s.len(),
        forall|k: int| n <= k < s.len() ==> is_white_space(#[trigger] s[k]),
    ensures
        trim_end(s) == trim_end(s.subrange(0, n)),
    decreases s.len() - n,
{
    if n == s.len() {
        assert(s.subrange(0, n) =~= s);
    } else {
        let rest = s.drop_last();
        assert forall|k: int| n <= k < rest.len() implies is_white_space(#[trigger] rest[k]) by {
            assert(rest[k] == s[k]);
        }
        lemma_trim_end_skips(rest, n);
        assert(rest.subrange(0, n) =~= s.subrange(0, n));
    }
}

/// Trims leading and trailing Unicode whitespace, as std's `str::trim` does.
pub(crate) fn trim(s: &str) -> (t: &str)
    ensures
        t@ == trimmed(s@),
{
    let n = s.unicode_len();
    let mut start: usize = 0;
    while start < n && is_white_space_char(s.get_char(start))
        invariant
            n == s@.len(),
            start <= n,
            forall|k: int| 0 <= k < start ==> is_white_space(#[trigger] s@[k]),
        decreases n - start,
    {
        start = start + 1;
    }
    let mut end: usize = n;
    while end > start && is_white_space_char(s.get_char(end - 1))
        invariant
            n == s@.len(),
            start <= end <= n,
            forall|k: int| end <= k < n ==> is_white_space(#[trigger] s@[k]),
        decreases end - start,
    {
        end = end - 1;
    }
    proof {
        let rest = s@.subrange(start as int, n as int);
        lemma_trim_start_skips(s@, start as int);
        if start < n {
            assert(!is_white_space(s@[start as int]));
            assert(rest[0] == s@[start as int]);
        }
        assert(trim_start(rest) == rest);
        let kept = end - start;
        assert forall|k: int| kept <= k < rest.len() implies is_white_space(#[trigger] rest[k]) by {
            assert(rest[k] == s@[start + k]);
        }
        lemma_trim_end_skips(rest, kept as int);
        let mid = rest.subrange(0, kept as int);
        if kept > 0 {
            assert(mid.last() == s@[end - 1]);
        }
        assert(trim_end(mid) == mid);
        assert(mid =~= s@.subrange(start as int, end as int));
    }
    s.substring_char(start, end)
}

/// The lines joined with a newline between each two.
pub open spec fn keep_join(lines: Seq<Seq<char>>) -> Seq<char>
    decreases lines.len(),
{
    if lines.len() == 0 {
        Seq::empty()
    } else if lines.len() == 1 {
        lines[0]
    } else {
        keep_join(lines.drop_last()) + seq!['\n'] + lines.last()
    }
}

/// Characters that join to a neighbour without a space: CJK radicals and
/// punctuation, kana, CJK ideographs (all extensions), compatibility ideographs
/// and full-width forms.
pub open spec fn is_cjk_joiner(c: char) -> bool {
    let u = c as u32;
    ||| 0x2E80 <= u <= 0x303F
    ||| 0x3040 <= u <= 0x30FF
    ||| 0x3400 <= u <= 0x4DBF
    ||| 0x4E00 <= u <= 0x9FFF
    ||| 0xF900 <= u <= 0xFAFF
    ||| 0xFF00 <= u <= 0xFFEF
    ||| 0x20000 <= u <= 0x2FA1F
}

/// Whether the character on one side of a seam lets the lines join without a space.
pub open spec fn spec_joins_without_space(ch: Option<char>) -> bool {
    match ch {
        Some(c) => is_cjk_joiner(c),
        None => false,
    }
}

/// The first character of `s`, if any.
pub open spec fn first_char(s: Seq<char>) -> Option<char> {
    if s.len() > 0 {
        Some(s[0])
    } else {
        None
    }
}

/// The lines merged into one paragraph: at each seam a space goes in unless
/// the character before or after the seam is a CJK joiner; text before the
/// first non-empty piece gets no space.
pub open spec fn merge_join(lines: Seq<Seq<char>>) -> Seq<char>
    decreases lines.len(),
{
    if lines.len() == 0 {
        Seq::empty()
    } else {
        let merged = merge_join(lines.drop_last());
        let next = lines.last();
        if merged.len() == 0 {
            next
        } else if !spec_joins_without_space(Some(merged.last())) && !spec_joins_without_space(
            first_char(next),
        ) {
            merged + seq![' '] + next
        } else {
            merged + next
        }
    }
}

/// The texts of the lines.
pub open spec fn line_texts(lines: Seq<OcrLine>) -> Seq<Seq<char>> {
    lines.map_values(|line: OcrLine| line.text@)
}

/// The joined text of `lines` under `mode`.
pub open spec fn spec_join_lines(lines: Seq<OcrLine>, mode: SnipLineBreak) -> Seq<char> {
    match mode {
        SnipLineBreak::Keep => keep_join(line_texts(lines)),
        SnipLineBreak::Merge => merge_join(line_texts(lines)),
    }
}

/// Whether the character on one side of a seam lets the lines join without a space.
pub fn joins_without_space(ch: Option<char>) -> (joins: bool)
    ensures
        joins == spec_joins_without_space(ch),
{
    match ch {
        None => false,
        Some(c) => {
            let u = c as u32;
            (0x2E80 <= u && u <= 0x303F) || (0x3040 <= u && u <= 0x30FF) || (0x3400 <= u && u
                <= 0x4DBF) || (0x4E00 <= u && u <= 0x9FFF) || (0xF900 <= u && u <= 0xFAFF) || (
            0xFF00 <= u && u <= 0xFFEF) || (0x20000 <= u && u <= 0x2FA1F)
        },
    }
}

fn first_char_of(s: &str) -> (c: Option<char>)
    ensures
        c == first_char(s@),
{
    if s.unicode_len() > 0 {
        Some(s.get_char(0))
    } else {
        None
    }
}

/// Joins recognized lines: `Keep` puts a newline between lines; `Merge` makes
/// one paragraph, with a space at a seam only between two non-CJK characters.
pub fn join_lines(lines: &[OcrLine], mode: SnipLineBreak) -> (text: String)
    ensures
        text@ == spec_join_lines(lines@, mode),
{
    let ghost texts = line_texts(lines@);
    let mut out = String::new();
    let n = lines.len();
    let mut i: usize = 0;
    proof {
        reveal_strlit("\n");
        reveal_strlit(" ");
    }
    while i < n
        invariant
            n == lines@.len(),
            i <= n,
            texts == line_texts(lines@),
            texts.len() == n,
            "\n"@ == seq!['\n'],
            " "@ == seq![' '],
            out@ == (match mode {
                SnipLineBreak::Keep => keep_join(texts.take(i as int)),
                SnipLineBreak::Merge => merge_join(texts.take(i as int)),
            }),
        decreases n - i,
    {
        let piece = lines[i].text.as_str();
        let ghost prefix = texts.take(i as int);
        assert(texts.take(i + 1).drop_last() == prefix);
        assert(texts.take(i + 1).last() == piece@);
        match mode {
            SnipLineBreak::Keep => {
                if i > 0 {
                    out.append("\n");
                }
                out.append(piece);
                assert(out@ =~= keep_join(texts.take(i + 1)));
            },
            SnipLineBreak::Merge => {
                let out_len = out.as_str().unicode_len();
                if out_len > 0 {
                    let last = Some(out.as_str().get_char(out_len - 1));
                    let next = first_char_of(piece);
                    if !joins_without_space(last) && !joins_without_space(next) {
                        out.append(" ");
                    }
                }
                out.append(piece);
                assert(out@ =~= merge_join(texts.take(i + 1)));
            },
        }
        i = i + 1;
    }
    assert(texts.take(n as int) == texts);
    out
}

/// The texts kept from the recognizer's regions: each confident region's text,
/// trimmed, unless nothing is left of it.
pub open spec fn kept_texts(regions: Seq<RecognizedRegion>) -> Seq<Seq<char>>
    decreases regions.len(),
{
    if regions.len() == 0 {
        Seq::empty()
    } else {
        let earlier = kept_texts(regions.drop_last());
        let region = regions.last();
        match region.text {
            Some(t) => if region.confident && trimmed(t@).len() > 0 {
                earlier.push(trimmed(t@))
            } else {
                earlier
            },
            None => earlier,
        }
    }
}

/// Turns the recognizer's regions into lines, in order: regions without text,
/// with only whitespace, or below the confidence threshold are dropped, and
/// each kept text is trimmed.
pub fn collect_lines(regions: &Vec<RecognizedRegion>) -> (lines: Vec<OcrLine>)
    ensures
        line_texts(lines@) == kept_texts(regions@),
{
    let mut lines: Vec<OcrLine> = Vec::new();
    let n = regions.len();
    let mut i: usize = 0;
    while i < n
        invariant
            n == regions@.len(),
            i <= n,
            line_texts(lines@) == kept_texts(regions@.take(i as int)),
        decreases n - i,
    {
        let ghost before = lines@;
        assert(regions@.take(i + 1).drop_last() == regions@.take(i as int));
        assert(regions@.take(i + 1).last() == regions@[i as int]);
        match &regions[i].text {
            Some(t) => {
                let text = trim(t.as_str());
                if regions[i].confident && text.unicode_len() > 0 {
                    lines.push(OcrLine { text: text.to_owned() });
                    assert(line_texts(lines@) =~= line_texts(before).push(text@));
                }
            },
            None => {},
        }
        assert(line_texts(lines@) =~= kept_texts(regions@.take(i + 1)));
        i = i + 1;
    }
    assert(regions@.take(n as int) =~= regions@);
    lines
}

/// The barcode payloads kept: each payload trimmed, empty ones dropped.
pub open spec fn kept_payloads(payloads: Seq<Seq<char>>) -> Seq<Seq<char>>
    decreases payloads.len(),
{
    if payloads.len() == 0 {
        Seq::empty()
    } else {
        let earlier = kept_payloads(payloads.drop_last());
        if trimmed(payloads.last()).len() > 0 {
            earlier.push(trimmed(payloads.last()))
        } else {
            earlier
        }
    }
}

/// The text a set of decoded barcodes yields: the trimmed, non-empty payloads
/// in order, one per line; nothing when no payload is left.
pub open spec fn spec_barcode_text(payloads: Seq<Seq<char>>) -> Option<Seq<char>> {
    if kept_payloads(payloads).len() == 0 {
        None
    } else {
        Some(keep_join(kept_payloads(payloads)))
    }
}

/// Joins decoded barcode payloads into one text, one payload per line, after
/// trimming them and dropping the empty ones; `None` when none is left.
pub fn barcode_text(payloads: &Vec<String>) -> (text: Option<String>)
    ensures
        text matches Some(t) ==> spec_barcode_text(payloads@.map_values(|p: String| p@)) == Some(t@),
        text is None ==> spec_barcode_text(payloads@.map_values(|p: String| p@)) is None,
{
    let ghost views = payloads@.map_values(|p: String| p@);
    let mut kept: Vec<OcrLine> = Vec::new();
    let n = payloads.len();
    let mut i: usize = 0;
    while i < n
        invariant
            n == payloads@.len(),
            i <= n,
            views == payloads@.map_values(|p: String| p@),
            line_texts(kept@) == kept_payloads(views.take(i as int)),
        decreases n - i,
    {
        let ghost before = kept@;
        assert(views.take(i + 1).drop_last() == views.take(i as int));
        assert(views.take(i + 1).last() == payloads@[i as int]@);
        let text = trim(payloads[i].as_str());
        if text.unicode_len() > 0 {
            kept.push(OcrLine { text: text.to_owned() });
            assert(line_texts(kept@) =~= line_texts(before).push(text@));
        }
        assert(line_texts(kept@) =~= kept_payloads(views.take(i + 1)));
        i = i + 1;
    }
    assert(views.take(n as int) =~= views);
    if kept.len() == 0 {
        None
    } else {
        Some(join_lines(kept.as_slice(), SnipLineBreak::Keep))
    }
}

/// The seam rule of `Merge`: appending a line to a non-empty paragraph puts a
/// space between them exactly when neither the paragraph's last character nor
/// the line's first character is a CJK joiner; `Keep` always puts a newline.
pub proof fn lemma_join_seam(lines: Seq<Seq<char>>, next: Seq<char>)
    requires
        merge_join(lines).len() > 0,
        lines.len() > 0,
    ensures
        merge_join(lines.push(next)) == if !is_cjk_joiner(merge_join(lines).last()) && !(next.len()
            > 0 && is_cjk_joiner(next[0])) {
            merge_join(lines) + seq![' '] + next
        } else {
            merge_join(lines) + next
        },
        keep_join(lines.push(next)) == keep_join(lines) + seq!['\n'] + next,
{
    assert(lines.push(next).drop_last() == lines);
}

/// Which characters join without a space, block by block: CJK radicals and
/// punctuation (U+2E80..U+303F), hiragana and katakana (U+3040..U+30FF), CJK
/// Extension A (U+3400..U+4DBF), the unified ideographs (U+4E00..U+9FFF),
/// compatibility ideographs (U+F900..U+FAFF), full-width forms
/// (U+FF00..U+FFEF) and Extension B onwards (U+20000..U+2FA1F). Below U+2E80
/// (Latin, Cyrillic, Greek, Arabic, ...) and Hangul syllables, a character
/// needs a space; the absence of a character never joins.
pub proof fn lemma_joiner_blocks(c: char)
    ensures
        0x2E80 <= c as u32 <= 0x303F ==> spec_joins_without_space(Some(c)),
        0x3040 <= c as u32 <= 0x309F ==> spec_joins_without_space(Some(c)),
        0x30A0 <= c as u32 <= 0x30FF ==> spec_joins_without_space(Some(c)),
        0x3400 <= c as u32 <= 0x4DBF ==> spec_joins_without_space(Some(c)),
        0x4E00 <= c as u32 <= 0x9FFF ==> spec_joins_without_space(Some(c)),
        0xF900 <= c as u32 <= 0xFAFF ==> spec_joins_without_space(Some(c)),
        0xFF00 <= c as u32 <= 0xFFEF ==> spec_joins_without_space(Some(c)),
        0x20000 <= c as u32 <= 0x2FA1F ==> spec_joins_without_space(Some(c)),
        (c as u32) < 0x2E80 ==> !spec_joins_without_space(Some(c)),
        0xAC00 <= c as u32 <= 0xD7A3 ==> !spec_joins_without_space(Some(c)),
        !spec_joins_without_space(None),
{
}

/// Merging two non-empty lines: they are glued directly when the last
/// character of the first or the first character of the second joins
/// without a space (so two kana or ideograph runs stay together), and are
/// separated by exactly one space otherwise.
pub proof fn lemma_merge_two_lines(first: Seq<char>, second: Seq<char>)
    requires
        first.len() > 0,
        second.len() > 0,
    ensures
        merge_join(seq![first, second]) == if spec_joins_without_space(Some(first.last()))
            || spec_joins_without_space(Some(second[0])) {
            first + second
        } else {
            first + seq![' '] + second
        },
        merge_join(seq![first, second]).len() == first.len() + second.len() + if spec_joins_without_space(
            Some(first.last()),
        ) || spec_joins_without_space(Some(second[0])) {
            0int
        } else {
            1int
        },
{
    let two = seq![first, second];
    assert(two.drop_last() =~= seq![first]);
    let one = seq![first];
    assert(one.drop_last() =~= Seq::<Seq<char>>::empty());
    assert(merge_join(one.drop_last()).len() == 0);
    assert(one.last() == first);
    assert(merge_join(one) == first);
}

} // verus!
