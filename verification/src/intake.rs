//! Content intake from the editor: the structured update pushed over the
//! preview connection, the legacy plain-text fallback, and the scroll
//! ratio. The ratio is kept as an exact clamped fraction; turning it into
//! a floating-point number is left to the caller at the wire boundary.

use vstd::prelude::*;

verus! {

/// The query parameters of the preview intake endpoint.
#[derive(Clone, Debug, PartialEq)]
pub struct PreviewParams {
    pub path: String,
}

/// The query parameters of the viewer feed endpoint.
#[derive(Clone, Debug, PartialEq)]
pub struct WatchParams {
    pub path: String,
}

/// Scroll synchronization is on unless the update says otherwise.
pub fn default_sync_scroll() -> (b: bool)
    ensures
        b,
{
    true
}

/// One structured update from the editor: the document content, the
/// editor's cursor line, the total line count, and whether the viewer
/// should synchronize its scroll position.
#[derive(Clone, Debug, PartialEq)]
pub struct IntakeUpdate {
    pub content: String,
    pub cursor_line: usize,
    pub total_lines: usize,
    pub sync_scroll: bool,
}

/// How many newline characters a text holds.
pub open spec fn count_newlines(s: Seq<char>) -> int
    decreases s.len(),
{
    if s.len() == 0 {
        0
    } else {
        count_newlines(s.drop_first()) + if s[0] == '\n' {
            1int
        } else {
            0int
        }
    }
}

/// How many lines a text spans: one more than its line breaks, so at
/// least 1 even for an empty text.
pub open spec fn spec_line_count(s: Seq<char>) -> int {
    count_newlines(s) + 1
}

/// Counts the lines of a text: one more than its newline characters.
pub fn count_total_lines(text: &str) -> (n: usize)
    requires
        text@.len() < usize::MAX,
    ensures
        n == spec_line_count(text@),
        n >= 1,
{
    let len = text.unicode_len();
    let mut count: usize = 0;
    let mut i: usize = 0;
    proof {
        assert(text@.take(0) =~= Seq::<char>::empty());
    }
    while i < len
        invariant
            i <= len,
            len == text@.len() < usize::MAX,
            count <= i,
            count == count_newlines(text@.take(i as int)),
        decreases len - i,
    {
        proof {
            lemma_count_newlines_step(text@, i as int);
        }
        if text.get_char(i) == '\n' {
            count = count + 1;
        }
        i = i + 1;
    }
    proof {
        assert(text@.take(len as int) =~= text@);
    }
    count + 1
}

/// Appending one character adds its newline count.
proof fn lemma_count_newlines_step(s: Seq<char>, i: int)
    requires
        0 <= i < s.len(),
    ensures
        count_newlines(s.take(i + 1)) == count_newlines(s.take(i)) + if s[i] == '\n' {
            1int
        } else {
            0int
        },
    decreases i,
{
    lemma_count_newlines_snoc(s.take(i + 1));
    assert(s.take(i + 1).drop_last() =~= s.take(i));
}

/// Counting newlines distributes over removing the last character.
proof fn lemma_count_newlines_snoc(s: Seq<char>)
    requires
        s.len() > 0,
    ensures
        count_newlines(s) == count_newlines(s.drop_last()) + if s.last() == '\n' {
            1int
        } else {
            0int
        },
    decreases s.len(),
{
    if s.len() == 1 {
        assert(s.drop_last() =~= Seq::<char>::empty());
        assert(s.drop_first() =~= Seq::<char>::empty());
    } else {
        lemma_count_newlines_snoc(s.drop_first());
        assert(s.drop_first().drop_last() =~= s.drop_last().drop_first());
        assert(s.drop_first().last() == s.last());
        assert(s.drop_last()[0] == s[0]);
    }
}

/// The legacy fallback: a frame that is not a structured update is taken
/// as plain markdown text, with the cursor on line 1, the total line
/// count read off the text itself, and scroll synchronization off.
pub fn intake_from_text(text: String) -> (u: IntakeUpdate)
    requires
        text@.len() < usize::MAX,
    ensures
        u.content == text,
        u.cursor_line == 1,
        u.total_lines == spec_line_count(text@),
        u.total_lines >= 1,
        !u.sync_scroll,
{
    let total_lines = count_total_lines(text.as_str());
    IntakeUpdate { content: text, cursor_line: 1, total_lines, sync_scroll: false }
}

/// Settles one inbound frame: a frame that parsed as a structured update
/// stands as it is; one that did not falls back to the legacy plain-text
/// reading of the raw payload.
pub fn intake_update(parsed: Option<IntakeUpdate>, raw: String) -> (u: IntakeUpdate)
    requires
        raw@.len() < usize::MAX,
    ensures
        match parsed {
            Option::Some(p) => u == p,
            Option::None => {
                &&& u.content == raw
                &&& u.cursor_line == 1
                &&& u.total_lines == spec_line_count(raw@)
                &&& !u.sync_scroll
            },
        },
{
    match parsed {
        Some(p) => p,
        None => intake_from_text(raw),
    }
}

/// A scroll position as an exact fraction, clamped to the unit interval.
#[derive(Clone, Copy, Debug, PartialEq, Eq, Structural)]
pub struct ScrollRatio {
    pub num: usize,
    pub den: usize,
}

/// A well-formed ratio lies in the unit interval: a positive denominator
/// and a numerator no larger than it.
pub open spec fn ratio_wf(r: ScrollRatio) -> bool {
    r.den >= 1 && r.num <= r.den
}

/// The scroll ratio for a cursor line within a total line count:
/// `cursor_line / total_lines` clamped to the unit interval, and zero
/// when there are no lines to scroll over.
pub fn scroll_ratio(cursor_line: usize, total_lines: usize) -> (r: ScrollRatio)
    ensures
        ratio_wf(r),
        total_lines == 0 ==> r.num == 0 && r.den == 1,
        total_lines > 0 ==> r.den == total_lines && r.num == if cursor_line <= total_lines {
            cursor_line
        } else {
            total_lines
        },
{
    if total_lines == 0 {
        ScrollRatio { num: 0, den: 1 }
    } else if cursor_line <= total_lines {
        ScrollRatio { num: cursor_line, den: total_lines }
    } else {
        ScrollRatio { num: total_lines, den: total_lines }
    }
}

/// One structured frame for the viewer: the rendered HTML, the clamped
/// scroll ratio, and whether to synchronize scrolling.
#[derive(Clone, Debug, PartialEq)]
pub struct PreviewOutput {
    pub html: String,
    pub ratio: ScrollRatio,
    pub sync_scroll: bool,
}

/// Builds the outbound preview frame for an update: the rendered HTML
/// carried verbatim, the clamped scroll ratio of the cursor, and the
/// update's synchronization flag.
pub fn preview_output(html: String, cursor_line: usize, total_lines: usize, sync_scroll: bool) -> (o:
    PreviewOutput)
    ensures
        o.html == html,
        o.sync_scroll == sync_scroll,
        ratio_wf(o.ratio),
        total_lines == 0 ==> o.ratio.num == 0 && o.ratio.den == 1,
        total_lines > 0 ==> o.ratio.den == total_lines && o.ratio.num == if cursor_line
            <= total_lines {
            cursor_line
        } else {
            total_lines
        },
{
    let ratio = scroll_ratio(cursor_line, total_lines);
    PreviewOutput { html, ratio, sync_scroll }
}

} // verus!
