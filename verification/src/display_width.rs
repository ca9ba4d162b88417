//! Measuring, cutting and padding text by the columns it takes on a terminal.

use crate::scene::{Line, LineV};
use crate::text::{blanks, cat2, chars_of, minus, owned, plus, spaces, string_of};
use vstd::prelude::*;

verus! {

/// The number of terminal columns that `text` takes, as `ratatui` counts them.
pub uninterp spec fn shown_width(text: Seq<char>) -> usize;

/// `ratatui::text::Span::width`: the number of terminal columns of `text`. The
/// count depends on the characters alone.
#[verifier::external_body]
fn span_width(text: &str) -> (r: usize)
    ensures
        r == shown_width(text@),
{
    ratatui::text::Span::raw(text).width()
}

/// The number of terminal columns that `text` takes.
pub fn width(text: &str) -> (r: usize)
    ensures
        r == shown_width(text@),
{
    span_width(text)
}

/// The mark that replaces cut text.
pub open spec fn ellipsis() -> Seq<char> {
    "…"@
}

/// How many characters of `text` are taken, starting with `n` of them, one at a
/// time for as long as their width with `reserve` more columns stays within `max`.
pub open spec fn fitting(text: Seq<char>, reserve: int, max: int, n: int) -> int
    decreases text.len() - n,
{
    if 0 <= n < text.len() && plus(shown_width(text.take(n + 1)) as int, reserve) <= max {
        fitting(text, reserve, max, n + 1)
    } else {
        n
    }
}

/// The longest run from the front of `text`, grown one character at a time, that
/// takes at most `max` columns.
pub open spec fn fitted_prefix(text: Seq<char>, max: int) -> Seq<char> {
    text.take(fitting(text, 0, max, 0))
}

/// `text` where it takes at most `max` columns; else its fitting front part with
/// an ellipsis behind it (without one where `max` has no room for both).
pub open spec fn truncated_right(text: Seq<char>, max: int) -> Seq<char> {
    if shown_width(text) <= max {
        text
    } else if max <= 0 {
        Seq::empty()
    } else if max <= shown_width(ellipsis()) {
        fitted_prefix(text, max)
    } else {
        text.take(fitting(text, shown_width(ellipsis()) as int, max, 0)) + ellipsis()
    }
}

/// How many characters are left out at the front of `text`, starting with `n`,
/// before the rest with an ellipsis takes at most `max` columns.
pub open spec fn dropped(text: Seq<char>, max: int, n: int) -> int
    decreases text.len() - n,
{
    if 0 <= n < text.len() && plus(
        shown_width(text.skip(n)) as int,
        shown_width(ellipsis()) as int,
    ) > max {
        dropped(text, max, n + 1)
    } else {
        n
    }
}

/// `text` where it takes at most `max` columns; else its fitting end part behind
/// an ellipsis.
pub open spec fn truncated_left(text: Seq<char>, max: int) -> Seq<char> {
    if shown_width(text) <= max {
        text
    } else if max <= 0 {
        Seq::empty()
    } else {
        ellipsis() + text.skip(dropped(text, max, 0))
    }
}

/// `text` cut to `max` columns, then padded with spaces to `max` columns.
pub open spec fn padded(text: Seq<char>, max: int, right_align: bool) -> Seq<char> {
    let cut = truncated_right(text, max);
    let gap = blanks(minus(max, shown_width(cut) as int) as nat);
    if right_align {
        gap + cut
    } else {
        cut + gap
    }
}

/// Counting from `n` never goes below `n` nor past the text.
proof fn lemma_fitting_bounds(text: Seq<char>, reserve: int, max: int, n: int)
    requires
        0 <= n <= text.len(),
    ensures
        n <= fitting(text, reserve, max, n) <= text.len(),
    decreases text.len() - n,
{
    if n < text.len() && plus(shown_width(text.take(n + 1)) as int, reserve) <= max {
        lemma_fitting_bounds(text, reserve, max, n + 1);
    }
}

/// Dropping from `n` never goes below `n` nor past the text.
proof fn lemma_dropped_bounds(text: Seq<char>, max: int, n: int)
    requires
        0 <= n <= text.len(),
    ensures
        n <= dropped(text, max, n) <= text.len(),
    decreases text.len() - n,
{
    if n < text.len() && plus(shown_width(text.skip(n)) as int, shown_width(ellipsis()) as int)
        > max {
        lemma_dropped_bounds(text, max, n + 1);
    }
}

fn fitting_front(text: &str, reserve: usize, max: usize) -> (r: String)
    ensures
        r@ == text@.take(fitting(text@, reserve as int, max as int, 0)),
{
    let chars = chars_of(text);
    let mut out = String::new();
    let mut n: usize = 0;
    while n < chars.len()
        invariant
            chars@ == text@,
            n <= chars@.len(),
            out@ == text@.take(n as int),
            fitting(text@, reserve as int, max as int, n as int) == fitting(
                text@,
                reserve as int,
                max as int,
                0,
            ),
        ensures
            out@ == text@.take(fitting(text@, reserve as int, max as int, 0)),
        decreases chars@.len() - n,
    {
        let candidate = string_of(&chars, 0, n + 1);
        proof {
            assert(text@.subrange(0, n + 1) =~= text@.take(n + 1));
        }
        if width(candidate.as_str()).saturating_add(reserve) > max {
            break;
        }
        out = candidate;
        n += 1;
    }
    out
}

/// The longest front part of `text`, grown one character at a time, that takes at
/// most `max` columns.
pub fn fit_prefix(text: &str, max: usize) -> (r: String)
    ensures
        r@ == fitted_prefix(text@, max as int),
{
    fitting_front(text, 0, max)
}

/// `text` cut at the right, with an ellipsis, to at most `max` columns.
pub fn truncate_right(text: &str, max: usize) -> (r: String)
    ensures
        r@ == truncated_right(text@, max as int),
{
    if width(text) <= max {
        return owned(text);
    }
    if max == 0 {
        return String::new();
    }
    let mark_width: usize = width("…");
    if max <= mark_width {
        return fitting_front(text, 0, max);
    }
    let front = fitting_front(text, mark_width, max);
    cat2(front.as_str(), "…")
}

/// `text` cut at the left, with an ellipsis, to at most `max` columns.
pub fn truncate_left(text: &str, max: usize) -> (r: String)
    ensures
        r@ == truncated_left(text@, max as int),
{
    if width(text) <= max {
        return owned(text);
    }
    if max == 0 {
        return String::new();
    }
    let mark_width: usize = width("…");
    let chars = chars_of(text);
    let mut n: usize = 0;
    let mut tail = owned(text);
    proof {
        assert(text@.skip(0) =~= text@);
    }
    while n < chars.len() && width(tail.as_str()).saturating_add(mark_width) > max
        invariant
            chars@ == text@,
            n <= chars@.len(),
            tail@ == text@.skip(n as int),
            mark_width == shown_width(ellipsis()),
            dropped(text@, max as int, n as int) == dropped(text@, max as int, 0),
        decreases chars@.len() - n,
    {
        n += 1;
        tail = string_of(&chars, n, chars.len());
        proof {
            assert(text@.subrange(n as int, text@.len() as int) =~= text@.skip(n as int));
        }
    }
    cat2("…", tail.as_str())
}

/// `text` cut to `max` columns and padded with spaces to that width.
pub fn pad_or_truncate(text: &str, max: usize, right_align: bool) -> (r: String)
    ensures
        r@ == padded(text@, max as int, right_align),
{
    let cut = truncate_right(text, max);
    let gap = spaces(max.saturating_sub(width(cut.as_str())));
    if right_align {
        cat2(gap.as_str(), cut.as_str())
    } else {
        cat2(cut.as_str(), gap.as_str())
    }
}

/// The columns that the first `n` spans of a line take together.
pub open spec fn spans_width(line: LineV, n: nat) -> int
    decreases n,
{
    if n == 0 || n > line.len() {
        0
    } else {
        plus(spans_width(line, (n - 1) as nat), shown_width(line[n - 1].text) as int)
    }
}

/// The columns that a line takes.
pub open spec fn width_of_line(line: LineV) -> int {
    spans_width(line, line.len())
}

/// The columns that a line takes.
pub fn line_width(line: &Line) -> (r: usize)
    ensures
        r == width_of_line(line@),
{
    let mut total: usize = 0;
    for i in 0..line.spans.len()
        invariant
            total == spans_width(line@, i as nat),
            i <= line@.len(),
    {
        total = total.saturating_add(width(line.spans[i].text.as_str()));
    }
    total
}

/// Text that fits is never cut.
pub proof fn truncation_keeps_text_that_fits(text: Seq<char>, max: int)
    requires
        shown_width(text) <= max,
    ensures
        truncated_right(text, max) == text,
        truncated_left(text, max) == text,
{
}

/// A fitting front part takes at most the columns it was given, as long as the
/// empty text does.
pub proof fn fitted_prefix_fits(text: Seq<char>, max: int)
    requires
        shown_width(Seq::empty()) <= max,
        max < usize::MAX,
    ensures
        shown_width(fitted_prefix(text, max)) <= max,
        fitted_prefix(text, max).is_prefix_of(text),
{
    lemma_fitting_bounds(text, 0, max, 0);
    lemma_fitting_fits(text, 0, max, 0);
    assert(text.take(0) =~= Seq::empty());
    assert(fitted_prefix(text, max) =~= text.subrange(0, fitted_prefix(text, max).len() as int));
}

proof fn lemma_fitting_fits(text: Seq<char>, reserve: int, max: int, n: int)
    requires
        0 <= n <= text.len(),
        0 <= reserve,
        max < usize::MAX,
    ensures
        ({
            let k = fitting(text, reserve, max, n);
            k == n || shown_width(text.take(k)) + reserve <= max
        }),
    decreases text.len() - n,
{
    if n < text.len() && plus(shown_width(text.take(n + 1)) as int, reserve) <= max {
        lemma_fitting_fits(text, reserve, max, n + 1);
    }
}

/// The part of a cut text before the ellipsis leaves room for the ellipsis, or is
/// empty.
pub proof fn truncated_right_leaves_room(text: Seq<char>, max: int)
    requires
        shown_width(text) > max,
        shown_width(ellipsis()) < max < usize::MAX,
    ensures
        exists|k: int|
            0 <= k <= text.len() && truncated_right(text, max) == #[trigger] text.take(k)
                + ellipsis() && (k == 0 || shown_width(text.take(k)) + shown_width(ellipsis())
                <= max),
{
    let k = fitting(text, shown_width(ellipsis()) as int, max, 0);
    lemma_fitting_bounds(text, shown_width(ellipsis()) as int, max, 0);
    lemma_fitting_fits(text, shown_width(ellipsis()) as int, max, 0);
    assert(truncated_right(text, max) == text.take(k) + ellipsis());
}

} // verus!
