//! What a text field shows, and how text is cut, padded and scrolled.

use crate::display_width::{dropped, fitting, padded, shown_width, truncated_left, truncated_right};
use crate::inline_edit::{field_spans, inline_value, TextInputState};
use crate::overlay_parts::cut_chars;
use crate::scene::{scrolled, RowsV};
use crate::style::Style;
use crate::text::{blanks, plus};
use vstd::prelude::*;

verus! {

/// A field shows a piece of its text around the cursor: the character `k` columns behind the
/// cursor's column is the one `k` places behind the cursor, nothing that fits behind it is left
/// out, and a text whose cursor fits is shown from its start.
pub proof fn field_shows_the_text_around_the_cursor(input: TextInputState, width: int)
    requires
        0 < width <= u16::MAX,
    ensures
        ({
            let text = input.text@;
            let caret = if input.cursor <= text.len() { input.cursor as int } else {
                text.len() as int
            };
            let column = input.cursor_column(width);
            let shown = input.window(width);
            &&& 0 <= column < width
            &&& column <= caret
            &&& shown.len() <= width
            &&& column <= shown.len()
            &&& forall|k: int|
                0 <= k < shown.len() ==> #[trigger] shown[k] == text[caret - column + k]
            &&& (shown.len() == width || caret - column + shown.len() == text.len())
            &&& (caret < width ==> column == caret)
            &&& (caret >= width ==> column == width - 1)
        }),
{
}

/// The three stretches of a field make up what it shows, blanks to its end, and the middle one is
/// what is selected of it.
pub proof fn field_marks_what_is_selected(
    input: TextInputState,
    width: int,
    field: Style,
    selected: Style,
    p: int,
)
    requires
        0 < width,
        input.window_start(width) <= p < input.window_end(width),
    ensures
        ({
            let spans = field_spans(input, width, field, selected);
            let shown = input.window(width);
            let caret = if input.cursor <= input.text@.len() { input.cursor as int } else {
                input.text@.len() as int
            };
            let other = match input.selection_anchor {
                Some(at) => if at <= input.text@.len() { at as int } else {
                    input.text@.len() as int
                },
                None => caret,
            };
            let before = spans[0].text.len();
            let marked = spans[1].text.len();
            &&& spans.len() == 3
            &&& spans[0].text + spans[1].text + spans[2].text == shown + blanks(
                (width - shown.len()) as nat,
            )
            &&& spans[0].style == field
            &&& spans[1].style == selected
            &&& spans[2].style == field
            &&& (before <= p - input.window_start(width) < before + marked <==> (caret <= p < other
                || other <= p < caret))
        }),
{
    let spans = field_spans(input, width, field, selected);
    let shown = input.window(width);
    assert(spans[0].text + spans[1].text + spans[2].text =~= shown + blanks(
        (width - shown.len()) as nat,
    ));
}

/// A value that is not edited stands in its field as it is, where it fits; one that is edited is
/// what the editor shows of it.
pub proof fn field_shows_its_value(
    value: Seq<char>,
    editing: bool,
    input: TextInputState,
    focused: bool,
    width: int,
)
    ensures
        !editing && shown_width(value) <= width ==> inline_value(
            value,
            editing,
            input,
            focused,
            width,
        ).text == value,
        editing ==> input.window(width).is_prefix_of(
            inline_value(value, editing, input, focused, width).text,
        ),
        editing ==> forall|k: int|
            input.window(width).len() <= k < inline_value(
                value,
                editing,
                input,
                focused,
                width,
            ).text.len() ==> #[trigger] inline_value(value, editing, input, focused, width).text[k]
                == ' ',
{
    let shown = input.window(width);
    let r = inline_value(value, editing, input, focused, width).text;
    if editing {
        assert(shown =~= r.subrange(0, shown.len() as int));
    }
}

proof fn lemma_fitting(text: Seq<char>, reserve: int, max: int, n: int)
    requires
        0 <= n <= text.len(),
    ensures
        n <= fitting(text, reserve, max, n) <= text.len(),
        forall|k: int|
            n < k <= fitting(text, reserve, max, n) ==> plus(
                shown_width(#[trigger] text.take(k)) as int,
                reserve,
            ) <= max,
        fitting(text, reserve, max, n) < text.len() ==> plus(
            shown_width(text.take(fitting(text, reserve, max, n) + 1)) as int,
            reserve,
        ) > max,
    decreases text.len() - n,
{
    if n < text.len() && plus(shown_width(text.take(n + 1)) as int, reserve) <= max {
        lemma_fitting(text, reserve, max, n + 1);
    }
}

/// Text that is too wide keeps as much of its front as fits before the ellipsis, and no more: the
/// next character would be too much.
pub proof fn cutting_on_the_right_keeps_what_fits(text: Seq<char>, max: int) -> (n: int)
    requires
        shown_width(text) > max,
        max > shown_width("…"@),
    ensures
        0 <= n <= text.len(),
        truncated_right(text, max) == text.take(n) + "…"@,
        n < text.len() ==> plus(shown_width(text.take(n + 1)) as int, shown_width("…"@) as int)
            > max,
        n > 0 ==> plus(shown_width(text.take(n)) as int, shown_width("…"@) as int) <= max,
{
    lemma_fitting(text, shown_width("…"@) as int, max, 0);
    fitting(text, shown_width("…"@) as int, max, 0)
}

proof fn lemma_dropped(text: Seq<char>, max: int, n: int)
    requires
        0 <= n <= text.len(),
    ensures
        n <= dropped(text, max, n) <= text.len(),
        dropped(text, max, n) < text.len() ==> plus(
            shown_width(text.skip(dropped(text, max, n))) as int,
            shown_width("…"@) as int,
        ) <= max,
        dropped(text, max, n) > n ==> plus(
            shown_width(text.skip(dropped(text, max, n) - 1)) as int,
            shown_width("…"@) as int,
        ) > max,
    decreases text.len() - n,
{
    if n < text.len() && plus(shown_width(text.skip(n)) as int, shown_width("…"@) as int) > max {
        lemma_dropped(text, max, n + 1);
    }
}

/// Text cut on the left keeps its end, behind an ellipsis: as much as fits, one character more
/// would be too much.
pub proof fn cutting_on_the_left_keeps_the_end(text: Seq<char>, max: int) -> (n: int)
    requires
        shown_width(text) > max,
        max > 0,
    ensures
        0 <= n <= text.len(),
        truncated_left(text, max) == "…"@ + text.skip(n),
        n < text.len() ==> plus(shown_width(text.skip(n)) as int, shown_width("…"@) as int) <= max,
        n > 0 ==> plus(shown_width(text.skip(n - 1)) as int, shown_width("…"@) as int) > max,
{
    lemma_dropped(text, max, 0);
    dropped(text, max, 0)
}

/// Text that fits is padded with blanks to its column, before or behind it.
pub proof fn padding_fills_the_column(text: Seq<char>, max: int)
    requires
        shown_width(text) <= max,
    ensures
        padded(text, max, false) == text + blanks((max - shown_width(text)) as nat),
        padded(text, max, true) == blanks((max - shown_width(text)) as nat) + text,
{
}

/// A text of at most `max` characters is kept; a longer one keeps its front and ends in dots.
pub proof fn long_text_ends_in_dots(s: Seq<char>, max: int)
    requires
        max >= 3,
    ensures
        s.len() <= max ==> cut_chars(s, max) == s,
        s.len() > max ==> cut_chars(s, max).len() == max && "..."@.is_suffix_of(cut_chars(s, max))
            && cut_chars(s, max).take(max - 3) == s.take(max - 3),
{
    reveal_strlit("...");
    if s.len() > max {
        let r = cut_chars(s, max);
        assert("..."@ =~= r.subrange(r.len() - 3, r.len() as int));
        assert(r.take(max - 3) =~= s.take(max - 3));
    }
}

/// A scrolled window shows consecutive rows, from the row scrolled to on, or as late as still
/// fills the window.
pub proof fn window_shows_the_rows_scrolled_to(rows: RowsV, scroll: int, visible: int, k: int)
    requires
        0 <= scroll,
        0 <= visible,
        0 <= k < scrolled(rows, scroll, visible).len(),
    ensures
        scroll + visible <= rows.len() ==> scrolled(rows, scroll, visible)[k] == rows[scroll + k]
            && scrolled(rows, scroll, visible).len() == visible,
        scroll + visible > rows.len() && visible <= rows.len() ==> scrolled(
            rows,
            scroll,
            visible,
        )[k] == rows[rows.len() - visible + k] && scrolled(rows, scroll, visible).len() == visible,
        visible > rows.len() ==> scrolled(rows, scroll, visible)[k] == rows[k] && scrolled(
            rows,
            scroll,
            visible,
        ).len() == rows.len(),
{
}

} // verus!
