//! Single-line text fields: which part of the text is shown, where the cursor
//! stands, and how the field is painted.

use crate::display_width::{truncate_right, truncated_right};
use crate::scene::{line3, sp, Line, LineV, Span, SpanV};
use crate::style::{bright, on, text_style, Style, Tone};
use crate::text::{
    blanks, cat2, chars_of, count, least, low16, minus, most, spaces, string_of, to_u16,
};
use vstd::prelude::*;

verus! {

/// A text being edited. Positions count characters.
#[derive(Debug)]
pub struct TextInputState {
    pub text: String,
    pub cursor: usize,
    pub selection_anchor: Option<usize>,
}

impl TextInputState {
    /// The cursor, held to the end of the text.
    pub open spec fn caret(self) -> int {
        least(self.cursor as int, self.text@.len() as int)
    }

    /// The other end of the selection, held to the end of the text.
    pub open spec fn anchor(self) -> int {
        match self.selection_anchor {
            Some(at) => least(at as int, self.text@.len() as int),
            None => self.caret(),
        }
    }

    /// The first character shown in a field of `width` columns: the start of the
    /// text while the cursor fits, else as far on as puts the cursor in the last
    /// column.
    pub open spec fn window_start(self, width: int) -> int {
        if self.caret() < width {
            0
        } else if width <= 0 {
            self.caret()
        } else {
            self.caret() - width + 1
        }
    }

    /// The end of the characters shown in a field of `width` columns.
    pub open spec fn window_end(self, width: int) -> int {
        least(self.window_start(width) + most(width, 0), self.text@.len() as int)
    }

    /// The characters shown in a field of `width` columns.
    pub open spec fn window(self, width: int) -> Seq<char> {
        self.text@.subrange(self.window_start(width), self.window_end(width))
    }

    /// The cursor's column in a field of `width` columns.
    pub open spec fn cursor_column(self, width: int) -> int {
        low16(self.caret() - self.window_start(width))
    }

    /// The characters shown in a field of `width` columns, and the cursor's column
    /// in it.
    pub fn view(&self, width: usize) -> (r: (String, u16))
        ensures
            r.0@ == self.window(width as int),
            r.1 == self.cursor_column(width as int),
    {
        let chars = chars_of(self.text.as_str());
        let n: usize = chars.len();
        let caret: usize = if self.cursor <= n { self.cursor } else { n };
        let start: usize = if caret < width {
            0
        } else if width == 0 {
            caret
        } else {
            caret - width + 1
        };
        let end: usize = if n - start <= width { n } else { start + width };
        (string_of(&chars, start, end), to_u16(caret - start))
    }
}

/// The cursor's column in a field of `width` columns.
pub fn inline_cursor_col(input: &TextInputState, width: usize) -> (r: u16)
    ensures
        r == input.cursor_column(width as int),
{
    input.view(width).1
}

/// `at`, moved into the range from `from` to `to`.
pub open spec fn held(at: int, from: int, to: int) -> int {
    if at < from {
        from
    } else if at > to {
        to
    } else {
        at
    }
}

/// The field's text in three spans: before the selection, the selection, and the
/// rest with spaces up to `width` characters.
pub open spec fn field_spans(input: TextInputState, width: int, field: Style, selected: Style) -> LineV {
    let start = input.window_start(width);
    let end = input.window_end(width);
    let from = held(least(input.anchor(), input.caret()), start, end);
    let to = held(most(input.anchor(), input.caret()), start, end);
    seq![
        sp(input.text@.subrange(start, from), field),
        sp(input.text@.subrange(from, to), selected),
        sp(input.text@.subrange(to, end) + blanks(minus(width, end - start) as nat), field),
    ]
}

/// The field's text in `field` style, with the selected part in `selected` style,
/// padded to `width` characters.
pub fn render_text_input_value_with_style(
    input: &TextInputState,
    width: usize,
    field: Style,
    selected: Style,
) -> (r: Line)
    ensures
        r@ == field_spans(*input, width as int, field, selected),
{
    let chars = chars_of(input.text.as_str());
    let n: usize = chars.len();
    let caret: usize = if input.cursor <= n { input.cursor } else { n };
    let anchor: usize = match input.selection_anchor {
        Some(at) => if at <= n { at } else { n },
        None => caret,
    };
    let start: usize = if caret < width {
        0
    } else if width == 0 {
        caret
    } else {
        caret - width + 1
    };
    let end: usize = if n - start <= width { n } else { start + width };
    let lo: usize = if anchor <= caret { anchor } else { caret };
    let hi: usize = if anchor >= caret { anchor } else { caret };
    let from: usize = if lo < start { start } else if lo > end { end } else { lo };
    let to: usize = if hi < start { start } else if hi > end { end } else { hi };
    let before = string_of(&chars, start, from);
    let chosen = string_of(&chars, from, to);
    let after = string_of(&chars, to, end);
    let gap = spaces(width.saturating_sub(end - start));
    let rest = cat2(after.as_str(), gap.as_str());
    line3(before.as_str(), field, chosen.as_str(), selected, rest.as_str(), field)
}

/// The style of a field being edited.
#[verifier::allow_in_spec]
pub fn editing_style() -> Style
    returns
        on(Tone::TextBright, Tone::InputFocusedBg),
{
    on(Tone::TextBright, Tone::InputFocusedBg)
}

/// The style of selected text.
#[verifier::allow_in_spec]
pub fn selection_style() -> Style
    returns
        on(Tone::Bg, Tone::TextBright),
{
    on(Tone::Bg, Tone::TextBright)
}

/// A field being edited, `width` columns wide.
pub open spec fn editing_spans(input: TextInputState, width: int) -> LineV {
    field_spans(input, width, editing_style(), selection_style())
}

/// A field being edited, `width` columns wide.
pub fn render_inline_value_with_embedded_cursor(input: &TextInputState, width: usize) -> (r: Line)
    ensures
        r@ == editing_spans(*input, width as int),
{
    render_text_input_value_with_style(input, width, editing_style(), selection_style())
}

/// The cursor is always inside a field that has a column.
pub proof fn cursor_stays_in_field(input: TextInputState, width: int)
    requires
        0 < width <= u16::MAX,
    ensures
        input.cursor_column(width) < width,
        input.window(width).len() <= width,
        input.cursor_column(width) <= input.window(width).len(),
        input.window_start(width) + input.cursor_column(width) == input.caret(),
{
}

/// A value in a field of `width` columns: the text being edited, padded to the field,
/// or the value cut to it.
pub open spec fn inline_value(
    value: Seq<char>,
    editing: bool,
    input: TextInputState,
    focused: bool,
    width: int,
) -> SpanV {
    if editing {
        let shown = input.window(width);
        sp(shown + blanks(minus(width, shown.len() as int) as nat), editing_style())
    } else {
        sp(truncated_right(value, width), value_style(focused))
    }
}

/// The style of a value that is not being edited.
#[verifier::allow_in_spec]
pub fn value_style(focused: bool) -> Style
    returns
        (if focused {
            bright()
        } else {
            text_style()
        }),
{
    if focused {
        bright()
    } else {
        text_style()
    }
}

/// A value in a field of `width` columns.
pub fn render_inline_value(
    value: &str,
    editing: bool,
    input: &TextInputState,
    focused: bool,
    width: usize,
) -> (r: Span)
    ensures
        r@ == inline_value(value@, editing, *input, focused, width as int),
{
    if editing {
        let (shown, _cursor) = input.view(width);
        let gap = spaces(width.saturating_sub(count(shown.as_str())));
        Span { text: cat2(shown.as_str(), gap.as_str()), style: editing_style() }
    } else {
        Span { text: truncate_right(value, width), style: value_style(focused) }
    }
}

} // verus!
