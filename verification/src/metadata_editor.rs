//! The tag editor: a table of fields, with editing in place, and a list of the
//! values of one field in every file.

use crate::button_map::{hit_if, ButtonRenderMap, Hit, TuiButton};
use crate::disc::SacdAreaId;
use crate::geometry::{inner, inside_border, plus16, share, share_rect, Rect};
use crate::inline_edit::TextInputState;
use crate::layout::{divides, split_text_and_line, text_and_line, Direction};
use crate::overlay_parts::{
    cut_chars, footer_pill, footer_pill_span, pill_gap, pill_gap_span, truncate_to_chars,
    MULTILINE_EDIT_THRESHOLD,
};
use crate::path::{file_name_or_empty, name_or_empty};
use crate::scene::{
    centered_op, frame_op, line1, line2, line_op, scroll_rows, scrolled, sp, text_op, Line, LineV, OpV,
    Rows, RowsV, Scene, SceneV, SpanV,
};
use crate::style::{bg, bold_fg, dimmed, fg, muted, on, plain, Style, Tone};
use crate::text::{
    align_left, blanks, cat2, cat3, cat5, chars_of, count, dec_len, decimal, least, left_aligned,
    low16, minus, most, owned, plus, same, spaces, string_of, take_chars, to_u16, zero_fill,
    zero_filled, Texts, first_chars,
};
use vstd::prelude::*;
use vstd::utf8::encode_utf8;

verus! {

/// What the editor is doing.
#[derive(Clone, Copy, Debug, PartialEq, Eq, Structural)]
pub enum MetadataEditorPhase {
    Editing,
    InlineEdit,
    AddingKey,
    Saving,
    DetailEdit,
}

/// What can be done with a value that MusicBrainz proposed.
#[derive(Clone, Copy, Debug, PartialEq, Eq, Structural)]
pub enum MbRevertPill {
    Absent,
    Revert,
    UseMb,
}

/// A field of the table.
#[derive(Debug)]
pub struct MetadataEntry {
    pub display_key: String,
    pub value: String,
    pub saved_value: String,
    pub per_file_values: Vec<String>,
    pub per_file_saved: Vec<String>,
    /// The files have different values.
    pub is_mixed: bool,
    pub is_binary: bool,
    /// The value is a long structured text that is shown by its summary.
    pub is_synthetic_preview: bool,
    pub summary: String,
    pub mb_pill: MbRevertPill,
    pub mb_field_pill: MbRevertPill,
    pub has_mb_proposed: bool,
    pub is_cue_importable: bool,
    pub is_fix_caps_applicable: bool,
}

/// The state of the tag editor.
#[derive(Debug)]
pub struct MetadataEditorState {
    pub paths: Vec<String>,
    pub sacd_area_kind: Option<SacdAreaId>,
    pub read_only: bool,
    pub dirty: bool,
    pub phase: MetadataEditorPhase,
    pub entries: Vec<MetadataEntry>,
    pub deleted: Vec<usize>,
    pub cursor: usize,
    pub scroll: usize,
    pub edit_input: Option<TextInputState>,
    pub add_key_input: Option<TextInputState>,
    pub has_mb_back: bool,
    pub has_gnudb_back: bool,
    pub detail_field_idx: usize,
    pub detail_cursor: usize,
    pub detail_scroll: usize,
    pub detail_edit: Option<TextInputState>,
    pub file_labels: Vec<String>,
}

/// The title of the editor. A Super Audio CD shows its area whatever the number of
/// tracks; else one file shows its name, and several show their number.
pub open spec fn title_text(state: MetadataEditorState) -> Seq<char> {
    let first = if state.paths@.len() > 0 {
        name_or_empty(state.paths@[0]@)
    } else {
        Seq::empty()
    };
    match state.sacd_area_kind {
        Some(area) => " SACD: "@ + first + " ["@ + (match area {
            SacdAreaId::Stereo => "stereo"@,
            SacdAreaId::MultiChannel => "MCH"@,
        } + if state.read_only { " · read-only"@ } else { ""@ }) + "] "@,
        None => if state.paths@.len() == 1 {
            " Metadata: "@ + first + " "@
        } else {
            " Metadata: "@ + decimal(state.paths@.len()) + " files "@
        },
    }
}

/// The title of the editor.
pub fn editor_title(state: &MetadataEditorState) -> (r: String)
    ensures
        r@ == title_text(*state),
{
    let first = if state.paths.len() > 0 {
        file_name_or_empty(state.paths[0].as_str())
    } else {
        String::new()
    };
    match state.sacd_area_kind {
        Some(area) => {
            let label = match area {
                SacdAreaId::Stereo => "stereo",
                SacdAreaId::MultiChannel => "MCH",
            };
            let locked = if state.read_only { " · read-only" } else { "" };
            cat5(" SACD: ", first.as_str(), " [", cat2(label, locked).as_str(), "] ")
        },
        None => if state.paths.len() == 1 {
            cat3(" Metadata: ", first.as_str(), " ")
        } else {
            cat3(" Metadata: ", dec_len(state.paths.len()).as_str(), " files ")
        },
    }
}

/// `text` with every line ending made a single line feed.
pub open spec fn sanitized(text: Seq<char>) -> Seq<char>
    decreases text.len(),
{
    if text.len() == 0 {
        Seq::empty()
    } else if text[0] == '\r' && text.len() > 1 && text[1] == '\n' {
        seq!['\n'] + sanitized(text.skip(2))
    } else if text[0] == '\r' {
        seq!['\n'] + sanitized(text.skip(1))
    } else {
        seq![text[0]] + sanitized(text.skip(1))
    }
}

fn sanitize(text: &Vec<char>) -> (r: Vec<char>)
    ensures
        r@ == sanitized(text@),
{
    let mut out: Vec<char> = Vec::new();
    let mut i: usize = 0;
    proof {
        assert(text@.skip(0) =~= text@);
        assert(out@ + sanitized(text@) =~= sanitized(text@));
    }
    while i < text.len()
        invariant
            i <= text@.len(),
            out@ + sanitized(text@.skip(i as int)) == sanitized(text@),
        decreases text@.len() - i,
    {
        let ghost rest = text@.skip(i as int);
        let ghost before = out@;
        proof {
            assert(rest.skip(1) =~= text@.skip(i + 1));
            assert(rest[0] == text@[i as int]);
        }
        if text[i] == '\r' && i + 1 < text.len() && text[i + 1] == '\n' {
            proof {
                assert(rest.skip(2) =~= text@.skip(i + 2));
                assert(rest[1] == text@[i + 1]);
            }
            out.push('\n');
            i += 2;
            proof {
                assert(out@ + sanitized(rest.skip(2)) =~= before + (seq!['\n'] + sanitized(
                    rest.skip(2),
                )));
            }
        } else {
            let c = if text[i] == '\r' { '\n' } else { text[i] };
            out.push(c);
            i += 1;
            proof {
                if rest.len() > 1 {
                    assert(rest[1] == text@[i as int]);
                }
                assert(out@ + sanitized(rest.skip(1)) =~= before + (seq![c] + sanitized(
                    rest.skip(1),
                )));
            }
        }
    }
    proof {
        assert(text@.skip(i as int).len() == 0);
        assert(out@ + Seq::<char>::empty() =~= out@);
    }
    out
}

/// What one more character adds to a text with single line feeds: nothing where it ends a
/// line ending that has been counted.
proof fn lemma_sanitized_push(text: Seq<char>, c: char)
    ensures
        sanitized(text.push(c)) == if text.len() > 0 && text.last() == '\r' && c == '\n' {
            sanitized(text)
        } else {
            sanitized(text).push(if c == '\r' { '\n' } else { c })
        },
    decreases text.len(),
{
    let longer = text.push(c);
    let shown = if c == '\r' { '\n' } else { c };
    if text.len() == 0 {
        assert(longer.skip(1) =~= Seq::empty());
        assert(sanitized(longer.skip(1)) =~= Seq::empty());
        assert(sanitized(text) =~= Seq::empty());
        assert(sanitized(longer) =~= seq![shown]);
    } else if text[0] == '\r' && text.len() > 1 && text[1] == '\n' {
        let rest = text.skip(2);
        lemma_sanitized_push(rest, c);
        assert(longer.skip(2) =~= rest.push(c));
        if rest.len() > 0 {
            assert(rest.last() == text.last());
        }
        assert(sanitized(longer) == seq!['\n'] + sanitized(rest.push(c)));
        assert(seq!['\n'] + sanitized(rest).push(shown) =~= (seq!['\n'] + sanitized(rest)).push(
            shown,
        ));
    } else if text.len() == 1 && text[0] == '\r' && c == '\n' {
        assert(longer.skip(2) =~= Seq::empty());
        assert(text.skip(1) =~= Seq::empty());
    } else {
        let rest = text.skip(1);
        let first = if text[0] == '\r' { '\n' } else { text[0] };
        lemma_sanitized_push(rest, c);
        assert(longer.skip(1) =~= rest.push(c));
        assert(longer[0] == text[0]);
        if text.len() > 1 {
            assert(longer[1] == text[1]);
            assert(rest.last() == text.last());
        } else {
            assert(longer[1] == c);
        }
        assert(sanitized(longer) == seq![first] + sanitized(rest.push(c)));
        assert(seq![first] + sanitized(rest).push(shown) =~= (seq![first] + sanitized(rest)).push(
            shown,
        ));
    }
}

/// Where the cursor stands in the text with single line feeds.
pub open spec fn sanitized_cursor(input: TextInputState) -> int {
    sanitized(input.text@.take(input.caret())).len() as int
}

proof fn lemma_sanitized_grows(text: Seq<char>, n: int)
    requires
        0 <= n <= text.len(),
    ensures
        sanitized(text.take(n)).len() <= sanitized(text).len(),
        sanitized(text.take(n)).len() <= n,
    decreases text.len() - n,
{
    lemma_sanitized_is_no_longer(text.take(n));
    if n < text.len() {
        lemma_sanitized_grows(text, n + 1);
        lemma_sanitized_push(text.take(n), text[n]);
        assert(text.take(n).push(text[n]) =~= text.take(n + 1));
    } else {
        assert(text.take(n) =~= text);
    }
}

proof fn lemma_sanitized_is_no_longer(text: Seq<char>)
    ensures
        sanitized(text).len() <= text.len(),
    decreases text.len(),
{
    if text.len() > 0 {
        if text[0] == '\r' && text.len() > 1 && text[1] == '\n' {
            lemma_sanitized_is_no_longer(text.skip(2));
        } else {
            lemma_sanitized_is_no_longer(text.skip(1));
        }
    }
}

/// The cursor stands in the text with single line feeds, or at its end.
pub proof fn cursor_is_in_the_sanitized_text(input: TextInputState)
    ensures
        0 <= sanitized_cursor(input) <= sanitized(input.text@).len(),
{
    lemma_sanitized_grows(input.text@, input.caret());
}

fn cursor_in_sanitized(input: &TextInputState, chars: &Vec<char>) -> (r: usize)
    requires
        chars@ == input.text@,
    ensures
        r == sanitized_cursor(*input),
        r <= sanitized(input.text@).len(),
{
    let caret: usize = if input.cursor <= chars.len() { input.cursor } else { chars.len() };
    let mut pos: usize = 0;
    proof {
        assert(chars@.take(0) =~= Seq::empty());
    }
    for i in 0..caret
        invariant
            caret <= chars@.len(),
            pos <= i,
            pos == sanitized(chars@.take(i as int)).len(),
    {
        proof {
            lemma_sanitized_push(chars@.take(i as int), chars@[i as int]);
            assert(chars@.take(i as int).push(chars@[i as int]) =~= chars@.take(i + 1));
        }
        if !(i > 0 && chars[i - 1] == '\r' && chars[i] == '\n') {
            pos += 1;
        }
    }
    proof {
        cursor_is_in_the_sanitized_text(*input);
    }
    pos
}

/// The first `n` characters in rows: a new row after each line feed, and where a row
/// has `width` characters already. The last row is the one being filled.
pub open spec fn wrapped_rows(text: Seq<char>, width: int, n: nat) -> Seq<Seq<char>>
    decreases n,
{
    if n == 0 || n > text.len() {
        seq![Seq::<char>::empty()]
    } else {
        let rows = wrapped_rows(text, width, (n - 1) as nat);
        if text[n - 1] == '\n' {
            rows.push(Seq::empty())
        } else if rows.last().len() >= width {
            rows.push(seq![text[n - 1]])
        } else {
            rows.drop_last().push(rows.last().push(text[n - 1]))
        }
    }
}

fn wrap_rows(text: &Vec<char>, width: usize) -> (r: Texts)
    ensures
        r@ == wrapped_rows(text@, width as int, text@.len()),
        r@.len() > 0,
{
    let mut done = Texts::new();
    let mut current = String::new();
    let mut filled: usize = 0;
    proof {
        assert(done@.push(current@) =~= seq![Seq::<char>::empty()]);
    }
    for i in 0..text.len()
        invariant
            done@.push(current@) == wrapped_rows(text@, width as int, i as nat),
            filled == current@.len(),
            filled <= i,
    {
        let ghost rows = done@.push(current@);
        let c = text[i];
        proof {
            assert(rows.last() == current@);
            assert(rows.drop_last() =~= done@);
        }
        if c == '\n' {
            done.push(current);
            current = String::new();
            filled = 0;
        } else if filled >= width {
            done.push(current);
            current = String::new();
            current.push(c);
            filled = 1;
            proof {
                assert(current@ =~= seq![c]);
            }
        } else {
            current.push(c);
            filled += 1;
        }
    }
    done.push(current);
    done
}

/// The row and column of position `pos`: that of the character there, or behind the last
/// character of its row at the end of a line.
pub open spec fn cursor_place(text: Seq<char>, width: int, pos: int) -> (int, int) {
    let rows = wrapped_rows(text, width, pos as nat);
    if rows.last().len() >= width && pos < text.len() && text[pos] != '\n' {
        (rows.len() as int, 0)
    } else {
        (rows.len() - 1, rows.last().len() as int)
    }
}

fn place_of(text: &Vec<char>, width: usize, pos: usize) -> (r: (usize, usize))
    requires
        pos <= text@.len(),
    ensures
        (r.0 as int, r.1 as int) == cursor_place(text@, width as int, pos as int),
{
    let mut row: usize = 0;
    let mut col: usize = 0;
    for i in 0..pos
        invariant
            pos <= text@.len(),
            row <= i,
            col <= i,
            row == wrapped_rows(text@, width as int, i as nat).len() - 1,
            col == wrapped_rows(text@, width as int, i as nat).last().len(),
    {
        if text[i] == '\n' {
            row += 1;
            col = 0;
        } else if col >= width {
            row += 1;
            col = 1;
        } else {
            col += 1;
        }
    }
    if col >= width && pos < text.len() && text[pos] != '\n' {
        (row + 1, 0)
    } else {
        (row, col)
    }
}

proof fn lemma_rows_only_grow(text: Seq<char>, width: int, n: nat, m: nat)
    requires
        n <= m <= text.len(),
    ensures
        0 < wrapped_rows(text, width, n).len() <= wrapped_rows(text, width, m).len(),
        forall|i: int|
            0 <= i < wrapped_rows(text, width, n).len() - 1 ==> wrapped_rows(text, width, n)[i]
                == #[trigger] wrapped_rows(text, width, m)[i],
        wrapped_rows(text, width, n).last().len() <= wrapped_rows(text, width, m)[wrapped_rows(
            text,
            width,
            n,
        ).len() - 1].len(),
    decreases m,
{
    if n < m {
        lemma_rows_only_grow(text, width, n, (m - 1) as nat);
    } else if m > 0 {
        lemma_rows_only_grow(text, width, (n - 1) as nat, (m - 1) as nat);
    }
}

/// Every position of a text has its place in the rows that are shown of it: in one of
/// them, on a character of it or behind the last.
pub proof fn every_position_is_in_a_row(text: Seq<char>, width: int, pos: int)
    requires
        0 <= pos <= text.len(),
    ensures
        ({
            let rows = wrapped_rows(text, width, text.len());
            let (row, col) = cursor_place(text, width, pos);
            &&& 0 <= row < rows.len()
            &&& 0 <= col <= rows[row].len()
        }),
{
    let rows = wrapped_rows(text, width, text.len());
    let before = wrapped_rows(text, width, pos as nat);
    lemma_rows_only_grow(text, width, pos as nat, text.len());
    if before.last().len() >= width && pos < text.len() && text[pos] != '\n' {
        lemma_rows_only_grow(text, width, (pos + 1) as nat, text.len());
    }
}

/// The text before the cursor, the character under it, and the text behind it.
pub open spec fn around_cursor(text: Seq<char>, at: int) -> (Seq<char>, Seq<char>, Seq<char>) {
    (
        text.take(least(at, text.len() as int)),
        if at < text.len() { seq![text[at]] } else { " "@ },
        if at + 1 < text.len() { text.skip(at + 1) } else { Seq::empty() },
    )
}

fn split_at_cursor(chars: &Vec<char>, at: usize) -> (r: (String, String, String))
    ensures
        (r.0@, r.1@, r.2@) == around_cursor(chars@, at as int),
{
    let n: usize = chars.len();
    let cut: usize = if at <= n { at } else { n };
    let before = string_of(chars, 0, cut);
    proof {
        assert(chars@.subrange(0, cut as int) =~= chars@.take(cut as int));
    }
    let under = if at < n {
        proof {
            assert(chars@.subrange(at as int, at + 1) =~= seq![chars@[at as int]]);
        }
        string_of(chars, at, at + 1)
    } else {
        owned(" ")
    };
    let after = if at < n && at + 1 < n {
        proof {
            assert(chars@.subrange(at + 1, n as int) =~= chars@.skip(at + 1));
        }
        string_of(chars, at + 1, n)
    } else {
        String::new()
    };
    (before, under, after)
}

/// `text` with the cursor drawn as an inverted character.
pub open spec fn cursor_spans(text: Seq<char>, at: int) -> LineV {
    let (before, under, after) = around_cursor(text, at);
    seq![
        sp(before, fg(Tone::TextBright)),
        sp(under, on(Tone::Bg, Tone::TextBright)),
        sp(after, fg(Tone::TextBright)),
    ]
}

/// `chars` with the cursor drawn as an inverted character.
pub fn cursor_line(chars: &Vec<char>, at: usize) -> (r: Line)
    ensures
        r@ == cursor_spans(chars@, at as int),
{
    let (before, under, after) = split_at_cursor(chars, at);
    let mut line = Line::new();
    line.put(before.as_str(), fg(Tone::TextBright));
    line.put(under.as_str(), on(Tone::Bg, Tone::TextBright));
    line.put(after.as_str(), fg(Tone::TextBright));
    line
}

/// The background of a text edited in several lines.
#[verifier::allow_in_spec]
pub fn drop_tone() -> Tone
    returns
        (Tone::Rgb(30, 30, 46)),
{
    Tone::Rgb(30, 30, 46)
}

/// One row of a text edited in several lines. The first row shown has the field's
/// name before it, the others have spaces; the cursor's row shows the cursor.
pub open spec fn drop_line(
    row: Seq<char>,
    first: bool,
    key: SpanV,
    cursor: Option<int>,
    max: int,
) -> LineV {
    let prefix = if first { key } else { sp(blanks(key.text.len()), bg(drop_tone())) };
    let body = on(Tone::TextBright, drop_tone());
    match cursor {
        Some(at) => {
            let (before, under, after) = around_cursor(row, at);
            let used = plus(plus(before.len() as int, 1), after.len() as int);
            seq![
                prefix,
                sp(before, body),
                sp(under, on(Tone::Bg, Tone::TextBright)),
                sp(after + blanks(minus(max, used) as nat), body),
            ]
        },
        None => seq![prefix, sp(row + blanks(minus(max, row.len() as int) as nat), body)],
    }
}

fn drop_row(
    row: &str,
    first: bool,
    key: &str,
    key_style: Style,
    cursor: Option<usize>,
    max: usize,
) -> (r: Line)
    ensures
        r@ == drop_line(
            row@,
            first,
            sp(key@, key_style),
            match cursor {
                Some(at) => Some(at as int),
                None => None,
            },
            max as int,
        ),
{
    let body = on(Tone::TextBright, drop_tone());
    let mut line = if first {
        line1(key, key_style)
    } else {
        line1(spaces(count(key)).as_str(), bg(drop_tone()))
    };
    match cursor {
        Some(at) => {
            let chars = chars_of(row);
            let (before, under, after) = split_at_cursor(&chars, at);
            let used: usize = count(before.as_str()).saturating_add(1).saturating_add(
                count(after.as_str()),
            );
            let pad = spaces(max.saturating_sub(used));
            line.put(before.as_str(), body);
            line.put(under.as_str(), on(Tone::Bg, Tone::TextBright));
            line.put(cat2(after.as_str(), pad.as_str()).as_str(), body);
        },
        None => {
            let pad = spaces(max.saturating_sub(count(row)));
            line.put(cat2(row, pad.as_str()).as_str(), body);
        },
    }
    line
}

/// How many rows of a text edited in several lines are shown.
pub open spec fn drop_height(rows: int) -> int {
    most(least(8, rows), 1)
}

/// The first row shown: the first while the cursor is within the rows shown, else as
/// far down as puts the cursor's row last.
pub open spec fn drop_scroll(cursor_row: int, rows: int) -> int {
    if cursor_row < drop_height(rows) {
        0
    } else {
        cursor_row - drop_height(rows) + 1
    }
}

/// Rows `from` to `to` of a text edited in several lines.
pub open spec fn drop_rows(
    rows: Seq<Seq<char>>,
    from: int,
    to: int,
    key: SpanV,
    cursor: (int, int),
    max: int,
) -> RowsV {
    Seq::new(
        minus(to, from) as nat,
        |i: int|
            drop_line(
                rows[from + i],
                i == 0,
                key,
                if from + i == cursor.0 { Some(cursor.1) } else { None },
                max,
            ),
    )
}

/// A text edited in several lines.
pub open spec fn multiline_rows(input: TextInputState, key: SpanV, max: int) -> RowsV {
    let text = sanitized(input.text@);
    let rows = wrapped_rows(text, max, text.len());
    let cursor = cursor_place(text, max, sanitized_cursor(input));
    let from = drop_scroll(cursor.0, rows.len() as int);
    let to = least(plus(from, drop_height(rows.len() as int)), rows.len() as int);
    drop_rows(rows, from, to, key, cursor, max)
}

fn multiline_lines(input: &TextInputState, key: &str, key_style: Style, max: usize) -> (r: Rows)
    ensures
        r@ == multiline_rows(*input, sp(key@, key_style), max as int),
{
    let chars = chars_of(input.text.as_str());
    let text = sanitize(&chars);
    let rows = wrap_rows(&text, max);
    let pos: usize = cursor_in_sanitized(input, &chars);
    let (cursor_row, cursor_col) = place_of(&text, max, pos);
    let total: usize = rows.len();
    let height: usize = if total < 1 {
        1
    } else if total < 8 {
        total
    } else {
        8
    };
    let from: usize = if cursor_row < height { 0 } else { cursor_row - height + 1 };
    let end: usize = from.saturating_add(height);
    let to: usize = if end <= total { end } else { total };
    let mut out = Rows::new();
    let mut row: usize = from;
    let ghost cursor = (cursor_row as int, cursor_col as int);
    proof {
        assert(out@ =~= drop_rows(
            rows@,
            from as int,
            from as int,
            sp(key@, key_style),
            cursor,
            max as int,
        ));
    }
    while row < to
        invariant
            from <= row,
            row <= to || row == from,
            to <= rows@.len(),
            rows@.len() == rows.items@.len(),
            cursor == (cursor_row as int, cursor_col as int),
            out@ == drop_rows(
                rows@,
                from as int,
                row as int,
                sp(key@, key_style),
                cursor,
                max as int,
            ),
        decreases to - row,
    {
        let at: Option<usize> = if row == cursor_row { Some(cursor_col) } else { None };
        let line = drop_row(rows.items[row].as_str(), row == from, key, key_style, at, max);
        out.push(line);
        proof {
            assert(rows@[row as int] == rows.items@[row as int]@);
            assert(out@ =~= drop_rows(
                rows@,
                from as int,
                row + 1,
                sp(key@, key_style),
                cursor,
                max as int,
            ));
        }
        row += 1;
    }
    proof {
        assert(out@ =~= drop_rows(
            rows@,
            from as int,
            to as int,
            sp(key@, key_style),
            cursor,
            max as int,
        ));
    }
    out
}

/// The columns of a field's name, less the space before it.
pub const KEY_CHARS: usize = 20;

/// A field's name in its column: cut where its encoding is longer than the column,
/// else filled up with spaces.
pub open spec fn key_text(key: Seq<char>) -> Seq<char> {
    if (encode_utf8(key).len() as usize) > KEY_CHARS {
        " "@ + first_chars(key, KEY_CHARS as nat)
    } else {
        " "@ + left_aligned(key, KEY_CHARS as nat)
    }
}

fn key_label(key: &str) -> (r: String)
    ensures
        r@ == key_text(key@),
{
    if key.len() > KEY_CHARS {
        cat2(" ", take_chars(key, KEY_CHARS).as_str())
    } else {
        cat2(" ", align_left(key, KEY_CHARS).as_str())
    }
}

/// `text` on one line: line feeds become a mark, carriage returns vanish.
pub open spec fn one_line(text: Seq<char>) -> Seq<char>
    decreases text.len(),
{
    if text.len() == 0 {
        Seq::empty()
    } else {
        let front = one_line(text.drop_last());
        if text.last() == '\n' {
            front.push('↵')
        } else if text.last() == '\r' {
            front
        } else {
            front.push(text.last())
        }
    }
}

fn on_one_line(text: &str) -> (r: String)
    ensures
        r@ == one_line(text@),
{
    let chars = chars_of(text);
    let mut out = String::new();
    proof {
        assert(chars@.take(0) =~= Seq::empty());
    }
    for i in 0..chars.len()
        invariant
            out@ == one_line(chars@.take(i as int)),
    {
        proof {
            assert(chars@.take(i + 1).drop_last() =~= chars@.take(i as int));
            assert(chars@.take(i + 1).last() == chars@[i as int]);
        }
        let c = chars[i];
        if c == '\n' {
            out.push('↵');
        } else if c != '\r' {
            out.push(c);
        }
    }
    proof {
        assert(chars@.take(chars@.len() as int) =~= chars@);
    }
    out
}

/// A line ending shown as a mark.
pub open spec fn marked(c: char) -> char {
    if c == '\n' || c == '\r' {
        '↵'
    } else {
        c
    }
}

/// `text` with every line ending shown as a mark.
pub open spec fn breaks_marked(text: Seq<char>) -> Seq<char> {
    Seq::new(text.len(), |i: int| marked(text[i]))
}

fn mark_breaks(text: &str) -> (r: Vec<char>)
    ensures
        r@ == breaks_marked(text@),
{
    let chars = chars_of(text);
    let mut out: Vec<char> = Vec::new();
    for i in 0..chars.len()
        invariant
            out@ =~= breaks_marked(chars@.take(i as int)),
    {
        let c = if chars[i] == '\n' || chars[i] == '\r' { '↵' } else { chars[i] };
        out.push(c);
    }
    proof {
        assert(chars@.take(chars@.len() as int) =~= chars@);
    }
    out
}

/// `text` has a line ending.
pub open spec fn has_break(text: Seq<char>) -> bool {
    exists|i: int| 0 <= i < text.len() && (#[trigger] text[i] == '\n' || text[i] == '\r')
}

fn contains_break(text: &str) -> (r: bool)
    ensures
        r == has_break(text@),
{
    let chars = chars_of(text);
    for i in 0..chars.len()
        invariant
            chars@ == text@,
            forall|j: int| 0 <= j < i ==> !(#[trigger] text@[j] == '\n' || text@[j] == '\r'),
    {
        if chars[i] == '\n' || chars[i] == '\r' {
            proof {
                assert(text@[i as int] == '\n' || text@[i as int] == '\r');
            }
            return true;
        }
    }
    false
}

/// `i` is one of `list`.
pub open spec fn marked_deleted(list: Seq<usize>, i: int) -> bool {
    exists|j: int| 0 <= j < list.len() && #[trigger] list[j] == i
}

fn is_deleted(list: &Vec<usize>, i: usize) -> (r: bool)
    ensures
        r == marked_deleted(list@, i as int),
{
    for j in 0..list.len()
        invariant
            forall|k: int| 0 <= k < j ==> #[trigger] list@[k] != i,
    {
        if list[j] == i {
            return true;
        }
    }
    false
}

/// The value of a field in some file differs from the saved one.
pub open spec fn entry_changed(entry: MetadataEntry) -> bool {
    entry.value@ != entry.saved_value@ || exists|i: int|
        0 <= i < least(entry.per_file_values@.len() as int, entry.per_file_saved@.len() as int) && (
        #[trigger] entry.per_file_values@[i])@ != entry.per_file_saved@[i]@
}

fn is_changed(entry: &MetadataEntry) -> (r: bool)
    ensures
        r == entry_changed(*entry),
{
    if !same(entry.value.as_str(), entry.saved_value.as_str()) {
        return true;
    }
    let a: usize = entry.per_file_values.len();
    let b: usize = entry.per_file_saved.len();
    let n: usize = if a <= b { a } else { b };
    for i in 0..n
        invariant
            n == least(
                entry.per_file_values@.len() as int,
                entry.per_file_saved@.len() as int,
            ),
            entry.value@ == entry.saved_value@,
            forall|j: int|
                0 <= j < i ==> (#[trigger] entry.per_file_values@[j])@
                    == entry.per_file_saved@[j]@,
    {
        if !same(entry.per_file_values[i].as_str(), entry.per_file_saved[i].as_str()) {
            proof {
                assert(entry.per_file_values@[i as int]@ != entry.per_file_saved@[i as int]@);
            }
            return true;
        }
    }
    false
}

/// The style of a field's name.
pub open spec fn key_style(deleted: bool, is_cursor: bool) -> Style {
    if deleted {
        Style { crossed_out: true, ..dimmed() }
    } else if is_cursor {
        bold_fg(Tone::Amber)
    } else {
        muted()
    }
}

fn style_of_key(deleted: bool, is_cursor: bool) -> (r: Style)
    ensures
        r == key_style(deleted, is_cursor),
{
    if deleted {
        Style { crossed_out: true, ..dimmed() }
    } else if is_cursor {
        bold_fg(Tone::Amber)
    } else {
        muted()
    }
}

/// The style of a field's value.
pub open spec fn value_style(entry: MetadataEntry, deleted: bool) -> Style {
    if deleted {
        Style { crossed_out: true, ..fg(Tone::Red) }
    } else if entry_changed(entry) {
        fg(Tone::Green)
    } else if entry.is_mixed {
        Style { italic: true, ..fg(Tone::Amber) }
    } else if entry.is_binary {
        dimmed()
    } else {
        fg(Tone::TextBright)
    }
}

fn style_of_value(entry: &MetadataEntry, deleted: bool) -> (r: Style)
    ensures
        r == value_style(*entry, deleted),
{
    if deleted {
        Style { crossed_out: true, ..fg(Tone::Red) }
    } else if is_changed(entry) {
        fg(Tone::Green)
    } else if entry.is_mixed {
        Style { italic: true, ..fg(Tone::Amber) }
    } else if entry.is_binary {
        dimmed()
    } else {
        fg(Tone::TextBright)
    }
}

/// The value of a field that is not being edited.
pub open spec fn value_text(entry: MetadataEntry, deleted: bool, being_edited: bool) -> Seq<char> {
    if being_edited {
        one_line(entry.value@)
    } else if deleted {
        "(deleted)"@
    } else if entry.is_synthetic_preview {
        entry.summary@
    } else if entry.is_binary {
        entry.value@
    } else {
        one_line(entry.value@)
    }
}

fn text_of_value(entry: &MetadataEntry, deleted: bool, being_edited: bool) -> (r: String)
    ensures
        r@ == value_text(*entry, deleted, being_edited),
{
    if being_edited {
        on_one_line(entry.value.as_str())
    } else if deleted {
        owned("(deleted)")
    } else if entry.is_synthetic_preview {
        owned(entry.summary.as_str())
    } else if entry.is_binary {
        owned(entry.value.as_str())
    } else {
        on_one_line(entry.value.as_str())
    }
}

/// What can be done with a proposed value in the table. Fields with different values
/// are changed in their own list only.
pub open spec fn row_pill(entry: MetadataEntry) -> MbRevertPill {
    if entry.is_mixed {
        MbRevertPill::Absent
    } else {
        entry.mb_pill
    }
}

/// The label of what can be done with a proposed value.
pub open spec fn pill_text(pill: MbRevertPill) -> Seq<char> {
    match pill {
        MbRevertPill::Absent => ""@,
        MbRevertPill::Revert => " [revert]"@,
        MbRevertPill::UseMb => " [use MB]"@,
    }
}

/// Its style.
pub open spec fn pill_style(pill: MbRevertPill) -> Style {
    match pill {
        MbRevertPill::Absent => plain(),
        MbRevertPill::Revert => bold_fg(Tone::Amber),
        MbRevertPill::UseMb => bold_fg(Tone::Cyan),
    }
}

/// The label that opens a long structured text.
pub open spec fn view_text(entry: MetadataEntry) -> Seq<char> {
    if entry.is_synthetic_preview {
        " [view]"@
    } else {
        ""@
    }
}

/// The columns of a field's value.
pub open spec fn value_max(entry: MetadataEntry, inner_w: int) -> int {
    minus(inner_w, plus(key_text(entry.display_key@).len() as int, 1))
}

/// The columns of the labels behind a value.
pub open spec fn pills_width(entry: MetadataEntry) -> int {
    plus(view_text(entry).len() as int, pill_text(row_pill(entry)).len() as int)
}

/// The columns of a value with labels behind it.
pub open spec fn value_room(entry: MetadataEntry, inner_w: int) -> int {
    minus(value_max(entry, inner_w), pills_width(entry))
}

/// The labels behind a value, right-aligned by spaces before them.
pub open spec fn pill_spans(entry: MetadataEntry, value: Seq<char>, room: int) -> LineV {
    let view = view_text(entry);
    let pill = pill_text(row_pill(entry));
    let gap = minus(room, value.len() as int);
    if pills_width(entry) > 0 {
        Seq::<SpanV>::empty() + span_if(gap > 0, sp(blanks(gap as nat), plain())) + span_if(
            view.len() > 0,
            sp(view, bold_fg(Tone::Blue)),
        ) + span_if(pill.len() > 0, sp(pill, pill_style(row_pill(entry))))
    } else {
        Seq::empty()
    }
}

/// `span` alone where `shown`, else nothing.
pub open spec fn span_if(shown: bool, span: SpanV) -> LineV {
    if shown {
        seq![span]
    } else {
        Seq::empty()
    }
}

/// Adds a span where `shown`.
pub fn append_span_if(line: &mut Line, shown: bool, text: &str, style: Style)
    ensures
        final(line)@ == old(line)@ + span_if(shown, sp(text@, style)),
{
    if shown {
        line.put(text, style);
    }
    proof {
        assert(line@ =~= old(line)@ + span_if(shown, sp(text@, style)));
    }
}

fn label_of_pill(pill: MbRevertPill) -> (r: &'static str)
    ensures
        r@ == pill_text(pill),
{
    match pill {
        MbRevertPill::Absent => "",
        MbRevertPill::Revert => " [revert]",
        MbRevertPill::UseMb => " [use MB]",
    }
}

fn style_of_pill(pill: MbRevertPill) -> (r: Style)
    ensures
        r == pill_style(pill),
{
    match pill {
        MbRevertPill::Absent => plain(),
        MbRevertPill::Revert => bold_fg(Tone::Amber),
        MbRevertPill::UseMb => bold_fg(Tone::Cyan),
    }
}

fn pill_of_row(entry: &MetadataEntry) -> (r: MbRevertPill)
    ensures
        r == row_pill(*entry),
{
    if entry.is_mixed {
        MbRevertPill::Absent
    } else {
        entry.mb_pill
    }
}

fn view_label(entry: &MetadataEntry) -> (r: &'static str)
    ensures
        r@ == view_text(*entry),
{
    if entry.is_synthetic_preview {
        " [view]"
    } else {
        ""
    }
}

fn room_of_pills(entry: &MetadataEntry) -> (r: usize)
    ensures
        r == pills_width(*entry),
{
    count(view_label(entry)).saturating_add(count(label_of_pill(pill_of_row(entry))))
}

fn pill_line(entry: &MetadataEntry, value: &str, room: usize) -> (r: Line)
    ensures
        r@ == pill_spans(*entry, value@, room as int),
{
    let mut line = Line::new();
    let view = view_label(entry);
    let pill = label_of_pill(pill_of_row(entry));
    if room_of_pills(entry) > 0 {
        let gap: usize = room.saturating_sub(count(value));
        append_span_if(&mut line, gap > 0, spaces(gap).as_str(), plain());
        append_span_if(&mut line, !view.is_empty(), view, bold_fg(Tone::Blue));
        append_span_if(&mut line, !pill.is_empty(), pill, style_of_pill(pill_of_row(entry)));
    }
    line
}

/// The row of a field that is not being edited.
pub open spec fn plain_row(
    entry: MetadataEntry,
    deleted: bool,
    is_cursor: bool,
    being_edited: bool,
    inner_w: int,
) -> LineV {
    let room = value_room(entry, inner_w);
    let value = cut_chars(value_text(entry, deleted, being_edited), room);
    seq![
        sp(key_text(entry.display_key@), key_style(deleted, is_cursor)),
        sp(value, value_style(entry, deleted)),
    ] + pill_spans(entry, value, room)
}

fn plain_line(
    entry: &MetadataEntry,
    deleted: bool,
    is_cursor: bool,
    being_edited: bool,
    inner_w: usize,
) -> (r: Line)
    ensures
        r@ == plain_row(*entry, deleted, is_cursor, being_edited, inner_w as int),
{
    let key = key_label(entry.display_key.as_str());
    let max: usize = inner_w.saturating_sub(count(key.as_str()).saturating_add(1));
    let room: usize = max.saturating_sub(room_of_pills(entry));
    let text = text_of_value(entry, deleted, being_edited);
    let value = truncate_to_chars(text.as_str(), room);
    let mut line = line2(
        key.as_str(),
        style_of_key(deleted, is_cursor),
        value.as_str(),
        style_of_value(entry, deleted),
    );
    line.append(pill_line(entry, value.as_str(), room));
    line
}

/// The row of a field that is being edited in one line.
pub open spec fn inline_row(input: TextInputState, key: SpanV, max: int) -> LineV {
    seq![key] + cursor_spans(breaks_marked(input.window(max)), input.cursor_column(max))
}

fn inline_line(input: &TextInputState, key: &str, style: Style, max: usize) -> (r: Line)
    ensures
        r@ == inline_row(*input, sp(key@, style), max as int),
{
    let (visible, cursor) = input.view(max);
    let chars = mark_breaks(visible.as_str());
    let mut line = line1(key, style);
    line.append(cursor_line(&chars, cursor as usize));
    line
}

/// A text is edited in several lines where it is long or has a line ending, and
/// there is a column for it.
pub open spec fn needs_lines(input: TextInputState, max: int) -> bool {
    (input.text@.len() > MULTILINE_EDIT_THRESHOLD || has_break(input.text@)) && max > 0
}

/// The rows of field `i` of the table.
pub open spec fn entry_rows(state: MetadataEditorState, i: int, inner_w: int) -> RowsV {
    let entry = state.entries@[i];
    let is_cursor = i == state.cursor;
    let deleted = marked_deleted(state.deleted@, i);
    let key = sp(key_text(entry.display_key@), key_style(deleted, is_cursor));
    let max = value_max(entry, inner_w);
    if is_cursor && state.phase is InlineEdit {
        match state.edit_input {
            Some(input) => if needs_lines(input, max) {
                multiline_rows(input, key, max)
            } else {
                seq![inline_row(input, key, max)]
            },
            None => seq![plain_row(entry, deleted, is_cursor, true, inner_w)],
        }
    } else {
        seq![plain_row(entry, deleted, is_cursor, false, inner_w)]
    }
}

/// The rows of the first `n` fields.
pub open spec fn table_rows(state: MetadataEditorState, inner_w: int, n: nat) -> RowsV
    decreases n,
{
    if n == 0 || n > state.entries@.len() {
        Seq::empty()
    } else {
        table_rows(state, inner_w, (n - 1) as nat) + entry_rows(state, n - 1, inner_w)
    }
}

fn entry_lines(state: &MetadataEditorState, i: usize, inner_w: usize) -> (r: Rows)
    requires
        i < state.entries@.len(),
    ensures
        r@ == entry_rows(*state, i as int, inner_w as int),
{
    let entry = &state.entries[i];
    let is_cursor = i == state.cursor;
    let deleted = is_deleted(&state.deleted, i);
    let editing = is_cursor && state.phase == MetadataEditorPhase::InlineEdit;
    if editing {
        match &state.edit_input {
            Some(input) => {
                let key = key_label(entry.display_key.as_str());
                let style = style_of_key(deleted, is_cursor);
                let max: usize = inner_w.saturating_sub(count(key.as_str()).saturating_add(1));
                let long = count(input.text.as_str()) > MULTILINE_EDIT_THRESHOLD;
                if (long || contains_break(input.text.as_str())) && max > 0 {
                    return multiline_lines(input, key.as_str(), style, max);
                }
                return Rows::of(inline_line(input, key.as_str(), style, max));
            },
            None => {},
        }
    }
    Rows::of(plain_line(entry, deleted, is_cursor, editing, inner_w))
}

fn table_lines(state: &MetadataEditorState, inner_w: usize) -> (r: Rows)
    ensures
        r@ == table_rows(*state, inner_w as int, state.entries@.len()),
{
    let mut rows = Rows::new();
    for i in 0..state.entries.len()
        invariant
            rows@ == table_rows(*state, inner_w as int, i as nat),
    {
        rows.append(entry_lines(state, i, inner_w));
    }
    rows
}

/// Field `i` is shown as a row of its own, with labels behind its value.
pub open spec fn has_pills(state: MetadataEditorState, i: int) -> bool {
    !(i == state.cursor && state.phase is InlineEdit && state.edit_input is Some) && pills_width(
        state.entries@[i],
    ) > 0
}

/// The labels of field `i` as buttons, where its row is in the window.
pub open spec fn entry_hits(
    state: MetadataEditorState,
    i: int,
    area: Rect,
    scroll: int,
) -> Seq<Hit> {
    let entry = state.entries@[i];
    let shown = has_pills(state, i) && scroll <= i < plus(scroll, area.height as int);
    let x = plus16(
        area.x as int,
        low16(
            plus(
                key_text(entry.display_key@).len() as int,
                value_room(entry, area.width as int),
            ),
        ),
    );
    let y = plus16(area.y as int, low16(i - scroll));
    let view_w = low16(view_text(entry).len() as int);
    let pill_w = low16(pill_text(row_pill(entry)).len() as int);
    hit_if(
        shown && view_text(entry).len() > 0,
        TuiButton::MetadataEntryView(i as usize),
        Rect { x: x as u16, y: y as u16, width: view_w as u16, height: 1 },
    ) + hit_if(
        shown && pill_text(row_pill(entry)).len() > 0,
        TuiButton::MetadataEntryRevert(i as usize),
        Rect { x: plus16(x, view_w) as u16, y: y as u16, width: pill_w as u16, height: 1 },
    )
}

/// The labels of the first `n` fields as buttons.
pub open spec fn table_hits(state: MetadataEditorState, area: Rect, scroll: int, n: nat) -> Seq<Hit>
    decreases n,
{
    if n == 0 || n > state.entries@.len() {
        Seq::empty()
    } else {
        table_hits(state, area, scroll, (n - 1) as nat) + entry_hits(state, n - 1, area, scroll)
    }
}

fn record_entry(state: &MetadataEditorState, i: usize, area: Rect, scroll: usize) -> (r:
    ButtonRenderMap)
    requires
        i < state.entries@.len(),
    ensures
        r@ == entry_hits(*state, i as int, area, scroll as int),
{
    let entry = &state.entries[i];
    let editing = i == state.cursor && state.phase == MetadataEditorPhase::InlineEdit
        && state.edit_input.is_some();
    let pills: usize = room_of_pills(entry);
    let in_window = scroll <= i && i < scroll.saturating_add(area.height as usize);
    let shown = !editing && pills > 0 && in_window;
    let mut hits = ButtonRenderMap::new();
    proof {
        assert(hits@ + Seq::<Hit>::empty() =~= hits@);
    }
    if shown {
        let key = key_label(entry.display_key.as_str());
        let key_chars: usize = count(key.as_str());
        let max: usize = (area.width as usize).saturating_sub(key_chars.saturating_add(1));
        let room: usize = max.saturating_sub(pills);
        let x: u16 = area.x.saturating_add(to_u16(key_chars.saturating_add(room)));
        let y: u16 = area.y.saturating_add(to_u16(i - scroll));
        let view: usize = count(view_label(entry));
        let pill: usize = count(label_of_pill(pill_of_row(entry)));
        if view > 0 {
            hits.record_button(
                TuiButton::MetadataEntryView(i),
                Rect { x, y, width: to_u16(view), height: 1 },
            );
        }
        if pill > 0 {
            hits.record_button(
                TuiButton::MetadataEntryRevert(i),
                Rect { x: x.saturating_add(to_u16(view)), y, width: to_u16(pill), height: 1 },
            );
        }
    }
    proof {
        assert(hits@ =~= entry_hits(*state, i as int, area, scroll as int));
    }
    hits
}

fn record_table(state: &MetadataEditorState, area: Rect, scroll: usize) -> (r: ButtonRenderMap)
    ensures
        r@ == table_hits(*state, area, scroll as int, state.entries@.len()),
{
    let mut hits = ButtonRenderMap::new();
    for i in 0..state.entries.len()
        invariant
            hits@ == table_hits(*state, area, scroll as int, i as nat),
    {
        hits.append(record_entry(state, i, area, scroll));
    }
    hits
}

/// The last row of the table, where a field can be added.
pub open spec fn add_rows(state: MetadataEditorState, inner_w: int) -> RowsV {
    if state.phase is AddingKey {
        match state.add_key_input {
            Some(input) => seq![
                seq![sp(" + "@, bold_fg(Tone::Green))] + cursor_spans(
                    input.window(minus(inner_w, 4)),
                    input.cursor_column(minus(inner_w, 4)),
                ),
            ],
            None => Seq::empty(),
        }
    } else {
        seq![
            seq![
                sp(
                    " + Add field..."@,
                    if state.cursor == state.entries@.len() {
                        bold_fg(Tone::Green)
                    } else {
                        dimmed()
                    },
                ),
            ],
        ]
    }
}

fn add_lines(state: &MetadataEditorState, inner_w: usize) -> (r: Rows)
    ensures
        r@ == add_rows(*state, inner_w as int),
{
    if state.phase == MetadataEditorPhase::AddingKey {
        match &state.add_key_input {
            Some(input) => {
                let (visible, cursor) = input.view(inner_w.saturating_sub(4));
                let chars = chars_of(visible.as_str());
                let mut line = line1(" + ", bold_fg(Tone::Green));
                line.append(cursor_line(&chars, cursor as usize));
                Rows::of(line)
            },
            None => Rows::new(),
        }
    } else {
        let style = if state.cursor == state.entries.len() {
            bold_fg(Tone::Green)
        } else {
            dimmed()
        };
        Rows::of(line1(" + Add field...", style))
    }
}

/// The keys that work while the table is shown.
pub open spec fn editing_footer(back: bool) -> LineV {
    (if back {
        seq![footer_pill_span("← back"@, Tone::Amber), pill_gap_span()]
    } else {
        Seq::empty()
    }) + seq![
        footer_pill_span(":tags-mb"@, Tone::Cyan),
        pill_gap_span(),
        footer_pill_span(":fix-caps"@, Tone::Blue),
        pill_gap_span(),
        footer_pill_span(":d delete"@, Tone::Red),
        pill_gap_span(),
        footer_pill_span(":u undo"@, Tone::Amber),
        pill_gap_span(),
        footer_pill_span(":a add"@, Tone::Cyan),
        pill_gap_span(),
        footer_pill_span(":w save"@, Tone::Green),
        pill_gap_span(),
        footer_pill_span("Esc close"@, Tone::Purple),
    ]
}

/// The keys that work while a text is edited.
pub open spec fn confirm_footer() -> LineV {
    seq![
        footer_pill_span("Enter confirm"@, Tone::Green),
        pill_gap_span(),
        footer_pill_span("Esc cancel"@, Tone::Purple),
    ]
}

/// The last line of the editor.
pub open spec fn editor_footer(state: MetadataEditorState) -> LineV {
    match state.phase {
        MetadataEditorPhase::Editing => editing_footer(state.has_mb_back || state.has_gnudb_back),
        MetadataEditorPhase::InlineEdit | MetadataEditorPhase::AddingKey => confirm_footer(),
        MetadataEditorPhase::Saving => seq![sp(" Saving... "@, fg(Tone::Amber))],
        MetadataEditorPhase::DetailEdit => Seq::empty(),
    }
}

fn confirm_line() -> (r: Line)
    ensures
        r@ == confirm_footer(),
{
    let mut line = Line::new();
    line.push(footer_pill("Enter confirm", Tone::Green));
    line.push(pill_gap());
    line.push(footer_pill("Esc cancel", Tone::Purple));
    line
}

fn editing_line(back: bool) -> (r: Line)
    ensures
        r@ == editing_footer(back),
{
    let mut head = Line::new();
    if back {
        head.push(footer_pill("← back", Tone::Amber));
        head.push(pill_gap());
    }
    let mut line = Line::new();
    line.push(footer_pill(":tags-mb", Tone::Cyan));
    line.push(pill_gap());
    line.push(footer_pill(":fix-caps", Tone::Blue));
    line.push(pill_gap());
    line.push(footer_pill(":d delete", Tone::Red));
    line.push(pill_gap());
    line.push(footer_pill(":u undo", Tone::Amber));
    line.push(pill_gap());
    line.push(footer_pill(":a add", Tone::Cyan));
    line.push(pill_gap());
    line.push(footer_pill(":w save", Tone::Green));
    line.push(pill_gap());
    line.push(footer_pill("Esc close", Tone::Purple));
    head.append(line);
    head
}

fn footer_line(state: &MetadataEditorState) -> (r: Line)
    ensures
        r@ == editor_footer(*state),
{
    match state.phase {
        MetadataEditorPhase::Editing => editing_line(state.has_mb_back || state.has_gnudb_back),
        MetadataEditorPhase::InlineEdit | MetadataEditorPhase::AddingKey => confirm_line(),
        MetadataEditorPhase::Saving => line1(" Saving... ", fg(Tone::Amber)),
        MetadataEditorPhase::DetailEdit => Line::new(),
    }
}

/// The table's first visible row.
pub open spec fn table_scroll(state: MetadataEditorState, height: int) -> int {
    least(state.scroll as int, minus(plus(state.entries@.len() as int, 1), height))
}

/// `rows` from `start` on, at most `count` of them.
pub open spec fn window_of(rows: RowsV, start: int, count: int) -> RowsV {
    if start >= rows.len() {
        Seq::empty()
    } else {
        rows.subrange(start, least(start + count, rows.len() as int))
    }
}

/// `rows` from `start` on, at most `count` of them.
pub fn take_rows(rows: &Rows, start: usize, count: usize) -> (r: Rows)
    ensures
        r@ == window_of(rows@, start as int, count as int),
{
    let total: usize = rows.len();
    let mut out = Rows::new();
    if start >= total {
        return out;
    }
    let end: usize = if total - start <= count { total } else { start + count };
    for i in start..end
        invariant
            start <= i <= end <= rows@.len(),
            rows@.len() == rows.lines@.len(),
            out@ == rows@.subrange(start as int, i as int),
    {
        out.push(rows.lines[i].copy());
        proof {
            assert(rows@.subrange(start as int, i + 1) =~= rows@.subrange(
                start as int,
                i as int,
            ).push(rows@[i as int]));
        }
    }
    out
}

/// The table and the key hints, in two areas.
pub open spec fn table_scene(state: MetadataEditorState, chunks: Seq<Rect>) -> SceneV {
    let w = chunks[0].width as int;
    let h = chunks[0].height as int;
    let rows = table_rows(state, w, state.entries@.len()) + add_rows(state, w);
    seq![
        text_op(chunks[0], window_of(rows, table_scroll(state, h), h), plain()),
        centered_op(chunks[1], editor_footer(state)),
    ]
}

/// Draws the table and the key hints, in two areas.
pub fn draw_metadata_table(
    f: &mut Scene,
    state: &MetadataEditorState,
    chunks: &Vec<Rect>,
    button_map: &mut ButtonRenderMap,
)
    requires
        chunks@.len() == 2,
    ensures
        final(f)@ == old(f)@ + table_scene(*state, chunks@),
        final(button_map)@ == old(button_map)@ + table_hits(
            *state,
            chunks@[0],
            table_scroll(*state, chunks@[0].height as int),
            state.entries@.len(),
        ),
{
    let w: usize = chunks[0].width as usize;
    let h: usize = chunks[0].height as usize;
    let last: usize = state.entries.len().saturating_add(1).saturating_sub(h);
    let scroll: usize = if state.scroll <= last { state.scroll } else { last };
    let mut rows = table_lines(state, w);
    rows.append(add_lines(state, w));
    let mut scene = Scene::new();
    scene.text(chunks[0], take_rows(&rows, scroll, h), plain());
    scene.centered(chunks[1], footer_line(state));
    proof {
        assert(scene@ =~= table_scene(*state, chunks@));
    }
    f.append(scene);
    button_map.append(record_table(state, chunks[0], scroll));
}

/// The rows of the list have numbers instead of file names: there is not one value
/// for each file.
pub open spec fn numbered(state: MetadataEditorState, entry: MetadataEntry) -> bool {
    entry.per_file_values@.len() != state.file_labels@.len()
}

/// The label of track `n`.
pub open spec fn track_label(n: nat) -> Seq<char> {
    "Track "@ + zero_filled(n, 2)
}

/// The label of row `i` of the list.
pub open spec fn row_label(state: MetadataEditorState, entry: MetadataEntry, i: int) -> Seq<char> {
    if numbered(state, entry) {
        track_label((i + 1) as nat)
    } else {
        state.file_labels@[i]@
    }
}

/// The longest of the first `n` labels.
pub open spec fn longest(labels: Seq<String>, n: nat) -> int
    decreases n,
{
    if n == 0 || n > labels.len() {
        0
    } else {
        most(longest(labels, (n - 1) as nat), labels[n - 1]@.len() as int)
    }
}

fn longest_label(labels: &Vec<String>) -> (r: usize)
    ensures
        r == longest(labels@, labels@.len()),
{
    let mut most_chars: usize = 0;
    for i in 0..labels.len()
        invariant
            most_chars == longest(labels@, i as nat),
    {
        let n: usize = count(labels[i].as_str());
        if n > most_chars {
            most_chars = n;
        }
    }
    most_chars
}

/// The columns of the labels: those of the longest and four more, at most a third of
/// the list, and at least ten.
pub open spec fn label_columns(state: MetadataEditorState, entry: MetadataEntry, inner_w: int) -> int {
    let widest = if numbered(state, entry) {
        track_label(entry.per_file_values@.len()).len() as int
    } else if state.file_labels@.len() == 0 {
        6
    } else {
        longest(state.file_labels@, state.file_labels@.len())
    };
    most(least(plus(widest, 4), inner_w / 3), 10)
}

fn track_name(n: usize) -> (r: String)
    ensures
        r@ == track_label(n as nat),
{
    cat2("Track ", zero_fill(n as u64, 2).as_str())
}

fn columns_of_labels(state: &MetadataEditorState, entry: &MetadataEntry, inner_w: usize) -> (r: usize)
    ensures
        r == label_columns(*state, *entry, inner_w as int),
{
    let values: usize = entry.per_file_values.len();
    let widest: usize = if values != state.file_labels.len() {
        count(track_name(values).as_str())
    } else if state.file_labels.len() == 0 {
        6
    } else {
        longest_label(&state.file_labels)
    };
    let wanted: usize = widest.saturating_add(4);
    let third: usize = inner_w / 3;
    let held: usize = if wanted <= third { wanted } else { third };
    if held >= 10 {
        held
    } else {
        10
    }
}

/// The label of row `i` in its column.
pub open spec fn label_text(
    state: MetadataEditorState,
    entry: MetadataEntry,
    i: int,
    inner_w: int,
) -> Seq<char> {
    "  "@ + left_aligned(
        row_label(state, entry, i),
        (label_columns(state, entry, inner_w) - 4) as nat,
    ) + "  "@
}

/// Row `i` of the list.
pub open spec fn detail_row(
    state: MetadataEditorState,
    entry: MetadataEntry,
    i: int,
    inner_w: int,
) -> LineV {
    let is_cursor = i == state.detail_cursor;
    let label = sp(
        label_text(state, entry, i, inner_w),
        if is_cursor { bold_fg(Tone::Amber) } else { muted() },
    );
    let max = minus(inner_w, plus(label.text.len() as int, 1));
    let changed = i < entry.per_file_saved@.len() && entry.per_file_saved@[i]@
        != entry.per_file_values@[i]@;
    if is_cursor && state.detail_edit is Some {
        inline_row(state.detail_edit.unwrap(), label, max)
    } else {
        seq![
            label,
            sp(
                cut_chars(one_line(entry.per_file_values@[i]@), max),
                fg(if changed { Tone::Green } else { Tone::TextBright }),
            ),
        ]
    }
}

fn detail_line(state: &MetadataEditorState, entry: &MetadataEntry, i: usize, inner_w: usize) -> (r: Line)
    requires
        i < entry.per_file_values@.len(),
    ensures
        r@ == detail_row(*state, *entry, i as int, inner_w as int),
{
    let is_cursor = i == state.detail_cursor;
    let name = if entry.per_file_values.len() != state.file_labels.len() {
        track_name(i + 1)
    } else {
        owned(state.file_labels[i].as_str())
    };
    let columns: usize = columns_of_labels(state, entry, inner_w);
    let label = cat3("  ", align_left(name.as_str(), columns - 4).as_str(), "  ");
    let style = if is_cursor { bold_fg(Tone::Amber) } else { muted() };
    let max: usize = inner_w.saturating_sub(count(label.as_str()).saturating_add(1));
    if is_cursor {
        match &state.detail_edit {
            Some(input) => {
                return inline_line(input, label.as_str(), style, max);
            },
            None => {},
        }
    }
    let changed = i < entry.per_file_saved.len() && !same(
        entry.per_file_saved[i].as_str(),
        entry.per_file_values[i].as_str(),
    );
    let value = truncate_to_chars(on_one_line(entry.per_file_values[i].as_str()).as_str(), max);
    let tone = if changed { Tone::Green } else { Tone::TextBright };
    line2(label.as_str(), style, value.as_str(), fg(tone))
}

/// The first `n` rows of the list.
pub open spec fn detail_rows(
    state: MetadataEditorState,
    entry: MetadataEntry,
    inner_w: int,
    n: nat,
) -> RowsV
    decreases n,
{
    if n == 0 || n > entry.per_file_values@.len() {
        seq![
            seq![sp("  "@ + entry.display_key@, bold_fg(Tone::Cyan))],
            Seq::<SpanV>::empty(),
        ]
    } else {
        detail_rows(state, entry, inner_w, (n - 1) as nat).push(
            detail_row(state, entry, n - 1, inner_w),
        )
    }
}

fn detail_lines(state: &MetadataEditorState, entry: &MetadataEntry, inner_w: usize) -> (r: Rows)
    ensures
        r@ == detail_rows(*state, *entry, inner_w as int, entry.per_file_values@.len()),
{
    let mut rows = Rows::new();
    rows.push(line1(cat2("  ", entry.display_key.as_str()).as_str(), bold_fg(Tone::Cyan)));
    rows.push(Line::new());
    for i in 0..entry.per_file_values.len()
        invariant
            rows@ == detail_rows(*state, *entry, inner_w as int, i as nat),
    {
        rows.push(detail_line(state, entry, i, inner_w));
    }
    rows
}

/// The key that imports the field from a cue sheet, where it can be imported.
pub open spec fn import_pills(entry: MetadataEntry) -> LineV {
    if entry.is_cue_importable {
        seq![
            footer_pill_span(":import-cue ("@ + entry.display_key@ + ")"@, Tone::Blue),
            pill_gap_span(),
        ]
    } else {
        Seq::empty()
    }
}

fn import_line(entry: &MetadataEntry) -> (r: Line)
    ensures
        r@ == import_pills(*entry),
{
    let mut line = Line::new();
    if entry.is_cue_importable {
        let label = cat3(":import-cue (", entry.display_key.as_str(), ")");
        line.push(footer_pill(label.as_str(), Tone::Blue));
        line.push(pill_gap());
    }
    line
}

/// The keys that work while the list is shown, up to the actions on proposed values.
pub open spec fn list_pills(entry: MetadataEntry) -> LineV {
    import_pills(entry) + (if entry.is_fix_caps_applicable {
        seq![footer_pill_span(":fix-caps"@, Tone::Blue), pill_gap_span()]
    } else {
        Seq::empty()
    }) + seq![
        footer_pill_span("Enter edit"@, Tone::Green),
        pill_gap_span(),
        footer_pill_span("Esc back"@, Tone::Purple),
    ] + span_if(entry.has_mb_proposed, sp("    "@, plain()))
}

/// The action on proposed values that depends on what is shown now.
pub open spec fn revert_pills(entry: MetadataEntry) -> LineV {
    match entry.mb_field_pill {
        MbRevertPill::Absent => Seq::empty(),
        MbRevertPill::Revert => seq![footer_pill_span("revert"@, Tone::Amber), pill_gap_span()],
        MbRevertPill::UseMb => seq![footer_pill_span("use MB"@, Tone::Cyan), pill_gap_span()],
    }
}

/// The last line of the list.
pub open spec fn list_footer(entry: MetadataEntry) -> LineV {
    if entry.has_mb_proposed {
        list_pills(entry) + revert_pills(entry) + seq![footer_pill_span("restore"@, Tone::Blue)]
    } else {
        list_pills(entry)
    }
}

fn list_line(entry: &MetadataEntry) -> (r: Line)
    ensures
        r@ == list_pills(*entry),
{
    let mut line = import_line(entry);
    let mut caps = Line::new();
    if entry.is_fix_caps_applicable {
        caps.push(footer_pill(":fix-caps", Tone::Blue));
        caps.push(pill_gap());
    }
    line.append(caps);
    let mut keys = Line::new();
    keys.push(footer_pill("Enter edit", Tone::Green));
    keys.push(pill_gap());
    keys.push(footer_pill("Esc back", Tone::Purple));
    line.append(keys);
    append_span_if(&mut line, entry.has_mb_proposed, "    ", plain());
    line
}

fn revert_line(entry: &MetadataEntry) -> (r: Line)
    ensures
        r@ == revert_pills(*entry),
{
    let mut line = Line::new();
    match entry.mb_field_pill {
        MbRevertPill::Absent => {},
        MbRevertPill::Revert => {
            line.push(footer_pill("revert", Tone::Amber));
            line.push(pill_gap());
        },
        MbRevertPill::UseMb => {
            line.push(footer_pill("use MB", Tone::Cyan));
            line.push(pill_gap());
        },
    }
    line
}

/// The characters of the first `n` spans.
pub open spec fn chars_before(line: LineV, n: nat) -> int
    decreases n,
{
    if n == 0 || n > line.len() {
        0
    } else {
        plus(chars_before(line, (n - 1) as nat), line[n - 1].text.len() as int)
    }
}

/// The characters of a line.
pub open spec fn line_chars(line: LineV) -> int {
    chars_before(line, line.len())
}

/// The number of characters of a line.
pub fn count_line(line: &Line) -> (r: usize)
    ensures
        r == line_chars(line@),
{
    let mut total: usize = 0;
    for i in 0..line.spans.len()
        invariant
            total == chars_before(line@, i as nat),
            i <= line@.len(),
    {
        total = total.saturating_add(count(line.spans[i].text.as_str()));
    }
    total
}

/// Where the last line of the list is painted: in the middle of `area`.
pub open spec fn list_footer_rect(entry: MetadataEntry, area: Rect) -> Rect {
    let total = low16(line_chars(list_footer(entry)));
    Rect {
        x: plus16(area.x as int, minus(area.width as int, total) / 2) as u16,
        y: area.y,
        width: total as u16,
        height: 1,
    }
}

/// The actions on proposed values as buttons.
pub open spec fn list_hits(entry: MetadataEntry, area: Rect) -> Seq<Hit> {
    let at = list_footer_rect(entry, area);
    let start = low16(line_chars(list_pills(entry)));
    let revert = revert_pills(entry);
    let revert_w = if revert.len() > 0 { low16(revert[0].text.len() as int) } else { 0 };
    let restore_at = if revert.len() > 0 { plus16(plus16(start, revert_w), 1) } else { start };
    hit_if(
        entry.has_mb_proposed && revert.len() > 0,
        TuiButton::MetadataDetailRevert,
        Rect { x: plus16(at.x as int, start) as u16, y: area.y, width: revert_w as u16, height: 1 },
    ) + hit_if(
        entry.has_mb_proposed,
        TuiButton::MetadataDetailRestore,
        Rect {
            x: plus16(at.x as int, restore_at) as u16,
            y: area.y,
            width: low16((" "@ + "restore"@ + " "@).len() as int) as u16,
            height: 1,
        },
    )
}

/// The values of one field in every file, and the key hints, in two areas.
pub open spec fn detail_scene(state: MetadataEditorState, entry: MetadataEntry, chunks: Seq<Rect>) -> SceneV {
    let rows = detail_rows(state, entry, chunks[0].width as int, entry.per_file_values@.len());
    let text = text_op(
        chunks[0],
        scrolled(rows, state.detail_scroll as int, chunks[0].height as int),
        plain(),
    );
    if state.detail_edit is Some {
        seq![text, centered_op(chunks[1], import_pills(entry) + confirm_footer())]
    } else {
        seq![text, line_op(list_footer_rect(entry, chunks[1]), list_footer(entry))]
    }
}

/// The field whose values are listed, where there is one.
pub open spec fn listed_entry(state: MetadataEditorState) -> Option<MetadataEntry> {
    if state.detail_field_idx < state.entries@.len() {
        Some(state.entries@[state.detail_field_idx as int])
    } else {
        None
    }
}

fn record_list(entry: &MetadataEntry, area: Rect) -> (r: ButtonRenderMap)
    ensures
        r@ == list_hits(*entry, area),
{
    let mut hits = ButtonRenderMap::new();
    if !entry.has_mb_proposed {
        proof {
            assert(hits@ =~= list_hits(*entry, area));
        }
        return hits;
    }
    let pills = list_line(entry);
    let start: u16 = to_u16(count_line(&pills));
    let revert = revert_line(entry);
    let mut whole = list_line(entry);
    whole.append(revert_line(entry));
    let mut restore = Line::new();
    restore.push(footer_pill("restore", Tone::Blue));
    whole.append(restore);
    let total: u16 = to_u16(count_line(&whole));
    let x: u16 = area.x.saturating_add(area.width.saturating_sub(total) / 2);
    let mut restore_at: u16 = start;
    proof {
        assert(revert@.len() == revert.spans@.len());
    }
    if revert.spans.len() > 0 {
        let w: u16 = to_u16(count(revert.spans[0].text.as_str()));
        hits.record_button(
            TuiButton::MetadataDetailRevert,
            Rect { x: x.saturating_add(start), y: area.y, width: w, height: 1 },
        );
        restore_at = start.saturating_add(w).saturating_add(1);
    }
    let restore_w: u16 = to_u16(count(cat3(" ", "restore", " ").as_str()));
    hits.record_button(
        TuiButton::MetadataDetailRestore,
        Rect { x: x.saturating_add(restore_at), y: area.y, width: restore_w, height: 1 },
    );
    proof {
        assert(hits@ =~= list_hits(*entry, area));
    }
    hits
}

fn draw_list_footer(entry: &MetadataEntry, area: Rect) -> (r: Scene)
    ensures
        r@ == seq![line_op(list_footer_rect(*entry, area), list_footer(*entry))],
{
    let mut line = list_line(entry);
    if entry.has_mb_proposed {
        line.append(revert_line(entry));
        let mut restore = Line::new();
        restore.push(footer_pill("restore", Tone::Blue));
        line.append(restore);
    }
    let total: u16 = to_u16(count_line(&line));
    let x: u16 = area.x.saturating_add(area.width.saturating_sub(total) / 2);
    let mut scene = Scene::new();
    scene.line(Rect { x, y: area.y, width: total, height: 1 }, line);
    scene
}

/// Draws the values of one field in every file, and the key hints, in two areas.
pub fn draw_metadata_detail(
    f: &mut Scene,
    state: &MetadataEditorState,
    chunks: &Vec<Rect>,
    button_map: &mut ButtonRenderMap,
)
    requires
        chunks@.len() == 2,
    ensures
        final(f)@ == match listed_entry(*state) {
            Some(entry) => old(f)@ + detail_scene(*state, entry, chunks@),
            None => old(f)@,
        },
        final(button_map)@ == match listed_entry(*state) {
            Some(entry) => if state.detail_edit is Some {
                old(button_map)@
            } else {
                old(button_map)@ + list_hits(entry, chunks@[1])
            },
            None => old(button_map)@,
        },
{
    if state.detail_field_idx >= state.entries.len() {
        return;
    }
    let entry = &state.entries[state.detail_field_idx];
    let rows = detail_lines(state, entry, chunks[0].width as usize);
    let mut scene = Scene::new();
    scene.text(
        chunks[0],
        scroll_rows(&rows, state.detail_scroll, chunks[0].height as usize),
        plain(),
    );
    if state.detail_edit.is_some() {
        let mut footer = import_line(entry);
        footer.append(confirm_line());
        scene.centered(chunks[1], footer);
        proof {
            assert(scene@ =~= detail_scene(*state, *entry, chunks@));
        }
        f.append(scene);
    } else {
        scene.append(draw_list_footer(entry, chunks[1]));
        proof {
            assert(scene@ =~= detail_scene(*state, *entry, chunks@));
        }
        f.append(scene);
        button_map.append(record_list(entry, chunks[1]));
    }
}

/// The box of the editor, which shows unsaved changes by its colour.
pub open spec fn editor_box(state: MetadataEditorState, popup: Rect) -> SceneV {
    let tone = if state.dirty { Tone::Amber } else { Tone::Cyan };
    seq![
        OpV::Clear(popup),
        frame_op(popup, title_text(state), bold_fg(tone), fg(tone), plain()),
    ]
}

/// The place of the editor on a screen.
pub open spec fn editor_popup(size: Rect) -> Rect {
    share(size.width as int, size.height as int, 85, 50, 85, 14)
}

/// The contents of the editor, in two areas.
pub open spec fn editor_body(state: MetadataEditorState, chunks: Seq<Rect>) -> SceneV {
    if state.phase is DetailEdit {
        match listed_entry(state) {
            Some(entry) => detail_scene(state, entry, chunks),
            None => Seq::empty(),
        }
    } else {
        table_scene(state, chunks)
    }
}

/// The buttons of the editor, in two areas.
pub open spec fn editor_hits(state: MetadataEditorState, chunks: Seq<Rect>) -> Seq<Hit> {
    if state.phase is DetailEdit {
        match listed_entry(state) {
            Some(entry) => if state.detail_edit is Some {
                Seq::empty()
            } else {
                list_hits(entry, chunks[1])
            },
            None => Seq::empty(),
        }
    } else {
        table_hits(
            state,
            chunks[0],
            table_scroll(state, chunks[0].height as int),
            state.entries@.len(),
        )
    }
}

/// Draws the contents of the editor, in two areas.
pub fn draw_metadata_body(state: &MetadataEditorState, chunks: &Vec<Rect>) -> (r: (
    Scene,
    ButtonRenderMap,
))
    requires
        chunks@.len() == 2,
    ensures
        r.0@ == editor_body(*state, chunks@),
        r.1@ == editor_hits(*state, chunks@),
{
    let mut scene = Scene::new();
    let mut hits = ButtonRenderMap::new();
    if state.phase == MetadataEditorPhase::DetailEdit {
        draw_metadata_detail(&mut scene, state, chunks, &mut hits);
    } else {
        draw_metadata_table(&mut scene, state, chunks, &mut hits);
    }
    proof {
        assert(scene@ =~= editor_body(*state, chunks@));
        assert(hits@ =~= editor_hits(*state, chunks@));
    }
    (scene, hits)
}

/// `scene` and `hits` show the editor.
pub open spec fn shows_editor(
    state: MetadataEditorState,
    size: Rect,
    scene: SceneV,
    hits: Seq<Hit>,
) -> bool {
    let popup = editor_popup(size);
    let content = inside_border(popup);
    if content.height < 3 {
        scene == editor_box(state, popup) && hits.len() == 0
    } else {
        exists|chunks: Seq<Rect>|
            #[trigger] divides(Direction::Vertical, text_and_line(), content, chunks) && scene
                == editor_box(state, popup) + editor_body(state, chunks) && hits == editor_hits(
                state,
                chunks,
            )
    }
}

/// The tag editor, in the middle of a screen of the given size.
pub fn draw_metadata_editor(size: Rect, state: &MetadataEditorState) -> (r: (Scene, ButtonRenderMap))
    ensures
        shows_editor(*state, size, r.0@, r.1@),
{
    let popup = share_rect(size.width, size.height, 85, 50, 85, 14);
    let title = editor_title(state);
    let tone = if state.dirty { Tone::Amber } else { Tone::Cyan };
    let mut scene = Scene::new();
    scene.clear(popup);
    scene.frame(popup, title.as_str(), bold_fg(tone), fg(tone), plain());
    let content = inner(popup);
    assert(scene@ == editor_box(*state, popup));
    if content.height < 3 {
        return (scene, ButtonRenderMap::new());
    }
    let chunks = split_text_and_line(content);
    let (body, hits) = draw_metadata_body(state, &chunks);
    scene.append(body);
    assert(scene@ == editor_box(*state, popup) + editor_body(*state, chunks@));
    (scene, hits)
}

/// The row of the cursor is among the rows shown of a text edited in several lines.
pub proof fn edited_row_is_in_view(input: TextInputState, max: int)
    ensures
        ({
            let text = sanitized(input.text@);
            let rows = wrapped_rows(text, max, text.len()).len() as int;
            let row = cursor_place(text, max, sanitized_cursor(input)).0;
            &&& 0 <= row < rows
            &&& 0 <= drop_scroll(row, rows) <= row < drop_scroll(row, rows) + drop_height(rows)
        }),
{
    cursor_is_in_the_sanitized_text(input);
    every_position_is_in_a_row(sanitized(input.text@), max, sanitized_cursor(input));
}

/// The characters of the first `n` rows, one after another.
pub open spec fn flat(rows: Seq<Seq<char>>, n: nat) -> Seq<char>
    decreases n,
{
    if n == 0 || n > rows.len() {
        Seq::empty()
    } else {
        flat(rows, (n - 1) as nat) + rows[n - 1]
    }
}

/// The first `n` characters of a text without its line feeds.
pub open spec fn without_feeds(text: Seq<char>, n: nat) -> Seq<char>
    decreases n,
{
    if n == 0 || n > text.len() {
        Seq::empty()
    } else if text[n - 1] == '\n' {
        without_feeds(text, (n - 1) as nat)
    } else {
        without_feeds(text, (n - 1) as nat).push(text[n - 1])
    }
}

proof fn lemma_flat_prefix(a: Seq<Seq<char>>, b: Seq<Seq<char>>, n: nat)
    requires
        n <= a.len(),
        n <= b.len(),
        forall|i: int| 0 <= i < n ==> a[i] == b[i],
    ensures
        flat(a, n) == flat(b, n),
    decreases n,
{
    if n > 0 {
        lemma_flat_prefix(a, b, (n - 1) as nat);
    }
}

proof fn lemma_wrapped(text: Seq<char>, width: int, n: nat)
    requires
        n <= text.len(),
        width >= 1,
    ensures
        ({
            let rows = wrapped_rows(text, width, n);
            &&& rows.len() > 0
            &&& flat(rows, rows.len()) == without_feeds(text, n)
            &&& forall|i: int| 0 <= i < rows.len() ==> (#[trigger] rows[i]).len() <= width
        }),
    decreases n,
{
    if n == 0 {
        let rows = wrapped_rows(text, width, 0);
        assert(flat(rows, 1) =~= Seq::<char>::empty()) by {
            assert(flat(rows, 0) =~= Seq::<char>::empty());
        }
    } else {
        lemma_wrapped(text, width, (n - 1) as nat);
        let before = wrapped_rows(text, width, (n - 1) as nat);
        let rows = wrapped_rows(text, width, n);
        let c = text[n - 1];
        if c == '\n' {
            lemma_flat_prefix(before, rows, before.len());
            assert(flat(rows, rows.len()) =~= flat(before, before.len()));
        } else if before.last().len() >= width {
            lemma_flat_prefix(before, rows, before.len());
            assert(flat(rows, rows.len()) =~= flat(before, before.len()).push(c));
        } else {
            let k = (before.len() - 1) as nat;
            lemma_flat_prefix(before, rows, k);
            assert(flat(rows, rows.len()) =~= flat(before, before.len()).push(c));
        }
    }
}

/// Wrapping loses no character but the line feeds, and no row is wider than `width`.
pub proof fn wrapping_keeps_every_character(text: Seq<char>, width: int)
    requires
        width >= 1,
    ensures
        ({
            let rows = wrapped_rows(text, width, text.len());
            &&& flat(rows, rows.len()) == without_feeds(text, text.len())
            &&& forall|i: int| 0 <= i < rows.len() ==> (#[trigger] rows[i]).len() <= width
        }),
{
    lemma_wrapped(text, width, text.len());
}

/// Every line ending of a text being edited is a single line feed.
pub proof fn sanitized_text_has_single_feeds(text: Seq<char>)
    ensures
        forall|i: int| 0 <= i < sanitized(text).len() ==> #[trigger] sanitized(text)[i] != '\r',
    decreases text.len(),
{
    if text.len() > 0 {
        if text[0] == '\r' && text.len() > 1 && text[1] == '\n' {
            let rest = sanitized(text.skip(2));
            sanitized_text_has_single_feeds(text.skip(2));
            assert forall|i: int| 0 <= i < sanitized(text).len() implies #[trigger] sanitized(
                text,
            )[i] != '\r' by {
                if i > 0 {
                    assert(sanitized(text)[i] == rest[i - 1]);
                }
            }
        } else {
            let rest = sanitized(text.skip(1));
            sanitized_text_has_single_feeds(text.skip(1));
            assert forall|i: int| 0 <= i < sanitized(text).len() implies #[trigger] sanitized(
                text,
            )[i] != '\r' by {
                if i > 0 {
                    assert(sanitized(text)[i] == rest[i - 1]);
                }
            }
        }
    }
}

} // verus!
