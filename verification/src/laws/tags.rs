//! The metadata editor: every row is that of its own field or file.

use crate::button_map::TuiButton;
use crate::geometry::Rect;
use crate::inline_edit::TextInputState;
use crate::metadata_editor::{
    chars_before, cursor_place, cursor_spans, detail_row, detail_rows, entry_hits, has_pills,
    line_chars, list_footer, list_footer_rect, list_hits, list_pills, multiline_rows, one_line,
    plain_row, revert_pills, sanitized, sanitized_cursor, table_hits, table_rows, table_scene,
    table_scroll, title_text, value_room, wrapped_rows, MetadataEditorState, MetadataEntry,
};
use crate::path::name_or_empty;
use crate::scene::{LineV, SpanV};
use crate::style::Tone;
use crate::text::{decimal, minus, plus, zero_filled};
use vstd::prelude::*;
use vstd::utf8::encode_utf8;

verus! {

/// Text without line breaks is shown as it is; otherwise no break is left, each line feed is
/// marked, and nothing else is added or lost.
pub proof fn value_is_shown_on_one_line(text: Seq<char>)
    ensures
        (forall|i: int| 0 <= i < text.len() ==> #[trigger] text[i] != '\n' && text[i] != '\r')
            ==> one_line(text) == text,
        forall|i: int|
            0 <= i < one_line(text).len() ==> #[trigger] one_line(text)[i] != '\n' && one_line(
                text,
            )[i] != '\r',
        one_line(text).len() == text.filter(|c: char| c != '\r').len(),
    decreases text.len(),
{
    reveal(Seq::filter);
    if text.len() > 0 {
        let front = text.drop_last();
        value_is_shown_on_one_line(front);
        if forall|i: int| 0 <= i < text.len() ==> #[trigger] text[i] != '\n' && text[i] != '\r' {
            assert forall|i: int| 0 <= i < front.len() implies #[trigger] front[i] != '\n'
                && front[i] != '\r' by {
                assert(text[i] != '\n' && text[i] != '\r');
            }
            assert(text[text.len() - 1] != '\n');
            assert(one_line(text) =~= text);
        }
    } else {
        assert(text =~= Seq::empty());
    }
}

/// Text without carriage returns is edited as it is.
pub proof fn text_without_returns_is_kept(text: Seq<char>)
    requires
        forall|i: int| 0 <= i < text.len() ==> #[trigger] text[i] != '\r',
    ensures
        sanitized(text) == text,
    decreases text.len(),
{
    if text.len() > 0 {
        assert(text[0] != '\r');
        let rest = text.skip(1);
        assert forall|i: int| 0 <= i < rest.len() implies #[trigger] rest[i] != '\r' by {
            assert(text[i + 1] != '\r');
        }
        text_without_returns_is_kept(rest);
        assert(sanitized(text) =~= text);
    } else {
        assert(text =~= Seq::empty());
    }
}

/// The character at the cursor alone is marked; a cursor behind the text is on a blank.
pub proof fn cursor_is_on_its_character(text: Seq<char>, at: int)
    requires
        0 <= at,
    ensures
        ({
            let spans = cursor_spans(text, at);
            &&& spans.len() == 3
            &&& (at < text.len() ==> spans[0].text + spans[1].text + spans[2].text == text
                && spans[0].text.len() == at && spans[1].text == seq![text[at]])
            &&& (at >= text.len() ==> spans[0].text == text && spans[1].text == " "@
                && spans[2].text.len() == 0)
            &&& spans[1].style.bg == Tone::TextBright
            &&& spans[0].style.bg != Tone::TextBright
            &&& spans[2].style.bg != Tone::TextBright
        }),
{
    let spans = cursor_spans(text, at);
    if at < text.len() {
        assert(spans[0].text + spans[1].text + spans[2].text =~= text);
    } else {
        assert(spans[0].text =~= text);
    }
}

/// The title names a single file, and counts several.
pub proof fn title_names_what_is_edited(state: MetadataEditorState)
    requires
        state.sacd_area_kind is None,
    ensures
        state.paths@.len() == 1 ==> title_text(state) == " Metadata: "@ + name_or_empty(
            state.paths@[0]@,
        ) + " "@,
        state.paths@.len() != 1 ==> title_text(state) == " Metadata: "@ + decimal(
            state.paths@.len(),
        ) + " files "@,
{
}

proof fn lemma_table(state: MetadataEditorState, inner_w: int, n: nat)
    requires
        n <= state.entries@.len(),
        !(state.phase is InlineEdit),
    ensures
        table_rows(state, inner_w, n).len() == n,
        forall|i: int|
            0 <= i < n ==> #[trigger] table_rows(state, inner_w, n)[i] == plain_row(
                state.entries@[i],
                crate::metadata_editor::marked_deleted(state.deleted@, i),
                i == state.cursor,
                false,
                inner_w,
            ),
    decreases n,
{
    if n > 0 {
        lemma_table(state, inner_w, (n - 1) as nat);
        let front = table_rows(state, inner_w, (n - 1) as nat);
        let all = table_rows(state, inner_w, n);
        assert forall|i: int| 0 <= i < n implies #[trigger] all[i] == plain_row(
            state.entries@[i],
            crate::metadata_editor::marked_deleted(state.deleted@, i),
            i == state.cursor,
            false,
            inner_w,
        ) by {
            if i < n - 1 {
                assert(all[i] == front[i]);
            }
        }
    }
}

/// Row `k` of the table is that of the field `k` behind the scroll position: its key, and its
/// value where that fits; a field marked for deletion says so, and one whose value differs from
/// what is saved stands out as changed.
pub proof fn every_field_is_on_its_row(state: MetadataEditorState, chunks: Seq<Rect>, k: int)
    requires
        chunks.len() == 2,
        !(state.phase is InlineEdit),
        0 <= k < chunks[0].height,
        table_scroll(state, chunks[0].height as int) + k < state.entries@.len(),
    ensures
        ({
            let h = chunks[0].height as int;
            let w = chunks[0].width as int;
            let i = table_scroll(state, h) + k;
            let entry = state.entries@[i];
            let painted = table_scene(state, chunks)[0];
            let line = painted->Text_rows[k];
            let key = entry.display_key@;
            let deleted = exists|j: int|
                0 <= j < state.deleted@.len() && #[trigger] state.deleted@[j] == i;
            let changed = entry.value@ != entry.saved_value@ || exists|j: int|
                0 <= j < entry.per_file_values@.len() && j < entry.per_file_saved@.len() && (
                #[trigger] entry.per_file_values@[j])@ != entry.per_file_saved@[j]@;
            &&& painted->Text_area == chunks[0]
            &&& (state.scroll + h <= state.entries@.len() ==> i == state.scroll + k)
            &&& (encode_utf8(key).len() <= 20 ==> (" "@ + key).is_prefix_of(line[0].text))
            &&& (deleted && 9 <= value_room(entry, w) ==> line[1].text == "(deleted)"@)
            &&& (!deleted && entry.is_synthetic_preview && entry.summary@.len() <= value_room(
                entry,
                w,
            ) ==> line[1].text == entry.summary@)
            &&& (!deleted && !entry.is_synthetic_preview && !entry.is_binary && one_line(
                entry.value@,
            ).len() <= value_room(entry, w) ==> line[1].text == one_line(entry.value@))
            &&& (line[1].style.crossed_out <==> deleted)
            &&& (line[1].style.fg == Tone::Green <==> !deleted && changed)
            &&& (!deleted ==> (line[0].style.bold <==> i == state.cursor))
        }),
{
    let h = chunks[0].height as int;
    let w = chunks[0].width as int;
    let i = table_scroll(state, h) + k;
    let entry = state.entries@[i];
    assert(state.entries@.len() == state.entries.len());
    reveal_strlit("(deleted)");
    lemma_table(state, w, state.entries@.len());
    let rows = table_rows(state, w, state.entries@.len()) + crate::metadata_editor::add_rows(
        state,
        w,
    );
    let line = table_scene(state, chunks)[0]->Text_rows[k];
    assert(line == rows[i]);
    let key = entry.display_key@;
    if encode_utf8(key).len() <= 20 {
        assert((" "@ + key) =~= line[0].text.subrange(0, (" "@ + key).len() as int));
    }
}

proof fn lemma_table_hits(
    state: MetadataEditorState,
    area: Rect,
    scroll: int,
    n: nat,
    i: int,
    h: int,
) -> (at: int)
    requires
        0 <= i < n <= state.entries@.len(),
        0 <= h < entry_hits(state, i, area, scroll).len(),
    ensures
        0 <= at < table_hits(state, area, scroll, n).len(),
        table_hits(state, area, scroll, n)[at] == entry_hits(state, i, area, scroll)[h],
    decreases n,
{
    let front = table_hits(state, area, scroll, (n - 1) as nat);
    if i == n - 1 {
        front.len() + h
    } else {
        let at = lemma_table_hits(state, area, scroll, (n - 1) as nat, i, h);
        assert(table_hits(state, area, scroll, n)[at] == front[at]);
        at
    }
}

/// A field in view that can be viewed, or taken back, is clicked for it on its own row.
pub proof fn field_is_clicked_on_its_row(
    state: MetadataEditorState,
    area: Rect,
    scroll: int,
    i: int,
) -> (at: int)
    requires
        area.wf(),
        0 <= scroll <= i < state.entries@.len(),
        i < scroll + area.height <= usize::MAX,
        !(state.phase is InlineEdit),
        state.entries@[i].is_synthetic_preview || (!state.entries@[i].is_mixed && !(
        state.entries@[i].mb_pill is Absent)),
    ensures
        ({
            let hits = table_hits(state, area, scroll, state.entries@.len());
            &&& 0 <= at < hits.len()
            &&& hits[at].1.y == area.y + (i - scroll)
            &&& hits[at].0 == if state.entries@[i].is_synthetic_preview {
                TuiButton::MetadataEntryView(i as usize)
            } else {
                TuiButton::MetadataEntryRevert(i as usize)
            }
        }),
{
    reveal_strlit(" [view]");
    reveal_strlit(" [revert]");
    reveal_strlit(" [use MB]");
    reveal_strlit("");
    let entry = state.entries@[i];
    assert(has_pills(state, i));
    lemma_table_hits(state, area, scroll, state.entries@.len(), i, 0)
}

/// The values of a field have two rows above them and one row each, in order.
pub proof fn detail_has_a_row_for_each_file(state: MetadataEditorState, entry: MetadataEntry, inner_w: int, n: nat)
    requires
        n <= entry.per_file_values@.len(),
    ensures
        detail_rows(state, entry, inner_w, n).len() == n + 2,
        forall|i: int|
            0 <= i < n ==> #[trigger] detail_rows(state, entry, inner_w, n)[i + 2] == detail_row(
                state,
                entry,
                i,
                inner_w,
            ),
    decreases n,
{
    if n > 0 {
        detail_has_a_row_for_each_file(state, entry, inner_w, (n - 1) as nat);
        let front = detail_rows(state, entry, inner_w, (n - 1) as nat);
        let all = detail_rows(state, entry, inner_w, n);
        assert forall|i: int| 0 <= i < n implies #[trigger] all[i + 2] == detail_row(
            state,
            entry,
            i,
            inner_w,
        ) by {
            if i < n - 1 {
                assert(all[i + 2] == front[i + 2]);
            }
        }
    }
}

/// The values of one field over several files: each file has its row, under its label or, without
/// one for each file, its number; it shows the value of this file, where it fits, and stands out
/// as changed exactly if that differs from what is saved of it.
pub proof fn every_file_shows_its_value(
    state: MetadataEditorState,
    entry: MetadataEntry,
    inner_w: int,
    i: int,
)
    requires
        0 <= i < entry.per_file_values@.len(),
        !(state.detail_edit is Some && state.detail_cursor == i),
    ensures
        ({
            let line = detail_rows(state, entry, inner_w, entry.per_file_values@.len())[i + 2];
            let value = entry.per_file_values@[i]@;
            let label = if state.file_labels@.len() == entry.per_file_values@.len() {
                state.file_labels@[i]@
            } else {
                "Track "@ + zero_filled((i + 1) as nat, 2)
            };
            &&& ("  "@ + label).is_prefix_of(line[0].text)
            &&& (one_line(value).len() <= minus(inner_w, plus(line[0].text.len() as int, 1))
                ==> line[1].text == one_line(value))
            &&& (line[1].style.fg == Tone::Green <==> i < entry.per_file_saved@.len()
                && entry.per_file_saved@[i]@ != value)
            &&& (line[0].style.bold <==> i == state.detail_cursor)
        }),
{
    detail_has_a_row_for_each_file(state, entry, inner_w, entry.per_file_values@.len());
    let line = detail_rows(state, entry, inner_w, entry.per_file_values@.len())[i + 2];
    assert(line == detail_row(state, entry, i, inner_w));
    let label = crate::metadata_editor::row_label(state, entry, i);
    assert(("  "@ + label) =~= line[0].text.subrange(0, ("  "@ + label).len() as int));
}

proof fn lemma_chars_positive(line: LineV, n: nat)
    ensures
        chars_before(line, n) >= 0,
    decreases n,
{
    if n > 0 && n <= line.len() {
        lemma_chars_positive(line, (n - 1) as nat);
    }
}

proof fn lemma_chars_appended(a: LineV, b: LineV, n: nat)
    requires
        n <= a.len(),
    ensures
        chars_before(a + b, n) == chars_before(a, n),
    decreases n,
{
    if n > 0 {
        lemma_chars_appended(a, b, (n - 1) as nat);
        assert((a + b)[n - 1] == a[n - 1]);
    }
}

/// Taking a field back and restoring it are clicked where they are drawn: behind as many columns
/// as the footer has characters before them.
pub proof fn field_buttons_are_clicked_where_they_are_drawn(entry: MetadataEntry, area: Rect)
    requires
        entry.has_mb_proposed,
        line_chars(list_footer(entry)) <= area.width,
        area.wf(),
    ensures
        ({
            let footer = list_footer(entry);
            let hits = list_hits(entry, area);
            let start = list_footer_rect(entry, area).x;
            let n = footer.len() as int;
            let m = hits.len() as int;
            &&& footer[n - 1].text == " "@ + "restore"@ + " "@
            &&& hits[m - 1].0 == TuiButton::MetadataDetailRestore
            &&& hits[m - 1].1.x == start + chars_before(footer, (n - 1) as nat)
            &&& hits[m - 1].1.y == area.y
            &&& (!(entry.mb_field_pill is Absent) ==> hits[0].0 == TuiButton::MetadataDetailRevert
                && hits[0].1.x == start + chars_before(footer, (n - 3) as nat)
                && footer[n - 3].text.len() == hits[0].1.width)
            &&& m == if entry.mb_field_pill is Absent { 1int } else { 2 }
        }),
{
    let footer = list_footer(entry);
    let front = list_pills(entry);
    let middle = revert_pills(entry);
    let last = seq![crate::overlay_parts::footer_pill_span("restore"@, Tone::Blue)];
    let n = footer.len();
    assert(footer =~= front + (middle + last));
    lemma_chars_appended(front, middle + last, front.len());
    reveal_strlit(" ");
    reveal_strlit("restore");
    reveal_strlit("revert");
    reveal_strlit("use MB");
    assert(footer[n - 1] == last[0]);
    assert(chars_before(footer, n) == plus(
        chars_before(footer, (n - 1) as nat),
        footer[n - 1].text.len() as int,
    ));
    if !(entry.mb_field_pill is Absent) {
        assert(n == front.len() + 3);
        assert(footer[n - 3] == middle[0]);
        assert(footer[n - 2] == middle[1]);
        assert(chars_before(footer, (n - 1) as nat) == plus(
            chars_before(footer, (n - 2) as nat),
            footer[n - 2].text.len() as int,
        ));
        assert(chars_before(footer, (n - 2) as nat) == plus(
            chars_before(footer, (n - 3) as nat),
            footer[n - 3].text.len() as int,
        ));
        assert(chars_before(footer, (n - 1) as nat) == line_chars(front) + middle[0].text.len()
            + 1);
    } else {
        assert(n == front.len() + 1);
        assert(chars_before(footer, (n - 1) as nat) == line_chars(front));
    }
    let total = line_chars(footer);
    lemma_chars_positive(footer, (n - 1) as nat);
    lemma_chars_positive(front, front.len());
    let start = list_footer_rect(entry, area).x;
    assert(total == chars_before(footer, (n - 1) as nat) + 9);
    assert(start == area.x + (area.width - total) / 2);
    assert(start + total <= area.x + area.width);
    let hits = list_hits(entry, area);
    assert(hits[hits.len() - 1].1.x == start + chars_before(footer, (n - 1) as nat));
}

proof fn lemma_wrapped(text: Seq<char>, width: int, m: nat, n: nat)
    requires
        m <= n <= text.len(),
    ensures
        ({
            let less = wrapped_rows(text, width, m);
            let more = wrapped_rows(text, width, n);
            let last = less.len() - 1;
            &&& 1 <= less.len() <= more.len()
            &&& forall|r: int| 0 <= r < last ==> #[trigger] more[r] == less[r]
            &&& less[last].len() <= more[last].len()
            &&& forall|c: int|
                0 <= c < less[last].len() ==> #[trigger] more[last][c] == less[last][c]
        }),
    decreases n,
{
    if m < n {
        lemma_wrapped(text, width, m, (n - 1) as nat);
    } else if n > 0 {
        lemma_wrapped(text, width, (n - 1) as nat, (n - 1) as nat);
    }
}

/// The cursor of a wrapped text is on the character that it is before.
pub proof fn wrapped_cursor_is_on_its_character(text: Seq<char>, width: int, pos: int)
    requires
        0 <= pos < text.len(),
        text[pos] != '\n',
        width >= 1,
    ensures
        ({
            let rows = wrapped_rows(text, width, text.len());
            let (row, col) = cursor_place(text, width, pos);
            0 <= row < rows.len() && 0 <= col < rows[row].len() && rows[row][col] == text[pos]
        }),
{
    lemma_wrapped(text, width, (pos + 1) as nat, text.len());
    lemma_wrapped(text, width, pos as nat, pos as nat);
    let here = wrapped_rows(text, width, pos as nat);
    let next = wrapped_rows(text, width, (pos + 1) as nat);
    let rows = wrapped_rows(text, width, text.len());
    let (row, col) = cursor_place(text, width, pos);
    assert(row == next.len() - 1);
    assert(next[row][col] == text[pos]);
    assert(rows[row][col] == next[row][col]);
}

proof fn lemma_full_rows(text: Seq<char>, width: int, n: nat)
    requires
        n <= text.len(),
        width >= 1,
        forall|i: int| 0 <= i < text.len() ==> #[trigger] text[i] != '\n',
    ensures
        ({
            let rows = wrapped_rows(text, width, n);
            &&& rows.len() >= 1
            &&& rows.last().len() <= width
            &&& forall|r: int| 0 <= r < rows.len() - 1 ==> (#[trigger] rows[r]).len() == width
        }),
    decreases n,
{
    if n > 0 {
        lemma_full_rows(text, width, (n - 1) as nat);
    }
}

/// A text without line feeds is wrapped only where a row is full.
pub proof fn rows_are_full_before_they_wrap(text: Seq<char>, width: int, r: int)
    requires
        width >= 1,
        forall|i: int| 0 <= i < text.len() ==> #[trigger] text[i] != '\n',
        0 <= r < wrapped_rows(text, width, text.len()).len() - 1,
    ensures
        wrapped_rows(text, width, text.len())[r].len() == width,
{
    lemma_full_rows(text, width, text.len());
}

/// A long text is edited over several rows: row `k` shows the wrapped row `k` behind the first in
/// view, and the cursor is marked on its own row alone. At most eight rows are in view, and all of
/// them where there are no more.
pub proof fn edited_rows_are_in_order(input: TextInputState, key: SpanV, max: int, k: int)
    requires
        max >= 1,
        0 <= k < multiline_rows(input, key, max).len(),
        sanitized(input.text@).len() < usize::MAX - 8,
    ensures
        ({
            let text = sanitized(input.text@);
            let rows = wrapped_rows(text, max, text.len());
            let (row, col) = cursor_place(text, max, sanitized_cursor(input));
            let shown = multiline_rows(input, key, max);
            let first = if row < 8 { 0 } else { row - 7 };
            let i = first + k;
            &&& 0 <= i < rows.len()
            &&& shown.len() <= 8
            &&& (rows.len() <= 8 ==> shown.len() == rows.len())
            &&& (i != row ==> shown[k].len() == 2 && rows[i].is_prefix_of(shown[k][1].text))
            &&& (i == row ==> shown[k].len() == 4 && shown[k][2].style.bg == Tone::TextBright && (col
                < rows[i].len() ==> shown[k][2].text == seq![rows[i][col]] && shown[k][1].text
                == rows[i].take(col)))
            &&& (k == 0 ==> shown[k][0] == key)
        }),
{
    let text = sanitized(input.text@);
    let rows = wrapped_rows(text, max, text.len());
    let (row, col) = cursor_place(text, max, sanitized_cursor(input));
    crate::metadata_editor::edited_row_is_in_view(input, max);
    crate::metadata_editor::cursor_is_in_the_sanitized_text(input);
    crate::metadata_editor::every_position_is_in_a_row(text, max, sanitized_cursor(input));
    lemma_row_count(text, max, text.len());
    let shown = multiline_rows(input, key, max);
    let i = crate::metadata_editor::drop_scroll(row, rows.len() as int) + k;
    if i != row {
        assert(rows[i] =~= shown[k][1].text.subrange(0, rows[i].len() as int));
    }
}

proof fn lemma_row_count(text: Seq<char>, width: int, n: nat)
    requires
        n <= text.len(),
    ensures
        1 <= wrapped_rows(text, width, n).len() <= n + 1,
    decreases n,
{
    if n > 0 {
        lemma_row_count(text, width, (n - 1) as nat);
    }
}

} // verus!
