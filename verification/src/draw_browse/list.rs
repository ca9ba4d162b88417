//! The file list.

use crate::browse::{
    cached_info_for_entry, is_listed, known_info, listed, BrowseEntry, BrowseInlineEditState,
    BrowseInlineEditTarget, BrowseState, CachedInfo,
};
use crate::button_map::{hit_if, BrowseColumn, ButtonRenderMap, Hit, SortDir, TuiButton};
use crate::display_width::{
    fit_prefix, fitted_prefix, padded, shown_width, truncate_right, truncated_left, truncated_right,
    width,
};
use crate::draw_browse::columns::{
    browse_column_layout, column_layout, column_right_aligned, column_style, column_text, config_key,
    entry_column_style, entry_column_text, entry_name_style, heading, name_column_width,
    name_style, name_width_from, pad_or_truncate, BrowseColumnCell, MIN_NAME_W, ROW_CURSOR_W,
    ROW_GUTTER_W, ROW_PREFIX, ROW_TRAILING,
};
use crate::draw_browse::search::{
    arrow, browse_entry_y_start, browse_header_y, browse_search_controls_y, browse_search_input_y,
    browse_search_rows, clipped_inner_row_rect, control_row, entry_y, inner_stretch, items_view,
    search_control_button, search_control_row_layout, search_control_style, sort_arrow,
    SearchControls, SearchItemV,
};
use crate::geometry::{plus16, Rect};
use crate::inline_edit::{
    editing_spans, editing_style, field_spans, inline_cursor_col,
    render_inline_value_with_embedded_cursor, render_text_input_value_with_style, selection_style,
    TextInputState,
};
use crate::metadata_editor::{append_span_if, span_if};
use crate::panes::{
    bordered, bordered_line, bottom_edge, bottom_line, empty_bordered, empty_bordered_line,
};
use crate::path::{file_name_or_empty, file_name_or_path, name_or_empty, name_or_path};
use crate::scene::{
    line1, line2, line_op, row_if, sp, text_op, Line, LineV, OpV, Rows, RowsV, Scene, SceneV, SpanV,
};
use crate::style::{bold, bold_fg, bright, dimmed, fg, muted, on, plain, Style, Tone};
use crate::text::{
    after_prefix, blanks, cat2, cat3, cat4, cat5, dec_len, decimal, least, low16, minus, owned, plus, repeat_char, repeated, same,
    spaces, strip_prefix, to_u16,
};
use vstd::prelude::*;

verus! {

/// `spans` from `i` on, in `remaining` columns: whole spans while they fit, then the
/// fitting front of the next one; spaces where columns are left.
pub open spec fn trimmed_spans(spans: LineV, i: int, remaining: int) -> LineV
    decreases spans.len() - i,
{
    if remaining <= 0 {
        Seq::empty()
    } else if 0 <= i < spans.len() {
        let w = shown_width(spans[i].text) as int;
        if w <= remaining {
            seq![spans[i]] + trimmed_spans(spans, i + 1, remaining - w)
        } else {
            seq![sp(fitted_prefix(spans[i].text, remaining), spans[i].style)]
        }
    } else {
        seq![sp(blanks(remaining as nat), plain())]
    }
}

/// `spans` padded or trimmed before the last one, which is the right border, to
/// `target` columns.
pub open spec fn normalized(spans: LineV, target: int) -> LineV {
    if spans.len() == 0 {
        spans
    } else {
        trimmed_spans(
            spans.drop_last(),
            0,
            minus(target, shown_width(spans.last().text) as int),
        ).push(spans.last())
    }
}

/// Pads or trims a line before its right border to `target` columns.
pub fn normalize_bordered_spans_width(spans: &mut Line, target: usize)
    ensures
        final(spans)@ == normalized(old(spans)@, target as int),
{
    let ghost before = spans@;
    let n: usize = spans.spans.len();
    proof {
        assert(before.len() == n);
    }
    if n == 0 {
        return;
    }
    let ghost body = before.drop_last();
    let border = owned(spans.spans[n - 1].text.as_str());
    let border_style = spans.spans[n - 1].style;
    let mut remaining: usize = target.saturating_sub(width(border.as_str()));
    let ghost all = trimmed_spans(body, 0, remaining as int);
    let mut out = Line::new();
    let mut i: usize = 0;
    proof {
        assert(out@ + all =~= all);
    }
    while i < n - 1 && remaining > 0
        invariant
            n == spans.spans@.len(),
            n > 0,
            before == spans@,
            body == before.drop_last(),
            i <= n - 1,
            out@ + trimmed_spans(body, i as int, remaining as int) == all,
        decreases n - i,
    {
        let text = spans.spans[i].text.as_str();
        let style = spans.spans[i].style;
        let w: usize = width(text);
        let ghost done = out@;
        proof {
            assert(body[i as int] == spans@[i as int]);
        }
        if w <= remaining {
            out.put(text, style);
            proof {
                let rest = trimmed_spans(body, i + 1, remaining - w);
                assert(done + (seq![body[i as int]] + rest) =~= out@ + rest);
            }
            remaining -= w;
        } else {
            let front = fit_prefix(text, remaining);
            out.put(front.as_str(), style);
            proof {
                assert(done + seq![sp(front@, style)] =~= out@ + Seq::<SpanV>::empty());
            }
            remaining = 0;
        }
        i += 1;
    }
    if remaining > 0 {
        let ghost done = out@;
        out.put(spaces(remaining).as_str(), plain());
        proof {
            assert(done + seq![sp(blanks(remaining as nat), plain())] =~= out@);
        }
    } else {
        proof {
            assert(out@ + Seq::<SpanV>::empty() =~= out@);
        }
    }
    out.put(border.as_str(), border_style);
    proof {
        assert(border@ == before.last().text);
        assert(sp(border@, border_style) == before.last());
    }
    *spans = out;
}

/// The right border is never lost and stays last.
pub proof fn right_border_is_kept(spans: LineV, target: int)
    requires
        spans.len() > 0,
    ensures
        normalized(spans, target).len() > 0,
        normalized(spans, target).last() == spans.last(),
{
}

/// The width of a line whose spans are counted one by one.
pub open spec fn exact_width(line: LineV) -> int
    decreases line.len(),
{
    if line.len() == 0 {
        0
    } else {
        shown_width(line[0].text) + exact_width(line.skip(1))
    }
}

proof fn lemma_trimmed_width(spans: LineV, i: int, remaining: int)
    requires
        0 <= i <= spans.len(),
        0 <= remaining,
        forall|n: nat| n <= remaining ==> #[trigger] shown_width(blanks(n)) == n,
        forall|k: int, r: int|
            i <= k < spans.len() && 0 < r < shown_width((#[trigger] spans[k]).text)
                ==> #[trigger] shown_width(fitted_prefix(spans[k].text, r)) == r,
    ensures
        exact_width(trimmed_spans(spans, i, remaining)) == remaining,
    decreases spans.len() - i,
{
    let out = trimmed_spans(spans, i, remaining);
    if remaining > 0 {
        if i < spans.len() {
            let w = shown_width(spans[i].text) as int;
            if w <= remaining {
                lemma_trimmed_width(spans, i + 1, remaining - w);
                assert(out.skip(1) =~= trimmed_spans(spans, i + 1, remaining - w));
            } else {
                assert(out.skip(1) =~= Seq::empty());
                assert(exact_width(out.skip(1)) == 0);
                assert(out[0].text == fitted_prefix(spans[i].text, remaining));
            }
        } else {
            assert(out.skip(1) =~= Seq::empty());
            assert(exact_width(out.skip(1)) == 0);
            assert(shown_width(blanks(remaining as nat)) == remaining);
        }
    }
}

proof fn lemma_exact_width_push(line: LineV, last: SpanV)
    ensures
        exact_width(line.push(last)) == exact_width(line) + shown_width(last.text),
    decreases line.len(),
{
    if line.len() == 0 {
        assert(line.push(last).skip(1) =~= Seq::empty());
        assert(exact_width(line.push(last).skip(1)) == 0);
    } else {
        assert(line.push(last).skip(1) =~= line.skip(1).push(last));
        lemma_exact_width_push(line.skip(1), last);
    }
}

/// A row with its right border is exactly as wide as asked for, whatever it held
/// before, as long as a space takes one column and a span can be cut at the column
/// where the row ends.
pub proof fn rows_have_exact_width(spans: LineV, target: int)
    requires
        spans.len() > 0,
        shown_width(spans.last().text) <= target,
        forall|n: nat| n <= target ==> #[trigger] shown_width(blanks(n)) == n,
        forall|k: int, r: int|
            0 <= k < spans.len() - 1 && 0 < r < shown_width((#[trigger] spans[k]).text)
                ==> #[trigger] shown_width(fitted_prefix(spans[k].text, r)) == r,
    ensures
        exact_width(normalized(spans, target)) == target,
{
    let body = spans.drop_last();
    assert forall|k: int, r: int|
        0 <= k < body.len() && 0 < r < shown_width(
            (#[trigger] body[k]).text,
        ) implies #[trigger] shown_width(fitted_prefix(body[k].text, r)) == r by {
        assert(body[k] == spans[k]);
    }
    let room = minus(target, shown_width(spans.last().text) as int);
    lemma_trimmed_width(body, 0, room);
    lemma_exact_width_push(trimmed_spans(body, 0, room), spans.last());
}

/// The first `n` column headings. The column that the list is sorted by has a mark.
pub open spec fn heading_spans(
    columns: Seq<BrowseColumnCell>,
    sort_by: BrowseColumn,
    sort_dir: SortDir,
    n: nat,
) -> LineV
    decreases n,
{
    if n == 0 || n > columns.len() {
        seq![sp("│"@, fg(Tone::Cyan)), sp(blanks(ROW_PREFIX as nat), plain())]
    } else {
        let cell = columns[n - 1];
        let front = heading_spans(columns, sort_by, sort_dir, (n - 1) as nat);
        let gapped = if n > 1 { front.push(sp(" "@, plain())) } else { front };
        gapped.push(
            sp(
                padded(
                    heading_text(cell.column, sort_by, sort_dir),
                    cell.width as int,
                    column_right_aligned(cell.column),
                ),
                heading_style(sort_by == cell.column),
            ),
        )
    }
}

/// A column heading.
pub open spec fn heading_text(column: BrowseColumn, sort_by: BrowseColumn, sort_dir: SortDir) -> Seq<char> {
    if sort_by == column {
        heading(column) + " "@ + arrow(sort_dir)
    } else {
        heading(column)
    }
}

/// The style of a column heading.
#[verifier::allow_in_spec]
pub fn heading_style(active: bool) -> Style
    returns
        (if active {
            bold_fg(Tone::Cyan)
        } else {
            muted()
        }),
{
    if active {
        bold_fg(Tone::Cyan)
    } else {
        muted()
    }
}

/// The row of column headings.
pub open spec fn header_row(
    width: int,
    columns: Seq<BrowseColumnCell>,
    sort_by: BrowseColumn,
    sort_dir: SortDir,
) -> LineV {
    normalized(
        heading_spans(columns, sort_by, sort_dir, columns.len()).push(
            sp(blanks(ROW_TRAILING as nat), plain()),
        ).push(sp("│"@, fg(Tone::Cyan))),
        width,
    )
}

fn text_of_heading(column: BrowseColumn, sort_by: BrowseColumn, sort_dir: SortDir) -> (r: String)
    ensures
        r@ == heading_text(column, sort_by, sort_dir),
{
    if sort_by == column {
        cat3(config_key(column), " ", sort_arrow(sort_dir))
    } else {
        owned(config_key(column))
    }
}

/// The row of column headings, with a mark on the column that the list is sorted by.
pub fn render_header_row(
    width: usize,
    columns: &Vec<BrowseColumnCell>,
    sort_by: BrowseColumn,
    sort_dir: SortDir,
) -> (r: Line)
    ensures
        r@ == header_row(width as int, columns@, sort_by, sort_dir),
{
    let mut spans = line2("│", fg(Tone::Cyan), spaces(ROW_PREFIX).as_str(), plain());
    for i in 0..columns.len()
        invariant
            spans@ == heading_spans(columns@, sort_by, sort_dir, i as nat),
    {
        let cell = columns[i];
        if i > 0 {
            spans.put(" ", plain());
        }
        let text = text_of_heading(cell.column, sort_by, sort_dir);
        let display = pad_or_truncate(
            text.as_str(),
            cell.width,
            column_right_aligned(cell.column),
        );
        spans.put(display.as_str(), heading_style(sort_by == cell.column));
    }
    spans.put(spaces(ROW_TRAILING).as_str(), plain());
    spans.put("│", fg(Tone::Cyan));
    normalize_bordered_spans_width(&mut spans, width);
    spans
}

/// What an entry's row depends on.
pub struct EntryRow<'a> {
    pub entry: &'a BrowseEntry,
    pub cached: Option<&'a CachedInfo>,
    /// The editor of the entry's name.
    pub rename: Option<&'a TextInputState>,
    pub is_selected: bool,
    pub is_checked: bool,
    pub is_range_preview: bool,
    pub is_hovered: bool,
}

/// The style of the cursor mark.
#[verifier::allow_in_spec]
pub fn cursor_style(is_selected: bool) -> Style
    returns
        (if is_selected {
            fg(Tone::Blue)
        } else {
            dimmed()
        }),
{
    if is_selected {
        fg(Tone::Blue)
    } else {
        dimmed()
    }
}

/// The style of the selection mark. A range being selected is told apart from
/// entries that are selected already.
#[verifier::allow_in_spec]
pub fn check_style(is_checked: bool, is_range_preview: bool) -> Style
    returns
        (if is_range_preview {
            bold(on(Tone::Bg, Tone::SelectionBg))
        } else if is_checked {
            fg(Tone::Cyan)
        } else {
            dimmed()
        }),
{
    if is_range_preview {
        bold(on(Tone::Bg, Tone::SelectionBg))
    } else if is_checked {
        fg(Tone::Cyan)
    } else {
        dimmed()
    }
}

/// Border, cursor and selection mark of an entry's row.
pub open spec fn entry_marks(border: Tone, row: EntryRow) -> LineV {
    seq![
        sp("│"@, fg(border)),
        sp(if row.is_selected { "▸ "@ } else { "  "@ }, cursor_style(row.is_selected)),
        sp(
            if row.is_checked { "●"@ } else { " "@ },
            check_style(row.is_checked, row.is_range_preview),
        ),
        sp(" "@, plain()),
    ]
}

fn entry_mark_line(border: Tone, row: &EntryRow) -> (r: Line)
    ensures
        r@ == entry_marks(border, *row),
{
    let cursor = if row.is_selected { "▸ " } else { "  " };
    let check = if row.is_checked { "●" } else { " " };
    let mut line = line2("│", fg(border), cursor, cursor_style(row.is_selected));
    line.put(check, check_style(row.is_checked, row.is_range_preview));
    line.put(" ", plain());
    proof {
        assert(line@ =~= entry_marks(border, *row));
    }
    line
}

/// An entry's value in one column.
pub open spec fn cell_spans(row: EntryRow, cell: BrowseColumnCell) -> LineV {
    if cell.column == BrowseColumn::Name {
        match row.rename {
            Some(input) => editing_spans(*input, cell.width as int),
            None => seq![
                sp(
                    padded(row.entry.name@, cell.width as int, false),
                    name_style(*row.entry, row.is_selected),
                ),
            ],
        }
    } else {
        seq![
            sp(
                padded(
                    column_text(*row.entry, cell.column, row.cached),
                    cell.width as int,
                    column_right_aligned(cell.column),
                ),
                column_style(*row.entry, cell.column, row.cached),
            ),
        ]
    }
}

fn cell_line(row: &EntryRow, cell: BrowseColumnCell) -> (r: Line)
    ensures
        r@ == cell_spans(*row, cell),
{
    if cell.column == BrowseColumn::Name {
        match row.rename {
            Some(input) => render_inline_value_with_embedded_cursor(input, cell.width),
            None => {
                let name = pad_or_truncate(row.entry.name.as_str(), cell.width, false);
                line1(name.as_str(), entry_name_style(row.entry, row.is_selected))
            },
        }
    } else {
        let value = entry_column_text(row.entry, cell.column, row.cached);
        let display = pad_or_truncate(
            value.as_str(),
            cell.width,
            column_right_aligned(cell.column),
        );
        line1(display.as_str(), entry_column_style(row.entry, cell.column, row.cached))
    }
}

/// The marks and the first `n` columns of an entry's row.
pub open spec fn cells_upto(border: Tone, row: EntryRow, columns: Seq<BrowseColumnCell>, n: nat) -> LineV
    decreases n,
{
    if n == 0 || n > columns.len() {
        entry_marks(border, row)
    } else {
        let front = cells_upto(border, row, columns, (n - 1) as nat);
        let gapped = if n > 1 { front.push(sp(" "@, plain())) } else { front };
        gapped + cell_spans(row, columns[n - 1])
    }
}

/// Where the spans of the name editor are among the first `n` columns: none where
/// the name is not edited.
pub open spec fn editor_range(border: Tone, row: EntryRow, columns: Seq<BrowseColumnCell>, n: nat) -> (int, int)
    decreases n,
{
    if n == 0 || n > columns.len() {
        (0, 0)
    } else if columns[n - 1].column == BrowseColumn::Name && row.rename is Some {
        let front = cells_upto(border, row, columns, (n - 1) as nat);
        let gapped = if n > 1 { front.len() + 1 } else { front.len() };
        (gapped as int, cells_upto(border, row, columns, n).len() as int)
    } else {
        editor_range(border, row, columns, (n - 1) as nat)
    }
}

/// The background of an entry's row.
pub open spec fn row_background(row: EntryRow) -> Tone {
    if row.is_selected || row.is_range_preview {
        Tone::SelectionBg
    } else if row.is_hovered {
        Tone::HoverBg
    } else {
        Tone::Unset
    }
}

/// A span of a row with a background. Borders and the spans of an editor keep their
/// own style; a selected row is bright and bold.
pub open spec fn restyled(span: SpanV, owned_style: bool, back: Tone, is_selected: bool) -> SpanV {
    if owned_style || span.text == "│"@ {
        span
    } else if is_selected {
        SpanV {
            text: span.text,
            style: Style { fg: Tone::TextBright, bg: back, bold: true, ..span.style },
        }
    } else {
        SpanV { text: span.text, style: Style { bg: back, ..span.style } }
    }
}

/// A row with its background.
pub open spec fn with_background(spans: LineV, row: EntryRow, editor: (int, int)) -> LineV {
    let back = row_background(row);
    if back == Tone::Unset {
        spans
    } else {
        Seq::new(
            spans.len(),
            |i: int| restyled(spans[i], editor.0 <= i < editor.1, back, row.is_selected),
        )
    }
}

/// The row of an entry.
pub open spec fn entry_row(border: Tone, width: int, columns: Seq<BrowseColumnCell>, row: EntryRow) -> LineV {
    let n = columns.len();
    let spans = cells_upto(border, row, columns, n).push(sp(blanks(ROW_TRAILING as nat), plain())).push(
        sp("│"@, fg(border)),
    );
    with_background(normalized(spans, width), row, editor_range(border, row, columns, n))
}

fn paint_background(spans: &Line, row: &EntryRow, from: usize, to: usize) -> (r: Line)
    ensures
        r@ == with_background(spans@, *row, (from as int, to as int)),
{
    let back = if row.is_selected || row.is_range_preview {
        Tone::SelectionBg
    } else if row.is_hovered {
        Tone::HoverBg
    } else {
        Tone::Unset
    };
    if back == Tone::Unset {
        return spans.copy();
    }
    let ghost want = with_background(spans@, *row, (from as int, to as int));
    let mut out = Line::new();
    proof {
        assert(want.take(0) =~= Seq::empty());
    }
    for i in 0..spans.spans.len()
        invariant
            back == row_background(*row),
            back != Tone::Unset,
            want == with_background(spans@, *row, (from as int, to as int)),
            spans@.len() == spans.spans@.len(),
            out@ == want.take(i as int),
    {
        let text = spans.spans[i].text.as_str();
        let style = spans.spans[i].style;
        let own = (from <= i && i < to) || same(text, "│");
        let painted = if own {
            style
        } else if row.is_selected {
            Style { fg: Tone::TextBright, bg: back, bold: true, ..style }
        } else {
            Style { bg: back, ..style }
        };
        out.put(text, painted);
        proof {
            assert(spans@[i as int] == spans.spans@[i as int]@);
            assert(want[i as int] == sp(text@, painted));
            assert(want.take(i + 1) =~= want.take(i as int).push(want[i as int]));
        }
    }
    proof {
        assert(want.take(want.len() as int) =~= want);
    }
    out
}

fn entry_line(border: Tone, width: usize, columns: &Vec<BrowseColumnCell>, row: &EntryRow) -> (r: Line)
    ensures
        r@ == entry_row(border, width as int, columns@, *row),
{
    let mut spans = entry_mark_line(border, row);
    let mut from: usize = 0;
    let mut to: usize = 0;
    for i in 0..columns.len()
        invariant
            spans@ == cells_upto(border, *row, columns@, i as nat),
            (from as int, to as int) == editor_range(border, *row, columns@, i as nat),
    {
        let cell = columns[i];
        if i > 0 {
            spans.put(" ", plain());
        }
        proof {
            assert(spans@.len() == spans.spans@.len());
        }
        let start: usize = spans.spans.len();
        spans.append(cell_line(row, cell));
        proof {
            assert(spans@.len() == spans.spans@.len());
        }
        if cell.column == BrowseColumn::Name && row.rename.is_some() {
            from = start;
            to = spans.spans.len();
        }
    }
    spans.put(spaces(ROW_TRAILING).as_str(), plain());
    spans.put("│", fg(border));
    normalize_bordered_spans_width(&mut spans, width);
    paint_background(&spans, row, from, to)
}

/// The row of an entry, with the columns of the list.
pub fn render_entry_line(
    border: Tone,
    width: usize,
    columns: &Vec<BrowseColumnCell>,
    browse: &BrowseState,
    entry: &BrowseEntry,
    inline_rename_input: Option<&TextInputState>,
    is_selected: bool,
    is_checked: bool,
    is_range_preview: bool,
    is_hovered: bool,
) -> (r: Line)
    ensures
        r@ == entry_row(
            border,
            width as int,
            columns@,
            (EntryRow {
                entry,
                cached: known_info(browse, *entry),
                rename: inline_rename_input,
                is_selected,
                is_checked,
                is_range_preview,
                is_hovered,
            }),
        ),
{
    let row = EntryRow {
        entry,
        cached: cached_info_for_entry(browse, entry),
        rename: inline_rename_input,
        is_selected,
        is_checked,
        is_range_preview,
        is_hovered,
    };
    entry_line(border, width, columns, &row)
}

/// What is being read, while a directory is being read.
pub open spec fn progress_text(browse: BrowseState) -> Option<Seq<char>> {
    if browse.scan_pending {
        Some(
            "Reading "@ + name_or_path(browse.current_dir@) + "… ("@ + decimal(
                browse.scan_discovered_count as nat,
            ) + ")"@,
        )
    } else {
        None
    }
}

/// What is being read, while a directory is being read.
pub fn browse_scan_progress_text(browse: &BrowseState) -> (r: Option<String>)
    ensures
        match r {
            Some(text) => progress_text(*browse) == Some(text@),
            None => progress_text(*browse) is None,
        },
{
    if !browse.scan_pending {
        return None;
    }
    let folder = file_name_or_path(browse.current_dir.as_str());
    Some(
        cat5(
            "Reading ",
            folder.as_str(),
            "… (",
            dec_len(browse.scan_discovered_count).as_str(),
            ")",
        ),
    )
}

/// The rows left for entries: one fewer while a new entry is being named.
pub open spec fn entry_capacity(total_rows: int, creating: bool) -> int {
    minus(total_rows, if creating { 1 } else { 0 })
}

/// The rows left for entries: one fewer while a new entry is being named.
pub fn effective_entry_capacity(total_rows: usize, inline_create_active: bool) -> (r: usize)
    ensures
        r == entry_capacity(total_rows as int, inline_create_active),
{
    total_rows.saturating_sub(if inline_create_active { 1 } else { 0 })
}

/// The rows of the list between headings and bottom edge; the filter input takes one of
/// them.
pub open spec fn content_rows(area: Rect, browse: BrowseState) -> int {
    minus(
        area.height as int,
        3 + browse_search_rows(browse.search.active) + if browse.filter_input is Some {
            1int
        } else {
            0int
        },
    )
}

fn count_content_rows(area: Rect, browse: &BrowseState) -> (r: usize)
    ensures
        r == content_rows(area, *browse),
{
    let search: usize = browse_search_rows(browse.search.active) as usize;
    let filter: usize = if browse.filter_input.is_some() { 1 } else { 0 };
    (area.height as usize).saturating_sub(3 + search + filter)
}

/// The editor of a new entry's name, where one is open in this directory.
pub open spec fn create_editor<'a>(
    browse: BrowseState,
    inline: Option<&'a BrowseInlineEditState>,
) -> Option<&'a TextInputState> {
    match inline {
        Some(state) => match state.target {
            BrowseInlineEditTarget::Create { dir } => if dir@ == browse.current_dir@ {
                Some(&state.input)
            } else {
                None
            },
            _ => None,
        },
        None => None,
    }
}

/// The editor of an entry's name, where one is open.
pub open spec fn rename_editor<'a>(
    entry: BrowseEntry,
    inline: Option<&'a BrowseInlineEditState>,
) -> Option<&'a TextInputState> {
    match inline {
        Some(state) => match state.target {
            BrowseInlineEditTarget::Rename { path } => if path@ == entry.path@ {
                Some(&state.input)
            } else {
                None
            },
            _ => None,
        },
        None => None,
    }
}

/// The editor of a new name in the current directory.
pub fn find_create_editor<'a>(browse: &BrowseState, inline: Option<&'a BrowseInlineEditState>) -> (r:
    Option<&'a TextInputState>)
    ensures
        r == create_editor(*browse, inline),
{
    match inline {
        Some(state) => match &state.target {
            BrowseInlineEditTarget::Create { dir } => {
                if same(dir.as_str(), browse.current_dir.as_str()) {
                    Some(&state.input)
                } else {
                    None
                }
            },
            _ => None,
        },
        None => None,
    }
}

fn find_rename_editor<'a>(entry: &BrowseEntry, inline: Option<&'a BrowseInlineEditState>) -> (r:
    Option<&'a TextInputState>)
    ensures
        r == rename_editor(*entry, inline),
{
    match inline {
        Some(state) => match &state.target {
            BrowseInlineEditTarget::Rename { path } => {
                if same(path.as_str(), entry.path.as_str()) {
                    Some(&state.input)
                } else {
                    None
                }
            },
            _ => None,
        },
        None => None,
    }
}

/// The rows that the list has for entries.
pub open spec fn list_capacity(
    area: Rect,
    browse: BrowseState,
    inline: Option<&BrowseInlineEditState>,
) -> int {
    entry_capacity(content_rows(area, browse), create_editor(browse, inline) is Some)
}

/// The rows that the list has for entries, by which the list scrolls.
pub fn browse_list_capacity(
    area: Rect,
    browse: &BrowseState,
    inline_edit: Option<&BrowseInlineEditState>,
) -> (r: usize)
    ensures
        r == list_capacity(area, *browse, inline_edit),
{
    let rows: usize = count_content_rows(area, browse);
    effective_entry_capacity(rows, find_create_editor(browse, inline_edit).is_some())
}

/// The top edge, with the search switch at its right end.
pub open spec fn list_top(w: int, searching: bool) -> LineV {
    let search = if searching { " search ✓ "@ } else { " search "@ };
    seq![
        sp("┌"@, fg(Tone::Cyan)),
        sp("▾ browse "@, on(Tone::Bg, Tone::Cyan)),
        sp(
            blanks(
                minus(
                    w,
                    plus(
                        plus(plus(1, shown_width("▾ browse "@) as int), shown_width(search) as int),
                        1,
                    ),
                ) as nat,
            ),
            on(Tone::Bg, Tone::Cyan),
        ),
        sp(search, search_style(searching)),
        sp("┐"@, fg(Tone::Cyan)),
    ]
}

/// The style of the search switch.
#[verifier::allow_in_spec]
pub fn search_style(searching: bool) -> Style
    returns
        (if searching {
            bold(on(Tone::Green, Tone::Cyan))
        } else {
            on(Tone::Bg, Tone::Cyan)
        }),
{
    if searching {
        bold(on(Tone::Green, Tone::Cyan))
    } else {
        on(Tone::Bg, Tone::Cyan)
    }
}

fn list_top_line(w: usize, searching: bool) -> (r: Line)
    ensures
        r@ == list_top(w as int, searching),
{
    let search = if searching { " search ✓ " } else { " search " };
    let one: usize = 1;
    let used: usize = one.saturating_add(width("▾ browse ")).saturating_add(
        width(search),
    ).saturating_add(1);
    let mut line = line2("┌", fg(Tone::Cyan), "▾ browse ", on(Tone::Bg, Tone::Cyan));
    line.put(spaces(w.saturating_sub(used)).as_str(), on(Tone::Bg, Tone::Cyan));
    line.put(search, search_style(searching));
    line.put("┐", fg(Tone::Cyan));
    proof {
        assert(line@ =~= list_top(w as int, searching));
    }
    line
}

/// The bottom edge, with what is being read.
pub open spec fn list_bottom(browse: BrowseState, w: int) -> LineV {
    match progress_text(browse) {
        Some(progress) => {
            let room = minus(w, 2);
            let label = truncated_right(" "@ + progress + " "@, room);
            seq![
                sp("└"@, fg(Tone::Cyan)),
                sp(label, muted()),
                sp(
                    repeated('─', minus(room, shown_width(label) as int) as nat),
                    fg(Tone::Cyan),
                ),
                sp("┘"@, fg(Tone::Cyan)),
            ]
        },
        None => bottom_edge(Tone::Cyan, w),
    }
}

fn list_bottom_line(browse: &BrowseState, w: usize) -> (r: Line)
    ensures
        r@ == list_bottom(*browse, w as int),
{
    match browse_scan_progress_text(browse) {
        Some(progress) => {
            let room: usize = w.saturating_sub(2);
            let label = truncate_right(cat3(" ", progress.as_str(), " ").as_str(), room);
            let dashes = repeat_char('─', room.saturating_sub(width(label.as_str())));
            let mut line = line2("└", fg(Tone::Cyan), label.as_str(), muted());
            line.put(dashes.as_str(), fg(Tone::Cyan));
            line.put("┘", fg(Tone::Cyan));
            line
        },
        None => bottom_line(Tone::Cyan, w),
    }
}

/// The search text between the borders.
pub open spec fn search_input_row(browse: BrowseState, inner_w: int) -> LineV {
    seq![sp("│"@, fg(Tone::Cyan)), sp(" / "@, fg(Tone::Amber))] + field_spans(
        browse.search.input,
        minus(inner_w, 3),
        on(Tone::TextBright, Tone::Surface),
        selection_style(),
    ) + seq![sp("│"@, fg(Tone::Cyan))]
}

fn search_input_line(browse: &BrowseState, inner_w: usize) -> (r: Line)
    ensures
        r@ == search_input_row(*browse, inner_w as int),
{
    let mut line = line2("│", fg(Tone::Cyan), " / ", fg(Tone::Amber));
    line.append(
        render_text_input_value_with_style(
            &browse.search.input,
            inner_w.saturating_sub(3),
            on(Tone::TextBright, Tone::Surface),
            selection_style(),
        ),
    );
    line.append(line1("│", fg(Tone::Cyan)));
    line
}

/// The first column behind the first `n` controls.
pub open spec fn controls_end(items: Seq<SearchItemV>, n: nat) -> int {
    if n == 0 || n > items.len() {
        0
    } else {
        items[n - 1].x + items[n - 1].width
    }
}

/// The first `n` controls, with spaces before each up to its place.
pub open spec fn control_spans(
    items: Seq<SearchItemV>,
    recursive: bool,
    audio_only: bool,
    n: nat,
) -> LineV
    decreases n,
{
    if n == 0 || n > items.len() {
        seq![sp("│"@, fg(Tone::Cyan))]
    } else {
        let item = items[n - 1];
        let end = controls_end(items, (n - 1) as nat);
        let front = control_spans(items, recursive, audio_only, (n - 1) as nat);
        (front + span_if(item.x > end, sp(blanks(minus(item.x as int, end) as nat), plain()))).push(
            sp(item.label, search_control_style(item.kind, recursive, audio_only)),
        )
    }
}

/// The row of search controls.
pub open spec fn search_control_line(browse: BrowseState, inner_w: int) -> LineV {
    let items = control_row(inner_w, controls_of(browse));
    let end = controls_end(items, items.len());
    control_spans(items, browse.search.recursive, browse.search.audio_only, items.len()) + span_if(
        inner_w > end,
        sp(blanks(minus(inner_w, end) as nat), plain()),
    ) + seq![sp("│"@, fg(Tone::Cyan))]
}

/// What the search controls show.
pub open spec fn controls_of(browse: BrowseState) -> SearchControls {
    SearchControls {
        recursive: browse.search.recursive,
        mode_label: browse.search.mode_label@,
        sort_label: browse.search.sort_label@,
        sort_dir: browse.search.sort_dir,
        audio_only: browse.search.audio_only,
    }
}

fn controls_line(browse: &BrowseState, inner_w: usize) -> (r: Line)
    ensures
        r@ == search_control_line(*browse, inner_w as int),
{
    let items = search_control_row_layout(
        inner_w,
        browse.search.recursive,
        browse.search.mode_label.as_str(),
        browse.search.sort_label.as_str(),
        browse.search.sort_dir,
        browse.search.audio_only,
    );
    let ghost shown = items_view(items@);
    let mut line = line1("│", fg(Tone::Cyan));
    let mut end: usize = 0;
    for i in 0..items.len()
        invariant
            shown == items_view(items@),
            end == controls_end(shown, i as nat),
            line@ == control_spans(
                shown,
                browse.search.recursive,
                browse.search.audio_only,
                i as nat,
            ),
    {
        let item = &items[i];
        proof {
            assert(shown[i as int] == items@[i as int]@);
        }
        let x: usize = item.x as usize;
        let mut gap = Line::new();
        if x > end {
            gap.put(spaces(x - end).as_str(), plain());
        }
        proof {
            assert(gap@ =~= span_if(
                item.x > end,
                sp(blanks(minus(item.x as int, end as int) as nat), plain()),
            ));
        }
        line.append(gap);
        line.put(
            item.label.as_str(),
            search_control_style(item.kind, browse.search.recursive, browse.search.audio_only),
        );
        end = x + item.width as usize;
    }
    let mut gap = Line::new();
    if inner_w > end {
        gap.put(spaces(inner_w - end).as_str(), plain());
    }
    proof {
        assert(gap@ =~= span_if(
            inner_w > end,
            sp(blanks(minus(inner_w as int, end as int) as nat), plain()),
        ));
    }
    line.append(gap);
    line.append(line1("│", fg(Tone::Cyan)));
    line
}

/// The row in which a new entry is named.
pub open spec fn create_row(width: int, name_width: int, input: TextInputState) -> LineV {
    bordered(
        Tone::Cyan,
        width,
        seq![sp(blanks(ROW_PREFIX as nat), plain())] + editing_spans(input, name_width),
    )
}

/// The row in which a new entry is named.
pub fn render_browse_create_line(width: usize, name_width: usize, input: &TextInputState) -> (r: Line)
    ensures
        r@ == create_row(width as int, name_width as int, *input),
{
    let mut spans = line1(spaces(ROW_PREFIX).as_str(), plain());
    spans.append(render_inline_value_with_embedded_cursor(input, name_width));
    bordered_line(Tone::Cyan, width, spans)
}

/// `n` empty rows between the borders.
pub open spec fn empty_rows(w: int, n: int) -> RowsV {
    Seq::new(minus(n, 0) as nat, |i: int| empty_bordered(Tone::Cyan, w))
}

fn empty_lines(w: usize, n: usize) -> (r: Rows)
    ensures
        r@ == empty_rows(w as int, n as int),
{
    let mut rows = Rows::new();
    for i in 0..n
        invariant
            rows@ =~= empty_rows(w as int, i as int),
    {
        rows.push(empty_bordered_line(Tone::Cyan, w));
    }
    rows
}

/// What the list is drawn with besides the browser's own state.
pub struct ListContext<'a> {
    pub inline: Option<&'a BrowseInlineEditState>,
    pub hover: Option<TuiButton>,
    pub navigation_focus_active: bool,
}

/// The row of entry `i`.
pub open spec fn list_entry(browse: &BrowseState, ctx: ListContext, columns: Seq<BrowseColumnCell>, w: int, i: int) -> LineV {
    let entry = browse.entries@[i];
    let is_selected = i == browse.selected_index && ctx.navigation_focus_active
        && browse.files_navigation_active;
    entry_row(
        Tone::Cyan,
        w,
        columns,
        EntryRow {
            entry: &entry,
            cached: known_info(browse, entry),
            rename: rename_editor(entry, ctx.inline),
            is_selected,
            is_checked: listed(browse.multi_selected@, entry.path@),
            is_range_preview: browse.in_range_preview(i),
            is_hovered: !is_selected && ctx.hover == Some(TuiButton::BrowseEntry(i as usize)),
        },
    )
}

/// The rows of entries `from` to `to`.
pub open spec fn list_entries(
    browse: &BrowseState,
    ctx: ListContext,
    columns: Seq<BrowseColumnCell>,
    w: int,
    from: int,
    to: int,
) -> RowsV {
    Seq::new(minus(to, from) as nat, |k: int| list_entry(browse, ctx, columns, w, from + k))
}

fn entry_rows(
    browse: &BrowseState,
    ctx: &ListContext,
    columns: &Vec<BrowseColumnCell>,
    w: usize,
    from: usize,
    to: usize,
) -> (r: Rows)
    requires
        from <= to <= browse.entries@.len(),
    ensures
        r@ == list_entries(browse, *ctx, columns@, w as int, from as int, to as int),
{
    let mut rows = Rows::new();
    for i in from..to
        invariant
            from <= i <= to <= browse.entries@.len(),
            rows@ =~= list_entries(browse, *ctx, columns@, w as int, from as int, i as int),
    {
        let entry = &browse.entries[i];
        let is_selected = i == browse.selected_index && ctx.navigation_focus_active
            && browse.files_navigation_active;
        let is_hovered = !is_selected && ctx.hover == Some(TuiButton::BrowseEntry(i));
        rows.push(
            render_entry_line(
                Tone::Cyan,
                w,
                columns,
                browse,
                entry,
                find_rename_editor(entry, ctx.inline),
                is_selected,
                is_listed(&browse.multi_selected, entry.path.as_str()),
                browse.is_range_preview_index(i),
                is_hovered,
            ),
        );
    }
    rows
}

/// The first entry behind those shown.
pub open spec fn list_end(browse: BrowseState, capacity: int) -> int {
    least(plus(browse.scroll_offset as int, capacity), browse.entries@.len() as int)
}

/// The rows between headings and bottom edge (and the filter row): an error, or the
/// name of a new entry, or that there is nothing, or the entries.
pub open spec fn list_body(
    browse: &BrowseState,
    ctx: ListContext,
    columns: Seq<BrowseColumnCell>,
    w: int,
    rows: int,
) -> RowsV {
    let creating = create_editor(*browse, ctx.inline);
    let name_w = name_width_from(columns, 0) as int;
    match browse.error {
        Some(error) => seq![
            bordered(Tone::Cyan, w, seq![sp("   "@ + error@, fg(Tone::Destructive))]),
        ] + empty_rows(w, minus(rows, 1)),
        None => if browse.entries@.len() == 0 {
            seq![
                match creating {
                    Some(input) => create_row(w, name_w, *input),
                    None => bordered(
                        Tone::Cyan,
                        w,
                        seq![
                            sp(
                                match progress_text(*browse) {
                                    Some(progress) => "   "@ + progress,
                                    None => "   (empty)"@,
                                },
                                muted(),
                            ),
                        ],
                    ),
                },
            ] + empty_rows(w, minus(rows, 1))
        } else {
            let from = browse.scroll_offset as int;
            let to = list_end(*browse, entry_capacity(rows, creating is Some));
            let create_here = creating is Some && to - from < rows;
            list_entries(browse, ctx, columns, w, from, to) + (match creating {
                Some(input) => row_if(create_here, create_row(w, name_w, *input)),
                None => Seq::empty(),
            }) + empty_rows(w, minus(rows, (to - from) + if create_here { 1int } else { 0 }))
        },
    }
}

fn empty_list_line(browse: &BrowseState, w: usize) -> (r: Line)
    ensures
        r@ == bordered(
            Tone::Cyan,
            w as int,
            seq![
                sp(
                    match progress_text(*browse) {
                        Some(progress) => "   "@ + progress,
                        None => "   (empty)"@,
                    },
                    muted(),
                ),
            ],
        ),
{
    let text = match browse_scan_progress_text(browse) {
        Some(progress) => cat2("   ", progress.as_str()),
        None => owned("   (empty)"),
    };
    bordered_line(Tone::Cyan, w, line1(text.as_str(), muted()))
}

fn body_lines(
    browse: &BrowseState,
    ctx: &ListContext,
    columns: &Vec<BrowseColumnCell>,
    w: usize,
    rows: usize,
) -> (r: Rows)
    requires
        browse.lists_entries() ==> browse.wf(),
    ensures
        r@ == list_body(browse, *ctx, columns@, w as int, rows as int),
{
    let creating = find_create_editor(browse, ctx.inline);
    let name_w: usize = name_column_width(columns);
    match &browse.error {
        Some(error) => {
            let text = cat2("   ", error.as_str());
            let mut out = Rows::of(
                bordered_line(Tone::Cyan, w, line1(text.as_str(), fg(Tone::Destructive))),
            );
            out.append(empty_lines(w, rows.saturating_sub(1)));
            return out;
        },
        None => {},
    }
    if browse.entries.len() == 0 {
        let first = match creating {
            Some(input) => render_browse_create_line(w, name_w, input),
            None => empty_list_line(browse, w),
        };
        let mut out = Rows::of(first);
        out.append(empty_lines(w, rows.saturating_sub(1)));
        return out;
    }
    let from: usize = browse.scroll_offset;
    let capacity: usize = effective_entry_capacity(rows, creating.is_some());
    let stop: usize = from.saturating_add(capacity);
    let to: usize = if stop <= browse.entries.len() { stop } else { browse.entries.len() };
    let mut out = entry_rows(browse, ctx, columns, w, from, to);
    let mut rendered: usize = to - from;
    match creating {
        Some(input) => {
            let here = rendered < rows;
            out.push_if(here, render_browse_create_line(w, name_w, input));
            if here {
                rendered += 1;
            }
        },
        None => {
            out.append(Rows::new());
        },
    }
    out.append(empty_lines(w, rows.saturating_sub(rendered)));
    out
}

/// The filter row, just above the bottom edge.
pub open spec fn filter_rows(browse: BrowseState, inner_w: int) -> RowsV {
    match browse.filter_input {
        Some(input) => seq![
            seq![sp("│"@, fg(Tone::Cyan)), sp(" / "@, fg(Tone::Cyan))] + field_spans(
                input,
                minus(inner_w, 4),
                editing_style(),
                selection_style(),
            ) + seq![sp(" "@, plain()), sp("│"@, fg(Tone::Cyan))],
        ],
        None => Seq::empty(),
    }
}

fn filter_lines(browse: &BrowseState, inner_w: usize) -> (r: Rows)
    ensures
        r@ == filter_rows(*browse, inner_w as int),
{
    match &browse.filter_input {
        Some(input) => {
            let mut line = line2("│", fg(Tone::Cyan), " / ", fg(Tone::Cyan));
            line.append(
                render_text_input_value_with_style(
                    input,
                    inner_w.saturating_sub(4),
                    editing_style(),
                    selection_style(),
                ),
            );
            line.append(line2(" ", plain(), "│", fg(Tone::Cyan)));
            Rows::of(line)
        },
        None => Rows::new(),
    }
}

/// The search panel: its text, then its controls.
pub open spec fn search_rows(browse: BrowseState, inner_w: int) -> RowsV {
    if browse.search.active {
        seq![search_input_row(browse, inner_w), search_control_line(browse, inner_w)]
    } else {
        Seq::empty()
    }
}

fn search_lines(browse: &BrowseState, inner_w: usize) -> (r: Rows)
    ensures
        r@ == search_rows(*browse, inner_w as int),
{
    let mut rows = Rows::new();
    if browse.search.active {
        rows.push(search_input_line(browse, inner_w));
        rows.push(controls_line(browse, inner_w));
    }
    rows
}

/// The list, line by line.
pub open spec fn list_lines(
    area: Rect,
    browse: &BrowseState,
    ctx: ListContext,
    columns: Seq<BrowseColumnCell>,
) -> RowsV {
    let w = area.width as int;
    let inner_w = minus(w, 2);
    seq![list_top(w, browse.search.active)] + search_rows(*browse, inner_w) + seq![
        header_row(w, columns, browse.sort_by, browse.sort_dir),
    ] + list_body(browse, ctx, columns, w, content_rows(area, *browse)) + filter_rows(
        *browse,
        inner_w,
    ) + seq![list_bottom(*browse, w)]
}

/// Row and column of the cursor of an open name editor, counted from the first
/// entry: that of a new entry, or that of the last edited entry shown.
pub open spec fn name_cursor(
    browse: BrowseState,
    inline: Option<&BrowseInlineEditState>,
    name_w: int,
    rows: int,
) -> Option<(int, int)> {
    if browse.error is Some {
        None
    } else {
        let creating = create_editor(browse, inline);
        if browse.entries@.len() == 0 {
            match creating {
                Some(input) => Some((0, input.cursor_column(name_w))),
                None => None,
            }
        } else {
            let from = browse.scroll_offset as int;
            let to = list_end(browse, entry_capacity(rows, creating is Some));
            match creating {
                Some(input) => if to - from < rows {
                    Some((to - from, input.cursor_column(name_w)))
                } else {
                    rename_cursor(browse, inline, name_w, from, to)
                },
                None => rename_cursor(browse, inline, name_w, from, to),
            }
        }
    }
}

/// Row and column of the cursor in the last of the entries `from` to `to` whose name
/// is edited.
pub open spec fn rename_cursor(
    browse: BrowseState,
    inline: Option<&BrowseInlineEditState>,
    name_w: int,
    from: int,
    to: int,
) -> Option<(int, int)>
    decreases to - from,
{
    if from < to <= browse.entries@.len() && from >= 0 {
        match rename_editor(browse.entries@[to - 1], inline) {
            Some(input) => Some((to - 1 - browse.scroll_offset, input.cursor_column(name_w))),
            None => rename_cursor(browse, inline, name_w, from, to - 1),
        }
    } else {
        None
    }
}

fn find_rename_cursor(
    browse: &BrowseState,
    inline: Option<&BrowseInlineEditState>,
    name_w: usize,
    from: usize,
    to: usize,
) -> (r: Option<(usize, u16)>)
    requires
        from == browse.scroll_offset,
        from <= to <= browse.entries@.len(),
    ensures
        match r {
            Some((row, col)) => rename_cursor(
                *browse,
                inline,
                name_w as int,
                from as int,
                to as int,
            ) == Some((row as int, col as int)),
            None => rename_cursor(
                *browse,
                inline,
                name_w as int,
                from as int,
                to as int,
            ) is None,
        },
{
    let mut i: usize = to;
    while i > from
        invariant
            from == browse.scroll_offset,
            from <= i <= to <= browse.entries@.len(),
            rename_cursor(*browse, inline, name_w as int, from as int, i as int) == rename_cursor(
                *browse,
                inline,
                name_w as int,
                from as int,
                to as int,
            ),
        decreases i,
    {
        match find_rename_editor(&browse.entries[i - 1], inline) {
            Some(input) => {
                return Some((i - 1 - from, inline_cursor_col(input, name_w)));
            },
            None => {},
        }
        i -= 1;
    }
    None
}

fn find_name_cursor(
    browse: &BrowseState,
    inline: Option<&BrowseInlineEditState>,
    name_w: usize,
    rows: usize,
) -> (r: Option<(usize, u16)>)
    requires
        browse.lists_entries() ==> browse.wf(),
    ensures
        match r {
            Some((row, col)) => name_cursor(*browse, inline, name_w as int, rows as int) == Some(
                (row as int, col as int),
            ),
            None => name_cursor(*browse, inline, name_w as int, rows as int) is None,
        },
{
    if browse.error.is_some() {
        return None;
    }
    let creating = find_create_editor(browse, inline);
    if browse.entries.len() == 0 {
        return match creating {
            Some(input) => Some((0, inline_cursor_col(input, name_w))),
            None => None,
        };
    }
    let from: usize = browse.scroll_offset;
    let capacity: usize = effective_entry_capacity(rows, creating.is_some());
    let stop: usize = from.saturating_add(capacity);
    let to: usize = if stop <= browse.entries.len() { stop } else { browse.entries.len() };
    match creating {
        Some(input) => {
            if to - from < rows {
                return Some((to - from, inline_cursor_col(input, name_w)));
            }
        },
        None => {},
    }
    find_rename_cursor(browse, inline, name_w, from, to)
}

/// Where the text cursor stands: in the search text, else in the filter, else in a
/// name being edited.
pub open spec fn list_cursor(
    area: Rect,
    browse: BrowseState,
    inline: Option<&BrowseInlineEditState>,
    name_w: int,
) -> Option<(int, int)> {
    let inner_w = minus(area.width as int, 2);
    let left = plus16(plus16(area.x as int, 1), 3);
    if browse.search.active && browse.search.input_focused {
        Some(
            (
                plus16(left, browse.search.input.cursor_column(minus(inner_w, 3))),
                plus16(area.y as int, 1),
            ),
        )
    } else {
        match browse.filter_input {
            Some(input) => Some(
                (
                    plus16(left, input.cursor_column(minus(inner_w, 4))),
                    minus(plus16(area.y as int, area.height as int), 2),
                ),
            ),
            None => match name_cursor(browse, inline, name_w, content_rows(area, browse)) {
                Some((row, col)) => Some(
                    (
                        plus16(plus16(plus16(area.x as int, 1), ROW_PREFIX as int), col),
                        plus16(entry_y(area, browse.search.active), low16(row)),
                    ),
                ),
                None => None,
            },
        }
    }
}

fn find_list_cursor(
    area: Rect,
    browse: &BrowseState,
    inline: Option<&BrowseInlineEditState>,
    name_w: usize,
    rows: usize,
) -> (r: Option<(u16, u16)>)
    requires
        browse.lists_entries() ==> browse.wf(),
        rows == content_rows(area, *browse),
    ensures
        match r {
            Some((x, y)) => list_cursor(area, *browse, inline, name_w as int) == Some(
                (x as int, y as int),
            ),
            None => list_cursor(area, *browse, inline, name_w as int) is None,
        },
{
    let inner_w: usize = (area.width as usize).saturating_sub(2);
    let left: u16 = area.x.saturating_add(1).saturating_add(3);
    if browse.search.active && browse.search.input_focused {
        let col: u16 = inline_cursor_col(&browse.search.input, inner_w.saturating_sub(3));
        return Some((left.saturating_add(col), browse_search_input_y(area)));
    }
    match &browse.filter_input {
        Some(input) => {
            let col: u16 = inline_cursor_col(input, inner_w.saturating_sub(4));
            let y: u16 = area.y.saturating_add(area.height).saturating_sub(2);
            Some((left.saturating_add(col), y))
        },
        None => match find_name_cursor(browse, inline, name_w, rows) {
            Some((row, col)) => {
                let x: u16 = area.x.saturating_add(1).saturating_add(4).saturating_add(col);
                let y: u16 = browse_entry_y_start(area, browse.search.active).saturating_add(
                    to_u16(row),
                );
                Some((x, y))
            },
            None => None,
        },
    }
}

/// The list is shown only in an area of at least this size.
pub open spec fn list_fits(area: Rect) -> bool {
    area.height >= 4 && area.width >= 20
}

/// The list on the screen.
pub open spec fn list_scene(
    area: Rect,
    browse: &BrowseState,
    ctx: ListContext,
    columns: Seq<BrowseColumnCell>,
) -> SceneV {
    let painted = seq![text_op(area, list_lines(area, browse, ctx, columns), plain())];
    match list_cursor(area, *browse, ctx.inline, name_width_from(columns, 0) as int) {
        Some((x, y)) => painted.push((OpV::Cursor { x: x as u16, y: y as u16 })),
        None => painted,
    }
}

/// Where the scrollbar of the list is.
pub open spec fn list_scrollbar(area: Rect, browse: BrowseState) -> Rect {
    Rect {
        x: minus(plus16(area.x as int, area.width as int), 2) as u16,
        y: entry_y(area, browse.search.active) as u16,
        width: 1,
        height: content_rows(area, browse) as u16,
    }
}

fn paint_list(
    area: Rect,
    browse: &BrowseState,
    ctx: &ListContext,
    columns: &Vec<BrowseColumnCell>,
    rows: usize,
) -> (r: Scene)
    requires
        browse.lists_entries() ==> browse.wf(),
        rows == content_rows(area, *browse),
    ensures
        r@ == list_scene(area, browse, *ctx, columns@),
{
    let w: usize = area.width as usize;
    let inner_w: usize = w.saturating_sub(2);
    let mut lines = Rows::of(list_top_line(w, browse.search.active));
    lines.append(search_lines(browse, inner_w));
    lines.append(Rows::of(render_header_row(w, columns, browse.sort_by, browse.sort_dir)));
    lines.append(body_lines(browse, ctx, columns, w, rows));
    lines.append(filter_lines(browse, inner_w));
    lines.append(Rows::of(list_bottom_line(browse, w)));
    let mut scene = Scene::new();
    scene.text(area, lines, plain());
    match find_list_cursor(area, browse, ctx.inline, name_column_width(columns), rows) {
        Some((x, y)) => {
            scene.cursor(x, y);
        },
        None => {},
    }
    proof {
        assert(scene@ =~= list_scene(area, browse, *ctx, columns@));
    }
    scene
}

/// Draws the file list: an edge with the search switch, the search panel, the column
/// headings, the entries, the filter, and the bottom edge. Where the list is drawn,
/// the place of its scrollbar is returned.
pub fn draw_browse_list(
    f: &mut Scene,
    area: Rect,
    browse: &BrowseState,
    inline_edit: Option<&BrowseInlineEditState>,
    hover: Option<TuiButton>,
    navigation_focus_active: bool,
) -> (r: Option<Rect>)
    requires
        list_fits(area) && browse.lists_entries() ==> browse.wf(),
    ensures
        r == if list_fits(area) {
            Some(list_scrollbar(area, *browse))
        } else {
            None
        },
        list_fits(area) ==> final(f)@ == old(f)@ + list_scene(
            area,
            browse,
            (ListContext { inline: inline_edit, hover, navigation_focus_active }),
            column_layout(minus(area.width as int, 2), browse.columns@),
        ),
        !list_fits(area) ==> final(f)@ == old(f)@,
{
    if area.height < 4 || area.width < 20 {
        return None;
    }
    let rows: usize = count_content_rows(area, browse);
    let columns = browse_column_layout((area.width as usize).saturating_sub(2), &browse.columns);
    let ctx = ListContext { inline: inline_edit, hover, navigation_focus_active };
    let scene = paint_list(area, browse, &ctx, &columns, rows);
    f.append(scene);
    Some(
        Rect {
            x: area.right().saturating_sub(2),
            y: browse_entry_y_start(area, browse.search.active),
            width: 1,
            height: to_u16(rows),
        },
    )
}

/// How far a scrollbar's thumb is from its top, and how long it is.
#[derive(Clone, Copy, Debug, PartialEq, Eq, Structural)]
pub struct ScrollbarMetrics {
    pub thumb_start: usize,
    pub thumb_len: usize,
}

/// `n` lines of one character.
pub open spec fn column_of(glyph: Seq<char>, style: Style, n: nat) -> RowsV {
    Seq::new(n, |i: int| seq![sp(glyph, style)])
}

fn glyph_column(glyph: &str, style: Style, n: usize) -> (r: Rows)
    ensures
        r@ == column_of(glyph@, style, n as nat),
{
    let mut rows = Rows::new();
    for i in 0..n
        invariant
            rows@ =~= column_of(glyph@, style, i as nat),
    {
        rows.push(line1(glyph, style));
    }
    rows
}

/// The thumb of a scrollbar.
pub open spec fn thumb_rect(area: Rect, metrics: ScrollbarMetrics) -> Rect {
    Rect {
        x: area.x,
        y: plus16(area.y as int, low16(metrics.thumb_start as int)) as u16,
        width: 1,
        height: low16(metrics.thumb_len as int) as u16,
    }
}

/// A scrollbar on the screen.
pub open spec fn scrollbar_scene(area: Rect, metrics: ScrollbarMetrics) -> SceneV {
    seq![
        text_op(area, column_of("░"@, dimmed(), area.height as nat), plain()),
        text_op(
            thumb_rect(area, metrics),
            column_of("█"@, fg(Tone::Title), metrics.thumb_len as nat),
            plain(),
        ),
    ]
}

/// Draws a scrollbar in `area`, where there is anything to scroll, and returns the
/// places of its track and its thumb.
pub fn draw_vertical_scrollbar(f: &mut Scene, area: Rect, metrics: Option<ScrollbarMetrics>) -> (r:
    Option<(Rect, Rect)>)
    ensures
        match metrics {
            Some(m) => r == Some((area, thumb_rect(area, m))) && final(f)@ == old(f)@
                + scrollbar_scene(area, m),
            None => r is None && final(f)@ == old(f)@,
        },
{
    match metrics {
        Some(m) => {
            let thumb = Rect {
                x: area.x,
                y: area.y.saturating_add(to_u16(m.thumb_start)),
                width: 1,
                height: to_u16(m.thumb_len),
            };
            let mut scene = Scene::new();
            scene.text(area, glyph_column("░", dimmed(), area.height as usize), plain());
            scene.text(thumb, glyph_column("█", fg(Tone::Title), m.thumb_len), plain());
            f.append(scene);
            Some((area, thumb))
        },
        None => None,
    }
}

/// The first `n` columns as buttons in the row of headings.
pub open spec fn column_hits(columns: Seq<BrowseColumnCell>, x0: int, y: u16, n: nat) -> Seq<Hit>
    decreases n,
{
    if n == 0 || n > columns.len() {
        Seq::empty()
    } else {
        column_hits(columns, x0, y, (n - 1) as nat).push(
            (
                TuiButton::BrowseColumn(columns[n - 1].column),
                Rect {
                    x: column_x(columns, x0, (n - 1) as nat) as u16,
                    y,
                    width: low16(columns[n - 1].width as int) as u16,
                    height: 1,
                },
            ),
        )
    }
}

/// Where column `n` starts.
pub open spec fn column_x(columns: Seq<BrowseColumnCell>, x0: int, n: nat) -> int
    decreases n,
{
    if n == 0 || n > columns.len() {
        x0
    } else {
        plus16(
            plus16(
                column_x(columns, x0, (n - 1) as nat),
                low16(columns[n - 1].width as int),
            ),
            1,
        )
    }
}

fn record_columns(columns: &Vec<BrowseColumnCell>, x0: u16, y: u16) -> (r: ButtonRenderMap)
    ensures
        r@ == column_hits(columns@, x0 as int, y, columns@.len()),
{
    let mut hits = ButtonRenderMap::new();
    let mut x: u16 = x0;
    for i in 0..columns.len()
        invariant
            x == column_x(columns@, x0 as int, i as nat),
            hits@ == column_hits(columns@, x0 as int, y, i as nat),
    {
        let w: u16 = to_u16(columns[i].width);
        hits.record_button(
            TuiButton::BrowseColumn(columns[i].column),
            Rect { x, y, width: w, height: 1 },
        );
        x = x.saturating_add(w).saturating_add(1);
    }
    hits
}

/// The first `n` search controls as buttons.
pub open spec fn control_hits(area: Rect, items: Seq<SearchItemV>, n: nat) -> Seq<Hit>
    decreases n,
{
    if n == 0 || n > items.len() {
        Seq::empty()
    } else {
        let item = items[n - 1];
        let front = control_hits(area, items, (n - 1) as nat);
        match inner_stretch(
            area,
            plus16(area.y as int, 2) as u16,
            item.x as int,
            item.width as int,
        ) {
            Some(place) => front.push((search_control_button(item.kind), place)),
            None => front,
        }
    }
}

/// The search panel as buttons.
pub open spec fn search_hits(area: Rect, browse: BrowseState, inner_w: int) -> Seq<Hit> {
    if browse.search.active {
        let items = control_row(inner_w, controls_of(browse));
        seq![
            (
                TuiButton::BrowseSearchInput,
                Rect {
                    x: plus16(area.x as int, 4) as u16,
                    y: plus16(area.y as int, 1) as u16,
                    width: low16(minus(inner_w, 3)) as u16,
                    height: 1,
                },
            ),
        ] + control_hits(area, items, items.len())
    } else {
        Seq::empty()
    }
}

fn record_search(area: Rect, browse: &BrowseState, inner_w: usize) -> (r: ButtonRenderMap)
    ensures
        r@ == search_hits(area, *browse, inner_w as int),
{
    let mut hits = ButtonRenderMap::new();
    if !browse.search.active {
        return hits;
    }
    hits.record_button(
        TuiButton::BrowseSearchInput,
        Rect {
            x: area.x.saturating_add(4),
            y: browse_search_input_y(area),
            width: to_u16(inner_w.saturating_sub(3)),
            height: 1,
        },
    );
    let y: u16 = browse_search_controls_y(area);
    let items = search_control_row_layout(
        inner_w,
        browse.search.recursive,
        browse.search.mode_label.as_str(),
        browse.search.sort_label.as_str(),
        browse.search.sort_dir,
        browse.search.audio_only,
    );
    let ghost shown = items_view(items@);
    let mut controls = ButtonRenderMap::new();
    for i in 0..items.len()
        invariant
            shown == items_view(items@),
            y == plus16(area.y as int, 2),
            controls@ == control_hits(area, shown, i as nat),
    {
        proof {
            assert(shown[i as int] == items@[i as int]@);
        }
        match clipped_inner_row_rect(area, y, items[i].x, items[i].width) {
            Some(place) => {
                controls.record_button(search_control_button(items[i].kind), place);
            },
            None => {},
        }
    }
    hits.append(controls);
    hits
}

/// The place of the row `row` of the entries, over the whole width.
pub open spec fn entry_rect(area: Rect, searching: bool, row: int) -> Rect {
    Rect {
        x: plus16(area.x as int, 1) as u16,
        y: plus16(entry_y(area, searching), low16(row)) as u16,
        width: low16(minus(area.width as int, 2)) as u16,
        height: 1,
    }
}

/// The place of the name in the row `row` of the entries.
pub open spec fn name_rect(area: Rect, searching: bool, row: int, name_w: int) -> Rect {
    Rect {
        x: plus16(plus16(area.x as int, 1), ROW_PREFIX as int) as u16,
        width: low16(name_w) as u16,
        ..entry_rect(area, searching, row)
    }
}

/// One entry as buttons: its row, on top of it its selection mark, and its name while
/// that is edited.
pub open spec fn entry_hits(
    area: Rect,
    browse: BrowseState,
    inline: Option<&BrowseInlineEditState>,
    name_w: int,
    row: int,
    i: int,
) -> Seq<Hit> {
    let place = entry_rect(area, browse.search.active, row);
    seq![
        (TuiButton::BrowseEntry(i as usize), place),
        (
            TuiButton::BrowseEntryGutter(i as usize),
            Rect {
                x: plus16(plus16(area.x as int, 1), ROW_CURSOR_W as int) as u16,
                width: ROW_GUTTER_W as u16,
                ..place
            },
        ),
    ] + hit_if(
        rename_editor(browse.entries@[i], inline) is Some,
        TuiButton::BrowseFileInlineEdit,
        name_rect(area, browse.search.active, row, name_w),
    )
}

/// The first `n` entries shown as buttons.
pub open spec fn entries_hits(
    area: Rect,
    browse: BrowseState,
    inline: Option<&BrowseInlineEditState>,
    name_w: int,
    n: nat,
) -> Seq<Hit>
    decreases n,
{
    if n == 0 {
        Seq::empty()
    } else {
        entries_hits(area, browse, inline, name_w, (n - 1) as nat) + entry_hits(
            area,
            browse,
            inline,
            name_w,
            n - 1,
            browse.scroll_offset + n - 1,
        )
    }
}

/// How many entries can be clicked: as many as are shown.
pub open spec fn clickable_entries(area: Rect, browse: BrowseState, creating: bool) -> int {
    let capacity = entry_capacity(content_rows(area, browse), creating);
    minus(list_end(browse, capacity), browse.scroll_offset as int)
}

/// The row in which a new entry is named: below the entries, and never below the
/// list.
pub open spec fn create_row_index(area: Rect, browse: BrowseState) -> int {
    least(clickable_entries(area, browse, true), content_rows(area, browse) - 1)
}

/// The row in which a new entry is named, as buttons.
pub open spec fn create_hits(area: Rect, browse: BrowseState, creating: bool, name_w: int) -> Seq<Hit> {
    if creating && content_rows(area, browse) > 0 {
        let row = create_row_index(area, browse);
        seq![
            (TuiButton::BrowseCreateRow, entry_rect(area, browse.search.active, row)),
            (
                TuiButton::BrowseFileInlineEdit,
                name_rect(area, browse.search.active, row, name_w),
            ),
        ]
    } else {
        Seq::empty()
    }
}

/// The list has a row in which a new entry is named.
pub open spec fn create_row_shown(area: Rect, browse: BrowseState, creating: bool) -> bool {
    &&& list_fits(area)
    &&& minus(area.width as int, 2) > ROW_PREFIX + ROW_TRAILING + MIN_NAME_W
    &&& creating
    &&& content_rows(area, browse) > 0
}

/// The switch of the search panel, at the right end of the top edge.
pub open spec fn search_toggle_rect(area: Rect, searching: bool) -> Rect {
    let w: u16 = if searching { 10 } else { 8 };
    Rect {
        x: minus(minus(plus16(area.x as int, area.width as int), w as int), 1) as u16,
        y: area.y,
        width: w,
        height: 1,
    }
}

/// The file list as buttons: the whole list for the scroll wheel; on top of it the
/// headings, the search switch and panel, the filter, and the entries.
pub open spec fn list_hits(
    area: Rect,
    browse: BrowseState,
    inline: Option<&BrowseInlineEditState>,
    creating: bool,
) -> Seq<Hit> {
    let inner_w = minus(area.width as int, 2);
    let all = seq![(TuiButton::BrowseList, area)];
    if inner_w <= ROW_PREFIX + ROW_TRAILING + MIN_NAME_W {
        all
    } else {
        let columns = column_layout(inner_w, browse.columns@);
        let name_w = name_width_from(columns, 0) as int;
        let header_y = plus16(
            plus16(area.y as int, 1),
            browse_search_rows(browse.search.active) as int,
        );
        all + column_hits(
            columns,
            plus16(plus16(area.x as int, 1), ROW_PREFIX as int),
            header_y as u16,
            columns.len(),
        ) + seq![
            (TuiButton::BrowseSearchToggle, search_toggle_rect(area, browse.search.active)),
        ] + search_hits(area, browse, inner_w) + hit_if(
            browse.filter_input is Some,
            TuiButton::BrowseFilterInput,
            Rect {
                x: plus16(area.x as int, 4) as u16,
                y: plus16(area.y as int, minus(area.height as int, 2)) as u16,
                width: low16(minus(inner_w, 4)) as u16,
                height: 1,
            },
        ) + create_hits(area, browse, creating, name_w) + entries_hits(
            area,
            browse,
            inline,
            name_w,
            clickable_entries(area, browse, creating) as nat,
        )
    }
}

fn record_entries(
    area: Rect,
    browse: &BrowseState,
    inline: Option<&BrowseInlineEditState>,
    name_w: usize,
    shown: usize,
) -> (r: ButtonRenderMap)
    requires
        shown > 0 ==> browse.scroll_offset + shown <= browse.entries@.len(),
    ensures
        r@ == entries_hits(area, *browse, inline, name_w as int, shown as nat),
{
    let mut hits = ButtonRenderMap::new();
    let y0: u16 = browse_entry_y_start(area, browse.search.active);
    let x: u16 = area.x.saturating_add(1);
    let w: u16 = to_u16((area.width as usize).saturating_sub(2));
    let total: usize = browse.entries.len();
    for row in 0..shown
        invariant
            total == browse.entries@.len(),
            shown > 0 ==> browse.scroll_offset + shown <= total,
            y0 == entry_y(area, browse.search.active),
            x == plus16(area.x as int, 1),
            w == low16(minus(area.width as int, 2)),
            hits@ == entries_hits(area, *browse, inline, name_w as int, row as nat),
    {
        let i: usize = browse.scroll_offset + row;
        let y: u16 = y0.saturating_add(to_u16(row));
        let mut own = ButtonRenderMap::new();
        own.record_button(TuiButton::BrowseEntry(i), Rect { x, y, width: w, height: 1 });
        own.record_button(
            TuiButton::BrowseEntryGutter(i),
            Rect { x: x.saturating_add(2), y, width: 2, height: 1 },
        );
        let editing = find_rename_editor(&browse.entries[i], inline).is_some();
        own.record_if(
            editing,
            TuiButton::BrowseFileInlineEdit,
            Rect { x: x.saturating_add(4), y, width: to_u16(name_w), height: 1 },
        );
        proof {
            assert(own@ =~= entry_hits(
                area,
                *browse,
                inline,
                name_w as int,
                row as int,
                i as int,
            ));
        }
        hits.append(own);
    }
    hits
}

fn record_create(area: Rect, browse: &BrowseState, creating: bool, name_w: usize) -> (r: ButtonRenderMap)
    requires
        creating && content_rows(area, *browse) > 0 ==> browse.wf(),
    ensures
        r@ == create_hits(area, *browse, creating, name_w as int),
{
    let mut hits = ButtonRenderMap::new();
    let rows: usize = count_content_rows(area, browse);
    if creating && rows > 0 {
        let capacity: usize = effective_entry_capacity(rows, true);
        let stop: usize = browse.scroll_offset.saturating_add(capacity);
        let end: usize = if stop <= browse.entries.len() { stop } else { browse.entries.len() };
        let shown: usize = end - browse.scroll_offset;
        let row: usize = if shown <= rows - 1 { shown } else { rows - 1 };
        let y: u16 = browse_entry_y_start(area, browse.search.active).saturating_add(to_u16(row));
        let x: u16 = area.x.saturating_add(1);
        hits.record_button(
            TuiButton::BrowseCreateRow,
            Rect { x, y, width: to_u16((area.width as usize).saturating_sub(2)), height: 1 },
        );
        hits.record_button(
            TuiButton::BrowseFileInlineEdit,
            Rect { x: x.saturating_add(4), y, width: to_u16(name_w), height: 1 },
        );
        proof {
            assert(hits@ =~= create_hits(area, *browse, creating, name_w as int));
        }
    }
    hits
}

/// Records the file list as buttons.
pub fn register_browse_buttons(
    buttons: &mut ButtonRenderMap,
    area: Rect,
    browse: &BrowseState,
    inline_edit: Option<&BrowseInlineEditState>,
    create_row_active: bool,
)
    requires
        create_row_shown(area, *browse, create_row_active) ==> browse.wf(),
    ensures
        final(buttons)@ == if list_fits(area) {
            old(buttons)@ + list_hits(area, *browse, inline_edit, create_row_active)
        } else {
            old(buttons)@
        },
{
    if area.height < 4 || area.width < 20 {
        return;
    }
    let inner_w: usize = (area.width as usize).saturating_sub(2);
    let mut hits = ButtonRenderMap::new();
    hits.record_button(TuiButton::BrowseList, area);
    if inner_w <= ROW_PREFIX + ROW_TRAILING + MIN_NAME_W {
        buttons.append(hits);
        return;
    }
    let columns = browse_column_layout(inner_w, &browse.columns);
    let name_w: usize = name_column_width(&columns);
    let header_y: u16 = browse_header_y(area, browse.search.active);
    hits.append(
        record_columns(&columns, area.x.saturating_add(1).saturating_add(4), header_y),
    );
    let toggle_w: u16 = if browse.search.active { 10 } else { 8 };
    let mut toggle = ButtonRenderMap::new();
    toggle.record_button(
        TuiButton::BrowseSearchToggle,
        Rect {
            x: area.x.saturating_add(area.width).saturating_sub(toggle_w).saturating_sub(1),
            y: area.y,
            width: toggle_w,
            height: 1,
        },
    );
    hits.append(toggle);
    hits.append(record_search(area, browse, inner_w));
    hits.record_if(
        browse.filter_input.is_some(),
        TuiButton::BrowseFilterInput,
        Rect {
            x: area.x.saturating_add(4),
            y: area.y.saturating_add(area.height.saturating_sub(2)),
            width: to_u16(inner_w.saturating_sub(4)),
            height: 1,
        },
    );
    hits.append(record_create(area, browse, create_row_active, name_w));
    let rows: usize = count_content_rows(area, browse);
    let capacity: usize = effective_entry_capacity(rows, create_row_active);
    let stop: usize = browse.scroll_offset.saturating_add(capacity);
    let end: usize = if stop <= browse.entries.len() { stop } else { browse.entries.len() };
    let shown: usize = end.saturating_sub(browse.scroll_offset);
    hits.append(record_entries(area, browse, inline_edit, name_w, shown));
    buttons.append(hits);
}

/// No entry can be clicked on the row in which a new entry is named, or below it.
pub proof fn create_row_is_below_the_entries(area: Rect, browse: BrowseState, row: int)
    requires
        browse.wf(),
        content_rows(area, browse) > 0,
        0 <= row < clickable_entries(area, browse, true),
    ensures
        row < create_row_index(area, browse) < content_rows(area, browse),
{
}

/// The row of the filter input, above the bottom edge.
pub open spec fn filter_y(area: Rect) -> int {
    plus16(area.y as int, minus(area.height as int, 2))
}

proof fn lemma_entries_above(
    area: Rect,
    browse: BrowseState,
    inline: Option<&BrowseInlineEditState>,
    name_w: int,
    n: nat,
)
    requires
        area.wf(),
        browse.filter_input is Some,
        n <= content_rows(area, browse),
    ensures
        forall|i: int|
            0 <= i < entries_hits(area, browse, inline, name_w, n).len() ==> (
            #[trigger] entries_hits(area, browse, inline, name_w, n)[i]).1.y < filter_y(area),
    decreases n,
{
    if n > 0 {
        lemma_entries_above(area, browse, inline, name_w, (n - 1) as nat);
        let front = entries_hits(area, browse, inline, name_w, (n - 1) as nat);
        let own = entry_hits(area, browse, inline, name_w, n - 1, browse.scroll_offset + n - 1);
        let all = entries_hits(area, browse, inline, name_w, n);
        assert(all == front + own);
        assert forall|i: int| 0 <= i < all.len() implies (#[trigger] all[i]).1.y < filter_y(
            area,
        ) by {
            if i < front.len() {
                assert(all[i] == front[i]);
            } else {
                assert(all[i] == own[i - front.len()]);
            }
        }
    }
}

/// Nothing that is recorded on top of the filter input lies on its row: no entry, and not
/// the row in which a new entry is named.
pub proof fn filter_row_is_kept(
    area: Rect,
    browse: BrowseState,
    inline: Option<&BrowseInlineEditState>,
    creating: bool,
    name_w: int,
)
    requires
        area.wf(),
        list_fits(area),
        browse.filter_input is Some,
    ensures
        ({
            let on_top = create_hits(area, browse, creating, name_w) + entries_hits(
                area,
                browse,
                inline,
                name_w,
                clickable_entries(area, browse, creating) as nat,
            );
            forall|i: int| 0 <= i < on_top.len() ==> (#[trigger] on_top[i]).1.y < filter_y(area)
        }),
{
    let n = clickable_entries(area, browse, creating) as nat;
    lemma_entries_above(area, browse, inline, name_w, n);
    let create = create_hits(area, browse, creating, name_w);
    let entries = entries_hits(area, browse, inline, name_w, n);
    let on_top = create + entries;
    assert forall|i: int| 0 <= i < on_top.len() implies (#[trigger] on_top[i]).1.y < filter_y(
        area,
    ) by {
        if i < create.len() {
            assert(on_top[i] == create[i]);
        } else {
            assert(on_top[i] == entries[i - create.len()]);
        }
    }
}

/// What a scrollbar is worked out from.
#[derive(Clone, Copy, Debug, PartialEq, Eq, Structural)]
pub struct ScrollRequest {
    /// How many there are to scroll through.
    pub total: usize,
    /// How many of them are shown at once.
    pub visible: usize,
    /// The first that is shown.
    pub offset: usize,
    /// The length of the track.
    pub track: usize,
}

/// What the scrollbar of the list is worked out from, where the list is drawn in `area`.
pub fn list_scroll_request(
    area: Rect,
    browse: &BrowseState,
    inline_edit: Option<&BrowseInlineEditState>,
) -> (r: Option<ScrollRequest>)
    ensures
        r == scrolls_list(area, *browse, inline_edit),
{
    if area.height < 4 || area.width < 20 {
        return None;
    }
    Some(
        ScrollRequest {
            total: browse.entries.len(),
            visible: browse_list_capacity(area, browse, inline_edit),
            offset: browse.scroll_offset,
            track: count_content_rows(area, browse),
        },
    )
}

/// What the scrollbar of the list is worked out from: the entries, those that fit, the
/// first that is shown, and the rows of the list.
pub open spec fn scrolls_list(
    area: Rect,
    browse: BrowseState,
    inline: Option<&BrowseInlineEditState>,
) -> Option<ScrollRequest> {
    if list_fits(area) {
        Some(
            ScrollRequest {
                total: browse.entries@.len() as usize,
                visible: list_capacity(area, browse, inline) as usize,
                offset: browse.scroll_offset,
                track: content_rows(area, browse) as usize,
            },
        )
    } else {
        None
    }
}

/// A text field behind " path: ".
pub open spec fn path_input_width(inner_width: int) -> int {
    let room = minus(minus(inner_width, shown_width(" path: "@) as int), 1);
    if room >= 1 {
        room
    } else {
        1
    }
}

/// The path while it is edited.
pub open spec fn path_input_spans(input: TextInputState, inner_width: int) -> LineV {
    seq![sp(" path: "@, fg(Tone::Blue))] + editing_spans(input, path_input_width(inner_width))
}

/// The cursor's column while the path is edited.
pub open spec fn path_cursor(input: TextInputState, inner_width: int) -> int {
    plus16(
        low16(shown_width(" path: "@) as int),
        input.cursor_column(path_input_width(inner_width)),
    )
}

/// The path while it is edited, and the cursor's column.
pub fn render_path_input_spans(input: &TextInputState, inner_width: usize) -> (r: (Line, u16))
    ensures
        r.0@ == path_input_spans(*input, inner_width as int),
        r.1 == path_cursor(*input, inner_width as int),
{
    let prefix_w: usize = width(" path: ");
    let room: usize = inner_width.saturating_sub(prefix_w).saturating_sub(1);
    let input_w: usize = if room >= 1 { room } else { 1 };
    let mut line = line1(" path: ", fg(Tone::Blue));
    line.append(render_inline_value_with_embedded_cursor(input, input_w));
    (line, to_u16(prefix_w).saturating_add(inline_cursor_col(input, input_w)))
}

/// Where the browser is, in words: a place in an archive, or a directory, with the
/// home directory shortened.
pub open spec fn place_text(browse: BrowseState, home: Seq<char>) -> Seq<char> {
    match browse.archive {
        Some(archive) => {
            let name = name_or_empty(archive.archive_path@);
            let mark = if archive.modified { " [modified]"@ } else { ""@ };
            name + ":/"@ + archive.inner_path@ + mark
        },
        None => match after_prefix(browse.current_dir@, home) {
            Some(rest) => if home.len() > 0 {
                "~"@ + rest
            } else {
                browse.current_dir@
            },
            None => browse.current_dir@,
        },
    }
}

fn text_of_place(browse: &BrowseState, home: &str) -> (r: String)
    ensures
        r@ == place_text(*browse, home@),
{
    match &browse.archive {
        Some(archive) => {
            let name = file_name_or_empty(archive.archive_path.as_str());
            let mark = if archive.modified { " [modified]" } else { "" };
            cat4(name.as_str(), ":/", archive.inner_path.as_str(), mark)
        },
        None => match strip_prefix(browse.current_dir.as_str(), home) {
            Some(rest) => if !home.is_empty() {
                cat2("~", rest.as_str())
            } else {
                owned(browse.current_dir.as_str())
            },
            None => owned(browse.current_dir.as_str()),
        },
    }
}

/// A label and a text, unless the text is off.
pub open spec fn suffix_text(shown: bool, label: Seq<char>, text: Seq<char>) -> Seq<char> {
    if shown {
        label + text
    } else {
        Seq::empty()
    }
}

/// The path bar: where the browser is, cut at the left, then the filter and the text
/// being jumped to.
pub open spec fn path_bar(browse: BrowseState, home: Seq<char>, w: int) -> LineV {
    let filter = suffix_text(browse.filter_text@.len() > 0, "   filter: "@, browse.filter_text@);
    let jump = suffix_text(browse.type_ahead_active, "   jump: "@, browse.type_ahead_buffer@);
    let suffix_w = plus(shown_width(filter) as int, shown_width(jump) as int);
    let max = minus(minus(minus(w, shown_width(" path: "@) as int), suffix_w), 1);
    seq![
        sp(" path: "@, muted()),
        sp(truncated_left(place_text(browse, home), max), bright()),
    ] + span_if(filter.len() > 0, sp(filter, fg(Tone::Amber))) + span_if(
        jump.len() > 0,
        sp(jump, fg(Tone::Cyan)),
    )
}

fn suffix_of(shown: bool, label: &str, text: &str) -> (r: String)
    ensures
        r@ == suffix_text(shown, label@, text@),
{
    if shown {
        cat2(label, text)
    } else {
        String::new()
    }
}

/// Truncate a text from the left to fit `max` columns, so that the end of a path
/// stays visible.
pub fn truncate_left(s: &str, max: usize) -> (r: String)
    ensures
        r@ == truncated_left(s@, max as int),
{
    crate::display_width::truncate_left(s, max)
}

fn path_bar_line(browse: &BrowseState, home: &str, w: usize) -> (r: Line)
    ensures
        r@ == path_bar(*browse, home@, w as int),
{
    let filter = suffix_of(
        !browse.filter_text.as_str().is_empty(),
        "   filter: ",
        browse.filter_text.as_str(),
    );
    let jump = suffix_of(
        browse.type_ahead_active,
        "   jump: ",
        browse.type_ahead_buffer.as_str(),
    );
    let suffix_w: usize = width(filter.as_str()).saturating_add(width(jump.as_str()));
    let max: usize = w.saturating_sub(width(" path: ")).saturating_sub(suffix_w).saturating_sub(1);
    let place = truncate_left(text_of_place(browse, home).as_str(), max);
    let mut line = line2(" path: ", muted(), place.as_str(), bright());
    append_span_if(
        &mut line,
        !filter.as_str().is_empty(),
        filter.as_str(),
        fg(Tone::Amber),
    );
    append_span_if(&mut line, !jump.as_str().is_empty(), jump.as_str(), fg(Tone::Cyan));
    line
}

/// The path bar on the screen.
pub open spec fn path_scene(area: Rect, browse: BrowseState, home: Seq<char>) -> SceneV {
    let w = area.width as int;
    match browse.path_input {
        Some(input) => {
            let painted = seq![line_op(area, path_input_spans(input, w))];
            let x = plus16(area.x as int, path_cursor(input, w));
            if x < plus16(area.x as int, area.width as int) {
                painted.push((OpV::Cursor { x: x as u16, y: area.y }))
            } else {
                painted
            }
        },
        None => seq![line_op(area, path_bar(browse, home, w))],
    }
}

/// Draws the path bar.
pub fn draw_breadcrumb_inline(f: &mut Scene, area: Rect, browse: &BrowseState, home: &str)
    ensures
        final(f)@ == if area.width >= 10 {
            old(f)@ + path_scene(area, *browse, home@)
        } else {
            old(f)@
        },
{
    if area.width < 10 {
        return;
    }
    let w: usize = area.width as usize;
    let mut scene = Scene::new();
    match &browse.path_input {
        Some(input) => {
            let (line, col) = render_path_input_spans(input, w);
            scene.line(area, line);
            let x: u16 = area.x.saturating_add(col);
            if x < area.x.saturating_add(area.width) {
                scene.cursor(x, area.y);
            }
        },
        None => {
            scene.line(area, path_bar_line(browse, home, w));
        },
    }
    proof {
        assert(scene@ =~= path_scene(area, *browse, home@));
    }
    f.append(scene);
}

/// A text cut at its right to fit `max` columns.
pub fn truncate_to(s: &str, max: usize) -> (r: String)
    ensures
        r@ == crate::display_width::truncated_right(s@, max as int),
{
    crate::display_width::truncate_right(s, max)
}

/// A text of the disc overlay, cut at its right to fit `max` columns.
pub fn truncate_for_disc_overlay(s: &str, max: usize) -> (r: String)
    ensures
        r@ == crate::display_width::truncated_right(s@, max as int),
{
    truncate_to(s, max)
}

/// A click on the selection mark of an entry goes to the mark, not to the entry.
pub proof fn selection_mark_is_on_top(
    area: Rect,
    browse: BrowseState,
    inline: Option<&BrowseInlineEditState>,
    name_w: int,
    row: int,
    i: int,
    x: int,
)
    requires
        0 <= i < browse.entries@.len(),
        area.x + 5 <= 65535,
        area.x + 3 <= x < area.x + 5,
        entry_rect(area, browse.search.active, row).y < 65535,
    ensures
        ({
            let hits = entry_hits(area, browse, inline, name_w, row, i);
            let y = entry_rect(area, browse.search.active, row).y as int;
            crate::button_map::topmost(hits, x, y, hits.len()) == Some(
                TuiButton::BrowseEntryGutter(i as usize),
            )
        }),
{
    let hits = entry_hits(area, browse, inline, name_w, row, i);
    let y = entry_rect(area, browse.search.active, row).y as int;
    reveal_with_fuel(crate::button_map::topmost, 4);
    assert(hits[1].1.holds(x, y));
    if hits.len() == 3 {
        assert(!hits[2].1.holds(x, y));
    }
}

} // verus!
