//! The file list: which entry is painted on which row, and what a click there goes to.

use crate::browse::{
    entry_probe_index, known_info, BrowseEntry, BrowseInlineEditState, BrowseState, CachedInfo,
    EntryProbe,
};
use crate::button_map::{BrowseColumn, SortDir, TuiButton};
use crate::display_width::{padded, shown_width};
use crate::draw_browse::columns::{
    column_layout, column_right_aligned, column_text, heading, name_width_from, BrowseColumnCell,
    MIN_NAME_W, ROW_PREFIX, ROW_TRAILING,
};
use crate::draw_browse::list::{
    cells_upto, clickable_entries, create_editor, entries_hits, entry_hits, exact_width,
    filter_rows, header_row, heading_spans, list_body, list_entry, list_fits, list_hits, list_lines,
    list_scene, normalized, rename_editor, search_rows, trimmed_spans, with_background, EntryRow,
    ListContext,
};
use crate::geometry::Rect;
use crate::scene::LineV;
use crate::size::size_text;
use crate::style::Tone;
use crate::text::{minus, trimmed};
use vstd::prelude::*;

verus! {

/// How many rows a list pane has for its entries: what the edges, the headings, an open search
/// panel, an open filter and the naming of a new entry leave.
pub open spec fn rows_for_entries(area: Rect, browse: BrowseState, naming: bool) -> int {
    let taken = 3 + (if browse.search.active { 2int } else { 0 }) + (if browse.filter_input is Some {
        1int
    } else {
        0
    }) + (if naming { 1int } else { 0 });
    if area.height > taken {
        area.height - taken
    } else {
        0
    }
}

/// How many entries are shown: as many as there are from the scroll position on, and have a row.
pub open spec fn entries_shown(area: Rect, browse: BrowseState, naming: bool) -> int {
    let left = browse.entries@.len() - browse.scroll_offset;
    if left < rows_for_entries(area, browse, naming) {
        left
    } else {
        rows_for_entries(area, browse, naming)
    }
}

/// The screen row of the first entry.
pub open spec fn first_row(area: Rect, browse: BrowseState) -> int {
    area.y + 2 + if browse.search.active { 2int } else { 0 }
}

proof fn lemma_entries_hits(
    area: Rect,
    browse: BrowseState,
    inline: Option<&BrowseInlineEditState>,
    name_w: int,
    n: nat,
    k: int,
) -> (h: int)
    requires
        0 <= k < n,
    ensures
        0 <= h < entries_hits(area, browse, inline, name_w, n).len(),
        entries_hits(area, browse, inline, name_w, n)[h] == entry_hits(
            area,
            browse,
            inline,
            name_w,
            k,
            browse.scroll_offset + k,
        )[0],
    decreases n,
{
    let front = entries_hits(area, browse, inline, name_w, (n - 1) as nat);
    let all = entries_hits(area, browse, inline, name_w, n);
    if k == n - 1 {
        assert(all[front.len() as int] == entry_hits(
            area,
            browse,
            inline,
            name_w,
            k,
            browse.scroll_offset + k,
        )[0]);
        front.len() as int
    } else {
        let h = lemma_entries_hits(area, browse, inline, name_w, (n - 1) as nat, k);
        assert(all[h] == front[h]);
        h
    }
}

/// Row `k` of the list is that of the entry `k` behind the scroll position: this entry is painted
/// there, and a click there goes to it.
pub proof fn entry_is_clicked_where_it_is_painted(
    area: Rect,
    browse: BrowseState,
    ctx: ListContext,
    k: int,
) -> (h: int)
    requires
        area.wf(),
        list_fits(area),
        area.width >= 20,
        minus(area.width as int, 2) > ROW_PREFIX + ROW_TRAILING + MIN_NAME_W,
        browse.lists_entries(),
        browse.wf(),
        0 <= k < entries_shown(area, browse, create_editor(browse, ctx.inline) is Some),
    ensures
        ({
            let naming = create_editor(browse, ctx.inline) is Some;
            let columns = column_layout(area.width - 2, browse.columns@);
            let painted = list_scene(area, &browse, ctx, columns)[0];
            let lines = painted->Text_rows;
            let hits = list_hits(area, browse, ctx.inline, naming);
            let i = browse.scroll_offset + k;
            &&& painted is Text
            &&& painted->Text_area == area
            &&& lines.len() == area.height
            &&& lines[first_row(area, browse) - area.y + k] == list_entry(
                &browse,
                ctx,
                columns,
                area.width as int,
                i,
            )
            &&& 0 <= h < hits.len()
            &&& hits[h].0 == TuiButton::BrowseEntry(i as usize)
            &&& hits[h].1.y == first_row(area, browse) + k
            &&& hits[h].1.x == area.x + 1
            &&& hits[h].1.width == area.width - 2
            &&& hits[h].1.height == 1
        }),
{
    let naming = create_editor(browse, ctx.inline) is Some;
    let columns = column_layout(area.width - 2, browse.columns@);
    lemma_shown(area, browse, naming);
    lemma_painted(area, browse, ctx, columns, k);
    lemma_hit(area, browse, ctx.inline, naming, k)
}

proof fn lemma_shown(area: Rect, browse: BrowseState, naming: bool)
    requires
        browse.wf(),
    ensures
        clickable_entries(area, browse, naming) == entries_shown(area, browse, naming),
        entries_shown(area, browse, naming) >= 0,
{
    assert(browse.entries@.len() == browse.entries.len());
}

proof fn lemma_painted(
    area: Rect,
    browse: BrowseState,
    ctx: ListContext,
    columns: Seq<BrowseColumnCell>,
    k: int,
)
    requires
        list_fits(area),
        browse.lists_entries(),
        browse.wf(),
        0 <= k < entries_shown(area, browse, create_editor(browse, ctx.inline) is Some),
    ensures
        ({
            let lines = list_lines(area, &browse, ctx, columns);
            &&& lines.len() == area.height
            &&& lines[first_row(area, browse) - area.y + k] == list_entry(
                &browse,
                ctx,
                columns,
                area.width as int,
                browse.scroll_offset + k,
            )
        }),
{
    let w = area.width as int;
    let naming = create_editor(browse, ctx.inline) is Some;
    let rows = crate::draw_browse::list::content_rows(area, browse);
    lemma_shown(area, browse, naming);
    let body = list_body(&browse, ctx, columns, w, rows);
    lemma_body(browse, ctx, columns, w, rows, k);
    let head = first_row(area, browse) - area.y;
    let above = seq![crate::draw_browse::list::list_top(w, browse.search.active)] + search_rows(
        browse,
        minus(w, 2),
    ) + seq![header_row(w, columns, browse.sort_by, browse.sort_dir)];
    let below = filter_rows(browse, minus(w, 2)) + seq![
        crate::draw_browse::list::list_bottom(browse, w),
    ];
    let lines = list_lines(area, &browse, ctx, columns);
    assert(above.len() == head);
    assert(lines =~= above + body + below);
    assert(lines[head + k] == body[k]);
}

proof fn lemma_body(
    browse: BrowseState,
    ctx: ListContext,
    columns: Seq<BrowseColumnCell>,
    w: int,
    rows: int,
    k: int,
)
    requires
        browse.lists_entries(),
        browse.wf(),
        rows >= 0,
        ({
            let capacity = crate::draw_browse::list::entry_capacity(
                rows,
                create_editor(browse, ctx.inline) is Some,
            );
            0 <= k < crate::draw_browse::list::list_end(browse, capacity) - browse.scroll_offset
        }),
    ensures
        list_body(&browse, ctx, columns, w, rows).len() == rows,
        list_body(&browse, ctx, columns, w, rows)[k] == list_entry(
            &browse,
            ctx,
            columns,
            w,
            browse.scroll_offset + k,
        ),
{
    assert(browse.entries@.len() == browse.entries.len());
}

proof fn lemma_hit(
    area: Rect,
    browse: BrowseState,
    inline: Option<&BrowseInlineEditState>,
    naming: bool,
    k: int,
) -> (h: int)
    requires
        area.wf(),
        list_fits(area),
        minus(area.width as int, 2) > ROW_PREFIX + ROW_TRAILING + MIN_NAME_W,
        browse.wf(),
        0 <= k < entries_shown(area, browse, naming),
    ensures
        ({
            let hits = list_hits(area, browse, inline, naming);
            &&& 0 <= h < hits.len()
            &&& hits[h].0 == TuiButton::BrowseEntry((browse.scroll_offset + k) as usize)
            &&& hits[h].1.y == first_row(area, browse) + k
            &&& hits[h].1.x == area.x + 1
            &&& hits[h].1.width == area.width - 2
            &&& hits[h].1.height == 1
        }),
{
    lemma_shown(area, browse, naming);
    let columns = column_layout(area.width - 2, browse.columns@);
    let name_w = name_width_from(columns, 0) as int;
    let n = clickable_entries(area, browse, naming) as nat;
    let h = lemma_entries_hits(area, browse, inline, name_w, n, k);
    let hits = list_hits(area, browse, inline, naming);
    let entries = entries_hits(area, browse, inline, name_w, n);
    let at = hits.len() - entries.len() + h;
    assert(hits[at] == entries[h]);
    at
}

/// The selected entry is painted wherever the list is scrolled so that it has a row.
pub proof fn selected_entry_is_painted(area: Rect, browse: BrowseState, ctx: ListContext)
    requires
        area.wf(),
        list_fits(area),
        minus(area.width as int, 2) > ROW_PREFIX + ROW_TRAILING + MIN_NAME_W,
        browse.lists_entries(),
        browse.wf(),
        browse.scroll_offset <= browse.selected_index < browse.entries@.len(),
        browse.selected_index < browse.scroll_offset + rows_for_entries(
            area,
            browse,
            create_editor(browse, ctx.inline) is Some,
        ),
    ensures
        ({
            let columns = column_layout(area.width - 2, browse.columns@);
            let lines = list_scene(area, &browse, ctx, columns)[0]->Text_rows;
            let row = first_row(area, browse) - area.y + browse.selected_index
                - browse.scroll_offset;
            0 <= row < lines.len() && lines[row] == list_entry(
                &browse,
                ctx,
                columns,
                area.width as int,
                browse.selected_index as int,
            )
        }),
{
    entry_is_clicked_where_it_is_painted(
        area,
        browse,
        ctx,
        browse.selected_index - browse.scroll_offset,
    );
}

/// A click on a row goes to no other entry than the one painted there: every entry that can be
/// clicked is one that is shown, and lies on its own row.
pub proof fn every_entry_button_is_on_its_row(
    area: Rect,
    browse: BrowseState,
    inline: Option<&BrowseInlineEditState>,
    name_w: int,
    n: nat,
    h: int,
    i: usize,
)
    requires
        area.wf(),
        n <= area.height,
        first_row(area, browse) + n <= area.y + area.height,
        browse.scroll_offset + n <= browse.entries@.len() <= usize::MAX,
        0 <= h < entries_hits(area, browse, inline, name_w, n).len(),
        entries_hits(area, browse, inline, name_w, n)[h].0 == TuiButton::BrowseEntry(i)
            || entries_hits(area, browse, inline, name_w, n)[h].0 == TuiButton::BrowseEntryGutter(
            i,
        ),
    ensures
        browse.scroll_offset <= i < browse.scroll_offset + n,
        entries_hits(area, browse, inline, name_w, n)[h].1.y == first_row(area, browse) + i
            - browse.scroll_offset,
    decreases n,
{
    if n > 0 {
        let front = entries_hits(area, browse, inline, name_w, (n - 1) as nat);
        let all = entries_hits(area, browse, inline, name_w, n);
        let own = entry_hits(area, browse, inline, name_w, n - 1, browse.scroll_offset + n - 1);
        if h < front.len() {
            assert(all[h] == front[h]);
            every_entry_button_is_on_its_row(area, browse, inline, name_w, (n - 1) as nat, h, i);
        } else {
            assert(all[h] == own[h - front.len()]);
        }
    }
}

/// What stands in a row of columns is shown as far as it fits before the right border.
pub proof fn what_fits_is_shown(spans: LineV, target: int, k: int)
    requires
        0 <= k < spans.len() - 1,
        exact_width(spans.take(k)) < target - shown_width(spans.last().text),
        exact_width(spans.take(k + 1)) <= target - shown_width(spans.last().text),
    ensures
        normalized(spans, target).len() > k,
        normalized(spans, target)[k] == spans[k],
{
    let body = spans.drop_last();
    let room = target - shown_width(spans.last().text);
    assert(spans.take(k) =~= body.take(k));
    assert(spans.take(k + 1) =~= body.take(k + 1));
    assert(body.skip(0) =~= body);
    assert(body.skip(0).take(k) =~= body.take(k));
    assert(body.skip(0).take(k + 1) =~= body.take(k + 1));
    lemma_kept(body, 0, room, k);
}

proof fn lemma_kept(spans: LineV, i: int, remaining: int, k: int)
    requires
        0 <= i <= i + k < spans.len(),
        exact_width(spans.skip(i).take(k)) < remaining,
        exact_width(spans.skip(i).take(k + 1)) <= remaining,
        k >= 0,
    ensures
        trimmed_spans(spans, i, remaining).len() > k,
        trimmed_spans(spans, i, remaining)[k] == spans[i + k],
    decreases k,
{
    let rest = spans.skip(i);
    let w = shown_width(spans[i].text) as int;
    lemma_natural(rest.take(k));
    if k == 0 {
        assert(rest.take(1).skip(1) =~= Seq::empty());
        assert(exact_width(rest.take(1).skip(1)) == 0);
        assert(rest.take(1)[0] == spans[i]);
    } else {
        assert(rest.take(k).skip(1) =~= spans.skip(i + 1).take(k - 1));
        assert(rest.take(k + 1).skip(1) =~= spans.skip(i + 1).take(k));
        assert(rest.take(k)[0] == spans[i]);
        assert(rest.take(k + 1)[0] == spans[i]);
        lemma_natural(spans.skip(i + 1).take(k - 1));
        lemma_kept(spans, i + 1, remaining - w, k - 1);
    }
}

proof fn lemma_natural(line: LineV)
    ensures
        exact_width(line) >= 0,
    decreases line.len(),
{
    if line.len() > 0 {
        lemma_natural(line.skip(1));
    }
}

proof fn lemma_cells(border: crate::style::Tone, row: EntryRow, columns: Seq<BrowseColumnCell>, n: nat)
    requires
        n <= columns.len(),
        row.rename is None,
    ensures
        cells_upto(border, row, columns, n).len() == if n == 0 { 4nat } else { 3 + 2 * n },
        forall|k: int|
            0 <= k < 4 ==> #[trigger] cells_upto(border, row, columns, n)[k] == cells_upto(
                border,
                row,
                columns,
                0,
            )[k],
        forall|j: int|
            0 <= j < n ==> (#[trigger] cells_upto(border, row, columns, n)[4 + 2 * j]).text
                == padded(
                column_text(*row.entry, columns[j].column, row.cached),
                columns[j].width as int,
                columns[j].column != BrowseColumn::Name && column_right_aligned(columns[j].column),
            ),
    decreases n,
{
    if n > 0 {
        lemma_cells(border, row, columns, (n - 1) as nat);
        let front = cells_upto(border, row, columns, (n - 1) as nat);
        let all = cells_upto(border, row, columns, n);
        assert(forall|k: int| 0 <= k < front.len() ==> #[trigger] all[k] == front[k]);
        assert forall|j: int| 0 <= j < n implies (#[trigger] all[4 + 2 * j]).text == padded(
            column_text(*row.entry, columns[j].column, row.cached),
            columns[j].width as int,
            columns[j].column != BrowseColumn::Name && column_right_aligned(columns[j].column),
        ) by {
            if j < n - 1 {
                assert(all[4 + 2 * j] == front[4 + 2 * j]);
            }
        }
    }
}

/// The row of an entry before it is cut to the width of the pane.
pub open spec fn uncut(row: EntryRow, columns: Seq<BrowseColumnCell>) -> LineV {
    cells_upto(crate::style::Tone::Cyan, row, columns, columns.len())
}

/// The row of entry `i` points at it exactly where it is the selected one and the keyboard is in
/// the list, marks it exactly where it is among the entries chosen, and gives its own value in
/// each column; all of this as far as the pane is wide enough.
pub proof fn row_describes_its_entry(
    browse: &BrowseState,
    ctx: ListContext,
    columns: Seq<BrowseColumnCell>,
    w: int,
    i: int,
    k: int,
)
    requires
        0 <= i < browse.entries@.len(),
        columns.len() > 0,
        rename_editor(browse.entries@[i], ctx.inline) is None,
        0 <= k < 3 + 2 * columns.len(),
        ({
            let spans = uncut(row_of(browse, ctx, i), columns);
            let room = w - shown_width("│"@);
            exact_width(spans.take(k)) < room && exact_width(spans.take(k + 1)) <= room
        }),
    ensures
        ({
            let row = list_entry(browse, ctx, columns, w, i);
            let entry = browse.entries@[i];
            &&& row.len() > k
            &&& (k == 1 ==> row[k].text == if i == browse.selected_index
                && ctx.navigation_focus_active && browse.files_navigation_active {
                "▸ "@
            } else {
                "  "@
            })
            &&& (k == 2 ==> row[k].text == if exists|j: int|
                0 <= j < browse.multi_selected@.len() && (#[trigger] browse.multi_selected@[j])@
                    == entry.path@ {
                "●"@
            } else {
                " "@
            })
            &&& forall|j: int|
                0 <= j < columns.len() && k == 4 + 2 * j ==> row[k].text == padded(
                    #[trigger] column_text(
                        entry,
                        columns[j].column,
                        known_info(browse, entry),
                    ),
                    columns[j].width as int,
                    columns[j].column != BrowseColumn::Name && column_right_aligned(
                        columns[j].column,
                    ),
                )
        }),
{
    let row = row_of(browse, ctx, i);
    let n = columns.len();
    let spans = uncut(row, columns);
    lemma_cells(crate::style::Tone::Cyan, row, columns, n);
    let whole = spans.push(
        crate::scene::sp(crate::text::blanks(ROW_TRAILING as nat), crate::style::plain()),
    ).push(crate::scene::sp("│"@, crate::style::fg(crate::style::Tone::Cyan)));
    assert(whole.take(k) =~= spans.take(k));
    assert(whole.take(k + 1) =~= spans.take(k + 1));
    what_fits_is_shown(whole, w, k);
    assert(list_entry(browse, ctx, columns, w, i)[k].text == spans[k].text);
}

/// What the row of entry `i` is drawn from.
pub open spec fn row_of<'a>(browse: &'a BrowseState, ctx: ListContext<'a>, i: int) -> EntryRow<'a> {
    let is_selected = i == browse.selected_index && ctx.navigation_focus_active
        && browse.files_navigation_active;
    EntryRow {
        entry: &browse.entries@[i],
        cached: known_info(browse, browse.entries@[i]),
        rename: rename_editor(browse.entries@[i], ctx.inline),
        is_selected,
        is_checked: crate::browse::listed(browse.multi_selected@, browse.entries@[i].path@),
        is_range_preview: browse.in_range_preview(i),
        is_hovered: !is_selected && ctx.hover == Some(TuiButton::BrowseEntry(i as usize)),
    }
}

/// What an entry has in its columns: its own name, date and type; its size unless it is a
/// directory; and in the other columns what a probe found of it, or a dash.
pub proof fn columns_give_the_values_of_the_entry(entry: BrowseEntry, info: &CachedInfo)
    ensures
        column_text(entry, BrowseColumn::Name, Some(info)) == entry.name@,
        column_text(entry, BrowseColumn::Date, Some(info)) == entry.date_label@,
        column_text(entry, BrowseColumn::Type, Some(info)) == entry.type_label@,
        entry.kind is Directory || entry.kind is ParentDir ==> column_text(
            entry,
            BrowseColumn::Size,
            Some(info),
        ) == ""@,
        !(entry.kind is Directory || entry.kind is ParentDir) ==> column_text(
            entry,
            BrowseColumn::Size,
            Some(info),
        ) == size_text(entry.size as nat),
        entry.kind is AudioFile && trimmed(info.source.format_name@).len() > 0 ==> column_text(
            entry,
            BrowseColumn::Format,
            Some(info),
        ) == info.source.format_name@,
        entry.kind is AudioFile && trimmed(info.source.codec_display@).len() > 0 ==> column_text(
            entry,
            BrowseColumn::Codec,
            Some(info),
        ) == info.source.codec_display@,
        entry.kind is AudioFile && info.source.sample_rate > 0 ==> column_text(
            entry,
            BrowseColumn::SampleRate,
            Some(info),
        ) == info.source.sample_rate_display@,
        entry.kind is AudioFile && info.source.channels > 0 ==> column_text(
            entry,
            BrowseColumn::Channels,
            Some(info),
        ) == info.source.channels_display@,
        entry.kind is AudioFile && info.source.duration_display is Some ==> column_text(
            entry,
            BrowseColumn::Duration,
            Some(info),
        ) == info.source.duration_display->0@,
        entry.kind is AudioFile && info.metadata.artist is Some && trimmed(
            info.metadata.artist->0@,
        ).len() > 0 ==> column_text(entry, BrowseColumn::Artist, Some(info))
            == info.metadata.artist->0@,
        entry.kind is AudioFile && info.metadata.album is Some && trimmed(
            info.metadata.album->0@,
        ).len() > 0 ==> column_text(entry, BrowseColumn::Album, Some(info))
            == info.metadata.album->0@,
        forall|column: BrowseColumn|
            #![trigger column_text(entry, column, None)]
            (!(entry.kind is AudioFile) ==> column_text(entry, column, Some(info)) == column_text(
                entry,
                column,
                None,
            )) && (column == BrowseColumn::Artist || column == BrowseColumn::Album || column
                == BrowseColumn::Codec || column == BrowseColumn::Format || column
                == BrowseColumn::SampleRate || column == BrowseColumn::Channels || column
                == BrowseColumn::Duration ==> column_text(entry, column, None) == "—"@),
{
}

proof fn lemma_probe(probes: Seq<EntryProbe>, path: Seq<char>, from: int)
    requires
        0 <= from <= probes.len(),
    ensures
        from <= entry_probe_index(probes, path, from) <= probes.len(),
        entry_probe_index(probes, path, from) < probes.len() ==> probes[entry_probe_index(
            probes,
            path,
            from,
        )].path@ == path,
        forall|j: int|
            from <= j < entry_probe_index(probes, path, from) ==> (#[trigger] probes[j]).path@ != path,
    decreases probes.len() - from,
{
    if from < probes.len() && probes[from].path@ != path {
        lemma_probe(probes, path, from + 1);
    }
}

/// What is known of an entry comes from a probe of that very entry, and is known wherever there
/// is one.
pub proof fn probe_is_that_of_the_entry(browse: &BrowseState, entry: BrowseEntry)
    ensures
        known_info(browse, entry) matches Some(info) ==> exists|j: int|
            0 <= j < browse.probes@.len() && (#[trigger] browse.probes@[j]).path@ == entry.path@
                && browse.probes@[j].info == *info,
        known_info(browse, entry) is None ==> forall|j: int|
            0 <= j < browse.probes@.len() ==> (#[trigger] browse.probes@[j]).path@ != entry.path@,
{
    lemma_probe(browse.probes@, entry.path@, 0);
}

/// The name of an entry is edited in its row exactly where the open editor renames that entry.
pub proof fn only_the_renamed_entry_is_edited(
    entry: BrowseEntry,
    inline: Option<&BrowseInlineEditState>,
)
    ensures
        rename_editor(entry, inline) matches Some(input) ==> inline is Some && input
            == inline->0.input && inline->0.target is Rename && inline->0.target->Rename_path@
            == entry.path@,
        inline is Some && inline->0.target is Rename && inline->0.target->Rename_path@
            == entry.path@ ==> rename_editor(entry, inline) is Some,
{
}

/// While the list cannot be shown, the error stands in its place; while it is empty, that it is
/// empty, or what is being read.
pub proof fn list_says_why_it_shows_no_entries(
    area: Rect,
    browse: &BrowseState,
    ctx: ListContext,
    columns: Seq<BrowseColumnCell>,
)
    requires
        list_fits(area),
        area.height >= 5 || !browse.search.active,
        !browse.lists_entries(),
        create_editor(*browse, ctx.inline) is None,
    ensures
        ({
            let row = list_lines(area, browse, ctx, columns)[2 + if browse.search.active {
                2int
            } else {
                0
            }];
            &&& row.len() == 4
            &&& (browse.error matches Some(error) ==> row[1].text == "   "@ + error@)
            &&& (browse.error is None && !browse.scan_pending ==> row[1].text == "   (empty)"@)
            &&& (browse.error is None && browse.scan_pending ==> ("   "@ + "Reading "@).is_prefix_of(
                row[1].text,
            ))
        }),
{
    let lines = list_lines(area, browse, ctx, columns);
    let rows = crate::draw_browse::list::content_rows(area, *browse);
    let body = list_body(browse, ctx, columns, area.width as int, rows);
    let at = 2 + if browse.search.active { 2int } else { 0 };
    assert(lines[at] == body[0]);
    if browse.error is None && browse.scan_pending {
        let text = body[0][1].text;
        assert("   "@ + "Reading "@ =~= text.subrange(0, ("   "@ + "Reading "@).len() as int));
    }
}

proof fn lemma_headings(
    columns: Seq<BrowseColumnCell>,
    sort_by: BrowseColumn,
    sort_dir: SortDir,
    n: nat,
)
    requires
        n <= columns.len(),
    ensures
        heading_spans(columns, sort_by, sort_dir, n).len() == if n == 0 { 2nat } else { 1 + 2 * n },
        forall|j: int|
            0 <= j < n ==> (#[trigger] heading_spans(columns, sort_by, sort_dir, n)[2 + 2 * j]).text
                == padded(
                heading(columns[j].column) + if columns[j].column == sort_by {
                    " "@ + crate::draw_browse::search::arrow(sort_dir)
                } else {
                    ""@
                },
                columns[j].width as int,
                column_right_aligned(columns[j].column),
            ),
    decreases n,
{
    reveal_strlit("");
    if n > 0 {
        lemma_headings(columns, sort_by, sort_dir, (n - 1) as nat);
        let front = heading_spans(columns, sort_by, sort_dir, (n - 1) as nat);
        let all = heading_spans(columns, sort_by, sort_dir, n);
        let name = heading(columns[n - 1].column);
        assert(name + ""@ =~= name);
        assert(name + " "@ + crate::draw_browse::search::arrow(sort_dir) =~= name + (" "@
            + crate::draw_browse::search::arrow(sort_dir)));
        assert(forall|k: int| 0 <= k < front.len() ==> #[trigger] all[k] == front[k]);
        assert forall|j: int| 0 <= j < n - 1 implies #[trigger] all[2 + 2 * j] == front[2 + 2 * j] by {}
    }
}

/// Each column has its own heading above it, and the one that the list is sorted by an arrow.
pub proof fn heading_names_its_column(
    columns: Seq<BrowseColumnCell>,
    sort_by: BrowseColumn,
    sort_dir: SortDir,
    j: int,
)
    requires
        0 <= j < columns.len(),
    ensures
        heading_spans(columns, sort_by, sort_dir, columns.len())[2 + 2 * j].text == padded(
            heading(columns[j].column) + if columns[j].column == sort_by {
                " "@ + if sort_dir is Asc { "▲"@ } else { "▼"@ }
            } else {
                ""@
            },
            columns[j].width as int,
            column_right_aligned(columns[j].column),
        ),
{
    lemma_headings(columns, sort_by, sort_dir, columns.len());
}

/// A row that is selected, in the range being selected, or under the pointer has its own
/// background, but for its borders and an open editor; a selected row is bright and bold. The
/// texts stay.
pub proof fn row_stands_out(spans: LineV, row: EntryRow, editor: (int, int), i: int)
    requires
        0 <= i < spans.len(),
        spans[i].text != "│"@,
        !(editor.0 <= i < editor.1),
    ensures
        ({
            let r = with_background(spans, row, editor);
            &&& r.len() == spans.len()
            &&& r[i].text == spans[i].text
            &&& (row.is_selected || row.is_range_preview ==> r[i].style.bg == Tone::SelectionBg)
            &&& (!row.is_selected && !row.is_range_preview && row.is_hovered ==> r[i].style.bg
                == Tone::HoverBg)
            &&& (!row.is_selected && !row.is_range_preview && !row.is_hovered ==> r[i] == spans[i])
            &&& (row.is_selected ==> r[i].style.bold && r[i].style.fg == Tone::TextBright)
            &&& (!row.is_selected ==> r[i].style.bold == spans[i].style.bold)
        }),
{
}

/// The entries in the range being selected are those from its start to before its end.
pub proof fn range_holds_its_entries(browse: BrowseState, i: int)
    ensures
        browse.range_preview matches Some((from, to)) ==> (browse.in_range_preview(i) <==> from <= i
            < to),
        browse.range_preview is None ==> !browse.in_range_preview(i),
{
}

} // verus!
