//! The file browser as a whole: headings, cursors, the path bar and the panes.

use crate::app_state::AppState;
use crate::browse::{BrowseInlineEditState, BrowseState};
use crate::button_map::{BrowsePaneId, TuiButton};
use crate::disc_browser::DiscBrowserV;
use crate::display_width::shown_width;
use crate::draw_browse::columns::BrowseColumnCell;
use crate::draw_browse::list::{
    column_hits, column_x, create_editor, list_cursor, name_cursor, path_bar, place_text,
    progress_text, rename_cursor, rename_editor, scrollbar_scene, search_input_row, thumb_rect,
    ScrollbarMetrics,
};
use crate::draw_browse::screen::{drawn_in, explore_part, info_part, navigation_focus, pane_ends};
use crate::geometry::Rect;
use crate::path::{name_or_empty, name_or_path};
use crate::text::{blanks, decimal};
use vstd::prelude::*;

verus! {

/// The columns before column `n`, each with the blank behind it.
pub open spec fn columns_before(columns: Seq<BrowseColumnCell>, n: nat) -> int
    decreases n,
{
    if n == 0 {
        0
    } else {
        columns_before(columns, (n - 1) as nat) + columns[n - 1].width + 1
    }
}

proof fn lemma_columns_before(columns: Seq<BrowseColumnCell>, a: nat, b: nat)
    requires
        a <= b <= columns.len(),
    ensures
        0 <= columns_before(columns, a) <= columns_before(columns, b),
        a < b ==> columns_before(columns, a) + columns[a as int].width < columns_before(columns, b),
    decreases b,
{
    if a < b {
        lemma_columns_before(columns, a, (b - 1) as nat);
    } else if b > 0 {
        lemma_columns_before(columns, (b - 1) as nat, (b - 1) as nat);
    }
}

proof fn lemma_column_hits(columns: Seq<BrowseColumnCell>, x0: int, y: u16, n: nat)
    requires
        n <= columns.len(),
        0 <= x0,
        x0 + columns_before(columns, n) <= u16::MAX,
    ensures
        column_x(columns, x0, n) == x0 + columns_before(columns, n),
        column_hits(columns, x0, y, n).len() == n,
        forall|i: int|
            0 <= i < n ==> (#[trigger] column_hits(columns, x0, y, n)[i]).0
                == TuiButton::BrowseColumn(columns[i].column) && column_hits(
                columns,
                x0,
                y,
                n,
            )[i].1.x == x0 + columns_before(columns, i as nat) && column_hits(
                columns,
                x0,
                y,
                n,
            )[i].1.width == columns[i].width && column_hits(columns, x0, y, n)[i].1.y == y,
    decreases n,
{
    if n > 0 {
        lemma_columns_before(columns, (n - 1) as nat, n);
        lemma_column_hits(columns, x0, y, (n - 1) as nat);
    }
}

/// Each heading is clicked over its own column: behind the columns before it, and as wide as it
/// is.
pub proof fn heading_is_clicked_over_its_column(
    columns: Seq<BrowseColumnCell>,
    x0: int,
    y: u16,
    i: int,
)
    requires
        0 <= i < columns.len(),
        0 <= x0,
        x0 + columns_before(columns, columns.len()) <= u16::MAX,
    ensures
        ({
            let hits = column_hits(columns, x0, y, columns.len());
            &&& hits.len() == columns.len()
            &&& hits[i].0 == TuiButton::BrowseColumn(columns[i].column)
            &&& hits[i].1.x == x0 + columns_before(columns, i as nat)
            &&& hits[i].1.width == columns[i].width
            &&& hits[i].1.y == y
        }),
{
    lemma_column_hits(columns, x0, y, columns.len());
}

proof fn lemma_rename_cursor(
    browse: BrowseState,
    inline: Option<&BrowseInlineEditState>,
    name_w: int,
    from: int,
    to: int,
)
    requires
        0 <= from,
        to <= browse.entries@.len(),
    ensures
        rename_cursor(browse, inline, name_w, from, to) matches Some((row, col)) ==> {
            let i = browse.scroll_offset + row;
            &&& from <= i < to
            &&& rename_editor(browse.entries@[i], inline) matches Some(input) && col
                == input.cursor_column(name_w)
        },
        rename_cursor(browse, inline, name_w, from, to) is None ==> forall|j: int|
            from <= j < to ==> rename_editor(#[trigger] browse.entries@[j], inline) is None,
    decreases to - from,
{
    if from < to && rename_editor(browse.entries@[to - 1], inline) is None {
        lemma_rename_cursor(browse, inline, name_w, from, to - 1);
    }
}

/// While nothing is searched, filtered or created, the cursor of the list is on the row of the
/// entry that is renamed, where its editor has it.
pub proof fn rename_cursor_is_on_its_entry(
    browse: BrowseState,
    inline: Option<&BrowseInlineEditState>,
    name_w: int,
    rows: int,
)
    requires
        browse.error is None,
        browse.entries@.len() > 0,
        create_editor(browse, inline) is None,
        0 <= rows,
    ensures
        name_cursor(browse, inline, name_w, rows) matches Some((row, col)) ==> {
            let i = browse.scroll_offset + row;
            &&& 0 <= row
            &&& i < browse.entries@.len()
            &&& rename_editor(browse.entries@[i], inline) matches Some(input) && col
                == input.cursor_column(name_w)
        },
{
    let from = browse.scroll_offset as int;
    let to = crate::draw_browse::list::list_end(
        browse,
        crate::draw_browse::list::entry_capacity(rows, false),
    );
    lemma_rename_cursor(browse, inline, name_w, from, to);
}

/// The cursor of a search that is typed is in its text, on the row below the top edge; the cursor
/// of a filter is in its text, on the row above the bottom edge.
pub proof fn typed_text_has_the_cursor(
    area: Rect,
    browse: BrowseState,
    inline: Option<&BrowseInlineEditState>,
    name_w: int,
)
    requires
        area.wf(),
        area.width >= 20,
        area.height >= 4,
    ensures
        browse.search.active && browse.search.input_focused ==> list_cursor(
            area,
            browse,
            inline,
            name_w,
        ) == Some(
            (
                area.x + 4 + browse.search.input.cursor_column(area.width - 5),
                area.y + 1,
            ),
        ),
        !(browse.search.active && browse.search.input_focused) && browse.filter_input is Some
            ==> list_cursor(area, browse, inline, name_w) == Some(
            (
                area.x + 4 + browse.filter_input->0.cursor_column(area.width - 6),
                area.y + area.height - 2,
            ),
        ),
{
    crate::laws::editing::field_shows_the_text_around_the_cursor(
        browse.search.input,
        area.width - 5,
    );
    if let Some(input) = browse.filter_input {
        crate::laws::editing::field_shows_the_text_around_the_cursor(input, area.width - 6);
    }
}

/// The path bar says where the browser is: below home by the way from there, elsewhere by the
/// whole path, in an archive by its name and the place in it.
pub proof fn path_bar_says_where_one_is(browse: BrowseState, home: Seq<char>, rest: Seq<char>)
    ensures
        browse.archive is None && home.len() > 0 && browse.current_dir@ == home + rest
            ==> place_text(browse, home) == "~"@ + rest,
        browse.archive is None && !home.is_prefix_of(browse.current_dir@) ==> place_text(
            browse,
            home,
        ) == browse.current_dir@,
        browse.archive is None && home.len() == 0 ==> place_text(browse, home)
            == browse.current_dir@,
        browse.archive is Some && !browse.archive->0.modified ==> place_text(browse, home)
            == name_or_empty(browse.archive->0.archive_path@) + ":/"@
            + browse.archive->0.inner_path@,
        browse.archive is Some && browse.archive->0.modified ==> place_text(browse, home)
            == name_or_empty(browse.archive->0.archive_path@) + ":/"@
            + browse.archive->0.inner_path@ + " [modified]"@,
{
    reveal_strlit("");
    if browse.archive is None && home.len() > 0 && browse.current_dir@ == home + rest {
        let path = browse.current_dir@;
        assert(path.skip(home.len() as int) =~= rest);
        assert(path.take(home.len() as int) =~= home);
        assert(path.subrange(0, home.len() as int) =~= home);
    }
    if let Some(archive) = browse.archive {
        let place = name_or_empty(archive.archive_path@) + ":/"@ + archive.inner_path@;
        assert(place + ""@ =~= place);
    }
    crate::laws::texts::prefix_and_rest_make_the_text(browse.current_dir@, home);
}

/// The path bar also gives the filter in use and the text that is jumped to.
pub proof fn path_bar_gives_filter_and_jump(browse: BrowseState, home: Seq<char>, w: int)
    ensures
        ({
            let line = path_bar(browse, home, w);
            let filtered = browse.filter_text@.len() > 0;
            let n = 2 + (if filtered { 1int } else { 0 }) + (if browse.type_ahead_active {
                1int
            } else {
                0
            });
            &&& line.len() == n
            &&& (filtered ==> line[2].text == "   filter: "@ + browse.filter_text@)
            &&& (browse.type_ahead_active ==> line[n - 1].text == "   jump: "@
                + browse.type_ahead_buffer@)
            &&& (!filtered && !browse.type_ahead_active && shown_width(place_text(browse, home))
                <= w - shown_width(" path: "@) - 1 - shown_width(Seq::<char>::empty()) - shown_width(
                Seq::<char>::empty(),
            ) ==> line[1].text == place_text(browse, home))
        }),
{
    reveal_strlit("   filter: ");
    reveal_strlit("   jump: ");
}

/// While a directory is read, its name is given and how many entries were found so far.
pub proof fn progress_counts_what_was_found(browse: BrowseState)
    ensures
        browse.scan_pending <==> progress_text(browse) is Some,
        browse.scan_pending ==> progress_text(browse) == Some(
            "Reading "@ + name_or_path(browse.current_dir@) + "… ("@ + decimal(
                browse.scan_discovered_count as nat,
            ) + ")"@,
        ),
{
}

/// A pane that is switched off is neither painted nor clickable; one that is collapsed is opened
/// by a click on any of its cells.
pub proof fn panes_are_shown_as_they_are_set(app: AppState, area: Rect)
    requires
        area.width > 0,
        area.height > 0,
    ensures
        !app.browse.explore_enabled ==> explore_part(app, area).0.len() == 0 && explore_part(
            app,
            area,
        ).1.len() == 0,
        !app.browse.info_enabled ==> info_part(app, area).0.len() == 0 && info_part(
            app,
            area,
        ).1.len() == 0,
        app.browse.explore_enabled && app.browse.nav.explore_collapsed ==> explore_part(app, area).1
            == seq![(TuiButton::BrowsePaneToggle(BrowsePaneId::Explore), area)],
        app.browse.info_enabled && app.browse.nav.info_collapsed ==> info_part(app, area).1
            == seq![(TuiButton::BrowsePaneToggle(BrowsePaneId::Info), area)],
{
}

/// The keys move in the list unless a tag has the focus or a search is typed.
pub proof fn keys_move_in_the_list(app: AppState)
    ensures
        navigation_focus(app) <==> app.shown.browse_info_focus is None && !(
        app.browse.search.active && app.browse.search.input_focused),
{
}

/// Drawing changes what the screen remembers of its own layout, and nothing else of the state.
pub proof fn drawing_keeps_the_state(app: AppState, area: Rect, panes: Seq<Rect>, open: bool)
    ensures
        ({
            let after = drawn_in(app, area, panes, open);
            &&& after.status == app.status
            &&& after.active_overlay == app.active_overlay
            &&& after.current_screen == app.current_screen
            &&& after.convert == app.convert
            &&& after.effects == app.effects
            &&& after.browse.entries == app.browse.entries
            &&& after.browse.selected_index == app.browse.selected_index
            &&& after.browse.scroll_offset == app.browse.scroll_offset
            &&& after.browse.current_dir == app.browse.current_dir
            &&& after.browse.search == app.browse.search
            &&& after.browse.facts == app.browse.facts
            &&& after.browse.nav.tree_cursor == app.browse.nav.tree_cursor
            &&& after.browse.nav.tree_scroll == app.browse.nav.tree_scroll
            &&& after.browse.nav.tree_nodes == app.browse.nav.tree_nodes
            &&& after.browse.last_render_area == Some(area)
            &&& after.shown.settings == app.shown.settings
            &&& after.shown.bookmarks.entries == app.shown.bookmarks.entries
            &&& after.shown.bookmarks.dropdown_selected == app.shown.bookmarks.dropdown_selected
        }),
{
}

/// The panes take the whole width: without tree and info the list has it all, and with both open
/// they have a fifth and three tenths of it, to the nearest column.
pub proof fn panes_share_the_width(width: int, browse: BrowseState)
    requires
        0 <= width <= u16::MAX,
    ensures
        !browse.explore_enabled && !browse.info_enabled ==> pane_ends(width, browse) == Some(
            (0int, width),
        ),
        pane_ends(width, browse) matches Some((a, b)) ==> 0 <= a <= b <= width,
        browse.explore_enabled && browse.info_enabled && !browse.nav.explore_collapsed
            && !browse.nav.info_collapsed ==> (pane_ends(width, browse) matches Some((a, b))
            && -50 < 100 * a - 20 * width <= 50 && -50 < 100 * b - 70 * width <= 50),
        !browse.explore_enabled && browse.info_enabled && !browse.nav.info_collapsed ==> (pane_ends(
            width,
            browse,
        ) matches Some((a, b)) && a == 0 && 3 * (width - b) <= width < 3 * (width - b + 1)),
{
}

/// The rows of a disc are one for each of its streams and one for each detail of those expanded:
/// expanding a stream adds as many as it has details.
pub proof fn expanding_adds_the_details(browser: DiscBrowserV, n: nat)
    requires
        0 < n <= browser.contents.presentations@.len(),
        n <= browser.expanded.len(),
        browser.rows((n - 1) as nat) + 1 + browser.contents.presentations@[n - 1].details@.len()
            <= usize::MAX,
    ensures
        browser.expanded[n - 1] ==> browser.rows(n) == browser.rows((n - 1) as nat) + 1
            + browser.contents.presentations@[n - 1].details@.len(),
        !browser.expanded[n - 1] ==> browser.rows(n) == browser.rows((n - 1) as nat) + 1,
        browser.rows(0) == 0,
{
}

/// The thumb of a scrollbar is in its track, as far down and as long as it was measured.
pub proof fn thumb_is_where_it_was_measured(area: Rect, metrics: ScrollbarMetrics)
    requires
        area.wf(),
        metrics.thumb_start + metrics.thumb_len <= area.height,
    ensures
        ({
            let scene = scrollbar_scene(area, metrics);
            let thumb = thumb_rect(area, metrics);
            &&& thumb.x == area.x
            &&& thumb.y == area.y + metrics.thumb_start
            &&& thumb.height == metrics.thumb_len
            &&& thumb.width == 1
            &&& scene[0]->Text_area == area
            &&& scene[0]->Text_rows.len() == area.height
            &&& scene[1]->Text_area == thumb
            &&& scene[1]->Text_rows.len() == metrics.thumb_len
        }),
{
}

/// The search row shows the text that is searched for, as its editor has it.
pub proof fn search_row_shows_its_text(browse: BrowseState, inner_w: int)
    requires
        inner_w > 3,
    ensures
        ({
            let line = search_input_row(browse, inner_w);
            let shown = browse.search.input.window(inner_w - 3);
            &&& line.len() == 6
            &&& line[1].text == " / "@
            &&& line[2].text + line[3].text + line[4].text == shown + blanks(
                (inner_w - 3 - shown.len()) as nat,
            )
        }),
{
    let input = browse.search.input;
    let line = search_input_row(browse, inner_w);
    let shown = input.window(inner_w - 3);
    assert(line[2].text + line[3].text + line[4].text =~= shown + blanks(
        (inner_w - 3 - shown.len()) as nat,
    ));
}

} // verus!
