//! The options menu and the bookmarks: marks, highlights and clicks.

use crate::browse::{BookmarksState, BrowseOptionsMenu, BrowseState, ColumnChoice};
use crate::button_map::{BrowseColumn, SortDir, TuiButton};
use crate::display_width::shown_width;
use crate::draw_browse::menus::{
    active_rows, archive_rows, bookmarks_shown, column_rows, dropdown_hits, dropdown_scene,
    filter_rows, highlighted, layout_rows, menu_width, options_hits, options_scene, panel_hits,
    panel_inside, panel_scene, root_place, root_rows, root_selected, row_place, sort_row, sort_rows,
    submenu, submenu_place, widest, MenuRowV,
};
use crate::geometry::Rect;
use crate::text::{blanks, minus, same_but_case, trimmed};
use crate::scene::OpV;
use vstd::prelude::*;

verus! {

proof fn lemma_panel_hit(area: Rect, rows: Seq<MenuRowV>, n: nat, i: int) -> (h: int)
    requires
        0 <= i < n <= rows.len(),
        rows[i].1 is Some,
        row_place(area, i) is Some,
    ensures
        0 <= h < panel_hits(area, rows, n).len(),
        panel_hits(area, rows, n)[h] == (rows[i].1->0, row_place(area, i)->0),
    decreases n,
{
    let front = panel_hits(area, rows, (n - 1) as nat);
    if i == n - 1 {
        front.len() as int
    } else {
        let h = lemma_panel_hit(area, rows, (n - 1) as nat, i);
        assert(panel_hits(area, rows, n)[h] == front[h]);
        h
    }
}

/// Row `i` of a menu is painted on the row `i` below its border, and clicked there; a row is
/// highlighted exactly if it does something and the pointer or the selection is on it.
pub proof fn menu_row_is_clicked_where_it_is_painted(
    area: Rect,
    title: Seq<char>,
    rows: Seq<MenuRowV>,
    hover: Option<TuiButton>,
    selected: Option<TuiButton>,
    i: int,
) -> (h: int)
    requires
        area.wf(),
        area.width > 2,
        0 <= i < rows.len(),
        i < area.height - 2,
        rows[i].1 is Some,
    ensures
        ({
            let scene = panel_scene(area, title, rows, hover, selected);
            let lines = scene[2]->Text_rows;
            let hits = panel_hits(area, rows, rows.len());
            &&& scene[2]->Text_area.y == area.y + 1
            &&& scene[2]->Text_area.x == area.x + 1
            &&& lines.len() == rows.len()
            &&& (shown_width(rows[i].0) <= area.width - 2 ==> lines[i][0].text == rows[i].0 + blanks(
                (area.width - 2 - shown_width(rows[i].0)) as nat,
            ))
            &&& (lines[i][0].style.bold <==> hover == rows[i].1 || selected == rows[i].1)
            &&& 0 <= h < hits.len()
            &&& Some(hits[h].0) == rows[i].1
            &&& hits[h].1.y == area.y + 1 + i
            &&& hits[h].1.x == area.x + 1
            &&& hits[h].1.width == area.width - 2
        }),
{
    lemma_panel_hit(area, rows, rows.len(), i)
}

/// The marks of the layout say which panes are shown.
pub proof fn layout_marks_the_panes_shown(explore: bool, info: bool, show_hidden: bool)
    ensures
        layout_rows(explore, info)[0].0[1] == '●' <==> explore,
        layout_rows(explore, info)[1].0[1] == '●' <==> info,
        layout_rows(explore, info)[0].1 == Some(TuiButton::BrowseOptionsToggleExplore),
        layout_rows(explore, info)[1].1 == Some(TuiButton::BrowseOptionsToggleInfo),
        root_rows(show_hidden)[0].0[1] == '●' <==> show_hidden,
        root_rows(show_hidden)[0].1 == Some(TuiButton::BrowseOptionsShowHidden),
{
    reveal_strlit(" ");
    reveal_strlit("●");
    reveal_strlit("○");
    reveal_strlit(" ● Show hidden files");
    reveal_strlit(" ○ Show hidden files");
}

/// The columns that are shown are checked, and no others; a row toggles its own column.
pub proof fn columns_shown_are_checked(
    columns: Seq<BrowseColumn>,
    choices: Seq<ColumnChoice>,
    i: int,
)
    requires
        0 <= i < choices.len(),
    ensures
        ({
            let rows = column_rows(columns, choices);
            &&& rows.len() == choices.len()
            &&& (rows[i].0[1] == '☑' <==> exists|j: int|
                0 <= j < columns.len() && #[trigger] columns[j] == choices[i].column)
            &&& rows[i].0.skip(3) == choices[i].label@
            &&& rows[i].1 == Some(TuiButton::BrowseOptionsColumn(choices[i].column))
        }),
{
    reveal_strlit(" ");
    reveal_strlit("☑");
    reveal_strlit("☐");
    let rows = column_rows(columns, choices);
    assert(rows[i].0.skip(3) =~= choices[i].label@);
    if columns.contains(choices[i].column) {
        let j = choose|j: int| 0 <= j < columns.len() && columns[j] == choices[i].column;
        assert(columns[j] == choices[i].column);
    }
}

proof fn lemma_sort_rows(browse: BrowseState, n: nat)
    requires
        n <= browse.options.sort_choices@.len(),
    ensures
        sort_rows(browse, n).len() == 2 * n,
        forall|i: int|
            0 <= i < n ==> #[trigger] sort_rows(browse, n)[2 * i] == sort_row(
                browse,
                browse.options.sort_choices@[i],
                SortDir::Asc,
            ),
        forall|i: int|
            0 <= i < n ==> #[trigger] sort_rows(browse, n)[2 * i + 1] == sort_row(
                browse,
                browse.options.sort_choices@[i],
                SortDir::Desc,
            ),
    decreases n,
{
    if n > 0 {
        lemma_sort_rows(browse, (n - 1) as nat);
        let front = sort_rows(browse, (n - 1) as nat);
        let all = sort_rows(browse, n);
        assert forall|i: int| 0 <= i < n implies #[trigger] all[2 * i] == sort_row(
            browse,
            browse.options.sort_choices@[i],
            SortDir::Asc,
        ) by {
            if i < n - 1 {
                assert(all[2 * i] == front[2 * i]);
            }
        }
        assert forall|i: int| 0 <= i < n implies #[trigger] all[2 * i + 1] == sort_row(
            browse,
            browse.options.sort_choices@[i],
            SortDir::Desc,
        ) by {
            if i < n - 1 {
                assert(all[2 * i + 1] == front[2 * i + 1]);
            }
        }
    }
}

/// Each order has two rows, up and down; the one that is the default, in its direction, is marked.
pub proof fn default_order_is_marked(browse: BrowseState, i: int)
    requires
        0 <= i < browse.options.sort_choices@.len(),
    ensures
        ({
            let rows = sort_rows(browse, browse.options.sort_choices@.len());
            let choice = browse.options.sort_choices@[i];
            let own = browse.options.default_sort_by == choice.column;
            &&& rows.len() == 2 * browse.options.sort_choices@.len()
            &&& rows[2 * i].1 == Some(
                TuiButton::BrowseOptionsSortChoice(choice.column, SortDir::Asc),
            )
            &&& rows[2 * i + 1].1 == Some(
                TuiButton::BrowseOptionsSortChoice(choice.column, SortDir::Desc),
            )
            &&& (rows[2 * i].0[1] == '●' <==> own && browse.options.default_sort_dir
                == SortDir::Asc)
            &&& (rows[2 * i + 1].0[1] == '●' <==> own && browse.options.default_sort_dir
                == SortDir::Desc)
            &&& (rows[2 * i].0.last() == '↑' && rows[2 * i + 1].0.last() == '↓')
        }),
{
    reveal_strlit(" ");
    reveal_strlit("●");
    reveal_strlit("○");
    reveal_strlit("↑");
    reveal_strlit("↓");
    lemma_sort_rows(browse, browse.options.sort_choices@.len());
}

/// The filter in use is marked, and no other; a row chooses its own filter.
pub proof fn filter_in_use_is_marked(browse: BrowseState, i: int)
    requires
        0 <= i < browse.options.filter_choices@.len(),
    ensures
        ({
            let rows = filter_rows(browse);
            &&& rows.len() == browse.options.filter_choices@.len()
            &&& (rows[i].0[1] == '●' <==> browse.options.format_filter == i)
            &&& rows[i].0.skip(3) == browse.options.filter_choices@[i]@
            &&& rows[i].1 == Some(TuiButton::BrowseOptionsFilterChoice(i as usize))
        }),
{
    reveal_strlit(" ");
    reveal_strlit("●");
    reveal_strlit("○");
    let rows = filter_rows(browse);
    assert(rows[i].0.skip(3) =~= browse.options.filter_choices@[i]@);
}

/// Of the ways of listing archives exactly one is marked: the one that the setting names, in
/// whatever case and with blanks around it, else the automatic one.
pub proof fn one_way_of_listing_is_marked(setting: Seq<char>)
    ensures
        ({
            let rows = archive_rows(setting);
            let always = same_but_case(trimmed(setting), "always"@);
            let never = same_but_case(trimmed(setting), "never"@);
            &&& rows.len() == 3
            &&& (rows[1].0[1] == '●' <==> always)
            &&& (rows[2].0[1] == '●' <==> never && !always)
            &&& (rows[0].0[1] == '●' <==> !always && !never)
            &&& rows[0].1 == Some(TuiButton::BrowseOptionsArchiveChoice(0))
            &&& rows[1].1 == Some(TuiButton::BrowseOptionsArchiveChoice(1))
            &&& rows[2].1 == Some(TuiButton::BrowseOptionsArchiveChoice(2))
        }),
{
    reveal_strlit(" ");
    reveal_strlit("●");
    reveal_strlit("○");
    reveal_strlit("auto");
    reveal_strlit("always");
    reveal_strlit("never");
    assert("auto"@.len() != "always"@.len());
    assert("auto"@.len() != "never"@.len());
    assert("always"@.len() != "never"@.len());
}

/// The open submenu decides the rows that keys move in; the row at the highlight is the one that
/// is marked as selected.
pub proof fn open_menu_has_its_rows(browse: BrowseState, setting: Seq<char>)
    ensures
        ({
            let menu = browse.options.options_menu;
            let rows = active_rows(browse, setting);
            &&& (menu == BrowseOptionsMenu::Closed <==> rows is None)
            &&& (menu == BrowseOptionsMenu::Root ==> rows == Some(root_rows(browse.show_hidden)))
            &&& (menu == BrowseOptionsMenu::Layout ==> rows == Some(
                layout_rows(browse.explore_enabled, browse.info_enabled),
            ))
            &&& (menu == BrowseOptionsMenu::Columns ==> rows == Some(
                column_rows(browse.columns@, browse.options.column_choices@),
            ))
            &&& (menu == BrowseOptionsMenu::Sort ==> rows == Some(
                sort_rows(browse, browse.options.sort_choices@.len()),
            ))
            &&& (menu == BrowseOptionsMenu::Filter ==> rows == Some(filter_rows(browse)))
            &&& (menu == BrowseOptionsMenu::ArchiveListing ==> rows == Some(archive_rows(setting)))
            &&& (menu == BrowseOptionsMenu::Root && browse.options.options_menu_highlight is Some
                && browse.options.options_menu_highlight->0 < 9 ==> root_selected(browse)
                == root_rows(
                browse.show_hidden,
            )[browse.options.options_menu_highlight->0 as int].1)
        }),
{
}

/// Row `k` of the bookmarks is that of the bookmark `k` behind the scroll position: its name is
/// painted there, and a click there goes to it; the one selected stands out.
pub proof fn bookmark_is_clicked_where_it_is_painted(
    anchor: Rect,
    screen: Rect,
    state: BookmarksState,
    hover: Option<TuiButton>,
    k: int,
)
    requires
        screen.wf(),
        anchor.wf(),
        screen.width >= 8,
        screen.height >= 6,
        state.entries@.len() < usize::MAX - 65535,
        0 <= k < bookmarks_shown(state, screen),
    ensures
        ({
            let scene = dropdown_scene(anchor, screen, state, hover);
            let hits = dropdown_hits(anchor, screen, state);
            let i = state.dropdown_scroll + k;
            let painted = scene[2 + k];
            let line = painted->Text_rows[0];
            let inside = panel_inside(
                crate::draw_browse::menus::bookmarks_place(anchor, screen, state.entries@),
            );
            &&& i < state.entries@.len()
            &&& k < 10
            &&& (shown_width(state.entries@[i].name@) <= minus(inside.width as int, 3)
                ==> line[1].text == state.entries@[i].name@)
            &&& (line[1].style.bold <==> state.dropdown_selected == i || hover == Some(
                TuiButton::BrowseBookmarkDropdownRow(i as usize),
            ))
            &&& hits[k].0 == TuiButton::BrowseBookmarkDropdownRow(i as usize)
            &&& hits[k].1 == painted->Text_area
            &&& hits[hits.len() - 2].0 == TuiButton::BrowseBookmarkDropdownAdd
            &&& hits[hits.len() - 1].0 == TuiButton::BrowseBookmarkDropdownManage
            &&& hits[hits.len() - 2].1 == scene[scene.len() - 2]->Text_area
            &&& hits[hits.len() - 1].1 == scene[scene.len() - 1]->Text_area
        }),
{
}

proof fn lemma_widest(rows: Seq<MenuRowV>, n: nat)
    requires
        n <= rows.len(),
    ensures
        0 <= widest(rows, n),
        forall|i: int| 0 <= i < n ==> shown_width((#[trigger] rows[i]).0) <= widest(rows, n),
        n > 0 ==> exists|i: int|
            0 <= i < n && shown_width((#[trigger] rows[i]).0) == widest(rows, n),
    decreases n,
{
    if n > 0 {
        lemma_widest(rows, (n - 1) as nat);
        if shown_width(rows[n - 1].0) >= widest(rows, (n - 1) as nat) {
            assert(shown_width(rows[n - 1].0) == widest(rows, n));
        } else {
            assert(widest(rows, n) == widest(rows, (n - 1) as nat));
        }
    }
}

/// A menu is wide enough for each of its rows and its border, up to forty columns and the width of
/// the screen, and no wider than its rows and its title need.
pub proof fn menu_is_as_wide_as_its_rows(
    title: Seq<char>,
    rows: Seq<MenuRowV>,
    outer: int,
    i: int,
)
    requires
        0 <= i < rows.len(),
        forall|j: int| 0 <= j < rows.len() ==> shown_width((#[trigger] rows[j]).0) <= 60_000,
        shown_width(title) <= 60_000,
        1 <= outer,
    ensures
        ({
            let w = menu_width(title, rows, outer);
            &&& (shown_width(rows[i].0) + 2 <= w || w == 40 || w == outer)
            &&& w <= 40
            &&& w <= outer
            &&& (shown_width(title) + 6 >= w || exists|j: int|
                0 <= j < rows.len() && shown_width((#[trigger] rows[j]).0) + 2 >= w)
        }),
{
    lemma_widest(rows, rows.len());
    let j = choose|j: int|
        0 <= j < rows.len() && shown_width((#[trigger] rows[j]).0) == widest(rows, rows.len());
    assert(shown_width(rows[j].0) <= 60_000);
    assert(shown_width(rows[i].0) <= widest(rows, rows.len()));
}

/// The menu is painted with its rows at its place, and clicked there; an open submenu comes on top
/// of it, at its own place and with its own rows.
pub proof fn menus_are_clicked_at_their_places(
    anchor: Rect,
    screen: Rect,
    browse: BrowseState,
    setting: Seq<char>,
    hover: Option<TuiButton>,
)
    requires
        screen.width > 0,
    ensures
        ({
            let root = root_place(anchor, screen, browse.show_hidden);
            let rows = root_rows(browse.show_hidden);
            let scene = options_scene(anchor, screen, browse, setting, hover);
            let hits = options_hits(anchor, screen, browse, setting);
            let first = panel_hits(root, rows, rows.len());
            &&& scene[0] == OpV::Clear(root)
            &&& scene[2]->Text_area == panel_inside(root)
            &&& first.is_prefix_of(hits)
            &&& (submenu(browse, setting) is None ==> scene.len() == 3 && hits == first)
            &&& (submenu(browse, setting) is Some ==> {
                let place = submenu_place(anchor, screen, browse, setting)->0;
                let (_, own) = submenu(browse, setting)->0;
                &&& place.width > 0 && place.height > 0 ==> scene.len() == 6 && scene[3]
                    == OpV::Clear(place) && scene[5]->Text_area == panel_inside(place)
                    && hits.skip(first.len() as int) == panel_hits(place, own, own.len())
            })
        }),
{
    let root = root_place(anchor, screen, browse.show_hidden);
    let rows = root_rows(browse.show_hidden);
    let hits = options_hits(anchor, screen, browse, setting);
    let first = panel_hits(root, rows, rows.len());
    lemma_widest(rows, rows.len());
    assert(root.width > 0);
    assert(first =~= hits.subrange(0, first.len() as int));
    if submenu(browse, setting) is Some {
        let place = submenu_place(anchor, screen, browse, setting)->0;
        let (_, own) = submenu(browse, setting)->0;
        if place.width > 0 && place.height > 0 {
            assert(hits.skip(first.len() as int) =~= panel_hits(place, own, own.len()));
        }
    } else {
        assert(hits =~= first);
    }
}

} // verus!
