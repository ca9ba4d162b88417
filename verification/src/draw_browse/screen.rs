//! The whole browse screen.

use crate::app_state::{AppState, ShownState};
use crate::browse::{
    BookmarksState, BrowseInlineEditState, BrowseNavigation, BrowseOptionsMenu, BrowseState,
};
use crate::button_map::{
    latest_rect, BrowsePaneId, ButtonRenderMap, Hit, ScrollbarSurface, TuiButton,
};
use crate::draw_browse::columns::column_layout;
use crate::draw_browse::explore::{
    collapsed_scene, draw_collapsed_pane, draw_explore_pane, explore_fits, explore_hits,
    explore_scene, explore_tree_capacity, scrolls_tree, tree_capacity, tree_scroll_request,
    TreeContext,
};
use crate::draw_browse::info::{draw_browse_info, info_fits, info_hits, info_scene, shown_info};
use crate::draw_browse::list::{
    browse_list_capacity, clickable_entries, create_editor, draw_browse_list,
    draw_vertical_scrollbar, find_create_editor, list_capacity, list_end, list_fits, list_hits,
    list_scene, list_scroll_request, list_scrollbar, register_browse_buttons, scrollbar_scene,
    scrolls_list, thumb_rect, ListContext, ScrollRequest,
};
use crate::draw_browse::menus::{
    bookmark_capacity, bookmark_dropdown_rows, bookmarks_fit, draw_bookmarks_dropdown, draw_options_menu, dropdown_hits, dropdown_scene,
    options_anchor, options_button_anchor_for_toolbar, options_hits, options_scene, panel_inside,
};
use crate::draw_browse::tabs::{draw_browse_tab_strip, strip_shown, tab_strip};
use crate::draw_browse::toolbar::{cell, draw_browse_toolbar, toolbar_hits, toolbar_scene};
use crate::draw_footer::{draw_footer, shows_footer, words};
use crate::draw_header::{draw_header, header_scene};
use crate::geometry::{plus16, Rect};
use crate::layout::{
    asked, decided, divides, extent, granted, granted_before, length_and_thirds, part_rect, part_start,
    rank, settled, sized, split, wish, wished, Constraint, Direction,
};
use crate::scene::{Scene, SceneV};
use crate::text::{least, minus};
use vstd::prelude::*;

verus! {

/// How the tree, the file list and the info pane share the width.
pub open spec fn content_wishes(width: int, browse: BrowseState) -> Seq<Constraint> {
    match (
        browse.explore_enabled,
        browse.info_enabled,
        browse.nav.explore_collapsed,
        browse.nav.info_collapsed,
    ) {
        (false, false, _, _) => seq![
            Constraint::Length(0),
            Constraint::Percentage(100),
            Constraint::Length(0),
        ],
        (false, true, _, true) => seq![
            Constraint::Length(0),
            Constraint::Min(40),
            Constraint::Length(3),
        ],
        (false, true, _, false) => seq![
            Constraint::Length(0),
            Constraint::Length(minus(width, width / 3) as u16),
            Constraint::Length((width / 3) as u16),
        ],
        (true, false, true, _) => seq![
            Constraint::Length(3),
            Constraint::Min(40),
            Constraint::Length(0),
        ],
        (true, false, false, _) => seq![
            Constraint::Percentage(20),
            Constraint::Percentage(80),
            Constraint::Length(0),
        ],
        (true, true, true, true) => seq![
            Constraint::Length(3),
            Constraint::Min(40),
            Constraint::Length(3),
        ],
        (true, true, true, false) => seq![
            Constraint::Length(3),
            Constraint::Ratio(2, 3),
            Constraint::Ratio(1, 3),
        ],
        (true, true, false, true) => seq![
            Constraint::Percentage(20),
            Constraint::Min(40),
            Constraint::Length(3),
        ],
        (true, true, false, false) => seq![
            Constraint::Percentage(20),
            Constraint::Percentage(50),
            Constraint::Percentage(30),
        ],
    }
}

fn three(a: Constraint, b: Constraint, c: Constraint) -> (r: Vec<Constraint>)
    ensures
        r@ == seq![a, b, c],
{
    let mut wishes: Vec<Constraint> = Vec::new();
    wishes.push(a);
    wishes.push(b);
    wishes.push(c);
    wishes
}

fn content_constraints(width: u16, browse: &BrowseState) -> (r: Vec<Constraint>)
    ensures
        r@ == content_wishes(width as int, *browse),
{
    match (
        browse.explore_enabled,
        browse.info_enabled,
        browse.nav.explore_collapsed,
        browse.nav.info_collapsed,
    ) {
        (false, false, _, _) => three(
            Constraint::Length(0),
            Constraint::Percentage(100),
            Constraint::Length(0),
        ),
        (false, true, _, true) => three(
            Constraint::Length(0),
            Constraint::Min(40),
            Constraint::Length(3),
        ),
        (false, true, _, false) => {
            let info: u16 = width / 3;
            three(
                Constraint::Length(0),
                Constraint::Length(width.saturating_sub(info)),
                Constraint::Length(info),
            )
        },
        (true, false, true, _) => three(
            Constraint::Length(3),
            Constraint::Min(40),
            Constraint::Length(0),
        ),
        (true, false, false, _) => three(
            Constraint::Percentage(20),
            Constraint::Percentage(80),
            Constraint::Length(0),
        ),
        (true, true, true, true) => three(
            Constraint::Length(3),
            Constraint::Min(40),
            Constraint::Length(3),
        ),
        (true, true, true, false) => three(
            Constraint::Length(3),
            Constraint::Ratio(2, 3),
            Constraint::Ratio(1, 3),
        ),
        (true, true, false, true) => three(
            Constraint::Percentage(20),
            Constraint::Min(40),
            Constraint::Length(3),
        ),
        (true, true, false, false) => three(
            Constraint::Percentage(20),
            Constraint::Percentage(50),
            Constraint::Percentage(30),
        ),
    }
}

/// Where the tree and the file list end, counted from the left edge of `width` columns;
/// the info pane takes what follows. Left open where a minimum leaves too little for two
/// collapsed panes, and in fewer than nine columns beside a collapsed tree.
pub open spec fn pane_ends(width: int, browse: BrowseState) -> Option<(int, int)> {
    let room = minus(width, 40);
    let strip = least(3, room);
    match (
        browse.explore_enabled,
        browse.info_enabled,
        browse.nav.explore_collapsed,
        browse.nav.info_collapsed,
    ) {
        (false, false, _, _) => Some((0, width)),
        (false, true, _, true) => Some((0, width - strip)),
        (false, true, _, false) => Some((0, width - width / 3)),
        (true, false, true, _) => Some((strip, width)),
        (true, false, false, _) => Some(((20 * width + 50) / 100, width)),
        (true, true, true, true) => if room >= 6 {
            Some((3, width - 3))
        } else if room == 0 {
            Some((0, width))
        } else {
            None
        },
        (true, true, true, false) => if width >= 9 {
            Some((3, (4 * width + 3) / 6))
        } else {
            None
        },
        (true, true, false, true) => Some(
            (
                if 20 * width <= 100 * (room - strip) {
                    (20 * width + 50) / 100
                } else {
                    room - strip
                },
                width - strip,
            ),
        ),
        (true, true, false, false) => Some(((20 * width + 50) / 100, (70 * width + 50) / 100)),
    }
}

/// `panes` have the columns of the tree, the file list and the info pane.
pub open spec fn panes_end_at(area: Rect, ends: (int, int), panes: Seq<Rect>) -> bool {
    &&& panes.len() == 3
    &&& panes[0] == part_rect(Direction::Horizontal, area, 0, ends.0)
    &&& panes[1] == part_rect(Direction::Horizontal, area, ends.0, ends.1)
    &&& panes[2] == part_rect(Direction::Horizontal, area, ends.1, area.width as int)
}

/// What a wish adds to those of rank `low` and above.
spec fn wish_from(constraint: Constraint, size: int, low: int) -> int {
    if rank(constraint) >= low {
        wish(constraint, size)
    } else {
        0
    }
}

proof fn lemma_wished_by_three(all: Seq<Constraint>, size: int)
    requires
        all.len() == 3,
    ensures
        forall|low: int|
            #[trigger] asked(all, size, low) == wish_from(all[0], size, low) + wish_from(
                all[1],
                size,
                low,
            ) + wish_from(all[2], size, low),
{
    reveal_with_fuel(wished, 4);
}

proof fn lemma_three_parts(all: Seq<Constraint>, flexible: int, size: int)
    requires
        all.len() == 3,
        flexible == 1 || flexible == 3,
    ensures
        ({
            let first = granted(all, size, 0);
            let third = granted(all, size, 2);
            let second = if flexible == 1 {
                100 * size - first - third
            } else {
                granted(all, size, 1)
            };
            &&& part_start(all, flexible, size, 0) == 0
            &&& part_start(all, flexible, size, 1) == (first + 50) / 100
            &&& part_start(all, flexible, size, 2) == (first + second + 50) / 100
            &&& part_start(all, flexible, size, 3) == (first + second + third + 50) / 100
        }),
{
    reveal_with_fuel(granted_before, 4);
}

/// Where `a` and `b` are of one rank and both wish for room, their rank is decided.
spec fn no_contest(all: Seq<Constraint>, size: int, a: Constraint, b: Constraint) -> bool {
    rank(a) == rank(b) && wish(a, size) > 0 && wish(b, size) > 0 ==> decided(all, size, rank(a))
}

proof fn lemma_three_settled(all: Seq<Constraint>, flexible: int, size: int)
    requires
        all.len() == 3,
        flexible == 1 || flexible == 3,
        flexible == 1 <==> all[1] is Min,
        all[0] is Length || all[0] is Percentage,
        all[1] is Min || all[1] is Length || all[1] is Percentage,
        all[2] is Length || all[2] is Percentage,
        no_contest(all, size, all[0], all[1]),
        no_contest(all, size, all[0], all[2]),
        no_contest(all, size, all[1], all[2]),
    ensures
        settled(all, flexible, size),
{
    assert forall|i: int, j: int|
        0 <= i < j < all.len() && rank(#[trigger] all[i]) == rank(#[trigger] all[j]) && wish(
            all[i],
            size,
        ) > 0 && wish(all[j], size) > 0 implies decided(all, size, rank(all[i])) by {
        assert(no_contest(all, size, all[i], all[j]));
    }
}

proof fn lemma_placed(area: Rect, all: Seq<Constraint>, flexible: int, panes: Seq<Rect>)
    requires
        all.len() == 3,
        divides(Direction::Horizontal, all, area, panes),
        settled(all, flexible, area.width as int),
        part_start(all, flexible, area.width as int, 0) == 0,
        part_start(all, flexible, area.width as int, 3) == area.width,
    ensures
        panes_end_at(
            area,
            (
                part_start(all, flexible, area.width as int, 1),
                part_start(all, flexible, area.width as int, 2),
            ),
            panes,
        ),
{
    reveal(sized);
    let size = area.width as int;
    assert(settled(all, flexible, size));
    assert(extent(Direction::Horizontal, area) == size);
    assert(panes[0] == part_rect(Direction::Horizontal, area, 0, part_start(all, flexible, size, 1)));
    assert(panes[1] == part_rect(
        Direction::Horizontal,
        area,
        part_start(all, flexible, size, 1),
        part_start(all, flexible, size, 2),
    ));
    assert(panes[2] == part_rect(
        Direction::Horizontal,
        area,
        part_start(all, flexible, size, 2),
        size,
    ));
}

/// Three wishes that add up to the whole width are all met.
proof fn lemma_exact_wishes(area: Rect, all: Seq<Constraint>, panes: Seq<Rect>)
    requires
        all.len() == 3,
        all[0] is Length || all[0] is Percentage,
        all[1] is Length || all[1] is Percentage,
        all[2] is Length || all[2] is Percentage,
        wish(all[0], area.width as int) >= 0,
        wish(all[1], area.width as int) >= 0,
        wish(all[2], area.width as int) >= 0,
        wish(all[0], area.width as int) + wish(all[1], area.width as int) + wish(
            all[2],
            area.width as int,
        ) == 100 * area.width,
        divides(Direction::Horizontal, all, area, panes),
    ensures
        panes_end_at(
            area,
            (
                (wish(all[0], area.width as int) + 50) / 100,
                (wish(all[0], area.width as int) + wish(all[1], area.width as int) + 50) / 100,
            ),
            panes,
        ),
{
    let size = area.width as int;
    lemma_wished_by_three(all, size);
    lemma_three_parts(all, 3, size);
    assert(asked(all, size, 3) == 0);
    assert(asked(all, size, 2) <= 100 * size);
    assert(asked(all, size, 1) <= 100 * size);
    lemma_three_settled(all, 3, size);
    assert(granted(all, size, 0) == wish(all[0], size));
    assert(granted(all, size, 1) == wish(all[1], size));
    assert(granted(all, size, 2) == wish(all[2], size));
    lemma_placed(area, all, 3, panes);
}

/// A minimum between two wishes is met first, the length of the two next.
proof fn lemma_wishes_beside_a_minimum(area: Rect, all: Seq<Constraint>, panes: Seq<Rect>)
    requires
        all.len() == 3,
        all[0] is Length || all[0] is Percentage,
        all[1] is Min,
        all[2] is Length,
        wish(all[0], area.width as int) >= 0,
        all[0] is Percentage || wish(all[0], area.width as int) == 0 || wish(
            all[2],
            area.width as int,
        ) == 0 || wish(all[1], area.width as int) >= 100 * area.width || wish(
            all[0],
            area.width as int,
        ) + wish(all[1], area.width as int) + wish(all[2], area.width as int) <= 100 * area.width,
        divides(Direction::Horizontal, all, area, panes),
    ensures
        ({
            let size = area.width as int;
            let room = minus(100 * size, wish(all[1], size));
            let tail = least(wish(all[2], size), room);
            let head = least(
                wish(all[0], size),
                if all[0] is Percentage {
                    room - tail
                } else {
                    room
                },
            );
            panes_end_at(area, ((head + 50) / 100, (100 * size - tail + 50) / 100), panes)
        }),
{
    let size = area.width as int;
    lemma_wished_by_three(all, size);
    lemma_three_parts(all, 1, size);
    assert(asked(all, size, 3) == wish(all[1], size));
    if all[0] is Percentage {
        assert(asked(all, size, 2) == wish(all[1], size) + wish(all[2], size));
    } else {
        assert(asked(all, size, 2) == wish(all[0], size) + wish(all[1], size) + wish(all[2], size));
        assert(no_contest(all, size, all[0], all[2]));
    }
    lemma_three_settled(all, 1, size);
    lemma_placed(area, all, 1, panes);
}

/// The panes have exactly the columns that `pane_ends` gives.
pub proof fn panes_have_their_columns(area: Rect, browse: BrowseState, panes: Seq<Rect>)
    requires
        divides(Direction::Horizontal, content_wishes(area.width as int, browse), area, panes),
    ensures
        match pane_ends(area.width as int, browse) {
            Some(ends) => panes_end_at(area, ends, panes),
            None => true,
        },
{
    let size = area.width as int;
    let all = content_wishes(size, browse);
    if pane_ends(size, browse) is Some {
        if all[1] is Ratio {
            reveal(sized);
            assert(all =~= length_and_thirds(3));
        } else if all[1] is Min {
            assert(all[1] == Constraint::Min(40));
            assert(all[0] is Percentage ==> all[0] == Constraint::Percentage(20));
            lemma_wishes_beside_a_minimum(area, all, panes);
        } else {
            lemma_exact_wishes(area, all, panes);
        }
    }
}

/// The places of the tree, the file list and the info pane.
pub fn browse_content_layout(area: Rect, browse: &BrowseState) -> (r: Vec<Rect>)
    requires
        area.wf(),
    ensures
        divides(Direction::Horizontal, content_wishes(area.width as int, *browse), area, r@),
        r@.len() == 3,
        match pane_ends(area.width as int, *browse) {
            Some(ends) => panes_end_at(area, ends, r@),
            None => true,
        },
{
    let wishes = content_constraints(area.width, browse);
    let r = split(Direction::Horizontal, &wishes, area);
    proof {
        panes_have_their_columns(area, *browse, r@);
    }
    r
}

/// The editor that is open, if any.
pub open spec fn inline_of<'a>(app: &'a AppState) -> Option<&'a BrowseInlineEditState> {
    match app.shown.browse_inline_edit {
        Some(state) => Some(&state),
        None => None,
    }
}

fn inline_edit_of<'a>(app: &'a AppState) -> (r: Option<&'a BrowseInlineEditState>)
    ensures
        r == inline_of(app),
{
    match &app.shown.browse_inline_edit {
        Some(state) => Some(state),
        None => None,
    }
}

/// The keyboard moves the cursor of the file list or the tree.
pub open spec fn navigation_focus(app: AppState) -> bool {
    app.shown.browse_info_focus is None && (!app.browse.search.active
        || !app.browse.search.input_focused)
}

fn has_navigation_focus(app: &AppState) -> (r: bool)
    ensures
        r == navigation_focus(*app),
{
    app.shown.browse_info_focus.is_none() && (!app.browse.search.active
        || !app.browse.search.input_focused)
}

/// What the tree shows besides itself.
pub open spec fn tree_context<'a>(app: &'a AppState) -> TreeContext<'a> {
    TreeContext {
        inline: inline_of(app),
        hover: app.shown.hover_target,
        navigation_focus_active: navigation_focus(*app),
    }
}

/// What the file list shows besides itself.
pub open spec fn list_context<'a>(app: &'a AppState) -> ListContext<'a> {
    ListContext {
        inline: inline_of(app),
        hover: app.shown.hover_target,
        navigation_focus_active: navigation_focus(*app),
    }
}

/// The pane with the tree: open, collapsed or off.
pub open spec fn explore_part(app: AppState, area: Rect) -> (SceneV, Seq<Hit>) {
    if !app.browse.explore_enabled {
        (Seq::empty(), Seq::empty())
    } else if app.browse.nav.explore_collapsed {
        if area.width > 0 && area.height > 0 {
            (
                collapsed_scene(area, BrowsePaneId::Explore, "explore"@),
                seq![(TuiButton::BrowsePaneToggle(BrowsePaneId::Explore), area)],
            )
        } else {
            (Seq::empty(), Seq::empty())
        }
    } else if explore_fits(area) {
        (
            explore_scene(area, app.browse, tree_context(&app), app.shown.tree_scrollbar),
            explore_hits(area, app.browse, tree_context(&app), app.shown.tree_scrollbar),
        )
    } else {
        (Seq::empty(), Seq::empty())
    }
}

fn draw_explore_part(app: &AppState, area: Rect) -> (r: (Scene, ButtonRenderMap))
    ensures
        r.0@ == explore_part(*app, area).0,
        r.1@ == explore_part(*app, area).1,
{
    let mut scene = Scene::new();
    let mut hits = ButtonRenderMap::new();
    if app.browse.explore_enabled {
        if app.browse.nav.explore_collapsed {
            draw_collapsed_pane(&mut scene, area, BrowsePaneId::Explore, "explore", &mut hits);
        } else {
            draw_explore_pane(
                &mut scene,
                area,
                &app.browse,
                inline_edit_of(app),
                &mut hits,
                app.shown.hover_target,
                has_navigation_focus(app),
                app.shown.tree_scrollbar,
            );
        }
    }
    proof {
        assert(scene@ =~= explore_part(*app, area).0);
        assert(hits@ =~= explore_part(*app, area).1);
    }
    (scene, hits)
}

/// The list is not scrolled past its end where it shows entries or names a new one.
pub open spec fn list_drawable(app: AppState) -> bool {
    app.browse.lists_entries() || create_editor(app.browse, inline_of(&app)) is Some
        ==> app.browse.wf()
}

/// The file list with its scrollbar.
pub open spec fn list_part(app: AppState, area: Rect) -> (SceneV, Seq<Hit>) {
    let title = seq![
        (
            TuiButton::BrowsePaneTitle(BrowsePaneId::Browse),
            cell(area.x as int, area.y as int, area.width as int),
        ),
    ];
    if list_fits(area) {
        let bar = list_scrollbar(area, app.browse);
        let (bar_scene, bar_hits) = match app.shown.list_scrollbar {
            Some(m) => (
                scrollbar_scene(bar, m),
                seq![
                    (TuiButton::ScrollbarTrack(ScrollbarSurface::BrowseList), bar),
                    (
                        TuiButton::ScrollbarThumb(ScrollbarSurface::BrowseList),
                        thumb_rect(bar, m),
                    ),
                ],
            ),
            None => (Seq::empty(), Seq::empty()),
        };
        (
            list_scene(
                area,
                &app.browse,
                list_context(&app),
                column_layout(minus(area.width as int, 2), app.browse.columns@),
            ) + bar_scene,
            list_hits(
                area,
                app.browse,
                inline_of(&app),
                create_editor(app.browse, inline_of(&app)) is Some,
            ) + bar_hits + title,
        )
    } else {
        (Seq::empty(), title)
    }
}

fn draw_list_part(app: &AppState, area: Rect) -> (r: (Scene, ButtonRenderMap))
    requires
        list_drawable(*app),
    ensures
        r.0@ == list_part(*app, area).0,
        r.1@ == list_part(*app, area).1,
{
    let mut scene = Scene::new();
    let mut hits = ButtonRenderMap::new();
    let inline = inline_edit_of(app);
    let place = draw_browse_list(
        &mut scene,
        area,
        &app.browse,
        inline,
        app.shown.hover_target,
        has_navigation_focus(app),
    );
    let creating = find_create_editor(&app.browse, inline).is_some();
    register_browse_buttons(&mut hits, area, &app.browse, inline, creating);
    match place {
        Some(bar) => match draw_vertical_scrollbar(&mut scene, bar, app.shown.list_scrollbar) {
            Some((track, thumb)) => {
                hits.record_button(TuiButton::ScrollbarTrack(ScrollbarSurface::BrowseList), track);
                hits.record_button(TuiButton::ScrollbarThumb(ScrollbarSurface::BrowseList), thumb);
            },
            None => {},
        },
        None => {},
    }
    hits.record_button(
        TuiButton::BrowsePaneTitle(BrowsePaneId::Browse),
        Rect { x: area.x, y: area.y, width: area.width, height: 1 },
    );
    proof {
        assert(scene@ =~= list_part(*app, area).0);
        assert(hits@ =~= list_part(*app, area).1);
    }
    (scene, hits)
}

/// The button that collapses the info pane.
pub open spec fn info_toggle(area: Rect) -> Hit {
    (
        TuiButton::BrowsePaneToggle(BrowsePaneId::Info),
        cell(
            plus16(area.x as int, 1),
            area.y as int,
            least(7, minus(area.width as int, 2)),
        ),
    )
}

/// The info pane: open, collapsed or off.
pub open spec fn info_part(app: AppState, area: Rect) -> (SceneV, Seq<Hit>) {
    if !app.browse.info_enabled {
        (Seq::empty(), Seq::empty())
    } else if app.browse.nav.info_collapsed {
        if area.width > 0 && area.height > 0 {
            (
                collapsed_scene(area, BrowsePaneId::Info, "info"@),
                seq![(TuiButton::BrowsePaneToggle(BrowsePaneId::Info), area)],
            )
        } else {
            (Seq::empty(), Seq::empty())
        }
    } else if info_fits(area) {
        let info = shown_info(
            area,
            selected_of(&app.browse),
            app.browse.facts,
            inline_of(&app),
            app.shown.browse_info_focus,
            app.shown.hover_target,
        );
        (info_scene(area, info), info_hits(area, info).push(info_toggle(area)))
    } else {
        (Seq::empty(), seq![info_toggle(area)])
    }
}

/// The selected entry, if any.
pub open spec fn selected_of<'a>(browse: &'a BrowseState) -> Option<&'a crate::browse::BrowseEntry> {
    match browse.selected() {
        Some(entry) => Some(&entry),
        None => None,
    }
}

fn draw_info_part(app: &AppState, area: Rect) -> (r: (Scene, ButtonRenderMap))
    ensures
        r.0@ == info_part(*app, area).0,
        r.1@ == info_part(*app, area).1,
{
    let mut scene = Scene::new();
    let mut hits = ButtonRenderMap::new();
    if app.browse.info_enabled {
        if app.browse.nav.info_collapsed {
            draw_collapsed_pane(&mut scene, area, BrowsePaneId::Info, "info", &mut hits);
        } else {
            let entry = app.browse.selected_entry();
            proof {
                assert(entry == selected_of(&app.browse));
            }
            draw_browse_info(
                &mut scene,
                area,
                entry,
                &app.browse.facts,
                inline_edit_of(app),
                app.shown.browse_info_focus,
                &mut hits,
                app.shown.hover_target,
            );
            let room: u16 = area.width.saturating_sub(2);
            hits.record_button(
                TuiButton::BrowsePaneToggle(BrowsePaneId::Info),
                Rect {
                    x: area.x.saturating_add(1),
                    y: area.y,
                    width: if room >= 7 { 7 } else { room },
                    height: 1,
                },
            );
        }
    }
    proof {
        assert(scene@ =~= info_part(*app, area).0);
        assert(hits@ =~= info_part(*app, area).1);
    }
    (scene, hits)
}

/// Whether the strip of tabs has a row: there are several tabs.
pub open spec fn several_tabs(browse: BrowseState) -> bool {
    browse.nav.tabs@.len() > 1
}

/// Everything above the footer.
pub open spec fn front_part(app: AppState, chunks: Seq<Rect>, panes: Seq<Rect>) -> (SceneV, Seq<Hit>) {
    let strip = if several_tabs(app.browse) && strip_shown(chunks[2], app.browse) {
        (tab_strip(chunks[2], app.browse).scene, tab_strip(chunks[2], app.browse).hits)
    } else {
        (Seq::empty(), Seq::empty())
    };
    let explore = explore_part(app, panes[0]);
    let list = list_part(app, panes[1]);
    let info = info_part(app, panes[2]);
    (
        header_scene(chunks[0], app.shown.version@) + toolbar_scene(
            chunks[1],
            app.browse,
            app.shown.home@,
        ) + strip.0 + explore.0 + list.0 + info.0,
        toolbar_hits(chunks[1], app.browse) + strip.1 + explore.1 + list.1 + info.1,
    )
}

/// Draws everything above the footer, in its places.
pub fn draw_browse_front(app: &AppState, chunks: &Vec<Rect>, panes: &Vec<Rect>) -> (r: (
    Scene,
    ButtonRenderMap,
))
    requires
        list_drawable(*app),
        chunks@.len() == 5,
        panes@.len() == 3,
    ensures
        r.0@ == front_part(*app, chunks@, panes@).0,
        r.1@ == front_part(*app, chunks@, panes@).1,
{
    let mut scene = Scene::new();
    let mut hits = ButtonRenderMap::new();
    draw_header(&mut scene, chunks[0], app.shown.version.as_str());
    draw_browse_toolbar(&mut scene, chunks[1], &app.browse, app.shown.home.as_str(), &mut hits);
    if app.browse.nav.tabs.len() > 1 {
        draw_browse_tab_strip(&mut scene, chunks[2], &app.browse, &mut hits);
    }
    let (explore, explore_buttons) = draw_explore_part(app, panes[0]);
    scene.append(explore);
    hits.append(explore_buttons);
    let (list, list_buttons) = draw_list_part(app, panes[1]);
    scene.append(list);
    hits.append(list_buttons);
    let (info, info_buttons) = draw_info_part(app, panes[2]);
    scene.append(info);
    hits.append(info_buttons);
    proof {
        assert(scene@ =~= front_part(*app, chunks@, panes@).0);
        assert(hits@ =~= front_part(*app, chunks@, panes@).1);
    }
    (scene, hits)
}

/// Where the options menu hangs: at its button, or where that would be.
pub open spec fn menu_anchor(below: Seq<Hit>, toolbar: Rect) -> Rect {
    match latest_rect(below, TuiButton::BrowseToolbarOptions, below.len()) {
        Some(place) => place,
        None => options_anchor(toolbar),
    }
}

/// The options menu, where it is open.
pub open spec fn menu_part(app: AppState, area: Rect, toolbar: Rect, below: Seq<Hit>) -> (SceneV, Seq<
    Hit,
>) {
    if app.browse.options.options_menu == BrowseOptionsMenu::Closed {
        (Seq::empty(), Seq::empty())
    } else {
        let anchor = menu_anchor(below, toolbar);
        (
            options_scene(
                anchor,
                area,
                app.browse,
                app.shown.archive_listing@,
                app.shown.hover_target,
            ),
            options_hits(anchor, area, app.browse, app.shown.archive_listing@),
        )
    }
}

/// The bookmarks are shown: they are open, their button is on the screen, and the screen
/// has room for them.
pub open spec fn bookmarks_shown(app: AppState, area: Rect, below: Seq<Hit>) -> bool {
    app.shown.bookmarks.dropdown_open && latest_rect(
        below,
        TuiButton::BrowseBookmarksToggle,
        below.len(),
    ) is Some && bookmarks_fit(area)
}

/// The bookmarks, where they are shown.
pub open spec fn bookmarks_part(app: AppState, area: Rect, below: Seq<Hit>) -> (SceneV, Seq<Hit>) {
    if bookmarks_shown(app, area, below) {
        let anchor = latest_rect(below, TuiButton::BrowseBookmarksToggle, below.len())->0;
        (
            dropdown_scene(anchor, area, app.shown.bookmarks, app.shown.hover_target),
            dropdown_hits(anchor, area, app.shown.bookmarks),
        )
    } else {
        (Seq::empty(), Seq::empty())
    }
}

/// Draws the menus on top of the screen. Returns whether the bookmarks can stay open.
pub fn draw_browse_menus(app: &AppState, area: Rect, toolbar: Rect, hits: &mut ButtonRenderMap) -> (r: (
    Scene,
    bool,
))
    ensures
        ({
            let menu = menu_part(*app, area, toolbar, old(hits)@);
            let marks = bookmarks_part(*app, area, old(hits)@ + menu.1);
            &&& r.0@ == menu.0 + marks.0
            &&& final(hits)@ == old(hits)@ + menu.1 + marks.1
            &&& r.1 == bookmarks_shown(*app, area, old(hits)@ + menu.1)
        }),
{
    let mut scene = Scene::new();
    let ghost menu = menu_part(*app, area, toolbar, hits@);
    if app.browse.options.options_menu != BrowseOptionsMenu::Closed {
        let anchor = match hits.find_button_rect(&TuiButton::BrowseToolbarOptions) {
            Some(place) => place,
            None => options_button_anchor_for_toolbar(toolbar),
        };
        draw_options_menu(
            &mut scene,
            anchor,
            area,
            &app.browse,
            app.shown.archive_listing.as_str(),
            hits,
            app.shown.hover_target,
        );
    }
    proof {
        assert(scene@ =~= menu.0);
        assert(hits@ =~= old(hits)@ + menu.1);
    }
    let ghost marks = bookmarks_part(*app, area, hits@);
    let mut open = false;
    if app.shown.bookmarks.dropdown_open {
        match hits.find_button_rect(&TuiButton::BrowseBookmarksToggle) {
            Some(anchor) => {
                open = draw_bookmarks_dropdown(
                    &mut scene,
                    anchor,
                    area,
                    &app.shown.bookmarks,
                    hits,
                    app.shown.hover_target,
                );
            },
            None => {},
        }
    }
    proof {
        assert(scene@ =~= menu.0 + marks.0);
        assert(hits@ =~= old(hits)@ + menu.1 + marks.1);
    }
    (scene, open)
}

/// The rows of the screen: header, toolbar, tabs, contents and footer.
pub open spec fn browse_rows(several: bool) -> Seq<Constraint> {
    seq![
        Constraint::Length(7),
        Constraint::Length(5),
        Constraint::Length(
            if several {
                1u16
            } else {
                0u16
            },
        ),
        Constraint::Min(10),
        Constraint::Length(2),
    ]
}

/// The message in the footer, if any.
pub open spec fn message_of(app: AppState) -> Option<Seq<char>> {
    match app.status {
        Some(text) => Some(text@),
        None => None,
    }
}

/// The message in the footer, if any.
pub fn status_of(app: &AppState) -> (r: Option<&str>)
    ensures
        words(r) == message_of(*app),
{
    match &app.status {
        Some(text) => Some(text.as_str()),
        None => None,
    }
}

/// `scene` and `hits` show the screen in its rows and panes, and `open` says whether the
/// bookmarks can stay open.
pub open spec fn shows_browse_in(
    app: AppState,
    area: Rect,
    chunks: Seq<Rect>,
    panes: Seq<Rect>,
    scene: SceneV,
    hits: Seq<Hit>,
    open: bool,
) -> bool {
    let front = front_part(app, chunks, panes);
    exists|footer: SceneV, footer_hits: Seq<Hit>| #[trigger]
        shows_footer(
            chunks[4],
            app.current_screen,
            message_of(app),
            app.shown.has_file_task_messages,
            footer,
            footer_hits,
        ) && ({
            let below = front.1 + footer_hits;
            let menu = menu_part(app, area, chunks[1], below);
            let marks = bookmarks_part(app, area, below + menu.1);
            &&& scene == front.0 + footer + menu.0 + marks.0
            &&& hits == below + menu.1 + marks.1
            &&& open == bookmarks_shown(app, area, below + menu.1)
        })
}

/// `app` once the browse screen was drawn in `area`, with the tree, the list and the info
/// pane in `panes`: it keeps where it was drawn and how much the list, the tree and the
/// bookmarks can show, as far as they were drawn, and bookmarks that cannot be shown are
/// closed (`open` is false then).
pub open spec fn drawn_in(app: AppState, area: Rect, panes: Seq<Rect>, open: bool) -> AppState {
    AppState {
        browse: BrowseState {
            last_render_area: Some(area),
            visible_height: if list_fits(panes[1]) {
                list_capacity(panes[1], app.browse, inline_of(&app)) as usize
            } else {
                app.browse.visible_height
            },
            nav: BrowseNavigation {
                tree_visible_height: if tree_drawn_in(app, panes[0]) {
                    tree_capacity(panel_inside(panes[0]), inline_of(&app)) as usize
                } else {
                    app.browse.nav.tree_visible_height
                },
                ..app.browse.nav
            },
            ..app.browse
        },
        shown: ShownState {
            bookmarks: BookmarksState {
                dropdown_open: open,
                dropdown_visible_rows: if open {
                    bookmark_capacity(area) as usize
                } else {
                    app.shown.bookmarks.dropdown_visible_rows
                },
                ..app.shown.bookmarks
            },
            ..app.shown
        },
        ..app
    }
}

/// The tree is drawn in `area`: it is on, not collapsed, and has room.
pub open spec fn tree_drawn_in(app: AppState, area: Rect) -> bool {
    app.browse.explore_enabled && !app.browse.nav.explore_collapsed && explore_fits(area)
}

/// The rows and panes of the browse screen in `area`.
pub open spec fn browse_places(app: AppState, area: Rect, chunks: Seq<Rect>, panes: Seq<Rect>) -> bool {
    divides(Direction::Vertical, browse_rows(several_tabs(app.browse)), area, chunks) && divides(
        Direction::Horizontal,
        content_wishes(chunks[3].width as int, app.browse),
        chunks[3],
        panes,
    )
}

/// `scene` and `hits` show the screen, and `after` is `app` once it was drawn.
pub open spec fn shows_browse(
    app: AppState,
    after: AppState,
    area: Rect,
    scene: SceneV,
    hits: Seq<Hit>,
) -> bool {
    exists|chunks: Seq<Rect>, panes: Seq<Rect>, open: bool| #[trigger]
        shows_browse_in(app, area, chunks, panes, scene, hits, open) && browse_places(
            app,
            area,
            chunks,
            panes,
        ) && after == drawn_in(app, area, panes, open)
}

fn browse_chunks(area: Rect, several: bool) -> (r: Vec<Rect>)
    requires
        area.wf(),
    ensures
        divides(Direction::Vertical, browse_rows(several), area, r@),
        r@.len() == 5,
{
    let strip: u16 = if several { 1 } else { 0 };
    let mut wishes: Vec<Constraint> = Vec::new();
    wishes.push(Constraint::Length(7));
    wishes.push(Constraint::Length(5));
    wishes.push(Constraint::Length(strip));
    wishes.push(Constraint::Min(10));
    wishes.push(Constraint::Length(2));
    proof {
        assert(wishes@ =~= browse_rows(several));
    }
    split(Direction::Vertical, &wishes, area)
}

#[verifier::spinoff_prover]
#[verifier::rlimit(60)]
fn draw_browse_in(app: &AppState, area: Rect, chunks: &Vec<Rect>, panes: &Vec<Rect>) -> (r: (
    Scene,
    ButtonRenderMap,
    bool,
))
    requires
        list_drawable(*app),
        chunks@.len() == 5,
        panes@.len() == 3,
        chunks@[4].wf(),
    ensures
        shows_browse_in(*app, area, chunks@, panes@, r.0@, r.1@, r.2),
{
    let (mut scene, mut hits) = draw_browse_front(app, chunks, panes);
    let (footer, footer_hits) = draw_footer(
        chunks[4],
        app.current_screen,
        status_of(app),
        app.shown.has_file_task_messages,
    );
    let ghost shown = footer@;
    let ghost shown_hits = footer_hits@;
    scene.append(footer);
    hits.append(footer_hits);
    let ghost below = hits@;
    let (menus, open) = draw_browse_menus(app, area, chunks[1], &mut hits);
    let ghost menu = menu_part(*app, area, chunks@[1], below);
    let ghost marks = bookmarks_part(*app, area, below + menu.1);
    let ghost lower = scene@;
    scene.append(menus);
    proof {
        assert(scene@ =~= lower + menu.0 + marks.0);
        assert(shows_footer(
            chunks@[4],
            app.current_screen,
            message_of(*app),
            app.shown.has_file_task_messages,
            shown,
            shown_hits,
        ));
    }
    (scene, hits, open)
}

/// What the scrollbars of the list and the tree are worked out from, with the list and the
/// tree in `panes`.
pub open spec fn scrolls_in(app: AppState, panes: Seq<Rect>) -> (
    Option<ScrollRequest>,
    Option<ScrollRequest>,
) {
    (
        scrolls_list(panes[1], app.browse, inline_of(&app)),
        if tree_drawn_in(app, panes[0]) {
            scrolls_tree(panes[0], app.browse, inline_of(&app))
        } else {
            None
        },
    )
}

/// What the scrollbars of the list and the tree are worked out from when the browse screen
/// is drawn in `area`.
pub fn browse_scroll_requests(area: Rect, app: &AppState) -> (r: (
    Option<ScrollRequest>,
    Option<ScrollRequest>,
))
    requires
        area.wf(),
    ensures
        exists|chunks: Seq<Rect>, panes: Seq<Rect>| #[trigger]
            browse_places(*app, area, chunks, panes) && r == scrolls_in(*app, panes),
{
    let chunks = browse_chunks(area, app.browse.nav.tabs.len() > 1);
    assert(chunks@[3].within(area));
    let panes = browse_content_layout(chunks[3], &app.browse);
    let inline = inline_edit_of(app);
    let list = list_scroll_request(panes[1], &app.browse, inline);
    let tree = if app.browse.explore_enabled && !app.browse.nav.explore_collapsed {
        tree_scroll_request(panes[0], &app.browse, inline)
    } else {
        None
    };
    proof {
        assert(browse_places(*app, area, chunks@, panes@));
        assert((list, tree) == scrolls_in(*app, panes@));
    }
    (list, tree)
}

fn capacities(app: &AppState, area: Rect, panes: &Vec<Rect>, open: bool) -> (r: (
    usize,
    usize,
    usize,
))
    requires
        panes@.len() == 3,
    ensures
        ({
            let after = drawn_in(*app, area, panes@, open);
            &&& r.0 == after.browse.visible_height
            &&& r.1 == after.browse.nav.tree_visible_height
            &&& r.2 == after.shown.bookmarks.dropdown_visible_rows
        }),
{
    let inline = inline_edit_of(app);
    let list: usize = if panes[1].height >= 4 && panes[1].width >= 20 {
        browse_list_capacity(panes[1], &app.browse, inline)
    } else {
        app.browse.visible_height
    };
    let tree: usize = if app.browse.explore_enabled && !app.browse.nav.explore_collapsed
        && panes[0].height >= 3 && panes[0].width >= 6 {
        explore_tree_capacity(panes[0], inline)
    } else {
        app.browse.nav.tree_visible_height
    };
    let marks: usize = if open {
        bookmark_dropdown_rows(area)
    } else {
        app.shown.bookmarks.dropdown_visible_rows
    };
    (list, tree, marks)
}

fn keep_heights(browse: &mut BrowseState, area: Rect, list: usize, tree: usize)
    ensures
        *final(browse) == (BrowseState {
            last_render_area: Some(area),
            visible_height: list,
            nav: BrowseNavigation { tree_visible_height: tree, ..old(browse).nav },
            ..*old(browse)
        }),
{
    browse.last_render_area = Some(area);
    browse.visible_height = list;
    browse.nav.tree_visible_height = tree;
}

fn keep_bookmarks(shown: &mut ShownState, open: bool, rows: usize)
    ensures
        *final(shown) == (ShownState {
            bookmarks: BookmarksState {
                dropdown_open: open,
                dropdown_visible_rows: rows,
                ..old(shown).bookmarks
            },
            ..*old(shown)
        }),
{
    shown.bookmarks.dropdown_open = open;
    shown.bookmarks.dropdown_visible_rows = rows;
}

fn keep_drawn(app: &mut AppState, area: Rect, panes: &Vec<Rect>, open: bool)
    requires
        panes@.len() == 3,
    ensures
        *final(app) == drawn_in(*old(app), area, panes@, open),
{
    let (list, tree, marks) = capacities(app, area, panes, open);
    keep_heights(&mut app.browse, area, list, tree);
    keep_bookmarks(&mut app.shown, open, marks);
}

/// Draw the full browse screen, and keep where it was drawn and how much its lists can
/// show. Bookmarks that cannot be shown are closed: a menu out of sight does not keep the
/// keyboard.
pub fn draw_browse_screen(area: Rect, app: &mut AppState) -> (r: (Scene, ButtonRenderMap))
    requires
        area.wf(),
        list_drawable(*old(app)),
    ensures
        shows_browse(*old(app), *final(app), area, r.0@, r.1@),
{
    let chunks = browse_chunks(area, app.browse.nav.tabs.len() > 1);
    assert(chunks@[3].within(area) && chunks@[4].within(area));
    let panes = browse_content_layout(chunks[3], &app.browse);
    let (scene, hits, open) = draw_browse_in(app, area, &chunks, &panes);
    proof {
        assert(browse_places(*old(app), area, chunks@, panes@));
    }
    keep_drawn(app, area, &panes, open);
    (scene, hits)
}

/// The list is drawn with as many entries as it then keeps as its height: what it scrolls
/// by is what it shows.
pub proof fn list_scrolls_by_what_it_shows(
    app: AppState,
    area: Rect,
    panes: Seq<Rect>,
    open: bool,
)
    requires
        list_fits(panes[1]),
    ensures
        ({
            let after = drawn_in(app, area, panes, open);
            let creating = create_editor(app.browse, inline_of(&app)) is Some;
            &&& scrolls_list(panes[1], app.browse, inline_of(&app)) == Some(
                ScrollRequest {
                    total: app.browse.entries@.len() as usize,
                    visible: after.browse.visible_height,
                    offset: app.browse.scroll_offset,
                    track: list_scrollbar(panes[1], app.browse).height as usize,
                },
            )
            &&& clickable_entries(panes[1], app.browse, creating) == minus(
                list_end(app.browse, after.browse.visible_height as int),
                app.browse.scroll_offset as int,
            )
        }),
{
}

} // verus!
