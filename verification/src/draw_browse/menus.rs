//! The menus of the browse screen: the options menu with its submenus, and the
//! bookmarks.

use crate::browse::{
    BookmarkEntry, BookmarkTargetStatus, BookmarksState, BrowseOptionsMenu, BrowseState, ColumnChoice,
};
use crate::button_map::{BrowseColumn, ButtonRenderMap, Hit, SortDir, TuiButton};
use crate::display_width::{pad_or_truncate, padded, shown_width, truncate_right, truncated_right, width};
use crate::geometry::{plus16, Rect};
use crate::layout::{divides, split, Constraint, Direction};
use crate::scene::{
    frame_op, line1, line2, sp, text_op, Line, LineV, OpV, Rows, RowsV, Scene, SceneV,
};
use crate::style::{bg, bold, bold_fg, fg, on, over, plain, text_style, Style, Tone};
use crate::text::{
    cat2, cat3, cat4, cat5, least, low16, minus, most, owned, plus, repeat_char, repeated,
    same_but_case, same_ignoring_case, to_u16, trim, trimmed,
};
use vstd::prelude::*;

verus! {

/// A row of a menu and what it does.
pub type MenuRow = (String, Option<TuiButton>);

/// The contents of a [`MenuRow`].
pub type MenuRowV = (Seq<char>, Option<TuiButton>);

/// The contents of menu rows.
pub open spec fn rows_view(rows: Seq<MenuRow>) -> Seq<MenuRowV> {
    Seq::new(rows.len(), |i: int| (rows[i].0@, rows[i].1))
}

fn add_row(rows: &mut Vec<MenuRow>, text: &str, button: Option<TuiButton>)
    ensures
        rows_view(final(rows)@) == rows_view(old(rows)@).push((text@, button)),
{
    rows.push((owned(text), button));
    proof {
        assert(rows_view(rows@) =~= rows_view(old(rows)@).push((text@, button)));
    }
}

fn no_rows() -> (r: Vec<MenuRow>)
    ensures
        rows_view(r@) == Seq::<MenuRowV>::empty(),
{
    let rows: Vec<MenuRow> = Vec::new();
    proof {
        assert(rows_view(rows@) =~= Seq::<MenuRowV>::empty());
    }
    rows
}

/// The rows of the options menu.
pub open spec fn root_rows(show_hidden: bool) -> Seq<MenuRowV> {
    seq![
        (
            if show_hidden {
                " ● Show hidden files"@
            } else {
                " ○ Show hidden files"@
            },
            Some(TuiButton::BrowseOptionsShowHidden),
        ),
        (" Layout                ▸"@, Some(TuiButton::BrowseOptionsLayout)),
        (" Columns               ▸"@, Some(TuiButton::BrowseOptionsColumns)),
        (" Default sort          ▸"@, Some(TuiButton::BrowseOptionsSort)),
        (" Filter                ▸"@, Some(TuiButton::BrowseOptionsFilter)),
        (" Archive listing mode  ▸"@, Some(TuiButton::BrowseOptionsArchiveListing)),
        (" ─────────────────────"@, None),
        (" Save layout as default"@, Some(TuiButton::BrowseOptionsSaveLayout)),
        (" Restore defaults"@, Some(TuiButton::BrowseOptionsRestoreDefaults)),
    ]
}

/// The rows of the options menu.
pub fn options_root_rows(browse: &BrowseState) -> (r: Vec<MenuRow>)
    ensures
        rows_view(r@) == root_rows(browse.show_hidden),
{
    let mut rows = no_rows();
    add_row(
        &mut rows,
        if browse.show_hidden {
            " ● Show hidden files"
        } else {
            " ○ Show hidden files"
        },
        Some(TuiButton::BrowseOptionsShowHidden),
    );
    add_row(&mut rows, " Layout                ▸", Some(TuiButton::BrowseOptionsLayout));
    add_row(&mut rows, " Columns               ▸", Some(TuiButton::BrowseOptionsColumns));
    add_row(&mut rows, " Default sort          ▸", Some(TuiButton::BrowseOptionsSort));
    add_row(&mut rows, " Filter                ▸", Some(TuiButton::BrowseOptionsFilter));
    add_row(
        &mut rows,
        " Archive listing mode  ▸",
        Some(TuiButton::BrowseOptionsArchiveListing),
    );
    add_row(&mut rows, " ─────────────────────", None);
    add_row(&mut rows, " Save layout as default", Some(TuiButton::BrowseOptionsSaveLayout));
    add_row(&mut rows, " Restore defaults", Some(TuiButton::BrowseOptionsRestoreDefaults));
    proof {
        assert(rows_view(rows@) =~= root_rows(browse.show_hidden));
    }
    rows
}

/// The row of the options menu that opened a submenu.
#[verifier::allow_in_spec]
pub fn active_options_parent_button(menu: BrowseOptionsMenu) -> Option<TuiButton>
    returns
        (match menu {
            BrowseOptionsMenu::Layout => Some(TuiButton::BrowseOptionsLayout),
            BrowseOptionsMenu::Columns => Some(TuiButton::BrowseOptionsColumns),
            BrowseOptionsMenu::Sort => Some(TuiButton::BrowseOptionsSort),
            BrowseOptionsMenu::Filter => Some(TuiButton::BrowseOptionsFilter),
            BrowseOptionsMenu::ArchiveListing => Some(TuiButton::BrowseOptionsArchiveListing),
            BrowseOptionsMenu::Root => None,
            BrowseOptionsMenu::Closed => None,
        }),
{
    match menu {
        BrowseOptionsMenu::Layout => Some(TuiButton::BrowseOptionsLayout),
        BrowseOptionsMenu::Columns => Some(TuiButton::BrowseOptionsColumns),
        BrowseOptionsMenu::Sort => Some(TuiButton::BrowseOptionsSort),
        BrowseOptionsMenu::Filter => Some(TuiButton::BrowseOptionsFilter),
        BrowseOptionsMenu::ArchiveListing => Some(TuiButton::BrowseOptionsArchiveListing),
        BrowseOptionsMenu::Root => None,
        BrowseOptionsMenu::Closed => None,
    }
}

/// A mark that is on or off.
pub open spec fn bullet(on: bool) -> Seq<char> {
    if on {
        "●"@
    } else {
        "○"@
    }
}

fn bullet_str(on: bool) -> (r: &'static str)
    ensures
        r@ == bullet(on),
{
    if on {
        "●"
    } else {
        "○"
    }
}

/// The rows of the layout submenu.
pub open spec fn layout_rows(explore: bool, info: bool) -> Seq<MenuRowV> {
    seq![
        (
            " "@ + bullet(explore) + " Show Explore pane"@,
            Some(TuiButton::BrowseOptionsToggleExplore),
        ),
        (" "@ + bullet(info) + " Show Info pane"@, Some(TuiButton::BrowseOptionsToggleInfo)),
    ]
}

/// The column is among those shown.
pub open spec fn shows_column(columns: Seq<BrowseColumn>, column: BrowseColumn) -> bool {
    columns.contains(column)
}

fn has_column(columns: &Vec<BrowseColumn>, column: BrowseColumn) -> (r: bool)
    ensures
        r == shows_column(columns@, column),
{
    for i in 0..columns.len()
        invariant
            forall|j: int| 0 <= j < i ==> columns@[j] != column,
    {
        if columns[i] == column {
            return true;
        }
    }
    false
}

/// The row of a column that can be shown.
pub open spec fn column_row(columns: Seq<BrowseColumn>, choice: ColumnChoice) -> MenuRowV {
    (
        " "@ + (if shows_column(columns, choice.column) {
            "☑"@
        } else {
            "☐"@
        }) + " "@ + choice.label@,
        Some(TuiButton::BrowseOptionsColumn(choice.column)),
    )
}

/// The rows of the columns submenu.
pub open spec fn column_rows(columns: Seq<BrowseColumn>, choices: Seq<ColumnChoice>) -> Seq<MenuRowV> {
    Seq::new(choices.len(), |i: int| column_row(columns, choices[i]))
}

fn column_menu(columns: &Vec<BrowseColumn>, choices: &Vec<ColumnChoice>) -> (r: Vec<MenuRow>)
    ensures
        rows_view(r@) == column_rows(columns@, choices@),
{
    let mut rows = no_rows();
    for i in 0..choices.len()
        invariant
            rows_view(rows@) =~= column_rows(columns@, choices@).take(i as int),
    {
        let choice = &choices[i];
        let mark = if has_column(columns, choice.column) {
            "☑"
        } else {
            "☐"
        };
        let text = cat4(" ", mark, " ", choice.label.as_str());
        add_row(&mut rows, text.as_str(), Some(TuiButton::BrowseOptionsColumn(choice.column)));
    }
    proof {
        assert(rows_view(rows@) =~= column_rows(columns@, choices@));
    }
    rows
}

/// The row of an order that the list can have.
pub open spec fn sort_row(browse: BrowseState, choice: ColumnChoice, dir: SortDir) -> MenuRowV {
    (
        " "@ + bullet(browse.options.default_sort_by == choice.column && browse.options.default_sort_dir == dir)
            + " "@ + choice.label@ + " "@ + match dir {
            SortDir::Asc => "↑"@,
            SortDir::Desc => "↓"@,
        },
        Some(TuiButton::BrowseOptionsSortChoice(choice.column, dir)),
    )
}

/// The rows of the first `n` columns that the list can be sorted by, both ways each.
pub open spec fn sort_rows(browse: BrowseState, n: nat) -> Seq<MenuRowV>
    decreases n,
{
    if n == 0 || n > browse.options.sort_choices@.len() {
        Seq::empty()
    } else {
        let choice = browse.options.sort_choices@[n - 1];
        sort_rows(browse, (n - 1) as nat).push(sort_row(browse, choice, SortDir::Asc)).push(
            sort_row(browse, choice, SortDir::Desc),
        )
    }
}

fn add_sort_row(rows: &mut Vec<MenuRow>, browse: &BrowseState, choice: &ColumnChoice, dir: SortDir)
    ensures
        rows_view(final(rows)@) == rows_view(old(rows)@).push(sort_row(*browse, *choice, dir)),
{
    let mark = bullet_str(browse.options.default_sort_by == choice.column && browse.options.default_sort_dir == dir);
    let arrow = match dir {
        SortDir::Asc => "↑",
        SortDir::Desc => "↓",
    };
    let front = cat5(" ", mark, " ", choice.label.as_str(), " ");
    let text = cat2(front.as_str(), arrow);
    add_row(rows, text.as_str(), Some(TuiButton::BrowseOptionsSortChoice(choice.column, dir)));
}

fn sort_menu(browse: &BrowseState) -> (r: Vec<MenuRow>)
    ensures
        rows_view(r@) == sort_rows(*browse, browse.options.sort_choices@.len()),
{
    let mut rows = no_rows();
    for i in 0..browse.options.sort_choices.len()
        invariant
            rows_view(rows@) == sort_rows(*browse, i as nat),
    {
        add_sort_row(&mut rows, browse, &browse.options.sort_choices[i], SortDir::Asc);
        add_sort_row(&mut rows, browse, &browse.options.sort_choices[i], SortDir::Desc);
    }
    rows
}

/// The row of a filter.
pub open spec fn filter_row(browse: BrowseState, i: int) -> MenuRowV {
    (
        " "@ + bullet(browse.options.format_filter == i) + " "@ + browse.options.filter_choices@[i]@,
        Some(TuiButton::BrowseOptionsFilterChoice(i as usize)),
    )
}

/// The rows of the filter submenu.
pub open spec fn filter_rows(browse: BrowseState) -> Seq<MenuRowV> {
    Seq::new(browse.options.filter_choices@.len(), |i: int| filter_row(browse, i))
}

fn filter_menu(browse: &BrowseState) -> (r: Vec<MenuRow>)
    ensures
        rows_view(r@) == filter_rows(*browse),
{
    let mut rows = no_rows();
    for i in 0..browse.options.filter_choices.len()
        invariant
            rows_view(rows@) =~= filter_rows(*browse).take(i as int),
    {
        let mark = bullet_str(browse.options.format_filter == i);
        let text = cat4(" ", mark, " ", browse.options.filter_choices[i].as_str());
        add_row(&mut rows, text.as_str(), Some(TuiButton::BrowseOptionsFilterChoice(i)));
    }
    proof {
        assert(rows_view(rows@) =~= filter_rows(*browse));
    }
    rows
}

/// When archives are listed: always, never, or, for any other setting, by themselves.
pub open spec fn listing_mode(setting: Seq<char>) -> Seq<char> {
    if same_but_case(trimmed(setting), "always"@) {
        "always"@
    } else if same_but_case(trimmed(setting), "never"@) {
        "never"@
    } else {
        "auto"@
    }
}

/// The mark of a choice of listing.
pub open spec fn listing_mark(setting: Seq<char>, choice: Seq<char>) -> Seq<char> {
    bullet(listing_mode(setting) == choice)
}

/// The mark of a choice of listing.
pub fn archive_listing_choice_mark(config_value: &str, choice: &str) -> (r: &'static str)
    ensures
        r@ == listing_mark(config_value@, choice@),
{
    let setting = trim(config_value);
    let current = if same_ignoring_case(setting.as_str(), "always") {
        "always"
    } else if same_ignoring_case(setting.as_str(), "never") {
        "never"
    } else {
        "auto"
    };
    bullet_str(crate::text::same(current, choice))
}

/// The rows of the submenu for archives.
pub open spec fn archive_rows(setting: Seq<char>) -> Seq<MenuRowV> {
    seq![
        (
            " "@ + listing_mark(setting, "auto"@) + " Auto (skip remote)"@,
            Some(TuiButton::BrowseOptionsArchiveChoice(0)),
        ),
        (
            " "@ + listing_mark(setting, "always"@) + " Always"@,
            Some(TuiButton::BrowseOptionsArchiveChoice(1)),
        ),
        (
            " "@ + listing_mark(setting, "never"@) + " Never"@,
            Some(TuiButton::BrowseOptionsArchiveChoice(2)),
        ),
    ]
}

fn archive_menu(setting: &str) -> (r: Vec<MenuRow>)
    ensures
        rows_view(r@) == archive_rows(setting@),
{
    let mut rows = no_rows();
    let auto_row = cat3(" ", archive_listing_choice_mark(setting, "auto"), " Auto (skip remote)");
    add_row(&mut rows, auto_row.as_str(), Some(TuiButton::BrowseOptionsArchiveChoice(0)));
    let always = cat3(" ", archive_listing_choice_mark(setting, "always"), " Always");
    add_row(&mut rows, always.as_str(), Some(TuiButton::BrowseOptionsArchiveChoice(1)));
    let never = cat3(" ", archive_listing_choice_mark(setting, "never"), " Never");
    add_row(&mut rows, never.as_str(), Some(TuiButton::BrowseOptionsArchiveChoice(2)));
    proof {
        assert(rows_view(rows@) =~= archive_rows(setting@));
    }
    rows
}

fn layout_menu(explore: bool, info: bool) -> (r: Vec<MenuRow>)
    ensures
        rows_view(r@) == layout_rows(explore, info),
{
    let mut rows = no_rows();
    let first = cat3(" ", bullet_str(explore), " Show Explore pane");
    add_row(&mut rows, first.as_str(), Some(TuiButton::BrowseOptionsToggleExplore));
    let second = cat3(" ", bullet_str(info), " Show Info pane");
    add_row(&mut rows, second.as_str(), Some(TuiButton::BrowseOptionsToggleInfo));
    proof {
        assert(rows_view(rows@) =~= layout_rows(explore, info));
    }
    rows
}

/// The title and the rows of the open submenu.
pub open spec fn submenu(browse: BrowseState, setting: Seq<char>) -> Option<(Seq<char>, Seq<MenuRowV>)> {
    match browse.options.options_menu {
        BrowseOptionsMenu::Layout => Some(
            ("Layout"@, layout_rows(browse.explore_enabled, browse.info_enabled)),
        ),
        BrowseOptionsMenu::Columns => Some(
            ("Columns"@, column_rows(browse.columns@, browse.options.column_choices@)),
        ),
        BrowseOptionsMenu::Sort => Some(
            ("Default sort"@, sort_rows(browse, browse.options.sort_choices@.len())),
        ),
        BrowseOptionsMenu::Filter => Some(("Filter"@, filter_rows(browse))),
        BrowseOptionsMenu::ArchiveListing => Some(("Archive listing"@, archive_rows(setting))),
        BrowseOptionsMenu::Root => None,
        BrowseOptionsMenu::Closed => None,
    }
}

/// The title and the rows of the open submenu.
pub fn options_submenu_rows(browse: &BrowseState, archive_listing_mode: &str) -> (r: Option<
    (&'static str, Vec<MenuRow>),
>)
    ensures
        match r {
            Some((title, rows)) => submenu(*browse, archive_listing_mode@) == Some(
                (title@, rows_view(rows@)),
            ),
            None => submenu(*browse, archive_listing_mode@) is None,
        },
{
    match browse.options.options_menu {
        BrowseOptionsMenu::Layout => Some(
            ("Layout", layout_menu(browse.explore_enabled, browse.info_enabled)),
        ),
        BrowseOptionsMenu::Columns => Some(
            ("Columns", column_menu(&browse.columns, &browse.options.column_choices)),
        ),
        BrowseOptionsMenu::Sort => Some(("Default sort", sort_menu(browse))),
        BrowseOptionsMenu::Filter => Some(("Filter", filter_menu(browse))),
        BrowseOptionsMenu::ArchiveListing => Some(
            ("Archive listing", archive_menu(archive_listing_mode)),
        ),
        BrowseOptionsMenu::Root => None,
        BrowseOptionsMenu::Closed => None,
    }
}

/// The rows of the menu that has the keyboard.
pub open spec fn active_rows(browse: BrowseState, setting: Seq<char>) -> Option<Seq<MenuRowV>> {
    match browse.options.options_menu {
        BrowseOptionsMenu::Closed => None,
        BrowseOptionsMenu::Root => Some(root_rows(browse.show_hidden)),
        _ => match submenu(browse, setting) {
            Some((_, rows)) => Some(rows),
            None => None,
        },
    }
}

/// The rows of the menu that has the keyboard.
pub fn active_options_menu_rows(browse: &BrowseState, archive_listing_mode: &str) -> (r: Option<
    Vec<MenuRow>,
>)
    ensures
        match r {
            Some(rows) => active_rows(*browse, archive_listing_mode@) == Some(rows_view(rows@)),
            None => active_rows(*browse, archive_listing_mode@) is None,
        },
{
    match browse.options.options_menu {
        BrowseOptionsMenu::Closed => None,
        BrowseOptionsMenu::Root => Some(options_root_rows(browse)),
        _ => match options_submenu_rows(browse, archive_listing_mode) {
            Some((_, rows)) => Some(rows),
            None => None,
        },
    }
}

/// The columns of the widest of the first `n` rows.
pub open spec fn widest(rows: Seq<MenuRowV>, n: nat) -> int
    decreases n,
{
    if n == 0 || n > rows.len() {
        0
    } else {
        most(widest(rows, (n - 1) as nat), shown_width(rows[n - 1].0) as int)
    }
}

/// The width of a menu: its widest row and its title fit, as far as there is room.
pub open spec fn menu_width(title: Seq<char>, rows: Seq<MenuRowV>, outer_width: int) -> int {
    let content = if rows.len() == 0 {
        12
    } else {
        widest(rows, rows.len())
    };
    let wide = low16(most(content, plus(shown_width(title) as int, 4)));
    least(least(plus16(wide, 2), 40), most(outer_width, 1))
}

/// The width of a menu.
pub fn options_menu_panel_width(title: &str, rows: &Vec<MenuRow>, outer_width: u16) -> (r: u16)
    ensures
        r == menu_width(title@, rows_view(rows@), outer_width as int),
{
    let ghost shown = rows_view(rows@);
    let mut content: usize = 0;
    for i in 0..rows.len()
        invariant
            shown == rows_view(rows@),
            content == widest(shown, i as nat),
    {
        let w: usize = width(rows[i].0.as_str());
        proof {
            assert(shown[i as int].0 == rows@[i as int].0@);
        }
        if w > content {
            content = w;
        }
    }
    if rows.len() == 0 {
        content = 12;
    }
    let title_w: usize = width(title).saturating_add(4);
    let wide: u16 = to_u16(if content >= title_w { content } else { title_w }).saturating_add(2);
    let wide: u16 = if wide <= 40 { wide } else { 40 };
    let outer: u16 = if outer_width >= 1 { outer_width } else { 1 };
    if wide <= outer {
        wide
    } else {
        outer
    }
}

/// `preferred`, moved back as far as `size` cells need to stay in the `extent` behind
/// `start`, but not before `start`.
pub open spec fn held_at(preferred: int, size: int, start: int, extent: int) -> int {
    most(least(preferred, minus(plus16(start, extent), size)), start)
}

fn hold_at(preferred: u16, size: u16, start: u16, extent: u16) -> (r: u16)
    ensures
        r == held_at(preferred as int, size as int, start as int, extent as int),
{
    let last: u16 = start.saturating_add(extent).saturating_sub(size);
    let at: u16 = if preferred <= last { preferred } else { last };
    if at >= start {
        at
    } else {
        start
    }
}

/// The column of a menu of `width` columns.
pub fn clamp_menu_x(preferred_x: u16, width: u16, outer: Rect) -> (r: u16)
    ensures
        r == held_at(preferred_x as int, width as int, outer.x as int, outer.width as int),
{
    hold_at(preferred_x, width, outer.x, outer.width)
}

/// The row of a menu of `height` rows.
pub fn clamp_menu_y(preferred_y: u16, height: u16, outer: Rect) -> (r: u16)
    ensures
        r == held_at(preferred_y as int, height as int, outer.y as int, outer.height as int),
{
    hold_at(preferred_y, height, outer.y, outer.height)
}

/// How many columns two stretches share.
pub open spec fn shared_columns(ax: int, aw: int, bx: int, bw: int) -> int {
    minus(least(plus16(ax, aw), plus16(bx, bw)), most(ax, bx))
}

/// How many columns two stretches share.
pub fn horizontal_overlap(ax: u16, aw: u16, bx: u16, bw: u16) -> (r: u16)
    ensures
        r == shared_columns(ax as int, aw as int, bx as int, bw as int),
{
    let a_end: u16 = ax.saturating_add(aw);
    let b_end: u16 = bx.saturating_add(bw);
    let end: u16 = if a_end <= b_end { a_end } else { b_end };
    let start: u16 = if ax >= bx { ax } else { bx };
    end.saturating_sub(start)
}

/// The column of a submenu: at the right of the menu, at its left, or where it hides
/// the least of it.
pub open spec fn submenu_x(root: Rect, width: int, outer: Rect) -> int {
    let right = plus16(root.x as int, root.width as int);
    if plus16(right, width) <= plus16(outer.x as int, outer.width as int) {
        right
    } else if root.x >= plus16(outer.x as int, width) {
        root.x - width
    } else {
        let at_right = held_at(right, width, outer.x as int, outer.width as int);
        let at_left = most(outer.x as int, minus(root.x as int, width));
        if shared_columns(at_left, width, root.x as int, root.width as int) < shared_columns(
            at_right,
            width,
            root.x as int,
            root.width as int,
        ) {
            at_left
        } else {
            at_right
        }
    }
}

/// The place of a submenu.
pub open spec fn submenu_area(root: Rect, width: int, height: int, preferred_y: int, outer: Rect) -> Rect {
    Rect {
        x: submenu_x(root, width, outer) as u16,
        y: held_at(preferred_y, height, outer.y as int, outer.height as int) as u16,
        width: width as u16,
        height: height as u16,
    }
}

/// The place of a submenu.
pub fn options_submenu_area(root_area: Rect, width: u16, height: u16, preferred_y: u16, outer: Rect) -> (r:
    Rect)
    ensures
        r == submenu_area(root_area, width as int, height as int, preferred_y as int, outer),
{
    let y: u16 = clamp_menu_y(preferred_y, height, outer);
    let right_x: u16 = root_area.x.saturating_add(root_area.width);
    let outer_right: u16 = outer.x.saturating_add(outer.width);
    if right_x.saturating_add(width) <= outer_right {
        return Rect { x: right_x, y, width, height };
    }
    if root_area.x >= outer.x.saturating_add(width) {
        return Rect { x: root_area.x - width, y, width, height };
    }
    let at_right: u16 = clamp_menu_x(right_x, width, outer);
    let back: u16 = root_area.x.saturating_sub(width);
    let at_left: u16 = if outer.x >= back { outer.x } else { back };
    let right_overlap: u16 = horizontal_overlap(at_right, width, root_area.x, root_area.width);
    let left_overlap: u16 = horizontal_overlap(at_left, width, root_area.x, root_area.width);
    let x: u16 = if left_overlap < right_overlap { at_left } else { at_right };
    Rect { x, y, width, height }
}

/// A submenu stands at the right of the menu where there is room for it.
pub proof fn submenu_prefers_right(root: Rect, width: int, height: int, y: int, outer: Rect)
    requires
        root.wf(),
        outer.wf(),
        0 < width,
        root.x + root.width + width <= outer.x + outer.width,
    ensures
        submenu_area(root, width, height, y, outer).x == root.x + root.width,
        shared_columns(
            submenu_area(root, width, height, y, outer).x as int,
            width,
            root.x as int,
            root.width as int,
        ) == 0,
{
}

/// Where only the left side has room for a submenu, it ends where the menu starts.
pub proof fn submenu_flips_left(root: Rect, width: int, height: int, y: int, outer: Rect)
    requires
        root.wf(),
        outer.wf(),
        0 < width,
        root.x + root.width + width > outer.x + outer.width,
        outer.x + width <= root.x,
        outer.x + outer.width < 65535,
    ensures
        submenu_area(root, width, height, y, outer).x + width == root.x,
        shared_columns(
            submenu_area(root, width, height, y, outer).x as int,
            width,
            root.x as int,
            root.width as int,
        ) == 0,
{
}

/// A submenu that is no larger than the screen stays on it.
pub proof fn submenu_stays_on_screen(root: Rect, width: int, height: int, y: int, outer: Rect)
    requires
        root.within(outer),
        outer.x + outer.width < 65535,
        0 <= width <= outer.width,
        0 <= height <= outer.height,
        0 <= y,
    ensures
        submenu_area(root, width, height, y, outer).within(outer),
{
}

/// Where a submenu must hide a part of the menu, it hides the smaller one.
pub proof fn submenu_hides_least(root: Rect, width: int, outer: Rect)
    requires
        root.within(outer),
        outer.wf(),
        0 < width <= outer.width,
    ensures
        ({
            let hidden = shared_columns(
                submenu_x(root, width, outer),
                width,
                root.x as int,
                root.width as int,
            );
            &&& hidden <= shared_columns(
                outer.x + outer.width - width,
                width,
                root.x as int,
                root.width as int,
            )
            &&& hidden <= shared_columns(
                outer.x as int,
                width,
                root.x as int,
                root.width as int,
            )
        }),
{
}

/// The inside of a bordered panel.
pub open spec fn panel_inside(area: Rect) -> Rect {
    Rect {
        x: plus16(area.x as int, 1) as u16,
        y: plus16(area.y as int, 1) as u16,
        width: minus(area.width as int, 2) as u16,
        height: minus(area.height as int, 2) as u16,
    }
}

/// The inside of a bordered panel.
pub fn bordered_panel_inner(area: Rect) -> (r: Rect)
    ensures
        r == panel_inside(area),
{
    Rect {
        x: area.x.saturating_add(1),
        y: area.y.saturating_add(1),
        width: area.width.saturating_sub(2),
        height: area.height.saturating_sub(2),
    }
}

/// The place of a row of a panel, where the panel is high enough.
pub open spec fn row_place(area: Rect, row: int) -> Option<Rect> {
    let inside = panel_inside(area);
    if row >= inside.height {
        None
    } else {
        Some(
            Rect {
                x: inside.x,
                y: plus16(inside.y as int, low16(row)) as u16,
                width: inside.width,
                height: 1,
            },
        )
    }
}

/// The place of a row of a panel, where the panel is high enough.
pub fn options_menu_row_hitbox(area: Rect, row_index: usize) -> (r: Option<Rect>)
    ensures
        r == row_place(area, row_index as int),
{
    let inside = bordered_panel_inner(area);
    if row_index >= inside.height as usize {
        return None;
    }
    Some(
        Rect {
            x: inside.x,
            y: inside.y.saturating_add(to_u16(row_index)),
            width: inside.width,
            height: 1,
        },
    )
}

/// The rows of a panel that can be clicked are inside its border, one below the other.
pub proof fn row_places_are_inside(area: Rect, row: int)
    requires
        area.wf(),
        0 <= row,
        area.width >= 2,
    ensures
        row_place(area, row) matches Some(place) ==> place.x == area.x + 1 && place.width + 2
            == area.width && place.y == area.y + 1 + row && place.y + 1 < area.y + area.height,
{
}

/// Whether a cell is inside an area.
pub fn rect_contains(area: Rect, x: u16, y: u16) -> (r: bool)
    ensures
        r == area.holds(x as int, y as int),
{
    area.contains(x, y)
}

/// Where the options menu and its submenu are.
#[derive(Clone, Copy, Debug, PartialEq, Eq, Structural)]
pub struct OptionsMenuGeometry {
    pub root_area: Rect,
    pub submenu_area: Option<Rect>,
}

impl OptionsMenuGeometry {
    /// Whether a cell is on the menu or its submenu.
    pub fn contains(self, x: u16, y: u16) -> (r: bool)
        ensures
            r == (self.root_area.holds(x as int, y as int) || match self.submenu_area {
                Some(area) => area.holds(x as int, y as int),
                None => false,
            }),
    {
        rect_contains(self.root_area, x, y) || match self.submenu_area {
            Some(area) => rect_contains(area, x, y),
            None => false,
        }
    }
}

/// The rows of the browse screen with one tab: header, toolbar, contents and footer.
pub open spec fn screen_parts() -> Seq<Constraint> {
    seq![
        Constraint::Length(7),
        Constraint::Length(5),
        Constraint::Min(10),
        Constraint::Length(2),
    ]
}

/// The place of the toolbar.
pub fn browse_toolbar_area_for_screen(screen_area: Rect) -> (r: Rect)
    requires
        screen_area.wf(),
    ensures
        exists|parts: Seq<Rect>| #[trigger]
            divides(Direction::Vertical, screen_parts(), screen_area, parts) && r == parts[1],
{
    let mut wishes: Vec<Constraint> = Vec::new();
    wishes.push(Constraint::Length(7));
    wishes.push(Constraint::Length(5));
    wishes.push(Constraint::Min(10));
    wishes.push(Constraint::Length(2));
    proof {
        assert(wishes@ =~= screen_parts());
    }
    let parts = split(Direction::Vertical, &wishes, screen_area);
    assert(divides(Direction::Vertical, screen_parts(), screen_area, parts@));
    parts[1]
}

/// Where the options button is in the toolbar.
pub open spec fn options_anchor(toolbar: Rect) -> Rect {
    Rect {
        x: plus16(toolbar.x as int, 34) as u16,
        y: plus16(toolbar.y as int, 1) as u16,
        width: least(12, toolbar.width as int) as u16,
        height: 1,
    }
}

/// Where the options button is in the toolbar.
pub fn options_button_anchor_for_toolbar(toolbar_area: Rect) -> (r: Rect)
    ensures
        r == options_anchor(toolbar_area),
{
    Rect {
        x: toolbar_area.x.saturating_add(34),
        y: toolbar_area.y.saturating_add(1),
        width: if toolbar_area.width >= 12 { 12 } else { toolbar_area.width },
        height: 1,
    }
}

/// The place of `button` among the rows, at `from` or later; the first row where there
/// is none.
pub open spec fn button_row(rows: Seq<MenuRowV>, button: Option<TuiButton>, from: int) -> int
    decreases rows.len() - from,
{
    if button is None || from < 0 || from >= rows.len() {
        0
    } else if rows[from].1 == button {
        from
    } else {
        button_row(rows, button, from + 1)
    }
}

fn find_button_row(rows: &Vec<MenuRow>, button: Option<TuiButton>) -> (r: usize)
    ensures
        r == button_row(rows_view(rows@), button, 0),
{
    let ghost shown = rows_view(rows@);
    if button.is_none() {
        return 0;
    }
    for i in 0..rows.len()
        invariant
            shown == rows_view(rows@),
            button is Some,
            button_row(shown, button, i as int) == button_row(shown, button, 0),
            i <= shown.len(),
    {
        proof {
            assert(shown[i as int].1 == rows@[i as int].1);
        }
        if rows[i].1 == button {
            return i;
        }
    }
    0
}

/// The place of the options menu.
pub open spec fn root_place(anchor: Rect, screen: Rect, show_hidden: bool) -> Rect {
    let rows = root_rows(show_hidden);
    let w = menu_width("Options"@, rows, screen.width as int);
    Rect {
        x: held_at(anchor.x as int, w, screen.x as int, screen.width as int) as u16,
        y: held_at(
            plus16(anchor.y as int, anchor.height as int),
            11,
            screen.y as int,
            screen.height as int,
        ) as u16,
        width: w as u16,
        height: 11,
    }
}

/// The place of the open submenu: beside the row that opened it.
pub open spec fn submenu_place(anchor: Rect, screen: Rect, browse: BrowseState, setting: Seq<char>) -> Option<
    Rect,
> {
    match submenu(browse, setting) {
        None => None,
        Some((title, rows)) => {
            let root = root_place(anchor, screen, browse.show_hidden);
            let parent = button_row(
                root_rows(browse.show_hidden),
                active_options_parent_button(browse.options.options_menu),
                0,
            );
            Some(
                submenu_area(
                    root,
                    menu_width(title, rows, screen.width as int),
                    plus16(low16(rows.len() as int), 2),
                    plus16(plus16(root.y as int, 1), low16(parent)),
                    screen,
                ),
            )
        },
    }
}

/// Where the options menu and its submenu are.
pub fn options_menu_geometry_for_area(
    anchor: Rect,
    screen_area: Rect,
    browse: &BrowseState,
    archive_listing_mode: &str,
) -> (r: OptionsMenuGeometry)
    ensures
        r.root_area == root_place(anchor, screen_area, browse.show_hidden),
        r.submenu_area == submenu_place(anchor, screen_area, *browse, archive_listing_mode@),
{
    let rows = options_root_rows(browse);
    proof {
        assert(rows_view(rows@).len() == rows@.len());
    }
    let width: u16 = options_menu_panel_width("Options", &rows, screen_area.width);
    let height: u16 = to_u16(rows.len()).saturating_add(2);
    let root_area = Rect {
        x: clamp_menu_x(anchor.x, width, screen_area),
        y: clamp_menu_y(anchor.y.saturating_add(anchor.height), height, screen_area),
        width,
        height,
    };
    let submenu_area = match options_submenu_rows(browse, archive_listing_mode) {
        None => None,
        Some((title, sub_rows)) => {
            proof {
                assert(rows_view(sub_rows@).len() == sub_rows@.len());
            }
            let sub_width: u16 = options_menu_panel_width(title, &sub_rows, screen_area.width);
            let sub_height: u16 = to_u16(sub_rows.len()).saturating_add(2);
            let parent: usize = find_button_row(
                &rows,
                active_options_parent_button(browse.options.options_menu),
            );
            Some(
                options_submenu_area(
                    root_area,
                    sub_width,
                    sub_height,
                    root_area.y.saturating_add(1).saturating_add(to_u16(parent)),
                    screen_area,
                ),
            )
        },
    };
    OptionsMenuGeometry { root_area, submenu_area }
}

/// The style of a menu row.
#[verifier::allow_in_spec]
pub fn menu_row_style(button: Option<TuiButton>, hover: Option<TuiButton>, selected: Option<TuiButton>) -> Style
    returns
        (if button is None {
            on(Tone::BorderDim, Tone::Bg)
        } else if hover == button || selected == button {
            bold(on(Tone::Bg, Tone::Blue))
        } else {
            over(text_style(), Tone::Bg)
        }),
{
    if button.is_none() {
        on(Tone::BorderDim, Tone::Bg)
    } else if hover == button || selected == button {
        bold(on(Tone::Bg, Tone::Blue))
    } else {
        over(text_style(), Tone::Bg)
    }
}

/// A row of a menu, filled up to `width` columns.
pub fn fit_menu_row(row: &str, width: u16) -> (r: String)
    ensures
        r@ == padded(row@, width as int, false),
{
    pad_or_truncate(row, width as usize, false)
}

/// The rows of a panel.
pub open spec fn panel_rows(
    rows: Seq<MenuRowV>,
    width: int,
    hover: Option<TuiButton>,
    selected: Option<TuiButton>,
) -> RowsV {
    Seq::new(
        rows.len(),
        |i: int|
            seq![sp(padded(rows[i].0, width, false), menu_row_style(rows[i].1, hover, selected))],
    )
}

fn panel_lines(
    rows: &Vec<MenuRow>,
    width: u16,
    hover: Option<TuiButton>,
    selected: Option<TuiButton>,
) -> (r: Rows)
    ensures
        r@ == panel_rows(rows_view(rows@), width as int, hover, selected),
{
    let ghost shown = rows_view(rows@);
    let ghost all = panel_rows(shown, width as int, hover, selected);
    let mut lines = Rows::new();
    for i in 0..rows.len()
        invariant
            shown == rows_view(rows@),
            all == panel_rows(shown, width as int, hover, selected),
            lines@ =~= all.take(i as int),
    {
        let text = fit_menu_row(rows[i].0.as_str(), width);
        lines.push(line1(text.as_str(), menu_row_style(rows[i].1, hover, selected)));
        proof {
            assert(shown[i as int] == (rows@[i as int].0@, rows@[i as int].1));
            assert(lines@.last() =~= all[i as int]);
        }
    }
    proof {
        assert(lines@ =~= all);
    }
    lines
}

/// The first `n` rows of a panel as buttons.
pub open spec fn panel_hits(area: Rect, rows: Seq<MenuRowV>, n: nat) -> Seq<Hit>
    decreases n,
{
    if n == 0 || n > rows.len() {
        Seq::empty()
    } else {
        let front = panel_hits(area, rows, (n - 1) as nat);
        match (rows[n - 1].1, row_place(area, n - 1)) {
            (Some(button), Some(place)) => front.push((button, place)),
            _ => front,
        }
    }
}

fn record_panel(area: Rect, rows: &Vec<MenuRow>) -> (r: ButtonRenderMap)
    ensures
        r@ == panel_hits(area, rows_view(rows@), rows@.len()),
{
    let ghost shown = rows_view(rows@);
    let mut hits = ButtonRenderMap::new();
    for i in 0..rows.len()
        invariant
            shown == rows_view(rows@),
            hits@ == panel_hits(area, shown, i as nat),
    {
        proof {
            assert(shown[i as int].1 == rows@[i as int].1);
        }
        match (rows[i].1, options_menu_row_hitbox(area, i)) {
            (Some(button), Some(place)) => {
                hits.record_button(button, place);
            },
            _ => {},
        }
    }
    hits
}

/// A panel has a size.
pub open spec fn has_size(area: Rect) -> bool {
    area.width > 0 && area.height > 0
}

/// A panel on the screen.
pub open spec fn panel_scene(
    area: Rect,
    title: Seq<char>,
    rows: Seq<MenuRowV>,
    hover: Option<TuiButton>,
    selected: Option<TuiButton>,
) -> SceneV {
    if has_size(area) {
        seq![
            OpV::Clear(area),
            frame_op(area, title, plain(), fg(Tone::Cyan), bg(Tone::Bg)),
            text_op(
                panel_inside(area),
                panel_rows(rows, panel_inside(area).width as int, hover, selected),
                bg(Tone::Bg),
            ),
        ]
    } else {
        Seq::empty()
    }
}

/// Draws a panel with its buttons.
pub fn render_options_menu_panel(
    f: &mut Scene,
    area: Rect,
    title: &str,
    rows: &Vec<MenuRow>,
    buttons: &mut ButtonRenderMap,
    hover: Option<TuiButton>,
    selected: Option<TuiButton>,
)
    ensures
        final(f)@ == old(f)@ + panel_scene(area, title@, rows_view(rows@), hover, selected),
        final(buttons)@ == old(buttons)@ + if has_size(area) {
            panel_hits(area, rows_view(rows@), rows@.len())
        } else {
            Seq::empty()
        },
{
    let mut scene = Scene::new();
    let mut hits = ButtonRenderMap::new();
    if area.width > 0 && area.height > 0 {
        let inside = bordered_panel_inner(area);
        scene.clear(area);
        scene.frame(area, title, plain(), fg(Tone::Cyan), bg(Tone::Bg));
        scene.text(inside, panel_lines(rows, inside.width, hover, selected), bg(Tone::Bg));
        hits = record_panel(area, rows);
    }
    f.append(scene);
    buttons.append(hits);
}

/// What the row that the keyboard is on does.
pub open spec fn highlighted(rows: Seq<MenuRowV>, highlight: Option<usize>) -> Option<TuiButton> {
    match highlight {
        Some(i) if i < rows.len() => rows[i as int].1,
        _ => None,
    }
}

fn highlighted_button(rows: &Vec<MenuRow>, highlight: Option<usize>) -> (r: Option<TuiButton>)
    ensures
        r == highlighted(rows_view(rows@), highlight),
{
    match highlight {
        Some(i) => if i < rows.len() {
            rows[i].1
        } else {
            None
        },
        None => None,
    }
}

/// The row of the options menu that is highlighted: the one the keyboard is on, or the
/// one that opened the submenu.
pub open spec fn root_selected(browse: BrowseState) -> Option<TuiButton> {
    if browse.options.options_menu == BrowseOptionsMenu::Root {
        highlighted(root_rows(browse.show_hidden), browse.options.options_menu_highlight)
    } else {
        active_options_parent_button(browse.options.options_menu)
    }
}

/// The options menu and its submenu on the screen.
pub open spec fn options_scene(
    anchor: Rect,
    screen: Rect,
    browse: BrowseState,
    setting: Seq<char>,
    hover: Option<TuiButton>,
) -> SceneV {
    panel_scene(
        root_place(anchor, screen, browse.show_hidden),
        "Options"@,
        root_rows(browse.show_hidden),
        hover,
        root_selected(browse),
    ) + match (submenu(browse, setting), submenu_place(anchor, screen, browse, setting)) {
        (Some((title, rows)), Some(area)) => panel_scene(
            area,
            title,
            rows,
            hover,
            highlighted(rows, browse.options.options_menu_highlight),
        ),
        _ => Seq::empty(),
    }
}

/// The buttons of a panel, where it has a size.
pub open spec fn sized_hits(area: Rect, rows: Seq<MenuRowV>) -> Seq<Hit> {
    if has_size(area) {
        panel_hits(area, rows, rows.len())
    } else {
        Seq::empty()
    }
}

/// The options menu and its submenu as buttons.
pub open spec fn options_hits(anchor: Rect, screen: Rect, browse: BrowseState, setting: Seq<char>) -> Seq<
    Hit,
> {
    sized_hits(root_place(anchor, screen, browse.show_hidden), root_rows(browse.show_hidden))
        + match (submenu(browse, setting), submenu_place(anchor, screen, browse, setting)) {
        (Some((_, rows)), Some(area)) => sized_hits(area, rows),
        _ => Seq::empty(),
    }
}

/// Draws the options menu and its submenu.
pub fn draw_options_menu(
    f: &mut Scene,
    anchor: Rect,
    screen_area: Rect,
    browse: &BrowseState,
    archive_listing_mode: &str,
    buttons: &mut ButtonRenderMap,
    hover: Option<TuiButton>,
)
    ensures
        final(f)@ == old(f)@ + options_scene(
            anchor,
            screen_area,
            *browse,
            archive_listing_mode@,
            hover,
        ),
        final(buttons)@ == old(buttons)@ + options_hits(
            anchor,
            screen_area,
            *browse,
            archive_listing_mode@,
        ),
{
    let rows = options_root_rows(browse);
    let geometry = options_menu_geometry_for_area(anchor, screen_area, browse, archive_listing_mode);
    let selected = if browse.options.options_menu == BrowseOptionsMenu::Root {
        highlighted_button(&rows, browse.options.options_menu_highlight)
    } else {
        active_options_parent_button(browse.options.options_menu)
    };
    let mut scene = Scene::new();
    let mut hits = ButtonRenderMap::new();
    render_options_menu_panel(
        &mut scene,
        geometry.root_area,
        "Options",
        &rows,
        &mut hits,
        hover,
        selected,
    );
    match (options_submenu_rows(browse, archive_listing_mode), geometry.submenu_area) {
        (Some((title, sub_rows)), Some(area)) => {
            let chosen = highlighted_button(&sub_rows, browse.options.options_menu_highlight);
            render_options_menu_panel(&mut scene, area, title, &sub_rows, &mut hits, hover, chosen);
        },
        _ => {},
    }
    proof {
        assert(rows_view(rows@).len() == rows@.len());
        assert(scene@ =~= options_scene(
            anchor,
            screen_area,
            *browse,
            archive_listing_mode@,
            hover,
        ));
        assert(hits@ =~= options_hits(anchor, screen_area, *browse, archive_listing_mode@));
    }
    f.append(scene);
    buttons.append(hits);
}

/// The bookmarks need a screen of at least this size.
pub open spec fn bookmarks_fit(screen: Rect) -> bool {
    screen.width >= 8 && screen.height >= 6
}

/// Whether the screen has room for the bookmarks.
pub fn bookmark_dropdown_fits(screen_area: Rect) -> (r: bool)
    ensures
        r == bookmarks_fit(screen_area),
{
    screen_area.width >= 8 && screen_area.height >= 6
}

/// How many bookmarks the screen has room for.
pub open spec fn bookmark_capacity(screen: Rect) -> int {
    least(minus(screen.height as int, 5), 10)
}

/// How many bookmarks the screen has room for.
pub fn bookmark_dropdown_rows(screen_area: Rect) -> (r: usize)
    ensures
        r == bookmark_capacity(screen_area),
{
    let room: u16 = screen_area.height.saturating_sub(5);
    if room <= 10 {
        room as usize
    } else {
        10
    }
}

/// The columns that the widest of the first `n` bookmarks needs.
pub open spec fn widest_bookmark(entries: Seq<BookmarkEntry>, n: nat) -> int
    decreases n,
{
    if n == 0 || n > entries.len() {
        20
    } else {
        most(
            widest_bookmark(entries, (n - 1) as nat),
            plus(shown_width(entries[n - 1].name@) as int, 4),
        )
    }
}

/// The place of the bookmarks: below their button, with their right edges aligned, as
/// far as the screen allows.
pub open spec fn bookmarks_place(anchor: Rect, screen: Rect, entries: Seq<BookmarkEntry>) -> Rect {
    let w = least(least(widest_bookmark(entries, entries.len()), 40) + 2, screen.width as int);
    let h = least(entries.len() as int, bookmark_capacity(screen)) + 5;
    Rect {
        x: held_at(
            minus(plus16(anchor.x as int, anchor.width as int), w),
            w,
            screen.x as int,
            screen.width as int,
        ) as u16,
        y: held_at(
            plus16(anchor.y as int, anchor.height as int),
            h,
            screen.y as int,
            screen.height as int,
        ) as u16,
        width: w as u16,
        height: h as u16,
    }
}

fn find_bookmarks_place(anchor: Rect, screen_area: Rect, entries: &Vec<BookmarkEntry>) -> (r: Rect)
    ensures
        r == bookmarks_place(anchor, screen_area, entries@),
{
    let mut longest: usize = 20;
    for i in 0..entries.len()
        invariant
            longest == widest_bookmark(entries@, i as nat),
    {
        let w: usize = width(entries[i].name.as_str()).saturating_add(4);
        if w > longest {
            longest = w;
        }
    }
    let wished: u16 = if longest <= 40 { longest as u16 + 2 } else { 42 };
    let w: u16 = if wished <= screen_area.width { wished } else { screen_area.width };
    let capacity: usize = bookmark_dropdown_rows(screen_area);
    let shown: usize = if entries.len() <= capacity { entries.len() } else { capacity };
    let h: u16 = shown as u16 + 5;
    Rect {
        x: clamp_menu_x(anchor.right().saturating_sub(w), w, screen_area),
        y: clamp_menu_y(anchor.bottom(), h, screen_area),
        width: w,
        height: h,
    }
}

/// The bookmarks stay on the screen.
pub proof fn bookmarks_stay_on_screen(anchor: Rect, screen: Rect, entries: Seq<BookmarkEntry>)
    requires
        screen.wf(),
        bookmarks_fit(screen),
    ensures
        bookmarks_place(anchor, screen, entries).within(screen),
{
    lemma_widest_bookmark(entries, entries.len());
}

proof fn lemma_widest_bookmark(entries: Seq<BookmarkEntry>, n: nat)
    ensures
        widest_bookmark(entries, n) >= 20,
    decreases n,
{
    if n > 0 && n <= entries.len() {
        lemma_widest_bookmark(entries, (n - 1) as nat);
    }
}

/// The style of a bookmark.
#[verifier::allow_in_spec]
pub fn bookmark_style(lit: bool, status: Option<BookmarkTargetStatus>) -> Style
    returns
        (if lit {
            bold(on(Tone::TextBright, Tone::SelectionBg))
        } else if status == Some(BookmarkTargetStatus::Missing) {
            dim_fg(Tone::Destructive)
        } else if status == Some(BookmarkTargetStatus::Unavailable) {
            dim_fg(Tone::Amber)
        } else {
            fg(Tone::Text)
        }),
{
    if lit {
        bold(on(Tone::TextBright, Tone::SelectionBg))
    } else {
        match status {
            Some(BookmarkTargetStatus::Missing) => dim_fg(Tone::Destructive),
            Some(BookmarkTargetStatus::Unavailable) => dim_fg(Tone::Amber),
            _ => fg(Tone::Text),
        }
    }
}

/// Faint text in a colour.
#[verifier::allow_in_spec]
pub fn dim_fg(tone: Tone) -> Style
    returns
        (Style { dim: true, ..fg(tone) }),
{
    Style { dim: true, ..fg(tone) }
}

/// The mark before a bookmark.
pub open spec fn bookmark_mark(selected: bool, status: Option<BookmarkTargetStatus>) -> Seq<char> {
    match status {
        Some(BookmarkTargetStatus::Missing) => " ! "@,
        Some(BookmarkTargetStatus::Unavailable) => " ? "@,
        _ => if selected {
            " ▸ "@
        } else {
            "   "@
        },
    }
}

/// The row of a bookmark.
pub open spec fn bookmark_row(state: BookmarksState, i: int, hover: Option<TuiButton>, w: int) -> LineV {
    let entry = state.entries@[i];
    let selected = state.dropdown_selected == i;
    let style = bookmark_style(
        selected || hover == Some(TuiButton::BrowseBookmarkDropdownRow(i as usize)),
        entry.status,
    );
    seq![
        sp(bookmark_mark(selected, entry.status), style),
        sp(truncated_right(entry.name@, minus(w, 3)), style),
    ]
}

/// The style of a bookmark's row.
pub open spec fn bookmark_row_style(state: BookmarksState, i: int, hover: Option<TuiButton>) -> Style {
    bookmark_style(
        state.dropdown_selected == i || hover == Some(
            TuiButton::BrowseBookmarkDropdownRow(i as usize),
        ),
        state.entries@[i].status,
    )
}

/// Row `row` inside the border, over its whole width.
pub open spec fn inside_row(inside: Rect, row: int) -> Rect {
    Rect { x: inside.x, y: plus16(inside.y as int, row) as u16, width: inside.width, height: 1 }
}

/// The first `n` bookmarks shown.
pub open spec fn bookmark_scene(
    state: BookmarksState,
    inside: Rect,
    hover: Option<TuiButton>,
    n: nat,
) -> SceneV {
    Seq::new(
        n,
        |k: int|
            text_op(
                inside_row(inside, k),
                seq![
                    bookmark_row(state, state.dropdown_scroll + k, hover, inside.width as int),
                ],
                bookmark_row_style(state, state.dropdown_scroll + k, hover),
            ),
    )
}

/// The first `n` bookmarks shown as buttons.
pub open spec fn bookmark_hits(state: BookmarksState, inside: Rect, n: nat) -> Seq<Hit> {
    Seq::new(
        n,
        |k: int|
            (
                TuiButton::BrowseBookmarkDropdownRow((state.dropdown_scroll + k) as usize),
                inside_row(inside, k),
            ),
    )
}

fn bookmark_line(state: &BookmarksState, i: usize, hover: Option<TuiButton>, w: u16) -> (r: (Line, Style))
    requires
        i < state.entries@.len(),
    ensures
        r.0@ == bookmark_row(*state, i as int, hover, w as int),
        r.1 == bookmark_row_style(*state, i as int, hover),
{
    let entry = &state.entries[i];
    let selected = state.dropdown_selected == i;
    let style = bookmark_style(
        selected || hover == Some(TuiButton::BrowseBookmarkDropdownRow(i)),
        entry.status,
    );
    let mark = match entry.status {
        Some(BookmarkTargetStatus::Missing) => " ! ",
        Some(BookmarkTargetStatus::Unavailable) => " ? ",
        _ => if selected {
            " ▸ "
        } else {
            "   "
        },
    };
    let name = truncate_right(entry.name.as_str(), w.saturating_sub(3) as usize);
    (line2(mark, style, name.as_str(), style), style)
}

fn draw_bookmark_rows(state: &BookmarksState, inside: Rect, hover: Option<TuiButton>, n: usize) -> (r: (
    Scene,
    ButtonRenderMap,
))
    requires
        n > 0 ==> state.dropdown_scroll + n <= state.entries@.len(),
        n <= 65535,
    ensures
        r.0@ == bookmark_scene(*state, inside, hover, n as nat),
        r.1@ == bookmark_hits(*state, inside, n as nat),
{
    let total: usize = state.entries.len();
    let mut scene = Scene::new();
    let mut hits = ButtonRenderMap::new();
    for k in 0..n
        invariant
            total == state.entries@.len(),
            n > 0 ==> state.dropdown_scroll + n <= total,
            n <= 65535,
            scene@ =~= bookmark_scene(*state, inside, hover, k as nat),
            hits@ =~= bookmark_hits(*state, inside, k as nat),
    {
        let i: usize = state.dropdown_scroll + k;
        let (line, style) = bookmark_line(state, i, hover, inside.width);
        let area = Rect {
            x: inside.x,
            y: inside.y.saturating_add(k as u16),
            width: inside.width,
            height: 1,
        };
        scene.text(area, Rows::of(line), style);
        hits.record_button(TuiButton::BrowseBookmarkDropdownRow(i), area);
    }
    (scene, hits)
}

/// How many bookmarks are shown.
pub open spec fn bookmarks_shown(state: BookmarksState, screen: Rect) -> nat {
    minus(
        least(
            plus(state.dropdown_scroll as int, bookmark_capacity(screen)),
            state.entries@.len() as int,
        ),
        state.dropdown_scroll as int,
    ) as nat
}

/// The style of an action below the bookmarks.
#[verifier::allow_in_spec]
pub fn action_style(lit: bool) -> Style
    returns
        (if lit {
            bold(on(Tone::TextBright, Tone::SelectionBg))
        } else {
            fg(Tone::Cyan)
        }),
{
    if lit {
        bold(on(Tone::TextBright, Tone::SelectionBg))
    } else {
        fg(Tone::Cyan)
    }
}

/// A text as a single unstyled span.
pub open spec fn bare(text: Seq<char>) -> RowsV {
    seq![seq![sp(text, plain())]]
}

/// Draws an action below the bookmarks.
pub fn draw_dropdown_action_row(f: &mut Scene, area: Rect, label: &str, selected: bool, hovered: bool)
    ensures
        final(f)@ == old(f)@.push(text_op(area, bare(label@), action_style(selected || hovered))),
{
    let rows = Rows::of(line1(label, plain()));
    proof {
        assert(rows@ =~~= bare(label@));
    }
    f.text(area, rows, action_style(selected || hovered));
}

/// The bookmarks and the two actions below them.
pub open spec fn dropdown_scene(
    anchor: Rect,
    screen: Rect,
    state: BookmarksState,
    hover: Option<TuiButton>,
) -> SceneV {
    let area = bookmarks_place(anchor, screen, state.entries@);
    let inside = panel_inside(area);
    let line = least(state.entries@.len() as int, bookmark_capacity(screen));
    let total = state.entries@.len();
    seq![
        OpV::Clear(area),
        frame_op(area, " Bookmarks "@, bold_fg(Tone::Green), fg(Tone::Green), plain()),
    ] + bookmark_scene(state, inside, hover, bookmarks_shown(state, screen)) + seq![
        text_op(
            inside_row(inside, line),
            bare(repeated('─', inside.width as nat)),
            fg(Tone::BorderDim),
        ),
        text_op(
            inside_row(inside, line + 1),
            bare(" Bookmark this dir"@),
            action_style(
                state.dropdown_selected == total || hover == Some(
                    TuiButton::BrowseBookmarkDropdownAdd,
                ),
            ),
        ),
        text_op(
            inside_row(inside, line + 2),
            bare(" Manage bookmarks…"@),
            action_style(
                state.dropdown_selected == total + 1 || hover == Some(
                    TuiButton::BrowseBookmarkDropdownManage,
                ),
            ),
        ),
    ]
}

/// The bookmarks and the two actions below them, as buttons.
pub open spec fn dropdown_hits(anchor: Rect, screen: Rect, state: BookmarksState) -> Seq<Hit> {
    let inside = panel_inside(bookmarks_place(anchor, screen, state.entries@));
    let line = least(state.entries@.len() as int, bookmark_capacity(screen));
    bookmark_hits(state, inside, bookmarks_shown(state, screen)) + seq![
        (TuiButton::BrowseBookmarkDropdownAdd, inside_row(inside, line + 1)),
        (TuiButton::BrowseBookmarkDropdownManage, inside_row(inside, line + 2)),
    ]
}

fn row_at(inside: Rect, row: u16) -> (r: Rect)
    ensures
        r == inside_row(inside, row as int),
{
    Rect { x: inside.x, y: inside.y.saturating_add(row), width: inside.width, height: 1 }
}

/// Draws the bookmarks. Returns whether they can stay open: on a screen that is too
/// small nothing is drawn, and the keyboard goes back to the screen behind.
pub fn draw_bookmarks_dropdown(
    f: &mut Scene,
    anchor: Rect,
    screen_area: Rect,
    state: &BookmarksState,
    buttons: &mut ButtonRenderMap,
    hover: Option<TuiButton>,
) -> (r: bool)
    ensures
        r == bookmarks_fit(screen_area),
        final(f)@ == if r {
            old(f)@ + dropdown_scene(anchor, screen_area, *state, hover)
        } else {
            old(f)@
        },
        final(buttons)@ == if r {
            old(buttons)@ + dropdown_hits(anchor, screen_area, *state)
        } else {
            old(buttons)@
        },
{
    if !bookmark_dropdown_fits(screen_area) {
        return false;
    }
    let area = find_bookmarks_place(anchor, screen_area, &state.entries);
    let inside = bordered_panel_inner(area);
    let capacity: usize = bookmark_dropdown_rows(screen_area);
    let total: usize = state.entries.len();
    let stop: usize = state.dropdown_scroll.saturating_add(capacity);
    let end: usize = if stop <= total { stop } else { total };
    let shown: usize = end.saturating_sub(state.dropdown_scroll);
    let line: u16 = if total <= capacity { total as u16 } else { capacity as u16 };
    let (listed, mut hits) = draw_bookmark_rows(state, inside, hover, shown);
    let mut scene = Scene::new();
    scene.clear(area);
    scene.frame(area, " Bookmarks ", bold_fg(Tone::Green), fg(Tone::Green), plain());
    scene.append(listed);
    let dashes = Rows::of(line1(repeat_char('─', inside.width as usize).as_str(), plain()));
    proof {
        assert(dashes@ =~~= bare(repeated('─', inside.width as nat)));
    }
    scene.text(row_at(inside, line), dashes, fg(Tone::BorderDim));
    let add_area = row_at(inside, line + 1);
    let manage_area = row_at(inside, line + 2);
    draw_dropdown_action_row(
        &mut scene,
        add_area,
        " Bookmark this dir",
        state.dropdown_selected == total,
        hover == Some(TuiButton::BrowseBookmarkDropdownAdd),
    );
    draw_dropdown_action_row(
        &mut scene,
        manage_area,
        " Manage bookmarks…",
        state.dropdown_selected > 0 && state.dropdown_selected - 1 == total,
        hover == Some(TuiButton::BrowseBookmarkDropdownManage),
    );
    hits.record_button(TuiButton::BrowseBookmarkDropdownAdd, add_area);
    hits.record_button(TuiButton::BrowseBookmarkDropdownManage, manage_area);
    proof {
        assert(scene@ =~= dropdown_scene(anchor, screen_area, *state, hover));
        assert(hits@ =~= dropdown_hits(anchor, screen_area, *state));
    }
    f.append(scene);
    buttons.append(hits);
    true
}

} // verus!
