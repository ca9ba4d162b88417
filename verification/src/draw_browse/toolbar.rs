//! The toolbar of the browse screen: buttons, and the path bar below them.

use crate::browse::BrowseState;
use crate::button_map::{hit_if, ButtonRenderMap, Hit, TuiButton};
use crate::display_width::{shown_width, width};
use crate::draw_browse::list::{draw_breadcrumb_inline, path_scene};
use crate::draw_browse::menus::bare;
use crate::geometry::{plus16, Rect};
use crate::path::{parent, parent_of};
use crate::scene::{line1, line_op, sp, text_op, OpV, Rows, Scene, SceneV};
use crate::style::{bold, fg, on, plain, Style, Tone};
use crate::text::{cat3, least, low16, minus, repeat_char, repeated, to_u16};
use vstd::prelude::*;

verus! {

/// The button that opens the path in the path bar.
pub const BROWSE_PATH_GO_LABEL: &'static str = " go ";

/// The columns of that button.
pub const BROWSE_PATH_GO_WIDTH: u16 = 5;

/// The columns of the button that opens the bookmarks.
pub const BOOKMARK_WIDTH: u16 = 13;

/// The columns of the buttons behind the path, with the gap between them.
pub const ACTION_WIDTH: u16 = 19;

/// The style of a button.
#[verifier::allow_in_spec]
pub fn browse_toolbar_button_style() -> Style
    returns
        bold(on(Tone::Bg, Tone::Cyan)),
{
    bold(on(Tone::Bg, Tone::Cyan))
}

/// The style of a button that cannot be used.
#[verifier::allow_in_spec]
pub fn browse_toolbar_button_disabled_style() -> Style
    returns
        on(Tone::TextMuted, Tone::BorderDim),
{
    on(Tone::TextMuted, Tone::BorderDim)
}

/// The style of a button that can be used or not.
#[verifier::allow_in_spec]
pub fn toolbar_style(enabled: bool) -> Style
    returns
        (if enabled {
            browse_toolbar_button_style()
        } else {
            browse_toolbar_button_disabled_style()
        }),
{
    if enabled {
        browse_toolbar_button_style()
    } else {
        browse_toolbar_button_disabled_style()
    }
}

/// A stretch of one row.
pub open spec fn cell(x: int, y: int, w: int) -> Rect {
    Rect { x: x as u16, y: y as u16, width: w as u16, height: 1 }
}

/// A button of the toolbar.
pub open spec fn toolbar_op(x: int, y: int, label: Seq<char>, enabled: bool) -> OpV {
    text_op(cell(x, y, low16(shown_width(label) as int)), bare(label), toolbar_style(enabled))
}

/// The place of a button of the toolbar, where it can be used.
pub open spec fn toolbar_hit(x: int, y: int, label: Seq<char>, enabled: bool, button: TuiButton) -> Seq<
    Hit,
> {
    hit_if(enabled, button, cell(x, y, low16(shown_width(label) as int)))
}

fn put_text(f: &mut Scene, area: Rect, text: &str, style: Style)
    ensures
        final(f)@ == old(f)@.push(text_op(area, bare(text@), style)),
{
    let rows = Rows::of(line1(text, plain()));
    proof {
        assert(rows@ =~~= bare(text@));
    }
    f.text(area, rows, style);
}

/// Draws a button of the toolbar.
pub fn draw_toolbar_button(
    f: &mut Scene,
    buttons: &mut ButtonRenderMap,
    button: TuiButton,
    x: u16,
    y: u16,
    label: &str,
    enabled: bool,
)
    ensures
        final(f)@ == old(f)@.push(toolbar_op(x as int, y as int, label@, enabled)),
        final(buttons)@ == old(buttons)@ + toolbar_hit(x as int, y as int, label@, enabled, button),
{
    let w: u16 = to_u16(width(label));
    let area = Rect { x, y, width: w, height: 1 };
    put_text(f, area, label, toolbar_style(enabled));
    buttons.record_if(enabled, button, area);
}

/// The colour of the border: lit while the path is edited.
pub open spec fn toolbar_border(browse: BrowseState) -> Tone {
    if browse.path_input is Some {
        Tone::Blue
    } else {
        Tone::BorderDim
    }
}

/// A line across the box, with its two ends.
pub open spec fn box_line(area: Rect, row: int, left: Seq<char>, right: Seq<char>, border: Tone) -> OpV {
    line_op(
        cell(area.x as int, plus16(area.y as int, row), area.width as int),
        seq![
            sp(left + repeated('─', minus(area.width as int, 2) as nat) + right, fg(border)),
        ],
    )
}

/// The sides of the box in one row.
pub open spec fn box_sides(area: Rect, row: int, border: Tone) -> SceneV {
    let y = plus16(area.y as int, row);
    seq![
        text_op(cell(area.x as int, y, 1), bare("│"@), fg(border)),
        text_op(
            cell(plus16(area.x as int, area.width - 1), y, 1),
            bare("│"@),
            fg(border),
        ),
    ]
}

/// Two boxes, one above the other, that share a border.
pub open spec fn box_scene(area: Rect, border: Tone) -> SceneV {
    seq![box_line(area, 0, "┌"@, "┐"@, border)] + box_sides(area, 1, border) + seq![
        box_line(area, 2, "├"@, "┤"@, border),
    ] + box_sides(area, 3, border) + seq![box_line(area, 4, "└"@, "┘"@, border)]
}

fn draw_box_line(f: &mut Scene, area: Rect, row: u16, left: &str, right: &str, border: Tone)
    ensures
        final(f)@ == old(f)@.push(box_line(area, row as int, left@, right@, border)),
{
    let dashes = repeat_char('─', (area.width as usize).saturating_sub(2));
    let line = line1(cat3(left, dashes.as_str(), right).as_str(), fg(border));
    f.line(
        Rect { x: area.x, y: area.y.saturating_add(row), width: area.width, height: 1 },
        line,
    );
}

fn draw_box_sides(f: &mut Scene, area: Rect, row: u16, border: Tone)
    requires
        area.width > 0,
    ensures
        final(f)@ == old(f)@ + box_sides(area, row as int, border),
{
    let y: u16 = area.y.saturating_add(row);
    put_text(f, Rect { x: area.x, y, width: 1, height: 1 }, "│", fg(border));
    put_text(
        f,
        Rect { x: area.x.saturating_add(area.width - 1), y, width: 1, height: 1 },
        "│",
        fg(border),
    );
    proof {
        assert(f@ =~= old(f)@ + box_sides(area, row as int, border));
    }
}

fn draw_box(area: Rect, border: Tone) -> (r: Scene)
    requires
        area.width > 0,
    ensures
        r@ == box_scene(area, border),
{
    let mut scene = Scene::new();
    draw_box_line(&mut scene, area, 0, "┌", "┐", border);
    draw_box_sides(&mut scene, area, 1, border);
    draw_box_line(&mut scene, area, 2, "├", "┤", border);
    draw_box_sides(&mut scene, area, 3, border);
    draw_box_line(&mut scene, area, 4, "└", "┘", border);
    proof {
        assert(scene@ =~= box_scene(area, border));
    }
    scene
}

/// The buttons of the toolbar.
pub open spec fn buttons_scene(area: Rect, browse: BrowseState) -> SceneV {
    let x = plus16(area.x as int, 1);
    let y = plus16(area.y as int, 1);
    seq![
        toolbar_op(x, y, " ‹ Back "@, browse.nav.can_go_back),
        toolbar_op(plus16(x, 8), y, " › Fwd "@, browse.nav.can_go_forward),
        toolbar_op(plus16(x, 16), y, " ↑ Up "@, parent_of(browse.current_dir@) is Some),
        toolbar_op(plus16(x, 23), y, " Refresh "@, true),
        toolbar_op(plus16(x, 33), y, " Options ▾ "@, true),
        toolbar_op(plus16(x, 45), y, " Search "@, true),
    ]
}

/// The buttons of the toolbar that can be used.
pub open spec fn buttons_hits(area: Rect, browse: BrowseState) -> Seq<Hit> {
    let x = plus16(area.x as int, 1);
    let y = plus16(area.y as int, 1);
    toolbar_hit(x, y, " ‹ Back "@, browse.nav.can_go_back, TuiButton::BrowseToolbarBack) + toolbar_hit(
        plus16(x, 8),
        y,
        " › Fwd "@,
        browse.nav.can_go_forward,
        TuiButton::BrowseToolbarForward,
    ) + toolbar_hit(
        plus16(x, 16),
        y,
        " ↑ Up "@,
        parent_of(browse.current_dir@) is Some,
        TuiButton::BrowseToolbarUp,
    ) + toolbar_hit(plus16(x, 23), y, " Refresh "@, true, TuiButton::BrowseToolbarRefresh)
        + toolbar_hit(plus16(x, 33), y, " Options ▾ "@, true, TuiButton::BrowseToolbarOptions)
        + toolbar_hit(plus16(x, 45), y, " Search "@, true, TuiButton::BrowseToolbarSearch)
}

fn draw_buttons(area: Rect, browse: &BrowseState) -> (r: (Scene, ButtonRenderMap))
    ensures
        r.0@ == buttons_scene(area, *browse),
        r.1@ == buttons_hits(area, *browse),
{
    let x: u16 = area.x.saturating_add(1);
    let y: u16 = area.y.saturating_add(1);
    let up = parent(browse.current_dir.as_str()).is_some();
    let mut f = Scene::new();
    let mut b = ButtonRenderMap::new();
    draw_toolbar_button(
        &mut f,
        &mut b,
        TuiButton::BrowseToolbarBack,
        x,
        y,
        " ‹ Back ",
        browse.nav.can_go_back,
    );
    draw_toolbar_button(
        &mut f,
        &mut b,
        TuiButton::BrowseToolbarForward,
        x.saturating_add(8),
        y,
        " › Fwd ",
        browse.nav.can_go_forward,
    );
    draw_toolbar_button(
        &mut f,
        &mut b,
        TuiButton::BrowseToolbarUp,
        x.saturating_add(16),
        y,
        " ↑ Up ",
        up,
    );
    draw_toolbar_button(
        &mut f,
        &mut b,
        TuiButton::BrowseToolbarRefresh,
        x.saturating_add(23),
        y,
        " Refresh ",
        true,
    );
    draw_toolbar_button(
        &mut f,
        &mut b,
        TuiButton::BrowseToolbarOptions,
        x.saturating_add(33),
        y,
        " Options ▾ ",
        true,
    );
    draw_toolbar_button(
        &mut f,
        &mut b,
        TuiButton::BrowseToolbarSearch,
        x.saturating_add(45),
        y,
        " Search ",
        true,
    );
    proof {
        assert(f@ =~= buttons_scene(area, *browse));
        assert(b@ =~= buttons_hits(area, *browse));
    }
    (f, b)
}

/// The row of the path bar.
pub open spec fn path_row(area: Rect) -> Rect {
    cell(plus16(area.x as int, 1), plus16(area.y as int, 3), minus(area.width as int, 2))
}

/// The path in its row: what the buttons behind it leave.
pub open spec fn path_area(area: Rect) -> Rect {
    let row = path_row(area);
    cell(row.x as int, row.y as int, minus(row.width as int, 19))
}

/// The place of the button that opens the path.
pub open spec fn go_area(area: Rect) -> Rect {
    let row = path_row(area);
    cell(minus(plus16(row.x as int, row.width as int), 19), row.y as int, 5)
}

/// The place of the button that opens the bookmarks.
pub open spec fn bookmarks_area(area: Rect) -> Rect {
    let go = go_area(area);
    cell(plus16(plus16(go.x as int, 5), 1), go.y as int, 13)
}

/// The two buttons behind the path are apart from it and from each other, and end where
/// the row ends.
pub proof fn path_actions_are_apart(area: Rect)
    requires
        area.wf(),
        area.width >= 21,
    ensures
        path_area(area).x + path_area(area).width == go_area(area).x,
        go_area(area).x + go_area(area).width + 1 == bookmarks_area(area).x,
        bookmarks_area(area).x + bookmarks_area(area).width == path_row(area).x + path_row(
            area,
        ).width,
{
}

/// The columns of the field in which the path is edited.
pub open spec fn path_field_width(area: Rect) -> int {
    let path = path_area(area);
    minus(
        minus(path.width as int, least(low16(shown_width(" path: "@) as int), path.width as int)),
        1,
    )
}

/// The place of the field in which the path is edited.
pub open spec fn path_field(area: Rect) -> Rect {
    let path = path_area(area);
    cell(
        plus16(
            path.x as int,
            least(low16(shown_width(" path: "@) as int), path.width as int),
        ),
        path.y as int,
        path_field_width(area),
    )
}

/// The row of the path: the path itself, and the two buttons where there is room.
pub open spec fn path_row_scene(area: Rect, browse: BrowseState, home: Seq<char>) -> SceneV {
    (if path_area(area).width >= 10 {
        path_scene(path_area(area), browse, home)
    } else {
        Seq::empty()
    }) + if path_row(area).width >= 19 {
        seq![
            text_op(go_area(area), bare(" go "@), browse_toolbar_button_style()),
            text_op(bookmarks_area(area), bare(" bookmarks ▾ "@), browse_toolbar_button_style()),
        ]
    } else {
        Seq::empty()
    }
}

/// The row of the path as buttons.
pub open spec fn path_row_hits(area: Rect, browse: BrowseState) -> Seq<Hit> {
    seq![(TuiButton::BrowseBreadcrumb, path_area(area))] + hit_if(
        browse.path_input is Some && path_field_width(area) > 0,
        TuiButton::BrowsePathInlineEdit,
        path_field(area),
    ) + hit_if(path_row(area).width >= 19, TuiButton::BrowsePathGo, go_area(area)) + hit_if(
        path_row(area).width >= 19,
        TuiButton::BrowseBookmarksToggle,
        bookmarks_area(area),
    )
}

fn draw_path_row(area: Rect, browse: &BrowseState, home: &str) -> (r: (Scene, ButtonRenderMap))
    ensures
        r.0@ == path_row_scene(area, *browse, home@),
        r.1@ == path_row_hits(area, *browse),
{
    let row = Rect {
        x: area.x.saturating_add(1),
        y: area.y.saturating_add(3),
        width: area.width.saturating_sub(2),
        height: 1,
    };
    let path = Rect {
        x: row.x,
        y: row.y,
        width: row.width.saturating_sub(ACTION_WIDTH),
        height: 1,
    };
    let mut scene = Scene::new();
    let mut hits = ButtonRenderMap::new();
    draw_breadcrumb_inline(&mut scene, path, browse, home);
    hits.record_button(TuiButton::BrowseBreadcrumb, path);
    let wished: u16 = to_u16(width(" path: "));
    let prefix: u16 = if wished <= path.width { wished } else { path.width };
    let field_w: u16 = path.width.saturating_sub(prefix).saturating_sub(1);
    hits.record_if(
        browse.path_input.is_some() && field_w > 0,
        TuiButton::BrowsePathInlineEdit,
        Rect { x: path.x.saturating_add(prefix), y: path.y, width: field_w, height: 1 },
    );
    let go = Rect {
        x: row.right().saturating_sub(ACTION_WIDTH),
        y: row.y,
        width: BROWSE_PATH_GO_WIDTH,
        height: 1,
    };
    let bookmarks = Rect {
        x: go.x.saturating_add(BROWSE_PATH_GO_WIDTH).saturating_add(1),
        y: row.y,
        width: BOOKMARK_WIDTH,
        height: 1,
    };
    let roomy = row.width >= ACTION_WIDTH;
    if roomy {
        put_text(&mut scene, go, BROWSE_PATH_GO_LABEL, browse_toolbar_button_style());
        put_text(&mut scene, bookmarks, " bookmarks ▾ ", browse_toolbar_button_style());
    }
    hits.record_if(roomy, TuiButton::BrowsePathGo, go);
    hits.record_if(roomy, TuiButton::BrowseBookmarksToggle, bookmarks);
    proof {
        assert(scene@ =~= path_row_scene(area, *browse, home@));
        assert(hits@ =~= path_row_hits(area, *browse));
    }
    (scene, hits)
}

/// The toolbar is shown only in an area of at least this size.
pub open spec fn toolbar_fits(area: Rect) -> bool {
    area.height >= 5 && area.width >= 20
}

/// The toolbar on the screen.
pub open spec fn toolbar_scene(area: Rect, browse: BrowseState, home: Seq<char>) -> SceneV {
    if toolbar_fits(area) {
        box_scene(area, toolbar_border(browse)) + buttons_scene(area, browse) + path_row_scene(
            area,
            browse,
            home,
        )
    } else {
        Seq::empty()
    }
}

/// The toolbar as buttons.
pub open spec fn toolbar_hits(area: Rect, browse: BrowseState) -> Seq<Hit> {
    if toolbar_fits(area) {
        buttons_hits(area, browse) + path_row_hits(area, browse)
    } else {
        Seq::empty()
    }
}

/// Draws the toolbar: two boxes that share a border, with the buttons in the upper and
/// the path in the lower one.
pub fn draw_browse_toolbar(
    f: &mut Scene,
    area: Rect,
    browse: &BrowseState,
    home: &str,
    buttons: &mut ButtonRenderMap,
)
    ensures
        final(f)@ == old(f)@ + toolbar_scene(area, *browse, home@),
        final(buttons)@ == old(buttons)@ + toolbar_hits(area, *browse),
{
    let mut scene = Scene::new();
    let mut hits = ButtonRenderMap::new();
    if area.height >= 5 && area.width >= 20 {
        let border = if browse.path_input.is_some() {
            Tone::Blue
        } else {
            Tone::BorderDim
        };
        scene = draw_box(area, border);
        let (upper, upper_hits) = draw_buttons(area, browse);
        scene.append(upper);
        hits.append(upper_hits);
        let (lower, lower_hits) = draw_path_row(area, browse, home);
        scene.append(lower);
        hits.append(lower_hits);
    }
    proof {
        assert(scene@ =~= toolbar_scene(area, *browse, home@));
        assert(hits@ =~= toolbar_hits(area, *browse));
    }
    f.append(scene);
    buttons.append(hits);
}

} // verus!
