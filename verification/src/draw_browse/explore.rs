//! The pane with the directory tree, and panes that are collapsed.

use crate::browse::{BrowseInlineEditState, BrowseInlineEditTarget, BrowseState, BrowseTreeNode};
use crate::button_map::{hit_if, BrowsePaneId, ButtonRenderMap, Hit, ScrollbarSurface, TuiButton};
use crate::display_width::{shown_width, width};
use crate::draw_browse::list::{
    draw_vertical_scrollbar, effective_entry_capacity, entry_capacity, scrollbar_scene, thumb_rect,
    ScrollRequest, ScrollbarMetrics,
};
use crate::draw_browse::menus::{bare, bordered_panel_inner, panel_inside};
use crate::draw_browse::toolbar::cell;
use crate::geometry::{plus16, Rect};
use crate::inline_edit::{
    editing_spans, inline_cursor_col, render_inline_value_with_embedded_cursor, TextInputState,
};
use crate::panes::{bottom_edge, bottom_line, title_bar, title_bar_line};
use crate::scene::{line1, line_op, sp, text_op, Line, LineV, Op, OpV, Rows, Scene, SceneV};
use crate::style::{bg, bold, fg, on, over, plain, text_style, Style, Tone};
use crate::text::{
    blanks, cat2, cat3, cat4, chars_of, least, low16, minus, most, plus, same, spaces, string_of,
    to_u16,
};
use vstd::prelude::*;

verus! {

/// The sign before a directory: open, closed, or without anything in it.
pub open spec fn node_glyph(node: BrowseTreeNode) -> Seq<char> {
    if node.has_children {
        if node.expanded {
            "▾"@
        } else {
            "▸"@
        }
    } else {
        " "@
    }
}

fn glyph_of(node: &BrowseTreeNode) -> (r: &'static str)
    ensures
        r@ == node_glyph(*node),
{
    if node.has_children {
        if node.expanded {
            "▾"
        } else {
            "▸"
        }
    } else {
        " "
    }
}

/// The indent of a directory.
pub open spec fn node_indent(node: BrowseTreeNode) -> int {
    plus(node.depth as int, node.depth as int)
}

/// The style of a directory.
#[verifier::allow_in_spec]
pub fn node_style(selected: bool, hovered: bool) -> Style
    returns
        (if selected {
            bold(on(Tone::TextBright, Tone::SelectionBg))
        } else if hovered {
            over(text_style(), Tone::Surface)
        } else {
            text_style()
        }),
{
    if selected {
        bold(on(Tone::TextBright, Tone::SelectionBg))
    } else if hovered {
        over(text_style(), Tone::Surface)
    } else {
        text_style()
    }
}

/// The row of a directory.
pub open spec fn node_line(node: BrowseTreeNode, selected: bool, hovered: bool) -> LineV {
    seq![
        sp(
            blanks(node_indent(node) as nat) + node_glyph(node) + " "@ + node.name@,
            node_style(selected, hovered),
        ),
    ]
}

/// The row of a directory.
pub fn render_browse_tree_node_line(node: &BrowseTreeNode, selected: bool, hovered: bool) -> (r: Line)
    ensures
        r@ == node_line(*node, selected, hovered),
{
    let indent = spaces(node.depth.saturating_add(node.depth));
    let text = cat4(indent.as_str(), glyph_of(node), " ", node.name.as_str());
    line1(text.as_str(), node_style(selected, hovered))
}

/// The tree as far as it has been drawn.
#[derive(Debug)]
pub struct TreeDrawing {
    pub scene: Scene,
    pub hits: ButtonRenderMap,
    /// The next free row.
    pub row: usize,
    pub cursor: Option<(u16, u16)>,
}

/// The contents of a [`TreeDrawing`].
pub struct TreeV {
    pub scene: SceneV,
    pub hits: Seq<Hit>,
    pub row: int,
    pub cursor: Option<(u16, u16)>,
}

impl View for TreeDrawing {
    type V = TreeV;

    open spec fn view(&self) -> TreeV {
        TreeV {
            scene: self.scene@,
            hits: self.hits@,
            row: self.row as int,
            cursor: self.cursor,
        }
    }
}

/// A row of the pane.
pub open spec fn tree_row(inside: Rect, row: int) -> Rect {
    cell(inside.x as int, plus16(inside.y as int, low16(row)), inside.width as int)
}

/// The tree with an editor behind `prefix` in its next row.
pub open spec fn with_editor(
    tree: TreeV,
    inside: Rect,
    prefix: Seq<char>,
    style: Style,
    input: TextInputState,
) -> TreeV {
    let prefix_w = shown_width(prefix) as int;
    let input_w = most(minus(inside.width as int, prefix_w), 1);
    let area = tree_row(inside, tree.row);
    let x = plus16(inside.x as int, low16(prefix_w));
    TreeV {
        scene: tree.scene.push(
            line_op(area, seq![sp(prefix, style)] + editing_spans(input, input_w)),
        ),
        hits: tree.hits.push(
            (TuiButton::BrowseTreeInlineEdit, cell(x, area.y as int, low16(input_w))),
        ),
        row: tree.row + 1,
        cursor: Some((plus16(x, input.cursor_column(input_w)) as u16, area.y)),
    }
}

fn add_editor(tree: &mut TreeDrawing, inside: Rect, prefix: &str, style: Style, input: &TextInputState)
    requires
        old(tree).row < inside.height,
    ensures
        final(tree)@ == with_editor(old(tree)@, inside, prefix@, style, *input),
{
    let prefix_w: usize = width(prefix);
    let room: usize = (inside.width as usize).saturating_sub(prefix_w);
    let input_w: usize = if room >= 1 { room } else { 1 };
    let y: u16 = inside.y.saturating_add(to_u16(tree.row));
    let mut line = line1(prefix, style);
    line.append(render_inline_value_with_embedded_cursor(input, input_w));
    tree.scene.line(Rect { x: inside.x, y, width: inside.width, height: 1 }, line);
    let x: u16 = inside.x.saturating_add(to_u16(prefix_w));
    tree.hits.record_button(
        TuiButton::BrowseTreeInlineEdit,
        Rect { x, y, width: to_u16(input_w), height: 1 },
    );
    tree.cursor = Some((x.saturating_add(inline_cursor_col(input, input_w)), y));
    tree.row = tree.row + 1;
}

/// What the pane shows besides the tree itself.
pub struct TreeContext<'a> {
    pub inline: Option<&'a BrowseInlineEditState>,
    pub hover: Option<TuiButton>,
    pub navigation_focus_active: bool,
}

/// The editor of the name at `path`.
pub open spec fn tree_rename<'a>(inline: Option<&'a BrowseInlineEditState>, path: Seq<char>) -> Option<
    &'a TextInputState,
> {
    match inline {
        Some(state) => match state.target {
            BrowseInlineEditTarget::Rename { path: edited } => if edited@ == path {
                Some(&state.input)
            } else {
                None
            },
            _ => None,
        },
        None => None,
    }
}

/// The editor of a new name in the directory at `path`.
pub open spec fn tree_create<'a>(inline: Option<&'a BrowseInlineEditState>, path: Seq<char>) -> Option<
    &'a TextInputState,
> {
    match inline {
        Some(state) => match state.target {
            BrowseInlineEditTarget::Create { dir } => if dir@ == path {
                Some(&state.input)
            } else {
                None
            },
            _ => None,
        },
        None => None,
    }
}

/// Whether a new name is being entered anywhere.
pub open spec fn creates(inline: Option<&BrowseInlineEditState>) -> bool {
    match inline {
        Some(state) => state.target is Create,
        None => false,
    }
}

fn find_tree_rename<'a>(inline: Option<&'a BrowseInlineEditState>, path: &str) -> (r: Option<
    &'a TextInputState,
>)
    ensures
        r == tree_rename(inline, path@),
{
    match inline {
        Some(state) => match &state.target {
            BrowseInlineEditTarget::Rename { path: edited } => if same(edited.as_str(), path) {
                Some(&state.input)
            } else {
                None
            },
            _ => None,
        },
        None => None,
    }
}

fn find_tree_create<'a>(inline: Option<&'a BrowseInlineEditState>, path: &str) -> (r: Option<
    &'a TextInputState,
>)
    ensures
        r == tree_create(inline, path@),
{
    match inline {
        Some(state) => match &state.target {
            BrowseInlineEditTarget::Create { dir } => if same(dir.as_str(), path) {
                Some(&state.input)
            } else {
                None
            },
            _ => None,
        },
        None => None,
    }
}

fn is_creating(inline: Option<&BrowseInlineEditState>) -> (r: bool)
    ensures
        r == creates(inline),
{
    match inline {
        Some(state) => match &state.target {
            BrowseInlineEditTarget::Create { .. } => true,
            _ => false,
        },
        None => false,
    }
}

/// The place of the sign before a directory, held to the pane.
pub open spec fn disclosure_x(inside: Rect, node: BrowseTreeNode) -> int {
    least(
        plus16(inside.x as int, low16(node_indent(node))),
        plus16(inside.x as int, minus(inside.width as int, 1)),
    )
}

/// The tree with a directory in its next row, which is not being edited.
pub open spec fn with_name(
    tree: TreeV,
    browse: BrowseState,
    ctx: TreeContext,
    inside: Rect,
    i: int,
) -> TreeV {
    let node = browse.nav.tree_nodes@[i];
    let area = tree_row(inside, tree.row);
    let selected = i == browse.nav.tree_cursor && ctx.navigation_focus_active
        && browse.nav.tree_navigation_active;
    let hovered = ctx.hover == Some(TuiButton::BrowseTreeNode(i as usize)) || ctx.hover == Some(
        TuiButton::BrowseTreeDisclosure(i as usize),
    );
    TreeV {
        scene: tree.scene.push(line_op(area, node_line(node, selected, hovered))),
        hits: tree.hits.push((TuiButton::BrowseTreeNode(i as usize), area)) + hit_if(
            node.has_children,
            TuiButton::BrowseTreeDisclosure(i as usize),
            cell(disclosure_x(inside, node), area.y as int, 1),
        ),
        row: tree.row + 1,
        cursor: tree.cursor,
    }
}

fn add_name(tree: &mut TreeDrawing, browse: &BrowseState, ctx: &TreeContext, inside: Rect, i: usize)
    requires
        old(tree).row < inside.height,
        i < browse.nav.tree_nodes@.len(),
    ensures
        final(tree)@ == with_name(old(tree)@, *browse, *ctx, inside, i as int),
{
    let node = &browse.nav.tree_nodes[i];
    let y: u16 = inside.y.saturating_add(to_u16(tree.row));
    let area = Rect { x: inside.x, y, width: inside.width, height: 1 };
    let selected = i == browse.nav.tree_cursor && ctx.navigation_focus_active
        && browse.nav.tree_navigation_active;
    let hovered = ctx.hover == Some(TuiButton::BrowseTreeNode(i)) || ctx.hover == Some(
        TuiButton::BrowseTreeDisclosure(i),
    );
    tree.scene.line(area, render_browse_tree_node_line(node, selected, hovered));
    tree.hits.record_button(TuiButton::BrowseTreeNode(i), area);
    let indent: u16 = to_u16(node.depth.saturating_add(node.depth));
    let wished: u16 = inside.x.saturating_add(indent);
    let last: u16 = inside.x.saturating_add(inside.width.saturating_sub(1));
    tree.hits.record_if(
        node.has_children,
        TuiButton::BrowseTreeDisclosure(i),
        Rect { x: if wished <= last { wished } else { last }, y, width: 1, height: 1 },
    );
    tree.row = tree.row + 1;
}

/// What stands before the name of a directory that is being renamed.
pub open spec fn rename_prefix(node: BrowseTreeNode) -> Seq<char> {
    blanks(node_indent(node) as nat) + node_glyph(node) + " "@
}

/// What stands before a new name in a directory.
pub open spec fn create_prefix(node: BrowseTreeNode) -> Seq<char> {
    blanks(node_indent(node) as nat) + "  + "@
}

/// The tree with a directory in its next row, or the editor of its name.
pub open spec fn with_named_node(
    tree: TreeV,
    browse: BrowseState,
    ctx: TreeContext,
    inside: Rect,
    i: int,
) -> TreeV {
    let node = browse.nav.tree_nodes@[i];
    match tree_rename(ctx.inline, node.path@) {
        Some(input) => with_editor(tree, inside, rename_prefix(node), text_style(), *input),
        None => with_name(tree, browse, ctx, inside, i),
    }
}

/// The tree with one more directory, and below it the editor of a new name in it; as
/// far as there are rows.
pub open spec fn with_node(
    tree: TreeV,
    browse: BrowseState,
    ctx: TreeContext,
    inside: Rect,
    i: int,
) -> TreeV {
    if tree.row >= inside.height {
        tree
    } else {
        let named = with_named_node(tree, browse, ctx, inside, i);
        let node = browse.nav.tree_nodes@[i];
        match tree_create(ctx.inline, node.path@) {
            Some(input) => if named.row < inside.height {
                with_editor(named, inside, create_prefix(node), fg(Tone::Amber), *input)
            } else {
                named
            },
            None => named,
        }
    }
}

fn add_node(tree: &mut TreeDrawing, browse: &BrowseState, ctx: &TreeContext, inside: Rect, i: usize)
    requires
        i < browse.nav.tree_nodes@.len(),
    ensures
        final(tree)@ == with_node(old(tree)@, *browse, *ctx, inside, i as int),
{
    if tree.row >= inside.height as usize {
        return;
    }
    let node = &browse.nav.tree_nodes[i];
    let indent = spaces(node.depth.saturating_add(node.depth));
    match find_tree_rename(ctx.inline, node.path.as_str()) {
        Some(input) => {
            let prefix = cat3(indent.as_str(), glyph_of(node), " ");
            add_editor(tree, inside, prefix.as_str(), text_style(), input);
        },
        None => {
            add_name(tree, browse, ctx, inside, i);
        },
    }
    if tree.row < inside.height as usize {
        match find_tree_create(ctx.inline, node.path.as_str()) {
            Some(input) => {
                let prefix = cat2(indent.as_str(), "  + ");
                add_editor(tree, inside, prefix.as_str(), fg(Tone::Amber), input);
            },
            None => {},
        }
    }
}

/// The first `n` directories from the scroll position on.
pub open spec fn tree_drawn(browse: BrowseState, ctx: TreeContext, inside: Rect, n: nat) -> TreeV
    decreases n,
{
    if n == 0 {
        TreeV { scene: Seq::empty(), hits: Seq::empty(), row: 0, cursor: None }
    } else {
        with_node(
            tree_drawn(browse, ctx, inside, (n - 1) as nat),
            browse,
            ctx,
            inside,
            browse.nav.tree_scroll + n - 1,
        )
    }
}

/// How many directories the pane has room for: one fewer while a new name is entered.
pub open spec fn tree_capacity(inside: Rect, inline: Option<&BrowseInlineEditState>) -> int {
    entry_capacity(inside.height as int, creates(inline))
}

/// How many directories are drawn.
pub open spec fn tree_shown(browse: BrowseState, ctx: TreeContext, inside: Rect) -> nat {
    least(
        tree_capacity(inside, ctx.inline),
        minus(browse.nav.tree_nodes@.len() as int, browse.nav.tree_scroll as int),
    ) as nat
}

/// How many directories the pane has room for.
pub fn explore_tree_capacity(area: Rect, inline_edit: Option<&BrowseInlineEditState>) -> (r: usize)
    ensures
        r == tree_capacity(panel_inside(area), inline_edit),
{
    let inside = bordered_panel_inner(area);
    effective_entry_capacity(inside.height as usize, is_creating(inline_edit))
}

fn draw_tree(browse: &BrowseState, ctx: &TreeContext, inside: Rect) -> (r: TreeDrawing)
    ensures
        r@ == tree_drawn(*browse, *ctx, inside, tree_shown(*browse, *ctx, inside)),
{
    let capacity: usize = effective_entry_capacity(inside.height as usize, is_creating(ctx.inline));
    let total: usize = browse.nav.tree_nodes.len();
    let left: usize = total.saturating_sub(browse.nav.tree_scroll);
    let n: usize = if capacity <= left { capacity } else { left };
    let mut tree = TreeDrawing {
        scene: Scene::new(),
        hits: ButtonRenderMap::new(),
        row: 0,
        cursor: None,
    };
    for k in 0..n
        invariant
            total == browse.nav.tree_nodes@.len(),
            n > 0 ==> browse.nav.tree_scroll + n <= total,
            tree@ == tree_drawn(*browse, *ctx, inside, k as nat),
    {
        add_node(&mut tree, browse, ctx, inside, browse.nav.tree_scroll + k);
    }
    tree
}

/// The two sides of the border in the first `n` rows.
pub open spec fn side_scene(area: Rect, n: nat) -> SceneV
    decreases n,
{
    if n == 0 {
        Seq::empty()
    } else {
        let y = plus16(plus16(area.y as int, 1), n - 1);
        side_scene(area, (n - 1) as nat).push(
            text_op(cell(area.x as int, y, 1), bare("│"@), fg(Tone::Cyan)),
        ).push(
            text_op(cell(plus16(area.x as int, area.width - 1), y, 1), bare("│"@), fg(Tone::Cyan)),
        )
    }
}

/// The border of the pane.
pub open spec fn explore_frame(area: Rect) -> SceneV {
    let w = area.width as int;
    seq![
        line_op(
            cell(area.x as int, area.y as int, w),
            title_bar(Tone::Cyan, on(Tone::Bg, Tone::Cyan), "▾ explore "@, w),
        ),
    ] + side_scene(area, minus(area.height as int, 2) as nat) + seq![
        line_op(
            cell(area.x as int, plus16(area.y as int, area.height - 1), w),
            bottom_edge(Tone::Cyan, w),
        ),
        OpV::Clear(panel_inside(area)),
    ]
}

fn put_bare(f: &mut Scene, area: Rect, text: &str, style: Style)
    ensures
        final(f)@ == old(f)@.push(text_op(area, bare(text@), style)),
{
    let rows = Rows::of(line1(text, plain()));
    proof {
        assert(rows@ =~~= bare(text@));
    }
    f.text(area, rows, style);
}

fn draw_explore_frame(area: Rect) -> (r: Scene)
    requires
        area.height >= 3,
        area.width >= 6,
    ensures
        r@ == explore_frame(area),
{
    let w: usize = area.width as usize;
    let mut scene = Scene::new();
    scene.line(
        Rect { x: area.x, y: area.y, width: area.width, height: 1 },
        title_bar_line(Tone::Cyan, on(Tone::Bg, Tone::Cyan), "▾ explore ", w),
    );
    let ghost top = scene@;
    let rows: u16 = area.height - 2;
    for k in 0..rows
        invariant
            area.width >= 6,
            scene@ =~= top + side_scene(area, k as nat),
    {
        let y: u16 = area.y.saturating_add(1).saturating_add(k);
        put_bare(&mut scene, Rect { x: area.x, y, width: 1, height: 1 }, "│", fg(Tone::Cyan));
        let x: u16 = area.x.saturating_add(area.width - 1);
        put_bare(&mut scene, Rect { x, y, width: 1, height: 1 }, "│", fg(Tone::Cyan));
    }
    scene.line(
        Rect {
            x: area.x,
            y: area.y.saturating_add(area.height - 1),
            width: area.width,
            height: 1,
        },
        bottom_line(Tone::Cyan, w),
    );
    scene.clear(bordered_panel_inner(area));
    proof {
        assert(scene@ =~= explore_frame(area));
    }
    scene
}

/// The place of the tree's scrollbar.
pub open spec fn tree_scrollbar(inside: Rect) -> Rect {
    Rect {
        x: minus(plus16(inside.x as int, inside.width as int), 1) as u16,
        y: inside.y,
        width: 1,
        height: inside.height,
    }
}

/// The pane is shown only in an area of at least this size.
pub open spec fn explore_fits(area: Rect) -> bool {
    area.height >= 3 && area.width >= 6
}

/// What the tree's scrollbar is worked out from: the directories, those that fit, the
/// first that is shown, and the rows of the pane.
pub open spec fn scrolls_tree(
    area: Rect,
    browse: BrowseState,
    inline: Option<&BrowseInlineEditState>,
) -> Option<ScrollRequest> {
    if explore_fits(area) {
        Some(
            ScrollRequest {
                total: browse.nav.tree_nodes@.len() as usize,
                visible: tree_capacity(panel_inside(area), inline) as usize,
                offset: browse.nav.tree_scroll,
                track: panel_inside(area).height as usize,
            },
        )
    } else {
        None
    }
}

/// What the tree's scrollbar is worked out from, where the tree is drawn in `area`.
pub fn tree_scroll_request(
    area: Rect,
    browse: &BrowseState,
    inline_edit: Option<&BrowseInlineEditState>,
) -> (r: Option<ScrollRequest>)
    ensures
        r == scrolls_tree(area, *browse, inline_edit),
{
    if area.height < 3 || area.width < 6 {
        return None;
    }
    Some(
        ScrollRequest {
            total: browse.nav.tree_nodes.len(),
            visible: explore_tree_capacity(area, inline_edit),
            offset: browse.nav.tree_scroll,
            track: bordered_panel_inner(area).height as usize,
        },
    )
}

/// The pane on the screen.
pub open spec fn explore_scene(
    area: Rect,
    browse: BrowseState,
    ctx: TreeContext,
    metrics: Option<ScrollbarMetrics>,
) -> SceneV {
    let inside = panel_inside(area);
    let tree = tree_drawn(browse, ctx, inside, tree_shown(browse, ctx, inside));
    explore_frame(area) + tree.scene + (match metrics {
        Some(m) => scrollbar_scene(tree_scrollbar(inside), m),
        None => Seq::empty(),
    }) + match tree.cursor {
        Some((x, y)) => seq![
            OpV::Cursor {
                x: least(
                    x as int,
                    plus16(inside.x as int, minus(inside.width as int, 1)),
                ) as u16,
                y,
            },
        ],
        None => Seq::empty(),
    }
}

/// The pane as buttons.
pub open spec fn explore_hits(
    area: Rect,
    browse: BrowseState,
    ctx: TreeContext,
    metrics: Option<ScrollbarMetrics>,
) -> Seq<Hit> {
    let inside = panel_inside(area);
    let tree = tree_drawn(browse, ctx, inside, tree_shown(browse, ctx, inside));
    seq![
        (
            TuiButton::BrowsePaneToggle(BrowsePaneId::Explore),
            cell(
                plus16(area.x as int, 1),
                area.y as int,
                low16(shown_width("▾ explore "@) as int),
            ),
        ),
    ] + tree.hits + match metrics {
        Some(m) => seq![
            (
                TuiButton::ScrollbarTrack(ScrollbarSurface::BrowseTree),
                tree_scrollbar(inside),
            ),
            (
                TuiButton::ScrollbarThumb(ScrollbarSurface::BrowseTree),
                thumb_rect(tree_scrollbar(inside), m),
            ),
        ],
        None => Seq::empty(),
    }
}

/// Draws the pane with the directory tree.
pub fn draw_explore_pane(
    f: &mut Scene,
    area: Rect,
    browse: &BrowseState,
    inline_edit: Option<&BrowseInlineEditState>,
    buttons: &mut ButtonRenderMap,
    hover: Option<TuiButton>,
    navigation_focus_active: bool,
    metrics: Option<ScrollbarMetrics>,
)
    ensures
        final(f)@ == if explore_fits(area) {
            old(f)@ + explore_scene(
                area,
                *browse,
                (TreeContext { inline: inline_edit, hover, navigation_focus_active }),
                metrics,
            )
        } else {
            old(f)@
        },
        final(buttons)@ == if explore_fits(area) {
            old(buttons)@ + explore_hits(
                area,
                *browse,
                (TreeContext { inline: inline_edit, hover, navigation_focus_active }),
                metrics,
            )
        } else {
            old(buttons)@
        },
{
    if area.height < 3 || area.width < 6 {
        return;
    }
    let ctx = TreeContext { inline: inline_edit, hover, navigation_focus_active };
    let inside = bordered_panel_inner(area);
    let mut scene = draw_explore_frame(area);
    let mut hits = ButtonRenderMap::new();
    hits.record_button(
        TuiButton::BrowsePaneToggle(BrowsePaneId::Explore),
        Rect {
            x: area.x.saturating_add(1),
            y: area.y,
            width: to_u16(width("▾ explore ")),
            height: 1,
        },
    );
    let tree = draw_tree(browse, &ctx, inside);
    let cursor = tree.cursor;
    scene.append(tree.scene);
    hits.append(tree.hits);
    let bar = Rect {
        x: inside.right().saturating_sub(1),
        y: inside.y,
        width: 1,
        height: inside.height,
    };
    match draw_vertical_scrollbar(&mut scene, bar, metrics) {
        Some((track, thumb)) => {
            hits.record_button(TuiButton::ScrollbarTrack(ScrollbarSurface::BrowseTree), track);
            hits.record_button(TuiButton::ScrollbarThumb(ScrollbarSurface::BrowseTree), thumb);
        },
        None => {},
    }
    match cursor {
        Some((x, y)) => {
            let last: u16 = inside.x.saturating_add(inside.width.saturating_sub(1));
            scene.cursor(if x <= last { x } else { last }, y);
        },
        None => {},
    }
    proof {
        assert(scene@ =~= explore_scene(area, *browse, ctx, metrics));
        assert(hits@ =~= explore_hits(area, *browse, ctx, metrics));
    }
    f.append(scene);
    buttons.append(hits);
}

/// No row of the tree is drawn below the pane.
pub proof fn tree_stays_in_the_pane(browse: BrowseState, ctx: TreeContext, inside: Rect, n: nat)
    ensures
        0 <= tree_drawn(browse, ctx, inside, n).row <= inside.height,
    decreases n,
{
    if n > 0 {
        tree_stays_in_the_pane(browse, ctx, inside, (n - 1) as nat);
    }
}

/// The colour of a pane's name while it is collapsed.
#[verifier::allow_in_spec]
pub fn collapsed_tone(pane: BrowsePaneId) -> Tone
    returns
        (match pane {
            BrowsePaneId::Explore => Tone::Cyan,
            BrowsePaneId::Info => Tone::Amber,
            BrowsePaneId::Browse => Tone::Cyan,
        }),
{
    match pane {
        BrowsePaneId::Explore => Tone::Cyan,
        BrowsePaneId::Info => Tone::Amber,
        BrowsePaneId::Browse => Tone::Cyan,
    }
}

/// The background of the first `n` rows.
pub open spec fn fill_scene(area: Rect, n: nat) -> SceneV {
    Seq::new(
        n,
        |k: int|
            text_op(
                cell(area.x as int, plus16(area.y as int, k), area.width as int),
                bare(blanks(area.width as nat)),
                bg(Tone::Surface),
            ),
    )
}

/// The first `n` characters of a text, one below the other.
pub open spec fn upright_scene(inside: Rect, text: Seq<char>, style: Style, n: nat) -> SceneV {
    Seq::new(
        n,
        |k: int|
            text_op(
                cell(inside.x as int, plus16(inside.y as int, low16(k)), 1),
                bare(seq![text[k]]),
                style,
            ),
    )
}

/// A collapsed pane: a narrow box with the pane's name, one character below the other.
pub open spec fn collapsed_scene(area: Rect, pane: BrowsePaneId, title: Seq<char>) -> SceneV {
    let inside = panel_inside(area);
    let text = "▸ "@ + title;
    fill_scene(area, area.height as nat) + seq![
        OpV::Frame {
            area,
            title: Seq::empty(),
            border: fg(Tone::BorderDim),
            fill: plain(),
        },
    ] + upright_scene(
        inside,
        text,
        on(collapsed_tone(pane), Tone::Surface),
        least(text.len() as int, inside.height as int) as nat,
    )
}

fn draw_fill(area: Rect) -> (r: Scene)
    ensures
        r@ == fill_scene(area, area.height as nat),
{
    let mut scene = Scene::new();
    for k in 0..area.height
        invariant
            scene@ =~= fill_scene(area, k as nat),
    {
        put_bare(
            &mut scene,
            Rect { x: area.x, y: area.y.saturating_add(k), width: area.width, height: 1 },
            spaces(area.width as usize).as_str(),
            bg(Tone::Surface),
        );
    }
    scene
}

fn draw_upright(inside: Rect, text: &str, style: Style) -> (r: Scene)
    ensures
        r@ == upright_scene(
            inside,
            text@,
            style,
            least(text@.len() as int, inside.height as int) as nat,
        ),
{
    let chars = chars_of(text);
    let total: usize = chars.len();
    let n: usize = if total <= inside.height as usize { total } else { inside.height as usize };
    let mut scene = Scene::new();
    for k in 0..n
        invariant
            n <= chars@.len(),
            chars@ == text@,
            scene@ =~= upright_scene(inside, text@, style, k as nat),
    {
        let one = string_of(&chars, k, k + 1);
        proof {
            assert(one@ =~= seq![text@[k as int]]);
        }
        put_bare(
            &mut scene,
            Rect { x: inside.x, y: inside.y.saturating_add(to_u16(k)), width: 1, height: 1 },
            one.as_str(),
            style,
        );
    }
    scene
}

/// Draws a collapsed pane. All of it opens the pane again.
pub fn draw_collapsed_pane(
    f: &mut Scene,
    area: Rect,
    pane: BrowsePaneId,
    title: &str,
    buttons: &mut ButtonRenderMap,
)
    ensures
        final(f)@ == if area.width > 0 && area.height > 0 {
            old(f)@ + collapsed_scene(area, pane, title@)
        } else {
            old(f)@
        },
        final(buttons)@ == old(buttons)@ + hit_if(
            area.width > 0 && area.height > 0,
            TuiButton::BrowsePaneToggle(pane),
            area,
        ),
{
    let shown = area.width > 0 && area.height > 0;
    if shown {
        let mut scene = draw_fill(area);
        scene.push(
            Op::Frame { area, title: Line::new(), border: fg(Tone::BorderDim), fill: plain() },
        );
        let text = cat2("▸ ", title);
        let inside = bordered_panel_inner(area);
        scene.append(
            draw_upright(inside, text.as_str(), on(collapsed_tone(pane), Tone::Surface)),
        );
        proof {
            assert(scene@ =~= collapsed_scene(area, pane, title@));
        }
        f.append(scene);
    }
    buttons.record_if(shown, TuiButton::BrowsePaneToggle(pane), area);
}

} // verus!
