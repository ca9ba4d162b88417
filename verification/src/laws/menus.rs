//! Trees, tabs and menus: what is painted is what is clicked.

use crate::browse::{BrowseState, BrowseTreeNode, TabInfo};
use crate::button_map::TuiButton;
use crate::context_menu::{
    menu_row, menu_rows, selectable, selectable_row, selected_row, ContextMenuEntry,
};
use crate::display_width::shown_width;
use crate::draw_browse::explore::{node_line, tree_drawn, tree_row, TreeContext};
use crate::draw_browse::tabs::{middle_cut, tab_hits, tab_text, with_tabs, StripV};
use crate::geometry::Rect;
use crate::laws::reports::how_many;
use crate::text::blanks;
use vstd::prelude::*;

verus! {

proof fn lemma_tree(browse: BrowseState, ctx: TreeContext, inside: Rect, n: nat)
    requires
        ctx.inline is None,
        n <= inside.height,
        browse.nav.tree_scroll + n <= browse.nav.tree_nodes@.len(),
    ensures
        ({
            let tree = tree_drawn(browse, ctx, inside, n);
            &&& tree.row == n
            &&& tree.cursor is None
            &&& tree.scene.len() == n
            &&& forall|k: int|
                0 <= k < n ==> (#[trigger] tree.scene[k])->Text_area == tree_row(inside, k)
                    && tree.scene[k] is Text && tree.scene[k]->Text_rows == seq![
                    node_line(
                        browse.nav.tree_nodes@[browse.nav.tree_scroll + k],
                        browse.nav.tree_scroll + k == browse.nav.tree_cursor
                            && ctx.navigation_focus_active && browse.nav.tree_navigation_active,
                        ctx.hover == Some(
                            TuiButton::BrowseTreeNode((browse.nav.tree_scroll + k) as usize),
                        ) || ctx.hover == Some(
                            TuiButton::BrowseTreeDisclosure((browse.nav.tree_scroll + k) as usize),
                        ),
                    ),
                ]
        }),
    decreases n,
{
    if n > 0 {
        lemma_tree(browse, ctx, inside, (n - 1) as nat);
    }
}

proof fn lemma_tree_hit(
    browse: BrowseState,
    ctx: TreeContext,
    inside: Rect,
    n: nat,
    k: int,
) -> (h: int)
    requires
        ctx.inline is None,
        0 <= k < n <= inside.height,
        browse.nav.tree_scroll + n <= browse.nav.tree_nodes@.len(),
    ensures
        0 <= h < tree_drawn(browse, ctx, inside, n).hits.len(),
        tree_drawn(browse, ctx, inside, n).hits[h] == (
            TuiButton::BrowseTreeNode((browse.nav.tree_scroll + k) as usize),
            tree_row(inside, k),
        ),
    decreases n,
{
    let front = tree_drawn(browse, ctx, inside, (n - 1) as nat);
    lemma_tree(browse, ctx, inside, (n - 1) as nat);
    if k == n - 1 {
        front.hits.len() as int
    } else {
        let h = lemma_tree_hit(browse, ctx, inside, (n - 1) as nat, k);
        assert(tree_drawn(browse, ctx, inside, n).hits[h] == front.hits[h]);
        h
    }
}

/// Row `k` of the tree is that of the directory `k` behind the scroll position: its name, indented
/// by two columns for each level and behind the sign of its children, is painted there, and a
/// click there goes to it.
pub proof fn directory_is_clicked_where_it_is_painted(
    browse: BrowseState,
    ctx: TreeContext,
    inside: Rect,
    n: nat,
    k: int,
) -> (h: int)
    requires
        ctx.inline is None,
        0 <= k < n <= inside.height,
        inside.wf(),
        browse.nav.tree_scroll + n <= browse.nav.tree_nodes@.len(),
        browse.nav.tree_nodes@[browse.nav.tree_scroll + k].depth <= 10_000,
    ensures
        ({
            let tree = tree_drawn(browse, ctx, inside, n);
            let node = browse.nav.tree_nodes@[browse.nav.tree_scroll + k];
            let painted = tree.scene[k];
            let line = painted->Text_rows[0][0];
            let sign = if !node.has_children {
                " "@
            } else if node.expanded {
                "▾"@
            } else {
                "▸"@
            };
            &&& tree.scene.len() == n
            &&& painted is Text
            &&& painted->Text_area.y == inside.y + k
            &&& painted->Text_area.x == inside.x
            &&& painted->Text_area.width == inside.width
            &&& line.text == blanks(2 * node.depth as nat) + sign + " "@ + node.name@
            &&& (line.style.bold <==> browse.nav.tree_scroll + k == browse.nav.tree_cursor
                && ctx.navigation_focus_active && browse.nav.tree_navigation_active)
            &&& 0 <= h < tree.hits.len()
            &&& tree.hits[h].0 == TuiButton::BrowseTreeNode(
                (browse.nav.tree_scroll + k) as usize,
            )
            &&& tree.hits[h].1 == painted->Text_area
        }),
{
    lemma_tree(browse, ctx, inside, n);
    lemma_tree_hit(browse, ctx, inside, n, k)
}

/// A label cut in the middle keeps its beginning and its end, and as many characters as it may.
pub proof fn cutting_in_the_middle_keeps_both_ends(value: Seq<char>, max: int)
    requires
        max > 1,
    ensures
        value.len() <= max ==> middle_cut(value, max) == value,
        value.len() > max ==> {
            let r = middle_cut(value, max);
            &&& r.len() == max
            &&& value.take(max / 2).is_prefix_of(r)
            &&& r[max / 2] == '…'
            &&& r.skip(max / 2 + 1) == value.skip(value.len() - (max - 1 - max / 2))
        },
{
    reveal_strlit("…");
    if value.len() > max {
        let r = middle_cut(value, max);
        assert(value.take(max / 2) =~= r.subrange(0, value.take(max / 2).len() as int));
        assert((max - 1) / 2 == max - 1 - max / 2);
        assert(r.skip(max / 2 + 1) =~= value.skip(value.len() - (max - 1 - max / 2)));
    }
}

/// Tabs that fit stand side by side, each as wide as the others.
pub proof fn tabs_are_side_by_side(
    strip: StripV,
    tabs: Seq<TabInfo>,
    start: int,
    y: u16,
    w: int,
    limit: int,
    n: nat,
)
    requires
        0 <= strip.x,
        0 < w,
        strip.x + n * w <= limit <= 65535,
        0 <= start,
        start + n <= tabs.len(),
    ensures
        ({
            let r = with_tabs(strip, tabs, start, y, w, limit, n);
            &&& r.x == strip.x + n * w
            &&& r.scene.len() == strip.scene.len() + n
            &&& forall|k: int|
                0 <= k < n ==> (#[trigger] r.scene[strip.scene.len() + k])->Text_area.x == strip.x
                    + k * w && r.scene[strip.scene.len() + k]->Text_area.width == w
                    && r.scene[strip.scene.len() + k]->Text_area.y == y
                    && r.scene[strip.scene.len() + k]->Text_rows == crate::dialogs::paragraph(
                    tab_text(tabs[start + k], w),
                ) && (r.scene[strip.scene.len() + k]->Text_style.bold <==> tabs[start + k].active)
        }),
    decreases n,
{
    if n > 0 {
        assert(n * w == (n - 1) * w + w) by (nonlinear_arith);
        tabs_are_side_by_side(strip, tabs, start, y, w, limit, (n - 1) as nat);
        let front = with_tabs(strip, tabs, start, y, w, limit, (n - 1) as nat);
        let r = with_tabs(strip, tabs, start, y, w, limit, n);
        assert forall|k: int| 0 <= k < n implies (#[trigger] r.scene[strip.scene.len()
            + k])->Text_area.x == strip.x + k * w && r.scene[strip.scene.len()
            + k]->Text_area.width == w && r.scene[strip.scene.len() + k]->Text_area.y == y
            && r.scene[strip.scene.len() + k]->Text_rows == crate::dialogs::paragraph(
            tab_text(tabs[start + k], w),
        ) && (r.scene[strip.scene.len() + k]->Text_style.bold <==> tabs[start + k].active) by {
            if k < n - 1 {
                assert(r.scene[strip.scene.len() + k] == front.scene[strip.scene.len() + k]);
            }
        }
    } else {
        assert(0 * w == 0) by (nonlinear_arith);
    }
}

proof fn lemma_tab_hit(
    strip: StripV,
    tabs: Seq<TabInfo>,
    start: int,
    y: u16,
    w: int,
    limit: int,
    n: nat,
    k: int,
) -> (h: int)
    requires
        0 <= strip.x,
        6 <= w,
        strip.x + n * w <= limit <= 65535,
        0 <= start,
        start + n <= tabs.len(),
        0 <= k < n,
    ensures
        ({
            let hits = with_tabs(strip, tabs, start, y, w, limit, n).hits;
            &&& 0 <= h < hits.len() - 1
            &&& hits[h].0 == TuiButton::BrowseDirTab(tabs[start + k].index)
            &&& hits[h].1.x == strip.x + k * w
            &&& hits[h].1.width == w - 3
            &&& hits[h].1.y == y
            &&& hits[h + 1].0 == TuiButton::BrowseDirTabClose(tabs[start + k].index)
            &&& hits[h + 1].1.x == strip.x + k * w + w - 3
            &&& hits[h + 1].1.width == 3
        }),
    decreases n,
{
    assert(n * w == (n - 1) * w + w) by (nonlinear_arith);
    let front = with_tabs(strip, tabs, start, y, w, limit, (n - 1) as nat);
    tabs_are_side_by_side(strip, tabs, start, y, w, limit, (n - 1) as nat);
    let all = with_tabs(strip, tabs, start, y, w, limit, n);
    if k == n - 1 {
        assert(all.hits == front.hits + tab_hits(tabs[start + k], front.x, y, w));
        front.hits.len() as int
    } else {
        let h = lemma_tab_hit(strip, tabs, start, y, w, limit, (n - 1) as nat, k);
        assert(all.hits[h] == front.hits[h]);
        assert(all.hits[h + 1] == front.hits[h + 1]);
        h
    }
}

/// Tabs stand side by side, each as wide as the others, in order; each is painted with its own
/// label and clicked, and closed, where it is painted, and the active one alone stands out.
pub proof fn tab_is_clicked_where_it_is_painted(
    strip: StripV,
    tabs: Seq<TabInfo>,
    start: int,
    y: u16,
    w: int,
    limit: int,
    n: nat,
    k: int,
) -> (h: int)
    requires
        0 <= strip.x,
        6 <= w,
        strip.x + n * w <= limit <= 65535,
        0 <= start,
        start + n <= tabs.len(),
        0 <= k < n,
    ensures
        ({
            let r = with_tabs(strip, tabs, start, y, w, limit, n);
            let painted = r.scene[strip.scene.len() + k];
            &&& r.scene.len() == strip.scene.len() + n
            &&& painted->Text_area.x == strip.x + k * w
            &&& painted->Text_area.width == w
            &&& painted->Text_rows == crate::dialogs::paragraph(tab_text(tabs[start + k], w))
            &&& (painted->Text_style.bold <==> tabs[start + k].active)
            &&& 0 <= h < r.hits.len() - 1
            &&& r.hits[h].0 == TuiButton::BrowseDirTab(tabs[start + k].index)
            &&& r.hits[h].1.x == painted->Text_area.x
            &&& r.hits[h].1.width == w - 3
            &&& r.hits[h + 1].0 == TuiButton::BrowseDirTabClose(tabs[start + k].index)
            &&& r.hits[h + 1].1.x == painted->Text_area.x + w - 3
            &&& r.hits[h + 1].1.width == 3
        }),
{
    tabs_are_side_by_side(strip, tabs, start, y, w, limit, n);
    lemma_tab_hit(strip, tabs, start, y, w, limit, n, k)
}

/// A tab shows its label, with a mark before it while it loads and one behind it where something
/// is selected there, and the sign that closes it at its end.
pub proof fn tab_shows_its_label(info: TabInfo, w: int)
    requires
        w >= 6,
        info.label@.len() + 3 <= w - 3,
        shown_width(
            " "@ + (if info.loading { "◐"@ } else { ""@ }) + info.label@ + (
            if info.has_selection { "•"@ } else { ""@ }),
        ) <= w - 3,
    ensures
        ({
            let left = " "@ + (if info.loading { "◐"@ } else { ""@ }) + info.label@ + (
            if info.has_selection { "•"@ } else { ""@ });
            &&& tab_text(info, w) == left + blanks((w - 3 - shown_width(left)) as nat) + "[×]"@
        }),
{
    reveal_strlit("◐");
    reveal_strlit("•");
    reveal_strlit("");
}

proof fn lemma_selectable_row(entries: Seq<ContextMenuEntry>, left: int, from: int)
    requires
        0 <= from <= entries.len(),
        0 <= left,
    ensures
        selectable_row(entries, left, from) matches Some(row) ==> from <= row < entries.len()
            && selectable(entries[row]) && how_many(
            entries.subrange(from, row),
            |e: ContextMenuEntry| selectable(e),
        ) == left,
        selectable_row(entries, left, from) is None ==> how_many(
            entries.skip(from),
            |e: ContextMenuEntry| selectable(e),
        ) <= left,
    decreases entries.len() - from,
{
    let test = |e: ContextMenuEntry| selectable(e);
    reveal(Seq::filter);
    if from < entries.len() {
        if !selectable(entries[from]) {
            lemma_selectable_row(entries, left, from + 1);
            if let Some(row) = selectable_row(entries, left, from + 1) {
                lemma_first(entries.subrange(from, row), test);
                assert(entries.subrange(from, row).skip(1) =~= entries.subrange(from + 1, row));
            } else {
                lemma_first(entries.skip(from), test);
                assert(entries.skip(from).skip(1) =~= entries.skip(from + 1));
            }
        } else if left > 0 {
            lemma_selectable_row(entries, left - 1, from + 1);
            if let Some(row) = selectable_row(entries, left - 1, from + 1) {
                lemma_first(entries.subrange(from, row), test);
                assert(entries.subrange(from, row).skip(1) =~= entries.subrange(from + 1, row));
            } else {
                lemma_first(entries.skip(from), test);
                assert(entries.skip(from).skip(1) =~= entries.skip(from + 1));
            }
        } else {
            assert(entries.subrange(from, from) =~= Seq::empty());
        }
    } else {
        assert(entries.skip(from) =~= Seq::empty());
    }
}

proof fn lemma_first<A>(items: Seq<A>, test: spec_fn(A) -> bool)
    requires
        items.len() > 0,
    ensures
        how_many(items, test) == how_many(items.skip(1), test) + if test(items[0]) {
            1nat
        } else {
            0
        },
    decreases items.len(),
{
    reveal(Seq::filter);
    if items.len() > 1 {
        lemma_first(items.drop_last(), test);
        assert(items.drop_last().skip(1) =~= items.skip(1).drop_last());
        assert(items.skip(1).last() == items.last());
    } else {
        assert(items.skip(1) =~= Seq::empty());
        assert(items.drop_last() =~= Seq::empty());
    }
}

/// The selected entry of a menu is the one that can be selected and has as many such before it as
/// the selection counts; it alone is highlighted. No entry is where the count is past the last.
pub proof fn selection_counts_what_can_be_selected(
    entries: Seq<ContextMenuEntry>,
    selected: int,
    has_focus: bool,
    inner_w: int,
    i: int,
)
    requires
        0 <= selected,
        0 <= i < entries.len(),
        entries.len() <= 65535,
    ensures
        ({
            let chosen = selectable(entries[i]) && how_many(
                entries.take(i),
                |e: ContextMenuEntry| selectable(e),
            ) == selected;
            let rows = menu_rows(entries, selected, has_focus, inner_w);
            &&& rows.len() == entries.len()
            &&& (chosen ==> selected_row(entries, selected) == i)
            &&& (entries[i] is Item ==> (rows[i][0].style.bold <==> chosen && has_focus))
            &&& (entries[i] is Submenu ==> (rows[i][0].style.bold <==> chosen))
        }),
{
    lemma_selectable_row(entries, selected, 0);
    let test = |e: ContextMenuEntry| selectable(e);
    let chosen = selectable(entries[i]) && how_many(entries.take(i), test) == selected;
    if let Some(row) = selectable_row(entries, selected, 0) {
        assert(entries.subrange(0, row) =~= entries.take(row));
        if chosen && row < i {
            lemma_fewer(entries, test, row, i);
        }
        if chosen && i < row {
            lemma_fewer(entries, test, i, row);
        }
    } else {
        assert(entries.skip(0) =~= entries);
        lemma_fewer(entries, test, i, entries.len() as int);
        assert(entries.take(entries.len() as int) =~= entries);
    }
}

proof fn lemma_fewer<A>(items: Seq<A>, test: spec_fn(A) -> bool, a: int, b: int)
    requires
        0 <= a < b <= items.len(),
    ensures
        how_many(items.take(a), test) + (if test(items[a]) { 1nat } else { 0 }) <= how_many(
            items.take(b),
            test,
        ),
    decreases b - a,
{
    reveal(Seq::filter);
    assert(items.take(b).drop_last() =~= items.take(b - 1));
    if a < b - 1 {
        lemma_fewer(items, test, a, b - 1);
    }
}

/// A menu entry shows its label at the left and its shortcut at the right.
pub proof fn menu_entry_shows_its_label(
    entry: ContextMenuEntry,
    chosen: bool,
    has_focus: bool,
    inner_w: int,
)
    ensures
        entry matches ContextMenuEntry::Item(item) ==> (" "@ + item.label@).is_prefix_of(
            menu_row(entry, chosen, has_focus, inner_w)[0].text,
        ) && (item.shortcut matches Some(key) ==> ("  "@ + key@).is_suffix_of(
            menu_row(entry, chosen, has_focus, inner_w)[0].text,
        )),
        entry matches ContextMenuEntry::Submenu { label } ==> (" "@ + label@).is_prefix_of(
            menu_row(entry, chosen, has_focus, inner_w)[0].text,
        ),
{
    let text = menu_row(entry, chosen, has_focus, inner_w)[0].text;
    match entry {
        ContextMenuEntry::Item(item) => {
            let front = " "@ + item.label@;
            assert(front =~= text.subrange(0, front.len() as int));
            if let Some(key) = item.shortcut {
                let tail = "  "@ + key@;
                assert(tail =~= text.subrange(text.len() - tail.len(), text.len() as int));
            }
        },
        ContextMenuEntry::Submenu { label } => {
            let front = " "@ + label@;
            assert(front =~= text.subrange(0, front.len() as int));
        },
        _ => {},
    }
}

} // verus!
