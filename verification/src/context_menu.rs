//! Context menus: panels of entries, one for each open level.

use crate::geometry::{inner, inside_border, Rect};
use crate::scene::{line1, sp, text_op, Line, LineV, Op, OpV, Rows, RowsV, Scene, SceneV};
use crate::style::{bold, fg, on, plain, Style, Tone};
use crate::text::{
    cat2, cat4, count, low16, minus, owned, plus, repeat_char, repeated, spaces, to_u16, blanks,
};
use vstd::prelude::*;

verus! {

/// Something that can be done.
#[derive(Debug)]
pub struct ContextMenuItem {
    pub label: String,
    pub shortcut: Option<String>,
    pub enabled: bool,
}

/// An entry of a menu.
#[derive(Debug)]
pub enum ContextMenuEntry {
    Separator,
    Item(ContextMenuItem),
    Submenu { label: String },
}

/// An open level of a menu.
#[derive(Debug)]
pub struct MenuLevel {
    pub entries: Vec<ContextMenuEntry>,
    /// The place of the selected entry among those that can be selected.
    pub selected: usize,
}

/// A submenu that is shown before it is entered.
#[derive(Debug)]
pub struct MenuPreview {
    pub entries: Vec<ContextMenuEntry>,
    pub area: Rect,
}

/// An entry that can be selected: an enabled item or a submenu.
pub open spec fn selectable(entry: ContextMenuEntry) -> bool {
    match entry {
        ContextMenuEntry::Separator => false,
        ContextMenuEntry::Item(item) => item.enabled,
        ContextMenuEntry::Submenu { .. } => true,
    }
}

fn is_selectable(entry: &ContextMenuEntry) -> (r: bool)
    ensures
        r == selectable(*entry),
{
    match entry {
        ContextMenuEntry::Separator => false,
        ContextMenuEntry::Item(item) => item.enabled,
        ContextMenuEntry::Submenu { .. } => true,
    }
}

/// The row of the entry, at `from` or later, that has `left` selectable ones before it.
pub open spec fn selectable_row(entries: Seq<ContextMenuEntry>, left: int, from: int) -> Option<int>
    decreases entries.len() - from,
{
    if from < 0 || from >= entries.len() {
        None
    } else if !selectable(entries[from]) {
        selectable_row(entries, left, from + 1)
    } else if left == 0 {
        Some(from)
    } else {
        selectable_row(entries, left - 1, from + 1)
    }
}

/// The row found is that of an entry that can be selected.
pub proof fn selected_row_is_selectable(entries: Seq<ContextMenuEntry>, selected: int, from: int)
    requires
        0 <= from,
    ensures
        selectable_row(entries, selected, from) matches Some(row) ==> from <= row < entries.len()
            && selectable(entries[row]),
    decreases entries.len() - from,
{
    if from < entries.len() {
        if !selectable(entries[from]) {
            selected_row_is_selectable(entries, selected, from + 1);
        } else if selected != 0 {
            selected_row_is_selectable(entries, selected - 1, from + 1);
        }
    }
}

fn find_selectable(entries: &Vec<ContextMenuEntry>, selected: usize) -> (r: Option<usize>)
    ensures
        match r {
            Some(row) => selectable_row(entries@, selected as int, 0) == Some(row as int),
            None => selectable_row(entries@, selected as int, 0) is None,
        },
{
    let mut left: usize = selected;
    for i in 0..entries.len()
        invariant
            selectable_row(entries@, left as int, i as int) == selectable_row(
                entries@,
                selected as int,
                0,
            ),
            i <= entries@.len(),
    {
        if is_selectable(&entries[i]) {
            if left == 0 {
                return Some(i);
            }
            left = left - 1;
        }
    }
    None
}

/// The row of the selected entry; the first row where there is none.
pub open spec fn selected_row(entries: Seq<ContextMenuEntry>, selected: int) -> int {
    match selectable_row(entries, selected, 0) {
        Some(row) => low16(row),
        None => 0,
    }
}

/// Find the row offset (within the menu body, 0-indexed) of the `selected`-th
/// selectable entry.
pub fn selected_entry_row_pub(entries: &Vec<ContextMenuEntry>, selected: usize) -> (r: u16)
    ensures
        r == selected_row(entries@, selected as int),
{
    selected_entry_row(entries, selected)
}

/// Find the row offset of the `selected`-th selectable entry.
pub fn selected_entry_row(entries: &Vec<ContextMenuEntry>, selected: usize) -> (r: u16)
    ensures
        r == selected_row(entries@, selected as int),
{
    match find_selectable(entries, selected) {
        Some(row) => to_u16(row),
        None => 0,
    }
}

/// The style of an entry.
#[verifier::allow_in_spec]
pub fn entry_style(enabled: bool, highlighted: bool) -> Style
    returns
        (if !enabled {
            fg(Tone::TextDim)
        } else if highlighted {
            bold(on(Tone::Bg, Tone::Blue))
        } else {
            fg(Tone::TextBright)
        }),
{
    if !enabled {
        fg(Tone::TextDim)
    } else if highlighted {
        bold(on(Tone::Bg, Tone::Blue))
    } else {
        fg(Tone::TextBright)
    }
}

/// A label at the left and something at the right, `inner_w` columns in all.
pub open spec fn spread(label: Seq<char>, right: Seq<char>, inner_w: int) -> Seq<char> {
    " "@ + label + blanks(
        minus(inner_w, plus(plus(1, label.len() as int), right.len() as int)) as nat,
    ) + right
}

fn spread_text(label: &str, right: &str, inner_w: usize) -> (r: String)
    ensures
        r@ == spread(label@, right@, inner_w as int),
{
    let one: usize = 1;
    let used: usize = one.saturating_add(count(label)).saturating_add(count(right));
    cat4(" ", label, spaces(inner_w.saturating_sub(used)).as_str(), right)
}

/// The shortcut of an item, with the gap before it.
pub open spec fn shortcut_text(item: ContextMenuItem) -> Seq<char> {
    match item.shortcut {
        Some(shortcut) => "  "@ + shortcut@,
        None => ""@,
    }
}

/// One row of a panel. `chosen` marks the selected row: an item is highlighted only in
/// the panel that has the keyboard, a submenu in its ancestors too.
pub open spec fn menu_row(entry: ContextMenuEntry, chosen: bool, has_focus: bool, inner_w: int) -> LineV {
    match entry {
        ContextMenuEntry::Separator => seq![
            sp(repeated('─', inner_w as nat), fg(Tone::BorderDim)),
        ],
        ContextMenuEntry::Item(item) => seq![
            sp(
                spread(item.label@, shortcut_text(item), inner_w),
                entry_style(item.enabled, chosen && has_focus),
            ),
        ],
        ContextMenuEntry::Submenu { label } => seq![
            sp(spread(label@, " >"@, inner_w), entry_style(true, chosen)),
        ],
    }
}

fn menu_line(entry: &ContextMenuEntry, chosen: bool, has_focus: bool, inner_w: usize) -> (r: Line)
    ensures
        r@ == menu_row(*entry, chosen, has_focus, inner_w as int),
{
    match entry {
        ContextMenuEntry::Separator => line1(
            repeat_char('─', inner_w).as_str(),
            fg(Tone::BorderDim),
        ),
        ContextMenuEntry::Item(item) => {
            let shortcut = match &item.shortcut {
                Some(shortcut) => cat2("  ", shortcut.as_str()),
                None => owned(""),
            };
            let text = spread_text(item.label.as_str(), shortcut.as_str(), inner_w);
            line1(text.as_str(), entry_style(item.enabled, chosen && has_focus))
        },
        ContextMenuEntry::Submenu { label } => {
            let text = spread_text(label.as_str(), " >", inner_w);
            line1(text.as_str(), entry_style(true, chosen))
        },
    }
}

/// The rows of a panel.
pub open spec fn menu_rows(
    entries: Seq<ContextMenuEntry>,
    selected: int,
    has_focus: bool,
    inner_w: int,
) -> RowsV {
    Seq::new(
        entries.len(),
        |i: int|
            menu_row(
                entries[i],
                selectable_row(entries, selected, 0) == Some(i),
                has_focus,
                inner_w,
            ),
    )
}

/// The colour of a panel's border.
#[verifier::allow_in_spec]
pub fn panel_border(has_focus: bool) -> Tone
    returns
        (if has_focus {
            Tone::Amber
        } else {
            Tone::BorderDim
        }),
{
    if has_focus {
        Tone::Amber
    } else {
        Tone::BorderDim
    }
}

/// A panel of entries; nothing where there are none.
pub open spec fn menu_panel(
    entries: Seq<ContextMenuEntry>,
    selected: int,
    popup: Rect,
    has_focus: bool,
) -> SceneV {
    if entries.len() == 0 {
        Seq::empty()
    } else {
        let content = inside_border(popup);
        seq![
            OpV::Clear(popup),
            OpV::Frame {
                area: popup,
                title: Seq::empty(),
                border: fg(panel_border(has_focus)),
                fill: plain(),
            },
            text_op(content, menu_rows(entries, selected, has_focus, content.width as int), plain()),
        ]
    }
}

/// Render a menu panel at `popup`. Returns the area used.
pub fn render_menu_panel_at(
    f: &mut Scene,
    entries: &Vec<ContextMenuEntry>,
    selected: usize,
    popup: Rect,
    has_focus: bool,
) -> (r: Rect)
    requires
        popup.wf(),
    ensures
        final(f)@ == old(f)@ + menu_panel(entries@, selected as int, popup, has_focus),
        r == if entries@.len() == 0 {
            (Rect { x: 0, y: 0, width: 0, height: 0 })
        } else {
            popup
        },
{
    if entries.len() == 0 {
        proof {
            assert(f@ =~= old(f)@ + Seq::<OpV>::empty());
        }
        return Rect { x: 0, y: 0, width: 0, height: 0 };
    }
    f.clear(popup);
    f.push(
        Op::Frame {
            area: popup,
            title: Line::new(),
            border: fg(panel_border(has_focus)),
            fill: plain(),
        },
    );
    let content = inner(popup);
    let w: usize = content.width as usize;
    let chosen = find_selectable(entries, selected);
    let mut rows = Rows::new();
    let ghost all = menu_rows(entries@, selected as int, has_focus, w as int);
    for i in 0..entries.len()
        invariant
            all == menu_rows(entries@, selected as int, has_focus, w as int),
            match chosen {
                Some(row) => selectable_row(entries@, selected as int, 0) == Some(row as int),
                None => selectable_row(entries@, selected as int, 0) is None,
            },
            rows@ =~= all.take(i as int),
    {
        let here = match chosen {
            Some(row) => row == i,
            None => false,
        };
        rows.push(menu_line(&entries[i], here, has_focus, w));
    }
    proof {
        assert(rows@ =~= all);
    }
    f.text(content, rows, plain());
    proof {
        assert(f@ =~= old(f)@ + menu_panel(entries@, selected as int, popup, has_focus));
    }
    popup
}

/// The panels of the first `n` levels; the last of all levels has the keyboard.
pub open spec fn level_panels(levels: Seq<MenuLevel>, areas: Seq<Rect>, n: nat) -> SceneV
    decreases n,
{
    if n == 0 || n > levels.len() {
        Seq::empty()
    } else {
        level_panels(levels, areas, (n - 1) as nat) + menu_panel(
            levels[n - 1].entries@,
            levels[n - 1].selected as int,
            areas[n - 1],
            n == levels.len(),
        )
    }
}

/// A stack of panels, with a preview of the next one.
pub open spec fn menu_stack(levels: Seq<MenuLevel>, areas: Seq<Rect>, preview: Option<MenuPreview>) -> SceneV {
    level_panels(levels, areas, levels.len()) + match preview {
        Some(next) if levels.len() > 0 => menu_panel(
            next.entries@,
            usize::MAX as int,
            next.area,
            false,
        ),
        _ => Seq::empty(),
    }
}

/// Draw a stack of cascading context-menu panels. The deepest level is the focused
/// one; ancestor levels keep their selected row highlighted but render with a muted
/// border. `areas` holds the place of each level's panel, and `preview` the children of
/// the selected submenu, which has not been entered yet.
pub fn draw_context_menu_stack(
    f: &mut Scene,
    levels: &Vec<MenuLevel>,
    areas: &Vec<Rect>,
    preview: &Option<MenuPreview>,
)
    requires
        areas@.len() >= levels@.len(),
        forall|i: int| 0 <= i < levels@.len() ==> (#[trigger] areas@[i]).wf(),
        preview matches Some(next) ==> next.area.wf(),
    ensures
        final(f)@ == old(f)@ + menu_stack(levels@, areas@, *preview),
{
    let ghost start = f@;
    let total: usize = levels.len();
    for i in 0..total
        invariant
            total == levels@.len(),
            areas@.len() >= levels@.len(),
            forall|i: int| 0 <= i < levels@.len() ==> (#[trigger] areas@[i]).wf(),
            f@ =~= start + level_panels(levels@, areas@, i as nat),
    {
        let level = &levels[i];
        let _used = render_menu_panel_at(f, &level.entries, level.selected, areas[i], i + 1 == total);
    }
    match preview {
        Some(next) => {
            if total > 0 {
                let _used = render_menu_panel_at(f, &next.entries, usize::MAX, next.area, false);
            }
        },
        None => {},
    }
    proof {
        assert(f@ =~= start + menu_stack(levels@, areas@, *preview));
    }
}

proof fn lemma_selectable_row_needs_entries(entries: Seq<ContextMenuEntry>, left: int, from: int)
    requires
        0 <= from <= entries.len(),
        0 <= left,
    ensures
        selectable_row(entries, left, from) is Some ==> left < entries.len() - from,
    decreases entries.len() - from,
{
    if from < entries.len() {
        if !selectable(entries[from]) {
            lemma_selectable_row_needs_entries(entries, left, from + 1);
        } else if left > 0 {
            lemma_selectable_row_needs_entries(entries, left - 1, from + 1);
        }
    }
}

/// No row of a preview is highlighted.
pub proof fn preview_highlights_nothing(entries: Seq<ContextMenuEntry>, inner_w: int, i: int)
    requires
        entries.len() <= usize::MAX,
        0 <= i < entries.len(),
    ensures
        menu_rows(entries, usize::MAX as int, false, inner_w)[i] == menu_row(
            entries[i],
            false,
            false,
            inner_w,
        ),
{
    lemma_selectable_row_needs_entries(entries, usize::MAX as int, 0);
}

} // verus!
