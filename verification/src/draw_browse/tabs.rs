//! The strip of directory tabs.

use crate::browse::{BrowseState, TabInfo};
use crate::button_map::{hit_if, ButtonRenderMap, Hit, TuiButton};
use crate::dialogs::{paragraph, paragraph_rows};
use crate::display_width::{shown_width, truncate_right, truncated_right, width};
use crate::draw_browse::menus::bare;
use crate::geometry::{plus16, Rect};
use crate::scene::{line1, text_op, Rows, Scene, SceneV};
use crate::style::{bold, fg, on, Style, Tone};
use crate::text::{
    blanks, cat2, cat3, cat4, chars_of, count, dec_len, decimal, least, low16, minus, most, owned,
    spaces, string_of, take_chars, to_u16,
};
use vstd::prelude::*;

verus! {

/// `value` where it has at most `max` characters; else its two ends with an ellipsis
/// between them, `max` characters in all.
pub open spec fn middle_cut(value: Seq<char>, max: int) -> Seq<char> {
    if value.len() <= max {
        value
    } else if max <= 1 {
        "…"@.take(max)
    } else {
        value.take(max / 2) + "…"@ + value.skip(value.len() - (max - 1) / 2)
    }
}

/// Shortens the label of a tab in its middle.
pub fn middle_truncate_tab_label(value: &str, max_chars: usize) -> (r: String)
    ensures
        r@ == middle_cut(value@, max_chars as int),
        r@.len() <= max_chars,
{
    let chars = chars_of(value);
    let n: usize = chars.len();
    proof {
        reveal_strlit("…");
    }
    if n <= max_chars {
        return owned(value);
    }
    if max_chars <= 1 {
        return take_chars("…", max_chars);
    }
    let left: usize = max_chars / 2;
    let right: usize = (max_chars - 1) / 2;
    let front = string_of(&chars, 0, left);
    let back = string_of(&chars, n - right, n);
    proof {
        assert(front@ =~= value@.take(left as int));
        assert(back@ =~= value@.skip(n - right));
    }
    cat3(front.as_str(), "…", back.as_str())
}

/// The columns of the button that opens a tab: with its name, with a sign alone, or
/// none.
pub open spec fn new_width(w: int) -> int {
    if w >= 17 {
        9
    } else if w >= 10 {
        3
    } else {
        0
    }
}

/// Whether the button that opens a closed tab again is shown.
pub open spec fn reopen_shown(w: int, has_closed: bool) -> bool {
    has_closed && w >= 26
}

/// The columns of the buttons behind the tabs.
pub open spec fn controls_width(w: int, has_closed: bool) -> int {
    if new_width(w) == 0 {
        0
    } else if reopen_shown(w, has_closed) {
        10 + new_width(w)
    } else {
        1 + new_width(w)
    }
}

/// The columns of the tabs.
pub open spec fn tabs_width(w: int, has_closed: bool) -> int {
    minus(w, controls_width(w, has_closed))
}

/// How many tabs are shown.
pub open spec fn visible_tabs(total: int, tabs_w: int) -> int {
    least(total, most(tabs_w / 7, 1))
}

/// The first tab shown: so that the active one is in the middle, as far as possible.
pub open spec fn first_tab(total: int, active: int, visible: int) -> int {
    let start = minus(least(active, minus(total, 1)), visible / 2);
    if start + visible > total {
        minus(total, visible)
    } else {
        start
    }
}

/// The active tab is among those shown.
pub proof fn active_tab_is_visible(total: int, active: int, tabs_w: int)
    requires
        0 <= active < total,
        0 <= tabs_w,
    ensures
        ({
            let visible = visible_tabs(total, tabs_w);
            let start = first_tab(total, active, visible);
            0 <= start <= active < start + visible <= total
        }),
{
}

/// The columns of one tab.
pub open spec fn cell_width(total: int, start: int, visible: int, tabs_w: int) -> int {
    let left: int = if start > 0 {
        2
    } else {
        0
    };
    let right: int = if start + visible < total {
        4
    } else {
        0
    };
    least(most(minus(tabs_w, left + right) / most(visible, 1), 7), 24)
}

/// The part of a tab that closes it.
pub open spec fn close_text(w: int) -> Seq<char> {
    if w >= 6 {
        "[×]"@
    } else {
        ""@
    }
}

/// The columns of the part of a tab that closes it.
pub open spec fn close_width(w: int) -> int {
    if w >= 6 {
        3
    } else {
        0
    }
}

/// The mark of a tab that is being read.
pub open spec fn loading_mark(info: TabInfo) -> Seq<char> {
    if info.loading {
        "◐"@
    } else {
        ""@
    }
}

/// The mark of a tab with selected files.
pub open spec fn selection_mark(info: TabInfo) -> Seq<char> {
    if info.has_selection {
        "•"@
    } else {
        ""@
    }
}

/// The part of a tab before the one that closes it.
pub open spec fn tab_left(info: TabInfo, cols: int) -> Seq<char> {
    let fixed = 1 + loading_mark(info).len() + selection_mark(info).len();
    let label = middle_cut(info.label@, most(minus(cols, fixed as int), 1));
    truncated_right(" "@ + loading_mark(info) + label + selection_mark(info), cols)
}

/// A tab, with the part that closes it at its right edge.
pub open spec fn tab_text(info: TabInfo, w: int) -> Seq<char> {
    let cols = minus(w, close_width(w));
    let left = tab_left(info, cols);
    left + blanks(minus(cols, shown_width(left) as int) as nat) + close_text(w)
}

fn tab_str(info: &TabInfo, w: u16) -> (r: String)
    ensures
        r@ == tab_text(*info, w as int),
{
    let close = if w >= 6 {
        "[×]"
    } else {
        ""
    };
    let close_w: u16 = if w >= 6 { 3 } else { 0 };
    let cols: usize = w.saturating_sub(close_w) as usize;
    let loading = if info.loading {
        "◐"
    } else {
        ""
    };
    let selected = if info.has_selection {
        "•"
    } else {
        ""
    };
    let fixed: usize = 1 + count_small(loading) + count_small(selected);
    let room: usize = cols.saturating_sub(fixed);
    let label = middle_truncate_tab_label(info.label.as_str(), if room >= 1 { room } else { 1 });
    let whole = cat4(" ", loading, label.as_str(), selected);
    let left = truncate_right(whole.as_str(), cols);
    let pad: usize = cols.saturating_sub(width(left.as_str()));
    cat3(left.as_str(), spaces(pad).as_str(), close)
}

fn count_small(mark: &str) -> (r: usize)
    requires
        mark@ == "◐"@ || mark@ == "•"@ || mark@ == ""@,
    ensures
        r == mark@.len(),
        r <= 1,
{
    proof {
        reveal_strlit("◐");
        reveal_strlit("•");
        reveal_strlit("");
    }
    count(mark)
}

/// The style of a tab.
#[verifier::allow_in_spec]
pub fn tab_style(active: bool) -> Style
    returns
        (if active {
            bold(on(Tone::Bg, Tone::TabActive))
        } else {
            fg(Tone::TabInactive)
        }),
{
    if active {
        bold(on(Tone::Bg, Tone::TabActive))
    } else {
        fg(Tone::TabInactive)
    }
}

/// A part of the strip, and the column behind it.
pub struct StripV {
    pub scene: SceneV,
    pub hits: Seq<Hit>,
    pub x: int,
}

/// A part of the strip, and the column behind it.
#[derive(Debug)]
pub struct Strip {
    pub scene: Scene,
    pub hits: ButtonRenderMap,
    pub x: u16,
}

impl View for Strip {
    type V = StripV;

    open spec fn view(&self) -> StripV {
        StripV { scene: self.scene@, hits: self.hits@, x: self.x as int }
    }
}

/// A stretch of one row.
pub open spec fn stretch(x: int, y: u16, w: int) -> Rect {
    Rect { x: x as u16, y, width: w as u16, height: 1 }
}

/// The place of a tab from column `x` on, cut at `limit`.
pub open spec fn tab_cell_width(x: int, cell_w: int, limit: int) -> int {
    least(cell_w, minus(limit, x))
}

/// A tab as buttons.
pub open spec fn tab_hits(info: TabInfo, x: int, y: u16, w: int) -> Seq<Hit> {
    let body = minus(w, close_width(w));
    hit_if(body > 0, TuiButton::BrowseDirTab(info.index), stretch(x, y, body)) + hit_if(
        close_width(w) > 0,
        TuiButton::BrowseDirTabClose(info.index),
        stretch(plus16(x, body), y, close_width(w)),
    )
}

/// The strip with one more tab, unless there is no room for it.
pub open spec fn with_tab(strip: StripV, info: TabInfo, y: u16, cell_w: int, limit: int) -> StripV {
    if strip.x >= limit {
        strip
    } else {
        let w = tab_cell_width(strip.x, cell_w, limit);
        StripV {
            scene: strip.scene.push(
                text_op(
                    stretch(strip.x, y, w),
                    paragraph(tab_text(info, w)),
                    tab_style(info.active),
                ),
            ),
            hits: strip.hits + tab_hits(info, strip.x, y, w),
            x: plus16(strip.x, w),
        }
    }
}

fn add_tab(strip: &mut Strip, info: &TabInfo, y: u16, cell_w: u16, limit: u16)
    ensures
        final(strip)@ == with_tab(old(strip)@, *info, y, cell_w as int, limit as int),
{
    if strip.x >= limit {
        return;
    }
    let room: u16 = limit.saturating_sub(strip.x);
    let w: u16 = if cell_w <= room { cell_w } else { room };
    let x: u16 = strip.x;
    strip.scene.text(
        Rect { x, y, width: w, height: 1 },
        paragraph_rows(tab_str(info, w).as_str()),
        tab_style(info.active),
    );
    let close_w: u16 = if w >= 6 { 3 } else { 0 };
    let body: u16 = w.saturating_sub(close_w);
    strip.hits.record_if(
        body > 0,
        TuiButton::BrowseDirTab(info.index),
        Rect { x, y, width: body, height: 1 },
    );
    strip.hits.record_if(
        close_w > 0,
        TuiButton::BrowseDirTabClose(info.index),
        Rect { x: x.saturating_add(body), y, width: close_w, height: 1 },
    );
    strip.x = x.saturating_add(w);
    proof {
        assert(strip.hits@ =~= old(strip).hits@ + tab_hits(*info, x as int, y, w as int));
    }
}

/// The strip with the first `n` of the tabs from `start` on.
pub open spec fn with_tabs(
    strip: StripV,
    tabs: Seq<TabInfo>,
    start: int,
    y: u16,
    cell_w: int,
    limit: int,
    n: nat,
) -> StripV
    decreases n,
{
    if n == 0 {
        strip
    } else {
        with_tab(
            with_tabs(strip, tabs, start, y, cell_w, limit, (n - 1) as nat),
            tabs[start + n - 1],
            y,
            cell_w,
            limit,
        )
    }
}

/// The strip with something more in its row that cannot be clicked.
pub open spec fn with_text(strip: StripV, y: u16, w: int, text: Seq<char>, style: Style) -> StripV {
    StripV {
        scene: strip.scene.push(text_op(stretch(strip.x, y, w), bare(text), style)),
        hits: strip.hits,
        x: plus16(strip.x, w),
    }
}

fn add_text(strip: &mut Strip, y: u16, w: u16, text: &str, style: Style)
    ensures
        final(strip)@ == with_text(old(strip)@, y, w as int, text@, style),
{
    let rows = Rows::of(line1(text, crate::style::plain()));
    proof {
        assert(rows@ =~~= bare(text@));
    }
    strip.scene.text(Rect { x: strip.x, y, width: w, height: 1 }, rows, style);
    strip.x = strip.x.saturating_add(w);
}

/// The strip with a button.
pub open spec fn with_button(strip: StripV, y: u16, w: int, text: Seq<char>, button: TuiButton) -> StripV {
    let more = with_text(strip, y, w, text, on(Tone::Bg, Tone::Cyan));
    StripV { hits: strip.hits.push((button, stretch(strip.x, y, w))), ..more }
}

fn add_button(strip: &mut Strip, y: u16, w: u16, text: &str, button: TuiButton)
    ensures
        final(strip)@ == with_button(old(strip)@, y, w as int, text@, button),
{
    let x: u16 = strip.x;
    add_text(strip, y, w, text, on(Tone::Bg, Tone::Cyan));
    strip.hits.record_button(button, Rect { x, y, width: w, height: 1 });
}

/// The strip with a line before its next button, where there is room.
pub open spec fn with_separator(strip: StripV, y: u16, right: int) -> StripV {
    if minus(right, strip.x) > 0 {
        with_text(strip, y, 1, "│"@, fg(Tone::BorderDim))
    } else {
        strip
    }
}

fn add_separator(strip: &mut Strip, y: u16, right: u16)
    ensures
        final(strip)@ == with_separator(old(strip)@, y, right as int),
{
    if right.saturating_sub(strip.x) > 0 {
        add_text(strip, y, 1, "│", fg(Tone::BorderDim));
    }
}

/// The strip with the buttons behind the tabs.
pub open spec fn with_controls(strip: StripV, area: Rect, has_closed: bool) -> StripV {
    let w = area.width as int;
    let right = plus16(area.x as int, w);
    let start = StripV { x: plus16(area.x as int, tabs_width(w, has_closed)), ..strip };
    if controls_width(w, has_closed) == 0 {
        strip
    } else {
        let first = with_separator(start, area.y, right);
        let second = if reopen_shown(w, has_closed) {
            with_separator(
                if minus(right, first.x) >= 8 {
                    with_button(
                        first,
                        area.y,
                        8,
                        " Reopen "@,
                        TuiButton::BrowseDirTabReopenClosed,
                    )
                } else {
                    first
                },
                area.y,
                right,
            )
        } else {
            first
        };
        if minus(right, second.x) >= new_width(w) {
            with_button(
                second,
                area.y,
                new_width(w),
                if w >= 17 {
                    " New Tab "@
                } else {
                    " + "@
                },
                TuiButton::BrowseDirTabNew,
            )
        } else {
            second
        }
    }
}

fn add_controls(strip: &mut Strip, area: Rect, has_closed: bool)
    ensures
        final(strip)@ == with_controls(old(strip)@, area, has_closed),
{
    let w: u16 = area.width;
    let new_w: u16 = if w >= 17 {
        9
    } else if w >= 10 {
        3
    } else {
        0
    };
    if new_w == 0 {
        return;
    }
    let reopen = has_closed && w >= 26;
    let controls: u16 = if reopen { 10 + new_w } else { 1 + new_w };
    let right: u16 = area.x.saturating_add(w);
    strip.x = area.x.saturating_add(w.saturating_sub(controls));
    add_separator(strip, area.y, right);
    if reopen {
        if right.saturating_sub(strip.x) >= 8 {
            add_button(strip, area.y, 8, " Reopen ", TuiButton::BrowseDirTabReopenClosed);
        }
        add_separator(strip, area.y, right);
    }
    if right.saturating_sub(strip.x) >= new_w {
        let label = if w >= 17 {
            " New Tab "
        } else {
            " + "
        };
        add_button(strip, area.y, new_w, label, TuiButton::BrowseDirTabNew);
    }
}

/// The strip with a sign for the tabs hidden at its left.
pub open spec fn with_left_sign(strip: StripV, area: Rect, hidden: int) -> StripV {
    if hidden > 0 {
        with_text(
            strip,
            area.y,
            least(2, minus(plus16(area.x as int, area.width as int), strip.x)),
            "‹ "@,
            fg(Tone::TextDim),
        )
    } else {
        strip
    }
}

/// How many tabs are hidden at the right.
pub open spec fn right_sign(hidden: int) -> Seq<char> {
    "›+"@ + decimal(hidden as nat)
}

/// The strip with the number of tabs hidden at its right, where there is room.
pub open spec fn with_right_sign(strip: StripV, y: u16, limit: int, hidden: int) -> StripV {
    if hidden > 0 && strip.x < limit {
        let w = least(low16(right_sign(hidden).len() as int), minus(limit, strip.x));
        if w > 0 {
            StripV {
                scene: strip.scene.push(
                    text_op(
                        stretch(strip.x, y, w),
                        bare(truncated_right(right_sign(hidden), w)),
                        fg(Tone::TextDim),
                    ),
                ),
                ..strip
            }
        } else {
            strip
        }
    } else {
        strip
    }
}

fn add_right_sign(strip: &mut Strip, y: u16, limit: u16, hidden: usize)
    ensures
        final(strip)@ == with_right_sign(old(strip)@, y, limit as int, hidden as int),
{
    if hidden > 0 && strip.x < limit {
        let text = cat2("›+", dec_len(hidden).as_str());
        let room: u16 = limit.saturating_sub(strip.x);
        let wished: u16 = to_u16(count(text.as_str()));
        let w: u16 = if wished <= room { wished } else { room };
        if w > 0 {
            let shown = truncate_right(text.as_str(), w as usize);
            let rows = Rows::of(line1(shown.as_str(), crate::style::plain()));
            proof {
                assert(rows@ =~~= bare(shown@));
            }
            strip.scene.text(
                Rect { x: strip.x, y, width: w, height: 1 },
                rows,
                fg(Tone::TextDim),
            );
        }
    }
}

/// The whole strip.
pub open spec fn tab_strip(area: Rect, browse: BrowseState) -> StripV {
    let total = browse.nav.tabs@.len() as int;
    let tabs_w = tabs_width(area.width as int, browse.nav.has_closed_tabs);
    let limit = plus16(area.x as int, tabs_w);
    let visible = visible_tabs(total, tabs_w);
    let start = first_tab(total, browse.nav.active_tab as int, visible);
    let begin = StripV {
        scene: Seq::empty(),
        hits: seq![(TuiButton::BrowseDirTabStrip, area)],
        x: area.x as int,
    };
    with_controls(
        with_right_sign(
            with_tabs(
                with_left_sign(begin, area, start),
                browse.nav.tabs@,
                start,
                area.y,
                cell_width(total, start, visible, tabs_w),
                limit,
                visible as nat,
            ),
            area.y,
            limit,
            total - start - visible,
        ),
        area,
        browse.nav.has_closed_tabs,
    )
}

/// The strip is shown where there is room for it and there are tabs.
pub open spec fn strip_shown(area: Rect, browse: BrowseState) -> bool {
    area.width > 0 && area.height > 0 && browse.nav.tabs@.len() > 0
}

/// Draws the strip of directory tabs. The strip itself is recorded first, so that its
/// tabs and buttons are on top of it.
pub fn draw_browse_tab_strip(
    f: &mut Scene,
    area: Rect,
    browse: &BrowseState,
    buttons: &mut ButtonRenderMap,
)
    ensures
        final(f)@ == if strip_shown(area, *browse) {
            old(f)@ + tab_strip(area, *browse).scene
        } else {
            old(f)@
        },
        final(buttons)@ == if strip_shown(area, *browse) {
            old(buttons)@ + tab_strip(area, *browse).hits
        } else {
            old(buttons)@
        },
{
    if area.width == 0 || area.height == 0 || browse.nav.tabs.len() == 0 {
        return;
    }
    let strip = build_strip(area, browse);
    f.append(strip.scene);
    buttons.append(strip.hits);
}

/// Which tabs are shown, and how wide each is.
struct TabPlan {
    tabs_w: u16,
    visible: usize,
    start: usize,
    cell_w: u16,
}

fn plan_tabs(w: u16, total: usize, active_tab: usize, has_closed: bool) -> (r: TabPlan)
    requires
        total > 0,
    ensures
        r.tabs_w == tabs_width(w as int, has_closed),
        r.visible == visible_tabs(total as int, r.tabs_w as int),
        r.start == first_tab(total as int, active_tab as int, r.visible as int),
        r.cell_w == cell_width(total as int, r.start as int, r.visible as int, r.tabs_w as int),
        r.start + r.visible <= total,
{
    let controls: u16 = if w >= 26 && has_closed {
        19
    } else if w >= 17 {
        10
    } else if w >= 10 {
        4
    } else {
        0
    };
    let tabs_w: u16 = w.saturating_sub(controls);
    let capacity: usize = if tabs_w / 7 >= 1 { (tabs_w / 7) as usize } else { 1 };
    let visible: usize = if total <= capacity { total } else { capacity };
    let active: usize = if active_tab <= total - 1 { active_tab } else { total - 1 };
    let middle: usize = active.saturating_sub(visible / 2);
    let start: usize = if middle > total - visible { total - visible } else { middle };
    let left_w: u16 = if start > 0 { 2 } else { 0 };
    let right_w: u16 = if start + visible < total { 4 } else { 0 };
    let share: usize = (tabs_w.saturating_sub(left_w + right_w) as usize) / visible;
    let cell_w: u16 = if share < 7 {
        7
    } else if share > 24 {
        24
    } else {
        share as u16
    };
    TabPlan { tabs_w, visible, start, cell_w }
}

fn add_left_sign(strip: &mut Strip, area: Rect, hidden: usize)
    ensures
        final(strip)@ == with_left_sign(old(strip)@, area, hidden as int),
{
    if hidden > 0 {
        let room: u16 = area.x.saturating_add(area.width).saturating_sub(strip.x);
        let w: u16 = if room >= 2 { 2 } else { room };
        add_text(strip, area.y, w, "‹ ", fg(Tone::TextDim));
    }
}

fn add_tabs(
    strip: &mut Strip,
    tabs: &Vec<TabInfo>,
    start: usize,
    y: u16,
    cell_w: u16,
    limit: u16,
    n: usize,
)
    requires
        start + n <= tabs@.len(),
    ensures
        final(strip)@ == with_tabs(
            old(strip)@,
            tabs@,
            start as int,
            y,
            cell_w as int,
            limit as int,
            n as nat,
        ),
{
    let total: usize = tabs.len();
    for k in 0..n
        invariant
            start + n <= total == tabs@.len(),
            strip@ == with_tabs(
                old(strip)@,
                tabs@,
                start as int,
                y,
                cell_w as int,
                limit as int,
                k as nat,
            ),
    {
        add_tab(strip, &tabs[start + k], y, cell_w, limit);
    }
}

fn build_strip(area: Rect, browse: &BrowseState) -> (r: Strip)
    requires
        browse.nav.tabs@.len() > 0,
    ensures
        r@ == tab_strip(area, *browse),
{
    let total: usize = browse.nav.tabs.len();
    let plan = plan_tabs(area.width, total, browse.nav.active_tab, browse.nav.has_closed_tabs);
    let limit: u16 = area.x.saturating_add(plan.tabs_w);
    let mut strip = Strip { scene: Scene::new(), hits: ButtonRenderMap::new(), x: area.x };
    strip.hits.record_button(TuiButton::BrowseDirTabStrip, area);
    proof {
        assert(strip.hits@ =~= seq![(TuiButton::BrowseDirTabStrip, area)]);
    }
    add_left_sign(&mut strip, area, plan.start);
    add_tabs(&mut strip, &browse.nav.tabs, plan.start, area.y, plan.cell_w, limit, plan.visible);
    add_right_sign(&mut strip, area.y, limit, total - plan.start - plan.visible);
    add_controls(&mut strip, area, browse.nav.has_closed_tabs);
    strip
}

/// The part of a tab that closes it is drawn at the tab's right edge, and that is where
/// it can be clicked.
pub proof fn close_part_is_at_the_right_edge(info: TabInfo, x: int, y: u16, w: int)
    requires
        0 <= x,
        6 <= w,
        x + w <= 65535,
    ensures
        tab_text(info, w).skip(tab_text(info, w).len() - 3) == "[×]"@,
        tab_hits(info, x, y, w) == seq![
            (TuiButton::BrowseDirTab(info.index), stretch(x, y, w - 3)),
            (TuiButton::BrowseDirTabClose(info.index), stretch(x + w - 3, y, 3)),
        ],
{
    reveal_strlit("[×]");
    let text = tab_text(info, w);
    assert(text.skip(text.len() - 3) =~= "[×]"@);
    assert(tab_hits(info, x, y, w) =~= seq![
        (TuiButton::BrowseDirTab(info.index), stretch(x, y, w - 3)),
        (TuiButton::BrowseDirTabClose(info.index), stretch(x + w - 3, y, 3)),
    ]);
}

/// Tabs never reach into the buttons behind them.
pub proof fn tabs_end_before_the_controls(
    strip: StripV,
    tabs: Seq<TabInfo>,
    start: int,
    y: u16,
    cell_w: int,
    limit: int,
    n: nat,
)
    requires
        0 <= strip.x <= limit <= 65535,
        0 <= cell_w,
    ensures
        strip.x <= with_tabs(strip, tabs, start, y, cell_w, limit, n).x <= limit,
    decreases n,
{
    if n > 0 {
        tabs_end_before_the_controls(strip, tabs, start, y, cell_w, limit, (n - 1) as nat);
    }
}

/// `b` starts with the buttons of `a`.
pub open spec fn extends(a: Seq<Hit>, b: Seq<Hit>) -> bool {
    a.is_prefix_of(b)
}

proof fn lemma_tabs_extend(
    strip: StripV,
    tabs: Seq<TabInfo>,
    start: int,
    y: u16,
    cell_w: int,
    limit: int,
    n: nat,
)
    ensures
        extends(strip.hits, with_tabs(strip, tabs, start, y, cell_w, limit, n).hits),
    decreases n,
{
    if n > 0 {
        lemma_tabs_extend(strip, tabs, start, y, cell_w, limit, (n - 1) as nat);
    }
}

/// The whole strip is recorded first, below its tabs and buttons.
pub proof fn strip_is_below_its_tabs(area: Rect, browse: BrowseState)
    ensures
        tab_strip(area, browse).hits.len() > 0,
        tab_strip(area, browse).hits[0] == (TuiButton::BrowseDirTabStrip, area),
{
    let total = browse.nav.tabs@.len() as int;
    let tabs_w = tabs_width(area.width as int, browse.nav.has_closed_tabs);
    let limit = plus16(area.x as int, tabs_w);
    let visible = visible_tabs(total, tabs_w);
    let start = first_tab(total, browse.nav.active_tab as int, visible);
    let begin = StripV {
        scene: Seq::empty(),
        hits: seq![(TuiButton::BrowseDirTabStrip, area)],
        x: area.x as int,
    };
    let first = with_left_sign(begin, area, start);
    let cell_w = cell_width(total, start, visible, tabs_w);
    lemma_tabs_extend(first, browse.nav.tabs@, start, area.y, cell_w, limit, visible as nat);
    let tabs = with_tabs(first, browse.nav.tabs@, start, area.y, cell_w, limit, visible as nat);
    assert(tabs.hits[0] == begin.hits[0]);
    let signed = with_right_sign(tabs, area.y, limit, total - start - visible);
    assert(signed.hits == tabs.hits);
}

} // verus!
