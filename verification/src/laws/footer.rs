//! The footer: tabs, hints and messages.

use crate::button_map::TuiButton;
use crate::draw_footer::{
    all_filled, common_hints, context_line, context_scene, group_spans, groups_that_fit_are_kept,
    hint_groups, hint_spans, last_hint, last_place, row_width, screen_hints, tab_hits, tab_spans,
    tabs_spans, to_drop, AppScreen, Hint, TABS,
};
use crate::draw_header::header_rows;
use crate::geometry::Rect;
use crate::scene::{sp, LineV};
use crate::style::{fg, plain, Tone};
use crate::text::decimal;
use vstd::prelude::*;

verus! {

proof fn lemma_tabs(current: AppScreen, width: int, n: nat)
    requires
        n <= 5,
    ensures
        tabs_spans(current, width, n).len() == if n == 0 { 0int } else { 5 * n - 1 },
        forall|i: int, j: int|
            0 <= i < n && 0 <= j < 4 ==> #[trigger] tabs_spans(current, width, n)[5 * i + j]
                == tab_spans(i, current, width)[j],
    decreases n,
{
    if n > 0 {
        lemma_tabs(current, width, (n - 1) as nat);
        let front = tabs_spans(current, width, (n - 1) as nat);
        let all = tabs_spans(current, width, n);
        assert forall|i: int, j: int| 0 <= i < n && 0 <= j < 4 implies #[trigger] all[5 * i + j]
            == tab_spans(i, current, width)[j] by {
            if i < n - 1 {
                assert(all[5 * i + j] == front[5 * i + j]);
            }
        }
    }
}

/// The screens have their tabs in order, each with its number and its name; the tab of the current
/// screen alone stands out.
pub proof fn every_screen_has_its_tab(current: AppScreen, width: int, i: int)
    requires
        0 <= i < 5,
    ensures
        ({
            let line = tabs_spans(current, width, 5);
            let name = if i == 0 {
                "convert"@
            } else if i == 1 {
                "browse"@
            } else if i == 2 {
                "library"@
            } else if i == 3 {
                "queue"@
            } else {
                "config"@
            };
            let own = (i == 0 && current is Convert) || (i == 1 && current is Browse) || (i == 2
                && current is Library) || (i == 3 && current is Queue) || (i == 4
                && current is Config);
            &&& line.len() == 24
            &&& line[5 * i + 1].text == decimal((i + 1) as nat)
            &&& line[5 * i + 2].text == " "@ + name
            &&& (line[5 * i + 1].style.bold <==> own)
        }),
{
    lemma_tabs(current, width, 5);
    assert(tabs_spans(current, width, 5)[5 * i + 1] == tab_spans(i, current, width)[1]);
    assert(tabs_spans(current, width, 5)[5 * i + 2] == tab_spans(i, current, width)[2]);
    assert(TABS@[0] == AppScreen::Convert);
    assert(TABS@[1] == AppScreen::Browse);
    assert(TABS@[2] == AppScreen::Library);
    assert(TABS@[3] == AppScreen::Queue);
    assert(TABS@[4] == AppScreen::Config);
}

proof fn lemma_tab_hits(area: Rect, n: nat)
    ensures
        tab_hits(area, n).len() == n,
        forall|i: int|
            0 <= i < n ==> (#[trigger] tab_hits(area, n)[i]).0 == TuiButton::Tab((i + 1) as u8)
                && tab_hits(area, n)[i].1.x == crate::geometry::plus16(
                area.x as int,
                i * (area.width as int / 5),
            ) && tab_hits(area, n)[i].1.width == area.width as int / 5 && tab_hits(area, n)[i].1.y
                == area.y,
    decreases n,
{
    if n > 0 {
        lemma_tab_hits(area, (n - 1) as nat);
    }
}

/// The row of tabs is clicked in fifths: fifth `i` goes to screen `i`.
pub proof fn tabs_are_clicked_in_fifths(area: Rect, i: int)
    requires
        area.wf(),
        0 <= i < 5,
    ensures
        ({
            let hits = tab_hits(area, 5);
            let fifth = area.width as int / 5;
            &&& hits.len() == 5
            &&& hits[i].0 == TuiButton::Tab((i + 1) as u8)
            &&& hits[i].1.x == area.x + i * fifth
            &&& hits[i].1.width == fifth
            &&& hits[i].1.y == area.y
            &&& hits[i].1.height == 1
        }),
{
    lemma_tab_hits(area, 5);
    let fifth = area.width as int / 5;
    assert(i * fifth <= 4 * fifth) by (nonlinear_arith)
        requires
            0 <= i <= 4,
            0 <= fifth,
    ;
    assert(0 <= i * fifth) by (nonlinear_arith)
        requires
            0 <= i,
            0 <= fifth,
    ;
    reveal_with_fuel(tab_hits, 6);
}

/// A message takes the place of the hints, whole where it fits; what is cut ends in an ellipsis.
pub proof fn message_takes_the_place_of_the_hints(
    current: AppScreen,
    message: Seq<char>,
    width: int,
)
    ensures
        context_line(current, Some(message), width).len() == 1,
        message.len() + 2 <= width ==> context_line(current, Some(message), width)[0].text == " "@
            + message,
        width >= 4 && message.len() + 2 > width ==> context_line(
            current,
            Some(message),
            width,
        )[0].text == " "@ + message.take(width - 3) + "…"@,
{
}

/// What can be looked up is offered at the right end of the row, and the hints keep clear of it.
pub proof fn details_are_at_the_right_end(
    area: Rect,
    current: AppScreen,
    message: Option<Seq<char>>,
    has_messages: bool,
)
    requires
        area.wf(),
        area.width >= 18,
    ensures
        ({
            let scene = context_scene(area, current, message, has_messages);
            &&& (has_messages ==> scene.len() == 2 && scene[1]->Text_rows[0][0].text == " details "@
                && scene[1]->Text_area.x + scene[1]->Text_area.width == area.x + area.width
                && scene[0]->Text_area.x + scene[0]->Text_area.width == scene[1]->Text_area.x)
            &&& (!has_messages ==> scene.len() == 1 && scene[0]->Text_area.width == area.width)
            &&& scene[0]->Text_area.x == area.x
        }),
{
    reveal_strlit(" details ");
    reveal_strlit("");
}

proof fn lemma_last_hint(group: Seq<Hint>, priority: u8, n: nat)
    requires
        n <= group.len(),
    ensures
        -1 <= last_hint(group, priority, n) < n,
        last_hint(group, priority, n) >= 0 ==> group[last_hint(group, priority, n)].priority
            == priority,
        forall|j: int|
            last_hint(group, priority, n) < j < n ==> (#[trigger] group[j]).priority != priority,
    decreases n,
{
    if n > 0 && group[n - 1].priority != priority {
        lemma_last_hint(group, priority, (n - 1) as nat);
    }
}

proof fn lemma_last_place(groups: Seq<Seq<Hint>>, priority: u8, n: nat)
    requires
        n <= groups.len(),
    ensures
        last_place(groups, priority, n) matches Some((g, h)) ==> 0 <= g < n && 0 <= h
            < groups[g].len() && groups[g][h].priority == priority && (forall|j: int|
            h < j < groups[g].len() ==> (#[trigger] groups[g][j]).priority != priority) && (forall|
            k: int,
            j: int,
        |
            g < k < n && 0 <= j < groups[k].len() ==> (#[trigger] groups[k][j]).priority
                != priority),
        last_place(groups, priority, n) is None ==> forall|k: int, j: int|
            0 <= k < n && 0 <= j < groups[k].len() ==> (#[trigger] groups[k][j]).priority
                != priority,
    decreases n,
{
    if n > 0 {
        lemma_last_hint(groups[n - 1], priority, groups[n - 1].len());
        if last_hint(groups[n - 1], priority, groups[n - 1].len()) < 0 {
            lemma_last_place(groups, priority, (n - 1) as nat);
        }
    }
}

/// The hint that is dropped is the last of those that matter least; one that matters is dropped
/// only when none that matters less is left, and none that must stay is dropped.
pub proof fn least_important_hint_goes_first(groups: Seq<Seq<Hint>>)
    ensures
        to_drop(groups) matches Some((g, h)) ==> {
            let p = groups[g][h].priority;
            &&& 0 <= g < groups.len()
            &&& 0 <= h < groups[g].len()
            &&& p == 1 || p == 2
            &&& (p == 1 ==> forall|k: int, j: int|
                0 <= k < groups.len() && 0 <= j < groups[k].len() ==> (
                #[trigger] groups[k][j]).priority != 2)
            &&& forall|j: int|
                h < j < groups[g].len() ==> (#[trigger] groups[g][j]).priority != p
            &&& forall|k: int, j: int|
                g < k < groups.len() && 0 <= j < groups[k].len() ==> (
                #[trigger] groups[k][j]).priority != p
        },
        to_drop(groups) is None ==> forall|k: int, j: int|
            0 <= k < groups.len() && 0 <= j < groups[k].len() ==> (#[trigger] groups[k][j]).priority
                != 1 && groups[k][j].priority != 2,
{
    lemma_last_place(groups, 2, groups.len());
    lemma_last_place(groups, 1, groups.len());
}

/// Every hint of a group is shown by its key and, behind it, its label, in order.
pub proof fn every_hint_is_shown(front: LineV, group: Seq<Hint>, n: nat, i: int)
    requires
        n <= group.len(),
        0 <= i < n,
        forall|j: int| 0 <= j < n ==> (#[trigger] group[j]).label@.len() > 0,
    ensures
        hint_spans(front, group, n).len() == front.len() + 2 * n,
        hint_spans(front, group, n)[front.len() + 2 * i].text == group[i].key@,
        hint_spans(front, group, n)[front.len() + 2 * i].style.fg == group[i].color,
        hint_spans(front, group, n)[front.len() + 2 * i + 1].text == " "@ + group[i].label@ + " "@,
    decreases n,
{
    assert(group[n - 1].label@.len() > 0);
    if n > 1 {
        every_hint_is_shown(front, group, (n - 1) as nat, if i < n - 1 { i } else { n - 2 });
    } else {
        reveal_with_fuel(hint_spans, 2);
    }
}

/// Where there is room, the hints of the current screen are shown, all of them and in order, and
/// the line begins with them.
pub proof fn screen_has_its_own_hints(current: AppScreen, width: int, i: int)
    requires
        row_width(hint_groups(current)) <= width,
        0 <= i < screen_hints(current).len(),
    ensures
        ({
            let line = context_line(current, None, width);
            let hint = screen_hints(current)[i];
            &&& line[1 + 2 * i].text == hint.key@
            &&& line[2 + 2 * i].text == " "@ + hint.label@ + " "@
            &&& line[2 * screen_hints(current).len() as int + 2].text == ":"@
            &&& line[2 * screen_hints(current).len() as int + 4].text == "?"@
        }),
{
    let groups = hint_groups(current);
    assert(all_filled(groups));
    groups_that_fit_are_kept(groups, width);
    let own = screen_hints(current);
    let common = common_hints();
    lemma_labels(current);
    let start = seq![sp(" "@, plain())];
    reveal_with_fuel(group_spans, 3);
    every_hint_is_shown(start, own, own.len(), i);
    let first = hint_spans(start, own, own.len());
    let divided = first.push(sp(" │ "@, fg(Tone::BorderDim)));
    assert(groups[0] == own && groups[1] == common);
    assert(context_line(current, None, width) == hint_spans(divided, common, common.len()));
    every_hint_is_shown(divided, common, common.len(), 0);
    every_hint_is_shown(divided, common, common.len(), 1);
    lemma_front_kept(divided, common, common.len());
    let line = hint_spans(divided, common, common.len());
    assert(line[1 + 2 * i] == divided[1 + 2 * i]);
    assert(line[2 + 2 * i] == divided[2 + 2 * i]);
}

proof fn lemma_front_kept(front: LineV, group: Seq<Hint>, n: nat)
    ensures
        hint_spans(front, group, n).len() >= front.len(),
        forall|k: int|
            0 <= k < front.len() ==> #[trigger] hint_spans(front, group, n)[k] == front[k],
    decreases n,
{
    if n > 0 && n <= group.len() {
        lemma_front_kept(front, group, (n - 1) as nat);
    }
}

proof fn lemma_labels(current: AppScreen)
    ensures
        forall|j: int|
            0 <= j < screen_hints(current).len() ==> (#[trigger] screen_hints(
                current,
            )[j]).label@.len() > 0,
        forall|j: int|
            0 <= j < common_hints().len() ==> (#[trigger] common_hints()[j]).label@.len() > 0,
{
    reveal_strlit("pane");
    reveal_strlit("select");
    reveal_strlit("enqueue");
    reveal_strlit("navigate");
    reveal_strlit("open");
    reveal_strlit("paste");
    reveal_strlit("start");
    reveal_strlit("focus");
    reveal_strlit("add");
    reveal_strlit("delete");
    reveal_strlit("command");
    reveal_strlit("help");
}

/// The header gives the version.
pub proof fn header_gives_the_version(version: Seq<char>, w: int)
    ensures
        header_rows(version, w).len() == 7,
        header_rows(version, w)[4][4].text == "v"@ + version,
{
}

} // verus!
