//! The footer: a row of tabs, and a row of key hints or a message.

use crate::button_map::{ButtonRenderMap, Hit, TuiButton};
use crate::geometry::{plus16, Rect};
use crate::layout::{divides, split, Constraint, Direction};
use crate::scene::{line1, line_op, sp, text_op, Line, LineV, Rows, Scene, SceneV};
use crate::style::{bg, bold, bold_fg, fg, on, plain, Style, Tone};
use crate::text::{
    blanks, cat2, cat3, cat5, count, dec, decimal, minus, plus, spaces, take_chars, to_u16,
};
use vstd::prelude::*;

verus! {

/// A screen of the program.
#[derive(Clone, Copy, Debug, PartialEq, Eq, Structural)]
pub enum AppScreen {
    Convert,
    Browse,
    Library,
    Queue,
    Config,
    Wizard,
}

pub const TABS: [AppScreen; 5] = [
    AppScreen::Convert,
    AppScreen::Browse,
    AppScreen::Library,
    AppScreen::Queue,
    AppScreen::Config,
];

/// The name of a screen.
pub open spec fn screen_name(screen: AppScreen) -> Seq<char> {
    match screen {
        AppScreen::Convert => "convert"@,
        AppScreen::Browse => "browse"@,
        AppScreen::Library => "library"@,
        AppScreen::Queue => "queue"@,
        AppScreen::Config => "config"@,
        AppScreen::Wizard => "wizard"@,
    }
}

impl AppScreen {
    /// The name of a screen.
    pub fn tab_label(self) -> (r: &'static str)
        ensures
            r@ == screen_name(self),
    {
        match self {
            AppScreen::Convert => "convert",
            AppScreen::Browse => "browse",
            AppScreen::Library => "library",
            AppScreen::Queue => "queue",
            AppScreen::Config => "config",
            AppScreen::Wizard => "wizard",
        }
    }
}

/// The label of the button that opens the messages of file tasks: as long as there
/// is room for, and never empty while there is a column for it.
pub open spec fn details_label(width: int, has_messages: bool) -> Seq<char> {
    if !has_messages || width == 0 {
        ""@
    } else if width >= 18 {
        " details "@
    } else if width >= 7 {
        " msgs "@
    } else {
        "d"@
    }
}

/// The label of the button that opens the messages of file tasks.
pub fn file_task_details_label(width: u16, has_file_task_messages: bool) -> (r: &'static str)
    ensures
        r@ == details_label(width as int, has_file_task_messages),
{
    if !has_file_task_messages || width == 0 {
        ""
    } else if width >= 18 {
        " details "
    } else if width >= 7 {
        " msgs "
    } else {
        "d"
    }
}

/// The place of that button, at the right end of the row.
pub open spec fn details_rect(area: Rect, has_messages: bool) -> Option<Rect> {
    let width = details_label(area.width as int, has_messages).len() as int;
    if width > 0 {
        Some(
            Rect {
                x: plus16(area.x as int, minus(area.width as int, width)) as u16,
                y: area.y,
                width: width as u16,
                height: 1,
            },
        )
    } else {
        None
    }
}

fn details_width(width: u16, has_messages: bool) -> (r: u16)
    ensures
        r == details_label(width as int, has_messages).len(),
        r <= width,
{
    proof {
        reveal_strlit("");
        reveal_strlit(" details ");
        reveal_strlit(" msgs ");
        reveal_strlit("d");
    }
    to_u16(count(file_task_details_label(width, has_messages)))
}

/// The place of the button that opens the messages of file tasks.
pub fn file_task_details_rect(area: Rect, has_file_task_messages: bool) -> (r: Option<Rect>)
    ensures
        r == details_rect(area, has_file_task_messages),
{
    let width: u16 = details_width(area.width, has_file_task_messages);
    if width > 0 {
        Some(
            Rect {
                x: area.x.saturating_add(area.width.saturating_sub(width)),
                y: area.y,
                width,
                height: 1,
            },
        )
    } else {
        None
    }
}

/// There is something to click whenever there are messages and the row has a column.
pub proof fn details_always_have_a_target(area: Rect)
    requires
        area.wf(),
        area.width > 0,
        area.height > 0,
    ensures
        details_rect(area, true) matches Some(r) && r.width > 0 && r.within(area),
{
    reveal_strlit("");
    reveal_strlit(" details ");
    reveal_strlit(" msgs ");
    reveal_strlit("d");
}

/// A key and what it does.
#[derive(Clone, Copy, Debug)]
pub struct Hint {
    pub key: &'static str,
    pub label: &'static str,
    pub color: Tone,
    /// 0 is never dropped, 1 is dropped after 2.
    pub priority: u8,
}

/// A key and what it does.
#[verifier::allow_in_spec]
pub fn hint(key: &'static str, label: &'static str, color: Tone, priority: u8) -> Hint
    returns
        (Hint { key, label, color, priority }),
{
    Hint { key, label, color, priority }
}

/// The contents of grouped hints.
pub open spec fn groups_view(groups: Seq<Vec<Hint>>) -> Seq<Seq<Hint>> {
    Seq::new(groups.len(), |i: int| groups[i]@)
}

/// The hints of a screen.
pub open spec fn screen_hints(screen: AppScreen) -> Seq<Hint> {
    match screen {
        AppScreen::Convert => seq![
            hint("tab", "pane", Tone::Blue, 0),
            hint("←→", "select", Tone::Blue, 0),
            hint(":max", "pane", Tone::Blue, 2),
            hint(":commit", "enqueue", Tone::Green, 0),
        ],
        AppScreen::Browse => seq![
            hint("↑↓", "navigate", Tone::Blue, 0),
            hint("enter", "open", Tone::Green, 0),
            hint("space", "select", Tone::Blue, 0),
            hint("Ctrl+P", "paste", Tone::Cyan, 1),
        ],
        AppScreen::Queue => seq![
            hint("↑↓", "navigate", Tone::Blue, 0),
            hint("s", "start", Tone::Green, 0),
            hint("space", "select", Tone::Blue, 0),
        ],
        AppScreen::Config => seq![
            hint("tab", "focus", Tone::Blue, 0),
            hint("a", "add", Tone::Green, 0),
            hint("d", "delete", Tone::Destructive, 0),
        ],
        _ => Seq::empty(),
    }
}

/// The hints that every screen has.
pub open spec fn common_hints() -> Seq<Hint> {
    seq![hint(":", "command", Tone::Cyan, 0), hint("?", "help", Tone::Amber, 0)]
}

/// The hints of a screen, in two groups: its own, and those of every screen.
pub open spec fn hint_groups(screen: AppScreen) -> Seq<Seq<Hint>> {
    seq![screen_hints(screen), common_hints()]
}

/// The hints of a screen, in groups.
pub fn hint_groups_for(current: AppScreen) -> (r: Vec<Vec<Hint>>)
    ensures
        groups_view(r@) == hint_groups(current),
{
    let mut own: Vec<Hint> = Vec::new();
    match current {
        AppScreen::Convert => {
            own.push(hint("tab", "pane", Tone::Blue, 0));
            own.push(hint("←→", "select", Tone::Blue, 0));
            own.push(hint(":max", "pane", Tone::Blue, 2));
            own.push(hint(":commit", "enqueue", Tone::Green, 0));
        },
        AppScreen::Browse => {
            own.push(hint("↑↓", "navigate", Tone::Blue, 0));
            own.push(hint("enter", "open", Tone::Green, 0));
            own.push(hint("space", "select", Tone::Blue, 0));
            own.push(hint("Ctrl+P", "paste", Tone::Cyan, 1));
        },
        AppScreen::Queue => {
            own.push(hint("↑↓", "navigate", Tone::Blue, 0));
            own.push(hint("s", "start", Tone::Green, 0));
            own.push(hint("space", "select", Tone::Blue, 0));
        },
        AppScreen::Config => {
            own.push(hint("tab", "focus", Tone::Blue, 0));
            own.push(hint("a", "add", Tone::Green, 0));
            own.push(hint("d", "delete", Tone::Destructive, 0));
        },
        _ => {},
    }
    let mut common: Vec<Hint> = Vec::new();
    common.push(hint(":", "command", Tone::Cyan, 0));
    common.push(hint("?", "help", Tone::Amber, 0));
    let mut groups: Vec<Vec<Hint>> = Vec::new();
    groups.push(own);
    groups.push(common);
    proof {
        assert(own@ =~= screen_hints(current));
        assert(common@ =~= common_hints());
        assert(groups_view(groups@) =~= hint_groups(current));
    }
    groups
}

/// The columns of a hint.
pub open spec fn columns_of(h: Hint) -> int {
    if h.label@.len() == 0 {
        h.key@.len() as int
    } else {
        plus(h.key@.len() as int, plus(2, h.label@.len() as int))
    }
}

/// The columns of a hint.
pub fn hint_width(h: &Hint) -> (r: usize)
    ensures
        r == columns_of(*h),
{
    let key: usize = count(h.key);
    if h.label.is_empty() {
        key
    } else {
        let two: usize = 2;
        key.saturating_add(two.saturating_add(count(h.label)))
    }
}

/// The columns of the first `n` hints of a group.
pub open spec fn group_width(group: Seq<Hint>, n: nat) -> int
    decreases n,
{
    if n == 0 || n > group.len() {
        0
    } else {
        plus(group_width(group, (n - 1) as nat), columns_of(group[n - 1]))
    }
}

/// The columns of the hints in the first `n` groups.
pub open spec fn hints_width(groups: Seq<Seq<Hint>>, n: nat) -> int
    decreases n,
{
    if n == 0 || n > groups.len() {
        0
    } else {
        plus(
            hints_width(groups, (n - 1) as nat),
            group_width(groups[n - 1], groups[n - 1].len()),
        )
    }
}

/// The columns of the whole row: a space, the hints, and a divider between groups.
pub open spec fn row_width(groups: Seq<Seq<Hint>>) -> int {
    plus(
        plus(1, hints_width(groups, groups.len())),
        dividers(minus(groups.len() as int, 1)),
    )
}

/// The columns of `n` dividers.
pub open spec fn dividers(n: int) -> int {
    plus(plus(n, n), n)
}

/// The columns of grouped hints, with the space before them and the dividers.
pub fn total_groups_width(groups: &Vec<Vec<Hint>>) -> (r: usize)
    ensures
        r == row_width(groups_view(groups@)),
{
    let ghost view = groups_view(groups@);
    let mut hints: usize = 0;
    for g in 0..groups.len()
        invariant
            view == groups_view(groups@),
            hints == hints_width(view, g as nat),
    {
        let group = &groups[g];
        let mut total: usize = 0;
        for i in 0..group.len()
            invariant
                total == group_width(group@, i as nat),
        {
            total = total.saturating_add(hint_width(&group[i]));
        }
        proof {
            assert(view[g as int] == group@);
        }
        hints = hints.saturating_add(total);
    }
    let n: usize = groups.len().saturating_sub(1);
    let one: usize = 1;
    one.saturating_add(hints).saturating_add(n.saturating_add(n).saturating_add(n))
}

/// The place of the last hint of the given priority among the first `n` of a group;
/// -1 where there is none.
pub open spec fn last_hint(group: Seq<Hint>, priority: u8, n: nat) -> int
    decreases n,
{
    if n == 0 || n > group.len() {
        -1
    } else if group[n - 1].priority == priority {
        n - 1
    } else {
        last_hint(group, priority, (n - 1) as nat)
    }
}

/// The place of the last hint of the given priority in the first `n` groups.
pub open spec fn last_place(groups: Seq<Seq<Hint>>, priority: u8, n: nat) -> Option<(int, int)>
    decreases n,
{
    if n == 0 || n > groups.len() {
        None
    } else {
        let at = last_hint(groups[n - 1], priority, groups[n - 1].len());
        if at >= 0 {
            Some((n - 1, at))
        } else {
            last_place(groups, priority, (n - 1) as nat)
        }
    }
}

/// The hint to drop next: the last optional one, else the last important one.
pub open spec fn to_drop(groups: Seq<Seq<Hint>>) -> Option<(int, int)> {
    match last_place(groups, 2, groups.len()) {
        Some(place) => Some(place),
        None => last_place(groups, 1, groups.len()),
    }
}

/// `groups` without the hint at `place`.
pub open spec fn groups_without(groups: Seq<Seq<Hint>>, place: (int, int)) -> Seq<Seq<Hint>> {
    groups.update(place.0, groups[place.0].remove(place.1))
}

/// Those of the first `n` groups that hold a hint.
pub open spec fn filled_groups(groups: Seq<Seq<Hint>>, n: nat) -> Seq<Seq<Hint>>
    decreases n,
{
    if n == 0 || n > groups.len() {
        Seq::empty()
    } else {
        let front = filled_groups(groups, (n - 1) as nat);
        if groups[n - 1].len() > 0 {
            front.push(groups[n - 1])
        } else {
            front
        }
    }
}

/// The number of hints in the first `n` groups.
pub open spec fn hint_count(groups: Seq<Seq<Hint>>, n: nat) -> nat
    decreases n,
{
    if n == 0 || n > groups.len() {
        0
    } else {
        hint_count(groups, (n - 1) as nat) + groups[n - 1].len()
    }
}

/// A hint that is found lies where it is said to lie.
proof fn lemma_last_hint(group: Seq<Hint>, priority: u8, n: nat)
    requires
        n <= group.len(),
    ensures
        -1 <= last_hint(group, priority, n) < n,
        last_hint(group, priority, n) >= 0 ==> group[last_hint(group, priority, n)].priority
            == priority,
        last_hint(group, priority, n) < 0 ==> forall|i: int|
            0 <= i < n ==> (#[trigger] group[i]).priority != priority,
    decreases n,
{
    if n > 0 && group[n - 1].priority != priority {
        lemma_last_hint(group, priority, (n - 1) as nat);
    }
}

/// A hint that is found lies where it is said to lie.
proof fn lemma_last_place(groups: Seq<Seq<Hint>>, priority: u8, n: nat)
    requires
        n <= groups.len(),
    ensures
        match last_place(groups, priority, n) {
            Some((g, i)) => 0 <= g < n && 0 <= i < groups[g].len() && groups[g][i].priority
                == priority,
            None => forall|g: int, i: int|
                0 <= g < n && 0 <= i < groups[g].len() ==> (#[trigger] groups[g][i]).priority
                    != priority,
        },
    decreases n,
{
    if n > 0 {
        lemma_last_hint(groups[n - 1], priority, groups[n - 1].len());
        lemma_last_place(groups, priority, (n - 1) as nat);
    }
}

/// Dropping a hint leaves one fewer.
pub proof fn lemma_drop_counts(groups: Seq<Seq<Hint>>, place: (int, int), n: nat)
    requires
        n <= groups.len(),
        0 <= place.0 < groups.len(),
        0 <= place.1 < groups[place.0].len(),
    ensures
        hint_count(groups_without(groups, place), n) == hint_count(groups, n) - if place.0 < n {
            1int
        } else {
            0int
        },
    decreases n,
{
    if n > 0 {
        lemma_drop_counts(groups, place, (n - 1) as nat);
    }
}

/// Removing empty groups keeps every hint.
pub proof fn lemma_filled_counts(groups: Seq<Seq<Hint>>, n: nat)
    requires
        n <= groups.len(),
    ensures
        hint_count(filled_groups(groups, n), filled_groups(groups, n).len()) == hint_count(
            groups,
            n,
        ),
    decreases n,
{
    if n > 0 {
        lemma_filled_counts(groups, (n - 1) as nat);
        if groups[n - 1].len() > 0 {
            lemma_count_push(filled_groups(groups, (n - 1) as nat), groups[n - 1]);
        }
    }
}

proof fn lemma_count_prefix(groups: Seq<Seq<Hint>>, last: Seq<Hint>, n: nat)
    requires
        n <= groups.len(),
    ensures
        hint_count(groups.push(last), n) == hint_count(groups, n),
    decreases n,
{
    if n > 0 {
        lemma_count_prefix(groups, last, (n - 1) as nat);
    }
}

proof fn lemma_count_push(groups: Seq<Seq<Hint>>, last: Seq<Hint>)
    ensures
        hint_count(groups.push(last), groups.push(last).len()) == hint_count(groups, groups.len())
            + last.len(),
{
    lemma_count_prefix(groups, last, groups.len());
}

/// Groups without an empty one among them, narrowed to `available` columns: hints are
/// dropped one by one, and groups with the last of their hints, until the row fits or
/// nothing can be dropped.
pub open spec fn narrowed_groups(groups: Seq<Seq<Hint>>, available: int) -> Seq<Seq<Hint>>
    decreases hint_count(groups, groups.len()),
{
    if row_width(groups) > available {
        match to_drop(groups) {
            Some(place) => {
                proof {
                    lemma_to_drop(groups);
                    lemma_drop_counts(groups, place, groups.len());
                    lemma_filled_counts(groups_without(groups, place), groups.len());
                }
                narrowed_groups(
                    filled_groups(groups_without(groups, place), groups.len()),
                    available,
                )
            },
            None => groups,
        }
    } else {
        groups
    }
}

/// The groups that are shown in `available` columns: empty groups are removed, and
/// what is left is narrowed.
pub open spec fn fitted_groups(groups: Seq<Seq<Hint>>, available: int) -> Seq<Seq<Hint>> {
    narrowed_groups(filled_groups(groups, groups.len()), available)
}

/// What is dropped is never essential; where nothing can be dropped, everything left
/// is essential (or has a priority that is not in use).
pub proof fn lemma_to_drop(groups: Seq<Seq<Hint>>)
    ensures
        match to_drop(groups) {
            Some((g, i)) => 0 <= g < groups.len() && 0 <= i < groups[g].len() && (
            groups[g][i].priority == 1 || groups[g][i].priority == 2),
            None => forall|g: int, i: int|
                0 <= g < groups.len() && 0 <= i < groups[g].len() ==> (
                #[trigger] groups[g][i]).priority != 1 && groups[g][i].priority != 2,
        },
{
    lemma_last_place(groups, 2, groups.len());
    lemma_last_place(groups, 1, groups.len());
}

fn find_last(groups: &Vec<Vec<Hint>>, priority: u8) -> (r: Option<(usize, usize)>)
    ensures
        match r {
            Some((g, i)) => last_place(
                groups_view(groups@),
                priority,
                groups@.len(),
            ) == Some((g as int, i as int)),
            None => last_place(groups_view(groups@), priority, groups@.len()) is None,
        },
{
    let ghost view = groups_view(groups@);
    let mut g: usize = groups.len();
    while g > 0
        invariant
            view == groups_view(groups@),
            g <= groups@.len(),
            last_place(view, priority, g as nat) == last_place(view, priority, groups@.len()),
        decreases g,
    {
        let group = &groups[g - 1];
        let mut i: usize = group.len();
        proof {
            assert(view[g - 1] == group@);
        }
        while i > 0
            invariant
                i <= group@.len(),
                view == groups_view(groups@),
                0 < g <= groups@.len(),
                view[g - 1] == group@,
                last_hint(group@, priority, i as nat) == last_hint(
                    group@,
                    priority,
                    group@.len(),
                ),
                last_place(view, priority, g as nat) == last_place(view, priority, groups@.len()),
            decreases i,
        {
            if group[i - 1].priority == priority {
                return Some((g - 1, i - 1));
            }
            i -= 1;
        }
        g -= 1;
    }
    None
}

fn hints_without(group: &Vec<Hint>, at: usize) -> (r: Vec<Hint>)
    requires
        at < group@.len(),
    ensures
        r@ == group@.remove(at as int),
{
    let mut out: Vec<Hint> = Vec::new();
    for i in 0..group.len()
        invariant
            at < group@.len(),
            out@ =~= if i > at {
                group@.take(i as int).remove(at as int)
            } else {
                group@.take(i as int)
            },
    {
        if i != at {
            out.push(group[i]);
        }
    }
    proof {
        assert(group@.take(group@.len() as int) =~= group@);
    }
    out
}

fn without_empty_groups(groups: &Vec<Vec<Hint>>) -> (r: Vec<Vec<Hint>>)
    ensures
        groups_view(r@) == filled_groups(groups_view(groups@), groups@.len()),
{
    let ghost view = groups_view(groups@);
    let mut out: Vec<Vec<Hint>> = Vec::new();
    proof {
        assert(groups_view(out@) =~= Seq::empty());
    }
    for g in 0..groups.len()
        invariant
            view == groups_view(groups@),
            groups_view(out@) == filled_groups(view, g as nat),
    {
        let source = &groups[g];
        let mut group: Vec<Hint> = Vec::new();
        for i in 0..source.len()
            invariant
                group@ =~= source@.take(i as int),
        {
            group.push(source[i]);
        }
        let ghost before = groups_view(out@);
        proof {
            assert(group@ =~= source@);
            assert(view[g as int] == source@);
        }
        if group.len() > 0 {
            out.push(group);
            proof {
                assert(groups_view(out@) =~= before.push(group@));
            }
        }
    }
    out
}

/// Drop the rightmost hint with the highest priority value (>= 1) so the bar shrinks
/// from the end first. Priority-0 hints are protected. Returns true if something was
/// dropped.
pub fn drop_one_hint(groups: &mut Vec<Vec<Hint>>) -> (r: bool)
    ensures
        match to_drop(groups_view(old(groups)@)) {
            Some(place) => r && groups_view(final(groups)@) == groups_without(
                groups_view(old(groups)@),
                place,
            ),
            None => !r && groups_view(final(groups)@) == groups_view(old(groups)@),
        },
{
    let ghost view = groups_view(groups@);
    proof {
        lemma_last_place(view, 2, view.len());
        lemma_last_place(view, 1, view.len());
    }
    let found = match find_last(groups, 2) {
        Some(place) => Some(place),
        None => find_last(groups, 1),
    };
    match found {
        Some((g, i)) => {
            proof {
                assert(view[g as int] == groups@[g as int]@);
            }
            let rest = hints_without(&groups[g], i);
            groups.set(g, rest);
            proof {
                assert(groups_view(groups@) =~= groups_without(view, (g as int, i as int)));
            }
            true
        },
        None => false,
    }
}

/// Drop hints from the end (lowest priority first) until the rendered width fits.
/// Removes empty groups so dividers don't orphan.
pub fn truncate_groups_to_width(groups: Vec<Vec<Hint>>, available: usize) -> (r: Vec<Vec<Hint>>)
    ensures
        groups_view(r@) == fitted_groups(groups_view(groups@), available as int),
{
    let ghost all = groups_view(groups@);
    let mut working = without_empty_groups(&groups);
    while total_groups_width(&working) > available
        invariant
            all == groups_view(groups@),
            narrowed_groups(groups_view(working@), available as int) == fitted_groups(
                all,
                available as int,
            ),
        decreases hint_count(groups_view(working@), working@.len()),
    {
        let ghost before = groups_view(working@);
        proof {
            lemma_to_drop(before);
            if let Some(place) = to_drop(before) {
                lemma_drop_counts(before, place, before.len());
                lemma_filled_counts(groups_without(before, place), before.len());
            }
        }
        if !drop_one_hint(&mut working) {
            proof {
                assert(row_width(before) > available);
                assert(narrowed_groups(before, available as int) == before);
            }
            return working;
        }
        working = without_empty_groups(&working);
    }
    working
}

/// The essential hints of a group.
pub open spec fn essential_in(group: Seq<Hint>) -> Seq<Hint>
    decreases group.len(),
{
    if group.len() == 0 {
        Seq::empty()
    } else {
        let front = essential_in(group.drop_last());
        if group.last().priority == 0 {
            front.push(group.last())
        } else {
            front
        }
    }
}

/// The essential hints of the first `n` groups, from left to right.
pub open spec fn essentials(groups: Seq<Seq<Hint>>, n: nat) -> Seq<Hint>
    decreases n,
{
    if n == 0 || n > groups.len() {
        Seq::empty()
    } else {
        essentials(groups, (n - 1) as nat) + essential_in(groups[n - 1])
    }
}

proof fn lemma_essential_remove(group: Seq<Hint>, i: int)
    requires
        0 <= i < group.len(),
        group[i].priority != 0,
    ensures
        essential_in(group.remove(i)) == essential_in(group),
    decreases group.len(),
{
    if i == group.len() - 1 {
        assert(group.remove(i) =~= group.drop_last());
    } else {
        lemma_essential_remove(group.drop_last(), i);
        assert(group.remove(i).drop_last() =~= group.drop_last().remove(i));
        assert(group.remove(i).last() == group.last());
    }
}

proof fn lemma_essentials_prefix(groups: Seq<Seq<Hint>>, last: Seq<Hint>, n: nat)
    requires
        n <= groups.len(),
    ensures
        essentials(groups.push(last), n) == essentials(groups, n),
    decreases n,
{
    if n > 0 {
        lemma_essentials_prefix(groups, last, (n - 1) as nat);
    }
}

proof fn lemma_essentials_kept(groups: Seq<Seq<Hint>>, place: (int, int), n: nat)
    requires
        n <= groups.len(),
        0 <= place.0 < groups.len(),
        0 <= place.1 < groups[place.0].len(),
        groups[place.0][place.1].priority != 0,
    ensures
        essentials(groups_without(groups, place), n) == essentials(groups, n),
    decreases n,
{
    if n > 0 {
        lemma_essentials_kept(groups, place, (n - 1) as nat);
        if place.0 == n - 1 {
            lemma_essential_remove(groups[n - 1], place.1);
        }
    }
}

proof fn lemma_filled_essentials(groups: Seq<Seq<Hint>>, n: nat)
    requires
        n <= groups.len(),
    ensures
        essentials(filled_groups(groups, n), filled_groups(groups, n).len()) == essentials(
            groups,
            n,
        ),
    decreases n,
{
    if n > 0 {
        lemma_filled_essentials(groups, (n - 1) as nat);
        let front = filled_groups(groups, (n - 1) as nat);
        let group = groups[n - 1];
        if group.len() > 0 {
            lemma_essentials_prefix(front, group, front.len());
        } else {
            assert(essential_in(group) =~= Seq::empty());
            assert(essentials(groups, (n - 1) as nat) + Seq::<Hint>::empty() =~= essentials(
                groups,
                (n - 1) as nat,
            ));
        }
    }
}

proof fn lemma_narrowed_essentials(groups: Seq<Seq<Hint>>, available: int)
    ensures
        essentials(narrowed_groups(groups, available), narrowed_groups(groups, available).len())
            == essentials(groups, groups.len()),
    decreases hint_count(groups, groups.len()),
{
    if row_width(groups) > available {
        lemma_to_drop(groups);
        if let Some(place) = to_drop(groups) {
            let rest = groups_without(groups, place);
            lemma_drop_counts(groups, place, groups.len());
            lemma_filled_counts(rest, groups.len());
            lemma_essentials_kept(groups, place, groups.len());
            lemma_filled_essentials(rest, groups.len());
            lemma_narrowed_essentials(filled_groups(rest, groups.len()), available);
        }
    }
}

/// Essential hints are never dropped, and keep their order.
pub proof fn essential_hints_survive(groups: Seq<Seq<Hint>>, available: int)
    ensures
        essentials(fitted_groups(groups, available), fitted_groups(groups, available).len())
            == essentials(groups, groups.len()),
{
    lemma_filled_essentials(groups, groups.len());
    lemma_narrowed_essentials(filled_groups(groups, groups.len()), available);
}

proof fn lemma_narrowed_fits(groups: Seq<Seq<Hint>>, available: int)
    ensures
        ({
            let fitted = narrowed_groups(groups, available);
            row_width(fitted) <= available || to_drop(fitted) is None
        }),
    decreases hint_count(groups, groups.len()),
{
    if row_width(groups) > available {
        lemma_to_drop(groups);
        if let Some(place) = to_drop(groups) {
            let rest = groups_without(groups, place);
            lemma_drop_counts(groups, place, groups.len());
            lemma_filled_counts(rest, groups.len());
            lemma_narrowed_fits(filled_groups(rest, groups.len()), available);
        }
    }
}

/// The row fits, or nothing that may be dropped is left in it.
pub proof fn hints_fit_or_are_essential(groups: Seq<Seq<Hint>>, available: int)
    ensures
        ({
            let fitted = fitted_groups(groups, available);
            row_width(fitted) <= available || to_drop(fitted) is None
        }),
{
    lemma_narrowed_fits(filled_groups(groups, groups.len()), available);
}

/// No group is empty.
pub open spec fn all_filled(groups: Seq<Seq<Hint>>) -> bool {
    forall|g: int| 0 <= g < groups.len() ==> (#[trigger] groups[g]).len() > 0
}

proof fn lemma_filled_groups_are_filled(groups: Seq<Seq<Hint>>, n: nat)
    requires
        n <= groups.len(),
    ensures
        all_filled(filled_groups(groups, n)),
    decreases n,
{
    if n > 0 {
        lemma_filled_groups_are_filled(groups, (n - 1) as nat);
        let front = filled_groups(groups, (n - 1) as nat);
        let out = filled_groups(groups, n);
        assert forall|g: int| 0 <= g < out.len() implies (#[trigger] out[g]).len() > 0 by {
            if g < front.len() {
                assert(out[g] == front[g]);
            }
        }
    }
}

proof fn lemma_narrowed_groups_are_filled(groups: Seq<Seq<Hint>>, available: int)
    requires
        all_filled(groups),
    ensures
        all_filled(narrowed_groups(groups, available)),
    decreases hint_count(groups, groups.len()),
{
    if row_width(groups) > available {
        lemma_to_drop(groups);
        if let Some(place) = to_drop(groups) {
            let rest = groups_without(groups, place);
            lemma_drop_counts(groups, place, groups.len());
            lemma_filled_counts(rest, groups.len());
            lemma_filled_groups_are_filled(rest, groups.len());
            lemma_narrowed_groups_are_filled(filled_groups(rest, groups.len()), available);
        }
    }
}

/// No group that is shown is empty, so no divider stands alone.
pub proof fn no_group_is_shown_empty(groups: Seq<Seq<Hint>>, available: int)
    ensures
        all_filled(fitted_groups(groups, available)),
{
    lemma_filled_groups_are_filled(groups, groups.len());
    lemma_narrowed_groups_are_filled(filled_groups(groups, groups.len()), available);
}

/// Groups that all hold a hint and fit are shown as they are.
pub proof fn groups_that_fit_are_kept(groups: Seq<Seq<Hint>>, available: int)
    requires
        all_filled(groups),
        row_width(groups) <= available,
    ensures
        fitted_groups(groups, available) == groups,
{
    lemma_filled_is_same(groups, groups.len());
    assert(groups.take(groups.len() as int) =~= groups);
}

proof fn lemma_filled_is_same(groups: Seq<Seq<Hint>>, n: nat)
    requires
        all_filled(groups),
        n <= groups.len(),
    ensures
        filled_groups(groups, n) == groups.take(n as int),
    decreases n,
{
    if n > 0 {
        lemma_filled_is_same(groups, (n - 1) as nat);
        assert(groups.take(n as int) =~= groups.take(n - 1).push(groups[n - 1]));
    } else {
        assert(groups.take(0) =~= Seq::empty());
    }
}

/// The style of a tab's number.
#[verifier::allow_in_spec]
pub fn badge_style(active: bool) -> Style
    returns
        (if active {
            bold(on(Tone::Bg, Tone::Blue))
        } else {
            on(Tone::TabInactive, Tone::BorderDim)
        }),
{
    if active {
        bold(on(Tone::Bg, Tone::Blue))
    } else {
        on(Tone::TabInactive, Tone::BorderDim)
    }
}

/// The style of a tab's name.
#[verifier::allow_in_spec]
pub fn tab_style(active: bool) -> Style
    returns
        (if active {
            fg(Tone::TextBright)
        } else {
            fg(Tone::TabInactive)
        }),
{
    if active {
        fg(Tone::TextBright)
    } else {
        fg(Tone::TabInactive)
    }
}

/// Tab `i`, in the middle of `width` columns.
pub open spec fn tab_spans(i: int, current: AppScreen, width: int) -> LineV {
    let name = screen_name(TABS@[i]);
    let number = decimal((i + 1) as nat);
    let used = (" "@ + number + " "@ + name + " "@).len() as int;
    let pad = minus(width, used);
    let active = TABS@[i] == current;
    seq![
        sp(blanks((pad / 2) as nat), plain()),
        sp(number, badge_style(active)),
        sp(" "@ + name, tab_style(active)),
        sp(blanks((pad - pad / 2) as nat), plain()),
    ]
}

/// The first `n` tabs, with a divider between neighbours.
pub open spec fn tabs_spans(current: AppScreen, width: int, n: nat) -> LineV
    decreases n,
{
    if n == 0 || n > 5 {
        Seq::empty()
    } else {
        let front = tabs_spans(current, width, (n - 1) as nat);
        let divided = if n > 1 { front.push(sp("│"@, fg(Tone::BorderDim))) } else { front };
        divided + tab_spans(n - 1, current, width)
    }
}

/// The first `n` tabs as buttons, of equal width.
pub open spec fn tab_hits(area: Rect, n: nat) -> Seq<Hit>
    decreases n,
{
    if n == 0 {
        Seq::empty()
    } else {
        tab_hits(area, (n - 1) as nat).push(
            (
                TuiButton::Tab(n as u8),
                Rect {
                    x: plus16(area.x as int, (n - 1) * (area.width as int / 5)) as u16,
                    y: area.y,
                    width: (area.width as int / 5) as u16,
                    height: 1,
                },
            ),
        )
    }
}

fn tab_line(i: usize, current: AppScreen, width: usize) -> (r: Line)
    requires
        i < 5,
    ensures
        r@ == tab_spans(i as int, current, width as int),
{
    let tabs = TABS;
    let screen = tabs[i];
    let name = screen.tab_label();
    let number = dec(i as u64 + 1);
    let used: usize = count(cat5(" ", number.as_str(), " ", name, " ").as_str());
    let pad: usize = width.saturating_sub(used);
    let left: usize = pad / 2;
    let active = screen == current;
    let mut line = line1(spaces(left).as_str(), plain());
    line.put(number.as_str(), badge_style(active));
    line.put(cat2(" ", name).as_str(), tab_style(active));
    line.put(spaces(pad - left).as_str(), plain());
    line
}

/// Draws the tabs, and records them as buttons.
pub fn draw_tab_bar(f: &mut Scene, area: Rect, current: AppScreen, buttons: &mut ButtonRenderMap)
    ensures
        final(f)@ == old(f)@.push(
            text_op(
                area,
                seq![tabs_spans(current, area.width as int / 5, 5)],
                bg(Tone::Surface),
            ),
        ),
        final(buttons)@ == old(buttons)@ + tab_hits(area, 5),
{
    let width: usize = area.width as usize / 5;
    let slot: u16 = area.width / 5;
    let mut offset: u16 = 0;
    let mut hits = ButtonRenderMap::new();
    let mut line = Line::new();
    proof {
        assert forall|n: int| n == 0 implies #[trigger] (n * slot) == 0 by {
            assert(0 * slot == 0) by (nonlinear_arith);
        }
    }
    for i in 0..5u8
        invariant
            width == area.width as int / 5,
            slot == area.width as int / 5,
            offset == i * slot,
            5 * slot <= area.width,
            line@ == tabs_spans(current, width as int, i as nat),
            hits@ == tab_hits(area, i as nat),
    {
        proof {
            assert(i * slot + slot == (i + 1) * slot) by (nonlinear_arith);
            assert((i + 1) * slot <= 5 * slot) by (nonlinear_arith)
                requires
                    i < 5,
                    slot >= 0,
            ;
        }
        hits.record_button(
            TuiButton::Tab(i + 1),
            Rect { x: area.x.saturating_add(offset), y: area.y, width: slot, height: 1 },
        );
        if i > 0 {
            line.put("│", fg(Tone::BorderDim));
        }
        line.append(tab_line(i as usize, current, width));
        offset += slot;
    }
    buttons.append(hits);
    f.text(area, Rows::of(line), bg(Tone::Surface));
}

/// A message, cut with an ellipsis to `width` columns less a space at either end.
pub open spec fn message_text(message: Seq<char>, width: int) -> Seq<char> {
    let max = minus(width, 2);
    if message.len() > max && max >= 2 {
        " "@ + message.take(max - 1) + "…"@
    } else {
        " "@ + message
    }
}

fn text_of_message(message: &str, width: usize) -> (r: String)
    ensures
        r@ == message_text(message@, width as int),
{
    let max: usize = width.saturating_sub(2);
    if count(message) > max && max >= 2 {
        cat3(" ", take_chars(message, max - 1).as_str(), "…")
    } else {
        cat2(" ", message)
    }
}

/// The first `n` hints of a group, behind `front`.
pub open spec fn hint_spans(front: LineV, group: Seq<Hint>, n: nat) -> LineV
    decreases n,
{
    if n == 0 || n > group.len() {
        front
    } else {
        let h = group[n - 1];
        let keyed = hint_spans(front, group, (n - 1) as nat).push(sp(h.key@, fg(h.color)));
        if h.label@.len() > 0 {
            keyed.push(sp(" "@ + h.label@ + " "@, fg(Tone::TextMuted)))
        } else {
            keyed
        }
    }
}

/// The first `n` groups of hints, with a divider between neighbours.
pub open spec fn group_spans(groups: Seq<Seq<Hint>>, n: nat) -> LineV
    decreases n,
{
    if n == 0 || n > groups.len() {
        seq![sp(" "@, plain())]
    } else {
        let front = group_spans(groups, (n - 1) as nat);
        hint_spans(
            if n > 1 { front.push(sp(" │ "@, fg(Tone::BorderDim))) } else { front },
            groups[n - 1],
            groups[n - 1].len(),
        )
    }
}

fn group_line(groups: &Vec<Vec<Hint>>) -> (r: Line)
    ensures
        r@ == group_spans(groups_view(groups@), groups@.len()),
{
    let ghost view = groups_view(groups@);
    let mut line = line1(" ", plain());
    for g in 0..groups.len()
        invariant
            view == groups_view(groups@),
            line@ == group_spans(view, g as nat),
    {
        if g > 0 {
            line.put(" │ ", fg(Tone::BorderDim));
        }
        let ghost front = line@;
        let group = &groups[g];
        proof {
            assert(view[g as int] == group@);
        }
        for i in 0..group.len()
            invariant
                line@ == hint_spans(front, group@, i as nat),
        {
            line.put(group[i].key, fg(group[i].color));
            if !group[i].label.is_empty() {
                line.put(cat3(" ", group[i].label, " ").as_str(), fg(Tone::TextMuted));
            }
        }
    }
    line
}

/// The part of the row before the button for messages.
pub open spec fn hint_area(area: Rect, has_messages: bool) -> Rect {
    Rect {
        width: minus(
            area.width as int,
            details_label(area.width as int, has_messages).len() as int,
        ) as u16,
        ..area
    }
}

/// A text that may be missing.
pub open spec fn words(text: Option<&str>) -> Option<Seq<char>> {
    match text {
        Some(text) => Some(text@),
        None => None,
    }
}

/// What the row says: a message while there is one, else the key hints.
pub open spec fn context_line(current: AppScreen, message: Option<Seq<char>>, width: int) -> LineV {
    match message {
        Some(text) => seq![sp(message_text(text, width), bold_fg(Tone::Amber))],
        None => {
            let groups = fitted_groups(hint_groups(current), width);
            group_spans(groups, groups.len())
        },
    }
}

/// The row of hints on the screen.
pub open spec fn context_scene(
    area: Rect,
    current: AppScreen,
    message: Option<Seq<char>>,
    has_messages: bool,
) -> SceneV {
    let content = hint_area(area, has_messages);
    let row = seq![line_op(content, context_line(current, message, content.width as int))];
    match details_rect(area, has_messages) {
        Some(place) => row.push(
            line_op(
                place,
                seq![sp(details_label(area.width as int, has_messages), bold_fg(Tone::Cyan))],
            ),
        ),
        None => row,
    }
}

/// The button for messages.
pub open spec fn context_hits(area: Rect, has_messages: bool) -> Seq<Hit> {
    match details_rect(area, has_messages) {
        Some(place) => seq![(TuiButton::FileTaskMessages, place)],
        None => Seq::empty(),
    }
}

fn line_of_context(current: AppScreen, message: Option<&str>, width: usize) -> (r: Line)
    ensures
        r@ == context_line(current, words(message), width as int),
{
    match message {
        Some(text) => line1(text_of_message(text, width).as_str(), bold_fg(Tone::Amber)),
        None => {
            let groups = truncate_groups_to_width(hint_groups_for(current), width);
            group_line(&groups)
        },
    }
}

/// Draws the row of key hints, or the message in their place, and the button for the
/// messages of file tasks.
pub fn draw_context_bar(
    f: &mut Scene,
    area: Rect,
    current: AppScreen,
    buttons: &mut ButtonRenderMap,
    status_message: Option<&str>,
    has_file_task_messages: bool,
)
    ensures
        final(f)@ == old(f)@ + context_scene(area, current, words(status_message), has_file_task_messages),
        final(buttons)@ == old(buttons)@ + context_hits(area, has_file_task_messages),
{
    let width: u16 = details_width(area.width, has_file_task_messages);
    let content = Rect {
        x: area.x,
        y: area.y,
        width: area.width.saturating_sub(width),
        height: area.height,
    };
    let mut scene = Scene::new();
    let mut hits = ButtonRenderMap::new();
    scene.line(content, line_of_context(current, status_message, content.width as usize));
    match file_task_details_rect(area, has_file_task_messages) {
        Some(place) => {
            hits.record_button(TuiButton::FileTaskMessages, place);
            let label = file_task_details_label(area.width, has_file_task_messages);
            scene.line(place, line1(label, bold_fg(Tone::Cyan)));
        },
        None => {},
    }
    proof {
        assert(content == hint_area(area, has_file_task_messages));
        assert(scene@ =~= context_scene(area, current, words(status_message), has_file_task_messages));
        assert(hits@ =~= context_hits(area, has_file_task_messages));
    }
    f.append(scene);
    buttons.append(hits);
}

/// The two rows of the footer.
pub open spec fn footer_rows() -> Seq<Constraint> {
    seq![Constraint::Length(1), Constraint::Length(1)]
}

/// The footer on the screen, in two rows.
pub open spec fn footer_scene(
    rows: Seq<Rect>,
    current: AppScreen,
    message: Option<Seq<char>>,
    has_messages: bool,
) -> SceneV {
    seq![
        text_op(
            rows[0],
            seq![tabs_spans(current, rows[0].width as int / 5, 5)],
            bg(Tone::Surface),
        ),
    ] + context_scene(rows[1], current, message, has_messages)
}

/// The footer as buttons, in two rows.
pub open spec fn footer_hits(rows: Seq<Rect>, has_messages: bool) -> Seq<Hit> {
    tab_hits(rows[0], 5) + context_hits(rows[1], has_messages)
}

/// Draws the footer in two rows.
pub fn draw_footer_rows(
    rows: &Vec<Rect>,
    current_screen: AppScreen,
    status_message: Option<&str>,
    has_file_task_messages: bool,
) -> (r: (Scene, ButtonRenderMap))
    requires
        rows@.len() == 2,
    ensures
        r.0@ == footer_scene(rows@, current_screen, words(status_message), has_file_task_messages),
        r.1@ == footer_hits(rows@, has_file_task_messages),
{
    let mut scene = Scene::new();
    let mut hits = ButtonRenderMap::new();
    draw_tab_bar(&mut scene, rows[0], current_screen, &mut hits);
    draw_context_bar(
        &mut scene,
        rows[1],
        current_screen,
        &mut hits,
        status_message,
        has_file_task_messages,
    );
    proof {
        assert(scene@ =~= footer_scene(
            rows@,
            current_screen,
            words(status_message),
            has_file_task_messages,
        ));
        assert(hits@ =~= footer_hits(rows@, has_file_task_messages));
    }
    (scene, hits)
}

/// `scene` and `hits` show the footer in `area`; nothing where it has one row only.
pub open spec fn shows_footer(
    area: Rect,
    current: AppScreen,
    message: Option<Seq<char>>,
    has_messages: bool,
    scene: SceneV,
    hits: Seq<Hit>,
) -> bool {
    if area.height < 2 {
        scene.len() == 0 && hits.len() == 0
    } else {
        exists|rows: Seq<Rect>|
            #[trigger] divides(Direction::Vertical, footer_rows(), area, rows) && scene
                == footer_scene(rows, current, message, has_messages) && hits == footer_hits(
                rows,
                has_messages,
            )
    }
}

/// The footer: tabs and key hints, in an area of two rows. A message takes the place
/// of the hints.
pub fn draw_footer(
    area: Rect,
    current_screen: AppScreen,
    status_message: Option<&str>,
    has_file_task_messages: bool,
) -> (r: (Scene, ButtonRenderMap))
    requires
        area.wf(),
    ensures
        shows_footer(
            area,
            current_screen,
            words(status_message),
            has_file_task_messages,
            r.0@,
            r.1@,
        ),
{
    if area.height < 2 {
        return (Scene::new(), ButtonRenderMap::new());
    }
    let mut wishes: Vec<Constraint> = Vec::new();
    wishes.push(Constraint::Length(1));
    wishes.push(Constraint::Length(1));
    proof {
        assert(wishes@ =~= footer_rows());
    }
    let rows = split(Direction::Vertical, &wishes, area);
    assert(divides(Direction::Vertical, footer_rows(), area, rows@));
    draw_footer_rows(&rows, current_screen, status_message, has_file_task_messages)
}

} // verus!
