//! The toolbar, the search controls and the columns of the file list.

use crate::browse::BrowseState;
use crate::button_map::{BrowseColumn, TuiButton};
use crate::display_width::shown_width;
use crate::draw_browse::columns::{
    fitted_columns, row_overhead, shown_columns, wanted_columns, MIN_NAME_W,
};
use crate::draw_browse::search::{
    chosen_tier, control_row, gap_before, placed, tier_labels, total_width, SearchControlKind,
    SearchControlLabelTier, SearchControls,
};
use crate::draw_browse::toolbar::{buttons_hits, buttons_scene};
use crate::geometry::Rect;
use crate::path::parent_of;
use crate::text::plus;
use vstd::prelude::*;

verus! {

/// A button of the toolbar: its name, its place in the row, what a click on it does, and whether
/// it can be used.
pub open spec fn toolbar_button(browse: BrowseState, i: int) -> (Seq<char>, int, TuiButton, bool) {
    if i == 0 {
        (" ‹ Back "@, 1, TuiButton::BrowseToolbarBack, browse.nav.can_go_back)
    } else if i == 1 {
        (" › Fwd "@, 9, TuiButton::BrowseToolbarForward, browse.nav.can_go_forward)
    } else if i == 2 {
        (
            " ↑ Up "@,
            17,
            TuiButton::BrowseToolbarUp,
            parent_of(browse.current_dir@) is Some,
        )
    } else if i == 3 {
        (" Refresh "@, 24, TuiButton::BrowseToolbarRefresh, true)
    } else if i == 4 {
        (" Options ▾ "@, 34, TuiButton::BrowseToolbarOptions, true)
    } else {
        (" Search "@, 46, TuiButton::BrowseToolbarSearch, true)
    }
}

/// Each button of the toolbar is clicked where it is painted, and can be clicked exactly if it can
/// be used: one goes back only where there is a way back, on only where there is a way on, and up
/// only from a directory that has a parent.
pub proof fn toolbar_is_clicked_where_it_is_painted(area: Rect, browse: BrowseState, i: int)
    requires
        area.x + 60 <= u16::MAX,
        area.y + 5 <= u16::MAX,
        0 <= i < 6,
    ensures
        ({
            let (label, x, button, usable) = toolbar_button(browse, i);
            let painted = buttons_scene(area, browse)[i];
            let hits = buttons_hits(area, browse);
            &&& painted->Text_rows.len() == 1
            &&& painted->Text_rows[0].len() == 1
            &&& painted->Text_rows[0][0].text == label
            &&& painted->Text_area.x == area.x + x
            &&& painted->Text_area.y == area.y + 1
            &&& (painted->Text_style.bold <==> usable)
            &&& (usable ==> exists|h: int|
                0 <= h < hits.len() && #[trigger] hits[h] == (button, painted->Text_area))
            &&& (!usable ==> forall|h: int|
                0 <= h < hits.len() ==> (#[trigger] hits[h]).0 != button)
        }),
{
    let (label, x, button, usable) = toolbar_button(browse, i);
    let hits = buttons_hits(area, browse);
    let painted = buttons_scene(area, browse)[i];
    let back = if browse.nav.can_go_back { 1int } else { 0 };
    let on = back + if browse.nav.can_go_forward { 1int } else { 0 };
    let up = on + if parent_of(browse.current_dir@) is Some { 1int } else { 0 };
    if usable {
        let h = if i == 0 {
            0
        } else if i == 1 {
            back
        } else if i == 2 {
            on
        } else {
            up + i - 3
        };
        assert(hits[h] == (button, painted->Text_area));
    }
}

proof fn lemma_placed(
    inner_width: int,
    labels: Seq<(SearchControlKind, Seq<char>)>,
    i: int,
    used: int,
    k: int,
)
    requires
        0 <= i <= labels.len(),
        0 <= used <= inner_width <= u16::MAX,
        0 <= k < placed(inner_width, labels, i, used).len(),
    ensures
        ({
            let items = placed(inner_width, labels, i, used);
            &&& i + k < labels.len()
            &&& items[k].kind == labels[i + k].0
            &&& items[k].label == labels[i + k].1
            &&& items[k].width == shown_width(labels[i + k].1)
            &&& items[k].x + items[k].width <= inner_width
            &&& items[k].x >= used + gap_before(i)
            &&& (k == 0 ==> items[k].x == used + gap_before(i))
            &&& (k > 0 ==> items[k].x == items[k - 1].x + items[k - 1].width + 1)
        }),
    decreases labels.len() - i,
{
    if i < labels.len() {
        let w = shown_width(labels[i].1) as int;
        let end = plus(plus(used, gap_before(i)), w);
        if end <= inner_width {
            let rest = placed(inner_width, labels, i + 1, end);
            let items = placed(inner_width, labels, i, used);
            if k > 0 {
                lemma_placed(inner_width, labels, i + 1, end, k - 1);
                assert(items[k] == rest[k - 1]);
                if k > 1 {
                    assert(items[k - 1] == rest[k - 2]);
                }
            }
        }
    }
}

/// The controls of a search stand side by side, in their order, with a blank between them; where
/// there is room for it each says in full how it is set.
pub proof fn search_controls_say_how_they_are_set(inner_width: int, c: SearchControls, k: int)
    requires
        0 <= inner_width <= u16::MAX,
        0 <= k < control_row(inner_width, c).len(),
    ensures
        ({
            let items = control_row(inner_width, c);
            let full = total_width(tier_labels(SearchControlLabelTier::Full, c), 4) <= inner_width;
            &&& items.len() <= 4
            &&& (k == 0 ==> items[k].kind == SearchControlKind::Recursive && items[k].x == 0)
            &&& (k == 1 ==> items[k].kind == SearchControlKind::Mode)
            &&& (k == 2 ==> items[k].kind == SearchControlKind::Sort)
            &&& (k == 3 ==> items[k].kind == SearchControlKind::Audio)
            &&& items[k].width == shown_width(items[k].label)
            &&& (k > 0 ==> items[k].x == items[k - 1].x + items[k - 1].width + 1)
            &&& (full && k == 0 ==> items[k].label == if c.recursive {
                " recursive ✓ "@
            } else {
                " recursive "@
            })
            &&& (full && k == 1 ==> items[k].label == " mode: "@ + c.mode_label + " "@)
            &&& (full && k == 2 && c.sort_dir is Asc ==> items[k].label == " sort: "@ + c.sort_label
                + " "@ + "▲"@ + " "@)
            &&& (full && k == 2 && c.sort_dir is Desc ==> items[k].label == " sort: "@
                + c.sort_label + " "@ + "▼"@ + " "@)
            &&& (full && k == 3 ==> items[k].label == if c.audio_only {
                " audio ✓ "@
            } else {
                " all files "@
            })
        }),
{
    let labels = tier_labels(chosen_tier(inner_width, c), c);
    lemma_placed(inner_width, labels, 0, 0, k);
    lemma_placed_len(inner_width, labels, 0, 0);
}

proof fn lemma_placed_len(
    inner_width: int,
    labels: Seq<(SearchControlKind, Seq<char>)>,
    i: int,
    used: int,
)
    requires
        0 <= i <= labels.len(),
    ensures
        placed(inner_width, labels, i, used).len() <= labels.len() - i,
    decreases labels.len() - i,
{
    if i < labels.len() {
        let end = plus(plus(used, gap_before(i)), shown_width(labels[i].1) as int);
        lemma_placed_len(inner_width, labels, i + 1, end);
    }
}

proof fn lemma_wanted(configured: Seq<BrowseColumn>, n: nat)
    requires
        n <= configured.len(),
    ensures
        wanted_columns(configured, n).len() >= 1,
        wanted_columns(configured, n)[0] == BrowseColumn::Name,
        forall|i: int|
            0 <= i < n ==> wanted_columns(configured, n).contains(#[trigger] configured[i]),
        forall|j: int|
            0 <= j < wanted_columns(configured, n).len() ==> #[trigger] wanted_columns(
                configured,
                n,
            )[j] == BrowseColumn::Name || configured.contains(wanted_columns(configured, n)[j]),
    decreases n,
{
    if n > 0 {
        lemma_wanted(configured, (n - 1) as nat);
        let front = wanted_columns(configured, (n - 1) as nat);
        let all = wanted_columns(configured, n);
        assert forall|i: int| 0 <= i < n implies all.contains(#[trigger] configured[i]) by {
            if front.contains(configured[i]) {
                let j = choose|j: int| 0 <= j < front.len() && front[j] == configured[i];
                assert(all[j] == configured[i]);
            } else {
                assert(all[all.len() - 1] == configured[i]);
            }
        }
        assert(configured.contains(configured[n - 1]));
    }
}

proof fn lemma_fitted(inner_width: int, columns: Seq<BrowseColumn>)
    requires
        columns.len() >= 1,
    ensures
        ({
            let r = fitted_columns(inner_width, columns);
            &&& 1 <= r.len() <= columns.len()
            &&& r == columns.take(r.len() as int)
            &&& (r.len() > 1 ==> plus(row_overhead(r), MIN_NAME_W as int) <= inner_width)
            &&& (r.len() < columns.len() ==> plus(
                row_overhead(columns.take(r.len() as int + 1)),
                MIN_NAME_W as int,
            ) > inner_width)
        }),
    decreases columns.len(),
{
    let r = fitted_columns(inner_width, columns);
    if columns.len() > 1 && plus(row_overhead(columns), MIN_NAME_W as int) > inner_width {
        let less = columns.drop_last();
        lemma_fitted(inner_width, less);
        assert(less.take(r.len() as int) =~= columns.take(r.len() as int));
        if r.len() < less.len() {
            assert(less.take(r.len() as int + 1) =~= columns.take(r.len() as int + 1));
        } else {
            assert(columns.take(r.len() as int + 1) =~= columns);
        }
    } else {
        assert(columns.take(columns.len() as int) =~= columns);
    }
}

/// The list shows the name and, of the columns chosen, as many as fit, from the first on: the next
/// one would leave the name too little. Where there is room, every column chosen is shown and no
/// other.
pub proof fn columns_shown_are_those_chosen(inner_width: int, configured: Seq<BrowseColumn>)
    ensures
        ({
            let wanted = wanted_columns(configured, configured.len());
            let r = shown_columns(inner_width, configured);
            &&& r[0] == BrowseColumn::Name
            &&& r.len() <= wanted.len()
            &&& r == wanted.take(r.len() as int)
            &&& (r.len() < wanted.len() ==> plus(
                row_overhead(wanted.take(r.len() as int + 1)),
                8,
            ) > inner_width)
            &&& (r.len() == wanted.len() ==> forall|i: int|
                0 <= i < configured.len() ==> r.contains(#[trigger] configured[i]))
            &&& forall|j: int|
                0 <= j < r.len() ==> #[trigger] r[j] == BrowseColumn::Name || configured.contains(
                    r[j],
                )
        }),
{
    let wanted = wanted_columns(configured, configured.len());
    lemma_wanted(configured, configured.len());
    lemma_fitted(inner_width, wanted);
    let r = shown_columns(inner_width, configured);
    if r.len() == wanted.len() {
        assert(wanted.take(wanted.len() as int) =~= wanted);
    }
    assert forall|j: int| 0 <= j < r.len() implies #[trigger] r[j] == BrowseColumn::Name
        || configured.contains(r[j]) by {
        assert(r[j] == wanted[j]);
    }
}

} // verus!
