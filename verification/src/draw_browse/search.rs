//! The search panel of the file list: its rows and its controls.

use crate::button_map::{SortDir, TuiButton};
use crate::display_width::{shown_width, width};
use crate::geometry::{plus16, Rect};
use crate::style::{bold, on, Style, Tone};
use crate::text::{cat3, cat5, chars_of, least, low16, minus, owned, plus, same, to_u16};
use vstd::prelude::*;

verus! {

/// A control of the search panel.
#[derive(Clone, Copy, Debug, PartialEq, Eq, Structural)]
pub enum SearchControlKind {
    Recursive,
    Mode,
    Sort,
    Audio,
}

/// A control with its place in the row.
#[derive(Debug)]
pub struct SearchControlLayoutItem {
    pub kind: SearchControlKind,
    pub x: u16,
    pub width: u16,
    pub label: String,
}

/// The contents of a [`SearchControlLayoutItem`].
pub struct SearchItemV {
    pub kind: SearchControlKind,
    pub x: u16,
    pub width: u16,
    pub label: Seq<char>,
}

impl View for SearchControlLayoutItem {
    type V = SearchItemV;

    open spec fn view(&self) -> SearchItemV {
        SearchItemV { kind: self.kind, x: self.x, width: self.width, label: self.label@ }
    }
}

/// The contents of a list of controls.
pub open spec fn items_view(items: Seq<SearchControlLayoutItem>) -> Seq<SearchItemV> {
    Seq::new(items.len(), |i: int| items[i]@)
}

/// How much the labels are shortened.
#[derive(Clone, Copy, Debug, PartialEq, Eq, Structural)]
pub enum SearchControlLabelTier {
    Full,
    Compact,
    Tiny,
}

/// The rows that the search panel takes.
#[verifier::allow_in_spec]
pub fn browse_search_rows(active: bool) -> u16
    returns
        (if active {
            2u16
        } else {
            0u16
        }),
{
    if active {
        2
    } else {
        0
    }
}

/// The row of the column headings.
pub fn browse_header_y(area: Rect, search_active: bool) -> (r: u16)
    ensures
        r == plus16(plus16(area.y as int, 1), browse_search_rows(search_active) as int),
{
    area.y.saturating_add(1).saturating_add(browse_search_rows(search_active))
}

/// The row of the search text.
pub fn browse_search_input_y(area: Rect) -> (r: u16)
    ensures
        r == plus16(area.y as int, 1),
{
    area.y.saturating_add(1)
}

/// The row of the search controls.
pub fn browse_search_controls_y(area: Rect) -> (r: u16)
    ensures
        r == plus16(area.y as int, 2),
{
    area.y.saturating_add(2)
}

/// The row of the first entry.
pub open spec fn entry_y(area: Rect, search_active: bool) -> int {
    plus16(plus16(area.y as int, 2), browse_search_rows(search_active) as int)
}

/// The row of the first entry.
pub fn browse_entry_y_start(area: Rect, search_active: bool) -> (r: u16)
    ensures
        r == entry_y(area, search_active),
{
    area.y.saturating_add(2).saturating_add(browse_search_rows(search_active))
}

/// The search text stands above the controls, these above the headings, and the
/// headings directly above the entries.
pub proof fn search_rows_are_in_order(area: Rect)
    requires
        area.wf(),
        area.height >= 5,
    ensures
        plus16(area.y as int, 1) < plus16(area.y as int, 2),
        plus16(area.y as int, 2) < plus16(plus16(area.y as int, 1), browse_search_rows(true) as int),
        plus16(plus16(area.y as int, 1), browse_search_rows(true) as int) + 1 == entry_y(area, true),
        plus16(plus16(area.y as int, 1), browse_search_rows(false) as int) + 1 == entry_y(
            area,
            false,
        ),
{
}

/// The button of a control.
#[verifier::allow_in_spec]
pub fn search_control_button(kind: SearchControlKind) -> TuiButton
    returns
        (match kind {
            SearchControlKind::Recursive => TuiButton::BrowseSearchRecursive,
            SearchControlKind::Mode => TuiButton::BrowseSearchMode,
            SearchControlKind::Sort => TuiButton::BrowseSearchSort,
            SearchControlKind::Audio => TuiButton::BrowseSearchAudioOnly,
        }),
{
    match kind {
        SearchControlKind::Recursive => TuiButton::BrowseSearchRecursive,
        SearchControlKind::Mode => TuiButton::BrowseSearchMode,
        SearchControlKind::Sort => TuiButton::BrowseSearchSort,
        SearchControlKind::Audio => TuiButton::BrowseSearchAudioOnly,
    }
}

/// The short form of a label.
pub open spec fn abbreviation(label: Seq<char>) -> Seq<char> {
    if label == "filename"@ {
        "file"@
    } else if label == "relevance"@ {
        "rel"@
    } else if label == "extension"@ {
        "ext"@
    } else {
        label
    }
}

/// The short form of a label.
pub fn search_label_abbrev<'a>(label: &'a str) -> (r: &'a str)
    ensures
        r@ == abbreviation(label@),
{
    if same(label, "filename") {
        "file"
    } else if same(label, "relevance") {
        "rel"
    } else if same(label, "extension") {
        "ext"
    } else {
        label
    }
}

/// The first character of a label, or a question mark.
pub open spec fn first_char(label: Seq<char>) -> char {
    if label.len() > 0 {
        label[0]
    } else {
        '?'
    }
}

/// The first character of a label, or a question mark.
pub fn first_label_char(label: &str) -> (r: char)
    ensures
        r == first_char(label@),
{
    let chars = chars_of(label);
    if chars.len() > 0 {
        chars[0]
    } else {
        '?'
    }
}

/// The mark of a sort direction.
pub open spec fn arrow(dir: SortDir) -> Seq<char> {
    match dir {
        SortDir::Asc => "▲"@,
        SortDir::Desc => "▼"@,
    }
}

/// The mark of a sort direction.
pub fn sort_arrow(dir: SortDir) -> (r: &'static str)
    ensures
        r@ == arrow(dir),
{
    match dir {
        SortDir::Asc => "▲",
        SortDir::Desc => "▼",
    }
}

/// The label of the recursion control.
pub open spec fn recursive_label(tier: SearchControlLabelTier, recursive: bool) -> Seq<char> {
    match tier {
        SearchControlLabelTier::Full => if recursive {
            " recursive ✓ "@
        } else {
            " recursive "@
        },
        SearchControlLabelTier::Compact => if recursive {
            " rec ✓ "@
        } else {
            " rec "@
        },
        SearchControlLabelTier::Tiny => if recursive {
            " r✓ "@
        } else {
            " r "@
        },
    }
}

/// The label of the mode control.
pub open spec fn mode_text(tier: SearchControlLabelTier, mode: Seq<char>) -> Seq<char> {
    match tier {
        SearchControlLabelTier::Full => " mode: "@ + mode + " "@,
        SearchControlLabelTier::Compact => " mode:"@ + abbreviation(mode) + " "@,
        SearchControlLabelTier::Tiny => " m:"@ + seq![first_char(mode)] + " "@,
    }
}

/// The label of the sort control.
pub open spec fn sort_text(tier: SearchControlLabelTier, sort: Seq<char>, dir: SortDir) -> Seq<char> {
    match tier {
        SearchControlLabelTier::Full => " sort: "@ + sort + " "@ + arrow(dir) + " "@,
        SearchControlLabelTier::Compact => " sort:"@ + abbreviation(sort) + " "@ + arrow(dir)
            + " "@,
        SearchControlLabelTier::Tiny => " s"@ + arrow(dir) + " "@,
    }
}

/// The label of the audio control.
pub open spec fn audio_text(tier: SearchControlLabelTier, audio_only: bool) -> Seq<char> {
    match tier {
        SearchControlLabelTier::Full => if audio_only {
            " audio ✓ "@
        } else {
            " all files "@
        },
        SearchControlLabelTier::Compact => if audio_only {
            " audio ✓ "@
        } else {
            " files "@
        },
        SearchControlLabelTier::Tiny => if audio_only {
            " a✓ "@
        } else {
            " a "@
        },
    }
}

/// What the search controls show.
pub struct SearchControls {
    pub recursive: bool,
    pub mode_label: Seq<char>,
    pub sort_label: Seq<char>,
    pub sort_dir: SortDir,
    pub audio_only: bool,
}

/// The controls from left to right.
pub open spec fn tier_labels(tier: SearchControlLabelTier, c: SearchControls) -> Seq<
    (SearchControlKind, Seq<char>),
> {
    seq![
        (SearchControlKind::Recursive, recursive_label(tier, c.recursive)),
        (SearchControlKind::Mode, mode_text(tier, c.mode_label)),
        (SearchControlKind::Sort, sort_text(tier, c.sort_label, c.sort_dir)),
        (SearchControlKind::Audio, audio_text(tier, c.audio_only)),
    ]
}

/// The contents of a list of labels.
pub open spec fn labels_view(labels: Seq<(SearchControlKind, String)>) -> Seq<
    (SearchControlKind, Seq<char>),
> {
    Seq::new(labels.len(), |i: int| (labels[i].0, labels[i].1@))
}

fn recursive_of(tier: SearchControlLabelTier, recursive: bool) -> (r: String)
    ensures
        r@ == recursive_label(tier, recursive),
{
    owned(
        match tier {
            SearchControlLabelTier::Full => if recursive {
                " recursive ✓ "
            } else {
                " recursive "
            },
            SearchControlLabelTier::Compact => if recursive {
                " rec ✓ "
            } else {
                " rec "
            },
            SearchControlLabelTier::Tiny => if recursive {
                " r✓ "
            } else {
                " r "
            },
        },
    )
}

fn mode_of(tier: SearchControlLabelTier, mode: &str) -> (r: String)
    ensures
        r@ == mode_text(tier, mode@),
{
    match tier {
        SearchControlLabelTier::Full => cat3(" mode: ", mode, " "),
        SearchControlLabelTier::Compact => cat3(" mode:", search_label_abbrev(mode), " "),
        SearchControlLabelTier::Tiny => {
            let mut first = String::new();
            first.push(first_label_char(mode));
            proof {
                assert(first@ =~= seq![first_char(mode@)]);
            }
            cat3(" m:", first.as_str(), " ")
        },
    }
}

fn sort_of(tier: SearchControlLabelTier, sort: &str, dir: SortDir) -> (r: String)
    ensures
        r@ == sort_text(tier, sort@, dir),
{
    match tier {
        SearchControlLabelTier::Full => cat5(" sort: ", sort, " ", sort_arrow(dir), " "),
        SearchControlLabelTier::Compact => cat5(
            " sort:",
            search_label_abbrev(sort),
            " ",
            sort_arrow(dir),
            " ",
        ),
        SearchControlLabelTier::Tiny => cat3(" s", sort_arrow(dir), " "),
    }
}

fn audio_of(tier: SearchControlLabelTier, audio_only: bool) -> (r: String)
    ensures
        r@ == audio_text(tier, audio_only),
{
    owned(
        match tier {
            SearchControlLabelTier::Full => if audio_only {
                " audio ✓ "
            } else {
                " all files "
            },
            SearchControlLabelTier::Compact => if audio_only {
                " audio ✓ "
            } else {
                " files "
            },
            SearchControlLabelTier::Tiny => if audio_only {
                " a✓ "
            } else {
                " a "
            },
        },
    )
}

/// The controls from left to right, with their labels.
pub fn search_control_labels_for_tier(
    tier: SearchControlLabelTier,
    recursive: bool,
    mode_label: &str,
    sort_label: &str,
    sort_dir: SortDir,
    audio_only: bool,
) -> (r: Vec<(SearchControlKind, String)>)
    ensures
        labels_view(r@) == tier_labels(
            tier,
            (SearchControls {
                recursive,
                mode_label: mode_label@,
                sort_label: sort_label@,
                sort_dir,
                audio_only,
            }),
        ),
{
    let mut out: Vec<(SearchControlKind, String)> = Vec::new();
    out.push((SearchControlKind::Recursive, recursive_of(tier, recursive)));
    out.push((SearchControlKind::Mode, mode_of(tier, mode_label)));
    out.push((SearchControlKind::Sort, sort_of(tier, sort_label, sort_dir)));
    out.push((SearchControlKind::Audio, audio_of(tier, audio_only)));
    proof {
        let controls = SearchControls {
            recursive,
            mode_label: mode_label@,
            sort_label: sort_label@,
            sort_dir,
            audio_only,
        };
        assert(labels_view(out@) =~= tier_labels(tier, controls));
    }
    out
}

/// The columns of a label.
pub fn search_control_label_width(label: &str) -> (r: usize)
    ensures
        r == shown_width(label@),
{
    width(label)
}

/// The gap before label `i`.
pub open spec fn gap_before(i: int) -> int {
    if i > 0 {
        1
    } else {
        0
    }
}

/// The columns that the first `n` labels take, with the gaps between them.
pub open spec fn total_width(labels: Seq<(SearchControlKind, Seq<char>)>, n: nat) -> int
    decreases n,
{
    if n == 0 || n > labels.len() {
        0
    } else {
        plus(
            total_width(labels, (n - 1) as nat),
            plus(shown_width(labels[n - 1].1) as int, gap_before(n - 1)),
        )
    }
}

/// The columns that all labels take, with the gaps between them.
pub fn search_control_total_width(labels: &Vec<(SearchControlKind, String)>) -> (r: usize)
    ensures
        r == total_width(labels_view(labels@), labels@.len()),
{
    let mut total: usize = 0;
    for i in 0..labels.len()
        invariant
            total == total_width(labels_view(labels@), i as nat),
    {
        let gap: usize = if i > 0 { 1 } else { 0 };
        total = total.saturating_add(
            search_control_label_width(labels[i].1.as_str()).saturating_add(gap),
        );
    }
    total
}

/// The labels from `i` on, placed behind the first `used` columns, as long as they
/// fit in `inner_width`.
pub open spec fn placed(
    inner_width: int,
    labels: Seq<(SearchControlKind, Seq<char>)>,
    i: int,
    used: int,
) -> Seq<SearchItemV>
    decreases labels.len() - i,
{
    if 0 <= i < labels.len() {
        let w = shown_width(labels[i].1) as int;
        let end = plus(plus(used, gap_before(i)), w);
        if end > inner_width {
            Seq::empty()
        } else {
            seq![
                SearchItemV {
                    kind: labels[i].0,
                    x: low16(plus(used, gap_before(i))) as u16,
                    width: low16(w) as u16,
                    label: labels[i].1,
                },
            ] + placed(inner_width, labels, i + 1, end)
        }
    } else {
        Seq::empty()
    }
}

/// Places the labels from left to right, as long as they fit. Where `require_all`,
/// the result is nothing unless all of them fit.
pub fn place_search_control_labels(
    inner_width: usize,
    labels: Vec<(SearchControlKind, String)>,
    require_all: bool,
) -> (r: Option<Vec<SearchControlLayoutItem>>)
    ensures
        ({
            let fitting = placed(inner_width as int, labels_view(labels@), 0, 0);
            match r {
                Some(items) => items_view(items@) == fitting && (require_all ==> fitting.len()
                    == labels@.len()),
                None => require_all && fitting.len() < labels@.len(),
            }
        }),
{
    let ghost all = labels_view(labels@);
    let mut items: Vec<SearchControlLayoutItem> = Vec::new();
    let mut used: usize = 0;
    let mut i: usize = 0;
    proof {
        assert(items_view(items@) + placed(inner_width as int, all, 0, 0) =~= placed(
            inner_width as int,
            all,
            0,
            0,
        ));
    }
    while i < labels.len()
        invariant
            all == labels_view(labels@),
            i <= labels@.len(),
            i == items@.len(),
            items_view(items@) + placed(inner_width as int, all, i as int, used as int) == placed(
                inner_width as int,
                all,
                0,
                0,
            ),
        decreases labels@.len() - i,
    {
        let gap: usize = if i > 0 { 1 } else { 0 };
        let label_width: usize = search_control_label_width(labels[i].1.as_str());
        let x: usize = used.saturating_add(gap);
        let end: usize = x.saturating_add(label_width);
        if end > inner_width {
            proof {
                assert(placed(inner_width as int, all, i as int, used as int) =~= Seq::empty());
                assert(items_view(items@) + Seq::<SearchItemV>::empty() =~= items_view(items@));
            }
            if require_all {
                return None;
            }
            return Some(items);
        }
        let ghost before = items_view(items@);
        items.push(
            SearchControlLayoutItem {
                kind: labels[i].0,
                x: to_u16(x),
                width: to_u16(label_width),
                label: owned(labels[i].1.as_str()),
            },
        );
        proof {
            let item = items@[i as int]@;
            assert(items_view(items@) =~= before.push(item));
            let rest = placed(inner_width as int, all, i + 1, end as int);
            assert(before + (seq![item] + rest) =~= items_view(items@) + rest);
        }
        used = end;
        i += 1;
    }
    proof {
        assert(items_view(items@) + Seq::<SearchItemV>::empty() =~= items_view(items@));
    }
    Some(items)
}

/// The tier shown: the longest labels that fit, else the shortest.
pub open spec fn chosen_tier(inner_width: int, c: SearchControls) -> SearchControlLabelTier {
    if total_width(tier_labels(SearchControlLabelTier::Full, c), 4) <= inner_width {
        SearchControlLabelTier::Full
    } else if total_width(tier_labels(SearchControlLabelTier::Compact, c), 4) <= inner_width {
        SearchControlLabelTier::Compact
    } else {
        SearchControlLabelTier::Tiny
    }
}

/// The row of search controls. Labels are shortened before any control is left out;
/// then controls at the right end are left out.
pub open spec fn control_row(inner_width: int, c: SearchControls) -> Seq<SearchItemV> {
    placed(inner_width, tier_labels(chosen_tier(inner_width, c), c), 0, 0)
}

proof fn lemma_natural_total(labels: Seq<(SearchControlKind, Seq<char>)>, n: nat)
    ensures
        0 <= total_width(labels, n) <= usize::MAX,
    decreases n,
{
    if n > 0 && n <= labels.len() {
        lemma_natural_total(labels, (n - 1) as nat);
    }
}

proof fn lemma_total_grows(labels: Seq<(SearchControlKind, Seq<char>)>, n: nat, m: nat)
    requires
        n <= m <= labels.len(),
    ensures
        total_width(labels, n) <= total_width(labels, m),
    decreases m,
{
    if n < m {
        lemma_total_grows(labels, n, (m - 1) as nat);
        lemma_natural_total(labels, (m - 1) as nat);
    }
}

proof fn lemma_all_placed(inner_width: int, labels: Seq<(SearchControlKind, Seq<char>)>, i: int)
    requires
        0 <= i <= labels.len(),
        total_width(labels, labels.len()) <= inner_width,
    ensures
        placed(inner_width, labels, i, total_width(labels, i as nat)).len() == labels.len() - i,
    decreases labels.len() - i,
{
    if i < labels.len() {
        lemma_natural_total(labels, i as nat);
        lemma_total_grows(labels, (i + 1) as nat, labels.len());
        lemma_all_placed(inner_width, labels, i + 1);
    }
}

/// The row of search controls, with as much of the labels as fits.
pub fn search_control_row_layout(
    inner_width: usize,
    recursive: bool,
    mode_label: &str,
    sort_label: &str,
    sort_dir: SortDir,
    audio_only: bool,
) -> (r: Vec<SearchControlLayoutItem>)
    ensures
        items_view(r@) == control_row(
            inner_width as int,
            (SearchControls {
                recursive,
                mode_label: mode_label@,
                sort_label: sort_label@,
                sort_dir,
                audio_only,
            }),
        ),
{
    let full = search_control_labels_for_tier(
        SearchControlLabelTier::Full,
        recursive,
        mode_label,
        sort_label,
        sort_dir,
        audio_only,
    );
    if search_control_total_width(&full) <= inner_width {
        proof {
            lemma_all_placed(inner_width as int, labels_view(full@), 0);
        }
        return match place_search_control_labels(inner_width, full, true) {
            Some(items) => items,
            None => Vec::new(),
        };
    }
    let compact = search_control_labels_for_tier(
        SearchControlLabelTier::Compact,
        recursive,
        mode_label,
        sort_label,
        sort_dir,
        audio_only,
    );
    if search_control_total_width(&compact) <= inner_width {
        proof {
            lemma_all_placed(inner_width as int, labels_view(compact@), 0);
        }
        return match place_search_control_labels(inner_width, compact, true) {
            Some(items) => items,
            None => Vec::new(),
        };
    }
    let tiny = search_control_labels_for_tier(
        SearchControlLabelTier::Tiny,
        recursive,
        mode_label,
        sort_label,
        sort_dir,
        audio_only,
    );
    match place_search_control_labels(inner_width, tiny, false) {
        Some(items) => items,
        None => Vec::new(),
    }
}

proof fn lemma_placed_inside(
    inner_width: int,
    labels: Seq<(SearchControlKind, Seq<char>)>,
    i: int,
    used: int,
)
    requires
        0 <= i <= labels.len(),
        0 <= used <= inner_width <= u16::MAX,
    ensures
        ({
            let items = placed(inner_width, labels, i, used);
            &&& items.len() <= labels.len() - i
            &&& forall|k: int|
                0 <= k < items.len() ==> used <= (#[trigger] items[k]).x && items[k].x
                    + items[k].width <= inner_width && items[k].kind == labels[i + k].0
                    && items[k].width == shown_width(items[k].label)
            &&& forall|k: int, l: int|
                0 <= k < l < items.len() ==> (#[trigger] items[k]).x + items[k].width
                    < (#[trigger] items[l]).x
            &&& items.len() > 0 && i > 0 ==> used < items[0].x
        }),
    decreases labels.len() - i,
{
    if i < labels.len() {
        let w = shown_width(labels[i].1) as int;
        let end = plus(plus(used, gap_before(i)), w);
        if end <= inner_width {
            lemma_placed_inside(inner_width, labels, i + 1, end);
            let items = placed(inner_width, labels, i, used);
            let rest = placed(inner_width, labels, i + 1, end);
            assert(items.skip(1) =~= rest);
            assert forall|k: int| 0 <= k < items.len() implies used <= (#[trigger] items[k]).x
                && items[k].x + items[k].width <= inner_width && items[k].kind == labels[i + k].0
                && items[k].width == shown_width(items[k].label) by {
                if k > 0 {
                    assert(items[k] == rest[k - 1]);
                }
            }
            assert forall|k: int, l: int| 0 <= k < l < items.len() implies (#[trigger] items[k]).x
                + items[k].width < (#[trigger] items[l]).x by {
                assert(items[l] == rest[l - 1]);
                if k > 0 {
                    assert(items[k] == rest[k - 1]);
                } else if l > 1 {
                    assert(rest[0].x + rest[0].width < rest[l - 1].x);
                }
            }
        }
    }
}

/// The search controls never run over the right end of the row, never touch each
/// other, and keep their order.
pub proof fn search_controls_stay_inside(inner_width: int, c: SearchControls)
    requires
        0 <= inner_width <= u16::MAX,
    ensures
        ({
            let items = control_row(inner_width, c);
            let labels = tier_labels(chosen_tier(inner_width, c), c);
            &&& items.len() <= 4
            &&& forall|k: int|
                0 <= k < items.len() ==> (#[trigger] items[k]).x + items[k].width <= inner_width
                    && items[k].kind == labels[k].0
            &&& forall|k: int, l: int|
                0 <= k < l < items.len() ==> (#[trigger] items[k]).x + items[k].width
                    < (#[trigger] items[l]).x
        }),
{
    lemma_placed_inside(inner_width, tier_labels(chosen_tier(inner_width, c), c), 0, 0);
}

/// No control is left out while its shortest labels fit.
pub proof fn no_control_is_dropped_early(inner_width: int, c: SearchControls)
    requires
        total_width(tier_labels(SearchControlLabelTier::Tiny, c), 4) <= inner_width,
    ensures
        control_row(inner_width, c).len() == 4,
{
    lemma_all_placed(inner_width, tier_labels(chosen_tier(inner_width, c), c), 0);
}

/// The style of a control.
#[verifier::allow_in_spec]
pub fn search_control_style(kind: SearchControlKind, recursive: bool, audio_only: bool) -> Style
    returns
        (match kind {
            SearchControlKind::Recursive => if recursive {
                bold(on(Tone::PillActiveFg, Tone::Green))
            } else {
                on(Tone::TextDim, Tone::Surface)
            },
            SearchControlKind::Audio => if audio_only {
                bold(on(Tone::PillActiveFg, Tone::Green))
            } else {
                on(Tone::TextDim, Tone::Surface)
            },
            SearchControlKind::Mode | SearchControlKind::Sort => on(
                Tone::TextBright,
                Tone::Surface,
            ),
        }),
{
    match kind {
        SearchControlKind::Recursive => if recursive {
            bold(on(Tone::PillActiveFg, Tone::Green))
        } else {
            on(Tone::TextDim, Tone::Surface)
        },
        SearchControlKind::Audio => if audio_only {
            bold(on(Tone::PillActiveFg, Tone::Green))
        } else {
            on(Tone::TextDim, Tone::Surface)
        },
        SearchControlKind::Mode | SearchControlKind::Sort => on(Tone::TextBright, Tone::Surface),
    }
}

/// The part of a row's stretch that lies between the borders of `area`.
pub open spec fn inner_stretch(area: Rect, y: u16, x_offset: int, width: int) -> Option<Rect> {
    let left = plus16(area.x as int, 1);
    let right = plus16(area.x as int, minus(area.width as int, 1));
    let x = plus16(left, x_offset);
    let end = least(plus16(x, width), right);
    if x >= right || end <= x {
        None
    } else {
        Some(Rect { x: x as u16, y, width: (end - x) as u16, height: 1 })
    }
}

/// The part of a row's stretch that lies between the borders of `area`.
pub fn clipped_inner_row_rect(area: Rect, y: u16, x_offset: u16, width: u16) -> (r: Option<Rect>)
    ensures
        r == inner_stretch(area, y, x_offset as int, width as int),
{
    let left: u16 = area.x.saturating_add(1);
    let right: u16 = area.x.saturating_add(area.width.saturating_sub(1));
    let x: u16 = left.saturating_add(x_offset);
    if x >= right {
        return None;
    }
    let stop: u16 = x.saturating_add(width);
    let end: u16 = if stop <= right { stop } else { right };
    if end <= x {
        return None;
    }
    Some(Rect { x, y, width: end - x, height: 1 })
}

/// What is left of a stretch lies between the borders.
pub proof fn clipped_stretch_is_inside(area: Rect, y: u16, x_offset: int, width: int)
    requires
        area.wf(),
        area.width >= 2,
        0 <= x_offset <= u16::MAX,
        0 <= width <= u16::MAX,
    ensures
        inner_stretch(area, y, x_offset, width) matches Some(r) ==> {
            &&& r.x >= area.x + 1
            &&& r.x + r.width <= area.x + area.width - 1
            &&& r.y == y
            &&& r.height == 1
            &&& r.width > 0
        },
{
}

} // verus!
