//! The dialog that chooses among MusicBrainz releases.

use crate::button_map::{ButtonRenderMap, Hit, TuiButton};
use crate::geometry::{inner, inside_border, plus16, share, share_rect, Rect};
use crate::layout::{divides, split, Constraint, Direction};
use crate::overlay_parts::{draw_popup_box, popup_box};
use crate::scene::{line1, line_op, sp, text_op, Line, LineV, Rows, RowsV, Scene, SceneV};
use crate::style::{bold, bold_fg, fg, muted, on, plain, Style, Tone};
use crate::text::{
    align_right, cat3, cat4, cat6, dec, dec_len, decimal, least, low16, minus, most, owned,
    repeat_char, repeated, right_aligned, same, to_u16,
};
use vstd::prelude::*;

verus! {

/// A release found.
#[derive(Debug)]
pub struct MbRelease {
    pub release_id: String,
    pub title: String,
    pub year: Option<String>,
    pub catalog: Option<String>,
    pub barcode: Option<String>,
}

/// A track of a release.
#[derive(Debug)]
pub struct MbTrack {
    pub position: u32,
    pub title: String,
}

/// The tracks of a release that have been fetched.
#[derive(Debug)]
pub struct MbDetail {
    pub release_id: String,
    pub tracks: Vec<MbTrack>,
}

/// The state of the dialog.
#[derive(Debug)]
pub struct MbSelectState {
    pub releases: Vec<MbRelease>,
    pub selected: usize,
    pub scroll: usize,
    /// What has been fetched so far, in order; of several for one release the last counts.
    pub prefetch: Vec<MbDetail>,
}

/// The first release shown: as far as scrolled, but so that the selected one is among
/// the `visible`.
pub open spec fn mb_start(state: MbSelectState, visible: int) -> int {
    most(
        least(
            least(state.scroll as int, minus(state.releases@.len() as int, visible)),
            state.selected as int,
        ),
        minus(state.selected as int, minus(visible, 1)),
    )
}

/// How many releases are shown.
pub open spec fn mb_shown(state: MbSelectState, visible: int) -> nat {
    least(visible, minus(state.releases@.len() as int, mb_start(state, visible))) as nat
}

/// The selected release is among those shown.
pub proof fn selected_release_is_visible(state: MbSelectState, visible: int)
    requires
        visible > 0,
        state.selected < state.releases@.len(),
    ensures
        mb_start(state, visible) <= state.selected < mb_start(state, visible) + mb_shown(
            state,
            visible,
        ),
{
}

/// A text, or a stand-in where it is empty.
pub open spec fn title_or(title: Seq<char>) -> Seq<char> {
    if title.len() == 0 {
        "(untitled)"@
    } else {
        title
    }
}

fn title_text(title: &str) -> (r: String)
    ensures
        r@ == title_or(title@),
{
    if title.is_empty() {
        owned("(untitled)")
    } else {
        owned(title)
    }
}

/// The year of a release, where it is known.
pub open spec fn year_text(year: Option<String>) -> Seq<char> {
    match year {
        Some(year) => year@,
        None => "—"@,
    }
}

/// The catalog number of a release, or its barcode.
pub open spec fn catalog_text(release: MbRelease) -> Seq<char> {
    match (release.catalog, release.barcode) {
        (Some(catalog), _) => catalog@,
        (None, Some(barcode)) => barcode@,
        (None, None) => "—"@,
    }
}

/// The style of a release.
#[verifier::allow_in_spec]
pub fn release_style(selected: bool) -> Style
    returns
        (if selected {
            bold(on(Tone::TextBright, Tone::Surface))
        } else {
            fg(Tone::Text)
        }),
{
    if selected {
        bold(on(Tone::TextBright, Tone::Surface))
    } else {
        fg(Tone::Text)
    }
}

/// The row of a release.
pub open spec fn release_row(state: MbSelectState, i: int) -> LineV {
    let release = state.releases@[i];
    let here = i == state.selected;
    let front = if here {
        "▸ "@
    } else {
        "  "@
    };
    seq![
        sp(
            front + right_aligned(decimal((i + 1) as nat), 2) + "  "@ + title_or(release.title@)
                + "  ·  "@ + year_text(release.year) + "  ·  "@ + catalog_text(release),
            release_style(here),
        ),
    ]
}

fn release_line(state: &MbSelectState, i: usize) -> (r: Line)
    requires
        i < state.releases@.len(),
    ensures
        r@ == release_row(*state, i as int),
{
    let total: usize = state.releases.len();
    assert(i < total);
    let release = &state.releases[i];
    let here = i == state.selected;
    let front = if here {
        "▸ "
    } else {
        "  "
    };
    let year = match &release.year {
        Some(year) => owned(year.as_str()),
        None => owned("—"),
    };
    let catalog = match (&release.catalog, &release.barcode) {
        (Some(catalog), _) => owned(catalog.as_str()),
        (None, Some(barcode)) => owned(barcode.as_str()),
        (None, None) => owned("—"),
    };
    let number = align_right(dec_len(i + 1).as_str(), 2);
    let named = cat6(
        front,
        number.as_str(),
        "  ",
        title_text(release.title.as_str()).as_str(),
        "  ·  ",
        year.as_str(),
    );
    line1(cat3(named.as_str(), "  ·  ", catalog.as_str()).as_str(), release_style(here))
}

/// The releases shown in `visible` rows.
pub open spec fn release_rows(state: MbSelectState, visible: int) -> RowsV {
    Seq::new(mb_shown(state, visible), |k: int| release_row(state, mb_start(state, visible) + k))
}

/// The places of the releases shown in `area`.
pub open spec fn release_hits(state: MbSelectState, area: Rect) -> Seq<Hit> {
    let visible = area.height as int;
    Seq::new(
        mb_shown(state, visible),
        |k: int|
            (
                TuiButton::MbSelectRow((mb_start(state, visible) + k) as usize),
                Rect {
                    x: area.x,
                    y: plus16(area.y as int, low16(k)) as u16,
                    width: area.width,
                    height: 1,
                },
            ),
    )
}

fn draw_releases(state: &MbSelectState, area: Rect) -> (r: (Rows, ButtonRenderMap))
    ensures
        r.0@ == release_rows(*state, area.height as int),
        r.1@ == release_hits(*state, area),
{
    let visible: usize = area.height as usize;
    let total: usize = state.releases.len();
    let most_scroll: usize = total.saturating_sub(visible);
    let at: usize = if state.scroll <= most_scroll { state.scroll } else { most_scroll };
    let at: usize = if at <= state.selected { at } else { state.selected };
    let low: usize = state.selected.saturating_sub(visible.saturating_sub(1));
    let start: usize = if at >= low { at } else { low };
    let left: usize = total.saturating_sub(start);
    let shown: usize = if visible <= left { visible } else { left };
    let mut rows = Rows::new();
    let mut hits = ButtonRenderMap::new();
    for k in 0..shown
        invariant
            start == mb_start(*state, area.height as int),
            shown == mb_shown(*state, area.height as int),
            shown <= left,
            left == minus(total as int, start as int),
            total == state.releases@.len(),
            rows@ =~= release_rows(*state, area.height as int).take(k as int),
            hits@ =~= release_hits(*state, area).take(k as int),
    {
        rows.push(release_line(state, start + k));
        hits.record_button(
            TuiButton::MbSelectRow(start + k),
            Rect {
                x: area.x,
                y: area.y.saturating_add(to_u16(k)),
                width: area.width,
                height: 1,
            },
        );
    }
    proof {
        assert(rows@ =~= release_rows(*state, area.height as int));
        assert(hits@ =~= release_hits(*state, area));
    }
    (rows, hits)
}

/// What has been fetched of a release, among the first `n` entries.
pub open spec fn fetched(prefetch: Seq<MbDetail>, id: Seq<char>, n: nat) -> Option<MbDetail>
    decreases n,
{
    if n == 0 || n > prefetch.len() {
        None
    } else if prefetch[n - 1].release_id@ == id {
        Some(prefetch[n - 1])
    } else {
        fetched(prefetch, id, (n - 1) as nat)
    }
}

fn find_fetched<'a>(prefetch: &'a Vec<MbDetail>, id: &str) -> (r: Option<&'a MbDetail>)
    ensures
        match r {
            Some(detail) => fetched(prefetch@, id@, prefetch@.len()) == Some(*detail),
            None => fetched(prefetch@, id@, prefetch@.len()) is None,
        },
{
    let mut n: usize = prefetch.len();
    while n > 0
        invariant
            n <= prefetch@.len(),
            fetched(prefetch@, id@, n as nat) == fetched(prefetch@, id@, prefetch@.len()),
        decreases n,
    {
        if same(prefetch[n - 1].release_id.as_str(), id) {
            return Some(&prefetch[n - 1]);
        }
        n -= 1;
    }
    None
}

/// The row of a track.
pub open spec fn mb_track_row(track: MbTrack) -> LineV {
    seq![
        sp(
            "  "@ + right_aligned(decimal(track.position as nat), 2) + ". "@ + title_or(track.title@),
            fg(Tone::Text),
        ),
    ]
}

fn mb_track_line(track: &MbTrack) -> (r: Line)
    ensures
        r@ == mb_track_row(*track),
{
    let number = align_right(dec(track.position as u64).as_str(), 2);
    let text = cat4("  ", number.as_str(), ". ", title_text(track.title.as_str()).as_str());
    line1(text.as_str(), fg(Tone::Text))
}

/// The first `n` tracks.
pub open spec fn mb_track_rows(tracks: Seq<MbTrack>, n: nat) -> RowsV {
    Seq::new(n, |i: int| mb_track_row(tracks[i]))
}

/// As many tracks as fit; the last row counts the others where not all do.
pub open spec fn tracks_shown(tracks: Seq<MbTrack>, visible: int) -> RowsV {
    if tracks.len() > visible {
        mb_track_rows(tracks, (visible - 1) as nat).push(
            seq![
                sp("  … +"@ + decimal((tracks.len() - (visible - 1)) as nat) + " more"@, muted()),
            ],
        )
    } else {
        mb_track_rows(tracks, tracks.len())
    }
}

fn track_lines(tracks: &Vec<MbTrack>, visible: usize) -> (r: Rows)
    requires
        visible > 0,
    ensures
        r@ == tracks_shown(tracks@, visible as int),
{
    let total: usize = tracks.len();
    let n: usize = if total > visible { visible - 1 } else { total };
    let mut rows = Rows::new();
    for i in 0..n
        invariant
            n <= tracks@.len(),
            rows@ =~= mb_track_rows(tracks@, i as nat),
    {
        rows.push(mb_track_line(&tracks[i]));
    }
    if total > visible {
        let text = cat3("  … +", dec_len(total - (visible - 1)).as_str(), " more");
        rows.push(line1(text.as_str(), muted()));
    }
    rows
}

/// What the pane of tracks shows: the tracks of the selected release, or why there are
/// none.
pub open spec fn track_pane(state: MbSelectState, visible: int) -> RowsV {
    if state.selected >= state.releases@.len() {
        seq![seq![sp("No release selected"@, muted())]]
    } else {
        let id = state.releases@[state.selected as int].release_id@;
        if id.len() == 0 {
            seq![seq![sp("(release has no MBID)"@, muted())]]
        } else {
            match fetched(state.prefetch@, id, state.prefetch@.len()) {
                None => seq![seq![sp("Fetching tracks…"@, muted())]],
                Some(detail) => if detail.tracks@.len() == 0 {
                    seq![seq![sp("No tracks in MB record"@, muted())]]
                } else {
                    tracks_shown(detail.tracks@, visible)
                },
            }
        }
    }
}

/// The pane of tracks in `area`.
pub open spec fn track_scene(state: MbSelectState, area: Rect) -> SceneV {
    if area.height == 0 {
        Seq::empty()
    } else {
        seq![text_op(area, track_pane(state, area.height as int), plain())]
    }
}

fn track_pane_lines(state: &MbSelectState, visible: usize) -> (r: Rows)
    requires
        visible > 0,
    ensures
        r@ == track_pane(*state, visible as int),
{
    if state.selected >= state.releases.len() {
        return Rows::of(line1("No release selected", muted()));
    }
    let id = state.releases[state.selected].release_id.as_str();
    if id.is_empty() {
        return Rows::of(line1("(release has no MBID)", muted()));
    }
    match find_fetched(&state.prefetch, id) {
        None => Rows::of(line1("Fetching tracks…", muted())),
        Some(detail) => if detail.tracks.len() == 0 {
            Rows::of(line1("No tracks in MB record", muted()))
        } else {
            track_lines(&detail.tracks, visible)
        },
    }
}

/// The tracks of the selected release, below the list.
pub fn draw_mb_select_tracks(state: &MbSelectState, area: Rect) -> (r: Scene)
    ensures
        r@ == track_scene(*state, area),
{
    let mut scene = Scene::new();
    if area.height > 0 {
        scene.text(area, track_pane_lines(state, area.height as usize), plain());
    }
    scene
}

/// A line across `width` columns.
pub open spec fn rule(width: nat) -> LineV {
    seq![sp(repeated('─', width), muted())]
}

fn rule_line(width: u16) -> (r: Line)
    ensures
        r@ == rule(width as nat),
{
    line1(repeat_char('─', width as usize).as_str(), muted())
}

/// The heading of the list.
pub open spec fn mb_heading() -> LineV {
    seq![sp("  #  Title · Year · Catalog · Score"@, bold_fg(Tone::TextBright))]
}

/// The buttons below the tracks.
pub open spec fn mb_footer() -> LineV {
    seq![
        sp(" [Accept] "@, bold_fg(Tone::Green)),
        sp(" [Cancel] "@, bold_fg(Tone::Red)),
        sp("  ↑↓ PgUp/PgDn scroll"@, muted()),
    ]
}

/// The contents of the dialog in its rows.
pub open spec fn mb_body(state: MbSelectState, chunks: Seq<Rect>) -> SceneV {
    seq![
        line_op(chunks[0], mb_heading()),
        line_op(chunks[1], rule(chunks[1].width as nat)),
        text_op(chunks[2], release_rows(state, chunks[2].height as int), plain()),
        line_op(chunks[3], rule(chunks[3].width as nat)),
    ] + track_scene(state, chunks[4]) + seq![line_op(chunks[5], mb_footer())]
}

/// The buttons of the dialog in its rows.
pub open spec fn mb_hits(state: MbSelectState, chunks: Seq<Rect>) -> Seq<Hit> {
    let footer = chunks[5];
    release_hits(state, chunks[2]) + seq![
        (
            TuiButton::MbSelectAccept,
            Rect { x: footer.x, y: footer.y, width: 10, height: 1 },
        ),
        (
            TuiButton::MbSelectCancel,
            Rect { x: plus16(footer.x as int, 10) as u16, y: footer.y, width: 10, height: 1 },
        ),
    ]
}

/// Draws the contents of the dialog in its rows.
pub fn draw_mb_body(state: &MbSelectState, chunks: &Vec<Rect>) -> (r: (Scene, ButtonRenderMap))
    requires
        chunks@.len() == 6,
    ensures
        r.0@ == mb_body(*state, chunks@),
        r.1@ == mb_hits(*state, chunks@),
{
    let (rows, mut hits) = draw_releases(state, chunks[2]);
    let mut scene = Scene::new();
    scene.line(
        chunks[0],
        line1("  #  Title · Year · Catalog · Score", bold_fg(Tone::TextBright)),
    );
    scene.line(chunks[1], rule_line(chunks[1].width));
    scene.text(chunks[2], rows, plain());
    scene.line(chunks[3], rule_line(chunks[3].width));
    scene.append(draw_mb_select_tracks(state, chunks[4]));
    let mut footer = line1(" [Accept] ", bold_fg(Tone::Green));
    footer.put(" [Cancel] ", bold_fg(Tone::Red));
    footer.put("  ↑↓ PgUp/PgDn scroll", muted());
    proof {
        assert(footer@ =~= mb_footer());
    }
    scene.line(chunks[5], footer);
    let area = chunks[5];
    hits.record_button(
        TuiButton::MbSelectAccept,
        Rect { x: area.x, y: area.y, width: 10, height: 1 },
    );
    hits.record_button(
        TuiButton::MbSelectCancel,
        Rect { x: area.x.saturating_add(10), y: area.y, width: 10, height: 1 },
    );
    proof {
        assert(scene@ =~= mb_body(*state, chunks@));
        assert(hits@ =~= mb_hits(*state, chunks@));
    }
    (scene, hits)
}

/// The rows of the dialog: heading, line, list, line, tracks, and buttons.
pub open spec fn mb_parts() -> Seq<Constraint> {
    seq![
        Constraint::Length(1),
        Constraint::Length(1),
        Constraint::Min(3),
        Constraint::Length(1),
        Constraint::Length(7),
        Constraint::Length(1),
    ]
}

/// The place of the dialog.
pub open spec fn mb_popup(size: Rect) -> Rect {
    share(size.width as int, size.height as int, 80, 60, 70, 12)
}

/// The empty box of the dialog.
pub open spec fn mb_frame(state: MbSelectState, size: Rect) -> SceneV {
    popup_box(
        mb_popup(size),
        " MusicBrainz · "@ + decimal(state.releases@.len()) + " matches "@,
        Tone::Purple,
    )
}

/// `shown` is the dialog; the empty box where it is too small or nothing was found.
pub open spec fn shows_releases(
    state: MbSelectState,
    size: Rect,
    scene: SceneV,
    hits: Seq<Hit>,
) -> bool {
    let content = inside_border(mb_popup(size));
    if content.height < 3 || state.releases@.len() == 0 {
        scene == mb_frame(state, size) && hits == Seq::<Hit>::empty()
    } else {
        exists|chunks: Seq<Rect>| #[trigger]
            divides(Direction::Vertical, mb_parts(), content, chunks) && scene == mb_frame(
                state,
                size,
            ) + mb_body(state, chunks) && hits == mb_hits(state, chunks)
    }
}

/// The dialog that chooses among MusicBrainz releases.
pub fn draw_mb_select(size: Rect, state: &MbSelectState) -> (r: (Scene, ButtonRenderMap))
    ensures
        shows_releases(*state, size, r.0@, r.1@),
{
    let popup = share_rect(size.width, size.height, 80, 60, 70, 12);
    let title = cat3(" MusicBrainz · ", dec_len(state.releases.len()).as_str(), " matches ");
    let mut scene = draw_popup_box(popup, title.as_str(), Tone::Purple);
    let content = inner(popup);
    if content.height < 3 || state.releases.len() == 0 {
        return (scene, ButtonRenderMap::new());
    }
    let mut wishes: Vec<Constraint> = Vec::new();
    wishes.push(Constraint::Length(1));
    wishes.push(Constraint::Length(1));
    wishes.push(Constraint::Min(3));
    wishes.push(Constraint::Length(1));
    wishes.push(Constraint::Length(7));
    wishes.push(Constraint::Length(1));
    proof {
        assert(wishes@ =~= mb_parts());
    }
    let chunks = split(Direction::Vertical, &wishes, content);
    assert(divides(Direction::Vertical, mb_parts(), content, chunks@));
    let (contents, hits) = draw_mb_body(state, &chunks);
    scene.append(contents);
    (scene, hits)
}

} // verus!
