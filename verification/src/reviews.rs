//! Dialogs that show proposed tags before they are taken over.

use crate::geometry::{inside_border, share, share_rect, Rect};
use crate::inline_edit::TextInputState;
use crate::metadata_editor::{cursor_line, cursor_spans};
use crate::overlay_parts::{
    cut_chars, draw_report, footer_pill, footer_pill_span, pill_gap, pill_gap_span, plural,
    plural_ending, shows_report, truncate_to_chars, two_pill_line, two_pills,
};
use crate::scene::{line1, line3, sp, Line, LineV, Rows, RowsV, Scene};
use crate::style::{bold, bold_fg, dimmed, fg, muted, on, plain, Style, Tone};
use crate::text::{
    align_left, cat2, cat3, cat4, cat5, cat6, chars_of, count, dec_len, decimal, left_aligned, minus, owned, plus,
    repeat_char, repeated, same, zero_fill, zero_filled,
};
use vstd::prelude::*;

verus! {

/// A change that a cue sheet would make.
#[derive(Debug)]
pub struct CueImportChange {
    pub filename: String,
    pub field: String,
    pub old_value: String,
    pub new_value: String,
}

/// `text` with every line feed shown as a mark.
pub open spec fn feeds_marked(text: Seq<char>) -> Seq<char> {
    Seq::new(text.len(), |i: int| if text[i] == '\n' { '↵' } else { text[i] })
}

/// `text` with every line feed shown as a mark.
pub fn mark_feeds(text: &str) -> (r: String)
    ensures
        r@ == feeds_marked(text@),
{
    let chars = chars_of(text);
    let mut out = String::new();
    for i in 0..chars.len()
        invariant
            out@ =~= feeds_marked(chars@.take(i as int)),
    {
        out.push(if chars[i] == '\n' { '↵' } else { chars[i] });
    }
    proof {
        assert(chars@.take(chars@.len() as int) =~= chars@);
    }
    out
}

/// The old value of a change.
pub open spec fn old_text(change: CueImportChange, inner_w: int) -> Seq<char> {
    if change.old_value@.len() == 0 {
        "(empty)"@
    } else {
        cut_chars(feeds_marked(change.old_value@), inner_w / 3)
    }
}

/// A change in one line.
pub open spec fn change_row(change: CueImportChange, inner_w: int) -> LineV {
    let old = old_text(change, inner_w);
    seq![
        sp("    "@ + left_aligned(change.field@, 12), muted()),
        sp(old, fg(Tone::Red)),
        sp(" → "@, muted()),
        sp(
            cut_chars(
                feeds_marked(change.new_value@),
                minus(inner_w, plus(plus(16, old.len() as int), 6)),
            ),
            fg(Tone::Green),
        ),
    ]
}

fn change_line(change: &CueImportChange, inner_w: usize) -> (r: Line)
    ensures
        r@ == change_row(*change, inner_w as int),
{
    let old = if change.old_value.as_str().is_empty() {
        owned("(empty)")
    } else {
        truncate_to_chars(mark_feeds(change.old_value.as_str()).as_str(), inner_w / 3)
    };
    let sixteen: usize = 16;
    let used: usize = sixteen.saturating_add(count(old.as_str())).saturating_add(6);
    let new = truncate_to_chars(
        mark_feeds(change.new_value.as_str()).as_str(),
        inner_w.saturating_sub(used),
    );
    let label = cat2("    ", align_left(change.field.as_str(), 12).as_str());
    let mut line = line3(
        label.as_str(),
        muted(),
        old.as_str(),
        fg(Tone::Red),
        " → ",
        muted(),
    );
    line.put(new.as_str(), fg(Tone::Green));
    line
}

/// The first `n` changes, under the names of their files.
pub open spec fn change_rows(changes: Seq<CueImportChange>, inner_w: int, n: nat) -> RowsV
    decreases n,
{
    if n == 0 || n > changes.len() {
        Seq::empty()
    } else {
        let front = change_rows(changes, inner_w, (n - 1) as nat);
        let change = changes[n - 1];
        let headed = if n == 1 {
            front.push(file_heading(change.filename@))
        } else if changes[n - 2].filename@ != change.filename@ {
            front.push(Seq::empty()).push(file_heading(change.filename@))
        } else {
            front
        };
        headed.push(change_row(change, inner_w))
    }
}

/// The name of a file above its changes.
pub open spec fn file_heading(name: Seq<char>) -> LineV {
    seq![sp("  "@ + name, bold_fg(Tone::Amber))]
}

fn change_lines(changes: &Vec<CueImportChange>, inner_w: usize) -> (r: Rows)
    ensures
        r@ == change_rows(changes@, inner_w as int, changes@.len()),
{
    let mut rows = Rows::new();
    for i in 0..changes.len()
        invariant
            rows@ == change_rows(changes@, inner_w as int, i as nat),
    {
        let change = &changes[i];
        let heading = cat2("  ", change.filename.as_str());
        if i == 0 {
            rows.push(line1(heading.as_str(), bold_fg(Tone::Amber)));
        } else if !same(changes[i - 1].filename.as_str(), change.filename.as_str()) {
            rows.push(Line::new());
            rows.push(line1(heading.as_str(), bold_fg(Tone::Amber)));
        }
        rows.push(change_line(change, inner_w));
    }
    rows
}

/// The title of the cue import review.
pub open spec fn cue_review_title(n: nat) -> Seq<char> {
    " CUE Import Review — "@ + decimal(n) + " change"@ + plural(n, "s"@) + " "@
}

/// The place of the cue import review.
pub open spec fn cue_review_popup(size: Rect) -> Rect {
    share(size.width as int, size.height as int, 80, 50, 80, 12)
}

/// The changes that a cue sheet would make, by file.
pub fn draw_cue_import_review(size: Rect, changes: &Vec<CueImportChange>, scroll: usize) -> (r: Scene)
    ensures
        ({
            let popup = cue_review_popup(size);
            shows_report(
                popup,
                cue_review_title(changes@.len()),
                Tone::Cyan,
                change_rows(changes@, inside_border(popup).width as int, changes@.len()),
                scroll as int,
                two_pills("Enter accept"@, Tone::Green, "Esc cancel"@, Tone::Purple),
                r@,
            )
        }),
{
    let popup = share_rect(size.width, size.height, 80, 50, 80, 12);
    let n: usize = changes.len();
    let title = cat5(
        " CUE Import Review — ",
        dec_len(n).as_str(),
        " change",
        plural_ending(n, "s"),
        " ",
    );
    let rows = change_lines(changes, crate::geometry::inner(popup).width as usize);
    let footer = two_pill_line("Enter accept", Tone::Green, "Esc cancel", Tone::Purple);
    draw_report(popup, title.as_str(), Tone::Cyan, &rows, scroll, footer)
}

/// A disc found in the database.
#[derive(Debug)]
pub struct GnudbMatch {
    pub category: String,
    pub title: String,
}

/// The style of a match.
#[verifier::allow_in_spec]
pub fn match_style(selected: bool) -> Style
    returns
        (if selected {
            bold_fg(Tone::Amber)
        } else {
            fg(Tone::TextBright)
        }),
{
    if selected {
        bold_fg(Tone::Amber)
    } else {
        fg(Tone::TextBright)
    }
}

/// The style of a match's category.
#[verifier::allow_in_spec]
pub fn category_style(selected: bool) -> Style
    returns
        (if selected {
            bold_fg(Tone::Cyan)
        } else {
            muted()
        }),
{
    if selected {
        bold_fg(Tone::Cyan)
    } else {
        muted()
    }
}

/// One match.
pub open spec fn match_row(found: GnudbMatch, selected: bool) -> LineV {
    seq![
        sp(if selected { " ► "@ } else { "   "@ }, match_style(selected)),
        sp("["@ + found.category@ + "] "@, category_style(selected)),
        sp(found.title@, match_style(selected)),
    ]
}

fn match_line(found: &GnudbMatch, selected: bool) -> (r: Line)
    ensures
        r@ == match_row(*found, selected),
{
    let prefix = if selected { " ► " } else { "   " };
    let category = cat3("[", found.category.as_str(), "] ");
    let line = line3(
        prefix,
        match_style(selected),
        category.as_str(),
        category_style(selected),
        found.title.as_str(),
        match_style(selected),
    );
    proof {
        assert(line@ =~= match_row(*found, selected));
    }
    line
}

/// All matches.
pub open spec fn match_rows(matches: Seq<GnudbMatch>, selected: int) -> RowsV {
    Seq::new(matches.len(), |i: int| match_row(matches[i], i == selected))
}

fn match_lines(matches: &Vec<GnudbMatch>, selected: usize) -> (r: Rows)
    ensures
        r@ == match_rows(matches@, selected as int),
{
    let mut rows = Rows::new();
    for i in 0..matches.len()
        invariant
            rows@ =~= match_rows(matches@, selected as int).take(i as int),
    {
        rows.push(match_line(&matches[i], i == selected));
    }
    proof {
        assert(rows@ =~= match_rows(matches@, selected as int));
    }
    rows
}

/// The title of the match list.
pub open spec fn matches_title(n: nat) -> Seq<char> {
    " GNUDB — "@ + decimal(n) + " match"@ + plural(n, "es"@) + " "@
}

/// The discs found in the database.
pub fn draw_gnudb_select(size: Rect, matches: &Vec<GnudbMatch>, selected: usize, scroll: usize) -> (r:
    Scene)
    ensures
        shows_report(
            share(size.width as int, size.height as int, 70, 40, 60, 8),
            matches_title(matches@.len()),
            Tone::Cyan,
            match_rows(matches@, selected as int),
            scroll as int,
            two_pills("Enter select"@, Tone::Green, "Esc cancel"@, Tone::Purple),
            r@,
        ),
{
    let popup = share_rect(size.width, size.height, 70, 40, 60, 8);
    let n: usize = matches.len();
    let title = cat5(
        " GNUDB — ",
        dec_len(n).as_str(),
        " match",
        plural_ending(n, "es"),
        " ",
    );
    let rows = match_lines(matches, selected);
    let footer = two_pill_line("Enter select", Tone::Green, "Esc cancel", Tone::Purple);
    draw_report(popup, title.as_str(), Tone::Cyan, &rows, scroll, footer)
}

/// Where proposed tags come from.
#[derive(Clone, Copy, Debug, PartialEq, Eq, Structural)]
pub enum ReviewSource {
    Gnudb,
    CueImport,
}

/// A row of the review.
#[derive(Debug)]
pub enum GnudbRowKind {
    /// A tag of the album, by name.
    AlbumField(String),
    TrackHeader { track_idx: usize },
    /// A tag of a track, by name.
    TrackField { track_idx: usize, field: String },
}

/// A proposed track.
#[derive(Debug)]
pub struct GnudbTrack {
    pub track_number: u32,
    pub title: String,
    pub artist: String,
}

/// A proposed disc.
#[derive(Debug)]
pub struct GnudbPage {
    pub label: String,
    pub album: String,
    pub year: String,
    pub genre: String,
    pub tracks: Vec<GnudbTrack>,
    pub rows: Vec<GnudbRowKind>,
}

/// Proposed tags, which can be edited before they are taken over.
#[derive(Debug)]
pub struct GnudbReviewState {
    pub source: ReviewSource,
    pub pages: Vec<GnudbPage>,
    pub active_page: usize,
    pub cursor: usize,
    pub scroll: usize,
    pub edit_input: Option<TextInputState>,
    /// The list of matches can be gone back to.
    pub has_matches: bool,
}

impl GnudbRowKind {
    /// The row speaks of one of `n` tracks.
    pub open spec fn in_bounds(self, n: nat) -> bool {
        match self {
            GnudbRowKind::AlbumField(_) => true,
            GnudbRowKind::TrackHeader { track_idx } => track_idx < n,
            GnudbRowKind::TrackField { track_idx, .. } => track_idx < n,
        }
    }
}

impl GnudbReviewState {
    /// There is an active page, and its rows speak of tracks that it has.
    pub open spec fn wf(self) -> bool {
        &&& self.active_page < self.pages@.len()
        &&& forall|i: int|
            0 <= i < self.pages@[self.active_page as int].rows@.len() ==> (
            #[trigger] self.pages@[self.active_page as int].rows@[i]).in_bounds(
                self.pages@[self.active_page as int].tracks@.len(),
            )
    }
}

/// The title of the review.
pub open spec fn review_title(state: GnudbReviewState) -> Seq<char> {
    let page = state.pages@[state.active_page as int];
    let artist = if page.tracks@.len() > 0 { page.tracks@[0].artist@ } else { "Unknown"@ };
    let prefix = match state.source {
        ReviewSource::Gnudb => "GNUDB Review"@,
        ReviewSource::CueImport => "CUE Import Review"@,
    };
    " "@ + prefix + " — "@ + artist + " / "@ + page.album@ + " "@
}

fn title_of_review(state: &GnudbReviewState) -> (r: String)
    requires
        state.wf(),
    ensures
        r@ == review_title(*state),
{
    let page = &state.pages[state.active_page];
    let artist = if page.tracks.len() > 0 { page.tracks[0].artist.as_str() } else { "Unknown" };
    let prefix = match state.source {
        ReviewSource::Gnudb => "GNUDB Review",
        ReviewSource::CueImport => "CUE Import Review",
    };
    let front = cat6(" ", prefix, " — ", artist, " / ", page.album.as_str());
    cat2(front.as_str(), " ")
}

/// The name of a disc.
pub open spec fn page_label(page: GnudbPage, i: int) -> Seq<char> {
    if page.label@.len() == 0 {
        "disc "@ + decimal((i + 1) as nat)
    } else {
        page.label@
    }
}

/// The style of a disc's name.
#[verifier::allow_in_spec]
pub fn page_style(active: bool) -> Style
    returns
        (if active {
            bold(on(Tone::PillActiveFg, Tone::Cyan))
        } else {
            dimmed()
        }),
{
    if active {
        bold(on(Tone::PillActiveFg, Tone::Cyan))
    } else {
        dimmed()
    }
}

/// The first `n` discs.
pub open spec fn page_spans(state: GnudbReviewState, n: nat) -> LineV
    decreases n,
{
    if n == 0 || n > state.pages@.len() {
        seq![sp("  "@, plain())]
    } else {
        page_spans(state, (n - 1) as nat).push(
            sp(
                " "@ + page_label(state.pages@[n - 1], n - 1) + " "@,
                page_style(n - 1 == state.active_page),
            ),
        ).push(sp(" "@, plain()))
    }
}

fn page_line(state: &GnudbReviewState) -> (r: Line)
    ensures
        r@ == page_spans(*state, state.pages@.len()),
{
    let mut line = line1("  ", plain());
    for i in 0..state.pages.len()
        invariant
            line@ == page_spans(*state, i as nat),
    {
        let page = &state.pages[i];
        let label = if page.label.as_str().is_empty() {
            cat2("disc ", dec_len(i + 1).as_str())
        } else {
            owned(page.label.as_str())
        };
        line.put(cat3(" ", label.as_str(), " ").as_str(), page_style(i == state.active_page));
        line.put(" ", plain());
    }
    line
}

/// The value of an album's tag.
pub open spec fn album_value(page: GnudbPage, field: Seq<char>) -> Seq<char> {
    if field == "Album"@ {
        page.album@
    } else if field == "Year"@ {
        page.year@
    } else if field == "Genre"@ {
        page.genre@
    } else {
        ""@
    }
}

/// The value of a track's tag.
pub open spec fn track_value(track: GnudbTrack, field: Seq<char>) -> Seq<char> {
    if field == "Title"@ {
        track.title@
    } else if field == "Artist"@ {
        track.artist@
    } else {
        ""@
    }
}

/// The style of a tag's name.
#[verifier::allow_in_spec]
pub fn tag_style(is_cursor: bool) -> Style
    returns
        (if is_cursor {
            bold_fg(Tone::Amber)
        } else {
            muted()
        }),
{
    if is_cursor {
        bold_fg(Tone::Amber)
    } else {
        muted()
    }
}

/// A tag and its value, or the text being edited in its place.
pub open spec fn tag_row(
    field: Seq<char>,
    value: Seq<char>,
    is_cursor: bool,
    input: Option<TextInputState>,
    inner_w: int,
) -> LineV {
    let label = seq![sp("    "@ + left_aligned(field, 8), tag_style(is_cursor))];
    match input {
        Some(text) => if is_cursor {
            label + cursor_spans(
                text.window(minus(inner_w, 13)),
                text.cursor_column(minus(inner_w, 13)),
            )
        } else {
            label.push(sp(value, fg(Tone::TextBright)))
        },
        None => label.push(sp(value, fg(Tone::TextBright))),
    }
}

fn tag_line(field: &str, value: &str, is_cursor: bool, input: &Option<TextInputState>, inner_w: usize) -> (r:
    Line)
    ensures
        r@ == tag_row(field@, value@, is_cursor, *input, inner_w as int),
{
    let label = cat2("    ", align_left(field, 8).as_str());
    let mut line = line1(label.as_str(), tag_style(is_cursor));
    match input {
        Some(text) => {
            if is_cursor {
                let (visible, cursor) = text.view(inner_w.saturating_sub(13));
                let chars = chars_of(visible.as_str());
                line.append(cursor_line(&chars, cursor as usize));
                return line;
            }
        },
        None => {},
    }
    line.put(value, fg(Tone::TextBright));
    line
}

/// The heading of a track.
pub open spec fn track_heading(track: GnudbTrack, inner_w: int) -> LineV {
    let header = "Track "@ + zero_filled(track.track_number as nat, 2);
    seq![
        sp(
            " ── "@ + header + " "@ + repeated(
                '─',
                minus(inner_w, plus(header.len() as int, 5)) as nat,
            ),
            muted(),
        ),
    ]
}

fn track_heading_line(track: &GnudbTrack, inner_w: usize) -> (r: Line)
    ensures
        r@ == track_heading(*track, inner_w as int),
{
    let header = cat2("Track ", zero_fill(track.track_number as u64, 2).as_str());
    let dashes = repeat_char(
        '─',
        inner_w.saturating_sub(count(header.as_str()).saturating_add(5)),
    );
    let text = cat4(" ── ", header.as_str(), " ", dashes.as_str());
    line1(text.as_str(), muted())
}

/// Row `i` of the review.
pub open spec fn review_row(state: GnudbReviewState, i: int, inner_w: int) -> LineV {
    let page = state.pages@[state.active_page as int];
    let is_cursor = i == state.cursor;
    match page.rows@[i] {
        GnudbRowKind::AlbumField(field) => tag_row(
            field@,
            album_value(page, field@),
            is_cursor,
            state.edit_input,
            inner_w,
        ),
        GnudbRowKind::TrackHeader { track_idx } => track_heading(
            page.tracks@[track_idx as int],
            inner_w,
        ),
        GnudbRowKind::TrackField { track_idx, field } => tag_row(
            field@,
            track_value(page.tracks@[track_idx as int], field@),
            is_cursor,
            state.edit_input,
            inner_w,
        ),
    }
}

fn review_line(state: &GnudbReviewState, i: usize, inner_w: usize) -> (r: Line)
    requires
        state.wf(),
        i < state.pages@[state.active_page as int].rows@.len(),
    ensures
        r@ == review_row(*state, i as int, inner_w as int),
{
    let page = &state.pages[state.active_page];
    let is_cursor = i == state.cursor;
    proof {
        assert(page.rows@[i as int].in_bounds(page.tracks@.len()));
    }
    match &page.rows[i] {
        GnudbRowKind::AlbumField(field) => {
            let name = field.as_str();
            let value = if same(name, "Album") {
                page.album.as_str()
            } else if same(name, "Year") {
                page.year.as_str()
            } else if same(name, "Genre") {
                page.genre.as_str()
            } else {
                ""
            };
            tag_line(name, value, is_cursor, &state.edit_input, inner_w)
        },
        GnudbRowKind::TrackHeader { track_idx } => track_heading_line(
            &page.tracks[*track_idx],
            inner_w,
        ),
        GnudbRowKind::TrackField { track_idx, field } => {
            let track = &page.tracks[*track_idx];
            let name = field.as_str();
            let value = if same(name, "Title") {
                track.title.as_str()
            } else if same(name, "Artist") {
                track.artist.as_str()
            } else {
                ""
            };
            tag_line(name, value, is_cursor, &state.edit_input, inner_w)
        },
    }
}

/// The review, line by line: the discs where there are several, then every row.
pub open spec fn review_rows(state: GnudbReviewState, inner_w: int, n: nat) -> RowsV
    decreases n,
{
    let page = state.pages@[state.active_page as int];
    if n == 0 || n > page.rows@.len() {
        if state.pages@.len() > 1 {
            seq![page_spans(state, state.pages@.len()), Seq::<crate::scene::SpanV>::empty()]
        } else {
            Seq::empty()
        }
    } else {
        review_rows(state, inner_w, (n - 1) as nat).push(review_row(state, n - 1, inner_w))
    }
}

fn review_lines(state: &GnudbReviewState, inner_w: usize) -> (r: Rows)
    requires
        state.wf(),
    ensures
        r@ == review_rows(
            *state,
            inner_w as int,
            state.pages@[state.active_page as int].rows@.len(),
        ),
{
    let mut rows = Rows::new();
    if state.pages.len() > 1 {
        rows.push(page_line(state));
        rows.push(Line::new());
    }
    let page = &state.pages[state.active_page];
    for i in 0..page.rows.len()
        invariant
            state.wf(),
            page == &state.pages@[state.active_page as int],
            rows@ == review_rows(*state, inner_w as int, i as nat),
    {
        rows.push(review_line(state, i, inner_w));
    }
    rows
}

/// The keys of the review.
pub open spec fn review_footer(state: GnudbReviewState) -> LineV {
    if state.edit_input is Some {
        two_pills("Enter confirm"@, Tone::Green, "Esc cancel"@, Tone::Purple)
    } else {
        (if state.has_matches {
            seq![footer_pill_span("b back"@, Tone::Amber), pill_gap_span()]
        } else {
            Seq::empty()
        }) + seq![
            footer_pill_span("Enter edit"@, Tone::Green),
            pill_gap_span(),
            footer_pill_span("c fix-caps"@, Tone::Blue),
            pill_gap_span(),
            footer_pill_span("a accept"@, Tone::Cyan),
            pill_gap_span(),
            footer_pill_span("Esc cancel"@, Tone::Purple),
        ]
    }
}

fn review_footer_line(state: &GnudbReviewState) -> (r: Line)
    ensures
        r@ == review_footer(*state),
{
    if state.edit_input.is_some() {
        return two_pill_line("Enter confirm", Tone::Green, "Esc cancel", Tone::Purple);
    }
    let mut line = Line::new();
    if state.has_matches {
        line.push(footer_pill("b back", Tone::Amber));
        line.push(pill_gap());
    }
    let mut keys = Line::new();
    keys.push(footer_pill("Enter edit", Tone::Green));
    keys.push(pill_gap());
    keys.push(footer_pill("c fix-caps", Tone::Blue));
    keys.push(pill_gap());
    keys.push(footer_pill("a accept", Tone::Cyan));
    keys.push(pill_gap());
    keys.push(footer_pill("Esc cancel", Tone::Purple));
    line.append(keys);
    line
}

/// The place of the review.
pub open spec fn review_popup(size: Rect) -> Rect {
    share(size.width as int, size.height as int, 85, 50, 85, 14)
}

/// Proposed tags of one disc, which can be edited.
pub fn draw_gnudb_review(size: Rect, state: &GnudbReviewState) -> (r: Scene)
    requires
        state.wf(),
    ensures
        shows_report(
            review_popup(size),
            review_title(*state),
            Tone::Cyan,
            review_rows(
                *state,
                inside_border(review_popup(size)).width as int,
                state.pages@[state.active_page as int].rows@.len(),
            ),
            state.scroll as int,
            review_footer(*state),
            r@,
        ),
{
    let popup = share_rect(size.width, size.height, 85, 50, 85, 14);
    let title = title_of_review(state);
    let rows = review_lines(state, crate::geometry::inner(popup).width as usize);
    draw_report(
        popup,
        title.as_str(),
        Tone::Cyan,
        &rows,
        state.scroll,
        review_footer_line(state),
    )
}

} // verus!
