//! Dialogs that show how a rip compares with the public databases.

use crate::geometry::{share, share_rect, Rect};
use crate::overlay_parts::{
    draw_report, draw_results, footer_pill, footer_pill_span, one_pill, one_pill_line, pill_gap,
    pill_gap_span, shows_report, shows_results,
};
use crate::path::{file_name_or_path, name_or_path};
use crate::scene::{line1, line2, sp, Line, LineV, Rows, RowsV, Scene};
use crate::style::{bold, bold_fg, fg, on, plain, Tone};
use crate::text::{
    cat2, cat3, cat4, cat5, cat6, dec, dec_len, dec_signed, decimal, hex, hex_digits, owned, plus,
    signed, zero_fill, zero_filled,
};
use vstd::prelude::*;

verus! {

/// The colour of a check in which `good` of `total` passed.
#[verifier::allow_in_spec]
pub fn outcome_tone(good: usize, total: usize) -> Tone
    returns
        (if good == total && total > 0 {
            Tone::Green
        } else if good > 0 {
            Tone::Amber
        } else {
            Tone::Red
        }),
{
    if good == total && total > 0 {
        Tone::Green
    } else if good > 0 {
        Tone::Amber
    } else {
        Tone::Red
    }
}

/// The label of a disc: its own, or its number.
pub open spec fn disc_label(label: Seq<char>, i: int) -> Seq<char> {
    if label.len() == 0 {
        "disc "@ + decimal((i + 1) as nat)
    } else {
        label
    }
}

/// The spans of one disc in the row of discs.
pub open spec fn disc_pill(label: Seq<char>, i: int, active: bool) -> LineV {
    seq![
        sp(
            " "@ + disc_label(label, i) + " "@,
            if active {
                bold(on(Tone::PillActiveFg, Tone::Cyan))
            } else {
                fg(Tone::TextDim)
            },
        ),
        sp(" "@, plain()),
    ]
}

fn disc_pill_line(label: &str, i: usize, active: bool) -> (r: Line)
    requires
        i < usize::MAX,
    ensures
        r@ == disc_pill(label@, i as int, active),
{
    let shown = if label.is_empty() {
        cat2("disc ", dec_len(i + 1).as_str())
    } else {
        owned(label)
    };
    let style = if active {
        bold(on(Tone::PillActiveFg, Tone::Cyan))
    } else {
        fg(Tone::TextDim)
    };
    line2(cat3(" ", shown.as_str(), " ").as_str(), style, " ", plain())
}

/// One result: a mark and a name, and the detail below.
pub open spec fn result_pair(icon: Seq<char>, tone: Tone, name: Seq<char>, detail: Seq<char>) -> RowsV {
    seq![
        seq![sp(icon, bold_fg(tone)), sp(name, fg(Tone::TextBright))],
        seq![sp("     "@, plain()), sp(detail, fg(Tone::TextDim))],
    ]
}

fn result_pair_lines(icon: &str, tone: Tone, name: &str, detail: &str) -> (r: Rows)
    ensures
        r@ == result_pair(icon@, tone, name@, detail@),
{
    let mut rows = Rows::of(line2(icon, bold_fg(tone), name, fg(Tone::TextBright)));
    rows.push(line2("     ", plain(), detail, fg(Tone::TextDim)));
    rows
}

/// A track's number and the name of its file.
pub open spec fn track_label(number: nat, path: Seq<char>) -> Seq<char> {
    zero_filled(number, 2) + " - "@ + name_or_path(path)
}

fn track_label_text(number: u32, path: &str) -> (r: String)
    ensures
        r@ == track_label(number as nat, path@),
{
    cat3(zero_fill(number as u64, 2).as_str(), " - ", file_name_or_path(path).as_str())
}

/// How a track compares with the AccurateRip database.
#[derive(Debug)]
pub enum ArTrackStatus {
    Verified,
    Mismatch,
    NoDiscInDatabase,
    Error(String),
}

/// One track of an AccurateRip check.
#[derive(Debug)]
pub struct ArTrackResult {
    pub path: String,
    pub track_number: u32,
    pub status: ArTrackStatus,
    pub confidence: Option<u32>,
    pub offset: Option<i32>,
}

/// An AccurateRip check of one disc.
#[derive(Debug)]
pub struct ArVerifyResult {
    pub tracks: Vec<ArTrackResult>,
    pub disc_id_str: String,
    pub was_common_scan: bool,
    /// The outcome in words.
    pub summary: String,
    /// Whether all tracks agree on one offset that can be corrected.
    pub has_uniform_offset: bool,
}

/// One disc of the dialog.
#[derive(Debug)]
pub struct ArVerifyPage {
    pub label: String,
    pub result: ArVerifyResult,
}

/// The state of the AccurateRip dialog.
#[derive(Debug)]
pub struct ArVerifyState {
    pub pages: Vec<ArVerifyPage>,
    pub active_page: usize,
    pub scroll: usize,
}

/// How many of the first `n` tracks are verified.
pub open spec fn ar_verified(tracks: Seq<ArTrackResult>, n: nat) -> nat
    decreases n,
{
    if n == 0 || n > tracks.len() {
        0
    } else {
        ar_verified(tracks, (n - 1) as nat) + if tracks[n - 1].status is Verified {
            1nat
        } else {
            0
        }
    }
}

fn count_ar_verified(tracks: &Vec<ArTrackResult>) -> (r: usize)
    ensures
        r == ar_verified(tracks@, tracks@.len()),
        r <= tracks@.len(),
{
    let mut verified: usize = 0;
    for i in 0..tracks.len()
        invariant
            verified == ar_verified(tracks@, i as nat),
            verified <= i,
    {
        if matches!(tracks[i].status, ArTrackStatus::Verified) {
            verified = verified + 1;
        }
    }
    verified
}

/// The tracks of the first `n` discs, and how many of them are verified.
pub open spec fn ar_totals(pages: Seq<ArVerifyPage>, n: nat) -> (int, int)
    decreases n,
{
    if n == 0 || n > pages.len() {
        (0, 0)
    } else {
        let (total, verified) = ar_totals(pages, (n - 1) as nat);
        let tracks = pages[n - 1].result.tracks@;
        (plus(total, tracks.len() as int), plus(verified, ar_verified(tracks, tracks.len()) as int))
    }
}

fn count_ar_totals(pages: &Vec<ArVerifyPage>) -> (r: (usize, usize))
    ensures
        r.0 == ar_totals(pages@, pages@.len()).0,
        r.1 == ar_totals(pages@, pages@.len()).1,
{
    let mut total: usize = 0;
    let mut verified: usize = 0;
    for i in 0..pages.len()
        invariant
            total == ar_totals(pages@, i as nat).0,
            verified == ar_totals(pages@, i as nat).1,
    {
        let tracks = &pages[i].result.tracks;
        total = total.saturating_add(tracks.len());
        verified = verified.saturating_add(count_ar_verified(tracks));
    }
    (total, verified)
}

/// The title over several discs, or over the tracks of one.
pub open spec fn check_title(
    many: Seq<char>,
    single: Seq<char>,
    discs: nat,
    totals: (int, int),
    tracks: nat,
) -> Seq<char> {
    if discs > 1 {
        many + decimal(discs) + " discs, "@ + decimal(totals.1 as nat) + "/"@ + decimal(totals.0 as nat)
            + " verified "@
    } else {
        single + decimal(tracks) + " tracks "@
    }
}

fn check_title_text(
    many: &str,
    single: &str,
    discs: usize,
    totals: (usize, usize),
    tracks: usize,
) -> (r: String)
    ensures
        r@ == check_title(
            many@,
            single@,
            discs as nat,
            (totals.0 as int, totals.1 as int),
            tracks as nat,
        ),
{
    if discs > 1 {
        let front = cat6(
            many,
            dec_len(discs).as_str(),
            " discs, ",
            dec_len(totals.1).as_str(),
            "/",
            dec_len(totals.0).as_str(),
        );
        cat2(front.as_str(), " verified ")
    } else {
        cat3(single, dec_len(tracks).as_str(), " tracks ")
    }
}

/// The row of the first `n` discs.
pub open spec fn ar_disc_row(state: ArVerifyState, n: nat) -> LineV
    decreases n,
{
    if n == 0 || n > state.pages@.len() {
        seq![sp("  "@, plain())]
    } else {
        ar_disc_row(state, (n - 1) as nat) + disc_pill(
            state.pages@[n - 1].label@,
            n - 1,
            n - 1 == state.active_page,
        )
    }
}

fn ar_disc_line(state: &ArVerifyState) -> (r: Line)
    ensures
        r@ == ar_disc_row(*state, state.pages@.len()),
{
    let mut line = line1("  ", plain());
    for i in 0..state.pages.len()
        invariant
            line@ == ar_disc_row(*state, i as nat),
            i <= state.pages@.len(),
    {
        line.append(disc_pill_line(state.pages[i].label.as_str(), i, i == state.active_page));
    }
    line
}

/// The mark of a track, its colour and the detail.
pub open spec fn ar_mark(track: ArTrackResult) -> (Seq<char>, Tone, Seq<char>) {
    match track.status {
        ArTrackStatus::Verified => {
            let confidence = match track.confidence {
                Some(c) => c,
                None => 0,
            };
            let offset = match track.offset {
                Some(o) => o,
                None => 0,
            };
            (
                " ✓ "@,
                Tone::Green,
                "AR confidence "@ + decimal(confidence as nat) + " (offset "@ + signed(offset as int)
                    + ")"@,
            )
        },
        ArTrackStatus::Mismatch => (" ✗ "@, Tone::Red, "CRC mismatch"@),
        ArTrackStatus::NoDiscInDatabase => (" ? "@, Tone::Amber, "disc not in database"@),
        ArTrackStatus::Error(e) => (" ! "@, Tone::Red, "error: "@ + e@),
    }
}

/// One track, in two rows.
pub open spec fn ar_pair(track: ArTrackResult) -> RowsV {
    let (icon, tone, detail) = ar_mark(track);
    result_pair(icon, tone, track_label(track.track_number as nat, track.path@), detail)
}

fn ar_pair_lines(track: &ArTrackResult) -> (r: Rows)
    ensures
        r@ == ar_pair(*track),
{
    let (icon, tone, detail) = match &track.status {
        ArTrackStatus::Verified => {
            let confidence: u32 = match track.confidence {
                Some(c) => c,
                None => 0,
            };
            let offset: i32 = match track.offset {
                Some(o) => o,
                None => 0,
            };
            let detail = cat5(
                "AR confidence ",
                dec(confidence as u64).as_str(),
                " (offset ",
                dec_signed(offset).as_str(),
                ")",
            );
            (" ✓ ", Tone::Green, detail)
        },
        ArTrackStatus::Mismatch => (" ✗ ", Tone::Red, owned("CRC mismatch")),
        ArTrackStatus::NoDiscInDatabase => (" ? ", Tone::Amber, owned("disc not in database")),
        ArTrackStatus::Error(e) => (" ! ", Tone::Red, cat2("error: ", e.as_str())),
    };
    let label = track_label_text(track.track_number, track.path.as_str());
    result_pair_lines(icon, tone, label.as_str(), detail.as_str())
}

/// What stands above the tracks.
pub open spec fn ar_heading(state: ArVerifyState) -> RowsV {
    let result = state.pages@[state.active_page as int].result;
    let discs = if state.pages@.len() > 1 {
        seq![ar_disc_row(state, state.pages@.len()), Seq::empty()]
    } else {
        Seq::empty()
    };
    discs + seq![
        seq![sp("  "@, plain()), sp(result.summary@, bold_fg(Tone::TextBright))],
        seq![sp("  Disc ID: "@, fg(Tone::TextDim)), sp(result.disc_id_str@, fg(Tone::TextDim))],
        Seq::empty(),
    ]
}

fn ar_heading_lines(state: &ArVerifyState) -> (r: Rows)
    requires
        state.active_page < state.pages@.len(),
    ensures
        r@ == ar_heading(*state),
{
    let result = &state.pages[state.active_page].result;
    let mut rows = Rows::new();
    if state.pages.len() > 1 {
        rows.push(ar_disc_line(state));
        rows.push(Line::new());
    }
    let ghost discs = rows@;
    rows.push(line2("  ", plain(), result.summary.as_str(), bold_fg(Tone::TextBright)));
    rows.push(
        line2("  Disc ID: ", fg(Tone::TextDim), result.disc_id_str.as_str(), fg(Tone::TextDim)),
    );
    rows.push(Line::new());
    proof {
        assert(rows@ =~~= ar_heading(*state));
    }
    rows
}

/// The heading and the first `n` tracks of the disc that is shown.
pub open spec fn ar_rows(state: ArVerifyState, n: nat) -> RowsV
    decreases n,
{
    let tracks = state.pages@[state.active_page as int].result.tracks@;
    if n == 0 || n > tracks.len() {
        ar_heading(state)
    } else {
        ar_rows(state, (n - 1) as nat) + ar_pair(tracks[n - 1])
    }
}

fn ar_lines(state: &ArVerifyState) -> (r: Rows)
    requires
        state.active_page < state.pages@.len(),
    ensures
        r@ == ar_rows(*state, state.pages@[state.active_page as int].result.tracks@.len()),
{
    let mut rows = ar_heading_lines(state);
    let tracks = &state.pages[state.active_page].result.tracks;
    for i in 0..tracks.len()
        invariant
            state.active_page < state.pages@.len(),
            *tracks == state.pages@[state.active_page as int].result.tracks,
            rows@ == ar_rows(*state, i as nat),
    {
        rows.append(ar_pair_lines(&tracks[i]));
    }
    rows
}

/// Whether some track differs from the database.
pub open spec fn ar_has_mismatch(tracks: Seq<ArTrackResult>) -> bool {
    exists|i: int| 0 <= i < tracks.len() && (#[trigger] tracks[i]).status is Mismatch
}

fn find_ar_mismatch(tracks: &Vec<ArTrackResult>) -> (r: bool)
    ensures
        r == ar_has_mismatch(tracks@),
{
    for i in 0..tracks.len()
        invariant
            forall|j: int| 0 <= j < i ==> !((#[trigger] tracks@[j]).status is Mismatch),
    {
        if matches!(tracks[i].status, ArTrackStatus::Mismatch) {
            return true;
        }
    }
    false
}

/// A further pill behind the others, where it is offered.
pub open spec fn pill_if(shown: bool, gap: crate::scene::SpanV, label: Seq<char>, tone: Tone) -> LineV {
    if shown {
        seq![gap, footer_pill_span(label, tone)]
    } else {
        Seq::empty()
    }
}

/// The key hints: a full scan where the quick one left a track open, and the offset
/// correction where one offset fits all tracks.
pub open spec fn ar_footer(result: ArVerifyResult) -> LineV {
    one_pill("Esc close"@, Tone::Green) + pill_if(
        result.was_common_scan && ar_has_mismatch(result.tracks@),
        pill_gap_span(),
        ":ar! full scan"@,
        Tone::Blue,
    ) + pill_if(
        result.has_uniform_offset,
        pill_gap_span(),
        ":ar-fix correct offset"@,
        Tone::Purple,
    )
}

fn ar_footer_line(result: &ArVerifyResult) -> (r: Line)
    ensures
        r@ == ar_footer(*result),
{
    let mut line = one_pill_line("Esc close", Tone::Green);
    if result.was_common_scan && find_ar_mismatch(&result.tracks) {
        line.push(pill_gap());
        line.push(footer_pill(":ar! full scan", Tone::Blue));
    }
    if result.has_uniform_offset {
        line.push(pill_gap());
        line.push(footer_pill(":ar-fix correct offset", Tone::Purple));
    }
    proof {
        assert(line@ =~= ar_footer(*result));
    }
    line
}

/// How the tracks of a disc compare with the AccurateRip database.
pub fn draw_accuraterip_verify(size: Rect, state: &ArVerifyState) -> (r: Scene)
    requires
        state.active_page < state.pages@.len(),
    ensures
        ({
            let result = state.pages@[state.active_page as int].result;
            let tracks = result.tracks@;
            shows_results(
                tracks.len() > 0,
                share(size.width as int, size.height as int, 70, 50, 70, 10),
                check_title(
                    " AccurateRip — "@,
                    " AccurateRip Verification — "@,
                    state.pages@.len(),
                    ar_totals(state.pages@, state.pages@.len()),
                    tracks.len(),
                ),
                outcome_tone(ar_verified(tracks, tracks.len()) as usize, tracks.len() as usize),
                ar_rows(*state, tracks.len()),
                state.scroll as int,
                ar_footer(result),
                r@,
            )
        }),
{
    let popup = share_rect(size.width, size.height, 70, 50, 70, 10);
    let result = &state.pages[state.active_page].result;
    let tone = outcome_tone(count_ar_verified(&result.tracks), result.tracks.len());
    let totals = count_ar_totals(&state.pages);
    let title = check_title_text(
        " AccurateRip — ",
        " AccurateRip Verification — ",
        state.pages.len(),
        totals,
        result.tracks.len(),
    );
    let rows = ar_lines(state);
    let footer = ar_footer_line(result);
    draw_results(
        result.tracks.len() > 0,
        popup,
        title.as_str(),
        tone,
        &rows,
        state.scroll,
        footer,
    )
}

/// One album of an AccurateRip batch.
#[derive(Debug)]
pub struct ArBatchAlbum {
    pub album_name: String,
    pub total_tracks: usize,
    pub verified: usize,
    pub mismatched: usize,
    pub not_in_db: bool,
    pub confidence: Option<u32>,
    pub offset: Option<i32>,
    pub error: Option<String>,
}

/// The outcome of an AccurateRip batch.
#[derive(Debug)]
pub struct ArBatchResult {
    pub albums: Vec<ArBatchAlbum>,
    pub report_path: Option<String>,
}

/// Whether every track of the album is verified.
pub open spec fn album_complete(album: ArBatchAlbum) -> bool {
    album.verified == album.total_tracks && album.total_tracks > 0
}

/// How many of the first `n` albums are verified, not in the database, and different
/// from it.
pub open spec fn album_counts(albums: Seq<ArBatchAlbum>, n: nat) -> (nat, nat, nat)
    decreases n,
{
    if n == 0 || n > albums.len() {
        (0, 0, 0)
    } else {
        let (verified, missing, different) = album_counts(albums, (n - 1) as nat);
        let album = albums[n - 1];
        (
            if album_complete(album) && !album.not_in_db {
                verified + 1
            } else {
                verified
            },
            if album.not_in_db {
                missing + 1
            } else {
                missing
            },
            if album.mismatched > 0 && !album.not_in_db {
                different + 1
            } else {
                different
            },
        )
    }
}

fn count_albums(albums: &Vec<ArBatchAlbum>) -> (r: (usize, usize, usize))
    ensures
        r.0 == album_counts(albums@, albums@.len()).0,
        r.1 == album_counts(albums@, albums@.len()).1,
        r.2 == album_counts(albums@, albums@.len()).2,
{
    let mut verified: usize = 0;
    let mut missing: usize = 0;
    let mut different: usize = 0;
    for i in 0..albums.len()
        invariant
            verified == album_counts(albums@, i as nat).0,
            missing == album_counts(albums@, i as nat).1,
            different == album_counts(albums@, i as nat).2,
            verified <= i,
            missing <= i,
            different <= i,
    {
        let album = &albums[i];
        if album.verified == album.total_tracks && album.total_tracks > 0 && !album.not_in_db {
            verified = verified + 1;
        }
        if album.not_in_db {
            missing = missing + 1;
        }
        if album.mismatched > 0 && !album.not_in_db {
            different = different + 1;
        }
    }
    (verified, missing, different)
}

/// The mark of an album and its colour.
pub open spec fn album_mark(album: ArBatchAlbum) -> (Seq<char>, Tone) {
    if album.error is Some {
        (" ! "@, Tone::Red)
    } else if album.not_in_db {
        (" ? "@, Tone::Amber)
    } else if album_complete(album) {
        (" ✓ "@, Tone::Green)
    } else if album.mismatched > 0 {
        (" ✗ "@, Tone::Red)
    } else {
        (" ~ "@, Tone::Amber)
    }
}

/// How many tracks of an album are verified, and how sure that is.
pub open spec fn album_figures(album: ArBatchAlbum) -> Seq<char> {
    let counts = decimal(album.verified as nat) + "/"@ + decimal(album.total_tracks as nat)
        + " verified"@;
    let sure = match album.confidence {
        Some(c) => counts + ", confidence "@ + decimal(c as nat),
        None => counts,
    };
    let placed = match album.offset {
        Some(o) => sure + ", offset "@ + signed(o as int),
        None => sure,
    };
    if album.mismatched > 0 {
        placed + ", "@ + decimal(album.mismatched as nat) + " mismatch"@
    } else {
        placed
    }
}

/// What is said of an album.
pub open spec fn album_detail(album: ArBatchAlbum) -> Seq<char> {
    match album.error {
        Some(e) => "error: "@ + e@,
        None => if album.not_in_db {
            "disc not in database"@
        } else {
            album_figures(album)
        },
    }
}

fn album_figures_text(album: &ArBatchAlbum) -> (r: String)
    ensures
        r@ == album_figures(*album),
{
    let counts = cat4(
        dec_len(album.verified).as_str(),
        "/",
        dec_len(album.total_tracks).as_str(),
        " verified",
    );
    let sure = match album.confidence {
        Some(c) => cat3(counts.as_str(), ", confidence ", dec(c as u64).as_str()),
        None => counts,
    };
    let placed = match album.offset {
        Some(o) => cat3(sure.as_str(), ", offset ", dec_signed(o).as_str()),
        None => sure,
    };
    if album.mismatched > 0 {
        cat4(placed.as_str(), ", ", dec_len(album.mismatched).as_str(), " mismatch")
    } else {
        placed
    }
}

/// One album, in two rows.
pub open spec fn album_pair(album: ArBatchAlbum) -> RowsV {
    let (icon, tone) = album_mark(album);
    result_pair(icon, tone, album.album_name@, album_detail(album))
}

fn album_pair_lines(album: &ArBatchAlbum) -> (r: Rows)
    ensures
        r@ == album_pair(*album),
{
    let (icon, tone) = if album.error.is_some() {
        (" ! ", Tone::Red)
    } else if album.not_in_db {
        (" ? ", Tone::Amber)
    } else if album.verified == album.total_tracks && album.total_tracks > 0 {
        (" ✓ ", Tone::Green)
    } else if album.mismatched > 0 {
        (" ✗ ", Tone::Red)
    } else {
        (" ~ ", Tone::Amber)
    };
    let detail = match &album.error {
        Some(e) => cat2("error: ", e.as_str()),
        None => if album.not_in_db {
            owned("disc not in database")
        } else {
            album_figures_text(album)
        },
    };
    result_pair_lines(icon, tone, album.album_name.as_str(), detail.as_str())
}

/// What stands above the albums.
pub open spec fn batch_heading(result: ArBatchResult) -> RowsV {
    let (verified, missing, different) = album_counts(result.albums@, result.albums@.len());
    seq![
        seq![
            sp("  "@, plain()),
            sp(
                decimal(verified) + " verified, "@ + decimal(missing) + " not in DB, "@ + decimal(
                    different,
                ) + " mismatch"@,
                bold_fg(Tone::TextBright),
            ),
        ],
    ] + match result.report_path {
        Some(path) => seq![
            seq![sp("  Report: "@, fg(Tone::TextDim)), sp(path@, fg(Tone::TextDim))],
        ],
        None => Seq::empty(),
    } + seq![Seq::empty()]
}

fn batch_heading_lines(result: &ArBatchResult, counts: (usize, usize, usize)) -> (r: Rows)
    requires
        counts.0 == album_counts(result.albums@, result.albums@.len()).0,
        counts.1 == album_counts(result.albums@, result.albums@.len()).1,
        counts.2 == album_counts(result.albums@, result.albums@.len()).2,
    ensures
        r@ == batch_heading(*result),
{
    let summary = cat6(
        dec_len(counts.0).as_str(),
        " verified, ",
        dec_len(counts.1).as_str(),
        " not in DB, ",
        dec_len(counts.2).as_str(),
        " mismatch",
    );
    let mut rows = Rows::of(line2("  ", plain(), summary.as_str(), bold_fg(Tone::TextBright)));
    match &result.report_path {
        Some(path) => {
            rows.push(line2("  Report: ", fg(Tone::TextDim), path.as_str(), fg(Tone::TextDim)));
        },
        None => {},
    }
    rows.push(Line::new());
    proof {
        assert(rows@ =~~= batch_heading(*result));
    }
    rows
}

/// The heading and the first `n` albums.
pub open spec fn batch_rows(result: ArBatchResult, n: nat) -> RowsV
    decreases n,
{
    if n == 0 || n > result.albums@.len() {
        batch_heading(result)
    } else {
        batch_rows(result, (n - 1) as nat) + album_pair(result.albums@[n - 1])
    }
}

/// The title of the batch report.
pub open spec fn batch_title(verified: nat, total: nat) -> Seq<char> {
    " AccurateRip Batch — "@ + decimal(verified) + "/"@ + decimal(total) + " albums verified "@
}

/// How several albums compare with the AccurateRip database.
pub fn draw_ar_batch_report(size: Rect, result: &ArBatchResult, scroll: usize) -> (r: Scene)
    ensures
        ({
            let total = result.albums@.len();
            let verified = album_counts(result.albums@, total).0;
            shows_report(
                share(size.width as int, size.height as int, 80, 60, 80, 12),
                batch_title(verified, total),
                outcome_tone(verified as usize, total as usize),
                batch_rows(*result, total),
                scroll as int,
                one_pill("Esc close"@, Tone::Green),
                r@,
            )
        }),
{
    let popup = share_rect(size.width, size.height, 80, 60, 80, 12);
    let counts = count_albums(&result.albums);
    let total: usize = result.albums.len();
    let title = cat5(
        " AccurateRip Batch — ",
        dec_len(counts.0).as_str(),
        "/",
        dec_len(total).as_str(),
        " albums verified ",
    );
    let mut rows = batch_heading_lines(result, counts);
    for i in 0..result.albums.len()
        invariant
            rows@ == batch_rows(*result, i as nat),
    {
        rows.append(album_pair_lines(&result.albums[i]));
    }
    let footer = one_pill_line("Esc close", Tone::Green);
    draw_report(popup, title.as_str(), outcome_tone(counts.0, total), &rows, scroll, footer)
}

/// How a track compares with the CUETools database.
#[derive(Debug)]
pub enum CtdbTrackStatus {
    Verified,
    /// Equal up to what the parity data corrects, though the checksum differs.
    VerifiedRs,
    Mismatch,
    NoDiscInDatabase,
    Error(String),
}

/// One track of a CUETools check.
#[derive(Debug)]
pub struct CtdbTrackResult {
    pub path: String,
    pub track_number: u32,
    pub status: CtdbTrackStatus,
    pub confidence: Option<u32>,
    pub computed_crc32: u32,
    pub has_parity: bool,
}

/// A CUETools check of one disc.
#[derive(Debug)]
pub struct CtdbVerifyResult {
    pub tracks: Vec<CtdbTrackResult>,
    /// The outcome in words.
    pub summary: String,
}

/// One disc of the dialog.
#[derive(Debug)]
pub struct CtdbVerifyPage {
    pub label: String,
    pub result: CtdbVerifyResult,
}

/// The state of the CUETools dialog.
#[derive(Debug)]
pub struct CtdbVerifyState {
    pub pages: Vec<CtdbVerifyPage>,
    pub active_page: usize,
    pub scroll: usize,
}

/// How many of the first `n` tracks are verified, either way.
pub open spec fn ctdb_verified(tracks: Seq<CtdbTrackResult>, n: nat) -> nat
    decreases n,
{
    if n == 0 || n > tracks.len() {
        0
    } else {
        ctdb_verified(tracks, (n - 1) as nat) + if tracks[n - 1].status is Verified
            || tracks[n - 1].status is VerifiedRs {
            1nat
        } else {
            0
        }
    }
}

fn count_ctdb_verified(tracks: &Vec<CtdbTrackResult>) -> (r: usize)
    ensures
        r == ctdb_verified(tracks@, tracks@.len()),
        r <= tracks@.len(),
{
    let mut verified: usize = 0;
    for i in 0..tracks.len()
        invariant
            verified == ctdb_verified(tracks@, i as nat),
            verified <= i,
    {
        if matches!(tracks[i].status, CtdbTrackStatus::Verified | CtdbTrackStatus::VerifiedRs) {
            verified = verified + 1;
        }
    }
    verified
}

/// The tracks of the first `n` discs, and how many of them are verified.
pub open spec fn ctdb_totals(pages: Seq<CtdbVerifyPage>, n: nat) -> (int, int)
    decreases n,
{
    if n == 0 || n > pages.len() {
        (0, 0)
    } else {
        let (total, verified) = ctdb_totals(pages, (n - 1) as nat);
        let tracks = pages[n - 1].result.tracks@;
        (
            plus(total, tracks.len() as int),
            plus(verified, ctdb_verified(tracks, tracks.len()) as int),
        )
    }
}

fn count_ctdb_totals(pages: &Vec<CtdbVerifyPage>) -> (r: (usize, usize))
    ensures
        r.0 == ctdb_totals(pages@, pages@.len()).0,
        r.1 == ctdb_totals(pages@, pages@.len()).1,
{
    let mut total: usize = 0;
    let mut verified: usize = 0;
    for i in 0..pages.len()
        invariant
            total == ctdb_totals(pages@, i as nat).0,
            verified == ctdb_totals(pages@, i as nat).1,
    {
        let tracks = &pages[i].result.tracks;
        total = total.saturating_add(tracks.len());
        verified = verified.saturating_add(count_ctdb_verified(tracks));
    }
    (total, verified)
}

/// The row of the first `n` discs.
pub open spec fn ctdb_disc_row(state: CtdbVerifyState, n: nat) -> LineV
    decreases n,
{
    if n == 0 || n > state.pages@.len() {
        seq![sp("  "@, plain())]
    } else {
        ctdb_disc_row(state, (n - 1) as nat) + disc_pill(
            state.pages@[n - 1].label@,
            n - 1,
            n - 1 == state.active_page,
        )
    }
}

fn ctdb_disc_line(state: &CtdbVerifyState) -> (r: Line)
    ensures
        r@ == ctdb_disc_row(*state, state.pages@.len()),
{
    let mut line = line1("  ", plain());
    for i in 0..state.pages.len()
        invariant
            line@ == ctdb_disc_row(*state, i as nat),
            i <= state.pages@.len(),
    {
        line.append(disc_pill_line(state.pages[i].label.as_str(), i, i == state.active_page));
    }
    line
}

/// How sure a track is.
pub open spec fn confidence_text(confidence: Option<u32>) -> Seq<char> {
    match confidence {
        Some(c) => decimal(c as nat),
        None => decimal(0),
    }
}

fn confidence_str(confidence: Option<u32>) -> (r: String)
    ensures
        r@ == confidence_text(confidence),
{
    match confidence {
        Some(c) => dec(c as u64),
        None => dec(0),
    }
}

/// The mark of a track, its colour and the detail.
pub open spec fn ctdb_mark(track: CtdbTrackResult) -> (Seq<char>, Tone, Seq<char>) {
    match track.status {
        CtdbTrackStatus::Verified => (
            " ✓ "@,
            Tone::Green,
            "CTDB confidence "@ + confidence_text(track.confidence) + if track.has_parity {
                " [parity]"@
            } else {
                ""@
            },
        ),
        CtdbTrackStatus::VerifiedRs => (
            " ✓ "@,
            Tone::Green,
            "CTDB RS-verified, confidence "@ + confidence_text(track.confidence)
                + " (CRC differs: "@ + hex_digits(track.computed_crc32 as nat, 8) + ")"@,
        ),
        CtdbTrackStatus::Mismatch => (
            " ✗ "@,
            Tone::Red,
            "CRC mismatch (computed "@ + hex_digits(track.computed_crc32 as nat, 8) + ")"@
                + if track.has_parity {
                " [repair available]"@
            } else {
                ""@
            },
        ),
        CtdbTrackStatus::NoDiscInDatabase => (" ? "@, Tone::Amber, "disc not in database"@),
        CtdbTrackStatus::Error(e) => (" ! "@, Tone::Red, "error: "@ + e@),
    }
}

/// One track, in two rows.
pub open spec fn ctdb_pair(track: CtdbTrackResult) -> RowsV {
    let (icon, tone, detail) = ctdb_mark(track);
    result_pair(icon, tone, track_label(track.track_number as nat, track.path@), detail)
}

fn ctdb_pair_lines(track: &CtdbTrackResult) -> (r: Rows)
    ensures
        r@ == ctdb_pair(*track),
{
    let confidence = confidence_str(track.confidence);
    let crc = hex(track.computed_crc32, 8);
    let (icon, tone, detail) = match &track.status {
        CtdbTrackStatus::Verified => {
            let parity = if track.has_parity {
                " [parity]"
            } else {
                ""
            };
            (" ✓ ", Tone::Green, cat3("CTDB confidence ", confidence.as_str(), parity))
        },
        CtdbTrackStatus::VerifiedRs => {
            let detail = cat5(
                "CTDB RS-verified, confidence ",
                confidence.as_str(),
                " (CRC differs: ",
                crc.as_str(),
                ")",
            );
            (" ✓ ", Tone::Green, detail)
        },
        CtdbTrackStatus::Mismatch => {
            let parity = if track.has_parity {
                " [repair available]"
            } else {
                ""
            };
            (" ✗ ", Tone::Red, cat4("CRC mismatch (computed ", crc.as_str(), ")", parity))
        },
        CtdbTrackStatus::NoDiscInDatabase => (" ? ", Tone::Amber, owned("disc not in database")),
        CtdbTrackStatus::Error(e) => (" ! ", Tone::Red, cat2("error: ", e.as_str())),
    };
    let label = track_label_text(track.track_number, track.path.as_str());
    result_pair_lines(icon, tone, label.as_str(), detail.as_str())
}

/// What stands above the tracks.
pub open spec fn ctdb_heading(state: CtdbVerifyState) -> RowsV {
    let discs = if state.pages@.len() > 1 {
        seq![ctdb_disc_row(state, state.pages@.len()), Seq::empty()]
    } else {
        Seq::empty()
    };
    discs + seq![
        seq![
            sp("  "@, plain()),
            sp(state.pages@[state.active_page as int].result.summary@, bold_fg(Tone::TextBright)),
        ],
        Seq::empty(),
    ]
}

fn ctdb_heading_lines(state: &CtdbVerifyState) -> (r: Rows)
    requires
        state.active_page < state.pages@.len(),
    ensures
        r@ == ctdb_heading(*state),
{
    let result = &state.pages[state.active_page].result;
    let mut rows = Rows::new();
    if state.pages.len() > 1 {
        rows.push(ctdb_disc_line(state));
        rows.push(Line::new());
    }
    rows.push(line2("  ", plain(), result.summary.as_str(), bold_fg(Tone::TextBright)));
    rows.push(Line::new());
    proof {
        assert(rows@ =~~= ctdb_heading(*state));
    }
    rows
}

/// The heading and the first `n` tracks of the disc that is shown.
pub open spec fn ctdb_rows(state: CtdbVerifyState, n: nat) -> RowsV
    decreases n,
{
    let tracks = state.pages@[state.active_page as int].result.tracks@;
    if n == 0 || n > tracks.len() {
        ctdb_heading(state)
    } else {
        ctdb_rows(state, (n - 1) as nat) + ctdb_pair(tracks[n - 1])
    }
}

fn ctdb_lines(state: &CtdbVerifyState) -> (r: Rows)
    requires
        state.active_page < state.pages@.len(),
    ensures
        r@ == ctdb_rows(*state, state.pages@[state.active_page as int].result.tracks@.len()),
{
    let mut rows = ctdb_heading_lines(state);
    let tracks = &state.pages[state.active_page].result.tracks;
    for i in 0..tracks.len()
        invariant
            state.active_page < state.pages@.len(),
            *tracks == state.pages@[state.active_page as int].result.tracks,
            rows@ == ctdb_rows(*state, i as nat),
    {
        rows.append(ctdb_pair_lines(&tracks[i]));
    }
    rows
}

/// Whether a repair is possible: some track differs, and parity data is there.
pub open spec fn ctdb_repairable(tracks: Seq<CtdbTrackResult>) -> bool {
    &&& exists|i: int| 0 <= i < tracks.len() && (#[trigger] tracks[i]).status is Mismatch
    &&& exists|i: int| 0 <= i < tracks.len() && (#[trigger] tracks[i]).has_parity
}

fn can_repair(tracks: &Vec<CtdbTrackResult>) -> (r: bool)
    ensures
        r == ctdb_repairable(tracks@),
{
    let mut mismatch = false;
    let mut parity = false;
    for i in 0..tracks.len()
        invariant
            mismatch == exists|j: int|
                0 <= j < i && (#[trigger] tracks@[j]).status is Mismatch,
            parity == exists|j: int| 0 <= j < i && (#[trigger] tracks@[j]).has_parity,
    {
        if matches!(tracks[i].status, CtdbTrackStatus::Mismatch) {
            mismatch = true;
            assert(tracks@[i as int].status is Mismatch);
        }
        if tracks[i].has_parity {
            parity = true;
            assert(tracks@[i as int].has_parity);
        }
    }
    mismatch && parity
}

/// The key hints: the repair where it is possible.
pub open spec fn ctdb_footer(tracks: Seq<CtdbTrackResult>) -> LineV {
    one_pill("Esc close"@, Tone::Green) + pill_if(
        ctdb_repairable(tracks),
        sp("  "@, plain()),
        ":ctdb-repair"@,
        Tone::Amber,
    )
}

fn ctdb_footer_line(tracks: &Vec<CtdbTrackResult>) -> (r: Line)
    ensures
        r@ == ctdb_footer(tracks@),
{
    let mut line = one_pill_line("Esc close", Tone::Green);
    if can_repair(tracks) {
        line.put("  ", plain());
        line.push(footer_pill(":ctdb-repair", Tone::Amber));
    }
    proof {
        assert(line@ =~= ctdb_footer(tracks@));
    }
    line
}

/// How the tracks of a disc compare with the CUETools database.
pub fn draw_ctdb_verify(size: Rect, state: &CtdbVerifyState) -> (r: Scene)
    requires
        state.active_page < state.pages@.len(),
    ensures
        ({
            let tracks = state.pages@[state.active_page as int].result.tracks@;
            shows_results(
                tracks.len() > 0,
                share(size.width as int, size.height as int, 70, 50, 70, 10),
                check_title(
                    " CUETools DB — "@,
                    " CUETools DB Verification — "@,
                    state.pages@.len(),
                    ctdb_totals(state.pages@, state.pages@.len()),
                    tracks.len(),
                ),
                outcome_tone(ctdb_verified(tracks, tracks.len()) as usize, tracks.len() as usize),
                ctdb_rows(*state, tracks.len()),
                state.scroll as int,
                ctdb_footer(tracks),
                r@,
            )
        }),
{
    let popup = share_rect(size.width, size.height, 70, 50, 70, 10);
    let tracks = &state.pages[state.active_page].result.tracks;
    let tone = outcome_tone(count_ctdb_verified(tracks), tracks.len());
    let totals = count_ctdb_totals(&state.pages);
    let title = check_title_text(
        " CUETools DB — ",
        " CUETools DB Verification — ",
        state.pages.len(),
        totals,
        tracks.len(),
    );
    let rows = ctdb_lines(state);
    let footer = ctdb_footer_line(tracks);
    draw_results(tracks.len() > 0, popup, title.as_str(), tone, &rows, state.scroll, footer)
}

} // verus!
