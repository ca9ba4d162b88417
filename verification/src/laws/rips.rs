//! Checks of ripped discs against databases: summaries count the tracks and albums.

use crate::laws::reports::{how_many, lemma_split};
use crate::path::name_or_path;
use crate::rip_checks::{
    album_counts, album_detail, album_pair, ar_disc_row, ar_footer, ar_heading, ar_pair,
    ar_rows, ar_totals, ar_verified, batch_heading, batch_rows, check_title, ctdb_disc_row,
    ctdb_footer, ctdb_heading, ctdb_pair, ctdb_rows, ctdb_totals, ctdb_verified,
    disc_pill, ArBatchAlbum, ArBatchResult, ArTrackResult, ArTrackStatus, ArVerifyPage,
    ArVerifyResult, ArVerifyState, CtdbTrackResult, CtdbTrackStatus, CtdbVerifyPage,
    CtdbVerifyState,
};
use crate::text::{decimal, hex_digits, signed, zero_filled};
use vstd::prelude::*;

verus! {

proof fn lemma_ar_verified(tracks: Seq<ArTrackResult>, n: nat)
    requires
        n <= tracks.len(),
    ensures
        ar_verified(tracks, n) == how_many(
            tracks.take(n as int),
            |t: ArTrackResult| t.status is Verified,
        ),
    decreases n,
{
    reveal(Seq::filter);
    if n > 0 {
        lemma_ar_verified(tracks, (n - 1) as nat);
        assert(tracks.take(n as int).drop_last() =~= tracks.take(n - 1));
        assert(tracks.take(n as int).last() == tracks[n - 1]);
    } else {
        assert(tracks.take(0) =~= Seq::empty());
    }
}

proof fn lemma_ctdb_verified(tracks: Seq<CtdbTrackResult>, n: nat)
    requires
        n <= tracks.len(),
    ensures
        ctdb_verified(tracks, n) == how_many(
            tracks.take(n as int),
            |t: CtdbTrackResult| t.status is Verified || t.status is VerifiedRs,
        ),
    decreases n,
{
    reveal(Seq::filter);
    if n > 0 {
        lemma_ctdb_verified(tracks, (n - 1) as nat);
        assert(tracks.take(n as int).drop_last() =~= tracks.take(n - 1));
        assert(tracks.take(n as int).last() == tracks[n - 1]);
    } else {
        assert(tracks.take(0) =~= Seq::empty());
    }
}

/// The tracks of the first `n` discs.
pub open spec fn ar_tracks(pages: Seq<ArVerifyPage>, n: nat) -> int
    decreases n,
{
    if n == 0 {
        0
    } else {
        ar_tracks(pages, (n - 1) as nat) + pages[n - 1].result.tracks@.len()
    }
}

/// The tracks of the first `n` discs that are as the database has them.
pub open spec fn ar_good(pages: Seq<ArVerifyPage>, n: nat) -> int
    decreases n,
{
    if n == 0 {
        0
    } else {
        ar_good(pages, (n - 1) as nat) + how_many(
            pages[n - 1].result.tracks@,
            |t: ArTrackResult| t.status is Verified,
        )
    }
}

/// The title of several discs counts all their tracks and those verified, as long as the numbers
/// fit in a word.
pub proof fn ar_title_counts_all_discs(pages: Seq<ArVerifyPage>, n: nat)
    requires
        n <= pages.len(),
        ar_tracks(pages, n) <= usize::MAX,
    ensures
        ar_totals(pages, n) == (ar_tracks(pages, n), ar_good(pages, n)),
        0 <= ar_good(pages, n) <= ar_tracks(pages, n),
    decreases n,
{
    if n > 0 {
        ar_title_counts_all_discs(pages, (n - 1) as nat);
        let tracks = pages[n - 1].result.tracks@;
        let test = |t: ArTrackResult| t.status is Verified;
        let other = |t: ArTrackResult| !(t.status is Verified);
        lemma_ar_verified(tracks, tracks.len());
        lemma_split(tracks, test, other);
        assert(tracks.take(tracks.len() as int) =~= tracks);
    }
}

/// The tracks of the first `n` discs.
pub open spec fn ctdb_tracks(pages: Seq<CtdbVerifyPage>, n: nat) -> int
    decreases n,
{
    if n == 0 {
        0
    } else {
        ctdb_tracks(pages, (n - 1) as nat) + pages[n - 1].result.tracks@.len()
    }
}

/// The tracks of the first `n` discs that are as the database has them, at once or after
/// correction.
pub open spec fn ctdb_good(pages: Seq<CtdbVerifyPage>, n: nat) -> int
    decreases n,
{
    if n == 0 {
        0
    } else {
        ctdb_good(pages, (n - 1) as nat) + how_many(
            pages[n - 1].result.tracks@,
            |t: CtdbTrackResult| t.status is Verified || t.status is VerifiedRs,
        )
    }
}

/// The title of several discs counts all their tracks and those verified, as long as the numbers
/// fit in a word.
pub proof fn ctdb_title_counts_all_discs(pages: Seq<CtdbVerifyPage>, n: nat)
    requires
        n <= pages.len(),
        ctdb_tracks(pages, n) <= usize::MAX,
    ensures
        ctdb_totals(pages, n) == (ctdb_tracks(pages, n), ctdb_good(pages, n)),
        0 <= ctdb_good(pages, n) <= ctdb_tracks(pages, n),
    decreases n,
{
    if n > 0 {
        ctdb_title_counts_all_discs(pages, (n - 1) as nat);
        let tracks = pages[n - 1].result.tracks@;
        let test = |t: CtdbTrackResult| t.status is Verified || t.status is VerifiedRs;
        let other = |t: CtdbTrackResult| !(t.status is Verified || t.status is VerifiedRs);
        lemma_ctdb_verified(tracks, tracks.len());
        lemma_split(tracks, test, other);
        assert(tracks.take(tracks.len() as int) =~= tracks);
    }
}

/// The title says how many discs there are and how many of their tracks are verified; of a single
/// disc, how many tracks it has.
pub proof fn title_gives_the_counts(
    many: Seq<char>,
    single: Seq<char>,
    discs: nat,
    total: nat,
    verified: nat,
    tracks: nat,
)
    ensures
        discs > 1 ==> check_title(many, single, discs, (total as int, verified as int), tracks)
            == many + decimal(discs) + " discs, "@ + decimal(verified) + "/"@ + decimal(total)
            + " verified "@,
        discs <= 1 ==> check_title(many, single, discs, (total as int, verified as int), tracks)
            == single + decimal(tracks) + " tracks "@,
{
}

proof fn lemma_ar_rows(state: ArVerifyState, n: nat)
    requires
        state.active_page < state.pages@.len(),
        n <= state.pages@[state.active_page as int].result.tracks@.len(),
    ensures
        ({
            let tracks = state.pages@[state.active_page as int].result.tracks@;
            let head = ar_heading(state).len();
            let rows = ar_rows(state, n);
            &&& rows.len() == head + 2 * n
            &&& forall|k: int| 0 <= k < head ==> #[trigger] rows[k] == ar_heading(state)[k]
            &&& forall|i: int|
                0 <= i < n ==> #[trigger] rows[head + 2 * i] == ar_pair(tracks[i])[0]
                    && rows[head + 2 * i + 1] == ar_pair(tracks[i])[1]
        }),
    decreases n,
{
    if n > 0 {
        lemma_ar_rows(state, (n - 1) as nat);
        let tracks = state.pages@[state.active_page as int].result.tracks@;
        let head = ar_heading(state).len();
        let front = ar_rows(state, (n - 1) as nat);
        let rows = ar_rows(state, n);
        assert(forall|k: int| 0 <= k < front.len() ==> #[trigger] rows[k] == front[k]);
        assert forall|i: int| 0 <= i < n implies #[trigger] rows[head + 2 * i] == ar_pair(
            tracks[i],
        )[0] && rows[head + 2 * i + 1] == ar_pair(tracks[i])[1] by {
            if i < n - 1 {
                assert(rows[head + 2 * i] == front[head + 2 * i]);
                assert(rows[head + 2 * i + 1] == front[head + 2 * i + 1]);
            }
        }
    }
}

/// Each track of the disc on show has two rows, in the order of the tracks: a mark that a track
/// has exactly where it is verified, its number and name, and what was found.
pub proof fn every_track_shows_its_own_check(state: ArVerifyState, i: int)
    requires
        state.active_page < state.pages@.len(),
        0 <= i < state.pages@[state.active_page as int].result.tracks@.len(),
    ensures
        ({
            let result = state.pages@[state.active_page as int].result;
            let tracks = result.tracks@;
            let track = tracks[i];
            let rows = ar_rows(state, tracks.len());
            let head = if state.pages@.len() > 1 { 5int } else { 3 };
            let first = rows[head + 2 * i];
            let second = rows[head + 2 * i + 1];
            &&& rows.len() == head + 2 * tracks.len()
            &&& rows[head - 3][1].text == result.summary@
            &&& rows[head - 2][1].text == result.disc_id_str@
            &&& (first[0].text == " ✓ "@ <==> track.status is Verified)
            &&& first[1].text == zero_filled(track.track_number as nat, 2) + " - "@ + name_or_path(
                track.path@,
            )
            &&& (track.status is Verified && track.confidence is Some && track.offset is Some
                ==> second[1].text == "AR confidence "@ + decimal(track.confidence->0 as nat)
                + " (offset "@ + signed(track.offset->0 as int) + ")"@)
            &&& (track.status is Mismatch ==> second[1].text == "CRC mismatch"@)
            &&& (track.status is NoDiscInDatabase ==> second[1].text == "disc not in database"@)
            &&& (track.status matches ArTrackStatus::Error(e) ==> second[1].text == "error: "@
                + e@)
        }),
{
    let tracks = state.pages@[state.active_page as int].result.tracks@;
    lemma_ar_rows(state, tracks.len());
    reveal_strlit(" ✓ ");
    reveal_strlit(" ✗ ");
    reveal_strlit(" ? ");
    reveal_strlit(" ! ");
    assert(" ✓ "@[1] == '✓');
    assert(" ✗ "@[1] == '✗');
    assert(" ? "@[1] == '?');
    assert(" ! "@[1] == '!');
}

/// A full scan is offered only where a common scan left a mismatch, a correction exactly where
/// all tracks agree on an offset.
pub proof fn offers_follow_from_the_result(result: ArVerifyResult)
    ensures
        ({
            let mismatch = exists|i: int|
                0 <= i < result.tracks@.len() && (#[trigger] result.tracks@[i]).status is Mismatch;
            let n = 1 + (if result.was_common_scan && mismatch { 2int } else { 0 }) + (
            if result.has_uniform_offset { 2int } else { 0 });
            &&& ar_footer(result).len() == n
            &&& (result.was_common_scan && mismatch ==> ar_footer(result)[2].text == " "@
                + ":ar! full scan"@ + " "@)
            &&& (result.has_uniform_offset ==> ar_footer(result)[n - 1].text == " "@
                + ":ar-fix correct offset"@ + " "@)
        }),
{
}

proof fn lemma_ctdb_rows(state: CtdbVerifyState, n: nat)
    requires
        state.active_page < state.pages@.len(),
        n <= state.pages@[state.active_page as int].result.tracks@.len(),
    ensures
        ({
            let tracks = state.pages@[state.active_page as int].result.tracks@;
            let head = ctdb_heading(state).len();
            let rows = ctdb_rows(state, n);
            &&& rows.len() == head + 2 * n
            &&& forall|k: int| 0 <= k < head ==> #[trigger] rows[k] == ctdb_heading(state)[k]
            &&& forall|i: int|
                0 <= i < n ==> #[trigger] rows[head + 2 * i] == ctdb_pair(tracks[i])[0]
                    && rows[head + 2 * i + 1] == ctdb_pair(tracks[i])[1]
        }),
    decreases n,
{
    if n > 0 {
        lemma_ctdb_rows(state, (n - 1) as nat);
        let tracks = state.pages@[state.active_page as int].result.tracks@;
        let head = ctdb_heading(state).len();
        let front = ctdb_rows(state, (n - 1) as nat);
        let rows = ctdb_rows(state, n);
        assert(forall|k: int| 0 <= k < front.len() ==> #[trigger] rows[k] == front[k]);
        assert forall|i: int| 0 <= i < n implies #[trigger] rows[head + 2 * i] == ctdb_pair(
            tracks[i],
        )[0] && rows[head + 2 * i + 1] == ctdb_pair(tracks[i])[1] by {
            if i < n - 1 {
                assert(rows[head + 2 * i] == front[head + 2 * i]);
                assert(rows[head + 2 * i + 1] == front[head + 2 * i + 1]);
            }
        }
    }
}

/// Each track of the disc on show has two rows, in the order of the tracks: a mark that a track
/// has exactly where it is verified, at once or after correction, its number and name, and what
/// was found; a repair is spoken of only where parity data is there.
pub proof fn every_track_shows_its_own_ctdb_check(state: CtdbVerifyState, i: int)
    requires
        state.active_page < state.pages@.len(),
        0 <= i < state.pages@[state.active_page as int].result.tracks@.len(),
    ensures
        ({
            let result = state.pages@[state.active_page as int].result;
            let tracks = result.tracks@;
            let track = tracks[i];
            let rows = ctdb_rows(state, tracks.len());
            let head = if state.pages@.len() > 1 { 4int } else { 2 };
            let first = rows[head + 2 * i];
            let second = rows[head + 2 * i + 1];
            &&& rows.len() == head + 2 * tracks.len()
            &&& rows[head - 2][1].text == result.summary@
            &&& (first[0].text == " ✓ "@ <==> track.status is Verified
                || track.status is VerifiedRs)
            &&& first[1].text == zero_filled(track.track_number as nat, 2) + " - "@ + name_or_path(
                track.path@,
            )
            &&& (track.status is Verified && track.confidence is Some ==> second[1].text
                == "CTDB confidence "@ + decimal(track.confidence->0 as nat)
                + if track.has_parity { " [parity]"@ } else { ""@ })
            &&& (track.status is VerifiedRs && track.confidence is Some ==> second[1].text
                == "CTDB RS-verified, confidence "@ + decimal(track.confidence->0 as nat)
                + " (CRC differs: "@ + hex_digits(track.computed_crc32 as nat, 8) + ")"@)
            &&& (track.status is Mismatch ==> second[1].text == "CRC mismatch (computed "@
                + hex_digits(track.computed_crc32 as nat, 8) + ")"@ + if track.has_parity {
                " [repair available]"@
            } else {
                ""@
            })
            &&& (track.status is NoDiscInDatabase ==> second[1].text == "disc not in database"@)
            &&& (track.status matches CtdbTrackStatus::Error(e) ==> second[1].text == "error: "@
                + e@)
        }),
{
    let tracks = state.pages@[state.active_page as int].result.tracks@;
    lemma_ctdb_rows(state, tracks.len());
    reveal_strlit(" ✓ ");
    reveal_strlit(" ✗ ");
    reveal_strlit(" ? ");
    reveal_strlit(" ! ");
    assert(" ✓ "@[1] == '✓');
    assert(" ✗ "@[1] == '✗');
    assert(" ? "@[1] == '?');
    assert(" ! "@[1] == '!');
}

/// A repair is offered exactly where some track differs and some track has parity data.
pub proof fn repair_needs_damage_and_parity(tracks: Seq<CtdbTrackResult>)
    ensures
        ctdb_footer(tracks).len() == if (exists|i: int|
            0 <= i < tracks.len() && (#[trigger] tracks[i]).status is Mismatch) && (exists|i: int|
            0 <= i < tracks.len() && (#[trigger] tracks[i]).has_parity) {
            3nat
        } else {
            1
        },
{
}

/// Every track of the album is verified, and it has one.
pub open spec fn fully_verified(album: ArBatchAlbum) -> bool {
    !album.not_in_db && album.total_tracks > 0 && album.verified == album.total_tracks
}

proof fn lemma_albums(albums: Seq<ArBatchAlbum>, n: nat)
    requires
        n <= albums.len(),
    ensures
        album_counts(albums, n).0 == how_many(
            albums.take(n as int),
            |a: ArBatchAlbum| fully_verified(a),
        ),
        album_counts(albums, n).1 == how_many(albums.take(n as int), |a: ArBatchAlbum| a.not_in_db),
        album_counts(albums, n).2 == how_many(
            albums.take(n as int),
            |a: ArBatchAlbum| !a.not_in_db && a.mismatched > 0,
        ),
    decreases n,
{
    reveal(Seq::filter);
    if n > 0 {
        lemma_albums(albums, (n - 1) as nat);
        assert(albums.take(n as int).drop_last() =~= albums.take(n - 1));
        assert(albums.take(n as int).last() == albums[n - 1]);
    } else {
        assert(albums.take(0) =~= Seq::empty());
    }
}

proof fn lemma_batch_rows(result: ArBatchResult, n: nat)
    requires
        n <= result.albums@.len(),
    ensures
        ({
            let head = batch_heading(result).len();
            let rows = batch_rows(result, n);
            &&& rows.len() == head + 2 * n
            &&& forall|k: int| 0 <= k < head ==> #[trigger] rows[k] == batch_heading(result)[k]
            &&& forall|i: int|
                0 <= i < n ==> #[trigger] rows[head + 2 * i] == album_pair(result.albums@[i])[0]
                    && rows[head + 2 * i + 1] == album_pair(result.albums@[i])[1]
        }),
    decreases n,
{
    if n > 0 {
        lemma_batch_rows(result, (n - 1) as nat);
        let head = batch_heading(result).len();
        let front = batch_rows(result, (n - 1) as nat);
        let rows = batch_rows(result, n);
        assert(forall|k: int| 0 <= k < front.len() ==> #[trigger] rows[k] == front[k]);
        assert forall|i: int| 0 <= i < n implies #[trigger] rows[head + 2 * i] == album_pair(
            result.albums@[i],
        )[0] && rows[head + 2 * i + 1] == album_pair(result.albums@[i])[1] by {
            if i < n - 1 {
                assert(rows[head + 2 * i] == front[head + 2 * i]);
                assert(rows[head + 2 * i + 1] == front[head + 2 * i + 1]);
            }
        }
    }
}

/// The report on many albums counts those verified, those that the database does not have and
/// those that differ.
pub proof fn batch_counts_every_album(result: ArBatchResult)
    ensures
        ({
            let albums = result.albums@;
            let rows = batch_rows(result, albums.len());
            let head = if result.report_path is Some { 3int } else { 2 };
            &&& rows.len() == head + 2 * albums.len()
            &&& rows[0][1].text == decimal(
                how_many(albums, |a: ArBatchAlbum| fully_verified(a)),
            ) + " verified, "@ + decimal(how_many(albums, |a: ArBatchAlbum| a.not_in_db))
                + " not in DB, "@ + decimal(
                how_many(albums, |a: ArBatchAlbum| !a.not_in_db && a.mismatched > 0),
            ) + " mismatch"@
            &&& (result.report_path matches Some(path) ==> rows[1][1].text == path@)
        }),
{
    lemma_albums(result.albums@, result.albums@.len());
    lemma_batch_rows(result, result.albums@.len());
    assert(result.albums@.take(result.albums@.len() as int) =~= result.albums@);
}

/// Each album has two rows: its mark and name, and its own figures, or the error in their place.
pub proof fn every_album_shows_its_own_figures(result: ArBatchResult, i: int)
    requires
        0 <= i < result.albums@.len(),
    ensures
        ({
            let rows = batch_rows(result, result.albums@.len());
            let head = if result.report_path is Some { 3int } else { 2 };
            let album = result.albums@[i];
            let first = rows[head + 2 * i];
            let second = rows[head + 2 * i + 1];
            &&& first[1].text == album.album_name@
            &&& (first[0].text == " ✓ "@ <==> album.error is None && fully_verified(album))
            &&& (album.error matches Some(e) ==> second[1].text == "error: "@ + e@)
            &&& (album.error is None && album.not_in_db ==> second[1].text
                == "disc not in database"@)
            &&& (album.error is None && !album.not_in_db ==> (decimal(album.verified as nat)
                + "/"@ + decimal(album.total_tracks as nat) + " verified"@).is_prefix_of(
                second[1].text,
            ))
            &&& (album.error is None && !album.not_in_db && album.mismatched > 0 ==> (", "@
                + decimal(album.mismatched as nat) + " mismatch"@).is_suffix_of(second[1].text))
        }),
{
    lemma_batch_rows(result, result.albums@.len());
    let album = result.albums@[i];
    reveal_strlit(" ✓ ");
    reveal_strlit(" ✗ ");
    reveal_strlit(" ? ");
    reveal_strlit(" ! ");
    reveal_strlit(" ~ ");
    assert(" ✓ "@[1] == '✓');
    assert(" ✗ "@[1] == '✗');
    assert(" ? "@[1] == '?');
    assert(" ! "@[1] == '!');
    assert(" ~ "@[1] == '~');
    if album.error is None && !album.not_in_db {
        let text = album_detail(album);
        let counts = decimal(album.verified as nat) + "/"@ + decimal(album.total_tracks as nat)
            + " verified"@;
        assert(counts =~= text.subrange(0, counts.len() as int));
        if album.mismatched > 0 {
            let tail = ", "@ + decimal(album.mismatched as nat) + " mismatch"@;
            assert(tail =~= text.subrange(text.len() - tail.len(), text.len() as int));
        }
    }
}

proof fn lemma_ar_discs(state: ArVerifyState, n: nat)
    requires
        n <= state.pages@.len(),
    ensures
        ar_disc_row(state, n).len() == 1 + 2 * n,
        forall|i: int|
            0 <= i < n ==> #[trigger] ar_disc_row(state, n)[1 + 2 * i] == disc_pill(
                state.pages@[i].label@,
                i,
                i == state.active_page,
            )[0],
    decreases n,
{
    if n > 0 {
        lemma_ar_discs(state, (n - 1) as nat);
        let front = ar_disc_row(state, (n - 1) as nat);
        let all = ar_disc_row(state, n);
        assert forall|i: int| 0 <= i < n implies #[trigger] all[1 + 2 * i] == disc_pill(
            state.pages@[i].label@,
            i,
            i == state.active_page,
        )[0] by {
            if i < n - 1 {
                assert(all[1 + 2 * i] == front[1 + 2 * i]);
            }
        }
    }
}

/// Each of several discs has its label, or its number without one, and the one in view alone
/// stands out.
pub proof fn every_ar_disc_is_named(state: ArVerifyState, i: int)
    requires
        0 <= i < state.pages@.len(),
        state.pages@.len() > 1,
        state.active_page < state.pages@.len(),
    ensures
        ({
            let spans = ar_rows(
                state,
                state.pages@[state.active_page as int].result.tracks@.len(),
            )[0];
            let label = state.pages@[i].label@;
            &&& spans[1 + 2 * i].text == " "@ + (if label.len() == 0 {
                "disc "@ + decimal((i + 1) as nat)
            } else {
                label
            }) + " "@
            &&& (spans[1 + 2 * i].style.bold <==> i == state.active_page)
        }),
{
    lemma_ar_rows(state, state.pages@[state.active_page as int].result.tracks@.len());
    lemma_ar_discs(state, state.pages@.len());
    let spans = ar_disc_row(state, state.pages@.len());
    assert(ar_heading(state)[0] == spans);
    assert(spans[1 + 2 * i] == disc_pill(state.pages@[i].label@, i, i == state.active_page)[0]);
}

proof fn lemma_ctdb_discs(state: CtdbVerifyState, n: nat)
    requires
        n <= state.pages@.len(),
    ensures
        ctdb_disc_row(state, n).len() == 1 + 2 * n,
        forall|i: int|
            0 <= i < n ==> #[trigger] ctdb_disc_row(state, n)[1 + 2 * i] == disc_pill(
                state.pages@[i].label@,
                i,
                i == state.active_page,
            )[0],
    decreases n,
{
    if n > 0 {
        lemma_ctdb_discs(state, (n - 1) as nat);
        let front = ctdb_disc_row(state, (n - 1) as nat);
        let all = ctdb_disc_row(state, n);
        assert forall|i: int| 0 <= i < n implies #[trigger] all[1 + 2 * i] == disc_pill(
            state.pages@[i].label@,
            i,
            i == state.active_page,
        )[0] by {
            if i < n - 1 {
                assert(all[1 + 2 * i] == front[1 + 2 * i]);
            }
        }
    }
}

/// Each of several discs has its label, or its number without one, and the one in view alone
/// stands out.
pub proof fn every_ctdb_disc_is_named(state: CtdbVerifyState, i: int)
    requires
        0 <= i < state.pages@.len(),
        state.pages@.len() > 1,
        state.active_page < state.pages@.len(),
    ensures
        ({
            let spans = ctdb_rows(
                state,
                state.pages@[state.active_page as int].result.tracks@.len(),
            )[0];
            let label = state.pages@[i].label@;
            &&& spans[1 + 2 * i].text == " "@ + (if label.len() == 0 {
                "disc "@ + decimal((i + 1) as nat)
            } else {
                label
            }) + " "@
            &&& (spans[1 + 2 * i].style.bold <==> i == state.active_page)
        }),
{
    lemma_ctdb_rows(state, state.pages@[state.active_page as int].result.tracks@.len());
    lemma_ctdb_discs(state, state.pages@.len());
    let spans = ctdb_disc_row(state, state.pages@.len());
    assert(ctdb_heading(state)[0] == spans);
    assert(spans[1 + 2 * i] == disc_pill(state.pages@[i].label@, i, i == state.active_page)[0]);
}

} // verus!
