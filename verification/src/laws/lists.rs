//! Renames, cue sheets and releases: every row is that of its own item.

use crate::bulk_rename::{
    held_selection, list_scroll, rename_line, rename_rows, status_mark, summary_line,
    target_columns, template_scene, with_status, BulkRenameState, OpStatus, RenameOp,
};
use crate::button_map::TuiButton;
use crate::cue_preview::{cue_line_hits, cue_lines, cue_rows, position_text, CuePreviewState};
use crate::geometry::Rect;
use crate::laws::reports::how_many;
use crate::musicbrainz::{
    fetched, mb_footer, mb_hits, mb_start, mb_track_row, release_hits, release_rows, track_pane,
    MbDetail, MbSelectState,
};
use crate::path::name_or_empty;
use crate::scene::OpV;
use crate::text::{decimal, minus};
use vstd::prelude::*;

verus! {

proof fn lemma_with_status(ops: Seq<RenameOp>, status: OpStatus, n: nat)
    requires
        n <= ops.len(),
    ensures
        with_status(ops, status, n) == how_many(
            ops.take(n as int),
            |op: RenameOp| op.status == status,
        ),
    decreases n,
{
    reveal(Seq::filter);
    if n > 0 {
        lemma_with_status(ops, status, (n - 1) as nat);
        assert(ops.take(n as int).drop_last() =~= ops.take(n - 1));
        assert(ops.take(n as int).last() == ops[n - 1]);
    } else {
        assert(ops.take(0) =~= Seq::empty());
    }
}

proof fn lemma_rest(ops: Seq<RenameOp>)
    ensures
        how_many(ops, |op: RenameOp| op.status == OpStatus::Pending) + how_many(
            ops,
            |op: RenameOp| op.status == OpStatus::Conflict,
        ) + how_many(ops, |op: RenameOp| op.status == OpStatus::Failed) + how_many(
            ops,
            |op: RenameOp| op.status == OpStatus::Skipped || op.status == OpStatus::Succeeded,
        ) == ops.len(),
    decreases ops.len(),
{
    reveal(Seq::filter);
    if ops.len() > 0 {
        lemma_rest(ops.drop_last());
    }
}

/// The summary counts the files, and those of each status by that status; the numbers add up.
pub proof fn rename_summary_counts_every_file(ops: Seq<RenameOp>)
    requires
        ops.len() <= usize::MAX,
    ensures
        ({
            let line = summary_line(ops);
            let pending = how_many(ops, |op: RenameOp| op.status == OpStatus::Pending);
            let conflicts = how_many(ops, |op: RenameOp| op.status == OpStatus::Conflict);
            let failed = how_many(ops, |op: RenameOp| op.status == OpStatus::Failed);
            let rest = how_many(
                ops,
                |op: RenameOp| op.status == OpStatus::Skipped || op.status == OpStatus::Succeeded,
            );
            let a = 3 + (if rest > 0 { 1int } else { 0 });
            let b = a + (if conflicts > 0 { 1int } else { 0 });
            let c = b + (if failed > 0 { 1int } else { 0 });
            &&& pending + conflicts + failed + rest == ops.len()
            &&& line.len() == c
            &&& line[0].text == decimal(ops.len()) + " files"@
            &&& line[2].text == decimal(pending) + " pending"@
            &&& (rest > 0 ==> line[3].text == " · "@ + decimal(rest) + " skipped"@)
            &&& (conflicts > 0 ==> (" · "@ + decimal(conflicts) + " conflict"@).is_prefix_of(
                line[a].text,
            ))
            &&& (failed > 0 ==> line[b].text == " · "@ + decimal(failed) + " failed"@)
        }),
{
    let n = ops.len();
    assert(ops.take(n as int) =~= ops);
    lemma_with_status(ops, OpStatus::Pending, n);
    lemma_with_status(ops, OpStatus::Conflict, n);
    lemma_with_status(ops, OpStatus::Failed, n);
    let pending = |op: RenameOp| op.status == OpStatus::Pending;
    let conflict = |op: RenameOp| op.status == OpStatus::Conflict;
    let failed = |op: RenameOp| op.status == OpStatus::Failed;
    lemma_same_status(ops, OpStatus::Pending, pending);
    lemma_same_status(ops, OpStatus::Conflict, conflict);
    lemma_same_status(ops, OpStatus::Failed, failed);
    lemma_rest(ops);
    let conflicts = with_status(ops, OpStatus::Conflict, n);
    if conflicts > 0 {
        let front = " · "@ + decimal(conflicts) + " conflict"@;
        let text = front + crate::overlay_parts::plural(conflicts, "s"@);
        assert(front =~= text.subrange(0, front.len() as int));
    }
}

proof fn lemma_same_status(ops: Seq<RenameOp>, status: OpStatus, test: spec_fn(RenameOp) -> bool)
    requires
        forall|op: RenameOp| #[trigger] test(op) <==> op.status == status,
    ensures
        how_many(ops, |op: RenameOp| op.status == status) == how_many(ops, test),
    decreases ops.len(),
{
    reveal(Seq::filter);
    if ops.len() > 0 {
        lemma_same_status(ops.drop_last(), status, test);
    }
}

proof fn lemma_rename_rows(state: BulkRenameState, area: Rect, n: nat)
    requires
        n <= area.height,
    ensures
        ({
            let from = list_scroll(state, area.height as int);
            let rows = rename_rows(state, area, n);
            &&& from + n <= state.ops@.len() ==> rows.len() == n
            &&& from <= state.ops@.len() < from + n ==> rows.len() == state.ops@.len() - from
            &&& forall|k: int|
                0 <= k < n && from + k < state.ops@.len() ==> 0 <= k < rows.len() && (
                #[trigger] rows[k])->Text_rows == seq![
                    rename_line(state, from + k, area.width as int),
                ] && rows[k] is Text && rows[k]->Text_area.y == crate::geometry::plus16(
                    area.y as int,
                    k,
                ) && rows[k]->Text_style == crate::bulk_rename::rename_style(
                    from + k == held_selection(state) && state.focus is List,
                )
        }),
    decreases n,
{
    if n > 0 {
        lemma_rename_rows(state, area, (n - 1) as nat);
    }
}

/// Row `k` of the renames is that of the file `k` behind the scroll position: the mark of its
/// status, its new name and the name that it has now; the row selected alone stands out, while the
/// list is in focus.
pub proof fn every_rename_is_on_its_row(state: BulkRenameState, area: Rect, k: int)
    requires
        area.wf(),
        state.wf(),
        state.ops@.len() > 0,
        0 <= k < area.height,
        list_scroll(state, area.height as int) + k < state.ops@.len(),
        list_scroll(state, area.height as int) >= 0,
    ensures
        ({
            let i = list_scroll(state, area.height as int) + k;
            let painted = rename_rows(state, area, area.height as nat)[k];
            let line = painted->Text_rows[0];
            let target = state.ops@[i].target_relative@;
            let source = name_or_empty(state.sources@[i]@);
            let room = minus(area.width as int, 7) * 3 / 5;
            &&& painted is Text
            &&& painted->Text_area.y == area.y + k
            &&& painted->Text_rows.len() == 1
            &&& (target.len() <= room ==> target.is_prefix_of(line[1].text))
            &&& (source.len() <= minus(area.width as int, 7) - room ==> source.is_prefix_of(
                line[3].text,
            ))
            &&& (state.ops@[i].status is Pending ==> ">>"@.is_prefix_of(line[0].text))
            &&& (state.ops@[i].status is Skipped ==> ".."@.is_prefix_of(line[0].text))
            &&& (state.ops@[i].status is Succeeded ==> "ok"@.is_prefix_of(line[0].text))
            &&& (state.ops@[i].status is Conflict || state.ops@[i].status is Failed
                ==> "!!"@.is_prefix_of(line[0].text))
            &&& (painted->Text_style.bold <==> state.focus is List && (i == state.selected || (i
                == state.ops@.len() - 1 && state.selected >= state.ops@.len())))
        }),
{
    lemma_rename_rows(state, area, area.height as nat);
    let i = list_scroll(state, area.height as int) + k;
    let painted = rename_rows(state, area, area.height as nat)[k];
    let line = painted->Text_rows[0];
    let target = state.ops@[i].target_relative@;
    let source = name_or_empty(state.sources@[i]@);
    let room = target_columns(area.width as int);
    assert(line == rename_line(state, i, area.width as int));
    if target.len() <= room {
        assert(target =~= line[1].text.subrange(0, target.len() as int));
    }
    if source.len() <= minus(area.width as int, 7) - room {
        assert(source =~= line[3].text.subrange(0, source.len() as int));
    }
    let mark = status_mark(state.ops@[i].status);
    assert(mark =~= line[0].text.subrange(0, mark.len() as int));
}

/// The template is shown where it is edited, and the cursor with it.
pub proof fn template_shows_its_cursor(state: BulkRenameState, area: Rect)
    requires
        area.wf(),
    ensures
        ({
            let scene = template_scene(state, area);
            let w = minus(area.width as int, 11);
            &&& scene[0]->Text_rows[0][1].text == state.template_input.window(w)
            &&& (scene.len() == 2 <==> state.focus is Template)
            &&& (state.focus is Template && area.x + 10 + state.template_input.cursor_column(w)
                <= u16::MAX ==> scene[1] == (OpV::Cursor {
                x: (area.x + 10 + state.template_input.cursor_column(w)) as u16,
                y: area.y,
            }))
        }),
{
}

/// Row `k` of a cue sheet shows a line of it under its number, lines in order, and a click there
/// goes to that line; a line that is edited shows what is written in its place.
pub proof fn every_cue_line_is_on_its_row(state: CuePreviewState, area: Rect, k: int)
    requires
        area.wf(),
        0 <= k < cue_rows(state, area.height as int).len(),
        cue_lines(state).len() <= usize::MAX,
    ensures
        ({
            let rows = cue_rows(state, area.height as int);
            let hits = cue_line_hits(state, area);
            let lines = cue_lines(state);
            let first = if state.scroll + area.height <= lines.len() {
                state.scroll as int
            } else {
                minus(lines.len() as int, area.height as int)
            };
            let i = first + k;
            let here = state.cursor == Some(i as usize);
            &&& 0 <= i < lines.len()
            &&& rows.len() == hits.len()
            &&& rows.len() <= area.height
            &&& rows.len() == area.height || rows.len() == lines.len()
            &&& (decimal((i + 1) as nat) + " "@).is_suffix_of(rows[k][0].text)
            &&& (!(here && state.edit is Some) ==> rows[k][2].text == lines[i])
            &&& (here && state.edit is Some ==> rows[k][2].text == state.edit->0.text@)
            &&& (rows[k][2].style.bold <==> here)
            &&& hits[k].0 == TuiButton::CuePreviewLine(i as usize)
            &&& hits[k].1.y == area.y + k
            &&& hits[k].1.x == area.x
            &&& hits[k].1.width == area.width
        }),
{
    let lines = cue_lines(state);
    let rows = cue_rows(state, area.height as int);
    let first = if state.scroll + area.height <= lines.len() {
        state.scroll as int
    } else {
        minus(lines.len() as int, area.height as int)
    };
    let number = decimal((first + k + 1) as nat) + " "@;
    let text = rows[k][0].text;
    assert(number =~= text.subrange(text.len() - number.len(), text.len() as int));
}

/// The position says how far the lines shown reach, of how many.
pub proof fn position_is_that_of_the_last_line(state: CuePreviewState, height: int)
    requires
        0 < height <= u16::MAX,
        0 < cue_lines(state).len() < usize::MAX - 65535,
    ensures
        ({
            let total = cue_lines(state).len();
            let end = if state.scroll + height < total { state.scroll + height } else {
                total as int
            };
            position_text(state, height) == decimal(end as nat) + "/"@ + decimal(total)
        }),
{
}

proof fn lemma_fetched(prefetch: Seq<MbDetail>, id: Seq<char>, n: nat) -> (i: int)
    requires
        n <= prefetch.len(),
    ensures
        fetched(prefetch, id, n) is None ==> forall|j: int|
            0 <= j < n ==> (#[trigger] prefetch[j]).release_id@ != id,
        fetched(prefetch, id, n) matches Some(detail) ==> 0 <= i < n && prefetch[i] == detail
            && detail.release_id@ == id && forall|j: int|
            i < j < n ==> (#[trigger] prefetch[j]).release_id@ != id,
    decreases n,
{
    if n == 0 {
        0
    } else if prefetch[n - 1].release_id@ == id {
        n - 1
    } else {
        lemma_fetched(prefetch, id, (n - 1) as nat)
    }
}

/// Row `k` of the releases is that of the release `k` behind the first shown, under its number and
/// with its title, and a click there goes to it; the release selected alone stands out.
pub proof fn every_release_is_on_its_row(state: MbSelectState, area: Rect, k: int)
    requires
        area.wf(),
        state.selected < state.releases@.len(),
        0 <= k < release_rows(state, area.height as int).len(),
    ensures
        ({
            let rows = release_rows(state, area.height as int);
            let hits = release_hits(state, area);
            &&& hits.len() == rows.len()
            &&& hits[k].0 matches TuiButton::MbSelectRow(i) && {
                let release = state.releases@[i as int];
                let title = if release.title@.len() == 0 { "(untitled)"@ } else { release.title@ };
                let year = match release.year {
                    Some(year) => year@,
                    None => "—"@,
                };
                let catalog = match (release.catalog, release.barcode) {
                    (Some(catalog), _) => catalog@,
                    (None, Some(barcode)) => barcode@,
                    (None, None) => "—"@,
                };
                &&& i < state.releases@.len()
                &&& (decimal((i + 1) as nat) + "  "@ + title + "  ·  "@ + year + "  ·  "@
                    + catalog).is_suffix_of(rows[k][0].text)
                &&& (rows[k][0].style.bold <==> i == state.selected)
                &&& (k > 0 ==> hits[k - 1].0 == TuiButton::MbSelectRow((i - 1) as usize))
            }
            &&& hits[k].1.y == area.y + k
            &&& hits[k].1.x == area.x
        }),
{
    assert(state.releases@.len() == state.releases.len());
    let rows = release_rows(state, area.height as int);
    let i = mb_start(state, area.height as int) + k;
    let release = state.releases@[i];
    let tail = decimal((i + 1) as nat) + "  "@ + crate::musicbrainz::title_or(release.title@)
        + "  ·  "@ + crate::musicbrainz::year_text(release.year) + "  ·  "@
        + crate::musicbrainz::catalog_text(release);
    let text = rows[k][0].text;
    assert(tail =~= text.subrange(text.len() - tail.len(), text.len() as int));
}

/// The tracks shown are those last fetched of the release selected, in order, and how many more
/// there are.
pub proof fn tracks_are_those_of_the_selected_release(state: MbSelectState, visible: int, k: int)
    requires
        state.selected < state.releases@.len(),
        state.releases@[state.selected as int].release_id@.len() > 0,
        exists|j: int|
            0 <= j < state.prefetch@.len() && (#[trigger] state.prefetch@[j]).release_id@
                == state.releases@[state.selected as int].release_id@,
        visible >= 1,
        0 <= k,
    ensures
        exists|i: int|
            0 <= i < state.prefetch@.len() && {
                let id = state.releases@[state.selected as int].release_id@;
                let tracks = (#[trigger] state.prefetch@[i]).tracks@;
                let rows = track_pane(state, visible);
                &&& state.prefetch@[i].release_id@ == id
                &&& forall|j: int|
                    i < j < state.prefetch@.len() ==> (#[trigger] state.prefetch@[j]).release_id@
                        != id
                &&& (k < rows.len() && k < tracks.len() && (tracks.len() <= visible || k < visible
                    - 1) ==> (". "@ + if tracks[k].title@.len() == 0 {
                    "(untitled)"@
                } else {
                    tracks[k].title@
                }).is_suffix_of(rows[k][0].text))
                &&& (0 < tracks.len() <= visible ==> rows.len() == tracks.len())
                &&& (tracks.len() > visible ==> rows.len() == visible && rows[visible - 1][0].text
                    == "  … +"@ + decimal((tracks.len() - visible + 1) as nat) + " more"@)
            },
{
    let id = state.releases@[state.selected as int].release_id@;
    let i = lemma_fetched(state.prefetch@, id, state.prefetch@.len());
    let tracks = state.prefetch@[i].tracks@;
    let rows = track_pane(state, visible);
    if k < rows.len() && k < tracks.len() && (tracks.len() <= visible || k < visible - 1) {
        assert(rows[k] == mb_track_row(tracks[k]));
        let tail = ". "@ + crate::musicbrainz::title_or(tracks[k].title@);
        let text = rows[k][0].text;
        assert(tail =~= text.subrange(text.len() - tail.len(), text.len() as int));
    }
}

/// Accepting and cancelling are clicked where they are drawn.
pub proof fn release_buttons_are_clicked_where_they_are_drawn(
    state: MbSelectState,
    chunks: Seq<Rect>,
)
    requires
        chunks.len() == 6,
        chunks[5].x + 20 <= u16::MAX,
    ensures
        ({
            let hits = mb_hits(state, chunks);
            let footer = mb_footer();
            let n = hits.len() as int;
            &&& hits[n - 2].0 == TuiButton::MbSelectAccept
            &&& footer[0].text == " [Accept] "@
            &&& hits[n - 2].1.x == chunks[5].x
            &&& hits[n - 2].1.width == footer[0].text.len()
            &&& hits[n - 1].0 == TuiButton::MbSelectCancel
            &&& footer[1].text == " [Cancel] "@
            &&& hits[n - 1].1.x == chunks[5].x + footer[0].text.len()
            &&& hits[n - 1].1.width == footer[1].text.len()
            &&& hits[n - 1].1.y == chunks[5].y && hits[n - 2].1.y == chunks[5].y
        }),
{
    reveal_strlit(" [Accept] ");
    reveal_strlit(" [Cancel] ");
}

} // verus!
