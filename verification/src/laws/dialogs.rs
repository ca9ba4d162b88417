//! Dialogs and reviews: what they list and ask.

use crate::button_map::TuiButton;
use crate::dialogs::{
    batch_entries, batch_start, candidates_from, command_scene, completion_line, confirmation_body,
    confirmation_hits, entry_body, item_rows, paragraph, status_words, CompletionState,
    ConversionItem, ConversionStatus,
};
use crate::display_width::shown_width;
use crate::geometry::Rect;
use crate::inline_edit::TextInputState;
use crate::path::{name_or_empty, parent_of};
use crate::reviews::{
    change_row, change_rows, file_heading, match_rows, page_label, page_spans, review_row,
    review_rows, CueImportChange, GnudbMatch, GnudbReviewState, GnudbRowKind,
};
use crate::scene::OpV;
use crate::text::{decimal, joined, lines_of, zero_filled};
use vstd::prelude::*;

verus! {

/// Row `k` of a batch is a file with its number, in order; the file at the cursor alone stands
/// out, and it is among those shown.
pub proof fn every_batch_file_is_on_its_row(
    paths: Seq<String>,
    cursor: int,
    scroll: int,
    rows: int,
    k: int,
) -> (start: int)
    requires
        0 <= cursor < paths.len(),
        0 <= scroll,
        0 < rows,
        0 <= k < batch_entries(paths, cursor, scroll, rows).len(),
    ensures
        ({
            let line = batch_entries(paths, cursor, scroll, rows)[k][0];
            let i = start + k;
            &&& 0 <= i < paths.len()
            &&& start <= cursor < start + batch_entries(paths, cursor, scroll, rows).len()
            &&& name_or_empty(paths[i]@).is_suffix_of(line.text)
            &&& (decimal((i + 1) as nat).len() >= 4 ==> (" "@ + decimal((i + 1) as nat)
                + "  "@).is_prefix_of(line.text))
            &&& (line.style.bold <==> i == cursor)
            &&& (start == scroll || start == cursor || start == cursor - rows + 1 || start
                == paths.len() - rows || start == 0)
        }),
{
    let start = batch_start(scroll, cursor, paths.len() as int, rows);
    let line = batch_entries(paths, cursor, scroll, rows)[k][0];
    let name = name_or_empty(paths[start + k]@);
    assert(name =~= line.text.subrange(line.text.len() - name.len(), line.text.len() as int));
    let number = " "@ + decimal((start + k + 1) as nat) + "  "@;
    if decimal((start + k + 1) as nat).len() >= 4 {
        assert(number =~= line.text.subrange(0, number.len() as int));
    }
    start
}

/// What is known of an item is on its row: its file, its directory, its size, its formats, and
/// its status.
pub proof fn item_facts_are_on_their_rows(item: ConversionItem, size: Seq<char>)
    ensures
        ({
            let rows = item_rows(item, size);
            &&& rows[0][1].text == name_or_empty(item.input_path@)
            &&& (parent_of(item.input_path@) matches Some(dir) ==> rows[1][1].text == dir)
            &&& rows[2][1].text == size
            &&& rows[3][1].text == item.input_format@
            &&& rows[4][1].text == item.output_format@
            &&& (item.status is Queued ==> rows[5][1].text == "Queued"@)
            &&& (item.status is Paused ==> rows[5][1].text == "Paused"@)
            &&& (item.status is Cancelled ==> rows[5][1].text == "Cancelled"@)
            &&& (item.status is NotConfigured ==> rows[5][1].text == "Not Configured"@)
            &&& (item.status matches ConversionStatus::Failed { error, .. } ==> rows[5][1].text
                == "Failed: "@ + error@)
            &&& (item.status matches ConversionStatus::Completed { output_path, .. }
                ==> rows[5][1].text == "Completed -> "@ + output_path@)
            &&& (item.status matches ConversionStatus::Partial {
                output_path,
                successful,
                failed,
                report_path,
            } ==> {
                &&& (successful + failed <= usize::MAX ==> rows[5][1].text == "Partial ("@
                    + decimal(successful as nat) + "/"@ + decimal((successful + failed) as nat)
                    + " ok) -> "@ + output_path@)
                &&& rows.len() == 7
                &&& rows[6][1].text == report_path@
            })
            &&& (item.status matches ConversionStatus::Processing { progress, message, phase }
                ==> (progress@ + "% - "@).is_prefix_of(rows[5][1].text) && (message matches Some(m)
                ==> rows[5][1].text == progress@ + "% - "@ + m@))
            &&& (item.status matches ConversionStatus::Failed { log_path: Some(path), .. }
                ==> rows.len() == 7 && rows[6][1].text == path@)
            &&& (item.status matches ConversionStatus::Completed { log_path: Some(path), .. }
                ==> rows.len() == 7 && rows[6][1].text == path@)
        }),
{
    let text = status_words(item.status);
    if let ConversionStatus::Processing { progress, message, phase } = item.status {
        let front = progress@ + "% - "@;
        assert(front =~= text.subrange(0, front.len() as int));
    }
}

/// A question has two answers, side by side in the middle of their row: consent is clicked on the
/// first, refusal on the second, behind the gap.
pub proof fn answers_are_clicked_where_they_are_drawn(message: Seq<char>, chunks: Seq<Rect>)
    requires
        chunks.len() == 2,
        chunks[1].wf(),
        shown_width(" Y yes "@) + shown_width(" "@) + shown_width(" N no "@) <= chunks[1].width,
    ensures
        ({
            let footer = confirmation_body(message, chunks)[1]->Text_rows[0];
            let hits = confirmation_hits(chunks[1]);
            let yes = shown_width(" Y yes "@);
            let gap = shown_width(" "@);
            let no = shown_width(" N no "@);
            let left = (chunks[1].width - (yes + gap + no)) / 2;
            &&& hits.len() == 2
            &&& footer.len() == 3
            &&& footer[0].text == " "@ + "Y yes"@ + " "@
            &&& footer[2].text == " "@ + "N no"@ + " "@
            &&& hits[0].0 == TuiButton::OverlayConfirm
            &&& hits[0].1.x == chunks[1].x + left
            &&& hits[0].1.width == yes
            &&& hits[1].0 == TuiButton::OverlayCancel
            &&& hits[1].1.x == chunks[1].x + left + yes + gap
            &&& hits[1].1.width == no
            &&& hits[0].1.y == chunks[1].y && hits[1].1.y == chunks[1].y
        }),
{
}

/// A message is shown line by line.
pub proof fn message_is_shown_line_by_line(text: Seq<char>, i: int)
    requires
        text.len() > 0,
        0 <= i < lines_of(text).len(),
    ensures
        paragraph(text).len() == lines_of(text).len(),
        paragraph(text)[i].len() == 1,
        paragraph(text)[i][0].text == lines_of(text)[i],
{
}

/// A dialog that asks for a text shows it in its field, with the cursor there.
pub proof fn asked_text_is_in_its_field(
    hint: Seq<char>,
    confirm: Seq<char>,
    input: TextInputState,
    chunks: Seq<Rect>,
)
    requires
        chunks.len() == 3,
        chunks[1].wf(),
        chunks[1].width > 0,
    ensures
        ({
            let scene = entry_body(hint, confirm, input, chunks);
            let w = chunks[1].width as int;
            &&& scene[0]->Text_rows[0][0].text == hint
            &&& (input.window(w).len() > 0 ==> scene[1]->Text_rows[0][0].text == input.window(w))
            &&& scene[1]->Text_area == chunks[1]
            &&& scene[2] == (OpV::Cursor {
                x: (chunks[1].x + input.cursor_column(w)) as u16,
                y: chunks[1].y,
            })
        }),
{
    crate::laws::editing::field_shows_the_text_around_the_cursor(input, chunks[1].width as int);
}

/// The command line is the last row: what is typed follows the colon, and the cursor is in it.
pub proof fn command_is_on_the_last_row(
    area: Rect,
    input: TextInputState,
    completion: Option<CompletionState>,
)
    requires
        area.wf(),
        area.height > 0,
        area.width > 1,
    ensures
        ({
            let scene = command_scene(area, input, completion);
            let w = area.width - 1;
            &&& scene[1]->Text_area.y == area.y + area.height - 1
            &&& scene[1]->Text_rows[0][0].text == ":"@
            &&& scene[1]->Text_rows[0][1].text == input.window(w)
            &&& scene.last() == (OpV::Cursor {
                x: (area.x + 1 + input.cursor_column(w)) as u16,
                y: (area.y + area.height - 1) as u16,
            })
            &&& (scene.len() == 5 <==> completion is Some && completion->0.candidates@.len() > 1
                && area.height >= 2)
        }),
{
    crate::laws::editing::field_shows_the_text_around_the_cursor(input, area.width - 1);
}

/// Completions are counted, and those from the one at the cursor on are shown, going round.
pub proof fn completions_start_at_the_cursor(state: CompletionState, i: int)
    requires
        state.candidates@.len() > 1,
        state.cursor < state.candidates@.len(),
        0 <= i < 6,
        i < state.candidates@.len(),
    ensures
        ({
            let n = if state.candidates@.len() < 6 { state.candidates@.len() } else { 6 };
            let shown = candidates_from(state, n);
            let line = completion_line(state);
            let at = if state.cursor + i < state.candidates@.len() {
                state.cursor + i
            } else {
                state.cursor + i - state.candidates@.len()
            };
            &&& line[0].text == "["@ + decimal((state.cursor + 1) as nat) + "/"@ + decimal(
                state.candidates@.len(),
            ) + "] "@
            &&& line[1].text == joined(shown, "  "@)
            &&& shown.len() == n
            &&& shown[i] == state.candidates@[at]@
            &&& (state.candidates@.len() > 6 ==> line[2].text == " …"@)
        }),
{
    let len = state.candidates@.len() as int;
    let sum = state.cursor + i;
    if sum < len {
        assert(sum % len == sum) by (nonlinear_arith)
            requires
                0 <= sum < len,
        ;
    } else {
        assert(sum % len == sum - len) by (nonlinear_arith)
            requires
                len <= sum < 2 * len,
        ;
    }
}

/// The row of change `i`: one for each change before it, and a heading for each file begun up to
/// it, with a blank before every heading but the first.
pub open spec fn change_place(changes: Seq<CueImportChange>, i: nat) -> int
    decreases i,
{
    if i == 0 {
        1
    } else {
        change_place(changes, (i - 1) as nat) + 1 + if changes[i - 1].filename@
            != changes[i as int].filename@ {
            2int
        } else {
            0
        }
    }
}

proof fn lemma_changes(changes: Seq<CueImportChange>, w: int, n: nat)
    requires
        0 < n <= changes.len(),
    ensures
        change_rows(changes, w, n).len() == change_place(changes, (n - 1) as nat) + 1,
        forall|i: nat|
            i < n ==> 0 < #[trigger] change_place(changes, i) < change_rows(changes, w, n).len()
                && change_rows(changes, w, n)[change_place(changes, i)] == change_row(
                changes[i as int],
                w,
            ) && (i == 0 || changes[i - 1].filename@ != changes[i as int].filename@ ==> change_rows(
                changes,
                w,
                n,
            )[change_place(changes, i) - 1] == file_heading(changes[i as int].filename@)),
    decreases n,
{
    if n > 1 {
        lemma_changes(changes, w, (n - 1) as nat);
        let front = change_rows(changes, w, (n - 1) as nat);
        let all = change_rows(changes, w, n);
        assert forall|i: nat| i < n implies 0 < #[trigger] change_place(changes, i) < all.len()
            && all[change_place(changes, i)] == change_row(changes[i as int], w) && (i == 0
            || changes[i - 1].filename@ != changes[i as int].filename@ ==> all[change_place(
            changes,
            i,
        ) - 1] == file_heading(changes[i as int].filename@)) by {
            if i < n - 1 {
                assert(all[change_place(changes, i)] == front[change_place(changes, i)]);
                assert(all[change_place(changes, i) - 1] == front[change_place(changes, i) - 1]);
            }
        }
    } else {
        reveal_with_fuel(change_rows, 2);
    }
}

/// Every change of an import is listed, under the name of its own file, with its own field, the
/// value that goes and the value that comes.
pub proof fn every_change_is_listed(changes: Seq<CueImportChange>, w: int, i: nat)
    requires
        i < changes.len(),
    ensures
        ({
            let rows = change_rows(changes, w, changes.len());
            let at = change_place(changes, i);
            let change = changes[i as int];
            &&& 0 < at < rows.len()
            &&& ("    "@ + change.field@).is_prefix_of(rows[at][0].text)
            &&& (change.old_value@.len() == 0 ==> rows[at][1].text == "(empty)"@)
            &&& (0 < change.old_value@.len() <= w / 3 ==> rows[at][1].text.len()
                == change.old_value@.len() && forall|j: int|
                0 <= j < change.old_value@.len() && change.old_value@[j] != '\n'
                    ==> #[trigger] rows[at][1].text[j] == change.old_value@[j])
            &&& (change.new_value@.len() <= w - 22 - rows[at][1].text.len() ==> rows[at][3].text.len()
                == change.new_value@.len() && forall|j: int|
                0 <= j < change.new_value@.len() && change.new_value@[j] != '\n'
                    ==> #[trigger] rows[at][3].text[j] == change.new_value@[j])
            &&& (i == 0 || changes[i - 1].filename@ != change.filename@ ==> rows[at - 1][0].text
                == "  "@ + change.filename@)
        }),
{
    lemma_changes(changes, w, changes.len());
    let rows = change_rows(changes, w, changes.len());
    let at = change_place(changes, i);
    let line = rows[at];
    let front = "    "@ + changes[i as int].field@;
    assert(line == change_row(changes[i as int], w));
    assert(front =~= line[0].text.subrange(0, front.len() as int));
}

/// Each match has its row, in order, with its category and title; the one selected alone stands
/// out.
pub proof fn every_match_is_on_its_row(matches: Seq<GnudbMatch>, selected: int, i: int)
    requires
        0 <= i < matches.len(),
    ensures
        ({
            let rows = match_rows(matches, selected);
            &&& rows.len() == matches.len()
            &&& rows[i][1].text == "["@ + matches[i].category@ + "] "@
            &&& rows[i][2].text == matches[i].title@
            &&& (rows[i][2].style.bold <==> i == selected)
            &&& (rows[i][0].text == " ► "@ <==> i == selected)
        }),
{
    reveal_strlit(" ► ");
    reveal_strlit("   ");
    assert(" ► "@[1] != "   "@[1]);
}

/// The rows above the tags of a review: the discs, where there are several, and a blank.
pub open spec fn rows_above_tags(state: GnudbReviewState) -> int {
    if state.pages@.len() > 1 {
        2
    } else {
        0
    }
}

proof fn lemma_review(state: GnudbReviewState, w: int, n: nat)
    requires
        n <= state.pages@[state.active_page as int].rows@.len(),
    ensures
        ({
            let head = rows_above_tags(state);
            let rows = review_rows(state, w, n);
            &&& rows.len() == head + n
            &&& forall|i: int|
                0 <= i < n ==> #[trigger] rows[head + i] == review_row(state, i, w)
        }),
    decreases n,
{
    if n > 0 {
        lemma_review(state, w, (n - 1) as nat);
        let head = rows_above_tags(state);
        let front = review_rows(state, w, (n - 1) as nat);
        let rows = review_rows(state, w, n);
        assert forall|i: int| 0 <= i < n implies #[trigger] rows[head + i] == review_row(
            state,
            i,
            w,
        ) by {
            if i < n - 1 {
                assert(rows[head + i] == front[head + i]);
            }
        }
    }
}

/// A review lists the tags of the page in view, each row with the value of its own album field, or
/// of its own field of its own track; while a row is edited it shows the editor instead.
pub proof fn every_tag_is_reviewed_on_its_row(state: GnudbReviewState, w: int, i: int)
    requires
        state.wf(),
        0 <= i < state.pages@[state.active_page as int].rows@.len(),
    ensures
        ({
            let page = state.pages@[state.active_page as int];
            let head = rows_above_tags(state);
            let rows = review_rows(state, w, page.rows@.len());
            let line = rows[head + i];
            let edited = state.edit_input is Some && state.cursor == i;
            &&& rows.len() == head + page.rows@.len()
            &&& (page.rows@[i] matches GnudbRowKind::AlbumField(field) ==> {
                &&& ("    "@ + field@).is_prefix_of(line[0].text)
                &&& (!edited && field@ == "Album"@ ==> line[1].text == page.album@)
                &&& (!edited && field@ == "Year"@ ==> line[1].text == page.year@)
                &&& (!edited && field@ == "Genre"@ ==> line[1].text == page.genre@)
            })
            &&& (page.rows@[i] matches GnudbRowKind::TrackField { track_idx, field } ==> {
                &&& ("    "@ + field@).is_prefix_of(line[0].text)
                &&& (!edited && field@ == "Title"@ ==> line[1].text
                    == page.tracks@[track_idx as int].title@)
                &&& (!edited && field@ == "Artist"@ ==> line[1].text
                    == page.tracks@[track_idx as int].artist@)
            })
            &&& (page.rows@[i] matches GnudbRowKind::TrackHeader { track_idx } ==> (" ── "@
                + ("Track "@ + zero_filled(
                page.tracks@[track_idx as int].track_number as nat,
                2,
            ))).is_prefix_of(line[0].text))
        }),
{
    let page = state.pages@[state.active_page as int];
    assert(page.rows@[i].in_bounds(page.tracks@.len()));
    lemma_review(state, w, page.rows@.len());
    let head = rows_above_tags(state);
    let rows = review_rows(state, w, page.rows@.len());
    let line = rows[head + i];
    assert(line == review_row(state, i, w));
    reveal_strlit("Album");
    reveal_strlit("Year");
    reveal_strlit("Genre");
    reveal_strlit("Title");
    reveal_strlit("Artist");
    assert("Album"@[0] == 'A');
    assert("Genre"@[0] == 'G');
    match page.rows@[i] {
        GnudbRowKind::AlbumField(field) => {
            let front = "    "@ + field@;
            assert(front =~= line[0].text.subrange(0, front.len() as int));
        },
        GnudbRowKind::TrackField { track_idx, field } => {
            let front = "    "@ + field@;
            assert(front =~= line[0].text.subrange(0, front.len() as int));
        },
        GnudbRowKind::TrackHeader { track_idx } => {
            let front = " ── "@ + ("Track "@ + zero_filled(
                page.tracks@[track_idx as int].track_number as nat,
                2,
            ));
            assert(front =~= line[0].text.subrange(0, front.len() as int));
        },
    }
}

proof fn lemma_pages(state: GnudbReviewState, n: nat)
    requires
        n <= state.pages@.len(),
    ensures
        page_spans(state, n).len() == 1 + 2 * n,
        forall|i: int|
            0 <= i < n ==> (#[trigger] page_spans(state, n)[1 + 2 * i]).text == " "@ + page_label(
                state.pages@[i],
                i,
            ) + " "@ && (page_spans(state, n)[1 + 2 * i].style.bold <==> i == state.active_page),
    decreases n,
{
    if n > 0 {
        lemma_pages(state, (n - 1) as nat);
        let front = page_spans(state, (n - 1) as nat);
        let all = page_spans(state, n);
        assert forall|i: int| 0 <= i < n implies (#[trigger] all[1 + 2 * i]).text == " "@
            + page_label(state.pages@[i], i) + " "@ && (all[1 + 2 * i].style.bold <==> i
            == state.active_page) by {
            if i < n - 1 {
                assert(all[1 + 2 * i] == front[1 + 2 * i]);
            }
        }
    }
}

/// Each disc of a review has its label, or its number without one, and the one in view alone
/// stands out.
pub proof fn every_disc_of_a_review_is_named(state: GnudbReviewState, i: int)
    requires
        0 <= i < state.pages@.len(),
    ensures
        ({
            let spans = page_spans(state, state.pages@.len());
            let label = state.pages@[i].label@;
            &&& spans[1 + 2 * i].text == " "@ + (if label.len() == 0 {
                "disc "@ + decimal((i + 1) as nat)
            } else {
                label
            }) + " "@
            &&& (spans[1 + 2 * i].style.bold <==> i == state.active_page)
        }),
{
    lemma_pages(state, state.pages@.len());
    assert(page_spans(state, state.pages@.len())[1 + 2 * i].text == " "@ + page_label(
        state.pages@[i],
        i,
    ) + " "@);
}

} // verus!
