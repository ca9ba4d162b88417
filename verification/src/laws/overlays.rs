//! Dialogs as a whole: each shows its own content, scrolled to where it was scrolled.

use crate::app_state::{ActiveOverlay, AppState};
use crate::bulk_rename::{rename_body, rename_rows, BulkRenameState};
use crate::button_map::Hit;
use crate::context_menu::{level_panels, menu_panel, menu_rows, MenuLevel};
use crate::cue_preview::{cue_body, cue_hits, cue_line_hits, cue_rows, CuePreviewState};
use crate::draw_overlays::{shows_overlay, shows_plain};
use crate::geometry::{inside_border, share, Rect};
use crate::metadata_editor::{detail_rows, detail_scene, MetadataEditorState, MetadataEntry};
use crate::musicbrainz::{mb_body, mb_hits, release_hits, release_rows, MbSelectState};
use crate::overlay_parts::shows_report;
use crate::reports::{analysis_rows, compare_rows, emphasis_result_rows, verify_rows};
use crate::scene::{LineV, OpV, Panel, RowsV, SceneV};
use crate::style::Tone;
use vstd::prelude::*;

verus! {

/// The scene is a box in `popup` under `title`, and line `k` of its text is the line of `rows` so
/// many behind the one scrolled to, where the rows reach that far; the footer is below it.
pub open spec fn report_in(
    scene: SceneV,
    popup: Rect,
    title: Seq<char>,
    rows: RowsV,
    scroll: int,
    k: int,
) -> bool {
    let content = inside_border(popup);
    let lines = scene[2]->Text_rows;
    &&& scene.len() == 4
    &&& scene[0] == OpV::Clear(popup)
    &&& (scene[1] matches OpV::Frame { area, title: shown, .. } && area == popup && shown.len() == 1
        && shown[0].text == title)
    &&& scene[2] is Text
    &&& scene[2]->Text_area.within(content)
    &&& scene[3] is Text
    &&& scene[3]->Text_area.within(content)
    &&& scene[2]->Text_area.y + scene[2]->Text_area.height <= scene[3]->Text_area.y
    &&& lines.len() <= scene[2]->Text_area.height
    &&& (rows.len() <= scene[2]->Text_area.height ==> lines.len() == rows.len() && (0 <= k
        < rows.len() ==> lines[k] == rows[k]))
    &&& (scroll + scene[2]->Text_area.height <= rows.len() && 0 <= k < scene[2]->Text_area.height
        ==> lines[k] == rows[scroll + k])
}

/// A report shows its rows from the one scrolled to on.
pub proof fn report_shows_its_rows(
    popup: Rect,
    title: Seq<char>,
    tone: Tone,
    rows: RowsV,
    scroll: int,
    footer: LineV,
    scene: SceneV,
    k: int,
)
    requires
        shows_report(popup, title, tone, rows, scroll, footer, scene),
        inside_border(popup).height >= 3,
        0 <= scroll,
    ensures
        report_in(scene, popup, title, rows, scroll, k),
        scene[3]->Text_rows == seq![footer],
{
    let content = inside_border(popup);
    let chunks = choose|chunks: Seq<Rect>|
        #[trigger] crate::layout::divides(
            crate::layout::Direction::Vertical,
            crate::layout::text_and_line(),
            content,
            chunks,
        ) && scene == crate::overlay_parts::popup_box(popup, title, tone)
            + crate::overlay_parts::report_body(rows, scroll, footer, chunks);
    assert(chunks.len() == 2);
    assert(chunks[0].within(content) && chunks[1].within(content));
    assert(crate::layout::before(crate::layout::Direction::Vertical, chunks[0], chunks[1]));
}

/// Each report of results shows the results that it is for, from the row scrolled to on.
pub proof fn reports_show_their_own_results(app: AppState, size: Rect, scene: SceneV, k: int)
    requires
        shows_plain(app, size, scene),
        size.height >= 14,
        size.width >= 60,
    ensures
        ({
            let w = size.width as int;
            let h = size.height as int;
            let shown = app.shown;
            &&& (app.active_overlay matches ActiveOverlay::Analysis { scroll }
                ==> shown.analysis_results@.len() > 0 ==> report_in(
                scene,
                share(w, h, 80, 50, 80, 12),
                " Analysis Results "@,
                analysis_rows(shown.analysis_results@, shown.analysis_results@.len()),
                scroll as int,
                k,
            ))
            &&& (app.active_overlay matches ActiveOverlay::Verify { scroll }
                ==> shown.verify_results@.len() > 0 ==> report_in(
                scene,
                share(w, h, 70, 40, 70, 10),
                " Verify Results "@,
                verify_rows(shown.verify_results@, shown.verify_results@.len()),
                scroll as int,
                k,
            ))
            &&& (app.active_overlay matches ActiveOverlay::BitCompare { scroll }
                ==> shown.compare_results@.len() > 0 ==> report_in(
                scene,
                share(w, h, 75, 50, 70, 10),
                " Bit Compare Results "@,
                compare_rows(shown.compare_results@, shown.compare_results@.len()),
                scroll as int,
                k,
            ))
            &&& (app.active_overlay matches ActiveOverlay::Preemphasis { scroll }
                ==> shown.preemph_results@.len() > 0 ==> report_in(
                scene,
                share(w, h, 75, 50, 70, 10),
                " Pre-emphasis Detection "@,
                emphasis_result_rows(shown.preemph_results@, shown.preemph_results@.len()),
                scroll as int,
                k,
            ))
        }),
{
    let w = size.width as int;
    let h = size.height as int;
    let shown = app.shown;
    match app.active_overlay {
        ActiveOverlay::Analysis { scroll } => if shown.analysis_results@.len() > 0 {
            report_shows_its_rows(
                share(w, h, 80, 50, 80, 12),
                " Analysis Results "@,
                Tone::Purple,
                analysis_rows(shown.analysis_results@, shown.analysis_results@.len()),
                scroll as int,
                crate::reports::analysis_footer(),
                scene,
                k,
            );
        },
        ActiveOverlay::Verify { scroll } => if shown.verify_results@.len() > 0 {
            report_shows_its_rows(
                share(w, h, 70, 40, 70, 10),
                " Verify Results "@,
                Tone::Green,
                verify_rows(shown.verify_results@, shown.verify_results@.len()),
                scroll as int,
                crate::overlay_parts::one_pill("Esc close"@, Tone::Green),
                scene,
                k,
            );
        },
        ActiveOverlay::BitCompare { scroll } => if shown.compare_results@.len() > 0 {
            report_shows_its_rows(
                share(w, h, 75, 50, 70, 10),
                " Bit Compare Results "@,
                Tone::Cyan,
                compare_rows(shown.compare_results@, shown.compare_results@.len()),
                scroll as int,
                crate::overlay_parts::one_pill("Esc close"@, Tone::Cyan),
                scene,
                k,
            );
        },
        ActiveOverlay::Preemphasis { scroll } => if shown.preemph_results@.len() > 0 {
            report_shows_its_rows(
                share(w, h, 75, 50, 70, 10),
                " Pre-emphasis Detection "@,
                Tone::Purple,
                emphasis_result_rows(shown.preemph_results@, shown.preemph_results@.len()),
                scroll as int,
                crate::overlay_parts::one_pill("Esc close"@, Tone::Purple),
                scene,
                k,
            );
        },
        _ => {},
    }
}

/// Without results a report is an empty box; a closed dialog paints nothing, and what the host
/// paints itself is handed to it over the whole screen.
pub proof fn nothing_is_shown_without_cause(app: AppState, size: Rect, scene: SceneV)
    requires
        shows_plain(app, size, scene),
    ensures
        app.active_overlay is Closed ==> scene.len() == 0,
        app.active_overlay is Analysis && app.shown.analysis_results@.len() == 0 ==> scene.len()
            == 2,
        app.active_overlay is Verify && app.shown.verify_results@.len() == 0 ==> scene.len() == 2,
        app.active_overlay is BitCompare && app.shown.compare_results@.len() == 0 ==> scene.len()
            == 2,
        app.active_overlay is Preemphasis && app.shown.preemph_results@.len() == 0 ==> scene.len()
            == 2,
        app.active_overlay is Help ==> scene == seq![
            OpV::Host { panel: Panel::Help, area: size },
        ],
        app.active_overlay is DiscBrowser ==> scene == seq![
            OpV::Host { panel: Panel::DiscBrowser, area: size },
        ],
{
}

/// Side panels that are open are on top of the dialog, and no others; dialogs without buttons of
/// their own have none.
pub proof fn side_panels_are_on_top(app: AppState, size: Rect, scene: SceneV, hits: Seq<Hit>)
    requires
        shows_overlay(app, size, scene, hits),
    ensures
        ({
            let presets = OpV::Host { panel: Panel::Presets, area: size };
            let recent = OpV::Host { panel: Panel::Recent, area: size };
            let bookmarks = OpV::Host { panel: Panel::Bookmarks, area: size };
            let n = scene.len() as int;
            &&& (app.shown.bookmarks_open ==> n > 0 && scene[n - 1] == bookmarks)
            &&& (app.shown.recent_open && !app.shown.bookmarks_open ==> n > 0 && scene[n - 1]
                == recent)
            &&& (app.shown.presets_open && !app.shown.recent_open && !app.shown.bookmarks_open
                ==> n > 0 && scene[n - 1] == presets)
        }),
        app.active_overlay is Closed ==> hits.len() == 0,
        app.active_overlay is Closed && !app.shown.presets_open && !app.shown.recent_open
            && !app.shown.bookmarks_open ==> scene.len() == 0,
{
}

proof fn lemma_levels(levels: Seq<MenuLevel>, areas: Seq<Rect>, n: nat)
    requires
        n <= levels.len(),
        forall|i: int| 0 <= i < levels.len() ==> (#[trigger] levels[i]).entries@.len() > 0,
    ensures
        level_panels(levels, areas, n).len() == 3 * n,
        forall|i: int, j: int|
            0 <= i < n && 0 <= j < 3 ==> #[trigger] level_panels(levels, areas, n)[3 * i + j]
                == menu_panel(
                levels[i].entries@,
                levels[i].selected as int,
                areas[i],
                i == levels.len() - 1,
            )[j],
    decreases n,
{
    if n > 0 {
        lemma_levels(levels, areas, (n - 1) as nat);
        assert(levels[n - 1].entries@.len() > 0);
        let front = level_panels(levels, areas, (n - 1) as nat);
        let all = level_panels(levels, areas, n);
        assert forall|i: int, j: int| 0 <= i < n && 0 <= j < 3 implies #[trigger] all[3 * i + j]
            == menu_panel(
            levels[i].entries@,
            levels[i].selected as int,
            areas[i],
            i == levels.len() - 1,
        )[j] by {
            if i < n - 1 {
                assert(all[3 * i + j] == front[3 * i + j]);
            }
        }
    }
}

/// Every open menu is in its own place with its own entries, later ones on top; the last alone has
/// the focus.
pub proof fn every_menu_is_in_its_place(levels: Seq<MenuLevel>, areas: Seq<Rect>, i: int)
    requires
        0 <= i < levels.len(),
        forall|j: int| 0 <= j < levels.len() ==> (#[trigger] levels[j]).entries@.len() > 0,
    ensures
        ({
            let scene = level_panels(levels, areas, levels.len());
            let last = i == levels.len() - 1;
            &&& scene.len() == 3 * levels.len()
            &&& scene[3 * i] == OpV::Clear(areas[i])
            &&& scene[3 * i + 1]->Frame_area == areas[i]
            &&& (scene[3 * i + 1]->Frame_border.fg == Tone::Amber <==> last)
            &&& scene[3 * i + 2]->Text_area == inside_border(areas[i])
            &&& scene[3 * i + 2]->Text_rows == menu_rows(
                levels[i].entries@,
                levels[i].selected as int,
                last,
                inside_border(areas[i]).width as int,
            )
        }),
{
    lemma_levels(levels, areas, levels.len());
    let scene = level_panels(levels, areas, levels.len());
    assert(scene[3 * i + 0] == menu_panel(
        levels[i].entries@,
        levels[i].selected as int,
        areas[i],
        i == levels.len() - 1,
    )[0]);
}

/// The values of a field over several files are scrolled to where they were scrolled.
pub proof fn values_are_scrolled(
    state: MetadataEditorState,
    entry: MetadataEntry,
    chunks: Seq<Rect>,
    k: int,
)
    requires
        chunks.len() == 2,
        0 <= k < chunks[0].height,
        state.detail_scroll + chunks[0].height <= entry.per_file_values@.len() + 2,
    ensures
        ({
            let n = entry.per_file_values@.len();
            let rows = detail_rows(state, entry, chunks[0].width as int, n);
            let painted = detail_scene(state, entry, chunks)[0];
            &&& painted->Text_area == chunks[0]
            &&& painted->Text_rows[k] == rows[state.detail_scroll + k]
        }),
{
    crate::laws::tags::detail_has_a_row_for_each_file(
        state,
        entry,
        chunks[0].width as int,
        entry.per_file_values@.len(),
    );
}

/// The lines of a cue sheet are painted where they are clicked.
pub proof fn cue_lines_are_painted_where_they_are_clicked(
    state: CuePreviewState,
    chunks: Seq<Rect>,
    k: int,
)
    requires
        chunks.len() == 4,
        0 <= k < cue_rows(state, chunks[2].height as int).len(),
    ensures
        ({
            let scene = cue_body(state, chunks);
            let hits = cue_hits(state, chunks);
            &&& scene[2]->Text_area == chunks[2]
            &&& scene[2]->Text_rows == cue_rows(state, chunks[2].height as int)
            &&& hits[k] == cue_line_hits(state, chunks[2])[k]
            &&& (state.summary@.len() > 0 ==> scene[0]->Text_rows[0][0].text == state.summary@)
        }),
{
}

/// The releases are painted where they are clicked.
pub proof fn releases_are_painted_where_they_are_clicked(
    state: MbSelectState,
    chunks: Seq<Rect>,
    k: int,
)
    requires
        chunks.len() == 6,
        0 <= k < release_rows(state, chunks[2].height as int).len(),
    ensures
        ({
            let scene = mb_body(state, chunks);
            &&& scene[2]->Text_area == chunks[2]
            &&& scene[2]->Text_rows == release_rows(state, chunks[2].height as int)
            &&& mb_hits(state, chunks)[k] == release_hits(state, chunks[2])[k]
            &&& scene.last()->Text_area == chunks[5]
        }),
{
}

/// The renames are painted in the list's part of the dialog, row by row, below the template, the
/// summary and the rule.
pub proof fn renames_are_painted_in_the_list(state: BulkRenameState, chunks: Seq<Rect>, k: int)
    requires
        chunks.len() == 7,
        state.ops@.len() > 0,
        0 <= k < rename_rows(state, chunks[5], chunks[5].height as nat).len(),
    ensures
        ({
            let scene = rename_body(state, chunks);
            let head = if state.focus is Template { 5int } else { 4 };
            &&& scene[head + k] == rename_rows(state, chunks[5], chunks[5].height as nat)[k]
            &&& scene[head - 2]->Text_rows == seq![crate::bulk_rename::summary_line(state.ops@)]
            &&& scene[head - 2]->Text_area == chunks[3]
            &&& scene[0]->Text_area == chunks[0]
            &&& scene.last()->Text_area == chunks[6]
        }),
{
}

} // verus!
