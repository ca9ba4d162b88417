//! The dialog on top of the screen, and the panels on top of that.

use crate::app_state::{ActiveOverlay, AppState, ShownState};
use crate::bulk_rename::{draw_bulk_rename, shows_rename};
use crate::button_map::{ButtonRenderMap, Hit};
use crate::context_menu::{draw_context_menu_stack, menu_stack};
use crate::cue_preview::{draw_cue_preview, shows_cue};
use crate::dialogs::{
    binary_size, command_scene, draw_batch_list, draw_command_input, draw_confirmation,
    draw_error_detail, draw_file_input, draw_item_info, draw_text_edit, item_rows, paragraph,
    shows_batch, shows_closable, shows_confirmation, shows_entry,
};
use crate::format_settings::{draw_format_settings, shows_settings};
use crate::geometry::{centered, inside_border, share, Rect};
use crate::metadata_editor::{draw_metadata_editor, shows_editor};
use crate::musicbrainz::{draw_mb_select, shows_releases};
use crate::overlay_parts::{one_pill, shows_report, shows_results, two_pills};
use crate::reports::{
    analysis_footer, analysis_rows, compare_rows, draw_analysis, draw_bit_compare, draw_preemphasis,
    draw_verify, emphasis_result_rows, verify_rows,
};
use crate::reviews::{
    change_rows, cue_review_popup, cue_review_title, draw_cue_import_review, draw_gnudb_review,
    draw_gnudb_select, match_rows, matches_title, review_footer, review_popup, review_rows,
    review_title,
};
use crate::rip_checks::{
    album_counts, ar_footer, ar_rows, ar_totals, ar_verified, batch_rows, batch_title, check_title,
    ctdb_footer, ctdb_rows, ctdb_totals, ctdb_verified, draw_accuraterip_verify, draw_ar_batch_report,
    draw_ctdb_verify, outcome_tone, ArBatchResult, ArVerifyState, CtdbVerifyState,
};
use crate::scene::{Op, OpV, Panel, Scene, SceneV};
use crate::style::{fg, plain, Tone};
use crate::text::{least, minus};
use vstd::prelude::*;

verus! {

/// The state of the dialog can be drawn: what it points at is there.
pub open spec fn drawable(overlay: ActiveOverlay) -> bool {
    match overlay {
        ActiveOverlay::CommandInput { completion, .. } => completion matches Some(state) ==> (
        state.candidates@.len() > 1 ==> state.previewable()),
        ActiveOverlay::ContextMenu { levels, areas, preview } => {
            &&& areas@.len() >= levels@.len()
            &&& forall|i: int| 0 <= i < levels@.len() ==> (#[trigger] areas@[i]).wf()
            &&& preview matches Some(next) ==> next.area.wf()
        },
        ActiveOverlay::BulkRename(state) => state.wf(),
        ActiveOverlay::GnudbReview(state) => state.wf(),
        ActiveOverlay::AccurateRipVerify(state) => state.active_page < state.pages@.len(),
        ActiveOverlay::CtdbVerify(state) => state.active_page < state.pages@.len(),
        _ => true,
    }
}

/// `scene` shows the AccurateRip check.
pub open spec fn shows_accuraterip(size: Rect, state: ArVerifyState, scene: SceneV) -> bool {
    let result = state.pages@[state.active_page as int].result;
    let tracks = result.tracks@;
    shows_results(
        tracks.len() > 0,
        share(size.width as int, size.height as int, 70, 50, 70, 10),
        check_title(
            " AccurateRip — "@,
            " AccurateRip Verification — "@,
            state.pages@.len(),
            ar_totals(state.pages@, state.pages@.len()),
            tracks.len(),
        ),
        outcome_tone(ar_verified(tracks, tracks.len()) as usize, tracks.len() as usize),
        ar_rows(state, tracks.len()),
        state.scroll as int,
        ar_footer(result),
        scene,
    )
}

/// `scene` shows the CUETools check.
pub open spec fn shows_ctdb(size: Rect, state: CtdbVerifyState, scene: SceneV) -> bool {
    let tracks = state.pages@[state.active_page as int].result.tracks@;
    shows_results(
        tracks.len() > 0,
        share(size.width as int, size.height as int, 70, 50, 70, 10),
        check_title(
            " CUETools DB — "@,
            " CUETools DB Verification — "@,
            state.pages@.len(),
            ctdb_totals(state.pages@, state.pages@.len()),
            tracks.len(),
        ),
        outcome_tone(ctdb_verified(tracks, tracks.len()) as usize, tracks.len() as usize),
        ctdb_rows(state, tracks.len()),
        state.scroll as int,
        ctdb_footer(tracks),
        scene,
    )
}

/// `scene` shows the AccurateRip batch.
pub open spec fn shows_ar_batch(size: Rect, result: ArBatchResult, scroll: int, scene: SceneV) -> bool {
    let total = result.albums@.len();
    let verified = album_counts(result.albums@, total).0;
    shows_report(
        share(size.width as int, size.height as int, 80, 60, 80, 12),
        batch_title(verified, total),
        outcome_tone(verified as usize, total as usize),
        batch_rows(result, total),
        scroll,
        one_pill("Esc close"@, Tone::Green),
        scene,
    )
}

/// `scene` is the dialog, where it has no buttons of its own.
pub open spec fn shows_plain(app: AppState, size: Rect, scene: SceneV) -> bool {
    let w = size.width as int;
    let h = size.height as int;
    match app.active_overlay {
        ActiveOverlay::ErrorDetail { error } => shows_closable(
            centered(60, 12, size),
            " Error Detail "@,
            Tone::AnsiRed,
            paragraph(error@),
            fg(Tone::AnsiRed),
            scene,
        ),
        ActiveOverlay::ItemInfo { item } => shows_closable(
            centered(70, 16, size),
            " Item Info "@,
            Tone::AnsiCyan,
            item_rows(item, binary_size(item.file_size)),
            plain(),
            scene,
        ),
        ActiveOverlay::FileInput { input } => shows_entry(
            centered(60, 7, size),
            " Add File/Folder Path "@,
            "Enter a file or folder path:"@,
            "Enter confirm"@,
            input,
            scene,
        ),
        ActiveOverlay::CommandInput { input, completion } => scene == command_scene(
            size,
            input,
            completion,
        ),
        ActiveOverlay::TextEdit { input, label } => shows_entry(
            centered(least(minus(w, 4), 80), 7, size),
            " Edit "@ + label@ + " "@,
            "Enter new "@ + label@ + ":"@,
            "Enter save"@,
            input,
            scene,
        ),
        ActiveOverlay::BatchList { scroll } => shows_batch(
            size,
            app.convert.source,
            scroll as int,
            scene,
        ),
        ActiveOverlay::ContextMenu { levels, areas, preview } => scene == menu_stack(
            levels@,
            areas@,
            preview,
        ),
        ActiveOverlay::BulkRename(state) => shows_rename(state, size, scene),
        ActiveOverlay::Analysis { scroll } => {
            let results = app.shown.analysis_results@;
            shows_results(
                results.len() > 0,
                share(w, h, 80, 50, 80, 12),
                " Analysis Results "@,
                Tone::Purple,
                analysis_rows(results, results.len()),
                scroll as int,
                analysis_footer(),
                scene,
            )
        },
        ActiveOverlay::Verify { scroll } => {
            let results = app.shown.verify_results@;
            shows_results(
                results.len() > 0,
                share(w, h, 70, 40, 70, 10),
                " Verify Results "@,
                Tone::Green,
                verify_rows(results, results.len()),
                scroll as int,
                one_pill("Esc close"@, Tone::Green),
                scene,
            )
        },
        ActiveOverlay::BitCompare { scroll } => {
            let results = app.shown.compare_results@;
            shows_results(
                results.len() > 0,
                share(w, h, 75, 50, 70, 10),
                " Bit Compare Results "@,
                Tone::Cyan,
                compare_rows(results, results.len()),
                scroll as int,
                one_pill("Esc close"@, Tone::Cyan),
                scene,
            )
        },
        ActiveOverlay::Preemphasis { scroll } => {
            let results = app.shown.preemph_results@;
            shows_results(
                results.len() > 0,
                share(w, h, 75, 50, 70, 10),
                " Pre-emphasis Detection "@,
                Tone::Purple,
                emphasis_result_rows(results, results.len()),
                scroll as int,
                one_pill("Esc close"@, Tone::Purple),
                scene,
            )
        },
        ActiveOverlay::CueImportReview { changes, scroll } => {
            let popup = cue_review_popup(size);
            shows_report(
                popup,
                cue_review_title(changes@.len()),
                Tone::Cyan,
                change_rows(changes@, inside_border(popup).width as int, changes@.len()),
                scroll as int,
                two_pills("Enter accept"@, Tone::Green, "Esc cancel"@, Tone::Purple),
                scene,
            )
        },
        ActiveOverlay::GnudbSelect { matches, selected, scroll } => shows_report(
            share(w, h, 70, 40, 60, 8),
            matches_title(matches@.len()),
            Tone::Cyan,
            match_rows(matches@, selected as int),
            scroll as int,
            two_pills("Enter select"@, Tone::Green, "Esc cancel"@, Tone::Purple),
            scene,
        ),
        ActiveOverlay::GnudbReview(state) => shows_report(
            review_popup(size),
            review_title(state),
            Tone::Cyan,
            review_rows(
                state,
                inside_border(review_popup(size)).width as int,
                state.pages@[state.active_page as int].rows@.len(),
            ),
            state.scroll as int,
            review_footer(state),
            scene,
        ),
        ActiveOverlay::AccurateRipVerify(state) => shows_accuraterip(size, state, scene),
        ActiveOverlay::CtdbVerify(state) => shows_ctdb(size, state, scene),
        ActiveOverlay::ArBatchReport { result, scroll } => shows_ar_batch(
            size,
            result,
            scroll as int,
            scene,
        ),
        ActiveOverlay::Help => scene == seq![OpV::Host { panel: Panel::Help, area: size }],
        ActiveOverlay::TemplateBuilder => scene == seq![
            OpV::Host { panel: Panel::TemplateBuilder, area: size },
        ],
        ActiveOverlay::TemplatePicker => scene == seq![
            OpV::Host { panel: Panel::TemplatePicker, area: size },
        ],
        ActiveOverlay::DiscBrowser(_) => scene == seq![
            OpV::Host { panel: Panel::DiscBrowser, area: size },
        ],
        _ => scene == Seq::<OpV>::empty(),
    }
}

/// `scene` and `hits` are the dialog.
pub open spec fn shows_dialog(app: AppState, size: Rect, scene: SceneV, hits: Seq<Hit>) -> bool {
    match app.active_overlay {
        ActiveOverlay::Confirmation { message } => shows_confirmation(size, message@, scene, hits),
        ActiveOverlay::MetadataEditor(state) => shows_editor(state, size, scene, hits),
        ActiveOverlay::CuePreview(state) => shows_cue(state, size, scene, hits),
        ActiveOverlay::MbSelect(state) => shows_releases(state, size, scene, hits),
        ActiveOverlay::FormatSettings { kind, focus, help_scroll } => shows_settings(
            kind,
            focus,
            help_scroll,
            size,
            scene,
            hits,
        ),
        _ => shows_plain(app, size, scene) && hits == Seq::<Hit>::empty(),
    }
}

fn host_scene(panel: Panel, area: Rect) -> (r: Scene)
    ensures
        r@ == seq![OpV::Host { panel, area }],
{
    let mut scene = Scene::new();
    scene.push(Op::Host { panel, area });
    scene
}

fn draw_plain(size: Rect, app: &AppState) -> (r: Scene)
    requires
        size.wf(),
        drawable(app.active_overlay),
    ensures
        shows_plain(*app, size, r@),
{
    match &app.active_overlay {
        ActiveOverlay::ErrorDetail { error } => draw_error_detail(size, error.as_str()),
        ActiveOverlay::ItemInfo { item } => draw_item_info(size, item),
        ActiveOverlay::FileInput { input } => draw_file_input(size, input),
        ActiveOverlay::CommandInput { input, completion } => draw_command_input(
            size,
            input,
            completion,
        ),
        ActiveOverlay::TextEdit { input, label } => draw_text_edit(size, label.as_str(), input),
        ActiveOverlay::BatchList { scroll } => draw_batch_list(size, &app.convert.source, *scroll),
        ActiveOverlay::ContextMenu { levels, areas, preview } => {
            let mut scene = Scene::new();
            draw_context_menu_stack(&mut scene, levels, areas, preview);
            proof {
                assert(scene@ =~= menu_stack(levels@, areas@, *preview));
            }
            scene
        },
        ActiveOverlay::BulkRename(state) => draw_bulk_rename(size, state),
        ActiveOverlay::Analysis { scroll } => draw_analysis(
            size,
            &app.shown.analysis_results,
            *scroll,
        ),
        ActiveOverlay::Verify { scroll } => draw_verify(size, &app.shown.verify_results, *scroll),
        ActiveOverlay::BitCompare { scroll } => draw_bit_compare(
            size,
            &app.shown.compare_results,
            *scroll,
        ),
        ActiveOverlay::Preemphasis { scroll } => draw_preemphasis(
            size,
            &app.shown.preemph_results,
            *scroll,
        ),
        ActiveOverlay::CueImportReview { changes, scroll } => draw_cue_import_review(
            size,
            changes,
            *scroll,
        ),
        ActiveOverlay::GnudbSelect { matches, selected, scroll } => draw_gnudb_select(
            size,
            matches,
            *selected,
            *scroll,
        ),
        ActiveOverlay::GnudbReview(state) => draw_gnudb_review(size, state),
        ActiveOverlay::AccurateRipVerify(state) => draw_accuraterip_verify(size, state),
        ActiveOverlay::CtdbVerify(state) => draw_ctdb_verify(size, state),
        ActiveOverlay::ArBatchReport { result, scroll } => draw_ar_batch_report(
            size,
            result,
            *scroll,
        ),
        ActiveOverlay::Help => host_scene(Panel::Help, size),
        ActiveOverlay::TemplateBuilder => host_scene(Panel::TemplateBuilder, size),
        ActiveOverlay::TemplatePicker => host_scene(Panel::TemplatePicker, size),
        ActiveOverlay::DiscBrowser(_) => host_scene(Panel::DiscBrowser, size),
        _ => Scene::new(),
    }
}

fn draw_dialog(size: Rect, app: &AppState) -> (r: (Scene, ButtonRenderMap))
    requires
        size.wf(),
        drawable(app.active_overlay),
    ensures
        shows_dialog(*app, size, r.0@, r.1@),
{
    match &app.active_overlay {
        ActiveOverlay::Confirmation { message } => draw_confirmation(size, message.as_str()),
        ActiveOverlay::MetadataEditor(state) => draw_metadata_editor(size, state),
        ActiveOverlay::CuePreview(state) => draw_cue_preview(size, state),
        ActiveOverlay::MbSelect(state) => draw_mb_select(size, state),
        ActiveOverlay::FormatSettings { kind, focus, help_scroll } => draw_format_settings(
            size,
            kind,
            *focus,
            *help_scroll,
        ),
        _ => (draw_plain(size, app), ButtonRenderMap::new()),
    }
}

/// A panel of the host program, where it is open.
pub open spec fn panel_if(open: bool, panel: Panel, area: Rect) -> SceneV {
    if open {
        seq![OpV::Host { panel, area }]
    } else {
        Seq::empty()
    }
}

/// The panels that open beside the dialog.
pub open spec fn side_panels(shown: ShownState, size: Rect) -> SceneV {
    panel_if(shown.presets_open, Panel::Presets, size) + panel_if(
        shown.recent_open,
        Panel::Recent,
        size,
    ) + panel_if(shown.bookmarks_open, Panel::Bookmarks, size)
}

fn draw_side_panels(shown: &ShownState, size: Rect) -> (r: Scene)
    ensures
        r@ == side_panels(*shown, size),
{
    let mut scene = Scene::new();
    if shown.presets_open {
        scene.push(Op::Host { panel: Panel::Presets, area: size });
    }
    if shown.recent_open {
        scene.push(Op::Host { panel: Panel::Recent, area: size });
    }
    if shown.bookmarks_open {
        scene.push(Op::Host { panel: Panel::Bookmarks, area: size });
    }
    proof {
        assert(scene@ =~= side_panels(*shown, size));
    }
    scene
}

/// `scene` and `hits` show the dialog, and the panels that open beside it.
pub open spec fn shows_overlay(app: AppState, size: Rect, scene: SceneV, hits: Seq<Hit>) -> bool {
    exists|dialog: SceneV| #[trigger]
        shows_dialog(app, size, dialog, hits) && scene == dialog + side_panels(app.shown, size)
}

/// Draw any active overlay on top of the main content.
pub fn draw_overlay(size: Rect, app: &AppState) -> (r: (Scene, ButtonRenderMap))
    requires
        size.wf(),
        drawable(app.active_overlay),
    ensures
        shows_overlay(*app, size, r.0@, r.1@),
{
    let (mut scene, hits) = draw_dialog(size, app);
    let ghost dialog = scene@;
    proof {
        assert(shows_dialog(*app, size, dialog, hits@));
    }
    scene.append(draw_side_panels(&app.shown, size));
    (scene, hits)
}

} // verus!
