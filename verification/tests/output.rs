use tonepoet_tui::button_map::{ButtonRenderMap, TuiButton};
use tonepoet_tui::draw_output::AudioFormat;
use tonepoet_tui::draw_output_options::{
    draw_output_options_pane, draw_output_options_pane_with_mouse_targets, estimate_plan,
    output_options_actions_summary, register_output_options_mouse_targets, ActionPipeline,
    OutputOptionsField, OutputOptionsState, SizePlan, SourceFacts, TargetFormat,
    OUTPUT_OPTIONS_ACTIONS_ROW, OUTPUT_OPTIONS_DISC_SUBFOLDERS_ROW, OUTPUT_OPTIONS_FORCE_ENCODE_ROW,
    OUTPUT_OPTIONS_TEMPLATE_BUILD_WIDTH, OUTPUT_OPTIONS_TEMPLATE_GAP,
    OUTPUT_OPTIONS_TEMPLATE_LOAD_WIDTH, OUTPUT_OPTIONS_WRITE_LOG_ROW,
};
use tonepoet_tui::geometry::Rect;
use tonepoet_tui::inline_edit::TextInputState;
use tonepoet_tui::pill::{PillOption, PillState};
use tonepoet_tui::scene::{Op, Scene, Span};
use tonepoet_tui::style::Tone;

fn pills(labels: &[&str]) -> PillState {
    PillState {
        options: labels
            .iter()
            .map(|label| PillOption { label: label.to_string(), enabled: true })
            .collect(),
        selected: 0,
    }
}

fn options() -> OutputOptionsState {
    OutputOptionsState {
        field_focus: OutputOptionsField::DestPath,
        editing: None,
        edit_input: TextInputState { text: String::new(), cursor: 0, selection_anchor: None },
        dest_path: None,
        folder_template: "%ARTIST%/%ALBUM%".to_string(),
        filename_template: "%NN% %TITLE%".to_string(),
        merge: pills(&["off", "per disc"]),
        companion_extensions: "jpg, png".to_string(),
        companion_folders: "scans".to_string(),
        companion_exclude_files: String::new(),
        force_encode: pills(&["off", "on"]),
        disc_subfolders: pills(&["auto", "always"]),
        write_log: pills(&["off", "on"]),
        actions: ActionPipeline::default(),
    }
}

fn area(x: u16, y: u16, width: u16, height: u16) -> Rect {
    Rect { x, y, width, height }
}

fn row(scene: &Scene, y: usize) -> Vec<Span> {
    for op in &scene.ops {
        if let Op::Text { rows, .. } = op {
            return rows.lines[y]
                .spans
                .iter()
                .map(|span| Span { text: span.text.clone(), style: span.style })
                .collect();
        }
    }
    Vec::new()
}

fn row_text(scene: &Scene, y: usize) -> String {
    row(scene, y).iter().map(|span| span.text.as_str()).collect()
}

#[test]
fn maximized_actions_row_renders_live_pipeline_summary() {
    let mut opts = options();
    opts.field_focus = OutputOptionsField::Actions;
    opts.actions.post.push("Create folder Logs".to_string());
    let mut scene = Scene::new();
    draw_output_options_pane(&mut scene, area(0, 0, 80, 20), &opts, None, true, true, true);

    let row = row_text(&scene, OUTPUT_OPTIONS_ACTIONS_ROW as usize);
    assert!(row.contains("pipeline"), "actions row should render pipeline label: {row}");
    assert!(row.contains("1 post"), "actions row should summarize post actions: {row}");
    assert!(row.contains("Enter/click edit"), "actions row should advertise edit affordance: {row}");
}

#[test]
fn maximized_actions_row_registers_button_map_target_inside_pane_only() {
    let opts = options();
    let mut buttons = ButtonRenderMap::new();
    register_output_options_mouse_targets(&mut buttons, area(10, 4, 80, 20), &opts, true, true);

    assert_eq!(
        buttons.find_button_at(11, 4 + OUTPUT_OPTIONS_ACTIONS_ROW),
        Some(TuiButton::ActionsPipelineField)
    );
    assert_eq!(
        buttons.find_button_at(9, 4 + OUTPUT_OPTIONS_ACTIONS_ROW),
        None,
        "clicks outside the Output Options pane must not open the actions wizard"
    );
    assert_eq!(
        buttons.find_button_at(89, 4 + OUTPUT_OPTIONS_ACTIONS_ROW),
        None,
        "right border must not be treated as the actions row"
    );
    assert_eq!(
        buttons.find_button_at(90, 4 + OUTPUT_OPTIONS_ACTIONS_ROW),
        None,
        "outside cells must not be treated as the actions row"
    );
}

#[test]
fn wrapped_output_options_draw_populates_button_map_for_actions_row() {
    let opts = options();
    let mut scene = Scene::new();
    let mut buttons = ButtonRenderMap::new();
    draw_output_options_pane_with_mouse_targets(
        &mut scene,
        area(10, 4, 80, 20),
        &opts,
        None,
        true,
        true,
        true,
        &mut buttons,
    );

    assert_eq!(
        buttons.find_button_at(11, 4 + OUTPUT_OPTIONS_ACTIONS_ROW),
        Some(TuiButton::ActionsPipelineField),
        "the production Output Options draw path must register the rendered Actions row"
    );
    assert_eq!(buttons.find_button_at(9, 4 + OUTPUT_OPTIONS_ACTIONS_ROW), None);
}

#[test]
fn output_options_registration_includes_template_pills_with_concrete_targets() {
    let opts = options();
    let mut buttons = ButtonRenderMap::new();
    let area = area(10, 4, 80, 20);

    register_output_options_mouse_targets(&mut buttons, area, &opts, true, true);

    let folder_y = area.y + 2;
    let filename_y = area.y + 3;
    let build_x = area.x + area.width - 1 - OUTPUT_OPTIONS_TEMPLATE_BUILD_WIDTH;
    let load_x = build_x - OUTPUT_OPTIONS_TEMPLATE_GAP - OUTPUT_OPTIONS_TEMPLATE_LOAD_WIDTH;

    assert_eq!(
        buttons.find_button_at(load_x, folder_y),
        Some(TuiButton::TemplateLoadFolderButton),
        "folder template load pill must be registered by the shared helper"
    );
    assert_eq!(
        buttons.find_button_at(build_x, folder_y),
        Some(TuiButton::TemplateBuildFolderButton),
        "folder template custom pill must be registered by the shared helper"
    );
    assert_eq!(
        buttons.find_button_at(load_x, filename_y),
        Some(TuiButton::TemplateLoadFilenameButton),
        "filename template load pill must be registered by the shared helper"
    );
    assert_eq!(
        buttons.find_button_at(build_x, filename_y),
        Some(TuiButton::TemplateBuildFilenameButton),
        "filename template custom pill must be registered by the shared helper"
    );
}

#[test]
fn maximized_output_options_pill_targets_use_rendered_option_indices() {
    let opts = options();
    let mut buttons = ButtonRenderMap::new();

    register_output_options_mouse_targets(&mut buttons, area(10, 4, 80, 20), &opts, true, true);

    assert!(
        buttons
            .recorded_buttons()
            .iter()
            .any(|(button, _)| matches!(button, TuiButton::ForceEncodePill(index) if *index < opts.force_encode.options.len())),
        "registered force-encode pill targets must use concrete option indices"
    );
    assert!(
        buttons
            .recorded_buttons()
            .iter()
            .all(|(button, _)| !matches!(button, TuiButton::ForceEncodePill(usize::MAX) | TuiButton::DiscSubfoldersPill(usize::MAX) | TuiButton::WriteLogPill(usize::MAX))),
        "Output Options registration must not create synthetic full-row sentinel pill targets"
    );
}

#[test]
fn non_maximized_output_options_does_not_register_below_fold_targets() {
    let opts = options();
    let mut buttons = ButtonRenderMap::new();
    register_output_options_mouse_targets(&mut buttons, area(10, 4, 80, 20), &opts, false, true);

    assert_eq!(
        buttons.find_button_at(11, 4 + OUTPUT_OPTIONS_ACTIONS_ROW),
        None,
        "non-maximized Output Options must not expose invisible Actions-row hitboxes"
    );
    assert_eq!(
        buttons.find_button_at(11, 4 + OUTPUT_OPTIONS_FORCE_ENCODE_ROW),
        None,
        "non-maximized Output Options must not expose invisible conversion-pill hitboxes"
    );
}

#[test]
fn actions_summary_renders_none_for_empty_pipeline() {
    assert_eq!(output_options_actions_summary(&ActionPipeline::default()), "none");
}

#[test]
fn actions_summary_counts_both_sides() {
    let actions = ActionPipeline {
        pre: vec!["a".to_string()],
        post: vec!["b".to_string(), "c".to_string()],
    };
    assert_eq!(output_options_actions_summary(&actions), "1 pre · 2 post");
}

#[test]
fn maximized_companion_header_uses_header_style_not_accent_style() {
    let opts = options();
    let mut scene = Scene::new();
    draw_output_options_pane(&mut scene, area(0, 0, 60, 11), &opts, None, true, true, true);

    let mut x = 0;
    for span in row(&scene, 7) {
        for c in span.text.chars() {
            if x == 4 {
                assert_eq!(c, 'C');
                assert_eq!(span.style.fg, Tone::Header);
                assert!(span.style.bold, "section header must be bold like the header token");
            }
            x += 1;
        }
    }
    assert!(x > 4);
}

fn source() -> SourceFacts {
    SourceFacts {
        has_duration: true,
        sample_rate: 96_000,
        channels: 2,
        bit_depth: Some(24),
        format_name: "FLAC".to_string(),
        codec: "flac".to_string(),
    }
}

fn target(format: AudioFormat) -> TargetFormat {
    TargetFormat { format, sample_rate: Some(44_100), bit_depth: Some(16) }
}

#[test]
fn estimates_follow_the_target_format() {
    let facts = source();
    assert_eq!(
        estimate_plan(Some(&facts), 1000, target(AudioFormat::Flac)),
        Some(SizePlan::Scaled {
            target_rate: 44_100,
            target_bits: 16,
            source_rate: 96_000,
            source_bits: 24
        })
    );
    assert_eq!(
        estimate_plan(Some(&facts), 1000, target(AudioFormat::Wav)),
        Some(SizePlan::Raw { rate: 44_100, bits: 16, channels: 2, compressed: false })
    );
    assert_eq!(
        estimate_plan(Some(&facts), 1000, target(AudioFormat::Mp3)),
        Some(SizePlan::Lossy { bitrate: 320_000 })
    );
    assert_eq!(
        estimate_plan(Some(&facts), 1000, target(AudioFormat::Dsf)),
        Some(SizePlan::Dsd { rate: 44_100, channels: 2 })
    );
    assert_eq!(estimate_plan(None, 1000, target(AudioFormat::Wav)), None);
    assert_eq!(estimate_plan(Some(&facts), 0, target(AudioFormat::Wav)), None);
    let container = SourceFacts { format_name: "SACD ISO".to_string(), ..source() };
    assert_eq!(
        estimate_plan(Some(&container), 1000, target(AudioFormat::Flac)),
        Some(SizePlan::Raw { rate: 44_100, bits: 16, channels: 2, compressed: true })
    );
    let unknown = SourceFacts { bit_depth: None, ..source() };
    let same = TargetFormat { format: AudioFormat::Wav, sample_rate: None, bit_depth: None };
    assert_eq!(estimate_plan(Some(&unknown), 1000, same), None);
}

#[test]
fn the_estimate_is_shown_in_words() {
    let mut scene = Scene::new();
    draw_output_options_pane(
        &mut scene,
        area(0, 0, 80, 8),
        &options(),
        Some(5_905_580_032),
        true,
        false,
        false,
    );
    let text: String = (0..8).map(|y| row_text(&scene, y)).collect();
    assert!(text.contains("~5.5 GB"), "{text}");
}

#[test]
fn settings_are_painted_where_they_are_clicked_at_every_height() {
    let opts = options();
    for height in 7..=24 {
        let pane = area(0, 0, 80, height);
        let mut scene = Scene::new();
        let mut buttons = ButtonRenderMap::new();
        draw_output_options_pane_with_mouse_targets(
            &mut scene, pane, &opts, None, true, true, false, &mut buttons,
        );
        for (button, label) in [
            (TuiButton::DestPathField, "   dest "),
            (TuiButton::FolderTemplateField, "   folder "),
            (TuiButton::FilenameTemplateField, "   filename "),
            (TuiButton::CompanionExtensionsField, "   extensions "),
            (TuiButton::CompanionFoldersField, "   folders "),
            (TuiButton::ExcludeFilesField, "   exclude "),
        ] {
            if let Some(place) = buttons.find_button_rect(&button) {
                let painted = row_text(&scene, place.y as usize);
                assert!(painted.contains(label), "{button:?} at height {height}: {painted}");
            }
        }
        for (row, label) in [
            (OUTPUT_OPTIONS_FORCE_ENCODE_ROW, "force enc"),
            (OUTPUT_OPTIONS_DISC_SUBFOLDERS_ROW, "disc dirs"),
            (OUTPUT_OPTIONS_WRITE_LOG_ROW, "write log"),
        ] {
            let shown = height >= 17;
            assert_eq!(buttons.find_button_at(20, row).is_some(), shown, "{label} at {height}");
            if shown {
                assert!(row_text(&scene, row as usize).contains(label));
            }
        }
    }
}
