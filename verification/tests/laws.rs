use tonepoet_tui::browse::{BookmarkEntry, BookmarksState};
use tonepoet_tui::bulk_rename::{draw_bulk_rename, BulkRenameFocus, BulkRenameState, OpStatus, RenameOp};
use tonepoet_tui::button_map::{ButtonRenderMap, TuiButton};
use tonepoet_tui::disc::{
    contents_if_current, error_if_current, forget_probe, DiscProbeCacheEntry, DiscProbeOutcome,
};
use tonepoet_tui::draw_browse::menus::draw_bookmarks_dropdown;
use tonepoet_tui::draw_footer::{
    drop_one_hint, draw_footer, hint, hint_groups_for, hint_width, total_groups_width,
    truncate_groups_to_width, AppScreen,
};
use tonepoet_tui::draw_output::{
    draw_format_pane, draw_format_title_bar, AudioFormat, FormatField, FormatPaneRow, FormatState,
    ResamplerChoice,
};
use tonepoet_tui::draw_output_options::draw_output_options_title_bar;
use tonepoet_tui::draw_settings::{
    draw_settings_screen, AppearanceState, BrowsingConfig, ConfigFocus, ConversionConfig, KeychainState,
    SettingsState, ThemeChoice,
};
use tonepoet_tui::format_settings::{
    format_settings_field_count, format_settings_min_width, FormatSettingsKind, WavPackMode,
};
use tonepoet_tui::geometry::Rect;
use tonepoet_tui::help_text::{format_settings_help_line_count, help_lines};
use tonepoet_tui::inline_edit::TextInputState;
use tonepoet_tui::layout::{split, Constraint, Direction};
use tonepoet_tui::pill::{PillOption, PillState};
use tonepoet_tui::reviews::{
    draw_gnudb_review, GnudbPage, GnudbReviewState, GnudbRowKind, GnudbTrack, ReviewSource,
};
use tonepoet_tui::scene::{line1, scroll_rows, Line, Op, Rows, Scene};
use tonepoet_tui::style::{plain, Tone};

fn area(x: u16, y: u16, width: u16, height: u16) -> Rect {
    Rect { x, y, width, height }
}

fn input(text: &str) -> TextInputState {
    TextInputState { text: text.to_string(), cursor: text.chars().count(), selection_anchor: None }
}

fn line_text(line: &Line) -> String {
    line.spans.iter().map(|span| span.text.as_str()).collect()
}

fn text(scene: &Scene) -> String {
    let mut out = String::new();
    for op in &scene.ops {
        if let Op::Text { rows, .. } = op {
            for line in &rows.lines {
                out.push_str(&line_text(line));
                out.push('\n');
            }
        }
    }
    out
}

#[test]
fn a_later_button_takes_the_click() {
    let mut buttons = ButtonRenderMap::new();
    buttons.record_button(TuiButton::BrowseList, area(0, 0, 10, 10));
    buttons.record_button(TuiButton::BrowseEntry(3), area(2, 2, 4, 1));
    assert_eq!(buttons.find_button_at(3, 2), Some(TuiButton::BrowseEntry(3)));
    assert_eq!(buttons.find_button_at(6, 2), Some(TuiButton::BrowseList));
    assert_eq!(buttons.find_button_at(10, 2), None);
    buttons.clear();
    assert_eq!(buttons.find_button_at(3, 2), None);
}

#[test]
fn scrolled_text_fills_its_window() {
    let mut rows = Rows::new();
    for i in 0..10 {
        rows.push(line1(&format!("{i}"), plain()));
    }
    let shown = scroll_rows(&rows, 99, 4);
    assert_eq!(shown.lines.iter().map(line_text).collect::<Vec<_>>(), vec!["6", "7", "8", "9"]);
    assert_eq!(scroll_rows(&rows, 3, 20).lines.len(), 10);
}

#[test]
fn hints_are_dropped_by_priority() {
    let groups = vec![
        vec![hint("a", "keep", Tone::Blue, 0), hint("b", "late", Tone::Blue, 1)],
        vec![hint("c", "early", Tone::Blue, 2)],
    ];
    let full = total_groups_width(&groups);
    let cut = truncate_groups_to_width(groups, full - 1);
    assert_eq!(cut.len(), 1, "an emptied group disappears");
    assert_eq!(cut[0].len(), 2);
    let least = truncate_groups_to_width(cut, 0);
    assert_eq!(least[0].len(), 1);
    assert_eq!(least[0][0].key, "a");
    let mut only = vec![vec![hint("a", "keep", Tone::Blue, 0)]];
    assert!(!drop_one_hint(&mut only));
    assert_eq!(hint_width(&only[0][0]), 1 + 2 + 4);
}

#[test]
fn empty_groups_of_hints_are_not_shown() {
    let groups = vec![vec![], vec![hint(":", "command", Tone::Cyan, 0)]];
    let shown = truncate_groups_to_width(groups, 100);
    assert_eq!(shown.len(), 1);
    assert_eq!(shown[0].len(), 1);
    assert_eq!(shown[0][0].key, ":");
    for screen in [AppScreen::Library, AppScreen::Wizard] {
        let (scene, _) = draw_footer(area(0, 0, 100, 2), screen, None, false);
        let shown = text(&scene);
        assert!(shown.contains("command"));
        assert!(shown.lines().all(|line| !line.starts_with("  │ ")), "no divider stands alone");
    }
}

#[test]
fn a_dropped_hint_leaves_its_group() {
    let mut groups = vec![
        vec![hint("a", "keep", Tone::Blue, 0)],
        vec![hint("c", "early", Tone::Blue, 2)],
    ];
    assert!(drop_one_hint(&mut groups));
    assert_eq!(groups.iter().map(Vec::len).collect::<Vec<_>>(), vec![1, 0]);
}

#[test]
fn hidden_passwords_look_alike() {
    let screen = |passwords: Vec<&str>, reveal: bool| {
        let mut state = settings(0, 0);
        state.keychain.passwords = passwords.into_iter().map(str::to_string).collect();
        state.keychain.reveal = reveal;
        text(&draw_settings_screen(area(0, 0, 120, 50), &state, None, false).0)
    };
    let hidden = screen(vec!["secret", "a much longer password than that"], false);
    assert_eq!(hidden, screen(vec!["qwerty", "an other one of the same length!"], false));
    assert!(hidden.contains("  1 ******\n"));
    assert!(hidden.contains("  2 ********************\n"));
    assert!(screen(vec!["secret"], true).contains("  1 secret\n"));
}

fn sizes(constraints: &[Constraint], size: u16) -> Vec<(u16, u16)> {
    split(Direction::Horizontal, &constraints.to_vec(), area(7, 3, size, 2))
        .iter()
        .map(|part| {
            assert_eq!((part.y, part.height), (3, 2));
            (part.x - 7, part.width)
        })
        .collect()
}

fn between(ends: [u16; 4]) -> Vec<(u16, u16)> {
    ends.windows(2).map(|pair| (pair[0], pair[1] - pair[0])).collect()
}

/// A number of hundredths as whole cells.
fn cells(hundredths: u32) -> u16 {
    ((hundredths + 50) / 100) as u16
}

#[test]
fn percentages_divide_every_width() {
    for size in 0..=400u16 {
        let e = u32::from(size);
        assert_eq!(
            sizes(
                &[Constraint::Length(0), Constraint::Percentage(100), Constraint::Length(0)],
                size
            ),
            between([0, 0, size, size]),
        );
        assert_eq!(
            sizes(
                &[Constraint::Percentage(20), Constraint::Percentage(80), Constraint::Length(0)],
                size
            ),
            between([0, cells(20 * e), size, size]),
        );
        assert_eq!(
            sizes(
                &[
                    Constraint::Percentage(20),
                    Constraint::Percentage(50),
                    Constraint::Percentage(30)
                ],
                size
            ),
            between([0, cells(20 * e), cells(70 * e), size]),
        );
        assert_eq!(
            sizes(
                &[
                    Constraint::Percentage(7),
                    Constraint::Percentage(33),
                    Constraint::Percentage(25)
                ],
                size
            ),
            between([0, cells(7 * e), cells(40 * e), cells(65 * e)]),
            "what is not wished for is left",
        );
    }
}

#[test]
fn minimums_come_before_lengths_and_these_before_percentages() {
    for size in 0..=400u16 {
        let room = size.saturating_sub(40);
        let strip = room.min(3);
        let e = u32::from(size);
        assert_eq!(
            sizes(&[Constraint::Length(0), Constraint::Min(40), Constraint::Length(3)], size),
            between([0, 0, size - strip, size]),
        );
        assert_eq!(
            sizes(&[Constraint::Length(3), Constraint::Min(40), Constraint::Length(0)], size),
            between([0, strip, size, size]),
        );
        let tree = (20 * e).min(100 * u32::from(room - strip));
        assert_eq!(
            sizes(&[Constraint::Percentage(20), Constraint::Min(40), Constraint::Length(3)], size),
            between([0, cells(tree), size - strip, size]),
        );
        if room == 0 || room >= 6 {
            assert_eq!(
                sizes(&[Constraint::Length(3), Constraint::Min(40), Constraint::Length(3)], size),
                between([0, strip, size - strip, size]),
            );
        }
        assert_eq!(
            sizes(&[Constraint::Length(30), Constraint::Percentage(50), Constraint::Ratio(1, 1)], size),
            {
                let first = size.min(30);
                let second = (50 * e).min(100 * u32::from(size - first));
                between([0, first, cells(100 * u32::from(first) + second), size])
            },
        );
    }
}

#[test]
fn a_length_is_taken_from_two_thirds() {
    for length in [0u16, 1, 3, 10] {
        for size in 3 * length..=400 {
            assert_eq!(
                sizes(
                    &[Constraint::Length(length), Constraint::Ratio(2, 3), Constraint::Ratio(1, 3)],
                    size
                ),
                between([0, length, ((4 * u32::from(size) + 3) / 6) as u16, size]),
            );
        }
    }
}

#[test]
fn even_fractions_divide_an_area() {
    for size in 0..=200u16 {
        let quarter = cells(25 * u32::from(size));
        let half = cells(50 * u32::from(size));
        assert_eq!(
            sizes(&[Constraint::Ratio(1, 4), Constraint::Ratio(1, 4), Constraint::Ratio(1, 2)], size),
            between([0, quarter, half, size]),
        );
    }
}

#[test]
fn lengths_around_a_minimum_are_met_where_they_fit() {
    for height in 24..=80u16 {
        let rows = split(
            Direction::Vertical,
            &vec![
                Constraint::Length(7),
                Constraint::Length(5),
                Constraint::Length(0),
                Constraint::Min(10),
                Constraint::Length(2),
            ],
            area(0, 0, 50, height),
        );
        let heights: Vec<u16> = rows.iter().map(|row| row.height).collect();
        assert_eq!(heights, vec![7, 5, 0, height - 14, 2]);
        assert_eq!(rows[4].y, height - 2);
    }
}

#[test]
fn every_screen_offers_commands_and_help() {
    for screen in [AppScreen::Convert, AppScreen::Browse, AppScreen::Queue, AppScreen::Config] {
        let groups = hint_groups_for(screen);
        let last = groups.last().expect("common hints");
        assert_eq!(last.iter().map(|h| h.key).collect::<Vec<_>>(), vec![":", "?"]);
    }
    let (scene, hits) = draw_footer(area(0, 10, 100, 2), AppScreen::Queue, None, true);
    assert!(text(&scene).contains("command"));
    assert!(hits.find_button_rect(&TuiButton::FileTaskMessages).is_some());
    assert!(hits.find_button_rect(&TuiButton::Tab(0)).is_some() || hits.find_button_rect(&TuiButton::Tab(1)).is_some());
    let (none, no_hits) = draw_footer(area(0, 10, 100, 1), AppScreen::Queue, None, true);
    assert!(none.ops.is_empty() && no_hits.recorded_buttons().is_empty());
}

#[test]
fn the_selected_rename_is_in_view() {
    let n = 60;
    let state = BulkRenameState {
        focus: BulkRenameFocus::List,
        template_input: input("%NN%"),
        ops: (0..n)
            .map(|i| RenameOp { target_relative: format!("new{i:02}"), status: OpStatus::Pending })
            .collect(),
        sources: (0..n).map(|i| format!("/m/old{i:02}")).collect(),
        selected: 55,
        scroll: 0,
    };
    let shown = text(&draw_bulk_rename(area(0, 0, 120, 40), &state));
    assert!(shown.contains("new55"));
    assert!(!shown.contains("new00"));
}

fn settings(passwords: usize, selected: usize) -> SettingsState {
    SettingsState {
        focus: ConfigFocus::Keychain,
        appearance: AppearanceState {
            choices: Vec::new(),
            active_index: 0,
            runtime: ThemeChoice {
                name: "Runtime".to_string(),
                description: "the theme on the screen".to_string(),
                dark: true,
                built_in: true,
                accents: vec![Tone::Rgb(1, 2, 3); 14],
            },
        },
        conversion: ConversionConfig {
            preferred_backend: "native".to_string(),
            worker_count: 4,
            calculate_replaygain: true,
            generate_cue_files: false,
            cue_generation_mode: "single".to_string(),
            write_log_file: true,
            persist_queue: true,
            default_destination: None,
            scratch_directory: None,
            scratch_memory_limit_percent: 50,
        },
        browsing: BrowsingConfig {
            archive_listing_label: "auto".to_string(),
            archive_listing_timeout: 0,
        },
        keychain: KeychainState {
            load_error: None,
            passwords: (0..passwords).map(|i| format!("secret{i:02}")).collect(),
            selected,
            reveal: true,
        },
    }
}

#[test]
fn the_selected_password_is_in_view() {
    let (scene, _) = draw_settings_screen(area(0, 0, 100, 40), &settings(40, 33), None, false);
    let shown = text(&scene);
    assert!(shown.contains("secret33"));
    assert!(!shown.contains("secret00"));
    assert!(shown.contains("Runtime"), "without a library the theme on the screen is shown");
    let mut hidden = settings(2, 0);
    hidden.keychain.reveal = false;
    let (scene, _) = draw_settings_screen(area(0, 0, 100, 40), &hidden, None, false);
    assert!(!text(&scene).contains("secret00"));
    let mut broken = settings(0, 0);
    broken.keychain.load_error = Some("locked".to_string());
    let (scene, _) = draw_settings_screen(area(0, 0, 100, 40), &broken, None, false);
    assert!(text(&scene).contains("Keychain unavailable: locked"));
}

#[test]
fn bookmarks_stay_on_the_screen() {
    let state = BookmarksState {
        entries: (0..30)
            .map(|i| BookmarkEntry { name: "x".repeat(i * 3), status: None })
            .collect(),
        dropdown_open: true,
        dropdown_selected: 0,
        dropdown_scroll: 4,
        dropdown_visible_rows: 10,
    };
    for (x, y, w, h) in [(0u16, 0u16, 8u16, 6u16), (3, 2, 20, 9), (0, 0, 120, 40)] {
        let screen = area(x, y, w, h);
        let mut scene = Scene::new();
        let mut buttons = ButtonRenderMap::new();
        assert!(draw_bookmarks_dropdown(
            &mut scene,
            area(x + w - 1, y + h - 1, 1, 1),
            screen,
            &state,
            &mut buttons,
            None
        ));
        for (_, place) in buttons.recorded_buttons() {
            assert!(place.x >= screen.x && place.right() <= screen.right());
            assert!(place.y >= screen.y && place.bottom() <= screen.bottom());
        }
    }
}

#[test]
fn forgetting_a_disc_leaves_the_others() {
    let entry = |path: &str, error: &str| DiscProbeCacheEntry {
        path: path.to_string(),
        current: true,
        outcome: DiscProbeOutcome::Error(error.to_string()),
    };
    let mut cache = vec![entry("/a", "1"), entry("/b", "2"), entry("/a", "3"), entry("/c", "4")];
    forget_probe(&mut cache, "/a");
    assert_eq!(cache.len(), 2);
    assert_eq!(error_if_current(&cache, "/a"), None);
    assert!(contents_if_current(&cache, "/a").is_none());
    assert_eq!(error_if_current(&cache, "/b"), Some("2"));
    assert_eq!(error_if_current(&cache, "/c"), Some("4"));
}

#[test]
fn help_is_as_long_as_it_says() {
    let kind = FormatSettingsKind::WavPack {
        mode: WavPackMode::Normal,
        hybrid: true,
        bitrate_input: input("320"),
        correction: false,
    };
    assert_eq!(format_settings_help_line_count(&kind), help_lines(&kind).lines.len());
    assert_eq!(format_settings_field_count(&kind), 4);
    assert!(format_settings_min_width(&kind) >= 30);
}

fn pills(labels: &[&str]) -> PillState {
    PillState {
        options: labels
            .iter()
            .map(|label| PillOption { label: label.to_string(), enabled: true })
            .collect(),
        selected: 0,
    }
}

fn format_state() -> FormatState {
    FormatState {
        field_focus: FormatField::Format,
        pane_rows: vec![
            FormatPaneRow::Field(FormatField::Format),
            FormatPaneRow::Spacer,
            FormatPaneRow::Field(FormatField::SampleRate),
            FormatPaneRow::Field(FormatField::BitDepth),
        ],
        maximized_pane_rows: vec![
            FormatPaneRow::Field(FormatField::Format),
            FormatPaneRow::ResamplingHeader,
            FormatPaneRow::Field(FormatField::Resampler),
        ],
        format: pills(&["FLAC", "MP3"]),
        selected_format: AudioFormat::Flac,
        sample_rate: pills(&["source", "44.1"]),
        bit_depth: pills(&["source", "16"]),
        resampler: pills(&["soxr", "sox"]),
        selected_resampler: ResamplerChoice::Soxr,
        dither: pills(&["off"]),
        ssrc_dither_override_active: false,
        ssrc_dither_status_label: None,
        replaygain: pills(&["off"]),
        noise_shaper: pills(&["off"]),
        modulator_order: pills(&["5"]),
        conversion_preset: pills(&["none"]),
        dsd_pathway: pills(&["auto"]),
        dsd_profile: pills(&["auto"]),
        dsd_gain_mode: pills(&["off"]),
        dsd_auto_gain_scope: pills(&["track"]),
        dsd_true_peak_scan_mode: pills(&["off"]),
        dsd_gain_db: "6.0".to_string(),
        dsd_normalize_target_dbfs: "-1.0".to_string(),
        dsd_auto_gain_margin_db: "0.5".to_string(),
        dsd_reference_controls_available: false,
        containers: Vec::new(),
        resample_qualities: Vec::new(),
        lossy_preset_labels: None,
        lossy_preset_index: None,
    }
}

#[test]
fn the_format_pane_is_a_box_of_its_rows() {
    let mut scene = Scene::new();
    draw_format_pane(&mut scene, area(0, 0, 60, 10), &format_state(), true, false);
    let shown = text(&scene);
    let lines: Vec<&str> = shown.lines().collect();
    assert_eq!(lines.len(), 10);
    assert!(lines.iter().all(|line| line.chars().count() == 60), "{shown}");
    assert!(lines[0].contains("▸ format "));
    assert!(lines[1].contains("FLAC"));
    assert!(lines[9].starts_with('└'));
    let mut maximized = Scene::new();
    draw_format_pane(&mut maximized, area(0, 0, 60, 10), &format_state(), true, true);
    assert!(text(&maximized).contains("▾ format "));
    let mut small = Scene::new();
    draw_format_pane(&mut small, area(0, 0, 60, 5), &format_state(), true, false);
    assert!(small.ops.is_empty());
}

#[test]
fn collapsed_panes_keep_their_title() {
    let mut bar = Scene::new();
    draw_format_title_bar(&mut bar, area(0, 0, 40, 1), true);
    assert!(text(&bar).contains("▸ format "));
    let mut bar = Scene::new();
    draw_output_options_title_bar(&mut bar, area(0, 0, 40, 1), true);
    assert_eq!(text(&bar).trim_end().chars().count(), 40);
    let mut narrow = Scene::new();
    draw_format_title_bar(&mut narrow, area(0, 0, 11, 1), true);
    assert!(narrow.ops.is_empty());
}

#[test]
fn proposed_tags_are_listed_by_track() {
    let state = GnudbReviewState {
        source: ReviewSource::Gnudb,
        pages: vec![GnudbPage {
            label: String::new(),
            album: "Record".to_string(),
            year: "1971".to_string(),
            genre: "rock".to_string(),
            tracks: vec![GnudbTrack {
                track_number: 1,
                title: "Song".to_string(),
                artist: "Band".to_string(),
            }],
            rows: vec![
                GnudbRowKind::AlbumField("Album".to_string()),
                GnudbRowKind::TrackHeader { track_idx: 0 },
                GnudbRowKind::TrackField { track_idx: 0, field: "Title".to_string() },
            ],
        }],
        active_page: 0,
        cursor: 0,
        scroll: 0,
        edit_input: None,
        has_matches: true,
    };
    let shown = text(&draw_gnudb_review(area(0, 0, 120, 40), &state));
    assert!(shown.contains("Record"), "{shown}");
    assert!(shown.contains("Song"), "{shown}");
}
