use tonepoet_tui::browse::PreemphasisConfidence;
use tonepoet_tui::button_map::TuiButton;
use tonepoet_tui::bulk_rename::{draw_bulk_rename, BulkRenameFocus, BulkRenameState, OpStatus, RenameOp};
use tonepoet_tui::context_menu::{
    draw_context_menu_stack, render_menu_panel_at, selected_entry_row, selected_entry_row_pub,
    ContextMenuEntry, ContextMenuItem, MenuLevel, MenuPreview,
};
use tonepoet_tui::convert::{
    ArchivePreview, ArchivePreviewTrack, ConvertMetadataField, MetadataState, MultiTrackEntry, SourceMode,
};
use tonepoet_tui::cue_preview::{draw_cue_preview, CuePreviewState};
use tonepoet_tui::dialogs::{
    draw_batch_list, draw_command_input, draw_confirmation, draw_error_detail, draw_file_input,
    draw_item_info, draw_text_edit, item_lines, status_text, CompletionState, ConversionItem,
    ConversionStatus,
};
use tonepoet_tui::disc::SacdAreaId;
use tonepoet_tui::draw_metadata::{
    clamp_scroll, draw_metadata_pane, draw_metadata_title_bar, file_row, metadata_edit_cursor,
    metadata_summary,
};
use tonepoet_tui::format_settings::{
    draw_format_settings, format_settings_field_count, format_settings_min_width, FormatSettingsFocus,
    FormatSettingsKind, Mp3Mode,
};
use tonepoet_tui::geometry::Rect;
use tonepoet_tui::help_text::format_settings_help_line_count;
use tonepoet_tui::inline_edit::TextInputState;
use tonepoet_tui::metadata_editor::{
    draw_metadata_editor, editor_title, MbRevertPill, MetadataEditorPhase, MetadataEditorState,
    MetadataEntry,
};
use tonepoet_tui::musicbrainz::{
    draw_mb_select, draw_mb_select_tracks, MbDetail, MbRelease, MbSelectState, MbTrack,
};
use tonepoet_tui::overlay_parts::{footer_pill_pub, pill_gap_pub, truncate_to_chars};
use tonepoet_tui::reports::{
    draw_analysis, draw_bit_compare, draw_preemphasis, draw_verify, AnalysisResult, CompareResult,
    PreemphasisResult, VerifyResult,
};
use tonepoet_tui::reviews::{
    draw_cue_import_review, draw_gnudb_select, mark_feeds, CueImportChange, GnudbMatch,
};
use tonepoet_tui::rip_checks::{
    draw_accuraterip_verify, draw_ar_batch_report, draw_ctdb_verify, ArBatchAlbum, ArBatchResult,
    ArTrackResult, ArTrackStatus, ArVerifyPage, ArVerifyResult, ArVerifyState, CtdbTrackResult,
    CtdbTrackStatus, CtdbVerifyPage, CtdbVerifyResult, CtdbVerifyState,
};
use tonepoet_tui::scene::{Line, Op, Scene};
use tonepoet_tui::style::Tone;

fn area(x: u16, y: u16, width: u16, height: u16) -> Rect {
    Rect { x, y, width, height }
}

fn input(text: &str) -> TextInputState {
    TextInputState { text: text.to_string(), cursor: text.chars().count(), selection_anchor: None }
}

fn line_text(line: &Line) -> String {
    line.spans.iter().map(|span| span.text.as_str()).collect()
}

/// All texts of a scene, one line each.
fn text(scene: &Scene) -> String {
    let mut out = String::new();
    for op in &scene.ops {
        match op {
            Op::Text { rows, .. } => {
                for line in &rows.lines {
                    out.push_str(&line_text(line));
                    out.push('\n');
                }
            }
            Op::Frame { title, .. } => {
                out.push_str(&line_text(title));
                out.push('\n');
            }
            _ => {}
        }
    }
    out
}

fn fixture() -> MetadataEditorState {
    MetadataEditorState {
        paths: vec!["/tmp/track.flac".to_string()],
        sacd_area_kind: None,
        read_only: false,
        dirty: false,
        phase: MetadataEditorPhase::Editing,
        entries: vec![],
        deleted: vec![],
        cursor: 0,
        scroll: 0,
        edit_input: None,
        add_key_input: None,
        has_mb_back: false,
        has_gnudb_back: false,
        detail_field_idx: 0,
        detail_cursor: 0,
        detail_scroll: 0,
        detail_edit: None,
        file_labels: vec!["01".into()],
    }
}

#[test]
fn editor_title_single_file_non_sacd() {
    let mut s = fixture();
    s.paths = vec!["/music/song.flac".to_string()];
    assert_eq!(editor_title(&s), " Metadata: song.flac ");
}

#[test]
fn editor_title_multi_file_non_sacd() {
    let mut s = fixture();
    s.paths = vec!["/m/a.flac".to_string(), "/m/b.flac".to_string(), "/m/c.flac".to_string()];
    s.file_labels = vec!["01".into(), "02".into(), "03".into()];
    assert_eq!(editor_title(&s), " Metadata: 3 files ");
}

#[test]
fn editor_title_sacd_stereo_multitrack() {
    let mut s = fixture();
    s.paths = vec!["/lib/kind_of_blue.iso".to_string(); 5];
    s.file_labels = (1..=5).map(|i| format!("{:>02}", i)).collect();
    s.sacd_area_kind = Some(SacdAreaId::Stereo);
    s.read_only = false;
    let t = editor_title(&s);
    assert!(t.contains("SACD"), "{}", t);
    assert!(t.contains("kind_of_blue.iso"), "{}", t);
    assert!(t.contains("[stereo]"), "{}", t);
    assert!(!t.contains("read-only"), "{}", t);
}

#[test]
fn editor_title_sacd_mch_read_only() {
    let mut s = fixture();
    s.paths = vec!["/lib/x.iso".to_string(); 4];
    s.file_labels = (1..=4).map(|i| format!("{:>02}", i)).collect();
    s.sacd_area_kind = Some(SacdAreaId::MultiChannel);
    s.read_only = true;
    let t = editor_title(&s);
    assert!(t.contains("[MCH · read-only]"), "{}", t);
}

#[test]
fn the_title_of_a_disc_names_the_image_and_its_area() {
    let mut s = fixture();
    s.paths = vec!["/lib/x.iso".to_string(); 4];
    s.sacd_area_kind = Some(SacdAreaId::MultiChannel);
    s.read_only = true;
    assert_eq!(editor_title(&s), " SACD: x.iso [MCH · read-only] ");
    s.read_only = false;
    s.sacd_area_kind = Some(SacdAreaId::Stereo);
    assert_eq!(editor_title(&s), " SACD: x.iso [stereo] ");
}

#[test]
fn editor_title_single_track_sacd_shows_area() {
    let mut s = fixture();
    s.paths = vec!["/lib/single_track.iso".to_string()];
    s.file_labels = vec!["01".into()];
    s.sacd_area_kind = Some(SacdAreaId::Stereo);
    let t = editor_title(&s);
    assert!(t.contains("SACD"), "single-track SACD must show SACD marker: {}", t);
    assert!(t.contains("[stereo]"), "single-track SACD must show area: {}", t);
    assert!(!t.starts_with(" Metadata:"), "must not fall into non-SACD branch: {}", t);
}

#[test]
fn the_tag_editor_carries_its_title() {
    let (scene, _) = draw_metadata_editor(area(0, 0, 100, 30), &fixture());
    assert!(text(&scene).contains(" Metadata: track.flac "));
}

#[test]
fn pills_are_padded_labels() {
    assert_eq!(footer_pill_pub("Esc close", Tone::Green).text, " Esc close ");
    assert_eq!(footer_pill_pub("Esc close", Tone::Green).style.bg, Tone::Green);
    assert_eq!(pill_gap_pub().text, " ");
}

#[test]
fn texts_are_cut_to_at_most_the_given_characters() {
    assert_eq!(truncate_to_chars("abcdef", 6), "abcdef");
    assert_eq!(truncate_to_chars("abcdef", 5), "ab...");
    assert_eq!(truncate_to_chars("abcdef", 3), "...");
    assert_eq!(truncate_to_chars("abcdef", 2), "..");
    assert_eq!(truncate_to_chars("äöüß", 3), "...");
}

fn analysis(path: &str) -> AnalysisResult {
    AnalysisResult {
        path: path.to_string(),
        dr_value: 12,
        dr_label: "good".to_string(),
        peak_db: "-0.3".to_string(),
        rms_db: "-14.2".to_string(),
        peak_db_fine: "-0.31".to_string(),
        rms_db_fine: "-14.22".to_string(),
        duration_secs: 245,
        sample_rate: 44_100,
        channels: 2,
        clipping_count: 0,
        dc_bias: "0.000012".to_string(),
        dc_bias_significant: false,
        actual_bit_depth: 16,
        declared_bit_depth: Some(24),
        lufs: Some("-13.9".to_string()),
        true_peak_dbtp: None,
        preemphasis: Some(PreemphasisConfidence::Possible),
        preemphasis_detail: Some("catalog".to_string()),
        hdcd_detected: Some(true),
        hdcd_detail: Some("HDCD (peak extend)".to_string()),
    }
}

#[test]
fn the_analysis_lists_every_figure() {
    let scene = draw_analysis(area(0, 0, 120, 60), &vec![analysis("/m/a.flac")], 0);
    let shown = text(&scene);
    assert!(shown.contains("  a.flac"));
    assert!(shown.contains("    Dynamic Range         DR12 (good)"));
    assert!(shown.contains("    Sample Peak           -0.3 dBFS"));
    assert!(shown.contains("    Clipping              None"));
    assert!(shown.contains("    DC Bias               0.000012 (negligible)"));
    assert!(shown.contains("    Bit Depth             16-bit (24 declared)"));
    assert!(shown.contains("    Loudness              -13.9 LUFS"));
    assert!(!shown.contains("True Peak"));
    assert!(shown.contains("    Pre-emphasis          Possible — catalog"));
    assert!(shown.contains("    HDCD                  HDCD (peak extend)"));
    let empty = draw_analysis(area(0, 0, 120, 60), &Vec::new(), 0);
    assert_eq!(empty.ops.len(), 2);
}

#[test]
fn results_are_counted_and_listed() {
    let results = vec![
        VerifyResult { path: "/m/a.flac".to_string(), passed: true, detail: "ok".to_string() },
        VerifyResult { path: "/m/b.flac".to_string(), passed: false, detail: "bad frame".to_string() },
    ];
    let shown = text(&draw_verify(area(0, 0, 100, 40), &results, 0));
    assert!(shown.contains("  1 passed, 1 failed"));
    assert!(shown.contains(" ✗ b.flac"));
    assert!(shown.contains("   bad frame"));

    let pairs = vec![CompareResult {
        ref_path: "/m/a.flac".to_string(),
        target_path: "/n/a.flac".to_string(),
        identical: true,
        detail: "same".to_string(),
    }];
    let shown = text(&draw_bit_compare(area(0, 0, 100, 40), &pairs, 0));
    assert!(shown.contains("1 pair(s): all bit-identical"));
    assert!(shown.contains(" ✓ a.flac  vs  a.flac"));

    let found = vec![
        PreemphasisResult {
            path: "/m/a.flac".to_string(),
            confidence: PreemphasisConfidence::StrongCandidate,
            detail: "catalog".to_string(),
        },
        PreemphasisResult {
            path: "/m/b.flac".to_string(),
            confidence: PreemphasisConfidence::NotDetected,
            detail: String::new(),
        },
    ];
    let shown = text(&draw_preemphasis(area(0, 0, 100, 40), &found, 0));
    assert!(shown.contains("Not detected in 2 file(s)"));
    assert!(shown.contains(" ✓ a.flac  LIKELY"));
    assert!(shown.contains(" · b.flac\n"));
}

fn ar_track(number: u32, status: ArTrackStatus, offset: Option<i32>) -> ArTrackResult {
    ArTrackResult {
        path: format!("/m/{number}.flac"),
        track_number: number,
        status,
        confidence: Some(7),
        offset,
    }
}

fn ar_page(label: &str, tracks: Vec<ArTrackResult>) -> ArVerifyPage {
    ArVerifyPage {
        label: label.to_string(),
        result: ArVerifyResult {
            tracks,
            disc_id_str: "0012ab".to_string(),
            was_common_scan: true,
            summary: "summary line".to_string(),
            has_uniform_offset: true,
        },
    }
}

#[test]
fn the_accuraterip_check_counts_discs_and_tracks() {
    let state = ArVerifyState {
        pages: vec![
            ar_page(
                "",
                vec![
                    ar_track(1, ArTrackStatus::Verified, Some(-12)),
                    ar_track(2, ArTrackStatus::Mismatch, None),
                    ar_track(3, ArTrackStatus::Error("io".to_string()), None),
                ],
            ),
            ar_page("bonus", vec![ar_track(1, ArTrackStatus::Verified, Some(30))]),
        ],
        active_page: 0,
        scroll: 0,
    };
    let shown = text(&draw_accuraterip_verify(area(0, 0, 120, 50), &state));
    assert!(shown.contains(" AccurateRip — 2 discs, 2/4 verified "));
    assert!(shown.contains(" disc 1   bonus "));
    assert!(shown.contains("  Disc ID: 0012ab"));
    assert!(shown.contains(" ✓ 01 - 1.flac"));
    assert!(shown.contains("AR confidence 7 (offset -12)"));
    assert!(shown.contains("CRC mismatch"));
    assert!(shown.contains("error: io"));
    assert!(shown.contains(":ar! full scan"));
    assert!(shown.contains(":ar-fix correct offset"));
}

#[test]
fn the_batch_report_words_each_album() {
    let album = |name: &str| ArBatchAlbum {
        album_name: name.to_string(),
        total_tracks: 10,
        verified: 10,
        mismatched: 0,
        not_in_db: false,
        confidence: Some(3),
        offset: Some(6),
        error: None,
    };
    let result = ArBatchResult {
        albums: vec![
            album("one"),
            ArBatchAlbum { verified: 8, mismatched: 2, ..album("two") },
            ArBatchAlbum { not_in_db: true, ..album("three") },
            ArBatchAlbum { error: Some("no toc".to_string()), verified: 0, ..album("four") },
        ],
        report_path: Some("/m/report.txt".to_string()),
    };
    let shown = text(&draw_ar_batch_report(area(0, 0, 120, 50), &result, 0));
    assert!(shown.contains(" AccurateRip Batch — 1/4 albums verified "));
    assert!(shown.contains("1 verified, 1 not in DB, 1 mismatch"));
    assert!(shown.contains("  Report: /m/report.txt"));
    assert!(shown.contains("10/10 verified, confidence 3, offset +6\n"));
    assert!(shown.contains("8/10 verified, confidence 3, offset +6, 2 mismatch"));
    assert!(shown.contains("disc not in database"));
    assert!(shown.contains("error: no toc"));
}

#[test]
fn the_cuetools_check_offers_a_repair_with_parity() {
    let track = |number, status, has_parity| CtdbTrackResult {
        path: format!("/m/{number}.flac"),
        track_number: number,
        status,
        confidence: Some(4),
        computed_crc32: 0x00ab_cdef,
        has_parity,
    };
    let mut state = CtdbVerifyState {
        pages: vec![CtdbVerifyPage {
            label: String::new(),
            result: CtdbVerifyResult {
                tracks: vec![
                    track(1, CtdbTrackStatus::VerifiedRs, false),
                    track(2, CtdbTrackStatus::Mismatch, true),
                ],
                summary: "summary line".to_string(),
            },
        }],
        active_page: 0,
        scroll: 0,
    };
    let shown = text(&draw_ctdb_verify(area(0, 0, 120, 50), &state));
    assert!(shown.contains(" CUETools DB Verification — 2 tracks "));
    assert!(shown.contains("CTDB RS-verified, confidence 4 (CRC differs: 00ABCDEF)"));
    assert!(shown.contains("CRC mismatch (computed 00ABCDEF) [repair available]"));
    assert!(shown.contains(":ctdb-repair"));
    state.pages[0].result.tracks[1].has_parity = false;
    assert!(!text(&draw_ctdb_verify(area(0, 0, 120, 50), &state)).contains(":ctdb-repair"));
}

fn releases(n: usize) -> MbSelectState {
    MbSelectState {
        releases: (0..n)
            .map(|i| MbRelease {
                release_id: format!("id{i}"),
                title: if i == 0 { String::new() } else { format!("Title {i}") },
                year: Some("1999".to_string()),
                catalog: None,
                barcode: Some("4988".to_string()),
            })
            .collect(),
        selected: 0,
        scroll: 0,
        prefetch: vec![MbDetail {
            release_id: "id0".to_string(),
            tracks: (1..=9).map(|i| MbTrack { position: i, title: format!("Song {i}") }).collect(),
        }],
    }
}

#[test]
fn releases_are_listed_with_their_tracks() {
    let state = releases(3);
    let (scene, hits) = draw_mb_select(area(0, 0, 100, 40), &state);
    let shown = text(&scene);
    assert!(shown.contains(" MusicBrainz · 3 matches "));
    assert!(shown.contains("▸  1  (untitled)  ·  1999  ·  4988"));
    assert!(shown.contains("   2  Title 1  ·  1999  ·  4988"));
    assert!(shown.contains("   1. Song 1"));
    assert!(shown.contains("  … +3 more"));
    let accept = hits.find_button_rect(&TuiButton::MbSelectAccept).unwrap();
    let cancel = hits.find_button_rect(&TuiButton::MbSelectCancel).unwrap();
    assert_eq!(cancel.x, accept.x + 10);
}

#[test]
fn the_selected_release_is_scrolled_into_view() {
    let mut state = releases(50);
    state.selected = 40;
    let (_, hits) = draw_mb_select(area(0, 0, 100, 40), &state);
    assert!(hits.find_button_rect(&TuiButton::MbSelectRow(40)).is_some());
    assert!(hits.find_button_rect(&TuiButton::MbSelectRow(0)).is_none());
}

#[test]
fn missing_tracks_say_why() {
    let mut state = releases(2);
    let pane = area(0, 0, 40, 7);
    state.selected = 1;
    assert_eq!(text(&draw_mb_select_tracks(&state, pane)), "Fetching tracks…\n");
    state.selected = 5;
    assert_eq!(text(&draw_mb_select_tracks(&state, pane)), "No release selected\n");
    state.selected = 0;
    state.prefetch[0].tracks.clear();
    assert_eq!(text(&draw_mb_select_tracks(&state, pane)), "No tracks in MB record\n");
    state.releases[0].release_id.clear();
    assert_eq!(text(&draw_mb_select_tracks(&state, pane)), "(release has no MBID)\n");
}

#[test]
fn a_batch_keeps_its_cursor_in_view() {
    let source = SourceMode::Batch {
        paths: (0..60).map(|i| format!("/music/album/{i}.flac")).collect(),
        cursor: 59,
    };
    let shown = text(&draw_batch_list(area(0, 0, 80, 24), &source, 0));
    assert!(shown.contains(" batch · 60 files "));
    assert!(shown.contains("   60  album · 59.flac"));
    assert!(!shown.contains("    1  "));
    assert!(draw_batch_list(area(0, 0, 80, 24), &SourceMode::Empty, 0).ops.is_empty());
}

#[test]
fn questions_and_errors_keep_their_lines() {
    let (scene, hits) = draw_confirmation(area(0, 0, 80, 24), "Delete?\nSure?");
    assert!(text(&scene).contains("Delete?\nSure?\n"));
    assert_eq!(hits.recorded_buttons().len(), 2);
    let scene = draw_error_detail(area(0, 0, 80, 24), "first\nsecond");
    assert!(text(&scene).contains(" Error Detail \nfirst\nsecond\n"));
}

fn item(status: ConversionStatus) -> ConversionItem {
    ConversionItem {
        input_path: "/music/in/a.flac".to_string(),
        file_size: 1536,
        input_format: "Flac".to_string(),
        output_format: "MP3".to_string(),
        status,
    }
}

#[test]
fn an_item_shows_its_size_in_binary_units() {
    let scene = draw_item_info(
        area(0, 0, 100, 30),
        &item(ConversionStatus::Partial {
            output_path: "/out".to_string(),
            successful: 3,
            failed: 1,
            report_path: "/log".to_string(),
        }),
    );
    let shown = text(&scene);
    assert!(shown.contains("File: a.flac"));
    assert!(shown.contains("Path: /music/in\n"));
    assert!(shown.contains(&format!("Size: {}\n", humansize::format_size(1536u64, humansize::BINARY))));
    assert!(shown.contains("Size: 1.50 KiB"));
    assert!(shown.contains("Status: Partial (3/4 ok) -> /out"));
    assert!(shown.contains("Log: /log"));
}

#[test]
fn every_status_has_its_words() {
    let cases = [
        (ConversionStatus::NotConfigured, "Not Configured"),
        (ConversionStatus::Queued, "Queued"),
        (ConversionStatus::Paused, "Paused"),
        (ConversionStatus::Cancelled, "Cancelled"),
        (
            ConversionStatus::Processing { progress: "12.5".to_string(), message: None, phase: None },
            "12.5% - Processing",
        ),
        (
            ConversionStatus::Processing {
                progress: "12.5".to_string(),
                message: None,
                phase: Some("Encoding".to_string()),
            },
            "12.5% - Encoding",
        ),
        (
            ConversionStatus::Processing {
                progress: "12.5".to_string(),
                message: Some("track 3".to_string()),
                phase: Some("Encoding".to_string()),
            },
            "12.5% - track 3",
        ),
        (
            ConversionStatus::Completed { output_path: "/o".to_string(), log_path: None },
            "Completed -> /o",
        ),
        (ConversionStatus::Failed { error: "disk".to_string(), log_path: None }, "Failed: disk"),
    ];
    for (status, words) in cases {
        assert_eq!(status_text(&status), words);
        assert_eq!(item_lines(&item(status), "1 B").lines.len(), 6);
    }
}

#[test]
fn text_entry_shows_the_field_and_its_cursor() {
    let scene = draw_file_input(area(0, 0, 80, 24), &input("/music"));
    let shown = text(&scene);
    assert!(shown.contains(" Add File/Folder Path "));
    assert!(shown.contains("/music\n"));
    assert!(scene.ops.iter().any(|op| matches!(op, Op::Cursor { x: 17, y: 10 })));
    let shown = text(&draw_text_edit(area(0, 0, 80, 24), "title", &input("")));
    assert!(shown.contains(" Edit title "));
    assert!(shown.contains("Enter new title:\n \n"));
}

#[test]
fn completions_are_previewed_from_the_current_one_on() {
    let names = ["a", "b", "c", "d", "e", "f", "g"];
    let completion = Some(CompletionState {
        candidates: names.iter().map(|s| s.to_string()).collect(),
        cursor: 5,
    });
    let scene = draw_command_input(area(0, 0, 60, 20), &input("wri"), &completion);
    let shown = text(&scene);
    assert!(shown.contains(":wri\n"));
    assert!(shown.contains("[6/7] f  g  a  b  c  d …\n"));
    assert!(scene.ops.iter().any(|op| matches!(op, Op::Cursor { x: 4, y: 19 })));
    let none = draw_command_input(area(0, 0, 60, 20), &input("wri"), &None);
    assert_eq!(none.ops.len(), 3);
}

fn menu() -> Vec<ContextMenuEntry> {
    vec![
        ContextMenuEntry::Item(ContextMenuItem {
            label: "Open".to_string(),
            shortcut: Some("Enter".to_string()),
            enabled: true,
        }),
        ContextMenuEntry::Separator,
        ContextMenuEntry::Item(ContextMenuItem {
            label: "Rename".to_string(),
            shortcut: None,
            enabled: false,
        }),
        ContextMenuEntry::Submenu { label: "Convert".to_string() },
    ]
}

#[test]
fn only_enabled_entries_can_be_selected() {
    let entries = menu();
    assert_eq!(selected_entry_row_pub(&entries, 0), 0);
    assert_eq!(selected_entry_row_pub(&entries, 1), 3);
    assert_eq!(selected_entry_row(&entries, 2), 0);
}

#[test]
fn a_menu_panel_fills_its_rows() {
    let mut scene = Scene::new();
    let popup = area(5, 5, 20, 6);
    assert_eq!(render_menu_panel_at(&mut scene, &menu(), 1, popup, true), popup);
    let shown = text(&scene);
    assert!(shown.contains(" Open        Enter\n"));
    assert!(shown.contains("──────────────────\n"));
    assert!(shown.contains(" Convert         >\n"));
    let mut empty = Scene::new();
    assert_eq!(
        render_menu_panel_at(&mut empty, &Vec::new(), 0, popup, true),
        area(0, 0, 0, 0)
    );
    assert!(empty.ops.is_empty());
}

#[test]
fn ancestors_of_a_menu_keep_their_submenu_lit() {
    let levels = vec![
        MenuLevel { entries: menu(), selected: 1 },
        MenuLevel { entries: menu(), selected: 0 },
    ];
    let areas = vec![area(0, 0, 20, 6), area(20, 3, 20, 6)];
    let preview = Some(MenuPreview { entries: menu(), area: area(40, 3, 20, 6) });
    let mut scene = Scene::new();
    draw_context_menu_stack(&mut scene, &levels, &areas, &preview);
    let panels: Vec<_> = scene
        .ops
        .iter()
        .filter_map(|op| match op {
            Op::Text { rows, .. } => Some(rows),
            _ => None,
        })
        .collect();
    assert_eq!(panels.len(), 3);
    assert_eq!(panels[0].lines[3].spans[0].style.bg, Tone::Blue);
    assert_eq!(panels[1].lines[0].spans[0].style.bg, Tone::Blue);
    assert!(panels[2].lines.iter().all(|line| line.spans[0].style.bg != Tone::Blue));
}

fn metadata() -> MetadataState {
    MetadataState {
        title: Some("Song".to_string()),
        artist: Some("Band".to_string()),
        album: Some("Record".to_string()),
        genre: None,
        year: Some("1971".to_string()),
        album_artist_for_conversion: None,
        field_focus: ConvertMetadataField::Title,
        editing: None,
        edit_input: input(""),
        file_scroll: 0,
    }
}

#[test]
fn the_metadata_pane_shows_the_tags_of_a_single_file() {
    let source = SourceMode::Single { path: "/m/a.flac".to_string() };
    let mut scene = Scene::new();
    draw_metadata_pane(&mut scene, area(0, 0, 60, 7), &metadata(), &source, true, false);
    let shown = text(&scene);
    let lines: Vec<&str> = shown.lines().collect();
    assert_eq!(lines.len(), 7);
    assert!(lines.iter().all(|line| line.chars().count() == 60));
    assert!(lines[1].starts_with("│   title   Song"));
    assert!(lines[2].contains("artist  Band"));
    assert!(lines[2].contains("album  Record"));
    assert!(lines[3].contains("year   1971"));
    assert!(lines[4].contains("album artist"));
    let mut small = Scene::new();
    draw_metadata_pane(&mut small, area(0, 0, 29, 7), &metadata(), &source, true, false);
    assert!(small.ops.is_empty());
}

#[test]
fn the_metadata_pane_lists_the_files_of_a_batch() {
    let source = SourceMode::Batch {
        paths: (0..30).map(|i| format!("/m/{i}.flac")).collect(),
        cursor: 20,
    };
    let mut scene = Scene::new();
    draw_metadata_pane(&mut scene, area(0, 0, 60, 12), &metadata(), &source, true, true);
    let shown = text(&scene);
    assert!(shown.contains(" 21. 20.flac"));
    assert!(shown.contains("Band · Record"));
    assert!(!shown.contains("  1. 0.flac"));
}

#[test]
fn untitled_tracks_are_numbered() {
    let track = |number, title: Option<&str>| MultiTrackEntry {
        number,
        title: title.map(|t| t.to_string()),
    };
    let source = SourceMode::MultiTrack {
        tracks: vec![track(1, Some("Intro")), track(2, None), track(3, Some(""))],
        cursor: 0,
        archive_preview: None,
        selected_presentation_id: None,
    };
    let mut scene = Scene::new();
    draw_metadata_pane(&mut scene, area(0, 0, 60, 12), &metadata(), &source, false, true);
    let shown = text(&scene);
    assert!(shown.contains("  1. Intro"));
    assert!(shown.contains("  2. track 2"));
    assert!(shown.contains("  3. track 3"));
}

#[test]
fn an_archive_shows_the_track_at_the_cursor() {
    let source = SourceMode::MultiTrack {
        tracks: Vec::new(),
        cursor: 1,
        archive_preview: Some(ArchivePreview {
            tracks: vec![
                ArchivePreviewTrack { original_name: "01.flac".to_string() },
                ArchivePreviewTrack { original_name: "02.flac".to_string() },
            ],
        }),
        selected_presentation_id: None,
    };
    let mut scene = Scene::new();
    draw_metadata_pane(&mut scene, area(0, 0, 60, 9), &metadata(), &source, false, true);
    assert!(text(&scene).contains("   track    2/2 02.flac"));
}

#[test]
fn the_edit_cursor_stays_inside_the_pane() {
    let mut state = metadata();
    state.editing = Some(ConvertMetadataField::Album);
    state.edit_input = input("Record");
    let single = SourceMode::Single { path: "/m/a.flac".to_string() };
    assert_eq!(metadata_edit_cursor(&state, &single, 60), Some((2, 36, 22)));
    let batch = SourceMode::Batch { paths: vec!["/m/a".to_string()], cursor: 0 };
    assert_eq!(metadata_edit_cursor(&state, &batch, 60), None);
    let mut scene = Scene::new();
    draw_metadata_pane(&mut scene, area(10, 3, 60, 7), &state, &single, true, false);
    assert!(scene.ops.iter().any(|op| matches!(op, Op::Cursor { x: 53, y: 5 })));
    let mut blurred = Scene::new();
    draw_metadata_pane(&mut blurred, area(10, 3, 60, 7), &state, &single, false, false);
    assert!(!blurred.ops.iter().any(|op| matches!(op, Op::Cursor { .. })));
}

#[test]
fn list_scrolling_follows_the_cursor() {
    assert_eq!(clamp_scroll(0, 0, 5, 10), 0);
    assert_eq!(clamp_scroll(3, 1, 30, 10), 1);
    assert_eq!(clamp_scroll(0, 15, 30, 10), 6);
    assert_eq!(clamp_scroll(99, 29, 30, 10), 20);
}

#[test]
fn tags_are_summarised_as_far_as_they_are_set() {
    let mut state = metadata();
    assert_eq!(metadata_summary(&state).as_deref(), Some("Band · Record"));
    state.artist = Some(String::new());
    assert_eq!(metadata_summary(&state).as_deref(), Some("Record"));
    state.album = None;
    assert_eq!(metadata_summary(&state), None);
    let row = line_text(&file_row(Tone::Purple, 30, "  1. ", "日本語の長い名前です", "Band", true, true));
    assert!(row.contains('…'));
    assert!(row.ends_with("Band│"));
    let mut bar = Scene::new();
    draw_metadata_title_bar(&mut bar, area(0, 0, 40, 1), false);
    assert!(text(&bar).starts_with("┌ ▸ metadata "));
}

#[test]
fn cue_changes_are_grouped_by_file() {
    let change = |file: &str, new: &str| CueImportChange {
        filename: file.to_string(),
        field: "title".to_string(),
        old_value: String::new(),
        new_value: new.to_string(),
    };
    let changes = vec![change("a.flac", "One"), change("a.flac", "Two\nLines"), change("b.flac", "Three")];
    let shown = text(&draw_cue_import_review(area(0, 0, 120, 40), &changes, 0));
    assert!(shown.contains(" CUE Import Review — 3 changes "));
    assert_eq!(shown.matches("  a.flac\n").count(), 1);
    assert!(shown.contains("    title       (empty) → One\n"));
    assert!(shown.contains("Two↵Lines"));
    assert_eq!(mark_feeds("a\nb"), "a↵b");
}

#[test]
fn found_discs_are_listed_with_their_category() {
    let matches = vec![
        GnudbMatch { category: "rock".to_string(), title: "Band / Record".to_string() },
        GnudbMatch { category: "misc".to_string(), title: "Other".to_string() },
    ];
    let shown = text(&draw_gnudb_select(area(0, 0, 100, 30), &matches, 1, 0));
    assert!(shown.contains(" GNUDB — 2 matches "));
    assert!(shown.contains("   [rock] Band / Record"));
    assert!(shown.contains(" ► [misc] Other"));
}

#[test]
fn format_settings_know_their_size() {
    let kind = FormatSettingsKind::Mp3 {
        mode: Mp3Mode::Vbr,
        vbr_quality_input: input("0"),
        quality_preset: Some(3),
        bitrate_input: input("320"),
    };
    let count = format_settings_field_count(&kind);
    assert!(count > 0);
    assert!(format_settings_min_width(&kind) > 6);
    assert!(format_settings_help_line_count(&kind) > 0);
    let (scene, hits) =
        draw_format_settings(area(0, 0, 100, 40), &kind, FormatSettingsFocus::Mp3Mode, None);
    assert!(!scene.ops.is_empty());
    assert!(hits.find_button_rect(&TuiButton::FormatSettingsMp3Mode(0)).is_some());
    let (help, none) =
        draw_format_settings(area(0, 0, 100, 40), &kind, FormatSettingsFocus::Mp3Mode, Some(0));
    assert!(!help.ops.is_empty());
    assert!(none.recorded_buttons().is_empty());
}

#[test]
fn renames_are_listed_with_their_summary() {
    let state = BulkRenameState {
        focus: BulkRenameFocus::List,
        template_input: input("%NN% %TITLE%"),
        ops: vec![RenameOp {
            target_relative: "01 Song.flac".to_string(),
            status: OpStatus::Pending,
        }],
        sources: vec!["/m/a.flac".to_string()],
        selected: 0,
        scroll: 0,
    };
    let shown = text(&draw_bulk_rename(area(0, 0, 120, 40), &state));
    assert!(shown.contains(" Bulk Rename -- Template "));
    assert!(shown.contains("a.flac"));
    assert!(shown.contains("01 Song.flac"));
    let mut more = state;
    more.sources.push("/m/b.flac".to_string());
    assert_eq!(text(&draw_bulk_rename(area(0, 0, 120, 40), &more)), shown);
}

#[test]
fn the_cue_preview_names_its_file() {
    let state = CuePreviewState {
        write_path: "/m/a.cue".to_string(),
        summary: "1 track".to_string(),
        content: "FILE \"a.flac\" WAVE\n  TRACK 01 AUDIO".to_string(),
        scroll: 0,
        cursor: Some(0),
        edit: None,
        read_only: false,
    };
    let (scene, hits) = draw_cue_preview(area(0, 0, 100, 30), &state);
    assert!(text(&scene).contains(" CUE preview · a.cue "));
    assert!(hits.find_button_rect(&TuiButton::CuePreviewSave).is_some());
}

fn tag(key: &str, value: &str) -> MetadataEntry {
    MetadataEntry {
        display_key: key.to_string(),
        value: value.to_string(),
        saved_value: value.to_string(),
        per_file_values: vec![value.to_string()],
        per_file_saved: vec![value.to_string()],
        is_mixed: false,
        is_binary: false,
        is_synthetic_preview: false,
        summary: String::new(),
        mb_pill: MbRevertPill::Absent,
        mb_field_pill: MbRevertPill::Absent,
        has_mb_proposed: false,
        is_cue_importable: false,
        is_fix_caps_applicable: false,
    }
}

#[test]
fn an_edited_text_is_wrapped_and_its_cursor_row_is_shown() {
    let mut state = fixture();
    state.entries = vec![tag("LYRICS", "old")];
    state.phase = MetadataEditorPhase::InlineEdit;
    let lines: Vec<String> = (0..12).map(|i| format!("verse {i:02}")).collect();
    state.edit_input = Some(input(&lines.join("\r\n")));
    let (scene, _) = draw_metadata_editor(area(0, 0, 100, 30), &state);
    let shown = text(&scene);
    assert!(shown.contains("verse 11"));
    assert!(shown.contains("verse 04"));
    assert!(!shown.contains("verse 03"));
    assert!(!shown.contains('\r'));
    assert!(shown.contains(" LYRICS "));

    state.edit_input = Some(TextInputState {
        text: lines.join("\n"),
        cursor: 0,
        selection_anchor: None,
    });
    let (scene, _) = draw_metadata_editor(area(0, 0, 100, 30), &state);
    let shown = text(&scene);
    assert!(shown.contains("verse 00"));
    assert!(shown.contains("verse 07"));
    assert!(!shown.contains("verse 08"));
}

fn column_of(scene: &Scene, row: &str, part: &str) -> u16 {
    for op in &scene.ops {
        if let Op::Text { area, rows, .. } = op {
            for line in &rows.lines {
                let whole = line_text(line);
                if whole.contains(row) {
                    let at = whole.find(part).expect("the part is on its row");
                    return area.x + whole[..at].chars().count() as u16;
                }
            }
        }
    }
    panic!("no such row")
}

#[test]
fn choices_are_clicked_where_they_are_drawn() {
    let kind = FormatSettingsKind::Mp3 {
        mode: Mp3Mode::Vbr,
        vbr_quality_input: input("0"),
        quality_preset: Some(3),
        bitrate_input: input("320"),
    };
    let (scene, hits) =
        draw_format_settings(area(0, 0, 100, 40), &kind, FormatSettingsFocus::Mp3Mode, None);
    let row = scene
        .ops
        .iter()
        .find_map(|op| match op {
            Op::Text { rows, .. } => {
                rows.lines.iter().find(|line| line_text(line).starts_with("  mode "))
            }
            _ => None,
        })
        .expect("the row of modes");
    for (i, span) in row.spans.iter().skip(1).step_by(2).enumerate() {
        let hit = hits
            .find_button_rect(&TuiButton::FormatSettingsMp3Mode(i))
            .expect("a button for each mode");
        assert_eq!(hit.x, column_of(&scene, "  mode ", &span.text));
        assert_eq!(hit.width as usize, span.text.chars().count());
    }
}

#[test]
fn labels_of_the_cue_preview_are_clicked_where_they_are_drawn() {
    let state = CuePreviewState {
        write_path: "/m/a.cue".to_string(),
        summary: "1 track".to_string(),
        content: "TRACK 01 AUDIO".to_string(),
        scroll: 0,
        cursor: Some(0),
        edit: None,
        read_only: false,
    };
    let (scene, hits) = draw_cue_preview(area(3, 0, 100, 30), &state);
    for (label, button) in [
        (" [Top] ", TuiButton::CuePreviewTop),
        (" [Bottom] ", TuiButton::CuePreviewBottom),
    ] {
        let hit = hits.find_button_rect(&button).expect("the button of the label");
        assert_eq!(hit.x, column_of(&scene, "[Top]", label));
        assert_eq!(hit.width as usize, label.len());
    }
}

fn edited_rows(text: &str, cursor: usize, width: u16) -> Vec<Vec<String>> {
    let mut state = fixture();
    state.entries = vec![tag("LYRICS", "old")];
    state.phase = MetadataEditorPhase::InlineEdit;
    state.edit_input = Some(TextInputState { text: text.to_string(), cursor, selection_anchor: None });
    let (scene, _) = draw_metadata_editor(area(0, 0, width, 30), &state);
    let mut rows = Vec::new();
    for op in &scene.ops {
        if let Op::Text { rows: lines, .. } = op {
            for line in &lines.lines {
                let parts: Vec<String> = line.spans.iter().map(|span| span.text.clone()).collect();
                if line.spans.iter().skip(1).any(|span| span.style.bg == Tone::Rgb(30, 30, 46)) {
                    rows.push(parts);
                }
            }
        }
    }
    rows
}

#[test]
fn the_cursor_of_an_edited_text_is_always_in_a_row() {
    let wide = edited_rows(&format!("{}\nx", "a".repeat(10)), 0, 100);
    let columns: usize = wide[1][1].chars().count();
    assert_eq!(wide.len(), 2);

    // A text that fills its only row to the end, and one that fills the first of two.
    let full = "b".repeat(columns);
    let ended = format!("{full}\n");
    for (text, cursor, row, before) in [
        (format!("{full}\r\n"), columns, 0, full.clone()),
        (format!("{full}\nx"), columns, 0, full.clone()),
        (format!("{full}\nx"), columns + 1, 1, String::new()),
        (format!("{full}c\n"), columns, 1, String::new()),
        (format!("x\n{full}"), columns + 2, 1, full.clone()),
        (ended, columns + 1, 1, String::new()),
        ("a\r\rb".to_string(), 3, 2, String::new()),
        ("a\r\rb".to_string(), 4, 2, "b".to_string()),
    ] {
        let rows = edited_rows(&text, cursor, 100);
        let with_cursor: Vec<usize> =
            (0..rows.len()).filter(|i| rows[*i].len() == 4).collect();
        assert_eq!(with_cursor, vec![row], "{text:?} at {cursor}");
        assert_eq!(rows[row][1], before, "{text:?} at {cursor}");
    }
}
