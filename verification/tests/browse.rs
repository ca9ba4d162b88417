use tonepoet_tui::browse::{
    ArchiveView, BookmarkEntry, BookmarkTargetStatus, BookmarksState, BrowseDirectorySummaryColdWorkPolicy,
    BrowseEntry, BrowseFacts, BrowseInlineEditState, BrowseInlineEditTarget, BrowseNavigation,
    BrowseOptions, BrowseOptionsMenu, BrowseState, BrowseTreeNode, CachedInfo, ColumnChoice, DirStats,
    EntryKind, FolderAudioSummary, FolderClassificationKind, FolderContentClassification,
    FolderUnitSummary, PreemphasisAdvisory, PreemphasisConfidence, ProbeRollup, SearchState, SourceInfo,
    SourceMetadata, TabInfo,
};
use tonepoet_tui::button_map::{BrowseColumn, BrowsePaneId, ButtonRenderMap, SortDir, TuiButton};
use tonepoet_tui::disc::{
    DiscContents, DiscMetadata, DiscPresentation, DiscProbeCacheEntry, DiscProbeOutcome, PresentationId,
    SacdAreaId,
};
use tonepoet_tui::display_width;
use tonepoet_tui::draw_browse::columns::{
    browse_column_layout, entry_column_text, pad_or_truncate, BrowseColumnCell,
};
use tonepoet_tui::draw_browse::explore::{
    draw_collapsed_pane, draw_explore_pane, explore_tree_capacity, render_browse_tree_node_line, tree_scroll_request,
};
use tonepoet_tui::draw_browse::info::{browse_preemphasis_status_text, entry_info_lines, InfoContent};
use tonepoet_tui::draw_browse::list::{
    browse_scan_progress_text, draw_breadcrumb_inline, draw_browse_list, draw_vertical_scrollbar,
    effective_entry_capacity, list_scroll_request, register_browse_buttons, render_entry_line,
    render_path_input_spans, truncate_for_disc_overlay, ScrollRequest, ScrollbarMetrics,
};
use tonepoet_tui::draw_browse::menus::{
    active_options_menu_rows, bookmark_dropdown_fits, bookmark_dropdown_rows,
    browse_toolbar_area_for_screen, clamp_menu_x, draw_bookmarks_dropdown, horizontal_overlap,
    options_button_anchor_for_toolbar, options_menu_geometry_for_area, options_menu_panel_width,
    options_menu_row_hitbox, options_root_rows, options_submenu_area, options_submenu_rows,
};
use tonepoet_tui::draw_browse::screen::browse_content_layout;
use tonepoet_tui::draw_browse::search::{
    browse_entry_y_start, browse_header_y, browse_search_controls_y, browse_search_input_y,
    clipped_inner_row_rect, search_control_row_layout, SearchControlKind, SearchControlLayoutItem,
};
use tonepoet_tui::draw_browse::tabs::{draw_browse_tab_strip, middle_truncate_tab_label};
use tonepoet_tui::draw_browse::toolbar::{
    draw_browse_toolbar, BROWSE_PATH_GO_LABEL, BROWSE_PATH_GO_WIDTH,
};
use tonepoet_tui::geometry::Rect;
use tonepoet_tui::inline_edit::TextInputState;
use tonepoet_tui::scene::{Line, Op, Scene};
use tonepoet_tui::style::Tone;
use std::sync::Arc;

fn area(x: u16, y: u16, width: u16, height: u16) -> Rect {
    Rect { x, y, width, height }
}

fn input(text: &str) -> TextInputState {
    TextInputState { text: text.to_string(), cursor: text.chars().count(), selection_anchor: None }
}

fn choice(column: BrowseColumn, label: &str) -> ColumnChoice {
    ColumnChoice { column, label: label.to_string() }
}

fn facts() -> BrowseFacts {
    BrowseFacts {
        in_archive: false,
        archive_staging_active: false,
        archive_entries: Vec::new(),
        cached_info: None,
        dir_stats: None,
        dir_stats_pending: Vec::new(),
        classification: None,
        classification_pending: Vec::new(),
        disc_probe_cache: Vec::new(),
        disc_probe_pending: Vec::new(),
        disc_probe_followup: Vec::new(),
        cold_work_policy: BrowseDirectorySummaryColdWorkPolicy::Eager,
    }
}

fn browse_state() -> BrowseState {
    BrowseState {
        current_dir: "/music/album".to_string(),
        entries: Vec::new(),
        selected_index: 0,
        scroll_offset: 0,
        visible_height: 10,
        columns: vec![BrowseColumn::Name, BrowseColumn::Size],
        sort_by: BrowseColumn::Name,
        sort_dir: SortDir::Asc,
        error: None,
        scan_pending: false,
        scan_discovered_count: 0,
        multi_selected: Vec::new(),
        range_preview: None,
        files_navigation_active: true,
        search: SearchState {
            active: false,
            input: input(""),
            input_focused: false,
            recursive: true,
            mode_label: "filename".to_string(),
            sort_label: "relevance".to_string(),
            sort_dir: SortDir::Asc,
            audio_only: false,
        },
        filter_input: None,
        filter_text: String::new(),
        type_ahead_active: false,
        type_ahead_buffer: String::new(),
        path_input: None,
        archive: None,
        probes: Vec::new(),
        facts: facts(),
        show_hidden: false,
        explore_enabled: true,
        info_enabled: true,
        nav: BrowseNavigation {
            explore_collapsed: false,
            info_collapsed: false,
            can_go_back: false,
            can_go_forward: false,
            tree_nodes: Vec::new(),
            tree_cursor: 0,
            tree_scroll: 0,
            tree_visible_height: 10,
            tree_navigation_active: false,
            tabs: Vec::new(),
            active_tab: 0,
            has_closed_tabs: false,
        },
        options: BrowseOptions {
            options_menu: BrowseOptionsMenu::Closed,
            options_menu_highlight: None,
            default_sort_by: BrowseColumn::Name,
            default_sort_dir: SortDir::Asc,
            column_choices: vec![choice(BrowseColumn::Name, "Name"), choice(BrowseColumn::Artist, "Artist")],
            sort_choices: vec![choice(BrowseColumn::Name, "Name"), choice(BrowseColumn::Size, "Size")],
            filter_choices: vec!["All files".to_string(), "FLAC".to_string()],
            format_filter: 1,
        },
        return_target: None,
        last_render_area: None,
    }
}

fn entry(path: &str, name: &str, kind: EntryKind, size: u64) -> BrowseEntry {
    BrowseEntry {
        path: path.to_string(),
        name: name.to_string(),
        kind,
        size,
        date_label: String::new(),
        type_label: String::new(),
        is_symlink: false,
        is_broken_symlink: false,
    }
}

fn audio_entry() -> BrowseEntry {
    entry("/tmp/track.flac", "track.flac", EntryKind::AudioFile("FLAC".to_string()), 1024)
}

fn no_metadata() -> SourceMetadata {
    SourceMetadata {
        title: None,
        artist: None,
        album: None,
        genre: None,
        year: None,
        catalog_number: None,
        rg_track_gain: None,
        rg_track_peak: None,
        rg_album_gain: None,
        rg_album_peak: None,
        r128_track_gain: None,
        r128_album_gain: None,
        hdcd_detail: None,
        preemphasis_metadata: None,
    }
}

fn cached_info() -> CachedInfo {
    CachedInfo {
        source: SourceInfo {
            format_name: "FLAC".to_string(),
            codec: "PCM".to_string(),
            codec_display: "PCM".to_string(),
            bit_depth: Some(24),
            sample_rate: 96_000,
            sample_rate_display: "96kHz".to_string(),
            channels: 2,
            channels_display: "stereo".to_string(),
            duration_display: Some("2:03".to_string()),
            file_size: 1024,
            size_display: "1.0 KB".to_string(),
        },
        metadata: SourceMetadata {
            artist: Some("Artist".to_string()),
            album: Some("Album".to_string()),
            ..no_metadata()
        },
    }
}

fn text_of(line: &Line) -> String {
    line.spans.iter().map(|span| span.text.as_str()).collect()
}

fn flatten(info: &InfoContent) -> String {
    info.lines.lines.iter().map(text_of).collect::<Vec<_>>().join("\n")
}

/// The characters of the row `y`, as the scene paints them, with one column each.
fn painted_row(scene: &Scene, y: u16, width: u16) -> Vec<char> {
    let mut row = vec![' '; width as usize];
    for op in &scene.ops {
        if let Op::Text { area, rows, .. } = op {
            if y < area.y || y >= area.y + area.height {
                continue;
            }
            if let Some(line) = rows.lines.get((y - area.y) as usize) {
                for (i, c) in text_of(line).chars().take(area.width as usize).enumerate() {
                    let x = area.x as usize + i;
                    if x < row.len() {
                        row[x] = c;
                    }
                }
            }
        }
    }
    row
}

fn width_of(line: &Line) -> usize {
    line.spans.iter().map(|span| display_width::width(span.text.as_str())).sum()
}

fn summary(track_count: usize) -> FolderAudioSummary {
    FolderAudioSummary {
        track_count,
        dominant_format: if track_count > 0 { Some("FLAC".to_string()) } else { None },
        mixed_format: false,
        rollup: ProbeRollup {
            profile_counts: Vec::new(),
            mixed_profiles: false,
            dominant_profile: None,
            total_duration: None,
            probed_count: 0,
        },
        probe_work_in_flight: false,
    }
}

fn classified(kind: FolderClassificationKind, audio: FolderAudioSummary) -> FolderContentClassification {
    FolderContentClassification {
        kind,
        audio,
        units: Vec::new(),
        unit_count: 1,
        disc_marker: None,
        disc_image: None,
    }
}

fn info_of(entry: &BrowseEntry, facts: &BrowseFacts) -> (String, InfoContent) {
    let info = entry_info_lines(entry, facts, 96, false, false, false, None, None);
    (flatten(&info), info)
}

#[test]
fn inline_create_reserves_one_authoritative_entry_row() {
    assert_eq!(effective_entry_capacity(10, false), 10);
    assert_eq!(effective_entry_capacity(10, true), 9);
    assert_eq!(effective_entry_capacity(0, true), 0);

    let visible = effective_entry_capacity(10, true);
    let final_offset = 100usize.saturating_sub(visible);
    assert_eq!(final_offset, 91);
}

#[test]
fn dropdown_minimum_geometry_is_explicit() {
    assert!(!bookmark_dropdown_fits(area(0, 0, 7, 6)));
    assert!(!bookmark_dropdown_fits(area(0, 0, 8, 5)));
    assert!(bookmark_dropdown_fits(area(0, 0, 8, 6)));
}

#[test]
fn layout_gives_recovered_explore_space_to_browse_pane() {
    let mut browse = browse_state();
    browse.explore_enabled = false;
    browse.info_enabled = true;
    browse.nav.explore_collapsed = false;
    browse.nav.info_collapsed = false;

    for width in [99, 100, 101] {
        let chunks = browse_content_layout(area(0, 0, width, 10), &browse);
        let expected_info = width / 3;

        assert_eq!(chunks[0].width, 0);
        assert_eq!(chunks[1].width, width - expected_info);
        assert_eq!(chunks[2].width, expected_info);
        assert!(chunks[2].width <= width / 3, "info pane exceeded one-third cap at width {width}");
    }
}

#[test]
fn layout_gives_recovered_info_space_to_browse_pane() {
    let mut browse = browse_state();
    browse.explore_enabled = true;
    browse.info_enabled = false;
    browse.nav.explore_collapsed = false;
    browse.nav.info_collapsed = false;

    let chunks = browse_content_layout(area(0, 0, 100, 10), &browse);

    assert_eq!(chunks[0].width, 20);
    assert_eq!(chunks[1].width, 80);
    assert_eq!(chunks[2].width, 0);
}

#[test]
fn archive_listing_submenu_marks_current_mode() {
    let mut browse = browse_state();
    browse.options.options_menu = BrowseOptionsMenu::ArchiveListing;

    let (_, rows) = options_submenu_rows(&browse, "never").expect("archive rows");

    assert!(rows[0].0.starts_with(" ○ Auto"));
    assert!(rows[1].0.starts_with(" ○ Always"));
    assert!(rows[2].0.starts_with(" ● Never"));
}

#[test]
fn archive_listing_submenu_treats_unknown_mode_as_auto() {
    let mut browse = browse_state();
    browse.options.options_menu = BrowseOptionsMenu::ArchiveListing;

    let (_, rows) = options_submenu_rows(&browse, "unexpected").expect("archive rows");

    assert!(rows[0].0.starts_with(" ● Auto"));
    assert!(rows[1].0.starts_with(" ○ Always"));
    assert!(rows[2].0.starts_with(" ○ Never"));
}

#[test]
fn submenu_geometry_prefers_right_when_there_is_room() {
    let outer = area(0, 0, 100, 20);
    let root = area(30, 1, 24, 10);

    let submenu = options_submenu_area(root, 20, 8, root.y, outer);

    assert_eq!(submenu.x, root.x + root.width);
    assert_eq!(horizontal_overlap(submenu.x, submenu.width, root.x, root.width), 0);
}

#[test]
fn submenu_geometry_flips_left_before_overlapping_root() {
    let outer = area(0, 0, 60, 20);
    let root = area(30, 1, 24, 10);

    let submenu = options_submenu_area(root, 20, 8, root.y, outer);

    assert_eq!(submenu.x + submenu.width, root.x);
    assert_eq!(horizontal_overlap(submenu.x, submenu.width, root.x, root.width), 0);
}

#[test]
fn submenu_geometry_stays_in_bounds_when_overlap_is_unavoidable() {
    let outer = area(0, 0, 30, 20);
    let root = area(5, 1, 22, 10);

    let submenu = options_submenu_area(root, 20, 8, root.y, outer);

    assert!(submenu.x >= outer.x);
    assert!(submenu.x + submenu.width <= outer.x + outer.width);
}

#[test]
fn submenu_geometry_anchors_to_parent_row() {
    let outer = area(0, 0, 100, 20);
    let root = area(30, 1, 24, 10);
    let preferred_y = root.y + 1 + 4;

    let submenu = options_submenu_area(root, 20, 8, preferred_y, outer);

    assert_eq!(submenu.y, preferred_y);
}

#[test]
fn options_menu_geometry_places_layout_submenu_on_parent_row() {
    let mut browse = browse_state();
    browse.options.options_menu = BrowseOptionsMenu::Layout;
    let screen = area(0, 0, 120, 30);
    let toolbar = browse_toolbar_area_for_screen(screen);

    let geometry = options_menu_geometry_for_area(
        options_button_anchor_for_toolbar(toolbar),
        screen,
        &browse,
        "auto",
    );
    let submenu = geometry.submenu_area.expect("layout submenu");

    assert_eq!(submenu.y, geometry.root_area.y + 2);
    assert!(geometry.contains(submenu.x + 1, submenu.y));
}

#[test]
fn options_menu_geometry_respects_nonzero_browse_area_origin() {
    let mut browse = browse_state();
    browse.options.options_menu = BrowseOptionsMenu::Layout;
    let screen = area(7, 3, 120, 30);
    let toolbar = browse_toolbar_area_for_screen(screen);

    let geometry = options_menu_geometry_for_area(
        options_button_anchor_for_toolbar(toolbar),
        screen,
        &browse,
        "auto",
    );
    let submenu = geometry.submenu_area.expect("layout submenu");

    assert!(geometry.root_area.x >= screen.x);
    assert_eq!(geometry.root_area.y, screen.y + 9);
    assert!(submenu.x >= screen.x);
    assert!(submenu.y >= screen.y);
    assert!(geometry.contains(submenu.x + 1, submenu.y));
}

#[test]
fn submenu_geometry_clamps_to_terminal_bottom() {
    let outer = area(0, 0, 100, 12);
    let root = area(30, 1, 24, 10);
    let preferred_y = 10;

    let submenu = options_submenu_area(root, 20, 8, preferred_y, outer);

    assert_eq!(submenu.y, 4);
    assert!(submenu.y + submenu.height <= outer.y + outer.height);
}

#[test]
fn options_menu_hitboxes_match_bordered_panel_inner_rows() {
    let panel = area(10, 4, 24, 7);

    assert_eq!(options_menu_row_hitbox(panel, 0), Some(area(11, 5, 22, 1)));
    assert_eq!(options_menu_row_hitbox(panel, 4), Some(area(11, 9, 22, 1)));
    assert_eq!(options_menu_row_hitbox(panel, 5), None);
}

fn assert_layout_inside(inner_width: usize, items: &[SearchControlLayoutItem]) {
    for item in items {
        assert!((item.x as usize) + (item.width as usize) <= inner_width);
    }
}

#[test]
fn search_panel_row_order_keeps_header_attached_to_results() {
    let area = area(10, 4, 90, 20);

    assert_eq!(browse_search_input_y(area), 5);
    assert_eq!(browse_search_controls_y(area), 6);
    assert_eq!(browse_header_y(area, true), 7);
    assert_eq!(browse_entry_y_start(area, true), 8);

    assert!(browse_search_input_y(area) < browse_search_controls_y(area));
    assert!(browse_search_controls_y(area) < browse_header_y(area, true));
    assert!(browse_header_y(area, true) < browse_entry_y_start(area, true));
}

#[test]
fn search_control_layout_matches_full_width_visual_order() {
    let items = search_control_row_layout(80, true, "filename", "relevance", SortDir::Asc, false);

    assert_eq!(
        items.iter().map(|item| item.kind).collect::<Vec<_>>(),
        vec![
            SearchControlKind::Recursive,
            SearchControlKind::Mode,
            SearchControlKind::Sort,
            SearchControlKind::Audio,
        ]
    );
    assert_eq!(items[0].label, " recursive ✓ ");
    assert_eq!(items[1].label, " mode: filename ");
    assert_eq!(items[2].label, " sort: relevance ▲ ");
    assert_eq!(items[3].label, " all files ");
    assert_layout_inside(80, &items);
}

#[test]
fn search_control_layout_compacts_before_clipping() {
    let items = search_control_row_layout(30, true, "filename", "relevance", SortDir::Desc, true);

    assert_eq!(items.len(), 4);
    assert_eq!(items[0].label, " r✓ ");
    assert_eq!(items[1].label, " m:f ");
    assert_eq!(items[2].label, " s▼ ");
    assert_eq!(items[3].label, " a✓ ");
    assert_layout_inside(30, &items);
}

#[test]
fn search_control_layout_never_overflows_narrow_rows() {
    for inner_width in 0..64 {
        let items =
            search_control_row_layout(inner_width, true, "filename", "relevance", SortDir::Asc, false);
        assert_layout_inside(inner_width, &items);
    }
}

#[test]
fn search_control_hitboxes_are_clipped_to_inner_panel() {
    let area = area(20, 3, 12, 8);
    let inner_width = area.width.saturating_sub(2) as usize;
    let items = search_control_row_layout(inner_width, true, "filename", "relevance", SortDir::Asc, true);
    let y = browse_search_controls_y(area);

    for item in &items {
        let rect = clipped_inner_row_rect(area, y, item.x, item.width).expect("visible hitbox");
        assert!(rect.x >= area.x + 1);
        assert!(rect.x + rect.width <= area.x + area.width - 1);
        assert_eq!(rect.y, y);
        assert_eq!(rect.height, 1);
    }
}

#[test]
fn possible_catalog_advisory_is_never_rendered_as_detected() {
    let advisory = PreemphasisAdvisory {
        confidence: PreemphasisConfidence::Possible,
        catalog: Some("35DP-150".to_string()),
        detail: "folder exact match".to_string(),
    };
    let rendered = browse_preemphasis_status_text(&advisory);
    assert_eq!(rendered, "possible (catalog 35DP-150)");
    assert!(!rendered.contains("detected"));
}

#[test]
fn preemphasis_without_evidence_shows_the_verdict_alone() {
    let advisory = PreemphasisAdvisory {
        confidence: PreemphasisConfidence::Detected,
        catalog: None,
        detail: " \u{3000}\t".to_string(),
    };
    assert_eq!(browse_preemphasis_status_text(&advisory), "detected");
}

#[test]
fn audio_columns_preserve_display_values_without_intermediate_clones() {
    let entry = audio_entry();
    let cached = cached_info();

    assert_eq!(entry_column_text(&entry, BrowseColumn::Format, Some(&cached)), "FLAC");
    assert_eq!(entry_column_text(&entry, BrowseColumn::Artist, Some(&cached)), "Artist");
    assert_eq!(entry_column_text(&entry, BrowseColumn::Album, Some(&cached)), "Album");
    assert_eq!(
        pad_or_truncate(
            entry_column_text(&entry, BrowseColumn::Artist, Some(&cached)).as_ref(),
            8,
            false,
        ),
        "Artist  "
    );
}

#[test]
fn entry_rows_keep_right_border_at_exact_display_width() {
    let browse = browse_state();
    let width = 40usize;
    let columns = vec![BrowseColumnCell { column: BrowseColumn::Name, width: width - 8 }];

    for name in ["Japan Epic 25 ・ 8P-5137", "日本語アルバム", "e\u{301}lan vital"] {
        let entry = entry(&format!("/tmp/{name}"), name, EntryKind::OtherFile, 0);
        let line = render_entry_line(
            Tone::BorderDim,
            width,
            &columns,
            &browse,
            &entry,
            None,
            false,
            false,
            false,
            false,
        );
        assert_eq!(width_of(&line), width, "{name}");
        assert_eq!(line.spans.last().map(|span| span.text.as_str()), Some("│"), "{name}");
    }
}

#[test]
fn selected_row_restyle_preserves_inline_editor_field_and_selection_styles() {
    let browse = browse_state();
    let width = 40usize;
    let columns = vec![BrowseColumnCell { column: BrowseColumn::Name, width: width - 8 }];
    let entry = audio_entry();
    let input = TextInputState {
        text: "track.flac".to_string(),
        cursor: "track.flac".len(),
        selection_anchor: Some(0),
    };

    let line = render_entry_line(
        Tone::BorderDim,
        width,
        &columns,
        &browse,
        &entry,
        Some(&input),
        true,
        false,
        false,
        false,
    );

    assert!(
        line.spans.iter().any(|span| span.style.bg == Tone::InputFocusedBg),
        "inline editor field background must survive selected-row styling"
    );
    assert!(
        line.spans
            .iter()
            .any(|span| span.style.bg == Tone::TextBright && span.style.fg == Tone::Bg),
        "inline editor selection must retain inverse-video styling"
    );
}

#[test]
fn placeholder_and_padding_output_remain_unchanged() {
    let other = entry("/tmp/readme.txt", "readme.txt", EntryKind::OtherFile, 12);

    assert_eq!(entry_column_text(&other, BrowseColumn::Artist, None), "—");
    assert_eq!(
        pad_or_truncate(entry_column_text(&other, BrowseColumn::Artist, None).as_ref(), 4, false),
        "—   "
    );
    assert_eq!(
        pad_or_truncate(entry_column_text(&other, BrowseColumn::Size, None).as_ref(), 6, true),
        "  12 B"
    );
}

#[test]
fn album_classification_renders_track_format_and_probe_state() {
    let entry = entry("/music/album", "album", EntryKind::Directory, 0);
    let mut facts = facts();
    facts.classification = Some(classified(FolderClassificationKind::Album, summary(2)));

    let (rendered, info) = info_of(&entry, &facts);

    assert!(rendered.contains("album folder"));
    assert!(rendered.contains("2 tracks · FLAC"));
    assert!(!rendered.contains("probing..."));
    assert!(info.audio_streams_pill_row.is_none());
}

#[test]
fn multidisc_classification_renders_disc_count_total_tracks_and_unit_rows() {
    let entry = entry("/music/album", "album", EntryKind::Directory, 0);
    let mut found = classified(FolderClassificationKind::MultiDisc, summary(2));
    found.unit_count = 2;
    found.units = vec![
        FolderUnitSummary { name: "Disc 1".to_string(), disc_marker: None, audio: summary(1) },
        FolderUnitSummary { name: "Disc 2".to_string(), disc_marker: None, audio: summary(1) },
    ];
    let mut facts = facts();
    facts.classification = Some(found);

    let (rendered, _) = info_of(&entry, &facts);

    assert!(rendered.contains("multi-disc album"));
    assert!(rendered.contains("2 discs · 2 tracks · FLAC"));
    assert!(!rendered.contains("probing..."));
    assert!(rendered.contains("Disc 1: 1 track · FLAC"));
    assert!(rendered.contains("Disc 2: 1 track · FLAC"));
}

#[test]
fn collection_classification_without_stats_renders_neutral_directory_label() {
    let entry = entry("/music/artist", "artist", EntryKind::Directory, 0);
    let mut found = classified(FolderClassificationKind::Collection, summary(0));
    found.unit_count = 24;
    let mut facts = facts();
    facts.classification = Some(found);

    let (rendered, _) = info_of(&entry, &facts);

    assert!(rendered.contains("kind    directory"));
    assert!(!rendered.contains("collection · 24 albums"));
    assert!(!rendered.contains("probing..."));
    assert!(!rendered.contains("streams:"));
}

#[test]
fn collection_classification_uses_old_style_directory_stats_as_primary_summary_when_available() {
    let entry = entry("/music/artist", "artist", EntryKind::Directory, 0);
    let mut found = classified(FolderClassificationKind::Collection, summary(0));
    found.unit_count = 24;
    let mut facts = facts();
    facts.classification = Some(found);
    facts.dir_stats = Some(DirStats {
        folder_count: 24,
        file_count: 312,
        audio_count: 247,
        audio_size: 12_400_000_000,
        total_size: 14_100_000_000,
    });

    let (rendered, _) = info_of(&entry, &facts);

    assert!(rendered.contains("folders     24 folders"));
    assert!(rendered.contains("files       312 files (13.1 GB)"));
    assert!(rendered.contains("audio files 247 audio files (11.5 GB)"));
    assert!(!rendered.contains("collection · 24 albums"));
    assert!(!rendered.contains("kind    collection"));
}

#[test]
fn directory_only_collection_renders_old_style_stats_not_collection_label() {
    let mut entry = entry("/music/artist", "artist", EntryKind::Directory, 0);
    entry.date_label = "1970-01-11".to_string();
    let mut found = classified(FolderClassificationKind::Collection, summary(0));
    found.unit_count = 0;
    let mut facts = facts();
    facts.classification = Some(found);
    facts.dir_stats = Some(DirStats {
        folder_count: 18,
        file_count: 247,
        audio_count: 192,
        audio_size: 42_000_000_000,
        total_size: 45_000_000_000,
    });

    let (rendered, _) = info_of(&entry, &facts);

    assert!(rendered.contains("folders     18 folders"));
    assert!(rendered.contains("files       247 files (41.9 GB)"));
    assert!(rendered.contains("audio files 192 audio files (39.1 GB)"));
    assert!(rendered.contains("updated"));
    assert!(!rendered.contains("collection · many albums"));
    assert!(!rendered.contains("kind    collection"));
}

fn presentation(id: PresentationId, label: &str) -> DiscPresentation {
    DiscPresentation {
        id,
        label: label.to_string(),
        tracks: Vec::new(),
        load_error: None,
        details: Vec::new(),
    }
}

fn disc_contents(path: &str, streams: &[&str], protection: &str) -> DiscContents {
    let n = streams.len();
    DiscContents {
        label: "BD".to_string(),
        source_path: path.to_string(),
        presentations: (0..n)
            .map(|i| {
                presentation(
                    PresentationId::BluRayTitle { title: i as u32 + 1, pid: 0x1101, clip: 0, chapter: 1 },
                    streams[i],
                )
            })
            .collect(),
        metadata: DiscMetadata { title: None, artist: None, album: None, genre: None, year: None },
        copy_protection: protection.to_string(),
        summary_lines: vec![if n == 1 {
            format!("content: {n} audio stream · {n} track")
        } else {
            format!("content: {n} audio streams · {n} tracks")
        }],
        stream_lines: streams.iter().map(|s| s.to_string()).collect(),
    }
}

fn disc_facts(path: &str, contents: DiscContents) -> BrowseFacts {
    let mut facts = facts();
    facts.disc_probe_cache = vec![DiscProbeCacheEntry {
        path: path.to_string(),
        current: true,
        outcome: DiscProbeOutcome::Contents(Arc::new(contents)),
    }];
    facts
}

const SEVEN: [&str; 7] = [
    "LPCM 24-bit/96kHz stereo",
    "LPCM 24-bit/96kHz 5.1",
    "LPCM 24-bit/96kHz stereo",
    "TrueHD 24-bit/96kHz 5.1",
    "DTS-HD MA 24-bit/96kHz 5.1",
    "AC3 24-bit/96kHz 5.1",
    "AC3 24-bit/96kHz stereo",
];

fn disc_folder(marker: &str) -> FolderContentClassification {
    FolderContentClassification {
        disc_marker: Some(marker.to_string()),
        ..classified(FolderClassificationKind::Disc, summary(0))
    }
}

#[test]
fn classified_disc_folder_renders_existing_disc_summary_streams_and_cap() {
    let root = "/discs/FRAGILE";
    let entry = entry(root, "FRAGILE", EntryKind::Directory, 0);
    let mut facts = disc_facts(root, disc_contents(root, &SEVEN, "none"));
    facts.classification = Some(disc_folder("Blu-ray"));

    let (rendered, info) = info_of(&entry, &facts);

    assert!(rendered.contains("Blu-ray disc folder"));
    assert!(rendered.contains("content: 7 audio streams · 7 tracks"));
    assert!(rendered.contains("streams:"));
    assert!(rendered.contains("LPCM 24-bit/96kHz stereo"));
    assert!(rendered.contains("... and 1 more"));
    assert!(!rendered.contains("copy protection"));
    assert!(info.audio_streams_pill_row.is_some());
}

#[test]
fn classified_iso_folders_show_audio_streams_for_one_presentation_across_disc_markers() {
    let cases = [
        ("DVD-Audio", "dvda.iso", PresentationId::DvdAudioGroup(1)),
        ("DVD-Video", "dvdv.iso", PresentationId::DvdVideo { title: 1, audio: 1, angle: 0 }),
        ("SACD", "sacd.iso", PresentationId::SacdArea(SacdAreaId::Stereo)),
        ("Blu-ray", "bluray.iso", PresentationId::BluRayTitle { title: 1, pid: 0x1101, clip: 0, chapter: 1 }),
    ];

    for (marker, file_name, id) in cases {
        let root = "/discs/album";
        let nested_iso = format!("{root}/{file_name}");
        let entry = entry(root, "album", EntryKind::Directory, 0);
        let mut contents = disc_contents(&nested_iso, &["stream 1"], "none");
        contents.presentations[0].id = id;
        let mut facts = disc_facts(&nested_iso, contents);
        let mut found = disc_folder(marker);
        found.units = vec![FolderUnitSummary {
            name: file_name.to_string(),
            disc_marker: Some(marker.to_string()),
            audio: summary(0),
        }];
        found.disc_image = Some(nested_iso.clone());
        facts.classification = Some(found);

        let (rendered, info) = info_of(&entry, &facts);

        assert!(
            info.audio_streams_pill_row.is_some(),
            "{marker:?} folder with one presentation must expose audio streams",
        );
        assert!(rendered.contains("content: 1 audio stream"));
    }
}

#[test]
fn disc_folder_renders_copy_protection_only_when_not_none() {
    let root = "/discs/PROTECTED";
    let entry = entry(root, "PROTECTED", EntryKind::Directory, 0);
    let mut facts = disc_facts(root, disc_contents(root, &SEVEN, "  AACS  "));
    facts.classification = Some(disc_folder("Blu-ray"));

    let (rendered, _) = info_of(&entry, &facts);

    assert!(rendered.contains("copy protection AACS"));
}

#[test]
fn disc_folder_suppresses_whitespace_padded_none_copy_protection() {
    let root = "/discs/UNPROTECTED";
    let entry = entry(root, "UNPROTECTED", EntryKind::Directory, 0);
    let mut facts = disc_facts(root, disc_contents(root, &SEVEN, "  none  "));
    facts.classification = Some(disc_folder("Blu-ray"));

    let (rendered, _) = info_of(&entry, &facts);

    assert!(!rendered.contains("copy protection"));
}

#[test]
fn cached_only_classified_disc_without_cache_does_not_claim_analyzing() {
    let root = "/discs/Cached Only Disc";
    let entry = entry(root, "Cached Only Disc", EntryKind::Directory, 0);
    let mut facts = facts();
    facts.classification = Some(disc_folder("Blu-ray"));
    facts.cold_work_policy = BrowseDirectorySummaryColdWorkPolicy::CachedOnly;

    let (rendered, info) = info_of(&entry, &facts);

    assert!(rendered.contains("Blu-ray disc folder"));
    assert!(rendered.contains("disc summary not cached"));
    assert!(
        !rendered.contains("Analyzing disc…"),
        "cached-only mode must not claim a worker is running when none is pending"
    );
    assert!(info.audio_streams_pill_row.is_none());
}

#[test]
fn native_sacd_iso_renders_compact_disc_stream_summary() {
    let iso = "/discs/album.iso";
    let entry = entry(iso, "album.iso", EntryKind::SacdIso, 18);
    let facts = disc_facts(
        iso,
        disc_contents(iso, &["DSD 2.8MHz 5.1", "DSD 2.8MHz stereo"], "none"),
    );

    let (rendered, info) = info_of(&entry, &facts);

    assert!(rendered.contains("SACD ISO (ScarletBook)"));
    assert!(rendered.contains("content: 2 audio streams · 2 tracks"));
    assert!(rendered.contains("streams:"));
    assert!(rendered.contains("DSD 2.8MHz stereo"));
    assert!(rendered.contains("DSD 2.8MHz 5.1"));
    assert!(info.audio_streams_pill_row.is_some());
    assert!(info.edit_tags_pill_row.is_some());
}

fn tab(index: usize, label: &str, active: bool) -> TabInfo {
    TabInfo { index, label: label.to_string(), active, loading: false, has_selection: false }
}

fn two_tabs(a: &str, b: &str) -> BrowseState {
    let mut browse = browse_state();
    browse.nav.tabs = vec![tab(0, a, true), tab(1, b, false)];
    browse.nav.active_tab = 0;
    browse
}

#[test]
fn browse_tab_close_glyph_sits_under_its_click_region() {
    let browse = two_tabs("aa", "bb");
    let strip = area(0, 0, 60, 1);
    let mut scene = Scene::new();
    let mut buttons = ButtonRenderMap::new();
    draw_browse_tab_strip(&mut scene, strip, &browse, &mut buttons);
    let row = painted_row(&scene, 0, 60);

    for i in 0..2 {
        if let Some(rect) = buttons.find_button_rect(&TuiButton::BrowseDirTabClose(i)) {
            let has_cross = (rect.x..rect.right()).any(|x| row[x as usize] == '×');
            assert!(
                has_cross,
                "tab {i}: no close glyph under its click region {rect:?} — the [×] is drawn elsewhere"
            );
        }
    }
}

#[test]
fn closed_tabs_can_be_reopened_only_where_there_is_room() {
    let mut browse = two_tabs("a", "b");
    browse.nav.has_closed_tabs = true;
    for (width, shown) in [(25u16, false), (26, true), (60, true)] {
        let mut scene = Scene::new();
        let mut buttons = ButtonRenderMap::new();
        draw_browse_tab_strip(&mut scene, area(0, 0, width, 1), &browse, &mut buttons);
        assert_eq!(
            buttons.find_button_rect(&TuiButton::BrowseDirTabReopenClosed).is_some(),
            shown,
            "width {width}"
        );
    }
}

#[test]
fn the_active_tab_stays_visible_among_many() {
    let mut browse = browse_state();
    browse.nav.tabs = (0..20).map(|i| tab(i, "directory", i == 17)).collect();
    browse.nav.active_tab = 17;
    let mut scene = Scene::new();
    let mut buttons = ButtonRenderMap::new();
    draw_browse_tab_strip(&mut scene, area(0, 0, 60, 1), &browse, &mut buttons);
    assert!(buttons.find_button_rect(&TuiButton::BrowseDirTab(17)).is_some());
    let row: String = painted_row(&scene, 0, 60).into_iter().collect();
    assert!(row.starts_with("‹ "));
}

#[test]
fn tab_labels_are_cut_in_their_middle() {
    assert_eq!(middle_truncate_tab_label("short", 5), "short");
    assert_eq!(middle_truncate_tab_label("abcdefghij", 5), "ab…ij");
    assert_eq!(middle_truncate_tab_label("abcdefghij", 6), "abc…ij");
    assert_eq!(middle_truncate_tab_label("abcdefghij", 1), "…");
    assert_eq!(middle_truncate_tab_label("abcdefghij", 0), "");
}

#[test]
fn browse_scan_progress_renders_for_empty_and_populated_streams() {
    let mut browse = browse_state();
    browse.current_dir = "/music/album".to_string();
    browse.scan_pending = true;

    assert_eq!(browse_scan_progress_text(&browse).as_deref(), Some("Reading album… (0)"));

    browse.entries.push(entry(
        "/music/album/track.flac",
        "track.flac",
        EntryKind::AudioFile("FLAC".to_string()),
        0,
    ));
    browse.scan_discovered_count = 42;
    assert_eq!(browse_scan_progress_text(&browse).as_deref(), Some("Reading album… (42)"));

    browse.scan_pending = false;
    assert!(browse_scan_progress_text(&browse).is_none());
}

#[test]
fn browse_path_go_label_is_lowercase_without_changing_hit_width() {
    assert_eq!(BROWSE_PATH_GO_LABEL, " go ");
    assert_eq!(BROWSE_PATH_GO_WIDTH, 5);
    assert!(display_width::width(BROWSE_PATH_GO_LABEL) <= BROWSE_PATH_GO_WIDTH as usize);
}

#[test]
fn path_input_renderer_shows_partial_selection() {
    let input = TextInputState {
        text: "Music/Album".to_string(),
        cursor: "Music/Al".len(),
        selection_anchor: Some("Music/".len()),
    };

    let (line, cursor_col) = render_path_input_spans(&input, 32);
    let rendered = text_of(&line);

    assert!(rendered.starts_with(" path: Music/Album"));
    assert_eq!(cursor_col, display_width::width(" path: Music/Al") as u16);
    assert!(line.spans.iter().any(|span| {
        span.text.contains("Al") && span.style.bg == Tone::TextBright && span.style.fg == Tone::Bg
    }));
}

#[test]
fn columns_that_do_not_fit_are_dropped_from_the_end() {
    let all = vec![BrowseColumn::Size, BrowseColumn::Artist, BrowseColumn::Size];
    let wide = browse_column_layout(60, &all);
    assert_eq!(
        wide.iter().map(|cell| cell.column).collect::<Vec<_>>(),
        vec![BrowseColumn::Name, BrowseColumn::Size, BrowseColumn::Artist]
    );
    let narrow = browse_column_layout(30, &all);
    assert_eq!(
        narrow.iter().map(|cell| cell.column).collect::<Vec<_>>(),
        vec![BrowseColumn::Name, BrowseColumn::Size]
    );
    assert_eq!(narrow[0].width, 30 - 6 - 9 - 1);
    assert_eq!(browse_column_layout(3, &all)[0].width, 1);
}

#[test]
fn the_open_menu_supplies_the_rows_for_the_keyboard() {
    let mut browse = browse_state();
    assert!(active_options_menu_rows(&browse, "auto").is_none());
    browse.options.options_menu = BrowseOptionsMenu::Root;
    browse.show_hidden = true;
    let rows = active_options_menu_rows(&browse, "auto").expect("root rows");
    assert_eq!(rows.len(), 9);
    assert_eq!(rows[0].0, " ● Show hidden files");
    assert_eq!(rows[6].1, None);
    assert_eq!(rows, options_root_rows(&browse));

    browse.options.options_menu = BrowseOptionsMenu::Columns;
    let rows = active_options_menu_rows(&browse, "auto").expect("column rows");
    assert_eq!(rows[0].0, " ☑ Name");
    assert_eq!(rows[1].0, " ☐ Artist");
    assert_eq!(rows[1].1, Some(TuiButton::BrowseOptionsColumn(BrowseColumn::Artist)));

    browse.options.options_menu = BrowseOptionsMenu::Sort;
    let rows = active_options_menu_rows(&browse, "auto").expect("sort rows");
    assert_eq!(
        rows.iter().map(|row| row.0.as_str()).collect::<Vec<_>>(),
        vec![" ● Name ↑", " ○ Name ↓", " ○ Size ↑", " ○ Size ↓"]
    );

    browse.options.options_menu = BrowseOptionsMenu::Filter;
    let rows = active_options_menu_rows(&browse, "auto").expect("filter rows");
    assert_eq!(rows[0].0, " ○ All files");
    assert_eq!(rows[1].0, " ● FLAC");

    browse.options.options_menu = BrowseOptionsMenu::Layout;
    browse.info_enabled = false;
    let (title, rows) = options_submenu_rows(&browse, "auto").expect("layout rows");
    assert_eq!(title, "Layout");
    assert_eq!(rows[0].0, " ● Show Explore pane");
    assert_eq!(rows[1].0, " ○ Show Info pane");
}

#[test]
fn menus_are_as_wide_as_their_widest_row_and_at_most_forty_columns() {
    let rows = options_root_rows(&browse_state());
    let widest = rows.iter().map(|row| display_width::width(&row.0)).max().unwrap();
    assert_eq!(options_menu_panel_width("Options", &rows, 200) as usize, widest + 2);
    let long = vec![("x".repeat(100), None)];
    assert_eq!(options_menu_panel_width("t", &long, 200), 40);
    assert_eq!(options_menu_panel_width("t", &long, 0), 1);
    assert_eq!(options_menu_panel_width("Options", &Vec::new(), 200), 14);
    assert_eq!(clamp_menu_x(95, 20, area(0, 0, 100, 10)), 80);
}

fn bookmarks(n: usize) -> BookmarksState {
    BookmarksState {
        entries: (0..n)
            .map(|i| BookmarkEntry { name: format!("dir {i}"), status: None })
            .collect(),
        dropdown_open: true,
        dropdown_selected: 0,
        dropdown_scroll: 0,
        dropdown_visible_rows: 10,
    }
}

#[test]
fn bookmarks_offer_their_rows_and_two_actions() {
    let mut state = bookmarks(3);
    state.entries[1].status = Some(BookmarkTargetStatus::Missing);
    state.entries[2].status = Some(BookmarkTargetStatus::Unavailable);
    let screen = area(0, 0, 80, 30);
    let mut scene = Scene::new();
    let mut buttons = ButtonRenderMap::new();
    assert!(draw_bookmarks_dropdown(
        &mut scene,
        area(60, 5, 13, 1),
        screen,
        &state,
        &mut buttons,
        None
    ));
    let first = buttons.find_button_rect(&TuiButton::BrowseBookmarkDropdownRow(0)).unwrap();
    let add = buttons.find_button_rect(&TuiButton::BrowseBookmarkDropdownAdd).unwrap();
    let manage = buttons.find_button_rect(&TuiButton::BrowseBookmarkDropdownManage).unwrap();
    assert_eq!(add.y, first.y + 4);
    assert_eq!(manage.y, add.y + 1);
    let rows: Vec<String> =
        (first.y..first.y + 3).map(|y| painted_row(&scene, y, 80).into_iter().collect()).collect();
    assert!(rows[0].contains(" ▸ dir 0"));
    assert!(rows[1].contains(" ! dir 1"));
    assert!(rows[2].contains(" ? dir 2"));
}

#[test]
fn bookmarks_close_on_a_screen_that_is_too_small() {
    let mut scene = Scene::new();
    let mut buttons = ButtonRenderMap::new();
    let open = draw_bookmarks_dropdown(
        &mut scene,
        area(0, 0, 5, 1),
        area(0, 0, 7, 30),
        &bookmarks(2),
        &mut buttons,
        None,
    );
    assert!(!open);
    assert!(scene.ops.is_empty());
    assert!(buttons.recorded_buttons().is_empty());
    assert_eq!(bookmark_dropdown_rows(area(0, 0, 80, 8)), 3);
    assert_eq!(bookmark_dropdown_rows(area(0, 0, 80, 50)), 10);
}

fn node(path: &str, name: &str, depth: usize, has_children: bool) -> BrowseTreeNode {
    BrowseTreeNode {
        path: path.to_string(),
        name: name.to_string(),
        depth,
        has_children,
        expanded: depth == 0,
    }
}

fn tree() -> BrowseState {
    let mut browse = browse_state();
    browse.nav.tree_nodes = vec![
        node("/music", "music", 0, true),
        node("/music/a", "a", 1, true),
        node("/music/b", "b", 1, false),
    ];
    browse
}

#[test]
fn tree_rows_show_their_depth_and_state() {
    let browse = tree();
    let nodes = &browse.nav.tree_nodes;
    assert_eq!(text_of(&render_browse_tree_node_line(&nodes[0], false, false)), "▾ music");
    assert_eq!(text_of(&render_browse_tree_node_line(&nodes[1], false, false)), "  ▸ a");
    assert_eq!(text_of(&render_browse_tree_node_line(&nodes[2], true, false)), "    b");
}

#[test]
fn a_new_directory_is_named_below_its_parent() {
    let browse = tree();
    let edit = BrowseInlineEditState {
        target: BrowseInlineEditTarget::Create { dir: "/music".to_string() },
        input: input("new"),
    };
    let pane = area(0, 0, 30, 6);
    assert_eq!(explore_tree_capacity(pane, None), 4);
    assert_eq!(explore_tree_capacity(pane, Some(&edit)), 3);
    let mut scene = Scene::new();
    let mut buttons = ButtonRenderMap::new();
    draw_explore_pane(&mut scene, pane, &browse, Some(&edit), &mut buttons, None, true, None);
    let rows: Vec<String> = (0..6).map(|y| painted_row(&scene, y, 30).into_iter().collect()).collect();
    assert!(rows[1].contains("▾ music"));
    assert!(rows[2].contains("  + new"));
    assert!(rows[3].contains("  ▸ a"));
    assert_eq!(
        buttons.find_button_rect(&TuiButton::BrowseTreeInlineEdit),
        Some(area(5, 2, 24, 1))
    );
    assert_eq!(buttons.find_button_rect(&TuiButton::BrowseTreeNode(1)).unwrap().y, 3);
    assert!(scene.ops.iter().any(|op| matches!(op, Op::Cursor { x: 8, y: 2 })));
}

#[test]
fn a_collapsed_pane_spells_its_name_downwards_and_opens_anywhere() {
    let pane = area(2, 1, 3, 8);
    let mut scene = Scene::new();
    let mut buttons = ButtonRenderMap::new();
    draw_collapsed_pane(&mut scene, pane, BrowsePaneId::Info, "info", &mut buttons);
    let column: String = (2..8).map(|y| painted_row(&scene, y, 5)[3]).collect();
    assert_eq!(column, "▸ info");
    assert_eq!(
        buttons.find_button_at(4, 8),
        Some(TuiButton::BrowsePaneToggle(BrowsePaneId::Info))
    );
}

#[test]
fn the_path_bar_leaves_room_for_its_buttons() {
    let mut browse = browse_state();
    browse.current_dir = "/home/me/music".to_string();
    let bar = area(0, 7, 80, 5);
    let mut scene = Scene::new();
    let mut buttons = ButtonRenderMap::new();
    draw_browse_toolbar(&mut scene, bar, &browse, "/home/me", &mut buttons);
    let row: String = painted_row(&scene, 10, 80).into_iter().collect();
    assert!(row.contains(" path: ~/music"));
    assert!(row.contains(" go "));
    assert!(row.contains(" bookmarks ▾ "));
    let go = buttons.find_button_rect(&TuiButton::BrowsePathGo).unwrap();
    let marks = buttons.find_button_rect(&TuiButton::BrowseBookmarksToggle).unwrap();
    assert_eq!(go, area(60, 10, 5, 1));
    assert_eq!(marks, area(66, 10, 13, 1));
    assert_eq!(buttons.find_button_rect(&TuiButton::BrowseToolbarBack), None);
    assert_eq!(
        buttons.find_button_rect(&TuiButton::BrowseToolbarUp),
        Some(area(17, 8, display_width::width(" ↑ Up ") as u16, 1))
    );
    browse.current_dir = "/".to_string();
    let mut buttons = ButtonRenderMap::new();
    draw_browse_toolbar(&mut Scene::new(), bar, &browse, "/home/me", &mut buttons);
    assert_eq!(buttons.find_button_rect(&TuiButton::BrowseToolbarUp), None);
}

#[test]
fn the_path_bar_names_the_place_in_an_archive() {
    let mut browse = browse_state();
    browse.archive = Some(ArchiveView {
        archive_path: "/music/set.zip".to_string(),
        inner_path: "cd1".to_string(),
        modified: true,
    });
    let mut scene = Scene::new();
    draw_breadcrumb_inline(&mut scene, area(0, 0, 60, 1), &browse, "");
    let row: String = painted_row(&scene, 0, 60).into_iter().collect();
    assert!(row.starts_with(" path: set.zip:/cd1 [modified]"));
}

#[test]
fn a_scrollbar_has_a_track_and_a_thumb() {
    let mut scene = Scene::new();
    assert_eq!(draw_vertical_scrollbar(&mut scene, area(9, 2, 1, 10), None), None);
    assert!(scene.ops.is_empty());
    let places = draw_vertical_scrollbar(
        &mut scene,
        area(9, 2, 1, 10),
        Some(ScrollbarMetrics { thumb_start: 3, thumb_len: 2 }),
    );
    assert_eq!(places, Some((area(9, 2, 1, 10), area(9, 5, 1, 2))));
    assert_eq!(painted_row(&scene, 4, 10)[9], '░');
    assert_eq!(painted_row(&scene, 5, 10)[9], '█');
}

#[test]
fn a_new_entry_is_named_below_the_last_one() {
    let mut browse = browse_state();
    browse.entries = vec![audio_entry(), audio_entry()];
    let edit = BrowseInlineEditState {
        target: BrowseInlineEditTarget::Create { dir: "/music/album".to_string() },
        input: input(""),
    };
    let list = area(0, 0, 60, 20);
    let mut buttons = ButtonRenderMap::new();
    register_browse_buttons(&mut buttons, list, &browse, Some(&edit), true);
    let last = buttons.find_button_rect(&TuiButton::BrowseEntry(1)).unwrap();
    let create = buttons.find_button_rect(&TuiButton::BrowseCreateRow).unwrap();
    assert_eq!(create.y, last.y + 1);
}

#[test]
fn the_selection_mark_of_an_entry_takes_its_own_clicks() {
    let mut browse = browse_state();
    browse.entries = vec![audio_entry(), audio_entry()];
    let mut buttons = ButtonRenderMap::new();
    register_browse_buttons(&mut buttons, area(10, 0, 60, 20), &browse, None, true);
    let row = buttons.find_button_rect(&TuiButton::BrowseEntry(1)).unwrap();
    assert_eq!(buttons.find_button_at(13, row.y), Some(TuiButton::BrowseEntryGutter(1)));
    assert_eq!(buttons.find_button_at(14, row.y), Some(TuiButton::BrowseEntryGutter(1)));
    assert_eq!(buttons.find_button_at(15, row.y), Some(TuiButton::BrowseEntry(1)));
}

#[test]
fn overlay_texts_are_cut_by_columns() {
    assert_eq!(truncate_for_disc_overlay("stereo", 6), "stereo");
    assert_eq!(truncate_for_disc_overlay("日本語アルバム", 7), "日本語…");
    assert_eq!(truncate_for_disc_overlay("stereo", 0), "");
}

#[test]
fn pills_are_on_the_rows_that_are_given_for_them() {
    let last = |info: &InfoContent, row: Option<usize>| {
        row.map(|i| info.lines.lines[i].spans.last().expect("a pill").text.clone())
    };
    let (_, info) = info_of(&audio_entry(), &facts());
    assert_eq!(last(&info, info.analyze_pill_row).as_deref(), Some(" analyze "));
    assert_eq!(last(&info, info.edit_tags_pill_row).as_deref(), Some(" edit tags "));
    assert_eq!(info.audio_streams_pill_row, None);

    let image = entry("/discs/a.iso", "a.iso", EntryKind::SacdIso, 1024);
    let known = disc_facts("/discs/a.iso", disc_contents("/discs/a.iso", &SEVEN, "none"));
    let (_, info) = info_of(&image, &known);
    assert_eq!(info.analyze_pill_row, None);
    assert_eq!(last(&info, info.edit_tags_pill_row).as_deref(), Some(" edit tags "));
    assert_eq!(last(&info, info.audio_streams_pill_row).as_deref(), Some(" audio streams "));

    let archive = entry("/a.7z", "a.7z", EntryKind::Archive, 1024);
    let (_, info) = info_of(&archive, &facts());
    assert_eq!((info.analyze_pill_row, info.edit_tags_pill_row), (None, None));
}

#[test]
fn panes_share_the_width_of_the_screen() {
    let widths = |explore: bool, info: bool, tree_collapsed: bool, info_collapsed: bool, w: u16| {
        let mut browse = browse_state();
        browse.explore_enabled = explore;
        browse.info_enabled = info;
        browse.nav.explore_collapsed = tree_collapsed;
        browse.nav.info_collapsed = info_collapsed;
        let panes = browse_content_layout(area(0, 0, w, 10), &browse);
        panes.iter().map(|pane| pane.width).collect::<Vec<_>>()
    };
    assert_eq!(widths(false, false, false, false, 100), vec![0, 100, 0]);
    assert_eq!(widths(true, true, false, false, 100), vec![20, 50, 30]);
    assert_eq!(widths(true, true, false, false, 87), vec![17, 44, 26]);
    assert_eq!(widths(true, true, false, true, 100), vec![20, 77, 3]);
    assert_eq!(widths(true, true, false, true, 50), vec![7, 40, 3]);
    assert_eq!(widths(true, true, true, false, 100), vec![3, 64, 33]);
    assert_eq!(widths(true, true, true, true, 100), vec![3, 94, 3]);
    assert_eq!(widths(true, false, true, false, 41), vec![1, 40, 0]);
}

#[test]
fn a_symbolic_link_of_any_kind_is_marked_last() {
    let mut broken_facts = facts();
    broken_facts.cached_info = None;
    for kind in [
        EntryKind::AudioFile("FLAC".to_string()),
        EntryKind::Archive,
        EntryKind::SacdIso,
        EntryKind::OtherFile,
    ] {
        let mut link = entry("/tmp/link", "link", kind, 1024);
        link.is_symlink = true;
        let (text, info) = info_of(&link, &broken_facts);
        assert!(text.ends_with("\n\n   symlink"), "{text}");
        if let Some(row) = info.edit_tags_pill_row {
            assert!(text_of(&info.lines.lines[row]).ends_with(" edit tags "));
        }
        link.is_broken_symlink = true;
        let (text, _) = info_of(&link, &broken_facts);
        assert!(text.ends_with("\n\n   symlink (broken)"), "{text}");
    }
}

#[test]
fn no_entry_is_clicked_on_the_row_of_the_filter() {
    let list = area(0, 0, 60, 12);
    for searching in [false, true] {
        let mut browse = browse_state();
        browse.entries = (0..40).map(|_| audio_entry()).collect();
        browse.search.active = searching;
        browse.filter_input = Some(input("abc"));
        let mut buttons = ButtonRenderMap::new();
        register_browse_buttons(&mut buttons, list, &browse, None, false);
        let filter = buttons.find_button_rect(&TuiButton::BrowseFilterInput).unwrap();
        assert_eq!(filter.y, 10);
        assert_eq!(buttons.find_button_at(filter.x, 10), Some(TuiButton::BrowseFilterInput));
        for (button, place) in buttons.recorded_buttons() {
            if matches!(button, TuiButton::BrowseEntry(_)) {
                assert!(place.y < 10);
            }
        }
        let last = if searching { 5 } else { 7 };
        assert_eq!(
            buttons.find_button_rect(&TuiButton::BrowseEntry(last)).map(|place| place.y),
            Some(9)
        );
        let mut scene = Scene::new();
        draw_browse_list(&mut scene, list, &browse, None, None, true);
        let row: String = painted_row(&scene, 10, 60).into_iter().collect();
        assert!(row.starts_with("│ / abc"), "{row}");
        let bottom: String = painted_row(&scene, 11, 60).into_iter().collect();
        assert!(bottom.starts_with("└"), "{bottom}");
    }
}

#[test]
fn scrollbars_are_worked_out_from_what_is_shown() {
    let mut browse = browse_state();
    browse.entries = (0..100).map(|_| audio_entry()).collect();
    browse.scroll_offset = 91;
    let edit = BrowseInlineEditState {
        target: BrowseInlineEditTarget::Create { dir: browse.current_dir.clone() },
        input: input(""),
    };
    let list = area(0, 0, 60, 13);
    assert_eq!(
        list_scroll_request(list, &browse, Some(&edit)),
        Some(ScrollRequest { total: 100, visible: 9, offset: 91, track: 10 })
    );
    assert_eq!(
        list_scroll_request(list, &browse, None),
        Some(ScrollRequest { total: 100, visible: 10, offset: 91, track: 10 })
    );
    assert_eq!(list_scroll_request(area(0, 0, 19, 13), &browse, None), None);
    let tree = tree();
    let pane = area(0, 0, 30, 6);
    assert_eq!(
        tree_scroll_request(pane, &tree, None),
        Some(ScrollRequest {
            total: tree.nav.tree_nodes.len(),
            visible: 4,
            offset: tree.nav.tree_scroll,
            track: 4,
        })
    );
    assert_eq!(tree_scroll_request(area(0, 0, 5, 6), &tree, None), None);
}

#[test]
fn an_error_is_shown_whatever_the_list_was_scrolled_to() {
    let mut browse = browse_state();
    browse.entries = Vec::new();
    browse.scroll_offset = 7;
    browse.error = Some("gone".to_string());
    let mut scene = Scene::new();
    draw_browse_list(&mut scene, area(0, 0, 60, 12), &browse, None, None, true);
    let row: String = painted_row(&scene, 2, 60).into_iter().collect();
    assert!(row.contains("gone"), "{row}");
    let mut buttons = ButtonRenderMap::new();
    register_browse_buttons(&mut buttons, area(0, 0, 60, 12), &browse, None, false);
    assert!(buttons.find_button_rect(&TuiButton::BrowseList).is_some());
    assert!(buttons.find_button_rect(&TuiButton::BrowseEntry(7)).is_none());
}
