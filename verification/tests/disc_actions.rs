use tonepoet_tui::app_state::{ActiveOverlay, AppState, ConvertState, Effect, ShownState};
use tonepoet_tui::browse::{
    BookmarksState, BrowseDirectorySummaryColdWorkPolicy, BrowseEntry, BrowseFacts, BrowseNavigation,
    BrowseOptions, BrowseOptionsMenu, BrowseState, DiscProbeFollowup, EntryKind, SearchState,
};
use tonepoet_tui::button_map::{BrowseColumn, SortDir, TuiButton};
use tonepoet_tui::convert::{ConvertMetadataField, MetadataState, MultiTrackEntry, SourceMode};
use tonepoet_tui::disc::{
    DiscContents, DiscMetadata, DiscPresentation, DiscProbeCacheEntry, DiscProbeOutcome, PresentationId,
    SacdAreaId,
};
use tonepoet_tui::disc_browser::DiscBrowserState;
use tonepoet_tui::disc_browser_actions::{
    cached_disc_contents, cached_disc_error, convert_default_disc_stream, convert_overlay_cursor,
    convert_selected_disc_stream_by_id, ensure_disc_probe, force_disc_reprobe,
    handle_disc_browser_button, handle_disc_browser_button_click, handle_disc_browser_double_click,
    handle_disc_browser_key, handle_disc_context_action, handle_disc_probe_followup,
    load_disc_presentation_for_convert, open_disc_browser_for_path, open_disc_browser_from_contents,
    open_selected_disc_browser, probe_selected_disc_after_cursor_move, request_disc_probe,
    selected_presentation_id, ContextAction, KeyCode,
};
use tonepoet_tui::draw_footer::AppScreen;
use tonepoet_tui::draw_settings::{
    AppearanceState, BrowsingConfig, ConfigFocus, ConversionConfig, KeychainState, SettingsState,
    ThemeChoice,
};
use tonepoet_tui::inline_edit::TextInputState;
use std::sync::Arc;

const DISC: &str = "/discs/album.iso";

fn input() -> TextInputState {
    TextInputState { text: String::new(), cursor: 0, selection_anchor: None }
}

fn stream(id: PresentationId, label: &str) -> DiscPresentation {
    DiscPresentation {
        id,
        label: label.to_string(),
        tracks: vec![MultiTrackEntry { number: 1, title: Some("Intro".to_string()) }],
        load_error: None,
        details: vec!["24-bit".to_string(), "96 kHz".to_string()],
    }
}

const STEREO: PresentationId = PresentationId::SacdArea(SacdAreaId::Stereo);
const SURROUND: PresentationId = PresentationId::SacdArea(SacdAreaId::MultiChannel);

fn contents() -> DiscContents {
    DiscContents {
        label: "My Disc".to_string(),
        source_path: DISC.to_string(),
        presentations: vec![stream(SURROUND, "Multichannel"), stream(STEREO, "Stereo")],
        metadata: DiscMetadata {
            title: Some("Title".to_string()),
            artist: Some("Artist".to_string()),
            album: None,
            genre: None,
            year: Some("1980".to_string()),
        },
        copy_protection: "none".to_string(),
        summary_lines: Vec::new(),
        stream_lines: Vec::new(),
    }
}

fn probed(current: bool, outcome: DiscProbeOutcome) -> DiscProbeCacheEntry {
    DiscProbeCacheEntry { path: DISC.to_string(), current, outcome }
}

fn known() -> DiscProbeCacheEntry {
    probed(true, DiscProbeOutcome::Contents(Arc::new(contents())))
}

fn failed() -> DiscProbeCacheEntry {
    probed(true, DiscProbeOutcome::Error("bad sector".to_string()))
}

fn app(cache: Vec<DiscProbeCacheEntry>) -> AppState {
    AppState {
        status: None,
        active_overlay: ActiveOverlay::Closed,
        current_screen: AppScreen::Browse,
        browse: BrowseState {
            current_dir: "/discs".to_string(),
            entries: vec![BrowseEntry {
                path: DISC.to_string(),
                name: "album.iso".to_string(),
                kind: EntryKind::SacdIso,
                size: 0,
                date_label: String::new(),
                type_label: String::new(),
                is_symlink: false,
                is_broken_symlink: false,
            }],
            selected_index: 0,
            scroll_offset: 0,
            visible_height: 10,
            columns: Vec::new(),
            sort_by: BrowseColumn::Name,
            sort_dir: SortDir::Asc,
            error: None,
            scan_pending: false,
            scan_discovered_count: 0,
            multi_selected: Vec::new(),
            range_preview: None,
            files_navigation_active: true,
            search: SearchState {
                active: false,
                input: input(),
                input_focused: false,
                recursive: false,
                mode_label: String::new(),
                sort_label: String::new(),
                sort_dir: SortDir::Asc,
                audio_only: false,
            },
            filter_input: None,
            filter_text: String::new(),
            type_ahead_active: false,
            type_ahead_buffer: String::new(),
            path_input: None,
            archive: None,
            probes: Vec::new(),
            facts: BrowseFacts {
                in_archive: false,
                archive_staging_active: false,
                archive_entries: Vec::new(),
                cached_info: None,
                dir_stats: None,
                dir_stats_pending: Vec::new(),
                classification: None,
                classification_pending: Vec::new(),
                disc_probe_cache: cache,
                disc_probe_pending: Vec::new(),
                disc_probe_followup: Vec::new(),
                cold_work_policy: BrowseDirectorySummaryColdWorkPolicy::Eager,
            },
            show_hidden: false,
            explore_enabled: false,
            info_enabled: false,
            nav: BrowseNavigation {
                explore_collapsed: false,
                info_collapsed: false,
                can_go_back: false,
                can_go_forward: false,
                tree_nodes: Vec::new(),
                tree_cursor: 0,
                tree_scroll: 0,
                tree_visible_height: 10,
                tree_navigation_active: false,
                tabs: Vec::new(),
                active_tab: 0,
                has_closed_tabs: false,
            },
            options: BrowseOptions {
                options_menu: BrowseOptionsMenu::Closed,
                options_menu_highlight: None,
                default_sort_by: BrowseColumn::Name,
                default_sort_dir: SortDir::Asc,
                column_choices: Vec::new(),
                sort_choices: Vec::new(),
                filter_choices: Vec::new(),
                format_filter: 0,
            },
            return_target: Some(AppScreen::Queue),
            last_render_area: None,
        },
        convert: ConvertState {
            metadata: MetadataState {
                title: None,
                artist: None,
                album: None,
                genre: Some("old".to_string()),
                year: None,
                album_artist_for_conversion: None,
                field_focus: ConvertMetadataField::Title,
                editing: None,
                edit_input: input(),
                file_scroll: 0,
            },
            source: SourceMode::Empty,
        },
        effects: Vec::new(),
        shown: ShownState {
            analysis_results: Vec::new(),
            verify_results: Vec::new(),
            compare_results: Vec::new(),
            preemph_results: Vec::new(),
            settings: SettingsState {
                focus: ConfigFocus::Appearance,
                appearance: AppearanceState {
                    choices: Vec::new(),
                    active_index: 0,
                    runtime: ThemeChoice {
                        name: String::new(),
                        description: String::new(),
                        dark: true,
                        built_in: true,
                        accents: Vec::new(),
                    },
                },
                conversion: ConversionConfig {
                    preferred_backend: String::new(),
                    worker_count: 1,
                    calculate_replaygain: false,
                    generate_cue_files: false,
                    cue_generation_mode: String::new(),
                    write_log_file: false,
                    persist_queue: false,
                    default_destination: None,
                    scratch_directory: None,
                    scratch_memory_limit_percent: 0,
                },
                browsing: BrowsingConfig {
                    archive_listing_label: String::new(),
                    archive_listing_timeout: 0,
                },
                keychain: KeychainState {
                    load_error: None,
                    passwords: Vec::new(),
                    selected: 0,
                    reveal: false,
                },
            },
            bookmarks: BookmarksState {
                entries: Vec::new(),
                dropdown_open: false,
                dropdown_selected: 0,
                dropdown_scroll: 0,
                dropdown_visible_rows: 10,
            },
            browse_inline_edit: None,
            browse_info_focus: None,
            list_scrollbar: None,
            tree_scrollbar: None,
            hover_target: None,
            has_file_task_messages: false,
            wizard_active: false,
            home: String::new(),
            version: String::new(),
            archive_listing: String::new(),
            presets_open: false,
            recent_open: false,
            bookmarks_open: false,
        },
    }
}

fn status(app: &AppState) -> &str {
    app.status.as_deref().unwrap_or("")
}

fn probes(app: &AppState) -> usize {
    app.effects.iter().filter(|effect| matches!(effect, Effect::SpawnDiscProbe(_))).count()
}

fn overlay(app: &AppState) -> &DiscBrowserState {
    match &app.active_overlay {
        ActiveOverlay::DiscBrowser(state) => state,
        _ => panic!("no disc browser"),
    }
}

#[test]
fn a_known_disc_opens_at_once() {
    let mut state = app(vec![known()]);
    open_selected_disc_browser(&mut state);
    let open = overlay(&state);
    assert_eq!(open.source_path, DISC);
    assert_eq!(open.len(), 2);
    assert_eq!(open.cursor, 0);
    assert_eq!(probes(&state), 0);
}

#[test]
fn the_overlay_shares_the_cached_contents() {
    let mut state = app(vec![known()]);
    let cached = cached_disc_contents(&state, DISC).expect("cached");
    open_disc_browser_for_path(&mut state, DISC);
    assert!(Arc::ptr_eq(&cached, &overlay(&state).contents));
}

#[test]
fn an_unknown_disc_opens_after_its_probe() {
    let mut state = app(Vec::new());
    open_selected_disc_browser(&mut state);
    assert!(matches!(state.active_overlay, ActiveOverlay::Closed));
    assert_eq!(probes(&state), 1);
    assert_eq!(status(&state), "Analyzing disc streams...");
    assert_eq!(state.browse.facts.disc_probe_followup.len(), 1);
    assert_eq!(
        state.browse.facts.disc_probe_followup[0].action,
        DiscProbeFollowup::OpenDiscBrowser
    );
    state.browse.facts.disc_probe_cache.push(known());
    handle_disc_probe_followup(&mut state, DISC, DiscProbeFollowup::OpenDiscBrowser);
    assert_eq!(overlay(&state).len(), 2);
}

#[test]
fn a_second_followup_replaces_the_first() {
    let mut state = app(Vec::new());
    open_disc_browser_for_path(&mut state, DISC);
    convert_default_disc_stream(&mut state, DISC);
    assert_eq!(state.browse.facts.disc_probe_followup.len(), 1);
    assert_eq!(
        state.browse.facts.disc_probe_followup[0].action,
        DiscProbeFollowup::ConvertDefaultStream
    );
    assert_eq!(probes(&state), 1, "a probe under way is not started again");
    assert_eq!(status(&state), "Analyzing default disc stream...");
}

#[test]
fn a_known_error_is_said_and_not_retried() {
    let mut state = app(vec![failed()]);
    assert_eq!(cached_disc_error(&state, DISC), Some("bad sector"));
    probe_selected_disc_after_cursor_move(&mut state);
    assert_eq!(probes(&state), 0);
    assert_eq!(
        status(&state),
        "Disc analysis failed for current source; use Analyze to retry: bad sector"
    );
    open_selected_disc_browser(&mut state);
    assert_eq!(probes(&state), 0);
    assert!(state.browse.facts.disc_probe_followup.is_empty());
}

#[test]
fn analyze_retries_a_known_error() {
    let mut state = app(vec![failed()]);
    assert!(handle_disc_browser_button(&mut state, TuiButton::BrowseInfoAnalyze));
    assert_eq!(probes(&state), 1);
    assert!(state.browse.facts.disc_probe_cache.is_empty());
    force_disc_reprobe(&mut state, DISC);
    assert_eq!(probes(&state), 1);
    assert_eq!(status(&state), "Disc analysis already in progress...");
}

#[test]
fn a_changed_source_is_probed_again() {
    let mut state =
        app(vec![probed(false, DiscProbeOutcome::Contents(Arc::new(contents())))]);
    assert!(cached_disc_contents(&state, DISC).is_none());
    assert!(!ensure_disc_probe(&mut state, DISC));
    assert_eq!(probes(&state), 1);
    assert!(state.browse.facts.disc_probe_cache.is_empty());
    let mut fresh = app(vec![known()]);
    assert!(ensure_disc_probe(&mut fresh, DISC));
    assert_eq!(fresh.status, None);
}

#[test]
fn a_requested_probe_is_started_once() {
    let mut state = app(Vec::new());
    request_disc_probe(&mut state, DISC);
    request_disc_probe(&mut state, DISC);
    assert_eq!(probes(&state), 1);
    assert_eq!(state.browse.facts.disc_probe_pending, vec![DISC.to_string()]);
}

#[test]
fn entries_that_are_no_discs_are_refused() {
    let mut state = app(Vec::new());
    state.browse.entries[0].kind = EntryKind::Directory;
    open_selected_disc_browser(&mut state);
    assert_eq!(status(&state), "Selected entry is not a browsable disc source");
    assert!(!handle_disc_browser_button(&mut state, TuiButton::BrowseInfoAnalyze));
    assert!(!handle_disc_context_action(&mut state, &ContextAction::ConvertCustom));
    state.browse.entries.clear();
    open_selected_disc_browser(&mut state);
    assert_eq!(status(&state), "No browse entry selected");
    state.status = None;
    assert!(handle_disc_context_action(&mut state, &ContextAction::ConvertDiscDefault));
    assert_eq!(status(&state), "No browse entry selected");
    probe_selected_disc_after_cursor_move(&mut state);
    assert_eq!(probes(&state), 0);
}

#[test]
fn a_disc_without_streams_opens_nothing() {
    let mut state = app(Vec::new());
    let empty = DiscContents { presentations: Vec::new(), ..contents() };
    open_disc_browser_from_contents(&mut state, Arc::new(empty), DISC);
    assert!(matches!(state.active_overlay, ActiveOverlay::Closed));
    assert_eq!(status(&state), "Disc contains no selectable audio streams");
}

#[test]
fn the_default_conversion_loads_the_first_stream() {
    let mut state = app(vec![known()]);
    convert_default_disc_stream(&mut state, DISC);
    assert_eq!(selected_presentation_id(&state.convert.source), Some(SURROUND));
    assert_eq!(state.current_screen, AppScreen::Convert);
    assert_eq!(state.browse.return_target, None);
    assert_eq!(status(&state), "Loaded stream: Multichannel");
    assert_eq!(state.convert.metadata.title.as_deref(), Some("Title"));
    assert_eq!(state.convert.metadata.album.as_deref(), Some("My Disc"));
    assert_eq!(state.convert.metadata.genre, None);
    match &state.convert.source {
        SourceMode::MultiTrack { tracks, cursor, .. } => {
            assert_eq!(tracks.len(), 1);
            assert_eq!(tracks[0].title.as_deref(), Some("Intro"));
            assert_eq!(*cursor, 0);
        }
        _ => panic!("no stream loaded"),
    }
    assert!(matches!(state.effects[0], Effect::ApplySourceDefaults));
    assert!(matches!(&state.effects[1], Effect::RecordRecentUse(path) if path == DISC));
}

#[test]
fn a_blank_label_is_no_album() {
    let mut state = app(Vec::new());
    let blank = DiscContents { label: " \u{2003}\t".to_string(), ..contents() };
    assert_eq!(load_disc_presentation_for_convert(&mut state, &blank, 1), Ok(()));
    assert_eq!(state.convert.metadata.album, None);
    assert_eq!(selected_presentation_id(&state.convert.source), Some(STEREO));
}

#[test]
fn a_stream_that_does_not_load_is_said() {
    let mut state = app(Vec::new());
    let mut broken = contents();
    broken.presentations[0].load_error = Some("encrypted".to_string());
    assert_eq!(
        load_disc_presentation_for_convert(&mut state, &broken, 0),
        Err("encrypted".to_string())
    );
    assert_eq!(state.current_screen, AppScreen::Browse);
    assert_eq!(state.convert.metadata.title.as_deref(), Some("Title"));
    assert_eq!(
        load_disc_presentation_for_convert(&mut state, &broken, 2),
        Err("No disc stream at index 3".to_string())
    );
    state.browse.facts.disc_probe_cache.push(probed(
        true,
        DiscProbeOutcome::Contents(Arc::new(broken)),
    ));
    convert_default_disc_stream(&mut state, DISC);
    assert_eq!(status(&state), "Default disc stream load failed: encrypted");
}

#[test]
fn followups_without_contents_are_said() {
    let mut state = app(Vec::new());
    handle_disc_probe_followup(&mut state, DISC, DiscProbeFollowup::OpenDiscBrowser);
    assert_eq!(status(&state), "Audio streams are not available after analysis");
    handle_disc_probe_followup(&mut state, DISC, DiscProbeFollowup::ConvertDefaultStream);
    assert_eq!(status(&state), "Default disc stream is not available after analysis");
}

#[test]
fn streams_are_loaded_by_their_id() {
    let mut state = app(Vec::new());
    assert_eq!(
        convert_selected_disc_stream_by_id(&mut state, DISC, STEREO, "SacdArea(Stereo)"),
        Err("Disc is not probed yet: /discs/album.iso".to_string())
    );
    state.browse.facts.disc_probe_cache.push(known());
    assert_eq!(
        convert_selected_disc_stream_by_id(
            &mut state,
            DISC,
            PresentationId::DvdAudioGroup(4),
            "DvdAudioGroup(4)"
        ),
        Err("Stream is no longer available: DvdAudioGroup(4)".to_string())
    );
    let action = ContextAction::ConvertDiscStream { id: STEREO, id_text: "SacdArea(Stereo)".to_string() };
    assert!(handle_disc_context_action(&mut state, &action));
    assert_eq!(selected_presentation_id(&state.convert.source), Some(STEREO));
    assert_eq!(status(&state), "Loaded stream: Stereo");
    assert!(!handle_disc_context_action(&mut state, &ContextAction::Other));
}

#[test]
fn a_click_selects_and_a_double_click_loads() {
    let mut state = app(vec![known()]);
    assert!(!handle_disc_browser_button(&mut state, TuiButton::DiscBrowserStream(1)));
    assert!(handle_disc_browser_button(&mut state, TuiButton::BrowseInfoAudioStreams));
    assert!(handle_disc_browser_button(&mut state, TuiButton::DiscBrowserStream(1)));
    assert_eq!(overlay(&state).cursor, 1);
    assert!(handle_disc_browser_button_click(&mut state, TuiButton::DiscBrowserExpand(0), 1));
    assert_eq!(overlay(&state).cursor, 0);
    assert_eq!(overlay(&state).visible_rows(), 4);
    assert!(handle_disc_browser_double_click(&mut state, TuiButton::DiscBrowserStream(1)));
    assert!(matches!(state.active_overlay, ActiveOverlay::Closed));
    assert_eq!(selected_presentation_id(&state.convert.source), Some(STEREO));
    assert!(!handle_disc_browser_button(&mut state, TuiButton::DiscBrowserClose));
    assert!(!handle_disc_browser_button(&mut state, TuiButton::SaveButton));
}

#[test]
fn keys_move_within_the_list() {
    let mut state = app(vec![known()]);
    open_selected_disc_browser(&mut state);
    handle_disc_browser_key(&mut state, KeyCode::Up);
    assert_eq!(overlay(&state).cursor, 0);
    handle_disc_browser_key(&mut state, KeyCode::Char('j'));
    handle_disc_browser_key(&mut state, KeyCode::Down);
    assert_eq!(overlay(&state).cursor, 1);
    handle_disc_browser_key(&mut state, KeyCode::Char(' '));
    assert_eq!(overlay(&state).selected, vec![false, true]);
    handle_disc_browser_key(&mut state, KeyCode::Char('E'));
    assert_eq!(overlay(&state).expanded, vec![false, true]);
    handle_disc_browser_key(&mut state, KeyCode::PageDown);
    assert_eq!(overlay(&state).scroll, 3);
    handle_disc_browser_key(&mut state, KeyCode::PageUp);
    assert_eq!(overlay(&state).scroll, 0);
    handle_disc_browser_key(&mut state, KeyCode::End);
    assert_eq!((overlay(&state).cursor, overlay(&state).scroll), (1, 3));
    handle_disc_browser_key(&mut state, KeyCode::Home);
    assert_eq!((overlay(&state).cursor, overlay(&state).scroll), (0, 0));
    handle_disc_browser_key(&mut state, KeyCode::Left);
    assert_eq!(overlay(&state).cursor, 0);
    handle_disc_browser_key(&mut state, KeyCode::Enter);
    assert_eq!(selected_presentation_id(&state.convert.source), Some(SURROUND));
}

#[test]
fn escape_closes_the_overlay_only() {
    let mut state = app(vec![known()]);
    open_selected_disc_browser(&mut state);
    handle_disc_browser_key(&mut state, KeyCode::Esc);
    assert!(matches!(state.active_overlay, ActiveOverlay::Closed));
    assert_eq!(state.current_screen, AppScreen::Browse);
    state.active_overlay = ActiveOverlay::Help;
    handle_disc_browser_key(&mut state, KeyCode::Char('q'));
    assert!(matches!(state.active_overlay, ActiveOverlay::Help));
    convert_overlay_cursor(&mut state);
    assert!(state.effects.is_empty());
}

#[test]
fn a_failed_load_keeps_the_overlay_open() {
    let mut state = app(Vec::new());
    let mut broken = contents();
    broken.presentations[0].load_error = Some("encrypted".to_string());
    open_disc_browser_from_contents(&mut state, Arc::new(broken), DISC);
    handle_disc_browser_key(&mut state, KeyCode::Enter);
    assert_eq!(overlay(&state).cursor, 0);
    assert_eq!(status(&state), "Disc stream load failed: encrypted");
}
