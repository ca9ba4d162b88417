use tonepoet_tui::app_state::{ActiveOverlay, AppState, ConvertState, ShownState};
use tonepoet_tui::browse::{
    BookmarkEntry, BookmarksState, BrowseDirectorySummaryColdWorkPolicy, BrowseEntry, BrowseFacts,
    BrowseNavigation, BrowseOptions, BrowseOptionsMenu, BrowseState, EntryKind, SearchState, TabInfo,
};
use tonepoet_tui::button_map::{BrowseColumn, ButtonRenderMap, SortDir, TuiButton};
use tonepoet_tui::convert::{ConvertMetadataField, MetadataState, SourceMode};
use tonepoet_tui::draw::{draw_ui, wizard_theme_from_tonepoet_theme};
use tonepoet_tui::draw_browse::screen::{browse_scroll_requests, draw_browse_screen};
use tonepoet_tui::draw_browse::tabs::draw_browse_tab_strip;
use tonepoet_tui::draw_footer::{file_task_details_label, file_task_details_rect, AppScreen};
use tonepoet_tui::draw_header::draw_header;
use tonepoet_tui::draw_preset_bar::{draw_preset_bar, PresetState};
use tonepoet_tui::draw_settings::{
    clipped, width_of, AppearanceState, BrowsingConfig, ConfigFocus, ConversionConfig, KeychainState,
    SettingsState, ThemeChoice,
};
use tonepoet_tui::geometry::Rect;
use tonepoet_tui::inline_edit::TextInputState;
use tonepoet_tui::scene::{Align, Op, Panel, Scene};
use tonepoet_tui::style::Tone;

fn area(x: u16, y: u16, width: u16, height: u16) -> Rect {
    Rect { x, y, width, height }
}

fn input(text: &str) -> TextInputState {
    TextInputState { text: text.to_string(), cursor: text.chars().count(), selection_anchor: None }
}

fn browse_state() -> BrowseState {
    BrowseState {
        current_dir: "/music".to_string(),
        entries: vec![BrowseEntry {
            path: "/music/a.flac".to_string(),
            name: "a.flac".to_string(),
            kind: EntryKind::AudioFile("FLAC".to_string()),
            size: 2048,
            date_label: "2024-01-01".to_string(),
            type_label: "FLAC".to_string(),
            is_symlink: false,
            is_broken_symlink: false,
        }],
        selected_index: 0,
        scroll_offset: 0,
        visible_height: 10,
        columns: vec![BrowseColumn::Name, BrowseColumn::Size],
        sort_by: BrowseColumn::Name,
        sort_dir: SortDir::Asc,
        error: None,
        scan_pending: false,
        scan_discovered_count: 0,
        multi_selected: Vec::new(),
        range_preview: None,
        files_navigation_active: true,
        search: SearchState {
            active: false,
            input: input(""),
            input_focused: false,
            recursive: true,
            mode_label: "filename".to_string(),
            sort_label: "relevance".to_string(),
            sort_dir: SortDir::Asc,
            audio_only: false,
        },
        filter_input: None,
        filter_text: String::new(),
        type_ahead_active: false,
        type_ahead_buffer: String::new(),
        path_input: None,
        archive: None,
        probes: Vec::new(),
        facts: BrowseFacts {
            in_archive: false,
            archive_staging_active: false,
            archive_entries: Vec::new(),
            cached_info: None,
            dir_stats: None,
            dir_stats_pending: Vec::new(),
            classification: None,
            classification_pending: Vec::new(),
            disc_probe_cache: Vec::new(),
            disc_probe_pending: Vec::new(),
            disc_probe_followup: Vec::new(),
            cold_work_policy: BrowseDirectorySummaryColdWorkPolicy::Eager,
        },
        show_hidden: false,
        explore_enabled: true,
        info_enabled: true,
        nav: BrowseNavigation {
            explore_collapsed: false,
            info_collapsed: false,
            can_go_back: true,
            can_go_forward: false,
            tree_nodes: Vec::new(),
            tree_cursor: 0,
            tree_scroll: 0,
            tree_visible_height: 10,
            tree_navigation_active: false,
            tabs: vec![tab(0, "music")],
            active_tab: 0,
            has_closed_tabs: false,
        },
        options: BrowseOptions {
            options_menu: BrowseOptionsMenu::Closed,
            options_menu_highlight: None,
            default_sort_by: BrowseColumn::Name,
            default_sort_dir: SortDir::Asc,
            column_choices: Vec::new(),
            sort_choices: Vec::new(),
            filter_choices: Vec::new(),
            format_filter: 0,
        },
        return_target: None,
        last_render_area: None,
    }
}

fn tab(index: usize, label: &str) -> TabInfo {
    TabInfo { index, label: label.to_string(), active: index == 0, loading: false, has_selection: false }
}

fn theme_choice(name: &str, description: &str, built_in: bool) -> ThemeChoice {
    ThemeChoice {
        name: name.to_string(),
        description: description.to_string(),
        dark: true,
        built_in,
        accents: (0..14).map(|i| Tone::Rgb(10 + i, 80 + i, 150 + i)).collect(),
    }
}

fn gruvbox() -> ThemeChoice {
    theme_choice("Gruvbox material", "Warm dark Gruvbox material palette", true)
}

fn app(screen: AppScreen) -> AppState {
    AppState {
        status: None,
        active_overlay: ActiveOverlay::Closed,
        current_screen: screen,
        browse: browse_state(),
        convert: ConvertState {
            metadata: MetadataState {
                title: None,
                artist: None,
                album: None,
                genre: None,
                year: None,
                album_artist_for_conversion: None,
                field_focus: ConvertMetadataField::Title,
                editing: None,
                edit_input: input(""),
                file_scroll: 0,
            },
            source: SourceMode::Empty,
        },
        effects: Vec::new(),
        shown: ShownState {
            analysis_results: Vec::new(),
            verify_results: Vec::new(),
            compare_results: Vec::new(),
            preemph_results: Vec::new(),
            settings: SettingsState {
                focus: ConfigFocus::Appearance,
                appearance: AppearanceState {
                    choices: vec![theme_choice("Other", "another theme", true), gruvbox()],
                    active_index: 1,
                    runtime: gruvbox(),
                },
                conversion: ConversionConfig {
                    preferred_backend: "native".to_string(),
                    worker_count: 4,
                    calculate_replaygain: true,
                    generate_cue_files: false,
                    cue_generation_mode: "single".to_string(),
                    write_log_file: true,
                    persist_queue: true,
                    default_destination: None,
                    scratch_directory: None,
                    scratch_memory_limit_percent: 50,
                },
                browsing: BrowsingConfig {
                    archive_listing_label: "auto".to_string(),
                    archive_listing_timeout: 10,
                },
                keychain: KeychainState {
                    load_error: None,
                    passwords: Vec::new(),
                    selected: 0,
                    reveal: false,
                },
            },
            bookmarks: BookmarksState {
                entries: vec![BookmarkEntry { name: "music".to_string(), status: None }],
                dropdown_open: false,
                dropdown_selected: 0,
                dropdown_scroll: 0,
                dropdown_visible_rows: 10,
            },
            browse_inline_edit: None,
            browse_info_focus: None,
            list_scrollbar: None,
            tree_scrollbar: None,
            hover_target: None,
            has_file_task_messages: false,
            wizard_active: false,
            home: "/home/me".to_string(),
            version: "1.2.3".to_string(),
            archive_listing: "auto".to_string(),
            presets_open: false,
            recent_open: false,
            bookmarks_open: false,
        },
    }
}

#[derive(Clone, Copy)]
struct Cell {
    symbol: char,
    fg: Tone,
    bg: Tone,
    bold: bool,
}

struct Canvas {
    width: u16,
    height: u16,
    cells: Vec<Cell>,
}

impl Canvas {
    /// The cells that a scene paints on an empty terminal, with one column for each
    /// character.
    fn paint(scene: &Scene, width: u16, height: u16) -> Canvas {
        let blank = Cell { symbol: ' ', fg: Tone::Unset, bg: Tone::Unset, bold: false };
        let mut canvas =
            Canvas { width, height, cells: vec![blank; width as usize * height as usize] };
        for op in &scene.ops {
            match op {
                Op::Clear(area) => canvas.each(*area, |cell| *cell = blank),
                Op::Text { area, rows, style, align, .. } => {
                    let style = *style;
                    canvas.each(*area, |cell| apply(cell, style));
                    for (i, line) in rows.lines.iter().take(area.height as usize).enumerate() {
                        let total: usize = line.spans.iter().map(|s| s.text.chars().count()).sum();
                        let mut x = area.x as usize
                            + if *align == Align::Center {
                                (area.width as usize).saturating_sub(total) / 2
                            } else {
                                0
                            };
                        for span in &line.spans {
                            for symbol in span.text.chars() {
                                if x < (area.x + area.width) as usize {
                                    canvas.put(x, area.y as usize + i, symbol, span.style);
                                }
                                x += 1;
                            }
                        }
                    }
                }
                Op::Frame { area, title, border, fill } => {
                    let (border, fill) = (*border, *fill);
                    canvas.each(*area, |cell| apply(cell, fill));
                    for y in area.y..area.y + area.height {
                        for x in area.x..area.x + area.width {
                            let edge_x = x == area.x || x == area.x + area.width - 1;
                            let edge_y = y == area.y || y == area.y + area.height - 1;
                            if edge_x || edge_y {
                                canvas.put(x as usize, y as usize, '─', border);
                            }
                        }
                    }
                    let mut x = area.x as usize + 1;
                    for span in &title.spans {
                        for symbol in span.text.chars() {
                            canvas.put(x, area.y as usize, symbol, span.style);
                            x += 1;
                        }
                    }
                }
                Op::Cursor { .. } | Op::Host { .. } => {}
            }
        }
        canvas
    }

    fn each(&mut self, area: Rect, change: impl Fn(&mut Cell)) {
        for y in area.y..(area.y + area.height).min(self.height) {
            for x in area.x..(area.x + area.width).min(self.width) {
                change(&mut self.cells[y as usize * self.width as usize + x as usize]);
            }
        }
    }

    fn put(&mut self, x: usize, y: usize, symbol: char, style: tonepoet_tui::style::Style) {
        if x < self.width as usize && y < self.height as usize {
            let cell = &mut self.cells[y * self.width as usize + x];
            cell.symbol = symbol;
            apply(cell, style);
        }
    }

    fn get(&self, x: usize, y: usize) -> Cell {
        self.cells[y * self.width as usize + x]
    }

    fn text(&self) -> String {
        let mut out = String::new();
        for row in self.cells.chunks(self.width as usize) {
            out.extend(row.iter().map(|cell| cell.symbol));
            out.push('\n');
        }
        out
    }
}

fn apply(cell: &mut Cell, style: tonepoet_tui::style::Style) {
    if style.fg != Tone::Unset {
        cell.fg = style.fg;
    }
    if style.bg != Tone::Unset {
        cell.bg = style.bg;
    }
    cell.bold = cell.bold || style.bold;
}

fn ui(app: &mut AppState, width: u16, height: u16) -> Canvas {
    let (scene, _) = draw_ui(area(0, 0, width, height), app);
    Canvas::paint(&scene, width, height)
}

fn assert_palette_ribbon_rendered(canvas: &Canvas, expected: &[Tone]) {
    let blocks = canvas
        .cells
        .iter()
        .filter(|cell| {
            cell.symbol == '█' && expected.iter().any(|tone| cell.fg == *tone || cell.bg == *tone)
        })
        .count();
    assert!(
        blocks >= expected.len(),
        "palette ribbon should render at least one styled block cell per requested swatch",
    );
    for tone in expected {
        assert!(
            canvas
                .cells
                .iter()
                .any(|cell| cell.symbol == '█' && (cell.fg == *tone || cell.bg == *tone)),
            "palette ribbon should render every expected swatch color as styled block cells",
        );
    }
}

#[test]
fn draw_ui_uses_app_theme_on_the_next_frame() {
    let canvas = ui(&mut app(AppScreen::Library), 40, 8);
    assert_eq!(canvas.get(0, 0).bg, Tone::Bg);
}

#[test]
fn wizard_fallback_uses_app_theme() {
    let canvas = ui(&mut app(AppScreen::Wizard), 48, 4);
    assert_eq!(canvas.get(0, 0).fg, Tone::Text);
    assert_eq!(canvas.get(0, 0).bg, Tone::Bg);
    assert!(canvas.text().contains("No wizard active. Press Esc to return."));
}

#[test]
fn an_active_wizard_is_painted_by_the_host() {
    let mut state = app(AppScreen::Wizard);
    state.shown.wizard_active = true;
    let size = area(0, 0, 120, 50);
    let (scene, hits) = draw_ui(size, &mut state);
    assert!(scene.ops.iter().any(
        |op| matches!(op, Op::Host { panel: Panel::Wizard, area } if *area == size)
    ));
    assert!(hits.recorded_buttons().is_empty());
}

#[test]
fn appearance_pane_renders_mockup_content_without_old_clutter() {
    let mut state = app(AppScreen::Config);
    let canvas = ui(&mut state, 100, 36);
    let text = canvas.text();
    assert!(text.contains("Appearance"));
    assert!(text.contains("Theme"));
    assert!(text.contains("Gruvbox material"));
    assert!(text.contains("Warm dark Gruvbox material palette"));
    assert!(text.contains(" / "), "theme counter should be visible");
    assert!(text.contains("2 built-in"));
    assert!(text.contains("0 custom"));
    assert!(text.contains("Browse all"));
    assert!(text.contains("change"));
    assert!(text.contains("mode"));
    assert!(text.contains("browse"));
    assert!(text.contains("help"));
    assert!(!text.contains("h/l"), "old inline h/l instructions must not render");
    assert!(!text.contains("e Edit"), "old inline Edit instruction must not render");
    assert!(!text.contains("n New"), "old inline New instruction must not render");
    assert!(!text.contains(".config"), "filesystem path trivia must not render");
    assert_palette_ribbon_rendered(&canvas, &gruvbox().accents[..10]);
}

#[test]
fn appearance_theme_name_clips_before_palette_ribbon() {
    let mut state = app(AppScreen::Config);
    state.shown.settings.appearance.choices[1].name =
        "An absurdly long custom theme name that would previously crowd out every palette swatch"
            .to_string();
    let canvas = ui(&mut state, 82, 36);
    assert!(canvas.text().contains('…'), "long theme name should be visibly clipped");
    assert_palette_ribbon_rendered(&canvas, &gruvbox().accents[..10]);
}

#[test]
fn appearance_renderer_uses_injected_cached_theme_library() {
    let mut state = app(AppScreen::Config);
    state.shown.settings.appearance.choices =
        vec![theme_choice("Cached Render Only", "Loaded from injected cache, not discovery", false)];
    state.shown.settings.appearance.active_index = 0;
    let canvas = ui(&mut state, 100, 36);
    let text = canvas.text();
    assert!(text.contains("Cached Render Only"));
    assert!(text.contains("Loaded from injected cache, not discovery"));
    assert!(text.contains("1 / 1"));
    assert!(text.contains("0 built-in"));
    assert!(text.contains("1 custom"));
    assert!(
        !text.contains("Gruvbox material"),
        "render should not fall back to runtime theme metadata when cached library data is present"
    );
    assert_palette_ribbon_rendered(
        &canvas,
        &state.shown.settings.appearance.choices[0].accents[..10],
    );
}

#[test]
fn wizard_theme_adapter_maps_tonepoet_theme_roles() {
    let mapped = wizard_theme_from_tonepoet_theme();
    assert_eq!(mapped.background, Tone::Bg);
    assert_eq!(mapped.surface, Tone::Surface);
    assert_eq!(mapped.overlay, Tone::DropdownBg);
    assert_eq!(mapped.border, Tone::Border);
    assert_eq!(mapped.title, Tone::Title);
    assert_eq!(mapped.text, Tone::Text);
    assert_eq!(mapped.text_muted, Tone::TextMuted);
    assert_eq!(mapped.text_dim, Tone::TextDim);
    assert_eq!(mapped.accent, Tone::Info);
    assert_eq!(mapped.selected_bg, Tone::SelectionBg);
    assert_eq!(mapped.selected_fg, Tone::PanelBg);
    assert_eq!(mapped.hover_bg, Tone::HoverBg);
    assert_eq!(mapped.focus_bg, Tone::InputFocusedBg);
    assert_eq!(mapped.error, Tone::Error);
    assert_eq!(mapped.success, Tone::Success);
    assert_eq!(mapped.warning, Tone::Warning);
    assert_eq!(mapped.error_dim, Tone::ErrorDim);
    assert_eq!(mapped.disabled_bg, Tone::InputDisabledBg);
    assert_eq!(mapped.disabled_fg, Tone::TextDim);
    assert_eq!(mapped.input_bg, Tone::InputUnfocusedBg);
    assert_ne!(mapped.error_dim, mapped.error);
}

#[test]
fn browse_tab_strip_draws_owned_labelled_controls_with_exact_close_hits() {
    let mut state = app(AppScreen::Browse);
    let (_, hits) = draw_browse_screen(area(0, 0, 100, 30), &mut state);
    assert!(
        hits.find_button_rect(&TuiButton::BrowseDirTabStrip).is_none(),
        "single-tab Browse must not allocate a tab strip"
    );

    state.browse.nav.tabs = vec![tab(0, "a"), tab(1, "b")];
    let browse = &state.browse;
    let strip = area(0, 0, 60, 1);
    let mut scene = Scene::new();
    let mut buttons = ButtonRenderMap::new();
    draw_browse_tab_strip(&mut scene, strip, browse, &mut buttons);

    assert_eq!(
        buttons.find_button_rect(&TuiButton::BrowseDirTabStrip),
        Some(strip),
        "the complete row must be owned before narrower hit targets are layered on top",
    );
    assert_eq!(
        buttons.find_button_rect(&TuiButton::BrowseDirTabClose(0)).expect("first close hit").width,
        3,
        "[×] is a three-cell drawing and must own exactly three cells",
    );
    assert!(buttons.find_button_rect(&TuiButton::BrowseDirTabNew).is_some());

    let row = Canvas::paint(&scene, 60, 1).text();
    assert!(row.contains("New Tab"), "wide strips label the new-tab button");
    assert!(!row.contains('⧉'), "the standalone Duplicate button is removed");

    let narrow = area(0, 0, 10, 1);
    let mut scene = Scene::new();
    let mut buttons = ButtonRenderMap::new();
    draw_browse_tab_strip(&mut scene, narrow, browse, &mut buttons);
    let new_rect = buttons.find_button_rect(&TuiButton::BrowseDirTabNew).expect("compact new-tab hit");
    assert_eq!(new_rect.width, 3);
    assert!(new_rect.right() <= narrow.right());
    assert!(
        buttons.find_button_rect(&TuiButton::BrowseDirTab(0)).is_some(),
        "width pressure must not zero out all tab cells"
    );
}

#[test]
fn several_tabs_take_a_row_of_the_browse_screen() {
    let mut state = app(AppScreen::Browse);
    state.browse.nav.tabs = vec![tab(0, "a"), tab(1, "b")];
    let (_, hits) = draw_browse_screen(area(0, 0, 100, 30), &mut state);
    assert_eq!(
        hits.find_button_rect(&TuiButton::BrowseDirTabStrip),
        Some(area(0, 12, 100, 1))
    );
}

#[test]
fn the_browse_screen_shows_header_path_files_and_footer() {
    let mut state = app(AppScreen::Browse);
    state.status = Some("All done".to_string());
    let canvas = ui(&mut state, 120, 40);
    let text = canvas.text();
    assert!(text.contains("▀▀█▀▀"));
    assert!(text.contains("v1.2.3"));
    assert!(text.contains(" path: /music"));
    assert!(text.contains("a.flac"));
    assert!(text.contains("explore"));
    assert!(text.contains("All done"));
}

#[test]
fn the_options_menu_lies_on_top_of_the_screen() {
    let mut state = app(AppScreen::Browse);
    state.browse.options.options_menu = BrowseOptionsMenu::Layout;
    let (_, hits) = draw_browse_screen(area(0, 0, 120, 40), &mut state);
    let row = hits.find_button_rect(&TuiButton::BrowseOptionsSort).expect("menu row");
    assert_eq!(hits.find_button_at(row.x + 1, row.y), Some(TuiButton::BrowseOptionsSort));
    assert!(hits.find_button_rect(&TuiButton::BrowseOptionsToggleInfo).is_some());
}

#[test]
fn bookmarks_without_room_for_their_button_are_closed() {
    let mut state = app(AppScreen::Browse);
    state.shown.bookmarks.dropdown_open = true;
    let _ = draw_browse_screen(area(0, 0, 120, 40), &mut state);
    assert!(state.shown.bookmarks.dropdown_open);
    let (_, hits) = draw_browse_screen(area(0, 0, 20, 40), &mut state);
    assert!(!state.shown.bookmarks.dropdown_open);
    assert!(hits.find_button_rect(&TuiButton::BrowseBookmarkDropdownAdd).is_none());
}

#[test]
fn the_browse_screen_keeps_where_it_was_drawn() {
    let mut state = app(AppScreen::Browse);
    let size = area(0, 0, 120, 40);
    let _ = draw_browse_screen(size, &mut state);
    assert_eq!(state.browse.last_render_area, Some(size));
    let smaller = area(0, 0, 90, 30);
    let _ = draw_ui(smaller, &mut state);
    assert_eq!(state.browse.last_render_area, Some(smaller));
    state.current_screen = AppScreen::Library;
    let _ = draw_ui(size, &mut state);
    assert_eq!(state.browse.last_render_area, Some(smaller), "another screen leaves it");
}

#[test]
fn the_browse_screen_keeps_how_much_it_can_show() {
    let mut state = app(AppScreen::Browse);
    state.shown.bookmarks.dropdown_open = true;
    let size = area(0, 0, 120, 40);
    let (list, tree) = browse_scroll_requests(size, &state);
    let _ = draw_browse_screen(size, &mut state);
    // Seven rows of header, five of toolbar and two of footer leave twenty-six.
    assert_eq!(state.browse.visible_height, 23);
    assert_eq!(state.browse.nav.tree_visible_height, 24);
    assert_eq!(state.shown.bookmarks.dropdown_visible_rows, 10);
    assert_eq!(list.map(|request| (request.visible, request.track)), Some((23, 23)));
    assert_eq!(tree.map(|request| (request.visible, request.track)), Some((24, 24)));

    state.browse.filter_input = Some(input("x"));
    let _ = draw_browse_screen(size, &mut state);
    assert_eq!(state.browse.visible_height, 22);

    state.browse.nav.explore_collapsed = true;
    let (_, tree) = browse_scroll_requests(area(0, 0, 120, 30), &state);
    let _ = draw_browse_screen(area(0, 0, 120, 30), &mut state);
    assert_eq!(state.browse.nav.tree_visible_height, 24, "a collapsed tree keeps its height");
    assert_eq!(tree, None);
}

#[test]
fn other_screens_do_not_mind_a_stale_list() {
    let mut state = app(AppScreen::Library);
    state.browse.scroll_offset = 99;
    let (scene, _) = draw_ui(area(0, 0, 80, 24), &mut state);
    assert!(!scene.ops.is_empty());
    state.current_screen = AppScreen::Browse;
    state.browse.error = Some("gone".to_string());
    assert!(ui(&mut state, 120, 40).text().contains("gone"));
}

#[test]
fn dialogs_lie_on_top_of_the_screen() {
    let mut state = app(AppScreen::Library);
    state.active_overlay = ActiveOverlay::Confirmation { message: "Really?".to_string() };
    let (scene, hits) = draw_ui(area(0, 0, 80, 24), &mut state);
    let canvas = Canvas::paint(&scene, 80, 24);
    assert!(canvas.text().contains("Really?"));
    let yes = hits.find_button_rect(&TuiButton::OverlayConfirm).unwrap();
    let no = hits.find_button_rect(&TuiButton::OverlayCancel).unwrap();
    assert_eq!(no.x, yes.x + yes.width + 1);
    let label: String =
        (yes.x..yes.x + yes.width).map(|x| canvas.get(x as usize, yes.y as usize).symbol).collect();
    assert_eq!(label, " Y yes ");
}

#[test]
fn side_panels_open_beside_the_dialog() {
    let mut state = app(AppScreen::Convert);
    state.shown.presets_open = true;
    state.shown.bookmarks_open = true;
    let (scene, _) = draw_ui(area(0, 0, 80, 24), &mut state);
    let panels: Vec<Panel> = scene
        .ops
        .iter()
        .filter_map(|op| match op {
            Op::Host { panel, .. } => Some(*panel),
            _ => None,
        })
        .collect();
    assert_eq!(panels, vec![Panel::ConvertScreen, Panel::Presets, Panel::Bookmarks]);
}

#[test]
fn file_task_details_keeps_a_mouse_target_at_every_nonzero_width() {
    assert_eq!(file_task_details_label(0, true), "");
    for width in 1..7 {
        assert_eq!(file_task_details_label(width, true), "d");
    }
    assert_eq!(file_task_details_label(7, true), " msgs ");
    assert_eq!(file_task_details_label(17, true), " msgs ");
    assert_eq!(file_task_details_label(18, true), " details ");
    assert_eq!(file_task_details_label(80, false), "");

    assert_eq!(file_task_details_rect(area(9, 4, 1, 1), true), Some(area(9, 4, 1, 1)));
    assert_eq!(file_task_details_rect(area(9, 4, 0, 1), true), None);
}

#[test]
fn draw_header_uses_passed_theme_without_frame_binding() {
    let mut scene = Scene::new();
    draw_header(&mut scene, area(0, 0, 80, 7), "0.1.0");
    let canvas = Canvas::paint(&scene, 80, 7);
    assert_eq!(canvas.get(19, 2).fg, Tone::Title);
}

#[test]
fn the_header_is_a_box_of_full_width() {
    let mut scene = Scene::new();
    draw_header(&mut scene, area(0, 0, 81, 7), "0.1.0");
    let canvas = Canvas::paint(&scene, 81, 7);
    for y in 1..6 {
        assert_eq!(canvas.get(0, y).symbol, '│');
        assert_eq!(canvas.get(80, y).symbol, '│');
    }
    assert_eq!(canvas.get(0, 0).symbol, '╭');
    assert_eq!(canvas.get(80, 6).symbol, '╯');
    let mut small = Scene::new();
    draw_header(&mut small, area(0, 0, 49, 7), "0.1.0");
    assert!(small.ops.is_empty());
}

#[test]
fn the_preset_bar_names_the_preset_and_its_buttons() {
    let preset = PresetState { active_preset: Some("Vinyl".to_string()), modified: true };
    let mut scene = Scene::new();
    let mut buttons = tonepoet_tui::button_map::ButtonRenderMap::new();
    draw_preset_bar(&mut scene, area(2, 3, 60, 1), &preset, &mut buttons);
    let canvas = Canvas::paint(&scene, 70, 5);
    let text = canvas.text();
    assert!(text.contains("  preset   Vinyl   (modified)"));
    assert_eq!(buttons.find_button_at(12, 3), Some(TuiButton::PresetsButton));
    let save = buttons.find_button_rect(&TuiButton::SaveButton).unwrap();
    let label: String =
        (save.x..save.x + 6).map(|x| canvas.get(x as usize, 3).symbol).collect();
    assert_eq!(label, "s save");
    let mut narrow = Scene::new();
    draw_preset_bar(&mut narrow, area(0, 0, 19, 1), &preset, &mut buttons);
    assert!(narrow.ops.is_empty());
}

#[test]
fn long_settings_are_clipped_with_an_ellipsis() {
    assert_eq!(clipped("abcdef", 6), "abcdef");
    assert_eq!(clipped("abcdef", 4), "abc…");
    assert_eq!(width_of("日本"), 2);
}

#[test]
fn a_placeholder_screen_names_its_tab() {
    let canvas = ui(&mut app(AppScreen::Library), 80, 24);
    assert!(canvas.text().contains("  library — coming soon"));
    assert!(canvas.cells.iter().any(|cell| cell.bold));
}
