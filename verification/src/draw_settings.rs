//! The settings screen: appearance, conversion, performance and saved passwords.

use crate::button_map::{ButtonRenderMap, Hit, TuiButton};
use crate::draw_footer::{draw_footer, shows_footer, AppScreen, words};
use crate::geometry::{inner, inside_border, plus16, Rect};
use crate::layout::{divides, split, Constraint, Direction};
use crate::scene::{
    frame_op, line1, line2, line_op, sp, text_op, Line, LineV, OpV, Rows, RowsV, Scene, SceneV,
};
use crate::style::{bg, bold, bold_fg, bright, dimmed, fg, muted, on, plain, Style, Tone};
use crate::text::{
    blanks, cat2, cat3, cat4, count, dec, dec_len, decimal, least, minus, owned, plus,
    repeat_char, repeated, spaces, take_chars,
};
use vstd::prelude::*;
use vstd::utf8::encode_utf8;

verus! {

/// The pane of the settings screen that has the keyboard.
#[derive(Clone, Copy, Debug, PartialEq, Eq, Structural)]
pub enum ConfigFocus {
    Appearance,
    Conversion,
    Performance,
    Keychain,
}

/// A colour theme.
#[derive(Debug)]
pub struct ThemeChoice {
    pub name: String,
    pub description: String,
    pub dark: bool,
    pub built_in: bool,
    pub accents: Vec<Tone>,
}

/// The colour themes to choose from, and the one in use.
#[derive(Debug)]
pub struct AppearanceState {
    pub choices: Vec<ThemeChoice>,
    pub active_index: usize,
    /// The theme on the screen now.
    pub runtime: ThemeChoice,
}

/// How files are converted.
#[derive(Debug)]
pub struct ConversionConfig {
    pub preferred_backend: String,
    pub worker_count: usize,
    pub calculate_replaygain: bool,
    pub generate_cue_files: bool,
    pub cue_generation_mode: String,
    pub write_log_file: bool,
    pub persist_queue: bool,
    pub default_destination: Option<String>,
    pub scratch_directory: Option<String>,
    pub scratch_memory_limit_percent: u64,
}

/// How archives are listed.
#[derive(Debug)]
pub struct BrowsingConfig {
    pub archive_listing_label: String,
    /// In seconds; zero for no limit.
    pub archive_listing_timeout: u64,
}

/// The saved passwords.
#[derive(Debug)]
pub struct KeychainState {
    pub load_error: Option<String>,
    pub passwords: Vec<String>,
    pub selected: usize,
    pub reveal: bool,
}

/// The settings.
#[derive(Debug)]
pub struct SettingsState {
    pub focus: ConfigFocus,
    pub appearance: AppearanceState,
    pub conversion: ConversionConfig,
    pub browsing: BrowsingConfig,
    pub keychain: KeychainState,
}

/// The number of characters, held to the largest column number.
pub open spec fn chars16(value: Seq<char>) -> int {
    least(value.len() as int, u16::MAX as int)
}

/// The number of characters, held to the largest column number.
pub fn width_of(value: &str) -> (r: u16)
    ensures
        r == chars16(value@),
{
    let n: usize = count(value);
    if n <= 65535 {
        n as u16
    } else {
        65535
    }
}

/// `value` where it has at most `max` characters; else its front part with an
/// ellipsis, `max` characters in all.
pub open spec fn clipped_text(value: Seq<char>, max: int) -> Seq<char> {
    if value.len() <= max {
        value
    } else if max <= 0 {
        Seq::empty()
    } else if max == 1 {
        "…"@
    } else {
        value.take(max - 1).push('…')
    }
}

/// `value` cut to at most `max_chars` characters.
pub fn clipped(value: &str, max_chars: usize) -> (r: String)
    ensures
        r@ == clipped_text(value@, max_chars as int),
{
    if count(value) <= max_chars {
        return owned(value);
    }
    if max_chars == 0 {
        return String::new();
    }
    if max_chars == 1 {
        return owned("…");
    }
    let mut out = take_chars(value, max_chars - 1);
    out.push('…');
    out
}

/// A cut text is never longer than asked for, and a text that fits is not cut.
pub proof fn clipped_text_fits(value: Seq<char>, max: int)
    requires
        0 <= max,
    ensures
        clipped_text(value, max).len() <= max,
        value.len() <= max ==> clipped_text(value, max) == value,
{
    reveal_strlit("…");
}

/// The theme described: the one chosen, or else the one on the screen.
pub open spec fn described(state: AppearanceState) -> ThemeChoice {
    if state.active_index < state.choices@.len() {
        state.choices@[state.active_index as int]
    } else {
        state.runtime
    }
}

/// How many of the first `n` themes come with the program.
pub open spec fn built_in_count(choices: Seq<ThemeChoice>, n: nat) -> nat
    decreases n,
{
    if n == 0 || n > choices.len() {
        0
    } else {
        built_in_count(choices, (n - 1) as nat) + if choices[n - 1].built_in { 1nat } else { 0 }
    }
}

fn count_built_in(choices: &Vec<ThemeChoice>) -> (r: usize)
    ensures
        r == built_in_count(choices@, choices@.len()),
        r <= choices@.len(),
{
    let mut n: usize = 0;
    for i in 0..choices.len()
        invariant
            n == built_in_count(choices@, i as nat),
            n <= i,
    {
        if choices[i].built_in {
            n += 1;
        }
    }
    n
}

/// The place of the theme among all, in words.
pub open spec fn counter_text(state: AppearanceState) -> Seq<char> {
    let total = if state.choices@.len() > 0 { state.choices@.len() as int } else { 1 };
    decimal(least(plus(state.active_index as int, 1), total) as nat) + " / "@ + decimal(
        total as nat,
    )
}

fn text_of_counter(state: &AppearanceState) -> (r: String)
    ensures
        r@ == counter_text(*state),
{
    let total: usize = if state.choices.len() > 0 { state.choices.len() } else { 1 };
    let next: usize = state.active_index.saturating_add(1);
    let at: usize = if next <= total { next } else { total };
    cat3(dec_len(at).as_str(), " / ", dec_len(total).as_str())
}

/// The number of colours shown of a theme.
pub open spec fn swatches(accents: Seq<Tone>) -> int {
    least(accents.len() as int, 10)
}

/// The columns before, between and behind the theme's name.
pub open spec fn name_reserve(accents: Seq<Tone>) -> int {
    plus16(
        plus16(plus16(chars16("  Theme      "@), chars16("◂ "@)), chars16(" ▸  "@)),
        ribbon_width(accents),
    )
}

/// The columns of the theme's colours.
pub open spec fn ribbon_width(accents: Seq<Tone>) -> int {
    3 * swatches(accents)
}

/// The columns of the theme's name.
pub open spec fn name_columns(state: AppearanceState, width: int) -> int {
    least(
        chars16(described(state).name@),
        minus(width, name_reserve(described(state).accents@)),
    )
}

/// The first `n` colours of a theme, as blocks.
pub open spec fn ribbon(front: LineV, accents: Seq<Tone>, n: nat) -> LineV
    decreases n,
{
    if n == 0 || n > accents.len() {
        front
    } else {
        ribbon(front, accents, (n - 1) as nat).push(sp("██"@, fg(accents[n - 1]))).push(
            sp(" "@, plain()),
        )
    }
}

/// The style of what is active.
#[verifier::allow_in_spec]
pub fn active_style(active: bool) -> Style
    returns
        (if active {
            bold_fg(Tone::TabActive)
        } else {
            dimmed()
        }),
{
    if active {
        bold_fg(Tone::TabActive)
    } else {
        dimmed()
    }
}

/// The theme's name between two arrows.
pub open spec fn theme_front(state: AppearanceState, width: int) -> LineV {
    seq![
        sp("  Theme      "@, fg(Tone::Label)),
        sp("◂ "@, dimmed()),
        sp(
            clipped_text(described(state).name@, name_columns(state, width)),
            bold_fg(Tone::TabActive),
        ),
        sp(" ▸  "@, dimmed()),
    ]
}

/// The theme's name between two arrows, and its colours.
pub open spec fn theme_line(state: AppearanceState, width: int) -> LineV {
    let theme = described(state);
    ribbon(
        theme_front(state, width),
        theme.accents@,
        swatches(theme.accents@) as nat,
    )
}

fn describe(state: &AppearanceState) -> (r: &ThemeChoice)
    ensures
        *r == described(*state),
{
    if state.active_index < state.choices.len() {
        &state.choices[state.active_index]
    } else {
        &state.runtime
    }
}

fn columns_of_name(state: &AppearanceState, width: u16) -> (r: u16)
    ensures
        r == name_columns(*state, width as int),
{
    let theme = describe(state);
    let shown: usize = if theme.accents.len() <= 10 { theme.accents.len() } else { 10 };
    let blocks: u16 = 3 * shown as u16;
    let reserve: u16 = width_of("  Theme      ").saturating_add(width_of("◂ ")).saturating_add(
        width_of(" ▸  "),
    ).saturating_add(blocks);
    let name: u16 = width_of(theme.name.as_str());
    let room: u16 = width.saturating_sub(reserve);
    if name <= room {
        name
    } else {
        room
    }
}

fn line_of_theme(state: &AppearanceState, width: u16) -> (r: Line)
    ensures
        r@ == theme_line(*state, width as int),
{
    let theme = describe(state);
    let name = clipped(theme.name.as_str(), columns_of_name(state, width) as usize);
    let mut line = line2("  Theme      ", fg(Tone::Label), "◂ ", dimmed());
    line.put(name.as_str(), bold_fg(Tone::TabActive));
    line.put(" ▸  ", dimmed());
    let ghost front = line@;
    proof {
        assert(front =~= theme_front(*state, width as int));
    }
    let shown: usize = if theme.accents.len() <= 10 { theme.accents.len() } else { 10 };
    for i in 0..shown
        invariant
            shown == swatches(theme.accents@),
            line@ == ribbon(front, theme.accents@, i as nat),
    {
        line.put("██", fg(theme.accents[i]));
        line.put(" ", plain());
    }
    line
}

/// The theme's description and its place among all.
pub open spec fn subtitle_line(state: AppearanceState, width: int) -> LineV {
    let counter = counter_text(state);
    let reserve = plus16(
        plus16(chars16("             "@), chars16("   ·   "@)),
        chars16(counter),
    );
    seq![
        sp("             "@, plain()),
        sp(
            clipped_text(described(state).description@, minus(width, reserve)),
            fg(Tone::TextMuted),
        ),
        sp("   ·   "@, dimmed()),
        sp(counter, dimmed()),
    ]
}

fn line_of_subtitle(state: &AppearanceState, width: u16) -> (r: Line)
    ensures
        r@ == subtitle_line(*state, width as int),
{
    let counter = text_of_counter(state);
    let reserve: u16 = width_of("             ").saturating_add(
        width_of("   ·   "),
    ).saturating_add(width_of(counter.as_str()));
    let text = clipped(
        describe(state).description.as_str(),
        width.saturating_sub(reserve) as usize,
    );
    let mut line = line2("             ", plain(), text.as_str(), fg(Tone::TextMuted));
    line.put("   ·   ", dimmed());
    line.put(counter.as_str(), dimmed());
    line
}

/// The dark switch.
pub open spec fn dark_token(dark: bool) -> Seq<char> {
    if dark {
        "● Dark"@
    } else {
        "○ Dark"@
    }
}

/// The light switch.
pub open spec fn light_token(dark: bool) -> Seq<char> {
    if dark {
        "○ Light"@
    } else {
        "● Light"@
    }
}

fn token_of_dark(dark: bool) -> (r: &'static str)
    ensures
        r@ == dark_token(dark),
{
    if dark {
        "● Dark"
    } else {
        "○ Dark"
    }
}

fn token_of_light(dark: bool) -> (r: &'static str)
    ensures
        r@ == light_token(dark),
{
    if dark {
        "○ Light"
    } else {
        "● Light"
    }
}

/// The switch between dark and light.
pub open spec fn mode_line(dark: bool) -> LineV {
    seq![
        sp("  Mode       "@, fg(Tone::Label)),
        sp(dark_token(dark), active_style(dark)),
        sp("  "@, plain()),
        sp(light_token(dark), active_style(!dark)),
    ]
}

fn line_of_mode(dark: bool) -> (r: Line)
    ensures
        r@ == mode_line(dark),
{
    let mut line = line2(
        "  Mode       ",
        fg(Tone::Label),
        token_of_dark(dark),
        active_style(dark),
    );
    line.put("  ", plain());
    line.put(token_of_light(dark), active_style(!dark));
    line
}

/// How many themes there are.
pub open spec fn library_text(state: AppearanceState) -> Seq<char> {
    let own = built_in_count(state.choices@, state.choices@.len());
    decimal(own) + " built-in · "@ + decimal((state.choices@.len() - own) as nat) + " custom"@
}

fn text_of_library(state: &AppearanceState) -> (r: String)
    ensures
        r@ == library_text(*state),
{
    let own: usize = count_built_in(&state.choices);
    cat4(
        dec_len(own).as_str(),
        " built-in · ",
        dec_len(state.choices.len() - own).as_str(),
        " custom",
    )
}

/// How many themes there are, and the button that lists them at the right end.
pub open spec fn library_line(state: AppearanceState, width: int) -> LineV {
    let label = library_text(state);
    let used = plus16(
        plus16(chars16("  Library    "@), chars16(label)),
        chars16("[ Browse all … ]"@),
    );
    seq![
        sp("  Library    "@, fg(Tone::Label)),
        sp(label, fg(Tone::TextMuted)),
        sp(blanks(minus(minus(width, used), 1) as nat), plain()),
        sp("[ Browse all … ]"@, on(Tone::PillActiveFg, Tone::PillActiveBg)),
    ]
}

fn line_of_library(state: &AppearanceState, width: u16) -> (r: Line)
    ensures
        r@ == library_line(*state, width as int),
{
    let label = text_of_library(state);
    let used: u16 = width_of("  Library    ").saturating_add(
        width_of(label.as_str()),
    ).saturating_add(width_of("[ Browse all … ]"));
    let gap = spaces(width.saturating_sub(used).saturating_sub(1) as usize);
    let mut line = line2(
        "  Library    ",
        fg(Tone::Label),
        label.as_str(),
        fg(Tone::TextMuted),
    );
    line.put(gap.as_str(), plain());
    line.put("[ Browse all … ]", on(Tone::PillActiveFg, Tone::PillActiveBg));
    line
}

/// The keys of the pane.
pub open spec fn appearance_keys() -> LineV {
    seq![
        sp("  "@, plain()),
        sp("←/→"@, bold_fg(Tone::TabActive)),
        sp(" change   "@, dimmed()),
        sp("m"@, bold_fg(Tone::TabActive)),
        sp(" mode   "@, dimmed()),
        sp("e"@, bold_fg(Tone::TabActive)),
        sp(" edit   "@, dimmed()),
        sp("n"@, bold_fg(Tone::TabActive)),
        sp(" new   "@, dimmed()),
        sp("b"@, bold_fg(Tone::TabActive)),
        sp(" browse   "@, dimmed()),
        sp("?"@, bold_fg(Tone::TabActive)),
        sp(" help"@, dimmed()),
    ]
}

fn line_of_keys() -> (r: Line)
    ensures
        r@ == appearance_keys(),
{
    let key = bold_fg(Tone::TabActive);
    let mut line = line1("  ", plain());
    line.put("←/→", key);
    line.put(" change   ", dimmed());
    line.put("m", key);
    line.put(" mode   ", dimmed());
    line.put("e", key);
    line.put(" edit   ", dimmed());
    line.put("n", key);
    line.put(" new   ", dimmed());
    line.put("b", key);
    line.put(" browse   ", dimmed());
    line.put("?", key);
    line.put(" help", dimmed());
    line
}

/// The appearance pane, line by line.
pub open spec fn appearance_lines(state: AppearanceState, width: int) -> RowsV {
    let empty = Seq::<crate::scene::SpanV>::empty();
    seq![
        empty,
        theme_line(state, width),
        subtitle_line(state, width),
        empty,
        mode_line(state.runtime.dark),
        empty,
        library_line(state, width),
        empty,
        empty,
        appearance_keys(),
    ]
}

/// The line between the pane's settings and its keys, joined to the border.
pub open spec fn separator_op(area: Rect, focused: bool) -> OpV {
    line_op(
        Rect {
            x: minus(area.x as int, 1) as u16,
            y: plus16(area.y as int, 8) as u16,
            width: plus16(area.width as int, 2) as u16,
            height: 1,
        },
        seq![
            sp(
                "├"@ + repeated('─', area.width as nat) + "┤"@,
                on(if focused { Tone::Cyan } else { Tone::TextDim }, Tone::PanelBg),
            ),
        ],
    )
}

/// The appearance pane on the screen.
pub open spec fn appearance_scene(area: Rect, state: AppearanceState, focused: bool) -> SceneV {
    seq![
        text_op(area, appearance_lines(state, area.width as int), bg(Tone::PanelBg)),
        separator_op(area, focused),
    ]
}

/// The appearance pane as buttons.
pub open spec fn appearance_hits(area: Rect, state: AppearanceState) -> Seq<Hit> {
    let theme_y = plus16(area.y as int, 1) as u16;
    let prev_x = plus16(area.x as int, chars16("  Theme      "@));
    let name_x = plus16(prev_x, chars16("◂ "@));
    let next_x = plus16(plus16(name_x, name_columns(state, area.width as int)), 1);
    let mode_y = plus16(area.y as int, 4) as u16;
    let mode_x = plus16(area.x as int, chars16("  Mode       "@));
    let dark = state.runtime.dark;
    let dark_w = chars16(dark_token(dark));
    let browse_w = chars16("[ Browse all … ]"@);
    let browse_x = plus16(
        plus16(area.x as int, minus(area.width as int, plus16(browse_w, 2))),
        1,
    );
    seq![
        (
            TuiButton::ConfigThemePrev,
            Rect { x: prev_x as u16, y: theme_y, width: 1, height: 1 },
        ),
        (
            TuiButton::ConfigThemeNext,
            Rect { x: next_x as u16, y: theme_y, width: 1, height: 1 },
        ),
        (
            TuiButton::ConfigThemeMode,
            Rect { x: mode_x as u16, y: mode_y, width: 18, height: 1 },
        ),
        (
            TuiButton::ConfigThemeDark,
            Rect { x: mode_x as u16, y: mode_y, width: dark_w as u16, height: 1 },
        ),
        (
            TuiButton::ConfigThemeLight,
            Rect {
                x: plus16(plus16(mode_x, dark_w), 2) as u16,
                y: mode_y,
                width: chars16(light_token(dark)) as u16,
                height: 1,
            },
        ),
        (
            TuiButton::ConfigThemeBrowse,
            Rect {
                x: browse_x as u16,
                y: plus16(area.y as int, 6) as u16,
                width: browse_w as u16,
                height: 1,
            },
        ),
    ]
}

fn record_appearance(area: Rect, state: &AppearanceState) -> (r: ButtonRenderMap)
    ensures
        r@ == appearance_hits(area, *state),
{
    let theme_y: u16 = area.y.saturating_add(1);
    let prev_x: u16 = area.x.saturating_add(width_of("  Theme      "));
    let name_x: u16 = prev_x.saturating_add(width_of("◂ "));
    let next_x: u16 = name_x.saturating_add(columns_of_name(state, area.width)).saturating_add(1);
    let mode_y: u16 = area.y.saturating_add(4);
    let mode_x: u16 = area.x.saturating_add(width_of("  Mode       "));
    let dark = state.runtime.dark;
    let dark_w: u16 = width_of(token_of_dark(dark));
    let browse_w: u16 = width_of("[ Browse all … ]");
    let browse_x: u16 = area.x.saturating_add(
        area.width.saturating_sub(browse_w.saturating_add(2)),
    ).saturating_add(1);
    let mut hits = ButtonRenderMap::new();
    hits.record_button(
        TuiButton::ConfigThemePrev,
        Rect { x: prev_x, y: theme_y, width: 1, height: 1 },
    );
    hits.record_button(
        TuiButton::ConfigThemeNext,
        Rect { x: next_x, y: theme_y, width: 1, height: 1 },
    );
    hits.record_button(
        TuiButton::ConfigThemeMode,
        Rect { x: mode_x, y: mode_y, width: 18, height: 1 },
    );
    hits.record_button(
        TuiButton::ConfigThemeDark,
        Rect { x: mode_x, y: mode_y, width: dark_w, height: 1 },
    );
    hits.record_button(
        TuiButton::ConfigThemeLight,
        Rect {
            x: mode_x.saturating_add(dark_w).saturating_add(2),
            y: mode_y,
            width: width_of(token_of_light(dark)),
            height: 1,
        },
    );
    hits.record_button(
        TuiButton::ConfigThemeBrowse,
        Rect { x: browse_x, y: area.y.saturating_add(6), width: browse_w, height: 1 },
    );
    hits
}

/// Draws the appearance pane inside its border.
pub fn draw_appearance_pane(
    f: &mut Scene,
    area: Rect,
    state: &AppearanceState,
    focused: bool,
    buttons: &mut ButtonRenderMap,
)
    ensures
        final(f)@ == old(f)@ + appearance_scene(area, *state, focused),
        final(buttons)@ == old(buttons)@ + appearance_hits(area, *state),
{
    let mut lines = Rows::new();
    lines.push(Line::new());
    lines.push(line_of_theme(state, area.width));
    lines.push(line_of_subtitle(state, area.width));
    lines.push(Line::new());
    lines.push(line_of_mode(state.runtime.dark));
    lines.push(Line::new());
    lines.push(line_of_library(state, area.width));
    lines.push(Line::new());
    lines.push(Line::new());
    lines.push(line_of_keys());
    let dashes = repeat_char('─', area.width as usize);
    let text = cat3("├", dashes.as_str(), "┤");
    let tone = if focused { Tone::Cyan } else { Tone::TextDim };
    proof {
        assert(lines@ =~~= appearance_lines(*state, area.width as int));
    }
    let mut scene = Scene::new();
    scene.text(area, lines, bg(Tone::PanelBg));
    scene.line(
        Rect {
            x: area.x.saturating_sub(1),
            y: area.y.saturating_add(8),
            width: area.width.saturating_add(2),
            height: 1,
        },
        line1(text.as_str(), on(tone, Tone::PanelBg)),
    );
    proof {
        assert(scene@ =~= appearance_scene(area, *state, focused));
    }
    f.append(scene);
    buttons.append(record_appearance(area, state));
}

/// A setting in words.
pub open spec fn setting(label: Seq<char>, value: Seq<char>, style: Style) -> LineV {
    seq![sp(label, muted()), sp(value, style)]
}

/// The style of a switch in words.
#[verifier::allow_in_spec]
pub fn switch_style(enabled: bool) -> Style
    returns
        (if enabled {
            fg(Tone::Green)
        } else {
            dimmed()
        }),
{
    if enabled {
        fg(Tone::Green)
    } else {
        dimmed()
    }
}

/// A switch in words.
pub open spec fn switch_text(enabled: bool) -> Seq<char> {
    if enabled {
        "Enabled"@
    } else {
        "Disabled"@
    }
}

fn text_of_switch(enabled: bool) -> (r: &'static str)
    ensures
        r@ == switch_text(enabled),
{
    if enabled {
        "Enabled"
    } else {
        "Disabled"
    }
}

/// A path, or what stands for its absence.
pub open spec fn path_or(path: Option<String>, absent: Seq<char>) -> Seq<char> {
    match path {
        Some(text) => text@,
        None => absent,
    }
}

fn text_of_path(path: &Option<String>, absent: &str) -> (r: String)
    ensures
        r@ == path_or(*path, absent@),
{
    match path {
        Some(text) => owned(text.as_str()),
        None => owned(absent),
    }
}

/// Whether cue sheets are written, and how.
pub open spec fn cue_text(cfg: ConversionConfig) -> Seq<char> {
    if cfg.generate_cue_files {
        "Enabled ("@ + cfg.cue_generation_mode@ + ")"@
    } else {
        "Disabled"@
    }
}

fn text_of_cue(cfg: &ConversionConfig) -> (r: String)
    ensures
        r@ == cue_text(*cfg),
{
    if cfg.generate_cue_files {
        cat3("Enabled (", cfg.cue_generation_mode.as_str(), ")")
    } else {
        owned("Disabled")
    }
}

/// The conversion settings, line by line.
pub open spec fn conversion_lines(cfg: ConversionConfig) -> RowsV {
    seq![
        setting("  Backend:              "@, cfg.preferred_backend@, bright()),
        setting("  Workers:              "@, decimal(cfg.worker_count as nat), bright()),
        setting(
            "  ReplayGain:           "@,
            switch_text(cfg.calculate_replaygain),
            switch_style(cfg.calculate_replaygain),
        ),
        setting("  CUE files:            "@, cue_text(cfg), switch_style(cfg.generate_cue_files)),
        setting(
            "  Log files:            "@,
            switch_text(cfg.write_log_file),
            switch_style(cfg.write_log_file),
        ),
        setting(
            "  Persist queue:        "@,
            switch_text(cfg.persist_queue),
            switch_style(cfg.persist_queue),
        ),
        setting(
            "  Destination:          "@,
            path_or(cfg.default_destination, "(ask every time)"@),
            bright(),
        ),
        setting(
            "  Scratch directory:    "@,
            path_or(cfg.scratch_directory, "(system default)"@),
            bright(),
        ),
        setting(
            "  Scratch memory limit: "@,
            decimal(least(cfg.scratch_memory_limit_percent as int, 90) as nat) + "%"@,
            bright(),
        ),
    ]
}

fn rows_of_conversion(cfg: &ConversionConfig) -> (r: Rows)
    ensures
        r@ == conversion_lines(*cfg),
{
    let mut rows = Rows::new();
    rows.push(
        line2("  Backend:              ", muted(), cfg.preferred_backend.as_str(), bright()),
    );
    rows.push(
        line2("  Workers:              ", muted(), dec_len(cfg.worker_count).as_str(), bright()),
    );
    rows.push(
        line2(
            "  ReplayGain:           ",
            muted(),
            text_of_switch(cfg.calculate_replaygain),
            switch_style(cfg.calculate_replaygain),
        ),
    );
    rows.push(
        line2(
            "  CUE files:            ",
            muted(),
            text_of_cue(cfg).as_str(),
            switch_style(cfg.generate_cue_files),
        ),
    );
    rows.push(
        line2(
            "  Log files:            ",
            muted(),
            text_of_switch(cfg.write_log_file),
            switch_style(cfg.write_log_file),
        ),
    );
    rows.push(
        line2(
            "  Persist queue:        ",
            muted(),
            text_of_switch(cfg.persist_queue),
            switch_style(cfg.persist_queue),
        ),
    );
    let destination = text_of_path(&cfg.default_destination, "(ask every time)");
    rows.push(line2("  Destination:          ", muted(), destination.as_str(), bright()));
    let scratch = text_of_path(&cfg.scratch_directory, "(system default)");
    rows.push(line2("  Scratch directory:    ", muted(), scratch.as_str(), bright()));
    let percent: u64 = if cfg.scratch_memory_limit_percent <= 90 {
        cfg.scratch_memory_limit_percent
    } else {
        90
    };
    let limit = cat2(dec(percent).as_str(), "%");
    rows.push(line2("  Scratch memory limit: ", muted(), limit.as_str(), bright()));
    rows
}

/// A time limit in words.
pub open spec fn timeout_text(seconds: nat) -> Seq<char> {
    if seconds == 0 {
        "Disabled"@
    } else {
        decimal(seconds) + "s"@
    }
}

fn text_of_timeout(seconds: u64) -> (r: String)
    ensures
        r@ == timeout_text(seconds as nat),
{
    if seconds == 0 {
        owned("Disabled")
    } else {
        cat2(dec(seconds).as_str(), "s")
    }
}

/// The performance settings, line by line.
pub open spec fn performance_lines(cfg: BrowsingConfig) -> RowsV {
    seq![
        seq![sp("  Browsing"@, muted())],
        seq![
            sp("  Archive listing:      "@, muted()),
            sp("◂ "@, muted()),
            sp(cfg.archive_listing_label@, bright()),
            sp(" ▸"@, muted()),
        ],
        setting(
            "  Listing timeout:      "@,
            timeout_text(cfg.archive_listing_timeout as nat),
            bright(),
        ),
        seq![sp("  Left/Right changes mode, +/- changes timeout, 0 disables"@, muted())],
    ]
}

fn rows_of_performance(cfg: &BrowsingConfig) -> (r: Rows)
    ensures
        r@ == performance_lines(*cfg),
{
    let mut rows = Rows::new();
    rows.push(line1("  Browsing", muted()));
    let mut listing = line2("  Archive listing:      ", muted(), "◂ ", muted());
    listing.put(cfg.archive_listing_label.as_str(), bright());
    listing.put(" ▸", muted());
    rows.push(listing);
    let timeout = text_of_timeout(cfg.archive_listing_timeout);
    rows.push(line2("  Listing timeout:      ", muted(), timeout.as_str(), bright()));
    rows.push(line1("  Left/Right changes mode, +/- changes timeout, 0 disables", muted()));
    proof {
        assert(rows@ =~~= performance_lines(*cfg));
    }
    rows
}

/// A password, or stars in its place: as many as its encoding is long, and at most
/// twenty.
pub open spec fn password_text(password: Seq<char>, reveal: bool) -> Seq<char> {
    if reveal {
        password
    } else {
        repeated('*', least((encode_utf8(password).len() as usize) as int, 20) as nat)
    }
}

/// Row `idx` of the passwords.
pub open spec fn password_line(state: KeychainState, idx: int, selected: bool) -> LineV {
    seq![
        sp(
            "  "@ + decimal((idx + 1) as nat) + " "@ + password_text(
                state.passwords@[idx]@,
                state.reveal,
            ),
            password_style(selected),
        ),
    ]
}

/// The style of a password's row.
#[verifier::allow_in_spec]
pub fn password_style(selected: bool) -> Style
    returns
        (if selected {
            bold(bg(Tone::SelectionBg))
        } else {
            fg(Tone::Text)
        }),
{
    if selected {
        bold(bg(Tone::SelectionBg))
    } else {
        fg(Tone::Text)
    }
}

fn line_of_password(state: &KeychainState, idx: usize, selected: bool) -> (r: Line)
    requires
        idx < state.passwords@.len(),
        idx < usize::MAX,
    ensures
        r@ == password_line(*state, idx as int, selected),
{
    let password = state.passwords[idx].as_str();
    let shown = if state.reveal {
        owned(password)
    } else {
        let n: usize = password.len();
        repeat_char('*', if n <= 20 { n } else { 20 })
    };
    let text = cat4("  ", dec_len(idx + 1).as_str(), " ", shown.as_str());
    line1(text.as_str(), password_style(selected))
}

/// The selected password, held to the list.
pub open spec fn held_selection(state: KeychainState) -> int {
    least(state.selected as int, minus(state.passwords@.len() as int, 1))
}

/// The first password shown: as far down as keeps the selected one in view.
pub open spec fn password_scroll(state: KeychainState, rows: int) -> int {
    if held_selection(state) >= rows {
        held_selection(state) + 1 - rows
    } else {
        0
    }
}

/// The first `n` rows of passwords.
pub open spec fn password_rows(state: KeychainState, area: Rect, focused: bool, n: nat) -> SceneV
    decreases n,
{
    if n == 0 {
        Seq::empty()
    } else {
        let front = password_rows(state, area, focused, (n - 1) as nat);
        let idx = password_scroll(state, area.height as int) + n - 1;
        if idx < state.passwords@.len() {
            front.push(
                line_op(
                    Rect {
                        x: area.x,
                        y: plus16(area.y as int, n - 1) as u16,
                        width: area.width,
                        height: 1,
                    },
                    password_line(state, idx, idx == held_selection(state) && focused),
                ),
            )
        } else {
            front
        }
    }
}

fn draw_passwords(state: &KeychainState, area: Rect, focused: bool) -> (r: Scene)
    requires
        state.passwords@.len() > 0,
    ensures
        r@ == password_rows(*state, area, focused, area.height as nat),
{
    let total: usize = state.passwords.len();
    let rows: usize = area.height as usize;
    let selected: usize = if state.selected <= total - 1 { state.selected } else { total - 1 };
    let scroll: usize = if selected >= rows { selected + 1 - rows } else { 0 };
    let mut scene = Scene::new();
    for row in 0..area.height
        invariant
            total == state.passwords@.len(),
            selected == held_selection(*state),
            scroll == password_scroll(*state, area.height as int),
            scroll <= total,
            scene@ == password_rows(*state, area, focused, row as nat),
    {
        if (row as usize) < total - scroll {
            let idx: usize = scroll + row as usize;
            scene.line(
                Rect {
                    x: area.x,
                    y: area.y.saturating_add(row),
                    width: area.width,
                    height: 1,
                },
                line_of_password(state, idx, idx == selected && focused),
            );
        }
    }
    scene
}

/// The selected password is always one of those shown.
pub proof fn selected_password_is_visible(state: KeychainState, rows: int)
    requires
        state.passwords@.len() > 0,
        rows > 0,
    ensures
        password_scroll(state, rows) <= held_selection(state) < password_scroll(state, rows) + rows,
{
}

/// That the saved passwords cannot be read.
pub open spec fn keychain_error_rows(error: Seq<char>) -> RowsV {
    seq![
        seq![sp("  Keychain unavailable: "@ + error, fg(Tone::Red))],
        seq![
            sp(
                "  Unlock the platform keychain, then retry with any keychain action"@,
                muted(),
            ),
        ],
    ]
}

/// That there are no saved passwords.
pub open spec fn keychain_empty_rows() -> RowsV {
    seq![
        seq![sp("  No saved passwords"@, muted())],
        seq![sp("  Press 'a' to add a password"@, muted())],
    ]
}

/// The saved passwords inside their border: nothing in less than two rows, else an
/// error, or that there are none, or the list.
pub open spec fn keychain_scene(state: KeychainState, area: Rect, focused: bool) -> SceneV {
    if area.height < 2 {
        Seq::empty()
    } else {
        match state.load_error {
            Some(error) => seq![text_op(area, keychain_error_rows(error@), plain())],
            None => if state.passwords@.len() == 0 {
                seq![text_op(area, keychain_empty_rows(), plain())]
            } else {
                password_rows(state, area, focused, area.height as nat)
            },
        }
    }
}

fn draw_keychain(state: &KeychainState, area: Rect, focused: bool) -> (r: Scene)
    ensures
        r@ == keychain_scene(*state, area, focused),
{
    let mut scene = Scene::new();
    if area.height < 2 {
        return scene;
    }
    match &state.load_error {
        Some(error) => {
            let mut rows = Rows::new();
            let text = cat2("  Keychain unavailable: ", error.as_str());
            rows.push(line1(text.as_str(), fg(Tone::Red)));
            rows.push(
                line1(
                    "  Unlock the platform keychain, then retry with any keychain action",
                    muted(),
                ),
            );
            proof {
                assert(rows@ =~~= keychain_error_rows(error@));
            }
            scene.text(area, rows, plain());
            return scene;
        },
        None => {},
    }
    if state.passwords.len() == 0 {
        let mut rows = Rows::new();
        rows.push(line1("  No saved passwords", muted()));
        rows.push(line1("  Press 'a' to add a password", muted()));
        proof {
            assert(rows@ =~~= keychain_empty_rows());
        }
        scene.text(area, rows, plain());
        return scene;
    }
    draw_passwords(state, area, focused)
}

/// The colour of a pane's border.
#[verifier::allow_in_spec]
pub fn pane_border(focused: bool, tone: Tone) -> Style
    returns
        (if focused {
            fg(tone)
        } else {
            dimmed()
        }),
{
    if focused {
        fg(tone)
    } else {
        dimmed()
    }
}

/// A pane with a title.
pub open spec fn pane_op(area: Rect, title: Seq<char>, tone: Tone, focused: bool) -> OpV {
    frame_op(area, title, bold_fg(tone), pane_border(focused, tone), plain())
}

/// The panes of the settings screen and their buttons, without the footer.
pub open spec fn settings_panes(state: SettingsState, chunks: Seq<Rect>) -> SceneV {
    let focus = state.focus;
    seq![pane_op(chunks[0], " Appearance "@, Tone::Cyan, focus is Appearance)] + appearance_scene(
        inside_border(chunks[0]),
        state.appearance,
        focus is Appearance,
    ) + seq![
        pane_op(chunks[1], " Conversion Settings "@, Tone::Cyan, focus is Conversion),
        text_op(inside_border(chunks[1]), conversion_lines(state.conversion), plain()),
        pane_op(chunks[2], " Performance "@, Tone::Cyan, focus is Performance),
        text_op(inside_border(chunks[2]), performance_lines(state.browsing), plain()),
        pane_op(chunks[3], " Archive Passwords "@, Tone::Amber, focus is Keychain),
    ] + keychain_scene(state.keychain, inside_border(chunks[3]), focus is Keychain)
}

fn put_pane(f: &mut Scene, area: Rect, title: &str, tone: Tone, focused: bool)
    ensures
        final(f)@ == old(f)@.push(pane_op(area, title@, tone, focused)),
{
    f.frame(area, title, bold_fg(tone), pane_border(focused, tone), plain());
}

/// Draws the panes of the settings screen in the given areas, without the footer.
pub fn draw_settings_panes(state: &SettingsState, chunks: &Vec<Rect>) -> (r: (Scene, ButtonRenderMap))
    requires
        chunks@.len() == 5,
        forall|i: int| 0 <= i < 5 ==> (#[trigger] chunks@[i]).wf(),
    ensures
        r.0@ == settings_panes(*state, chunks@),
        r.1@ == appearance_hits(inside_border(chunks@[0]), state.appearance),
{
    let focus = state.focus;
    let mut hits = ButtonRenderMap::new();
    let mut scene = Scene::new();
    put_pane(
        &mut scene,
        chunks[0],
        " Appearance ",
        Tone::Cyan,
        focus == ConfigFocus::Appearance,
    );
    draw_appearance_pane(
        &mut scene,
        inner(chunks[0]),
        &state.appearance,
        focus == ConfigFocus::Appearance,
        &mut hits,
    );
    proof {
        let places = appearance_hits(inside_border(chunks@[0]), state.appearance);
        assert(hits@ =~= places);
    }
    let mut middle = Scene::new();
    put_pane(
        &mut middle,
        chunks[1],
        " Conversion Settings ",
        Tone::Cyan,
        focus == ConfigFocus::Conversion,
    );
    middle.text(inner(chunks[1]), rows_of_conversion(&state.conversion), plain());
    put_pane(
        &mut middle,
        chunks[2],
        " Performance ",
        Tone::Cyan,
        focus == ConfigFocus::Performance,
    );
    middle.text(inner(chunks[2]), rows_of_performance(&state.browsing), plain());
    put_pane(
        &mut middle,
        chunks[3],
        " Archive Passwords ",
        Tone::Amber,
        focus == ConfigFocus::Keychain,
    );
    scene.append(middle);
    scene.append(
        draw_keychain(&state.keychain, inner(chunks[3]), focus == ConfigFocus::Keychain),
    );
    proof {
        assert(scene@ =~= settings_panes(*state, chunks@));
    }
    (scene, hits)
}

/// The areas of the settings screen.
pub open spec fn settings_parts() -> Seq<Constraint> {
    seq![
        Constraint::Length(12),
        Constraint::Length(10),
        Constraint::Length(6),
        Constraint::Min(6),
        Constraint::Length(2),
    ]
}

/// `scene` and `hits` show the settings screen with its panes in `chunks`.
pub open spec fn shows_settings_in(
    state: SettingsState,
    chunks: Seq<Rect>,
    message: Option<Seq<char>>,
    has_messages: bool,
    scene: SceneV,
    hits: Seq<Hit>,
) -> bool {
    exists|footer: SceneV, footer_hits: Seq<Hit>|
        #[trigger] shows_footer(
            chunks[4],
            AppScreen::Config,
            message,
            has_messages,
            footer,
            footer_hits,
        ) && scene == settings_panes(state, chunks) + footer && hits == appearance_hits(
            inside_border(chunks[0]),
            state.appearance,
        ) + footer_hits
}

/// `scene` and `hits` show the settings screen in `area`.
pub open spec fn shows_settings(
    state: SettingsState,
    area: Rect,
    message: Option<Seq<char>>,
    has_messages: bool,
    scene: SceneV,
    hits: Seq<Hit>,
) -> bool {
    exists|chunks: Seq<Rect>|
        #[trigger] divides(Direction::Vertical, settings_parts(), area, chunks)
            && shows_settings_in(state, chunks, message, has_messages, scene, hits)
}

/// The settings screen in `area`: four panes and the footer.
pub fn draw_settings_screen(
    area: Rect,
    state: &SettingsState,
    status_message: Option<&str>,
    has_file_task_messages: bool,
) -> (r: (Scene, ButtonRenderMap))
    requires
        area.wf(),
    ensures
        shows_settings(
            *state,
            area,
            words(status_message),
            has_file_task_messages,
            r.0@,
            r.1@,
        ),
{
    let mut wishes: Vec<Constraint> = Vec::new();
    wishes.push(Constraint::Length(12));
    wishes.push(Constraint::Length(10));
    wishes.push(Constraint::Length(6));
    wishes.push(Constraint::Min(6));
    wishes.push(Constraint::Length(2));
    proof {
        assert(wishes@ =~= settings_parts());
    }
    let chunks = split(Direction::Vertical, &wishes, area);
    assert(divides(Direction::Vertical, settings_parts(), area, chunks@));
    let (mut scene, mut hits) = draw_settings_panes(state, &chunks);
    let (footer, footer_hits) = draw_footer(
        chunks[4],
        AppScreen::Config,
        status_message,
        has_file_task_messages,
    );
    scene.append(footer);
    hits.append(footer_hits);
    (scene, hits)
}

/// `a` and `b` differ in their passwords alone: in each place both have one, hidden and
/// with an encoding of the same length.
pub open spec fn differ_in_hidden_passwords(a: SettingsState, b: SettingsState) -> bool {
    &&& !a.keychain.reveal
    &&& b == SettingsState {
        keychain: KeychainState { passwords: b.keychain.passwords, ..a.keychain },
        ..a
    }
    &&& a.keychain.passwords@.len() == b.keychain.passwords@.len()
    &&& forall|i: int|
        0 <= i < a.keychain.passwords@.len() ==> encode_utf8(
            (#[trigger] a.keychain.passwords@[i])@,
        ).len() == encode_utf8(b.keychain.passwords@[i]@).len()
}

proof fn lemma_hidden_rows(a: SettingsState, b: SettingsState, area: Rect, focused: bool, n: nat)
    requires
        differ_in_hidden_passwords(a, b),
    ensures
        password_rows(a.keychain, area, focused, n) == password_rows(
            b.keychain,
            area,
            focused,
            n,
        ),
    decreases n,
{
    if n > 0 {
        lemma_hidden_rows(a, b, area, focused, (n - 1) as nat);
        let idx = password_scroll(a.keychain, area.height as int) + n - 1;
        if 0 <= idx < a.keychain.passwords@.len() {
            let password = a.keychain.passwords@[idx];
            assert(encode_utf8(password@).len() == encode_utf8(
                b.keychain.passwords@[idx]@,
            ).len());
        }
    }
}

/// A hidden password shows nothing but its length, and of that no more than the number of
/// stars: screens that differ in hidden passwords alone look alike.
pub proof fn hidden_passwords_stay_hidden(
    a: SettingsState,
    b: SettingsState,
    area: Rect,
    chunks: Seq<Rect>,
    message: Option<Seq<char>>,
    has_messages: bool,
    scene: SceneV,
    hits: Seq<Hit>,
)
    requires
        differ_in_hidden_passwords(a, b),
    ensures
        settings_panes(a, chunks) == settings_panes(b, chunks),
        shows_settings(a, area, message, has_messages, scene, hits) == shows_settings(
            b,
            area,
            message,
            has_messages,
            scene,
            hits,
        ),
{
    assert forall|places: Seq<Rect>| #[trigger]
        settings_panes(a, places) == settings_panes(b, places) by {
        let inside = inside_border(places[3]);
        lemma_hidden_rows(a, b, inside, a.focus is Keychain, inside.height as nat);
    }
    assert forall|places: Seq<Rect>|
        shows_settings_in(a, places, message, has_messages, scene, hits) == #[trigger]
        shows_settings_in(b, places, message, has_messages, scene, hits) by {
        assert(settings_panes(a, places) == settings_panes(b, places));
    }
    if shows_settings(a, area, message, has_messages, scene, hits) {
        let places = choose|places: Seq<Rect>|
            #[trigger] divides(Direction::Vertical, settings_parts(), area, places)
                && shows_settings_in(a, places, message, has_messages, scene, hits);
        assert(shows_settings_in(b, places, message, has_messages, scene, hits));
    }
    if shows_settings(b, area, message, has_messages, scene, hits) {
        let places = choose|places: Seq<Rect>|
            #[trigger] divides(Direction::Vertical, settings_parts(), area, places)
                && shows_settings_in(b, places, message, has_messages, scene, hits);
        assert(shows_settings_in(a, places, message, has_messages, scene, hits));
    }
}

} // verus!
