//! The settings dialog of an output format or resampler.

use crate::button_map::{ButtonRenderMap, Hit, TuiButton};
use crate::geometry::{
    centered, centered_rect, inner, inside_border, plus16, share, share_rect, Rect,
};
use crate::help_text::{all_help_rows, help_lines};
use crate::inline_edit::TextInputState;
use crate::layout::{
    divides, split, split_text_and_line, text_and_line, Constraint, Direction,
};
use crate::overlay_parts::{footer_pill, footer_pill_span, pill_gap, pill_gap_span};
use crate::scene::{
    centered_op, frame_op, lemma_span_chars_prefix, line1, line2, line_op, scroll_rows, scrolled, sp,
    span_chars, text_op, Line, LineV, OpV, Scene, SceneV,
};
use crate::style::{bold, bold_fg, bright, dimmed, fg, muted, on, plain, Style, Tone};
use crate::text::{cat3, count, least, low16, minus, most, plus, to_u16};
use vstd::prelude::*;

verus! {

#[derive(Clone, Copy, Debug, PartialEq, Eq, Structural)]
pub enum AacProfile {
    LcAac,
    HeAac,
    HeAacV2,
}

#[derive(Clone, Copy, Debug, PartialEq, Eq, Structural)]
pub enum OpusContentType {
    Auto,
    Music,
    Speech,
}

#[derive(Clone, Copy, Debug, PartialEq, Eq, Structural)]
pub enum Mp3Mode {
    Vbr,
    Cbr,
    Abr,
}

#[derive(Clone, Copy, Debug, PartialEq, Eq, Structural)]
pub enum WavPackMode {
    Fast,
    Normal,
    High,
    VeryHigh,
}

#[derive(Clone, Copy, Debug, PartialEq, Eq, Structural)]
pub enum SsrcPdfType {
    Rectangular,
    Triangular,
}

#[derive(Clone, Copy, Debug, PartialEq, Eq, Structural)]
pub enum SoxSincPhase {
    Linear,
    Minimum,
    Intermediate,
}

/// The settings being edited.
#[allow(inconsistent_fields)]
#[derive(Debug)]
pub enum FormatSettingsKind {
    Flac { compression_input: TextInputState, verify: bool, md5: bool },
    Aac { profile: AacProfile, quality_preset: Option<usize>, bitrate_input: TextInputState },
    Opus {
        content_type: OpusContentType,
        quality_preset: Option<usize>,
        bitrate_input: TextInputState,
        complexity_input: TextInputState,
    },
    Mp3 {
        mode: Mp3Mode,
        vbr_quality_input: TextInputState,
        quality_preset: Option<usize>,
        bitrate_input: TextInputState,
    },
    WavPack { mode: WavPackMode, hybrid: bool, bitrate_input: TextInputState, correction: bool },
    Ssrc { attenuation_input: TextInputState, min_phase: bool, pdf_type: Option<SsrcPdfType> },
    Sox {
        chebyshev: bool,
        bandwidth_input: TextInputState,
        phase_input: TextInputState,
        allow_aliasing: bool,
        sinc_taps_input: TextInputState,
        sinc_attenuation_input: TextInputState,
        sinc_passband_input: TextInputState,
        sinc_transition_input: TextInputState,
        sinc_kaiser_beta_input: TextInputState,
        sinc_phase: Option<SoxSincPhase>,
    },
    Soxr { chebyshev: bool, cutoff_input: TextInputState, phase_input: TextInputState },
}

/// The setting that has the keyboard.
#[derive(Clone, Copy, Debug, PartialEq, Eq, Structural)]
pub enum FormatSettingsFocus {
    Compression,
    Verify,
    Md5,
    AacProfile,
    AacQuality,
    AacBitrate,
    OpusContentType,
    OpusQuality,
    OpusBitrate,
    OpusComplexity,
    Mp3Mode,
    Mp3VbrQuality,
    Mp3Preset,
    Mp3Bitrate,
    WavPackMode,
    WavPackHybrid,
    WavPackBitrate,
    WavPackCorrection,
    SsrcAttenuation,
    SsrcMinPhase,
    SsrcPdf,
    SoxChebyshev,
    SoxBandwidth,
    SoxPhase,
    SoxAliasing,
    SoxSincTaps,
    SoxSincAttenuation,
    SoxSincPassband,
    SoxSincTransition,
    SoxSincKaiserBeta,
    SoxSincPhase,
    SoxrChebyshev,
    SoxrCutoff,
    SoxrPhase,
}

pub const AAC_PROFILES: [&'static str; 3] = ["LC", "HE", "HEv2"];

pub const AAC_PRESETS: [&'static str; 4] = ["low", "medium", "good", "high"];

pub const OPUS_TYPES: [&'static str; 3] = ["auto", "music", "speech"];

pub const OPUS_PRESETS: [&'static str; 5] = ["low", "medium", "good", "high", "ultra"];

pub const MP3_MODES: [&'static str; 3] = ["VBR", "CBR", "ABR"];

pub const MP3_BITRATE_PRESETS: [&'static str; 4] = ["128", "192", "256", "320"];

pub const WAVPACK_MODES: [&'static str; 4] = ["fast", "normal", "high", "very high"];

pub const SSRC_PDFS: [&'static str; 3] = ["none", "rect", "tri"];

pub const SSRC_PROFILES: [&'static str; 5] = ["fast", "short", "std", "long", "high"];

pub const SINC_PHASES: [&'static str; 3] = ["linear", "minimum", "intermediate"];

/// A group of clickable choices.
#[derive(Clone, Copy, Debug, PartialEq, Eq, Structural)]
pub enum ChoiceGroup {
    Verify,
    Md5,
    AacProfile,
    AacQuality,
    OpusContentType,
    OpusQuality,
    Mp3Mode,
    Mp3Preset,
    WavPackMode,
    WavPackHybrid,
    WavPackCorrection,
    SsrcMinPhase,
    SsrcPdf,
    SoxChebyshev,
    SoxAliasing,
    SoxSincPhase,
    SoxrChebyshev,
}

/// The button of choice `i` of a group.
pub open spec fn choice_button(group: ChoiceGroup, i: usize) -> TuiButton {
    match group {
        ChoiceGroup::Verify => TuiButton::FormatSettingsVerify(i),
        ChoiceGroup::Md5 => TuiButton::FormatSettingsMd5(i),
        ChoiceGroup::AacProfile => TuiButton::FormatSettingsAacProfile(i),
        ChoiceGroup::AacQuality => TuiButton::FormatSettingsAacQuality(i),
        ChoiceGroup::OpusContentType => TuiButton::FormatSettingsOpusContentType(i),
        ChoiceGroup::OpusQuality => TuiButton::FormatSettingsOpusQuality(i),
        ChoiceGroup::Mp3Mode => TuiButton::FormatSettingsMp3Mode(i),
        ChoiceGroup::Mp3Preset => TuiButton::FormatSettingsMp3Preset(i),
        ChoiceGroup::WavPackMode => TuiButton::FormatSettingsWavPackMode(i),
        ChoiceGroup::WavPackHybrid => TuiButton::FormatSettingsWavPackHybrid(i),
        ChoiceGroup::WavPackCorrection => TuiButton::FormatSettingsWavPackCorrection(i),
        ChoiceGroup::SsrcMinPhase => TuiButton::FormatSettingsSsrcMinPhase(i),
        ChoiceGroup::SsrcPdf => TuiButton::FormatSettingsSsrcPdf(i),
        ChoiceGroup::SoxChebyshev => TuiButton::FormatSettingsSoxChebyshev(i),
        ChoiceGroup::SoxAliasing => TuiButton::FormatSettingsSoxAliasing(i),
        ChoiceGroup::SoxSincPhase => TuiButton::FormatSettingsSoxSincPhase(i),
        ChoiceGroup::SoxrChebyshev => TuiButton::FormatSettingsSoxrChebyshev(i),
    }
}

fn button_of(group: ChoiceGroup, i: usize) -> (r: TuiButton)
    ensures
        r == choice_button(group, i),
{
    match group {
        ChoiceGroup::Verify => TuiButton::FormatSettingsVerify(i),
        ChoiceGroup::Md5 => TuiButton::FormatSettingsMd5(i),
        ChoiceGroup::AacProfile => TuiButton::FormatSettingsAacProfile(i),
        ChoiceGroup::AacQuality => TuiButton::FormatSettingsAacQuality(i),
        ChoiceGroup::OpusContentType => TuiButton::FormatSettingsOpusContentType(i),
        ChoiceGroup::OpusQuality => TuiButton::FormatSettingsOpusQuality(i),
        ChoiceGroup::Mp3Mode => TuiButton::FormatSettingsMp3Mode(i),
        ChoiceGroup::Mp3Preset => TuiButton::FormatSettingsMp3Preset(i),
        ChoiceGroup::WavPackMode => TuiButton::FormatSettingsWavPackMode(i),
        ChoiceGroup::WavPackHybrid => TuiButton::FormatSettingsWavPackHybrid(i),
        ChoiceGroup::WavPackCorrection => TuiButton::FormatSettingsWavPackCorrection(i),
        ChoiceGroup::SsrcMinPhase => TuiButton::FormatSettingsSsrcMinPhase(i),
        ChoiceGroup::SsrcPdf => TuiButton::FormatSettingsSsrcPdf(i),
        ChoiceGroup::SoxChebyshev => TuiButton::FormatSettingsSoxChebyshev(i),
        ChoiceGroup::SoxAliasing => TuiButton::FormatSettingsSoxAliasing(i),
        ChoiceGroup::SoxSincPhase => TuiButton::FormatSettingsSoxSincPhase(i),
        ChoiceGroup::SoxrChebyshev => TuiButton::FormatSettingsSoxrChebyshev(i),
    }
}

/// The style of a setting that does not apply.
#[verifier::allow_in_spec]
pub fn greyed_style() -> Style
    returns
        fg(Tone::AnsiDarkGray),
{
    fg(Tone::AnsiDarkGray)
}

/// The style of a setting's label.
#[verifier::allow_in_spec]
pub fn label_style(focused: bool, greyed: bool) -> Style
    returns
        (if greyed {
            greyed_style()
        } else if focused {
            bright()
        } else {
            muted()
        }),
{
    if greyed {
        greyed_style()
    } else if focused {
        bright()
    } else {
        muted()
    }
}

/// The style of a choice.
#[verifier::allow_in_spec]
pub fn choice_style(selected: bool, focused: bool, greyed: bool) -> Style
    returns
        (if greyed {
            greyed_style()
        } else if selected {
            bold(on(Tone::PillActiveFg, Tone::Green))
        } else if focused {
            dimmed()
        } else {
            greyed_style()
        }),
{
    if greyed {
        greyed_style()
    } else if selected {
        bold(on(Tone::PillActiveFg, Tone::Green))
    } else if focused {
        dimmed()
    } else {
        greyed_style()
    }
}

/// The styles of "off" and "on" of a switch.
pub fn toggle_pill_styles(value: bool, focused: bool) -> (r: (Style, Style))
    ensures
        r == (choice_style(!value, focused, false), choice_style(value, focused, false)),
{
    (choice_style(!value, focused, false), choice_style(value, focused, false))
}

/// A text field with a label.
pub struct EntryField<'a> {
    pub label: &'a str,
    pub input: &'a TextInputState,
    pub suffix: &'a str,
    /// The columns of the row that the value cannot use.
    pub reserve: u16,
    /// The column of the value's first character.
    pub offset: u16,
    /// Shown where there is no value.
    pub placeholder: &'a str,
    pub focused: bool,
    pub greyed: bool,
}

/// The columns of a field's value.
pub open spec fn value_columns(field: EntryField, area: Rect) -> int {
    most(minus(area.width as int, field.reserve as int), 1)
}

/// The colours of a field's value. A placeholder with content is dimmed.
pub open spec fn value_style(field: EntryField, empty: bool) -> Style {
    on(
        if field.greyed {
            Tone::AnsiDarkGray
        } else if empty && field.placeholder@ != " "@ {
            Tone::TextDim
        } else {
            Tone::AnsiWhite
        },
        if field.greyed {
            Tone::Rgb(30, 33, 45)
        } else if field.focused {
            Tone::Rgb(55, 60, 80)
        } else {
            Tone::Rgb(40, 45, 65)
        },
    )
}

/// The row of a text field.
pub open spec fn entry_line(field: EntryField, area: Rect) -> LineV {
    let view = field.input.window(value_columns(field, area));
    let value = if view.len() == 0 { field.placeholder@ } else { view };
    let row = seq![
        sp(field.label@, label_style(field.focused, field.greyed)),
        sp(" "@ + value + " "@, value_style(field, view.len() == 0)),
    ];
    if field.suffix@.len() == 0 {
        row
    } else {
        row.push(sp(field.suffix@, if field.greyed { greyed_style() } else { muted() }))
    }
}

/// A text field in `area`, with the cursor in it while it has the keyboard.
pub open spec fn entry_scene(field: EntryField, area: Rect) -> SceneV {
    let row = seq![line_op(area, entry_line(field, area))];
    if field.focused && !field.greyed {
        row.push(
            (OpV::Cursor {
                x: plus16(
                    plus16(area.x as int, field.offset as int),
                    field.input.cursor_column(value_columns(field, area)),
                ) as u16,
                y: area.y,
            }),
        )
    } else {
        row
    }
}

fn draw_entry(field: &EntryField, area: Rect) -> (r: Scene)
    ensures
        r@ == entry_scene(*field, area),
{
    let room: u16 = area.width.saturating_sub(field.reserve);
    let columns: usize = if room >= 1 { room as usize } else { 1 };
    let (view, cursor) = field.input.view(columns);
    let empty = view.as_str().is_empty();
    let value = if empty { field.placeholder } else { view.as_str() };
    let front = if field.greyed {
        Tone::AnsiDarkGray
    } else if empty && !crate::text::same(field.placeholder, " ") {
        Tone::TextDim
    } else {
        Tone::AnsiWhite
    };
    let back = if field.greyed {
        Tone::Rgb(30, 33, 45)
    } else if field.focused {
        Tone::Rgb(55, 60, 80)
    } else {
        Tone::Rgb(40, 45, 65)
    };
    let mut row = line2(
        field.label,
        label_style(field.focused, field.greyed),
        cat3(" ", value, " ").as_str(),
        on(front, back),
    );
    if !field.suffix.is_empty() {
        row.put(field.suffix, if field.greyed { greyed_style() } else { muted() });
    }
    let mut r = Scene::new();
    r.line(area, row);
    if field.focused && !field.greyed {
        r.cursor(area.x.saturating_add(field.offset).saturating_add(cursor), area.y);
    }
    r
}

/// A switch with a label.
pub struct ToggleField<'a> {
    pub label: &'a str,
    pub value: bool,
    pub focused: bool,
    pub greyed: bool,
    /// "on" stands before "off".
    pub on_first: bool,
    /// The column of the first choice.
    pub offset: u16,
    pub group: ChoiceGroup,
}

/// The row of a switch.
pub open spec fn toggle_line(field: ToggleField) -> LineV {
    let off = sp(" off "@, choice_style(!field.value, field.focused, field.greyed));
    let on = sp(" on "@, choice_style(field.value, field.focused, field.greyed));
    let label = sp(field.label@, label_style(field.focused, field.greyed));
    if field.on_first {
        seq![label, on, sp(" "@, plain()), off]
    } else {
        seq![label, off, sp(" "@, plain()), on]
    }
}

/// A switch in `area`.
pub open spec fn toggle_scene(field: ToggleField, area: Rect) -> SceneV {
    seq![line_op(area, toggle_line(field))]
}

/// The two choices of a switch, unless it does not apply.
pub open spec fn toggle_hits(field: ToggleField, area: Rect) -> Seq<Hit> {
    let x = plus16(area.x as int, field.offset as int);
    let first: u16 = if field.on_first { 4 } else { 5 };
    let second: u16 = if field.on_first { 5 } else { 4 };
    if field.greyed {
        Seq::empty()
    } else {
        seq![
            (
                choice_button(field.group, 0),
                Rect { x: x as u16, y: area.y, width: first, height: 1 },
            ),
            (
                choice_button(field.group, 1),
                Rect { x: plus16(x, first + 1) as u16, y: area.y, width: second, height: 1 },
            ),
        ]
    }
}

fn draw_toggle(field: &ToggleField, area: Rect) -> (r: Scene)
    ensures
        r@ == toggle_scene(*field, area),
{
    let (off, on_style) = if field.greyed {
        (
            choice_style(!field.value, field.focused, true),
            choice_style(field.value, field.focused, true),
        )
    } else {
        toggle_pill_styles(field.value, field.focused)
    };
    let mut row = line1(field.label, label_style(field.focused, field.greyed));
    if field.on_first {
        row.put(" on ", on_style);
        row.put(" ", plain());
        row.put(" off ", off);
    } else {
        row.put(" off ", off);
        row.put(" ", plain());
        row.put(" on ", on_style);
    }
    proof {
        assert(row@ =~= toggle_line(*field));
    }
    let mut r = Scene::new();
    r.line(area, row);
    r
}

fn record_toggle(field: &ToggleField, area: Rect) -> (r: ButtonRenderMap)
    ensures
        r@ == toggle_hits(*field, area),
{
    let mut r = ButtonRenderMap::new();
    if !field.greyed {
        let x: u16 = area.x.saturating_add(field.offset);
        let first: u16 = if field.on_first { 4 } else { 5 };
        let second: u16 = if field.on_first { 5 } else { 4 };
        r.record_button(
            button_of(field.group, 0),
            Rect { x, y: area.y, width: first, height: 1 },
        );
        r.record_button(
            button_of(field.group, 1),
            Rect { x: x.saturating_add(first + 1), y: area.y, width: second, height: 1 },
        );
    }
    r
}

/// A row of choices with a label.
pub struct ChoiceField<'a> {
    pub label: &'a str,
    pub selected: Option<usize>,
    pub focused: bool,
    pub greyed: bool,
    /// The column of the first choice.
    pub offset: u16,
    pub group: ChoiceGroup,
}

/// The first `n` choices, one space between neighbours.
pub open spec fn choice_spans(field: ChoiceField, labels: Seq<&'static str>, n: nat) -> LineV
    decreases n,
{
    if n == 0 || n > labels.len() {
        Seq::empty()
    } else {
        let pill = choice_spans(field, labels, (n - 1) as nat).push(
            sp(
                " "@ + labels[n - 1]@ + " "@,
                choice_style(field.selected == Some((n - 1) as usize), field.focused, field.greyed),
            ),
        );
        if n < labels.len() {
            pill.push(sp(" "@, plain()))
        } else {
            pill
        }
    }
}

/// The columns of a choice.
pub open spec fn choice_width(label: Seq<char>) -> int {
    low16((" "@ + label + " "@).len() as int)
}

/// The column of choice `i`.
pub open spec fn choice_x(labels: Seq<&'static str>, start: int, i: nat) -> int
    decreases i,
{
    if i == 0 || i > labels.len() {
        start
    } else {
        plus16(
            plus16(choice_x(labels, start, (i - 1) as nat), choice_width(labels[i - 1]@)),
            1,
        )
    }
}

/// The first `n` choices as buttons.
pub open spec fn choice_hits(field: ChoiceField, labels: Seq<&'static str>, area: Rect, n: nat) -> Seq<Hit>
    decreases n,
{
    if n == 0 || n > labels.len() || field.greyed {
        Seq::empty()
    } else {
        choice_hits(field, labels, area, (n - 1) as nat).push(
            (
                choice_button(field.group, (n - 1) as usize),
                Rect {
                    x: choice_x(
                        labels,
                        plus16(area.x as int, field.offset as int),
                        (n - 1) as nat,
                    ) as u16,
                    y: area.y,
                    width: choice_width(labels[n - 1]@) as u16,
                    height: 1,
                },
            ),
        )
    }
}

/// A row of choices in `area`.
pub open spec fn choice_scene(field: ChoiceField, labels: Seq<&'static str>, area: Rect) -> SceneV {
    seq![
        line_op(
            area,
            seq![sp(field.label@, label_style(field.focused, field.greyed))] + choice_spans(
                field,
                labels,
                labels.len(),
            ),
        ),
    ]
}

fn draw_choices<const N: usize>(field: &ChoiceField, labels: [&'static str; N], area: Rect) -> (r: Scene)
    ensures
        r@ == choice_scene(*field, labels@, area),
{
    let mut pills = Line::new();
    for i in 0..N
        invariant
            labels@.len() == N,
            pills@ == choice_spans(*field, labels@, i as nat),
    {
        let selected = match field.selected {
            Some(at) => at == i,
            None => false,
        };
        pills.put(
            cat3(" ", labels[i], " ").as_str(),
            choice_style(selected, field.focused, field.greyed),
        );
        if i + 1 < N {
            pills.put(" ", plain());
        }
    }
    let mut row = line1(field.label, label_style(field.focused, field.greyed));
    row.append(pills);
    let mut r = Scene::new();
    r.line(area, row);
    r
}

fn record_choices<const N: usize>(field: &ChoiceField, labels: [&'static str; N], area: Rect) -> (r:
    ButtonRenderMap)
    ensures
        r@ == choice_hits(*field, labels@, area, N as nat),
{
    let mut r = ButtonRenderMap::new();
    let start: u16 = area.x.saturating_add(field.offset);
    let mut x: u16 = start;
    for i in 0..N
        invariant
            labels@.len() == N,
            start == plus16(area.x as int, field.offset as int),
            x == choice_x(labels@, start as int, i as nat),
            r@ == choice_hits(*field, labels@, area, i as nat),
    {
        let pill_width: u16 = to_u16(count(cat3(" ", labels[i], " ").as_str()));
        if !field.greyed {
            r.record_button(
                button_of(field.group, i),
                Rect { x, y: area.y, width: pill_width, height: 1 },
            );
        }
        x = x.saturating_add(pill_width).saturating_add(1);
    }
    r
}

/// The rows of a FLAC dialog.
pub open spec fn flac_fields(
    compression: &TextInputState,
    verify: bool,
    md5: bool,
    focus: FormatSettingsFocus,
    chunks: Seq<Rect>,
) -> (SceneV, Seq<Hit>) {
    let entry = EntryField {
        label: "  compression  ",
        input: compression,
        suffix: "",
        reserve: 16,
        offset: 16,
        placeholder: " ",
        focused: focus == FormatSettingsFocus::Compression,
        greyed: false,
    };
    let check = ToggleField {
        label: "  verify       ",
        value: verify,
        focused: focus == FormatSettingsFocus::Verify,
        greyed: false,
        on_first: false,
        offset: 15,
        group: ChoiceGroup::Verify,
    };
    let sum = ToggleField {
        label: "  md5 checksum ",
        value: md5,
        focused: focus == FormatSettingsFocus::Md5,
        greyed: false,
        on_first: true,
        offset: 15,
        group: ChoiceGroup::Md5,
    };
    (
        entry_scene(entry, chunks[1]) + toggle_scene(check, chunks[2]) + toggle_scene(
            sum,
            chunks[3],
        ),
        toggle_hits(check, chunks[2]) + toggle_hits(sum, chunks[3]),
    )
}

/// Draws the rows of a FLAC dialog.
pub fn draw_flac_fields(
    f: &mut Scene,
    compression_input: &TextInputState,
    verify: bool,
    md5: bool,
    focus: FormatSettingsFocus,
    chunks: &Vec<Rect>,
    buttons: &mut ButtonRenderMap,
)
    requires
        chunks@.len() >= 4,
    ensures
        final(f)@ == old(f)@ + flac_fields(compression_input, verify, md5, focus, chunks@).0,
        final(buttons)@ == old(buttons)@ + flac_fields(
            compression_input,
            verify,
            md5,
            focus,
            chunks@,
        ).1,
{
    let entry = EntryField {
        label: "  compression  ",
        input: compression_input,
        suffix: "",
        reserve: 16,
        offset: 16,
        placeholder: " ",
        focused: focus == FormatSettingsFocus::Compression,
        greyed: false,
    };
    let check = ToggleField {
        label: "  verify       ",
        value: verify,
        focused: focus == FormatSettingsFocus::Verify,
        greyed: false,
        on_first: false,
        offset: 15,
        group: ChoiceGroup::Verify,
    };
    let sum = ToggleField {
        label: "  md5 checksum ",
        value: md5,
        focused: focus == FormatSettingsFocus::Md5,
        greyed: false,
        on_first: true,
        offset: 15,
        group: ChoiceGroup::Md5,
    };
    let mut scene = draw_entry(&entry, chunks[1]);
    scene.append(draw_toggle(&check, chunks[2]));
    scene.append(draw_toggle(&sum, chunks[3]));
    let mut hits = record_toggle(&check, chunks[2]);
    hits.append(record_toggle(&sum, chunks[3]));
    f.append(scene);
    buttons.append(hits);
}

/// The place of a profile among the choices.
#[verifier::allow_in_spec]
pub fn aac_index(profile: AacProfile) -> usize
    returns
        (match profile {
            AacProfile::LcAac => 0,
            AacProfile::HeAac => 1,
            AacProfile::HeAacV2 => 2usize,
        }),
{
    match profile {
        AacProfile::LcAac => 0,
        AacProfile::HeAac => 1,
        AacProfile::HeAacV2 => 2,
    }
}

/// The place of a content type among the choices.
#[verifier::allow_in_spec]
pub fn opus_index(content: OpusContentType) -> usize
    returns
        (match content {
            OpusContentType::Auto => 0,
            OpusContentType::Music => 1,
            OpusContentType::Speech => 2usize,
        }),
{
    match content {
        OpusContentType::Auto => 0,
        OpusContentType::Music => 1,
        OpusContentType::Speech => 2,
    }
}

/// The place of a mode among the choices.
#[verifier::allow_in_spec]
pub fn mp3_index(mode: Mp3Mode) -> usize
    returns
        (match mode {
            Mp3Mode::Vbr => 0,
            Mp3Mode::Cbr => 1,
            Mp3Mode::Abr => 2usize,
        }),
{
    match mode {
        Mp3Mode::Vbr => 0,
        Mp3Mode::Cbr => 1,
        Mp3Mode::Abr => 2,
    }
}

/// The place of a mode among the choices.
#[verifier::allow_in_spec]
pub fn wavpack_index(mode: WavPackMode) -> usize
    returns
        (match mode {
            WavPackMode::Fast => 0,
            WavPackMode::Normal => 1,
            WavPackMode::High => 2,
            WavPackMode::VeryHigh => 3usize,
        }),
{
    match mode {
        WavPackMode::Fast => 0,
        WavPackMode::Normal => 1,
        WavPackMode::High => 2,
        WavPackMode::VeryHigh => 3,
    }
}

/// The place of a distribution among the choices.
#[verifier::allow_in_spec]
pub fn pdf_index(pdf: Option<SsrcPdfType>) -> usize
    returns
        (match pdf {
            None => 0,
            Some(SsrcPdfType::Rectangular) => 1,
            Some(SsrcPdfType::Triangular) => 2usize,
        }),
{
    match pdf {
        None => 0,
        Some(SsrcPdfType::Rectangular) => 1,
        Some(SsrcPdfType::Triangular) => 2,
    }
}

/// The place of a phase among the choices; none where it is not set.
#[verifier::allow_in_spec]
pub fn sinc_index(phase: Option<SoxSincPhase>) -> Option<usize>
    returns
        (match phase {
            None => None,
            Some(SoxSincPhase::Linear) => Some(0),
            Some(SoxSincPhase::Minimum) => Some(1),
            Some(SoxSincPhase::Intermediate) => Some(2usize),
        }),
{
    match phase {
        None => None,
        Some(SoxSincPhase::Linear) => Some(0),
        Some(SoxSincPhase::Minimum) => Some(1),
        Some(SoxSincPhase::Intermediate) => Some(2),
    }
}

/// Whether the focus is on a setting of the sinc filter.
#[verifier::allow_in_spec]
pub fn focused_in_sinc(focus: FormatSettingsFocus) -> bool
    returns
        (match focus {
            FormatSettingsFocus::SoxSincTaps | FormatSettingsFocus::SoxSincAttenuation
            | FormatSettingsFocus::SoxSincPassband | FormatSettingsFocus::SoxSincTransition
            | FormatSettingsFocus::SoxSincKaiserBeta | FormatSettingsFocus::SoxSincPhase => true,
            _ => false,
        }),
{
    match focus {
        FormatSettingsFocus::SoxSincTaps | FormatSettingsFocus::SoxSincAttenuation
        | FormatSettingsFocus::SoxSincPassband | FormatSettingsFocus::SoxSincTransition
        | FormatSettingsFocus::SoxSincKaiserBeta | FormatSettingsFocus::SoxSincPhase => true,
        _ => false,
    }
}

/// The rows of an AAC dialog, and their buttons.
pub open spec fn aac_fields(
    profile: AacProfile,
    quality_preset: Option<usize>,
    bitrate_input: &TextInputState,
    focus: FormatSettingsFocus,
    chunks: Seq<Rect>,
) -> (SceneV, Seq<Hit>) {
    let profiles = ChoiceField {
        label: "  profile      ",
        selected: Some(aac_index(profile)),
        focused: focus == FormatSettingsFocus::AacProfile,
        greyed: false,
        offset: 15,
        group: ChoiceGroup::AacProfile,
    };
    let presets = ChoiceField {
        label: "  quality      ",
        selected: quality_preset,
        focused: focus == FormatSettingsFocus::AacQuality,
        greyed: false,
        offset: 15,
        group: ChoiceGroup::AacQuality,
    };
    let bitrate = EntryField {
        label: "  bitrate      ",
        input: bitrate_input,
        suffix: " kbps",
        reserve: 22,
        offset: 16,
        placeholder: " ",
        focused: focus == FormatSettingsFocus::AacBitrate,
        greyed: false,
    };
    (
        choice_scene(profiles, AAC_PROFILES@, chunks[1]) + choice_scene(presets, AAC_PRESETS@, chunks[2]) + entry_scene(bitrate, chunks[3]),
        choice_hits(profiles, AAC_PROFILES@, chunks[1], AAC_PROFILES@.len()) + choice_hits(presets, AAC_PRESETS@, chunks[2], AAC_PRESETS@.len()),
    )
}

/// Draws the rows of an AAC dialog.
pub fn draw_aac_fields(
    f: &mut Scene,
    profile: AacProfile,
    quality_preset: Option<usize>,
    bitrate_input: &TextInputState,
    focus: FormatSettingsFocus,
    chunks: &Vec<Rect>,
    buttons: &mut ButtonRenderMap,
)
    requires
        chunks@.len() >= 4,
    ensures
        final(f)@ == old(f)@ + aac_fields(profile, quality_preset, bitrate_input, focus, chunks@).0,
        final(buttons)@ == old(buttons)@ + aac_fields(profile, quality_preset, bitrate_input, focus, chunks@).1,
{
    let profiles = ChoiceField {
        label: "  profile      ",
        selected: Some(aac_index(profile)),
        focused: focus == FormatSettingsFocus::AacProfile,
        greyed: false,
        offset: 15,
        group: ChoiceGroup::AacProfile,
    };
    let presets = ChoiceField {
        label: "  quality      ",
        selected: quality_preset,
        focused: focus == FormatSettingsFocus::AacQuality,
        greyed: false,
        offset: 15,
        group: ChoiceGroup::AacQuality,
    };
    let bitrate = EntryField {
        label: "  bitrate      ",
        input: bitrate_input,
        suffix: " kbps",
        reserve: 22,
        offset: 16,
        placeholder: " ",
        focused: focus == FormatSettingsFocus::AacBitrate,
        greyed: false,
    };
    let mut scene = draw_choices(&profiles, AAC_PROFILES, chunks[1]);
    scene.append(draw_choices(&presets, AAC_PRESETS, chunks[2]));
    scene.append(draw_entry(&bitrate, chunks[3]));
    let mut hits = record_choices(&profiles, AAC_PROFILES, chunks[1]);
    hits.append(record_choices(&presets, AAC_PRESETS, chunks[2]));
    f.append(scene);
    buttons.append(hits);
}

/// The rows of an Opus dialog, and their buttons.
pub open spec fn opus_fields(
    content_type: OpusContentType,
    quality_preset: Option<usize>,
    bitrate_input: &TextInputState,
    complexity_input: &TextInputState,
    focus: FormatSettingsFocus,
    chunks: Seq<Rect>,
) -> (SceneV, Seq<Hit>) {
    let types = ChoiceField {
        label: "  content type ",
        selected: Some(opus_index(content_type)),
        focused: focus == FormatSettingsFocus::OpusContentType,
        greyed: false,
        offset: 15,
        group: ChoiceGroup::OpusContentType,
    };
    let presets = ChoiceField {
        label: "  quality      ",
        selected: quality_preset,
        focused: focus == FormatSettingsFocus::OpusQuality,
        greyed: false,
        offset: 15,
        group: ChoiceGroup::OpusQuality,
    };
    let bitrate = EntryField {
        label: "  bitrate      ",
        input: bitrate_input,
        suffix: " kbps",
        reserve: 22,
        offset: 16,
        placeholder: " ",
        focused: focus == FormatSettingsFocus::OpusBitrate,
        greyed: false,
    };
    let complexity = EntryField {
        label: "  complexity   ",
        input: complexity_input,
        suffix: "",
        reserve: 16,
        offset: 16,
        placeholder: " ",
        focused: focus == FormatSettingsFocus::OpusComplexity,
        greyed: false,
    };
    (
        choice_scene(types, OPUS_TYPES@, chunks[1]) + choice_scene(presets, OPUS_PRESETS@, chunks[2]) + entry_scene(bitrate, chunks[3]) + entry_scene(complexity, chunks[4]),
        choice_hits(types, OPUS_TYPES@, chunks[1], OPUS_TYPES@.len()) + choice_hits(presets, OPUS_PRESETS@, chunks[2], OPUS_PRESETS@.len()),
    )
}

/// Draws the rows of an Opus dialog.
pub fn draw_opus_fields(
    f: &mut Scene,
    content_type: OpusContentType,
    quality_preset: Option<usize>,
    bitrate_input: &TextInputState,
    complexity_input: &TextInputState,
    focus: FormatSettingsFocus,
    chunks: &Vec<Rect>,
    buttons: &mut ButtonRenderMap,
)
    requires
        chunks@.len() >= 5,
    ensures
        final(f)@ == old(f)@ + opus_fields(content_type, quality_preset, bitrate_input, complexity_input, focus, chunks@).0,
        final(buttons)@ == old(buttons)@ + opus_fields(content_type, quality_preset, bitrate_input, complexity_input, focus, chunks@).1,
{
    let types = ChoiceField {
        label: "  content type ",
        selected: Some(opus_index(content_type)),
        focused: focus == FormatSettingsFocus::OpusContentType,
        greyed: false,
        offset: 15,
        group: ChoiceGroup::OpusContentType,
    };
    let presets = ChoiceField {
        label: "  quality      ",
        selected: quality_preset,
        focused: focus == FormatSettingsFocus::OpusQuality,
        greyed: false,
        offset: 15,
        group: ChoiceGroup::OpusQuality,
    };
    let bitrate = EntryField {
        label: "  bitrate      ",
        input: bitrate_input,
        suffix: " kbps",
        reserve: 22,
        offset: 16,
        placeholder: " ",
        focused: focus == FormatSettingsFocus::OpusBitrate,
        greyed: false,
    };
    let complexity = EntryField {
        label: "  complexity   ",
        input: complexity_input,
        suffix: "",
        reserve: 16,
        offset: 16,
        placeholder: " ",
        focused: focus == FormatSettingsFocus::OpusComplexity,
        greyed: false,
    };
    let mut scene = draw_choices(&types, OPUS_TYPES, chunks[1]);
    scene.append(draw_choices(&presets, OPUS_PRESETS, chunks[2]));
    scene.append(draw_entry(&bitrate, chunks[3]));
    scene.append(draw_entry(&complexity, chunks[4]));
    let mut hits = record_choices(&types, OPUS_TYPES, chunks[1]);
    hits.append(record_choices(&presets, OPUS_PRESETS, chunks[2]));
    f.append(scene);
    buttons.append(hits);
}

/// The rows of an MP3 dialog, and their buttons.
pub open spec fn mp3_fields(
    mode: Mp3Mode,
    vbr_quality_input: &TextInputState,
    quality_preset: Option<usize>,
    bitrate_input: &TextInputState,
    focus: FormatSettingsFocus,
    chunks: Seq<Rect>,
) -> (SceneV, Seq<Hit>) {
    let modes = ChoiceField {
        label: "  mode         ",
        selected: Some(mp3_index(mode)),
        focused: focus == FormatSettingsFocus::Mp3Mode,
        greyed: false,
        offset: 15,
        group: ChoiceGroup::Mp3Mode,
    };
    let vbr = EntryField {
        label: "  vbr quality  ",
        input: vbr_quality_input,
        suffix: "",
        reserve: 16,
        offset: 16,
        placeholder: " ",
        focused: focus == FormatSettingsFocus::Mp3VbrQuality,
        greyed: mode != Mp3Mode::Vbr,
    };
    let presets = ChoiceField {
        label: "  preset       ",
        selected: quality_preset,
        focused: focus == FormatSettingsFocus::Mp3Preset,
        greyed: mode == Mp3Mode::Vbr,
        offset: 15,
        group: ChoiceGroup::Mp3Preset,
    };
    let bitrate = EntryField {
        label: "  bitrate      ",
        input: bitrate_input,
        suffix: " kbps",
        reserve: 22,
        offset: 16,
        placeholder: " ",
        focused: focus == FormatSettingsFocus::Mp3Bitrate,
        greyed: mode == Mp3Mode::Vbr,
    };
    (
        choice_scene(modes, MP3_MODES@, chunks[1]) + entry_scene(vbr, chunks[2]) + choice_scene(presets, MP3_BITRATE_PRESETS@, chunks[3]) + entry_scene(bitrate, chunks[4]),
        choice_hits(modes, MP3_MODES@, chunks[1], MP3_MODES@.len()) + choice_hits(presets, MP3_BITRATE_PRESETS@, chunks[3], MP3_BITRATE_PRESETS@.len()),
    )
}

/// Draws the rows of an MP3 dialog.
pub fn draw_mp3_fields(
    f: &mut Scene,
    mode: Mp3Mode,
    vbr_quality_input: &TextInputState,
    quality_preset: Option<usize>,
    bitrate_input: &TextInputState,
    focus: FormatSettingsFocus,
    chunks: &Vec<Rect>,
    buttons: &mut ButtonRenderMap,
)
    requires
        chunks@.len() >= 5,
    ensures
        final(f)@ == old(f)@ + mp3_fields(mode, vbr_quality_input, quality_preset, bitrate_input, focus, chunks@).0,
        final(buttons)@ == old(buttons)@ + mp3_fields(mode, vbr_quality_input, quality_preset, bitrate_input, focus, chunks@).1,
{
    let modes = ChoiceField {
        label: "  mode         ",
        selected: Some(mp3_index(mode)),
        focused: focus == FormatSettingsFocus::Mp3Mode,
        greyed: false,
        offset: 15,
        group: ChoiceGroup::Mp3Mode,
    };
    let vbr = EntryField {
        label: "  vbr quality  ",
        input: vbr_quality_input,
        suffix: "",
        reserve: 16,
        offset: 16,
        placeholder: " ",
        focused: focus == FormatSettingsFocus::Mp3VbrQuality,
        greyed: mode != Mp3Mode::Vbr,
    };
    let presets = ChoiceField {
        label: "  preset       ",
        selected: quality_preset,
        focused: focus == FormatSettingsFocus::Mp3Preset,
        greyed: mode == Mp3Mode::Vbr,
        offset: 15,
        group: ChoiceGroup::Mp3Preset,
    };
    let bitrate = EntryField {
        label: "  bitrate      ",
        input: bitrate_input,
        suffix: " kbps",
        reserve: 22,
        offset: 16,
        placeholder: " ",
        focused: focus == FormatSettingsFocus::Mp3Bitrate,
        greyed: mode == Mp3Mode::Vbr,
    };
    let mut scene = draw_choices(&modes, MP3_MODES, chunks[1]);
    scene.append(draw_entry(&vbr, chunks[2]));
    scene.append(draw_choices(&presets, MP3_BITRATE_PRESETS, chunks[3]));
    scene.append(draw_entry(&bitrate, chunks[4]));
    let mut hits = record_choices(&modes, MP3_MODES, chunks[1]);
    hits.append(record_choices(&presets, MP3_BITRATE_PRESETS, chunks[3]));
    f.append(scene);
    buttons.append(hits);
}

/// The rows of a WavPack dialog, and their buttons.
pub open spec fn wavpack_fields(
    mode: WavPackMode,
    hybrid: bool,
    bitrate_input: &TextInputState,
    correction: bool,
    focus: FormatSettingsFocus,
    chunks: Seq<Rect>,
) -> (SceneV, Seq<Hit>) {
    let modes = ChoiceField {
        label: "  mode         ",
        selected: Some(wavpack_index(mode)),
        focused: focus == FormatSettingsFocus::WavPackMode,
        greyed: false,
        offset: 15,
        group: ChoiceGroup::WavPackMode,
    };
    let mixed = ToggleField {
        label: "  hybrid       ",
        value: hybrid,
        focused: focus == FormatSettingsFocus::WavPackHybrid,
        greyed: false,
        on_first: false,
        offset: 15,
        group: ChoiceGroup::WavPackHybrid,
    };
    let bitrate = EntryField {
        label: "  bitrate      ",
        input: bitrate_input,
        suffix: " kbps/ch",
        reserve: 24,
        offset: 16,
        placeholder: " ",
        focused: focus == FormatSettingsFocus::WavPackBitrate,
        greyed: !hybrid,
    };
    let sidecar = ToggleField {
        label: "  correction   ",
        value: correction,
        focused: focus == FormatSettingsFocus::WavPackCorrection,
        greyed: !hybrid,
        on_first: false,
        offset: 15,
        group: ChoiceGroup::WavPackCorrection,
    };
    (
        choice_scene(modes, WAVPACK_MODES@, chunks[1]) + toggle_scene(mixed, chunks[2]) + entry_scene(bitrate, chunks[3]) + toggle_scene(sidecar, chunks[4]),
        choice_hits(modes, WAVPACK_MODES@, chunks[1], WAVPACK_MODES@.len()) + toggle_hits(mixed, chunks[2]) + toggle_hits(sidecar, chunks[4]),
    )
}

/// Draws the rows of a WavPack dialog.
pub fn draw_wavpack_fields(
    f: &mut Scene,
    mode: WavPackMode,
    hybrid: bool,
    bitrate_input: &TextInputState,
    correction: bool,
    focus: FormatSettingsFocus,
    chunks: &Vec<Rect>,
    buttons: &mut ButtonRenderMap,
)
    requires
        chunks@.len() >= 5,
    ensures
        final(f)@ == old(f)@ + wavpack_fields(mode, hybrid, bitrate_input, correction, focus, chunks@).0,
        final(buttons)@ == old(buttons)@ + wavpack_fields(mode, hybrid, bitrate_input, correction, focus, chunks@).1,
{
    let modes = ChoiceField {
        label: "  mode         ",
        selected: Some(wavpack_index(mode)),
        focused: focus == FormatSettingsFocus::WavPackMode,
        greyed: false,
        offset: 15,
        group: ChoiceGroup::WavPackMode,
    };
    let mixed = ToggleField {
        label: "  hybrid       ",
        value: hybrid,
        focused: focus == FormatSettingsFocus::WavPackHybrid,
        greyed: false,
        on_first: false,
        offset: 15,
        group: ChoiceGroup::WavPackHybrid,
    };
    let bitrate = EntryField {
        label: "  bitrate      ",
        input: bitrate_input,
        suffix: " kbps/ch",
        reserve: 24,
        offset: 16,
        placeholder: " ",
        focused: focus == FormatSettingsFocus::WavPackBitrate,
        greyed: !hybrid,
    };
    let sidecar = ToggleField {
        label: "  correction   ",
        value: correction,
        focused: focus == FormatSettingsFocus::WavPackCorrection,
        greyed: !hybrid,
        on_first: false,
        offset: 15,
        group: ChoiceGroup::WavPackCorrection,
    };
    let mut scene = draw_choices(&modes, WAVPACK_MODES, chunks[1]);
    scene.append(draw_toggle(&mixed, chunks[2]));
    scene.append(draw_entry(&bitrate, chunks[3]));
    scene.append(draw_toggle(&sidecar, chunks[4]));
    let mut hits = record_choices(&modes, WAVPACK_MODES, chunks[1]);
    hits.append(record_toggle(&mixed, chunks[2]));
    hits.append(record_toggle(&sidecar, chunks[4]));
    f.append(scene);
    buttons.append(hits);
}

/// The rows of an SSRC dialog, and their buttons.
pub open spec fn ssrc_fields(
    attenuation_input: &TextInputState,
    min_phase: bool,
    pdf_type: Option<SsrcPdfType>,
    focus: FormatSettingsFocus,
    chunks: Seq<Rect>,
) -> (SceneV, Seq<Hit>) {
    let attenuation = EntryField {
        label: "  attenuation    ",
        input: attenuation_input,
        suffix: " dB",
        reserve: 22,
        offset: 18,
        placeholder: "0",
        focused: focus == FormatSettingsFocus::SsrcAttenuation,
        greyed: false,
    };
    let phase = ToggleField {
        label: "  min phase      ",
        value: min_phase,
        focused: focus == FormatSettingsFocus::SsrcMinPhase,
        greyed: false,
        on_first: false,
        offset: 17,
        group: ChoiceGroup::SsrcMinPhase,
    };
    let pdfs = ChoiceField {
        label: "  dither pdf     ",
        selected: Some(pdf_index(pdf_type)),
        focused: focus == FormatSettingsFocus::SsrcPdf,
        greyed: false,
        offset: 17,
        group: ChoiceGroup::SsrcPdf,
    };
    (
        entry_scene(attenuation, chunks[1]) + toggle_scene(phase, chunks[2]) + choice_scene(pdfs, SSRC_PDFS@, chunks[3]),
        toggle_hits(phase, chunks[2]) + choice_hits(pdfs, SSRC_PDFS@, chunks[3], SSRC_PDFS@.len()),
    )
}

/// Draws the rows of an SSRC dialog.
pub fn draw_ssrc_fields(
    f: &mut Scene,
    attenuation_input: &TextInputState,
    min_phase: bool,
    pdf_type: Option<SsrcPdfType>,
    focus: FormatSettingsFocus,
    chunks: &Vec<Rect>,
    buttons: &mut ButtonRenderMap,
)
    requires
        chunks@.len() >= 4,
    ensures
        final(f)@ == old(f)@ + ssrc_fields(attenuation_input, min_phase, pdf_type, focus, chunks@).0,
        final(buttons)@ == old(buttons)@ + ssrc_fields(attenuation_input, min_phase, pdf_type, focus, chunks@).1,
{
    let attenuation = EntryField {
        label: "  attenuation    ",
        input: attenuation_input,
        suffix: " dB",
        reserve: 22,
        offset: 18,
        placeholder: "0",
        focused: focus == FormatSettingsFocus::SsrcAttenuation,
        greyed: false,
    };
    let phase = ToggleField {
        label: "  min phase      ",
        value: min_phase,
        focused: focus == FormatSettingsFocus::SsrcMinPhase,
        greyed: false,
        on_first: false,
        offset: 17,
        group: ChoiceGroup::SsrcMinPhase,
    };
    let pdfs = ChoiceField {
        label: "  dither pdf     ",
        selected: Some(pdf_index(pdf_type)),
        focused: focus == FormatSettingsFocus::SsrcPdf,
        greyed: false,
        offset: 17,
        group: ChoiceGroup::SsrcPdf,
    };
    let mut scene = draw_entry(&attenuation, chunks[1]);
    scene.append(draw_toggle(&phase, chunks[2]));
    scene.append(draw_choices(&pdfs, SSRC_PDFS, chunks[3]));
    let mut hits = record_toggle(&phase, chunks[2]);
    hits.append(record_choices(&pdfs, SSRC_PDFS, chunks[3]));
    f.append(scene);
    buttons.append(hits);
}

/// The rows of a Sox dialog, and their buttons.
pub open spec fn sox_fields(
    chebyshev: bool,
    bandwidth_input: &TextInputState,
    phase_input: &TextInputState,
    allow_aliasing: bool,
    sinc_taps_input: &TextInputState,
    sinc_attenuation_input: &TextInputState,
    sinc_passband_input: &TextInputState,
    sinc_transition_input: &TextInputState,
    sinc_kaiser_beta_input: &TextInputState,
    sinc_phase: Option<SoxSincPhase>,
    focus: FormatSettingsFocus,
    chunks: Seq<Rect>,
) -> (SceneV, Seq<Hit>) {
    let ripple = ToggleField {
        label: "  chebyshev       ",
        value: chebyshev,
        focused: focus == FormatSettingsFocus::SoxChebyshev,
        greyed: false,
        on_first: false,
        offset: 18,
        group: ChoiceGroup::SoxChebyshev,
    };
    let cutoff = EntryField {
        label: "  nyquist cutoff  ",
        input: bandwidth_input,
        suffix: " %",
        reserve: 22,
        offset: 19,
        placeholder: "95",
        focused: focus == FormatSettingsFocus::SoxBandwidth,
        greyed: chebyshev,
    };
    let phase = EntryField {
        label: "  phase           ",
        input: phase_input,
        suffix: "",
        reserve: 19,
        offset: 19,
        placeholder: "50",
        focused: focus == FormatSettingsFocus::SoxPhase,
        greyed: false,
    };
    let aliasing = ToggleField {
        label: "  aliasing        ",
        value: allow_aliasing,
        focused: focus == FormatSettingsFocus::SoxAliasing,
        greyed: false,
        on_first: false,
        offset: 18,
        group: ChoiceGroup::SoxAliasing,
    };
    let taps = EntryField {
        label: "  taps            ",
        input: sinc_taps_input,
        suffix: "",
        reserve: 22,
        offset: 19,
        placeholder: " ",
        focused: focus == FormatSettingsFocus::SoxSincTaps,
        greyed: false,
    };
    let attenuation = EntryField {
        label: "  attenuation     ",
        input: sinc_attenuation_input,
        suffix: " dB",
        reserve: 22,
        offset: 19,
        placeholder: " ",
        focused: focus == FormatSettingsFocus::SoxSincAttenuation,
        greyed: false,
    };
    let passband = EntryField {
        label: "  passband        ",
        input: sinc_passband_input,
        suffix: " Hz",
        reserve: 22,
        offset: 19,
        placeholder: " ",
        focused: focus == FormatSettingsFocus::SoxSincPassband,
        greyed: false,
    };
    let transition = EntryField {
        label: "  transition      ",
        input: sinc_transition_input,
        suffix: " Hz",
        reserve: 22,
        offset: 19,
        placeholder: " ",
        focused: focus == FormatSettingsFocus::SoxSincTransition,
        greyed: false,
    };
    let kaiser = EntryField {
        label: "  kaiser beta     ",
        input: sinc_kaiser_beta_input,
        suffix: "",
        reserve: 22,
        offset: 19,
        placeholder: " ",
        focused: focus == FormatSettingsFocus::SoxSincKaiserBeta,
        greyed: false,
    };
    let phases = ChoiceField {
        label: "  sinc phase      ",
        selected: sinc_index(sinc_phase),
        focused: focus == FormatSettingsFocus::SoxSincPhase,
        greyed: false,
        offset: 18,
        group: ChoiceGroup::SoxSincPhase,
    };
    (
        toggle_scene(ripple, chunks[1]) + entry_scene(cutoff, chunks[2]) + entry_scene(phase, chunks[3]) + toggle_scene(aliasing, chunks[4]) + seq![
            line_op(
                chunks[6],
                seq![sp("  sinc filter"@, label_style(focused_in_sinc(focus), false))],
            ),
        ] + entry_scene(taps, chunks[7]) + entry_scene(attenuation, chunks[8]) + entry_scene(passband, chunks[9]) + entry_scene(transition, chunks[10]) + entry_scene(kaiser, chunks[11]) + choice_scene(phases, SINC_PHASES@, chunks[12]),
        toggle_hits(ripple, chunks[1]) + toggle_hits(aliasing, chunks[4]) + choice_hits(phases, SINC_PHASES@, chunks[12], SINC_PHASES@.len()),
    )
}

/// Draws the rows of a Sox dialog.
pub fn draw_sox_fields(
    f: &mut Scene,
    chebyshev: bool,
    bandwidth_input: &TextInputState,
    phase_input: &TextInputState,
    allow_aliasing: bool,
    sinc_taps_input: &TextInputState,
    sinc_attenuation_input: &TextInputState,
    sinc_passband_input: &TextInputState,
    sinc_transition_input: &TextInputState,
    sinc_kaiser_beta_input: &TextInputState,
    sinc_phase: Option<SoxSincPhase>,
    focus: FormatSettingsFocus,
    chunks: &Vec<Rect>,
    buttons: &mut ButtonRenderMap,
)
    requires
        chunks@.len() >= 13,
    ensures
        final(f)@ == old(f)@ + sox_fields(chebyshev, bandwidth_input, phase_input, allow_aliasing, sinc_taps_input, sinc_attenuation_input, sinc_passband_input, sinc_transition_input, sinc_kaiser_beta_input, sinc_phase, focus, chunks@).0,
        final(buttons)@ == old(buttons)@ + sox_fields(chebyshev, bandwidth_input, phase_input, allow_aliasing, sinc_taps_input, sinc_attenuation_input, sinc_passband_input, sinc_transition_input, sinc_kaiser_beta_input, sinc_phase, focus, chunks@).1,
{
    let ripple = ToggleField {
        label: "  chebyshev       ",
        value: chebyshev,
        focused: focus == FormatSettingsFocus::SoxChebyshev,
        greyed: false,
        on_first: false,
        offset: 18,
        group: ChoiceGroup::SoxChebyshev,
    };
    let cutoff = EntryField {
        label: "  nyquist cutoff  ",
        input: bandwidth_input,
        suffix: " %",
        reserve: 22,
        offset: 19,
        placeholder: "95",
        focused: focus == FormatSettingsFocus::SoxBandwidth,
        greyed: chebyshev,
    };
    let phase = EntryField {
        label: "  phase           ",
        input: phase_input,
        suffix: "",
        reserve: 19,
        offset: 19,
        placeholder: "50",
        focused: focus == FormatSettingsFocus::SoxPhase,
        greyed: false,
    };
    let aliasing = ToggleField {
        label: "  aliasing        ",
        value: allow_aliasing,
        focused: focus == FormatSettingsFocus::SoxAliasing,
        greyed: false,
        on_first: false,
        offset: 18,
        group: ChoiceGroup::SoxAliasing,
    };
    let taps = EntryField {
        label: "  taps            ",
        input: sinc_taps_input,
        suffix: "",
        reserve: 22,
        offset: 19,
        placeholder: " ",
        focused: focus == FormatSettingsFocus::SoxSincTaps,
        greyed: false,
    };
    let attenuation = EntryField {
        label: "  attenuation     ",
        input: sinc_attenuation_input,
        suffix: " dB",
        reserve: 22,
        offset: 19,
        placeholder: " ",
        focused: focus == FormatSettingsFocus::SoxSincAttenuation,
        greyed: false,
    };
    let passband = EntryField {
        label: "  passband        ",
        input: sinc_passband_input,
        suffix: " Hz",
        reserve: 22,
        offset: 19,
        placeholder: " ",
        focused: focus == FormatSettingsFocus::SoxSincPassband,
        greyed: false,
    };
    let transition = EntryField {
        label: "  transition      ",
        input: sinc_transition_input,
        suffix: " Hz",
        reserve: 22,
        offset: 19,
        placeholder: " ",
        focused: focus == FormatSettingsFocus::SoxSincTransition,
        greyed: false,
    };
    let kaiser = EntryField {
        label: "  kaiser beta     ",
        input: sinc_kaiser_beta_input,
        suffix: "",
        reserve: 22,
        offset: 19,
        placeholder: " ",
        focused: focus == FormatSettingsFocus::SoxSincKaiserBeta,
        greyed: false,
    };
    let phases = ChoiceField {
        label: "  sinc phase      ",
        selected: sinc_index(sinc_phase),
        focused: focus == FormatSettingsFocus::SoxSincPhase,
        greyed: false,
        offset: 18,
        group: ChoiceGroup::SoxSincPhase,
    };
    let mut scene = draw_toggle(&ripple, chunks[1]);
    scene.append(draw_entry(&cutoff, chunks[2]));
    scene.append(draw_entry(&phase, chunks[3]));
    scene.append(draw_toggle(&aliasing, chunks[4]));
    let mut header = Scene::new();
    header.line(chunks[6], line1("  sinc filter", label_style(focused_in_sinc(focus), false)));
    scene.append(header);
    scene.append(draw_entry(&taps, chunks[7]));
    scene.append(draw_entry(&attenuation, chunks[8]));
    scene.append(draw_entry(&passband, chunks[9]));
    scene.append(draw_entry(&transition, chunks[10]));
    scene.append(draw_entry(&kaiser, chunks[11]));
    scene.append(draw_choices(&phases, SINC_PHASES, chunks[12]));
    let mut hits = record_toggle(&ripple, chunks[1]);
    hits.append(record_toggle(&aliasing, chunks[4]));
    hits.append(record_choices(&phases, SINC_PHASES, chunks[12]));
    f.append(scene);
    buttons.append(hits);
}

/// The rows of a Soxr dialog, and their buttons.
pub open spec fn soxr_fields(
    chebyshev: bool,
    cutoff_input: &TextInputState,
    phase_input: &TextInputState,
    focus: FormatSettingsFocus,
    chunks: Seq<Rect>,
) -> (SceneV, Seq<Hit>) {
    let ripple = ToggleField {
        label: "  chebyshev       ",
        value: chebyshev,
        focused: focus == FormatSettingsFocus::SoxrChebyshev,
        greyed: false,
        on_first: false,
        offset: 18,
        group: ChoiceGroup::SoxrChebyshev,
    };
    let cutoff = EntryField {
        label: "  nyquist cutoff  ",
        input: cutoff_input,
        suffix: " %",
        reserve: 20,
        offset: 19,
        placeholder: "95",
        focused: focus == FormatSettingsFocus::SoxrCutoff,
        greyed: false,
    };
    let phase = EntryField {
        label: "  phase           ",
        input: phase_input,
        suffix: "",
        reserve: 16,
        offset: 19,
        placeholder: "50",
        focused: focus == FormatSettingsFocus::SoxrPhase,
        greyed: false,
    };
    (
        toggle_scene(ripple, chunks[1]) + entry_scene(cutoff, chunks[2]) + entry_scene(phase, chunks[3]),
        toggle_hits(ripple, chunks[1]),
    )
}

/// Draws the rows of a Soxr dialog.
pub fn draw_soxr_fields(
    f: &mut Scene,
    chebyshev: bool,
    cutoff_input: &TextInputState,
    phase_input: &TextInputState,
    focus: FormatSettingsFocus,
    chunks: &Vec<Rect>,
    buttons: &mut ButtonRenderMap,
)
    requires
        chunks@.len() >= 4,
    ensures
        final(f)@ == old(f)@ + soxr_fields(chebyshev, cutoff_input, phase_input, focus, chunks@).0,
        final(buttons)@ == old(buttons)@ + soxr_fields(chebyshev, cutoff_input, phase_input, focus, chunks@).1,
{
    let ripple = ToggleField {
        label: "  chebyshev       ",
        value: chebyshev,
        focused: focus == FormatSettingsFocus::SoxrChebyshev,
        greyed: false,
        on_first: false,
        offset: 18,
        group: ChoiceGroup::SoxrChebyshev,
    };
    let cutoff = EntryField {
        label: "  nyquist cutoff  ",
        input: cutoff_input,
        suffix: " %",
        reserve: 20,
        offset: 19,
        placeholder: "95",
        focused: focus == FormatSettingsFocus::SoxrCutoff,
        greyed: false,
    };
    let phase = EntryField {
        label: "  phase           ",
        input: phase_input,
        suffix: "",
        reserve: 16,
        offset: 19,
        placeholder: "50",
        focused: focus == FormatSettingsFocus::SoxrPhase,
        greyed: false,
    };
    let mut scene = draw_toggle(&ripple, chunks[1]);
    scene.append(draw_entry(&cutoff, chunks[2]));
    scene.append(draw_entry(&phase, chunks[3]));
    let mut hits = record_toggle(&ripple, chunks[1]);
    f.append(scene);
    buttons.append(hits);
}

/// The number of editable settings.
pub open spec fn field_count(kind: FormatSettingsKind) -> int {
    match kind {
        FormatSettingsKind::Flac { .. } => 3,
        FormatSettingsKind::Aac { .. } => 3,
        FormatSettingsKind::Opus { .. } => 4,
        FormatSettingsKind::Mp3 { .. } => 4,
        FormatSettingsKind::WavPack { .. } => 4,
        FormatSettingsKind::Ssrc { .. } => 3,
        FormatSettingsKind::Sox { .. } => 10,
        FormatSettingsKind::Soxr { .. } => 3,
    }
}

/// Number of editable fields in the dialog for a given format.
pub fn format_settings_field_count(kind: &FormatSettingsKind) -> (r: u16)
    ensures
        r == field_count(*kind),
{
    match kind {
        FormatSettingsKind::Flac { .. } => 3,
        FormatSettingsKind::Aac { .. } => 3,
        FormatSettingsKind::Opus { .. } => 4,
        FormatSettingsKind::Mp3 { .. } => 4,
        FormatSettingsKind::WavPack { .. } => 4,
        FormatSettingsKind::Ssrc { .. } => 3,
        FormatSettingsKind::Sox { .. } => 10,
        FormatSettingsKind::Soxr { .. } => 3,
    }
}

/// The columns that the first `n` choices take, without the gaps.
pub open spec fn pills_width(labels: Seq<&'static str>, n: nat) -> int
    decreases n,
{
    if n == 0 || n > labels.len() {
        0
    } else {
        plus(pills_width(labels, (n - 1) as nat), plus(labels[n - 1]@.len() as int, 2))
    }
}

/// The columns that choices take, with the gaps.
pub open spec fn choices_width(labels: Seq<&'static str>) -> int {
    plus(pills_width(labels, labels.len()), minus(labels.len() as int, 1))
}

fn width_of_choices<const N: usize>(labels: [&'static str; N]) -> (r: usize)
    ensures
        r == choices_width(labels@),
{
    let mut total: usize = 0;
    for i in 0..N
        invariant
            labels@.len() == N,
            total == pills_width(labels@, i as nat),
    {
        total = total.saturating_add(count(labels[i]).saturating_add(2));
    }
    total.saturating_add(N.saturating_sub(1))
}

/// The columns of the widest row of a dialog, whatever is chosen in it.
pub open spec fn widest_row(kind: FormatSettingsKind) -> int {
    match kind {
        FormatSettingsKind::Flac { .. } => 25,
        FormatSettingsKind::Aac { .. } => plus(15, choices_width(AAC_PRESETS@)),
        FormatSettingsKind::Opus { .. } => plus(15, choices_width(OPUS_PRESETS@)),
        FormatSettingsKind::Mp3 { .. } => plus(15, choices_width(MP3_BITRATE_PRESETS@)),
        FormatSettingsKind::WavPack { .. } => plus(15, choices_width(WAVPACK_MODES@)),
        FormatSettingsKind::Ssrc { .. } => plus(15, choices_width(SSRC_PROFILES@)),
        FormatSettingsKind::Sox { .. } => 58,
        FormatSettingsKind::Soxr { .. } => 38,
    }
}

/// The columns of the dialog. They depend on the format alone, so the box keeps its
/// size while settings change in it.
pub fn format_settings_min_width(kind: &FormatSettingsKind) -> (r: u16)
    ensures
        r == low16(plus(widest_row(*kind), 6)),
{
    let label: usize = 15;
    let content: usize = match kind {
        FormatSettingsKind::Flac { .. } => 25,
        FormatSettingsKind::Aac { .. } => label.saturating_add(width_of_choices(AAC_PRESETS)),
        FormatSettingsKind::Opus { .. } => label.saturating_add(width_of_choices(OPUS_PRESETS)),
        FormatSettingsKind::Mp3 { .. } => label.saturating_add(
            width_of_choices(MP3_BITRATE_PRESETS),
        ),
        FormatSettingsKind::WavPack { .. } => label.saturating_add(
            width_of_choices(WAVPACK_MODES),
        ),
        FormatSettingsKind::Ssrc { .. } => label.saturating_add(width_of_choices(SSRC_PROFILES)),
        FormatSettingsKind::Sox { .. } => 58,
        FormatSettingsKind::Soxr { .. } => 38,
    };
    to_u16(content.saturating_add(6))
}

/// The place of the dialog on a screen.
pub open spec fn settings_popup(kind: FormatSettingsKind, size: Rect) -> Rect {
    centered(
        least(minus(size.width as int, 4), low16(plus(widest_row(kind), 6))),
        if kind is Sox { 17 } else { field_count(kind) + 6 },
        size,
    )
}

/// The rows of the dialog: settings between empty lines, the key hints, and what is
/// left. The Sox dialog has a heading in the middle.
pub open spec fn settings_rows(kind: FormatSettingsKind) -> Seq<Constraint> {
    Seq::new(
        (if kind is Sox { 15 } else { field_count(kind) + 3 }) as nat,
        |i: int| Constraint::Length(1),
    ).push(Constraint::Min(0))
}

/// The title of the dialog.
pub open spec fn settings_title(kind: FormatSettingsKind) -> Seq<char> {
    match kind {
        FormatSettingsKind::Flac { .. } => " FLAC Settings "@,
        FormatSettingsKind::Aac { .. } => " AAC Settings "@,
        FormatSettingsKind::Opus { .. } => " Opus Settings "@,
        FormatSettingsKind::Mp3 { .. } => " MP3 Settings "@,
        FormatSettingsKind::WavPack { .. } => " WavPack Settings "@,
        FormatSettingsKind::Ssrc { .. } => " SSRC Settings "@,
        FormatSettingsKind::Sox { .. } => " Sox Settings "@,
        FormatSettingsKind::Soxr { .. } => " Soxr Settings "@,
    }
}

/// The settings, and their buttons.
pub open spec fn settings_fields(
    kind: FormatSettingsKind,
    focus: FormatSettingsFocus,
    chunks: Seq<Rect>,
) -> (SceneV, Seq<Hit>) {
    match kind {
        FormatSettingsKind::Flac { compression_input, verify, md5 } => flac_fields(
            &compression_input, verify, md5,
            focus,
            chunks,
        ),
        FormatSettingsKind::Aac { profile, quality_preset, bitrate_input } => aac_fields(
            profile, quality_preset, &bitrate_input,
            focus,
            chunks,
        ),
        FormatSettingsKind::Opus { content_type, quality_preset, bitrate_input, complexity_input } => opus_fields(
            content_type, quality_preset, &bitrate_input, &complexity_input,
            focus,
            chunks,
        ),
        FormatSettingsKind::Mp3 { mode, vbr_quality_input, quality_preset, bitrate_input } => mp3_fields(
            mode, &vbr_quality_input, quality_preset, &bitrate_input,
            focus,
            chunks,
        ),
        FormatSettingsKind::WavPack { mode, hybrid, bitrate_input, correction } => wavpack_fields(
            mode, hybrid, &bitrate_input, correction,
            focus,
            chunks,
        ),
        FormatSettingsKind::Ssrc { attenuation_input, min_phase, pdf_type } => ssrc_fields(
            &attenuation_input, min_phase, pdf_type,
            focus,
            chunks,
        ),
        FormatSettingsKind::Sox { chebyshev, bandwidth_input, phase_input, allow_aliasing, sinc_taps_input, sinc_attenuation_input, sinc_passband_input, sinc_transition_input, sinc_kaiser_beta_input, sinc_phase } => sox_fields(
            chebyshev, &bandwidth_input, &phase_input, allow_aliasing, &sinc_taps_input, &sinc_attenuation_input, &sinc_passband_input, &sinc_transition_input, &sinc_kaiser_beta_input, sinc_phase,
            focus,
            chunks,
        ),
        FormatSettingsKind::Soxr { chebyshev, cutoff_input, phase_input } => soxr_fields(
            chebyshev, &cutoff_input, &phase_input,
            focus,
            chunks,
        ),
    }
}

/// The keys that work in the dialog.
pub open spec fn settings_footer() -> LineV {
    seq![
        footer_pill_span("Enter save"@, Tone::Green),
        pill_gap_span(),
        footer_pill_span("Esc cancel"@, Tone::Purple),
        pill_gap_span(),
        footer_pill_span("? help"@, Tone::Blue),
    ]
}

/// The row of the key hints.
pub open spec fn settings_footer_row(kind: FormatSettingsKind) -> int {
    if kind is Sox {
        14
    } else {
        field_count(kind) + 2
    }
}

/// The dialog in the box `popup`, with its rows in `chunks`.
pub open spec fn settings_scene(
    kind: FormatSettingsKind,
    focus: FormatSettingsFocus,
    popup: Rect,
    chunks: Seq<Rect>,
) -> SceneV {
    seq![
        OpV::Clear(popup),
        frame_op(popup, settings_title(kind), bold_fg(Tone::Green), fg(Tone::Green), plain()),
    ] + settings_fields(kind, focus, chunks).0 + seq![
        centered_op(chunks[settings_footer_row(kind)], settings_footer()),
    ]
}

fn footer_line() -> (r: Line)
    ensures
        r@ == settings_footer(),
{
    let mut line = Line::new();
    line.push(footer_pill("Enter save", Tone::Green));
    line.push(pill_gap());
    line.push(footer_pill("Esc cancel", Tone::Purple));
    line.push(pill_gap());
    line.push(footer_pill("? help", Tone::Blue));
    line
}

fn title_of(kind: &FormatSettingsKind) -> (r: &'static str)
    ensures
        r@ == settings_title(*kind),
{
    match kind {
        FormatSettingsKind::Flac { .. } => " FLAC Settings ",
        FormatSettingsKind::Aac { .. } => " AAC Settings ",
        FormatSettingsKind::Opus { .. } => " Opus Settings ",
        FormatSettingsKind::Mp3 { .. } => " MP3 Settings ",
        FormatSettingsKind::WavPack { .. } => " WavPack Settings ",
        FormatSettingsKind::Ssrc { .. } => " SSRC Settings ",
        FormatSettingsKind::Sox { .. } => " Sox Settings ",
        FormatSettingsKind::Soxr { .. } => " Soxr Settings ",
    }
}

fn draw_fields(kind: &FormatSettingsKind, focus: FormatSettingsFocus, chunks: &Vec<Rect>) -> (r: (
    Scene,
    ButtonRenderMap,
))
    requires
        chunks@.len() == settings_rows(*kind).len(),
    ensures
        r.0@ == settings_fields(*kind, focus, chunks@).0,
        r.1@ == settings_fields(*kind, focus, chunks@).1,
{
    let mut scene = Scene::new();
    let mut hits = ButtonRenderMap::new();
    match kind {
        FormatSettingsKind::Flac { compression_input, verify, md5 } => draw_flac_fields(
            &mut scene,
            compression_input, *verify, *md5,
            focus,
            chunks,
            &mut hits,
        ),
        FormatSettingsKind::Aac { profile, quality_preset, bitrate_input } => draw_aac_fields(
            &mut scene,
            *profile, *quality_preset, bitrate_input,
            focus,
            chunks,
            &mut hits,
        ),
        FormatSettingsKind::Opus { content_type, quality_preset, bitrate_input, complexity_input } => draw_opus_fields(
            &mut scene,
            *content_type, *quality_preset, bitrate_input, complexity_input,
            focus,
            chunks,
            &mut hits,
        ),
        FormatSettingsKind::Mp3 { mode, vbr_quality_input, quality_preset, bitrate_input } => draw_mp3_fields(
            &mut scene,
            *mode, vbr_quality_input, *quality_preset, bitrate_input,
            focus,
            chunks,
            &mut hits,
        ),
        FormatSettingsKind::WavPack { mode, hybrid, bitrate_input, correction } => draw_wavpack_fields(
            &mut scene,
            *mode, *hybrid, bitrate_input, *correction,
            focus,
            chunks,
            &mut hits,
        ),
        FormatSettingsKind::Ssrc { attenuation_input, min_phase, pdf_type } => draw_ssrc_fields(
            &mut scene,
            attenuation_input, *min_phase, *pdf_type,
            focus,
            chunks,
            &mut hits,
        ),
        FormatSettingsKind::Sox { chebyshev, bandwidth_input, phase_input, allow_aliasing, sinc_taps_input, sinc_attenuation_input, sinc_passband_input, sinc_transition_input, sinc_kaiser_beta_input, sinc_phase } => draw_sox_fields(
            &mut scene,
            *chebyshev, bandwidth_input, phase_input, *allow_aliasing, sinc_taps_input, sinc_attenuation_input, sinc_passband_input, sinc_transition_input, sinc_kaiser_beta_input, *sinc_phase,
            focus,
            chunks,
            &mut hits,
        ),
        FormatSettingsKind::Soxr { chebyshev, cutoff_input, phase_input } => draw_soxr_fields(
            &mut scene,
            *chebyshev, cutoff_input, phase_input,
            focus,
            chunks,
            &mut hits,
        ),
    }
    proof {
        let fields = settings_fields(*kind, focus, chunks@);
        assert(Seq::<OpV>::empty() + fields.0 =~= fields.0);
        assert(Seq::<Hit>::empty() + fields.1 =~= fields.1);
    }
    (scene, hits)
}

/// Draws the dialog in the box `popup`, with its rows in `chunks`.
pub fn draw_format_settings_rows(
    f: &mut Scene,
    kind: &FormatSettingsKind,
    focus: FormatSettingsFocus,
    popup: Rect,
    chunks: &Vec<Rect>,
    buttons: &mut ButtonRenderMap,
)
    requires
        chunks@.len() == settings_rows(*kind).len(),
    ensures
        final(f)@ == old(f)@ + settings_scene(*kind, focus, popup, chunks@),
        final(buttons)@ == old(buttons)@ + settings_fields(*kind, focus, chunks@).1,
{
    let title = title_of(kind);
    let mut box_scene = Scene::new();
    box_scene.clear(popup);
    box_scene.frame(popup, title, bold_fg(Tone::Green), fg(Tone::Green), plain());
    let footer_row: usize = match kind {
        FormatSettingsKind::Sox { .. } => 14,
        _ => format_settings_field_count(kind) as usize + 2,
    };
    let (scene, hits) = draw_fields(kind, focus, chunks);
    box_scene.append(scene);
    let mut footer = Scene::new();
    footer.centered(chunks[footer_row], footer_line());
    box_scene.append(footer);
    f.append(box_scene);
    buttons.append(hits);
}

fn row_wishes(kind: &FormatSettingsKind) -> (r: Vec<Constraint>)
    ensures
        r@ == settings_rows(*kind),
{
    let lengths: usize = match kind {
        FormatSettingsKind::Sox { .. } => 15,
        _ => format_settings_field_count(kind) as usize + 3,
    };
    let mut out: Vec<Constraint> = Vec::new();
    for i in 0..lengths
        invariant
            out@ =~= Seq::new(i as nat, |j: int| Constraint::Length(1)),
    {
        out.push(Constraint::Length(1));
    }
    out.push(Constraint::Min(0));
    out
}

/// The place of the help on a screen of the given size.
pub open spec fn help_popup(width: int, height: int) -> Rect {
    share(width, height, 80, 50, 85, 15)
}

/// The place of the help on a screen of the given size. The pointer and the painter
/// both go by it.
pub fn format_settings_help_popup_rect(area_w: u16, area_h: u16) -> (r: Rect)
    ensures
        r == help_popup(area_w as int, area_h as int),
        r.wf(),
        r.x + r.width <= area_w,
        r.y + r.height <= area_h,
{
    share_rect(area_w, area_h, 80, 50, 85, 15)
}

/// The title of the help.
pub open spec fn help_title(kind: FormatSettingsKind) -> Seq<char> {
    match kind {
        FormatSettingsKind::Flac { .. } => " FLAC Settings Help "@,
        FormatSettingsKind::Aac { .. } => " AAC Settings Help "@,
        FormatSettingsKind::Opus { .. } => " Opus Settings Help "@,
        FormatSettingsKind::Mp3 { .. } => " MP3 Settings Help "@,
        FormatSettingsKind::WavPack { .. } => " WavPack Settings Help "@,
        FormatSettingsKind::Ssrc { .. } => " SSRC Settings Help "@,
        FormatSettingsKind::Sox { .. } => " Sox Resampler Help "@,
        FormatSettingsKind::Soxr { .. } => " Soxr Resampler Help "@,
    }
}

/// The key hints of the help.
pub open spec fn help_footer(total: int, visible: int) -> LineV {
    if total > visible {
        seq![
            footer_pill_span("Esc close"@, Tone::Purple),
            pill_gap_span(),
            footer_pill_span("↑↓ scroll"@, Tone::Blue),
        ]
    } else {
        seq![footer_pill_span("Esc close"@, Tone::Purple)]
    }
}

fn help_footer_line(total: usize, visible: usize) -> (r: Line)
    ensures
        r@ == help_footer(total as int, visible as int),
{
    let mut footer = Line::new();
    footer.push(footer_pill("Esc close", Tone::Purple));
    if total > visible {
        footer.push(pill_gap());
        footer.push(footer_pill("↑↓ scroll", Tone::Blue));
    }
    footer
}

/// The box of the help.
pub open spec fn help_box(kind: FormatSettingsKind, popup: Rect) -> SceneV {
    seq![
        OpV::Clear(popup),
        frame_op(popup, help_title(kind), bold_fg(Tone::Blue), fg(Tone::Blue), plain()),
    ]
}

/// The text of the help and the key hints, in two areas.
pub open spec fn help_text_scene(kind: FormatSettingsKind, scroll: int, chunks: Seq<Rect>) -> SceneV {
    let rows = all_help_rows(kind);
    let visible = chunks[0].height as int;
    seq![
        text_op(chunks[0], scrolled(rows, scroll, visible), plain()),
        centered_op(chunks[1], help_footer(rows.len() as int, visible)),
    ]
}

/// Draws the text of the help and the key hints, in two areas.
pub fn draw_help_text(f: &mut Scene, kind: &FormatSettingsKind, scroll: usize, chunks: &Vec<Rect>)
    requires
        chunks@.len() == 2,
    ensures
        final(f)@ == old(f)@ + help_text_scene(*kind, scroll as int, chunks@),
{
    let rows = help_lines(kind);
    let visible: usize = chunks[0].height as usize;
    let footer = help_footer_line(rows.len(), visible);
    let mut scene = Scene::new();
    scene.text(chunks[0], scroll_rows(&rows, scroll, visible), plain());
    scene.centered(chunks[1], footer);
    f.append(scene);
}

/// `scene` shows the help.
pub open spec fn shows_help(kind: FormatSettingsKind, scroll: int, size: Rect, scene: SceneV) -> bool {
    let popup = help_popup(size.width as int, size.height as int);
    let content = inside_border(popup);
    if content.height < 3 {
        scene == help_box(kind, popup)
    } else {
        exists|chunks: Seq<Rect>|
            #[trigger] divides(Direction::Vertical, text_and_line(), content, chunks) && scene
                == help_box(kind, popup) + help_text_scene(kind, scroll, chunks)
    }
}

fn help_title_of(kind: &FormatSettingsKind) -> (r: &'static str)
    ensures
        r@ == help_title(*kind),
{
    match kind {
        FormatSettingsKind::Flac { .. } => " FLAC Settings Help ",
        FormatSettingsKind::Aac { .. } => " AAC Settings Help ",
        FormatSettingsKind::Opus { .. } => " Opus Settings Help ",
        FormatSettingsKind::Mp3 { .. } => " MP3 Settings Help ",
        FormatSettingsKind::WavPack { .. } => " WavPack Settings Help ",
        FormatSettingsKind::Ssrc { .. } => " SSRC Settings Help ",
        FormatSettingsKind::Sox { .. } => " Sox Resampler Help ",
        FormatSettingsKind::Soxr { .. } => " Soxr Resampler Help ",
    }
}

/// The help of a format, in the middle of a screen of the given size.
pub fn draw_format_settings_help(size: Rect, kind: &FormatSettingsKind, scroll: usize) -> (r: Scene)
    ensures
        shows_help(*kind, scroll as int, size, r@),
{
    let popup = format_settings_help_popup_rect(size.width, size.height);
    let title = help_title_of(kind);
    let mut scene = Scene::new();
    scene.clear(popup);
    scene.frame(popup, title, bold_fg(Tone::Blue), fg(Tone::Blue), plain());
    let content = inner(popup);
    assert(popup == help_popup(size.width as int, size.height as int));
    assert(scene@ == help_box(*kind, popup));
    assert(content == inside_border(popup));
    if content.height < 3 {
        return scene;
    }
    let chunks = split_text_and_line(content);
    draw_help_text(&mut scene, kind, scroll, &chunks);
    assert(scene@ == help_box(*kind, popup) + help_text_scene(*kind, scroll as int, chunks@));
    scene
}

/// `scene` and `hits` show the dialog, or its help where `help_scroll` says so.
pub open spec fn shows_settings(
    kind: FormatSettingsKind,
    focus: FormatSettingsFocus,
    help_scroll: Option<usize>,
    size: Rect,
    scene: SceneV,
    hits: Seq<Hit>,
) -> bool {
    let popup = settings_popup(kind, size);
    match help_scroll {
        Some(scroll) => shows_help(kind, scroll as int, size, scene) && hits.len() == 0,
        None => exists|chunks: Seq<Rect>|
            #[trigger] divides(
                Direction::Vertical,
                settings_rows(kind),
                inside_border(popup),
                chunks,
            ) && scene == settings_scene(kind, focus, popup, chunks) && hits == settings_fields(
                kind,
                focus,
                chunks,
            ).1,
    }
}

/// The settings dialog in the middle of a screen of the given size, or its help.
pub fn draw_format_settings(
    size: Rect,
    kind: &FormatSettingsKind,
    focus: FormatSettingsFocus,
    help_scroll: Option<usize>,
) -> (r: (Scene, ButtonRenderMap))
    requires
        size.wf(),
    ensures
        shows_settings(*kind, focus, help_scroll, size, r.0@, r.1@),
{
    match help_scroll {
        Some(scroll) => {
            return (draw_format_settings_help(size, kind, scroll), ButtonRenderMap::new());
        },
        None => {},
    }
    let wanted: u16 = format_settings_min_width(kind);
    let room: u16 = size.width.saturating_sub(4);
    let width: u16 = if room <= wanted { room } else { wanted };
    let height: u16 = match kind {
        FormatSettingsKind::Sox { .. } => 17,
        _ => format_settings_field_count(kind) + 6,
    };
    let popup = centered_rect(width, height, size);
    assert(popup == settings_popup(*kind, size));
    let chunks = split(Direction::Vertical, &row_wishes(kind), inner(popup));
    assert(divides(Direction::Vertical, settings_rows(*kind), inside_border(popup), chunks@));
    let mut scene = Scene::new();
    let mut hits = ButtonRenderMap::new();
    draw_format_settings_rows(&mut scene, kind, focus, popup, &chunks, &mut hits);
    proof {
        let want = settings_scene(*kind, focus, popup, chunks@);
        assert(Seq::<OpV>::empty() + want =~= want);
        let places = settings_fields(*kind, focus, chunks@).1;
        assert(Seq::<Hit>::empty() + places =~= places);
    }
    (scene, hits)
}

proof fn lemma_chars_after_label(label: LineV, rest: LineV, n: nat)
    requires
        label.len() == 1,
        n <= rest.len(),
    ensures
        span_chars(label + rest, n + 1) == label[0].text.len() + span_chars(rest, n),
    decreases n,
{
    let line = label + rest;
    if n == 0 {
        assert(span_chars(line, 0) == 0);
        assert(line[0] == label[0]);
    } else {
        lemma_chars_after_label(label, rest, (n - 1) as nat);
        assert(line[n as int] == rest[n - 1]);
    }
}

proof fn lemma_choice_spans(field: ChoiceField, labels: Seq<&'static str>, i: nat, n: nat)
    requires
        i < n <= labels.len(),
    ensures
        choice_spans(field, labels, i).len() == 2 * i,
        2 * i < choice_spans(field, labels, n).len(),
        choice_spans(field, labels, i) == choice_spans(field, labels, n).take((2 * i) as int),
        choice_spans(field, labels, n)[(2 * i) as int].text == " "@ + labels[i as int]@ + " "@,
    decreases n,
{
    let all = choice_spans(field, labels, n);
    let before = choice_spans(field, labels, (n - 1) as nat);
    if i == n - 1 {
        if i > 0 {
            lemma_choice_spans(field, labels, (i - 1) as nat, i);
        }
        assert(before =~= all.take((2 * i) as int));
    } else {
        lemma_choice_spans(field, labels, i, (n - 1) as nat);
        assert(before.take((2 * i) as int) =~= all.take((2 * i) as int));
    }
}

proof fn lemma_choice_column(field: ChoiceField, labels: Seq<&'static str>, start: int, i: nat)
    requires
        i < labels.len(),
        0 <= start,
        start + span_chars(choice_spans(field, labels, i), 2 * i) <= u16::MAX,
    ensures
        choice_x(labels, start, i) == start + span_chars(choice_spans(field, labels, i), 2 * i),
    decreases i,
{
    if i > 0 {
        let before = choice_spans(field, labels, (i - 1) as nat);
        let all = choice_spans(field, labels, i);
        lemma_choice_spans(field, labels, (i - 1) as nat, i);
        lemma_choice_spans(field, labels, i, labels.len());
        lemma_span_chars_prefix(before, all, (2 * (i - 1)) as nat);
        reveal_strlit(" ");
        assert(all[2 * i - 1].text.len() == 1);
        assert(span_chars(all, 2 * i) == span_chars(all, (2 * i - 1) as nat) + 1);
        assert(span_chars(all, (2 * i - 1) as nat) == span_chars(all, (2 * i - 2) as nat)
            + all[2 * i - 2].text.len());
        lemma_choice_column(field, labels, start, (i - 1) as nat);
    }
}

proof fn lemma_choice_hit(
    field: ChoiceField,
    labels: Seq<&'static str>,
    area: Rect,
    i: nat,
    n: nat,
)
    requires
        !field.greyed,
        i < n <= labels.len(),
    ensures
        choice_hits(field, labels, area, n).len() == n,
        choice_hits(field, labels, area, n)[i as int] == choice_hits(
            field,
            labels,
            area,
            i + 1,
        ).last(),
    decreases n,
{
    if n > 1 {
        lemma_choice_hit(
            field,
            labels,
            area,
            if i < n - 1 {
                i
            } else {
                0
            },
            (n - 1) as nat,
        );
    } else {
        assert(choice_hits(field, labels, area, 0).len() == 0);
    }
}

/// A choice is clicked exactly where it is drawn, wherever its row leaves room for it on a
/// screen of sixteen-bit columns.
pub proof fn choice_is_clicked_where_it_is_drawn(
    field: ChoiceField,
    labels: Seq<&'static str>,
    area: Rect,
    i: nat,
)
    requires
        !field.greyed,
        field.offset == field.label@.len(),
        i < labels.len(),
        ({
            let line = choice_scene(field, labels, area)[0]->Text_rows[0];
            area.x + span_chars(line, 2 * i + 2) <= u16::MAX
        }),
    ensures
        ({
            let line = choice_scene(field, labels, area)[0]->Text_rows[0];
            let hit = choice_hits(field, labels, area, labels.len())[i as int];
            &&& line[(2 * i + 1) as int].text == " "@ + labels[i as int]@ + " "@
            &&& hit.0 == choice_button(field.group, i as usize)
            &&& hit.1.x == area.x + span_chars(line, 2 * i + 1)
            &&& hit.1.y == area.y
            &&& hit.1.width == line[(2 * i + 1) as int].text.len()
            &&& hit.1.height == 1
        }),
{
    let label = seq![sp(field.label@, label_style(field.focused, field.greyed))];
    let spans = choice_spans(field, labels, labels.len());
    let line = label + spans;
    lemma_choice_spans(field, labels, i, labels.len());
    lemma_choice_hit(field, labels, area, i, labels.len());
    lemma_chars_after_label(label, spans, 2 * i);
    lemma_span_chars_prefix(choice_spans(field, labels, i), spans, 2 * i);
    lemma_choice_column(field, labels, area.x + field.offset, i);
}

/// `a` and `b` are settings of one format.
pub open spec fn same_format(a: FormatSettingsKind, b: FormatSettingsKind) -> bool {
    ||| a is Flac && b is Flac
    ||| a is Aac && b is Aac
    ||| a is Opus && b is Opus
    ||| a is Mp3 && b is Mp3
    ||| a is WavPack && b is WavPack
    ||| a is Ssrc && b is Ssrc
    ||| a is Sox && b is Sox
    ||| a is Soxr && b is Soxr
}

/// The box of a format is as wide in every state of its settings.
pub proof fn box_keeps_its_width(a: FormatSettingsKind, b: FormatSettingsKind)
    requires
        same_format(a, b),
    ensures
        widest_row(a) == widest_row(b),
{
}

} // verus!
