//! The format pane: output settings as rows of choices.

use crate::display_width::{line_width, width_of_line};
use crate::geometry::Rect;
use crate::panes::{bordered, bordered_line, bottom_edge, bottom_line};
use crate::pill::{
    all_pills, enabled_pills, render_enabled_pill_spans, render_pill_spans, PillState,
};
use crate::scene::{line1, line2, sp, text_op, Line, LineV, Rows, RowsV, Scene};
use crate::style::{bold, bold_fg, bright, dimmed, fg, muted, on, plain, Style, Tone};
use crate::text::{blanks, cat2, cat3, count, minus, plus, spaces};
use vstd::prelude::*;

verus! {

/// An audio format to convert to.
#[derive(Clone, Copy, Debug, PartialEq, Eq, Structural)]
pub enum AudioFormat {
    Flac,
    Alac,
    WavPack,
    Wav,
    Aiff,
    Aac,
    Opus,
    Mp3,
    Dsf,
    Dff,
}

/// A resampler.
#[derive(Clone, Copy, Debug, PartialEq, Eq, Structural)]
pub enum ResamplerChoice {
    Ssrc,
    Sox,
    Soxr,
    Off,
}

/// A setting of the format pane.
#[derive(Clone, Copy, Debug, PartialEq, Eq, Structural)]
pub enum FormatField {
    Format,
    DsdRate,
    SampleRate,
    BitDepth,
    Resampler,
    Dither,
    ReplayGain,
    NoiseShaper,
    ModulatorOrder,
    ConversionPreset,
    DsdPath,
    DsdProfile,
    DsdGain,
    DsdGainScope,
    DsdTruePeakScan,
    DsdGainDb,
    DsdNormalizeTarget,
    Container,
    ResampleQuality,
}

/// A row of the format pane.
#[derive(Clone, Copy, Debug, PartialEq, Eq, Structural)]
pub enum FormatPaneRow {
    Spacer,
    ResamplingHeader,
    Field(FormatField),
}

/// A choice with its own mark of being selected.
#[derive(Debug)]
pub struct Choice {
    pub label: String,
    pub selected: bool,
    pub enabled: bool,
}

/// The output settings.
#[derive(Debug)]
pub struct FormatState {
    pub field_focus: FormatField,
    /// The rows of the pane, and those of the pane at full size.
    pub pane_rows: Vec<FormatPaneRow>,
    pub maximized_pane_rows: Vec<FormatPaneRow>,
    pub format: PillState,
    pub selected_format: AudioFormat,
    pub sample_rate: PillState,
    pub bit_depth: PillState,
    pub resampler: PillState,
    pub selected_resampler: ResamplerChoice,
    pub dither: PillState,
    pub ssrc_dither_override_active: bool,
    pub ssrc_dither_status_label: Option<String>,
    pub replaygain: PillState,
    pub noise_shaper: PillState,
    pub modulator_order: PillState,
    pub conversion_preset: PillState,
    pub dsd_pathway: PillState,
    pub dsd_profile: PillState,
    pub dsd_gain_mode: PillState,
    pub dsd_auto_gain_scope: PillState,
    pub dsd_true_peak_scan_mode: PillState,
    /// Levels in decibels, in words.
    pub dsd_gain_db: String,
    pub dsd_normalize_target_dbfs: String,
    pub dsd_auto_gain_margin_db: String,
    pub dsd_reference_controls_available: bool,
    pub containers: Vec<Choice>,
    pub resample_qualities: Vec<Choice>,
    /// The presets of a lossy format.
    pub lossy_preset_labels: Option<Vec<String>>,
    pub lossy_preset_index: Option<usize>,
}

/// `spans` filled up with spaces and closed by a border stroke at column `width`.
pub open spec fn closed_row(border: Tone, width: int, spans: LineV) -> LineV {
    spans + seq![
        sp(blanks(minus(width, plus(width_of_line(spans), 1)) as nat), plain()),
        sp("│"@, fg(border)),
    ]
}

/// `spans` filled up with spaces and closed by a border stroke at column `width`.
pub fn close_row(border: Tone, width: usize, spans: Line) -> (r: Line)
    ensures
        r@ == closed_row(border, width as int, spans@),
{
    let used: usize = line_width(&spans);
    let gap = spaces(width.saturating_sub(used.saturating_add(1)));
    let mut line = spans;
    line.append(line2(gap.as_str(), plain(), "│", fg(border)));
    line
}

/// The style of a row's label.
#[verifier::allow_in_spec]
pub fn row_label_style(focused: bool) -> Style
    returns
        (if focused {
            bright()
        } else {
            muted()
        }),
{
    if focused {
        bright()
    } else {
        muted()
    }
}

/// A border stroke and a label, then choices.
pub open spec fn labelled_pills(border: Tone, label: Seq<char>, pills: LineV, focused: bool) -> LineV {
    seq![
        sp("│"@, fg(border)),
        sp("   "@ + label + "  "@, row_label_style(focused)),
    ] + pills
}

fn labelled_pill_line(border: Tone, label: &str, pills: Line, focused: bool) -> (r: Line)
    ensures
        r@ == labelled_pills(border, label@, pills@, focused),
{
    let text = cat3("   ", label, "  ");
    let mut line = line2("│", fg(border), text.as_str(), row_label_style(focused));
    line.append(pills);
    line
}

/// A row of choices with a label, and a unit behind them.
pub open spec fn pill_row_spans(
    border: Tone,
    width: int,
    label: Seq<char>,
    suffix: Seq<char>,
    pills: LineV,
    focused: bool,
) -> LineV {
    let row = labelled_pills(border, label, pills, focused);
    closed_row(
        border,
        width,
        if suffix.len() > 0 {
            row.push(sp("  "@, plain())).push(sp(suffix, muted()))
        } else {
            row
        },
    )
}

/// A row of choices with a label, and a unit behind them.
pub fn pill_row(border: Tone, width: usize, label: &str, suffix: &str, pills: Line, focused: bool) -> (r:
    Line)
    ensures
        r@ == pill_row_spans(border, width as int, label@, suffix@, pills@, focused),
{
    let mut line = labelled_pill_line(border, label, pills, focused);
    if !suffix.is_empty() {
        line.put("  ", plain());
        line.put(suffix, muted());
    }
    close_row(border, width, line)
}

/// A row of choices with a label, and a button for further settings at the right
/// edge where there is room for it.
pub open spec fn settings_row(
    border: Tone,
    width: int,
    label: Seq<char>,
    pills: LineV,
    focused: bool,
    name: Seq<char>,
) -> LineV {
    let row = labelled_pills(border, label, pills, focused);
    let button = " "@ + name + " settings "@;
    let needed = plus(plus(width_of_line(row), button.len() as int), 1);
    if plus(needed, 1) <= width {
        row + seq![
            sp(blanks((width - needed) as nat), plain()),
            sp(button, bold(on(Tone::PillActiveFg, Tone::Purple))),
            sp("│"@, fg(border)),
        ]
    } else {
        closed_row(border, width, row)
    }
}

/// A row of choices with a button for further settings at the right edge.
pub fn row_with_settings_pill(
    border: Tone,
    width: usize,
    label: &str,
    pills: Line,
    focused: bool,
    settings_name: &str,
) -> (r: Line)
    ensures
        r@ == settings_row(border, width as int, label@, pills@, focused, settings_name@),
{
    let button = cat3(" ", settings_name, " settings ");
    let mut row = labelled_pill_line(border, label, pills, focused);
    let needed: usize = line_width(&row).saturating_add(count(button.as_str())).saturating_add(1);
    if needed.saturating_add(1) <= width {
        let gap = spaces(width - needed);
        let mut tail = line2(
            gap.as_str(),
            plain(),
            button.as_str(),
            bold(on(Tone::PillActiveFg, Tone::Purple)),
        );
        tail.put("│", fg(border));
        row.append(tail);
        row
    } else {
        close_row(border, width, row)
    }
}

/// The container row with a button for the format's settings.
pub fn container_row_with_settings_pill(
    border: Tone,
    width: usize,
    pills: Line,
    focused: bool,
    settings_name: &str,
) -> (r: Line)
    ensures
        r@ == settings_row(border, width as int, "container  "@, pills@, focused, settings_name@),
{
    row_with_settings_pill(border, width, "container  ", pills, focused, settings_name)
}

/// The style of a control that steps a level.
#[verifier::allow_in_spec]
pub fn step_style(focused: bool) -> Style
    returns
        (if focused {
            bold(bright())
        } else {
            muted()
        }),
{
    if focused {
        bold(bright())
    } else {
        muted()
    }
}

/// A level in decibels with its controls.
pub open spec fn db_spans(border: Tone, label: Seq<char>, value: Seq<char>, focused: bool) -> LineV {
    seq![
        sp("│"@, fg(border)),
        sp("   "@ + label, row_label_style(focused)),
        sp("< "@, step_style(focused)),
        sp(value + " dB"@, step_style(focused)),
        sp(" >"@, step_style(focused)),
        sp("  "@, plain()),
        sp("left/right adjust"@, muted()),
    ]
}

/// A level in decibels that can be stepped up and down.
pub open spec fn db_row(border: Tone, width: int, label: Seq<char>, value: Seq<char>, focused: bool) -> LineV {
    closed_row(border, width, db_spans(border, label, value, focused))
}

/// A level in decibels that can be stepped up and down.
pub fn dsd_db_value_row(border: Tone, width: usize, label: &str, value: &str, focused: bool) -> (r: Line)
    ensures
        r@ == db_row(border, width as int, label@, value@, focused),
{
    let control = step_style(focused);
    let mut line = line2(
        "│",
        fg(border),
        cat2("   ", label).as_str(),
        row_label_style(focused),
    );
    line.put("< ", control);
    line.put(cat2(value, " dB").as_str(), control);
    line.put(" >", control);
    line.put("  ", plain());
    line.put("left/right adjust", muted());
    proof {
        assert(line@ =~= db_spans(border, label@, value@, focused));
    }
    close_row(border, width, line)
}

/// The style of a choice in a row without a pill state.
#[verifier::allow_in_spec]
pub fn listed_style(enabled: bool, selected: bool, focused: bool) -> Style
    returns
        (if !enabled {
            dimmed()
        } else if selected && focused {
            bold(on(Tone::PillActiveFg, Tone::Green))
        } else if selected {
            bold_fg(Tone::Green)
        } else {
            dimmed()
        }),
{
    if !enabled {
        dimmed()
    } else if selected && focused {
        bold(on(Tone::PillActiveFg, Tone::Green))
    } else if selected {
        bold_fg(Tone::Green)
    } else {
        dimmed()
    }
}

/// The first `n` choices, one column apart.
pub open spec fn choice_spans(choices: Seq<Choice>, focused: bool, n: nat) -> LineV
    decreases n,
{
    if n == 0 || n > choices.len() {
        Seq::empty()
    } else {
        let choice = choices[n - 1];
        let front = choice_spans(choices, focused, (n - 1) as nat).push(
            sp(
                " "@ + choice.label@ + " "@,
                listed_style(choice.enabled, choice.selected, focused),
            ),
        );
        if n < choices.len() {
            front.push(sp(" "@, plain()))
        } else {
            front
        }
    }
}

fn choice_line(choices: &Vec<Choice>, focused: bool) -> (r: Line)
    ensures
        r@ == choice_spans(choices@, focused, choices@.len()),
{
    let mut line = Line::new();
    for i in 0..choices.len()
        invariant
            line@ == choice_spans(choices@, focused, i as nat),
    {
        let choice = &choices[i];
        line.put(
            cat3(" ", choice.label.as_str(), " ").as_str(),
            listed_style(choice.enabled, choice.selected, focused),
        );
        if i + 1 < choices.len() {
            line.put(" ", plain());
        }
    }
    line
}

/// The first `n` presets of a lossy format, one column apart.
pub open spec fn preset_spans(labels: Seq<String>, selected: int, focused: bool, n: nat) -> LineV
    decreases n,
{
    if n == 0 || n > labels.len() {
        Seq::empty()
    } else {
        let front = preset_spans(labels, selected, focused, (n - 1) as nat).push(
            sp(" "@ + labels[n - 1]@ + " "@, listed_style(true, n - 1 == selected, focused)),
        );
        if n < labels.len() {
            front.push(sp(" "@, plain()))
        } else {
            front
        }
    }
}

/// The selected preset: the last one where none is set.
pub open spec fn selected_preset(state: FormatState, labels: Seq<String>) -> int {
    match state.lossy_preset_index {
        Some(index) => index as int,
        None => minus(labels.len() as int, 1),
    }
}

/// The presets of a lossy format, where it has any.
pub fn lossy_preset_spans(state: &FormatState, focused: bool) -> (r: Option<Line>)
    ensures
        match (r, state.lossy_preset_labels) {
            (Some(line), Some(labels)) => line@ == preset_spans(
                labels@,
                selected_preset(*state, labels@),
                focused,
                labels@.len(),
            ),
            (None, None) => true,
            _ => false,
        },
{
    match &state.lossy_preset_labels {
        Some(labels) => {
            let selected: usize = match state.lossy_preset_index {
                Some(index) => index,
                None => labels.len().saturating_sub(1),
            };
            let mut line = Line::new();
            for i in 0..labels.len()
                invariant
                    selected == selected_preset(*state, labels@),
                    line@ == preset_spans(labels@, selected as int, focused, i as nat),
            {
                line.put(
                    cat3(" ", labels[i].as_str(), " ").as_str(),
                    listed_style(true, i == selected, focused),
                );
                if i + 1 < labels.len() {
                    line.put(" ", plain());
                }
            }
            Some(line)
        },
        None => None,
    }
}

/// `spans` in the dim colour.
pub open spec fn dim_spans(spans: LineV) -> LineV {
    Seq::new(spans.len(), |i: int| sp(spans[i].text, dimmed()))
}

/// `spans` in the dim colour.
pub fn dim_pill_spans(spans: &Line) -> (r: Line)
    ensures
        r@ == dim_spans(spans@),
{
    let mut line = Line::new();
    for i in 0..spans.spans.len()
        invariant
            line@ =~= dim_spans(spans@.take(i as int)),
            i <= spans@.len() == spans.spans@.len(),
    {
        line.put(spans.spans[i].text.as_str(), dimmed());
    }
    proof {
        assert(spans@.take(spans@.len() as int) =~= spans@);
    }
    line
}

/// The button name of a format that has settings.
pub open spec fn settings_name(format: AudioFormat) -> Option<Seq<char>> {
    match format {
        AudioFormat::Flac => Some("flac"@),
        AudioFormat::Aac => Some("aac"@),
        AudioFormat::Opus => Some("opus"@),
        AudioFormat::Mp3 => Some("mp3"@),
        AudioFormat::WavPack => Some("wavpack"@),
        _ => None,
    }
}

/// The button name of a resampler that has settings.
pub open spec fn resampler_name(resampler: ResamplerChoice) -> Option<Seq<char>> {
    match resampler {
        ResamplerChoice::Ssrc => Some("ssrc"@),
        ResamplerChoice::Sox => Some("sox"@),
        ResamplerChoice::Soxr => Some("soxr"@),
        ResamplerChoice::Off => None,
    }
}

fn name_of_settings(format: AudioFormat) -> (r: Option<&'static str>)
    ensures
        match r {
            Some(name) => settings_name(format) == Some(name@),
            None => settings_name(format) is None,
        },
{
    match format {
        AudioFormat::Flac => Some("flac"),
        AudioFormat::Aac => Some("aac"),
        AudioFormat::Opus => Some("opus"),
        AudioFormat::Mp3 => Some("mp3"),
        AudioFormat::WavPack => Some("wavpack"),
        _ => None,
    }
}

fn name_of_resampler(resampler: ResamplerChoice) -> (r: Option<&'static str>)
    ensures
        match r {
            Some(name) => resampler_name(resampler) == Some(name@),
            None => resampler_name(resampler) is None,
        },
{
    match resampler {
        ResamplerChoice::Ssrc => Some("ssrc"),
        ResamplerChoice::Sox => Some("sox"),
        ResamplerChoice::Soxr => Some("soxr"),
        ResamplerChoice::Off => None,
    }
}

/// The bit depth row; a lossy format has presets there.
pub open spec fn depth_row(state: FormatState, border: Tone, w: int, focused: bool) -> LineV {
    match state.lossy_preset_labels {
        Some(labels) => pill_row_spans(
            border,
            w,
            "preset     "@,
            ""@,
            preset_spans(labels@, selected_preset(state, labels@), focused, labels@.len()),
            focused,
        ),
        None => pill_row_spans(
            border,
            w,
            "bit depth  "@,
            "bit"@,
            all_pills(state.bit_depth, focused),
            focused,
        ),
    }
}

/// The dither row, which is dimmed while the resampler dithers.
pub open spec fn dither_row(state: FormatState, border: Tone, w: int, focused: bool) -> LineV {
    let taken = state.ssrc_dither_override_active;
    let pills = all_pills(state.dither, focused && !taken);
    pill_row_spans(
        border,
        w,
        "dither     "@,
        match state.ssrc_dither_status_label {
            Some(label) => label@,
            None => ""@,
        },
        if taken { dim_spans(pills) } else { pills },
        focused && !taken,
    )
}

/// The container row.
pub open spec fn container_row(state: FormatState, border: Tone, w: int, focused: bool) -> LineV {
    let pills = choice_spans(state.containers@, focused, state.containers@.len());
    match settings_name(state.selected_format) {
        Some(name) => settings_row(border, w, "container  "@, pills, focused, name),
        None => pill_row_spans(border, w, "container  "@, ""@, pills, focused),
    }
}

/// The resampler's preset row.
pub open spec fn quality_row(state: FormatState, border: Tone, w: int, focused: bool) -> LineV {
    let pills = choice_spans(state.resample_qualities@, focused, state.resample_qualities@.len());
    match resampler_name(state.selected_resampler) {
        Some(name) => settings_row(border, w, "preset     "@, pills, focused, name),
        None => pill_row_spans(border, w, "preset     "@, ""@, pills, focused),
    }
}

/// A plain row of choices of the format pane.
pub open spec fn plain_row(border: Tone, w: int, label: Seq<char>, suffix: Seq<char>, pills: PillState, focused: bool) -> LineV {
    pill_row_spans(border, w, label, suffix, all_pills(pills, focused), focused)
}

/// The row of one setting.
pub open spec fn field_row(state: FormatState, field: FormatField, border: Tone, w: int, focused: bool) -> LineV {
    match field {
        FormatField::Format => plain_row(border, w, "format     "@, ""@, state.format, focused),
        FormatField::DsdRate => plain_row(border, w, "DSD rate   "@, ""@, state.sample_rate, focused),
        FormatField::SampleRate => plain_row(
            border,
            w,
            "sample rate"@,
            "kHz"@,
            state.sample_rate,
            focused,
        ),
        FormatField::BitDepth => depth_row(state, border, w, focused),
        FormatField::Resampler => plain_row(
            border,
            w,
            "resampler  "@,
            ""@,
            state.resampler,
            focused,
        ),
        FormatField::Dither => dither_row(state, border, w, focused),
        FormatField::ReplayGain => plain_row(
            border,
            w,
            "replaygain "@,
            ""@,
            state.replaygain,
            focused,
        ),
        FormatField::NoiseShaper => plain_row(
            border,
            w,
            "noise sh.  "@,
            ""@,
            state.noise_shaper,
            focused,
        ),
        FormatField::ModulatorOrder => plain_row(
            border,
            w,
            "mod order  "@,
            ""@,
            state.modulator_order,
            focused,
        ),
        FormatField::ConversionPreset => plain_row(
            border,
            w,
            "preset     "@,
            ""@,
            state.conversion_preset,
            focused,
        ),
        FormatField::DsdPath => plain_row(border, w, "DSD path   "@, ""@, state.dsd_pathway, focused),
        FormatField::DsdProfile => plain_row(
            border,
            w,
            "DSD profile"@,
            ""@,
            state.dsd_profile,
            focused,
        ),
        FormatField::DsdGain => pill_row_spans(
            border,
            w,
            "DSD gain   "@,
            ""@,
            enabled_pills(state.dsd_gain_mode, focused),
            focused,
        ),
        FormatField::DsdGainScope => plain_row(
            border,
            w,
            "gain scope "@,
            ""@,
            state.dsd_auto_gain_scope,
            focused,
        ),
        FormatField::DsdTruePeakScan => plain_row(
            border,
            w,
            "TP underread"@,
            ""@,
            state.dsd_true_peak_scan_mode,
            focused,
        ),
        FormatField::DsdGainDb => db_row(border, w, "gain dB    "@, state.dsd_gain_db@, focused),
        FormatField::DsdNormalizeTarget => if state.dsd_reference_controls_available {
            db_row(border, w, "normalize  "@, state.dsd_normalize_target_dbfs@, focused)
        } else {
            db_row(border, w, "auto margin"@, state.dsd_auto_gain_margin_db@, focused)
        },
        FormatField::Container => container_row(state, border, w, focused),
        FormatField::ResampleQuality => quality_row(state, border, w, focused),
    }
}

fn plain_line(border: Tone, w: usize, label: &str, suffix: &str, pills: &PillState, focused: bool) -> (r: Line)
    ensures
        r@ == plain_row(border, w as int, label@, suffix@, *pills, focused),
{
    pill_row(border, w, label, suffix, render_pill_spans(pills, focused), focused)
}

fn depth_line(state: &FormatState, border: Tone, w: usize, focused: bool) -> (r: Line)
    ensures
        r@ == depth_row(*state, border, w as int, focused),
{
    match lossy_preset_spans(state, focused) {
        Some(presets) => pill_row(border, w, "preset     ", "", presets, focused),
        None => plain_line(border, w, "bit depth  ", "bit", &state.bit_depth, focused),
    }
}

fn dither_line(state: &FormatState, border: Tone, w: usize, focused: bool) -> (r: Line)
    ensures
        r@ == dither_row(*state, border, w as int, focused),
{
    let taken = state.ssrc_dither_override_active;
    let pills = render_pill_spans(&state.dither, focused && !taken);
    let suffix = match &state.ssrc_dither_status_label {
        Some(label) => label.as_str(),
        None => "",
    };
    let shown = if taken { dim_pill_spans(&pills) } else { pills };
    pill_row(border, w, "dither     ", suffix, shown, focused && !taken)
}

fn container_line(state: &FormatState, border: Tone, w: usize, focused: bool) -> (r: Line)
    ensures
        r@ == container_row(*state, border, w as int, focused),
{
    let pills = choice_line(&state.containers, focused);
    match name_of_settings(state.selected_format) {
        Some(name) => container_row_with_settings_pill(border, w, pills, focused, name),
        None => pill_row(border, w, "container  ", "", pills, focused),
    }
}

fn quality_line(state: &FormatState, border: Tone, w: usize, focused: bool) -> (r: Line)
    ensures
        r@ == quality_row(*state, border, w as int, focused),
{
    let pills = choice_line(&state.resample_qualities, focused);
    match name_of_resampler(state.selected_resampler) {
        Some(name) => row_with_settings_pill(border, w, "preset     ", pills, focused, name),
        None => pill_row(border, w, "preset     ", "", pills, focused),
    }
}

fn field_line(state: &FormatState, field: FormatField, b: Tone, w: usize, on_row: bool) -> (r: Line)
    ensures
        r@ == field_row(*state, field, b, w as int, on_row),
{
    match field {
        FormatField::Format => plain_line(b, w, "format     ", "", &state.format, on_row),
        FormatField::DsdRate => plain_line(b, w, "DSD rate   ", "", &state.sample_rate, on_row),
        FormatField::SampleRate => plain_line(
            b,
            w,
            "sample rate",
            "kHz",
            &state.sample_rate,
            on_row,
        ),
        FormatField::BitDepth => depth_line(state, b, w, on_row),
        FormatField::Resampler => plain_line(b, w, "resampler  ", "", &state.resampler, on_row),
        FormatField::Dither => dither_line(state, b, w, on_row),
        FormatField::ReplayGain => plain_line(b, w, "replaygain ", "", &state.replaygain, on_row),
        FormatField::NoiseShaper => plain_line(b, w, "noise sh.  ", "", &state.noise_shaper, on_row),
        FormatField::ModulatorOrder => plain_line(
            b,
            w,
            "mod order  ",
            "",
            &state.modulator_order,
            on_row,
        ),
        FormatField::ConversionPreset => plain_line(
            b,
            w,
            "preset     ",
            "",
            &state.conversion_preset,
            on_row,
        ),
        FormatField::DsdPath => plain_line(b, w, "DSD path   ", "", &state.dsd_pathway, on_row),
        FormatField::DsdProfile => plain_line(b, w, "DSD profile", "", &state.dsd_profile, on_row),
        FormatField::DsdGain => pill_row(
            b,
            w,
            "DSD gain   ",
            "",
            render_enabled_pill_spans(&state.dsd_gain_mode, on_row),
            on_row,
        ),
        FormatField::DsdGainScope => plain_line(
            b,
            w,
            "gain scope ",
            "",
            &state.dsd_auto_gain_scope,
            on_row,
        ),
        FormatField::DsdTruePeakScan => plain_line(
            b,
            w,
            "TP underread",
            "",
            &state.dsd_true_peak_scan_mode,
            on_row,
        ),
        FormatField::DsdGainDb => dsd_db_value_row(
            b,
            w,
            "gain dB    ",
            state.dsd_gain_db.as_str(),
            on_row,
        ),
        FormatField::DsdNormalizeTarget => if state.dsd_reference_controls_available {
            dsd_db_value_row(
                b,
                w,
                "normalize  ",
                state.dsd_normalize_target_dbfs.as_str(),
                on_row,
            )
        } else {
            dsd_db_value_row(b, w, "auto margin", state.dsd_auto_gain_margin_db.as_str(), on_row)
        },
        FormatField::Container => container_line(state, b, w, on_row),
        FormatField::ResampleQuality => quality_line(state, b, w, on_row),
    }
}

/// One row of the pane.
pub open spec fn pane_row(state: FormatState, row: FormatPaneRow, border: Tone, w: int, focused: bool) -> LineV {
    match row {
        FormatPaneRow::Spacer => bordered(border, w, Seq::empty()),
        FormatPaneRow::ResamplingHeader => bordered(
            border,
            w,
            seq![sp("   resampling"@, row_label_style(focused))],
        ),
        FormatPaneRow::Field(field) => field_row(
            state,
            field,
            border,
            w,
            focused && state.field_focus == field,
        ),
    }
}

fn pane_line(state: &FormatState, row: FormatPaneRow, border: Tone, w: usize, focused: bool) -> (r: Line)
    ensures
        r@ == pane_row(*state, row, border, w as int, focused),
{
    match row {
        FormatPaneRow::Spacer => bordered_line(border, w, Line::new()),
        FormatPaneRow::ResamplingHeader => bordered_line(
            border,
            w,
            line1("   resampling", row_label_style(focused)),
        ),
        FormatPaneRow::Field(field) => field_line(
            state,
            field,
            border,
            w,
            focused && state.field_focus == field,
        ),
    }
}

/// The left end of the title bar.
pub open spec fn title_left(border: Tone, maximized: bool) -> LineV {
    seq![
        sp("┌"@, fg(border)),
        sp(
            " "@ + (if maximized { "▾"@ } else { "▸"@ }) + " format "@,
            on(Tone::Bg, border),
        ),
    ]
}

/// The right end of the title bar: the key that shows more settings.
pub open spec fn title_right(border: Tone) -> LineV {
    seq![
        sp("a"@, on(Tone::TextMuted, border)),
        sp("dvanced "@, on(Tone::Bg, border)),
        sp("┐"@, fg(border)),
    ]
}

/// The title bar of the pane.
pub open spec fn title_spans(border: Tone, width: int, maximized: bool) -> LineV {
    let left = title_left(border, maximized);
    let right = title_right(border);
    let fixed = plus(width_of_line(left), width_of_line(right));
    left.push(sp(blanks(minus(width, fixed) as nat), on(Tone::Bg, border))) + right
}

/// The title bar of the pane.
pub fn format_title_line(border: Tone, width: usize, maximized: bool) -> (r: Line)
    ensures
        r@ == title_spans(border, width as int, maximized),
{
    let bar = on(Tone::Bg, border);
    let mark = if maximized { "▾" } else { "▸" };
    let mut left = line2("┌", fg(border), cat3(" ", mark, " format ").as_str(), bar);
    let mut right = line2("a", on(Tone::TextMuted, border), "dvanced ", bar);
    right.put("┐", fg(border));
    proof {
        assert(left@ =~= title_left(border, maximized));
        assert(right@ =~= title_right(border));
    }
    let fixed: usize = line_width(&left).saturating_add(line_width(&right));
    left.put(spaces(width.saturating_sub(fixed)).as_str(), bar);
    left.append(right);
    proof {
        assert(left@ =~= title_spans(border, width as int, maximized));
    }
    left
}

/// The colour of the pane's border.
#[verifier::allow_in_spec]
pub fn format_border(focused: bool) -> Tone
    returns
        (if focused {
            Tone::Green
        } else {
            Tone::TextDim
        }),
{
    if focused {
        Tone::Green
    } else {
        Tone::TextDim
    }
}

/// The first `n` rows of the pane.
pub open spec fn pane_rows(
    state: FormatState,
    rows: Seq<FormatPaneRow>,
    border: Tone,
    w: int,
    focused: bool,
    n: nat,
) -> RowsV
    decreases n,
{
    if n == 0 || n > rows.len() {
        Seq::empty()
    } else {
        pane_rows(state, rows, border, w, focused, (n - 1) as nat).push(
            pane_row(state, rows[n - 1], border, w, focused),
        )
    }
}

fn pane_lines(state: &FormatState, rows: &Vec<FormatPaneRow>, border: Tone, w: usize, focused: bool) -> (r:
    Rows)
    ensures
        r@ == pane_rows(*state, rows@, border, w as int, focused, rows@.len()),
{
    let mut out = Rows::new();
    for i in 0..rows.len()
        invariant
            out@ == pane_rows(*state, rows@, border, w as int, focused, i as nat),
    {
        out.push(pane_line(state, rows[i], border, w, focused));
    }
    out
}

/// The rows that the pane shows.
pub open spec fn shown_rows(state: FormatState, maximized: bool) -> Seq<FormatPaneRow> {
    if maximized {
        state.maximized_pane_rows@
    } else {
        state.pane_rows@
    }
}

/// The pane, line by line: title bar, settings, empty lines down to the last row of
/// the area (at least one), bottom edge.
pub open spec fn format_lines(state: FormatState, area: Rect, focused: bool, maximized: bool) -> RowsV {
    let border = format_border(focused);
    let w = area.width as int;
    let rows = shown_rows(state, maximized);
    let empty = bordered(border, w, Seq::empty());
    let top = seq![title_spans(border, w, maximized)] + pane_rows(
        state,
        rows,
        border,
        w,
        focused,
        rows.len(),
    ) + seq![empty];
    top + Seq::new(
        minus(minus(area.height as int, 1), top.len() as int) as nat,
        |i: int| empty,
    ) + seq![bottom_edge(border, w)]
}

/// `count` empty lines inside the border.
pub fn blank_lines(border: Tone, width: usize, count: usize) -> (r: Rows)
    ensures
        r@ == Seq::new(count as nat, |i: int| bordered(border, width as int, Seq::empty())),
{
    let mut rows = Rows::new();
    for i in 0..count
        invariant
            rows@ =~= Seq::new(i as nat, |j: int| bordered(border, width as int, Seq::empty())),
    {
        rows.push(bordered_line(border, width, Line::new()));
    }
    rows
}

/// The format pane is shown only in an area of at least this size.
pub open spec fn format_fits(area: Rect) -> bool {
    area.height >= 6 && area.width >= 30
}

/// Draws the format pane.
pub fn draw_format_pane(
    f: &mut Scene,
    area: Rect,
    format_state: &FormatState,
    focused: bool,
    maximized: bool,
)
    ensures
        final(f)@ == if format_fits(area) {
            old(f)@.push(
                text_op(area, format_lines(*format_state, area, focused, maximized), plain()),
            )
        } else {
            old(f)@
        },
{
    if area.height < 6 || area.width < 30 {
        return;
    }
    let border = format_border(focused);
    let w: usize = area.width as usize;
    let rows = if maximized {
        &format_state.maximized_pane_rows
    } else {
        &format_state.pane_rows
    };
    let mut lines = Rows::of(format_title_line(border, w, maximized));
    lines.append(pane_lines(format_state, rows, border, w, focused));
    lines.append(Rows::of(bordered_line(border, w, Line::new())));
    let target: usize = area.height.saturating_sub(1) as usize;
    let missing: usize = target.saturating_sub(lines.len());
    lines.append(blank_lines(border, w, missing));
    lines.append(Rows::of(bottom_line(border, w)));
    proof {
        assert(lines@ =~= format_lines(*format_state, area, focused, maximized));
    }
    f.text(area, lines, plain());
}

/// Draws the collapsed format pane: its title bar alone.
pub fn draw_format_title_bar(f: &mut Scene, area: Rect, focused: bool)
    ensures
        final(f)@ == if area.height >= 1 && area.width >= 12 {
            old(f)@.push(
                text_op(
                    area,
                    seq![title_spans(format_border(focused), area.width as int, false)],
                    plain(),
                ),
            )
        } else {
            old(f)@
        },
{
    if area.height < 1 || area.width < 12 {
        return;
    }
    let border = format_border(focused);
    f.text(area, Rows::of(format_title_line(border, area.width as usize, false)), plain());
}

} // verus!
