//! The settings of a conversion: every row shows its own setting, and a click there goes to it.

use crate::display_width::shown_width;
use crate::draw_output::{
    choice_spans, field_row, format_lines, pane_rows, pill_row_spans, preset_spans, shown_rows,
    Choice, FormatField, FormatPaneRow, FormatState,
};
use crate::draw_output_options::{
    actions_text, option_lines, options_scene, OutputOptionsField, OutputOptionsState,
};
use crate::geometry::Rect;
use crate::laws::reports::how_many;
use crate::pill::{
    all_pills, enabled_count, enabled_pills, enabled_spans, option_spans, pill_spans, PillOption,
    PillState,
};
use crate::scene::{LineV, OpV};
use crate::size::estimate_text;
use crate::style::Tone;
use crate::text::decimal;
use vstd::prelude::*;

verus! {

/// Option `i` stands at place `at` of the line, in its own words, and it is marked exactly if it
/// is the one selected and can be chosen.
pub open spec fn shows_choice(line: LineV, at: int, pills: PillState, i: int) -> bool {
    let option = pills.options@[i];
    &&& 0 <= at < line.len()
    &&& line[at].text == " "@ + option.label@ + " "@
    &&& (line[at].style.bg == Tone::PillActiveBg <==> option.enabled && pills.selected == i)
}

proof fn lemma_pills(state: PillState, focused: bool, n: nat)
    requires
        n <= state.options@.len(),
    ensures
        pill_spans(state, focused, n).len() == if n == 0 { 0int } else { 2 * n - 1 },
        forall|i: int|
            0 <= i < n ==> #[trigger] pill_spans(state, focused, n)[2 * i] == option_spans(
                state,
                i,
                true,
                focused,
            )[0],
    decreases n,
{
    if n > 0 {
        lemma_pills(state, focused, (n - 1) as nat);
        let front = pill_spans(state, focused, (n - 1) as nat);
        let all = pill_spans(state, focused, n);
        assert forall|i: int| 0 <= i < n implies #[trigger] all[2 * i] == option_spans(
            state,
            i,
            true,
            focused,
        )[0] by {
            if i < n - 1 {
                assert(all[2 * i] == front[2 * i]);
            }
        }
    }
}

/// A row of choices shows every option once, in order, and marks the one selected.
pub proof fn every_choice_is_shown(state: PillState, focused: bool, i: int)
    requires
        0 <= i < state.options@.len(),
    ensures
        all_pills(state, focused).len() == 2 * state.options@.len() - 1,
        shows_choice(all_pills(state, focused), 2 * i, state, i),
{
    lemma_pills(state, focused, state.options@.len());
    assert(pill_spans(state, focused, state.options@.len())[2 * i] == option_spans(
        state,
        i,
        true,
        focused,
    )[0]);
}

proof fn lemma_enabled(state: PillState, focused: bool, n: nat)
    requires
        n <= state.options@.len(),
    ensures
        enabled_count(state, n) == how_many(
            state.options@.take(n as int),
            |o: PillOption| o.enabled,
        ),
        enabled_spans(state, focused, n).len() == if enabled_count(state, n) == 0 {
            0int
        } else {
            2 * enabled_count(state, n) - 1
        },
    decreases n,
{
    reveal(Seq::filter);
    if n > 0 {
        lemma_enabled(state, focused, (n - 1) as nat);
        assert(state.options@.take(n as int).drop_last() =~= state.options@.take(n - 1));
        assert(state.options@.take(n as int).last() == state.options@[n - 1]);
    } else {
        assert(state.options@.take(0) =~= Seq::empty());
    }
}

proof fn lemma_enabled_at(state: PillState, focused: bool, n: nat, i: int)
    requires
        0 <= i < n <= state.options@.len(),
        state.options@[i].enabled,
    ensures
        enabled_count(state, i as nat) < enabled_count(state, n),
        enabled_spans(state, focused, n)[2 * enabled_count(state, i as nat) as int]
            == option_spans(state, i, true, focused)[0],
    decreases n,
{
    let at = 2 * enabled_count(state, i as nat) as int;
    let front = enabled_spans(state, focused, (n - 1) as nat);
    lemma_enabled(state, focused, (n - 1) as nat);
    if i < n - 1 {
        lemma_enabled_at(state, focused, (n - 1) as nat, i);
        assert(enabled_spans(state, focused, n)[at] == front[at]);
    }
}

/// A row that leaves out what cannot be chosen shows every other option once, in order: option
/// `i` behind as many as can be chosen before it.
pub proof fn choices_that_are_off_are_left_out(state: PillState, focused: bool, i: int)
    requires
        0 <= i < state.options@.len(),
        state.options@[i].enabled,
    ensures
        enabled_pills(state, focused).len() == 2 * how_many(
            state.options@,
            |o: PillOption| o.enabled,
        ) - 1,
        shows_choice(
            enabled_pills(state, focused),
            2 * how_many(state.options@.take(i), |o: PillOption| o.enabled) as int,
            state,
            i,
        ),
{
    let n = state.options@.len();
    lemma_enabled(state, focused, n);
    lemma_enabled(state, focused, i as nat);
    assert(state.options@.take(n as int) =~= state.options@);
    lemma_enabled_at(state, focused, n, i);
}

/// The row of a field, counted from the top edge of the pane.
pub open spec fn options_row(field: OutputOptionsField) -> int {
    match field {
        OutputOptionsField::DestPath => 1,
        OutputOptionsField::FolderTemplate => 2,
        OutputOptionsField::FilenameTemplate => 3,
        OutputOptionsField::MergeMode => 4,
        OutputOptionsField::CompanionExtensions => 8,
        OutputOptionsField::CompanionFolders => 9,
        OutputOptionsField::ExcludeFiles => 10,
        OutputOptionsField::ForceEncode => 13,
        OutputOptionsField::DiscSubfolders => 14,
        OutputOptionsField::WriteLog => 15,
        OutputOptionsField::Actions => 18,
    }
}

/// The text that a field holds, for the fields that hold text.
pub open spec fn options_text(opts: OutputOptionsState, field: OutputOptionsField) -> Option<
    Seq<char>,
> {
    match field {
        OutputOptionsField::DestPath => Some(
            match opts.dest_path {
                Some(path) => path@,
                None => ""@,
            },
        ),
        OutputOptionsField::FolderTemplate => Some(opts.folder_template@),
        OutputOptionsField::FilenameTemplate => Some(opts.filename_template@),
        OutputOptionsField::CompanionExtensions => Some(opts.companion_extensions@),
        OutputOptionsField::CompanionFolders => Some(opts.companion_folders@),
        OutputOptionsField::ExcludeFiles => Some(opts.companion_exclude_files@),
        _ => None,
    }
}

/// The choices of a field, for the fields that are a choice.
pub open spec fn options_choices(opts: OutputOptionsState, field: OutputOptionsField) -> Option<
    PillState,
> {
    match field {
        OutputOptionsField::MergeMode => Some(opts.merge),
        OutputOptionsField::ForceEncode => Some(opts.force_encode),
        OutputOptionsField::DiscSubfolders => Some(opts.disc_subfolders),
        OutputOptionsField::WriteLog => Some(opts.write_log),
        _ => None,
    }
}

/// What stands before the value of a field.
pub open spec fn options_label(field: OutputOptionsField) -> Seq<char> {
    match field {
        OutputOptionsField::DestPath => "   dest        "@,
        OutputOptionsField::FolderTemplate => "   folder      "@,
        OutputOptionsField::FilenameTemplate => "   filename    "@,
        OutputOptionsField::MergeMode => "   "@ + "merge      "@ + "  "@,
        OutputOptionsField::CompanionExtensions => "   extensions  "@,
        OutputOptionsField::CompanionFolders => "   folders     "@,
        OutputOptionsField::ExcludeFiles => "   exclude     "@,
        OutputOptionsField::ForceEncode => "   "@ + "force enc "@ + "  "@,
        OutputOptionsField::DiscSubfolders => "   "@ + "disc dirs "@ + "  "@,
        OutputOptionsField::WriteLog => "   "@ + "write log  "@ + "  "@,
        OutputOptionsField::Actions => "   pipeline    "@,
    }
}

/// A pane of this size has the row of the field.
pub open spec fn options_has(
    area: Rect,
    maximized: bool,
    show_actions: bool,
    field: OutputOptionsField,
) -> bool {
    match field {
        OutputOptionsField::DestPath | OutputOptionsField::FolderTemplate
        | OutputOptionsField::FilenameTemplate | OutputOptionsField::MergeMode => true,
        OutputOptionsField::CompanionExtensions | OutputOptionsField::CompanionFolders => maximized
            && area.height >= 11,
        OutputOptionsField::ExcludeFiles => maximized && area.height >= 12,
        OutputOptionsField::ForceEncode | OutputOptionsField::DiscSubfolders
        | OutputOptionsField::WriteLog => maximized && area.height >= 17,
        OutputOptionsField::Actions => maximized && show_actions && area.height >= 20,
    }
}

/// The columns of a field's text.
pub open spec fn options_columns(area: Rect, field: OutputOptionsField) -> int {
    if field == OutputOptionsField::FolderTemplate || field == OutputOptionsField::FilenameTemplate {
        if area.width >= 34 { area.width - 34 } else { 0 }
    } else {
        if area.width >= 17 { area.width - 17 } else { 0 }
    }
}

/// A text setting is shown on its own row as it is, where it fits; while it is edited, the row
/// shows what the editor shows. The label of the row in focus alone stands out.
pub proof fn every_text_setting_is_on_its_row(
    area: Rect,
    opts: OutputOptionsState,
    estimated: Option<u64>,
    focused: bool,
    maximized: bool,
    show_actions: bool,
    field: OutputOptionsField,
)
    requires
        options_has(area, maximized, show_actions, field),
        options_text(opts, field) is Some,
    ensures
        ({
            let lines = option_lines(area, opts, estimated, focused, maximized, show_actions);
            let line = lines[options_row(field)];
            let value = options_text(opts, field)->0;
            &&& line[1].text == options_label(field)
            &&& (line[1].style.fg == Tone::TextBright <==> focused && opts.field_focus == field)
            &&& (opts.editing != Some(field) && shown_width(value) <= options_columns(area, field)
                ==> line[2].text == value)
            &&& (opts.editing == Some(field) ==> opts.edit_input.window(
                options_columns(area, field),
            ).is_prefix_of(line[2].text))
        }),
{
    reveal_strlit("   dest        ");
    reveal_strlit("   extensions  ");
    reveal_strlit("   folders     ");
    reveal_strlit("   exclude     ");
    reveal_strlit("");
    assert(""@ =~= Seq::<char>::empty());
    crate::draw_output_options::rows_agree_with_targets(
        area,
        opts,
        estimated,
        focused,
        maximized,
        show_actions,
    );
    crate::laws::editing::field_shows_its_value(
        options_text(opts, field)->0,
        opts.editing == Some(field),
        opts.edit_input,
        focused && opts.field_focus == field,
        options_columns(area, field),
    );
}

proof fn lemma_pill_row(
    border: Tone,
    w: int,
    label: Seq<char>,
    suffix: Seq<char>,
    pills: PillState,
    focused: bool,
    i: int,
)
    requires
        0 <= i < pills.options@.len(),
    ensures
        ({
            let line = pill_row_spans(border, w, label, suffix, all_pills(pills, focused), focused);
            &&& line[1].text == "   "@ + label + "  "@
            &&& (line[1].style.fg == Tone::TextBright <==> focused)
            &&& shows_choice(line, 2 + 2 * i, pills, i)
        }),
{
    let line = pill_row_spans(border, w, label, suffix, all_pills(pills, focused), focused);
    every_choice_is_shown(pills, focused, i);
    assert(line[2 + 2 * i] == all_pills(pills, focused)[2 * i]);
}

/// A choice is shown on its own row with all its options, and the one selected is marked. The
/// label of the row in focus alone stands out.
pub proof fn every_choice_setting_is_on_its_row(
    area: Rect,
    opts: OutputOptionsState,
    estimated: Option<u64>,
    focused: bool,
    maximized: bool,
    show_actions: bool,
    field: OutputOptionsField,
    i: int,
)
    requires
        options_has(area, maximized, show_actions, field),
        options_choices(opts, field) is Some,
        0 <= i < options_choices(opts, field)->0.options@.len(),
    ensures
        ({
            let lines = option_lines(area, opts, estimated, focused, maximized, show_actions);
            let line = lines[options_row(field)];
            &&& line[1].text == options_label(field)
            &&& (line[1].style.fg == Tone::TextBright <==> focused && opts.field_focus == field)
            &&& shows_choice(line, 2 + 2 * i, options_choices(opts, field)->0, i)
        }),
{
    crate::draw_output_options::rows_agree_with_targets(
        area,
        opts,
        estimated,
        focused,
        maximized,
        show_actions,
    );
    let border = crate::draw_output_options::options_border(focused);
    let on = focused && opts.field_focus == field;
    let pills = options_choices(opts, field)->0;
    let w = area.width as int;
    lemma_pill_row(border, w, "merge      "@, ""@, pills, on, i);
    lemma_pill_row(border, w, "force enc "@, ""@, pills, on, i);
    lemma_pill_row(border, w, "disc dirs "@, ""@, pills, on, i);
    lemma_pill_row(border, w, "write log  "@, ""@, pills, on, i);
}

/// The pipeline and the estimated size have their rows.
pub proof fn pipeline_and_size_are_on_their_rows(
    area: Rect,
    opts: OutputOptionsState,
    estimated: Option<u64>,
    focused: bool,
    maximized: bool,
    show_actions: bool,
)
    ensures
        ({
            let lines = option_lines(area, opts, estimated, focused, maximized, show_actions);
            &&& lines[5][1].text == "   est. size   "@
            &&& lines[5][2].text == match estimated {
                Some(n) => estimate_text(n as nat),
                None => "—"@,
            }
            &&& (maximized && show_actions && area.height >= 20 ==> lines[18][1].text
                == "   pipeline    "@ && lines[18][3].text == actions_text(opts.actions))
        }),
{
    crate::draw_output_options::rows_agree_with_targets(
        area,
        opts,
        estimated,
        focused,
        maximized,
        show_actions,
    );
}

/// A pipeline is summed up by the number of its steps before and behind a conversion.
pub proof fn pipeline_counts_its_steps(
    actions: crate::draw_output_options::ActionPipeline,
)
    ensures
        actions.pre@.len() == 0 && actions.post@.len() == 0 <==> actions_text(actions) == "none"@,
        actions.pre@.len() > 0 ==> (decimal(actions.pre@.len()) + " pre"@).is_prefix_of(
            actions_text(actions),
        ),
        actions.post@.len() > 0 ==> (decimal(actions.post@.len()) + " post"@).is_suffix_of(
            actions_text(actions),
        ),
{
    let text = actions_text(actions);
    reveal_strlit("none");
    reveal_strlit(" pre");
    reveal_strlit(" post");
    reveal_strlit(" pre · ");
    assert("none"@.last() == 'e');
    assert(" post"@.last() == 't');
    assert("none"@[0] == 'n');
    if actions.pre@.len() > 0 {
        let front = decimal(actions.pre@.len()) + " pre"@;
        assert(front =~= text.subrange(0, front.len() as int));
        if actions.post@.len() == 0 {
            assert(text[text.len() - 4] == ' ');
            assert("none"@[0] != ' ');
        }
    }
    if actions.post@.len() > 0 {
        let tail = decimal(actions.post@.len()) + " post"@;
        assert(tail =~= text.subrange(text.len() - tail.len(), text.len() as int));
        assert(text.last() == 't');
    }
}

/// The choices that a field of the format pane offers, for the fields that are a plain choice.
pub open spec fn format_choices(state: FormatState, field: FormatField) -> Option<PillState> {
    match field {
        FormatField::Format => Some(state.format),
        FormatField::DsdRate | FormatField::SampleRate => Some(state.sample_rate),
        FormatField::BitDepth => if state.lossy_preset_labels is None {
            Some(state.bit_depth)
        } else {
            None
        },
        FormatField::Resampler => Some(state.resampler),
        FormatField::Dither => if !state.ssrc_dither_override_active {
            Some(state.dither)
        } else {
            None
        },
        FormatField::ReplayGain => Some(state.replaygain),
        FormatField::NoiseShaper => Some(state.noise_shaper),
        FormatField::ModulatorOrder => Some(state.modulator_order),
        FormatField::ConversionPreset => Some(state.conversion_preset),
        FormatField::DsdPath => Some(state.dsd_pathway),
        FormatField::DsdProfile => Some(state.dsd_profile),
        FormatField::DsdGainScope => Some(state.dsd_auto_gain_scope),
        FormatField::DsdTruePeakScan => Some(state.dsd_true_peak_scan_mode),
        _ => None,
    }
}

/// What stands before and behind the choices of a field.
pub open spec fn format_label(state: FormatState, field: FormatField) -> (Seq<char>, Seq<char>) {
    match field {
        FormatField::Format => ("format     "@, ""@),
        FormatField::DsdRate => ("DSD rate   "@, ""@),
        FormatField::SampleRate => ("sample rate"@, "kHz"@),
        FormatField::BitDepth => ("bit depth  "@, "bit"@),
        FormatField::Resampler => ("resampler  "@, ""@),
        FormatField::Dither => (
            "dither     "@,
            match state.ssrc_dither_status_label {
                Some(label) => label@,
                None => ""@,
            },
        ),
        FormatField::ReplayGain => ("replaygain "@, ""@),
        FormatField::NoiseShaper => ("noise sh.  "@, ""@),
        FormatField::ModulatorOrder => ("mod order  "@, ""@),
        FormatField::ConversionPreset => ("preset     "@, ""@),
        FormatField::DsdPath => ("DSD path   "@, ""@),
        FormatField::DsdProfile => ("DSD profile"@, ""@),
        FormatField::DsdGainScope => ("gain scope "@, ""@),
        FormatField::DsdTruePeakScan => ("TP underread"@, ""@),
        _ => (""@, ""@),
    }
}

proof fn lemma_pane_rows(
    state: FormatState,
    rows: Seq<FormatPaneRow>,
    border: Tone,
    w: int,
    focused: bool,
    n: nat,
)
    requires
        n <= rows.len(),
    ensures
        pane_rows(state, rows, border, w, focused, n).len() == n,
        forall|k: int|
            0 <= k < n ==> #[trigger] pane_rows(state, rows, border, w, focused, n)[k]
                == crate::draw_output::pane_row(state, rows[k], border, w, focused),
    decreases n,
{
    if n > 0 {
        lemma_pane_rows(state, rows, border, w, focused, (n - 1) as nat);
    }
}

proof fn lemma_choices(choices: Seq<Choice>, focused: bool, n: nat)
    requires
        n <= choices.len(),
    ensures
        choice_spans(choices, focused, n).len() == if n < choices.len() || n == 0 {
            2 * n as int
        } else {
            2 * n - 1
        },
        forall|i: int|
            0 <= i < n ==> (#[trigger] choice_spans(choices, focused, n)[2 * i]).text == " "@
                + choices[i].label@ + " "@ && (choice_spans(choices, focused, n)[2 * i].style.bold
                <==> choices[i].enabled && choices[i].selected),
    decreases n,
{
    if n > 0 {
        lemma_choices(choices, focused, (n - 1) as nat);
        let front = choice_spans(choices, focused, (n - 1) as nat);
        let all = choice_spans(choices, focused, n);
        assert forall|i: int| 0 <= i < n implies (#[trigger] all[2 * i]).text == " "@
            + choices[i].label@ + " "@ && (all[2 * i].style.bold <==> choices[i].enabled
            && choices[i].selected) by {
            if i < n - 1 {
                assert(all[2 * i] == front[2 * i]);
            }
        }
    }
}

proof fn lemma_presets(labels: Seq<String>, selected: int, focused: bool, n: nat)
    requires
        n <= labels.len(),
    ensures
        preset_spans(labels, selected, focused, n).len() == if n < labels.len() || n == 0 {
            2 * n as int
        } else {
            2 * n - 1
        },
        forall|i: int|
            0 <= i < n ==> (#[trigger] preset_spans(labels, selected, focused, n)[2 * i]).text
                == " "@ + labels[i]@ + " "@ && (preset_spans(labels, selected, focused, n)[2
                * i].style.bold <==> i == selected),
    decreases n,
{
    if n > 0 {
        lemma_presets(labels, selected, focused, (n - 1) as nat);
        let front = preset_spans(labels, selected, focused, (n - 1) as nat);
        let all = preset_spans(labels, selected, focused, n);
        assert forall|i: int| 0 <= i < n implies (#[trigger] all[2 * i]).text == " "@ + labels[i]@
            + " "@ && (all[2 * i].style.bold <==> i == selected) by {
            if i < n - 1 {
                assert(all[2 * i] == front[2 * i]);
            }
        }
    }
}

/// Row `k` of the format pane is that of the setting that the list of rows names at its place, and
/// it alone is in focus where the focus is on that setting.
pub proof fn format_rows_are_in_order(
    state: FormatState,
    area: Rect,
    focused: bool,
    maximized: bool,
    k: int,
)
    requires
        0 <= k < (if maximized { state.maximized_pane_rows@ } else { state.pane_rows@ }).len(),
        (if maximized { state.maximized_pane_rows@ } else { state.pane_rows@ })[k] is Field,
    ensures
        ({
            let rows = if maximized { state.maximized_pane_rows@ } else { state.pane_rows@ };
            let field = rows[k]->Field_0;
            format_lines(state, area, focused, maximized)[k + 1] == field_row(
                state,
                field,
                if focused { Tone::Green } else { Tone::TextDim },
                area.width as int,
                focused && state.field_focus == field,
            )
        }),
{
    let rows = shown_rows(state, maximized);
    let border = crate::draw_output::format_border(focused);
    let w = area.width as int;
    lemma_pane_rows(state, rows, border, w, focused, rows.len());
}

/// The row of a plain choice shows every option of this setting and no other, with the one
/// selected marked.
pub proof fn format_choice_is_shown(
    state: FormatState,
    field: FormatField,
    border: Tone,
    w: int,
    focused: bool,
    i: int,
)
    requires
        format_choices(state, field) is Some,
        0 <= i < format_choices(state, field)->0.options@.len(),
    ensures
        ({
            let line = field_row(state, field, border, w, focused);
            &&& line[1].text == "   "@ + format_label(state, field).0 + "  "@
            &&& (line[1].style.fg == Tone::TextBright <==> focused)
            &&& shows_choice(line, 2 + 2 * i, format_choices(state, field)->0, i)
        }),
{
    let pills = format_choices(state, field)->0;
    let (label, suffix) = format_label(state, field);
    lemma_pill_row(border, w, label, suffix, pills, focused, i);
    assert(field_row(state, field, border, w, focused) == pill_row_spans(
        border,
        w,
        label,
        suffix,
        all_pills(pills, focused),
        focused,
    ));
}

/// The gain row offers the modes that can be chosen, with the one selected marked.
pub proof fn gain_modes_are_shown(
    state: FormatState,
    border: Tone,
    w: int,
    focused: bool,
    i: int,
)
    requires
        0 <= i < state.dsd_gain_mode.options@.len(),
        state.dsd_gain_mode.options@[i].enabled,
    ensures
        shows_choice(
            field_row(state, FormatField::DsdGain, border, w, focused),
            2 + 2 * how_many(
                state.dsd_gain_mode.options@.take(i),
                |o: PillOption| o.enabled,
            ) as int,
            state.dsd_gain_mode,
            i,
        ),
{
    let pills = state.dsd_gain_mode;
    choices_that_are_off_are_left_out(pills, focused, i);
    let at = 2 * how_many(pills.options@.take(i), |o: PillOption| o.enabled) as int;
    let line = field_row(state, FormatField::DsdGain, border, w, focused);
    assert(line[2 + at] == enabled_pills(pills, focused)[at]);
}

/// A level is shown in decibels: the gain, and the target of normalization or, without it, the
/// margin.
pub proof fn levels_are_shown(state: FormatState, border: Tone, w: int, focused: bool)
    ensures
        field_row(state, FormatField::DsdGainDb, border, w, focused)[3].text == state.dsd_gain_db@
            + " dB"@,
        field_row(state, FormatField::DsdNormalizeTarget, border, w, focused)[3].text == (
        if state.dsd_reference_controls_available {
            state.dsd_normalize_target_dbfs@
        } else {
            state.dsd_auto_gain_margin_db@
        }) + " dB"@,
{
}

/// The rows of containers, resampling qualities and lossy presets list each of them, and those
/// selected stand out.
pub proof fn listed_choices_are_shown(
    state: FormatState,
    border: Tone,
    w: int,
    focused: bool,
    i: int,
)
    requires
        0 <= i,
    ensures
        ({
            let line = field_row(state, FormatField::Container, border, w, focused);
            i < state.containers@.len() ==> line[2 + 2 * i].text == " "@
                + state.containers@[i].label@ + " "@ && (line[2 + 2 * i].style.bold
                <==> state.containers@[i].enabled && state.containers@[i].selected)
        }),
        ({
            let line = field_row(state, FormatField::ResampleQuality, border, w, focused);
            i < state.resample_qualities@.len() ==> line[2 + 2 * i].text == " "@
                + state.resample_qualities@[i].label@ + " "@ && (line[2 + 2 * i].style.bold
                <==> state.resample_qualities@[i].enabled && state.resample_qualities@[i].selected)
        }),
        ({
            let line = field_row(state, FormatField::BitDepth, border, w, focused);
            state.lossy_preset_labels matches Some(labels) ==> (i < labels@.len() ==> line[2 + 2
                * i].text == " "@ + labels@[i]@ + " "@ && (line[2 + 2 * i].style.bold
                <==> match state.lossy_preset_index {
                Some(at) => i == at,
                None => i == labels@.len() - 1,
            }))
        }),
{
    reveal_strlit("");
    if i < state.containers@.len() {
        let n = state.containers@.len();
        lemma_choices(state.containers@, focused, n);
        let line = field_row(state, FormatField::Container, border, w, focused);
        assert(line[2 + 2 * i] == choice_spans(state.containers@, focused, n)[2 * i]);
    }
    if i < state.resample_qualities@.len() {
        let n = state.resample_qualities@.len();
        lemma_choices(state.resample_qualities@, focused, n);
        let line = field_row(state, FormatField::ResampleQuality, border, w, focused);
        assert(line[2 + 2 * i] == choice_spans(state.resample_qualities@, focused, n)[2 * i]);
    }
    if let Some(labels) = state.lossy_preset_labels {
        if i < labels@.len() {
            let selected = crate::draw_output::selected_preset(state, labels@);
            lemma_presets(labels@, selected, focused, labels@.len());
            let line = field_row(state, FormatField::BitDepth, border, w, focused);
            assert(line[2 + 2 * i] == preset_spans(labels@, selected, focused, labels@.len())[2
                * i]);
        }
    }
}

/// The cursor of an edited field is on the field's row, as far behind the label as the editor has
/// it in the text.
pub proof fn cursor_is_in_the_edited_field(
    area: Rect,
    opts: OutputOptionsState,
    estimated: Option<u64>,
    focused: bool,
    maximized: bool,
    show_actions: bool,
)
    requires
        area.x + area.width <= u16::MAX,
        area.y + area.height <= u16::MAX,
    ensures
        ({
            let scene = options_scene(area, opts, estimated, focused, maximized, show_actions);
            &&& scene[0] is Text
            &&& scene.len() <= 2
            &&& (scene.len() == 2 ==> focused && (opts.editing matches Some(field) && (
            scene[1] matches OpV::Cursor { x, y } && y == area.y + options_row(field) && x == area.x
                + 16 + opts.edit_input.cursor_column(options_columns(area, field)))))
        }),
{
}

} // verus!
