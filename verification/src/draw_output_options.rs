//! The output options pane: destination, templates, merging, estimated size, and
//! further options at full size.

use crate::button_map::{hit_if, ButtonRenderMap, Hit, TuiButton};
use crate::display_width::{line_width, shown_width, width, width_of_line};
use crate::draw_output::{blank_lines, pill_row, pill_row_spans, row_label_style, AudioFormat};
use crate::geometry::{plus16, Rect};
use crate::inline_edit::{inline_cursor_col, inline_value, render_inline_value, TextInputState};
use crate::panes::{bordered, bordered_line, bottom_edge, bottom_line};
use crate::pill::{all_pills, render_pill_spans, PillState};
use crate::scene::{
    line1, line2, sp, text_op, Line, LineV, OpV, Rows, RowsV, Scene, SceneV, Span, SpanV,
};
use crate::size::{estimate_text, format_size_estimate};
use crate::style::{accent, bold, bold_fg, bright, dimmed, fg, muted, on, plain, Style, Tone};
use crate::text::{
    blanks, cat2, cat3, cat4, count, dec_len, decimal, least, low16, minus, owned, plus, spaces,
    to_u16,
};
use vstd::prelude::*;

verus! {

/// Rows of the pane, counted from its top, that both painting and clicking go by.
pub const OUTPUT_OPTIONS_FORCE_ENCODE_ROW: u16 = 13;

pub const OUTPUT_OPTIONS_DISC_SUBFOLDERS_ROW: u16 = 14;

pub const OUTPUT_OPTIONS_WRITE_LOG_ROW: u16 = 15;

pub const OUTPUT_OPTIONS_ACTIONS_ROW: u16 = 18;

pub const OUTPUT_OPTIONS_TEMPLATE_LOAD_WIDTH: u16 = 6;

pub const OUTPUT_OPTIONS_TEMPLATE_BUILD_WIDTH: u16 = 8;

pub const OUTPUT_OPTIONS_TEMPLATE_GAP: u16 = 1;

/// A setting of the pane.
#[derive(Clone, Copy, Debug, PartialEq, Eq, Structural)]
pub enum OutputOptionsField {
    DestPath,
    FolderTemplate,
    FilenameTemplate,
    MergeMode,
    CompanionExtensions,
    CompanionFolders,
    ExcludeFiles,
    ForceEncode,
    DiscSubfolders,
    WriteLog,
    Actions,
}

/// What is done before and after a conversion.
#[derive(Debug)]
pub struct ActionPipeline {
    pub pre: Vec<String>,
    pub post: Vec<String>,
}

impl Default for ActionPipeline {
    /// Nothing is done.
    fn default() -> (r: ActionPipeline)
        ensures
            r.pre@.len() == 0,
            r.post@.len() == 0,
    {
        ActionPipeline { pre: Vec::new(), post: Vec::new() }
    }
}

/// The output options.
#[derive(Debug)]
pub struct OutputOptionsState {
    pub field_focus: OutputOptionsField,
    pub editing: Option<OutputOptionsField>,
    pub edit_input: TextInputState,
    pub dest_path: Option<String>,
    pub folder_template: String,
    pub filename_template: String,
    pub merge: PillState,
    pub companion_extensions: String,
    pub companion_folders: String,
    pub companion_exclude_files: String,
    pub force_encode: PillState,
    pub disc_subfolders: PillState,
    pub write_log: PillState,
    pub actions: ActionPipeline,
}

/// The actions in words.
pub open spec fn actions_text(actions: ActionPipeline) -> Seq<char> {
    let pre = actions.pre@.len();
    let post = actions.post@.len();
    if pre == 0 && post == 0 {
        "none"@
    } else if pre == 0 {
        decimal(post) + " post"@
    } else if post == 0 {
        decimal(pre) + " pre"@
    } else {
        decimal(pre) + " pre · "@ + decimal(post) + " post"@
    }
}

/// The actions in words.
pub fn output_options_actions_summary(actions: &ActionPipeline) -> (r: String)
    ensures
        r@ == actions_text(*actions),
{
    let pre: usize = actions.pre.len();
    let post: usize = actions.post.len();
    if pre == 0 && post == 0 {
        owned("none")
    } else if pre == 0 {
        cat2(dec_len(post).as_str(), " post")
    } else if post == 0 {
        cat2(dec_len(pre).as_str(), " pre")
    } else {
        cat4(dec_len(pre).as_str(), " pre · ", dec_len(post).as_str(), " post")
    }
}

/// A group of choices of the pane.
#[derive(Clone, Copy, Debug, PartialEq, Eq, Structural)]
pub enum OptionGroup {
    Merge,
    ForceEncode,
    DiscSubfolders,
    WriteLog,
}

/// The button of choice `i` of a group.
#[verifier::allow_in_spec]
pub fn option_button(group: OptionGroup, i: usize) -> TuiButton
    returns
        (match group {
            OptionGroup::Merge => TuiButton::MergePill(i),
            OptionGroup::ForceEncode => TuiButton::ForceEncodePill(i),
            OptionGroup::DiscSubfolders => TuiButton::DiscSubfoldersPill(i),
            OptionGroup::WriteLog => TuiButton::WriteLogPill(i),
        }),
{
    match group {
        OptionGroup::Merge => TuiButton::MergePill(i),
        OptionGroup::ForceEncode => TuiButton::ForceEncodePill(i),
        OptionGroup::DiscSubfolders => TuiButton::DiscSubfoldersPill(i),
        OptionGroup::WriteLog => TuiButton::WriteLogPill(i),
    }
}

/// The choices from `i` on as buttons, from column `x` on, as far as they are left of
/// the right border.
pub open spec fn option_hits(
    state: PillState,
    group: OptionGroup,
    y: u16,
    right: int,
    i: int,
    x: int,
) -> Seq<Hit>
    decreases state.options@.len() - i,
{
    if 0 <= i < state.options@.len() {
        let start = if i > 0 { plus16(x, 2) } else { x };
        let w = plus16(low16(state.options@[i].label@.len() as int), 2);
        if start >= right {
            Seq::empty()
        } else {
            seq![
                (
                    option_button(group, i as usize),
                    Rect {
                        x: start as u16,
                        y,
                        width: least(w, minus(right, start)) as u16,
                        height: 1,
                    },
                ),
            ] + option_hits(state, group, y, right, i + 1, plus16(start, w))
        }
    } else {
        Seq::empty()
    }
}

/// A row of choices as buttons, where the row is above the bottom edge.
pub open spec fn pill_hits(
    area: Rect,
    row: int,
    label: Seq<char>,
    state: PillState,
    group: OptionGroup,
) -> Seq<Hit> {
    if row >= minus(area.height as int, 1) {
        Seq::empty()
    } else {
        option_hits(
            state,
            group,
            plus16(area.y as int, row) as u16,
            minus(plus16(area.x as int, area.width as int), 1),
            0,
            plus16(
                plus16(area.x as int, 1),
                low16(("   "@ + label + "  "@).len() as int),
            ),
        )
    }
}

/// A row of choices as buttons.
pub fn register_output_options_pills(
    buttons: &mut ButtonRenderMap,
    area: Rect,
    row: u16,
    label: &str,
    state: &PillState,
    group: OptionGroup,
)
    ensures
        final(buttons)@ == old(buttons)@ + pill_hits(area, row as int, label@, *state, group),
{
    if row >= area.height.saturating_sub(1) {
        proof {
            assert(old(buttons)@ + Seq::<Hit>::empty() =~= old(buttons)@);
        }
        return;
    }
    let y: u16 = area.y.saturating_add(row);
    let right: u16 = area.x.saturating_add(area.width).saturating_sub(1);
    let label_width: u16 = to_u16(count(cat3("   ", label, "  ").as_str()));
    let mut x: u16 = area.x.saturating_add(1).saturating_add(label_width);
    let ghost all = option_hits(*state, group, y, right as int, 0, x as int);
    let mut hits = ButtonRenderMap::new();
    let mut i: usize = 0;
    proof {
        assert(hits@ + all =~= all);
    }
    while i < state.options.len()
        invariant
            i <= state.options@.len(),
            hits@ + option_hits(*state, group, y, right as int, i as int, x as int) == all,
        ensures
            hits@ == all,
        decreases state.options@.len() - i,
    {
        let start: u16 = if i > 0 { x.saturating_add(2) } else { x };
        let w: u16 = to_u16(count(state.options[i].label.as_str())).saturating_add(2);
        let ghost before = hits@;
        if start >= right {
            proof {
                assert(before + Seq::<Hit>::empty() =~= before);
            }
            break;
        }
        let room: u16 = right.saturating_sub(start);
        let visible: u16 = if w <= room { w } else { room };
        let place = Rect { x: start, y, width: visible, height: 1 };
        hits.record_button(option_button(group, i), place);
        x = start.saturating_add(w);
        i += 1;
        proof {
            let rest = option_hits(*state, group, y, right as int, i as int, x as int);
            let hit = (option_button(group, (i - 1) as usize), place);
            assert(before + (seq![hit] + rest) =~= hits@ + rest);
            if i >= state.options@.len() {
                assert(hits@ + Seq::<Hit>::empty() =~= hits@);
            }
        }
    }
    proof {
        assert(hits@ == all);
    }
    buttons.append(hits);
}

/// The two buttons at the right end of a template's row, where there is room.
pub open spec fn template_hits(area: Rect, row: int, folder: bool) -> Seq<Hit> {
    let edge = minus(plus16(area.x as int, area.width as int), 1);
    let build_x = minus(edge, OUTPUT_OPTIONS_TEMPLATE_BUILD_WIDTH as int);
    let load_x = minus(
        minus(build_x, OUTPUT_OPTIONS_TEMPLATE_GAP as int),
        OUTPUT_OPTIONS_TEMPLATE_LOAD_WIDTH as int,
    );
    let y = plus16(area.y as int, row) as u16;
    if row >= minus(area.height as int, 1) || load_x <= area.x || build_x <= area.x {
        Seq::empty()
    } else {
        seq![
            (
                if folder {
                    TuiButton::TemplateLoadFolderButton
                } else {
                    TuiButton::TemplateLoadFilenameButton
                },
                Rect {
                    x: load_x as u16,
                    y,
                    width: OUTPUT_OPTIONS_TEMPLATE_LOAD_WIDTH,
                    height: 1,
                },
            ),
            (
                if folder {
                    TuiButton::TemplateBuildFolderButton
                } else {
                    TuiButton::TemplateBuildFilenameButton
                },
                Rect {
                    x: build_x as u16,
                    y,
                    width: OUTPUT_OPTIONS_TEMPLATE_BUILD_WIDTH,
                    height: 1,
                },
            ),
        ]
    }
}

/// Records the two buttons at the right end of a template's row. They go on top of
/// the row itself.
pub fn register_output_options_template_buttons(
    buttons: &mut ButtonRenderMap,
    area: Rect,
    row: u16,
    folder_template: bool,
)
    ensures
        final(buttons)@ == old(buttons)@ + template_hits(area, row as int, folder_template),
{
    let edge: u16 = area.x.saturating_add(area.width).saturating_sub(1);
    let build_x: u16 = edge.saturating_sub(OUTPUT_OPTIONS_TEMPLATE_BUILD_WIDTH);
    let load_x: u16 = build_x.saturating_sub(OUTPUT_OPTIONS_TEMPLATE_GAP).saturating_sub(
        OUTPUT_OPTIONS_TEMPLATE_LOAD_WIDTH,
    );
    let mut hits = ButtonRenderMap::new();
    if !(row >= area.height.saturating_sub(1) || load_x <= area.x || build_x <= area.x) {
        let y: u16 = area.y.saturating_add(row);
        let (load, build) = if folder_template {
            (TuiButton::TemplateLoadFolderButton, TuiButton::TemplateBuildFolderButton)
        } else {
            (TuiButton::TemplateLoadFilenameButton, TuiButton::TemplateBuildFilenameButton)
        };
        hits.record_button(
            load,
            Rect { x: load_x, y, width: OUTPUT_OPTIONS_TEMPLATE_LOAD_WIDTH, height: 1 },
        );
        hits.record_button(
            build,
            Rect { x: build_x, y, width: OUTPUT_OPTIONS_TEMPLATE_BUILD_WIDTH, height: 1 },
        );
    }
    proof {
        assert(hits@ =~= template_hits(area, row as int, folder_template));
    }
    buttons.append(hits);
}

/// Row `row` of the pane between its borders.
pub open spec fn option_row_rect(area: Rect, row: int) -> Rect {
    Rect {
        x: plus16(area.x as int, 1) as u16,
        y: plus16(area.y as int, row) as u16,
        width: minus(area.width as int, 2) as u16,
        height: 1,
    }
}

/// Row `row` is above the bottom edge.
pub open spec fn row_shown(area: Rect, row: int) -> bool {
    row < minus(area.height as int, 1)
}

/// A whole row as a button, where it is shown and `wanted`.
pub open spec fn row_hit(area: Rect, wanted: bool, row: int, button: TuiButton) -> Seq<Hit> {
    hit_if(wanted && row_shown(area, row), button, option_row_rect(area, row))
}

/// The pane as buttons.
pub open spec fn options_hits(
    area: Rect,
    opts: OutputOptionsState,
    maximized: bool,
    show_actions: bool,
) -> Seq<Hit> {
    let more = maximized && area.height >= 11;
    let conversion = maximized && area.height >= 17;
    let none = Seq::<Hit>::empty();
    none + row_hit(area, true, 1, TuiButton::DestPathField) + row_hit(
        area,
        true,
        2,
        TuiButton::FolderTemplateField,
    ) + template_hits(area, 2, true) + row_hit(
        area,
        true,
        3,
        TuiButton::FilenameTemplateField,
    ) + template_hits(area, 3, false) + pill_hits(
        area,
        4,
        "merge      "@,
        opts.merge,
        OptionGroup::Merge,
    ) + row_hit(area, more, 8, TuiButton::CompanionExtensionsField) + row_hit(
        area,
        more,
        9,
        TuiButton::CompanionFoldersField,
    ) + row_hit(area, more && area.height >= 12, 10, TuiButton::ExcludeFilesField) + (
    if conversion {
        none + pill_hits(
            area,
            OUTPUT_OPTIONS_FORCE_ENCODE_ROW as int,
            "force enc "@,
            opts.force_encode,
            OptionGroup::ForceEncode,
        ) + pill_hits(
            area,
            OUTPUT_OPTIONS_DISC_SUBFOLDERS_ROW as int,
            "disc dirs "@,
            opts.disc_subfolders,
            OptionGroup::DiscSubfolders,
        ) + pill_hits(
            area,
            OUTPUT_OPTIONS_WRITE_LOG_ROW as int,
            "write log  "@,
            opts.write_log,
            OptionGroup::WriteLog,
        )
    } else {
        none
    }) + row_hit(
        area,
        show_actions && maximized && area.height >= 20,
        OUTPUT_OPTIONS_ACTIONS_ROW as int,
        TuiButton::ActionsPipelineField,
    )
}

/// The pane is shown only in an area of at least this size.
pub open spec fn options_fit(area: Rect) -> bool {
    area.height >= 5 && area.width >= 30
}

fn record_row(hits: &mut ButtonRenderMap, area: Rect, wanted: bool, row: u16, button: TuiButton)
    requires
        area.width >= 2,
    ensures
        final(hits)@ == old(hits)@ + row_hit(area, wanted, row as int, button),
{
    let place = Rect {
        x: area.x.saturating_add(1),
        y: area.y.saturating_add(row),
        width: area.width - 2,
        height: 1,
    };
    hits.record_if(wanted && row < area.height.saturating_sub(1), button, place);
}

fn record_conversion(area: Rect, opts: &OutputOptionsState) -> (r: ButtonRenderMap)
    ensures
        r@ == Seq::<Hit>::empty() + pill_hits(
            area,
            OUTPUT_OPTIONS_FORCE_ENCODE_ROW as int,
            "force enc "@,
            opts.force_encode,
            OptionGroup::ForceEncode,
        ) + pill_hits(
            area,
            OUTPUT_OPTIONS_DISC_SUBFOLDERS_ROW as int,
            "disc dirs "@,
            opts.disc_subfolders,
            OptionGroup::DiscSubfolders,
        ) + pill_hits(
            area,
            OUTPUT_OPTIONS_WRITE_LOG_ROW as int,
            "write log  "@,
            opts.write_log,
            OptionGroup::WriteLog,
        ),
{
    let mut hits = ButtonRenderMap::new();
    register_output_options_pills(
        &mut hits,
        area,
        OUTPUT_OPTIONS_FORCE_ENCODE_ROW,
        "force enc ",
        &opts.force_encode,
        OptionGroup::ForceEncode,
    );
    register_output_options_pills(
        &mut hits,
        area,
        OUTPUT_OPTIONS_DISC_SUBFOLDERS_ROW,
        "disc dirs ",
        &opts.disc_subfolders,
        OptionGroup::DiscSubfolders,
    );
    register_output_options_pills(
        &mut hits,
        area,
        OUTPUT_OPTIONS_WRITE_LOG_ROW,
        "write log  ",
        &opts.write_log,
        OptionGroup::WriteLog,
    );
    hits
}

/// Records the pane as buttons, by the same rows as it is painted.
pub fn register_output_options_mouse_targets(
    buttons: &mut ButtonRenderMap,
    area: Rect,
    opts: &OutputOptionsState,
    maximized: bool,
    show_actions: bool,
)
    ensures
        final(buttons)@ == if options_fit(area) {
            old(buttons)@ + options_hits(area, *opts, maximized, show_actions)
        } else {
            old(buttons)@
        },
{
    if area.height < 5 || area.width < 30 {
        return;
    }
    let more = maximized && area.height >= 11;
    let mut hits = ButtonRenderMap::new();
    record_row(&mut hits, area, true, 1, TuiButton::DestPathField);
    record_row(&mut hits, area, true, 2, TuiButton::FolderTemplateField);
    register_output_options_template_buttons(&mut hits, area, 2, true);
    record_row(&mut hits, area, true, 3, TuiButton::FilenameTemplateField);
    register_output_options_template_buttons(&mut hits, area, 3, false);
    register_output_options_pills(
        &mut hits,
        area,
        4,
        "merge      ",
        &opts.merge,
        OptionGroup::Merge,
    );
    record_row(&mut hits, area, more, 8, TuiButton::CompanionExtensionsField);
    record_row(&mut hits, area, more, 9, TuiButton::CompanionFoldersField);
    record_row(&mut hits, area, more && area.height >= 12, 10, TuiButton::ExcludeFilesField);
    if maximized && area.height >= 17 {
        hits.append(record_conversion(area, opts));
    } else {
        hits.append(ButtonRenderMap::new());
    }
    record_row(
        &mut hits,
        area,
        show_actions && maximized && area.height >= 20,
        OUTPUT_OPTIONS_ACTIONS_ROW,
        TuiButton::ActionsPipelineField,
    );
    buttons.append(hits);
}

/// The style of a section's heading. It is not the accent colour, which is for
/// values.
#[verifier::allow_in_spec]
pub fn output_options_section_header_style() -> Style
    returns
        bold_fg(Tone::Header),
{
    bold_fg(Tone::Header)
}

/// `field` is being edited.
pub open spec fn edits(opts: OutputOptionsState, field: OutputOptionsField) -> bool {
    opts.editing == Some(field)
}

/// A text setting.
pub open spec fn text_field(
    border: Tone,
    w: int,
    label: Seq<char>,
    value: Seq<char>,
    editing: bool,
    input: TextInputState,
    focused: bool,
) -> LineV {
    bordered(
        border,
        w,
        seq![
            sp(label, row_label_style(focused)),
            inline_value(value, editing, input, focused, minus(w, plus(2, label.len() as int))),
        ],
    )
}

/// A text setting.
pub fn field_row(
    border: Tone,
    w: usize,
    label: &str,
    value: &str,
    editing: bool,
    input: &TextInputState,
    focused: bool,
) -> (r: Line)
    ensures
        r@ == text_field(border, w as int, label@, value@, editing, *input, focused),
{
    let two: usize = 2;
    let room: usize = w.saturating_sub(two.saturating_add(count(label)));
    let mut content = line1(label, row_label_style(focused));
    content.push(render_inline_value(value, editing, input, focused, room));
    proof {
        assert(content@ =~= seq![
            sp(label@, row_label_style(focused)),
            inline_value(value@, editing, *input, focused, room as int),
        ]);
    }
    bordered_line(border, w, content)
}

/// The button that loads a template.
pub open spec fn load_pill() -> SpanV {
    sp(" load "@, bold(on(Tone::PillActiveFg, Tone::Amber)))
}

/// The button that builds a template.
pub open spec fn build_pill() -> SpanV {
    sp(" custom "@, bold(on(Tone::PillActiveFg, Tone::Blue)))
}

/// A template with its two buttons at the right end.
pub open spec fn template_row(border: Tone, w: int, label: SpanV, value: SpanV) -> LineV {
    let front = seq![sp("│"@, fg(border)), label, value];
    let pills = plus(plus(shown_width(" load "@) as int, 1), shown_width(" custom "@) as int);
    front + seq![
        sp(blanks(minus(w, plus(plus(width_of_line(front), pills), 1)) as nat), plain()),
        load_pill(),
        sp(" "@, plain()),
        build_pill(),
        sp("│"@, fg(border)),
    ]
}

/// A template with its two buttons at the right end.
pub fn template_row_with_value_span(border: Tone, w: usize, label: &str, style: Style, value: Span) -> (r:
    Line)
    ensures
        r@ == template_row(border, w as int, sp(label@, style), value@),
{
    let mut line = line2("│", fg(border), label, style);
    line.push(value);
    proof {
        assert(line@ =~= seq![sp("│"@, fg(border)), sp(label@, style), value@]);
    }
    let pills: usize = width(" load ").saturating_add(1).saturating_add(width(" custom "));
    let used: usize = line_width(&line).saturating_add(pills).saturating_add(1);
    let mut tail = line2(
        spaces(w.saturating_sub(used)).as_str(),
        plain(),
        " load ",
        bold(on(Tone::PillActiveFg, Tone::Amber)),
    );
    tail.put(" ", plain());
    tail.put(" custom ", bold(on(Tone::PillActiveFg, Tone::Blue)));
    tail.put("│", fg(border));
    line.append(tail);
    line
}

/// The columns of a template's value.
pub open spec fn template_columns(w: int) -> int {
    minus(w, 34)
}

/// A template setting.
pub open spec fn template_field(
    border: Tone,
    w: int,
    label: Seq<char>,
    value: Seq<char>,
    editing: bool,
    input: TextInputState,
    focused: bool,
) -> LineV {
    template_row(
        border,
        w,
        sp(label, row_label_style(focused)),
        inline_value(value, editing, input, focused, template_columns(w)),
    )
}

fn template_line(
    border: Tone,
    w: usize,
    label: &str,
    value: &str,
    editing: bool,
    input: &TextInputState,
    focused: bool,
) -> (r: Line)
    ensures
        r@ == template_field(border, w as int, label@, value@, editing, *input, focused),
{
    let span = render_inline_value(value, editing, input, focused, w.saturating_sub(34));
    template_row_with_value_span(border, w, label, row_label_style(focused), span)
}

/// The style of the actions in words.
#[verifier::allow_in_spec]
pub fn actions_style(empty: bool, focused: bool) -> Style
    returns
        (if empty {
            dimmed()
        } else if focused {
            bright()
        } else {
            accent()
        }),
{
    if empty {
        dimmed()
    } else if focused {
        bright()
    } else {
        accent()
    }
}

/// The row of actions.
pub open spec fn actions_line(border: Tone, w: int, summary: Seq<char>, empty: bool, focused: bool) -> LineV {
    bordered(border, w, actions_spans(summary, empty, focused))
}

/// The actions between the borders.
pub open spec fn actions_spans(summary: Seq<char>, empty: bool, focused: bool) -> LineV {
    seq![
        sp("   pipeline    "@, row_label_style(focused)),
        sp("▸ "@, muted()),
        sp(summary, actions_style(empty, focused)),
        sp("          "@, plain()),
        sp("Enter/click edit"@, muted()),
    ]
}

/// The row of actions.
pub fn actions_row(border: Tone, w: usize, summary: &str, empty: bool, focused: bool) -> (r: Line)
    ensures
        r@ == actions_line(border, w as int, summary@, empty, focused),
{
    let mut content = line2("   pipeline    ", row_label_style(focused), "▸ ", muted());
    content.put(summary, actions_style(empty, focused));
    content.put("          ", plain());
    content.put("Enter/click edit", muted());
    proof {
        assert(content@ =~= actions_spans(summary@, empty, focused));
    }
    bordered_line(border, w, content)
}

/// The estimated size in words.
pub open spec fn estimate_or_dash(bytes: Option<u64>) -> Seq<char> {
    match bytes {
        Some(n) => estimate_text(n as nat),
        None => "—"@,
    }
}

/// The destination in words.
pub open spec fn dest_text(opts: OutputOptionsState) -> Seq<char> {
    match opts.dest_path {
        Some(path) => path@,
        None => Seq::empty(),
    }
}

/// A row of choices of the pane.
pub open spec fn choice_row(border: Tone, w: int, label: Seq<char>, pills: PillState, focused: bool) -> LineV {
    pill_row_spans(border, w, label, ""@, all_pills(pills, focused), focused)
}

fn choice_line(border: Tone, w: usize, label: &str, pills: &PillState, focused: bool) -> (r: Line)
    ensures
        r@ == choice_row(border, w as int, label@, *pills, focused),
{
    pill_row(border, w, label, "", render_pill_spans(pills, focused), focused)
}

/// The settings that are always shown.
pub open spec fn basic_rows(opts: OutputOptionsState, estimated: Option<u64>, border: Tone, w: int, focused: bool) -> RowsV {
    let on_field = |field: OutputOptionsField| focused && opts.field_focus == field;
    seq![
        text_field(
            border,
            w,
            "   dest        "@,
            dest_text(opts),
            edits(opts, OutputOptionsField::DestPath),
            opts.edit_input,
            on_field(OutputOptionsField::DestPath),
        ),
        template_field(
            border,
            w,
            "   folder      "@,
            opts.folder_template@,
            edits(opts, OutputOptionsField::FolderTemplate),
            opts.edit_input,
            on_field(OutputOptionsField::FolderTemplate),
        ),
        template_field(
            border,
            w,
            "   filename    "@,
            opts.filename_template@,
            edits(opts, OutputOptionsField::FilenameTemplate),
            opts.edit_input,
            on_field(OutputOptionsField::FilenameTemplate),
        ),
        choice_row(
            border,
            w,
            "merge      "@,
            opts.merge,
            on_field(OutputOptionsField::MergeMode),
        ),
        bordered(
            border,
            w,
            seq![
                sp("   est. size   "@, muted()),
                sp(estimate_or_dash(estimated), accent()),
            ],
        ),
    ]
}

fn is_editing(opts: &OutputOptionsState, field: OutputOptionsField) -> (r: bool)
    ensures
        r == edits(*opts, field),
{
    match opts.editing {
        Some(active) => active == field,
        None => false,
    }
}

fn basic_lines(opts: &OutputOptionsState, estimated: Option<u64>, border: Tone, w: usize, focused: bool) -> (r:
    Rows)
    ensures
        r@ == basic_rows(*opts, estimated, border, w as int, focused),
{
    let mut rows = Rows::new();
    let dest = match &opts.dest_path {
        Some(path) => owned(path.as_str()),
        None => String::new(),
    };
    rows.push(
        field_row(
            border,
            w,
            "   dest        ",
            dest.as_str(),
            is_editing(opts, OutputOptionsField::DestPath),
            &opts.edit_input,
            focused && opts.field_focus == OutputOptionsField::DestPath,
        ),
    );
    rows.push(
        template_line(
            border,
            w,
            "   folder      ",
            opts.folder_template.as_str(),
            is_editing(opts, OutputOptionsField::FolderTemplate),
            &opts.edit_input,
            focused && opts.field_focus == OutputOptionsField::FolderTemplate,
        ),
    );
    rows.push(
        template_line(
            border,
            w,
            "   filename    ",
            opts.filename_template.as_str(),
            is_editing(opts, OutputOptionsField::FilenameTemplate),
            &opts.edit_input,
            focused && opts.field_focus == OutputOptionsField::FilenameTemplate,
        ),
    );
    rows.push(
        choice_line(
            border,
            w,
            "merge      ",
            &opts.merge,
            focused && opts.field_focus == OutputOptionsField::MergeMode,
        ),
    );
    let estimate = match estimated {
        Some(n) => format_size_estimate(n),
        None => owned("—"),
    };
    rows.push(
        bordered_line(border, w, line2("   est. size   ", muted(), estimate.as_str(), accent())),
    );
    proof {
        assert(rows@ =~~= basic_rows(*opts, estimated, border, w as int, focused));
    }
    rows
}

/// An empty line and a heading.
pub open spec fn section_rows(border: Tone, w: int, title: Seq<char>) -> RowsV {
    seq![
        bordered(border, w, Seq::empty()),
        bordered(border, w, seq![sp(title, output_options_section_header_style())]),
    ]
}

fn section_lines(border: Tone, w: usize, title: &str) -> (r: Rows)
    ensures
        r@ == section_rows(border, w as int, title@),
{
    let mut rows = Rows::new();
    rows.push(bordered_line(border, w, Line::new()));
    rows.push(bordered_line(border, w, line1(title, output_options_section_header_style())));
    rows
}

/// The settings for companion files.
pub open spec fn companion_rows(opts: OutputOptionsState, height: int, border: Tone, w: int, focused: bool) -> RowsV {
    let two = section_rows(border, w, "   Companion files"@).push(
        text_field(
            border,
            w,
            "   extensions  "@,
            opts.companion_extensions@,
            edits(opts, OutputOptionsField::CompanionExtensions),
            opts.edit_input,
            focused && opts.field_focus == OutputOptionsField::CompanionExtensions,
        ),
    ).push(
        text_field(
            border,
            w,
            "   folders     "@,
            opts.companion_folders@,
            edits(opts, OutputOptionsField::CompanionFolders),
            opts.edit_input,
            focused && opts.field_focus == OutputOptionsField::CompanionFolders,
        ),
    );
    if height >= 12 {
        two.push(
            text_field(
                border,
                w,
                "   exclude     "@,
                opts.companion_exclude_files@,
                edits(opts, OutputOptionsField::ExcludeFiles),
                opts.edit_input,
                focused && opts.field_focus == OutputOptionsField::ExcludeFiles,
            ),
        )
    } else {
        two
    }
}

fn companion_lines(opts: &OutputOptionsState, height: u16, border: Tone, w: usize, focused: bool) -> (r: Rows)
    ensures
        r@ == companion_rows(*opts, height as int, border, w as int, focused),
{
    let mut rows = section_lines(border, w, "   Companion files");
    rows.push(
        field_row(
            border,
            w,
            "   extensions  ",
            opts.companion_extensions.as_str(),
            is_editing(opts, OutputOptionsField::CompanionExtensions),
            &opts.edit_input,
            focused && opts.field_focus == OutputOptionsField::CompanionExtensions,
        ),
    );
    rows.push(
        field_row(
            border,
            w,
            "   folders     ",
            opts.companion_folders.as_str(),
            is_editing(opts, OutputOptionsField::CompanionFolders),
            &opts.edit_input,
            focused && opts.field_focus == OutputOptionsField::CompanionFolders,
        ),
    );
    if height >= 12 {
        rows.push(
            field_row(
                border,
                w,
                "   exclude     ",
                opts.companion_exclude_files.as_str(),
                is_editing(opts, OutputOptionsField::ExcludeFiles),
                &opts.edit_input,
                focused && opts.field_focus == OutputOptionsField::ExcludeFiles,
            ),
        );
    }
    rows
}

/// The settings of the conversion.
pub open spec fn conversion_rows(opts: OutputOptionsState, border: Tone, w: int, focused: bool) -> RowsV {
    section_rows(border, w, "   Conversion"@).push(
        choice_row(
            border,
            w,
            "force enc "@,
            opts.force_encode,
            focused && opts.field_focus == OutputOptionsField::ForceEncode,
        ),
    ).push(
        choice_row(
            border,
            w,
            "disc dirs "@,
            opts.disc_subfolders,
            focused && opts.field_focus == OutputOptionsField::DiscSubfolders,
        ),
    ).push(
        choice_row(
            border,
            w,
            "write log  "@,
            opts.write_log,
            focused && opts.field_focus == OutputOptionsField::WriteLog,
        ),
    )
}

fn conversion_lines(opts: &OutputOptionsState, border: Tone, w: usize, focused: bool) -> (r: Rows)
    ensures
        r@ == conversion_rows(*opts, border, w as int, focused),
{
    let mut rows = section_lines(border, w, "   Conversion");
    rows.push(
        choice_line(
            border,
            w,
            "force enc ",
            &opts.force_encode,
            focused && opts.field_focus == OutputOptionsField::ForceEncode,
        ),
    );
    rows.push(
        choice_line(
            border,
            w,
            "disc dirs ",
            &opts.disc_subfolders,
            focused && opts.field_focus == OutputOptionsField::DiscSubfolders,
        ),
    );
    rows.push(
        choice_line(
            border,
            w,
            "write log  ",
            &opts.write_log,
            focused && opts.field_focus == OutputOptionsField::WriteLog,
        ),
    );
    rows
}

/// The actions.
pub open spec fn action_rows(opts: OutputOptionsState, border: Tone, w: int, focused: bool) -> RowsV {
    section_rows(border, w, "   Actions"@).push(
        actions_line(
            border,
            w,
            actions_text(opts.actions),
            opts.actions.pre@.len() == 0 && opts.actions.post@.len() == 0,
            focused && opts.field_focus == OutputOptionsField::Actions,
        ),
    )
}

fn action_lines(opts: &OutputOptionsState, border: Tone, w: usize, focused: bool) -> (r: Rows)
    ensures
        r@ == action_rows(*opts, border, w as int, focused),
{
    let mut rows = section_lines(border, w, "   Actions");
    rows.push(
        actions_row(
            border,
            w,
            output_options_actions_summary(&opts.actions).as_str(),
            opts.actions.pre.len() == 0 && opts.actions.post.len() == 0,
            focused && opts.field_focus == OutputOptionsField::Actions,
        ),
    );
    rows
}

/// The colour of the pane's border.
#[verifier::allow_in_spec]
pub fn options_border(focused: bool) -> Tone
    returns
        (if focused {
            Tone::Cyan
        } else {
            Tone::TextDim
        }),
{
    if focused {
        Tone::Cyan
    } else {
        Tone::TextDim
    }
}

/// The left end of the title bar.
pub open spec fn title_left(border: Tone, maximized: bool) -> LineV {
    seq![
        sp("┌"@, fg(border)),
        sp(
            " "@ + (if maximized { "▾"@ } else { "▸"@ }) + " output options "@,
            on(Tone::Bg, border),
        ),
    ]
}

/// The title bar.
pub open spec fn title_spans(border: Tone, w: int, maximized: bool) -> LineV {
    let left = title_left(border, maximized);
    let right = crate::draw_output::title_right(border);
    let fixed = plus(width_of_line(left), width_of_line(right));
    left.push(sp(blanks(minus(w, fixed) as nat), on(Tone::Bg, border))) + right
}

/// The title bar.
pub fn output_options_title_line(border: Tone, w: usize, maximized: bool) -> (r: Line)
    ensures
        r@ == title_spans(border, w as int, maximized),
{
    let bar = on(Tone::Bg, border);
    let mark = if maximized { "▾" } else { "▸" };
    let mut left = line2("┌", fg(border), cat3(" ", mark, " output options ").as_str(), bar);
    let mut right = line2("a", on(Tone::TextMuted, border), "dvanced ", bar);
    right.put("┐", fg(border));
    proof {
        assert(left@ =~= title_left(border, maximized));
        assert(right@ =~= crate::draw_output::title_right(border));
    }
    let fixed: usize = line_width(&left).saturating_add(line_width(&right));
    left.put(spaces(w.saturating_sub(fixed)).as_str(), bar);
    left.append(right);
    left
}

/// The rows above the fill: title, settings, and the sections that there is room for.
pub open spec fn option_rows(
    area: Rect,
    opts: OutputOptionsState,
    estimated: Option<u64>,
    focused: bool,
    maximized: bool,
    show_actions: bool,
) -> RowsV {
    let border = options_border(focused);
    let w = area.width as int;
    seq![title_spans(border, w, maximized)] + basic_rows(opts, estimated, border, w, focused) + (
    if maximized && area.height >= 11 {
        companion_rows(opts, area.height as int, border, w, focused)
    } else {
        Seq::empty()
    }) + (if maximized && area.height >= 17 {
        conversion_rows(opts, border, w, focused)
    } else {
        Seq::empty()
    }) + (if show_actions && maximized && area.height >= 20 {
        action_rows(opts, border, w, focused)
    } else {
        Seq::empty()
    })
}

/// The pane, line by line.
pub open spec fn option_lines(
    area: Rect,
    opts: OutputOptionsState,
    estimated: Option<u64>,
    focused: bool,
    maximized: bool,
    show_actions: bool,
) -> RowsV {
    let border = options_border(focused);
    let w = area.width as int;
    let rows = option_rows(area, opts, estimated, focused, maximized, show_actions);
    rows + Seq::new(
        minus(minus(area.height as int, 1), rows.len() as int) as nat,
        |i: int| bordered(border, w, Seq::empty()),
    ) + seq![bottom_edge(border, w)]
}

/// Row, label width and value width of the setting being edited, where it is shown.
pub open spec fn edited_field(opts: OutputOptionsState, maximized: bool, height: int, w: int) -> Option<
    (int, int, int),
> {
    match opts.editing {
        Some(OutputOptionsField::DestPath) => Some((1, 15, minus(w, 17))),
        Some(OutputOptionsField::FolderTemplate) => Some((2, 15, template_columns(w))),
        Some(OutputOptionsField::FilenameTemplate) => Some((3, 15, template_columns(w))),
        Some(OutputOptionsField::CompanionExtensions) => if maximized && height >= 11 {
            Some((8, 15, minus(w, 17)))
        } else {
            None
        },
        Some(OutputOptionsField::CompanionFolders) => if maximized && height >= 11 {
            Some((9, 15, minus(w, 17)))
        } else {
            None
        },
        Some(OutputOptionsField::ExcludeFiles) => if maximized && height >= 12 {
            Some((10, 15, minus(w, 17)))
        } else {
            None
        },
        _ => None,
    }
}

/// Row, label width and value width of the setting being edited, where it is shown.
pub fn output_options_edit_cursor(
    opts: &OutputOptionsState,
    maximized: bool,
    area_height: usize,
    pane_width: usize,
) -> (r: Option<(usize, usize, usize)>)
    ensures
        match r {
            Some((row, label, value)) => edited_field(
                *opts,
                maximized,
                area_height as int,
                pane_width as int,
            ) == Some((row as int, label as int, value as int)),
            None => edited_field(
                *opts,
                maximized,
                area_height as int,
                pane_width as int,
            ) is None,
        },
{
    let text: usize = pane_width.saturating_sub(17);
    let template: usize = pane_width.saturating_sub(34);
    match opts.editing {
        Some(OutputOptionsField::DestPath) => Some((1, 15, text)),
        Some(OutputOptionsField::FolderTemplate) => Some((2, 15, template)),
        Some(OutputOptionsField::FilenameTemplate) => Some((3, 15, template)),
        Some(OutputOptionsField::CompanionExtensions) => if maximized && area_height >= 11 {
            Some((8, 15, text))
        } else {
            None
        },
        Some(OutputOptionsField::CompanionFolders) => if maximized && area_height >= 11 {
            Some((9, 15, text))
        } else {
            None
        },
        Some(OutputOptionsField::ExcludeFiles) => if maximized && area_height >= 12 {
            Some((10, 15, text))
        } else {
            None
        },
        _ => None,
    }
}

/// Where the text cursor stands, while a setting is edited and its cell is inside the
/// pane.
pub open spec fn options_cursor(area: Rect, opts: OutputOptionsState, focused: bool, maximized: bool) -> Option<
    (u16, u16),
> {
    match edited_field(opts, maximized, area.height as int, area.width as int) {
        Some((row, label, value)) => {
            let x = plus16(
                plus16(plus16(area.x as int, 1), label),
                opts.edit_input.cursor_column(value),
            );
            let y = plus16(area.y as int, row);
            if focused && y < plus16(area.y as int, area.height as int) && x < plus16(
                area.x as int,
                minus(area.width as int, 1),
            ) {
                Some((x as u16, y as u16))
            } else {
                None
            }
        },
        None => None,
    }
}

fn cursor_of_options(area: Rect, opts: &OutputOptionsState, focused: bool, maximized: bool) -> (r: Option<
    (u16, u16),
>)
    ensures
        r == options_cursor(area, *opts, focused, maximized),
{
    match output_options_edit_cursor(opts, maximized, area.height as usize, area.width as usize) {
        Some((row, label, value)) => {
            let col: u16 = inline_cursor_col(&opts.edit_input, value);
            let x: u16 = area.x.saturating_add(1).saturating_add(label as u16).saturating_add(col);
            let y: u16 = area.y.saturating_add(row as u16);
            if focused && y < area.y.saturating_add(area.height) && x < area.x.saturating_add(
                area.width.saturating_sub(1),
            ) {
                Some((x, y))
            } else {
                None
            }
        },
        None => None,
    }
}

/// The pane on the screen.
pub open spec fn options_scene(
    area: Rect,
    opts: OutputOptionsState,
    estimated: Option<u64>,
    focused: bool,
    maximized: bool,
    show_actions: bool,
) -> SceneV {
    let painted = seq![
        text_op(
            area,
            option_lines(area, opts, estimated, focused, maximized, show_actions),
            plain(),
        ),
    ];
    match options_cursor(area, opts, focused, maximized) {
        Some((x, y)) => painted.push((OpV::Cursor { x, y })),
        None => painted,
    }
}

fn lines_of_options(
    area: Rect,
    opts: &OutputOptionsState,
    estimated: Option<u64>,
    focused: bool,
    maximized: bool,
    show_actions: bool,
) -> (r: Rows)
    ensures
        r@ == option_lines(area, *opts, estimated, focused, maximized, show_actions),
{
    let border = options_border(focused);
    let w: usize = area.width as usize;
    let mut lines = Rows::of(output_options_title_line(border, w, maximized));
    lines.append(basic_lines(opts, estimated, border, w, focused));
    if maximized && area.height >= 11 {
        lines.append(companion_lines(opts, area.height, border, w, focused));
    } else {
        lines.append(Rows::new());
    }
    if maximized && area.height >= 17 {
        lines.append(conversion_lines(opts, border, w, focused));
    } else {
        lines.append(Rows::new());
    }
    if show_actions && maximized && area.height >= 20 {
        lines.append(action_lines(opts, border, w, focused));
    } else {
        lines.append(Rows::new());
    }
    proof {
        assert(lines@ == option_rows(area, *opts, estimated, focused, maximized, show_actions));
    }
    let target: usize = area.height.saturating_sub(1) as usize;
    let missing: usize = target.saturating_sub(lines.len());
    lines.append(blank_lines(border, w, missing));
    lines.append(Rows::of(bottom_line(border, w)));
    proof {
        assert(lines@ =~= option_lines(area, *opts, estimated, focused, maximized, show_actions));
    }
    lines
}

/// Draws the pane. `estimated` is the expected size of the output in bytes.
pub fn draw_output_options_pane(
    f: &mut Scene,
    area: Rect,
    opts: &OutputOptionsState,
    estimated: Option<u64>,
    focused: bool,
    maximized: bool,
    show_actions: bool,
)
    ensures
        final(f)@ == if options_fit(area) {
            old(f)@ + options_scene(area, *opts, estimated, focused, maximized, show_actions)
        } else {
            old(f)@
        },
{
    if area.height < 5 || area.width < 30 {
        return;
    }
    let mut scene = Scene::new();
    scene.text(
        area,
        lines_of_options(area, opts, estimated, focused, maximized, show_actions),
        plain(),
    );
    match cursor_of_options(area, opts, focused, maximized) {
        Some((x, y)) => {
            scene.cursor(x, y);
        },
        None => {},
    }
    proof {
        assert(scene@ =~= options_scene(area, *opts, estimated, focused, maximized, show_actions));
    }
    f.append(scene);
}

/// Draws the pane and records it as buttons.
pub fn draw_output_options_pane_with_mouse_targets(
    f: &mut Scene,
    area: Rect,
    opts: &OutputOptionsState,
    estimated: Option<u64>,
    focused: bool,
    maximized: bool,
    show_actions: bool,
    buttons: &mut ButtonRenderMap,
)
    ensures
        final(f)@ == if options_fit(area) {
            old(f)@ + options_scene(area, *opts, estimated, focused, maximized, show_actions)
        } else {
            old(f)@
        },
        final(buttons)@ == if options_fit(area) {
            old(buttons)@ + options_hits(area, *opts, maximized, show_actions)
        } else {
            old(buttons)@
        },
{
    draw_output_options_pane(f, area, opts, estimated, focused, maximized, show_actions);
    register_output_options_mouse_targets(buttons, area, opts, maximized, show_actions);
}

/// Draws the collapsed pane: its title bar alone.
pub fn draw_output_options_title_bar(f: &mut Scene, area: Rect, focused: bool)
    ensures
        final(f)@ == if area.height >= 1 && area.width >= 12 {
            old(f)@.push(
                text_op(
                    area,
                    seq![title_spans(options_border(focused), area.width as int, false)],
                    plain(),
                ),
            )
        } else {
            old(f)@
        },
{
    if area.height < 1 || area.width < 12 {
        return;
    }
    let line = output_options_title_line(options_border(focused), area.width as usize, false);
    f.text(area, Rows::of(line), plain());
}

/// Painted rows and clickable rows agree, whatever the size of the pane: every setting that
/// can be clicked is painted on the row that clicks on it go by.
pub proof fn rows_agree_with_targets(
    area: Rect,
    opts: OutputOptionsState,
    estimated: Option<u64>,
    focused: bool,
    maximized: bool,
    show_actions: bool,
)
    ensures
        ({
            let lines = option_lines(area, opts, estimated, focused, maximized, show_actions);
            let border = options_border(focused);
            let w = area.width as int;
            let at = |field: OutputOptionsField| focused && opts.field_focus == field;
            &&& area.height >= 7 ==> lines.len() == area.height
            &&& lines[1] == text_field(
                border,
                w,
                "   dest        "@,
                dest_text(opts),
                edits(opts, OutputOptionsField::DestPath),
                opts.edit_input,
                at(OutputOptionsField::DestPath),
            )
            &&& lines[2] == template_field(
                border,
                w,
                "   folder      "@,
                opts.folder_template@,
                edits(opts, OutputOptionsField::FolderTemplate),
                opts.edit_input,
                at(OutputOptionsField::FolderTemplate),
            )
            &&& lines[3] == template_field(
                border,
                w,
                "   filename    "@,
                opts.filename_template@,
                edits(opts, OutputOptionsField::FilenameTemplate),
                opts.edit_input,
                at(OutputOptionsField::FilenameTemplate),
            )
            &&& lines[4] == choice_row(
                border,
                w,
                "merge      "@,
                opts.merge,
                at(OutputOptionsField::MergeMode),
            )
            &&& maximized && area.height >= 11 ==> lines[8] == text_field(
                border,
                w,
                "   extensions  "@,
                opts.companion_extensions@,
                edits(opts, OutputOptionsField::CompanionExtensions),
                opts.edit_input,
                at(OutputOptionsField::CompanionExtensions),
            )
            &&& maximized && area.height >= 11 ==> lines[9] == text_field(
                border,
                w,
                "   folders     "@,
                opts.companion_folders@,
                edits(opts, OutputOptionsField::CompanionFolders),
                opts.edit_input,
                at(OutputOptionsField::CompanionFolders),
            )
            &&& maximized && area.height >= 12 ==> lines[10] == text_field(
                border,
                w,
                "   exclude     "@,
                opts.companion_exclude_files@,
                edits(opts, OutputOptionsField::ExcludeFiles),
                opts.edit_input,
                at(OutputOptionsField::ExcludeFiles),
            )
            &&& maximized && area.height >= 17 ==> lines[OUTPUT_OPTIONS_FORCE_ENCODE_ROW as int] == choice_row(
                border,
                w,
                "force enc "@,
                opts.force_encode,
                at(OutputOptionsField::ForceEncode),
            )
            &&& maximized && area.height >= 17 ==> lines[OUTPUT_OPTIONS_DISC_SUBFOLDERS_ROW as int] == choice_row(
                border,
                w,
                "disc dirs "@,
                opts.disc_subfolders,
                at(OutputOptionsField::DiscSubfolders),
            )
            &&& maximized && area.height >= 17 ==> lines[OUTPUT_OPTIONS_WRITE_LOG_ROW as int] == choice_row(
                border,
                w,
                "write log  "@,
                opts.write_log,
                at(OutputOptionsField::WriteLog),
            )
            &&& show_actions && maximized && area.height >= 20
                ==> lines[OUTPUT_OPTIONS_ACTIONS_ROW as int] == actions_line(
                border,
                w,
                actions_text(opts.actions),
                opts.actions.pre@.len() == 0 && opts.actions.post@.len() == 0,
                at(OutputOptionsField::Actions),
            )
        }),
{
    let border = options_border(focused);
    let w = area.width as int;
    let rows = option_rows(area, opts, estimated, focused, maximized, show_actions);
    let lines = option_lines(area, opts, estimated, focused, maximized, show_actions);
    assert(forall|i: int| 0 <= i < rows.len() ==> #[trigger] lines[i] == rows[i]);
}

/// What is known of a source for an estimate.
#[derive(Debug)]
pub struct SourceFacts {
    pub has_duration: bool,
    pub sample_rate: u32,
    pub channels: u32,
    pub bit_depth: Option<u32>,
    pub format_name: String,
    pub codec: String,
}

/// How the size of the output follows from the source.
#[derive(Clone, Copy, Debug, PartialEq, Eq, Structural)]
pub enum SizePlan {
    /// One bit a sample.
    Dsd { rate: u32, channels: u32 },
    /// Bits a second.
    Lossy { bitrate: u32 },
    /// In proportion to the size of the source.
    Scaled { target_rate: u32, target_bits: u32, source_rate: u32, source_bits: u32 },
    /// From the samples, with a common factor where the format is compressed.
    Raw { rate: u32, bits: u32, channels: u32, compressed: bool },
}

/// The output rate and depth; nothing for those of the source.
#[derive(Clone, Copy, Debug, PartialEq, Eq, Structural)]
pub struct TargetFormat {
    pub format: AudioFormat,
    pub sample_rate: Option<u32>,
    pub bit_depth: Option<u32>,
}

/// `text` starts with `prefix`.
pub open spec fn starts(text: Seq<char>, prefix: Seq<char>) -> bool {
    crate::text::after_prefix(text, prefix) is Some
}

/// The format is compressed without loss.
pub open spec fn lossless_compressed(format: AudioFormat) -> bool {
    format is Flac || format is Alac || format is WavPack
}

/// How the size of the output follows from the source: nothing where the duration,
/// the size or the needed depth is not known.
pub open spec fn size_plan(info: Option<&SourceFacts>, total_size: u64, target: TargetFormat) -> Option<
    SizePlan,
> {
    match info {
        None => None,
        Some(source) => if !source.has_duration || total_size == 0 {
            None
        } else {
            let rate = match target.sample_rate {
                Some(rate) => rate,
                None => source.sample_rate,
            };
            match target.format {
                AudioFormat::Dsf | AudioFormat::Dff => Some(
                    SizePlan::Dsd { rate, channels: source.channels },
                ),
                AudioFormat::Mp3 => Some(SizePlan::Lossy { bitrate: 320_000 }),
                AudioFormat::Aac => Some(SizePlan::Lossy { bitrate: 256_000 }),
                AudioFormat::Opus => Some(SizePlan::Lossy { bitrate: 128_000 }),
                _ => match (target.bit_depth, source.bit_depth) {
                    (None, None) => None,
                    (wished, known) => {
                        let bits = match wished {
                            Some(bits) => bits,
                            None => known.unwrap(),
                        };
                        if lossless_compressed(target.format) && !starts(
                            source.format_name@,
                            "SACD"@,
                        ) && !starts(source.codec@, "pcm_"@) && known is Some && source.sample_rate
                            > 0 {
                            Some(
                                SizePlan::Scaled {
                                    target_rate: rate,
                                    target_bits: bits,
                                    source_rate: source.sample_rate,
                                    source_bits: known.unwrap(),
                                },
                            )
                        } else {
                            Some(
                                SizePlan::Raw {
                                    rate,
                                    bits,
                                    channels: source.channels,
                                    compressed: lossless_compressed(target.format),
                                },
                            )
                        }
                    },
                },
            }
        },
    }
}

/// How the size of the output follows from the source.
pub fn estimate_plan(info: Option<&SourceFacts>, total_source_size: u64, target: TargetFormat) -> (r:
    Option<SizePlan>)
    ensures
        r == size_plan(info, total_source_size, target),
{
    let source = match info {
        Some(source) => source,
        None => {
            return None;
        },
    };
    if !source.has_duration || total_source_size == 0 {
        return None;
    }
    let rate: u32 = match target.sample_rate {
        Some(rate) => rate,
        None => source.sample_rate,
    };
    let compressed = match target.format {
        AudioFormat::Flac | AudioFormat::Alac | AudioFormat::WavPack => true,
        _ => false,
    };
    match target.format {
        AudioFormat::Dsf | AudioFormat::Dff => {
            return Some(SizePlan::Dsd { rate, channels: source.channels });
        },
        AudioFormat::Mp3 => {
            return Some(SizePlan::Lossy { bitrate: 320_000 });
        },
        AudioFormat::Aac => {
            return Some(SizePlan::Lossy { bitrate: 256_000 });
        },
        AudioFormat::Opus => {
            return Some(SizePlan::Lossy { bitrate: 128_000 });
        },
        _ => {},
    }
    let bits: u32 = match target.bit_depth {
        Some(bits) => bits,
        None => match source.bit_depth {
            Some(bits) => bits,
            None => {
                return None;
            },
        },
    };
    let container = crate::text::strip_prefix(source.format_name.as_str(), "SACD").is_some();
    let uncompressed = crate::text::strip_prefix(source.codec.as_str(), "pcm_").is_some();
    match source.bit_depth {
        Some(source_bits) => {
            if compressed && !container && !uncompressed && source.sample_rate > 0 {
                return Some(
                    SizePlan::Scaled {
                        target_rate: rate,
                        target_bits: bits,
                        source_rate: source.sample_rate,
                        source_bits,
                    },
                );
            }
        },
        None => {},
    }
    Some(SizePlan::Raw { rate, bits, channels: source.channels, compressed })
}

} // verus!
