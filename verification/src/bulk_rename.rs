//! The dialog that renames many files by a template.

use crate::geometry::{inner, inside_border, plus16, share, share_rect, Rect};
use crate::inline_edit::TextInputState;
use crate::layout::{divides, split, Constraint, Direction};
use crate::metadata_editor::{append_span_if, span_if};
use crate::overlay_parts::{
    draw_popup_box, footer_pill, footer_pill_span, pill_gap, pill_gap_span, plural, plural_ending,
    popup_box,
};
use crate::path::{file_name_or_empty, name_or_empty};
use crate::scene::{
    centered_op, line1, line2, line3, line_op, sp, text_op, Line, LineV, OpV, Rows, Scene, SceneV,
};
use crate::style::{bg, bold, bold_fg, fg, plain, Style, Tone};
use crate::text::{
    align_left, cat2, cat3, cat4, count, dec_len, decimal, first_chars, least, left_aligned, minus, plus,
    repeat_char, repeated, take_chars,
};
use vstd::prelude::*;

verus! {

/// What has the keyboard.
#[derive(Clone, Copy, Debug, PartialEq, Eq, Structural)]
pub enum BulkRenameFocus {
    Template,
    List,
}

/// How far a rename has got.
#[derive(Clone, Copy, Debug, PartialEq, Eq, Structural)]
pub enum OpStatus {
    Pending,
    Skipped,
    Conflict,
    Succeeded,
    Failed,
}

/// The new name of a file.
#[derive(Debug)]
pub struct RenameOp {
    pub target_relative: String,
    pub status: OpStatus,
}

/// The state of the dialog.
#[derive(Debug)]
pub struct BulkRenameState {
    pub focus: BulkRenameFocus,
    pub template_input: TextInputState,
    pub ops: Vec<RenameOp>,
    /// The files, one for each new name.
    pub sources: Vec<String>,
    pub selected: usize,
    pub scroll: usize,
}

impl BulkRenameState {
    /// Every new name has a file.
    pub open spec fn wf(self) -> bool {
        self.sources@.len() >= self.ops@.len()
    }
}

/// How many of the first `n` renames have the given status.
pub open spec fn with_status(ops: Seq<RenameOp>, status: OpStatus, n: nat) -> nat
    decreases n,
{
    if n == 0 || n > ops.len() {
        0
    } else {
        with_status(ops, status, (n - 1) as nat) + if ops[n - 1].status == status { 1nat } else { 0 }
    }
}

fn count_status(ops: &Vec<RenameOp>, status: OpStatus) -> (r: usize)
    ensures
        r == with_status(ops@, status, ops@.len()),
        r <= ops@.len(),
{
    let mut n: usize = 0;
    for i in 0..ops.len()
        invariant
            n == with_status(ops@, status, i as nat),
            n <= i,
    {
        if ops[i].status == status {
            n += 1;
        }
    }
    n
}

/// The style of the template's label.
#[verifier::allow_in_spec]
pub fn template_label_style(focused: bool) -> Style
    returns
        (if focused {
            bold_fg(Tone::Amber)
        } else {
            fg(Tone::TextMuted)
        }),
{
    if focused {
        bold_fg(Tone::Amber)
    } else {
        fg(Tone::TextMuted)
    }
}

/// The style of the template.
#[verifier::allow_in_spec]
pub fn template_style(focused: bool) -> Style
    returns
        (if focused {
            fg(Tone::TextBright)
        } else {
            fg(Tone::TextMuted)
        }),
{
    if focused {
        fg(Tone::TextBright)
    } else {
        fg(Tone::TextMuted)
    }
}

/// The template, with the cursor in it while it has the keyboard.
pub open spec fn template_scene(state: BulkRenameState, area: Rect) -> SceneV {
    let focused = state.focus is Template;
    let w = minus(area.width as int, 11);
    let row = seq![
        line_op(
            area,
            seq![
                sp("Template: "@, template_label_style(focused)),
                sp(state.template_input.window(w), template_style(focused)),
            ],
        ),
    ];
    if focused {
        row.push(
            (OpV::Cursor {
                x: plus16(plus16(area.x as int, 10), state.template_input.cursor_column(w)) as u16,
                y: area.y,
            }),
        )
    } else {
        row
    }
}

fn draw_template(state: &BulkRenameState, area: Rect) -> (r: Scene)
    ensures
        r@ == template_scene(*state, area),
{
    let focused = state.focus == BulkRenameFocus::Template;
    let (visible, cursor) = state.template_input.view(area.width.saturating_sub(11) as usize);
    let mut scene = Scene::new();
    scene.line(
        area,
        line2(
            "Template: ",
            template_label_style(focused),
            visible.as_str(),
            template_style(focused),
        ),
    );
    if focused {
        scene.cursor(area.x.saturating_add(10).saturating_add(cursor), area.y);
    }
    proof {
        assert(scene@ =~= template_scene(*state, area));
    }
    scene
}

/// The files, by how far they have got.
pub open spec fn summary_line(ops: Seq<RenameOp>) -> LineV {
    let n = ops.len();
    let pending = with_status(ops, OpStatus::Pending, n);
    let conflicts = with_status(ops, OpStatus::Conflict, n);
    let failed = with_status(ops, OpStatus::Failed, n);
    let skipped = minus(n as int, plus(plus(pending as int, conflicts as int), failed as int));
    seq![
        sp(decimal(n) + " files"@, fg(Tone::TextBright)),
        sp(" · "@, fg(Tone::TextMuted)),
        sp(decimal(pending) + " pending"@, fg(Tone::Green)),
    ] + span_if(
        skipped > 0,
        sp(" · "@ + decimal(skipped as nat) + " skipped"@, fg(Tone::TextMuted)),
    ) + span_if(
        conflicts > 0,
        sp(" · "@ + decimal(conflicts) + " conflict"@ + plural(conflicts, "s"@), fg(Tone::Red)),
    ) + span_if(failed > 0, sp(" · "@ + decimal(failed) + " failed"@, fg(Tone::Red)))
}

fn line_of_summary(ops: &Vec<RenameOp>) -> (r: Line)
    ensures
        r@ == summary_line(ops@),
{
    let n: usize = ops.len();
    let pending: usize = count_status(ops, OpStatus::Pending);
    let conflicts: usize = count_status(ops, OpStatus::Conflict);
    let failed: usize = count_status(ops, OpStatus::Failed);
    let skipped: usize = n.saturating_sub(
        pending.saturating_add(conflicts).saturating_add(failed),
    );
    let mut line = line3(
        cat2(dec_len(n).as_str(), " files").as_str(),
        fg(Tone::TextBright),
        " · ",
        fg(Tone::TextMuted),
        cat2(dec_len(pending).as_str(), " pending").as_str(),
        fg(Tone::Green),
    );
    let skipped_text = cat3(" · ", dec_len(skipped).as_str(), " skipped");
    append_span_if(&mut line, skipped > 0, skipped_text.as_str(), fg(Tone::TextMuted));
    let conflict_text = cat4(
        " · ",
        dec_len(conflicts).as_str(),
        " conflict",
        plural_ending(conflicts, "s"),
    );
    append_span_if(&mut line, conflicts > 0, conflict_text.as_str(), fg(Tone::Red));
    let failed_text = cat3(" · ", dec_len(failed).as_str(), " failed");
    append_span_if(&mut line, failed > 0, failed_text.as_str(), fg(Tone::Red));
    line
}

/// The selected rename, held to the list.
pub open spec fn held_selection(state: BulkRenameState) -> int {
    least(state.selected as int, minus(state.ops@.len() as int, 1))
}

/// The first rename shown: moved so that the selected one is in view.
pub open spec fn list_scroll(state: BulkRenameState, rows: int) -> int {
    let at = held_selection(state);
    let top = if at < state.scroll { at } else { state.scroll as int };
    if at >= plus(top, rows) {
        at + 1 - rows
    } else {
        top
    }
}

/// The selected rename is always one of those shown.
pub proof fn selected_rename_is_visible(state: BulkRenameState, rows: int)
    requires
        state.ops@.len() > 0,
        0 < rows,
        state.ops@.len() + rows < usize::MAX,
    ensures
        list_scroll(state, rows) <= held_selection(state) < list_scroll(state, rows) + rows,
{
}

/// The mark of a status.
pub open spec fn status_mark(status: OpStatus) -> Seq<char> {
    match status {
        OpStatus::Pending => ">>"@,
        OpStatus::Skipped => ".."@,
        OpStatus::Conflict => "!!"@,
        OpStatus::Succeeded => "ok"@,
        OpStatus::Failed => "!!"@,
    }
}

fn mark_of(status: OpStatus) -> (r: &'static str)
    ensures
        r@ == status_mark(status),
{
    match status {
        OpStatus::Pending => ">>",
        OpStatus::Skipped => "..",
        OpStatus::Conflict => "!!",
        OpStatus::Succeeded => "ok",
        OpStatus::Failed => "!!",
    }
}

/// The colour of a status' mark.
#[verifier::allow_in_spec]
pub fn mark_tone(status: OpStatus) -> Tone
    returns
        (match status {
            OpStatus::Pending | OpStatus::Succeeded => Tone::Green,
            OpStatus::Skipped => Tone::TextMuted,
            OpStatus::Conflict | OpStatus::Failed => Tone::Red,
        }),
{
    match status {
        OpStatus::Pending | OpStatus::Succeeded => Tone::Green,
        OpStatus::Skipped => Tone::TextMuted,
        OpStatus::Conflict | OpStatus::Failed => Tone::Red,
    }
}

/// The colour of a new name.
#[verifier::allow_in_spec]
pub fn target_tone(status: OpStatus) -> Tone
    returns
        (match status {
            OpStatus::Pending => Tone::TextBright,
            OpStatus::Skipped => Tone::TextMuted,
            OpStatus::Succeeded => Tone::Green,
            OpStatus::Conflict | OpStatus::Failed => Tone::Red,
        }),
{
    match status {
        OpStatus::Pending => Tone::TextBright,
        OpStatus::Skipped => Tone::TextMuted,
        OpStatus::Succeeded => Tone::Green,
        OpStatus::Conflict | OpStatus::Failed => Tone::Red,
    }
}

/// A name in a column of `width` characters: cut with a tilde, or filled up.
pub open spec fn in_column(name: Seq<char>, width: int) -> Seq<char> {
    if name.len() > width {
        first_chars(name, minus(width, 1) as nat) + "~"@
    } else {
        left_aligned(name, width as nat)
    }
}

fn fit_column(name: &str, width: usize) -> (r: String)
    ensures
        r@ == in_column(name@, width as int),
{
    if count(name) > width {
        cat2(take_chars(name, width.saturating_sub(1)).as_str(), "~")
    } else {
        align_left(name, width)
    }
}

/// The columns of new names: three fifths of what the marks leave.
pub open spec fn target_columns(width: int) -> int {
    minus(width, 7) * 3 / 5
}

/// Rename `i` in one line.
pub open spec fn rename_line(state: BulkRenameState, i: int, width: int) -> LineV {
    let op = state.ops@[i];
    let target_w = target_columns(width);
    seq![
        sp(left_aligned(status_mark(op.status), 3), fg(mark_tone(op.status))),
        sp(in_column(op.target_relative@, target_w), fg(target_tone(op.status))),
        sp(" <- "@, fg(Tone::TextMuted)),
        sp(
            in_column(name_or_empty(state.sources@[i]@), minus(minus(width, 7), target_w)),
            fg(Tone::TextMuted),
        ),
    ]
}

fn line_of_rename(state: &BulkRenameState, i: usize, width: u16) -> (r: Line)
    requires
        state.wf(),
        i < state.ops@.len(),
    ensures
        r@ == rename_line(*state, i as int, width as int),
{
    let op = &state.ops[i];
    let rest: u32 = width.saturating_sub(7) as u32;
    let target_w: usize = (rest * 3 / 5) as usize;
    let source_w: usize = (rest as usize).saturating_sub(target_w);
    let target = fit_column(op.target_relative.as_str(), target_w);
    let source = fit_column(file_name_or_empty(state.sources[i].as_str()).as_str(), source_w);
    let mut line = line3(
        align_left(mark_of(op.status), 3).as_str(),
        fg(mark_tone(op.status)),
        target.as_str(),
        fg(target_tone(op.status)),
        " <- ",
        fg(Tone::TextMuted),
    );
    line.put(source.as_str(), fg(Tone::TextMuted));
    line
}

/// The style of a row.
#[verifier::allow_in_spec]
pub fn rename_style(selected: bool) -> Style
    returns
        (if selected {
            bold(bg(Tone::Rgb(52, 56, 80)))
        } else {
            plain()
        }),
{
    if selected {
        bold(bg(Tone::Rgb(52, 56, 80)))
    } else {
        plain()
    }
}

/// The first `n` rows of the list.
pub open spec fn rename_rows(state: BulkRenameState, area: Rect, n: nat) -> SceneV
    decreases n,
{
    if n == 0 {
        Seq::empty()
    } else {
        let front = rename_rows(state, area, (n - 1) as nat);
        let i = list_scroll(state, area.height as int) + n - 1;
        if i < state.ops@.len() {
            front.push(
                text_op(
                    Rect {
                        x: area.x,
                        y: plus16(area.y as int, n - 1) as u16,
                        width: area.width,
                        height: 1,
                    },
                    seq![rename_line(state, i, area.width as int)],
                    rename_style(i == held_selection(state) && state.focus is List),
                ),
            )
        } else {
            front
        }
    }
}

fn draw_renames(state: &BulkRenameState, area: Rect) -> (r: Scene)
    requires
        state.wf(),
    ensures
        r@ == if state.ops@.len() > 0 {
            rename_rows(*state, area, area.height as nat)
        } else {
            Seq::empty()
        },
{
    let mut scene = Scene::new();
    let total: usize = state.ops.len();
    if total == 0 {
        return scene;
    }
    let rows: usize = area.height as usize;
    let selected: usize = if state.selected <= total - 1 { state.selected } else { total - 1 };
    let top: usize = if selected < state.scroll { selected } else { state.scroll };
    let scroll: usize = if selected >= top.saturating_add(rows) {
        selected + 1 - rows
    } else {
        top
    };
    for row in 0..area.height
        invariant
            state.wf(),
            total == state.ops@.len(),
            selected == held_selection(*state),
            scroll == list_scroll(*state, area.height as int),
            scene@ == rename_rows(*state, area, row as nat),
    {
        if scroll < total && (row as usize) < total - scroll {
            let i: usize = scroll + row as usize;
            scene.text(
                Rect {
                    x: area.x,
                    y: area.y.saturating_add(row),
                    width: area.width,
                    height: 1,
                },
                Rows::of(line_of_rename(state, i, area.width)),
                rename_style(i == selected && state.focus == BulkRenameFocus::List),
            );
        }
    }
    scene
}

/// The keys of the dialog.
pub open spec fn rename_footer(focus: BulkRenameFocus) -> LineV {
    match focus {
        BulkRenameFocus::Template => seq![
            footer_pill_span("Tab list"@, Tone::Amber),
            pill_gap_span(),
            footer_pill_span("Enter commit"@, Tone::Green),
            pill_gap_span(),
            footer_pill_span("Esc cancel"@, Tone::Purple),
        ],
        BulkRenameFocus::List => seq![
            footer_pill_span("Tab tmpl"@, Tone::Amber),
            pill_gap_span(),
            footer_pill_span("e edit"@, Tone::Cyan),
            pill_gap_span(),
            footer_pill_span("c cue"@, Tone::Cyan),
            pill_gap_span(),
            footer_pill_span("C caps"@, Tone::Cyan),
            pill_gap_span(),
            footer_pill_span("Enter commit"@, Tone::Green),
            pill_gap_span(),
            footer_pill_span("Esc cancel"@, Tone::Purple),
        ],
    }
}

fn rename_footer_line(focus: BulkRenameFocus) -> (r: Line)
    ensures
        r@ == rename_footer(focus),
{
    let mut line = Line::new();
    match focus {
        BulkRenameFocus::Template => {
            line.push(footer_pill("Tab list", Tone::Amber));
            line.push(pill_gap());
        },
        BulkRenameFocus::List => {
            line.push(footer_pill("Tab tmpl", Tone::Amber));
            line.push(pill_gap());
            line.push(footer_pill("e edit", Tone::Cyan));
            line.push(pill_gap());
            line.push(footer_pill("c cue", Tone::Cyan));
            line.push(pill_gap());
            line.push(footer_pill("C caps", Tone::Cyan));
            line.push(pill_gap());
        },
    }
    line.push(footer_pill("Enter commit", Tone::Green));
    line.push(pill_gap());
    line.push(footer_pill("Esc cancel", Tone::Purple));
    line
}

/// The placeholders that a template may hold.
pub open spec fn placeholder_line() -> LineV {
    seq![
        sp(
            "%N% %NN% %NNN% %TITLE% %ARTIST% %ALBUM% %YEAR% %GENRE% %CATALOG% %EXT%"@,
            fg(Tone::TextMuted),
        ),
    ]
}

/// A line across `area`.
pub open spec fn rule_line(width: nat) -> LineV {
    seq![sp(repeated('─', width), fg(Tone::TextMuted))]
}

/// The contents of the dialog in its rows.
pub open spec fn rename_body(state: BulkRenameState, chunks: Seq<Rect>) -> SceneV {
    template_scene(state, chunks[0]) + seq![
        line_op(chunks[1], placeholder_line()),
        line_op(chunks[3], summary_line(state.ops@)),
        line_op(chunks[4], rule_line(chunks[4].width as nat)),
    ] + (if state.ops@.len() > 0 {
        rename_rows(state, chunks[5], chunks[5].height as nat)
    } else {
        Seq::empty()
    }) + seq![centered_op(chunks[6], rename_footer(state.focus))]
}

/// Draws the contents of the dialog in its rows.
pub fn draw_rename_body(state: &BulkRenameState, chunks: &Vec<Rect>) -> (r: Scene)
    requires
        state.wf(),
        chunks@.len() == 7,
    ensures
        r@ == rename_body(*state, chunks@),
{
    let mut scene = draw_template(state, chunks[0]);
    let mut middle = Scene::new();
    let hints = line1(
        "%N% %NN% %NNN% %TITLE% %ARTIST% %ALBUM% %YEAR% %GENRE% %CATALOG% %EXT%",
        fg(Tone::TextMuted),
    );
    middle.line(chunks[1], hints);
    middle.line(chunks[3], line_of_summary(&state.ops));
    let dashes = repeat_char('─', chunks[4].width as usize);
    middle.line(chunks[4], line1(dashes.as_str(), fg(Tone::TextMuted)));
    scene.append(middle);
    scene.append(draw_renames(state, chunks[5]));
    let mut footer = Scene::new();
    footer.centered(chunks[6], rename_footer_line(state.focus));
    scene.append(footer);
    scene
}

/// The rows of the dialog: template, placeholders, an empty line, summary, a line
/// across, list, and key hints.
pub open spec fn rename_parts() -> Seq<Constraint> {
    seq![
        Constraint::Length(1),
        Constraint::Length(1),
        Constraint::Length(1),
        Constraint::Length(1),
        Constraint::Length(1),
        Constraint::Min(1),
        Constraint::Length(1),
    ]
}

/// The place of the dialog.
pub open spec fn rename_popup(size: Rect) -> Rect {
    share(size.width as int, size.height as int, 85, 60, 85, 16)
}

/// `scene` shows the dialog; the empty box where it is too small.
pub open spec fn shows_rename(state: BulkRenameState, size: Rect, scene: SceneV) -> bool {
    let popup = rename_popup(size);
    let content = inside_border(popup);
    let frame = popup_box(popup, " Bulk Rename -- Template "@, Tone::Amber);
    if content.height < 6 || content.width < 20 {
        scene == frame
    } else {
        exists|chunks: Seq<Rect>|
            #[trigger] divides(Direction::Vertical, rename_parts(), content, chunks) && scene
                == frame + rename_body(state, chunks)
    }
}

/// The dialog that renames many files by a template.
pub fn draw_bulk_rename(size: Rect, state: &BulkRenameState) -> (r: Scene)
    requires
        state.wf(),
    ensures
        shows_rename(*state, size, r@),
{
    let popup = share_rect(size.width, size.height, 85, 60, 85, 16);
    let mut scene = draw_popup_box(popup, " Bulk Rename -- Template ", Tone::Amber);
    let content = inner(popup);
    if content.height < 6 || content.width < 20 {
        return scene;
    }
    let mut wishes: Vec<Constraint> = Vec::new();
    wishes.push(Constraint::Length(1));
    wishes.push(Constraint::Length(1));
    wishes.push(Constraint::Length(1));
    wishes.push(Constraint::Length(1));
    wishes.push(Constraint::Length(1));
    wishes.push(Constraint::Min(1));
    wishes.push(Constraint::Length(1));
    proof {
        assert(wishes@ =~= rename_parts());
    }
    let chunks = split(Direction::Vertical, &wishes, content);
    assert(divides(Direction::Vertical, rename_parts(), content, chunks@));
    scene.append(draw_rename_body(state, &chunks));
    scene
}

} // verus!
