//! The dialog that shows a cue sheet before it is written.

use crate::button_map::{ButtonRenderMap, Hit, TuiButton};
use crate::geometry::{inner, inside_border, plus16, share, share_rect, Rect};
use crate::inline_edit::TextInputState;
use crate::layout::{divides, split, Constraint, Direction};
use crate::overlay_parts::{draw_popup_box, popup_box};
use crate::path::{file_name_or_path, name_or_path};
use crate::scene::{
    lemma_span_chars_prefix, line1, line3, line_op, scroll_start, sp, span_chars, text_op, Line,
    LineV, Rows, RowsV, Scene, SceneV,
};
use crate::style::{bold, bold_fg, fg, muted, on, plain, Style, Tone};
use crate::text::{
    align_right, cat2, cat3, count, dec_len, decimal, least, lines_of, low16, minus, most, owned, plus,
    repeat_char, repeated, right_aligned, split_lines, to_u16, Texts,
};
use vstd::prelude::*;

verus! {

/// The state of the dialog.
#[derive(Debug)]
pub struct CuePreviewState {
    pub write_path: String,
    pub summary: String,
    pub content: String,
    pub scroll: usize,
    /// The line that is marked, and the text that takes its place while it is edited.
    pub cursor: Option<usize>,
    pub edit: Option<TextInputState>,
    pub read_only: bool,
}

/// The lines of the cue sheet.
pub open spec fn cue_lines(state: CuePreviewState) -> Seq<Seq<char>> {
    lines_of(state.content@)
}

/// The first line shown.
pub open spec fn cue_scroll(state: CuePreviewState, height: int) -> int {
    scroll_start(state.scroll as int, cue_lines(state).len() as int, height)
}

/// The first line behind those shown.
pub open spec fn cue_end(state: CuePreviewState, height: int) -> int {
    least(cue_scroll(state, height) + height, cue_lines(state).len() as int)
}

/// The columns of line numbers.
pub open spec fn gutter_columns(total: nat) -> nat {
    most(decimal(total).len() as int, 2) as nat
}

/// The style of a line.
#[verifier::allow_in_spec]
pub fn body_style(marked: bool) -> Style
    returns
        (if marked {
            bold(on(Tone::TextBright, Tone::Surface))
        } else {
            fg(Tone::Text)
        }),
{
    if marked {
        bold(on(Tone::TextBright, Tone::Surface))
    } else {
        fg(Tone::Text)
    }
}

/// The style of a line's number.
#[verifier::allow_in_spec]
pub fn gutter_style(marked: bool) -> Style
    returns
        (if marked {
            bold_fg(Tone::Amber)
        } else {
            muted()
        }),
{
    if marked {
        bold_fg(Tone::Amber)
    } else {
        muted()
    }
}

/// What line `i` shows: the text being edited where it is marked.
pub open spec fn body_text(state: CuePreviewState, i: int) -> Seq<char> {
    match state.edit {
        Some(input) => if state.cursor == Some(i as usize) {
            input.text@
        } else {
            cue_lines(state)[i]
        },
        None => cue_lines(state)[i],
    }
}

/// Line `i` with its number.
pub open spec fn cue_row(state: CuePreviewState, i: int) -> LineV {
    let marked = state.cursor == Some(i as usize);
    seq![
        sp(
            " "@ + right_aligned(decimal((i + 1) as nat), gutter_columns(cue_lines(state).len()))
                + " "@,
            gutter_style(marked),
        ),
        sp("│ "@, muted()),
        sp(body_text(state, i), body_style(marked)),
    ]
}

/// The lines shown in a window of `height` rows.
pub open spec fn cue_rows(state: CuePreviewState, height: int) -> RowsV {
    let from = cue_scroll(state, height);
    Seq::new(minus(cue_end(state, height), from) as nat, |k: int| cue_row(state, from + k))
}

/// The lines shown as buttons.
pub open spec fn cue_line_hits(state: CuePreviewState, area: Rect) -> Seq<Hit> {
    let from = cue_scroll(state, area.height as int);
    Seq::new(
        minus(cue_end(state, area.height as int), from) as nat,
        |k: int|
            (
                TuiButton::CuePreviewLine((from + k) as usize),
                Rect {
                    x: area.x,
                    y: plus16(area.y as int, low16(k)) as u16,
                    width: area.width,
                    height: 1,
                },
            ),
    )
}

fn cue_line(state: &CuePreviewState, lines: &Texts, i: usize, gutter: usize) -> (r: Line)
    requires
        lines@ == cue_lines(*state),
        i < lines@.len(),
        i < usize::MAX,
        gutter == gutter_columns(lines@.len()),
    ensures
        r@ == cue_row(*state, i as int),
{
    let marked = match state.cursor {
        Some(at) => at == i,
        None => false,
    };
    let number = cat3(" ", align_right(dec_len(i + 1).as_str(), gutter).as_str(), " ");
    proof {
        assert(lines@[i as int] == lines.items@[i as int]@);
    }
    let own = lines.items[i].as_str();
    let body = match &state.edit {
        Some(input) => if marked {
            input.text.as_str()
        } else {
            own
        },
        None => own,
    };
    line3(number.as_str(), gutter_style(marked), "│ ", muted(), body, body_style(marked))
}

fn draw_cue_lines(state: &CuePreviewState, area: Rect) -> (r: (Scene, ButtonRenderMap, usize))
    ensures
        r.0@ == seq![text_op(area, cue_rows(*state, area.height as int), plain())],
        r.1@ == cue_line_hits(*state, area),
        r.2 == cue_lines(*state).len(),
{
    let lines = split_lines(state.content.as_str());
    let total: usize = lines.len();
    let height: usize = area.height as usize;
    let last: usize = total.saturating_sub(height);
    let from: usize = if state.scroll <= last { state.scroll } else { last };
    let end: usize = if total - from <= height { total } else { from + height };
    let digits: usize = count(dec_len(total).as_str());
    let gutter: usize = if digits >= 2 { digits } else { 2 };
    let mut rows = Rows::new();
    let mut hits = ButtonRenderMap::new();
    for i in from..end
        invariant
            lines@ == cue_lines(*state),
            total == lines@.len(),
            gutter == gutter_columns(total as nat),
            from <= i <= end <= total,
            from == cue_scroll(*state, area.height as int),
            end == cue_end(*state, area.height as int),
            rows@ =~= cue_rows(*state, area.height as int).take(i - from),
            hits@ =~= cue_line_hits(*state, area).take(i - from),
    {
        rows.push(cue_line(state, &lines, i, gutter));
        hits.record_button(
            TuiButton::CuePreviewLine(i),
            Rect {
                x: area.x,
                y: area.y.saturating_add(to_u16(i - from)),
                width: area.width,
                height: 1,
            },
        );
    }
    proof {
        assert(rows@ =~= cue_rows(*state, area.height as int));
        assert(hits@ =~= cue_line_hits(*state, area));
    }
    let mut scene = Scene::new();
    scene.text(area, rows, plain());
    (scene, hits, total)
}

/// How much of the cue sheet has been shown.
pub open spec fn position_text(state: CuePreviewState, height: int) -> Seq<char> {
    let total = cue_lines(state).len() as int;
    if total == 0 {
        "0/0"@
    } else {
        decimal(least(plus(cue_scroll(state, height), height), total) as nat) + "/"@ + decimal(
            total as nat,
        )
    }
}

fn text_of_position(state: &CuePreviewState, total: usize, height: usize) -> (r: String)
    requires
        total == cue_lines(*state).len(),
    ensures
        r@ == position_text(*state, height as int),
{
    if total == 0 {
        return owned("0/0");
    }
    let last: usize = total.saturating_sub(height);
    let from: usize = if state.scroll <= last { state.scroll } else { last };
    let reached: usize = from.saturating_add(height);
    let shown: usize = if reached <= total { reached } else { total };
    cat3(dec_len(shown).as_str(), "/", dec_len(total).as_str())
}

/// A label that can be clicked.
pub struct Label {
    pub text: &'static str,
    pub tone: Tone,
    pub button: TuiButton,
}

/// The labels of the last line.
pub open spec fn footer_labels(state: CuePreviewState) -> Seq<Label> {
    let top = Label { text: " [Top] ", tone: Tone::Cyan, button: TuiButton::CuePreviewTop };
    let bottom = Label {
        text: " [Bottom] ",
        tone: Tone::Cyan,
        button: TuiButton::CuePreviewBottom,
    };
    if state.edit is Some {
        seq![
            Label {
                text: " [Commit] ",
                tone: Tone::Green,
                button: TuiButton::CuePreviewEditCommit,
            },
            Label {
                text: " [Cancel edit] ",
                tone: Tone::Red,
                button: TuiButton::CuePreviewEditCancel,
            },
        ]
    } else if state.read_only {
        seq![
            Label { text: " [Close] ", tone: Tone::Red, button: TuiButton::CuePreviewCancel },
            top,
            bottom,
        ]
    } else {
        seq![
            Label { text: " [Save] ", tone: Tone::Green, button: TuiButton::CuePreviewSave },
            Label { text: " [Cancel] ", tone: Tone::Red, button: TuiButton::CuePreviewCancel },
            top,
            bottom,
        ]
    }
}

fn labels_of_footer(state: &CuePreviewState) -> (r: Vec<Label>)
    ensures
        r@ == footer_labels(*state),
{
    let mut out: Vec<Label> = Vec::new();
    if state.edit.is_some() {
        out.push(
            Label {
                text: " [Commit] ",
                tone: Tone::Green,
                button: TuiButton::CuePreviewEditCommit,
            },
        );
        out.push(
            Label {
                text: " [Cancel edit] ",
                tone: Tone::Red,
                button: TuiButton::CuePreviewEditCancel,
            },
        );
        return out;
    }
    if state.read_only {
        out.push(
            Label { text: " [Close] ", tone: Tone::Red, button: TuiButton::CuePreviewCancel },
        );
    } else {
        out.push(
            Label { text: " [Save] ", tone: Tone::Green, button: TuiButton::CuePreviewSave },
        );
        out.push(
            Label { text: " [Cancel] ", tone: Tone::Red, button: TuiButton::CuePreviewCancel },
        );
    }
    out.push(Label { text: " [Top] ", tone: Tone::Cyan, button: TuiButton::CuePreviewTop });
    out.push(Label { text: " [Bottom] ", tone: Tone::Cyan, button: TuiButton::CuePreviewBottom });
    out
}

/// The first `n` labels.
pub open spec fn label_spans(labels: Seq<Label>, n: nat) -> LineV
    decreases n,
{
    if n == 0 || n > labels.len() {
        Seq::empty()
    } else {
        label_spans(labels, (n - 1) as nat).push(
            sp(labels[n - 1].text@, bold_fg(labels[n - 1].tone)),
        )
    }
}

/// The column of label `n`.
pub open spec fn label_x(labels: Seq<Label>, x: int, n: nat) -> int
    decreases n,
{
    if n == 0 || n > labels.len() {
        x
    } else {
        plus16(label_x(labels, x, (n - 1) as nat), low16(labels[n - 1].text@.len() as int))
    }
}

/// The first `n` labels as buttons.
pub open spec fn label_hits(labels: Seq<Label>, area: Rect, n: nat) -> Seq<Hit>
    decreases n,
{
    if n == 0 || n > labels.len() {
        Seq::empty()
    } else {
        label_hits(labels, area, (n - 1) as nat).push(
            (
                labels[n - 1].button,
                Rect {
                    x: label_x(labels, area.x as int, (n - 1) as nat) as u16,
                    y: area.y,
                    width: low16(labels[n - 1].text@.len() as int) as u16,
                    height: 1,
                },
            ),
        )
    }
}

/// The last line: labels, and except while editing, what else can be done and how
/// much has been shown.
pub open spec fn footer_line(state: CuePreviewState, height: int) -> LineV {
    let labels = footer_labels(state);
    let front = label_spans(labels, labels.len());
    if state.edit is Some {
        front
    } else {
        front.push(
            sp(
                if state.read_only { "  read-only  "@ } else { "  double-click line to edit  "@ },
                muted(),
            ),
        ).push(sp("    "@ + position_text(state, height), muted()))
    }
}

fn draw_cue_footer(state: &CuePreviewState, area: Rect, total: usize, height: usize) -> (r: (
    Scene,
    ButtonRenderMap,
))
    requires
        total == cue_lines(*state).len(),
    ensures
        r.0@ == seq![line_op(area, footer_line(*state, height as int))],
        r.1@ == label_hits(footer_labels(*state), area, footer_labels(*state).len()),
{
    let labels = labels_of_footer(state);
    let mut line = Line::new();
    let mut hits = ButtonRenderMap::new();
    let mut x: u16 = area.x;
    for i in 0..labels.len()
        invariant
            line@ == label_spans(labels@, i as nat),
            x == label_x(labels@, area.x as int, i as nat),
            hits@ == label_hits(labels@, area, i as nat),
    {
        let label = &labels[i];
        let w: u16 = to_u16(count(label.text));
        line.put(label.text, bold_fg(label.tone));
        hits.record_button(label.button, Rect { x, y: area.y, width: w, height: 1 });
        x = x.saturating_add(w);
    }
    if !state.edit.is_some() {
        let hint = if state.read_only { "  read-only  " } else { "  double-click line to edit  " };
        line.put(hint, muted());
        let position = text_of_position(state, total, height);
        line.put(cat2("    ", position.as_str()).as_str(), muted());
    }
    let mut scene = Scene::new();
    scene.line(area, line);
    (scene, hits)
}

/// What the first line says.
pub open spec fn summary_text(state: CuePreviewState) -> Seq<char> {
    if state.summary@.len() == 0 {
        "review the proposed CUE; press s to write, q to cancel"@
    } else {
        state.summary@
    }
}

/// The contents of the dialog in its rows.
pub open spec fn cue_body(state: CuePreviewState, chunks: Seq<Rect>) -> SceneV {
    seq![
        line_op(chunks[0], seq![sp(summary_text(state), fg(Tone::TextBright))]),
        line_op(chunks[1], seq![sp(repeated('─', chunks[1].width as nat), muted())]),
        text_op(chunks[2], cue_rows(state, chunks[2].height as int), plain()),
        line_op(chunks[3], footer_line(state, chunks[2].height as int)),
    ]
}

/// The buttons of the dialog in its rows.
pub open spec fn cue_hits(state: CuePreviewState, chunks: Seq<Rect>) -> Seq<Hit> {
    cue_line_hits(state, chunks[2]) + label_hits(
        footer_labels(state),
        chunks[3],
        footer_labels(state).len(),
    )
}

/// Draws the contents of the dialog in its rows.
pub fn draw_cue_body(state: &CuePreviewState, chunks: &Vec<Rect>) -> (r: (Scene, ButtonRenderMap))
    requires
        chunks@.len() == 4,
    ensures
        r.0@ == cue_body(*state, chunks@),
        r.1@ == cue_hits(*state, chunks@),
{
    let summary = if state.summary.as_str().is_empty() {
        "review the proposed CUE; press s to write, q to cancel"
    } else {
        state.summary.as_str()
    };
    let mut scene = Scene::new();
    scene.line(chunks[0], line1(summary, fg(Tone::TextBright)));
    let dashes = repeat_char('─', chunks[1].width as usize);
    scene.line(chunks[1], line1(dashes.as_str(), muted()));
    let (text, mut hits, total) = draw_cue_lines(state, chunks[2]);
    scene.append(text);
    let (footer, footer_hits) = draw_cue_footer(
        state,
        chunks[3],
        total,
        chunks[2].height as usize,
    );
    scene.append(footer);
    hits.append(footer_hits);
    proof {
        assert(scene@ =~= cue_body(*state, chunks@));
    }
    (scene, hits)
}

/// The rows of the dialog: summary, a line across, text, labels.
pub open spec fn cue_parts() -> Seq<Constraint> {
    seq![
        Constraint::Length(1),
        Constraint::Length(1),
        Constraint::Min(1),
        Constraint::Length(1),
    ]
}

/// `scene` and `hits` show the dialog; the empty box where it is too small.
pub open spec fn shows_cue(state: CuePreviewState, size: Rect, scene: SceneV, hits: Seq<Hit>) -> bool {
    let popup = share(size.width as int, size.height as int, 80, 60, 80, 15);
    let content = inside_border(popup);
    let frame = popup_box(
        popup,
        " CUE preview · "@ + name_or_path(state.write_path@) + " "@,
        Tone::Amber,
    );
    if content.height < 3 {
        scene == frame && hits.len() == 0
    } else {
        exists|chunks: Seq<Rect>|
            #[trigger] divides(Direction::Vertical, cue_parts(), content, chunks) && scene == frame
                + cue_body(state, chunks) && hits == cue_hits(state, chunks)
    }
}

/// The dialog that shows a cue sheet before it is written.
pub fn draw_cue_preview(size: Rect, state: &CuePreviewState) -> (r: (Scene, ButtonRenderMap))
    ensures
        shows_cue(*state, size, r.0@, r.1@),
{
    let popup = share_rect(size.width, size.height, 80, 60, 80, 15);
    let name = file_name_or_path(state.write_path.as_str());
    let title = cat3(" CUE preview · ", name.as_str(), " ");
    let mut scene = draw_popup_box(popup, title.as_str(), Tone::Amber);
    let content = inner(popup);
    if content.height < 3 {
        return (scene, ButtonRenderMap::new());
    }
    let mut wishes: Vec<Constraint> = Vec::new();
    wishes.push(Constraint::Length(1));
    wishes.push(Constraint::Length(1));
    wishes.push(Constraint::Min(1));
    wishes.push(Constraint::Length(1));
    proof {
        assert(wishes@ =~= cue_parts());
    }
    let chunks = split(Direction::Vertical, &wishes, content);
    assert(divides(Direction::Vertical, cue_parts(), content, chunks@));
    let (body, hits) = draw_cue_body(state, &chunks);
    scene.append(body);
    (scene, hits)
}

proof fn lemma_label(labels: Seq<Label>, area: Rect, i: nat, n: nat)
    requires
        i < n <= labels.len(),
    ensures
        label_spans(labels, i).len() == i,
        label_spans(labels, n).len() == n,
        label_spans(labels, i) == label_spans(labels, n).take(i as int),
        label_spans(labels, n)[i as int].text == labels[i as int].text@,
        label_hits(labels, area, n).len() == n,
        label_hits(labels, area, n)[i as int] == label_hits(labels, area, i + 1).last(),
    decreases n,
{
    let before = label_spans(labels, (n - 1) as nat);
    let all = label_spans(labels, n);
    if n == 1 {
        assert(label_hits(labels, area, 0).len() == 0);
    } else if i == n - 1 {
        lemma_label(labels, area, (i - 1) as nat, i);
    } else {
        lemma_label(labels, area, i, (n - 1) as nat);
    }
    assert(before.take(i as int) =~= all.take(i as int));
    if i == n - 1 {
        assert(before =~= before.take(i as int));
    }
}

proof fn lemma_label_column(labels: Seq<Label>, area: Rect, i: nat)
    requires
        i < labels.len(),
        area.x + span_chars(label_spans(labels, i), i) <= u16::MAX,
    ensures
        label_x(labels, area.x as int, i) == area.x + span_chars(label_spans(labels, i), i),
    decreases i,
{
    if i > 0 {
        lemma_label(labels, area, (i - 1) as nat, i);
        lemma_span_chars_prefix(
            label_spans(labels, (i - 1) as nat),
            label_spans(labels, i),
            (i - 1) as nat,
        );
        lemma_label_column(labels, area, (i - 1) as nat);
    }
}

/// A label of the last line is clicked exactly where it is drawn, wherever the line leaves room
/// for it on a screen of sixteen-bit columns.
pub proof fn label_is_clicked_where_it_is_drawn(
    state: CuePreviewState,
    area: Rect,
    height: int,
    i: nat,
)
    requires
        i < footer_labels(state).len(),
        area.x + span_chars(footer_line(state, height), i + 1) <= u16::MAX,
    ensures
        ({
            let labels = footer_labels(state);
            let line = footer_line(state, height);
            let hit = label_hits(labels, area, labels.len())[i as int];
            &&& line[i as int].text == labels[i as int].text@
            &&& hit.0 == labels[i as int].button
            &&& hit.1.x == area.x + span_chars(line, i)
            &&& hit.1.y == area.y
            &&& hit.1.width == line[i as int].text.len()
            &&& hit.1.height == 1
        }),
{
    let labels = footer_labels(state);
    let line = footer_line(state, height);
    let front = label_spans(labels, labels.len());
    lemma_label(labels, area, i, labels.len());
    assert(forall|j: int| 0 <= j < front.len() ==> line[j] == front[j]);
    lemma_span_chars_prefix(label_spans(labels, i), line, i);
    lemma_label_column(labels, area, i);
}

} // verus!
