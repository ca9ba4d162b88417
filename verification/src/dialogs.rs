//! Small dialogs: lists of files, confirmations, errors, facts of an item, and text
//! entry.

use crate::button_map::{ButtonRenderMap, Hit, TuiButton};
use crate::convert::SourceMode;
use crate::display_width::{shown_width, width};
use crate::geometry::{centered, centered_rect, inner, inside_border, plus16, Rect};
use crate::inline_edit::TextInputState;
use crate::layout::{divides, split, split_text_and_line, text_and_line, Constraint, Direction};
use crate::overlay_parts::{
    draw_popup_box, one_pill, one_pill_line, popup_box, two_pill_line, two_pills,
};
use crate::path::{file_name_or_empty, name_or_empty, parent, parent_of};
use crate::scene::{
    centered_op, line1, line2, line3, line_op, sp, text_op, Align, Line, LineV, Op, OpV, Rows,
    RowsV, Scene, SceneV,
};
use crate::style::{bg, bold, fg, on, plain, Style, Tone};
use crate::text::{
    align_right, cat2, cat3, cat4, cat5, cat6, dec_len, decimal, joined, least, lines_of, low16,
    minus, most, owned, plus, right_aligned, split_lines, to_u16, Texts,
};
use vstd::prelude::*;

verus! {

/// The parent directory's name; nothing where there is none.
pub open spec fn folder_name(path: Seq<char>) -> Seq<char> {
    match parent_of(path) {
        Some(dir) => name_or_empty(dir),
        None => Seq::empty(),
    }
}

fn folder_name_text(path: &str) -> (r: String)
    ensures
        r@ == folder_name(path@),
{
    match parent(path) {
        Some(dir) => file_name_or_empty(dir.as_str()),
        None => String::new(),
    }
}

/// A file in the list: its number, its directory and its name.
pub open spec fn batch_entry_text(path: Seq<char>, i: int) -> Seq<char> {
    let folder = folder_name(path);
    let front = " "@ + right_aligned(decimal((i + 1) as nat), 4) + "  "@;
    if folder.len() == 0 {
        front + name_or_empty(path)
    } else {
        front + folder + " · "@ + name_or_empty(path)
    }
}

/// The style of a file in the list.
#[verifier::allow_in_spec]
pub fn batch_entry_style(at_cursor: bool) -> Style
    returns
        (if at_cursor {
            bold(on(Tone::Bg, Tone::Amber))
        } else {
            fg(Tone::TextBright)
        }),
{
    if at_cursor {
        bold(on(Tone::Bg, Tone::Amber))
    } else {
        fg(Tone::TextBright)
    }
}

/// A file in the list.
pub open spec fn batch_entry(path: Seq<char>, i: int, at_cursor: bool) -> LineV {
    seq![sp(batch_entry_text(path, i), batch_entry_style(at_cursor))]
}

fn batch_entry_line(path: &str, i: usize, at_cursor: bool) -> (r: Line)
    requires
        i < usize::MAX,
    ensures
        r@ == batch_entry(path@, i as int, at_cursor),
{
    let folder = folder_name_text(path);
    let name = file_name_or_empty(path);
    let number = align_right(dec_len(i + 1).as_str(), 4);
    let front = cat3(" ", number.as_str(), "  ");
    let text = if folder.as_str().is_empty() {
        cat2(front.as_str(), name.as_str())
    } else {
        cat4(front.as_str(), folder.as_str(), " · ", name.as_str())
    };
    line1(text.as_str(), batch_entry_style(at_cursor))
}

/// The first file shown in `rows` rows: as far as scrolled, but so that the one at the
/// cursor is shown and the list is not scrolled past its end.
pub open spec fn batch_start(scroll: int, cursor: int, len: int, rows: int) -> int {
    if rows == 0 {
        0
    } else {
        let low = minus(cursor, minus(rows, 1));
        let high = most(least(cursor, minus(len, rows)), low);
        most(least(scroll, high), low)
    }
}

/// The file at the cursor is among those shown.
pub proof fn batch_cursor_is_visible(scroll: int, cursor: int, len: int, rows: int)
    requires
        0 <= scroll,
        0 <= cursor < len,
        rows > 0,
    ensures
        0 <= batch_start(scroll, cursor, len, rows) <= cursor < batch_start(
            scroll,
            cursor,
            len,
            rows,
        ) + rows,
{
}

/// The files shown in `rows` rows.
pub open spec fn batch_entries(paths: Seq<String>, cursor: int, scroll: int, rows: int) -> RowsV {
    let start = batch_start(scroll, cursor, paths.len() as int, rows);
    Seq::new(
        least(rows, minus(paths.len() as int, start)) as nat,
        |k: int| batch_entry(paths[start + k]@, start + k, start + k == cursor),
    )
}

fn batch_entry_lines(paths: &Vec<String>, cursor: usize, scroll: usize, rows: usize) -> (r: Rows)
    requires
        cursor < paths@.len(),
    ensures
        r@ == batch_entries(paths@, cursor as int, scroll as int, rows as int),
{
    let total: usize = paths.len();
    let start: usize = if rows == 0 {
        0
    } else {
        let low: usize = cursor.saturating_sub(rows - 1);
        let last: usize = total.saturating_sub(rows);
        let wished: usize = if cursor <= last { cursor } else { last };
        let high: usize = if wished >= low { wished } else { low };
        let at: usize = if scroll <= high { scroll } else { high };
        if at >= low {
            at
        } else {
            low
        }
    };
    let left: usize = total.saturating_sub(start);
    let shown: usize = if rows <= left { rows } else { left };
    let mut lines = Rows::new();
    let ghost all = batch_entries(paths@, cursor as int, scroll as int, rows as int);
    for k in 0..shown
        invariant
            total == paths@.len(),
            start + shown <= total,
            all == Seq::new(
                shown as nat,
                |k: int| batch_entry(paths@[start + k]@, start + k, start + k == cursor),
            ),
            lines@ =~= all.take(k as int),
    {
        let i: usize = start + k;
        lines.push(batch_entry_line(paths[i].as_str(), i, i == cursor));
    }
    proof {
        assert(lines@ =~= all);
    }
    lines
}

/// The place of the list of files.
pub open spec fn batch_popup(size: Rect) -> Rect {
    centered(
        most(least(minus(size.width as int, 8), 100), 40),
        most(least(minus(size.height as int, 6), 30), 10),
        size,
    )
}

/// The files and the key hints, in two areas.
pub open spec fn batch_body(paths: Seq<String>, cursor: int, scroll: int, chunks: Seq<Rect>) -> SceneV {
    seq![
        text_op(
            chunks[0],
            batch_entries(paths, cursor, scroll, chunks[0].height as int),
            plain(),
        ),
        centered_op(chunks[1], two_pills("d remove"@, Tone::Red, "Esc close"@, Tone::Purple)),
    ]
}

/// Draws the files and the key hints, in two areas.
pub fn draw_batch_body(paths: &Vec<String>, cursor: usize, scroll: usize, chunks: &Vec<Rect>) -> (r:
    Scene)
    requires
        cursor < paths@.len(),
        chunks@.len() == 2,
    ensures
        r@ == batch_body(paths@, cursor as int, scroll as int, chunks@),
{
    let mut scene = Scene::new();
    let rows = batch_entry_lines(paths, cursor, scroll, chunks[0].height as usize);
    scene.text(chunks[0], rows, plain());
    scene.centered(
        chunks[1],
        two_pill_line("d remove", Tone::Red, "Esc close", Tone::Purple),
    );
    scene
}

/// `scene` shows the files of a batch that is not empty.
pub open spec fn shows_files(size: Rect, paths: Seq<String>, cursor: int, scroll: int, scene: SceneV) -> bool {
    let popup = batch_popup(size);
    exists|chunks: Seq<Rect>| #[trigger]
        divides(Direction::Vertical, text_and_line(), inside_border(popup), chunks) && scene
            == popup_box(popup, " batch · "@ + decimal(paths.len()) + " files "@, Tone::Amber)
            + batch_body(paths, least(cursor, paths.len() - 1), scroll, chunks)
}

fn draw_files(size: Rect, paths: &Vec<String>, cursor: usize, scroll: usize) -> (r: Scene)
    requires
        size.wf(),
        paths@.len() > 0,
    ensures
        shows_files(size, paths@, cursor as int, scroll as int, r@),
{
    let total: usize = paths.len();
    let at: usize = if cursor <= total - 1 { cursor } else { total - 1 };
    let w: u16 = size.width.saturating_sub(8);
    let w: u16 = if w <= 100 { w } else { 100 };
    let w: u16 = if w >= 40 { w } else { 40 };
    let h: u16 = size.height.saturating_sub(6);
    let h: u16 = if h <= 30 { h } else { 30 };
    let h: u16 = if h >= 10 { h } else { 10 };
    let popup = centered_rect(w, h, size);
    let title = cat3(" batch · ", dec_len(total).as_str(), " files ");
    let mut scene = draw_popup_box(popup, title.as_str(), Tone::Amber);
    let chunks = split_text_and_line(inner(popup));
    scene.append(draw_batch_body(paths, at, scroll, &chunks));
    proof {
        assert(popup == batch_popup(size));
        assert(at == least(cursor as int, paths@.len() - 1));
        assert(divides(Direction::Vertical, text_and_line(), inside_border(popup), chunks@));
    }
    scene
}

/// `scene` shows the files of a batch; nothing where there is no batch.
pub open spec fn shows_batch(size: Rect, source: SourceMode, scroll: int, scene: SceneV) -> bool {
    match source {
        SourceMode::Batch { paths, cursor } => if paths@.len() > 0 {
            shows_files(size, paths@, cursor as int, scroll, scene)
        } else {
            scene == Seq::<OpV>::empty()
        },
        _ => scene == Seq::<OpV>::empty(),
    }
}

/// The list of all files in the batch, with the one at the cursor highlighted.
pub fn draw_batch_list(size: Rect, source: &SourceMode, stored_scroll: usize) -> (r: Scene)
    requires
        size.wf(),
    ensures
        shows_batch(size, *source, stored_scroll as int, r@),
{
    match source {
        SourceMode::Batch { paths, cursor } => if paths.len() > 0 {
            draw_files(size, paths, *cursor, stored_scroll)
        } else {
            Scene::new()
        },
        _ => Scene::new(),
    }
}

/// A text with a row for each of its lines.
pub open spec fn paragraph(text: Seq<char>) -> RowsV {
    if text.len() == 0 {
        seq![seq![sp(""@, plain())]]
    } else {
        Seq::new(lines_of(text).len(), |i: int| seq![sp(lines_of(text)[i], plain())])
    }
}

/// A text with a row for each of its lines.
pub fn paragraph_rows(text: &str) -> (r: Rows)
    ensures
        r@ == paragraph(text@),
{
    if text.is_empty() {
        let rows = Rows::of(line1("", plain()));
        proof {
            assert(rows@ =~~= paragraph(text@));
        }
        return rows;
    }
    let lines = split_lines(text);
    let mut rows = Rows::new();
    for i in 0..lines.items.len()
        invariant
            lines@ == lines_of(text@),
            text@.len() > 0,
            rows@ =~= paragraph(text@).take(i as int),
    {
        rows.push(line1(lines.items[i].as_str(), plain()));
        proof {
            assert(rows@.last() =~= seq![sp(lines_of(text@)[i as int], plain())]);
        }
    }
    proof {
        assert(rows@ =~= paragraph(text@));
    }
    rows
}

/// Text that wraps, in the middle of its area or at the left.
pub open spec fn wrapped_op(area: Rect, rows: RowsV, style: Style, align: Align) -> OpV {
    OpV::Text { area, rows, style, align, wrap: true }
}

/// A question and its two answers, in two areas.
pub open spec fn confirmation_body(message: Seq<char>, chunks: Seq<Rect>) -> SceneV {
    seq![
        wrapped_op(chunks[0], paragraph(message), plain(), Align::Center),
        centered_op(chunks[1], two_pills("Y yes"@, Tone::Green, "N no"@, Tone::Red)),
    ]
}

/// The places of the two answers, in the middle of `area`.
pub open spec fn confirmation_hits(area: Rect) -> Seq<Hit> {
    let yes = low16(shown_width(" Y yes "@) as int);
    let gap = low16(shown_width(" "@) as int);
    let no = low16(shown_width(" N no "@) as int);
    let total = plus16(plus16(yes, gap), no);
    let start = plus16(area.x as int, minus(area.width as int, total) / 2);
    seq![
        (
            TuiButton::OverlayConfirm,
            Rect { x: start as u16, y: area.y, width: yes as u16, height: 1 },
        ),
        (
            TuiButton::OverlayCancel,
            Rect {
                x: plus16(plus16(start, yes), gap) as u16,
                y: area.y,
                width: no as u16,
                height: 1,
            },
        ),
    ]
}

/// Draws a question and its two answers, in two areas.
pub fn draw_confirmation_body(message: &str, chunks: &Vec<Rect>) -> (r: (Scene, ButtonRenderMap))
    requires
        chunks@.len() == 2,
    ensures
        r.0@ == confirmation_body(message@, chunks@),
        r.1@ == confirmation_hits(chunks@[1]),
{
    let mut scene = Scene::new();
    let rows = paragraph_rows(message);
    scene.push(
        Op::Text { area: chunks[0], rows, style: plain(), align: Align::Center, wrap: true },
    );
    scene.centered(chunks[1], two_pill_line("Y yes", Tone::Green, "N no", Tone::Red));
    let area = chunks[1];
    let yes: u16 = to_u16(width(" Y yes "));
    let gap: u16 = to_u16(width(" "));
    let no: u16 = to_u16(width(" N no "));
    let total: u16 = yes.saturating_add(gap).saturating_add(no);
    let start: u16 = area.x.saturating_add(area.width.saturating_sub(total) / 2);
    let mut hits = ButtonRenderMap::new();
    hits.record_button(
        TuiButton::OverlayConfirm,
        Rect { x: start, y: area.y, width: yes, height: 1 },
    );
    hits.record_button(
        TuiButton::OverlayCancel,
        Rect {
            x: start.saturating_add(yes).saturating_add(gap),
            y: area.y,
            width: no,
            height: 1,
        },
    );
    proof {
        assert(scene@ =~= confirmation_body(message@, chunks@));
        assert(hits@ =~= confirmation_hits(chunks@[1]));
    }
    (scene, hits)
}

/// `scene` and `hits` show a question.
pub open spec fn shows_confirmation(size: Rect, message: Seq<char>, scene: SceneV, hits: Seq<Hit>) -> bool {
    let popup = centered(50, 9, size);
    exists|chunks: Seq<Rect>| #[trigger]
        divides(Direction::Vertical, text_and_line(), inside_border(popup), chunks) && scene
            == popup_box(popup, " Confirm "@, Tone::Amber) + confirmation_body(message, chunks)
            && hits == confirmation_hits(chunks[1])
}

/// Draw a confirmation dialog.
pub fn draw_confirmation(size: Rect, message: &str) -> (r: (Scene, ButtonRenderMap))
    requires
        size.wf(),
    ensures
        shows_confirmation(size, message@, r.0@, r.1@),
{
    let popup = centered_rect(50, 9, size);
    let mut scene = draw_popup_box(popup, " Confirm ", Tone::Amber);
    let chunks = split_text_and_line(inner(popup));
    let (contents, hits) = draw_confirmation_body(message, &chunks);
    scene.append(contents);
    (scene, hits)
}

/// Text that wraps, and a pill that closes the dialog.
pub open spec fn closable_body(rows: RowsV, style: Style, chunks: Seq<Rect>) -> SceneV {
    seq![
        wrapped_op(chunks[0], rows, style, Align::Left),
        centered_op(chunks[1], one_pill("Esc close"@, Tone::Purple)),
    ]
}

/// Draws text that wraps, and a pill that closes the dialog, in two areas.
pub fn draw_closable_body(rows: Rows, style: Style, chunks: &Vec<Rect>) -> (r: Scene)
    requires
        chunks@.len() == 2,
    ensures
        r@ == closable_body(rows@, style, chunks@),
{
    let mut scene = Scene::new();
    scene.push(Op::Text { area: chunks[0], rows, style, align: Align::Left, wrap: true });
    scene.centered(chunks[1], one_pill_line("Esc close", Tone::Purple));
    scene
}

/// `scene` shows a box with text that wraps, and a pill that closes it.
pub open spec fn shows_closable(
    popup: Rect,
    title: Seq<char>,
    tone: Tone,
    rows: RowsV,
    style: Style,
    scene: SceneV,
) -> bool {
    exists|chunks: Seq<Rect>| #[trigger]
        divides(Direction::Vertical, text_and_line(), inside_border(popup), chunks) && scene
            == popup_box(popup, title, tone) + closable_body(rows, style, chunks)
}

/// Draw an error detail popup.
pub fn draw_error_detail(size: Rect, error: &str) -> (r: Scene)
    requires
        size.wf(),
    ensures
        shows_closable(
            centered(60, 12, size),
            " Error Detail "@,
            Tone::AnsiRed,
            paragraph(error@),
            fg(Tone::AnsiRed),
            r@,
        ),
{
    let popup = centered_rect(60, 12, size);
    let mut scene = draw_popup_box(popup, " Error Detail ", Tone::AnsiRed);
    let chunks = split_text_and_line(inner(popup));
    scene.append(draw_closable_body(paragraph_rows(error), fg(Tone::AnsiRed), &chunks));
    scene
}

/// How far an item has come.
#[derive(Debug)]
pub enum ConversionStatus {
    NotConfigured,
    Queued,
    /// `progress` is the percentage to one decimal.
    Processing { progress: String, message: Option<String>, phase: Option<String> },
    Completed { output_path: String, log_path: Option<String> },
    Partial { output_path: String, successful: usize, failed: usize, report_path: String },
    Failed { error: String, log_path: Option<String> },
    Paused,
    Cancelled,
}

/// An item of the conversion queue.
#[derive(Debug)]
pub struct ConversionItem {
    pub input_path: String,
    pub file_size: u64,
    /// The name of the input format.
    pub input_format: String,
    /// The name of the output format.
    pub output_format: String,
    pub status: ConversionStatus,
}

/// A status in words.
pub open spec fn status_words(status: ConversionStatus) -> Seq<char> {
    match status {
        ConversionStatus::NotConfigured => "Not Configured"@,
        ConversionStatus::Queued => "Queued"@,
        ConversionStatus::Processing { progress, message, phase } => {
            let doing = match (message, phase) {
                (Some(message), _) => message@,
                (None, Some(phase)) => phase@,
                (None, None) => "Processing"@,
            };
            progress@ + "% - "@ + doing
        },
        ConversionStatus::Completed { output_path, .. } => "Completed -> "@ + output_path@,
        ConversionStatus::Partial { output_path, successful, failed, .. } => "Partial ("@ + decimal(
            successful as nat,
        ) + "/"@ + decimal(plus(successful as int, failed as int) as nat) + " ok) -> "@
            + output_path@,
        ConversionStatus::Failed { error, .. } => "Failed: "@ + error@,
        ConversionStatus::Paused => "Paused"@,
        ConversionStatus::Cancelled => "Cancelled"@,
    }
}

/// A status in words.
pub fn status_text(status: &ConversionStatus) -> (r: String)
    ensures
        r@ == status_words(*status),
{
    match status {
        ConversionStatus::NotConfigured => owned("Not Configured"),
        ConversionStatus::Queued => owned("Queued"),
        ConversionStatus::Processing { progress, message, phase } => {
            let doing = match (message, phase) {
                (Some(message), _) => message.as_str(),
                (None, Some(phase)) => phase.as_str(),
                (None, None) => "Processing",
            };
            cat3(progress.as_str(), "% - ", doing)
        },
        ConversionStatus::Completed { output_path, .. } => cat2("Completed -> ", output_path.as_str()),
        ConversionStatus::Partial { output_path, successful, failed, .. } => cat6(
            "Partial (",
            dec_len(*successful).as_str(),
            "/",
            dec_len(successful.saturating_add(*failed)).as_str(),
            " ok) -> ",
            output_path.as_str(),
        ),
        ConversionStatus::Failed { error, .. } => cat2("Failed: ", error.as_str()),
        ConversionStatus::Paused => owned("Paused"),
        ConversionStatus::Cancelled => owned("Cancelled"),
    }
}

/// Where the log of a finished conversion is kept.
pub open spec fn log_of(status: ConversionStatus) -> Option<Seq<char>> {
    match status {
        ConversionStatus::Completed { log_path: Some(path), .. } => Some(path@),
        ConversionStatus::Partial { report_path, .. } => Some(report_path@),
        ConversionStatus::Failed { log_path: Some(path), .. } => Some(path@),
        _ => None,
    }
}

fn log_path(status: &ConversionStatus) -> (r: Option<&str>)
    ensures
        match r {
            Some(path) => log_of(*status) == Some(path@),
            None => log_of(*status) is None,
        },
{
    match status {
        ConversionStatus::Completed { log_path: Some(path), .. } => Some(path.as_str()),
        ConversionStatus::Partial { report_path, .. } => Some(report_path.as_str()),
        ConversionStatus::Failed { log_path: Some(path), .. } => Some(path.as_str()),
        _ => None,
    }
}

/// A size in binary units, as `humansize` words it.
pub uninterp spec fn binary_size(bytes: u64) -> Seq<char>;

/// `humansize::format_size` with its `BINARY` options: the size in words. The words
/// depend on the number alone.
#[verifier::external_body]
fn human_size(bytes: u64) -> (r: String)
    ensures
        r@ == binary_size(bytes),
{
    humansize::format_size(bytes, humansize::BINARY)
}

/// A fact of an item.
pub open spec fn fact_row(label: Seq<char>, value: Seq<char>, tone: Tone) -> LineV {
    seq![sp(label, fg(Tone::AnsiGray)), sp(value, fg(tone))]
}

fn fact_line(label: &str, value: &str, tone: Tone) -> (r: Line)
    ensures
        r@ == fact_row(label@, value@, tone),
{
    line2(label, fg(Tone::AnsiGray), value, fg(tone))
}

/// The directory of an item; the item's own path where it has none.
pub open spec fn parent_or_self(path: Seq<char>) -> Seq<char> {
    match parent_of(path) {
        Some(dir) => dir,
        None => path,
    }
}

/// The facts of an item whose size in words is `size`.
pub open spec fn item_rows(item: ConversionItem, size: Seq<char>) -> RowsV {
    seq![
        fact_row("File: "@, name_or_empty(item.input_path@), Tone::AnsiWhite),
        fact_row("Path: "@, parent_or_self(item.input_path@), Tone::AnsiDarkGray),
        fact_row("Size: "@, size, Tone::AnsiWhite),
        fact_row("Input: "@, item.input_format@, Tone::AnsiCyan),
        fact_row("Output: "@, item.output_format@, Tone::AnsiGreen),
        fact_row("Status: "@, status_words(item.status), Tone::AnsiYellow),
    ] + match log_of(item.status) {
        Some(path) => seq![fact_row("Log: "@, path, Tone::AnsiDarkGray)],
        None => Seq::empty(),
    }
}

/// The facts of an item whose size in words is `size`.
pub fn item_lines(item: &ConversionItem, size: &str) -> (r: Rows)
    ensures
        r@ == item_rows(*item, size@),
{
    let name = file_name_or_empty(item.input_path.as_str());
    let dir = match parent(item.input_path.as_str()) {
        Some(dir) => dir,
        None => owned(item.input_path.as_str()),
    };
    let status = status_text(&item.status);
    let mut rows = Rows::of(fact_line("File: ", name.as_str(), Tone::AnsiWhite));
    rows.push(fact_line("Path: ", dir.as_str(), Tone::AnsiDarkGray));
    rows.push(fact_line("Size: ", size, Tone::AnsiWhite));
    rows.push(fact_line("Input: ", item.input_format.as_str(), Tone::AnsiCyan));
    rows.push(fact_line("Output: ", item.output_format.as_str(), Tone::AnsiGreen));
    rows.push(fact_line("Status: ", status.as_str(), Tone::AnsiYellow));
    match log_path(&item.status) {
        Some(path) => {
            rows.push(fact_line("Log: ", path, Tone::AnsiDarkGray));
        },
        None => {},
    }
    proof {
        assert(rows@ =~= item_rows(*item, size@));
    }
    rows
}

/// Draw item info popup.
pub fn draw_item_info(size: Rect, item: &ConversionItem) -> (r: Scene)
    requires
        size.wf(),
    ensures
        shows_closable(
            centered(70, 16, size),
            " Item Info "@,
            Tone::AnsiCyan,
            item_rows(*item, binary_size(item.file_size)),
            plain(),
            r@,
        ),
{
    let popup = centered_rect(70, 16, size);
    let mut scene = draw_popup_box(popup, " Item Info ", Tone::AnsiCyan);
    let words = human_size(item.file_size);
    let rows = item_lines(item, words.as_str());
    let chunks = split_text_and_line(inner(popup));
    scene.append(draw_closable_body(rows, plain(), &chunks));
    scene
}

/// The text shown in a field of `width` columns; a space where there is none.
pub open spec fn entry_text(input: TextInputState, width: int) -> Seq<char> {
    let shown = input.window(width);
    if shown.len() == 0 {
        " "@
    } else {
        shown
    }
}

/// The three rows of a text entry: what to enter, the field with the cursor, and the
/// key hints.
pub open spec fn entry_body(
    hint: Seq<char>,
    confirm: Seq<char>,
    input: TextInputState,
    chunks: Seq<Rect>,
) -> SceneV {
    let field = chunks[1];
    let w = field.width as int;
    seq![
        line_op(chunks[0], seq![sp(hint, fg(Tone::AnsiGray))]),
        text_op(
            field,
            seq![seq![sp(entry_text(input, w), fg(Tone::AnsiWhite))]],
            bg(Tone::Rgb(55, 60, 80)),
        ),
        OpV::Cursor {
            x: plus16(field.x as int, input.cursor_column(w)) as u16,
            y: field.y,
        },
        centered_op(chunks[2], two_pills(confirm, Tone::Green, "Esc cancel"@, Tone::Purple)),
    ]
}

/// Draws the three rows of a text entry.
pub fn draw_entry_body(hint: &str, confirm: &str, input: &TextInputState, chunks: &Vec<Rect>) -> (r:
    Scene)
    requires
        chunks@.len() == 3,
    ensures
        r@ == entry_body(hint@, confirm@, *input, chunks@),
{
    let field = chunks[1];
    let (view, column) = input.view(field.width as usize);
    let shown = if view.as_str().is_empty() {
        owned(" ")
    } else {
        view
    };
    let mut scene = Scene::new();
    scene.line(chunks[0], line1(hint, fg(Tone::AnsiGray)));
    let rows = Rows::of(line1(shown.as_str(), fg(Tone::AnsiWhite)));
    proof {
        assert(rows@ =~~= seq![
            seq![sp(entry_text(*input, field.width as int), fg(Tone::AnsiWhite))],
        ]);
    }
    scene.text(field, rows, bg(Tone::Rgb(55, 60, 80)));
    scene.cursor(field.x.saturating_add(column), field.y);
    scene.centered(chunks[2], two_pill_line(confirm, Tone::Green, "Esc cancel", Tone::Purple));
    proof {
        assert(scene@ =~= entry_body(hint@, confirm@, *input, chunks@));
    }
    scene
}

/// Three rows of one line each.
pub open spec fn three_lines() -> Seq<Constraint> {
    seq![Constraint::Length(1), Constraint::Length(1), Constraint::Length(1)]
}

fn split_three_lines(area: Rect) -> (r: Vec<Rect>)
    requires
        area.wf(),
    ensures
        divides(Direction::Vertical, three_lines(), area, r@),
        r@.len() == 3,
{
    let mut wishes: Vec<Constraint> = Vec::new();
    wishes.push(Constraint::Length(1));
    wishes.push(Constraint::Length(1));
    wishes.push(Constraint::Length(1));
    proof {
        assert(wishes@ =~= three_lines());
    }
    split(Direction::Vertical, &wishes, area)
}

/// `scene` shows a box in which a text is entered.
pub open spec fn shows_entry(
    popup: Rect,
    title: Seq<char>,
    hint: Seq<char>,
    confirm: Seq<char>,
    input: TextInputState,
    scene: SceneV,
) -> bool {
    exists|chunks: Seq<Rect>| #[trigger]
        divides(Direction::Vertical, three_lines(), inside_border(popup), chunks) && scene
            == popup_box(popup, title, Tone::AnsiBlue) + entry_body(hint, confirm, input, chunks)
}

/// Draw file input overlay for adding files.
pub fn draw_file_input(size: Rect, input: &TextInputState) -> (r: Scene)
    requires
        size.wf(),
    ensures
        shows_entry(
            centered(60, 7, size),
            " Add File/Folder Path "@,
            "Enter a file or folder path:"@,
            "Enter confirm"@,
            *input,
            r@,
        ),
{
    let popup = centered_rect(60, 7, size);
    let mut scene = draw_popup_box(popup, " Add File/Folder Path ", Tone::AnsiBlue);
    let chunks = split_three_lines(inner(popup));
    scene.append(
        draw_entry_body("Enter a file or folder path:", "Enter confirm", input, &chunks),
    );
    scene
}

/// Draw a generic text edit overlay (for editing a single field).
pub fn draw_text_edit(size: Rect, label: &str, input: &TextInputState) -> (r: Scene)
    requires
        size.wf(),
    ensures
        shows_entry(
            centered(least(minus(size.width as int, 4), 80), 7, size),
            " Edit "@ + label@ + " "@,
            "Enter new "@ + label@ + ":"@,
            "Enter save"@,
            *input,
            r@,
        ),
{
    let room: u16 = size.width.saturating_sub(4);
    let popup = centered_rect(if room <= 80 { room } else { 80 }, 7, size);
    let title = cat3(" Edit ", label, " ");
    let mut scene = draw_popup_box(popup, title.as_str(), Tone::AnsiBlue);
    let chunks = split_three_lines(inner(popup));
    let hint = cat3("Enter new ", label, ":");
    scene.append(draw_entry_body(hint.as_str(), "Enter save", input, &chunks));
    scene
}

/// The candidates that complete a command.
#[derive(Debug)]
pub struct CompletionState {
    pub candidates: Vec<String>,
    pub cursor: usize,
}

impl CompletionState {
    /// The previewed candidates can be numbered.
    pub open spec fn previewable(self) -> bool {
        self.cursor + least(6, self.candidates@.len() as int) - 1 <= usize::MAX
    }
}

/// The first `n` candidates from the current one on, around the end.
pub open spec fn candidates_from(state: CompletionState, n: nat) -> Seq<Seq<char>> {
    Seq::new(
        n,
        |i: int| state.candidates@[(state.cursor + i) % (state.candidates@.len() as int)]@,
    )
}

fn candidate_preview(state: &CompletionState, n: usize) -> (r: Texts)
    requires
        state.candidates@.len() > 0,
        n > 0 ==> state.cursor + n - 1 <= usize::MAX,
    ensures
        r@ == candidates_from(*state, n as nat),
{
    let total: usize = state.candidates.len();
    let mut parts = Texts::new();
    for i in 0..n
        invariant
            total == state.candidates@.len(),
            total > 0,
            n > 0 ==> state.cursor + n - 1 <= usize::MAX,
            parts@ =~= candidates_from(*state, i as nat),
    {
        let at: usize = (state.cursor + i) % total;
        parts.push(owned(state.candidates[at].as_str()));
    }
    parts
}

/// The line that previews the candidates.
pub open spec fn completion_line(state: CompletionState) -> LineV {
    let total = state.candidates@.len();
    let n = least(6, total as int) as nat;
    seq![
        sp(
            "["@ + decimal((state.cursor + 1) as nat) + "/"@ + decimal(total) + "] "@,
            fg(Tone::Rgb(187, 154, 247)),
        ),
        sp(joined(candidates_from(state, n), "  "@), fg(Tone::Rgb(169, 177, 214))),
        sp(
            if total > n {
                " …"@
            } else {
                ""@
            },
            fg(Tone::Rgb(86, 95, 137)),
        ),
    ]
}

fn line_of_completion(state: &CompletionState) -> (r: Line)
    requires
        state.candidates@.len() > 1,
        state.previewable(),
    ensures
        r@ == completion_line(*state),
{
    let total: usize = state.candidates.len();
    let n: usize = if total >= 6 { 6 } else { total };
    let front = cat5(
        "[",
        dec_len(state.cursor + 1).as_str(),
        "/",
        dec_len(total).as_str(),
        "] ",
    );
    let names = candidate_preview(state, n).join("  ");
    let rest = if total > n {
        " …"
    } else {
        ""
    };
    line3(
        front.as_str(),
        fg(Tone::Rgb(187, 154, 247)),
        names.as_str(),
        fg(Tone::Rgb(169, 177, 214)),
        rest,
        fg(Tone::Rgb(86, 95, 137)),
    )
}

/// The command being typed.
pub open spec fn command_line(input: TextInputState, w: int) -> LineV {
    seq![
        sp(":"@, fg(Tone::Rgb(122, 162, 247))),
        sp(input.window(w), fg(Tone::Rgb(192, 202, 245))),
    ]
}

/// The preview of candidates in the row above the command, where there are several.
pub open spec fn completion_scene(completion: Option<CompletionState>, area: Rect, row: int) -> SceneV {
    match completion {
        Some(state) if state.candidates@.len() > 1 && area.height >= 2 => {
            let hint = Rect {
                x: area.x,
                y: minus(row, 1) as u16,
                width: area.width,
                height: 1,
            };
            seq![
                OpV::Clear(hint),
                text_op(hint, seq![completion_line(state)], bg(Tone::Rgb(26, 27, 38))),
            ]
        },
        _ => Seq::empty(),
    }
}

/// The command line in the last row.
pub open spec fn command_scene(
    area: Rect,
    input: TextInputState,
    completion: Option<CompletionState>,
) -> SceneV {
    let row = plus16(area.y as int, minus(area.height as int, 1));
    let w = minus(area.width as int, 1);
    let line = Rect { x: area.x, y: row as u16, width: area.width, height: 1 };
    seq![
        OpV::Clear(line),
        text_op(line, seq![command_line(input, w)], bg(Tone::Rgb(26, 27, 38))),
    ] + completion_scene(completion, area, row) + seq![
        OpV::Cursor {
            x: plus16(plus16(area.x as int, 1), input.cursor_column(w)) as u16,
            y: row as u16,
        },
    ]
}

/// Draw the vim-style command line at the bottom of the screen.
pub fn draw_command_input(
    area: Rect,
    input: &TextInputState,
    completion: &Option<CompletionState>,
) -> (r: Scene)
    requires
        completion matches Some(state) ==> (state.candidates@.len() > 1 ==> state.previewable()),
    ensures
        r@ == command_scene(area, *input, *completion),
{
    let row: u16 = area.y.saturating_add(area.height.saturating_sub(1));
    let line_area = Rect { x: area.x, y: row, width: area.width, height: 1 };
    let w: usize = (area.width as usize).saturating_sub(1);
    let (view, column) = input.view(w);
    let mut scene = Scene::new();
    scene.clear(line_area);
    let line = line2(
        ":",
        fg(Tone::Rgb(122, 162, 247)),
        view.as_str(),
        fg(Tone::Rgb(192, 202, 245)),
    );
    proof {
        assert(line@ =~= command_line(*input, w as int));
    }
    scene.text(line_area, Rows::of(line), bg(Tone::Rgb(26, 27, 38)));
    match completion {
        Some(state) if state.candidates.len() > 1 && area.height >= 2 => {
            let hint = Rect { x: area.x, y: row.saturating_sub(1), width: area.width, height: 1 };
            scene.clear(hint);
            scene.text(hint, Rows::of(line_of_completion(state)), bg(Tone::Rgb(26, 27, 38)));
        },
        _ => {},
    }
    scene.cursor(area.x.saturating_add(1).saturating_add(column), row);
    proof {
        assert(scene@ =~= command_scene(area, *input, *completion));
    }
    scene
}

} // verus!
