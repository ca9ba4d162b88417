//! Parts shared by the modal dialogs.

use crate::geometry::{inner, inside_border, Rect};
use crate::layout::{divides, split_text_and_line, text_and_line, Direction};
use crate::scene::{
    centered_op, frame_op, scroll_rows, scrolled, sp, text_op, Line, LineV, OpV, Rows, RowsV, Scene,
    SceneV, Span, SpanV,
};
use crate::style::{bold, bold_fg, fg, on, plain, Tone};
use crate::text::{cat2, cat3, count, owned, take_chars};
use vstd::prelude::*;

verus! {

/// Values longer than this are edited in several lines instead of one that scrolls
/// sideways.
pub const MULTILINE_EDIT_THRESHOLD: usize = 96;

/// A pill-shaped label on `back`.
pub open spec fn footer_pill_span(label: Seq<char>, back: Tone) -> SpanV {
    sp(" "@ + label + " "@, bold(on(Tone::PillActiveFg, back)))
}

/// A pill-shaped label on `back`.
pub fn footer_pill(label: &str, back: Tone) -> (r: Span)
    ensures
        r@ == footer_pill_span(label@, back),
{
    Span { text: cat3(" ", label, " "), style: bold(on(Tone::PillActiveFg, back)) }
}

/// A pill-shaped label on `back`.
pub fn footer_pill_pub(label: &str, back: Tone) -> (r: Span)
    ensures
        r@ == footer_pill_span(label@, back),
{
    footer_pill(label, back)
}

/// The gap between two pills.
pub open spec fn pill_gap_span() -> SpanV {
    sp(" "@, plain())
}

/// The gap between two pills.
pub fn pill_gap() -> (r: Span)
    ensures
        r@ == pill_gap_span(),
{
    Span { text: owned(" "), style: plain() }
}

/// The gap between two pills.
pub fn pill_gap_pub() -> (r: Span)
    ensures
        r@ == pill_gap_span(),
{
    pill_gap()
}

/// `s` where it has at most `max` characters; else its front part with "..." behind
/// it, `max` characters in all (fewer dots where `max` has no room for three).
pub open spec fn cut_chars(s: Seq<char>, max: int) -> Seq<char> {
    if s.len() <= max {
        s
    } else if max < 3 {
        "..."@.take(max)
    } else {
        s.take(max - 3) + "..."@
    }
}

/// Truncate a text to at most `max` characters, appending "..." if cut.
pub fn truncate_to_chars(s: &str, max: usize) -> (r: String)
    ensures
        r@ == cut_chars(s@, max as int),
        r@.len() <= max,
{
    let n: usize = count(s);
    proof {
        reveal_strlit("...");
    }
    if n <= max {
        owned(s)
    } else if max < 3 {
        take_chars("...", max)
    } else {
        let front = take_chars(s, max - 3);
        cat2(front.as_str(), "...")
    }
}

/// An empty box with a title in the colour of its border.
pub open spec fn popup_box(popup: Rect, title: Seq<char>, tone: Tone) -> SceneV {
    seq![OpV::Clear(popup), frame_op(popup, title, bold_fg(tone), fg(tone), plain())]
}

/// An empty box with a title in the colour of its border.
pub fn draw_popup_box(popup: Rect, title: &str, tone: Tone) -> (r: Scene)
    ensures
        r@ == popup_box(popup, title@, tone),
{
    let mut scene = Scene::new();
    scene.clear(popup);
    scene.frame(popup, title, bold_fg(tone), fg(tone), plain());
    scene
}

/// Text that scrolls, and a line of key hints below it.
pub open spec fn report_body(rows: RowsV, scroll: int, footer: LineV, chunks: Seq<Rect>) -> SceneV {
    seq![
        text_op(chunks[0], scrolled(rows, scroll, chunks[0].height as int), plain()),
        centered_op(chunks[1], footer),
    ]
}

/// Text that scrolls, and a line of key hints below it, in two areas.
pub fn draw_report_body(rows: &Rows, scroll: usize, footer: Line, chunks: &Vec<Rect>) -> (r: Scene)
    requires
        chunks@.len() == 2,
    ensures
        r@ == report_body(rows@, scroll as int, footer@, chunks@),
{
    let mut scene = Scene::new();
    scene.text(chunks[0], scroll_rows(rows, scroll, chunks[0].height as usize), plain());
    scene.centered(chunks[1], footer);
    scene
}

/// `scene` shows a box with text that scrolls and a line of key hints; the empty box
/// where it has less than three rows.
pub open spec fn shows_report(
    popup: Rect,
    title: Seq<char>,
    tone: Tone,
    rows: RowsV,
    scroll: int,
    footer: LineV,
    scene: SceneV,
) -> bool {
    let content = inside_border(popup);
    if content.height < 3 {
        scene == popup_box(popup, title, tone)
    } else {
        exists|chunks: Seq<Rect>|
            #[trigger] divides(Direction::Vertical, text_and_line(), content, chunks) && scene
                == popup_box(popup, title, tone) + report_body(rows, scroll, footer, chunks)
    }
}

/// A box with text that scrolls and a line of key hints.
pub fn draw_report(popup: Rect, title: &str, tone: Tone, rows: &Rows, scroll: usize, footer: Line) -> (r:
    Scene)
    requires
        popup.wf(),
    ensures
        shows_report(popup, title@, tone, rows@, scroll as int, footer@, r@),
{
    let mut scene = draw_popup_box(popup, title, tone);
    let content = inner(popup);
    if content.height < 3 {
        return scene;
    }
    let chunks = split_text_and_line(content);
    scene.append(draw_report_body(rows, scroll, footer, &chunks));
    scene
}

/// `scene` shows a box with results that scroll; the empty box where there are none.
pub open spec fn shows_results(
    found: bool,
    popup: Rect,
    title: Seq<char>,
    tone: Tone,
    rows: RowsV,
    scroll: int,
    footer: LineV,
    scene: SceneV,
) -> bool {
    if found {
        shows_report(popup, title, tone, rows, scroll, footer, scene)
    } else {
        scene == popup_box(popup, title, tone)
    }
}

/// A box with results that scroll; the empty box where there are none.
pub fn draw_results(
    found: bool,
    popup: Rect,
    title: &str,
    tone: Tone,
    rows: &Rows,
    scroll: usize,
    footer: Line,
) -> (r: Scene)
    requires
        popup.wf(),
    ensures
        shows_results(found, popup, title@, tone, rows@, scroll as int, footer@, r@),
{
    if found {
        draw_report(popup, title, tone, rows, scroll, footer)
    } else {
        draw_popup_box(popup, title, tone)
    }
}

/// A single pill.
pub open spec fn one_pill(label: Seq<char>, back: Tone) -> LineV {
    seq![footer_pill_span(label, back)]
}

/// A single pill.
pub fn one_pill_line(label: &str, back: Tone) -> (r: Line)
    ensures
        r@ == one_pill(label@, back),
{
    let mut line = Line::new();
    line.push(footer_pill(label, back));
    line
}

/// Two pills with a gap between them.
pub open spec fn two_pills(a: Seq<char>, a_tone: Tone, b: Seq<char>, b_tone: Tone) -> LineV {
    seq![footer_pill_span(a, a_tone), pill_gap_span(), footer_pill_span(b, b_tone)]
}

/// Two pills with a gap between them.
pub fn two_pill_line(a: &str, a_tone: Tone, b: &str, b_tone: Tone) -> (r: Line)
    ensures
        r@ == two_pills(a@, a_tone, b@, b_tone),
{
    let mut line = Line::new();
    line.push(footer_pill(a, a_tone));
    line.push(pill_gap());
    line.push(footer_pill(b, b_tone));
    line
}

/// The ending of a plural: `ending` unless there is one thing.
pub open spec fn plural(n: nat, ending: Seq<char>) -> Seq<char> {
    if n == 1 {
        ""@
    } else {
        ending
    }
}

/// The ending of a plural.
pub fn plural_ending(n: usize, ending: &'static str) -> (r: &'static str)
    ensures
        r@ == plural(n as nat, ending@),
{
    if n == 1 {
        ""
    } else {
        ending
    }
}

} // verus!
