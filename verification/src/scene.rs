//! What a screen looks like: styled text, boxes and the cursor, in paint order.

use crate::geometry::Rect;
use crate::style::Style;
use crate::text::{least, minus};
use vstd::prelude::*;

verus! {

/// A run of text in one style.
#[derive(Debug)]
pub struct Span {
    pub text: String,
    pub style: Style,
}

/// The contents of a [`Span`].
pub struct SpanV {
    pub text: Seq<char>,
    pub style: Style,
}

impl View for Span {
    type V = SpanV;

    open spec fn view(&self) -> SpanV {
        SpanV { text: self.text@, style: self.style }
    }
}

/// `text` in `style`.
pub open spec fn sp(text: Seq<char>, style: Style) -> SpanV {
    SpanV { text, style }
}

/// A line of text: spans from left to right.
#[derive(Debug)]
pub struct Line {
    pub spans: Vec<Span>,
}

/// The contents of a [`Line`].
pub type LineV = Seq<SpanV>;

impl View for Line {
    type V = Seq<SpanV>;

    open spec fn view(&self) -> Seq<SpanV> {
        Seq::new(self.spans@.len(), |i: int| self.spans@[i]@)
    }
}

impl Line {
    /// A line without spans.
    pub fn new() -> (r: Line)
        ensures
            r@ == Seq::<SpanV>::empty(),
    {
        let r = Line { spans: Vec::new() };
        proof {
            assert(r@ =~= Seq::<SpanV>::empty());
        }
        r
    }

    /// Adds a span holding a copy of `text`.
    pub fn put(&mut self, text: &str, style: Style)
        ensures
            final(self)@ == old(self)@.push(sp(text@, style)),
    {
        self.push(Span { text: crate::text::owned(text), style });
    }

    /// Adds a span.
    pub fn push(&mut self, span: Span)
        ensures
            final(self)@ == old(self)@.push(span@),
    {
        self.spans.push(span);
        proof {
            assert(self@ =~= old(self)@.push(span@));
        }
    }

    /// A line with the same spans.
    pub fn copy(&self) -> (r: Line)
        ensures
            r@ == self@,
    {
        let mut r = Line::new();
        for i in 0..self.spans.len()
            invariant
                r@ == self@.take(i as int),
                i <= self.spans@.len(),
        {
            r.put(self.spans[i].text.as_str(), self.spans[i].style);
            proof {
                assert(self@.take(i + 1) =~= self@.take(i as int).push(self@[i as int]));
            }
        }
        proof {
            assert(self@.take(self@.len() as int) =~= self@);
        }
        r
    }

    /// Adds the spans of `other`.
    pub fn append(&mut self, other: Line)
        ensures
            final(self)@ == old(self)@ + other@,
    {
        let mut tail = other.spans;
        self.spans.append(&mut tail);
        proof {
            assert(self@ =~= old(self)@ + other@);
        }
    }
}

/// A line of one span.
pub fn line1(t0: &str, s0: Style) -> (r: Line)
    ensures
        r@ == seq![sp(t0@, s0)],
{
    let mut r = Line::new();
    r.put(t0, s0);
    r
}

/// A line of two spans.
pub fn line2(t0: &str, s0: Style, t1: &str, s1: Style) -> (r: Line)
    ensures
        r@ == seq![sp(t0@, s0), sp(t1@, s1)],
{
    let mut r = Line::new();
    r.put(t0, s0);
    r.put(t1, s1);
    r
}

/// A line of three spans.
pub fn line3(t0: &str, s0: Style, t1: &str, s1: Style, t2: &str, s2: Style) -> (r: Line)
    ensures
        r@ == seq![sp(t0@, s0), sp(t1@, s1), sp(t2@, s2)],
{
    let mut r = Line::new();
    r.put(t0, s0);
    r.put(t1, s1);
    r.put(t2, s2);
    r
}

/// Lines from top to bottom.
#[derive(Debug)]
pub struct Rows {
    pub lines: Vec<Line>,
}

/// The contents of [`Rows`].
pub type RowsV = Seq<Seq<SpanV>>;

impl View for Rows {
    type V = Seq<Seq<SpanV>>;

    open spec fn view(&self) -> Seq<Seq<SpanV>> {
        Seq::new(self.lines@.len(), |i: int| self.lines@[i]@)
    }
}

/// `line` alone where `shown`, else nothing.
pub open spec fn row_if(shown: bool, line: LineV) -> RowsV {
    if shown {
        seq![line]
    } else {
        Seq::empty()
    }
}

impl Rows {
    /// No lines.
    pub fn new() -> (r: Rows)
        ensures
            r@ == Seq::<LineV>::empty(),
    {
        let r = Rows { lines: Vec::new() };
        proof {
            assert(r@ =~= Seq::<LineV>::empty());
        }
        r
    }

    /// One line.
    pub fn of(line: Line) -> (r: Rows)
        ensures
            r@ == seq![line@],
    {
        let mut r = Rows::new();
        r.push(line);
        r
    }

    /// Adds a line at the bottom.
    pub fn push(&mut self, line: Line)
        ensures
            final(self)@ == old(self)@.push(line@),
    {
        self.lines.push(line);
        proof {
            assert(self@ =~= old(self)@.push(line@));
        }
    }

    /// Adds a line at the bottom where `shown`.
    pub fn push_if(&mut self, shown: bool, line: Line)
        ensures
            final(self)@ == old(self)@ + row_if(shown, line@),
    {
        if shown {
            self.push(line);
        }
        proof {
            assert(self@ =~= old(self)@ + row_if(shown, line@));
        }
    }

    /// Adds the lines of `other` at the bottom.
    pub fn append(&mut self, other: Rows)
        ensures
            final(self)@ == old(self)@ + other@,
    {
        let mut tail = other.lines;
        self.lines.append(&mut tail);
        proof {
            assert(self@ =~= old(self)@ + other@);
        }
    }

    /// The number of lines.
    pub fn len(&self) -> (r: usize)
        ensures
            r == self@.len(),
    {
        self.lines.len()
    }
}

/// The first line shown: as far down as `scroll` says, but no further than shows
/// the last line at the bottom.
pub open spec fn scroll_start(scroll: int, total: int, visible: int) -> int {
    least(scroll, minus(total, visible))
}

/// The lines shown, of `rows`, in a window of `visible` lines scrolled by `scroll`.
pub open spec fn scrolled(rows: RowsV, scroll: int, visible: int) -> RowsV {
    let start = scroll_start(scroll, rows.len() as int, visible);
    rows.subrange(start, least(start + visible, rows.len() as int))
}

/// The lines shown, of `rows`, in a window of `visible` lines scrolled by `scroll`.
pub fn scroll_rows(rows: &Rows, scroll: usize, visible: usize) -> (r: Rows)
    ensures
        r@ == scrolled(rows@, scroll as int, visible as int),
{
    let total: usize = rows.len();
    let last: usize = total.saturating_sub(visible);
    let start: usize = if scroll <= last { scroll } else { last };
    let end: usize = if total - start <= visible { total } else { start + visible };
    let mut out = Rows::new();
    for i in start..end
        invariant
            start <= i <= end <= rows@.len(),
            rows@.len() == rows.lines@.len(),
            out@ == rows@.subrange(start as int, i as int),
    {
        out.push(rows.lines[i].copy());
        proof {
            assert(rows@.subrange(start as int, i + 1) =~= rows@.subrange(
                start as int,
                i as int,
            ).push(rows@[i as int]));
        }
    }
    out
}

/// The window always shows as many lines as it can, and at most `visible`.
pub proof fn scroll_fills_the_window(rows: RowsV, scroll: int, visible: int)
    requires
        0 <= scroll,
        0 <= visible,
    ensures
        scrolled(rows, scroll, visible).len() == least(visible, rows.len() as int),
{
}

/// Where text stands within its area.
#[derive(Clone, Copy, Debug, PartialEq, Eq, Structural)]
pub enum Align {
    Left,
    Center,
}

/// A panel that the host program paints.
#[derive(Clone, Copy, Debug, PartialEq, Eq, Structural)]
pub enum Panel {
    ConvertScreen,
    QueueStats,
    QueueScreen,
    Wizard,
    Help,
    DiscBrowser,
    TemplateBuilder,
    TemplatePicker,
    Presets,
    Recent,
    Bookmarks,
}

/// One step of painting.
#[derive(Debug)]
pub enum Op {
    /// Blanks an area.
    Clear(Rect),
    /// A one-cell border with a title on its top edge.
    Frame { area: Rect, title: Line, border: Style, fill: Style },
    /// Lines of text, each cut at the right edge or wrapped there.
    Text { area: Rect, rows: Rows, style: Style, align: Align, wrap: bool },
    /// The text cursor.
    Cursor { x: u16, y: u16 },
    /// A panel painted by the host program.
    Host { panel: Panel, area: Rect },
}

/// The contents of an [`Op`].
pub enum OpV {
    Clear(Rect),
    Frame { area: Rect, title: LineV, border: Style, fill: Style },
    Text { area: Rect, rows: RowsV, style: Style, align: Align, wrap: bool },
    Cursor { x: u16, y: u16 },
    Host { panel: Panel, area: Rect },
}

impl View for Op {
    type V = OpV;

    open spec fn view(&self) -> OpV {
        match *self {
            Op::Clear(area) => OpV::Clear(area),
            Op::Frame { area, title, border, fill } => OpV::Frame {
                area,
                title: title@,
                border,
                fill,
            },
            Op::Text { area, rows, style, align, wrap } => OpV::Text {
                area,
                rows: rows@,
                style,
                align,
                wrap,
            },
            Op::Cursor { x, y } => OpV::Cursor { x, y },
            Op::Host { panel, area } => OpV::Host { panel, area },
        }
    }
}

/// Painting steps, first to last.
#[derive(Debug)]
pub struct Scene {
    pub ops: Vec<Op>,
}

/// The contents of a [`Scene`].
pub type SceneV = Seq<OpV>;

impl View for Scene {
    type V = Seq<OpV>;

    open spec fn view(&self) -> Seq<OpV> {
        Seq::new(self.ops@.len(), |i: int| self.ops@[i]@)
    }
}

/// Left-aligned text in `style`, cut at the right edge.
pub open spec fn text_op(area: Rect, rows: RowsV, style: Style) -> OpV {
    OpV::Text { area, rows, style, align: Align::Left, wrap: false }
}

/// One centred line.
pub open spec fn centered_op(area: Rect, line: LineV) -> OpV {
    OpV::Text {
        area,
        rows: seq![line],
        style: crate::style::plain(),
        align: Align::Center,
        wrap: false,
    }
}

/// One left-aligned line.
pub open spec fn line_op(area: Rect, line: LineV) -> OpV {
    text_op(area, seq![line], crate::style::plain())
}

/// A border with a title of one span.
pub open spec fn frame_op(area: Rect, title: Seq<char>, title_style: Style, border: Style, fill: Style) -> OpV {
    OpV::Frame { area, title: seq![sp(title, title_style)], border, fill }
}

impl Scene {
    /// Nothing to paint.
    pub fn new() -> (r: Scene)
        ensures
            r@ == Seq::<OpV>::empty(),
    {
        let r = Scene { ops: Vec::new() };
        proof {
            assert(r@ =~= Seq::<OpV>::empty());
        }
        r
    }

    /// Adds a step.
    pub fn push(&mut self, op: Op)
        ensures
            final(self)@ == old(self)@.push(op@),
    {
        self.ops.push(op);
        proof {
            assert(self@ =~= old(self)@.push(op@));
        }
    }

    /// Adds the steps of `other`.
    pub fn append(&mut self, other: Scene)
        ensures
            final(self)@ == old(self)@ + other@,
    {
        let mut tail = other.ops;
        self.ops.append(&mut tail);
        proof {
            assert(self@ =~= old(self)@ + other@);
        }
    }

    /// Blanks `area`.
    pub fn clear(&mut self, area: Rect)
        ensures
            final(self)@ == old(self)@.push(OpV::Clear(area)),
    {
        self.push(Op::Clear(area));
    }

    /// Draws a border around `area` with `title` on it.
    pub fn frame(&mut self, area: Rect, title: &str, title_style: Style, border: Style, fill: Style)
        ensures
            final(self)@ == old(self)@.push(frame_op(area, title@, title_style, border, fill)),
    {
        self.push(Op::Frame { area, title: line1(title, title_style), border, fill });
    }

    /// Paints `rows` in `area`.
    pub fn text(&mut self, area: Rect, rows: Rows, style: Style)
        ensures
            final(self)@ == old(self)@.push(text_op(area, rows@, style)),
    {
        self.push(Op::Text { area, rows, style, align: Align::Left, wrap: false });
    }

    /// Paints `line` in `area`.
    pub fn line(&mut self, area: Rect, line: Line)
        ensures
            final(self)@ == old(self)@.push(line_op(area, line@)),
    {
        self.text(area, Rows::of(line), crate::style::plain());
    }

    /// Paints `line` in the middle of `area`.
    pub fn centered(&mut self, area: Rect, line: Line)
        ensures
            final(self)@ == old(self)@.push(centered_op(area, line@)),
    {
        self.push(
            Op::Text {
                area,
                rows: Rows::of(line),
                style: crate::style::plain(),
                align: Align::Center,
                wrap: false,
            },
        );
    }

    /// Puts the text cursor at column `x`, row `y`.
    pub fn cursor(&mut self, x: u16, y: u16)
        ensures
            final(self)@ == old(self)@.push((OpV::Cursor { x, y })),
    {
        self.push(Op::Cursor { x, y });
    }
}

/// The characters of the first `n` spans of a line.
pub open spec fn span_chars(line: LineV, n: nat) -> int
    decreases n,
{
    if n == 0 || n > line.len() {
        0
    } else {
        span_chars(line, (n - 1) as nat) + line[n - 1].text.len()
    }
}

pub(crate) proof fn lemma_span_chars_prefix(a: LineV, b: LineV, n: nat)
    requires
        n <= a.len(),
        n <= b.len(),
        forall|i: int| 0 <= i < n ==> a[i] == b[i],
    ensures
        span_chars(a, n) == span_chars(b, n),
        span_chars(a, n) >= 0,
    decreases n,
{
    if n > 0 {
        lemma_span_chars_prefix(a, b, (n - 1) as nat);
    }
}

} // verus!
