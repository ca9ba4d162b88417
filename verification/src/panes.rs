//! Parts that every pane is made of: borders, title bars and filled lines.

use crate::display_width::{line_width, shown_width, width_of_line};
use crate::scene::{line1, line3, sp, Line, LineV, Rows, RowsV};
use crate::style::{fg, plain, Style, Tone};
use crate::text::{blanks, cat3, minus, plus, repeat_char, repeated, spaces};
use vstd::prelude::*;

verus! {

/// `content` between two border strokes, filled up with spaces to `width` columns.
pub open spec fn bordered(border: Tone, width: int, content: LineV) -> LineV {
    seq![sp("│"@, fg(border))] + content + seq![
        sp(blanks(minus(width, plus(2, width_of_line(content))) as nat), plain()),
        sp("│"@, fg(border)),
    ]
}

/// `content` between two border strokes, filled up with spaces to `width` columns.
pub fn bordered_line(border: Tone, width: usize, content: Line) -> (r: Line)
    ensures
        r@ == bordered(border, width as int, content@),
{
    let used: usize = line_width(&content);
    let two: usize = 2;
    let gap = spaces(width.saturating_sub(two.saturating_add(used)));
    let mut r = line1("│", fg(border));
    r.append(content);
    let mut tail = Line::new();
    tail.put(gap.as_str(), plain());
    tail.put("│", fg(border));
    r.append(tail);
    r
}

/// Spaces between two border strokes, `width` columns in all.
pub open spec fn empty_bordered(border: Tone, width: int) -> LineV {
    seq![
        sp("│"@, fg(border)),
        sp(blanks(minus(width, 2) as nat), plain()),
        sp("│"@, fg(border)),
    ]
}

/// Spaces between two border strokes, `width` columns in all.
pub fn empty_bordered_line(border: Tone, width: usize) -> (r: Line)
    ensures
        r@ == empty_bordered(border, width as int),
{
    let gap = spaces(width.saturating_sub(2));
    line3("│", fg(border), gap.as_str(), plain(), "│", fg(border))
}

/// The bottom edge of a box of `width` columns.
pub open spec fn bottom_edge(border: Tone, width: int) -> LineV {
    seq![sp("└"@ + repeated('─', minus(width, 2) as nat) + "┘"@, fg(border))]
}

/// The bottom edge of a box of `width` columns.
pub fn bottom_line(border: Tone, width: usize) -> (r: Line)
    ensures
        r@ == bottom_edge(border, width as int),
{
    let dashes = repeat_char('─', width.saturating_sub(2));
    let text = cat3("└", dashes.as_str(), "┘");
    line1(text.as_str(), fg(border))
}

/// A title bar over the top edge of a box of `width` columns: the title at the left,
/// the rest of the bar filled.
pub open spec fn title_bar(border: Tone, bar: Style, title: Seq<char>, width: int) -> LineV {
    seq![
        sp("┌"@, fg(border)),
        sp(title, bar),
        sp(blanks(minus(width, plus(2, shown_width(title) as int)) as nat), bar),
        sp("┐"@, fg(border)),
    ]
}

/// A title bar over the top edge of a box of `width` columns.
pub fn title_bar_line(border: Tone, bar: Style, title: &str, width: usize) -> (r: Line)
    ensures
        r@ == title_bar(border, bar, title@, width as int),
{
    let two: usize = 2;
    let title_width: usize = crate::display_width::width(title);
    let fill = spaces(width.saturating_sub(two.saturating_add(title_width)));
    let mut r = line3("┌", fg(border), title, bar, fill.as_str(), bar);
    r.put("┐", fg(border));
    r
}

/// The first `height` lines inside a box of `width` columns, and empty lines where
/// there are fewer.
pub open spec fn framed(border: Tone, width: int, lines: RowsV, height: nat) -> RowsV {
    Seq::new(
        height,
        |i: int|
            bordered(border, width, if i < lines.len() { lines[i] } else { Seq::empty() }),
    )
}

/// The first `height` lines inside a box of `width` columns, and empty lines where
/// there are fewer.
pub fn framed_lines(border: Tone, width: usize, lines: &Rows, height: usize) -> (r: Rows)
    ensures
        r@ == framed(border, width as int, lines@, height as nat),
{
    let mut rows = Rows::new();
    for i in 0..height
        invariant
            rows@ =~= framed(border, width as int, lines@, i as nat),
    {
        let content = if i < lines.lines.len() { lines.lines[i].copy() } else { Line::new() };
        rows.push(bordered_line(border, width, content));
    }
    rows
}

} // verus!
