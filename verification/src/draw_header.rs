//! ASCII art TONEPOET header with box border.

use crate::geometry::Rect;
use crate::scene::{line1, sp, text_op, Line, LineV, Rows, RowsV, Scene};
use crate::style::{bold_fg, fg, muted, plain, Tone};
use crate::text::{
    blanks, cat2, cat3, count, minus, plus, repeat_char, repeated, spaces,
};
use vstd::prelude::*;

verus! {

pub const ART_LINE_1: &'static str = "▀▀█▀▀ █▀▀█ █▀▀▄ █▀▀▀ █▀▀█ █▀▀█ █▀▀▀ ▀▀█▀▀";

pub const ART_LINE_2: &'static str = "  █   █  █ █  █ █▀▀▀ █▀▀▀ █  █ █▀▀▀   █  ";

pub const ART_LINE_3: &'static str = "  ▀   ▀▀▀▀ ▀  ▀ ▀▀▀▀ ▀    ▀▀▀▀ ▀▀▀▀   ▀  ";

/// The characters of the art in a row.
pub open spec fn art_width() -> int {
    ART_LINE_1@.len() as int
}

/// The spaces before the art: it stands in the middle.
pub open spec fn art_left(w: int) -> int {
    minus(minus(w, 2), art_width()) / 2
}

/// A row of the art.
pub open spec fn art_row(art: Seq<char>, w: int) -> LineV {
    seq![
        sp("│"@, fg(Tone::Blue)),
        sp(blanks(art_left(w) as nat), plain()),
        sp(art, bold_fg(Tone::Title)),
        sp(
            blanks(minus(minus(w, 2), plus(art_left(w), art_width())) as nat),
            plain(),
        ),
        sp("│"@, fg(Tone::Blue)),
    ]
}

/// The last row of the art, with the version behind it.
pub open spec fn version_row(version: Seq<char>, w: int) -> LineV {
    let shown = "v"@ + version;
    let used = (blanks(art_left(w) as nat) + ART_LINE_3@ + "    "@ + shown).len() as int;
    seq![
        sp("│"@, fg(Tone::Blue)),
        sp(blanks(art_left(w) as nat), plain()),
        sp(ART_LINE_3@, bold_fg(Tone::Title)),
        sp("    "@, plain()),
        sp(shown, muted()),
        sp(blanks(minus(minus(w, 2), used) as nat), plain()),
        sp("│"@, fg(Tone::Blue)),
    ]
}

/// A row of the box.
pub open spec fn edge_row(left: Seq<char>, fill: char, right: Seq<char>, w: int) -> LineV {
    seq![sp(left + repeated(fill, minus(w, 2) as nat) + right, fg(Tone::Blue))]
}

/// The header.
pub open spec fn header_rows(version: Seq<char>, w: int) -> RowsV {
    seq![
        edge_row("╭"@, '─', "╮"@, w),
        edge_row("│"@, ' ', "│"@, w),
        art_row(ART_LINE_1@, w),
        art_row(ART_LINE_2@, w),
        version_row(version, w),
        edge_row("│"@, ' ', "│"@, w),
        edge_row("╰"@, '─', "╯"@, w),
    ]
}

fn edge_line(left: &str, fill: char, right: &str, w: usize) -> (r: Line)
    ensures
        r@ == edge_row(left@, fill, right@, w as int),
{
    let middle = repeat_char(fill, w.saturating_sub(2));
    line1(cat3(left, middle.as_str(), right).as_str(), fg(Tone::Blue))
}

fn art_line(art: &str, left: usize, w: usize) -> (r: Line)
    requires
        left == art_left(w as int),
    ensures
        r@ == art_row(art@, w as int),
{
    let used: usize = left.saturating_add(count(ART_LINE_1));
    let mut line = line1("│", fg(Tone::Blue));
    line.put(spaces(left).as_str(), plain());
    line.put(art, bold_fg(Tone::Title));
    line.put(spaces(w.saturating_sub(2).saturating_sub(used)).as_str(), plain());
    line.put("│", fg(Tone::Blue));
    line
}

fn version_line(version: &str, left: usize, w: usize) -> (r: Line)
    requires
        left == art_left(w as int),
    ensures
        r@ == version_row(version@, w as int),
{
    let shown = cat2("v", version);
    let pad = spaces(left);
    let whole = crate::text::cat4(pad.as_str(), ART_LINE_3, "    ", shown.as_str());
    let rest: usize = w.saturating_sub(2).saturating_sub(count(whole.as_str()));
    let mut line = line1("│", fg(Tone::Blue));
    line.put(pad.as_str(), plain());
    line.put(ART_LINE_3, bold_fg(Tone::Title));
    line.put("    ", plain());
    line.put(shown.as_str(), muted());
    line.put(spaces(rest).as_str(), plain());
    line.put("│", fg(Tone::Blue));
    line
}

/// The header is shown only in an area of at least this size.
pub open spec fn header_fits(area: Rect) -> bool {
    area.height >= 7 && area.width >= 50
}

/// The header on the screen.
pub open spec fn header_scene(area: Rect, version: Seq<char>) -> crate::scene::SceneV {
    if header_fits(area) {
        seq![text_op(area, header_rows(version, area.width as int), plain())]
    } else {
        Seq::empty()
    }
}

/// Draw the header: blue box with ASCII art TONEPOET + version.
pub fn draw_header(f: &mut Scene, area: Rect, version: &str)
    ensures
        final(f)@ == old(f)@ + header_scene(area, version@),
{
    if area.height < 7 || area.width < 50 {
        proof {
            assert(f@ =~= old(f)@ + header_scene(area, version@));
        }
        return;
    }
    let w: usize = area.width as usize;
    let left: usize = w.saturating_sub(2).saturating_sub(count(ART_LINE_1)) / 2;
    let mut rows = Rows::of(edge_line("╭", '─', "╮", w));
    rows.push(edge_line("│", ' ', "│", w));
    rows.push(art_line(ART_LINE_1, left, w));
    rows.push(art_line(ART_LINE_2, left, w));
    rows.push(version_line(version, left, w));
    rows.push(edge_line("│", ' ', "│", w));
    rows.push(edge_line("╰", '─', "╯", w));
    proof {
        assert(rows@ =~= header_rows(version@, w as int));
    }
    f.text(area, rows, plain());
    proof {
        assert(f@ =~= old(f)@ + header_scene(area, version@));
    }
}

/// The characters of the first `n` spans of a line.
pub open spec fn line_chars(line: LineV, n: nat) -> int
    decreases n,
{
    if n == 0 || n > line.len() {
        0
    } else {
        line_chars(line, (n - 1) as nat) + line[n - 1].text.len()
    }
}

/// The art fills its row of the box exactly, in every box that is shown.
pub proof fn art_fills_its_row(w: int)
    requires
        50 <= w <= 65535,
    ensures
        line_chars(art_row(ART_LINE_1@, w), 5) == w,
        line_chars(art_row(ART_LINE_2@, w), 5) == w,
{
    reveal_strlit("│");
    reveal_strlit("▀▀█▀▀ █▀▀█ █▀▀▄ █▀▀▀ █▀▀█ █▀▀█ █▀▀▀ ▀▀█▀▀");
    reveal_strlit("  █   █  █ █  █ █▀▀▀ █▀▀▀ █  █ █▀▀▀   █  ");
    reveal_with_fuel(line_chars, 6);
}

} // verus!
