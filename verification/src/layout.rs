//! Dividing an area into parts.

use crate::geometry::Rect;
use ratatui::layout::{Constraint as Wish, Direction as Way, Layout, Rect as Area};
use vstd::prelude::*;

verus! {

/// The size wished for a part.
#[derive(Clone, Copy, Debug, PartialEq, Eq, Structural)]
pub enum Constraint {
    /// This many cells.
    Length(u16),
    /// At least this many cells.
    Min(u16),
    /// This part of a hundred.
    Percentage(u16),
    /// This fraction.
    Ratio(u32, u32),
}

/// Which way parts follow each other.
#[derive(Clone, Copy, Debug, PartialEq, Eq, Structural)]
pub enum Direction {
    Horizontal,
    Vertical,
}

/// Which wishes come first where there is too little room: minimums, then lengths, then
/// percentages, then fractions.
pub open spec fn rank(constraint: Constraint) -> int {
    match constraint {
        Constraint::Min(_) => 3,
        Constraint::Length(_) => 2,
        Constraint::Percentage(_) => 1,
        Constraint::Ratio(_, _) => 0,
    }
}

/// What a part of `size` cells wishes for, in hundredths of a cell. A fraction counts
/// where it comes out even.
pub open spec fn wish(constraint: Constraint, size: int) -> int {
    match constraint {
        Constraint::Length(cells) => 100 * cells,
        Constraint::Min(cells) => 100 * cells,
        Constraint::Percentage(percent) => percent * size,
        Constraint::Ratio(part, whole) => (100 * part * size) / (whole as int),
    }
}

/// The wishes of rank `least` and above among the first `n`, added up.
pub open spec fn wished(constraints: Seq<Constraint>, size: int, least: int, n: nat) -> int
    decreases n,
{
    if n == 0 || n > constraints.len() {
        0
    } else {
        wished(constraints, size, least, (n - 1) as nat) + if rank(constraints[n - 1]) >= least {
            wish(constraints[n - 1], size)
        } else {
            0
        }
    }
}

/// All wishes of rank `least` and above.
pub open spec fn asked(constraints: Seq<Constraint>, size: int, least: int) -> int {
    wished(constraints, size, least, constraints.len())
}

/// The wishes of the given rank can all be met beside those that come before them, or
/// nothing is left for any of them.
pub open spec fn decided(constraints: Seq<Constraint>, size: int, of_rank: int) -> bool {
    asked(constraints, size, of_rank) <= 100 * size || asked(constraints, size, of_rank + 1) >= 100
        * size
}

/// The wishes alone decide the sizes: there is one minimum, at `flexible`, or none
/// (`flexible` is behind the last); fractions come out even; and no two wishes of one
/// rank compete for too little room.
pub open spec fn settled(constraints: Seq<Constraint>, flexible: int, size: int) -> bool {
    &&& 0 <= flexible <= constraints.len()
    &&& flexible < constraints.len() ==> constraints[flexible] is Min
    &&& forall|i: int|
        0 <= i < constraints.len() && i != flexible ==> match #[trigger] constraints[i] {
            Constraint::Min(_) => false,
            Constraint::Ratio(part, whole) => whole > 0 && (100 * part * size) % (whole as int) == 0,
            _ => true,
        }
    &&& forall|i: int, j: int|
        0 <= i < j < constraints.len() && rank(#[trigger] constraints[i]) == rank(
            #[trigger] constraints[j],
        ) && wish(constraints[i], size) > 0 && wish(constraints[j], size) > 0 ==> decided(
            constraints,
            size,
            rank(constraints[i]),
        )
}

/// What a part that is not flexible gets, in hundredths of a cell: its wish, as far as
/// the wishes before it in rank leave room.
pub open spec fn granted(constraints: Seq<Constraint>, size: int, i: int) -> int {
    let room = 100 * size - asked(constraints, size, rank(constraints[i]) + 1);
    if room <= 0 {
        0
    } else if wish(constraints[i], size) <= room {
        wish(constraints[i], size)
    } else {
        room
    }
}

/// What the first `n` parts get, the flexible one left out.
pub open spec fn granted_before(
    constraints: Seq<Constraint>,
    flexible: int,
    size: int,
    n: nat,
) -> int
    decreases n,
{
    if n == 0 || n > constraints.len() {
        0
    } else {
        granted_before(constraints, flexible, size, (n - 1) as nat) + if n - 1 == flexible {
            0
        } else {
            granted(constraints, size, n - 1)
        }
    }
}

/// Where part `i` starts: behind the parts before it, of which the flexible one takes
/// what the others leave; rounded to whole cells.
pub open spec fn part_start(constraints: Seq<Constraint>, flexible: int, size: int, i: int) -> int {
    let rest = if i > flexible {
        100 * size - granted_before(constraints, flexible, size, constraints.len())
    } else {
        0
    };
    (granted_before(constraints, flexible, size, i as nat) + rest + 50) / 100
}

/// A length, then two thirds and one third of the whole.
pub open spec fn length_and_thirds(length: u16) -> Seq<Constraint> {
    seq![Constraint::Length(length), Constraint::Ratio(2, 3), Constraint::Ratio(1, 3)]
}

/// The place of the part from cell `from` to cell `to`, counted along `direction`
/// from the start of `area`.
pub open spec fn part_rect(direction: Direction, area: Rect, from: int, to: int) -> Rect {
    match direction {
        Direction::Horizontal => Rect {
            x: (area.x + from) as u16,
            y: area.y,
            width: (to - from) as u16,
            height: area.height,
        },
        Direction::Vertical => Rect {
            x: area.x,
            y: (area.y + from) as u16,
            width: area.width,
            height: (to - from) as u16,
        },
    }
}

/// The cells of `area` along `direction`.
pub open spec fn extent(direction: Direction, area: Rect) -> int {
    match direction {
        Direction::Horizontal => area.width as int,
        Direction::Vertical => area.height as int,
    }
}

/// `first` ends before `second` starts.
pub open spec fn before(direction: Direction, first: Rect, second: Rect) -> bool {
    match direction {
        Direction::Horizontal => first.x + first.width <= second.x,
        Direction::Vertical => first.y + first.height <= second.y,
    }
}

/// Where the wishes alone decide the sizes, every part has the size they give it. A
/// length before two thirds and one third of the whole is taken from the two thirds,
/// where they stay at least as large as the third and as the length.
#[verifier::opaque]
pub open spec fn sized(
    direction: Direction,
    constraints: Seq<Constraint>,
    area: Rect,
    parts: Seq<Rect>,
) -> bool {
    let size = extent(direction, area);
    &&& forall|flexible: int, i: int|
        #[trigger] settled(constraints, flexible, size) && 0 <= i < parts.len()
            ==> #[trigger] parts[i] == part_rect(
            direction,
            area,
            part_start(constraints, flexible, size, i),
            part_start(constraints, flexible, size, i + 1),
        )
    &&& forall|length: u16|
        constraints == #[trigger] length_and_thirds(length) && 3 * length <= size ==> parts
            == seq![
            part_rect(direction, area, 0, length as int),
            part_rect(direction, area, length as int, (4 * size + 3) / 6),
            part_rect(direction, area, (4 * size + 3) / 6, size),
        ]
}

/// `parts` divide `area`: one part for each constraint, each inside the area and as
/// wide (or high) as it across the direction, in order and without overlap, and with
/// the sizes that the wishes give them.
pub open spec fn divides(
    direction: Direction,
    constraints: Seq<Constraint>,
    area: Rect,
    parts: Seq<Rect>,
) -> bool {
    &&& parts.len() == constraints.len()
    &&& forall|i: int|
        0 <= i < parts.len() ==> (#[trigger] parts[i]).within(area) && match direction {
            Direction::Horizontal => parts[i].y == area.y && parts[i].height == area.height,
            Direction::Vertical => parts[i].x == area.x && parts[i].width == area.width,
        }
    &&& forall|i: int, j: int|
        0 <= i < j < parts.len() ==> before(direction, #[trigger] parts[i], #[trigger] parts[j])
    &&& sized(direction, constraints, area, parts)
}

/// `ratatui::layout::Layout::split`: divides `area` by the constraints. Sizes are worked
/// out in hundredths of a cell, and each boundary is rounded to a whole cell. Where there
/// is too little room, minimums come before lengths, these before percentages, and these
/// before fractions; what is left over goes to a minimum, else to none. Left open are
/// sizes where several wishes of one rank compete for too little room (but for a length
/// before two thirds and one third), where there are several minimums, and where a
/// fraction does not come out even.
#[verifier::external_body]
fn solve(direction: Direction, constraints: &Vec<Constraint>, area: Rect) -> (r: Vec<Rect>)
    requires
        area.wf(),
    ensures
        divides(direction, constraints@, area, r@),
{
    let way = match direction {
        Direction::Horizontal => Way::Horizontal,
        Direction::Vertical => Way::Vertical,
    };
    let wishes = constraints.iter().map(|c| match *c {
        Constraint::Length(n) => Wish::Length(n),
        Constraint::Min(n) => Wish::Min(n),
        Constraint::Percentage(n) => Wish::Percentage(n),
        Constraint::Ratio(n, d) => Wish::Ratio(n, d),
    });
    let parts = Layout::default().direction(way).constraints(wishes).split(
        Area { x: area.x, y: area.y, width: area.width, height: area.height },
    );
    parts.iter().map(|p| Rect { x: p.x, y: p.y, width: p.width, height: p.height }).collect()
}

/// Divides `area` by the constraints.
pub fn split(direction: Direction, constraints: &Vec<Constraint>, area: Rect) -> (r: Vec<Rect>)
    requires
        area.wf(),
    ensures
        divides(direction, constraints@, area, r@),
{
    solve(direction, constraints, area)
}

/// An area for text, and one line below it.
pub open spec fn text_and_line() -> Seq<Constraint> {
    seq![Constraint::Min(1), Constraint::Length(1)]
}

/// Divides `area` into an area for text and one line below it.
pub fn split_text_and_line(area: Rect) -> (r: Vec<Rect>)
    requires
        area.wf(),
    ensures
        divides(Direction::Vertical, text_and_line(), area, r@),
        r@.len() == 2,
{
    let mut wishes: Vec<Constraint> = Vec::new();
    wishes.push(Constraint::Min(1));
    wishes.push(Constraint::Length(1));
    proof {
        assert(wishes@ =~= text_and_line());
    }
    split(Direction::Vertical, &wishes, area)
}

/// The cells of the first `n` lengths and minimums.
pub open spec fn cells_before(constraints: Seq<Constraint>, n: nat) -> int
    decreases n,
{
    if n == 0 || n > constraints.len() {
        0
    } else {
        cells_before(constraints, (n - 1) as nat) + match constraints[n - 1] {
            Constraint::Length(cells) => cells as int,
            Constraint::Min(cells) => cells as int,
            _ => 0,
        }
    }
}

/// Everything is a length, but for a minimum at `flexible` (behind the last: none).
pub open spec fn lengths_around(constraints: Seq<Constraint>, flexible: int) -> bool {
    &&& 0 <= flexible <= constraints.len()
    &&& flexible < constraints.len() ==> constraints[flexible] is Min
    &&& forall|i: int|
        0 <= i < constraints.len() && i != flexible ==> #[trigger] constraints[i] is Length
}

/// The cells of the minimum.
spec fn least_cells(constraints: Seq<Constraint>, flexible: int) -> int {
    if 0 <= flexible < constraints.len() {
        match constraints[flexible] {
            Constraint::Min(cells) => cells as int,
            _ => 0,
        }
    } else {
        0
    }
}

proof fn lemma_wished_cells(constraints: Seq<Constraint>, flexible: int, size: int, n: nat)
    requires
        lengths_around(constraints, flexible),
        n <= constraints.len(),
    ensures
        wished(constraints, size, 2, n) == 100 * cells_before(constraints, n),
        wished(constraints, size, 3, n) == if flexible < n {
            100 * least_cells(constraints, flexible)
        } else {
            0
        },
        cells_before(constraints, n) >= if flexible < n {
            least_cells(constraints, flexible)
        } else {
            0
        },
    decreases n,
{
    if n > 0 {
        lemma_wished_cells(constraints, flexible, size, (n - 1) as nat);
    }
}

proof fn lemma_cells_grow(constraints: Seq<Constraint>, flexible: int, i: int, n: nat)
    requires
        lengths_around(constraints, flexible),
        0 <= i < n <= constraints.len(),
        i != flexible,
    ensures
        cells_before(constraints, n) >= constraints[i]->Length_0 + if flexible < n {
            least_cells(constraints, flexible)
        } else {
            0
        },
    decreases n,
{
    if i < n - 1 {
        lemma_cells_grow(constraints, flexible, i, (n - 1) as nat);
    } else {
        lemma_wished_cells(constraints, flexible, 0, (n - 1) as nat);
    }
}

proof fn lemma_granted_cells(constraints: Seq<Constraint>, flexible: int, size: int, n: nat)
    requires
        lengths_around(constraints, flexible),
        cells_before(constraints, constraints.len()) <= size,
        n <= constraints.len(),
    ensures
        granted_before(constraints, flexible, size, n) == 100 * (cells_before(constraints, n)
            - if flexible < n {
            least_cells(constraints, flexible)
        } else {
            0
        }),
    decreases n,
{
    if n > 0 {
        lemma_granted_cells(constraints, flexible, size, (n - 1) as nat);
        if n - 1 != flexible {
            lemma_wished_cells(constraints, flexible, size, constraints.len());
            lemma_cells_grow(constraints, flexible, n - 1, constraints.len());
        }
    }
}

/// Lengths around at most one minimum are all met where there is room for everything,
/// and the minimum takes what is left.
pub proof fn wishes_that_fit_are_met(
    direction: Direction,
    constraints: Seq<Constraint>,
    flexible: int,
    area: Rect,
    parts: Seq<Rect>,
    i: int,
)
    requires
        divides(direction, constraints, area, parts),
        lengths_around(constraints, flexible),
        cells_before(constraints, constraints.len()) <= extent(direction, area),
        0 <= i < constraints.len(),
    ensures
        ({
            let rest = extent(direction, area) - cells_before(constraints, constraints.len());
            parts[i] == part_rect(
                direction,
                area,
                cells_before(constraints, i as nat) + if flexible < i {
                    rest
                } else {
                    0
                },
                cells_before(constraints, (i + 1) as nat) + if flexible <= i {
                    rest
                } else {
                    0
                },
            )
        }),
{
    let size = extent(direction, area);
    lemma_wished_cells(constraints, flexible, size, constraints.len());
    assert(decided(constraints, size, 2));
    assert(settled(constraints, flexible, size));
    lemma_granted_cells(constraints, flexible, size, i as nat);
    lemma_granted_cells(constraints, flexible, size, (i + 1) as nat);
    lemma_granted_cells(constraints, flexible, size, constraints.len());
    reveal(sized);
    assert(parts[i] == part_rect(
        direction,
        area,
        part_start(constraints, flexible, size, i),
        part_start(constraints, flexible, size, i + 1),
    ));
}

} // verus!
