//! The background grid: which line segments make it up, in drawing order.
//!
//! Coordinates are whole world units.  The grid is a square that reaches
//! `half_size` units from the origin in each direction; one vertical and one
//! horizontal line pass through every whole coordinate inside it, and the two
//! coordinate axes are drawn last, on top.

use vstd::prelude::*;

verus! {

/// How a grid line is to be stroked.
#[derive(Clone, Copy, Debug, PartialEq, Eq, Structural)]
pub enum LineKind {
    /// A thin line of the lattice.
    Minor,
    /// One of the two coordinate axes.
    Axis,
}

/// A line segment between two lattice points.
#[derive(Clone, Copy, Debug, PartialEq, Eq, Structural)]
pub struct GridLine {
    pub x1: i32,
    pub y1: i32,
    pub x2: i32,
    pub y2: i32,
    pub kind: LineKind,
}

/// The vertical lattice line at `x = i`.
pub open spec fn vertical(half: int, i: int) -> GridLine {
    GridLine {
        x1: i as i32,
        y1: (-half) as i32,
        x2: i as i32,
        y2: half as i32,
        kind: LineKind::Minor,
    }
}

/// The horizontal lattice line at `y = i`.
pub open spec fn horizontal(half: int, i: int) -> GridLine {
    GridLine {
        x1: (-half) as i32,
        y1: i as i32,
        x2: half as i32,
        y2: i as i32,
        kind: LineKind::Minor,
    }
}

/// The x axis, from the left edge to the right edge.
pub open spec fn x_axis(half: int) -> GridLine {
    GridLine { x1: (-half) as i32, y1: 0, x2: half as i32, y2: 0, kind: LineKind::Axis }
}

/// The y axis, from the bottom edge to the top edge.
pub open spec fn y_axis(half: int) -> GridLine {
    GridLine { x1: 0, y1: (-half) as i32, x2: 0, y2: half as i32, kind: LineKind::Axis }
}

/// How many lattice coordinates lie in `-half ..= half`.
pub open spec fn lattice_count(half: int) -> int {
    if half < 0 { 0 } else { 2 * half + 1 }
}

/// The lattice lines in drawing order: for each coordinate from `-half`
/// upwards, the vertical line and then the horizontal one.
pub open spec fn lattice(half: int) -> Seq<GridLine> {
    Seq::new(
        (2 * lattice_count(half)) as nat,
        |k: int| if k % 2 == 0 { vertical(half, k / 2 - half) } else { horizontal(half, k / 2 - half) },
    )
}

/// The whole grid: the lattice, then the x axis, then the y axis.
pub open spec fn grid(half: int) -> Seq<GridLine> {
    lattice(half).push(x_axis(half)).push(y_axis(half))
}

/// Lays out the grid that reaches `half_size` units from the origin.
///
/// A negative `half_size` leaves no lattice coordinate, so only the two
/// axes come back.
pub fn grid_lines(half_size: i32) -> (lines: Vec<GridLine>)
    requires
        half_size > i32::MIN,
    ensures
        lines@ == grid(half_size as int),
{
    let lo: i32 = -half_size;
    let mut lines: Vec<GridLine> = Vec::new();
    let mut i: i32 = lo;
    let mut done: bool = half_size < 0;
    while !done
        invariant
            lo == -half_size,
            half_size > i32::MIN,
            done ==> (half_size < 0 || i == half_size),
            !done ==> lo <= i <= half_size,
            lo <= i || half_size < 0,
            lines@.len() == (if half_size < 0 { 0 } else if done { 2 * (i - lo) + 2 } else { 2 * (i - lo) }),
            forall|k: int| 0 <= k < lines@.len() ==> lines@[k] == #[trigger] lattice(half_size as int)[k],
        decreases half_size - i + (if done { 0int } else { 1int }),
    {
        lines.push(GridLine { x1: i, y1: lo, x2: i, y2: half_size, kind: LineKind::Minor });
        lines.push(GridLine { x1: lo, y1: i, x2: half_size, y2: i, kind: LineKind::Minor });
        if i == half_size {
            done = true;
        } else {
            i = i + 1;
        }
    }
    assert(lines@ =~= lattice(half_size as int));
    lines.push(GridLine { x1: lo, y1: 0, x2: half_size, y2: 0, kind: LineKind::Axis });
    lines.push(GridLine { x1: 0, y1: lo, x2: 0, y2: half_size, kind: LineKind::Axis });
    lines
}

} // verus!
