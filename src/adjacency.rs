//! The cube's fixed geometry: for each face, its four neighbors in cyclic
//! order, and the strip of three cells on each neighbor that borders it.
//! A quarter turn of a face is read off this table alone.

use crate::color_facet::ColorFacet;
use crate::face::turn_source;
use crate::rotation_direction::RotationDirection;
use vstd::prelude::*;

verus! {

/// A side of a face, seen as a line of three cells.
pub enum Side {
    Top,
    Bottom,
    Left,
    Right,
}

impl Side {
    /// The cell `(row, column)` at place `j` along the side, counted left to
    /// right for the top and bottom, top to bottom for the left and right.
    pub open spec fn cell(self, j: int) -> (int, int) {
        match self {
            Side::Top => (0, j),
            Side::Bottom => (2, j),
            Side::Left => (j, 0),
            Side::Right => (j, 2),
        }
    }

    /// The place of cell `(r, k)` along the side, or 3 where the cell is not
    /// on it.
    pub open spec fn place(self, r: int, k: int) -> int {
        match self {
            Side::Top => if r == 0 { k } else { 3 },
            Side::Bottom => if r == 2 { k } else { 3 },
            Side::Left => if k == 0 { r } else { 3 },
            Side::Right => if k == 2 { r } else { 3 },
        }
    }
}

/// Neighbor `i` (0 to 3) of face `c`. A clockwise turn of `c` carries the
/// border strip of each neighbor on to the next one.
pub open spec fn neighbor(c: ColorFacet, i: int) -> ColorFacet {
    match c {
        ColorFacet::Red => if i == 0 {
            ColorFacet::White
        } else if i == 1 {
            ColorFacet::Blue
        } else if i == 2 {
            ColorFacet::Yellow
        } else {
            ColorFacet::Green
        },
        ColorFacet::Blue => if i == 0 {
            ColorFacet::Red
        } else if i == 1 {
            ColorFacet::White
        } else if i == 2 {
            ColorFacet::Orange
        } else {
            ColorFacet::Yellow
        },
        ColorFacet::Green => if i == 0 {
            ColorFacet::White
        } else if i == 1 {
            ColorFacet::Red
        } else if i == 2 {
            ColorFacet::Yellow
        } else {
            ColorFacet::Orange
        },
        ColorFacet::Orange => if i == 0 {
            ColorFacet::White
        } else if i == 1 {
            ColorFacet::Green
        } else if i == 2 {
            ColorFacet::Yellow
        } else {
            ColorFacet::Blue
        },
        ColorFacet::White => if i == 0 {
            ColorFacet::Red
        } else if i == 1 {
            ColorFacet::Green
        } else if i == 2 {
            ColorFacet::Orange
        } else {
            ColorFacet::Blue
        },
        ColorFacet::Yellow => if i == 0 {
            ColorFacet::Orange
        } else if i == 1 {
            ColorFacet::Green
        } else if i == 2 {
            ColorFacet::Red
        } else {
            ColorFacet::Blue
        },
    }
}

/// The side of neighbor `i` of face `c` that borders `c`, and whether the
/// strip on it runs against the side's own order.
pub open spec fn border(c: ColorFacet, i: int) -> (Side, bool) {
    match c {
        ColorFacet::Red => if i == 0 {
            (Side::Bottom, false)
        } else if i == 1 {
            (Side::Left, false)
        } else if i == 2 {
            (Side::Top, true)
        } else {
            (Side::Right, true)
        },
        ColorFacet::Blue => if i == 0 {
            (Side::Right, false)
        } else if i == 1 {
            (Side::Right, false)
        } else if i == 2 {
            (Side::Left, false)
        } else {
            (Side::Right, false)
        },
        ColorFacet::Green => if i == 3 {
            (Side::Right, true)
        } else {
            (Side::Left, false)
        },
        ColorFacet::Orange => if i == 0 {
            (Side::Top, false)
        } else if i == 1 {
            (Side::Left, true)
        } else if i == 2 {
            (Side::Bottom, true)
        } else {
            (Side::Right, false)
        },
        ColorFacet::White => (Side::Top, false),
        ColorFacet::Yellow => (Side::Bottom, false),
    }
}

/// The cell at place `j` (0 to 2) of the strip of neighbor `i` of face `c`.
/// A turn moves the facet at place `j` of one strip to place `j` of the next.
pub open spec fn strip_cell(c: ColorFacet, i: int, j: int) -> (int, int) {
    let (side, backwards) = border(c, i);
    side.cell(if backwards { 2 - j } else { j })
}

/// Which neighbor of face `c` face `f` is, or 4 where `f` is `c` itself or
/// the face across from it.
pub open spec fn ring_place(c: ColorFacet, f: ColorFacet) -> int {
    if f == neighbor(c, 0) {
        0
    } else if f == neighbor(c, 1) {
        1
    } else if f == neighbor(c, 2) {
        2
    } else if f == neighbor(c, 3) {
        3
    } else {
        4
    }
}

/// The place of cell `(r, k)` in the strip of neighbor `i` of face `c`, or 3
/// where the cell is not on that strip.
pub open spec fn strip_place(c: ColorFacet, i: int, r: int, k: int) -> int {
    let (side, backwards) = border(c, i);
    let j = side.place(r, k);
    if backwards && j < 3 {
        2 - j
    } else {
        j
    }
}

/// The neighbor whose strip a turn in direction `d` carries on to neighbor
/// `i`: the one before it for a clockwise turn, the one after it for an
/// anticlockwise turn.
pub open spec fn feeder(d: RotationDirection, i: int) -> int {
    match d {
        RotationDirection::Clockwise => (i + 3) % 4,
        RotationDirection::Anticlockwise => (i + 1) % 4,
    }
}

/// Where the facet that a turn of face `c` in direction `d` brings to cell
/// `(r, k)` of face `f` was before the turn, as `(face, row, column)`. The
/// turned face turns as a face does; a cell on a border strip takes the
/// facet at the same place of the feeding neighbor's strip; every other cell
/// keeps its facet.
#[verifier::opaque]
pub open spec fn source(c: ColorFacet, d: RotationDirection, f: ColorFacet, r: int, k: int) -> (
    ColorFacet,
    int,
    int,
) {
    if f == c {
        let (r0, k0) = turn_source(d, r, k);
        (c, r0, k0)
    } else {
        let i = ring_place(c, f);
        let j = strip_place(c, i, r, k);
        if i < 4 && j < 3 {
            let i0 = feeder(d, i);
            let (r0, k0) = strip_cell(c, i0, j);
            (neighbor(c, i0), r0, k0)
        } else {
            (f, r, k)
        }
    }
}

} // verus!
