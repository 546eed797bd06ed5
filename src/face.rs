use crate::color_facet::ColorFacet;
use crate::facet::Facet;
use crate::rotation_direction::RotationDirection;
use vstd::prelude::*;

verus! {

/// One side of the cube: a fixed center and a ring of eight facets around it.
#[derive(PartialEq, Eq, Structural, Debug, Clone, Copy)]
pub struct Face {
    pub center: Facet,
    pub left_top: Facet,
    pub top: Facet,
    pub right_top: Facet,
    pub left: Facet,
    pub right: Facet,
    pub left_bottom: Facet,
    pub bottom: Facet,
    pub right_bottom: Facet,
}

/// The cell of a face that a quarter turn of that face brings to row `r`,
/// column `k`: clockwise, column `r` read from the bottom up becomes row
/// `r`; anticlockwise, column `2 - r` read from the top down does.
pub open spec fn turn_source(d: RotationDirection, r: int, k: int) -> (int, int) {
    match d {
        RotationDirection::Clockwise => (2 - k, r),
        RotationDirection::Anticlockwise => (k, 2 - r),
    }
}

impl Face {
    /// The facet at row `r` and column `k`, both counted from 0 at the top
    /// left.
    pub open spec fn cell(self, r: int, k: int) -> Facet {
        if r == 0 {
            if k == 0 { self.left_top } else if k == 1 { self.top } else { self.right_top }
        } else if r == 1 {
            if k == 0 { self.left } else if k == 1 { self.center } else { self.right }
        } else {
            if k == 0 { self.left_bottom } else if k == 1 { self.bottom } else { self.right_bottom }
        }
    }

    /// The facet that a quarter turn in direction `d` brings to row `r`,
    /// column `k`.
    pub open spec fn turned_cell(self, d: RotationDirection, r: int, k: int) -> Facet {
        let (r0, k0) = turn_source(d, r, k);
        self.cell(r0, k0)
    }

    /// The face after a quarter turn in direction `d`: the corners and the
    /// edge middles each move one step round the ring; the center stays.
    pub open spec fn turned(self, d: RotationDirection) -> Face {
        Face {
            left_top: self.turned_cell(d, 0, 0),
            top: self.turned_cell(d, 0, 1),
            right_top: self.turned_cell(d, 0, 2),
            left: self.turned_cell(d, 1, 0),
            center: self.turned_cell(d, 1, 1),
            right: self.turned_cell(d, 1, 2),
            left_bottom: self.turned_cell(d, 2, 0),
            bottom: self.turned_cell(d, 2, 1),
            right_bottom: self.turned_cell(d, 2, 2),
        }
    }

    /// How many of the nine facets have property `p`.
    #[verifier::opaque]
    pub open spec fn count_where(self, p: spec_fn(Facet) -> bool) -> int {
        (if p(self.left_top) { 1int } else { 0 }) + (if p(self.top) { 1int } else { 0 }) + (if p(
            self.right_top,
        ) { 1int } else { 0 }) + (if p(self.left) { 1int } else { 0 }) + (if p(self.center) { 1int } else { 0 })
            + (if p(self.right) { 1int } else { 0 }) + (if p(self.left_bottom) { 1int } else { 0 }) + (if p(
            self.bottom,
        ) { 1int } else { 0 }) + (if p(self.right_bottom) { 1int } else { 0 })
    }

    /// Whether every facet of the face has color `color` and the position
    /// tag of its cell, 1 to 9 row by row.
    pub open spec fn is_solved_in(self, color: ColorFacet) -> bool {
        forall|r: int, k: int|
            0 <= r < 3 && 0 <= k < 3 ==> #[trigger] self.cell(r, k) == Facet {
                color,
                index: (3 * r + k + 1) as u8,
            }
    }

    /// A solved face of color `color`.
    pub fn new(color: ColorFacet) -> (r: Face)
        ensures
            r.is_solved_in(color),
    {
        Face {
            left_top: Facet::new(color, 1),
            top: Facet::new(color, 2),
            right_top: Facet::new(color, 3),
            left: Facet::new(color, 4),
            center: Facet::new(color, 5),
            right: Facet::new(color, 6),
            left_bottom: Facet::new(color, 7),
            bottom: Facet::new(color, 8),
            right_bottom: Facet::new(color, 9),
        }
    }

    /// The face after a quarter turn in direction `direction`.
    pub fn rotate(self, direction: RotationDirection) -> (r: Face)
        ensures
            r == self.turned(direction),
    {
        match direction {
            RotationDirection::Clockwise => Face::rotate_clockwise(self),
            RotationDirection::Anticlockwise => Face::rotate_anticlockwise(self),
        }
    }

    /// The face after a clockwise quarter turn.
    pub fn rotate_clockwise(self) -> (r: Face)
        ensures
            r == self.turned(RotationDirection::Clockwise),
    {
        Face {
            left_top: self.left_bottom,
            top: self.left,
            right_top: self.left_top,
            left: self.bottom,
            right: self.top,
            left_bottom: self.right_bottom,
            bottom: self.right,
            right_bottom: self.right_top,
            ..self
        }
    }

    /// The face after an anticlockwise quarter turn.
    pub fn rotate_anticlockwise(self) -> (r: Face)
        ensures
            r == self.turned(RotationDirection::Anticlockwise),
    {
        Face {
            left_top: self.right_top,
            top: self.right,
            right_top: self.right_bottom,
            left: self.top,
            right: self.bottom,
            left_bottom: self.left_top,
            bottom: self.left,
            right_bottom: self.left_bottom,
            ..self
        }
    }
}

} // verus!
