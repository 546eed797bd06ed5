use crate::adjacency::source;
use crate::color_facet::ColorFacet;
use crate::face::Face;
use crate::facet::Facet;
use crate::rotation_direction::RotationDirection;
use vstd::prelude::*;

verus! {

/// The whole cube: one face for each color, named by its center.
#[derive(PartialEq, Eq, Structural, Debug, Clone, Copy)]
pub struct RubiksCube {
    pub red: Face,
    pub blue: Face,
    pub green: Face,
    pub orange: Face,
    pub white: Face,
    pub yellow: Face,
}

impl RubiksCube {
    /// The face whose identity is `c`.
    pub open spec fn face(self, c: ColorFacet) -> Face {
        match c {
            ColorFacet::Red => self.red,
            ColorFacet::Blue => self.blue,
            ColorFacet::Green => self.green,
            ColorFacet::Orange => self.orange,
            ColorFacet::White => self.white,
            ColorFacet::Yellow => self.yellow,
        }
    }

    /// The facet at row `r`, column `k` of face `f`.
    pub open spec fn cell(self, f: ColorFacet, r: int, k: int) -> Facet {
        self.face(f).cell(r, k)
    }

    /// The facet at row `r`, column `k` of face `f` once face `c` has turned
    /// a quarter in direction `d`.
    #[verifier::opaque]
    pub open spec fn moved_cell(
        self,
        c: ColorFacet,
        d: RotationDirection,
        f: ColorFacet,
        r: int,
        k: int,
    ) -> Facet {
        let (g, r0, k0) = source(c, d, f, r, k);
        self.cell(g, r0, k0)
    }

    /// Face `f` once face `c` has turned a quarter in direction `d`.
    pub open spec fn turned_face(self, c: ColorFacet, d: RotationDirection, f: ColorFacet) -> Face {
        Face {
            left_top: self.moved_cell(c, d, f, 0, 0),
            top: self.moved_cell(c, d, f, 0, 1),
            right_top: self.moved_cell(c, d, f, 0, 2),
            left: self.moved_cell(c, d, f, 1, 0),
            center: self.moved_cell(c, d, f, 1, 1),
            right: self.moved_cell(c, d, f, 1, 2),
            left_bottom: self.moved_cell(c, d, f, 2, 0),
            bottom: self.moved_cell(c, d, f, 2, 1),
            right_bottom: self.moved_cell(c, d, f, 2, 2),
        }
    }

    /// Whether every face holds nine facets of its own color, each tagged
    /// with the place of its cell, 1 to 9 row by row.
    pub open spec fn is_solved(self) -> bool {
        forall|f: ColorFacet| #[trigger] self.face(f).is_solved_in(f)
    }

    /// How many of the 54 facets have property `p`.
    pub open spec fn count_where(self, p: spec_fn(Facet) -> bool) -> int {
        self.red.count_where(p) + self.blue.count_where(p) + self.green.count_where(p)
            + self.orange.count_where(p) + self.white.count_where(p) + self.yellow.count_where(p)
    }

    /// How many of the 54 facets have origin color `col`: the multiplicity of
    /// `col` in the multiset of the cube's color labels.
    pub open spec fn color_count(self, col: ColorFacet) -> int {
        self.count_where(|x: Facet| x.color == col)
    }

    /// The cube after the quarter turns `moves`, taken first to last.
    pub open spec fn after(self, moves: Seq<(ColorFacet, RotationDirection)>) -> RubiksCube
        decreases moves.len(),
    {
        if moves.len() == 0 {
            self
        } else {
            let (c, d) = moves.last();
            self.after(moves.drop_last()).turned(c, d)
        }
    }

    /// The cube once face `c` has turned a quarter in direction `d`.
    pub open spec fn turned(self, c: ColorFacet, d: RotationDirection) -> RubiksCube {
        RubiksCube {
            red: self.turned_face(c, d, ColorFacet::Red),
            blue: self.turned_face(c, d, ColorFacet::Blue),
            green: self.turned_face(c, d, ColorFacet::Green),
            orange: self.turned_face(c, d, ColorFacet::Orange),
            white: self.turned_face(c, d, ColorFacet::White),
            yellow: self.turned_face(c, d, ColorFacet::Yellow),
        }
    }

    /// The cube after a quarter turn of face `face` in direction
    /// `direction`.
    pub fn rotate(self, face: ColorFacet, direction: RotationDirection) -> (r: RubiksCube)
        ensures
            r == self.turned(face, direction),
    {
        match face {
            ColorFacet::Blue => RubiksCube::rotate_blue(self, direction),
            ColorFacet::Red => RubiksCube::rotate_red(self, direction),
            ColorFacet::Green => RubiksCube::rotate_green(self, direction),
            ColorFacet::Orange => RubiksCube::rotate_orange(self, direction),
            ColorFacet::White => RubiksCube::rotate_white(self, direction),
            ColorFacet::Yellow => RubiksCube::rotate_yellow(self, direction),
        }
    }

    /// The cube after a quarter turn of the blue face in direction `direction`.
    pub fn rotate_blue(self, direction: RotationDirection) -> (r: RubiksCube)
        ensures
            r == self.turned(ColorFacet::Blue, direction),
    {
        match direction {
            RotationDirection::Clockwise => RubiksCube::rotate_blue_clockwise(self),
            RotationDirection::Anticlockwise => RubiksCube::rotate_blue_anticlockwise(self),
        }
    }

    /// The cube after a quarter turn of the red face in direction `direction`.
    pub fn rotate_red(self, direction: RotationDirection) -> (r: RubiksCube)
        ensures
            r == self.turned(ColorFacet::Red, direction),
    {
        match direction {
            RotationDirection::Clockwise => RubiksCube::rotate_red_clockwise(self),
            RotationDirection::Anticlockwise => RubiksCube::rotate_red_anticlockwise(self),
        }
    }

    /// The cube after a quarter turn of the green face in direction `direction`.
    pub fn rotate_green(self, direction: RotationDirection) -> (r: RubiksCube)
        ensures
            r == self.turned(ColorFacet::Green, direction),
    {
        match direction {
            RotationDirection::Clockwise => RubiksCube::rotate_green_clockwise(self),
            RotationDirection::Anticlockwise => RubiksCube::rotate_green_anticlockwise(self),
        }
    }

    /// The cube after a quarter turn of the orange face in direction `direction`.
    pub fn rotate_orange(self, direction: RotationDirection) -> (r: RubiksCube)
        ensures
            r == self.turned(ColorFacet::Orange, direction),
    {
        match direction {
            RotationDirection::Clockwise => RubiksCube::rotate_orange_clockwise(self),
            RotationDirection::Anticlockwise => RubiksCube::rotate_orange_anticlockwise(self),
        }
    }

    /// The cube after a quarter turn of the white face in direction `direction`.
    pub fn rotate_white(self, direction: RotationDirection) -> (r: RubiksCube)
        ensures
            r == self.turned(ColorFacet::White, direction),
    {
        match direction {
            RotationDirection::Clockwise => RubiksCube::rotate_white_clockwise(self),
            RotationDirection::Anticlockwise => RubiksCube::rotate_white_anticlockwise(self),
        }
    }

    /// The cube after a quarter turn of the yellow face in direction `direction`.
    pub fn rotate_yellow(self, direction: RotationDirection) -> (r: RubiksCube)
        ensures
            r == self.turned(ColorFacet::Yellow, direction),
    {
        match direction {
            RotationDirection::Clockwise => RubiksCube::rotate_yellow_clockwise(self),
            RotationDirection::Anticlockwise => RubiksCube::rotate_yellow_anticlockwise(self),
        }
    }

    /// The cube after a clockwise quarter turn of the red face.
    pub fn rotate_red_clockwise(self) -> (r: RubiksCube)
        ensures
            r == self.turned(ColorFacet::Red, RotationDirection::Clockwise),
    {
        proof {
            reveal(RubiksCube::moved_cell);
            reveal(source);
        }
        RubiksCube {
            red: Face::rotate(self.red, RotationDirection::Clockwise),
            white: Face {
                left_bottom: self.green.right_bottom,
                bottom: self.green.right,
                right_bottom: self.green.right_top,
                ..self.white
            },
            blue: Face {
                left_top: self.white.left_bottom,
                left: self.white.bottom,
                left_bottom: self.white.right_bottom,
                ..self.blue
            },
            yellow: Face {
                right_top: self.blue.left_top,
                top: self.blue.left,
                left_top: self.blue.left_bottom,
                ..self.yellow
            },
            green: Face {
                right_bottom: self.yellow.right_top,
                right: self.yellow.top,
                right_top: self.yellow.left_top,
                ..self.green
            },
            ..self
        }
    }

    /// The cube after an anticlockwise quarter turn of the red face.
    pub fn rotate_red_anticlockwise(self) -> (r: RubiksCube)
        ensures
            r == self.turned(ColorFacet::Red, RotationDirection::Anticlockwise),
    {
        proof {
            reveal(RubiksCube::moved_cell);
            reveal(source);
        }
        RubiksCube {
            red: Face::rotate(self.red, RotationDirection::Anticlockwise),
            white: Face {
                left_bottom: self.blue.left_top,
                bottom: self.blue.left,
                right_bottom: self.blue.left_bottom,
                ..self.white
            },
            blue: Face {
                left_top: self.yellow.right_top,
                left: self.yellow.top,
                left_bottom: self.yellow.left_top,
                ..self.blue
            },
            yellow: Face {
                right_top: self.green.right_bottom,
                top: self.green.right,
                left_top: self.green.right_top,
                ..self.yellow
            },
            green: Face {
                right_bottom: self.white.left_bottom,
                right: self.white.bottom,
                right_top: self.white.right_bottom,
                ..self.green
            },
            ..self
        }
    }

    /// The cube after a clockwise quarter turn of the blue face.
    pub fn rotate_blue_clockwise(self) -> (r: RubiksCube)
        ensures
            r == self.turned(ColorFacet::Blue, RotationDirection::Clockwise),
    {
        proof {
            reveal(RubiksCube::moved_cell);
            reveal(source);
        }
        RubiksCube {
            blue: Face::rotate(self.blue, RotationDirection::Clockwise),
            red: Face {
                right_bottom: self.yellow.right_bottom,
                right: self.yellow.right,
                right_top: self.yellow.right_top,
                ..self.red
            },
            white: Face {
                right_bottom: self.red.right_bottom,
                right: self.red.right,
                right_top: self.red.right_top,
                ..self.white
            },
            orange: Face {
                left_bottom: self.white.right_bottom,
                left: self.white.right,
                left_top: self.white.right_top,
                ..self.orange
            },
            yellow: Face {
                right_bottom: self.orange.left_bottom,
                right: self.orange.left,
                right_top: self.orange.left_top,
                ..self.yellow
            },
            ..self
        }
    }

    /// The cube after an anticlockwise quarter turn of the blue face.
    pub fn rotate_blue_anticlockwise(self) -> (r: RubiksCube)
        ensures
            r == self.turned(ColorFacet::Blue, RotationDirection::Anticlockwise),
    {
        proof {
            reveal(RubiksCube::moved_cell);
            reveal(source);
        }
        RubiksCube {
            blue: Face::rotate(self.blue, RotationDirection::Anticlockwise),
            red: Face {
                right_bottom: self.white.right_bottom,
                right: self.white.right,
                right_top: self.white.right_top,
                ..self.red
            },
            white: Face {
                right_bottom: self.orange.left_bottom,
                right: self.orange.left,
                right_top: self.orange.left_top,
                ..self.white
            },
            orange: Face {
                left_bottom: self.yellow.right_bottom,
                left: self.yellow.right,
                left_top: self.yellow.right_top,
                ..self.orange
            },
            yellow: Face {
                right_bottom: self.red.right_bottom,
                right: self.red.right,
                right_top: self.red.right_top,
                ..self.yellow
            },
            ..self
        }
    }

    /// The cube after a clockwise quarter turn of the green face.
    pub fn rotate_green_clockwise(self) -> (r: RubiksCube)
        ensures
            r == self.turned(ColorFacet::Green, RotationDirection::Clockwise),
    {
        proof {
            reveal(RubiksCube::moved_cell);
            reveal(source);
        }
        RubiksCube {
            green: Face::rotate(self.green, RotationDirection::Clockwise),
            red: Face {
                left_bottom: self.white.left_bottom,
                left: self.white.left,
                left_top: self.white.left_top,
                ..self.red
            },
            white: Face {
                left_bottom: self.orange.right_top,
                left: self.orange.right,
                left_top: self.orange.right_bottom,
                ..self.white
            },
            orange: Face {
                right_bottom: self.yellow.left_top,
                right: self.yellow.left,
                right_top: self.yellow.left_bottom,
                ..self.orange
            },
            yellow: Face {
                left_bottom: self.red.left_bottom,
                left: self.red.left,
                left_top: self.red.left_top,
                ..self.yellow
            },
            ..self
        }
    }

    /// The cube after an anticlockwise quarter turn of the green face.
    pub fn rotate_green_anticlockwise(self) -> (r: RubiksCube)
        ensures
            r == self.turned(ColorFacet::Green, RotationDirection::Anticlockwise),
    {
        proof {
            reveal(RubiksCube::moved_cell);
            reveal(source);
        }
        RubiksCube {
            green: Face::rotate(self.green, RotationDirection::Anticlockwise),
            red: Face {
                left_bottom: self.yellow.left_bottom,
                left: self.yellow.left,
                left_top: self.yellow.left_top,
                ..self.red
            },
            white: Face {
                left_bottom: self.red.left_bottom,
                left: self.red.left,
                left_top: self.red.left_top,
                ..self.white
            },
            orange: Face {
                right_bottom: self.white.left_top,
                right: self.white.left,
                right_top: self.white.left_bottom,
                ..self.orange
            },
            yellow: Face {
                left_bottom: self.orange.right_top,
                left: self.orange.right,
                left_top: self.orange.right_bottom,
                ..self.yellow
            },
            ..self
        }
    }

    /// The cube after a clockwise quarter turn of the orange face.
    pub fn rotate_orange_clockwise(self) -> (r: RubiksCube)
        ensures
            r == self.turned(ColorFacet::Orange, RotationDirection::Clockwise),
    {
        proof {
            reveal(RubiksCube::moved_cell);
            reveal(source);
        }
        RubiksCube {
            orange: Face::rotate(self.orange, RotationDirection::Clockwise),
            green: Face {
                left_bottom: self.white.left_top,
                left: self.white.top,
                left_top: self.white.right_top,
                ..self.green
            },
            white: Face {
                left_top: self.blue.right_top,
                top: self.blue.right,
                right_top: self.blue.right_bottom,
                ..self.white
            },
            blue: Face {
                right_bottom: self.yellow.left_bottom,
                right: self.yellow.bottom,
                right_top: self.yellow.right_bottom,
                ..self.blue
            },
            yellow: Face {
                left_bottom: self.green.left_top,
                bottom: self.green.left,
                right_bottom: self.green.left_bottom,
                ..self.yellow
            },
            ..self
        }
    }

    /// The cube after an anticlockwise quarter turn of the orange face.
    pub fn rotate_orange_anticlockwise(self) -> (r: RubiksCube)
        ensures
            r == self.turned(ColorFacet::Orange, RotationDirection::Anticlockwise),
    {
        proof {
            reveal(RubiksCube::moved_cell);
            reveal(source);
        }
        RubiksCube {
            orange: Face::rotate(self.orange, RotationDirection::Anticlockwise),
            green: Face {
                left_bottom: self.yellow.right_bottom,
                left: self.yellow.bottom,
                left_top: self.yellow.left_bottom,
                ..self.green
            },
            white: Face {
                left_top: self.green.left_bottom,
                top: self.green.left,
                right_top: self.green.left_top,
                ..self.white
            },
            blue: Face {
                right_bottom: self.white.right_top,
                right: self.white.top,
                right_top: self.white.left_top,
                ..self.blue
            },
            yellow: Face {
                left_bottom: self.blue.right_bottom,
                bottom: self.blue.right,
                right_bottom: self.blue.right_top,
                ..self.yellow
            },
            ..self
        }
    }

    /// The cube after a clockwise quarter turn of the white face.
    pub fn rotate_white_clockwise(self) -> (r: RubiksCube)
        ensures
            r == self.turned(ColorFacet::White, RotationDirection::Clockwise),
    {
        proof {
            reveal(RubiksCube::moved_cell);
            reveal(source);
        }
        RubiksCube {
            white: Face::rotate(self.white, RotationDirection::Clockwise),
            green: Face {
                left_top: self.red.left_top,
                top: self.red.top,
                right_top: self.red.right_top,
                ..self.green
            },
            orange: Face {
                left_top: self.green.left_top,
                top: self.green.top,
                right_top: self.green.right_top,
                ..self.orange
            },
            blue: Face {
                left_top: self.orange.left_top,
                top: self.orange.top,
                right_top: self.orange.right_top,
                ..self.blue
            },
            red: Face {
                left_top: self.blue.left_top,
                top: self.blue.top,
                right_top: self.blue.right_top,
                ..self.red
            },
            ..self
        }
    }

    /// The cube after an anticlockwise quarter turn of the white face.
    pub fn rotate_white_anticlockwise(self) -> (r: RubiksCube)
        ensures
            r == self.turned(ColorFacet::White, RotationDirection::Anticlockwise),
    {
        proof {
            reveal(RubiksCube::moved_cell);
            reveal(source);
        }
        RubiksCube {
            white: Face::rotate(self.white, RotationDirection::Anticlockwise),
            green: Face {
                left_top: self.orange.left_top,
                top: self.orange.top,
                right_top: self.orange.right_top,
                ..self.green
            },
            orange: Face {
                left_top: self.blue.left_top,
                top: self.blue.top,
                right_top: self.blue.right_top,
                ..self.orange
            },
            blue: Face {
                left_top: self.red.left_top,
                top: self.red.top,
                right_top: self.red.right_top,
                ..self.blue
            },
            red: Face {
                left_top: self.green.left_top,
                top: self.green.top,
                right_top: self.green.right_top,
                ..self.red
            },
            ..self
        }
    }

    /// The cube after a clockwise quarter turn of the yellow face.
    pub fn rotate_yellow_clockwise(self) -> (r: RubiksCube)
        ensures
            r == self.turned(ColorFacet::Yellow, RotationDirection::Clockwise),
    {
        proof {
            reveal(RubiksCube::moved_cell);
            reveal(source);
        }
        RubiksCube {
            yellow: Face::rotate(self.yellow, RotationDirection::Clockwise),
            green: Face {
                left_bottom: self.orange.left_bottom,
                bottom: self.orange.bottom,
                right_bottom: self.orange.right_bottom,
                ..self.green
            },
            orange: Face {
                left_bottom: self.blue.left_bottom,
                bottom: self.blue.bottom,
                right_bottom: self.blue.right_bottom,
                ..self.orange
            },
            blue: Face {
                left_bottom: self.red.left_bottom,
                bottom: self.red.bottom,
                right_bottom: self.red.right_bottom,
                ..self.blue
            },
            red: Face {
                left_bottom: self.green.left_bottom,
                bottom: self.green.bottom,
                right_bottom: self.green.right_bottom,
                ..self.red
            },
            ..self
        }
    }

    /// The cube after an anticlockwise quarter turn of the yellow face.
    pub fn rotate_yellow_anticlockwise(self) -> (r: RubiksCube)
        ensures
            r == self.turned(ColorFacet::Yellow, RotationDirection::Anticlockwise),
    {
        proof {
            reveal(RubiksCube::moved_cell);
            reveal(source);
        }
        RubiksCube {
            yellow: Face::rotate(self.yellow, RotationDirection::Anticlockwise),
            green: Face {
                left_bottom: self.red.left_bottom,
                bottom: self.red.bottom,
                right_bottom: self.red.right_bottom,
                ..self.green
            },
            orange: Face {
                left_bottom: self.green.left_bottom,
                bottom: self.green.bottom,
                right_bottom: self.green.right_bottom,
                ..self.orange
            },
            blue: Face {
                left_bottom: self.orange.left_bottom,
                bottom: self.orange.bottom,
                right_bottom: self.orange.right_bottom,
                ..self.blue
            },
            red: Face {
                left_bottom: self.blue.left_bottom,
                bottom: self.blue.bottom,
                right_bottom: self.blue.right_bottom,
                ..self.red
            },
            ..self
        }
    }
}

/// A facet of color `color` with position tag `index`.
pub fn build_facet(color: ColorFacet, index: u8) -> (r: Facet)
    ensures
        r == (Facet { color, index }),
{
    Facet { color: color, index: index }
}

/// A solved face of color `color`.
pub fn build_face(color: ColorFacet) -> (r: Face)
    ensures
        r.is_solved_in(color),
{
    Face {
        left_top: build_facet(color, 1),
        top: build_facet(color, 2),
        right_top: build_facet(color, 3),
        left: build_facet(color, 4),
        center: build_facet(color, 5),
        right: build_facet(color, 6),
        left_bottom: build_facet(color, 7),
        bottom: build_facet(color, 8),
        right_bottom: build_facet(color, 9),
    }
}

/// The solved cube: every face holds nine facets of its own color, tagged 1
/// to 9 row by row.
pub fn build_rubiks_cube() -> (r: RubiksCube)
    ensures
        r.is_solved(),
{
    RubiksCube {
        red: build_face(ColorFacet::Red),
        blue: build_face(ColorFacet::Blue),
        green: build_face(ColorFacet::Green),
        white: build_face(ColorFacet::White),
        orange: build_face(ColorFacet::Orange),
        yellow: build_face(ColorFacet::Yellow),
    }
}

} // verus!
