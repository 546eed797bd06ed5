//! A 3x3x3 twisty puzzle: six faces of nine facets each, and the quarter
//! turns of its faces, proved invertible, of order four, and free of any
//! change to the facets themselves.

pub mod adjacency;
mod color_facet;
mod face;
mod facet;
pub mod laws;
mod rotation_direction;
mod rubiks_cube;

pub use crate::color_facet::ColorFacet;
pub use crate::face::Face;
pub use crate::facet::Facet;
pub use crate::rotation_direction::RotationDirection;
pub use crate::rubiks_cube::{build_face, build_facet, build_rubiks_cube, RubiksCube};
