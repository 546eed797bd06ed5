use crate::color_facet::ColorFacet;
use vstd::prelude::*;

verus! {

/// One sticker: the color of the face it started on, and its position tag
/// (1 to 9, row by row) on that face. Turns move facets between slots and
/// never change either field.
#[derive(PartialEq, Eq, Structural, Debug, Clone, Copy)]
pub struct Facet {
    pub color: ColorFacet,
    pub index: u8,
}

impl Facet {
    pub fn new(color: ColorFacet, index: u8) -> (r: Facet)
        ensures
            r.color == color,
            r.index == index,
    {
        Facet { color, index }
    }
}

} // verus!
