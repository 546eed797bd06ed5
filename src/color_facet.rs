use vstd::prelude::*;

verus! {

/// The six face identities; also the permanent origin label of a facet.
#[derive(PartialEq, Eq, Structural, Debug, Clone, Copy)]
pub enum ColorFacet {
    Red,
    Blue,
    Green,
    Orange,
    White,
    Yellow,
}

impl ColorFacet {
    /// The face across the cube: Red and Orange, Blue and Green, White and
    /// Yellow face each other. A turn of a face never touches its opposite.
    pub open spec fn across(self) -> ColorFacet {
        match self {
            ColorFacet::Red => ColorFacet::Orange,
            ColorFacet::Orange => ColorFacet::Red,
            ColorFacet::Blue => ColorFacet::Green,
            ColorFacet::Green => ColorFacet::Blue,
            ColorFacet::White => ColorFacet::Yellow,
            ColorFacet::Yellow => ColorFacet::White,
        }
    }

    /// The one-letter code of a color, as used when a face is drawn.
    pub open spec fn code(self) -> char {
        match self {
            ColorFacet::Red => 'R',
            ColorFacet::Blue => 'B',
            ColorFacet::Green => 'G',
            ColorFacet::Orange => 'O',
            ColorFacet::White => 'W',
            ColorFacet::Yellow => 'Y',
        }
    }

    /// All six colors, in declaration order.
    pub fn iterator() -> (r: Vec<ColorFacet>)
        ensures
            r@ == seq![
                ColorFacet::Red,
                ColorFacet::Blue,
                ColorFacet::Green,
                ColorFacet::Orange,
                ColorFacet::White,
                ColorFacet::Yellow,
            ],
    {
        let r = vec![
            ColorFacet::Red,
            ColorFacet::Blue,
            ColorFacet::Green,
            ColorFacet::Orange,
            ColorFacet::White,
            ColorFacet::Yellow,
        ];
        assert(r@ =~= seq![
            ColorFacet::Red,
            ColorFacet::Blue,
            ColorFacet::Green,
            ColorFacet::Orange,
            ColorFacet::White,
            ColorFacet::Yellow,
        ]);
        r
    }

    /// The one-letter code of this color.
    pub fn letter(self) -> (r: char)
        ensures
            r == self.code(),
    {
        match self {
            ColorFacet::Red => 'R',
            ColorFacet::Blue => 'B',
            ColorFacet::Green => 'G',
            ColorFacet::Orange => 'O',
            ColorFacet::White => 'W',
            ColorFacet::Yellow => 'Y',
        }
    }
}

} // verus!
