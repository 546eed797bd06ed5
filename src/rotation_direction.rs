use vstd::prelude::*;

verus! {

/// The sense of a quarter turn, seen from outside the cube, looking straight
/// at the turned face.
#[derive(PartialEq, Eq, Structural, Debug, Clone, Copy)]
pub enum RotationDirection {
    Clockwise,
    Anticlockwise,
}

impl RotationDirection {
    /// The other direction.
    pub open spec fn reversed(self) -> RotationDirection {
        match self {
            RotationDirection::Clockwise => RotationDirection::Anticlockwise,
            RotationDirection::Anticlockwise => RotationDirection::Clockwise,
        }
    }

    /// Both directions, in declaration order.
    pub fn iterator() -> (r: Vec<RotationDirection>)
        ensures
            r@ == seq![RotationDirection::Clockwise, RotationDirection::Anticlockwise],
    {
        let r = vec![RotationDirection::Clockwise, RotationDirection::Anticlockwise];
        assert(r@ =~= seq![RotationDirection::Clockwise, RotationDirection::Anticlockwise]);
        r
    }

    /// The other direction; taking it twice gives back the first.
    pub fn opposite(self) -> (r: RotationDirection)
        ensures
            r == self.reversed(),
            r != self,
            r.reversed() == self,
    {
        match self {
            RotationDirection::Clockwise => RotationDirection::Anticlockwise,
            RotationDirection::Anticlockwise => RotationDirection::Clockwise,
        }
    }
}

} // verus!
