use vstd::prelude::*;

verus! {

/// The side of the primary rectangle through which the secondary rectangle
/// is judged to have entered, under the minimum-overlap tie-break rule of
/// the detector.
#[derive(Clone, Copy, Debug, PartialEq, Eq, Structural)]
pub enum CollisionDirection {
    Left,
    Right,
    Top,
    Bottom,
}

} // verus!
