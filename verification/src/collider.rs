use vstd::prelude::*;
use crate::location::Location;

verus! {

/// A positioned rectangle: a center point plus a width and a height.
///
/// Construction performs no validation; only colliders with strictly
/// positive width and height may take part in detection (the detector
/// requires it).
#[derive(Clone, Copy, Debug, PartialEq, Eq, Structural)]
pub struct Collider {
    pub location: Location,
    pub width: i32,
    pub height: i32,
}

impl Collider {
    /// True of every collider that may take part in detection.
    pub open spec fn sized(&self) -> bool {
        self.width > 0 && self.height > 0
    }

    pub fn new(x: i32, y: i32, width: i32, height: i32) -> (collider: Collider)
        ensures
            collider.location.x == x,
            collider.location.y == y,
            collider.width == width,
            collider.height == height,
    {
        Collider {
            location: Location::new(x, y),
            width,
            height,
        }
    }

    pub fn location(&self) -> (location: &Location)
        ensures
            *location == self.location,
    {
        &self.location
    }

    pub fn width(&self) -> (width: i32)
        ensures
            width == self.width,
    {
        self.width
    }

    pub fn height(&self) -> (height: i32)
        ensures
            height == self.height,
    {
        self.height
    }

    /// Overwrites the stored center point; the caller moves each collider
    /// this way every tick. Accepts any coordinates.
    pub fn set_location(&mut self, location: &Location)
        ensures
            final(self).location == *location,
            final(self).width == old(self).width,
            final(self).height == old(self).height,
    {
        self.location.set(location.x(), location.y());
    }
}

} // verus!
