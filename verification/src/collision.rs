use vstd::prelude::*;
use crate::collision_direction::CollisionDirection;

verus! {

/// One detected overlap between two colliders, identified by their
/// positions in the caller's ordered sequence. The detector only ever
/// produces records with a strictly positive penetration depth.
#[derive(Clone, Copy, Debug, PartialEq, Eq, Structural)]
pub struct Collision {
    pub primary_index: usize,
    pub secondary_index: usize,
    pub entry_direction: CollisionDirection,
    pub penetration_depth: i64,
}

impl Collision {
    pub fn new(
        primary_index: usize,
        secondary_index: usize,
        entry_direction: CollisionDirection,
        penetration_depth: i64,
    ) -> (collision: Collision)
        ensures
            collision.primary_index == primary_index,
            collision.secondary_index == secondary_index,
            collision.entry_direction == entry_direction,
            collision.penetration_depth == penetration_depth,
    {
        Collision {
            primary_index,
            secondary_index,
            entry_direction,
            penetration_depth,
        }
    }

    pub fn primary_index(&self) -> (index: usize)
        ensures
            index == self.primary_index,
    {
        self.primary_index
    }

    pub fn secondary_index(&self) -> (index: usize)
        ensures
            index == self.secondary_index,
    {
        self.secondary_index
    }

    pub fn entry_direction(&self) -> (direction: CollisionDirection)
        ensures
            direction == self.entry_direction,
    {
        self.entry_direction
    }

    pub fn penetration_depth(&self) -> (depth: i64)
        ensures
            depth == self.penetration_depth,
    {
        self.penetration_depth
    }
}

} // verus!
