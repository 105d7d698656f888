//! Axis-aligned collision detection for 2D rectangles.
//!
//! Colliders are centered rectangles on an integer grid (y grows downward,
//! as in screen coordinates). The detector reports, for every overlapping
//! pair, the side of the primary rectangle through which the secondary is
//! judged to have entered, together with the minimal correction distance
//! along that axis.

pub mod collision_direction;
pub mod location;
pub mod collider;
pub mod collision;
pub mod collision_system;
