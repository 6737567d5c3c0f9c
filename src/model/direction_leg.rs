//! Legs of a direction: travel between two consecutive stops.
use vstd::prelude::*;

verus! {

#[derive(Debug, Clone, Copy, PartialEq, Eq, Structural)]
pub struct DirectionLeg {
    pub id: i32,
    pub direction_id: i32,
    /// Metres.
    pub distance: i32,
    /// Seconds.
    pub duration: i32,
    /// Position in the direction, from 1.
    pub sequence: i16,
    pub origin_id: i32,
    pub destination_id: i32,
}

} // verus!
