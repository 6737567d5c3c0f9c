//! The stops of a trip, with their (possibly corrected) times.
use crate::model::clock::ClockTime;
use vstd::prelude::*;

verus! {

#[derive(Debug, Clone, Copy, PartialEq, Eq, Structural)]
pub struct TripStop {
    pub id: i32,
    pub stop_id: i32,
    pub trip_id: i32,
    /// Position in the trip, from 1.
    pub sequence: i16,
    pub arrival_time: Option<ClockTime>,
    pub departure_time: Option<ClockTime>,
}

} // verus!
