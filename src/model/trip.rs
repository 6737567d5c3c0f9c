//! Trips: one per journey, with its first departure and last arrival.
use crate::model::clock::ClockTime;
use crate::model::line::TransportMode;
use crate::model::types::Direction;
use vstd::prelude::*;

verus! {

#[derive(Debug, Clone, Copy, PartialEq, Eq, Structural)]
pub struct Trip {
    pub id: i32,
    pub journey_number: i32,
    pub option_count: i16,
    pub transport_mode: TransportMode,
    pub origin_id: i32,
    pub destination_id: i32,
    pub bitfield_id: i32,
    pub line_id: i32,
    pub direction: Direction,
    pub departure_time: ClockTime,
    pub arrival_time: ClockTime,
    /// The shared stop sequence, when trips are built with shapes.
    pub shape_id: Option<i32>,
    /// The shared stop sequence, when trips are built with directions.
    pub direction_id: Option<i32>,
}

} // verus!
