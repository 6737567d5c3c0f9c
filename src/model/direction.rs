//! Directions: distinct stop sequences whose legs are measured by routing.
use vstd::prelude::*;

verus! {

pub struct Direction {
    pub id: i32,
    /// Positions and stop ids of the sequence, written one after the other.
    pub identifier: String,
    pub origin_id: i32,
    pub destination_id: i32,
}

pub ghost struct DirectionView {
    pub id: i32,
    pub identifier: Seq<char>,
    pub origin_id: i32,
    pub destination_id: i32,
}

impl View for Direction {
    type V = DirectionView;

    open spec fn view(&self) -> DirectionView {
        DirectionView {
            id: self.id,
            identifier: self.identifier@,
            origin_id: self.origin_id,
            destination_id: self.destination_id,
        }
    }
}

} // verus!
