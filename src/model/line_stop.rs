//! Stops of a line in a given direction, each with its own random id.
use crate::model::enums::Direction;
use vstd::prelude::*;

verus! {

/// Relies on `uuid::Uuid::new_v4` and its `Display`: a random id written
/// in the hyphenated form, 36 characters long.
#[verifier::external_body]
fn random_id() -> (r: String)
    ensures
        r@.len() == 36,
{
    uuid::Uuid::new_v4().to_string()
}

pub struct LineStop {
    pub id: String,
    pub line_id: String,
    pub stop_id: String,
    pub direction: Direction,
    pub sequence: u8,
    pub variation: String,
    pub duration: u8,
}

impl LineStop {
    /// A line stop with a fresh random id.
    pub fn new(
        line_id: String,
        stop_id: String,
        direction: Direction,
        sequence: u8,
        variation: String,
        duration: u8,
    ) -> (r: Self)
        ensures
            r.id@.len() == 36,
            r.line_id == line_id,
            r.stop_id == stop_id,
            r.direction == direction,
            r.sequence == sequence,
            r.variation == variation,
            r.duration == duration,
    {
        LineStop { id: random_id(), line_id, stop_id, direction, sequence, variation, duration }
    }
}

} // verus!
