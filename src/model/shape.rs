//! Shapes: distinct stop sequences shared by the trips that follow them.
use vstd::prelude::*;

verus! {

pub struct Shape {
    pub id: i32,
    /// Positions and stop ids of the sequence, written one after the other.
    pub identifier: String,
}

} // verus!
