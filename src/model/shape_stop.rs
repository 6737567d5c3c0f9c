//! The stops of a shape, in order.
use vstd::prelude::*;

verus! {

#[derive(Debug, Clone, Copy, PartialEq, Eq, Structural)]
pub struct ShapeStop {
    pub id: i32,
    pub shape_id: i32,
    pub stop_id: i32,
    /// Position in the shape, from 1.
    pub sequence: i16,
}

} // verus!
