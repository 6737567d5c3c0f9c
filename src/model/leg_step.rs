//! Steps of a direction leg, as the routing service returns them.
use vstd::prelude::*;

verus! {

/// One step of a leg; its coordinates stay with the caller that talks to
/// the routing service, which `geometry` points into.
#[derive(Debug, Clone, Copy, PartialEq, Eq, Structural)]
pub struct LegStep {
    pub id: i32,
    pub leg_id: i32,
    /// Metres.
    pub distance: i32,
    /// Seconds.
    pub duration: i32,
    /// Position in the leg, from 1.
    pub sequence: i16,
    /// Where the caller keeps the step's coordinates.
    pub geometry: usize,
}

} // verus!
