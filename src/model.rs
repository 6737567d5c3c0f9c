//! The entities produced by the import.
pub mod enums;
pub mod types;
pub mod line;
pub mod clock;
pub mod bitfield;
pub mod direction;
pub mod direction_leg;
pub mod shape;
pub mod shape_stop;
pub mod trip;
pub mod trip_stop;
pub mod leg_step;
pub mod line_stop;
