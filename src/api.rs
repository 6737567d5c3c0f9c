//! The read side: request ids, query parameters and error statuses.
pub mod direction;
pub mod leg;
pub mod line;
pub mod shape;
pub mod stop;
pub mod trip;
