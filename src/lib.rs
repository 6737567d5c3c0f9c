//! Conversion of a fixed-column national timetable into normalized transit
//! schedule entities: trips, calendars, shared stop sequences and per-stop times.

pub mod text;
pub mod model;
pub mod repository;
pub mod api;
