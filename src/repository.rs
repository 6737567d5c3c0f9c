//! Reading the timetable files and turning them into entities.
pub mod columns;
pub mod records;
pub mod hrdf;
pub mod trips;
pub mod stop_times;
pub mod catalog;
pub mod maps;
pub mod gtfs;
