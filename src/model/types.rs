//! Enumerated fields of the timetable: colour class of a line and travel
//! direction of a journey.
use crate::text::text_eq;
use vstd::prelude::*;

verus! {

/// Colour class of a line, read from its colour-type record.
#[derive(Debug, Clone, Copy, PartialEq, Eq, Structural)]
pub enum ColorType {
    Dark,
    Light,
    Unknown,
}

impl ColorType {
    /// The class a token names; any other token is `Unknown`.
    pub open spec fn of_token(s: Seq<char>) -> ColorType {
        if s == "255 255 255"@ {
            Self::Light
        } else if s == "000 000 000"@ {
            Self::Dark
        } else if s == "Light"@ {
            Self::Light
        } else if s == "Dark"@ {
            Self::Dark
        } else {
            Self::Unknown
        }
    }

    /// Reads a colour class; an unrecognised token gives `Unknown`, never an error.
    pub fn from_str(s: &str) -> (r: Result<Self, ()>)
        ensures
            r == Ok::<ColorType, ()>(Self::of_token(s@)),
    {
        if text_eq(s, "255 255 255") {
            Ok(Self::Light)
        } else if text_eq(s, "000 000 000") {
            Ok(Self::Dark)
        } else if text_eq(s, "Light") {
            Ok(Self::Light)
        } else if text_eq(s, "Dark") {
            Ok(Self::Dark)
        } else {
            Ok(Self::Unknown)
        }
    }
}

/// Direction of travel of a journey: outward (`H`) or return (`R`).
#[derive(Debug, Clone, Copy, PartialEq, Eq, Structural)]
pub enum Direction {
    Outward,
    Return,
}

impl Direction {
    /// The direction a token names, if it names one.
    pub open spec fn of_token(s: Seq<char>) -> Option<Direction> {
        if s == "H"@ {
            Some(Self::Outward)
        } else if s == "R"@ {
            Some(Self::Return)
        } else if s == "Outward"@ {
            Some(Self::Outward)
        } else if s == "Return"@ {
            Some(Self::Return)
        } else {
            None
        }
    }

    /// Reads a direction; an unrecognised token is an error.
    pub fn from_str(s: &str) -> (r: Result<Self, ()>)
        ensures
            r == (match Self::of_token(s@) {
                Some(d) => Ok::<Direction, ()>(d),
                None => Err(()),
            }),
    {
        if text_eq(s, "H") {
            Ok(Self::Outward)
        } else if text_eq(s, "R") {
            Ok(Self::Return)
        } else if text_eq(s, "Outward") {
            Ok(Self::Outward)
        } else if text_eq(s, "Return") {
            Ok(Self::Return)
        } else {
            Err(())
        }
    }
}

} // verus!
