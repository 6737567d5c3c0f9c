//! Strict enumerated tokens: unlike the timetable tables, an unknown token
//! is always an error here.
use crate::text::text_eq;
use vstd::prelude::*;

verus! {

/// Colour class with no fallback variant.
#[derive(Debug, Clone, Copy, PartialEq, Eq, Structural)]
pub enum ColorType {
    Dark,
    Light,
}

impl ColorType {
    /// The class an RGB token names, if it names one.
    pub open spec fn of_token(s: Seq<char>) -> Option<ColorType> {
        if s == "255 255 255"@ {
            Some(Self::Light)
        } else if s == "000 000 000"@ {
            Some(Self::Dark)
        } else {
            None
        }
    }

    /// Reads a colour class; an unrecognised token is an error.
    pub fn from_str(s: &str) -> (r: Result<Self, ()>)
        ensures
            r == (match Self::of_token(s@) {
                Some(c) => Ok::<ColorType, ()>(c),
                None => Err(()),
            }),
    {
        if text_eq(s, "255 255 255") {
            Ok(Self::Light)
        } else if text_eq(s, "000 000 000") {
            Ok(Self::Dark)
        } else {
            Err(())
        }
    }
}

/// Direction of travel, read from the one-letter timetable token only.
#[derive(Debug, Clone, Copy, PartialEq, Eq, Structural)]
pub enum Direction {
    Outward,
    Return,
}

impl Direction {
    /// The direction a one-letter token names, if it names one.
    pub open spec fn of_token(s: Seq<char>) -> Option<Direction> {
        if s == "H"@ {
            Some(Self::Outward)
        } else if s == "R"@ {
            Some(Self::Return)
        } else {
            None
        }
    }

    /// Reads a direction; an unrecognised token is an error.
    pub fn from_str(s: &str) -> (r: Result<Self, ()>)
        ensures
            r == (match Self::of_token(s@) {
                Some(d) => Ok::<Direction, ()>(d),
                None => Err(()),
            }),
    {
        if text_eq(s, "H") {
            Ok(Self::Outward)
        } else if text_eq(s, "R") {
            Ok(Self::Return)
        } else {
            Err(())
        }
    }
}

} // verus!
