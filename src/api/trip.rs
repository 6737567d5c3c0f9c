//! Requests for trips by id: reading the id and the error statuses.
use crate::text::{decimal_within, parse_decimal};
use vstd::prelude::*;

verus! {

/// The id part of a trip request, as given.
pub struct TripIdentifier {
    pub id: String,
}

#[derive(Debug, Clone, Copy, PartialEq, Eq, Structural)]
pub enum TripError {
    TripNotFound,
    BadTripRequest,
    InvalidTimePeriod,
    InvalidBounds,
}

impl TripError {
    /// HTTP status of the error: not found, or a bad request.
    pub fn status_code(&self) -> (r: u16)
        ensures
            r == (if *self == TripError::TripNotFound {
                404u16
            } else {
                400u16
            }),
    {
        match self {
            TripError::TripNotFound => 404,
            _ => 400,
        }
    }

    /// The error's name, as sent in a response body.
    pub fn message(&self) -> (r: &'static str)
        ensures
            *self == TripError::TripNotFound ==> r@ == "TripNotFound"@,
            *self == TripError::BadTripRequest ==> r@ == "BadTripRequest"@,
            *self == TripError::InvalidTimePeriod ==> r@ == "InvalidTimePeriod"@,
            *self == TripError::InvalidBounds ==> r@ == "InvalidBounds"@,
    {
        match self {
            TripError::TripNotFound => "TripNotFound",
            TripError::BadTripRequest => "BadTripRequest",
            TripError::InvalidTimePeriod => "InvalidTimePeriod",
            TripError::InvalidBounds => "InvalidBounds",
        }
    }
}

impl TripIdentifier {
    /// The requested id, or a bad request when it is not a 32-bit integer.
    pub fn parse(&self) -> (r: Result<i32, TripError>)
        ensures
            match decimal_within(self.id@, i32::MIN as int, i32::MAX as int) {
                Some(v) => r == Ok::<i32, TripError>(v as i32),
                None => r == Err::<i32, TripError>(TripError::BadTripRequest),
            },
    {
        match parse_decimal(self.id.as_str(), i32::MIN as i64, i32::MAX as i64) {
            Some(v) => Ok(v as i32),
            None => Err(TripError::BadTripRequest),
        }
    }
}

/// Query of the trips running around a moment: a UTC timestamp, a window
/// half-width in minutes, and an optional earliest departure.
pub struct TripSelector {
    pub timestamp: i64,
    pub bounds: Option<i16>,
    pub from: Option<i64>,
}

impl TripSelector {
    /// The window half-width in minutes: 0 when absent, an error outside
    /// `[0, 24]`.
    pub fn checked_bounds(&self) -> (r: Result<i16, TripError>)
        ensures
            ({
                let b = match self.bounds {
                    Some(b) => b,
                    None => 0,
                };
                r == if 0 <= b <= 24 {
                    Ok::<i16, TripError>(b)
                } else {
                    Err(TripError::InvalidBounds)
                }
            }),
    {
        let b: i16 = match self.bounds {
            Some(b) => b,
            None => 0,
        };
        if b > 24 || b < 0 {
            Err(TripError::InvalidBounds)
        } else {
            Ok(b)
        }
    }
}

} // verus!
