//! Requests for shapes by id: reading the id and the error statuses.
use crate::text::{decimal_within, parse_decimal};
use vstd::prelude::*;

verus! {

/// The id part of a shape request, as given.
pub struct ShapeIdentifier {
    pub id: String,
}

#[derive(Debug, Clone, Copy, PartialEq, Eq, Structural)]
pub enum ShapeError {
    ShapeNotFound,
    BadShapeRequest,
}

impl ShapeError {
    /// HTTP status of the error: not found, or a bad request.
    pub fn status_code(&self) -> (r: u16)
        ensures
            r == (if *self == ShapeError::ShapeNotFound {
                404u16
            } else {
                400u16
            }),
    {
        match self {
            ShapeError::ShapeNotFound => 404,
            _ => 400,
        }
    }

    /// The error's name, as sent in a response body.
    pub fn message(&self) -> (r: &'static str)
        ensures
            *self == ShapeError::ShapeNotFound ==> r@ == "ShapeNotFound"@,
            *self == ShapeError::BadShapeRequest ==> r@ == "BadShapeRequest"@,
    {
        match self {
            ShapeError::ShapeNotFound => "ShapeNotFound",
            ShapeError::BadShapeRequest => "BadShapeRequest",
        }
    }
}

impl ShapeIdentifier {
    /// The requested id, or a bad request when it is not a 32-bit integer.
    pub fn parse(&self) -> (r: Result<i32, ShapeError>)
        ensures
            match decimal_within(self.id@, i32::MIN as int, i32::MAX as int) {
                Some(v) => r == Ok::<i32, ShapeError>(v as i32),
                None => r == Err::<i32, ShapeError>(ShapeError::BadShapeRequest),
            },
    {
        match parse_decimal(self.id.as_str(), i32::MIN as i64, i32::MAX as i64) {
            Some(v) => Ok(v as i32),
            None => Err(ShapeError::BadShapeRequest),
        }
    }
}

} // verus!
