//! Errors that name the field of a value that was refused.
use vstd::prelude::*;

verus! {

/// A value was refused because of one of its fields.
#[derive(Debug, Clone, Copy, PartialEq, Eq)]
pub enum FieldError {
    /// The field is missing or empty.
    EmptyField { field: &'static str },
    /// The field does not have the expected shape.
    InvalidFormat { field: &'static str },
    /// The field is outside the allowed range.
    OutOfRange { field: &'static str },
}

} // verus!
