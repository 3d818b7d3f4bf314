use vstd::prelude::*;

verus! {

/// Rejection of a request before any store access: a structurally
/// invalid sort expression or an out-of-range pagination value.
#[derive(Clone, Copy, Debug, PartialEq, Eq, Structural)]
pub enum ValidationError {
    /// A sum sort expression with no terms.
    EmptySortSum,
    /// A sort field name outside the closed column set.
    UnknownField,
    /// A negative limit.
    NegativeLimit,
    /// A negative offset.
    NegativeOffset,
}

/// The descriptive message of a validation error.
pub open spec fn validation_message(e: ValidationError) -> Seq<char> {
    match e {
        ValidationError::EmptySortSum => "sort expression: empty sum"@,
        ValidationError::UnknownField => "sort expression: unknown field"@,
        ValidationError::NegativeLimit => "limit must not be negative"@,
        ValidationError::NegativeOffset => "offset must not be negative"@,
    }
}

impl ValidationError {
    /// A descriptive message for the caller.
    pub fn message(&self) -> (r: &str)
        ensures
            r@ == validation_message(*self),
    {
        match self {
            ValidationError::EmptySortSum => "sort expression: empty sum",
            ValidationError::UnknownField => "sort expression: unknown field",
            ValidationError::NegativeLimit => "limit must not be negative",
            ValidationError::NegativeOffset => "offset must not be negative",
        }
    }
}

/// A store-level failure, reported verbatim to the caller.
#[derive(Clone, Debug, PartialEq)]
pub enum StorageError {
    /// Connection or statement execution failed; carries the
    /// underlying message.
    Execution(String),
    /// A returned row's column could not be coerced to the expected
    /// type, so schema drift stays visible.
    Decode(String),
}

impl StorageError {
    /// The carried message.
    pub fn message(&self) -> (r: &str)
        ensures
            (self is Execution ==> r@ == self->Execution_0@),
            (self is Decode ==> r@ == self->Decode_0@),
    {
        match self {
            StorageError::Execution(m) => m.as_str(),
            StorageError::Decode(m) => m.as_str(),
        }
    }
}

/// A failed box-score query, with its message.
#[derive(Clone, Debug, PartialEq)]
pub struct BoxScoresError(pub String);

} // verus!
