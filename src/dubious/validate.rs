//! Fallible validation of values.
use vstd::prelude::*;

verus! {

/// Fallible validation of values.
///
/// `Valid` is the type returned when validation succeeds; it is `Self` unless an
/// implementation chooses to normalize into another type.
pub trait Validate<Valid = Self>: Sized {
    /// The type returned when validation fails.
    type Error;

    /// The outcome of validating `self`: validation depends on the value alone.
    spec fn validation(self) -> Result<Valid, Self::Error>;

    /// Performs the validation.
    fn validate(self) -> (r: Result<Valid, Self::Error>)
        ensures
            r == self.validation(),
    ;

    /// Validates `self` and discards the error, if any.
    fn ok(self) -> (r: Option<Valid>)
        ensures
            r == self.validation().ok(),
    {
        self.validate().ok()
    }

    /// Validates `self` and discards the success value, if any.
    fn err(self) -> (r: Option<Self::Error>)
        ensures
            r == self.validation().err(),
    {
        self.validate().err()
    }
}

} // verus!
