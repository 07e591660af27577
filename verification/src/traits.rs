//! Cross-cutting traits of the library.

use vstd::prelude::*;
use crate::errors::ValidateError;

verus! {

/// Validation that may clean its input (trim strings) before checking it.
pub trait CleanValidate: Sized {
    /// Returns the cleaned value, or the first rule it breaks.
    fn validate(self) -> Result<Self, ValidateError>;
}

} // verus!
