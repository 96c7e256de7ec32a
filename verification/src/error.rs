//! Errors of the typed layer.
use vstd::prelude::*;

verus! {

/// A string that names no value of the enumeration it was read as.
#[derive(Copy, Clone, Debug, PartialEq, Eq, Structural)]
pub struct StripeParseError;

} // verus!
