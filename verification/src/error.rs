//! The ways in which an operation of the field can fail.

use vstd::prelude::*;

verus! {

/// Why an operation was refused.
#[derive(Clone, Copy, Debug, PartialEq, Eq, Structural)]
pub enum FieldError {
    /// The input is not of the form the operation accepts: a string that is
    /// no decimal numeral, or a big integer that is not below the modulus.
    InvalidArgument,
    /// The operation has no result on this input: a division by an element
    /// without a multiplicative inverse.
    UndefinedOperation,
    /// The field has no subgroup of the order asked for.
    DomainSizeUnsupported,
}

} // verus!
