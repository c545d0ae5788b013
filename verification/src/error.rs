//! The error type shared by the framework.

use vstd::prelude::*;

verus! {

/// What can go wrong inside the framework.
#[derive(Copy, Clone, Debug, PartialEq, Eq)]
pub enum Error {
    /// A host-supplied integer is not a value of the type it was converted
    /// to; the message says which.
    ConversionError(&'static str),
    /// A copy primitive of the host returned this nonzero status.
    TransferFailed(i32),
}

} // verus!
