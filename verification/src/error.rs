//! The one error of this library.

use vstd::prelude::*;

verus! {

/// Returned when a caller offers the reserved sentinel bit pattern as if it
/// were a legitimate present value. The offending operation is rejected
/// before any mutation, so the value it was called on is left unchanged.
#[derive(Clone, Copy, Debug, PartialEq, Eq, Structural)]
pub struct IllegalValue;

} // verus!
