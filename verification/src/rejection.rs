//! Why an operation could not be carried out.

use vstd::prelude::*;

verus! {

/// Why an operation could not be carried out.
#[derive(Debug, Clone, Copy, PartialEq, Eq, Structural)]
pub enum Rejection {
    /// Bytes that should be a P-384 scalar are zero or not below the group's order.
    Scalar,
    /// Bytes that should be a P-384 point are not the uncompressed form of one.
    Point,
}

} // verus!
