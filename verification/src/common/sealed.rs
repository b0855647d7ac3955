use vstd::prelude::*;

verus! {

/// Keeps the set of scalar types closed: only the integer types listed here
/// can be given the `Scalar` operations.
pub trait Sealed {
}

impl Sealed for i32 {
}

impl Sealed for i64 {
}

impl Sealed for u32 {
}

impl Sealed for u64 {
}

} // verus!
