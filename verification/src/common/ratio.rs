use vstd::prelude::*;

verus! {

/// An exact fraction: `numer` over `denom`, not reduced.
///
/// Texture coordinates are handed out in this form, so that no rounding
/// happens before the caller converts them for the graphics driver.
#[derive(Copy, Clone, Debug, PartialEq, Eq)]
pub struct Ratio {
    pub numer: i64,
    pub denom: i64,
}

impl Ratio {
    pub fn new(numer: i64, denom: i64) -> (r: Self)
        ensures
            r == (Ratio { numer, denom }),
    {
        Ratio { numer, denom }
    }
}

} // verus!
