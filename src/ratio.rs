use vstd::prelude::*;

verus! {

/// An exact non-negative rational number `num / den`, used for pixel
/// coordinates and hues so that no rounding happens before painting.
#[derive(Clone, Copy, Debug, PartialEq, Eq, Structural)]
pub struct Ratio {
    pub num: u64,
    pub den: u64,
}

impl Ratio {
    /// The ratio `num / den`, as written.
    pub fn new(num: u64, den: u64) -> (r: Ratio)
        ensures
            r == (Ratio { num, den }),
    {
        Ratio { num, den }
    }
}

} // verus!
