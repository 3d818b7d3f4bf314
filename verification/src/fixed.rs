use vstd::prelude::*;

verus! {

/// A decimal number held exactly in thousandths.
///
/// Fractional statistics (shooting percentages, fantasy points) and
/// sort weights travel through the query engine as `Fixed` values, so
/// that every comparison and every contract about them is exact.
/// The value represented is `milli / 1000`.
#[derive(Clone, Copy, Debug, PartialEq, Eq, Structural, Hash)]
pub struct Fixed {
    pub milli: i64,
}

impl Fixed {
    /// Builds the value `milli / 1000`.
    pub fn from_milli(milli: i64) -> (r: Fixed)
        ensures
            r.milli == milli,
    {
        Fixed { milli }
    }

    /// The number of thousandths held.
    pub fn milli(&self) -> (r: i64)
        ensures
            r == self.milli,
    {
        self.milli
    }
}

} // verus!
