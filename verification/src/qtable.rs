//! Quantization tables handed to the encoder.
use vstd::prelude::*;

verus! {

/// An 8x8 quantization table, in natural (row-major) order.
#[derive(Copy, Clone, Debug)]
pub struct QTable {
    pub coeffs: [u32; 64],
}

impl QTable {
    /// The table's coefficients as a sequence.
    pub open spec fn spec_coeffs(&self) -> Seq<u32> {
        self.coeffs@
    }

    /// Whether two tables hold the same coefficients.
    pub fn same_as(&self, other: &QTable) -> (r: bool)
        ensures
            r == (self.spec_coeffs() == other.spec_coeffs()),
    {
        let mut i: usize = 0;
        while i < 64
            invariant
                0 <= i <= 64,
                self.coeffs@.len() == 64,
                other.coeffs@.len() == 64,
                forall|j: int| 0 <= j < i ==> self.coeffs@[j] == other.coeffs@[j],
            decreases 64 - i,
        {
            if self.coeffs[i] != other.coeffs[i] {
                return false;
            }
            i = i + 1;
        }
        assert(self.coeffs@ =~= other.coeffs@);
        true
    }
}

} // verus!
