//! `float2x2`: a matrix of two columns and two rows of 32-bit floating point.

use crate::vector::float2::float2;
use vstd::prelude::*;

verus! {

/// A matrix of two columns and two rows, held column by column: field `j` is column `j`, a
/// `float2`, whose lane `i` is the entry in row `i`. The entries are bit patterns, as the lanes of
/// `float2` are.
#[derive(Copy, Clone, Debug)]
pub struct float2x2(pub float2, pub float2);

impl float2x2 {
    /// The entry in row `i` and column `j`, both counted from zero.
    pub open spec fn entry(self, i: int, j: int) -> u32
        recommends
            0 <= i < 2,
            0 <= j < 2,
    {
        if j == 0 {
            self.0.lane(i)
        } else {
            self.1.lane(i)
        }
    }

    /// The matrix whose column `i` is row `i` of this one.
    pub open spec fn spec_transpose(self) -> float2x2 {
        float2x2(float2((self.0).0, (self.1).0), float2((self.0).1, (self.1).1))
    }

    /// The matrix with the given columns.
    pub fn from_columns(c0: float2, c1: float2) -> (r: float2x2)
        ensures
            r == float2x2(c0, c1),
    {
        float2x2(c0, c1)
    }

    /// The matrix with the given rows.
    pub fn from_rows(r0: float2, r1: float2) -> (r: float2x2)
        ensures
            r == float2x2(r0, r1).spec_transpose(),
            forall|i: int, j: int|
                0 <= i < 2 && 0 <= j < 2 ==>
                    #[trigger] r.entry(i, j) == float2x2(r0, r1).entry(j, i),
    {
        float2x2(r0, r1).transpose()
    }

    /// The matrix whose column `i` is row `i` of this one: every entry changes its row for its
    /// column.
    pub fn transpose(self) -> (r: float2x2)
        ensures
            r == self.spec_transpose(),
            forall|i: int, j: int|
                0 <= i < 2 && 0 <= j < 2 ==> #[trigger] r.entry(j, i) == self.entry(i, j),
    {
        let c0 = self.0;
        let c1 = self.1;
        float2x2(float2(c0.0, c1.0), float2(c0.1, c1.1))
    }

    /// Transposed twice, a matrix is what it was.
    pub proof fn lemma_transpose_twice(m: float2x2)
        ensures
            m.spec_transpose().spec_transpose() == m,
    {
    }
}

} // verus!
