//! `float2x3`: a matrix of two columns and three rows of 32-bit floating point.

use crate::matrix::float3x2::float3x2;
use crate::vector::float2::float2;
use crate::vector::float3::float3;
use vstd::prelude::*;

verus! {

/// A matrix of two columns and three rows, held column by column: field `j` is column `j`, a
/// `float3`, whose lane `i` is the entry in row `i`. The entries are bit patterns, as the lanes of
/// `float3` are.
#[derive(Copy, Clone, Debug)]
pub struct float2x3(pub float3, pub float3);

impl float2x3 {
    /// The entry in row `i` and column `j`, both counted from zero.
    pub open spec fn entry(self, i: int, j: int) -> u32
        recommends
            0 <= i < 3,
            0 <= j < 2,
    {
        if j == 0 {
            self.0.lane(i)
        } else {
            self.1.lane(i)
        }
    }

    /// The matrix whose column `i` is row `i` of this one.
    pub open spec fn spec_transpose(self) -> float3x2 {
        float3x2(
            float2((self.0).0, (self.1).0), float2((self.0).1, (self.1).1),
            float2((self.0).2, (self.1).2),
        )
    }

    /// The matrix with the given columns.
    pub fn from_columns(c0: float3, c1: float3) -> (r: float2x3)
        ensures
            r == float2x3(c0, c1),
    {
        float2x3(c0, c1)
    }

    /// The matrix with the given rows.
    pub fn from_rows(r0: float2, r1: float2, r2: float2) -> (r: float2x3)
        ensures
            r == float3x2(r0, r1, r2).spec_transpose(),
            forall|i: int, j: int|
                0 <= i < 3 && 0 <= j < 2 ==>
                    #[trigger] r.entry(i, j) == float3x2(r0, r1, r2).entry(j, i),
    {
        float3x2(r0, r1, r2).transpose()
    }

    /// The matrix whose column `i` is row `i` of this one: every entry changes its row for its
    /// column.
    pub fn transpose(self) -> (r: float3x2)
        ensures
            r == self.spec_transpose(),
            forall|i: int, j: int|
                0 <= i < 3 && 0 <= j < 2 ==> #[trigger] r.entry(j, i) == self.entry(i, j),
    {
        let c0 = self.0;
        let c1 = self.1;
        float3x2(float2(c0.0, c1.0), float2(c0.1, c1.1), float2(c0.2, c1.2))
    }

    /// Transposed twice, a matrix is what it was.
    pub proof fn lemma_transpose_twice(m: float2x3)
        ensures
            m.spec_transpose().spec_transpose() == m,
    {
    }
}

} // verus!
