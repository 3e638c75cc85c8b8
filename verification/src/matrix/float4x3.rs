//! `float4x3`: a matrix of four columns and three rows of 32-bit floating point.

use crate::matrix::float3x4::float3x4;
use crate::vector::float3::float3;
use crate::vector::float4::float4;
use vstd::prelude::*;

verus! {

/// A matrix of four columns and three rows, held column by column: field `j` is column `j`, a
/// `float3`, whose lane `i` is the entry in row `i`. The entries are bit patterns, as the lanes of
/// `float3` are.
#[derive(Copy, Clone, Debug)]
pub struct float4x3(pub float3, pub float3, pub float3, pub float3);

impl float4x3 {
    /// The entry in row `i` and column `j`, both counted from zero.
    pub open spec fn entry(self, i: int, j: int) -> u32
        recommends
            0 <= i < 3,
            0 <= j < 4,
    {
        if j == 0 {
            self.0.lane(i)
        } else if j == 1 {
            self.1.lane(i)
        } else if j == 2 {
            self.2.lane(i)
        } else {
            self.3.lane(i)
        }
    }

    /// The matrix whose column `i` is row `i` of this one.
    pub open spec fn spec_transpose(self) -> float3x4 {
        float3x4(
            float4((self.0).0, (self.1).0, (self.2).0, (self.3).0),
            float4((self.0).1, (self.1).1, (self.2).1, (self.3).1),
            float4((self.0).2, (self.1).2, (self.2).2, (self.3).2),
        )
    }

    /// The matrix with the given columns.
    pub fn from_columns(c0: float3, c1: float3, c2: float3, c3: float3) -> (r: float4x3)
        ensures
            r == float4x3(c0, c1, c2, c3),
    {
        float4x3(c0, c1, c2, c3)
    }

    /// The matrix with the given rows.
    pub fn from_rows(r0: float4, r1: float4, r2: float4) -> (r: float4x3)
        ensures
            r == float3x4(r0, r1, r2).spec_transpose(),
            forall|i: int, j: int|
                0 <= i < 3 && 0 <= j < 4 ==>
                    #[trigger] r.entry(i, j) == float3x4(r0, r1, r2).entry(j, i),
    {
        float3x4(r0, r1, r2).transpose()
    }

    /// The matrix whose column `i` is row `i` of this one: every entry changes its row for its
    /// column.
    pub fn transpose(self) -> (r: float3x4)
        ensures
            r == self.spec_transpose(),
            forall|i: int, j: int|
                0 <= i < 3 && 0 <= j < 4 ==> #[trigger] r.entry(j, i) == self.entry(i, j),
    {
        let c0 = self.0;
        let c1 = self.1;
        let c2 = self.2;
        let c3 = self.3;
        float3x4(
            float4(c0.0, c1.0, c2.0, c3.0), float4(c0.1, c1.1, c2.1, c3.1),
            float4(c0.2, c1.2, c2.2, c3.2),
        )
    }

    /// Transposed twice, a matrix is what it was.
    pub proof fn lemma_transpose_twice(m: float4x3)
        ensures
            m.spec_transpose().spec_transpose() == m,
    {
    }
}

} // verus!
