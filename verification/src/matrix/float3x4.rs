//! `float3x4`: a matrix of three columns and four rows of 32-bit floating point.

use crate::matrix::float4x3::float4x3;
use crate::vector::float3::float3;
use crate::vector::float4::float4;
use vstd::prelude::*;

verus! {

/// A matrix of three columns and four rows, held column by column: field `j` is column `j`, a
/// `float4`, whose lane `i` is the entry in row `i`. The entries are bit patterns, as the lanes of
/// `float4` are.
#[derive(Copy, Clone, Debug)]
pub struct float3x4(pub float4, pub float4, pub float4);

impl float3x4 {
    /// The entry in row `i` and column `j`, both counted from zero.
    pub open spec fn entry(self, i: int, j: int) -> u32
        recommends
            0 <= i < 4,
            0 <= j < 3,
    {
        if j == 0 {
            self.0.lane(i)
        } else if j == 1 {
            self.1.lane(i)
        } else {
            self.2.lane(i)
        }
    }

    /// The matrix whose column `i` is row `i` of this one.
    pub open spec fn spec_transpose(self) -> float4x3 {
        float4x3(
            float3((self.0).0, (self.1).0, (self.2).0), float3((self.0).1, (self.1).1, (self.2).1),
            float3((self.0).2, (self.1).2, (self.2).2), float3((self.0).3, (self.1).3, (self.2).3),
        )
    }

    /// The matrix with the given columns.
    pub fn from_columns(c0: float4, c1: float4, c2: float4) -> (r: float3x4)
        ensures
            r == float3x4(c0, c1, c2),
    {
        float3x4(c0, c1, c2)
    }

    /// The matrix with the given rows.
    pub fn from_rows(r0: float3, r1: float3, r2: float3, r3: float3) -> (r: float3x4)
        ensures
            r == float4x3(r0, r1, r2, r3).spec_transpose(),
            forall|i: int, j: int|
                0 <= i < 4 && 0 <= j < 3 ==>
                    #[trigger] r.entry(i, j) == float4x3(r0, r1, r2, r3).entry(j, i),
    {
        float4x3(r0, r1, r2, r3).transpose()
    }

    /// The matrix whose column `i` is row `i` of this one: every entry changes its row for its
    /// column.
    pub fn transpose(self) -> (r: float4x3)
        ensures
            r == self.spec_transpose(),
            forall|i: int, j: int|
                0 <= i < 4 && 0 <= j < 3 ==> #[trigger] r.entry(j, i) == self.entry(i, j),
    {
        let c0 = self.0;
        let c1 = self.1;
        let c2 = self.2;
        float4x3(
            float3(c0.0, c1.0, c2.0), float3(c0.1, c1.1, c2.1), float3(c0.2, c1.2, c2.2),
            float3(c0.3, c1.3, c2.3),
        )
    }

    /// Transposed twice, a matrix is what it was.
    pub proof fn lemma_transpose_twice(m: float3x4)
        ensures
            m.spec_transpose().spec_transpose() == m,
    {
    }
}

} // verus!
