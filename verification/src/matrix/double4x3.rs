//! `double4x3`: a matrix of four columns and three rows of 64-bit floating point.

use crate::matrix::double3x4::double3x4;
use crate::vector::double3::double3;
use crate::vector::double4::double4;
use vstd::prelude::*;

verus! {

/// A matrix of four columns and three rows, held column by column: field `j` is column `j`, a
/// `double3`, whose lane `i` is the entry in row `i`. The entries are bit patterns, as the lanes of
/// `double3` are.
#[derive(Copy, Clone, Debug)]
pub struct double4x3(pub double3, pub double3, pub double3, pub double3);

impl double4x3 {
    /// The entry in row `i` and column `j`, both counted from zero.
    pub open spec fn entry(self, i: int, j: int) -> u64
        recommends
            0 <= i < 3,
            0 <= j < 4,
    {
        if j == 0 {
            self.0.lane(i)
        } else if j == 1 {
            self.1.lane(i)
        } else if j == 2 {
            self.2.lane(i)
        } else {
            self.3.lane(i)
        }
    }

    /// The matrix whose column `i` is row `i` of this one.
    pub open spec fn spec_transpose(self) -> double3x4 {
        double3x4(
            double4((self.0).0, (self.1).0, (self.2).0, (self.3).0),
            double4((self.0).1, (self.1).1, (self.2).1, (self.3).1),
            double4((self.0).2, (self.1).2, (self.2).2, (self.3).2),
        )
    }

    /// The matrix with the given columns.
    pub fn from_columns(c0: double3, c1: double3, c2: double3, c3: double3) -> (r: double4x3)
        ensures
            r == double4x3(c0, c1, c2, c3),
    {
        double4x3(c0, c1, c2, c3)
    }

    /// The matrix with the given rows.
    pub fn from_rows(r0: double4, r1: double4, r2: double4) -> (r: double4x3)
        ensures
            r == double3x4(r0, r1, r2).spec_transpose(),
            forall|i: int, j: int|
                0 <= i < 3 && 0 <= j < 4 ==>
                    #[trigger] r.entry(i, j) == double3x4(r0, r1, r2).entry(j, i),
    {
        double3x4(r0, r1, r2).transpose()
    }

    /// The matrix whose column `i` is row `i` of this one: every entry changes its row for its
    /// column.
    pub fn transpose(self) -> (r: double3x4)
        ensures
            r == self.spec_transpose(),
            forall|i: int, j: int|
                0 <= i < 3 && 0 <= j < 4 ==> #[trigger] r.entry(j, i) == self.entry(i, j),
    {
        let c0 = self.0;
        let c1 = self.1;
        let c2 = self.2;
        let c3 = self.3;
        double3x4(
            double4(c0.0, c1.0, c2.0, c3.0), double4(c0.1, c1.1, c2.1, c3.1),
            double4(c0.2, c1.2, c2.2, c3.2),
        )
    }

    /// Transposed twice, a matrix is what it was.
    pub proof fn lemma_transpose_twice(m: double4x3)
        ensures
            m.spec_transpose().spec_transpose() == m,
    {
    }
}

} // verus!
