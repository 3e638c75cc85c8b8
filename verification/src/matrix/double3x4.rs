//! `double3x4`: a matrix of three columns and four rows of 64-bit floating point.

use crate::matrix::double4x3::double4x3;
use crate::vector::double3::double3;
use crate::vector::double4::double4;
use vstd::prelude::*;

verus! {

/// A matrix of three columns and four rows, held column by column: field `j` is column `j`, a
/// `double4`, whose lane `i` is the entry in row `i`. The entries are bit patterns, as the lanes of
/// `double4` are.
#[derive(Copy, Clone, Debug)]
pub struct double3x4(pub double4, pub double4, pub double4);

impl double3x4 {
    /// The entry in row `i` and column `j`, both counted from zero.
    pub open spec fn entry(self, i: int, j: int) -> u64
        recommends
            0 <= i < 4,
            0 <= j < 3,
    {
        if j == 0 {
            self.0.lane(i)
        } else if j == 1 {
            self.1.lane(i)
        } else {
            self.2.lane(i)
        }
    }

    /// The matrix whose column `i` is row `i` of this one.
    pub open spec fn spec_transpose(self) -> double4x3 {
        double4x3(
            double3((self.0).0, (self.1).0, (self.2).0),
            double3((self.0).1, (self.1).1, (self.2).1),
            double3((self.0).2, (self.1).2, (self.2).2),
            double3((self.0).3, (self.1).3, (self.2).3),
        )
    }

    /// The matrix with the given columns.
    pub fn from_columns(c0: double4, c1: double4, c2: double4) -> (r: double3x4)
        ensures
            r == double3x4(c0, c1, c2),
    {
        double3x4(c0, c1, c2)
    }

    /// The matrix with the given rows.
    pub fn from_rows(r0: double3, r1: double3, r2: double3, r3: double3) -> (r: double3x4)
        ensures
            r == double4x3(r0, r1, r2, r3).spec_transpose(),
            forall|i: int, j: int|
                0 <= i < 4 && 0 <= j < 3 ==>
                    #[trigger] r.entry(i, j) == double4x3(r0, r1, r2, r3).entry(j, i),
    {
        double4x3(r0, r1, r2, r3).transpose()
    }

    /// The matrix whose column `i` is row `i` of this one: every entry changes its row for its
    /// column.
    pub fn transpose(self) -> (r: double4x3)
        ensures
            r == self.spec_transpose(),
            forall|i: int, j: int|
                0 <= i < 4 && 0 <= j < 3 ==> #[trigger] r.entry(j, i) == self.entry(i, j),
    {
        let c0 = self.0;
        let c1 = self.1;
        let c2 = self.2;
        double4x3(
            double3(c0.0, c1.0, c2.0), double3(c0.1, c1.1, c2.1), double3(c0.2, c1.2, c2.2),
            double3(c0.3, c1.3, c2.3),
        )
    }

    /// Transposed twice, a matrix is what it was.
    pub proof fn lemma_transpose_twice(m: double3x4)
        ensures
            m.spec_transpose().spec_transpose() == m,
    {
    }
}

} // verus!
