//! `double2x4`: a matrix of two columns and four rows of 64-bit floating point.

use crate::matrix::double4x2::double4x2;
use crate::vector::double2::double2;
use crate::vector::double4::double4;
use vstd::prelude::*;

verus! {

/// A matrix of two columns and four rows, held column by column: field `j` is column `j`, a
/// `double4`, whose lane `i` is the entry in row `i`. The entries are bit patterns, as the lanes of
/// `double4` are.
#[derive(Copy, Clone, Debug)]
pub struct double2x4(pub double4, pub double4);

impl double2x4 {
    /// The entry in row `i` and column `j`, both counted from zero.
    pub open spec fn entry(self, i: int, j: int) -> u64
        recommends
            0 <= i < 4,
            0 <= j < 2,
    {
        if j == 0 {
            self.0.lane(i)
        } else {
            self.1.lane(i)
        }
    }

    /// The matrix whose column `i` is row `i` of this one.
    pub open spec fn spec_transpose(self) -> double4x2 {
        double4x2(
            double2((self.0).0, (self.1).0), double2((self.0).1, (self.1).1),
            double2((self.0).2, (self.1).2), double2((self.0).3, (self.1).3),
        )
    }

    /// The matrix with the given columns.
    pub fn from_columns(c0: double4, c1: double4) -> (r: double2x4)
        ensures
            r == double2x4(c0, c1),
    {
        double2x4(c0, c1)
    }

    /// The matrix with the given rows.
    pub fn from_rows(r0: double2, r1: double2, r2: double2, r3: double2) -> (r: double2x4)
        ensures
            r == double4x2(r0, r1, r2, r3).spec_transpose(),
            forall|i: int, j: int|
                0 <= i < 4 && 0 <= j < 2 ==>
                    #[trigger] r.entry(i, j) == double4x2(r0, r1, r2, r3).entry(j, i),
    {
        double4x2(r0, r1, r2, r3).transpose()
    }

    /// The matrix whose column `i` is row `i` of this one: every entry changes its row for its
    /// column.
    pub fn transpose(self) -> (r: double4x2)
        ensures
            r == self.spec_transpose(),
            forall|i: int, j: int|
                0 <= i < 4 && 0 <= j < 2 ==> #[trigger] r.entry(j, i) == self.entry(i, j),
    {
        let c0 = self.0;
        let c1 = self.1;
        double4x2(
            double2(c0.0, c1.0), double2(c0.1, c1.1), double2(c0.2, c1.2), double2(c0.3, c1.3),
        )
    }

    /// Transposed twice, a matrix is what it was.
    pub proof fn lemma_transpose_twice(m: double2x4)
        ensures
            m.spec_transpose().spec_transpose() == m,
    {
    }
}

} // verus!
