//! `double2x3`: a matrix of two columns and three rows of 64-bit floating point.

use crate::matrix::double3x2::double3x2;
use crate::vector::double2::double2;
use crate::vector::double3::double3;
use vstd::prelude::*;

verus! {

/// A matrix of two columns and three rows, held column by column: field `j` is column `j`, a
/// `double3`, whose lane `i` is the entry in row `i`. The entries are bit patterns, as the lanes of
/// `double3` are.
#[derive(Copy, Clone, Debug)]
pub struct double2x3(pub double3, pub double3);

impl double2x3 {
    /// The entry in row `i` and column `j`, both counted from zero.
    pub open spec fn entry(self, i: int, j: int) -> u64
        recommends
            0 <= i < 3,
            0 <= j < 2,
    {
        if j == 0 {
            self.0.lane(i)
        } else {
            self.1.lane(i)
        }
    }

    /// The matrix whose column `i` is row `i` of this one.
    pub open spec fn spec_transpose(self) -> double3x2 {
        double3x2(
            double2((self.0).0, (self.1).0), double2((self.0).1, (self.1).1),
            double2((self.0).2, (self.1).2),
        )
    }

    /// The matrix with the given columns.
    pub fn from_columns(c0: double3, c1: double3) -> (r: double2x3)
        ensures
            r == double2x3(c0, c1),
    {
        double2x3(c0, c1)
    }

    /// The matrix with the given rows.
    pub fn from_rows(r0: double2, r1: double2, r2: double2) -> (r: double2x3)
        ensures
            r == double3x2(r0, r1, r2).spec_transpose(),
            forall|i: int, j: int|
                0 <= i < 3 && 0 <= j < 2 ==>
                    #[trigger] r.entry(i, j) == double3x2(r0, r1, r2).entry(j, i),
    {
        double3x2(r0, r1, r2).transpose()
    }

    /// The matrix whose column `i` is row `i` of this one: every entry changes its row for its
    /// column.
    pub fn transpose(self) -> (r: double3x2)
        ensures
            r == self.spec_transpose(),
            forall|i: int, j: int|
                0 <= i < 3 && 0 <= j < 2 ==> #[trigger] r.entry(j, i) == self.entry(i, j),
    {
        let c0 = self.0;
        let c1 = self.1;
        double3x2(double2(c0.0, c1.0), double2(c0.1, c1.1), double2(c0.2, c1.2))
    }

    /// Transposed twice, a matrix is what it was.
    pub proof fn lemma_transpose_twice(m: double2x3)
        ensures
            m.spec_transpose().spec_transpose() == m,
    {
    }
}

} // verus!
