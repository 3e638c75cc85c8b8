//! `double3x2`: a matrix of three columns and two rows of 64-bit floating point.

use crate::matrix::double2x3::double2x3;
use crate::vector::double2::double2;
use crate::vector::double3::double3;
use vstd::prelude::*;

verus! {

/// A matrix of three columns and two rows, held column by column: field `j` is column `j`, a
/// `double2`, whose lane `i` is the entry in row `i`. The entries are bit patterns, as the lanes of
/// `double2` are.
#[derive(Copy, Clone, Debug)]
pub struct double3x2(pub double2, pub double2, pub double2);

impl double3x2 {
    /// The entry in row `i` and column `j`, both counted from zero.
    pub open spec fn entry(self, i: int, j: int) -> u64
        recommends
            0 <= i < 2,
            0 <= j < 3,
    {
        if j == 0 {
            self.0.lane(i)
        } else if j == 1 {
            self.1.lane(i)
        } else {
            self.2.lane(i)
        }
    }

    /// The matrix whose column `i` is row `i` of this one.
    pub open spec fn spec_transpose(self) -> double2x3 {
        double2x3(
            double3((self.0).0, (self.1).0, (self.2).0),
            double3((self.0).1, (self.1).1, (self.2).1),
        )
    }

    /// The matrix with the given columns.
    pub fn from_columns(c0: double2, c1: double2, c2: double2) -> (r: double3x2)
        ensures
            r == double3x2(c0, c1, c2),
    {
        double3x2(c0, c1, c2)
    }

    /// The matrix with the given rows.
    pub fn from_rows(r0: double3, r1: double3) -> (r: double3x2)
        ensures
            r == double2x3(r0, r1).spec_transpose(),
            forall|i: int, j: int|
                0 <= i < 2 && 0 <= j < 3 ==>
                    #[trigger] r.entry(i, j) == double2x3(r0, r1).entry(j, i),
    {
        double2x3(r0, r1).transpose()
    }

    /// The matrix whose column `i` is row `i` of this one: every entry changes its row for its
    /// column.
    pub fn transpose(self) -> (r: double2x3)
        ensures
            r == self.spec_transpose(),
            forall|i: int, j: int|
                0 <= i < 2 && 0 <= j < 3 ==> #[trigger] r.entry(j, i) == self.entry(i, j),
    {
        let c0 = self.0;
        let c1 = self.1;
        let c2 = self.2;
        double2x3(double3(c0.0, c1.0, c2.0), double3(c0.1, c1.1, c2.1))
    }

    /// Transposed twice, a matrix is what it was.
    pub proof fn lemma_transpose_twice(m: double3x2)
        ensures
            m.spec_transpose().spec_transpose() == m,
    {
    }
}

} // verus!
