//! `double4x4`: a matrix of four columns and four rows of 64-bit floating point.

use crate::vector::double4::double4;
use vstd::prelude::*;

verus! {

/// A matrix of four columns and four rows, held column by column: field `j` is column `j`, a
/// `double4`, whose lane `i` is the entry in row `i`. The entries are bit patterns, as the lanes of
/// `double4` are.
#[derive(Copy, Clone, Debug)]
pub struct double4x4(pub double4, pub double4, pub double4, pub double4);

impl double4x4 {
    /// The entry in row `i` and column `j`, both counted from zero.
    pub open spec fn entry(self, i: int, j: int) -> u64
        recommends
            0 <= i < 4,
            0 <= j < 4,
    {
        if j == 0 {
            self.0.lane(i)
        } else if j == 1 {
            self.1.lane(i)
        } else if j == 2 {
            self.2.lane(i)
        } else {
            self.3.lane(i)
        }
    }

    /// The matrix whose column `i` is row `i` of this one.
    pub open spec fn spec_transpose(self) -> double4x4 {
        double4x4(
            double4((self.0).0, (self.1).0, (self.2).0, (self.3).0),
            double4((self.0).1, (self.1).1, (self.2).1, (self.3).1),
            double4((self.0).2, (self.1).2, (self.2).2, (self.3).2),
            double4((self.0).3, (self.1).3, (self.2).3, (self.3).3),
        )
    }

    /// The matrix with the given columns.
    pub fn from_columns(c0: double4, c1: double4, c2: double4, c3: double4) -> (r: double4x4)
        ensures
            r == double4x4(c0, c1, c2, c3),
    {
        double4x4(c0, c1, c2, c3)
    }

    /// The matrix with the given rows.
    pub fn from_rows(r0: double4, r1: double4, r2: double4, r3: double4) -> (r: double4x4)
        ensures
            r == double4x4(r0, r1, r2, r3).spec_transpose(),
            forall|i: int, j: int|
                0 <= i < 4 && 0 <= j < 4 ==>
                    #[trigger] r.entry(i, j) == double4x4(r0, r1, r2, r3).entry(j, i),
    {
        double4x4(r0, r1, r2, r3).transpose()
    }

    /// The matrix whose column `i` is row `i` of this one: every entry changes its row for its
    /// column.
    pub fn transpose(self) -> (r: double4x4)
        ensures
            r == self.spec_transpose(),
            forall|i: int, j: int|
                0 <= i < 4 && 0 <= j < 4 ==> #[trigger] r.entry(j, i) == self.entry(i, j),
    {
        let c0 = self.0;
        let c1 = self.1;
        let c2 = self.2;
        let c3 = self.3;
        double4x4(
            double4(c0.0, c1.0, c2.0, c3.0), double4(c0.1, c1.1, c2.1, c3.1),
            double4(c0.2, c1.2, c2.2, c3.2), double4(c0.3, c1.3, c2.3, c3.3),
        )
    }

    /// The identity: ones on the diagonal, zeros elsewhere. The bit pattern of one is
    /// `0x3ff0_0000_0000_0000`, that of zero is zero.
    pub fn identity() -> (r: double4x4)
        ensures
            r == double4x4(
                double4(0x3ff0_0000_0000_0000, 0, 0, 0),
                double4(0, 0x3ff0_0000_0000_0000, 0, 0),
                double4(0, 0, 0x3ff0_0000_0000_0000, 0),
                double4(0, 0, 0, 0x3ff0_0000_0000_0000),
            ),
    {
        double4x4(
            double4(0x3ff0_0000_0000_0000, 0, 0, 0),
            double4(0, 0x3ff0_0000_0000_0000, 0, 0),
            double4(0, 0, 0x3ff0_0000_0000_0000, 0),
            double4(0, 0, 0, 0x3ff0_0000_0000_0000),
        )
    }

    /// The matrix that scales the first three coordinates by `scale` and leaves the fourth.
    pub fn from_scale(scale: u64) -> (r: double4x4)
        ensures
            r == double4x4(
                double4(scale, 0, 0, 0),
                double4(0, scale, 0, 0),
                double4(0, 0, scale, 0),
                double4(0, 0, 0, 0x3ff0_0000_0000_0000),
            ),
    {
        double4x4(
            double4(scale, 0, 0, 0),
            double4(0, scale, 0, 0),
            double4(0, 0, scale, 0),
            double4(0, 0, 0, 0x3ff0_0000_0000_0000),
        )
    }

    /// The matrix that translates by `(x, y, z)`: the identity with the translation in its
    /// last column.
    pub fn from_translation(x: u64, y: u64, z: u64) -> (r: double4x4)
        ensures
            r == double4x4(
                double4(0x3ff0_0000_0000_0000, 0, 0, 0),
                double4(0, 0x3ff0_0000_0000_0000, 0, 0),
                double4(0, 0, 0x3ff0_0000_0000_0000, 0),
                double4(x, y, z, 0x3ff0_0000_0000_0000),
            ),
    {
        double4x4(
            double4(0x3ff0_0000_0000_0000, 0, 0, 0),
            double4(0, 0x3ff0_0000_0000_0000, 0, 0),
            double4(0, 0, 0x3ff0_0000_0000_0000, 0),
            double4(x, y, z, 0x3ff0_0000_0000_0000),
        )
    }

    /// Transposed twice, a matrix is what it was.
    pub proof fn lemma_transpose_twice(m: double4x4)
        ensures
            m.spec_transpose().spec_transpose() == m,
    {
    }
}

} // verus!
