//! Quarter-turn orientations and the 2x2 matrices that realize them.
//!
//! The four rotation matrices only ever hold the entries -1, 0 and 1, so
//! they are kept as integer matrices and every application to a vector is
//! exact.

use vstd::prelude::*;
use crate::vecs::Vec2;

verus! {

/// One of the four fixed orientations, a cyclic group under clockwise and
/// counterclockwise quarter-turn stepping.
#[derive(Clone, Copy, PartialEq, Eq, Structural, Debug)]
pub enum Rotation {
    North,
    East,
    South,
    West,
}

/// A 2x2 integer matrix, stored row-major as `[a, b, c, d]` for the matrix
/// with rows `(a, b)` and `(c, d)`.
#[derive(Clone, Copy, Debug)]
pub struct Mat2(pub [i32; 4]);

/// The row-major entries of the matrix for each orientation: the identity
/// for north, a quarter turn for east, a half turn for south and the
/// opposite quarter turn for west.
pub open spec fn spec_mat_entries(r: Rotation) -> Seq<i32> {
    match r {
        Rotation::North => seq![1i32, 0i32, 0i32, 1i32],
        Rotation::East => seq![0i32, 1i32, -1i32, 0i32],
        Rotation::South => seq![-1i32, 0i32, 0i32, -1i32],
        Rotation::West => seq![0i32, -1i32, 1i32, 0i32],
    }
}

/// A product of two bounded factors is bounded by the product of the
/// bounds.
proof fn lemma_bounded_product(p: int, q: int, pb: int, qb: int)
    requires
        -pb <= p <= pb,
        -qb <= q <= qb,
        0 <= pb,
        0 <= qb,
    ensures
        -(pb * qb) <= p * q <= pb * qb,
{
    assert(-(pb * qb) <= p * q <= pb * qb) by (nonlinear_arith)
        requires
            -pb <= p <= pb,
            -qb <= q <= qb,
            0 <= pb,
            0 <= qb,
    ;
}

impl Mat2 {
    pub fn new(mat: [i32; 4]) -> (r: Mat2)
        ensures
            r.0 == mat,
    {
        Mat2(mat)
    }

    /// Matrix product of `self` with `mat`, entry by entry. The entry bound
    /// keeps every intermediate product and sum well inside the range on
    /// which the computation is exact.
    pub fn mul(&self, mat: Mat2) -> (r: Mat2)
        requires
            forall|k: int| 0 <= k < 4 ==> -4096 <= #[trigger] self.0[k] <= 4096,
            forall|k: int| 0 <= k < 4 ==> -4096 <= #[trigger] mat.0[k] <= 4096,
        ensures
            r.0[0] == self.0[0] * mat.0[0] + self.0[1] * mat.0[2],
            r.0[1] == self.0[0] * mat.0[1] + self.0[1] * mat.0[3],
            r.0[2] == self.0[2] * mat.0[0] + self.0[3] * mat.0[2],
            r.0[3] == self.0[2] * mat.0[1] + self.0[3] * mat.0[3],
    {
        let a = self.0;
        let b = mat.0;
        proof {
            lemma_bounded_product(a[0] as int, b[0] as int, 4096, 4096);
            lemma_bounded_product(a[0] as int, b[1] as int, 4096, 4096);
            lemma_bounded_product(a[1] as int, b[2] as int, 4096, 4096);
            lemma_bounded_product(a[1] as int, b[3] as int, 4096, 4096);
            lemma_bounded_product(a[2] as int, b[0] as int, 4096, 4096);
            lemma_bounded_product(a[2] as int, b[1] as int, 4096, 4096);
            lemma_bounded_product(a[3] as int, b[2] as int, 4096, 4096);
            lemma_bounded_product(a[3] as int, b[3] as int, 4096, 4096);
        }
        Mat2::new(
            [
                a[0] * b[0] + a[1] * b[2],
                a[0] * b[1] + a[1] * b[3],
                a[2] * b[0] + a[3] * b[2],
                a[2] * b[1] + a[3] * b[3],
            ],
        )
    }

    /// Applies the matrix to a column vector. The entries must be quarter
    /// turn entries (-1, 0 or 1) and the components bounded so that the
    /// products and sums are exact.
    pub fn mul_vec(&self, vec: Vec2<i32>) -> (r: Vec2<i32>)
        requires
            forall|k: int| 0 <= k < 4 ==> -1 <= #[trigger] self.0[k] <= 1,
            -0x400000 <= vec.x <= 0x400000,
            -0x400000 <= vec.y <= 0x400000,
        ensures
            r.x == vec.x * self.0[0] + vec.y * self.0[2],
            r.y == vec.x * self.0[1] + vec.y * self.0[3],
    {
        let a = self.0;
        let b = vec;
        proof {
            lemma_bounded_product(b.x as int, a[0] as int, 0x400000, 1);
            lemma_bounded_product(b.x as int, a[1] as int, 0x400000, 1);
            lemma_bounded_product(b.y as int, a[2] as int, 0x400000, 1);
            lemma_bounded_product(b.y as int, a[3] as int, 0x400000, 1);
        }
        Vec2 { x: b.x * a[0] + b.y * a[2], y: b.x * a[1] + b.y * a[3] }
    }
}

impl Rotation {
    /// The matrix that realizes this orientation.
    pub fn get_mat2(&self) -> (r: Mat2)
        ensures
            r.0@ == spec_mat_entries(*self),
            forall|k: int| 0 <= k < 4 ==> -1 <= #[trigger] r.0[k] <= 1,
    {
        let r = match self {
            Rotation::North => Mat2::new([1i32, 0i32, 0i32, 1i32]),
            Rotation::East => Mat2::new([0i32, 1i32, -1i32, 0i32]),
            Rotation::South => Mat2::new([-1i32, 0i32, 0i32, -1i32]),
            Rotation::West => Mat2::new([0i32, -1i32, 1i32, 0i32]),
        };
        proof {
            assert(r.0@ =~= spec_mat_entries(*self));
        }
        r
    }

    /// The next orientation clockwise.
    pub open spec fn spec_cw(self) -> Rotation {
        match self {
            Rotation::North => Rotation::East,
            Rotation::East => Rotation::South,
            Rotation::South => Rotation::West,
            Rotation::West => Rotation::North,
        }
    }

    /// The next orientation counterclockwise.
    pub open spec fn spec_ccw(self) -> Rotation {
        match self {
            Rotation::North => Rotation::West,
            Rotation::East => Rotation::North,
            Rotation::South => Rotation::East,
            Rotation::West => Rotation::South,
        }
    }

    /// Steps one quarter turn clockwise.
    #[allow(non_snake_case)]
    pub fn rotateCW(self) -> (r: Rotation)
        ensures
            r == self.spec_cw(),
    {
        match self {
            Rotation::North => Rotation::East,
            Rotation::East => Rotation::South,
            Rotation::South => Rotation::West,
            Rotation::West => Rotation::North,
        }
    }

    /// Steps one quarter turn counterclockwise.
    #[allow(non_snake_case)]
    pub fn rotateCCW(self) -> (r: Rotation)
        ensures
            r == self.spec_ccw(),
    {
        match self {
            Rotation::North => Rotation::West,
            Rotation::East => Rotation::North,
            Rotation::South => Rotation::East,
            Rotation::West => Rotation::South,
        }
    }
}

/// The orientation steps form a four-cycle: four equal quarter turns in
/// either direction restore any orientation, and the two directions invert
/// each other.
pub proof fn lemma_quarter_turns_cycle(r: Rotation)
    ensures
        r.spec_cw().spec_cw().spec_cw().spec_cw() == r,
        r.spec_ccw().spec_ccw().spec_ccw().spec_ccw() == r,
        r.spec_cw().spec_ccw() == r,
        r.spec_ccw().spec_cw() == r,
{
}

} // verus!
