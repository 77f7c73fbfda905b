//! The floating-point arithmetic on which transforms rest, as functions
//! that the caller hands in.

use crate::math::{Affine3A, Mat3, Mat4, Transform};
use vstd::prelude::*;

verus! {

/// The floating-point arithmetic on which transforms rest, as eight
/// functions on bit patterns. The library decides which of them meets which
/// value and in what order; what a float is, it leaves to them.
pub struct Arithmetic<CM, IN, TP, MV, NZ, MM, SC, AD> {
    /// The 4x4 matrix of a transform given by translation, rotation and
    /// scale.
    pub compute_matrix: CM,
    /// The inverse of a 4x4 matrix.
    pub inverse: IN,
    /// A point moved by an affine 4x4 matrix, translation included.
    pub transform_point3: TP,
    /// The product of a 3x3 matrix and a vector.
    pub mul_vec3: MV,
    /// A vector brought to unit length, or the zero vector where it has no
    /// length to speak of.
    pub normalize_or_zero: NZ,
    /// The product of an affine transform and a 4x4 matrix.
    pub mul_mat4: MM,
    /// A 4x4 matrix with every entry multiplied by a scalar.
    pub scale: SC,
    /// The sum of two 4x4 matrices.
    pub add: AD,
}

impl<
    CM: Fn(&Transform) -> Mat4,
    IN: Fn(&Mat4) -> Mat4,
    TP: Fn(&Mat4, [u32; 3]) -> [u32; 3],
    MV: Fn(&Mat3, [u32; 3]) -> [u32; 3],
    NZ: Fn([u32; 3]) -> [u32; 3],
    MM: Fn(&Affine3A, &Mat4) -> Mat4,
    SC: Fn(u32, &Mat4) -> Mat4,
    AD: Fn(&Mat4, &Mat4) -> Mat4,
> Arithmetic<CM, IN, TP, MV, NZ, MM, SC, AD> {
    /// Each of the eight functions takes every argument.
    pub open spec fn total(&self) -> bool {
        &&& forall|t: &Transform| self.compute_matrix.requires((t,))
        &&& forall|m: &Mat4| self.inverse.requires((m,))
        &&& forall|m: &Mat4, p: [u32; 3]| self.transform_point3.requires((m, p))
        &&& forall|m: &Mat3, v: [u32; 3]| self.mul_vec3.requires((m, v))
        &&& forall|v: [u32; 3]| self.normalize_or_zero.requires((v,))
        &&& forall|a: &Affine3A, m: &Mat4| self.mul_mat4.requires((a, m))
        &&& forall|s: u32, m: &Mat4| self.scale.requires((s, m))
        &&& forall|a: &Mat4, b: &Mat4| self.add.requires((a, b))
    }

    /// The point `q` is where the matrix takes the point `p`.
    pub open spec fn moves(&self, matrix: Mat4, p: [u32; 3], q: [u32; 3]) -> bool {
        self.transform_point3.ensures((&matrix, p), q)
    }

    /// The normal `r` is the normal `n` under the normal matrix: the
    /// product of the matrix and `n`, brought to unit length or to zero.
    pub open spec fn turns(&self, normal_matrix: Mat3, n: [u32; 3], r: [u32; 3]) -> bool {
        exists|product: [u32; 3]|
            self.mul_vec3.ensures((&normal_matrix, n), product)
                && #[trigger] self.normalize_or_zero.ensures((product,), r)
    }

    /// The matrix `r` is the sum of the four matrices, each scaled by its
    /// weight: `w[0] * a + w[1] * b + w[2] * c + w[3] * d`, scaled and summed
    /// from left to right.
    pub open spec fn blends(
        &self,
        a: Mat4,
        b: Mat4,
        c: Mat4,
        d: Mat4,
        w: [u32; 4],
        r: Mat4,
    ) -> bool {
        exists|sa: Mat4, sb: Mat4, sc: Mat4, sd: Mat4, ab: Mat4, abc: Mat4| #[trigger]
            self.weighted_sum(a, b, c, d, w, sa, sb, sc, sd, ab, abc, r)
    }

    /// The steps of a blend: the four scaled matrices, the two partial sums,
    /// and the sum.
    pub open spec fn weighted_sum(
        &self,
        a: Mat4,
        b: Mat4,
        c: Mat4,
        d: Mat4,
        w: [u32; 4],
        sa: Mat4,
        sb: Mat4,
        sc: Mat4,
        sd: Mat4,
        ab: Mat4,
        abc: Mat4,
        r: Mat4,
    ) -> bool {
        &&& self.scale.ensures((w@[0], &a), sa)
        &&& self.scale.ensures((w@[1], &b), sb)
        &&& self.add.ensures((&sa, &sb), ab)
        &&& self.scale.ensures((w@[2], &c), sc)
        &&& self.add.ensures((&ab, &sc), abc)
        &&& self.scale.ensures((w@[3], &d), sd)
        &&& self.add.ensures((&abc, &sd), r)
    }

    /// The normal `n` under a normal matrix.
    pub fn turn(&self, normal_matrix: &Mat3, n: [u32; 3]) -> (r: [u32; 3])
        requires
            self.total(),
        ensures
            self.turns(*normal_matrix, n, r),
    {
        let product: [u32; 3] = (self.mul_vec3)(normal_matrix, n);
        (self.normalize_or_zero)(product)
    }

    /// The sum of four matrices, each scaled by its weight.
    pub fn blend(&self, a: &Mat4, b: &Mat4, c: &Mat4, d: &Mat4, w: &[u32; 4]) -> (r: Mat4)
        requires
            self.total(),
        ensures
            self.blends(*a, *b, *c, *d, *w, r),
    {
        let sa = (self.scale)(w[0], a);
        let sb = (self.scale)(w[1], b);
        let ab = (self.add)(&sa, &sb);
        let sc = (self.scale)(w[2], c);
        let abc = (self.add)(&ab, &sc);
        let sd = (self.scale)(w[3], d);
        let r = (self.add)(&abc, &sd);
        assert(self.weighted_sum(*a, *b, *c, *d, *w, sa, sb, sc, sd, ab, abc, r));
        r
    }
}

} // verus!
