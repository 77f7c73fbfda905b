//! Meshes under an affine transform.

use crate::access::{mesh_normals_mut, mesh_positions_mut};
use crate::arithmetic::Arithmetic;
use crate::attribute::{
    AttributeData, MeshVertexAttributeId, ATTRIBUTE_NORMAL, ATTRIBUTE_POSITION,
};
use crate::math::{normal_matrix, spec_normal_matrix, Affine3A, Mat3, Mat4, Transform};
use crate::mesh::{Mesh, MeshData};
use vstd::prelude::*;

verus! {

impl<
    CM: Fn(&Transform) -> Mat4,
    IN: Fn(&Mat4) -> Mat4,
    TP: Fn(&Mat4, [u32; 3]) -> [u32; 3],
    MV: Fn(&Mat3, [u32; 3]) -> [u32; 3],
    NZ: Fn([u32; 3]) -> [u32; 3],
    MM: Fn(&Affine3A, &Mat4) -> Mat4,
    SC: Fn(u32, &Mat4) -> Mat4,
    AD: Fn(&Mat4, &Mat4) -> Mat4,
> Arithmetic<CM, IN, TP, MV, NZ, MM, SC, AD> {
    /// The points of `after` are those of `before`, each moved by the
    /// matrix.
    pub open spec fn moves_all(
        &self,
        matrix: Mat4,
        before: Seq<[u32; 3]>,
        after: Seq<[u32; 3]>,
    ) -> bool {
        &&& after.len() == before.len()
        &&& forall|i: int| 0 <= i < before.len() ==> self.moves(matrix, before[i], #[trigger] after[i])
    }

    /// The normals of `after` are those of `before`, each under the normal
    /// matrix.
    pub open spec fn turns_all(
        &self,
        normal_matrix: Mat3,
        before: Seq<[u32; 3]>,
        after: Seq<[u32; 3]>,
    ) -> bool {
        &&& after.len() == before.len()
        &&& forall|i: int|
            0 <= i < before.len() ==> self.turns(normal_matrix, before[i], #[trigger] after[i])
    }

    /// `after` is `before` under the affine matrix `matrix` with the inverse
    /// `inverse`: every position moved by the matrix, every normal taken
    /// under the upper left 3x3 part of the transposed inverse and brought
    /// to unit length or to zero, and nothing else changed.
    pub open spec fn transforms_by(
        &self,
        matrix: Mat4,
        inverse: Mat4,
        before: MeshData,
        after: MeshData,
    ) -> bool {
        let positions = after.float32x3(MeshVertexAttributeId(ATTRIBUTE_POSITION));
        let normals = after.float32x3(MeshVertexAttributeId(ATTRIBUTE_NORMAL));
        &&& self.moves_all(
            matrix,
            before.float32x3(MeshVertexAttributeId(ATTRIBUTE_POSITION)),
            positions,
        )
        &&& self.turns_all(
            spec_normal_matrix(inverse),
            before.float32x3(MeshVertexAttributeId(ATTRIBUTE_NORMAL)),
            normals,
        )
        &&& after == before.with_float32x3(
            MeshVertexAttributeId(ATTRIBUTE_POSITION),
            positions,
        ).with_float32x3(MeshVertexAttributeId(ATTRIBUTE_NORMAL), normals)
    }

    /// `after` is `before` under the transform: under its matrix and the
    /// inverse of its matrix.
    pub open spec fn transforms(
        &self,
        transform: Transform,
        before: MeshData,
        after: MeshData,
    ) -> bool {
        exists|matrix: Mat4, inverse: Mat4|
            self.compute_matrix.ensures((&transform,), matrix) && self.inverse.ensures(
                (&matrix,),
                inverse,
            ) && #[trigger] self.transforms_by(matrix, inverse, before, after)
    }

    /// A matrix that leaves every position where it is, with an inverse
    /// under which every normal stays what it is, leaves the mesh as it is.
    pub proof fn lemma_transform_that_moves_nothing(
        &self,
        matrix: Mat4,
        inverse: Mat4,
        before: MeshData,
        after: MeshData,
    )
        requires
            before.wf(),
            self.transforms_by(matrix, inverse, before, after),
            forall|p: [u32; 3], q: [u32; 3]| #[trigger] self.moves(matrix, p, q) ==> q == p,
            forall|n: [u32; 3], r: [u32; 3]| #[trigger]
                self.turns(spec_normal_matrix(inverse), n, r) ==> r == n,
        ensures
            after == before,
    {
        let p = MeshVertexAttributeId(ATTRIBUTE_POSITION);
        let n = MeshVertexAttributeId(ATTRIBUTE_NORMAL);
        let positions = after.float32x3(p);
        let normals = after.float32x3(n);
        assert(positions =~= before.float32x3(p));
        assert(normals =~= before.float32x3(n));
        before.lemma_with_float32x3(p, positions);
        let moved = before.with_float32x3(p, positions);
        assert(moved.attributes =~= before.attributes) by {
            if before.channel(p) matches Some(AttributeData::Float32x3(_)) {
                before.lemma_channel_at(before.index_of(p));
            }
        }
        moved.lemma_with_float32x3(n, normals);
        assert(moved.with_float32x3(n, normals).attributes =~= moved.attributes) by {
            if moved.channel(n) matches Some(AttributeData::Float32x3(_)) {
                moved.lemma_channel_at(moved.index_of(n));
            }
        }
    }

    /// Two transforms in turn are one transform. Let the matrix `first`
    /// take the mesh `start` to `middle` and the matrix `second` take
    /// `middle` to `end`; let the matrix `both` move every position where
    /// `first` and then `second` move it, and let every normal go under the
    /// inverse of `both` where it goes under the inverses of `first` and then
    /// of `second`. Then `both` takes `start` to `end`.
    pub proof fn lemma_transforms_in_turn(
        &self,
        first: Mat4,
        first_inverse: Mat4,
        second: Mat4,
        second_inverse: Mat4,
        both: Mat4,
        both_inverse: Mat4,
        start: MeshData,
        middle: MeshData,
        end: MeshData,
    )
        requires
            start.wf(),
            self.transforms_by(first, first_inverse, start, middle),
            self.transforms_by(second, second_inverse, middle, end),
            forall|p: [u32; 3], q: [u32; 3], r: [u32; 3]|
                #[trigger] self.moves(first, p, q) && #[trigger] self.moves(second, q, r)
                    ==> self.moves(both, p, r),
            forall|n: [u32; 3], m: [u32; 3], r: [u32; 3]|
                #[trigger] self.turns(spec_normal_matrix(first_inverse), n, m)
                    && #[trigger] self.turns(spec_normal_matrix(second_inverse), m, r)
                    ==> self.turns(spec_normal_matrix(both_inverse), n, r),
        ensures
            self.transforms_by(both, both_inverse, start, end),
    {
        let p = MeshVertexAttributeId(ATTRIBUTE_POSITION);
        let n = MeshVertexAttributeId(ATTRIBUTE_NORMAL);
        // From `start` to `middle`.
        let p1 = middle.float32x3(p);
        let n1 = middle.float32x3(n);
        start.lemma_with_float32x3(p, p1);
        let a = start.with_float32x3(p, p1);
        a.lemma_with_float32x3(n, n1);
        // From `middle` to `end`.
        let p2 = end.float32x3(p);
        let n2 = end.float32x3(n);
        middle.lemma_with_float32x3(p, p2);
        let b = middle.with_float32x3(p, p2);
        b.lemma_with_float32x3(n, n2);
        // From `start` to `end` at once.
        start.lemma_with_float32x3(p, p2);
        let c = start.with_float32x3(p, p2);
        c.lemma_with_float32x3(n, n2);
        let d = c.with_float32x3(n, n2);

        assert forall|i: int| 0 <= i < start.float32x3(p).len() implies self.moves(
            both,
            start.float32x3(p)[i],
            #[trigger] p2[i],
        ) by {
            assert(self.moves(first, start.float32x3(p)[i], p1[i]));
            assert(self.moves(second, p1[i], p2[i]));
        }
        assert forall|i: int| 0 <= i < start.float32x3(n).len() implies self.turns(
            spec_normal_matrix(both_inverse),
            start.float32x3(n)[i],
            #[trigger] n2[i],
        ) by {
            assert(self.turns(spec_normal_matrix(first_inverse), start.float32x3(n)[i], n1[i]));
            assert(self.turns(spec_normal_matrix(second_inverse), n1[i], n2[i]));
        }
        assert(d.attributes =~= end.attributes) by {
            assert forall|i: int| 0 <= i < end.attributes.len() implies d.attributes[i]
                == end.attributes[i] by {
                start.lemma_channel_at(i);
                middle.lemma_channel_at(i);
                end.lemma_channel_at(i);
                a.lemma_channel_at(i);
                b.lemma_channel_at(i);
                c.lemma_channel_at(i);
                d.lemma_channel_at(i);
            }
        }
    }

    /// Moves each of the points by the matrix.
    pub fn move_points(&self, points: &mut [[u32; 3]], matrix: &Mat4)
        requires
            self.total(),
        ensures
            self.moves_all(*matrix, old(points)@, final(points)@),
    {
        let n: usize = points.len();
        let mut i: usize = 0;
        while i < n
            invariant
                i <= n,
                n == points@.len(),
                n == old(points)@.len(),
                self.total(),
                forall|k: int|
                    0 <= k < i ==> self.moves(*matrix, old(points)@[k], #[trigger] points@[k]),
                forall|k: int| i <= k < n ==> points@[k] == old(points)@[k],
            decreases n - i,
        {
            let p: [u32; 3] = points[i];
            let q: [u32; 3] = (self.transform_point3)(matrix, p);
            points[i] = q;
            i += 1;
        }
    }

    /// Takes each of the normals under the normal matrix.
    pub fn turn_normals(&self, normals: &mut [[u32; 3]], normal_matrix: &Mat3)
        requires
            self.total(),
        ensures
            self.turns_all(*normal_matrix, old(normals)@, final(normals)@),
    {
        let n: usize = normals.len();
        let mut i: usize = 0;
        while i < n
            invariant
                i <= n,
                n == normals@.len(),
                n == old(normals)@.len(),
                self.total(),
                forall|k: int|
                    0 <= k < i ==> self.turns(
                        *normal_matrix,
                        old(normals)@[k],
                        #[trigger] normals@[k],
                    ),
                forall|k: int| i <= k < n ==> normals@[k] == old(normals)@[k],
            decreases n - i,
        {
            let v: [u32; 3] = normals[i];
            let r: [u32; 3] = self.turn(normal_matrix, v);
            normals[i] = r;
            i += 1;
        }
    }
}

/// A copy of the mesh under the transform. Every position is moved by the
/// matrix of the transform; every normal is taken under the normal matrix,
/// which is the upper left 3x3 part of the transposed inverse of that
/// matrix, and brought to unit length, or to zero where nothing is left of
/// it. The copy has the vertices, the index buffer and the channels of the
/// mesh, and all channels but those two hold what they held. A mesh without
/// positions or normals as float triples keeps what it has in their place.
/// The result is never `None`.
pub fn mesh_with_transform<
    CM: Fn(&Transform) -> Mat4,
    IN: Fn(&Mat4) -> Mat4,
    TP: Fn(&Mat4, [u32; 3]) -> [u32; 3],
    MV: Fn(&Mat3, [u32; 3]) -> [u32; 3],
    NZ: Fn([u32; 3]) -> [u32; 3],
    MM: Fn(&Affine3A, &Mat4) -> Mat4,
    SC: Fn(u32, &Mat4) -> Mat4,
    AD: Fn(&Mat4, &Mat4) -> Mat4,
>(
    mesh: &Mesh,
    transform: &Transform,
    arithmetic: &Arithmetic<CM, IN, TP, MV, NZ, MM, SC, AD>,
) -> (r: Option<Mesh>)
    requires
        mesh@.wf(),
        arithmetic.total(),
    ensures
        r is Some,
        r->0@.wf(),
        arithmetic.transforms(*transform, mesh@, r->0@),
        r->0@.topology == mesh@.topology,
        r->0@.indices == mesh@.indices,
        r->0@.attributes.len() == mesh@.attributes.len(),
        forall|i: int|
            0 <= i < mesh@.attributes.len() ==> {
                let before = #[trigger] mesh@.attributes[i];
                let after = r->0@.attributes[i];
                &&& after.0 == before.0
                &&& after.1.format() == before.1.format()
                &&& after.1.len() == before.1.len()
                &&& before.0 != MeshVertexAttributeId(ATTRIBUTE_POSITION) && before.0
                    != MeshVertexAttributeId(ATTRIBUTE_NORMAL) ==> after.1 == before.1
            },
{
    let mut out = mesh.clone();
    let mat = (arithmetic.compute_matrix)(transform);

    let positions = mesh_positions_mut(&mut out);
    arithmetic.move_points(positions, &mat);
    let ghost ps = positions@;
    let ghost moved = out@;

    let inverse = (arithmetic.inverse)(&mat);
    let inverse_transpose_model = normal_matrix(&inverse);
    let normals = mesh_normals_mut(&mut out);
    arithmetic.turn_normals(normals, &inverse_transpose_model);
    let ghost ns = normals@;

    proof {
        let p = MeshVertexAttributeId(ATTRIBUTE_POSITION);
        let n = MeshVertexAttributeId(ATTRIBUTE_NORMAL);
        mesh@.lemma_with_float32x3(p, ps);
        moved.lemma_with_float32x3(n, ns);
        assert(arithmetic.transforms_by(mat, inverse, mesh@, out@));
    }
    Some(out)
}

} // verus!
