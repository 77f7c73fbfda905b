//! Meshes in the pose of a skeleton.

use crate::access::{
    mesh_joint_indices, mesh_joint_weights, mesh_normals_mut, mesh_positions_mut,
};
use crate::arithmetic::Arithmetic;
use crate::attribute::{
    MeshVertexAttributeId, ATTRIBUTE_JOINT_INDEX, ATTRIBUTE_JOINT_WEIGHT, ATTRIBUTE_NORMAL,
    ATTRIBUTE_POSITION,
};
use crate::math::{normal_matrix, spec_normal_matrix, Affine3A, Mat3, Mat4, Transform};
use crate::mesh::{Mesh, MeshData};
use vstd::prelude::*;

verus! {

/// A skeleton binding: the references of the joints of a skeleton, and the
/// inverse bind matrix of each, joint `i` going with matrix `i`. A joint
/// without a matrix, or a matrix without a joint, is not part of the
/// skeleton.
pub struct SkinBinding<J> {
    /// The references of the joints.
    pub joints: Vec<J>,
    /// The inverse bind matrices.
    pub inverse_bindposes: Vec<Mat4>,
}

impl<J> SkinBinding<J> {
    /// The number of joints that have an inverse bind matrix.
    pub open spec fn joint_count(&self) -> nat {
        if self.joints@.len() <= self.inverse_bindposes@.len() {
            self.joints@.len()
        } else {
            self.inverse_bindposes@.len()
        }
    }
}

/// The joint cannot be resolved: `None` is what `lookup` may return for it.
pub open spec fn unresolved<J, L: Fn(&J) -> Option<Affine3A>>(lookup: L, joint: J) -> bool {
    lookup.ensures((&joint,), None)
}

/// The four joint indices of a vertex name joints of a skeleton of `count`
/// joints.
pub open spec fn indexes_below(indexes: [u16; 4], count: nat) -> bool {
    forall|k: int| 0 <= k < 4 ==> (#[trigger] indexes@[k] as nat) < count
}

/// The number of vertices of a mesh that are skinned: those that have a
/// position, four joint indices and four joint weights.
pub open spec fn skinned_count(mesh: MeshData) -> nat {
    let positions = mesh.float32x3(MeshVertexAttributeId(ATTRIBUTE_POSITION)).len();
    let indexes = mesh.uint16x4(MeshVertexAttributeId(ATTRIBUTE_JOINT_INDEX)).len();
    let weights = mesh.float32x4(MeshVertexAttributeId(ATTRIBUTE_JOINT_WEIGHT)).len();
    if positions <= indexes && positions <= weights {
        positions
    } else if indexes <= weights {
        indexes
    } else {
        weights
    }
}

/// The joint indices of every skinned vertex of the mesh name joints of a
/// skeleton of `count` joints.
pub open spec fn joints_in_range(mesh: MeshData, count: nat) -> bool {
    forall|i: int|
        0 <= i < skinned_count(mesh) ==> indexes_below(
            #[trigger] mesh.uint16x4(MeshVertexAttributeId(ATTRIBUTE_JOINT_INDEX))[i],
            count,
        )
}

impl<
    CM: Fn(&Transform) -> Mat4,
    IN: Fn(&Mat4) -> Mat4,
    TP: Fn(&Mat4, [u32; 3]) -> [u32; 3],
    MV: Fn(&Mat3, [u32; 3]) -> [u32; 3],
    NZ: Fn([u32; 3]) -> [u32; 3],
    MM: Fn(&Affine3A, &Mat4) -> Mat4,
    SC: Fn(u32, &Mat4) -> Mat4,
    AD: Fn(&Mat4, &Mat4) -> Mat4,
> Arithmetic<CM, IN, TP, MV, NZ, MM, SC, AD> {
    /// `matrix` is a skin matrix of the joint: the product of a world
    /// transform that `lookup` may return for the joint, and the inverse
    /// bind matrix `inverse_bindpose`.
    pub open spec fn skin_matrix<J, L: Fn(&J) -> Option<Affine3A>>(
        &self,
        lookup: L,
        joint: J,
        inverse_bindpose: Mat4,
        matrix: Mat4,
    ) -> bool {
        exists|world: Affine3A|
            lookup.ensures((&joint,), Some(world)) && #[trigger] self.mul_mat4.ensures(
                (&world, &inverse_bindpose),
                matrix,
            )
    }

    /// `matrices` are skin matrices of the joints of the skeleton, in the
    /// order of the joints.
    pub open spec fn skin_matrices<J, L: Fn(&J) -> Option<Affine3A>>(
        &self,
        lookup: L,
        skin: SkinBinding<J>,
        matrices: Seq<Mat4>,
    ) -> bool {
        &&& matrices.len() == skin.joint_count()
        &&& forall|i: int|
            0 <= i < skin.joint_count() ==> self.skin_matrix(
                lookup,
                skin.joints@[i],
                skin.inverse_bindposes@[i],
                #[trigger] matrices[i],
            )
    }

    /// `models` are skin matrices of the skinned vertices of the mesh, in
    /// their order: for each, the skin matrices of its four joints, taken
    /// from `matrices`, blended by its four weights.
    pub open spec fn vertex_models(
        &self,
        mesh: MeshData,
        matrices: Seq<Mat4>,
        models: Seq<Mat4>,
    ) -> bool {
        let indexes = mesh.uint16x4(MeshVertexAttributeId(ATTRIBUTE_JOINT_INDEX));
        let weights = mesh.float32x4(MeshVertexAttributeId(ATTRIBUTE_JOINT_WEIGHT));
        &&& models.len() == skinned_count(mesh)
        &&& forall|i: int|
            0 <= i < skinned_count(mesh) ==> self.blends(
                matrices[indexes[i]@[0] as int],
                matrices[indexes[i]@[1] as int],
                matrices[indexes[i]@[2] as int],
                matrices[indexes[i]@[3] as int],
                weights[i],
                #[trigger] models[i],
            )
    }

    /// The normal `r` is the normal `n` under the matrix `model`: under the
    /// upper left 3x3 part of the transpose of an inverse of `model`.
    pub open spec fn turns_under(&self, model: Mat4, n: [u32; 3], r: [u32; 3]) -> bool {
        exists|inverse: Mat4|
            self.inverse.ensures((&model,), inverse) && #[trigger] self.turns(
                spec_normal_matrix(inverse),
                n,
                r,
            )
    }

    /// The points of `after` are those of `before`, each moved by the
    /// matrix of `models` at the same place; where `models` has no matrix,
    /// the point stays.
    pub open spec fn moves_each(
        &self,
        models: Seq<Mat4>,
        before: Seq<[u32; 3]>,
        after: Seq<[u32; 3]>,
    ) -> bool {
        &&& after.len() == before.len()
        &&& forall|i: int|
            0 <= i < before.len() ==> if i < models.len() {
                self.moves(models[i], before[i], #[trigger] after[i])
            } else {
                after[i] == before[i]
            }
    }

    /// The normals of `after` are those of `before`, each under the matrix
    /// of `models` at the same place; where `models` has no matrix, the
    /// normal stays.
    pub open spec fn turns_each(
        &self,
        models: Seq<Mat4>,
        before: Seq<[u32; 3]>,
        after: Seq<[u32; 3]>,
    ) -> bool {
        &&& after.len() == before.len()
        &&& forall|i: int|
            0 <= i < before.len() ==> if i < models.len() {
                self.turns_under(models[i], before[i], #[trigger] after[i])
            } else {
                after[i] == before[i]
            }
    }

    /// `after` is `before` skinned with `models` as the skin matrices of its
    /// vertices: every position and every normal of a skinned vertex went
    /// under the matrix of its vertex, and nothing else changed.
    pub open spec fn skins_by(&self, models: Seq<Mat4>, before: MeshData, after: MeshData) -> bool {
        let positions = after.float32x3(MeshVertexAttributeId(ATTRIBUTE_POSITION));
        let normals = after.float32x3(MeshVertexAttributeId(ATTRIBUTE_NORMAL));
        &&& self.moves_each(
            models,
            before.float32x3(MeshVertexAttributeId(ATTRIBUTE_POSITION)),
            positions,
        )
        &&& self.turns_each(
            models,
            before.float32x3(MeshVertexAttributeId(ATTRIBUTE_NORMAL)),
            normals,
        )
        &&& after == before.with_float32x3(
            MeshVertexAttributeId(ATTRIBUTE_POSITION),
            positions,
        ).with_float32x3(MeshVertexAttributeId(ATTRIBUTE_NORMAL), normals)
    }

    /// `after` is `before` in the pose of the skeleton: skinned with skin
    /// matrices of its vertices that are blended from skin matrices of the
    /// joints.
    pub open spec fn skins<J, L: Fn(&J) -> Option<Affine3A>>(
        &self,
        lookup: L,
        skin: SkinBinding<J>,
        before: MeshData,
        after: MeshData,
    ) -> bool {
        exists|matrices: Seq<Mat4>, models: Seq<Mat4>|
            self.skin_matrices(lookup, skin, matrices) && #[trigger] self.vertex_models(
                before,
                matrices,
                models,
            ) && self.skins_by(models, before, after)
    }
}

impl<
    CM: Fn(&Transform) -> Mat4,
    IN: Fn(&Mat4) -> Mat4,
    TP: Fn(&Mat4, [u32; 3]) -> [u32; 3],
    MV: Fn(&Mat3, [u32; 3]) -> [u32; 3],
    NZ: Fn([u32; 3]) -> [u32; 3],
    MM: Fn(&Affine3A, &Mat4) -> Mat4,
    SC: Fn(u32, &Mat4) -> Mat4,
    AD: Fn(&Mat4, &Mat4) -> Mat4,
> Arithmetic<CM, IN, TP, MV, NZ, MM, SC, AD> {
    /// Skinning by one joint at full weight is a plain transform. Let every
    /// vertex that has a position or a normal be skinned, with `full` as its
    /// weights and a first joint whose skin matrix is `matrix`; let a blend
    /// by the weights `full` give the first of its four matrices; and let
    /// `inverse` be the one inverse of `matrix`. Then the skinned mesh is the
    /// mesh under `matrix` and `inverse`.
    pub proof fn lemma_skinned_by_one_joint(
        &self,
        matrices: Seq<Mat4>,
        models: Seq<Mat4>,
        before: MeshData,
        after: MeshData,
        full: [u32; 4],
        matrix: Mat4,
        inverse: Mat4,
    )
        requires
            self.vertex_models(before, matrices, models),
            self.skins_by(models, before, after),
            before.float32x3(MeshVertexAttributeId(ATTRIBUTE_POSITION)).len() == skinned_count(
                before,
            ),
            before.float32x3(MeshVertexAttributeId(ATTRIBUTE_NORMAL)).len() <= skinned_count(
                before,
            ),
            forall|i: int|
                0 <= i < skinned_count(before) ==> #[trigger] before.float32x4(
                    MeshVertexAttributeId(ATTRIBUTE_JOINT_WEIGHT),
                )[i] == full && matrices[before.uint16x4(
                    MeshVertexAttributeId(ATTRIBUTE_JOINT_INDEX),
                )[i]@[0] as int] == matrix,
            forall|a: Mat4, b: Mat4, c: Mat4, d: Mat4, r: Mat4| #[trigger]
                self.blends(a, b, c, d, full, r) ==> r == a,
            forall|r: Mat4| #[trigger] self.inverse.ensures((&matrix,), r) ==> r == inverse,
        ensures
            self.transforms_by(matrix, inverse, before, after),
    {
        let weights = before.float32x4(MeshVertexAttributeId(ATTRIBUTE_JOINT_WEIGHT));
        assert forall|i: int| 0 <= i < skinned_count(before) implies #[trigger] models[i]
            == matrix by {
            assert(weights[i] == full);
        }
        let positions = before.float32x3(MeshVertexAttributeId(ATTRIBUTE_POSITION));
        let moved = after.float32x3(MeshVertexAttributeId(ATTRIBUTE_POSITION));
        assert forall|i: int| 0 <= i < positions.len() implies self.moves(
            matrix,
            positions[i],
            #[trigger] moved[i],
        ) by {
            assert(models[i] == matrix);
        }
        let normals = before.float32x3(MeshVertexAttributeId(ATTRIBUTE_NORMAL));
        let turned = after.float32x3(MeshVertexAttributeId(ATTRIBUTE_NORMAL));
        assert forall|i: int| 0 <= i < normals.len() implies self.turns(
            spec_normal_matrix(inverse),
            normals[i],
            #[trigger] turned[i],
        ) by {
            assert(models[i] == matrix);
            assert(self.turns_under(matrix, normals[i], turned[i]));
        }
    }
}

/// The skin matrices of the joints of a skeleton, in the order of the
/// joints: for each joint, its world transform, as `lookup` gives it, times
/// its inverse bind matrix. `None` where a joint cannot be resolved; the
/// joints behind the first such joint are not looked up.
pub fn skinned_mesh_joints<
    J,
    L: Fn(&J) -> Option<Affine3A>,
    CM: Fn(&Transform) -> Mat4,
    IN: Fn(&Mat4) -> Mat4,
    TP: Fn(&Mat4, [u32; 3]) -> [u32; 3],
    MV: Fn(&Mat3, [u32; 3]) -> [u32; 3],
    NZ: Fn([u32; 3]) -> [u32; 3],
    MM: Fn(&Affine3A, &Mat4) -> Mat4,
    SC: Fn(u32, &Mat4) -> Mat4,
    AD: Fn(&Mat4, &Mat4) -> Mat4,
>(skin: &SkinBinding<J>, lookup: &L, arithmetic: &Arithmetic<CM, IN, TP, MV, NZ, MM, SC, AD>) -> (r:
    Option<Vec<Mat4>>)
    requires
        forall|joint: &J| lookup.requires((joint,)),
        arithmetic.total(),
    ensures
        r matches Some(matrices) ==> arithmetic.skin_matrices(*lookup, *skin, matrices@),
        r is None ==> exists|i: int|
            0 <= i < skin.joint_count() && unresolved(*lookup, #[trigger] skin.joints@[i]),
{
    let n: usize = if skin.joints.len() <= skin.inverse_bindposes.len() {
        skin.joints.len()
    } else {
        skin.inverse_bindposes.len()
    };
    let mut buffer: Vec<Mat4> = Vec::new();
    let mut i: usize = 0;
    while i < n
        invariant
            i <= n,
            n == skin.joint_count(),
            buffer@.len() == i,
            forall|joint: &J| lookup.requires((joint,)),
            arithmetic.total(),
            forall|k: int|
                0 <= k < i ==> arithmetic.skin_matrix(
                    *lookup,
                    skin.joints@[k],
                    skin.inverse_bindposes@[k],
                    #[trigger] buffer@[k],
                ),
        decreases n - i,
    {
        match lookup(&skin.joints[i]) {
            Some(world) => {
                let matrix = (arithmetic.mul_mat4)(&world, &skin.inverse_bindposes[i]);
                buffer.push(matrix);
            },
            None => {
                return None;
            },
        }
        i += 1;
    }
    Some(buffer)
}

/// The skin matrix of a vertex: the skin matrices of its four joints, each
/// scaled by the weight of its joint, and summed. The weights are taken as
/// they are.
pub fn skin_model<
    CM: Fn(&Transform) -> Mat4,
    IN: Fn(&Mat4) -> Mat4,
    TP: Fn(&Mat4, [u32; 3]) -> [u32; 3],
    MV: Fn(&Mat3, [u32; 3]) -> [u32; 3],
    NZ: Fn([u32; 3]) -> [u32; 3],
    MM: Fn(&Affine3A, &Mat4) -> Mat4,
    SC: Fn(u32, &Mat4) -> Mat4,
    AD: Fn(&Mat4, &Mat4) -> Mat4,
>(
    joint_matrices: &[Mat4],
    indexes: &[u16; 4],
    weights: &[u32; 4],
    arithmetic: &Arithmetic<CM, IN, TP, MV, NZ, MM, SC, AD>,
) -> (r: Mat4)
    requires
        indexes_below(*indexes, joint_matrices@.len()),
        arithmetic.total(),
    ensures
        arithmetic.blends(
            joint_matrices@[indexes@[0] as int],
            joint_matrices@[indexes@[1] as int],
            joint_matrices@[indexes@[2] as int],
            joint_matrices@[indexes@[3] as int],
            *weights,
            r,
        ),
{
    arithmetic.blend(
        &joint_matrices[indexes[0] as usize],
        &joint_matrices[indexes[1] as usize],
        &joint_matrices[indexes[2] as usize],
        &joint_matrices[indexes[3] as usize],
        weights,
    )
}

/// A copy of the mesh in the pose of its skeleton. The skin matrix of a
/// joint is its world transform times its inverse bind matrix; the skin
/// matrix of a vertex is the sum of those of its four joints, each scaled by
/// its weight. Every vertex that has a position, joint indices and joint
/// weights has its position moved by its skin matrix, and its normal taken
/// under the upper left 3x3 part of the transposed inverse of that matrix
/// and brought to unit length or to zero. The copy has the vertices, the
/// index buffer and the channels of the mesh, and all channels but
/// positions and normals hold what they held. `None` where a joint of the
/// skeleton cannot be resolved: no mesh is then returned.
pub fn mesh_with_skinned_transform<
    J,
    L: Fn(&J) -> Option<Affine3A>,
    CM: Fn(&Transform) -> Mat4,
    IN: Fn(&Mat4) -> Mat4,
    TP: Fn(&Mat4, [u32; 3]) -> [u32; 3],
    MV: Fn(&Mat3, [u32; 3]) -> [u32; 3],
    NZ: Fn([u32; 3]) -> [u32; 3],
    MM: Fn(&Affine3A, &Mat4) -> Mat4,
    SC: Fn(u32, &Mat4) -> Mat4,
    AD: Fn(&Mat4, &Mat4) -> Mat4,
>(
    mesh: &Mesh,
    skin: &SkinBinding<J>,
    lookup: &L,
    arithmetic: &Arithmetic<CM, IN, TP, MV, NZ, MM, SC, AD>,
) -> (r: Option<Mesh>)
    requires
        mesh@.wf(),
        joints_in_range(mesh@, skin.joint_count()),
        forall|joint: &J| lookup.requires((joint,)),
        arithmetic.total(),
    ensures
        r is None ==> exists|i: int|
            0 <= i < skin.joint_count() && unresolved(*lookup, #[trigger] skin.joints@[i]),
        r matches Some(out) ==> out@.wf() && arithmetic.skins(*lookup, *skin, mesh@, out@),
        r matches Some(out) ==> out@.topology == mesh@.topology && out@.indices == mesh@.indices
            && out@.attributes.len() == mesh@.attributes.len() && forall|i: int|
            0 <= i < mesh@.attributes.len() ==> {
                let before = #[trigger] mesh@.attributes[i];
                let after = out@.attributes[i];
                &&& after.0 == before.0
                &&& after.1.format() == before.1.format()
                &&& after.1.len() == before.1.len()
                &&& before.0 != MeshVertexAttributeId(ATTRIBUTE_POSITION) && before.0
                    != MeshVertexAttributeId(ATTRIBUTE_NORMAL) ==> after.1 == before.1
            },
{
    let joints = match skinned_mesh_joints(skin, lookup, arithmetic) {
        Some(joints) => joints,
        None => {
            return None;
        },
    };
    let mut new_mesh = mesh.clone();
    let indexes = mesh_joint_indices(mesh);
    let weights = mesh_joint_weights(mesh);

    let positions = mesh_positions_mut(&mut new_mesh);
    let ghost old_positions = positions@;
    let mut n: usize = positions.len();
    if indexes.len() < n {
        n = indexes.len();
    }
    if weights.len() < n {
        n = weights.len();
    }
    let mut models: Vec<Mat4> = Vec::with_capacity(n);
    let mut i: usize = 0;
    while i < n
        invariant
            i <= n,
            n == skinned_count(mesh@),
            n <= positions@.len(),
            positions@.len() == old_positions.len(),
            old_positions == mesh@.float32x3(MeshVertexAttributeId(ATTRIBUTE_POSITION)),
            indexes@ == mesh@.uint16x4(MeshVertexAttributeId(ATTRIBUTE_JOINT_INDEX)),
            weights@ == mesh@.float32x4(MeshVertexAttributeId(ATTRIBUTE_JOINT_WEIGHT)),
            joints@.len() == skin.joint_count(),
            joints_in_range(mesh@, skin.joint_count()),
            arithmetic.total(),
            models@.len() == i,
            forall|k: int|
                0 <= k < i ==> arithmetic.blends(
                    joints@[indexes@[k]@[0] as int],
                    joints@[indexes@[k]@[1] as int],
                    joints@[indexes@[k]@[2] as int],
                    joints@[indexes@[k]@[3] as int],
                    weights@[k],
                    #[trigger] models@[k],
                ),
            forall|k: int|
                0 <= k < i ==> arithmetic.moves(
                    models@[k],
                    old_positions[k],
                    #[trigger] positions@[k],
                ),
            forall|k: int| i <= k < positions@.len() ==> positions@[k] == old_positions[k],
        decreases n - i,
    {
        let model = skin_model(joints.as_slice(), &indexes[i], &weights[i], arithmetic);
        let p: [u32; 3] = positions[i];
        let q: [u32; 3] = (arithmetic.transform_point3)(&model, p);
        positions[i] = q;
        models.push(model);
        i += 1;
    }
    let ghost new_positions = positions@;
    let ghost moved = new_mesh@;

    let normals = mesh_normals_mut(&mut new_mesh);
    let ghost old_normals = normals@;
    let mut m: usize = normals.len();
    if models.len() < m {
        m = models.len();
    }
    let mut i: usize = 0;
    while i < m
        invariant
            i <= m,
            m <= normals@.len(),
            m <= models@.len(),
            m == normals@.len() || m == models@.len(),
            normals@.len() == old_normals.len(),
            arithmetic.total(),
            forall|k: int|
                0 <= k < i ==> arithmetic.turns_under(
                    models@[k],
                    old_normals[k],
                    #[trigger] normals@[k],
                ),
            forall|k: int| i <= k < normals@.len() ==> normals@[k] == old_normals[k],
        decreases m - i,
    {
        let inverse = (arithmetic.inverse)(&models[i]);
        let inverse_transpose_model = normal_matrix(&inverse);
        let v: [u32; 3] = normals[i];
        let w: [u32; 3] = arithmetic.turn(&inverse_transpose_model, v);
        normals[i] = w;
        i += 1;
    }
    let ghost new_normals = normals@;

    proof {
        let p = MeshVertexAttributeId(ATTRIBUTE_POSITION);
        let n = MeshVertexAttributeId(ATTRIBUTE_NORMAL);
        mesh@.lemma_with_float32x3(p, new_positions);
        moved.lemma_with_float32x3(n, new_normals);
        assert(arithmetic.vertex_models(mesh@, joints@, models@));
    }
    Some(new_mesh)
}

} // verus!
