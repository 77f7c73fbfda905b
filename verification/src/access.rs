//! Views of the channels of a mesh: positions, normals, texture
//! coordinates, joint indices and joint weights. A channel that the mesh
//! lacks, or holds in another encoding, is seen as empty.

use crate::attribute::{
    AttributeData, MeshVertexAttributeId, VertexAttributeValues, ATTRIBUTE_JOINT_INDEX,
    ATTRIBUTE_JOINT_WEIGHT, ATTRIBUTE_NORMAL, ATTRIBUTE_POSITION, ATTRIBUTE_UV_0,
};
use crate::mesh::{Mesh, MeshData};
use vstd::prelude::*;

verus! {

impl MeshData {
    /// The values of the channel `id` where it holds float triples; no value
    /// where the mesh has no such channel or holds it in another encoding.
    pub open spec fn float32x3(self, id: MeshVertexAttributeId) -> Seq<[u32; 3]> {
        match self.channel(id) {
            Some(AttributeData::Float32x3(s)) => s,
            _ => Seq::empty(),
        }
    }

    /// The values of the channel `id` where it holds float pairs; no value
    /// where the mesh has no such channel or holds it in another encoding.
    pub open spec fn float32x2(self, id: MeshVertexAttributeId) -> Seq<[u32; 2]> {
        match self.channel(id) {
            Some(AttributeData::Float32x2(s)) => s,
            _ => Seq::empty(),
        }
    }

    /// The values of the channel `id` where it holds float quadruples; no
    /// value where the mesh has no such channel or holds it in another
    /// encoding.
    pub open spec fn float32x4(self, id: MeshVertexAttributeId) -> Seq<[u32; 4]> {
        match self.channel(id) {
            Some(AttributeData::Float32x4(s)) => s,
            _ => Seq::empty(),
        }
    }

    /// The values of the channel `id` where it holds quadruples of 16-bit
    /// unsigned integers; no value where the mesh has no such channel or
    /// holds it in another encoding.
    pub open spec fn uint16x4(self, id: MeshVertexAttributeId) -> Seq<[u16; 4]> {
        match self.channel(id) {
            Some(AttributeData::Uint16x4(s)) => s,
            _ => Seq::empty(),
        }
    }

    /// The mesh with the float triples of the channel `id` replaced by `s`;
    /// the mesh itself where it has no such channel or holds it in another
    /// encoding.
    pub open spec fn with_float32x3(self, id: MeshVertexAttributeId, s: Seq<[u32; 3]>) -> MeshData {
        match self.channel(id) {
            Some(AttributeData::Float32x3(_)) => self.with_data_at(
                self.index_of(id),
                AttributeData::Float32x3(s),
            ),
            _ => self,
        }
    }

    /// The mesh with the float pairs of the channel `id` replaced by `s`; the
    /// mesh itself where it has no such channel or holds it in another
    /// encoding.
    pub open spec fn with_float32x2(self, id: MeshVertexAttributeId, s: Seq<[u32; 2]>) -> MeshData {
        match self.channel(id) {
            Some(AttributeData::Float32x2(_)) => self.with_data_at(
                self.index_of(id),
                AttributeData::Float32x2(s),
            ),
            _ => self,
        }
    }

    /// What replacing the float triples of one channel changes and what it
    /// leaves: the mesh stays well formed, keeps its topology, its index
    /// buffer and the numbers and encodings of its channels, and every other
    /// channel keeps its values.
    pub proof fn lemma_with_float32x3(self, id: MeshVertexAttributeId, s: Seq<[u32; 3]>)
        requires
            self.wf(),
        ensures
            self.with_float32x3(id, s).wf(),
            self.with_float32x3(id, s).topology == self.topology,
            self.with_float32x3(id, s).indices == self.indices,
            self.with_float32x3(id, s).attributes.len() == self.attributes.len(),
            forall|i: int|
                0 <= i < self.attributes.len() ==> {
                    let before = #[trigger] self.attributes[i];
                    let after = self.with_float32x3(id, s).attributes[i];
                    &&& after.0 == before.0
                    &&& after.1.format() == before.1.format()
                    &&& before.0 != id ==> after.1 == before.1
                    &&& s.len() == self.float32x3(id).len() ==> after.1.len() == before.1.len()
                },
            forall|other: MeshVertexAttributeId|
                other != id ==> self.with_float32x3(id, s).channel(other) == self.channel(other),
            self.channel(id) matches Some(AttributeData::Float32x3(_)) ==> self.with_float32x3(
                id,
                s,
            ).float32x3(id) == s,
            !(self.channel(id) matches Some(AttributeData::Float32x3(_))) ==> self.with_float32x3(
                id,
                s,
            ) == self,
    {
        let after = self.with_float32x3(id, s);
        if self.channel(id) matches Some(AttributeData::Float32x3(_)) {
            let k = self.index_of(id);
            self.lemma_channel_at(k);
            assert(after.wf()) by {
                assert forall|a: int, b: int| 0 <= a < b < after.attributes.len() implies
                    after.attributes[a].0.0 < after.attributes[b].0.0 by {
                    assert(self.attributes[a].0.0 < self.attributes[b].0.0);
                }
            }
            after.lemma_channel_at(k);
            assert forall|other: MeshVertexAttributeId| other != id implies after.channel(other)
                == self.channel(other) by {
                if self.contains(other) {
                    let j = self.index_of(other);
                    self.lemma_channel_at(j);
                    after.lemma_channel_at(j);
                } else if after.contains(other) {
                    let j = after.index_of(other);
                    assert(self.attributes[j].0 == other);
                }
            }
        }
    }
}

/// The float triples of the channel `id`.
fn float32x3(mesh: &Mesh, id: MeshVertexAttributeId) -> (r: &[[u32; 3]])
    requires
        mesh@.wf(),
    ensures
        r@ == mesh@.float32x3(id),
{
    match mesh.attribute(id) {
        Some(VertexAttributeValues::Float32x3(v)) => v.as_slice(),
        _ => &[],
    }
}

/// The float triples of the channel `id`, to be changed in place.
fn float32x3_mut(mesh: &mut Mesh, id: MeshVertexAttributeId) -> (r: &mut [[u32; 3]])
    requires
        old(mesh)@.wf(),
    ensures
        r@ == old(mesh)@.float32x3(id),
        final(mesh)@ == old(mesh)@.with_float32x3(id, final(r)@),
        final(mesh)@.wf(),
{
    let ghost before = mesh@;
    let ghost after = final(mesh)@;
    match mesh.attribute_mut(id) {
        Some(values) => {
            match values {
                VertexAttributeValues::Float32x3(v) => v.as_mut_slice(),
                _ => {
                    proof {
                        assert(after.attributes =~= before.attributes);
                    }
                    &mut []
                },
            }
        },
        None => &mut [],
    }
}

/// The number of vertices that the position channel of the mesh describes;
/// zero where the mesh has no position channel of float triples.
pub fn mesh_len(mesh: &Mesh) -> (n: usize)
    requires
        mesh@.wf(),
    ensures
        n == mesh@.float32x3(MeshVertexAttributeId(ATTRIBUTE_POSITION)).len(),
{
    float32x3(mesh, MeshVertexAttributeId(ATTRIBUTE_POSITION)).len()
}

/// The joint weights of the mesh, four floats per vertex; none where the
/// mesh has no such channel of float quadruples.
pub fn mesh_joint_weights(mesh: &Mesh) -> (r: &[[u32; 4]])
    requires
        mesh@.wf(),
    ensures
        r@ == mesh@.float32x4(MeshVertexAttributeId(ATTRIBUTE_JOINT_WEIGHT)),
{
    match mesh.attribute(MeshVertexAttributeId(ATTRIBUTE_JOINT_WEIGHT)) {
        Some(VertexAttributeValues::Float32x4(v)) => v.as_slice(),
        _ => &[],
    }
}

/// The joint indices of the mesh, four per vertex; none where the mesh has
/// no such channel of quadruples of 16-bit unsigned integers.
pub fn mesh_joint_indices(mesh: &Mesh) -> (r: &[[u16; 4]])
    requires
        mesh@.wf(),
    ensures
        r@ == mesh@.uint16x4(MeshVertexAttributeId(ATTRIBUTE_JOINT_INDEX)),
{
    match mesh.attribute(MeshVertexAttributeId(ATTRIBUTE_JOINT_INDEX)) {
        Some(VertexAttributeValues::Uint16x4(v)) => v.as_slice(),
        _ => &[],
    }
}

/// The positions of the mesh; none where the mesh has no position channel
/// of float triples.
pub fn mesh_positions(mesh: &Mesh) -> (r: &[[u32; 3]])
    requires
        mesh@.wf(),
    ensures
        r@ == mesh@.float32x3(MeshVertexAttributeId(ATTRIBUTE_POSITION)),
{
    float32x3(mesh, MeshVertexAttributeId(ATTRIBUTE_POSITION))
}

/// The positions of the mesh, to be changed in place: what is written to
/// them is written to the position channel, and nothing else of the mesh
/// changes.
pub fn mesh_positions_mut(mesh: &mut Mesh) -> (r: &mut [[u32; 3]])
    requires
        old(mesh)@.wf(),
    ensures
        r@ == old(mesh)@.float32x3(MeshVertexAttributeId(ATTRIBUTE_POSITION)),
        final(mesh)@ == old(mesh)@.with_float32x3(
            MeshVertexAttributeId(ATTRIBUTE_POSITION),
            final(r)@,
        ),
        final(mesh)@.wf(),
{
    float32x3_mut(mesh, MeshVertexAttributeId(ATTRIBUTE_POSITION))
}

/// The normals of the mesh; none where the mesh has no normal channel of
/// float triples.
pub fn mesh_normals(mesh: &Mesh) -> (r: &[[u32; 3]])
    requires
        mesh@.wf(),
    ensures
        r@ == mesh@.float32x3(MeshVertexAttributeId(ATTRIBUTE_NORMAL)),
{
    float32x3(mesh, MeshVertexAttributeId(ATTRIBUTE_NORMAL))
}

/// The normals of the mesh, to be changed in place: what is written to them
/// is written to the normal channel, and nothing else of the mesh changes.
pub fn mesh_normals_mut(mesh: &mut Mesh) -> (r: &mut [[u32; 3]])
    requires
        old(mesh)@.wf(),
    ensures
        r@ == old(mesh)@.float32x3(MeshVertexAttributeId(ATTRIBUTE_NORMAL)),
        final(mesh)@ == old(mesh)@.with_float32x3(
            MeshVertexAttributeId(ATTRIBUTE_NORMAL),
            final(r)@,
        ),
        final(mesh)@.wf(),
{
    float32x3_mut(mesh, MeshVertexAttributeId(ATTRIBUTE_NORMAL))
}

/// The texture coordinates of the mesh; none where the mesh has no such
/// channel of float pairs.
pub fn mesh_uvs(mesh: &Mesh) -> (r: &[[u32; 2]])
    requires
        mesh@.wf(),
    ensures
        r@ == mesh@.float32x2(MeshVertexAttributeId(ATTRIBUTE_UV_0)),
{
    match mesh.attribute(MeshVertexAttributeId(ATTRIBUTE_UV_0)) {
        Some(VertexAttributeValues::Float32x2(v)) => v.as_slice(),
        _ => &[],
    }
}

/// The texture coordinates of the mesh, to be changed in place: what is
/// written to them is written to their channel, and nothing else of the mesh
/// changes.
pub fn mesh_uvs_mut(mesh: &mut Mesh) -> (r: &mut [[u32; 2]])
    requires
        old(mesh)@.wf(),
    ensures
        r@ == old(mesh)@.float32x2(MeshVertexAttributeId(ATTRIBUTE_UV_0)),
        final(mesh)@ == old(mesh)@.with_float32x2(MeshVertexAttributeId(ATTRIBUTE_UV_0), final(r)@),
        final(mesh)@.wf(),
{
    let ghost before = mesh@;
    let ghost after = final(mesh)@;
    match mesh.attribute_mut(MeshVertexAttributeId(ATTRIBUTE_UV_0)) {
        Some(values) => {
            match values {
                VertexAttributeValues::Float32x2(v) => v.as_mut_slice(),
                _ => {
                    proof {
                        assert(after.attributes =~= before.attributes);
                    }
                    &mut []
                },
            }
        },
        None => &mut [],
    }
}

} // verus!
