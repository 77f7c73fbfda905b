//! Putting one mesh behind another.

use crate::attribute::{
    AttributeData, MeshVertexAttributeId, VertexAttributeValues, extend_vec, ATTRIBUTE_NORMAL,
    ATTRIBUTE_POSITION, ATTRIBUTE_UV_0,
};
use crate::mesh::{IndexData, Indices, Mesh, MeshData, PrimitiveTopology};
use vstd::arithmetic::div_mod::lemma_add_mod_noop;
use vstd::prelude::*;

verus! {

/// Why one mesh could not be put behind another.
#[derive(Clone, Copy, Debug, PartialEq, Eq, Structural)]
pub enum MeshAppendError {
    /// The destination has a channel of this number and the source has none.
    AttributeNotFound(MeshVertexAttributeId),
}

/// Every channel of `dest` has a channel of the same number in `src`.
pub open spec fn covers(src: MeshData, dest: MeshData) -> bool {
    forall|i: int| 0 <= i < dest.attributes.len() ==> src.contains(#[trigger] dest.attributes[i].0)
}

/// The channel at place `i` of `dest` is the first, in the order of the
/// channels' numbers, that `src` lacks.
pub open spec fn first_missing_at(src: MeshData, dest: MeshData, i: int) -> bool {
    &&& 0 <= i < dest.attributes.len()
    &&& !src.contains(dest.attributes[i].0)
    &&& forall|j: int| 0 <= j < i ==> src.contains(#[trigger] dest.attributes[j].0)
}

/// The mesh `dest` with `src` put behind it: each channel of `dest` extended
/// by the channel of `src` of the same number, where the encodings agree, and
/// the indices of `src` put behind those of `dest`, raised by the number of
/// vertices that `dest` had.
pub open spec fn appended(dest: MeshData, src: MeshData) -> MeshData {
    MeshData {
        topology: dest.topology,
        attributes: Seq::new(
            dest.attributes.len(),
            |i: int|
                (
                    dest.attributes[i].0,
                    dest.attributes[i].1.extended(src.channel(dest.attributes[i].0).unwrap()),
                ),
        ),
        indices: Some(
            dest.indices.unwrap().appended(src.indices.unwrap(), dest.vertex_count() as int),
        ),
    }
}

/// Puts the values of `src` behind those of `dest` where both have the same
/// encoding, and leaves `dest` as it is where they have not.
pub fn append_values(dest: &mut VertexAttributeValues, src: &VertexAttributeValues)
    ensures
        final(dest)@ == old(dest)@.extended(src@),
{
    match dest {
        VertexAttributeValues::Float32(v) => {
            if let VertexAttributeValues::Float32(s) = src {
                extend_vec(v, s);
            }
        },
        VertexAttributeValues::Sint32(v) => {
            if let VertexAttributeValues::Sint32(s) = src {
                extend_vec(v, s);
            }
        },
        VertexAttributeValues::Uint32(v) => {
            if let VertexAttributeValues::Uint32(s) = src {
                extend_vec(v, s);
            }
        },
        VertexAttributeValues::Float32x2(v) => {
            if let VertexAttributeValues::Float32x2(s) = src {
                extend_vec(v, s);
            }
        },
        VertexAttributeValues::Sint32x2(v) => {
            if let VertexAttributeValues::Sint32x2(s) = src {
                extend_vec(v, s);
            }
        },
        VertexAttributeValues::Uint32x2(v) => {
            if let VertexAttributeValues::Uint32x2(s) = src {
                extend_vec(v, s);
            }
        },
        VertexAttributeValues::Float32x3(v) => {
            if let VertexAttributeValues::Float32x3(s) = src {
                extend_vec(v, s);
            }
        },
        VertexAttributeValues::Sint32x3(v) => {
            if let VertexAttributeValues::Sint32x3(s) = src {
                extend_vec(v, s);
            }
        },
        VertexAttributeValues::Uint32x3(v) => {
            if let VertexAttributeValues::Uint32x3(s) = src {
                extend_vec(v, s);
            }
        },
        VertexAttributeValues::Float32x4(v) => {
            if let VertexAttributeValues::Float32x4(s) = src {
                extend_vec(v, s);
            }
        },
        VertexAttributeValues::Sint32x4(v) => {
            if let VertexAttributeValues::Sint32x4(s) = src {
                extend_vec(v, s);
            }
        },
        VertexAttributeValues::Uint32x4(v) => {
            if let VertexAttributeValues::Uint32x4(s) = src {
                extend_vec(v, s);
            }
        },
        VertexAttributeValues::Sint16x2(v) => {
            if let VertexAttributeValues::Sint16x2(s) = src {
                extend_vec(v, s);
            }
        },
        VertexAttributeValues::Snorm16x2(v) => {
            if let VertexAttributeValues::Snorm16x2(s) = src {
                extend_vec(v, s);
            }
        },
        VertexAttributeValues::Uint16x2(v) => {
            if let VertexAttributeValues::Uint16x2(s) = src {
                extend_vec(v, s);
            }
        },
        VertexAttributeValues::Unorm16x2(v) => {
            if let VertexAttributeValues::Unorm16x2(s) = src {
                extend_vec(v, s);
            }
        },
        VertexAttributeValues::Sint16x4(v) => {
            if let VertexAttributeValues::Sint16x4(s) = src {
                extend_vec(v, s);
            }
        },
        VertexAttributeValues::Snorm16x4(v) => {
            if let VertexAttributeValues::Snorm16x4(s) = src {
                extend_vec(v, s);
            }
        },
        VertexAttributeValues::Uint16x4(v) => {
            if let VertexAttributeValues::Uint16x4(s) = src {
                extend_vec(v, s);
            }
        },
        VertexAttributeValues::Unorm16x4(v) => {
            if let VertexAttributeValues::Unorm16x4(s) = src {
                extend_vec(v, s);
            }
        },
        VertexAttributeValues::Sint8x2(v) => {
            if let VertexAttributeValues::Sint8x2(s) = src {
                extend_vec(v, s);
            }
        },
        VertexAttributeValues::Snorm8x2(v) => {
            if let VertexAttributeValues::Snorm8x2(s) = src {
                extend_vec(v, s);
            }
        },
        VertexAttributeValues::Uint8x2(v) => {
            if let VertexAttributeValues::Uint8x2(s) = src {
                extend_vec(v, s);
            }
        },
        VertexAttributeValues::Unorm8x2(v) => {
            if let VertexAttributeValues::Unorm8x2(s) = src {
                extend_vec(v, s);
            }
        },
        VertexAttributeValues::Sint8x4(v) => {
            if let VertexAttributeValues::Sint8x4(s) = src {
                extend_vec(v, s);
            }
        },
        VertexAttributeValues::Snorm8x4(v) => {
            if let VertexAttributeValues::Snorm8x4(s) = src {
                extend_vec(v, s);
            }
        },
        VertexAttributeValues::Uint8x4(v) => {
            if let VertexAttributeValues::Uint8x4(s) = src {
                extend_vec(v, s);
            }
        },
        VertexAttributeValues::Unorm8x4(v) => {
            if let VertexAttributeValues::Unorm8x4(s) = src {
                extend_vec(v, s);
            }
        },
    }
}

/// Puts the indices of `src` behind those of `dest`, each raised by `offset`
/// and cut to the width of `dest`.
pub fn append_indices(dest: &mut Indices, src: &Indices, offset: usize)
    ensures
        final(dest)@ == old(dest)@.appended(src@, offset as int),
{
    let n: usize = src.len();
    let ghost before = dest@;
    match dest {
        Indices::U16(dv) => {
            let base: u32 = (offset % 0x1_0000) as u32;
            let mut i: usize = 0;
            while i < n
                invariant
                    i <= n,
                    n == src@.values.len(),
                    base == offset % 0x1_0000,
                    !before.wide,
                    dv@.len() == before.values.len() + i,
                    forall|k: int| 0 <= k < before.values.len() ==> dv@[k] == before.values[k],
                    forall|k: int|
                        0 <= k < i ==> dv@[before.values.len() + k] == (src@.values[k] + offset)
                            % 0x1_0000,
                decreases n - i,
            {
                let sv: usize = src.get(i);
                let low: u32 = (sv % 0x1_0000) as u32;
                proof {
                    lemma_add_mod_noop(sv as int, offset as int, 0x1_0000);
                }
                dv.push(((low + base) % 0x1_0000) as u16);
                i += 1;
            }
            assert(Indices::U16(*dv)@.values =~= before.appended(src@, offset as int).values);
        },
        Indices::U32(dv) => {
            let base: u64 = (offset as u64) % 0x1_0000_0000;
            let mut i: usize = 0;
            while i < n
                invariant
                    i <= n,
                    n == src@.values.len(),
                    base == (offset as int) % 0x1_0000_0000,
                    before.wide,
                    dv@.len() == before.values.len() + i,
                    forall|k: int| 0 <= k < before.values.len() ==> dv@[k] == before.values[k],
                    forall|k: int|
                        0 <= k < i ==> dv@[before.values.len() + k] == (src@.values[k] + offset)
                            % 0x1_0000_0000,
                decreases n - i,
            {
                let sv: usize = src.get(i);
                let low: u64 = (sv as u64) % 0x1_0000_0000;
                proof {
                    lemma_add_mod_noop(sv as int, offset as int, 0x1_0000_0000);
                }
                dv.push(((low + base) % 0x1_0000_0000) as u32);
                i += 1;
            }
            assert(Indices::U32(*dv)@.values =~= before.appended(src@, offset as int).values);
        },
    }
}

/// Puts the mesh `src_mesh` behind `dest_mesh`: its indices, raised by the
/// number of vertices that `dest_mesh` had and cut to the width of the
/// indices of `dest_mesh`, behind those indices, and each of its channels
/// behind the channel of the same number.
///
/// Nothing is changed where `src_mesh` lacks a channel that `dest_mesh`
/// has; the first such channel, in the order of the channels' numbers, is
/// then reported. A channel that `src_mesh` holds in another encoding than
/// `dest_mesh` is no error: the channel of `dest_mesh` then stays as it is,
/// and `dest_mesh` no longer has the same number of vertices in every
/// channel. Channels that only `src_mesh` has are left out.
///
/// The channels of `dest_mesh` have to agree on its number of vertices, and
/// both meshes need an index buffer, unless a channel is missing.
pub fn mesh_append(dest_mesh: &mut Mesh, src_mesh: &Mesh) -> (r: Result<(), MeshAppendError>)
    requires
        old(dest_mesh)@.wf(),
        old(dest_mesh)@.uniform(),
        src_mesh@.wf(),
        covers(src_mesh@, old(dest_mesh)@) ==> old(dest_mesh)@.indices is Some
            && src_mesh@.indices is Some,
    ensures
        final(dest_mesh)@.wf(),
        r is Ok ==> covers(src_mesh@, old(dest_mesh)@) && final(dest_mesh)@ == appended(
            old(dest_mesh)@,
            src_mesh@,
        ),
        r matches Err(MeshAppendError::AttributeNotFound(id)) ==> final(dest_mesh)@ == old(
            dest_mesh,
        )@ && exists|i: int|
            first_missing_at(src_mesh@, old(dest_mesh)@, i) && old(dest_mesh)@.attributes[i].0
                == id,
{
    let ghost before = dest_mesh@;
    let dest_mesh_count: usize = dest_mesh.count_vertices();
    let n: usize = dest_mesh.attribute_count();

    let mut i: usize = 0;
    while i < n
        invariant
            i <= n,
            n == before.attributes.len(),
            dest_mesh@ == before,
            before.wf(),
            src_mesh@.wf(),
            forall|j: int| 0 <= j < i ==> src_mesh@.contains(#[trigger] before.attributes[j].0),
        decreases n - i,
    {
        let (id, _) = dest_mesh.attribute_at(i);
        if !src_mesh.contains_attribute(id) {
            assert(first_missing_at(src_mesh@, before, i as int));
            return Err(MeshAppendError::AttributeNotFound(id));
        }
        i += 1;
    }

    let src_indices = src_mesh.indices().unwrap();
    match dest_mesh.indices_mut() {
        Some(dest_indices) => {
            append_indices(dest_indices, src_indices, dest_mesh_count);
        },
        None => {},
    }

    let ghost goal = appended(before, src_mesh@);
    let mut i: usize = 0;
    while i < n
        invariant
            i <= n,
            n == before.attributes.len(),
            before.wf(),
            src_mesh@.wf(),
            covers(src_mesh@, before),
            goal == appended(before, src_mesh@),
            dest_mesh@.topology == goal.topology,
            dest_mesh@.indices == goal.indices,
            dest_mesh@.attributes.len() == n,
            forall|k: int| 0 <= k < i ==> dest_mesh@.attributes[k] == goal.attributes[k],
            forall|k: int| i <= k < n ==> dest_mesh@.attributes[k] == before.attributes[k],
        decreases n - i,
    {
        let (id, _) = dest_mesh.attribute_at(i);
        match src_mesh.attribute(id) {
            Some(values) => {
                let channel = dest_mesh.attribute_at_mut(i);
                append_values(channel, values);
            },
            None => {
                assert(src_mesh@.contains(before.attributes[i as int].0));
            },
        }
        i += 1;
    }
    assert(dest_mesh@.attributes =~= goal.attributes);
    Ok(())
}

/// An empty triangle mesh to gather others in: channels for positions,
/// normals and texture coordinates, and a 32-bit index buffer, all empty.
pub fn mesh_empty_default() -> (mesh: Mesh)
    ensures
        mesh@.wf(),
        mesh@.topology == PrimitiveTopology::TriangleList,
        mesh@.attributes == seq![
            (
                MeshVertexAttributeId(ATTRIBUTE_POSITION),
                AttributeData::Float32x3(Seq::empty()),
            ),
            (
                MeshVertexAttributeId(ATTRIBUTE_NORMAL),
                AttributeData::Float32x3(Seq::empty()),
            ),
            (
                MeshVertexAttributeId(ATTRIBUTE_UV_0),
                AttributeData::Float32x2(Seq::empty()),
            ),
        ],
        mesh@.indices == Some(IndexData { wide: true, values: Seq::empty() }),
{
    let mut mesh = Mesh::new(PrimitiveTopology::TriangleList);
    let ghost empty3 = AttributeData::Float32x3(Seq::empty());
    let ghost empty2 = AttributeData::Float32x2(Seq::empty());

    mesh.insert_attribute(
        MeshVertexAttributeId(ATTRIBUTE_POSITION),
        VertexAttributeValues::Float32x3(Vec::new()),
    );
    assert(mesh@.attributes =~= seq![(MeshVertexAttributeId(ATTRIBUTE_POSITION), empty3)]);

    mesh.insert_attribute(
        MeshVertexAttributeId(ATTRIBUTE_NORMAL),
        VertexAttributeValues::Float32x3(Vec::new()),
    );
    assert(mesh@.attributes =~= seq![
        (MeshVertexAttributeId(ATTRIBUTE_POSITION), empty3),
        (MeshVertexAttributeId(ATTRIBUTE_NORMAL), empty3),
    ]);

    mesh.insert_attribute(
        MeshVertexAttributeId(ATTRIBUTE_UV_0),
        VertexAttributeValues::Float32x2(Vec::new()),
    );
    assert(mesh@.attributes =~= seq![
        (MeshVertexAttributeId(ATTRIBUTE_POSITION), empty3),
        (MeshVertexAttributeId(ATTRIBUTE_NORMAL), empty3),
        (MeshVertexAttributeId(ATTRIBUTE_UV_0), empty2),
    ]);

    let indices: Vec<u32> = Vec::new();
    assert(Indices::U32(indices)@.values =~= Seq::empty());
    mesh.set_indices(Some(Indices::U32(indices)));
    mesh
}

/// Putting a mesh behind an empty one gives the mesh itself: where `dest`
/// has no vertex and no index, and `src` has the channels of `dest` in the
/// same encodings and no others, an index buffer of the same width and the
/// same topology, `dest` with `src` put behind it is `src`.
pub proof fn lemma_append_to_empty(dest: MeshData, src: MeshData)
    requires
        dest.wf(),
        src.wf(),
        forall|i: int| 0 <= i < dest.attributes.len() ==> (#[trigger] dest.attributes[i]).1.len() == 0,
        dest.indices matches Some(indices) && indices.values.len() == 0,
        dest.attributes.len() == src.attributes.len(),
        forall|i: int|
            0 <= i < dest.attributes.len() ==> (#[trigger] dest.attributes[i]).0
                == src.attributes[i].0 && dest.attributes[i].1.format()
                == src.attributes[i].1.format(),
        src.indices matches Some(indices) && indices.wide == dest.indices.unwrap().wide,
        dest.topology == src.topology,
    ensures
        covers(src, dest),
        appended(dest, src) == src,
{
    let joined = appended(dest, src);
    assert forall|i: int| 0 <= i < dest.attributes.len() implies src.contains(
        #[trigger] dest.attributes[i].0,
    ) && joined.attributes[i] == src.attributes[i] by {
        src.lemma_channel_at(i);
        dest.attributes[i].1.lemma_extended_from_empty(src.attributes[i].1);
    }
    assert(joined.attributes =~= src.attributes);
    assert(joined.indices.unwrap().values =~= src.indices.unwrap().values);
}

/// The indices that come from `src` are those of `src`, each raised by the
/// number of vertices that `dest` had, as long as the sums fit the width of
/// the index buffer of `dest`; the indices of `dest` stay in front of them.
pub proof fn lemma_appended_indices(dest: MeshData, src: MeshData)
    requires
        dest.indices is Some,
        src.indices is Some,
        forall|k: int|
            0 <= k < src.indices.unwrap().values.len() ==> 0 <= #[trigger] src.indices.unwrap().values[k]
                + dest.vertex_count() < dest.indices.unwrap().modulus(),
    ensures
        appended(dest, src).indices.unwrap().wide == dest.indices.unwrap().wide,
        appended(dest, src).indices.unwrap().values.len() == dest.indices.unwrap().values.len()
            + src.indices.unwrap().values.len(),
        forall|k: int|
            0 <= k < dest.indices.unwrap().values.len() ==> #[trigger] appended(
                dest,
                src,
            ).indices.unwrap().values[k] == dest.indices.unwrap().values[k],
        forall|k: int|
            0 <= k < src.indices.unwrap().values.len() ==> #[trigger] appended(
                dest,
                src,
            ).indices.unwrap().values[dest.indices.unwrap().values.len() + k]
                == src.indices.unwrap().values[k] + dest.vertex_count(),
{
    let joined = appended(dest, src).indices.unwrap().values;
    let from = dest.indices.unwrap().values.len();
    assert forall|k: int| 0 <= k < src.indices.unwrap().values.len() implies #[trigger] joined[from
        + k] == src.indices.unwrap().values[k] + dest.vertex_count() by {
        let sum = src.indices.unwrap().values[k] + dest.vertex_count();
        assert(0 <= sum < dest.indices.unwrap().modulus());
    }
}

/// Where both meshes are uniform and every channel of `dest` has the
/// encoding of the channel of `src` of the same number, `dest` with `src`
/// put behind it is uniform, and has the vertices of both.
pub proof fn lemma_appended_uniform(dest: MeshData, src: MeshData)
    requires
        dest.wf(),
        src.wf(),
        dest.uniform(),
        src.uniform(),
        covers(src, dest),
        forall|i: int|
            0 <= i < dest.attributes.len() ==> (#[trigger] dest.attributes[i]).1.format()
                == src.channel(dest.attributes[i].0).unwrap().format(),
    ensures
        appended(dest, src).uniform(),
        dest.attributes.len() > 0 ==> appended(dest, src).vertex_count() == dest.vertex_count()
            + src.vertex_count(),
{
    let joined = appended(dest, src);
    assert forall|i: int| 0 <= i < dest.attributes.len() implies (#[trigger] joined.attributes[i]).1.len()
        == dest.vertex_count() + src.vertex_count() by {
        let id = dest.attributes[i].0;
        assert(src.contains(id));
        let k = src.index_of(id);
        src.lemma_channel_at(k);
        dest.attributes[i].1.lemma_extended(src.attributes[k].1);
    }
}

} // verus!
