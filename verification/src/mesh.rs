//! The mesh: channels of per-vertex values kept in the order of their
//! numbers, and an index buffer.

use crate::attribute::{copy_vec, AttributeData, MeshVertexAttributeId, VertexAttributeValues};
use vstd::prelude::*;

verus! {

/// How the vertices of a mesh are joined into primitives.
#[derive(Clone, Copy, Debug, PartialEq, Eq, Structural)]
pub enum PrimitiveTopology {
    PointList,
    LineList,
    LineStrip,
    TriangleList,
    TriangleStrip,
}

/// The index buffer of a mesh, in one of its two widths.
#[derive(Debug, PartialEq, Eq)]
pub enum Indices {
    U16(Vec<u16>),
    U32(Vec<u32>),
}

/// What an index buffer is: its width and its indices as integers.
pub struct IndexData {
    pub wide: bool,
    pub values: Seq<int>,
}

impl IndexData {
    /// The number of values that an index of this width can take.
    pub open spec fn modulus(self) -> int {
        if self.wide {
            0x1_0000_0000
        } else {
            0x1_0000
        }
    }

    /// Every index is one that the width of the buffer can hold.
    pub open spec fn wf(self) -> bool {
        forall|i: int| 0 <= i < self.values.len() ==> 0 <= #[trigger] self.values[i] < self.modulus()
    }

    /// The buffer after the indices of `other` were put behind its own, each
    /// raised by `offset` and cut to this buffer's width.
    pub open spec fn appended(self, other: IndexData, offset: int) -> IndexData {
        IndexData {
            wide: self.wide,
            values: self.values + Seq::new(
                other.values.len(),
                |i: int| (other.values[i] + offset) % self.modulus(),
            ),
        }
    }
}

impl View for Indices {
    type V = IndexData;

    open spec fn view(&self) -> IndexData {
        match self {
            Indices::U16(v) => IndexData {
                wide: false,
                values: Seq::new(v@.len(), |i: int| v@[i] as int),
            },
            Indices::U32(v) => IndexData {
                wide: true,
                values: Seq::new(v@.len(), |i: int| v@[i] as int),
            },
        }
    }
}

impl Indices {
    /// The number of indices.
    pub fn len(&self) -> (n: usize)
        ensures
            n == self@.values.len(),
    {
        match self {
            Indices::U16(v) => v.len(),
            Indices::U32(v) => v.len(),
        }
    }

    /// Whether there is no index.
    pub fn is_empty(&self) -> (b: bool)
        ensures
            b == (self@.values.len() == 0),
    {
        self.len() == 0
    }

    /// The index at place `i`, widened.
    pub fn get(&self, i: usize) -> (r: usize)
        requires
            i < self@.values.len(),
        ensures
            r == self@.values[i as int],
    {
        match self {
            Indices::U16(v) => v[i] as usize,
            Indices::U32(v) => v[i] as usize,
        }
    }
}

impl Clone for Indices {
    fn clone(&self) -> (r: Self)
        ensures
            r@ == self@,
    {
        match self {
            Indices::U16(v) => Indices::U16(copy_vec(v)),
            Indices::U32(v) => Indices::U32(copy_vec(v)),
        }
    }
}

/// What a mesh is: its topology, its channels in the order of their
/// numbers, and its index buffer, if it has one.
pub struct MeshData {
    pub topology: PrimitiveTopology,
    pub attributes: Seq<(MeshVertexAttributeId, AttributeData)>,
    pub indices: Option<IndexData>,
}

impl MeshData {
    /// The channels stand in the strict order of their numbers, so that no
    /// number occurs twice, and the index buffer holds what its width allows.
    pub open spec fn wf(self) -> bool {
        &&& forall|i: int, j: int|
            0 <= i < j < self.attributes.len() ==> self.attributes[i].0.0 < self.attributes[j].0.0
        &&& self.indices matches Some(indices) ==> indices.wf()
    }

    /// Whether the mesh has a channel of that number.
    pub open spec fn contains(self, id: MeshVertexAttributeId) -> bool {
        exists|i: int| 0 <= i < self.attributes.len() && self.attributes[i].0 == id
    }

    /// The place of the channel of that number, where the mesh has one.
    pub open spec fn index_of(self, id: MeshVertexAttributeId) -> int {
        choose|i: int| 0 <= i < self.attributes.len() && self.attributes[i].0 == id
    }

    /// The channel of that number.
    pub open spec fn channel(self, id: MeshVertexAttributeId) -> Option<AttributeData> {
        if self.contains(id) {
            Some(self.attributes[self.index_of(id)].1)
        } else {
            None
        }
    }

    /// All channels describe the same number of vertices.
    pub open spec fn uniform(self) -> bool {
        forall|i: int, j: int|
            0 <= i < self.attributes.len() && 0 <= j < self.attributes.len()
                ==> self.attributes[i].1.len() == self.attributes[j].1.len()
    }

    /// The number of vertices of a mesh whose channels agree on it: that of
    /// its first channel, and zero where it has none.
    pub open spec fn vertex_count(self) -> nat {
        if self.attributes.len() == 0 {
            0
        } else {
            self.attributes[0].1.len()
        }
    }

    /// The mesh with the channel at place `i` replaced by `data`.
    pub open spec fn with_data_at(self, i: int, data: AttributeData) -> MeshData {
        MeshData {
            attributes: self.attributes.update(i, (self.attributes[i].0, data)),
            ..self
        }
    }

    /// In a well-formed mesh the channel found under a number is the one
    /// that stands at the place where the number stands.
    pub proof fn lemma_channel_at(self, i: int)
        requires
            self.wf(),
            0 <= i < self.attributes.len(),
        ensures
            self.contains(self.attributes[i].0),
            self.index_of(self.attributes[i].0) == i,
            self.channel(self.attributes[i].0) == Some(self.attributes[i].1),
    {
        let id = self.attributes[i].0;
        let j = self.index_of(id);
        if j < i {
            assert(self.attributes[j].0.0 < self.attributes[i].0.0);
        } else if i < j {
            assert(self.attributes[i].0.0 < self.attributes[j].0.0);
        }
    }
}

/// One channel of a mesh under its number.
#[derive(Debug, PartialEq, Eq)]
struct MeshAttribute {
    id: MeshVertexAttributeId,
    values: VertexAttributeValues,
}

/// An indexed mesh: named channels of per-vertex values, and an index buffer.
#[derive(Debug, PartialEq, Eq)]
pub struct Mesh {
    primitive_topology: PrimitiveTopology,
    attributes: Vec<MeshAttribute>,
    indices: Option<Indices>,
}

impl View for Mesh {
    type V = MeshData;

    closed spec fn view(&self) -> MeshData {
        MeshData {
            topology: self.primitive_topology,
            attributes: Seq::new(
                self.attributes@.len(),
                |i: int| (self.attributes@[i].id, self.attributes@[i].values@),
            ),
            indices: match self.indices {
                Some(ix) => Some(ix@),
                None => None,
            },
        }
    }
}

impl Mesh {
    /// A mesh of the given topology with no channel and no index buffer.
    pub fn new(primitive_topology: PrimitiveTopology) -> (mesh: Mesh)
        ensures
            mesh@ == (MeshData {
                topology: primitive_topology,
                attributes: Seq::empty(),
                indices: None,
            }),
            mesh@.wf(),
    {
        let mesh = Mesh { primitive_topology, attributes: Vec::new(), indices: None };
        assert(mesh@.attributes =~= Seq::empty());
        mesh
    }

    /// The topology of the mesh.
    pub fn primitive_topology(&self) -> (t: PrimitiveTopology)
        ensures
            t == self@.topology,
    {
        self.primitive_topology
    }

    /// The number of channels.
    pub fn attribute_count(&self) -> (n: usize)
        ensures
            n == self@.attributes.len(),
    {
        self.attributes.len()
    }

    /// The channel at place `i`, in the order of the channels' numbers.
    pub fn attribute_at(&self, i: usize) -> (r: (MeshVertexAttributeId, &VertexAttributeValues))
        requires
            i < self@.attributes.len(),
        ensures
            r.0 == self@.attributes[i as int].0,
            r.1@ == self@.attributes[i as int].1,
    {
        (self.attributes[i].id, &self.attributes[i].values)
    }

    /// The place of the channel of number `id`, or the place where a channel
    /// of that number would have to be put.
    fn find(&self, id: MeshVertexAttributeId) -> (r: (usize, bool))
        requires
            self@.wf(),
        ensures
            r.0 <= self.attributes@.len(),
            r.1 ==> r.0 < self.attributes@.len() && self.attributes@[r.0 as int].id == id,
            !r.1 ==> !self@.contains(id),
            forall|k: int| 0 <= k < r.0 ==> self.attributes@[k].id.0 < id.0,
            forall|k: int|
                r.0 <= k < self.attributes@.len() && !(r.1 && k == r.0) ==> id.0
                    < self.attributes@[k].id.0,
    {
        let n: usize = self.attributes.len();
        let mut i: usize = 0;
        while i < n
            invariant
                i <= n,
                n == self.attributes@.len(),
                self@.wf(),
                forall|k: int| 0 <= k < i ==> self.attributes@[k].id.0 < id.0,
            decreases n - i,
        {
            let here: usize = self.attributes[i].id.0;
            if here == id.0 {
                assert forall|k: int|
                    i <= k < self.attributes@.len() && k != i implies id.0
                    < self.attributes@[k].id.0 by {
                    assert(self@.attributes[i as int].0.0 < self@.attributes[k].0.0);
                }
                return (i, true);
            }
            if here > id.0 {
                assert forall|k: int| i <= k < self.attributes@.len() implies id.0
                    < self.attributes@[k].id.0 by {
                    if k > i {
                        assert(self@.attributes[i as int].0.0 < self@.attributes[k].0.0);
                    }
                }
                assert(!self@.contains(id)) by {
                    if self@.contains(id) {
                        let k = self@.index_of(id);
                        assert(self.attributes@[k].id == id);
                    }
                }
                return (i, false);
            }
            i += 1;
        }
        assert(!self@.contains(id)) by {
            if self@.contains(id) {
                let k = self@.index_of(id);
                assert(self.attributes@[k].id == id);
            }
        }
        (n, false)
    }

    /// Whether the mesh has a channel of that number.
    pub fn contains_attribute(&self, id: MeshVertexAttributeId) -> (b: bool)
        requires
            self@.wf(),
        ensures
            b == self@.contains(id),
    {
        let (i, found) = self.find(id);
        proof {
            if found {
                assert(self@.attributes[i as int].0 == id);
            }
        }
        found
    }

    /// The values of the channel of that number.
    pub fn attribute(&self, id: MeshVertexAttributeId) -> (r: Option<&VertexAttributeValues>)
        requires
            self@.wf(),
        ensures
            r is Some == self@.contains(id),
            r matches Some(v) ==> Some(v@) == self@.channel(id),
    {
        let (i, found) = self.find(id);
        if found {
            proof {
                self@.lemma_channel_at(i as int);
            }
            Some(&self.attributes[i].values)
        } else {
            None
        }
    }

    /// Sets the index buffer, or takes it away.
    pub fn set_indices(&mut self, indices: Option<Indices>)
        ensures
            final(self)@ == (MeshData {
                indices: match indices {
                    Some(ix) => Some(ix@),
                    None => None,
                },
                ..old(self)@
            }),
            old(self)@.wf() ==> final(self)@.wf(),
    {
        self.indices = indices;
    }

    /// The index buffer.
    pub fn indices(&self) -> (r: Option<&Indices>)
        ensures
            r is Some == self@.indices is Some,
            r matches Some(ix) ==> Some(ix@) == self@.indices,
    {
        self.indices.as_ref()
    }

    /// The number of vertices of a mesh whose channels agree on it.
    pub fn count_vertices(&self) -> (n: usize)
        requires
            self@.uniform(),
        ensures
            n == self@.vertex_count(),
    {
        if self.attributes.len() == 0 {
            0
        } else {
            self.attributes[0].values.len()
        }
    }

    /// The index buffer, to be changed in place.
    pub fn indices_mut(&mut self) -> (r: Option<&mut Indices>)
        ensures
            r is Some == old(self)@.indices is Some,
            r matches Some(ix) ==> Some(ix@) == old(self)@.indices && final(self)@ == (MeshData {
                indices: Some(final(ix)@),
                ..old(self)@
            }),
            r is None ==> final(self)@ == old(self)@,
            old(self)@.wf() ==> final(self)@.wf(),
    {
        let ghost before = self@;
        let ghost after = final(self)@;
        match &mut self.indices {
            Some(ix) => {
                proof {
                    assert(after.attributes =~= before.attributes);
                }
                Some(ix)
            },
            None => None,
        }
    }

    /// The values of the channel at place `i`, to be changed in place.
    pub fn attribute_at_mut(&mut self, i: usize) -> (r: &mut VertexAttributeValues)
        requires
            i < old(self)@.attributes.len(),
        ensures
            r@ == old(self)@.attributes[i as int].1,
            final(self)@ == old(self)@.with_data_at(i as int, final(r)@),
            old(self)@.wf() ==> final(self)@.wf(),
    {
        let ghost before = self@;
        let ghost after = final(self)@;
        let r = &mut self.attributes[i].values;
        proof {
            assert(after.attributes =~= before.attributes.update(
                i as int,
                (before.attributes[i as int].0, final(r)@),
            ));
        }
        r
    }

    /// Puts a channel under the number `id`, in place of the one that the
    /// mesh had under that number, if it had one.
    pub fn insert_attribute(&mut self, id: MeshVertexAttributeId, values: VertexAttributeValues)
        requires
            old(self)@.wf(),
        ensures
            final(self)@.wf(),
            final(self)@.topology == old(self)@.topology,
            final(self)@.indices == old(self)@.indices,
            final(self)@.channel(id) == Some(values@),
            forall|other: MeshVertexAttributeId|
                other != id ==> final(self)@.channel(other) == old(self)@.channel(other),
            old(self)@.contains(id) ==> final(self)@.attributes == old(self)@.attributes.update(
                old(self)@.index_of(id),
                (id, values@),
            ),
            !old(self)@.contains(id) ==> exists|k: int|
                0 <= k <= old(self)@.attributes.len() && final(self)@.attributes == old(
                    self,
                )@.attributes.insert(k, (id, values@)),
    {
        let ghost before = self@;
        let ghost data = values@;
        let (i, found) = self.find(id);
        if found {
            self.attributes[i].values = values;
            proof {
                let after = self@;
                assert(after.attributes =~= before.attributes.update(i as int, (id, data)));
                before.lemma_channel_at(i as int);
                after.lemma_channel_at(i as int);
                assert forall|other: MeshVertexAttributeId| other != id implies after.channel(other)
                    == before.channel(other) by {
                    if before.contains(other) {
                        let k = before.index_of(other);
                        before.lemma_channel_at(k);
                        after.lemma_channel_at(k);
                    } else if after.contains(other) {
                        let k = after.index_of(other);
                        assert(before.attributes[k].0 == other);
                    }
                }
            }
        } else {
            self.attributes.insert(i, MeshAttribute { id, values });
            proof {
                let after = self@;
                assert(after.attributes =~= before.attributes.insert(i as int, (id, data)));
                assert(after.wf()) by {
                    assert forall|a: int, b: int| 0 <= a < b < after.attributes.len() implies
                        after.attributes[a].0.0 < after.attributes[b].0.0 by {
                        let a0 = if a < i { a } else { a - 1 };
                        let b0 = if b < i { b } else { b - 1 };
                        if a != i && b != i {
                            assert(before.attributes[a0].0.0 < before.attributes[b0].0.0);
                        }
                    }
                }
                after.lemma_channel_at(i as int);
                assert forall|other: MeshVertexAttributeId| other != id implies after.channel(other)
                    == before.channel(other) by {
                    if before.contains(other) {
                        let k = before.index_of(other);
                        before.lemma_channel_at(k);
                        let k1 = if k < i { k } else { k + 1 };
                        after.lemma_channel_at(k1);
                    } else if after.contains(other) {
                        let k = after.index_of(other);
                        let k0 = if k < i { k } else { k - 1 };
                        assert(before.attributes[k0].0 == other);
                    }
                }
            }
        }
    }

    /// The values of the channel of that number, to be changed in place.
    pub fn attribute_mut(&mut self, id: MeshVertexAttributeId) -> (r: Option<
        &mut VertexAttributeValues,
    >)
        requires
            old(self)@.wf(),
        ensures
            r is Some == old(self)@.contains(id),
            r matches Some(v) ==> Some(v@) == old(self)@.channel(id) && final(self)@ == old(
                self,
            )@.with_data_at(old(self)@.index_of(id), final(v)@),
            r is None ==> final(self)@ == old(self)@,
            final(self)@.wf(),
    {
        let (i, found) = self.find(id);
        if found {
            proof {
                self@.lemma_channel_at(i as int);
            }
            Some(self.attribute_at_mut(i))
        } else {
            None
        }
    }
}

impl Clone for Mesh {
    fn clone(&self) -> (r: Self)
        ensures
            r@ == self@,
    {
        let n: usize = self.attributes.len();
        let mut attributes: Vec<MeshAttribute> = Vec::with_capacity(n);
        let mut i: usize = 0;
        while i < n
            invariant
                i <= n,
                n == self.attributes@.len(),
                attributes@.len() == i,
                forall|k: int|
                    0 <= k < i ==> attributes@[k].id == self.attributes@[k].id
                        && attributes@[k].values@ == self.attributes@[k].values@,
            decreases n - i,
        {
            attributes.push(
                MeshAttribute { id: self.attributes[i].id, values: self.attributes[i].values.clone() },
            );
            i += 1;
        }
        let indices = match &self.indices {
            Some(ix) => Some(ix.clone()),
            None => None,
        };
        let r = Mesh { primitive_topology: self.primitive_topology, attributes, indices };
        assert(r@.attributes =~= self@.attributes);
        r
    }
}

} // verus!
