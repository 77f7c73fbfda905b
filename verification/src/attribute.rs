//! The channels of a mesh: their numbers, their encodings and their values.

use vstd::prelude::*;

verus! {

/// The number that names one attribute channel of a mesh. Channels are kept
/// and walked in the order of these numbers.
#[derive(Clone, Copy, Debug, PartialEq, Eq, Structural)]
pub struct MeshVertexAttributeId(pub usize);

/// Vertex positions, three floats each.
pub const ATTRIBUTE_POSITION: usize = 0;

/// Vertex normals, three floats each.
pub const ATTRIBUTE_NORMAL: usize = 1;

/// Texture coordinates, two floats each.
pub const ATTRIBUTE_UV_0: usize = 2;

/// Vertex tangents, four floats each.
pub const ATTRIBUTE_TANGENT: usize = 3;

/// Vertex colours, four floats each.
pub const ATTRIBUTE_COLOR: usize = 4;

/// Joint weights, four floats each.
pub const ATTRIBUTE_JOINT_WEIGHT: usize = 5;

/// Joint indices, four 16-bit unsigned integers each.
pub const ATTRIBUTE_JOINT_INDEX: usize = 6;

/// The encoding of one channel: the scalar type of its components and how
/// many of them one vertex has.
#[derive(Clone, Copy, Debug, PartialEq, Eq, Structural)]
pub enum VertexFormat {
    Float32,
    Sint32,
    Uint32,
    Float32x2,
    Sint32x2,
    Uint32x2,
    Float32x3,
    Sint32x3,
    Uint32x3,
    Float32x4,
    Sint32x4,
    Uint32x4,
    Sint16x2,
    Snorm16x2,
    Uint16x2,
    Unorm16x2,
    Sint16x4,
    Snorm16x4,
    Uint16x4,
    Unorm16x4,
    Sint8x2,
    Snorm8x2,
    Uint8x2,
    Unorm8x2,
    Sint8x4,
    Snorm8x4,
    Uint8x4,
    Unorm8x4,
}

/// What a channel is: for each encoding, the sequence of its values, one per
/// vertex. A float stands as its IEEE-754 bit pattern.
pub enum AttributeData {
    Float32(Seq<u32>),
    Sint32(Seq<i32>),
    Uint32(Seq<u32>),
    Float32x2(Seq<[u32; 2]>),
    Sint32x2(Seq<[i32; 2]>),
    Uint32x2(Seq<[u32; 2]>),
    Float32x3(Seq<[u32; 3]>),
    Sint32x3(Seq<[i32; 3]>),
    Uint32x3(Seq<[u32; 3]>),
    Float32x4(Seq<[u32; 4]>),
    Sint32x4(Seq<[i32; 4]>),
    Uint32x4(Seq<[u32; 4]>),
    Sint16x2(Seq<[i16; 2]>),
    Snorm16x2(Seq<[i16; 2]>),
    Uint16x2(Seq<[u16; 2]>),
    Unorm16x2(Seq<[u16; 2]>),
    Sint16x4(Seq<[i16; 4]>),
    Snorm16x4(Seq<[i16; 4]>),
    Uint16x4(Seq<[u16; 4]>),
    Unorm16x4(Seq<[u16; 4]>),
    Sint8x2(Seq<[i8; 2]>),
    Snorm8x2(Seq<[i8; 2]>),
    Uint8x2(Seq<[u8; 2]>),
    Unorm8x2(Seq<[u8; 2]>),
    Sint8x4(Seq<[i8; 4]>),
    Snorm8x4(Seq<[i8; 4]>),
    Uint8x4(Seq<[u8; 4]>),
    Unorm8x4(Seq<[u8; 4]>),
}

impl AttributeData {
    /// The encoding of the channel.
    pub open spec fn format(self) -> VertexFormat {
        match self {
            AttributeData::Float32(_) => VertexFormat::Float32,
            AttributeData::Sint32(_) => VertexFormat::Sint32,
            AttributeData::Uint32(_) => VertexFormat::Uint32,
            AttributeData::Float32x2(_) => VertexFormat::Float32x2,
            AttributeData::Sint32x2(_) => VertexFormat::Sint32x2,
            AttributeData::Uint32x2(_) => VertexFormat::Uint32x2,
            AttributeData::Float32x3(_) => VertexFormat::Float32x3,
            AttributeData::Sint32x3(_) => VertexFormat::Sint32x3,
            AttributeData::Uint32x3(_) => VertexFormat::Uint32x3,
            AttributeData::Float32x4(_) => VertexFormat::Float32x4,
            AttributeData::Sint32x4(_) => VertexFormat::Sint32x4,
            AttributeData::Uint32x4(_) => VertexFormat::Uint32x4,
            AttributeData::Sint16x2(_) => VertexFormat::Sint16x2,
            AttributeData::Snorm16x2(_) => VertexFormat::Snorm16x2,
            AttributeData::Uint16x2(_) => VertexFormat::Uint16x2,
            AttributeData::Unorm16x2(_) => VertexFormat::Unorm16x2,
            AttributeData::Sint16x4(_) => VertexFormat::Sint16x4,
            AttributeData::Snorm16x4(_) => VertexFormat::Snorm16x4,
            AttributeData::Uint16x4(_) => VertexFormat::Uint16x4,
            AttributeData::Unorm16x4(_) => VertexFormat::Unorm16x4,
            AttributeData::Sint8x2(_) => VertexFormat::Sint8x2,
            AttributeData::Snorm8x2(_) => VertexFormat::Snorm8x2,
            AttributeData::Uint8x2(_) => VertexFormat::Uint8x2,
            AttributeData::Unorm8x2(_) => VertexFormat::Unorm8x2,
            AttributeData::Sint8x4(_) => VertexFormat::Sint8x4,
            AttributeData::Snorm8x4(_) => VertexFormat::Snorm8x4,
            AttributeData::Uint8x4(_) => VertexFormat::Uint8x4,
            AttributeData::Unorm8x4(_) => VertexFormat::Unorm8x4,
        }
    }

    /// The number of vertices that the channel describes.
    pub open spec fn len(self) -> nat {
        match self {
            AttributeData::Float32(s) => s.len(),
            AttributeData::Sint32(s) => s.len(),
            AttributeData::Uint32(s) => s.len(),
            AttributeData::Float32x2(s) => s.len(),
            AttributeData::Sint32x2(s) => s.len(),
            AttributeData::Uint32x2(s) => s.len(),
            AttributeData::Float32x3(s) => s.len(),
            AttributeData::Sint32x3(s) => s.len(),
            AttributeData::Uint32x3(s) => s.len(),
            AttributeData::Float32x4(s) => s.len(),
            AttributeData::Sint32x4(s) => s.len(),
            AttributeData::Uint32x4(s) => s.len(),
            AttributeData::Sint16x2(s) => s.len(),
            AttributeData::Snorm16x2(s) => s.len(),
            AttributeData::Uint16x2(s) => s.len(),
            AttributeData::Unorm16x2(s) => s.len(),
            AttributeData::Sint16x4(s) => s.len(),
            AttributeData::Snorm16x4(s) => s.len(),
            AttributeData::Uint16x4(s) => s.len(),
            AttributeData::Unorm16x4(s) => s.len(),
            AttributeData::Sint8x2(s) => s.len(),
            AttributeData::Snorm8x2(s) => s.len(),
            AttributeData::Uint8x2(s) => s.len(),
            AttributeData::Unorm8x2(s) => s.len(),
            AttributeData::Sint8x4(s) => s.len(),
            AttributeData::Snorm8x4(s) => s.len(),
            AttributeData::Uint8x4(s) => s.len(),
            AttributeData::Unorm8x4(s) => s.len(),
        }
    }

    /// The channel after the values of `other` were put behind its own, which
    /// happens only where both have the same encoding.
    pub open spec fn extended(self, other: AttributeData) -> AttributeData {
        match (self, other) {
            (AttributeData::Float32(a), AttributeData::Float32(b)) => AttributeData::Float32(a + b),
            (AttributeData::Sint32(a), AttributeData::Sint32(b)) => AttributeData::Sint32(a + b),
            (AttributeData::Uint32(a), AttributeData::Uint32(b)) => AttributeData::Uint32(a + b),
            (AttributeData::Float32x2(a), AttributeData::Float32x2(b)) => AttributeData::Float32x2(a + b),
            (AttributeData::Sint32x2(a), AttributeData::Sint32x2(b)) => AttributeData::Sint32x2(a + b),
            (AttributeData::Uint32x2(a), AttributeData::Uint32x2(b)) => AttributeData::Uint32x2(a + b),
            (AttributeData::Float32x3(a), AttributeData::Float32x3(b)) => AttributeData::Float32x3(a + b),
            (AttributeData::Sint32x3(a), AttributeData::Sint32x3(b)) => AttributeData::Sint32x3(a + b),
            (AttributeData::Uint32x3(a), AttributeData::Uint32x3(b)) => AttributeData::Uint32x3(a + b),
            (AttributeData::Float32x4(a), AttributeData::Float32x4(b)) => AttributeData::Float32x4(a + b),
            (AttributeData::Sint32x4(a), AttributeData::Sint32x4(b)) => AttributeData::Sint32x4(a + b),
            (AttributeData::Uint32x4(a), AttributeData::Uint32x4(b)) => AttributeData::Uint32x4(a + b),
            (AttributeData::Sint16x2(a), AttributeData::Sint16x2(b)) => AttributeData::Sint16x2(a + b),
            (AttributeData::Snorm16x2(a), AttributeData::Snorm16x2(b)) => AttributeData::Snorm16x2(a + b),
            (AttributeData::Uint16x2(a), AttributeData::Uint16x2(b)) => AttributeData::Uint16x2(a + b),
            (AttributeData::Unorm16x2(a), AttributeData::Unorm16x2(b)) => AttributeData::Unorm16x2(a + b),
            (AttributeData::Sint16x4(a), AttributeData::Sint16x4(b)) => AttributeData::Sint16x4(a + b),
            (AttributeData::Snorm16x4(a), AttributeData::Snorm16x4(b)) => AttributeData::Snorm16x4(a + b),
            (AttributeData::Uint16x4(a), AttributeData::Uint16x4(b)) => AttributeData::Uint16x4(a + b),
            (AttributeData::Unorm16x4(a), AttributeData::Unorm16x4(b)) => AttributeData::Unorm16x4(a + b),
            (AttributeData::Sint8x2(a), AttributeData::Sint8x2(b)) => AttributeData::Sint8x2(a + b),
            (AttributeData::Snorm8x2(a), AttributeData::Snorm8x2(b)) => AttributeData::Snorm8x2(a + b),
            (AttributeData::Uint8x2(a), AttributeData::Uint8x2(b)) => AttributeData::Uint8x2(a + b),
            (AttributeData::Unorm8x2(a), AttributeData::Unorm8x2(b)) => AttributeData::Unorm8x2(a + b),
            (AttributeData::Sint8x4(a), AttributeData::Sint8x4(b)) => AttributeData::Sint8x4(a + b),
            (AttributeData::Snorm8x4(a), AttributeData::Snorm8x4(b)) => AttributeData::Snorm8x4(a + b),
            (AttributeData::Uint8x4(a), AttributeData::Uint8x4(b)) => AttributeData::Uint8x4(a + b),
            (AttributeData::Unorm8x4(a), AttributeData::Unorm8x4(b)) => AttributeData::Unorm8x4(a + b),
            _ => self,
        }
    }
}

impl AttributeData {
    /// Extending a channel keeps its encoding; it adds the lengths where the
    /// encodings agree and changes nothing where they do not.
    pub proof fn lemma_extended(self, other: AttributeData)
        ensures
            self.extended(other).format() == self.format(),
            self.format() == other.format() ==> self.extended(other).len() == self.len()
                + other.len(),
            self.format() != other.format() ==> self.extended(other) == self,
    {
    }

    /// Extending a channel without values by one of the same encoding gives
    /// that one.
    pub proof fn lemma_extended_from_empty(self, other: AttributeData)
        requires
            self.len() == 0,
            self.format() == other.format(),
        ensures
            self.extended(other) == other,
    {
        match (self, other) {
            (AttributeData::Float32(a), AttributeData::Float32(b)) => {
                assert(a + b =~= b);
            },
            (AttributeData::Sint32(a), AttributeData::Sint32(b)) => {
                assert(a + b =~= b);
            },
            (AttributeData::Uint32(a), AttributeData::Uint32(b)) => {
                assert(a + b =~= b);
            },
            (AttributeData::Float32x2(a), AttributeData::Float32x2(b)) => {
                assert(a + b =~= b);
            },
            (AttributeData::Sint32x2(a), AttributeData::Sint32x2(b)) => {
                assert(a + b =~= b);
            },
            (AttributeData::Uint32x2(a), AttributeData::Uint32x2(b)) => {
                assert(a + b =~= b);
            },
            (AttributeData::Float32x3(a), AttributeData::Float32x3(b)) => {
                assert(a + b =~= b);
            },
            (AttributeData::Sint32x3(a), AttributeData::Sint32x3(b)) => {
                assert(a + b =~= b);
            },
            (AttributeData::Uint32x3(a), AttributeData::Uint32x3(b)) => {
                assert(a + b =~= b);
            },
            (AttributeData::Float32x4(a), AttributeData::Float32x4(b)) => {
                assert(a + b =~= b);
            },
            (AttributeData::Sint32x4(a), AttributeData::Sint32x4(b)) => {
                assert(a + b =~= b);
            },
            (AttributeData::Uint32x4(a), AttributeData::Uint32x4(b)) => {
                assert(a + b =~= b);
            },
            (AttributeData::Sint16x2(a), AttributeData::Sint16x2(b)) => {
                assert(a + b =~= b);
            },
            (AttributeData::Snorm16x2(a), AttributeData::Snorm16x2(b)) => {
                assert(a + b =~= b);
            },
            (AttributeData::Uint16x2(a), AttributeData::Uint16x2(b)) => {
                assert(a + b =~= b);
            },
            (AttributeData::Unorm16x2(a), AttributeData::Unorm16x2(b)) => {
                assert(a + b =~= b);
            },
            (AttributeData::Sint16x4(a), AttributeData::Sint16x4(b)) => {
                assert(a + b =~= b);
            },
            (AttributeData::Snorm16x4(a), AttributeData::Snorm16x4(b)) => {
                assert(a + b =~= b);
            },
            (AttributeData::Uint16x4(a), AttributeData::Uint16x4(b)) => {
                assert(a + b =~= b);
            },
            (AttributeData::Unorm16x4(a), AttributeData::Unorm16x4(b)) => {
                assert(a + b =~= b);
            },
            (AttributeData::Sint8x2(a), AttributeData::Sint8x2(b)) => {
                assert(a + b =~= b);
            },
            (AttributeData::Snorm8x2(a), AttributeData::Snorm8x2(b)) => {
                assert(a + b =~= b);
            },
            (AttributeData::Uint8x2(a), AttributeData::Uint8x2(b)) => {
                assert(a + b =~= b);
            },
            (AttributeData::Unorm8x2(a), AttributeData::Unorm8x2(b)) => {
                assert(a + b =~= b);
            },
            (AttributeData::Sint8x4(a), AttributeData::Sint8x4(b)) => {
                assert(a + b =~= b);
            },
            (AttributeData::Snorm8x4(a), AttributeData::Snorm8x4(b)) => {
                assert(a + b =~= b);
            },
            (AttributeData::Uint8x4(a), AttributeData::Uint8x4(b)) => {
                assert(a + b =~= b);
            },
            (AttributeData::Unorm8x4(a), AttributeData::Unorm8x4(b)) => {
                assert(a + b =~= b);
            },
            _ => {},
        }
    }
}

/// The values of one channel, one entry per vertex. Floats are held as their
/// IEEE-754 bit patterns.
#[derive(Debug, PartialEq, Eq)]
pub enum VertexAttributeValues {
    Float32(Vec<u32>),
    Sint32(Vec<i32>),
    Uint32(Vec<u32>),
    Float32x2(Vec<[u32; 2]>),
    Sint32x2(Vec<[i32; 2]>),
    Uint32x2(Vec<[u32; 2]>),
    Float32x3(Vec<[u32; 3]>),
    Sint32x3(Vec<[i32; 3]>),
    Uint32x3(Vec<[u32; 3]>),
    Float32x4(Vec<[u32; 4]>),
    Sint32x4(Vec<[i32; 4]>),
    Uint32x4(Vec<[u32; 4]>),
    Sint16x2(Vec<[i16; 2]>),
    Snorm16x2(Vec<[i16; 2]>),
    Uint16x2(Vec<[u16; 2]>),
    Unorm16x2(Vec<[u16; 2]>),
    Sint16x4(Vec<[i16; 4]>),
    Snorm16x4(Vec<[i16; 4]>),
    Uint16x4(Vec<[u16; 4]>),
    Unorm16x4(Vec<[u16; 4]>),
    Sint8x2(Vec<[i8; 2]>),
    Snorm8x2(Vec<[i8; 2]>),
    Uint8x2(Vec<[u8; 2]>),
    Unorm8x2(Vec<[u8; 2]>),
    Sint8x4(Vec<[i8; 4]>),
    Snorm8x4(Vec<[i8; 4]>),
    Uint8x4(Vec<[u8; 4]>),
    Unorm8x4(Vec<[u8; 4]>),
}

/// A copy of `v`, element by element.
pub(crate) fn copy_vec<T: Copy>(v: &Vec<T>) -> (r: Vec<T>)
    ensures
        r@ == v@,
{
    let n: usize = v.len();
    let mut r: Vec<T> = Vec::with_capacity(n);
    let mut i: usize = 0;
    while i < n
        invariant
            i <= n,
            n == v.len(),
            r@ == v@.subrange(0, i as int),
        decreases n - i,
    {
        r.push(v[i]);
        i += 1;
    }
    r
}

/// Puts a copy of each element of `w` behind those of `v`.
pub(crate) fn extend_vec<T: Copy>(v: &mut Vec<T>, w: &Vec<T>)
    ensures
        final(v)@ == old(v)@ + w@,
{
    let n: usize = w.len();
    let mut i: usize = 0;
    while i < n
        invariant
            i <= n,
            n == w.len(),
            v@ == old(v)@ + w@.subrange(0, i as int),
        decreases n - i,
    {
        v.push(w[i]);
        i += 1;
    }
}

impl View for VertexAttributeValues {
    type V = AttributeData;

    open spec fn view(&self) -> AttributeData {
        match self {
            VertexAttributeValues::Float32(v) => AttributeData::Float32(v@),
            VertexAttributeValues::Sint32(v) => AttributeData::Sint32(v@),
            VertexAttributeValues::Uint32(v) => AttributeData::Uint32(v@),
            VertexAttributeValues::Float32x2(v) => AttributeData::Float32x2(v@),
            VertexAttributeValues::Sint32x2(v) => AttributeData::Sint32x2(v@),
            VertexAttributeValues::Uint32x2(v) => AttributeData::Uint32x2(v@),
            VertexAttributeValues::Float32x3(v) => AttributeData::Float32x3(v@),
            VertexAttributeValues::Sint32x3(v) => AttributeData::Sint32x3(v@),
            VertexAttributeValues::Uint32x3(v) => AttributeData::Uint32x3(v@),
            VertexAttributeValues::Float32x4(v) => AttributeData::Float32x4(v@),
            VertexAttributeValues::Sint32x4(v) => AttributeData::Sint32x4(v@),
            VertexAttributeValues::Uint32x4(v) => AttributeData::Uint32x4(v@),
            VertexAttributeValues::Sint16x2(v) => AttributeData::Sint16x2(v@),
            VertexAttributeValues::Snorm16x2(v) => AttributeData::Snorm16x2(v@),
            VertexAttributeValues::Uint16x2(v) => AttributeData::Uint16x2(v@),
            VertexAttributeValues::Unorm16x2(v) => AttributeData::Unorm16x2(v@),
            VertexAttributeValues::Sint16x4(v) => AttributeData::Sint16x4(v@),
            VertexAttributeValues::Snorm16x4(v) => AttributeData::Snorm16x4(v@),
            VertexAttributeValues::Uint16x4(v) => AttributeData::Uint16x4(v@),
            VertexAttributeValues::Unorm16x4(v) => AttributeData::Unorm16x4(v@),
            VertexAttributeValues::Sint8x2(v) => AttributeData::Sint8x2(v@),
            VertexAttributeValues::Snorm8x2(v) => AttributeData::Snorm8x2(v@),
            VertexAttributeValues::Uint8x2(v) => AttributeData::Uint8x2(v@),
            VertexAttributeValues::Unorm8x2(v) => AttributeData::Unorm8x2(v@),
            VertexAttributeValues::Sint8x4(v) => AttributeData::Sint8x4(v@),
            VertexAttributeValues::Snorm8x4(v) => AttributeData::Snorm8x4(v@),
            VertexAttributeValues::Uint8x4(v) => AttributeData::Uint8x4(v@),
            VertexAttributeValues::Unorm8x4(v) => AttributeData::Unorm8x4(v@),
        }
    }
}

impl VertexAttributeValues {
    /// The encoding of the channel.
    pub fn format(&self) -> (f: VertexFormat)
        ensures
            f == self@.format(),
    {
        match self {
            VertexAttributeValues::Float32(_) => VertexFormat::Float32,
            VertexAttributeValues::Sint32(_) => VertexFormat::Sint32,
            VertexAttributeValues::Uint32(_) => VertexFormat::Uint32,
            VertexAttributeValues::Float32x2(_) => VertexFormat::Float32x2,
            VertexAttributeValues::Sint32x2(_) => VertexFormat::Sint32x2,
            VertexAttributeValues::Uint32x2(_) => VertexFormat::Uint32x2,
            VertexAttributeValues::Float32x3(_) => VertexFormat::Float32x3,
            VertexAttributeValues::Sint32x3(_) => VertexFormat::Sint32x3,
            VertexAttributeValues::Uint32x3(_) => VertexFormat::Uint32x3,
            VertexAttributeValues::Float32x4(_) => VertexFormat::Float32x4,
            VertexAttributeValues::Sint32x4(_) => VertexFormat::Sint32x4,
            VertexAttributeValues::Uint32x4(_) => VertexFormat::Uint32x4,
            VertexAttributeValues::Sint16x2(_) => VertexFormat::Sint16x2,
            VertexAttributeValues::Snorm16x2(_) => VertexFormat::Snorm16x2,
            VertexAttributeValues::Uint16x2(_) => VertexFormat::Uint16x2,
            VertexAttributeValues::Unorm16x2(_) => VertexFormat::Unorm16x2,
            VertexAttributeValues::Sint16x4(_) => VertexFormat::Sint16x4,
            VertexAttributeValues::Snorm16x4(_) => VertexFormat::Snorm16x4,
            VertexAttributeValues::Uint16x4(_) => VertexFormat::Uint16x4,
            VertexAttributeValues::Unorm16x4(_) => VertexFormat::Unorm16x4,
            VertexAttributeValues::Sint8x2(_) => VertexFormat::Sint8x2,
            VertexAttributeValues::Snorm8x2(_) => VertexFormat::Snorm8x2,
            VertexAttributeValues::Uint8x2(_) => VertexFormat::Uint8x2,
            VertexAttributeValues::Unorm8x2(_) => VertexFormat::Unorm8x2,
            VertexAttributeValues::Sint8x4(_) => VertexFormat::Sint8x4,
            VertexAttributeValues::Snorm8x4(_) => VertexFormat::Snorm8x4,
            VertexAttributeValues::Uint8x4(_) => VertexFormat::Uint8x4,
            VertexAttributeValues::Unorm8x4(_) => VertexFormat::Unorm8x4,
        }
    }

    /// The number of vertices that the channel describes.
    pub fn len(&self) -> (n: usize)
        ensures
            n == self@.len(),
    {
        match self {
            VertexAttributeValues::Float32(v) => v.len(),
            VertexAttributeValues::Sint32(v) => v.len(),
            VertexAttributeValues::Uint32(v) => v.len(),
            VertexAttributeValues::Float32x2(v) => v.len(),
            VertexAttributeValues::Sint32x2(v) => v.len(),
            VertexAttributeValues::Uint32x2(v) => v.len(),
            VertexAttributeValues::Float32x3(v) => v.len(),
            VertexAttributeValues::Sint32x3(v) => v.len(),
            VertexAttributeValues::Uint32x3(v) => v.len(),
            VertexAttributeValues::Float32x4(v) => v.len(),
            VertexAttributeValues::Sint32x4(v) => v.len(),
            VertexAttributeValues::Uint32x4(v) => v.len(),
            VertexAttributeValues::Sint16x2(v) => v.len(),
            VertexAttributeValues::Snorm16x2(v) => v.len(),
            VertexAttributeValues::Uint16x2(v) => v.len(),
            VertexAttributeValues::Unorm16x2(v) => v.len(),
            VertexAttributeValues::Sint16x4(v) => v.len(),
            VertexAttributeValues::Snorm16x4(v) => v.len(),
            VertexAttributeValues::Uint16x4(v) => v.len(),
            VertexAttributeValues::Unorm16x4(v) => v.len(),
            VertexAttributeValues::Sint8x2(v) => v.len(),
            VertexAttributeValues::Snorm8x2(v) => v.len(),
            VertexAttributeValues::Uint8x2(v) => v.len(),
            VertexAttributeValues::Unorm8x2(v) => v.len(),
            VertexAttributeValues::Sint8x4(v) => v.len(),
            VertexAttributeValues::Snorm8x4(v) => v.len(),
            VertexAttributeValues::Uint8x4(v) => v.len(),
            VertexAttributeValues::Unorm8x4(v) => v.len(),
        }
    }

    /// Whether the channel describes no vertex.
    pub fn is_empty(&self) -> (b: bool)
        ensures
            b == (self@.len() == 0),
    {
        self.len() == 0
    }
}

impl Clone for VertexAttributeValues {
    fn clone(&self) -> (r: Self)
        ensures
            r@ == self@,
    {
        match self {
            VertexAttributeValues::Float32(v) => VertexAttributeValues::Float32(copy_vec(v)),
            VertexAttributeValues::Sint32(v) => VertexAttributeValues::Sint32(copy_vec(v)),
            VertexAttributeValues::Uint32(v) => VertexAttributeValues::Uint32(copy_vec(v)),
            VertexAttributeValues::Float32x2(v) => VertexAttributeValues::Float32x2(copy_vec(v)),
            VertexAttributeValues::Sint32x2(v) => VertexAttributeValues::Sint32x2(copy_vec(v)),
            VertexAttributeValues::Uint32x2(v) => VertexAttributeValues::Uint32x2(copy_vec(v)),
            VertexAttributeValues::Float32x3(v) => VertexAttributeValues::Float32x3(copy_vec(v)),
            VertexAttributeValues::Sint32x3(v) => VertexAttributeValues::Sint32x3(copy_vec(v)),
            VertexAttributeValues::Uint32x3(v) => VertexAttributeValues::Uint32x3(copy_vec(v)),
            VertexAttributeValues::Float32x4(v) => VertexAttributeValues::Float32x4(copy_vec(v)),
            VertexAttributeValues::Sint32x4(v) => VertexAttributeValues::Sint32x4(copy_vec(v)),
            VertexAttributeValues::Uint32x4(v) => VertexAttributeValues::Uint32x4(copy_vec(v)),
            VertexAttributeValues::Sint16x2(v) => VertexAttributeValues::Sint16x2(copy_vec(v)),
            VertexAttributeValues::Snorm16x2(v) => VertexAttributeValues::Snorm16x2(copy_vec(v)),
            VertexAttributeValues::Uint16x2(v) => VertexAttributeValues::Uint16x2(copy_vec(v)),
            VertexAttributeValues::Unorm16x2(v) => VertexAttributeValues::Unorm16x2(copy_vec(v)),
            VertexAttributeValues::Sint16x4(v) => VertexAttributeValues::Sint16x4(copy_vec(v)),
            VertexAttributeValues::Snorm16x4(v) => VertexAttributeValues::Snorm16x4(copy_vec(v)),
            VertexAttributeValues::Uint16x4(v) => VertexAttributeValues::Uint16x4(copy_vec(v)),
            VertexAttributeValues::Unorm16x4(v) => VertexAttributeValues::Unorm16x4(copy_vec(v)),
            VertexAttributeValues::Sint8x2(v) => VertexAttributeValues::Sint8x2(copy_vec(v)),
            VertexAttributeValues::Snorm8x2(v) => VertexAttributeValues::Snorm8x2(copy_vec(v)),
            VertexAttributeValues::Uint8x2(v) => VertexAttributeValues::Uint8x2(copy_vec(v)),
            VertexAttributeValues::Unorm8x2(v) => VertexAttributeValues::Unorm8x2(copy_vec(v)),
            VertexAttributeValues::Sint8x4(v) => VertexAttributeValues::Sint8x4(copy_vec(v)),
            VertexAttributeValues::Snorm8x4(v) => VertexAttributeValues::Snorm8x4(copy_vec(v)),
            VertexAttributeValues::Uint8x4(v) => VertexAttributeValues::Uint8x4(copy_vec(v)),
            VertexAttributeValues::Unorm8x4(v) => VertexAttributeValues::Unorm8x4(copy_vec(v)),
        }
    }
}

} // verus!
