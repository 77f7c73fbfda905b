//! Tools for indexed triangle meshes: views of their channels, copies under
//! an affine transform, copies in the pose of a skeleton, and the merging of
//! two meshes into one.
//!
//! A mesh holds every float as its IEEE-754 bit pattern. The library moves
//! such patterns about and never looks into one: what a float is, it leaves
//! to the [`Arithmetic`] that its caller hands in. What it proves of a
//! transformed mesh, it proves of every arithmetic.

pub mod access;
pub mod arithmetic;
pub mod attribute;
pub mod math;
pub mod merge;
pub mod mesh;
pub mod skin;
pub mod transform;

pub use access::{
    mesh_joint_indices, mesh_joint_weights, mesh_len, mesh_normals, mesh_normals_mut,
    mesh_positions, mesh_positions_mut, mesh_uvs, mesh_uvs_mut,
};
pub use arithmetic::Arithmetic;
pub use attribute::{MeshVertexAttributeId, VertexAttributeValues, VertexFormat};
pub use math::{Affine3A, Mat3, Mat4, Transform};
pub use merge::{mesh_append, mesh_empty_default, MeshAppendError};
pub use mesh::{Indices, Mesh, PrimitiveTopology};
pub use skin::{mesh_with_skinned_transform, skin_model, skinned_mesh_joints, SkinBinding};
pub use transform::mesh_with_transform;
