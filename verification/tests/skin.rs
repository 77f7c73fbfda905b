use glam::{Affine3A, Mat3, Mat4, Quat, Vec3, Vec4};
use mesh_tools::attribute::{
    ATTRIBUTE_JOINT_INDEX, ATTRIBUTE_JOINT_WEIGHT, ATTRIBUTE_NORMAL, ATTRIBUTE_POSITION,
    ATTRIBUTE_UV_0,
};
use mesh_tools::{
    mesh_normals, mesh_positions, mesh_with_skinned_transform, mesh_with_transform, skin_model,
    skinned_mesh_joints, Arithmetic, Indices, Mesh, MeshVertexAttributeId, PrimitiveTopology,
    SkinBinding, Transform, VertexAttributeValues,
};
use std::cell::Cell;

fn vec3(bits: [u32; 3]) -> Vec3 {
    Vec3::from_array(bits.map(f32::from_bits))
}

fn bits3(v: Vec3) -> [u32; 3] {
    v.to_array().map(f32::to_bits)
}

fn mat4(m: &mesh_tools::Mat4) -> Mat4 {
    Mat4::from_cols(
        Vec4::from_array(m.x_axis.map(f32::from_bits)),
        Vec4::from_array(m.y_axis.map(f32::from_bits)),
        Vec4::from_array(m.z_axis.map(f32::from_bits)),
        Vec4::from_array(m.w_axis.map(f32::from_bits)),
    )
}

fn mat4_bits(m: Mat4) -> mesh_tools::Mat4 {
    mesh_tools::Mat4 {
        x_axis: m.x_axis.to_array().map(f32::to_bits),
        y_axis: m.y_axis.to_array().map(f32::to_bits),
        z_axis: m.z_axis.to_array().map(f32::to_bits),
        w_axis: m.w_axis.to_array().map(f32::to_bits),
    }
}

fn mat3(m: &mesh_tools::Mat3) -> Mat3 {
    Mat3::from_cols(vec3(m.x_axis), vec3(m.y_axis), vec3(m.z_axis))
}

fn affine(a: &mesh_tools::Affine3A) -> Affine3A {
    Affine3A::from_mat3_translation(mat3(&a.matrix3), vec3(a.translation))
}

fn affine_bits(a: Affine3A) -> mesh_tools::Affine3A {
    mesh_tools::Affine3A {
        matrix3: mesh_tools::Mat3 {
            x_axis: bits3(a.matrix3.x_axis.into()),
            y_axis: bits3(a.matrix3.y_axis.into()),
            z_axis: bits3(a.matrix3.z_axis.into()),
        },
        translation: bits3(a.translation.into()),
    }
}

fn transform(scale: Vec3, rotation: Quat, translation: Vec3) -> Transform {
    Transform {
        translation: bits3(translation),
        rotation: rotation.to_array().map(f32::to_bits),
        scale: bits3(scale),
    }
}

fn compute_matrix(t: &Transform) -> mesh_tools::Mat4 {
    mat4_bits(Mat4::from_scale_rotation_translation(
        vec3(t.scale),
        Quat::from_array(t.rotation.map(f32::from_bits)),
        vec3(t.translation),
    ))
}

fn inverse(m: &mesh_tools::Mat4) -> mesh_tools::Mat4 {
    mat4_bits(mat4(m).inverse())
}

fn transform_point3(m: &mesh_tools::Mat4, p: [u32; 3]) -> [u32; 3] {
    bits3(mat4(m).transform_point3(vec3(p)))
}

fn mul_vec3(m: &mesh_tools::Mat3, v: [u32; 3]) -> [u32; 3] {
    bits3(mat3(m).mul_vec3(vec3(v)))
}

fn normalize_or_zero(v: [u32; 3]) -> [u32; 3] {
    bits3(vec3(v).normalize_or_zero())
}

fn mul_mat4(a: &mesh_tools::Affine3A, m: &mesh_tools::Mat4) -> mesh_tools::Mat4 {
    mat4_bits(affine(a) * mat4(m))
}

fn scale(s: u32, m: &mesh_tools::Mat4) -> mesh_tools::Mat4 {
    mat4_bits(f32::from_bits(s) * mat4(m))
}

fn add(a: &mesh_tools::Mat4, b: &mesh_tools::Mat4) -> mesh_tools::Mat4 {
    mat4_bits(mat4(a) + mat4(b))
}

type Glam = Arithmetic<
    fn(&Transform) -> mesh_tools::Mat4,
    fn(&mesh_tools::Mat4) -> mesh_tools::Mat4,
    fn(&mesh_tools::Mat4, [u32; 3]) -> [u32; 3],
    fn(&mesh_tools::Mat3, [u32; 3]) -> [u32; 3],
    fn([u32; 3]) -> [u32; 3],
    fn(&mesh_tools::Affine3A, &mesh_tools::Mat4) -> mesh_tools::Mat4,
    fn(u32, &mesh_tools::Mat4) -> mesh_tools::Mat4,
    fn(&mesh_tools::Mat4, &mesh_tools::Mat4) -> mesh_tools::Mat4,
>;

/// The arithmetic of glam on bit patterns.
fn glam() -> Glam {
    Arithmetic {
        compute_matrix,
        inverse,
        transform_point3,
        mul_vec3,
        normalize_or_zero,
        mul_mat4,
        scale,
        add,
    }
}

fn weights(w: [f32; 4]) -> [u32; 4] {
    w.map(f32::to_bits)
}

fn world_of(poses: Vec<(u64, Affine3A)>) -> impl Fn(&u64) -> Option<mesh_tools::Affine3A> {
    move |joint: &u64| poses.iter().find(|(id, _)| id == joint).map(|(_, pose)| affine_bits(*pose))
}

/// A strip of ten vertices along the y axis, bound to joints 0 and 1: the
/// weight of joint 1 grows from 0 at the first vertex to 1 at the last but
/// one; vertex 5 is bound half and half.
fn strip() -> Mesh {
    let mut positions = Vec::new();
    let mut normals = Vec::new();
    let mut joint_indices = Vec::new();
    let mut joint_weights = Vec::new();
    let mut uvs = Vec::new();
    for k in 0..10u32 {
        let x = if k % 2 == 0 { 0.0f32 } else { 1.0 };
        let y = (k / 2) as f32 * 0.5;
        positions.push(bits3(Vec3::new(x, y, 0.0)));
        normals.push(bits3(Vec3::Z));
        joint_indices.push([0u16, 1, 0, 0]);
        let w = if k == 5 { 0.5f32 } else { (k as f32 / 8.0).min(1.0) };
        joint_weights.push(weights([1.0 - w, w, 0.0, 0.0]));
        uvs.push([x.to_bits(), y.to_bits()]);
    }
    let mut mesh = Mesh::new(PrimitiveTopology::TriangleStrip);
    mesh.insert_attribute(
        MeshVertexAttributeId(ATTRIBUTE_POSITION),
        VertexAttributeValues::Float32x3(positions),
    );
    mesh.insert_attribute(
        MeshVertexAttributeId(ATTRIBUTE_NORMAL),
        VertexAttributeValues::Float32x3(normals),
    );
    mesh.insert_attribute(MeshVertexAttributeId(ATTRIBUTE_UV_0), VertexAttributeValues::Float32x2(uvs));
    mesh.insert_attribute(
        MeshVertexAttributeId(ATTRIBUTE_JOINT_INDEX),
        VertexAttributeValues::Uint16x4(joint_indices),
    );
    mesh.insert_attribute(
        MeshVertexAttributeId(ATTRIBUTE_JOINT_WEIGHT),
        VertexAttributeValues::Float32x4(joint_weights),
    );
    mesh.set_indices(Some(Indices::U16((0..10).collect())));
    mesh
}

fn two_joints() -> SkinBinding<u64> {
    SkinBinding {
        joints: vec![40, 41],
        inverse_bindposes: vec![mat4_bits(Mat4::IDENTITY), mat4_bits(Mat4::IDENTITY)],
    }
}

#[test]
fn a_vertex_between_two_joints_moves_half_the_way() {
    let mesh = strip();
    let lookup = world_of(vec![
        (40, Affine3A::IDENTITY),
        (41, Affine3A::from_translation(Vec3::new(0.0, 1.0, 0.0))),
    ]);
    let out = mesh_with_skinned_transform(&mesh, &two_joints(), &lookup, &glam()).unwrap();

    let before = vec3(mesh_positions(&mesh)[5]);
    assert_eq!(before, Vec3::new(1.0, 1.0, 0.0));
    assert_eq!(vec3(mesh_positions(&out)[5]), before + Vec3::new(0.0, 0.5, 0.0));
    // Bound to joint 0 alone, the first vertex stays; bound to joint 1
    // alone, the last ones move all the way.
    assert_eq!(vec3(mesh_positions(&out)[0]), vec3(mesh_positions(&mesh)[0]));
    assert_eq!(
        vec3(mesh_positions(&out)[9]),
        vec3(mesh_positions(&mesh)[9]) + Vec3::new(0.0, 1.0, 0.0)
    );
    assert_eq!(vec3(mesh_positions(&out)[2]), Vec3::new(0.0, 0.5 + 0.25, 0.0));
    // A translation turns no normal.
    for n in mesh_normals(&out) {
        assert!((vec3(*n) - Vec3::Z).length() <= 1e-6);
    }
    // Everything else is as it was.
    assert_eq!(out.count_vertices(), 10);
    assert_eq!(out.indices(), mesh.indices());
    assert_eq!(out.primitive_topology(), PrimitiveTopology::TriangleStrip);
    for id in [ATTRIBUTE_UV_0, ATTRIBUTE_JOINT_INDEX, ATTRIBUTE_JOINT_WEIGHT] {
        assert_eq!(
            out.attribute(MeshVertexAttributeId(id)),
            mesh.attribute(MeshVertexAttributeId(id))
        );
    }
}

#[test]
fn one_joint_at_full_weight_is_the_plain_transform() {
    let mut mesh = strip();
    mesh.insert_attribute(
        MeshVertexAttributeId(ATTRIBUTE_JOINT_INDEX),
        VertexAttributeValues::Uint16x4(vec![[0; 4]; 10]),
    );
    mesh.insert_attribute(
        MeshVertexAttributeId(ATTRIBUTE_JOINT_WEIGHT),
        VertexAttributeValues::Float32x4(vec![weights([1.0, 0.0, 0.0, 0.0]); 10]),
    );
    let scale = Vec3::new(2.0, 0.5, 3.0);
    let rotation = Quat::from_rotation_z(0.4);
    let translation = Vec3::new(1.0, -1.0, 2.0);
    let pose = Affine3A::from_scale_rotation_translation(scale, rotation, translation);
    let skin = SkinBinding { joints: vec![7u64], inverse_bindposes: vec![mat4_bits(Mat4::IDENTITY)] };
    let skinned =
        mesh_with_skinned_transform(&mesh, &skin, &world_of(vec![(7, pose)]), &glam()).unwrap();
    let plain =
        mesh_with_transform(&mesh, &transform(scale, rotation, translation), &glam()).unwrap();

    assert_eq!(mesh_positions(&skinned).len(), 10);
    assert_eq!(mesh_normals(&skinned).len(), 10);
    for (p, q) in mesh_positions(&skinned).iter().zip(mesh_positions(&plain)) {
        assert!((vec3(*p) - vec3(*q)).length() <= 1e-5);
    }
    for (n, m) in mesh_normals(&skinned).iter().zip(mesh_normals(&plain)) {
        assert!((vec3(*n) - vec3(*m)).length() <= 1e-5);
    }
    assert_ne!(mesh_positions(&skinned), mesh_positions(&mesh));
    assert_eq!(skinned.indices(), plain.indices());
}

#[test]
fn an_unresolved_joint_gives_no_mesh() {
    let mesh = strip();
    let lookup = world_of(vec![(40, Affine3A::IDENTITY)]);
    assert_eq!(mesh_with_skinned_transform(&mesh, &two_joints(), &lookup, &glam()), None);
    let nothing = world_of(Vec::new());
    assert_eq!(mesh_with_skinned_transform(&mesh, &two_joints(), &nothing, &glam()), None);
}

#[test]
fn weights_are_not_renormalized() {
    let mut mesh = strip();
    mesh.insert_attribute(
        MeshVertexAttributeId(ATTRIBUTE_JOINT_WEIGHT),
        VertexAttributeValues::Float32x4(vec![weights([1.0, 1.0, 0.0, 0.0]); 10]),
    );
    let lookup = world_of(vec![
        (40, Affine3A::IDENTITY),
        (41, Affine3A::from_translation(Vec3::new(0.0, 1.0, 0.0))),
    ]);
    let out = mesh_with_skinned_transform(&mesh, &two_joints(), &lookup, &glam()).unwrap();
    // The blended matrix is twice the identity with a translation of
    // (0, 1, 0): the point (1, 1, 0) goes to (2, 3, 0).
    assert_eq!(vec3(mesh_positions(&out)[5]), Vec3::new(2.0, 3.0, 0.0));
}

#[test]
fn vertices_without_weights_are_left_where_they_are() {
    let mut mesh = strip();
    mesh.insert_attribute(
        MeshVertexAttributeId(ATTRIBUTE_JOINT_WEIGHT),
        VertexAttributeValues::Float32x4(vec![weights([0.0, 1.0, 0.0, 0.0]); 4]),
    );
    let lookup = world_of(vec![
        (40, Affine3A::IDENTITY),
        (41, Affine3A::from_rotation_x(std::f32::consts::FRAC_PI_2)),
    ]);
    let out = mesh_with_skinned_transform(&mesh, &two_joints(), &lookup, &glam()).unwrap();
    for k in 0..4 {
        assert_ne!(mesh_normals(&out)[k], mesh_normals(&mesh)[k]);
        assert!((vec3(mesh_normals(&out)[k]) - Vec3::new(0.0, -1.0, 0.0)).length() <= 1e-6);
    }
    assert_ne!(mesh_positions(&out)[3], mesh_positions(&mesh)[3]);
    for k in 4..10 {
        assert_eq!(mesh_positions(&out)[k], mesh_positions(&mesh)[k]);
        assert_eq!(mesh_normals(&out)[k], mesh_normals(&mesh)[k]);
    }
}

#[test]
fn a_mesh_without_skin_channels_is_copied() {
    let mut mesh = Mesh::new(PrimitiveTopology::TriangleList);
    mesh.insert_attribute(
        MeshVertexAttributeId(ATTRIBUTE_POSITION),
        VertexAttributeValues::Float32x3(vec![bits3(Vec3::X), bits3(Vec3::Y), bits3(Vec3::Z)]),
    );
    mesh.set_indices(Some(Indices::U32(vec![0, 1, 2])));
    let lookup = world_of(vec![
        (40, Affine3A::from_translation(Vec3::ONE)),
        (41, Affine3A::from_translation(Vec3::ONE)),
    ]);
    let out = mesh_with_skinned_transform(&mesh, &two_joints(), &lookup, &glam()).unwrap();
    assert_eq!(out, mesh);
}

#[test]
fn joint_matrices_are_world_transform_times_inverse_bindpose() {
    let skin = SkinBinding {
        joints: vec![3u64, 9, 4],
        inverse_bindposes: vec![
            mat4_bits(Mat4::from_translation(Vec3::new(1.0, 0.0, 0.0))),
            mat4_bits(Mat4::from_scale(Vec3::new(2.0, 2.0, 2.0))),
        ],
    };
    let lookup = world_of(vec![
        (9, Affine3A::from_translation(Vec3::new(0.0, 0.0, 5.0))),
        (3, Affine3A::from_scale(Vec3::new(3.0, 3.0, 3.0))),
    ]);
    // Joint 4 has no inverse bind matrix and is not looked up.
    let matrices = skinned_mesh_joints(&skin, &lookup, &glam()).unwrap();
    assert_eq!(
        matrices,
        vec![
            mat4_bits(Mat4::from_scale(Vec3::new(3.0, 3.0, 3.0)) * Mat4::from_translation(Vec3::X)),
            mat4_bits(
                Mat4::from_translation(Vec3::new(0.0, 0.0, 5.0))
                    * Mat4::from_scale(Vec3::new(2.0, 2.0, 2.0))
            ),
        ]
    );
    assert_eq!(mat4(&matrices[0]).transform_point3(Vec3::ZERO), Vec3::new(3.0, 0.0, 0.0));
}

#[test]
fn joints_behind_an_unresolved_one_are_not_looked_up() {
    let skin = SkinBinding {
        joints: vec![1u64, 2, 3, 4],
        inverse_bindposes: vec![mat4_bits(Mat4::IDENTITY); 4],
    };
    let calls = Cell::new(0u32);
    let lookup = |joint: &u64| {
        calls.set(calls.get() + 1);
        if *joint == 2 {
            None
        } else {
            Some(affine_bits(Affine3A::IDENTITY))
        }
    };
    assert_eq!(skinned_mesh_joints(&skin, &lookup, &glam()), None);
    assert_eq!(calls.get(), 2);

    let empty: SkinBinding<u64> =
        SkinBinding { joints: Vec::new(), inverse_bindposes: vec![mat4_bits(Mat4::IDENTITY)] };
    assert_eq!(skinned_mesh_joints(&empty, &lookup, &glam()), Some(Vec::new()));
}

#[test]
fn the_skin_matrix_of_a_vertex_is_the_weighted_sum() {
    let joints = vec![
        Mat4::from_translation(Vec3::new(1.0, 0.0, 0.0)),
        Mat4::from_translation(Vec3::new(0.0, 2.0, 0.0)),
        Mat4::from_translation(Vec3::new(0.0, 0.0, 4.0)),
    ];
    let joint_bits: Vec<mesh_tools::Mat4> = joints.iter().map(|m| mat4_bits(*m)).collect();
    let model =
        skin_model(&joint_bits, &[2, 0, 1, 1], &weights([0.5, 0.25, 0.125, 0.125]), &glam());
    assert_eq!(
        model,
        mat4_bits(0.5 * joints[2] + 0.25 * joints[0] + 0.125 * joints[1] + 0.125 * joints[1])
    );
    assert_eq!(mat4(&model).transform_point3(Vec3::ZERO), Vec3::new(0.25, 0.5, 2.0));
}

#[test]
fn the_weighted_sum_is_taken_from_left_to_right() {
    // An arithmetic of integers shows which function meets which value.
    fn tag(m: &mesh_tools::Mat4) -> u32 {
        m.x_axis[0]
    }
    fn tagged(t: u32) -> mesh_tools::Mat4 {
        mesh_tools::Mat4 { x_axis: [t, 0, 0, 0], y_axis: [0; 4], z_axis: [0; 4], w_axis: [0; 4] }
    }
    let marks = Arithmetic {
        compute_matrix: |_: &Transform| tagged(0),
        inverse: |m: &mesh_tools::Mat4| *m,
        transform_point3: |_: &mesh_tools::Mat4, p: [u32; 3]| p,
        mul_vec3: |_: &mesh_tools::Mat3, v: [u32; 3]| v,
        normalize_or_zero: |v: [u32; 3]| v,
        mul_mat4: |_: &mesh_tools::Affine3A, m: &mesh_tools::Mat4| *m,
        scale: |s: u32, m: &mesh_tools::Mat4| tagged(s * tag(m)),
        add: |a: &mesh_tools::Mat4, b: &mesh_tools::Mat4| tagged(10 * tag(a) + tag(b)),
    };
    let joints = vec![tagged(1), tagged(2), tagged(3)];
    // ((2 * 3 then 1 * 1) then 1 * 2) then 3 * 2, each sum as ten times the
    // left plus the right.
    let model = skin_model(&joints, &[2, 0, 1, 1], &[2, 1, 1, 3], &marks);
    assert_eq!(model, tagged(((6 * 10 + 1) * 10 + 2) * 10 + 6));
}
