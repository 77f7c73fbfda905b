use mesh_tools::attribute::{ATTRIBUTE_COLOR, ATTRIBUTE_NORMAL, ATTRIBUTE_POSITION, ATTRIBUTE_UV_0};
use mesh_tools::merge::{append_indices, append_values};
use mesh_tools::{
    Indices, Mesh, MeshVertexAttributeId, PrimitiveTopology, VertexAttributeValues, VertexFormat,
};

#[test]
fn a_new_mesh_has_nothing() {
    let mesh = Mesh::new(PrimitiveTopology::LineStrip);
    assert_eq!(mesh.primitive_topology(), PrimitiveTopology::LineStrip);
    assert_eq!(mesh.attribute_count(), 0);
    assert_eq!(mesh.count_vertices(), 0);
    assert_eq!(mesh.indices(), None);
    assert!(!mesh.contains_attribute(MeshVertexAttributeId(ATTRIBUTE_POSITION)));
    assert_eq!(mesh.attribute(MeshVertexAttributeId(ATTRIBUTE_POSITION)), None);
}

#[test]
fn channels_are_kept_in_the_order_of_their_numbers() {
    let mut mesh = Mesh::new(PrimitiveTopology::TriangleList);
    for id in [ATTRIBUTE_COLOR, 900, ATTRIBUTE_POSITION, ATTRIBUTE_UV_0, 17, ATTRIBUTE_NORMAL] {
        mesh.insert_attribute(
            MeshVertexAttributeId(id),
            VertexAttributeValues::Uint32(vec![id as u32, 0]),
        );
    }
    assert_eq!(mesh.attribute_count(), 6);
    let order: Vec<usize> = (0..6).map(|i| mesh.attribute_at(i).0 .0).collect();
    assert_eq!(order, vec![0, 1, 2, 4, 17, 900]);
    for i in 0..6 {
        let (id, values) = mesh.attribute_at(i);
        assert_eq!(values, &VertexAttributeValues::Uint32(vec![id.0 as u32, 0]));
        assert_eq!(mesh.attribute(id), Some(values));
        assert!(mesh.contains_attribute(id));
    }
    assert!(!mesh.contains_attribute(MeshVertexAttributeId(3)));
    assert_eq!(mesh.count_vertices(), 2);
}

#[test]
fn inserting_under_a_number_again_replaces_the_channel() {
    let mut mesh = Mesh::new(PrimitiveTopology::TriangleList);
    mesh.insert_attribute(MeshVertexAttributeId(5), VertexAttributeValues::Uint32(vec![1, 2, 3]));
    mesh.insert_attribute(MeshVertexAttributeId(2), VertexAttributeValues::Sint8x2(vec![[1, -1]]));
    mesh.insert_attribute(MeshVertexAttributeId(5), VertexAttributeValues::Float32(vec![9]));
    assert_eq!(mesh.attribute_count(), 2);
    assert_eq!(
        mesh.attribute(MeshVertexAttributeId(5)),
        Some(&VertexAttributeValues::Float32(vec![9]))
    );
    assert_eq!(
        mesh.attribute(MeshVertexAttributeId(2)),
        Some(&VertexAttributeValues::Sint8x2(vec![[1, -1]]))
    );
}

#[test]
fn channels_and_indices_can_be_changed_in_place() {
    let mut mesh = Mesh::new(PrimitiveTopology::TriangleList);
    mesh.insert_attribute(MeshVertexAttributeId(1), VertexAttributeValues::Uint16x2(vec![[1, 2]]));
    mesh.insert_attribute(MeshVertexAttributeId(4), VertexAttributeValues::Uint8x4(vec![[1; 4]]));
    assert!(mesh.indices_mut().is_none());
    mesh.set_indices(Some(Indices::U16(vec![0, 0, 0])));

    if let Some(VertexAttributeValues::Uint16x2(values)) =
        mesh.attribute_mut(MeshVertexAttributeId(1))
    {
        values.push([3, 4]);
    }
    *mesh.attribute_at_mut(1) = VertexAttributeValues::Uint8x4(vec![[2; 4], [3; 4]]);
    assert!(mesh.attribute_mut(MeshVertexAttributeId(2)).is_none());
    if let Some(Indices::U16(indices)) = mesh.indices_mut() {
        indices[2] = 1;
    }

    assert_eq!(
        mesh.attribute(MeshVertexAttributeId(1)),
        Some(&VertexAttributeValues::Uint16x2(vec![[1, 2], [3, 4]]))
    );
    assert_eq!(
        mesh.attribute(MeshVertexAttributeId(4)),
        Some(&VertexAttributeValues::Uint8x4(vec![[2; 4], [3; 4]]))
    );
    assert_eq!(mesh.indices(), Some(&Indices::U16(vec![0, 0, 1])));
    mesh.set_indices(None);
    assert_eq!(mesh.indices(), None);
}

#[test]
fn a_clone_holds_the_same_and_is_apart() {
    let mut mesh = Mesh::new(PrimitiveTopology::PointList);
    mesh.insert_attribute(MeshVertexAttributeId(0), VertexAttributeValues::Sint16x4(vec![[-1; 4]]));
    mesh.insert_attribute(MeshVertexAttributeId(3), VertexAttributeValues::Snorm8x2(vec![[-3, 3]]));
    mesh.set_indices(Some(Indices::U32(vec![0])));
    let copy = mesh.clone();
    assert_eq!(copy, mesh);
    mesh.set_indices(None);
    assert_ne!(copy, mesh);
    assert_eq!(copy.indices(), Some(&Indices::U32(vec![0])));
}

#[test]
fn values_know_their_length_and_encoding() {
    let all = vec![
        (VertexAttributeValues::Float32(vec![0; 1]), VertexFormat::Float32),
        (VertexAttributeValues::Sint32(vec![0; 2]), VertexFormat::Sint32),
        (VertexAttributeValues::Uint32(vec![0; 3]), VertexFormat::Uint32),
        (VertexAttributeValues::Float32x2(vec![[0; 2]; 4]), VertexFormat::Float32x2),
        (VertexAttributeValues::Sint32x2(vec![[0; 2]; 5]), VertexFormat::Sint32x2),
        (VertexAttributeValues::Uint32x2(vec![[0; 2]; 6]), VertexFormat::Uint32x2),
        (VertexAttributeValues::Float32x3(vec![[0; 3]; 7]), VertexFormat::Float32x3),
        (VertexAttributeValues::Sint32x3(vec![[0; 3]; 8]), VertexFormat::Sint32x3),
        (VertexAttributeValues::Uint32x3(vec![[0; 3]; 9]), VertexFormat::Uint32x3),
        (VertexAttributeValues::Float32x4(vec![[0; 4]; 10]), VertexFormat::Float32x4),
        (VertexAttributeValues::Sint32x4(vec![[0; 4]; 11]), VertexFormat::Sint32x4),
        (VertexAttributeValues::Uint32x4(vec![[0; 4]; 12]), VertexFormat::Uint32x4),
        (VertexAttributeValues::Sint16x2(vec![[0; 2]; 13]), VertexFormat::Sint16x2),
        (VertexAttributeValues::Snorm16x2(vec![[0; 2]; 14]), VertexFormat::Snorm16x2),
        (VertexAttributeValues::Uint16x2(vec![[0; 2]; 15]), VertexFormat::Uint16x2),
        (VertexAttributeValues::Unorm16x2(vec![[0; 2]; 16]), VertexFormat::Unorm16x2),
        (VertexAttributeValues::Sint16x4(vec![[0; 4]; 17]), VertexFormat::Sint16x4),
        (VertexAttributeValues::Snorm16x4(vec![[0; 4]; 18]), VertexFormat::Snorm16x4),
        (VertexAttributeValues::Uint16x4(vec![[0; 4]; 19]), VertexFormat::Uint16x4),
        (VertexAttributeValues::Unorm16x4(vec![[0; 4]; 20]), VertexFormat::Unorm16x4),
        (VertexAttributeValues::Sint8x2(vec![[0; 2]; 21]), VertexFormat::Sint8x2),
        (VertexAttributeValues::Snorm8x2(vec![[0; 2]; 22]), VertexFormat::Snorm8x2),
        (VertexAttributeValues::Uint8x2(vec![[0; 2]; 23]), VertexFormat::Uint8x2),
        (VertexAttributeValues::Unorm8x2(vec![[0; 2]; 24]), VertexFormat::Unorm8x2),
        (VertexAttributeValues::Sint8x4(vec![[0; 4]; 25]), VertexFormat::Sint8x4),
        (VertexAttributeValues::Snorm8x4(vec![[0; 4]; 26]), VertexFormat::Snorm8x4),
        (VertexAttributeValues::Uint8x4(vec![[0; 4]; 27]), VertexFormat::Uint8x4),
        (VertexAttributeValues::Unorm8x4(vec![[0; 4]; 28]), VertexFormat::Unorm8x4),
    ];
    for (k, (values, format)) in all.iter().enumerate() {
        assert_eq!(values.format(), *format);
        assert_eq!(values.len(), k + 1);
        assert!(!values.is_empty());
        assert_eq!(&values.clone(), values);
        // Behind itself a channel doubles.
        let mut twice = values.clone();
        append_values(&mut twice, values);
        assert_eq!(twice.len(), 2 * (k + 1));
        assert_eq!(twice.format(), *format);
        // Behind any other encoding nothing is put.
        let other = &all[(k + 1) % all.len()].0;
        let mut same = values.clone();
        append_values(&mut same, other);
        assert_eq!(&same, values);
    }
    assert!(VertexAttributeValues::Unorm8x4(Vec::new()).is_empty());
}

#[test]
fn values_are_put_behind_in_their_order() {
    let mut dest = VertexAttributeValues::Sint16x2(vec![[1, -2], [3, -4]]);
    append_values(&mut dest, &VertexAttributeValues::Sint16x2(vec![[5, -6], [7, -8], [9, 0]]));
    assert_eq!(
        dest,
        VertexAttributeValues::Sint16x2(vec![[1, -2], [3, -4], [5, -6], [7, -8], [9, 0]])
    );
    // Signed and normalized values of one width are different encodings.
    append_values(&mut dest, &VertexAttributeValues::Snorm16x2(vec![[1, 1]]));
    assert_eq!(dest.len(), 5);
    let mut floats = VertexAttributeValues::Float32(vec![1.5f32.to_bits()]);
    append_values(&mut floats, &VertexAttributeValues::Uint32(vec![7]));
    assert_eq!(floats, VertexAttributeValues::Float32(vec![1.5f32.to_bits()]));
    append_values(&mut floats, &VertexAttributeValues::Float32(vec![(-0.0f32).to_bits()]));
    assert_eq!(floats, VertexAttributeValues::Float32(vec![0x3fc0_0000, 0x8000_0000]));
}

#[test]
fn indices_are_raised_and_cut_to_the_width_of_the_destination() {
    let mut narrow = Indices::U16(vec![9]);
    append_indices(&mut narrow, &Indices::U32(vec![0, 65_535, 65_536, 70_000]), 3);
    assert_eq!(narrow, Indices::U16(vec![9, 3, 2, 3, 4467]));
    append_indices(&mut narrow, &Indices::U16(vec![1]), 65_536 + 65_535);
    assert_eq!(narrow, Indices::U16(vec![9, 3, 2, 3, 4467, 0]));

    let mut wide = Indices::U32(Vec::new());
    assert!(wide.is_empty());
    append_indices(&mut wide, &Indices::U16(vec![0, 65_535]), 65_536);
    append_indices(&mut wide, &Indices::U32(vec![u32::MAX]), 1);
    assert_eq!(wide, Indices::U32(vec![65_536, 131_071, 0]));
    assert_eq!(wide.len(), 3);
    assert_eq!(wide.get(1), 131_071);
    assert!(!wide.is_empty());
}
