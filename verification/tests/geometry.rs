use spinning_quad::geometry::{
    native_image, quad_index_words, quad_layout_steps, quad_mesh, quad_vertex_words, LayoutStep,
    BYTES_PER_FLOAT, F32_HALF, F32_NEG_HALF, F32_ONE, F32_ZERO, FLOATS_PER_VERTEX,
    QUAD_VERTEX_COUNT, VERTEX_STRIDE,
};

/// The quad as floats: position, colour, texture coordinate of each corner.
fn corner_table() -> Vec<f32> {
    vec![
        0.5, 0.5, 0.0, 1.0, 0.0, 0.0, 1.0, 1.0, // top right
        0.5, -0.5, 0.0, 0.0, 1.0, 0.0, 1.0, 0.0, // bottom right
        -0.5, -0.5, 0.0, 0.0, 0.0, 1.0, 0.0, 0.0, // bottom left
        -0.5, 0.5, 0.0, 1.0, 1.0, 0.0, 0.0, 1.0, // top left
    ]
}

fn memory_bytes_of_floats(values: &[f32]) -> Vec<u8> {
    let mut bytes = Vec::new();
    for value in values {
        bytes.extend_from_slice(&value.to_ne_bytes());
    }
    bytes
}

fn memory_bytes_of_words(values: &[u32]) -> Vec<u8> {
    let mut bytes = Vec::new();
    for value in values {
        bytes.extend_from_slice(&value.to_ne_bytes());
    }
    bytes
}

#[test]
fn float_patterns_are_the_floats_they_stand_for() {
    assert_eq!(f32::from_bits(F32_ZERO), 0.0);
    assert_eq!(f32::from_bits(F32_ONE), 1.0);
    assert_eq!(f32::from_bits(F32_HALF), 0.5);
    assert_eq!(f32::from_bits(F32_NEG_HALF), -0.5);
    assert_eq!(F32_ZERO, 0.0f32.to_bits());
    assert_eq!(F32_ONE, 1.0f32.to_bits());
    assert_eq!(F32_HALF, 0.5f32.to_bits());
    assert_eq!(F32_NEG_HALF, (-0.5f32).to_bits());
}

#[test]
fn vertex_sizes_agree() {
    assert_eq!(FLOATS_PER_VERTEX, 8);
    assert_eq!(QUAD_VERTEX_COUNT, 4);
    assert_eq!(BYTES_PER_FLOAT, 4);
    assert_eq!(VERTEX_STRIDE, 32);
    assert_eq!(VERTEX_STRIDE as usize, std::mem::size_of::<[f32; 8]>());
    assert_eq!(BYTES_PER_FLOAT as usize, std::mem::size_of::<f32>());
}

#[test]
fn quad_vertex_words_are_the_corner_table() {
    let words = quad_vertex_words();
    let expected = corner_table();
    assert_eq!(words.len(), 32);
    assert_eq!(words.len(), QUAD_VERTEX_COUNT * FLOATS_PER_VERTEX);
    for (word, value) in words.iter().zip(expected.iter()) {
        assert_eq!(*word, value.to_bits());
        assert_eq!(f32::from_bits(*word), *value);
    }
}

#[test]
fn quad_vertex_positions_lie_in_the_plane() {
    let words = quad_vertex_words();
    for vertex in 0..QUAD_VERTEX_COUNT {
        let z = f32::from_bits(words[vertex * FLOATS_PER_VERTEX + 2]);
        assert_eq!(z, 0.0);
    }
}

#[test]
fn quad_indices_are_two_triangles() {
    let indices = quad_index_words();
    assert_eq!(indices, vec![0, 1, 3, 1, 2, 3]);
    assert_eq!(indices.len() % 3, 0);
}

#[test]
fn quad_indices_name_existing_vertices() {
    for index in quad_index_words() {
        assert!((index as usize) < QUAD_VERTEX_COUNT);
    }
}

#[test]
fn native_image_of_nothing_is_empty() {
    assert_eq!(native_image(&[]), Vec::<u8>::new());
}

#[test]
fn native_image_of_one_word() {
    let bytes = native_image(&[0x0102_0304]);
    assert_eq!(bytes.len(), 4);
    let little = vec![0x04, 0x03, 0x02, 0x01];
    let big = vec![0x01, 0x02, 0x03, 0x04];
    assert!(bytes == little || bytes == big);
    assert_eq!(bytes, 0x0102_0304u32.to_ne_bytes().to_vec());
}

#[test]
fn native_image_is_not_the_words_themselves() {
    let words = [3u32, 0x8000_0000, 0xFFFF_FFFF];
    let bytes = native_image(&words);
    assert_eq!(bytes.len(), 12);
    assert_ne!(bytes.len(), words.len());
    assert_eq!(&bytes[8..12], &[0xFF, 0xFF, 0xFF, 0xFF]);
    let first: [u8; 4] = [bytes[0], bytes[1], bytes[2], bytes[3]];
    assert_eq!(u32::from_ne_bytes(first), 3);
    let second: [u8; 4] = [bytes[4], bytes[5], bytes[6], bytes[7]];
    assert_eq!(u32::from_ne_bytes(second), 0x8000_0000);
}

#[test]
fn native_image_keeps_word_order() {
    let words = [0xAABB_CCDDu32, 0x0000_0001, 0x1234_5678, 0];
    assert_eq!(native_image(&words), memory_bytes_of_words(&words));
}

#[test]
fn native_image_reads_back_word_for_word() {
    let words: Vec<u32> = (0..100u32).map(|i| i.wrapping_mul(0x9E37_79B9)).collect();
    let bytes = native_image(&words);
    assert_eq!(bytes.len(), 4 * words.len());
    for (i, word) in words.iter().enumerate() {
        let group: [u8; 4] = [bytes[4 * i], bytes[4 * i + 1], bytes[4 * i + 2], bytes[4 * i + 3]];
        assert_eq!(u32::from_ne_bytes(group), *word);
    }
}

#[test]
fn quad_layout_is_three_pointers_each_followed_by_an_enable() {
    let steps = quad_layout_steps();
    assert_eq!(
        steps,
        vec![
            LayoutStep::Pointer { index: 0, components: 3, stride: 32, offset: 12 },
            LayoutStep::Enable { index: 1 },
            LayoutStep::Pointer { index: 1, components: 3, stride: 32, offset: 12 },
            LayoutStep::Enable { index: 1 },
            LayoutStep::Pointer { index: 2, components: 2, stride: 32, offset: 8 },
            LayoutStep::Enable { index: 2 },
        ]
    );
}

#[test]
fn quad_layout_sizes_come_from_float_arrays() {
    let stride = std::mem::size_of::<[f32; 8]>() as i32;
    let three = std::mem::size_of::<[f32; 3]>() as i32;
    let two = std::mem::size_of::<[f32; 2]>() as i32;
    let steps = quad_layout_steps();
    assert_eq!(steps[0], LayoutStep::Pointer { index: 0, components: 3, stride, offset: three });
    assert_eq!(steps[2], LayoutStep::Pointer { index: 1, components: 3, stride, offset: three });
    assert_eq!(steps[4], LayoutStep::Pointer { index: 2, components: 2, stride, offset: two });
}

#[test]
fn quad_layout_pointers_read_inside_one_vertex() {
    for step in quad_layout_steps() {
        if let LayoutStep::Pointer { components, stride, offset, .. } = step {
            assert!(1 <= components && components <= 4);
            assert!(0 <= offset);
            assert!(offset + components * BYTES_PER_FLOAT <= stride);
            assert_eq!(stride, VERTEX_STRIDE);
        }
    }
}

#[test]
fn quad_mesh_vertex_bytes_are_the_floats_in_memory() {
    let mesh = quad_mesh();
    assert_eq!(mesh.vertex_bytes.len(), 128);
    assert_eq!(mesh.vertex_bytes.len(), QUAD_VERTEX_COUNT * VERTEX_STRIDE as usize);
    assert_eq!(mesh.vertex_bytes, memory_bytes_of_floats(&corner_table()));
}

#[test]
fn quad_mesh_index_bytes_are_the_indices_in_memory() {
    let mesh = quad_mesh();
    assert_eq!(mesh.index_bytes.len(), 24);
    assert_eq!(mesh.index_bytes, memory_bytes_of_words(&[0, 1, 3, 1, 2, 3]));
}

#[test]
fn quad_mesh_draws_six_indices() {
    let mesh = quad_mesh();
    assert_eq!(mesh.index_count, 6);
    assert_eq!(mesh.index_bytes.len(), 4 * mesh.index_count as usize);
}

#[test]
fn quad_mesh_carries_the_quad_layout() {
    assert_eq!(quad_mesh().layout, quad_layout_steps());
}

#[test]
fn quad_mesh_is_the_same_every_time() {
    let first = quad_mesh();
    let second = quad_mesh();
    assert_eq!(first.vertex_bytes, second.vertex_bytes);
    assert_eq!(first.index_bytes, second.index_bytes);
    assert_eq!(first.layout, second.layout);
    assert_eq!(first.index_count, second.index_count);
}
