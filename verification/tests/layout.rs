use imgui_opengl::layout::{
    encode_indices, encode_vertices, Vertex, COLOR_OFFSET, INDEX_SIZE, POSITION_OFFSET, UV_OFFSET,
    VERTEX_SIZE,
};

fn vertex(pos: [f32; 2], uv: [f32; 2], col: [u8; 4]) -> Vertex {
    Vertex {
        pos: [pos[0].to_bits(), pos[1].to_bits()],
        uv: [uv[0].to_bits(), uv[1].to_bits()],
        col,
    }
}

#[test]
fn encode_indices_is_little_endian() {
    assert_eq!(encode_indices(&vec![0x0102, 0xfffe]), vec![0x02, 0x01, 0xfe, 0xff]);
}

#[test]
fn encode_indices_of_nothing_is_empty() {
    assert_eq!(encode_indices(&Vec::new()), Vec::<u8>::new());
}

#[test]
fn encode_indices_keeps_order_and_size() {
    let indices: Vec<u16> = (0..1000).collect();
    let bytes = encode_indices(&indices);
    assert_eq!(bytes.len(), indices.len() * INDEX_SIZE);
    for (i, index) in indices.iter().enumerate() {
        assert_eq!(bytes[i * INDEX_SIZE..(i + 1) * INDEX_SIZE], index.to_le_bytes());
    }
}

#[test]
fn encode_vertices_of_nothing_is_empty() {
    let none: Vec<Vertex> = Vec::new();
    assert_eq!(encode_vertices(&none), Vec::<u8>::new());
}

#[test]
fn encode_vertices_writes_exact_bytes() {
    let v = Vertex { pos: [0x0403_0201, 0x0807_0605], uv: [0x0c0b_0a09, 0x100f_0e0d], col: [17, 18, 19, 20] };
    let expected: Vec<u8> = (1..=20).collect();
    assert_eq!(encode_vertices(&vec![v]), expected);
}

#[test]
fn encode_vertices_places_fields_at_their_offsets() {
    let v = vertex([1.5, -2.0], [0.25, 1.0], [255, 128, 0, 64]);
    let bytes = encode_vertices(&vec![v]);
    assert_eq!(bytes.len(), VERTEX_SIZE);
    assert_eq!(bytes[POSITION_OFFSET..POSITION_OFFSET + 4], 1.5f32.to_le_bytes());
    assert_eq!(bytes[POSITION_OFFSET + 4..POSITION_OFFSET + 8], (-2.0f32).to_le_bytes());
    assert_eq!(bytes[UV_OFFSET..UV_OFFSET + 4], 0.25f32.to_le_bytes());
    assert_eq!(bytes[UV_OFFSET + 4..UV_OFFSET + 8], 1.0f32.to_le_bytes());
    assert_eq!(bytes[COLOR_OFFSET..COLOR_OFFSET + 4], [255, 128, 0, 64]);
}

#[test]
fn encode_vertices_places_each_vertex_at_its_stride() {
    let vertices = vec![
        vertex([0.0, 0.0], [0.0, 0.0], [1, 2, 3, 4]),
        vertex([10.0, 20.0], [0.5, 0.5], [5, 6, 7, 8]),
        vertex([-1.0, 3.25], [1.0, 0.0], [9, 10, 11, 12]),
    ];
    let bytes = encode_vertices(&vertices);
    assert_eq!(bytes.len(), 3 * VERTEX_SIZE);
    for (i, v) in vertices.iter().enumerate() {
        assert_eq!(
            bytes[i * VERTEX_SIZE..(i + 1) * VERTEX_SIZE],
            encode_vertices(&vec![*v])[..]
        );
    }
}

#[test]
fn encode_vertices_keeps_bit_patterns_that_are_no_numbers() {
    let v = Vertex { pos: [0x7fc0_0001, 0xffff_ffff], uv: [0x8000_0000, 0x0000_0001], col: [0; 4] };
    let bytes = encode_vertices(&vec![v]);
    assert_eq!(bytes[0..4], [0x01, 0x00, 0xc0, 0x7f]);
    assert_eq!(bytes[4..8], [0xff; 4]);
    assert_eq!(bytes[8..12], [0x00, 0x00, 0x00, 0x80]);
    assert_eq!(bytes[12..16], [0x01, 0x00, 0x00, 0x00]);
}

#[test]
fn layout_is_that_of_the_gui_library() {
    assert_eq!(VERTEX_SIZE, std::mem::size_of::<imgui::DrawVert>());
    assert_eq!(INDEX_SIZE, std::mem::size_of::<imgui::DrawIdx>());
    assert_eq!(UV_OFFSET - POSITION_OFFSET, std::mem::size_of::<[f32; 2]>());
    assert_eq!(COLOR_OFFSET - UV_OFFSET, std::mem::size_of::<[f32; 2]>());
    assert_eq!(VERTEX_SIZE - COLOR_OFFSET, std::mem::size_of::<[u8; 4]>());
}
