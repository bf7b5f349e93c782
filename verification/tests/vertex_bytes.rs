use klystron::vertex::{index_buffer_bytes, vertex_buffer_bytes, vertex_layout, Vertex};

#[test]
fn one_vertex_serializes_to_24_little_endian_bytes() {
    let v = Vertex::new(
        [0x0403_0201, 0x0807_0605, 0x0C0B_0A09],
        [0x1111_1111, 0x2222_2222, 0xFFEE_DDCC],
    );
    let bytes = vertex_buffer_bytes(&vec![v]);
    assert_eq!(
        bytes,
        vec![
            0x01, 0x02, 0x03, 0x04, //
            0x05, 0x06, 0x07, 0x08, //
            0x09, 0x0A, 0x0B, 0x0C, //
            0x11, 0x11, 0x11, 0x11, //
            0x22, 0x22, 0x22, 0x22, //
            0xCC, 0xDD, 0xEE, 0xFF,
        ]
    );
}

#[test]
fn vertices_serialize_in_order() {
    let a = Vertex::new([1, 0, 0], [0, 0, 0]);
    let b = Vertex::new([2, 0, 0], [0, 0, 0]);
    let bytes = vertex_buffer_bytes(&vec![a, b]);
    assert_eq!(bytes.len(), 48);
    assert_eq!(bytes[0], 1);
    assert_eq!(bytes[24], 2);
}

#[test]
fn indices_serialize_little_endian() {
    let bytes = index_buffer_bytes(&vec![0x0102, 0x0304]);
    assert_eq!(bytes, vec![0x02, 0x01, 0x04, 0x03]);
}

#[test]
fn layout_matches_the_serialization() {
    let layout = vertex_layout();
    assert_eq!(layout.stride, 24);
    assert_eq!(layout.position_offset, 0);
    assert_eq!(layout.color_offset, 12);
}
