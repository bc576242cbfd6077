use pebble::vertex_format::{instance_vertex_layout, skinned_vertex_layout, vertex_layout, VertexFormat, VertexStepMode};

#[test]
fn layout_matches_the_verified_byte_offsets() {
    let layout = skinned_vertex_layout();
    assert_eq!(layout.array_stride, 80);
    assert_eq!(layout.attributes.len(), 6);
    assert_eq!(layout.attributes[4].offset, 48);
    assert_eq!(layout.attributes[4].shader_location, 8);
    assert_eq!(layout.attributes[5].offset, 56);
    assert_eq!(layout.attributes[5].shader_location, 9);
    assert_eq!(layout.attributes[4].format, VertexFormat::Uint16x4);
}

#[test]
fn the_plain_vertex_layout_covers_locations_zero_to_three() {
    let layout = vertex_layout();
    assert_eq!(layout.array_stride, 48);
    assert_eq!(layout.step_mode, VertexStepMode::Vertex);
    let locations: Vec<u32> = layout.attributes.iter().map(|a| a.shader_location).collect();
    assert_eq!(locations, vec![0, 1, 2, 3]);
    let offsets: Vec<u64> = layout.attributes.iter().map(|a| a.offset).collect();
    assert_eq!(offsets, vec![0, 12, 20, 32]);
}

#[test]
fn the_instance_layout_steps_per_instance_through_four_columns() {
    let layout = instance_vertex_layout();
    assert_eq!(layout.array_stride, 64);
    assert_eq!(layout.step_mode, VertexStepMode::Instance);
    let offsets: Vec<u64> = layout.attributes.iter().map(|a| a.offset).collect();
    assert_eq!(offsets, vec![0, 16, 32, 48]);
    let locations: Vec<u32> = layout.attributes.iter().map(|a| a.shader_location).collect();
    assert_eq!(locations, vec![4, 5, 6, 7]);
}
