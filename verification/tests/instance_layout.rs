use wgpu_text::vertex::{
    buffer_layout, VertexAttribute, VertexFormat, VertexStepMode, COMPONENT_SIZE,
};

#[test]
fn formats_take_four_bytes_per_component() {
    assert_eq!(COMPONENT_SIZE, 4);
    assert_eq!(VertexFormat::Float32x2.size(), 8);
    assert_eq!(VertexFormat::Float32x3.size(), 12);
    assert_eq!(VertexFormat::Float32x4.size(), 16);
}

#[test]
fn instance_record_is_packed() {
    let layout = buffer_layout();
    assert_eq!(layout.array_stride, 52);
    assert_eq!(layout.step_mode, VertexStepMode::Instance);
    assert_eq!(
        layout.attributes,
        vec![
            VertexAttribute { format: VertexFormat::Float32x3, offset: 0, shader_location: 0 },
            VertexAttribute { format: VertexFormat::Float32x2, offset: 12, shader_location: 1 },
            VertexAttribute { format: VertexFormat::Float32x2, offset: 20, shader_location: 2 },
            VertexAttribute { format: VertexFormat::Float32x2, offset: 28, shader_location: 3 },
            VertexAttribute { format: VertexFormat::Float32x4, offset: 36, shader_location: 4 },
        ]
    );
}

#[test]
fn attributes_follow_each_other_without_gaps() {
    let layout = buffer_layout();
    let mut end = 0u64;
    for (i, attribute) in layout.attributes.iter().enumerate() {
        assert_eq!(attribute.offset, end);
        assert_eq!(attribute.shader_location as usize, i);
        end += attribute.format.size();
    }
    assert_eq!(end, layout.array_stride);
}
