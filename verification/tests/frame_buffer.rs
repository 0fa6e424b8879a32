use wgpu_text::pipeline::{
    BufferUpdate, DrawCommand, Pipeline, ScissorRect, ScissorRegion, VERTICES_PER_INSTANCE,
};

#[test]
fn new_pipeline_is_empty() {
    let pipeline = Pipeline::new((256, 256));
    assert_eq!(pipeline.texture_dimensions(), (256, 256));
    assert_eq!(pipeline.vertex_buffer_len(), 0);
    assert_eq!(pipeline.vertex_count(), 0);
    assert_eq!(pipeline.draw(None), None);
}

#[test]
fn first_frame_allocates_exactly() {
    let mut pipeline = Pipeline::new((256, 256));
    assert_eq!(pipeline.update_vertex_buffer(12), BufferUpdate::Recreate { len: 12 });
    assert_eq!(pipeline.vertex_buffer_len(), 12);
    assert_eq!(pipeline.vertex_count(), 12);
}

#[test]
fn shorter_frame_writes_in_place() {
    let mut pipeline = Pipeline::new((256, 256));
    pipeline.update_vertex_buffer(12);
    assert_eq!(
        pipeline.update_vertex_buffer(5),
        BufferUpdate::Write { offset: 0, len: 5 }
    );
    assert_eq!(pipeline.vertex_buffer_len(), 12);
    assert_eq!(pipeline.vertex_count(), 5);
}

#[test]
fn frame_of_equal_length_writes_in_place() {
    let mut pipeline = Pipeline::new((256, 256));
    pipeline.update_vertex_buffer(12);
    assert_eq!(
        pipeline.update_vertex_buffer(12),
        BufferUpdate::Write { offset: 0, len: 12 }
    );
    assert_eq!(pipeline.vertex_buffer_len(), 12);
}

#[test]
fn empty_frame_writes_nothing_and_draws_nothing() {
    let mut pipeline = Pipeline::new((256, 256));
    assert_eq!(
        pipeline.update_vertex_buffer(0),
        BufferUpdate::Write { offset: 0, len: 0 }
    );
    assert_eq!(pipeline.vertex_buffer_len(), 0);
    assert_eq!(pipeline.draw(None), None);
}

#[test]
fn capacity_follows_the_largest_frame() {
    let counts: [usize; 8] = [3, 10, 4, 10, 11, 0, 7, 25];
    let mut pipeline = Pipeline::new((256, 256));
    let mut largest = 0usize;
    let mut before = 0usize;
    for n in counts {
        let update = pipeline.update_vertex_buffer(n);
        if n > before {
            assert_eq!(update, BufferUpdate::Recreate { len: n });
        } else {
            assert_eq!(update, BufferUpdate::Write { offset: 0, len: n });
        }
        largest = largest.max(n);
        assert_eq!(pipeline.vertex_buffer_len(), largest);
        assert!(pipeline.vertex_buffer_len() >= before);
        assert_eq!(pipeline.vertex_count() as usize, n);
        before = pipeline.vertex_buffer_len();
    }
    assert_eq!(before, 25);
}

#[test]
fn draw_is_one_quad_per_instance() {
    let mut pipeline = Pipeline::new((256, 256));
    pipeline.update_vertex_buffer(42);
    assert_eq!(VERTICES_PER_INSTANCE, 4);
    assert_eq!(
        pipeline.draw(None),
        Some(DrawCommand { vertices: 4, instances: 42, scissor: None })
    );
}

#[test]
fn resize_keeps_the_instance_buffer() {
    let mut pipeline = Pipeline::new((256, 256));
    pipeline.update_vertex_buffer(9);
    let layout = pipeline.resize_texture((512, 512));
    assert_eq!((layout.width, layout.height), (512, 512));
    assert_eq!(pipeline.texture_dimensions(), (512, 512));
    assert_eq!(pipeline.vertex_buffer_len(), 9);
    assert_eq!(pipeline.vertex_count(), 9);
}

#[test]
fn scissor_inside_output_is_applied_unchanged() {
    let region = ScissorRegion { x: 10, y: 20, width: 100, height: 50, out_width: 800, out_height: 600 };
    assert!(region.is_contained());
    assert_eq!(region.available_bounds(), (100, 50));
    assert_eq!(
        region.scissor_rect(),
        Some(ScissorRect { x: 10, y: 20, width: 100, height: 50 })
    );
}

#[test]
fn scissor_is_cut_to_the_output() {
    let region = ScissorRegion { x: 700, y: 500, width: 300, height: 300, out_width: 800, out_height: 600 };
    assert_eq!(region.available_bounds(), (100, 100));
    assert_eq!(
        region.scissor_rect(),
        Some(ScissorRect { x: 700, y: 500, width: 100, height: 100 })
    );
}

#[test]
fn scissor_near_the_integer_limit_does_not_overflow() {
    let region = ScissorRegion {
        x: 5,
        y: 6,
        width: u32::MAX,
        height: u32::MAX,
        out_width: 800,
        out_height: 600,
    };
    assert_eq!(region.available_bounds(), (795, 594));
}

#[test]
fn scissor_outside_output_is_not_applied() {
    let right = ScissorRegion { x: 800, y: 0, width: 10, height: 10, out_width: 800, out_height: 600 };
    let below = ScissorRegion { x: 0, y: 600, width: 10, height: 10, out_width: 800, out_height: 600 };
    assert!(!right.is_contained());
    assert!(!below.is_contained());
    assert_eq!(right.scissor_rect(), None);
    assert_eq!(below.scissor_rect(), None);
}

#[test]
fn draw_carries_the_scissor() {
    let mut pipeline = Pipeline::new((256, 256));
    pipeline.update_vertex_buffer(3);
    let inside = ScissorRegion { x: 790, y: 0, width: 20, height: 20, out_width: 800, out_height: 600 };
    let outside = ScissorRegion { x: 900, y: 0, width: 20, height: 20, out_width: 800, out_height: 600 };
    assert_eq!(
        pipeline.draw(Some(inside)),
        Some(DrawCommand {
            vertices: 4,
            instances: 3,
            scissor: Some(ScissorRect { x: 790, y: 0, width: 10, height: 20 }),
        })
    );
    assert_eq!(
        pipeline.draw(Some(outside)),
        Some(DrawCommand { vertices: 4, instances: 3, scissor: None })
    );
}
