use frug::frame::{plan_frame, LoadOp, PipelineKind};
use frug::geometry::{quad_indices, DrawBatch, Staging};

#[test]
fn two_colored_rects_make_two_batches() {
    let mut s: Staging<u32> = Staging::new();
    s.add_colored_quad([1, 2, 3, 4]);
    s.add_colored_quad([5, 6, 7, 8]);
    s.update_buffers();
    assert_eq!(s.vertices().len(), 8);
    assert_eq!(s.indices().len(), 12);
    assert_eq!(s.num_indices(), 12);
    assert_eq!(
        s.batches(),
        &[
            DrawBatch { index_low: 0, index_high: 6, texture: None },
            DrawBatch { index_low: 6, index_high: 12, texture: None },
        ]
    );
    assert_eq!(s.indices(), &[0, 1, 3, 1, 2, 3, 4, 5, 7, 5, 6, 7]);
    assert_eq!(s.vertices(), &[1, 2, 3, 4, 5, 6, 7, 8]);
}

#[test]
fn quad_index_layout() {
    assert_eq!(quad_indices(), [0, 1, 3, 1, 2, 3]);
}

#[test]
fn clear_empties_vertices_and_indices() {
    let mut s: Staging<u32> = Staging::new();
    s.add_colored_quad([1, 2, 3, 4]);
    s.add_textured_quad([5, 6, 7, 8], 2);
    s.update_buffers();
    s.clear();
    assert!(s.vertices().is_empty());
    assert!(s.indices().is_empty());
    assert_eq!(s.batches().len(), 2);
    assert_eq!(s.num_indices(), 12);
}

#[test]
fn clear_on_empty_staging() {
    let mut s: Staging<u32> = Staging::new();
    s.clear();
    assert!(s.vertices().is_empty());
    assert!(s.indices().is_empty());
}

#[test]
fn colored_vertices_are_offset_by_vertex_count() {
    let mut s: Staging<u32> = Staging::new();
    s.add_colored_quad([1, 2, 3, 4]);
    s.add_colored_vertices(&[10, 11, 12], &[2, 0, 1]);
    assert_eq!(&s.indices()[6..], &[6, 4, 5]);
    assert_eq!(&s.vertices()[4..], &[10, 11, 12]);
    assert_eq!(s.batches()[1], DrawBatch { index_low: 6, index_high: 9, texture: None });
    let n = s.vertices().len() as u16;
    assert!(s.indices().iter().all(|&i| i < n));
}

#[test]
fn empty_mesh_records_empty_batch() {
    let mut s: Staging<u32> = Staging::new();
    s.add_colored_quad([1, 2, 3, 4]);
    s.add_colored_vertices(&[], &[]);
    assert_eq!(s.batches()[1], DrawBatch { index_low: 6, index_high: 6, texture: None });
    assert_eq!(s.vertices().len(), 4);
}

#[test]
fn textured_quad_names_its_texture() {
    let mut s: Staging<u32> = Staging::new();
    s.add_textured_quad([1, 2, 3, 4], 3);
    assert_eq!(s.batches(), &[DrawBatch { index_low: 0, index_high: 6, texture: Some(3) }]);
}

#[test]
fn upload_is_explicit() {
    let mut s: Staging<u32> = Staging::new();
    s.add_colored_quad([1, 2, 3, 4]);
    assert_eq!(s.num_indices(), 0);
    s.update_buffers();
    assert_eq!(s.num_indices(), 6);
}

#[test]
fn taking_batches_keeps_geometry() {
    let mut s: Staging<u32> = Staging::new();
    s.add_colored_quad([1, 2, 3, 4]);
    s.add_textured_quad([5, 6, 7, 8], 0);
    let b = s.take_batches();
    assert_eq!(b.len(), 2);
    assert!(s.batches().is_empty());
    assert_eq!(s.vertices().len(), 8);
    assert_eq!(s.indices().len(), 12);
}

#[test]
fn render_plan_follows_call_order() {
    let mut s: Staging<u32> = Staging::new();
    s.add_colored_quad([1, 2, 3, 4]);
    s.add_textured_quad([5, 6, 7, 8], 1);
    s.add_colored_vertices(&[9, 10, 11], &[0, 1, 2]);
    let b = s.take_batches();
    let p = plan_frame(&b);
    assert_eq!(p.len(), 3);
    assert_eq!(p[0].load, LoadOp::Clear);
    assert_eq!(p[1].load, LoadOp::Load);
    assert_eq!(p[2].load, LoadOp::Load);
    let d: Vec<_> = p.iter().map(|x| x.draw.unwrap()).collect();
    assert_eq!((d[0].pipeline, d[0].index_low, d[0].index_high), (PipelineKind::Colored, 0, 6));
    assert_eq!((d[1].pipeline, d[1].texture, d[1].index_low), (PipelineKind::Textured, Some(1), 6));
    assert_eq!((d[2].pipeline, d[2].index_low, d[2].index_high), (PipelineKind::Colored, 12, 15));
}
