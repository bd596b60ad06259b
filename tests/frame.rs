use frug::frame::{
    binding_table, fault_response, pipeline_for, plan_frame, FaultResponse, LoadOp, Pass,
    PipelineKind, SlotRole, SurfaceFault,
};
use frug::geometry::DrawBatch;

#[test]
fn empty_frame_is_one_clear_pass() {
    let p = plan_frame(&[]);
    assert_eq!(p, vec![Pass { load: LoadOp::Clear, draw: None }]);
}

#[test]
fn single_batch_clears_and_draws() {
    let p = plan_frame(&[DrawBatch { index_low: 0, index_high: 6, texture: None }]);
    assert_eq!(p.len(), 1);
    assert_eq!(p[0].load, LoadOp::Clear);
    assert_eq!(p[0].draw.unwrap().index_high, 6);
}

#[test]
fn binding_slots_per_pipeline() {
    assert_eq!(binding_table(PipelineKind::Textured), vec![SlotRole::Texture, SlotRole::Camera]);
    assert_eq!(binding_table(PipelineKind::Colored), vec![SlotRole::Camera]);
}

#[test]
fn pipeline_follows_texture() {
    let t = DrawBatch { index_low: 0, index_high: 6, texture: Some(0) };
    let c = DrawBatch { index_low: 0, index_high: 6, texture: None };
    assert_eq!(pipeline_for(&t), PipelineKind::Textured);
    assert_eq!(pipeline_for(&c), PipelineKind::Colored);
}

#[test]
fn fault_responses() {
    assert_eq!(fault_response(SurfaceFault::Lost), FaultResponse::Reconfigure);
    assert_eq!(fault_response(SurfaceFault::Outdated), FaultResponse::Reconfigure);
    assert_eq!(fault_response(SurfaceFault::OutOfMemory), FaultResponse::Exit);
    assert_eq!(fault_response(SurfaceFault::Timeout), FaultResponse::Skip);
}
