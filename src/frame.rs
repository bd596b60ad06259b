use vstd::prelude::*;
use crate::geometry::DrawBatch;

verus! {

/// What a render pass does with the color attachment before drawing.
#[derive(Clone, Copy, Debug, PartialEq, Eq, Structural)]
pub enum LoadOp {
    /// Fill it with the background color.
    Clear,
    /// Keep what earlier passes drew.
    Load,
}

/// The two draw pipelines.
#[derive(Clone, Copy, Debug, PartialEq, Eq, Structural)]
pub enum PipelineKind {
    /// Texture sampled, alpha blended.
    Textured,
    /// Vertex colors, drawn opaque.
    Colored,
}

/// What a bind-group slot of a pipeline holds.
#[derive(Clone, Copy, Debug, PartialEq, Eq, Structural)]
pub enum SlotRole {
    /// The texture and its sampler.
    Texture,
    /// The camera's view-projection uniform.
    Camera,
}

/// The roles of a pipeline's bind-group slots, slot 0 first.
pub open spec fn binding_table_spec(kind: PipelineKind) -> Seq<SlotRole> {
    match kind {
        PipelineKind::Textured => seq![SlotRole::Texture, SlotRole::Camera],
        PipelineKind::Colored => seq![SlotRole::Camera],
    }
}

/// The bind-group slots of `kind`, slot 0 first.
pub fn binding_table(kind: PipelineKind) -> (r: Vec<SlotRole>)
    ensures
        r@ == binding_table_spec(kind),
{
    let mut r: Vec<SlotRole> = Vec::new();
    match kind {
        PipelineKind::Textured => {
            r.push(SlotRole::Texture);
            r.push(SlotRole::Camera);
        },
        PipelineKind::Colored => {
            r.push(SlotRole::Camera);
        },
    }
    assert(r@ =~= binding_table_spec(kind));
    r
}

/// One indexed draw over `[index_low, index_high)` of the shared buffers.
#[derive(Clone, Copy, Debug, PartialEq, Eq, Structural)]
pub struct DrawCall {
    pub pipeline: PipelineKind,
    pub texture: Option<usize>,
    pub index_low: u32,
    pub index_high: u32,
}

/// One render pass over the frame's color target, with at most one draw.
#[derive(Clone, Copy, Debug, PartialEq, Eq, Structural)]
pub struct Pass {
    pub load: LoadOp,
    pub draw: Option<DrawCall>,
}

/// The pipeline of a batch: textured exactly when it names a texture.
pub open spec fn pipeline_of(b: DrawBatch) -> PipelineKind {
    if b.texture.is_some() {
        PipelineKind::Textured
    } else {
        PipelineKind::Colored
    }
}

/// The draw that renders a batch.
pub open spec fn draw_of(b: DrawBatch) -> DrawCall {
    DrawCall {
        pipeline: pipeline_of(b),
        texture: b.texture,
        index_low: b.index_low,
        index_high: b.index_high,
    }
}

/// The first pass of a frame clears; every later one composites.
pub open spec fn load_at(i: int) -> LoadOp {
    if i == 0 {
        LoadOp::Clear
    } else {
        LoadOp::Load
    }
}

/// The passes of a frame: one per batch, in batch order, or a single
/// clear-only pass when there is no batch.
pub open spec fn plan_spec(batches: Seq<DrawBatch>) -> Seq<Pass> {
    if batches.len() == 0 {
        seq![Pass { load: LoadOp::Clear, draw: None }]
    } else {
        Seq::new(batches.len(), |i: int| Pass { load: load_at(i), draw: Some(draw_of(batches[i])) })
    }
}

/// The pipeline a batch is drawn with.
pub fn pipeline_for(b: &DrawBatch) -> (r: PipelineKind)
    ensures
        r == pipeline_of(*b),
{
    match b.texture {
        Some(_) => PipelineKind::Textured,
        None => PipelineKind::Colored,
    }
}

/// The render passes that draw `batches` in order onto a target cleared to
/// the background color.
pub fn plan_frame(batches: &[DrawBatch]) -> (r: Vec<Pass>)
    ensures
        r@ == plan_spec(batches@),
{
    let mut r: Vec<Pass> = Vec::new();
    if batches.len() == 0 {
        r.push(Pass { load: LoadOp::Clear, draw: None });
        assert(r@ =~= plan_spec(batches@));
        return r;
    }
    let mut load = LoadOp::Clear;
    let mut i: usize = 0;
    while i < batches.len()
        invariant
            i <= batches@.len(),
            batches@.len() > 0,
            load == load_at(i as int),
            r@ =~= plan_spec(batches@).take(i as int),
        decreases batches@.len() - i,
    {
        let b = batches[i];
        let call = DrawCall {
            pipeline: pipeline_for(&b),
            texture: b.texture,
            index_low: b.index_low,
            index_high: b.index_high,
        };
        r.push(Pass { load, draw: Some(call) });
        load = LoadOp::Load;
        i = i + 1;
    }
    assert(r@ =~= plan_spec(batches@));
    r
}

/// A frame of `n` batches is drawn by exactly `n` passes, each with one
/// draw of the batch at its position; the first pass clears and the others
/// load. Without batches there is one pass, which clears and draws nothing.
pub proof fn lemma_plan_follows_batches(batches: Seq<DrawBatch>)
    ensures
        batches.len() == 0 ==> plan_spec(batches) == seq![Pass { load: LoadOp::Clear, draw: None }],
        batches.len() > 0 ==> {
            let p = plan_spec(batches);
            &&& p.len() == batches.len()
            &&& p[0].load == LoadOp::Clear
            &&& forall|i: int| 0 < i < p.len() ==> (#[trigger] p[i]).load == LoadOp::Load
            &&& forall|i: int|
                0 <= i < p.len() ==> (#[trigger] p[i]).draw == Some(draw_of(batches[i]))
        },
{
}

/// Ways in which acquiring the frame's target can fail.
#[derive(Clone, Copy, Debug, PartialEq, Eq, Structural)]
pub enum SurfaceFault {
    Timeout,
    Outdated,
    Lost,
    OutOfMemory,
}

/// What the run loop does after a failed frame.
#[derive(Clone, Copy, Debug, PartialEq, Eq, Structural)]
pub enum FaultResponse {
    /// Configure the surface again with the last known size; the next frame
    /// retries.
    Reconfigure,
    /// Stop the run loop.
    Exit,
    /// Report the fault and go on with the next frame.
    Skip,
}

pub open spec fn fault_response_spec(f: SurfaceFault) -> FaultResponse {
    match f {
        SurfaceFault::Lost | SurfaceFault::Outdated => FaultResponse::Reconfigure,
        SurfaceFault::OutOfMemory => FaultResponse::Exit,
        SurfaceFault::Timeout => FaultResponse::Skip,
    }
}

/// The response to a failed frame: a lost or outdated surface is configured
/// again, running out of memory ends the loop, anything else skips the frame.
pub fn fault_response(f: SurfaceFault) -> (r: FaultResponse)
    ensures
        r == fault_response_spec(f),
{
    match f {
        SurfaceFault::Lost | SurfaceFault::Outdated => FaultResponse::Reconfigure,
        SurfaceFault::OutOfMemory => FaultResponse::Exit,
        SurfaceFault::Timeout => FaultResponse::Skip,
    }
}

} // verus!
