use vstd::prelude::*;

verus! {

/// Identity of one GPU buffer allocation. A buffer's identity, not its
/// contents, is what bind groups reference: writing new records into a buffer
/// keeps its `BufferId`, while reallocating it yields a fresh one.
#[derive(Clone, Copy, PartialEq, Eq, Structural, Debug, Hash)]
pub struct BufferId(pub u64);

/// Identity of one GPU bind group. A bind group wraps buffer identities, so
/// it must be recreated exactly when a buffer it wraps is reallocated.
#[derive(Clone, Copy, PartialEq, Eq, Structural, Debug, Hash)]
pub struct BindGroupId(pub u64);

/// Identity of one compiled render pipeline in the pipeline cache.
#[derive(Clone, Copy, PartialEq, Eq, Structural, Debug, Hash)]
pub struct PipelineId(pub u64);

/// One operation recorded into a render pass, in the order the graphics
/// backend will execute it.
#[derive(Clone, Copy, PartialEq, Eq, Debug)]
pub enum RenderPassOp {
    /// Bind the compiled render pipeline.
    SetRenderPipeline { pipeline: PipelineId },
    /// Attach a bind group to a pipeline slot, with at most one dynamic
    /// byte offset selecting a sub-region of a shared buffer.
    SetBindGroup { slot: u32, bind_group: BindGroupId, dynamic_offset: Option<u32> },
    /// Select the shared index buffer (bound whole, 32-bit indices).
    SetIndexBuffer { buffer: BufferId },
    /// Issue one indexed draw spanning indices `0 .. num_indices`, a single
    /// instance; per-cuboid multiplicity lives in the index buffer itself.
    DrawIndexed { num_indices: u32 },
}

/// A recording render pass: the ordered sequence of operations handed to the
/// graphics backend. Its view is exactly that sequence, so contracts can pin
/// down every operation a command step appends.
pub struct TrackedRenderPass {
    ops: Vec<RenderPassOp>,
}

impl View for TrackedRenderPass {
    type V = Seq<RenderPassOp>;

    closed spec fn view(&self) -> Seq<RenderPassOp> {
        self.ops@
    }
}

impl TrackedRenderPass {
    /// An empty pass with nothing recorded yet.
    pub fn new() -> (r: Self)
        ensures
            r@ == Seq::<RenderPassOp>::empty(),
    {
        TrackedRenderPass { ops: Vec::new() }
    }

    /// Record binding of the compiled pipeline.
    pub fn set_render_pipeline(&mut self, pipeline: PipelineId)
        ensures
            final(self)@ == old(self)@.push((RenderPassOp::SetRenderPipeline { pipeline })),
    {
        self.ops.push(RenderPassOp::SetRenderPipeline { pipeline });
    }

    /// Record attaching `bind_group` to `slot`, with an optional dynamic offset.
    pub fn set_bind_group(&mut self, slot: u32, bind_group: BindGroupId, dynamic_offset: Option<u32>)
        ensures
            final(self)@ == old(self)@.push(
                (RenderPassOp::SetBindGroup { slot, bind_group, dynamic_offset }),
            ),
    {
        self.ops.push(RenderPassOp::SetBindGroup { slot, bind_group, dynamic_offset });
    }

    /// Record selecting the shared index buffer.
    pub fn set_index_buffer(&mut self, buffer: BufferId)
        ensures
            final(self)@ == old(self)@.push((RenderPassOp::SetIndexBuffer { buffer })),
    {
        self.ops.push(RenderPassOp::SetIndexBuffer { buffer });
    }

    /// Record one indexed draw over indices `0 .. num_indices`.
    pub fn draw_indexed(&mut self, num_indices: u32)
        ensures
            final(self)@ == old(self)@.push((RenderPassOp::DrawIndexed { num_indices })),
    {
        self.ops.push(RenderPassOp::DrawIndexed { num_indices });
    }

    /// The operations recorded so far, oldest first.
    pub fn ops(&self) -> (r: &Vec<RenderPassOp>)
        ensures
            r@ == self@,
    {
        &self.ops
    }
}

} // verus!
