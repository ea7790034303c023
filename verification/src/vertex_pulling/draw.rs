use vstd::prelude::*;

use crate::vertex_pulling::buffer_cache::BufferCache;
use crate::vertex_pulling::index_buffer::{num_indices_for_cuboids, CuboidsIndexBuffer};
use crate::vertex_pulling::pipeline::{CuboidsPipeline, PipelineCache};
use crate::vertex_pulling::render_resource::{BindGroupId, RenderPassOp, TrackedRenderPass};

verus! {

/// Slot of the per-view camera uniforms; the slot numbers are a fixed
/// contract with the shader's bind-group layout.
pub const VIEW_BIND_GROUP_SLOT: u32 = 0;

/// Slot of the global clipping-plane uniforms.
pub const CLIPPING_PLANES_BIND_GROUP_SLOT: u32 = 1;

/// Slot of the shared transform buffer, selected per entity by dynamic offset.
pub const TRANSFORM_BIND_GROUP_SLOT: u32 = 2;

/// Slot of the entity's instance-data buffer, bound whole.
pub const INSTANCE_BIND_GROUP_SLOT: u32 = 3;

/// Outcome of one render-command step: failure aborts this entity's draw for
/// this frame only — siblings and later frames are untouched.
#[derive(Clone, Copy, PartialEq, Eq, Structural, Debug)]
pub enum RenderCommandResult {
    Success,
    Failure,
}

/// Per-view, per-frame resources: the camera bind group. It is `None` until
/// this frame's resource preparation populates it; the draw commands require
/// population, since drawing from an unpopulated view is an ordering
/// violation of the frame's phase barrier, not a recoverable condition.
pub struct ViewMeta {
    pub cuboids_view_bind_group: Option<BindGroupId>,
}

impl Default for ViewMeta {
    /// The state before any frame populated the view resources.
    fn default() -> (r: Self)
        ensures
            r.cuboids_view_bind_group is None,
    {
        ViewMeta { cuboids_view_bind_group: None }
    }
}

/// The global clipping-planes bind group of the frame; `None` before the
/// frame's resource preparation, exactly like `ViewMeta`.
pub struct ClippingPlanesMeta {
    pub bind_group: Option<BindGroupId>,
}

impl Default for ClippingPlanesMeta {
    /// The state before any frame populated the clipping resources.
    fn default() -> (r: Self)
        ensures
            r.bind_group is None,
    {
        ClippingPlanesMeta { bind_group: None }
    }
}

/// Step 1 of the chain: bind the compiled cuboids pipeline, or abort this
/// entity's draw for the frame if compilation has not finished.
pub struct SetCuboidsPipeline;

impl SetCuboidsPipeline {
    /// Records the pipeline bind and succeeds exactly when the pipeline cache
    /// holds the compiled pipeline; otherwise the pass is left untouched.
    pub fn render(
        pipeline_cache: &PipelineCache,
        cuboids_pipeline: &CuboidsPipeline,
        pass: &mut TrackedRenderPass,
    ) -> (r: RenderCommandResult)
        ensures
            pipeline_cache.ready_view().contains(cuboids_pipeline.pipeline_id) ==> (
                r is Success
                && final(pass)@ == old(pass)@.push(
                    (RenderPassOp::SetRenderPipeline { pipeline: cuboids_pipeline.pipeline_id }),
                )
            ),
            !pipeline_cache.ready_view().contains(cuboids_pipeline.pipeline_id) ==> (
                r is Failure && final(pass)@ == old(pass)@
            ),
    {
        if let Some(pipeline) = pipeline_cache.get_render_pipeline(cuboids_pipeline.pipeline_id) {
            pass.set_render_pipeline(pipeline);
            RenderCommandResult::Success
        } else {
            RenderCommandResult::Failure
        }
    }
}

/// Step 2: bind the camera/view uniforms with the view's dynamic uniform
/// offset.
pub struct SetCuboidsViewBindGroup;

impl SetCuboidsViewBindGroup {
    /// Requires the frame to have populated the view meta — drawing first is
    /// the fatal ordering violation the phase barrier rules out.
    pub fn render(
        slot: u32,
        view_uniform_offset: u32,
        view_meta: &ViewMeta,
        pass: &mut TrackedRenderPass,
    ) -> (r: RenderCommandResult)
        requires
            view_meta.cuboids_view_bind_group is Some,
        ensures
            r is Success,
            final(pass)@ == old(pass)@.push(
                (RenderPassOp::SetBindGroup {
                    slot,
                    bind_group: view_meta.cuboids_view_bind_group.unwrap(),
                    dynamic_offset: Some(view_uniform_offset),
                }),
            ),
    {
        let bind_group = view_meta.cuboids_view_bind_group.unwrap();
        pass.set_bind_group(slot, bind_group, Some(view_uniform_offset));
        RenderCommandResult::Success
    }
}

/// Step 3: bind the global clipping-plane uniforms.
pub struct SetClippingPlanesBindGroup;

impl SetClippingPlanesBindGroup {
    /// Requires the frame to have populated the clipping meta.
    pub fn render(
        slot: u32,
        clipping_meta: &ClippingPlanesMeta,
        pass: &mut TrackedRenderPass,
    ) -> (r: RenderCommandResult)
        requires
            clipping_meta.bind_group is Some,
        ensures
            r is Success,
            final(pass)@ == old(pass)@.push(
                (RenderPassOp::SetBindGroup {
                    slot,
                    bind_group: clipping_meta.bind_group.unwrap(),
                    dynamic_offset: None,
                }),
            ),
    {
        let bind_group = clipping_meta.bind_group.unwrap();
        pass.set_bind_group(slot, bind_group, None);
        RenderCommandResult::Success
    }
}

/// Step 4: bind the shared transform buffer, selecting this entity's
/// transform through the dynamic offset stored in its cache entry.
pub struct SetGpuTransformBufferBindGroup;

impl SetGpuTransformBufferBindGroup {
    /// Requires the entity to have been prepared this frame and the frame's
    /// transform bind group to have been built.
    pub fn render(
        slot: u32,
        item: u64,
        buffer_cache: &BufferCache,
        pass: &mut TrackedRenderPass,
    ) -> (r: RenderCommandResult)
        requires
            buffer_cache@.entries.contains_key(item),
            buffer_cache@.transform_bind_group is Some,
        ensures
            r is Success,
            final(pass)@ == old(pass)@.push(
                (RenderPassOp::SetBindGroup {
                    slot,
                    bind_group: BindGroupId(buffer_cache@.transform_bind_group.unwrap() as u64),
                    dynamic_offset: Some(buffer_cache@.entries[item].transform_index as u32),
                }),
            ),
    {
        let entry = buffer_cache.get(item).unwrap();
        let bind_group = buffer_cache.transform_buffer_bind_group().unwrap();
        pass.set_bind_group(slot, bind_group, Some(entry.buffers().transform_index));
        RenderCommandResult::Success
    }
}

/// Step 5: bind the entity's instance-data buffer, whole, with no offset.
pub struct SetGpuCuboidBuffersBindGroup;

impl SetGpuCuboidBuffersBindGroup {
    /// Requires the entity to have been prepared this frame.
    pub fn render(
        slot: u32,
        item: u64,
        buffer_cache: &BufferCache,
        pass: &mut TrackedRenderPass,
    ) -> (r: RenderCommandResult)
        requires
            buffer_cache@.entries.contains_key(item),
        ensures
            r is Success,
            final(pass)@ == old(pass)@.push(
                (RenderPassOp::SetBindGroup {
                    slot,
                    bind_group: BindGroupId(buffer_cache@.entries[item].bind_group as u64),
                    dynamic_offset: None,
                }),
            ),
    {
        let entry = buffer_cache.get(item).unwrap();
        pass.set_bind_group(slot, entry.buffers().instance_buffer_bind_group, None);
        RenderCommandResult::Success
    }
}

/// Step 6: select the shared index buffer and issue the entity's single
/// indexed draw.
pub struct DrawVertexPulledCuboids;

impl DrawVertexPulledCuboids {
    /// Requires the entity to have been prepared, the shared index buffer to
    /// have been generated, and its capacity to cover the entity's cuboid
    /// count — the invariant the per-frame `ensure_capacity` call maintains.
    /// The draw spans exactly 36 indices per cuboid of the entity's current
    /// count, so nothing stale beyond that count is ever drawn.
    pub fn render(
        item: u64,
        buffer_cache: &BufferCache,
        index_buffer: &CuboidsIndexBuffer,
        pass: &mut TrackedRenderPass,
    ) -> (r: RenderCommandResult)
        requires
            buffer_cache@.entries.contains_key(item),
            index_buffer.wf(),
            index_buffer.buffer_id() is Some,
            buffer_cache@.entries[item].num_cuboids <= index_buffer.capacity(),
        ensures
            r is Success,
            final(pass)@ == old(pass)@.push(
                (RenderPassOp::SetIndexBuffer { buffer: index_buffer.buffer_id().unwrap() }),
            ).push(
                (RenderPassOp::DrawIndexed {
                    num_indices: (36 * buffer_cache@.entries[item].num_cuboids) as u32,
                }),
            ),
    {
        let entry = buffer_cache.get(item).unwrap();
        let num_indices = num_indices_for_cuboids(entry.buffers().num_cuboids);
        pass.set_index_buffer(index_buffer.buffer().unwrap());
        pass.draw_indexed(num_indices);
        RenderCommandResult::Success
    }
}

/// The operations one entity's complete draw records, in order: pipeline,
/// the four bind groups at their fixed slots, the shared index buffer, and
/// one indexed draw covering the entity's current cuboid count.
pub open spec fn cuboid_draw_ops(
    item: u64,
    view_uniform_offset: u32,
    cuboids_pipeline: &CuboidsPipeline,
    view_meta: &ViewMeta,
    clipping_meta: &ClippingPlanesMeta,
    buffer_cache: &BufferCache,
    index_buffer: &CuboidsIndexBuffer,
) -> Seq<RenderPassOp> {
    seq![
        (RenderPassOp::SetRenderPipeline { pipeline: cuboids_pipeline.pipeline_id }),
        (RenderPassOp::SetBindGroup {
            slot: VIEW_BIND_GROUP_SLOT,
            bind_group: view_meta.cuboids_view_bind_group.unwrap(),
            dynamic_offset: Some(view_uniform_offset),
        }),
        (RenderPassOp::SetBindGroup {
            slot: CLIPPING_PLANES_BIND_GROUP_SLOT,
            bind_group: clipping_meta.bind_group.unwrap(),
            dynamic_offset: None,
        }),
        (RenderPassOp::SetBindGroup {
            slot: TRANSFORM_BIND_GROUP_SLOT,
            bind_group: BindGroupId(buffer_cache@.transform_bind_group.unwrap() as u64),
            dynamic_offset: Some(buffer_cache@.entries[item].transform_index as u32),
        }),
        (RenderPassOp::SetBindGroup {
            slot: INSTANCE_BIND_GROUP_SLOT,
            bind_group: BindGroupId(buffer_cache@.entries[item].bind_group as u64),
            dynamic_offset: None,
        }),
        (RenderPassOp::SetIndexBuffer { buffer: index_buffer.buffer_id().unwrap() }),
        (RenderPassOp::DrawIndexed {
            num_indices: (36 * buffer_cache@.entries[item].num_cuboids) as u32,
        }),
    ]
}

/// The whole command chain for one entity, executed in its mandatory order.
/// If the pipeline is still compiling, the draw aborts with nothing recorded
/// and the entity is simply invisible this frame; otherwise every step
/// succeeds — the preconditions are exactly the frame's phase barrier — and
/// the pass gains precisely the seven operations of `cuboid_draw_ops`.
pub fn draw_cuboids(
    item: u64,
    view_uniform_offset: u32,
    pipeline_cache: &PipelineCache,
    cuboids_pipeline: &CuboidsPipeline,
    view_meta: &ViewMeta,
    clipping_meta: &ClippingPlanesMeta,
    buffer_cache: &BufferCache,
    index_buffer: &CuboidsIndexBuffer,
    pass: &mut TrackedRenderPass,
) -> (r: RenderCommandResult)
    requires
        view_meta.cuboids_view_bind_group is Some,
        clipping_meta.bind_group is Some,
        buffer_cache@.entries.contains_key(item),
        buffer_cache@.transform_bind_group is Some,
        index_buffer.wf(),
        index_buffer.buffer_id() is Some,
        buffer_cache@.entries[item].num_cuboids <= index_buffer.capacity(),
    ensures
        pipeline_cache.ready_view().contains(cuboids_pipeline.pipeline_id) ==> (
            r is Success
            && final(pass)@ == old(pass)@ + cuboid_draw_ops(
                item,
                view_uniform_offset,
                cuboids_pipeline,
                view_meta,
                clipping_meta,
                buffer_cache,
                index_buffer,
            )
        ),
        !pipeline_cache.ready_view().contains(cuboids_pipeline.pipeline_id) ==> (
            r is Failure && final(pass)@ == old(pass)@
        ),
{
    let step = SetCuboidsPipeline::render(pipeline_cache, cuboids_pipeline, pass);
    if let RenderCommandResult::Failure = step {
        return RenderCommandResult::Failure;
    }
    SetCuboidsViewBindGroup::render(VIEW_BIND_GROUP_SLOT, view_uniform_offset, view_meta, pass);
    SetClippingPlanesBindGroup::render(CLIPPING_PLANES_BIND_GROUP_SLOT, clipping_meta, pass);
    SetGpuTransformBufferBindGroup::render(TRANSFORM_BIND_GROUP_SLOT, item, buffer_cache, pass);
    SetGpuCuboidBuffersBindGroup::render(INSTANCE_BIND_GROUP_SLOT, item, buffer_cache, pass);
    DrawVertexPulledCuboids::render(item, buffer_cache, index_buffer, pass);
    proof {
        assert(pass@ =~= old(pass)@ + cuboid_draw_ops(
            item,
            view_uniform_offset,
            cuboids_pipeline,
            view_meta,
            clipping_meta,
            buffer_cache,
            index_buffer,
        ));
    }
    RenderCommandResult::Success
}

} // verus!
