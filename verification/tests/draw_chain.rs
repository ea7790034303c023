use aabb_instancing::component::Cuboid;
use aabb_instancing::vertex_pulling::buffer_cache::BufferCache;
use aabb_instancing::vertex_pulling::draw::{
    draw_cuboids, ClippingPlanesMeta, RenderCommandResult, ViewMeta,
    CLIPPING_PLANES_BIND_GROUP_SLOT, INSTANCE_BIND_GROUP_SLOT, TRANSFORM_BIND_GROUP_SLOT,
    VIEW_BIND_GROUP_SLOT,
};
use aabb_instancing::vertex_pulling::index_buffer::CuboidsIndexBuffer;
use aabb_instancing::vertex_pulling::pipeline::{CuboidsPipeline, PipelineCache};
use aabb_instancing::vertex_pulling::render_resource::{
    BindGroupId, PipelineId, RenderPassOp, TrackedRenderPass,
};

fn cuboids(n: u32) -> Vec<Cuboid> {
    let mut v = Vec::new();
    for i in 0..n {
        v.push(Cuboid {
            min_x: i,
            min_y: 0,
            min_z: 0,
            max_x: i + 1,
            max_y: 1,
            max_z: 1,
            color: i,
            flags: 0,
        });
    }
    v
}

#[test]
fn slots_are_the_shader_contract() {
    assert_eq!(VIEW_BIND_GROUP_SLOT, 0);
    assert_eq!(CLIPPING_PLANES_BIND_GROUP_SLOT, 1);
    assert_eq!(TRANSFORM_BIND_GROUP_SLOT, 2);
    assert_eq!(INSTANCE_BIND_GROUP_SLOT, 3);
}

#[test]
fn entity_lifecycle_draws_then_disappears() {
    let entity: u64 = 42;
    let mut cache = BufferCache::new();
    let mut index_buffer = CuboidsIndexBuffer::new();
    let mut pipeline_cache = PipelineCache::new();
    pipeline_cache.mark_ready(PipelineId(11));
    let pipeline = CuboidsPipeline { pipeline_id: PipelineId(11) };
    let view_meta = ViewMeta { cuboids_view_bind_group: Some(BindGroupId(1000)) };
    let clipping_meta = ClippingPlanesMeta { bind_group: Some(BindGroupId(1001)) };

    // Frame 1: the entity appears with 2 cuboids.
    cache.update(entity, cuboids(2), 0);
    cache.rebuild_transform_bind_group();
    index_buffer.ensure_capacity(2);
    let mut pass = TrackedRenderPass::new();
    let r = draw_cuboids(
        entity, 16, &pipeline_cache, &pipeline, &view_meta, &clipping_meta, &cache,
        &index_buffer, &mut pass,
    );
    assert_eq!(r, RenderCommandResult::Success);
    let ops = pass.ops();
    assert_eq!(ops.len(), 7);
    assert_eq!(ops[0], RenderPassOp::SetRenderPipeline { pipeline: PipelineId(11) });
    assert_eq!(
        ops[1],
        RenderPassOp::SetBindGroup {
            slot: 0,
            bind_group: BindGroupId(1000),
            dynamic_offset: Some(16),
        }
    );
    assert_eq!(
        ops[2],
        RenderPassOp::SetBindGroup { slot: 1, bind_group: BindGroupId(1001), dynamic_offset: None }
    );
    let transform_bg = cache.transform_buffer_bind_group().unwrap();
    assert_eq!(
        ops[3],
        RenderPassOp::SetBindGroup { slot: 2, bind_group: transform_bg, dynamic_offset: Some(0) }
    );
    let instance_bg = cache.get(entity).unwrap().buffers().instance_buffer_bind_group;
    assert_eq!(
        ops[4],
        RenderPassOp::SetBindGroup { slot: 3, bind_group: instance_bg, dynamic_offset: None }
    );
    assert_eq!(
        ops[5],
        RenderPassOp::SetIndexBuffer { buffer: index_buffer.buffer().unwrap() }
    );
    assert_eq!(ops[6], RenderPassOp::DrawIndexed { num_indices: 72 });

    // Frame 2: the entity grows to 5 cuboids; the shared index buffer covers
    // at least 5 and the draw spans 180 indices.
    cache.update(entity, cuboids(5), 0);
    cache.rebuild_transform_bind_group();
    index_buffer.ensure_capacity(5);
    assert!(index_buffer.capacity_cuboids() >= 5);
    let mut pass = TrackedRenderPass::new();
    let r = draw_cuboids(
        entity, 16, &pipeline_cache, &pipeline, &view_meta, &clipping_meta, &cache,
        &index_buffer, &mut pass,
    );
    assert_eq!(r, RenderCommandResult::Success);
    assert_eq!(pass.ops()[6], RenderPassOp::DrawIndexed { num_indices: 180 });

    // Frame 3: the entity is gone; the cache lookup misses and no draw is
    // recorded for it.
    cache.remove(entity);
    let mut pass = TrackedRenderPass::new();
    if cache.get(entity).is_some() {
        draw_cuboids(
            entity, 16, &pipeline_cache, &pipeline, &view_meta, &clipping_meta, &cache,
            &index_buffer, &mut pass,
        );
    }
    assert!(cache.get(entity).is_none());
    assert_eq!(pass.ops().len(), 0);
}

#[test]
fn two_entities_share_one_index_buffer() {
    let small: u64 = 1;
    let large: u64 = 2;
    let mut cache = BufferCache::new();
    cache.update(small, cuboids(3), 0);
    cache.update(large, cuboids(1000), 64);
    cache.rebuild_transform_bind_group();
    let mut index_buffer = CuboidsIndexBuffer::new();
    index_buffer.ensure_capacity(1000);
    assert!(index_buffer.capacity_cuboids() >= 1000);
    let mut pipeline_cache = PipelineCache::new();
    pipeline_cache.mark_ready(PipelineId(3));
    let pipeline = CuboidsPipeline { pipeline_id: PipelineId(3) };
    let view_meta = ViewMeta { cuboids_view_bind_group: Some(BindGroupId(500)) };
    let clipping_meta = ClippingPlanesMeta { bind_group: Some(BindGroupId(501)) };

    let mut pass = TrackedRenderPass::new();
    draw_cuboids(
        small, 0, &pipeline_cache, &pipeline, &view_meta, &clipping_meta, &cache,
        &index_buffer, &mut pass,
    );
    draw_cuboids(
        large, 0, &pipeline_cache, &pipeline, &view_meta, &clipping_meta, &cache,
        &index_buffer, &mut pass,
    );
    let ops = pass.ops();
    assert_eq!(ops.len(), 14);
    // Both draws select the same shared index buffer...
    let shared = RenderPassOp::SetIndexBuffer { buffer: index_buffer.buffer().unwrap() };
    assert_eq!(ops[5], shared);
    assert_eq!(ops[12], shared);
    // ...but each spans its own index count and binds its own instance data.
    assert_eq!(ops[6], RenderPassOp::DrawIndexed { num_indices: 108 });
    assert_eq!(ops[13], RenderPassOp::DrawIndexed { num_indices: 36000 });
    assert_ne!(ops[4], ops[11]);
}

#[test]
fn unready_pipeline_skips_the_draw() {
    let entity: u64 = 9;
    let mut cache = BufferCache::new();
    cache.update(entity, cuboids(2), 0);
    cache.rebuild_transform_bind_group();
    let mut index_buffer = CuboidsIndexBuffer::new();
    index_buffer.ensure_capacity(2);
    let pipeline_cache = PipelineCache::new();
    let pipeline = CuboidsPipeline { pipeline_id: PipelineId(11) };
    let view_meta = ViewMeta { cuboids_view_bind_group: Some(BindGroupId(1000)) };
    let clipping_meta = ClippingPlanesMeta { bind_group: Some(BindGroupId(1001)) };
    let mut pass = TrackedRenderPass::new();
    let r = draw_cuboids(
        entity, 16, &pipeline_cache, &pipeline, &view_meta, &clipping_meta, &cache,
        &index_buffer, &mut pass,
    );
    // The one recoverable failure: compilation not finished. Nothing is
    // recorded and the entity is simply invisible this frame.
    assert_eq!(r, RenderCommandResult::Failure);
    assert_eq!(pass.ops().len(), 0);
}

#[test]
fn pipeline_cache_answers_by_identity() {
    let mut pipeline_cache = PipelineCache::new();
    assert!(pipeline_cache.get_render_pipeline(PipelineId(4)).is_none());
    pipeline_cache.mark_ready(PipelineId(4));
    pipeline_cache.mark_ready(PipelineId(6));
    assert_eq!(pipeline_cache.get_render_pipeline(PipelineId(4)), Some(PipelineId(4)));
    assert_eq!(pipeline_cache.get_render_pipeline(PipelineId(6)), Some(PipelineId(6)));
    assert!(pipeline_cache.get_render_pipeline(PipelineId(5)).is_none());
}

#[test]
fn metas_start_unpopulated() {
    let view_meta = ViewMeta::default();
    assert!(view_meta.cuboids_view_bind_group.is_none());
    let clipping_meta = ClippingPlanesMeta::default();
    assert!(clipping_meta.bind_group.is_none());
}
