use vstd::prelude::*;

use crate::vertex_pulling::render_resource::PipelineId;

verus! {

/// The host renderer's pipeline cache, seen by identity: it answers which
/// pipelines have finished compiling. A pipeline still compiling is the one
/// per-item, transient failure of the draw chain — the entity is skipped for
/// the frame and drawn once compilation finishes.
pub struct PipelineCache {
    ready: Vec<PipelineId>,
}

impl PipelineCache {
    /// The pipelines whose compilation has finished.
    pub closed spec fn ready_view(&self) -> Seq<PipelineId> {
        self.ready@
    }

    /// A cache with nothing compiled yet.
    pub fn new() -> (r: Self)
        ensures
            r.ready_view() == Seq::<PipelineId>::empty(),
    {
        PipelineCache { ready: Vec::new() }
    }

    /// Record that `id`'s compilation has finished.
    pub fn mark_ready(&mut self, id: PipelineId)
        ensures
            final(self).ready_view() == old(self).ready_view().push(id),
    {
        self.ready.push(id);
    }

    /// The compiled pipeline for `id`: present exactly when compilation has
    /// finished.
    pub fn get_render_pipeline(&self, id: PipelineId) -> (r: Option<PipelineId>)
        ensures
            r is Some <==> self.ready_view().contains(id),
            r matches Some(p) ==> p == id,
    {
        let mut i: usize = 0;
        while i < self.ready.len()
            invariant
                i <= self.ready@.len(),
                forall|j: int| 0 <= j < i ==> self.ready@[j] != id,
            decreases self.ready@.len() - i,
        {
            if self.ready[i] == id {
                proof {
                    assert(self.ready_view()[i as int] == id);
                }
                return Some(id);
            }
            i = i + 1;
        }
        None
    }
}

/// The specialized vertex-pulling cuboids pipeline, named by its identity in
/// the pipeline cache.
pub struct CuboidsPipeline {
    pub pipeline_id: PipelineId,
}

} // verus!
