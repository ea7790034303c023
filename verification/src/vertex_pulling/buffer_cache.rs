use vstd::prelude::*;

use crate::component::Cuboid;
use crate::vertex_pulling::index_buffer::MAX_INDEXED_CUBOIDS;
use crate::vertex_pulling::render_resource::{BindGroupId, BufferId};

verus! {

// --- ahash, the hash map the cache is keyed with ---

/// ahash's hash map (a std `HashMap` under ahash's hasher), declared so
/// verified code can own one. Verus sees the type as opaque; everything it
/// believes about a value of it goes through `entry_map_contents` and the
/// trusted wrappers below.
#[verifier::external_type_specification]
#[verifier::external_body]
#[verifier::reject_recursive_types(K)]
#[verifier::reject_recursive_types(V)]
#[verifier::reject_recursive_types(S)]
pub struct ExAHashMap<K, V, S>(ahash::AHashMap<K, V, S>);

/// ahash's per-process randomly seeded hasher state, the default hasher of
/// `ahash::AHashMap`.
#[verifier::external_type_specification]
#[verifier::external_body]
pub struct ExRandomState(ahash::RandomState);

/// The hash map used for small integer keys: ahash's map from render
/// entities to their cache entries.
pub type SmallKeyHashMap = ahash::AHashMap<u64, BufferCacheEntry>;

/// The key-to-value association a `SmallKeyHashMap` currently holds. The
/// hasher's random seed affects layout and iteration order, never this
/// association, so the wrappers below can state their effect on it exactly.
pub uninterp spec fn entry_map_contents(m: SmallKeyHashMap) -> Map<u64, BufferCacheEntry>;

// --- the cache's data ---

/// The GPU instance buffer owned by one render entity: an ordered run of
/// cuboid records, in a buffer allocated for `capacity` records and currently
/// filled with `records`. Capacity grows geometrically and is never shrunk,
/// so counts that fluctuate frame to frame reallocate rarely.
pub struct InstanceBuffer {
    pub buffer: BufferId,
    pub capacity: u32,
    pub records: Vec<Cuboid>,
}

/// Everything a draw needs of one entity: its instance buffer, the bind group
/// wrapping that buffer, the entity's dynamic offset into the shared
/// transform buffer, and its current cuboid count.
pub struct GpuCuboidBuffers {
    pub instance_buffer: InstanceBuffer,
    pub instance_buffer_bind_group: BindGroupId,
    pub transform_index: u32,
    pub num_cuboids: u32,
}

/// One entity's entry in the buffer cache.
pub struct BufferCacheEntry {
    buffers: GpuCuboidBuffers,
}

/// The mathematical image of one cache entry.
#[verifier::ext_equal]
pub struct EntryView {
    pub buffer: nat,
    pub bind_group: nat,
    pub capacity: nat,
    pub num_cuboids: nat,
    pub transform_index: nat,
    pub records: Seq<Cuboid>,
}

/// The mathematical image of the whole cache: the entries per entity, the
/// counter fresh GPU identities are drawn from, and the shared transform
/// bind group of the current frame, if one was built.
#[verifier::ext_equal]
pub struct CacheView {
    pub entries: Map<u64, EntryView>,
    pub next_handle: nat,
    pub transform_bind_group: Option<nat>,
}

impl View for GpuCuboidBuffers {
    type V = EntryView;

    open spec fn view(&self) -> EntryView {
        EntryView {
            buffer: self.instance_buffer.buffer.0 as nat,
            bind_group: self.instance_buffer_bind_group.0 as nat,
            capacity: self.instance_buffer.capacity as nat,
            num_cuboids: self.num_cuboids as nat,
            transform_index: self.transform_index as nat,
            records: self.instance_buffer.records@,
        }
    }
}

impl View for BufferCacheEntry {
    type V = EntryView;

    closed spec fn view(&self) -> EntryView {
        self.buffers@
    }
}

impl BufferCacheEntry {
    /// The GPU resources of this entry.
    pub fn buffers(&self) -> (r: &GpuCuboidBuffers)
        ensures
            r@ == self@,
    {
        &self.buffers
    }
}

/// The entry map seen at the view level.
pub open spec fn entries_view(m: Map<u64, BufferCacheEntry>) -> Map<u64, EntryView> {
    m.map_values(|e: BufferCacheEntry| e@)
}

// --- the cache's transitions, as functions on its view ---

/// Instance-buffer capacity after a request for `needed` records against a
/// buffer of `cur`: an allocation that still fits is kept; otherwise the
/// capacity doubles (within the supported maximum) or jumps straight to the
/// request, whichever is larger.
pub open spec fn grown_entry_capacity(cur: nat, needed: nat) -> nat {
    if needed <= cur {
        cur
    } else {
        let doubled: nat = if 2 * cur <= MAX_INDEXED_CUBOIDS { 2 * cur } else { MAX_INDEXED_CUBOIDS as nat };
        if doubled >= needed {
            doubled
        } else {
            needed
        }
    }
}

/// The cache after `update(entity, records, transform_index)`: a fitting
/// entry is rewritten in place, keeping buffer and bind group; anything else
/// allocates a grown buffer and a fresh bind group from the handle counter.
pub open spec fn update_transition(c: CacheView, entity: u64, records: Seq<Cuboid>, transform_index: u32) -> CacheView {
    if c.entries.contains_key(entity) && records.len() <= c.entries[entity].capacity {
        let e0 = c.entries[entity];
        CacheView {
            entries: c.entries.insert(entity, EntryView {
                buffer: e0.buffer,
                bind_group: e0.bind_group,
                capacity: e0.capacity,
                num_cuboids: records.len(),
                transform_index: transform_index as nat,
                records: records,
            }),
            next_handle: c.next_handle,
            transform_bind_group: c.transform_bind_group,
        }
    } else {
        let cur: nat = if c.entries.contains_key(entity) { c.entries[entity].capacity } else { 0 };
        CacheView {
            entries: c.entries.insert(entity, EntryView {
                buffer: c.next_handle,
                bind_group: c.next_handle + 1,
                capacity: grown_entry_capacity(cur, records.len()),
                num_cuboids: records.len(),
                transform_index: transform_index as nat,
                records: records,
            }),
            next_handle: c.next_handle + 2,
            transform_bind_group: c.transform_bind_group,
        }
    }
}

/// The cache after `remove(entity)`.
pub open spec fn remove_transition(c: CacheView, entity: u64) -> CacheView {
    CacheView {
        entries: c.entries.remove(entity),
        next_handle: c.next_handle,
        transform_bind_group: c.transform_bind_group,
    }
}

/// The cache after rebuilding the shared transform bind group for a frame.
pub open spec fn rebuild_transform_transition(c: CacheView) -> CacheView {
    CacheView {
        entries: c.entries,
        next_handle: c.next_handle + 1,
        transform_bind_group: Some(c.next_handle),
    }
}

/// Well-formedness of one entry against the handle counter: its GPU
/// identities were drawn below the counter, its record count is exactly its
/// reported cuboid count, and the count fits the allocation.
pub open spec fn entry_wf(e: EntryView, next_handle: nat) -> bool {
    &&& e.buffer < next_handle
    &&& e.bind_group < next_handle
    &&& e.num_cuboids == e.records.len()
    &&& e.num_cuboids <= e.capacity
    &&& e.capacity <= MAX_INDEXED_CUBOIDS
}

/// Well-formedness of the cache: every entry is well-formed, and the shared
/// transform bind group, if built, was also drawn below the counter. Fresh
/// identities therefore differ from everything the cache holds.
pub open spec fn cache_wf(c: CacheView) -> bool {
    &&& forall|e: u64| #[trigger] c.entries.contains_key(e) ==> entry_wf(c.entries[e], c.next_handle)
    &&& c.transform_bind_group matches Some(h) ==> h < c.next_handle
}

// --- the laws the transitions obey ---

/// Updating preserves well-formedness.
pub proof fn lemma_update_preserves_wf(c: CacheView, entity: u64, records: Seq<Cuboid>, transform_index: u32)
    requires
        cache_wf(c),
        records.len() <= MAX_INDEXED_CUBOIDS,
    ensures
        cache_wf(update_transition(c, entity, records, transform_index)),
{
    let c2 = update_transition(c, entity, records, transform_index);
    assert forall|e: u64| #[trigger] c2.entries.contains_key(e) implies entry_wf(c2.entries[e], c2.next_handle) by {
        if e != entity {
            assert(c.entries.contains_key(e));
        }
    }
}

/// Removal preserves well-formedness.
pub proof fn lemma_remove_preserves_wf(c: CacheView, entity: u64)
    requires
        cache_wf(c),
    ensures
        cache_wf(remove_transition(c, entity)),
{
    let c2 = remove_transition(c, entity);
    assert forall|e: u64| #[trigger] c2.entries.contains_key(e) implies entry_wf(c2.entries[e], c2.next_handle) by {
        assert(c.entries.contains_key(e));
    }
}

/// Rebuilding the transform bind group preserves well-formedness.
pub proof fn lemma_rebuild_preserves_wf(c: CacheView)
    requires
        cache_wf(c),
    ensures
        cache_wf(rebuild_transform_transition(c)),
{
    let c2 = rebuild_transform_transition(c);
    assert forall|e: u64| #[trigger] c2.entries.contains_key(e) implies entry_wf(c2.entries[e], c2.next_handle) by {
        assert(c.entries.contains_key(e));
    }
}

/// Law: an update changes the identity of an entity's instance buffer and of
/// the bind group wrapping it exactly when the new record count no longer
/// fits the allocated buffer. A content-only update — any count within
/// capacity — keeps both identities and the allocation.
pub proof fn lemma_bind_group_identity(c: CacheView, entity: u64, records: Seq<Cuboid>, transform_index: u32)
    requires
        cache_wf(c),
        c.entries.contains_key(entity),
    ensures
        ({
            let c2 = update_transition(c, entity, records, transform_index);
            &&& (c2.entries[entity].bind_group == c.entries[entity].bind_group <==> records.len() <= c.entries[entity].capacity)
            &&& (c2.entries[entity].buffer == c.entries[entity].buffer <==> records.len() <= c.entries[entity].capacity)
            &&& (records.len() <= c.entries[entity].capacity ==> c2.entries[entity].capacity == c.entries[entity].capacity)
        }),
{
    assert(entry_wf(c.entries[entity], c.next_handle));
}

/// Law: removing an entity and re-adding it with any records yields an entry
/// holding exactly those records, in a buffer sized for them, bound through a
/// fresh bind group — no binding to the freed buffer survives.
pub proof fn lemma_remove_then_update(c: CacheView, entity: u64, records: Seq<Cuboid>, transform_index: u32)
    requires
        cache_wf(c),
        c.entries.contains_key(entity),
    ensures
        ({
            let c2 = update_transition(remove_transition(c, entity), entity, records, transform_index);
            &&& c2.entries.contains_key(entity)
            &&& c2.entries[entity].records == records
            &&& c2.entries[entity].num_cuboids == records.len()
            &&& c2.entries[entity].capacity >= records.len()
            &&& c2.entries[entity].bind_group != c.entries[entity].bind_group
            &&& c2.entries[entity].buffer != c.entries[entity].buffer
        }),
{
    assert(entry_wf(c.entries[entity], c.next_handle));
}

/// Law: whatever run of updates an entity has seen, its instance buffer holds
/// exactly the records of the latest one — no record of an earlier, larger
/// upload is left to be drawn.
pub proof fn lemma_latest_update_wins(
    c: CacheView,
    entity: u64,
    records1: Seq<Cuboid>,
    transform_index1: u32,
    records2: Seq<Cuboid>,
    transform_index2: u32,
)
    ensures
        ({
            let c2 = update_transition(
                update_transition(c, entity, records1, transform_index1),
                entity,
                records2,
                transform_index2,
            );
            &&& c2.entries[entity].records == records2
            &&& c2.entries[entity].num_cuboids == records2.len()
        }),
{
}

// --- trusted wrappers around ahash ---

/// Relies on `ahash::AHashMap::new`: a freshly created map holds no entries.
#[verifier::external_body]
fn entry_map_new() -> (r: SmallKeyHashMap)
    ensures
        entry_map_contents(r).dom() == Set::<u64>::empty(),
{
    ahash::AHashMap::new()
}

/// Relies on `ahash::AHashMap::get`: returns a reference to the value stored
/// under the key, if the key is bound.
#[verifier::external_body]
fn entry_map_get<'a>(m: &'a SmallKeyHashMap, k: u64) -> (r: Option<&'a BufferCacheEntry>)
    ensures
        r is Some <==> entry_map_contents(*m).contains_key(k),
        r matches Some(e) ==> *e == entry_map_contents(*m)[k],
{
    m.get(&k)
}

/// Relies on `ahash::AHashMap::insert`: binds the key to the value and hands
/// back what the key was bound to before, if anything.
#[verifier::external_body]
fn entry_map_insert(m: &mut SmallKeyHashMap, k: u64, v: BufferCacheEntry) -> (r: Option<BufferCacheEntry>)
    ensures
        entry_map_contents(*final(m)) == entry_map_contents(*old(m)).insert(k, v),
        r is Some <==> entry_map_contents(*old(m)).contains_key(k),
        r matches Some(e) ==> e == entry_map_contents(*old(m))[k],
{
    m.insert(k, v)
}

/// Relies on `ahash::AHashMap::remove`: unbinds the key and hands back what
/// it was bound to, if anything.
#[verifier::external_body]
fn entry_map_remove(m: &mut SmallKeyHashMap, k: u64) -> (r: Option<BufferCacheEntry>)
    ensures
        entry_map_contents(*final(m)) == entry_map_contents(*old(m)).remove(k),
        r is Some <==> entry_map_contents(*old(m)).contains_key(k),
        r matches Some(e) ==> e == entry_map_contents(*old(m))[k],
{
    m.remove(&k)
}

// --- view plumbing ---

/// Inserting into the entry map commutes with taking views.
proof fn lemma_entries_view_insert(m: Map<u64, BufferCacheEntry>, k: u64, v: BufferCacheEntry)
    ensures
        entries_view(m.insert(k, v)) == entries_view(m).insert(k, v@),
{
    assert(entries_view(m.insert(k, v)) =~= entries_view(m).insert(k, v@));
}

/// Removing from the entry map commutes with taking views.
proof fn lemma_entries_view_remove(m: Map<u64, BufferCacheEntry>, k: u64)
    ensures
        entries_view(m.remove(k)) == entries_view(m).remove(k),
{
    assert(entries_view(m.remove(k)) =~= entries_view(m).remove(k));
}

/// The view of an entry map holding nothing is empty.
proof fn lemma_entries_view_empty(m: Map<u64, BufferCacheEntry>)
    requires
        m.dom() == Set::<u64>::empty(),
    ensures
        entries_view(m) == Map::<u64, EntryView>::empty(),
{
    assert(entries_view(m) =~= Map::<u64, EntryView>::empty());
}

// --- the cache itself ---

/// The per-entity GPU buffer cache: for every render entity prepared this
/// frame it owns the entity's instance buffer and bind group and remembers
/// the entity's dynamic offset into the shared transform buffer. Entities are
/// the host's stable integer identities; GPU allocations appear as identities
/// drawn from a monotone counter, so a fresh allocation never collides with a
/// live or a freed one.
pub struct BufferCache {
    entries: SmallKeyHashMap,
    next_handle: u64,
    transform_buffer_bind_group: Option<BindGroupId>,
}

impl View for BufferCache {
    type V = CacheView;

    closed spec fn view(&self) -> CacheView {
        CacheView {
            entries: entries_view(entry_map_contents(self.entries)),
            next_handle: self.next_handle as nat,
            transform_bind_group: match self.transform_buffer_bind_group {
                Some(b) => Some(b.0 as nat),
                None => None,
            },
        }
    }
}

impl BufferCache {
    /// An empty cache.
    pub fn new() -> (r: Self)
        ensures
            r@.entries == Map::<u64, EntryView>::empty(),
            r@.next_handle == 0,
            r@.transform_bind_group is None,
            cache_wf(r@),
    {
        let r = BufferCache { entries: entry_map_new(), next_handle: 0, transform_buffer_bind_group: None };
        proof {
            lemma_entries_view_empty(entry_map_contents(r.entries));
        }
        r
    }

    /// The entry prepared for a render entity this frame, if any. During
    /// drawing, a miss here means the preparation phase did not run for the
    /// entity — the draw commands require the hit and never see the miss.
    pub fn get(&self, entity: u64) -> (r: Option<&BufferCacheEntry>)
        ensures
            r is Some <==> self@.entries.contains_key(entity),
            r matches Some(e) ==> e@ == self@.entries[entity],
    {
        entry_map_get(&self.entries, entity)
    }

    /// Allocate or resize `entity`'s instance buffer to hold exactly the
    /// supplied records, upload them, and (re)create the entity's bind group
    /// if — and only if — the buffer had to be reallocated. The records
    /// supplied here are precisely what a draw of this entity will cover.
    pub fn update(&mut self, entity: u64, cuboids: Vec<Cuboid>, transform_index: u32)
        requires
            cache_wf(old(self)@),
            cuboids@.len() <= MAX_INDEXED_CUBOIDS,
            old(self)@.next_handle + 2 <= u64::MAX,
        ensures
            final(self)@ == update_transition(old(self)@, entity, cuboids@, transform_index),
            cache_wf(final(self)@),
            final(self)@.entries[entity].records == cuboids@,
            final(self)@.entries[entity].num_cuboids == cuboids@.len(),
    {
        proof {
            lemma_update_preserves_wf(old(self)@, entity, cuboids@, transform_index);
        }
        let num: u32 = cuboids.len() as u32;
        let existing: Option<(BufferId, BindGroupId, u32)> = match entry_map_get(&self.entries, entity) {
            Some(e) => Some((
                e.buffers.instance_buffer.buffer,
                e.buffers.instance_buffer_bind_group,
                e.buffers.instance_buffer.capacity,
            )),
            None => None,
        };
        match existing {
            Some((buffer, bind_group, capacity)) if num <= capacity => {
                let entry = BufferCacheEntry {
                    buffers: GpuCuboidBuffers {
                        instance_buffer: InstanceBuffer { buffer, capacity, records: cuboids },
                        instance_buffer_bind_group: bind_group,
                        transform_index,
                        num_cuboids: num,
                    },
                };
                let ghost m0 = entry_map_contents(self.entries);
                let ghost ghost_entry = entry;
                entry_map_insert(&mut self.entries, entity, entry);
                proof {
                    lemma_entries_view_insert(m0, entity, ghost_entry);
                    assert(final(self)@ =~= update_transition(old(self)@, entity, cuboids@, transform_index));
                }
            },
            _ => {
                let current_capacity: u32 = match existing {
                    Some((_, _, capacity)) => capacity,
                    None => 0,
                };
                let doubled: u32 = if current_capacity > MAX_INDEXED_CUBOIDS / 2 {
                    MAX_INDEXED_CUBOIDS
                } else {
                    2 * current_capacity
                };
                let new_capacity: u32 = if num <= current_capacity {
                    current_capacity
                } else if doubled >= num {
                    doubled
                } else {
                    num
                };
                let buffer = BufferId(self.next_handle);
                let bind_group = BindGroupId(self.next_handle + 1);
                self.next_handle = self.next_handle + 2;
                let entry = BufferCacheEntry {
                    buffers: GpuCuboidBuffers {
                        instance_buffer: InstanceBuffer { buffer, capacity: new_capacity, records: cuboids },
                        instance_buffer_bind_group: bind_group,
                        transform_index,
                        num_cuboids: num,
                    },
                };
                let ghost m0 = entry_map_contents(self.entries);
                let ghost ghost_entry = entry;
                entry_map_insert(&mut self.entries, entity, entry);
                proof {
                    lemma_entries_view_insert(m0, entity, ghost_entry);
                    assert(final(self)@ =~= update_transition(old(self)@, entity, cuboids@, transform_index));
                }
            },
        }
    }

    /// Release `entity`'s instance buffer and bind group: its entry leaves
    /// the cache, and nothing the cache hands out afterwards refers to it.
    /// The freed entry is returned to the caller for disposal.
    pub fn remove(&mut self, entity: u64) -> (r: Option<BufferCacheEntry>)
        ensures
            final(self)@ == remove_transition(old(self)@, entity),
            r is Some <==> old(self)@.entries.contains_key(entity),
            r matches Some(e) ==> e@ == old(self)@.entries[entity],
            !final(self)@.entries.contains_key(entity),
            cache_wf(old(self)@) ==> cache_wf(final(self)@),
    {
        let ghost m0 = entry_map_contents(self.entries);
        let r = entry_map_remove(&mut self.entries, entity);
        proof {
            lemma_entries_view_remove(m0, entity);
            assert(final(self)@ =~= remove_transition(old(self)@, entity));
            if cache_wf(old(self)@) {
                lemma_remove_preserves_wf(old(self)@, entity);
            }
        }
        r
    }

    /// The bind group of the shared transform buffer for the current frame,
    /// if the frame's preparation has built it. Each entity selects its own
    /// transform out of it at draw time via the dynamic offset stored in its
    /// entry.
    pub fn transform_buffer_bind_group(&self) -> (r: Option<BindGroupId>)
        ensures
            r is Some <==> self@.transform_bind_group is Some,
            r matches Some(b) ==> self@.transform_bind_group == Some(b.0 as nat),
    {
        self.transform_buffer_bind_group
    }

    /// Build the frame's shared transform bind group: one fresh bind group
    /// over the transform buffer all active entities' transforms were packed
    /// into. Entries are untouched; their dynamic offsets keep selecting the
    /// right transform.
    pub fn rebuild_transform_bind_group(&mut self)
        requires
            old(self)@.next_handle + 1 <= u64::MAX,
        ensures
            final(self)@ == rebuild_transform_transition(old(self)@),
            final(self)@.transform_bind_group is Some,
            cache_wf(old(self)@) ==> cache_wf(final(self)@),
    {
        self.transform_buffer_bind_group = Some(BindGroupId(self.next_handle));
        self.next_handle = self.next_handle + 1;
        proof {
            assert(final(self)@ =~= rebuild_transform_transition(old(self)@));
            if cache_wf(old(self)@) {
                lemma_rebuild_preserves_wf(old(self)@);
            }
        }
    }
}

} // verus!
