use vstd::prelude::*;

use crate::vertex_pulling::render_resource::BufferId;

verus! {

/// Largest cuboid count the shared index buffer will ever be grown to: the
/// largest multiple of the growth block whose 36-index expansion still fits
/// in a `u32` index count.
pub const MAX_INDEXED_CUBOIDS: u32 = 119_304_640;

/// Growth block for the shared index buffer: capacity requests are rounded up
/// to a multiple of this many cuboids, so fluctuating counts cause few
/// regenerations.
pub const CUBOID_INDEX_BLOCK: u32 = 64;

/// A cuboid needs 36 indices: 6 faces, 2 triangles each, 3 indices each.
pub const INDICES_PER_CUBOID: u32 = 36;

/// The number of indices an indexed draw must span to cover `num_cuboids`
/// cuboids: 12 triangles per box, 3 indices per triangle.
pub fn num_indices_for_cuboids(num_cuboids: u32) -> (r: u32)
    requires
        num_cuboids <= MAX_INDEXED_CUBOIDS,
    ensures
        r == 36 * num_cuboids,
{
    36 * num_cuboids
}

/// The fixed per-cuboid index template: position `j` of the 36 holds the
/// logical corner (0..8) that the `j`-th index of every cuboid references.
/// Corner bit 0 selects the x extreme, bit 1 the y extreme, bit 2 the z
/// extreme; each group of three positions is one triangle of one face.
pub open spec fn cube_template_spec(j: int) -> int {
    if j == 0 { 0 } else if j == 1 { 1 } else if j == 2 { 2 }
    else if j == 3 { 1 } else if j == 4 { 3 } else if j == 5 { 2 }
    else if j == 6 { 4 } else if j == 7 { 6 } else if j == 8 { 5 }
    else if j == 9 { 5 } else if j == 10 { 6 } else if j == 11 { 7 }
    else if j == 12 { 0 } else if j == 13 { 4 } else if j == 14 { 1 }
    else if j == 15 { 1 } else if j == 16 { 4 } else if j == 17 { 5 }
    else if j == 18 { 2 } else if j == 19 { 3 } else if j == 20 { 6 }
    else if j == 21 { 3 } else if j == 22 { 7 } else if j == 23 { 6 }
    else if j == 24 { 0 } else if j == 25 { 2 } else if j == 26 { 4 }
    else if j == 27 { 2 } else if j == 28 { 6 } else if j == 29 { 4 }
    else if j == 30 { 1 } else if j == 31 { 5 } else if j == 32 { 3 }
    else if j == 33 { 3 } else if j == 34 { 5 } else { 7 }
}

/// The value the shared index buffer holds at position `k`: cuboid `k / 36`
/// contributes eight logical corners starting at `8 * (k / 36)`, and the
/// template picks which corner the index references.
pub open spec fn index_value(k: int) -> int {
    8 * (k / 36) + cube_template_spec(k % 36)
}

/// A capacity request rounded up to the growth block.
pub open spec fn round_up_to_block(n: int) -> int {
    ((n + 63) / 64) * 64
}

/// Capacity of the shared index buffer after a request to cover `n` cuboids
/// when it currently covers `cur`: it grows to the rounded request or stays,
/// whichever is larger. It never shrinks.
pub open spec fn grown_cuboid_capacity(cur: int, n: int) -> int {
    if round_up_to_block(n) <= cur {
        cur
    } else {
        round_up_to_block(n)
    }
}

/// Rounding up to the block never lands below the request.
pub proof fn lemma_round_up_covers(n: int)
    requires
        n >= 0,
    ensures
        round_up_to_block(n) >= n,
        round_up_to_block(n) >= 0,
{
    assert(64 * ((n + 63) / 64) + (n + 63) % 64 == n + 63);
}

/// The rounded request stays within the supported maximum.
pub proof fn lemma_round_up_bounded(n: int)
    requires
        0 <= n <= MAX_INDEXED_CUBOIDS,
    ensures
        round_up_to_block(n) <= MAX_INDEXED_CUBOIDS,
{
    assert((n + 63) / 64 <= 1_864_135);
}

/// Capacity of the shared index buffer after a whole sequence of requests,
/// oldest first.
pub open spec fn capacity_after_requests(cap0: int, reqs: Seq<int>) -> int
    decreases reqs.len(),
{
    if reqs.len() == 0 {
        cap0
    } else {
        capacity_after_requests(grown_cuboid_capacity(cap0, reqs[0]), reqs.drop_first())
    }
}

/// Law: once the shared index buffer's capacity covers `m` cuboids, no later
/// sequence of capacity requests — however small the counts they ask for —
/// leaves it covering fewer than `m`.
pub proof fn lemma_index_capacity_monotonic(cap0: int, reqs: Seq<int>, m: int)
    requires
        cap0 >= m,
    ensures
        capacity_after_requests(cap0, reqs) >= m,
    decreases reqs.len(),
{
    if reqs.len() > 0 {
        lemma_index_capacity_monotonic(grown_cuboid_capacity(cap0, reqs[0]), reqs.drop_first(), m);
    }
}

/// The template offset for position `j` of the per-cuboid index pattern.
fn cube_template_offset(j: u32) -> (r: u32)
    requires
        j < 36,
    ensures
        r == cube_template_spec(j as int),
{
    match j {
        0 => 0, 1 => 1, 2 => 2, 3 => 1, 4 => 3, 5 => 2,
        6 => 4, 7 => 6, 8 => 5, 9 => 5, 10 => 6, 11 => 7,
        12 => 0, 13 => 4, 14 => 1, 15 => 1, 16 => 4, 17 => 5,
        18 => 2, 19 => 3, 20 => 6, 21 => 3, 22 => 7, 23 => 6,
        24 => 0, 25 => 2, 26 => 4, 27 => 2, 28 => 6, 29 => 4,
        30 => 1, 31 => 5, 32 => 3, 33 => 3, 34 => 5, _ => 7,
    }
}

/// The single shared index buffer: one read-only sequence of 32-bit indices
/// covering the worst-case cuboid count of the frame, reused by every draw.
/// It is regenerated (and gets a fresh GPU buffer identity) only when a
/// request exceeds its current capacity; it is never shrunk.
pub struct CuboidsIndexBuffer {
    indices: Vec<u32>,
    capacity_cuboids: u32,
    buffer: Option<BufferId>,
    next_buffer_id: u64,
}

impl CuboidsIndexBuffer {
    /// The cuboid count the current index sequence covers.
    pub closed spec fn capacity(&self) -> u32 {
        self.capacity_cuboids
    }

    /// The index sequence itself.
    pub closed spec fn indices_view(&self) -> Seq<u32> {
        self.indices@
    }

    /// Identity of the GPU buffer the sequence was last uploaded to, if any
    /// generation has happened yet.
    pub closed spec fn buffer_id(&self) -> Option<BufferId> {
        self.buffer
    }

    /// Well-formedness: the sequence is exactly the template expansion for
    /// `capacity()` cuboids, and a buffer exists once anything was generated.
    pub open spec fn wf(&self) -> bool {
        &&& self.indices_view().len() == 36 * self.capacity()
        &&& self.capacity() <= MAX_INDEXED_CUBOIDS
        &&& forall|k: int| 0 <= k < self.indices_view().len() ==> #[trigger] self.indices_view()[k] == index_value(k)
        &&& self.capacity() > 0 ==> self.buffer_id() is Some
        &&& self.buffer_id() matches Some(b) ==> b.0 < self.next_id()
    }

    /// An empty generator: nothing allocated, capacity zero.
    pub fn new() -> (r: Self)
        ensures
            r.wf(),
            r.capacity() == 0,
            r.buffer_id() is None,
            r.next_id() == 0,
    {
        CuboidsIndexBuffer { indices: Vec::new(), capacity_cuboids: 0, buffer: None, next_buffer_id: 0 }
    }

    /// The GPU buffer holding the shared indices, if one was generated.
    pub fn buffer(&self) -> (r: Option<BufferId>)
        ensures
            r == self.buffer_id(),
    {
        self.buffer
    }

    /// The index sequence, for upload or inspection.
    pub fn indices(&self) -> (r: &Vec<u32>)
        ensures
            r@ == self.indices_view(),
    {
        &self.indices
    }

    /// The cuboid count currently covered.
    pub fn capacity_cuboids(&self) -> (r: u32)
        ensures
            r == self.capacity(),
    {
        self.capacity_cuboids
    }

    /// Make the shared index buffer cover at least `max_cuboids` cuboids. If
    /// the current capacity already does, nothing changes — same sequence,
    /// same GPU buffer. Otherwise the full sequence is regenerated for the
    /// rounded-up count and uploaded to a fresh GPU buffer.
    pub fn ensure_capacity(&mut self, max_cuboids: u32)
        requires
            old(self).wf(),
            max_cuboids <= MAX_INDEXED_CUBOIDS,
            old(self).next_id() < u64::MAX,
        ensures
            final(self).wf(),
            final(self).capacity() == grown_cuboid_capacity(old(self).capacity() as int, max_cuboids as int),
            final(self).capacity() >= max_cuboids,
            final(self).capacity() >= old(self).capacity(),
            max_cuboids > 0 ==> final(self).buffer_id() is Some,
            final(self).capacity() == old(self).capacity() ==> (
                final(self).buffer_id() == old(self).buffer_id()
                && final(self).indices_view() == old(self).indices_view()
            ),
            final(self).next_id() <= old(self).next_id() + 1,
    {
        proof {
            lemma_round_up_covers(max_cuboids as int);
            lemma_round_up_bounded(max_cuboids as int);
        }
        let needed: u32 = ((max_cuboids + 63) / 64) * 64;
        if needed > self.capacity_cuboids {
            let mut v: Vec<u32> = Vec::new();
            let mut c: u32 = 0;
            while c < needed
                invariant
                    c <= needed,
                    needed <= MAX_INDEXED_CUBOIDS,
                    v@.len() == 36 * c,
                    forall|k: int| 0 <= k < v@.len() ==> v@[k] == index_value(k),
                decreases needed - c,
            {
                let base: u32 = 8 * c;
                let mut j: u32 = 0;
                while j < 36
                    invariant
                        j <= 36,
                        c < needed,
                        needed <= MAX_INDEXED_CUBOIDS,
                        base == 8 * c,
                        v@.len() == 36 * c + j,
                        forall|k: int| 0 <= k < v@.len() ==> v@[k] == index_value(k),
                    decreases 36 - j,
                {
                    let ghost k: int = v@.len() as int;
                    proof {
                        assert(k / 36 == c as int && k % 36 == j as int) by {
                            assert(k == 36 * (c as int) + (j as int));
                        };
                    }
                    v.push(base + cube_template_offset(j));
                    j += 1;
                }
                c += 1;
            }
            self.indices = v;
            self.capacity_cuboids = needed;
            self.buffer = Some(BufferId(self.next_buffer_id));
            self.next_buffer_id = self.next_buffer_id + 1;
        }
    }

    /// The id the next regeneration's GPU buffer would get.
    pub closed spec fn next_id(&self) -> u64 {
        self.next_buffer_id
    }
}

} // verus!
