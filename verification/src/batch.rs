use vstd::prelude::*;

verus! {

/// One quad draw request: position, size and colour of a single 2D quad.
///
/// The fields carry the caller's single-precision coordinates and colour
/// channels as raw 32-bit payloads.  The batcher never computes on them, it
/// only stores and regroups them, so the encoding plays no part in any
/// contract of this module.
#[derive(Clone, Copy, PartialEq, Eq, Structural, Debug)]
pub struct QuadInstance {
    pub offset_x: u32,
    pub offset_y: u32,
    pub scale_x: u32,
    pub scale_y: u32,
    pub color_r: u32,
    pub color_g: u32,
    pub color_b: u32,
    pub color_a: u32,
}

/// A batch that has been closed: its quads are fixed and wait to be uploaded
/// as one GPU-resident buffer pair and consumed by a single draw call.
#[derive(Debug)]
pub struct CommittedBufferSet {
    pub instances: Vec<QuadInstance>,
}

/// The state of a batcher reduced to its mathematical content: the bound, the
/// quads still accumulating, and the committed sets in commit order.
#[verifier::ext_equal]
pub struct BatchModel {
    pub capacity: nat,
    pub active: Seq<QuadInstance>,
    pub committed: Seq<Seq<QuadInstance>>,
}

/// A batch model is well formed when the bound is positive and the active
/// accumulation respects it.
pub open spec fn batch_wf(m: BatchModel) -> bool {
    &&& 1 <= m.capacity
    &&& m.active.len() <= m.capacity
}

/// What one `add_quad` call does to the batcher state: append to the active
/// batch, unless that batch is full, in which case it is committed first and
/// the new quad starts a fresh one.
pub open spec fn batch_add(m: BatchModel, q: QuadInstance) -> BatchModel {
    if m.active.len() < m.capacity {
        BatchModel { active: m.active.push(q), ..m }
    } else {
        BatchModel { active: seq![q], committed: m.committed.push(m.active), ..m }
    }
}

/// What one `flush` call does to the batcher state: commit the active batch
/// if it holds anything, otherwise change nothing.
pub open spec fn batch_flush(m: BatchModel) -> BatchModel {
    if m.active.len() == 0 {
        m
    } else {
        BatchModel { active: Seq::empty(), committed: m.committed.push(m.active), ..m }
    }
}

/// Fold a whole sequence of `add_quad` calls over a batch state, in order.
pub open spec fn batch_add_all(m: BatchModel, qs: Seq<QuadInstance>) -> BatchModel
    decreases qs.len(),
{
    if qs.len() == 0 {
        m
    } else {
        batch_add_all(batch_add(m, qs[0]), qs.drop_first())
    }
}

/// Batch capacity invariant: however many quads are added, a well-formed
/// batch stays well formed, so the active accumulation never exceeds the
/// capacity; and once at least one quad went in, the active batch is
/// never empty.
pub proof fn lemma_batch_capacity_invariant(m: BatchModel, qs: Seq<QuadInstance>)
    requires
        batch_wf(m),
    ensures
        batch_wf(batch_add_all(m, qs)),
        batch_add_all(m, qs).capacity == m.capacity,
        batch_add_all(m, qs).active.len() <= m.capacity,
        qs.len() > 0 ==> batch_add_all(m, qs).active.len() >= 1,
    decreases qs.len(),
{
    if qs.len() > 0 {
        lemma_batch_capacity_invariant(batch_add(m, qs[0]), qs.drop_first());
    }
}

/// An add that finds the active batch full commits it before anything else:
/// exactly one committed set appears, it is the batch that was full, and the
/// new quad starts the next batch alone.
pub proof fn lemma_overflow_flushes_once(m: BatchModel, q: QuadInstance)
    requires
        batch_wf(m),
        m.active.len() == m.capacity,
    ensures
        batch_add(m, q).committed == m.committed.push(m.active),
        batch_add(m, q).committed.len() == m.committed.len() + 1,
        batch_add(m, q).active == seq![q],
{
}

/// An add that finds room only appends: nothing is committed.
pub proof fn lemma_add_below_capacity(m: BatchModel, q: QuadInstance)
    requires
        batch_wf(m),
        m.active.len() < m.capacity,
    ensures
        batch_add(m, q).committed == m.committed,
        batch_add(m, q).active == m.active.push(q),
{
}

/// Flush idempotence: flushing an empty batch changes nothing, and a second
/// flush straight after a flush is always a no-op.
pub proof fn lemma_flush_idempotent(m: BatchModel)
    requires
        batch_wf(m),
    ensures
        m.active.len() == 0 ==> batch_flush(m) == m,
        batch_flush(batch_flush(m)) == batch_flush(m),
{
}

/// Every committed set that `add_quad` produces holds exactly `capacity`
/// quads: only an overflow commits, and it commits a full batch.
pub proof fn lemma_adds_commit_full_sets(m: BatchModel, qs: Seq<QuadInstance>)
    requires
        batch_wf(m),
        forall|i: int| 0 <= i < m.committed.len() ==> #[trigger] m.committed[i].len() == m.capacity,
    ensures
        forall|i: int|
            0 <= i < batch_add_all(m, qs).committed.len() ==> #[trigger] batch_add_all(
                m,
                qs,
            ).committed[i].len() == m.capacity,
    decreases qs.len(),
{
    if qs.len() > 0 {
        let m1 = batch_add(m, qs[0]);
        assert forall|i: int| 0 <= i < m1.committed.len() implies #[trigger] m1.committed[i].len()
            == m1.capacity by {
            if i < m.committed.len() {
                assert(m.committed[i].len() == m.capacity);
            } else {
                assert(m1.committed[i] == m.active);
            }
        }
        lemma_adds_commit_full_sets(m1, qs.drop_first());
        assert(batch_add_all(m, qs) == batch_add_all(m1, qs.drop_first()));
        assert(forall|i: int|
            0 <= i < batch_add_all(m1, qs.drop_first()).committed.len() ==> #[trigger] batch_add_all(
                m1,
                qs.drop_first(),
            ).committed[i].len() == m1.capacity);
    }
}

/// No quad is lost or invented: counting every committed set as full (which
/// `lemma_adds_commit_full_sets` justifies for batches built by adds alone),
/// the quads held grow by exactly one per `add_quad` call.
pub proof fn lemma_adds_conserve_quads(m: BatchModel, qs: Seq<QuadInstance>)
    requires
        batch_wf(m),
    ensures
        batch_add_all(m, qs).active.len() + batch_add_all(m, qs).committed.len() * m.capacity == m.active.len()
            + m.committed.len() * m.capacity + qs.len(),
    decreases qs.len(),
{
    if qs.len() > 0 {
        let m1 = batch_add(m, qs[0]);
        assert(m1.active.len() + m1.committed.len() * m.capacity == m.active.len()
            + m.committed.len() * m.capacity + 1) by (nonlinear_arith)
            requires
                batch_wf(m),
                m1 == batch_add(m, qs[0]),
        ;
        lemma_adds_conserve_quads(m1, qs.drop_first());
    }
}

/// Filling a fresh batcher with `n` quads and then flushing produces
/// exactly the committed sets one draw call each can cover: none for an
/// empty frame, and otherwise `n` divided by the capacity, rounded up.
pub proof fn lemma_adds_then_flush_set_count(m: BatchModel, qs: Seq<QuadInstance>)
    requires
        batch_wf(m),
        m.active.len() == 0,
        m.committed.len() == 0,
    ensures
        qs.len() == 0 ==> batch_flush(batch_add_all(m, qs)).committed.len() == 0,
        qs.len() > 0 ==> batch_flush(batch_add_all(m, qs)).committed.len() == (qs.len() + m.capacity
            - 1) / (m.capacity as int),
{
    lemma_batch_capacity_invariant(m, qs);
    lemma_adds_conserve_quads(m, qs);
    if qs.len() > 0 {
        let a = batch_add_all(m, qs);
        let c = m.capacity as int;
        let k = a.committed.len() as int;
        let held = a.active.len() as int;
        // qs.len() + c - 1 == c * (k + 1) + (held - 1), with 0 <= held - 1 < c
        assert(held + k * c == qs.len());
        assert(c * (k + 1) + (held - 1) == k * c + held + c - 1) by (nonlinear_arith);
        vstd::arithmetic::div_mod::lemma_div_multiples_vanish_fancy(k + 1, held - 1, c);
        assert(batch_flush(a).committed.len() == k + 1);
    }
}

/// Accumulates quad draw requests and regroups them into bounded committed
/// sets, one per future draw call.
pub struct QuadBatcher {
    pub max_quads: usize,
    pub active: Vec<QuadInstance>,
    pub committed: Vec<CommittedBufferSet>,
}

impl QuadBatcher {
    /// The batcher never holds more than `max_quads` unflushed quads, and
    /// every committed set was once an active batch, so it is bounded too.
    pub open spec fn wf(self) -> bool {
        &&& 1 <= self.max_quads
        &&& self.active@.len() <= self.max_quads
        &&& forall|i: int|
            0 <= i < self.committed@.len() ==> (#[trigger] self.committed@[i].instances@.len())
                <= self.max_quads
    }

    /// The committed sets, each reduced to the quads it holds.
    pub open spec fn committed_quads(self) -> Seq<Seq<QuadInstance>> {
        self.committed@.map_values(|s: CommittedBufferSet| s.instances@)
    }

    /// The batcher state as a mathematical value.
    pub open spec fn model(self) -> BatchModel {
        BatchModel {
            capacity: self.max_quads as nat,
            active: self.active@,
            committed: self.committed_quads(),
        }
    }

    pub fn new(max_quads: usize) -> (b: Self)
        requires
            1 <= max_quads,
        ensures
            b.wf(),
            b.max_quads == max_quads,
            b.active@.len() == 0,
            b.committed@.len() == 0,
    {
        QuadBatcher { max_quads, active: Vec::new(), committed: Vec::new() }
    }

    /// Append one quad.  A full active batch is committed first, so the cost
    /// of the overflow is paid by the call that causes it, and the active
    /// batch never exceeds the bound.
    pub fn add_quad(&mut self, q: QuadInstance)
        requires
            old(self).wf(),
        ensures
            final(self).wf(),
            final(self).model() == batch_add(old(self).model(), q),
    {
        if self.active.len() >= self.max_quads {
            let _ = self.flush();
        }
        self.active.push(q);
        proof {
            assert(final(self).model() =~~= batch_add(old(self).model(), q));
        }
    }

    /// Commit the active batch.  On an empty batch this is a no-op and
    /// reports no committed set; otherwise it reports the quad count of the
    /// set it committed.
    pub fn flush(&mut self) -> (r: Option<usize>)
        requires
            old(self).wf(),
        ensures
            final(self).wf(),
            final(self).model() == batch_flush(old(self).model()),
            old(self).active@.len() == 0 ==> r is None && *final(self) == *old(self),
            old(self).active@.len() > 0 ==> r == Some(old(self).active.len()),
    {
        if self.active.len() == 0 {
            return None;
        }
        let count = self.active.len();
        let mut taken: Vec<QuadInstance> = Vec::new();
        std::mem::swap(&mut self.active, &mut taken);
        self.committed.push(CommittedBufferSet { instances: taken });
        proof {
            assert(final(self).model() =~~= batch_flush(old(self).model()));
        }
        Some(count)
    }

    /// Drop the active accumulation without touching committed sets.
    pub fn reset(&mut self)
        requires
            old(self).wf(),
        ensures
            final(self).wf(),
            final(self).active@.len() == 0,
            final(self).committed@ == old(self).committed@,
            final(self).max_quads == old(self).max_quads,
    {
        self.active.clear();
    }

    /// Hand out the committed sets accumulated so far, oldest first, leaving
    /// none behind.
    pub fn take_committed(&mut self) -> (sets: Vec<CommittedBufferSet>)
        requires
            old(self).wf(),
        ensures
            final(self).wf(),
            sets@ == old(self).committed@,
            final(self).committed@.len() == 0,
            final(self).active@ == old(self).active@,
            final(self).max_quads == old(self).max_quads,
    {
        let mut out: Vec<CommittedBufferSet> = Vec::new();
        std::mem::swap(&mut self.committed, &mut out);
        out
    }
}

} // verus!
