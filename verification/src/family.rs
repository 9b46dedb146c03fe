//! Per-queue-family upload management: the per-queue recording slots,
//! the FIFO of submitted batches, and the free-lists of reusable fences
//! and command buffers.
//!
//! The queue-slot state machine per queue index is
//! `Idle -> Recording -> Submitted -> Idle`: a batch is created lazily on
//! the first upload aimed at an idle slot, sealed and submitted exactly
//! once by a flush, and reclaimed — strictly in submission order — once
//! its fence is observed signaled.

use vstd::prelude::*;
use crate::batch::{Barriers, Batch, BufferBarrier, Command, ImageBarrier, PendingBatch, QueueSlot};

verus! {

/// Everything a queue family's upload manager owns: free-lists of idle
/// fences and command buffers (barrier-kind and copy-kind tracked
/// separately), the per-queue recording slots, the FIFO of submitted
/// batches, the barrier accumulator, and the counters that mint fresh
/// resource handles.
#[derive(Clone, Debug, PartialEq, Eq)]
pub struct FamilyUploads {
    /// Idle fences available for reuse.
    pub fences: Vec<u64>,
    /// Idle copy-kind command buffers available for reuse.
    pub command_buffers: Vec<u64>,
    /// Idle barrier-kind command buffers available for reuse.
    pub barriers_buffers: Vec<u64>,
    /// One slot per queue index; indices past the end are idle.
    pub next: Vec<QueueSlot>,
    /// Submitted batches, oldest first.
    pub pending: Vec<PendingBatch>,
    /// Accumulated barrier requests, emitted on the next flush.
    pub barriers: Barriers,
    /// Next fresh fence handle; every fence handle held anywhere in this
    /// family was minted below this counter.
    pub next_fence_id: u64,
    /// Next fresh command-buffer handle.
    pub next_buffer_id: u64,
}

/// The slot of queue `q`, idle when `q` lies past the end of the vector.
pub open spec fn slot_of(f: FamilyUploads, q: int) -> QueueSlot {
    if 0 <= q < f.next@.len() {
        f.next@[q]
    } else {
        QueueSlot::Idle
    }
}

/// Taking one resource from a free-list, or minting a fresh handle from
/// the counter: yields the resource, the remaining free-list, and the
/// new counter value.
pub open spec fn spec_alloc(free: Seq<u64>, counter: int) -> (int, Seq<u64>, int) {
    if free.len() > 0 {
        (free.last() as int, free.drop_last(), counter)
    } else {
        (counter, free, counter + 1)
    }
}

/// The free-lists and handle counters of `a` and `b` agree.
pub open spec fn same_free_lists(a: FamilyUploads, b: FamilyUploads) -> bool {
    &&& a.fences@ == b.fences@
    &&& a.command_buffers@ == b.command_buffers@
    &&& a.barriers_buffers@ == b.barriers_buffers@
    &&& a.next_fence_id == b.next_fence_id
    &&& a.next_buffer_id == b.next_buffer_id
}

/// `b` was equipped from `pre`'s free-lists: its fence and command
/// buffers are the popped free-list tails where available and freshly
/// minted handles otherwise, and `post` holds the remainders.
pub open spec fn batch_allocation(pre: FamilyUploads, post: FamilyUploads, b: Batch) -> bool {
    let (fence, fences2, nf) = spec_alloc(pre.fences@, pre.next_fence_id as int);
    let (cb, cbs2, nb1) = spec_alloc(pre.command_buffers@, pre.next_buffer_id as int);
    let (bb, bbs2, nb2) = spec_alloc(pre.barriers_buffers@, nb1);
    &&& b.fence == fence
    &&& b.command_buffer == cb
    &&& b.barriers_buffer == bb
    &&& post.fences@ == fences2
    &&& post.command_buffers@ == cbs2
    &&& post.barriers_buffers@ == bbs2
    &&& post.next_fence_id == nf
    &&& post.next_buffer_id == nb2
}

/// One upload recorded into queue `q`: command `c` and staging buffer
/// `s` joined the existing recording batch, or a freshly equipped batch
/// holding exactly them; every other slot, the pending FIFO and the
/// barrier accumulator are untouched.
pub open spec fn upload_core(
    pre: FamilyUploads,
    post: FamilyUploads,
    q: int,
    c: Command,
    s: u64,
) -> bool {
    &&& post.pending@ == pre.pending@
    &&& 0 <= q < post.next@.len()
    &&& post.next@.len() == if q < pre.next@.len() {
        pre.next@.len() as int
    } else {
        q + 1
    }
    &&& forall|i: int| 0 <= i < post.next@.len() && i != q ==> post.next@[i] == slot_of(pre, i)
    &&& match slot_of(pre, q) {
        QueueSlot::Recording(b0) => {
            &&& post.next@[q] matches QueueSlot::Recording(b)
                && b.commands@ == b0.commands@.push(c)
                && b.staging_buffers@ == b0.staging_buffers@.push(s)
                && b.fence == b0.fence
                && b.command_buffer == b0.command_buffer
                && b.barriers_buffer == b0.barriers_buffer
            &&& same_free_lists(pre, post)
        },
        QueueSlot::Idle => {
            &&& post.next@[q] matches QueueSlot::Recording(b)
                && b.commands@ == seq![c]
                && b.staging_buffers@ == seq![s]
                && batch_allocation(pre, post, b)
        },
    }
}

/// As [`upload_core`], with the barrier accumulator untouched as well.
pub open spec fn upload_recorded(
    pre: FamilyUploads,
    post: FamilyUploads,
    q: int,
    c: Command,
    s: u64,
) -> bool {
    &&& post.barriers == pre.barriers
    &&& upload_core(pre, post, q, c, s)
}

/// A buffer upload was applied to the family: the transition `bar`
/// joined the barrier accumulator and the copy was recorded as in
/// [`upload_core`].
pub open spec fn buffer_upload_applied(
    pre: FamilyUploads,
    post: FamilyUploads,
    q: int,
    c: Command,
    s: u64,
    bar: BufferBarrier,
) -> bool {
    &&& post.barriers.buffer_barriers@ == pre.barriers.buffer_barriers@.push(bar)
    &&& post.barriers.image_barriers@ == pre.barriers.image_barriers@
    &&& post.barriers.transfer_stage == pre.barriers.transfer_stage
    &&& post.barriers.buffer_transfer_access == pre.barriers.buffer_transfer_access
    &&& post.barriers.image_transfer_access == pre.barriers.image_transfer_access
    &&& upload_core(pre, post, q, c, s)
}

/// An image upload was applied to the family: the transition `bar`
/// joined the barrier accumulator and the copy was recorded as in
/// [`upload_core`].
pub open spec fn image_upload_applied(
    pre: FamilyUploads,
    post: FamilyUploads,
    q: int,
    c: Command,
    s: u64,
    bar: ImageBarrier,
) -> bool {
    &&& post.barriers.image_barriers@ == pre.barriers.image_barriers@.push(bar)
    &&& post.barriers.buffer_barriers@ == pre.barriers.buffer_barriers@
    &&& post.barriers.transfer_stage == pre.barriers.transfer_stage
    &&& post.barriers.buffer_transfer_access == pre.barriers.buffer_transfer_access
    &&& post.barriers.image_transfer_access == pre.barriers.image_transfer_access
    &&& upload_core(pre, post, q, c, s)
}

/// Some queue slot is recording.
pub open spec fn has_recording(slots: Seq<QueueSlot>) -> bool {
    exists|i: int| 0 <= i < slots.len() && slots[i] is Recording
}

/// `p` is the submitted form of recording batch `b` on queue `q`,
/// carrying the emitted barrier sequences `bb` and `ib`.
pub open spec fn is_flushed_batch(
    p: PendingBatch,
    b: Batch,
    q: int,
    bb: Seq<BufferBarrier>,
    ib: Seq<ImageBarrier>,
) -> bool {
    &&& p.queue_index == q
    &&& p.barriers_buffer == b.barriers_buffer
    &&& p.command_buffer == b.command_buffer
    &&& p.buffer_barriers@ == bb
    &&& p.image_barriers@ == ib
    &&& p.commands@ == b.commands@
    &&& p.staging_buffers@ == b.staging_buffers@
    &&& p.fence == b.fence
}

/// `out` is exactly the sequence of submitted batches that a flush makes
/// from `slots`: one per recording slot, in queue-index order, where the
/// accumulated barriers `bb`/`ib` are emitted into the first of them and
/// every later one carries none (the accumulator is emptied by the first
/// emission).
pub open spec fn flushed_matches(
    slots: Seq<QueueSlot>,
    bb: Seq<BufferBarrier>,
    ib: Seq<ImageBarrier>,
    out: Seq<PendingBatch>,
) -> bool
    decreases slots.len(),
{
    if slots.len() == 0 {
        out.len() == 0
    } else {
        match slots.last() {
            QueueSlot::Idle => flushed_matches(slots.drop_last(), bb, ib, out),
            QueueSlot::Recording(b) => {
                &&& out.len() >= 1
                &&& is_flushed_batch(
                    out.last(),
                    b,
                    slots.len() - 1,
                    if has_recording(slots.drop_last()) {
                        Seq::empty()
                    } else {
                        bb
                    },
                    if has_recording(slots.drop_last()) {
                        Seq::empty()
                    } else {
                        ib
                    },
                )
                &&& flushed_matches(slots.drop_last(), bb, ib, out.drop_last())
            },
        }
    }
}

/// A flush happened: every recording batch moved, in queue-index order,
/// to the tail of the pending FIFO with the accumulated barriers emitted
/// into the first of them; every slot is idle afterwards; free-lists are
/// untouched; the accumulator is empty if anything consumed it.
pub open spec fn family_flushed(pre: FamilyUploads, post: FamilyUploads) -> bool {
    &&& post.next@.len() == 0
    &&& post.pending@.len() >= pre.pending@.len()
    &&& post.pending@.take(pre.pending@.len() as int) == pre.pending@
    &&& flushed_matches(
        pre.next@,
        pre.barriers.buffer_barriers@,
        pre.barriers.image_barriers@,
        post.pending@.skip(pre.pending@.len() as int),
    )
    &&& same_free_lists(pre, post)
    &&& post.barriers.transfer_stage == pre.barriers.transfer_stage
    &&& post.barriers.buffer_transfer_access == pre.barriers.buffer_transfer_access
    &&& post.barriers.image_transfer_access == pre.barriers.image_transfer_access
    &&& post.barriers.buffer_barriers@ == if has_recording(pre.next@) {
        Seq::<BufferBarrier>::empty()
    } else {
        pre.barriers.buffer_barriers@
    }
    &&& post.barriers.image_barriers@ == if has_recording(pre.next@) {
        Seq::<ImageBarrier>::empty()
    } else {
        pre.barriers.image_barriers@
    }
}

/// Length of the longest FIFO prefix whose fences are all observed
/// signaled: reclamation stops at the first batch whose fence is not.
pub open spec fn signaled_prefix_len(pending: Seq<PendingBatch>, sig: Seq<u64>) -> int
    decreases pending.len(),
{
    if pending.len() == 0 {
        0
    } else if !sig.contains(pending[0].fence) {
        0
    } else {
        1 + signaled_prefix_len(pending.drop_first(), sig)
    }
}

/// The fences of the submitted batches, oldest first.
pub open spec fn fences_of(p: Seq<PendingBatch>) -> Seq<u64> {
    p.map_values(|b: PendingBatch| b.fence)
}

/// The copy command buffers of the submitted batches, oldest first.
pub open spec fn copy_buffers_of(p: Seq<PendingBatch>) -> Seq<u64> {
    p.map_values(|b: PendingBatch| b.command_buffer)
}

/// The barrier command buffers of the submitted batches, oldest first.
pub open spec fn barrier_buffers_of(p: Seq<PendingBatch>) -> Seq<u64> {
    p.map_values(|b: PendingBatch| b.barriers_buffer)
}

/// The staging-buffer lists of the submitted batches, oldest first.
pub open spec fn staging_of(p: Seq<PendingBatch>) -> Seq<Seq<u64>> {
    p.map_values(|b: PendingBatch| b.staging_buffers@)
}

/// A cleanup happened under the observed signal set `sig`: exactly the
/// longest all-signaled FIFO prefix was reclaimed — its fences and
/// command buffers went back to the free-lists in FIFO order, and
/// `released` lists its staging buffers, oldest batch first, in
/// recording order within each batch. Everything else is untouched.
pub open spec fn family_cleaned(
    pre: FamilyUploads,
    post: FamilyUploads,
    sig: Seq<u64>,
    released: Seq<u64>,
) -> bool {
    let k = signaled_prefix_len(pre.pending@, sig);
    &&& post.pending@ == pre.pending@.skip(k)
    &&& post.fences@ == pre.fences@ + fences_of(pre.pending@.take(k))
    &&& post.command_buffers@ == pre.command_buffers@ + copy_buffers_of(pre.pending@.take(k))
    &&& post.barriers_buffers@ == pre.barriers_buffers@ + barrier_buffers_of(pre.pending@.take(k))
    &&& released == staging_of(pre.pending@.take(k)).flatten()
    &&& post.next@ == pre.next@
    &&& post.barriers == pre.barriers
    &&& post.next_fence_id == pre.next_fence_id
    &&& post.next_buffer_id == pre.next_buffer_id
}

/// The command buffers of the submitted batches, oldest first, copy
/// buffer before barrier buffer within each batch.
pub open spec fn pending_buffers(p: Seq<PendingBatch>) -> Seq<u64>
    decreases p.len(),
{
    if p.len() == 0 {
        Seq::empty()
    } else {
        pending_buffers(p.drop_last()) + seq![p.last().command_buffer, p.last().barriers_buffer]
    }
}

/// The fences of the recording batches, in queue-index order.
pub open spec fn recording_fences(slots: Seq<QueueSlot>) -> Seq<u64>
    decreases slots.len(),
{
    if slots.len() == 0 {
        Seq::empty()
    } else {
        recording_fences(slots.drop_last()) + match slots.last() {
            QueueSlot::Idle => Seq::empty(),
            QueueSlot::Recording(b) => seq![b.fence],
        }
    }
}

/// The command buffers of the recording batches, in queue-index order,
/// copy buffer before barrier buffer within each batch.
pub open spec fn recording_buffers(slots: Seq<QueueSlot>) -> Seq<u64>
    decreases slots.len(),
{
    if slots.len() == 0 {
        Seq::empty()
    } else {
        recording_buffers(slots.drop_last()) + match slots.last() {
            QueueSlot::Idle => Seq::empty(),
            QueueSlot::Recording(b) => seq![b.command_buffer, b.barriers_buffer],
        }
    }
}

/// Every fence a family still holds: submitted batches' fences oldest
/// first, then the idle free-list, then the recording batches' fences in
/// queue-index order.
pub open spec fn family_destroyed_fences(f: FamilyUploads) -> Seq<u64> {
    fences_of(f.pending@) + f.fences@ + recording_fences(f.next@)
}

/// Every command buffer a family still holds: submitted batches' buffers
/// oldest first, then the two idle free-lists, then the recording
/// batches' buffers in queue-index order.
pub open spec fn family_freed_buffers(f: FamilyUploads) -> Seq<u64> {
    pending_buffers(f.pending@) + f.command_buffers@ + f.barriers_buffers@ + recording_buffers(
        f.next@,
    )
}

/// What a teardown destroyed: every fence and command buffer the family
/// still held, wherever it sat in the lifecycle.
#[derive(Clone, Debug, PartialEq, Eq)]
pub struct DisposeReport {
    /// Handles of the destroyed fences.
    pub destroyed_fences: Vec<u64>,
    /// Handles of the freed command buffers.
    pub freed_buffers: Vec<u64>,
}

/// `v@.contains(x)`, decided by a scan.
pub fn contains_u64(v: &Vec<u64>, x: u64) -> (r: bool)
    ensures
        r == v@.contains(x),
{
    let mut i: usize = 0;
    while i < v.len()
        invariant
            i <= v@.len(),
            forall|j: int| 0 <= j < i ==> v@[j] != x,
        decreases v@.len() - i,
    {
        if v[i] == x {
            assert(v@.contains(x)) by {
                assert(v@[i as int] == x);
            }
            return true;
        }
        i = i + 1;
    }
    false
}

impl FamilyUploads {
    /// A fresh upload manager: nothing recording, nothing pending,
    /// empty free-lists, and a barrier accumulator with the given
    /// transfer-time defaults.
    pub fn new(transfer_stage: u32, buffer_transfer_access: u32, image_transfer_access: u32) -> (r:
        Self)
        ensures
            r.fences@ =~= Seq::<u64>::empty(),
            r.command_buffers@ =~= Seq::<u64>::empty(),
            r.barriers_buffers@ =~= Seq::<u64>::empty(),
            r.next@ =~= Seq::<QueueSlot>::empty(),
            r.pending@ =~= Seq::<PendingBatch>::empty(),
            r.barriers.buffer_barriers@ =~= Seq::<BufferBarrier>::empty(),
            r.barriers.image_barriers@ =~= Seq::<ImageBarrier>::empty(),
            r.barriers.transfer_stage == transfer_stage,
            r.barriers.buffer_transfer_access == buffer_transfer_access,
            r.barriers.image_transfer_access == image_transfer_access,
            r.next_fence_id == 0,
            r.next_buffer_id == 0,
    {
        FamilyUploads {
            fences: Vec::new(),
            command_buffers: Vec::new(),
            barriers_buffers: Vec::new(),
            next: Vec::new(),
            pending: Vec::new(),
            barriers: Barriers::new(
                transfer_stage,
                buffer_transfer_access,
                image_transfer_access,
            ),
            next_fence_id: 0,
            next_buffer_id: 0,
        }
    }

    /// Record one upload into queue `queue`: reuse that queue's
    /// recording batch if one exists, otherwise equip a new batch from
    /// the free-lists (minting fresh handles where a list is empty) and
    /// begin recording into it.
    pub fn record_upload(&mut self, queue: usize, c: Command, s: u64)
        requires
            old(self).next_fence_id < 0xffff_ffff_ffff_ffff,
            old(self).next_buffer_id < 0xffff_ffff_ffff_fffe,
            queue < 0xffff_ffff_ffff_ffff,
        ensures
            upload_recorded(*old(self), *final(self), queue as int, c, s),
    {
        while self.next.len() <= queue
            invariant
                self.next@.len() <= queue + 1 || self.next@.len() == old(self).next@.len(),
                self.fences@ == old(self).fences@,
                self.command_buffers@ == old(self).command_buffers@,
                self.barriers_buffers@ == old(self).barriers_buffers@,
                self.pending@ == old(self).pending@,
                self.barriers == old(self).barriers,
                self.next_fence_id == old(self).next_fence_id,
                self.next_buffer_id == old(self).next_buffer_id,
                self.next@.len() >= old(self).next@.len(),
                forall|i: int| 0 <= i < self.next@.len() ==> self.next@[i] == slot_of(*old(self), i),
            decreases queue + 1 - self.next@.len(),
        {
            self.next.push(QueueSlot::Idle);
        }
        let ghost grown = self.next@;
        let slot = self.next.remove(queue);
        match slot {
            QueueSlot::Recording(mut b) => {
                b.commands.push(c);
                b.staging_buffers.push(s);
                let ghost bg = b;
                self.next.insert(queue, QueueSlot::Recording(b));
                proof {
                    assert(self.next@ =~= grown.update(queue as int, QueueSlot::Recording(bg)));
                }
            },
            QueueSlot::Idle => {
                let fence: u64 = match self.fences.pop() {
                    Some(f) => f,
                    None => {
                        let f = self.next_fence_id;
                        self.next_fence_id = self.next_fence_id + 1;
                        f
                    },
                };
                let command_buffer: u64 = match self.command_buffers.pop() {
                    Some(cb) => cb,
                    None => {
                        let cb = self.next_buffer_id;
                        self.next_buffer_id = self.next_buffer_id + 1;
                        cb
                    },
                };
                let barriers_buffer: u64 = match self.barriers_buffers.pop() {
                    Some(bb) => bb,
                    None => {
                        let bb = self.next_buffer_id;
                        self.next_buffer_id = self.next_buffer_id + 1;
                        bb
                    },
                };
                let mut commands: Vec<Command> = Vec::new();
                commands.push(c);
                let mut staging_buffers: Vec<u64> = Vec::new();
                staging_buffers.push(s);
                let b = Batch { barriers_buffer, command_buffer, commands, staging_buffers, fence };
                let ghost bg = b;
                self.next.insert(queue, QueueSlot::Recording(b));
                proof {
                    assert(self.next@ =~= grown.update(queue as int, QueueSlot::Recording(bg)));
                    assert(bg.commands@ =~= seq![c]);
                    assert(bg.staging_buffers@ =~= seq![s]);
                }
            },
        }
    }

    /// Seal and submit every recording batch: move each, in queue-index
    /// order, to the tail of the pending FIFO, emitting the accumulated
    /// barriers into the first of them. A queue with no recording batch
    /// contributes no submission; afterwards no queue is recording.
    pub fn flush(&mut self)
        ensures
            family_flushed(*old(self), *final(self)),
    {
        let ghost s0 = old(self).next@;
        let ghost n0 = old(self).pending@.len() as int;
        let ghost bb0 = old(self).barriers.buffer_barriers@;
        let ghost ib0 = old(self).barriers.image_barriers@;
        let mut slots: Vec<QueueSlot> = Vec::new();
        core::mem::swap(&mut self.next, &mut slots);
        let mut q: usize = 0;
        let mut consumed: bool = false;
        proof {
            assert(s0.take(0) =~= Seq::<QueueSlot>::empty());
            assert(slots@ =~= s0.skip(0));
            assert(self.pending@.take(n0) =~= old(self).pending@);
            assert(self.pending@.skip(n0) =~= Seq::<PendingBatch>::empty());
        }
        let total: usize = slots.len();
        while slots.len() > 0
            invariant
                s0 == old(self).next@,
                bb0 == old(self).barriers.buffer_barriers@,
                ib0 == old(self).barriers.image_barriers@,
                total == s0.len(),
                q + slots@.len() == s0.len(),
                slots@ == s0.skip(q as int),
                self.next@.len() == 0,
                self.pending@.len() >= n0,
                self.pending@.take(n0) == old(self).pending@,
                n0 == old(self).pending@.len(),
                flushed_matches(s0.take(q as int), bb0, ib0, self.pending@.skip(n0)),
                consumed == has_recording(s0.take(q as int)),
                self.barriers.buffer_barriers@ == if consumed {
                    Seq::<BufferBarrier>::empty()
                } else {
                    bb0
                },
                self.barriers.image_barriers@ == if consumed {
                    Seq::<ImageBarrier>::empty()
                } else {
                    ib0
                },
                self.barriers.transfer_stage == old(self).barriers.transfer_stage,
                self.barriers.buffer_transfer_access == old(self).barriers.buffer_transfer_access,
                self.barriers.image_transfer_access == old(self).barriers.image_transfer_access,
                same_free_lists(*old(self), *self),
            decreases slots@.len(),
        {
            proof {
                assert(s0.skip(q as int)[0] == s0[q as int]);
                assert(s0.take(q as int + 1).drop_last() =~= s0.take(q as int));
                assert(s0.take(q as int + 1).last() == s0[q as int]);
                assert(s0.skip(q as int).remove(0) =~= s0.skip(q as int + 1));
            }
            let slot = slots.remove(0);
            match slot {
                QueueSlot::Idle => {
                    proof {
                        if consumed {
                            let i0 = choose|i: int|
                                0 <= i < q as int && s0.take(q as int)[i] is Recording;
                            assert(s0.take(q as int + 1)[i0] is Recording);
                            assert(has_recording(s0.take(q as int + 1)));
                        } else {
                            assert forall|i: int| 0 <= i < q as int + 1 implies !(#[trigger] s0.take(
                                q as int + 1,
                            )[i] is Recording) by {
                                if i < q as int {
                                    assert(s0.take(q as int + 1)[i] == s0.take(q as int)[i]);
                                    assert(!has_recording(s0.take(q as int)));
                                } else {
                                    assert(s0.take(q as int + 1)[i] == s0[q as int]);
                                }
                            }
                            assert(!has_recording(s0.take(q as int + 1)));
                        }
                    }
                },
                QueueSlot::Recording(b) => {
                    let mut bbv: Vec<BufferBarrier> = Vec::new();
                    let mut ibv: Vec<ImageBarrier> = Vec::new();
                    let ghost consumed_before = consumed;
                    if !consumed {
                        core::mem::swap(&mut self.barriers.buffer_barriers, &mut bbv);
                        core::mem::swap(&mut self.barriers.image_barriers, &mut ibv);
                        consumed = true;
                    }
                    let p = PendingBatch {
                        queue_index: q,
                        barriers_buffer: b.barriers_buffer,
                        command_buffer: b.command_buffer,
                        buffer_barriers: bbv,
                        image_barriers: ibv,
                        commands: b.commands,
                        staging_buffers: b.staging_buffers,
                        fence: b.fence,
                    };
                    let ghost pg = p;
                    let ghost pend_before = self.pending@;
                    self.pending.push(p);
                    proof {
                        assert(self.pending@.take(n0) =~= pend_before.take(n0));
                        assert(self.pending@.skip(n0) =~= pend_before.skip(n0).push(pg));
                        assert(self.pending@.skip(n0).drop_last() =~= pend_before.skip(n0));
                        assert(s0.take(q as int + 1)[q as int] is Recording);
                        assert(has_recording(s0.take(q as int + 1)));
                        assert(is_flushed_batch(
                            pg,
                            b,
                            q as int,
                            if consumed_before {
                                Seq::empty()
                            } else {
                                bb0
                            },
                            if consumed_before {
                                Seq::empty()
                            } else {
                                ib0
                            },
                        ));
                        assert(flushed_matches(
                            s0.take(q as int + 1),
                            bb0,
                            ib0,
                            self.pending@.skip(n0),
                        ));
                    }
                },
            }
            q = q + 1;
        }
        proof {
            assert(s0.take(s0.len() as int) =~= s0);
        }
    }

    /// Reclaim completed batches from the front of the FIFO: while the
    /// oldest batch's fence is among `signaled`, return its command
    /// buffers and fence to the free-lists and hand back the staging
    /// buffers it owned. Stops at the first batch whose fence is not
    /// observed signaled, so reclamation never overtakes submission
    /// order.
    pub fn cleanup(&mut self, signaled: &Vec<u64>) -> (released: Vec<u64>)
        ensures
            family_cleaned(*old(self), *final(self), signaled@, released@),
    {
        let ghost p0 = old(self).pending@;
        let ghost sg = signaled@;
        let mut released: Vec<u64> = Vec::new();
        let ghost t: int = 0;
        proof {
            assert(p0.take(0) =~= Seq::<PendingBatch>::empty());
            assert(fences_of(p0.take(0)) =~= Seq::<u64>::empty());
            assert(copy_buffers_of(p0.take(0)) =~= Seq::<u64>::empty());
            assert(barrier_buffers_of(p0.take(0)) =~= Seq::<u64>::empty());
            assert(staging_of(p0.take(0)).flatten() =~= Seq::<u64>::empty());
            assert(self.fences@ =~= old(self).fences@ + fences_of(p0.take(0)));
            assert(self.command_buffers@ =~= old(self).command_buffers@ + copy_buffers_of(
                p0.take(0),
            ));
            assert(self.barriers_buffers@ =~= old(self).barriers_buffers@ + barrier_buffers_of(
                p0.take(0),
            ));
            assert(p0.skip(0) =~= p0);
        }
        loop
            invariant_except_break
                p0 == old(self).pending@,
                sg == signaled@,
                0 <= t <= p0.len(),
                self.pending@ == p0.skip(t),
                signaled_prefix_len(p0, sg) == t + signaled_prefix_len(p0.skip(t), sg),
                self.fences@ == old(self).fences@ + fences_of(p0.take(t)),
                self.command_buffers@ == old(self).command_buffers@ + copy_buffers_of(p0.take(t)),
                self.barriers_buffers@ == old(self).barriers_buffers@ + barrier_buffers_of(
                    p0.take(t),
                ),
                released@ == staging_of(p0.take(t)).flatten(),
                self.next@ == old(self).next@,
                self.barriers == old(self).barriers,
                self.next_fence_id == old(self).next_fence_id,
                self.next_buffer_id == old(self).next_buffer_id,
            ensures
                t == signaled_prefix_len(p0, sg),
                self.pending@ == p0.skip(t),
                self.fences@ == old(self).fences@ + fences_of(p0.take(t)),
                self.command_buffers@ == old(self).command_buffers@ + copy_buffers_of(p0.take(t)),
                self.barriers_buffers@ == old(self).barriers_buffers@ + barrier_buffers_of(
                    p0.take(t),
                ),
                released@ == staging_of(p0.take(t)).flatten(),
                self.next@ == old(self).next@,
                self.barriers == old(self).barriers,
                self.next_fence_id == old(self).next_fence_id,
                self.next_buffer_id == old(self).next_buffer_id,
            decreases p0.len() - t,
        {
            if self.pending.len() == 0 {
                proof {
                    assert(signaled_prefix_len(p0.skip(t), sg) == 0);
                }
                break ;
            }
            let fence = self.pending[0].fence;
            proof {
                assert(p0.skip(t)[0] == p0[t]);
            }
            if !contains_u64(signaled, fence) {
                proof {
                    assert(signaled_prefix_len(p0.skip(t), sg) == 0);
                }
                break ;
            }
            let p = self.pending.remove(0);
            self.fences.push(p.fence);
            self.command_buffers.push(p.command_buffer);
            self.barriers_buffers.push(p.barriers_buffer);
            let mut sbv = p.staging_buffers;
            released.append(&mut sbv);
            proof {
                assert(p0.skip(t).remove(0) =~= p0.skip(t + 1));
                assert(p0.skip(t).drop_first() =~= p0.skip(t + 1));
                assert(signaled_prefix_len(p0.skip(t), sg) == 1 + signaled_prefix_len(
                    p0.skip(t + 1),
                    sg,
                ));
                assert(fences_of(p0.take(t + 1)) =~= fences_of(p0.take(t)).push(p0[t].fence));
                assert(copy_buffers_of(p0.take(t + 1)) =~= copy_buffers_of(p0.take(t)).push(
                    p0[t].command_buffer,
                ));
                assert(barrier_buffers_of(p0.take(t + 1)) =~= barrier_buffers_of(p0.take(t)).push(
                    p0[t].barriers_buffer,
                ));
                assert(staging_of(p0.take(t + 1)) =~= staging_of(p0.take(t)).push(
                    p0[t].staging_buffers@,
                ));
                staging_of(p0.take(t)).lemma_flatten_push(p0[t].staging_buffers@);
                t = t + 1;
            }
        }
        released
    }

    /// Tear the family down, bypassing the fence-wait path: destroy
    /// every fence and free every command buffer it still holds —
    /// submitted, idle, or mid-recording. The caller must know the
    /// device to be idle; nothing is awaited here, and staging buffers
    /// of still-pending batches are dropped without a completion check.
    pub fn dispose(self) -> (r: DisposeReport)
        ensures
            r.destroyed_fences@ == family_destroyed_fences(self),
            r.freed_buffers@ == family_freed_buffers(self),
    {
        let FamilyUploads {
            mut fences,
            mut command_buffers,
            mut barriers_buffers,
            next,
            pending,
            ..
        } = self;
        let mut destroyed_fences: Vec<u64> = Vec::new();
        let mut freed_buffers: Vec<u64> = Vec::new();
        proof {
            assert(pending@.take(0) =~= Seq::<PendingBatch>::empty());
            assert(destroyed_fences@ =~= fences_of(pending@.take(0)));
            assert(freed_buffers@ =~= pending_buffers(pending@.take(0)));
        }
        let mut i: usize = 0;
        while i < pending.len()
            invariant
                i <= pending@.len(),
                pending@ == self.pending@,
                destroyed_fences@ == fences_of(pending@.take(i as int)),
                freed_buffers@ == pending_buffers(pending@.take(i as int)),
            decreases pending@.len() - i,
        {
            destroyed_fences.push(pending[i].fence);
            freed_buffers.push(pending[i].command_buffer);
            freed_buffers.push(pending[i].barriers_buffer);
            proof {
                assert(pending@.take(i as int + 1).drop_last() =~= pending@.take(i as int));
                assert(pending@.take(i as int + 1).last() == pending@[i as int]);
                assert(fences_of(pending@.take(i as int + 1)) =~= fences_of(
                    pending@.take(i as int),
                ).push(pending@[i as int].fence));
                assert(freed_buffers@ =~= pending_buffers(pending@.take(i as int)) + seq![
                    pending@[i as int].command_buffer,
                    pending@[i as int].barriers_buffer,
                ]);
            }
            i = i + 1;
        }
        proof {
            assert(pending@.take(pending@.len() as int) =~= pending@);
        }
        destroyed_fences.append(&mut fences);
        freed_buffers.append(&mut command_buffers);
        freed_buffers.append(&mut barriers_buffers);
        proof {
            assert(next@.take(0) =~= Seq::<QueueSlot>::empty());
            assert(recording_fences(next@.take(0)) =~= Seq::<u64>::empty());
            assert(destroyed_fences@ =~= fences_of(self.pending@) + self.fences@
                + recording_fences(next@.take(0)));
            assert(freed_buffers@ =~= pending_buffers(self.pending@) + self.command_buffers@
                + self.barriers_buffers@ + recording_buffers(next@.take(0)));
        }
        let mut j: usize = 0;
        while j < next.len()
            invariant
                j <= next@.len(),
                next@ == self.next@,
                destroyed_fences@ == fences_of(self.pending@) + self.fences@ + recording_fences(
                    next@.take(j as int),
                ),
                freed_buffers@ == pending_buffers(self.pending@) + self.command_buffers@
                    + self.barriers_buffers@ + recording_buffers(next@.take(j as int)),
            decreases next@.len() - j,
        {
            proof {
                assert(next@.take(j as int + 1).drop_last() =~= next@.take(j as int));
                assert(next@.take(j as int + 1).last() == next@[j as int]);
            }
            match &next[j] {
                QueueSlot::Idle => {
                    proof {
                        assert(recording_fences(next@.take(j as int + 1)) =~= recording_fences(
                            next@.take(j as int),
                        ));
                        assert(recording_buffers(next@.take(j as int + 1)) =~= recording_buffers(
                            next@.take(j as int),
                        ));
                    }
                },
                QueueSlot::Recording(b) => {
                    destroyed_fences.push(b.fence);
                    freed_buffers.push(b.command_buffer);
                    freed_buffers.push(b.barriers_buffer);
                },
            }
            j = j + 1;
        }
        proof {
            assert(next@.take(next@.len() as int) =~= next@);
        }
        DisposeReport { destroyed_fences, freed_buffers }
    }
}

} // verus!

