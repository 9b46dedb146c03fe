//! The scheduler's ordering guarantees, stated and proved once and for
//! all: single recording batch per queue between flushes, flush moving
//! every recording batch (and nothing else) into the FIFO, reclamation
//! strictly in submission order, and the whole-image layout rule.

use vstd::prelude::*;
use crate::batch::{BufferBarrier, Command, ImageBarrier, PendingBatch, QueueSlot};
use crate::family::{
    family_cleaned, family_flushed, flushed_matches, signaled_prefix_len, slot_of, upload_core,
    FamilyUploads,
};
use crate::scheduler::spec_resolve_last;
use crate::state::{ImageStateOrLayout, Layout};

verus! {

/// Between two flushes, all uploads aimed at one queue land in a single
/// batch: starting from an idle slot, a run of recorded uploads leaves
/// the queue's slot recording one batch that holds exactly those
/// commands and staging buffers, in request order, and leaves the
/// pending FIFO untouched.
pub proof fn lemma_single_recording_batch(
    states: Seq<FamilyUploads>,
    q: int,
    cmds: Seq<Command>,
    stg: Seq<u64>,
)
    requires
        states.len() == cmds.len() + 1,
        stg.len() == cmds.len(),
        cmds.len() > 0,
        slot_of(states[0], q) is Idle,
        forall|i: int|
            0 <= i < cmds.len() ==> upload_core(
                #[trigger] states[i],
                states[i + 1],
                q,
                cmds[i],
                stg[i],
            ),
    ensures
        slot_of(states.last(), q) matches QueueSlot::Recording(b) && b.commands@ == cmds
            && b.staging_buffers@ == stg,
        states.last().pending@ == states[0].pending@,
    decreases cmds.len(),
{
    let n = cmds.len() as int;
    if n == 1 {
        assert(upload_core(states[0], states[1], q, cmds[0], stg[0]));
        assert(cmds =~= seq![cmds[0]]);
        assert(stg =~= seq![stg[0]]);
    } else {
        assert forall|i: int| 0 <= i < n - 1 implies upload_core(
            #[trigger] states.drop_last()[i],
            states.drop_last()[i + 1],
            q,
            cmds.drop_last()[i],
            stg.drop_last()[i],
        ) by {
            assert(states.drop_last()[i] == states[i]);
            assert(states.drop_last()[i + 1] == states[i + 1]);
            assert(cmds.drop_last()[i] == cmds[i]);
            assert(stg.drop_last()[i] == stg[i]);
        }
        assert(states.drop_last()[0] == states[0]);
        lemma_single_recording_batch(states.drop_last(), q, cmds.drop_last(), stg.drop_last());
        assert(states.drop_last().last() == states[n - 1]);
        assert(upload_core(states[n - 1], states[n], q, cmds[n - 1], stg[n - 1]));
        assert(cmds.drop_last().push(cmds[n - 1]) =~= cmds);
        assert(stg.drop_last().push(stg[n - 1]) =~= stg);
    }
}

/// What a flush's output entries look like, entry by entry: each refers
/// back to a recording slot whose batch it carries, every recording slot
/// is represented, and entries come in strictly increasing queue order,
/// so each recording slot is represented exactly once.
proof fn lemma_flushed_entries(
    slots: Seq<QueueSlot>,
    bb: Seq<BufferBarrier>,
    ib: Seq<ImageBarrier>,
    out: Seq<PendingBatch>,
)
    requires
        flushed_matches(slots, bb, ib, out),
    ensures
        forall|j: int| 0 <= j < out.len() ==> 0 <= (#[trigger] out[j]).queue_index < slots.len(),
        forall|j: int|
            0 <= j < out.len() ==> (slots[(#[trigger] out[j]).queue_index as int] matches
            QueueSlot::Recording(b) && out[j].commands@ == b.commands@ && out[j].staging_buffers@
                == b.staging_buffers@ && out[j].fence == b.fence && out[j].command_buffer
                == b.command_buffer && out[j].barriers_buffer == b.barriers_buffer),
        forall|q: int|
            0 <= q < slots.len() && (#[trigger] slots[q]) is Recording ==> exists|j: int|
                0 <= j < out.len() && (#[trigger] out[j]).queue_index == q,
        forall|j1: int, j2: int|
            0 <= j1 < j2 < out.len() ==> (#[trigger] out[j1]).queue_index < (
            #[trigger] out[j2]).queue_index,
    decreases slots.len(),
{
    if slots.len() == 0 {
    } else {
        let m = slots.len() - 1;
        match slots.last() {
            QueueSlot::Idle => {
                lemma_flushed_entries(slots.drop_last(), bb, ib, out);
                assert forall|j: int| 0 <= j < out.len() implies 0 <= (
                #[trigger] out[j]).queue_index < slots.len() && (slots[out[j].queue_index as int]
                    matches QueueSlot::Recording(b) && out[j].commands@ == b.commands@
                    && out[j].staging_buffers@ == b.staging_buffers@ && out[j].fence == b.fence
                    && out[j].command_buffer == b.command_buffer && out[j].barriers_buffer
                    == b.barriers_buffer) by {
                    assert(slots.drop_last()[out[j].queue_index as int] == slots[out[j].queue_index as int]);
                }
                assert forall|q: int|
                    0 <= q < slots.len() && (#[trigger] slots[q]) is Recording implies exists|
                        j: int,
                    | 0 <= j < out.len() && (#[trigger] out[j]).queue_index == q by {
                    assert(q < m);
                    assert(slots.drop_last()[q] == slots[q]);
                }
            },
            QueueSlot::Recording(b_last) => {
                lemma_flushed_entries(slots.drop_last(), bb, ib, out.drop_last());
                assert(out.last().queue_index == m);
                assert forall|j: int| 0 <= j < out.len() implies 0 <= (
                #[trigger] out[j]).queue_index < slots.len() && (slots[out[j].queue_index as int]
                    matches QueueSlot::Recording(b) && out[j].commands@ == b.commands@
                    && out[j].staging_buffers@ == b.staging_buffers@ && out[j].fence == b.fence
                    && out[j].command_buffer == b.command_buffer && out[j].barriers_buffer
                    == b.barriers_buffer) by {
                    if j < out.len() - 1 {
                        assert(out.drop_last()[j] == out[j]);
                        assert(slots.drop_last()[out[j].queue_index as int] == slots[out[j].queue_index as int]);
                    } else {
                        assert(out[j] == out.last());
                        assert(slots[m] == slots.last());
                    }
                }
                assert forall|q: int|
                    0 <= q < slots.len() && (#[trigger] slots[q]) is Recording implies exists|
                        j: int,
                    | 0 <= j < out.len() && (#[trigger] out[j]).queue_index == q by {
                    if q == m {
                        assert(out[out.len() - 1].queue_index == q);
                    } else {
                        assert(slots.drop_last()[q] == slots[q]);
                        let w = choose|j: int|
                            0 <= j < out.drop_last().len() && (
                            #[trigger] out.drop_last()[j]).queue_index == q;
                        assert(out[w].queue_index == q);
                    }
                }
                assert forall|j1: int, j2: int| 0 <= j1 < j2 < out.len() implies (
                #[trigger] out[j1]).queue_index < (#[trigger] out[j2]).queue_index by {
                    if j2 < out.len() - 1 {
                        assert(out.drop_last()[j1] == out[j1]);
                        assert(out.drop_last()[j2] == out[j2]);
                    } else {
                        assert(out.drop_last()[j1] == out[j1]);
                        assert(out[j1].queue_index < m);
                    }
                }
            },
        }
    }
}

/// After a flush, no queue is recording any more; every batch that was
/// recording stands exactly once in the new tail of the pending FIFO,
/// with its commands, staging buffers and fence; and every new FIFO
/// entry comes from a queue that was recording — queues with no
/// recording batch contributed nothing.
pub proof fn lemma_flush_moves_batches(pre: FamilyUploads, post: FamilyUploads)
    requires
        family_flushed(pre, post),
    ensures
        forall|q: int| slot_of(post, q) is Idle,
        forall|q: int|
            (#[trigger] slot_of(pre, q)) matches QueueSlot::Recording(b) ==> exists|j: int|
                pre.pending@.len() <= j < post.pending@.len() && (
                #[trigger] post.pending@[j]).queue_index == q && post.pending@[j].commands@
                    == b.commands@ && post.pending@[j].staging_buffers@ == b.staging_buffers@
                    && post.pending@[j].fence == b.fence,
        forall|j: int|
            pre.pending@.len() <= j < post.pending@.len() ==> slot_of(
                pre,
                (#[trigger] post.pending@[j]).queue_index as int,
            ) is Recording,
        forall|j1: int, j2: int|
            pre.pending@.len() <= j1 < j2 < post.pending@.len() ==> (
            #[trigger] post.pending@[j1]).queue_index < (#[trigger] post.pending@[j2]).queue_index,
        post.pending@.take(pre.pending@.len() as int) == pre.pending@,
{
    let n0 = pre.pending@.len() as int;
    let out = post.pending@.skip(n0);
    lemma_flushed_entries(
        pre.next@,
        pre.barriers.buffer_barriers@,
        pre.barriers.image_barriers@,
        out,
    );
    assert(forall|j: int| n0 <= j < post.pending@.len() ==> #[trigger] post.pending@[j] == out[j - n0]);
    assert forall|q: int| (#[trigger] slot_of(pre, q)) is Recording implies exists|j: int|
        pre.pending@.len() <= j < post.pending@.len() && (#[trigger] post.pending@[j]).queue_index
            == q && post.pending@[j].commands@ == slot_of(pre, q)->0.commands@
            && post.pending@[j].staging_buffers@ == slot_of(pre, q)->0.staging_buffers@
            && post.pending@[j].fence == slot_of(pre, q)->0.fence by {
        assert(0 <= q < pre.next@.len() && pre.next@[q] is Recording);
        let w = choose|j: int| 0 <= j < out.len() && (#[trigger] out[j]).queue_index == q;
        assert(post.pending@[w + n0] == out[w]);
        assert(pre.next@[out[w].queue_index as int] matches QueueSlot::Recording(b2) && out[w].commands@ == b2.commands@);
    }
}

/// Cleanup reclaims exactly a FIFO prefix: every reclaimed batch's
/// fence was observed signaled, and if some batch stays, the oldest
/// staying batch's fence was not observed signaled and it remains at
/// the head — a later batch is never reclaimed while an earlier one is
/// outstanding, even if the later batch's fence is already signaled.
pub proof fn lemma_cleanup_fifo_order(
    pre: FamilyUploads,
    post: FamilyUploads,
    sig: Seq<u64>,
    released: Seq<u64>,
)
    requires
        family_cleaned(pre, post, sig, released),
    ensures
        post.pending@ == pre.pending@.skip(signaled_prefix_len(pre.pending@, sig)),
        forall|j: int|
            0 <= j < signaled_prefix_len(pre.pending@, sig) ==> sig.contains(
                (#[trigger] pre.pending@[j]).fence,
            ),
        signaled_prefix_len(pre.pending@, sig) < pre.pending@.len() ==> !sig.contains(
            pre.pending@[signaled_prefix_len(pre.pending@, sig)].fence,
        ) && post.pending@[0] == pre.pending@[signaled_prefix_len(pre.pending@, sig)],
{
    lemma_signaled_prefix(pre.pending@, sig);
    let k = signaled_prefix_len(pre.pending@, sig);
    if k < pre.pending@.len() {
        assert(post.pending@[0] == pre.pending@.skip(k)[0]);
    }
}

/// The reclaimed prefix is all signaled and ends at the first
/// unsignaled fence.
proof fn lemma_signaled_prefix(p: Seq<PendingBatch>, sig: Seq<u64>)
    ensures
        0 <= signaled_prefix_len(p, sig) <= p.len(),
        forall|j: int|
            0 <= j < signaled_prefix_len(p, sig) ==> sig.contains((#[trigger] p[j]).fence),
        signaled_prefix_len(p, sig) < p.len() ==> !sig.contains(
            p[signaled_prefix_len(p, sig)].fence,
        ),
    decreases p.len(),
{
    if p.len() == 0 {
    } else if !sig.contains(p[0].fence) {
    } else {
        lemma_signaled_prefix(p.drop_first(), sig);
        let k = signaled_prefix_len(p, sig);
        assert forall|j: int| 0 <= j < k implies sig.contains((#[trigger] p[j]).fence) by {
            if j > 0 {
                assert(p.drop_first()[j - 1] == p[j]);
            }
        }
        if k < p.len() {
            assert(p.drop_first()[k - 1] == p[k]);
        }
    }
}

/// A whole-image upload transitions from the undefined layout, whatever
/// prior layout or state was reported: the previous content need not be
/// preserved.
pub proof fn lemma_whole_image_from_undefined(last: ImageStateOrLayout)
    ensures
        spec_resolve_last(last, true).2 == Layout::Undefined,
{
}

} // verus!
