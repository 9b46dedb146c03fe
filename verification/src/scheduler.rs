//! The upload scheduler: one upload manager per queue family, the public
//! entry points for buffer and image uploads, and the maintenance cycle
//! of flush, cleanup and teardown.
//!
//! Callers perform the device work that the scheduler decides on: new
//! tail entries of a family's pending FIFO after a flush are what must be
//! submitted (barrier buffer first, copy buffer second, guarded by the
//! entry's fence), the fences observed signaled are fed into cleanup,
//! and cleanup hands back the staging buffers that became safe to free.

use vstd::prelude::*;
use crate::state::{
    BufferState, ImageState, ImageStateOrLayout, Layout, StageAccess, UploadError, ACCESS_NONE,
    ACCESS_TRANSFER_WRITE, STAGE_TOP_OF_PIPE, STAGE_TRANSFER,
};
use crate::batch::{
    spec_range_of, BufferBarrier, Command, Extent, ImageBarrier, Offset, StagingBuffer,
    SubresourceLayers,
};
use crate::family::{
    buffer_upload_applied, family_cleaned, family_destroyed_fences, family_flushed,
    family_freed_buffers, image_upload_applied, signaled_prefix_len, staging_of, DisposeReport,
    FamilyUploads,
};
use crate::image_meta::{spec_extent, Image};

verus! {

/// The layout an image holds during the transfer, as a total function of
/// the previous and the next layout: general wins on either side, and
/// otherwise the transfer-destination-optimal layout is used.
pub open spec fn spec_target_layout(last: Layout, next: Layout) -> Layout {
    if next == Layout::General {
        Layout::General
    } else if last == Layout::General {
        Layout::General
    } else {
        Layout::TransferDstOptimal
    }
}

/// Decide [`spec_target_layout`].
pub fn target_layout(last: Layout, next: Layout) -> (r: Layout)
    ensures
        r == spec_target_layout(last, next),
{
    match (last, next) {
        (_, Layout::General) => Layout::General,
        (Layout::General, _) => Layout::General,
        _ => Layout::TransferDstOptimal,
    }
}

/// The requested region replaces the whole image: offset zero and the
/// image's full extent.
pub open spec fn spec_whole_image(offset: Offset, extent: Extent, full: Extent) -> bool {
    offset == (Offset { x: 0, y: 0, z: 0 }) && extent == full
}

/// Stage, access and layout of the image's last use, as the barrier will
/// see them: an image without prior device use contributes the
/// top-of-pipe stage and no access; a whole-image replacement forces the
/// previous layout to undefined — the content need not be preserved —
/// whatever layout was reported.
pub open spec fn spec_resolve_last(last: ImageStateOrLayout, whole: bool) -> (u32, u32, Layout) {
    match last {
        ImageStateOrLayout::State(s) => (
            s.stage,
            s.access,
            if whole {
                Layout::Undefined
            } else {
                s.layout
            },
        ),
        ImageStateOrLayout::Layout(l) => (
            STAGE_TOP_OF_PIPE,
            ACCESS_NONE,
            if whole {
                Layout::Undefined
            } else {
                l
            },
        ),
    }
}

/// The stage and access of a prior buffer state, where one was given.
pub open spec fn spec_last_stage_access(last: Option<BufferState>) -> Option<StageAccess> {
    match last {
        Some(l) => Some(StageAccess { stage: l.stage, access: l.access }),
        None => None,
    }
}

/// The copy command a buffer upload records: the staging buffer is
/// consumed whole into `buffer` at `offset`.
pub open spec fn spec_buffer_copy(buffer: u64, offset: u64, staging: StagingBuffer) -> Command {
    Command::CopyBuffer {
        staging: staging.id,
        buffer,
        src_offset: 0,
        dst_offset: offset,
        size: staging.size,
    }
}

/// The image barrier an image upload registers.
pub open spec fn spec_image_barrier(
    image: Image,
    image_layers: SubresourceLayers,
    image_offset: Offset,
    image_extent: Extent,
    last: ImageStateOrLayout,
    next: ImageState,
) -> ImageBarrier {
    let whole = spec_whole_image(image_offset, image_extent, spec_extent(image.info.kind));
    let (last_stage, last_access, last_layout) = spec_resolve_last(last, whole);
    ImageBarrier {
        image: image.id,
        range: spec_range_of(image_layers),
        last_stage,
        last_access,
        last_layout,
        target_layout: spec_target_layout(last_layout, next.layout),
        next_stage: next.stage,
        next_access: next.access,
        next_layout: next.layout,
    }
}

/// The copy command an image upload records.
pub open spec fn spec_image_copy(
    image: Image,
    data_width: u32,
    data_height: u32,
    image_layers: SubresourceLayers,
    image_offset: Offset,
    image_extent: Extent,
    staging: StagingBuffer,
    last: ImageStateOrLayout,
    next: ImageState,
) -> Command {
    let whole = spec_whole_image(image_offset, image_extent, spec_extent(image.info.kind));
    let (_, _, last_layout) = spec_resolve_last(last, whole);
    Command::CopyBufferToImage {
        staging: staging.id,
        image: image.id,
        target_layout: spec_target_layout(last_layout, next.layout),
        buffer_offset: 0,
        buffer_width: data_width,
        buffer_height: data_height,
        layers: image_layers,
        offset: image_offset,
        extent: image_extent,
    }
}

/// A family manager in its initial state: nothing recording, nothing
/// pending, empty free-lists, and the barrier accumulator fixed at
/// transfer-stage/transfer-write defaults.
pub open spec fn initial_family(f: FamilyUploads) -> bool {
    &&& f.fences@.len() == 0
    &&& f.command_buffers@.len() == 0
    &&& f.barriers_buffers@.len() == 0
    &&& f.next@.len() == 0
    &&& f.pending@.len() == 0
    &&& f.barriers.buffer_barriers@.len() == 0
    &&& f.barriers.image_barriers@.len() == 0
    &&& f.barriers.transfer_stage == STAGE_TRANSFER
    &&& f.barriers.buffer_transfer_access == ACCESS_TRANSFER_WRITE
    &&& f.barriers.image_transfer_access == ACCESS_TRANSFER_WRITE
    &&& f.next_fence_id == 0
    &&& f.next_buffer_id == 0
}

/// The family slot went through a flush.
pub open spec fn opt_flushed(pre: Option<FamilyUploads>, post: Option<FamilyUploads>) -> bool {
    match (pre, post) {
        (Some(a), Some(b)) => family_flushed(a, b),
        (None, None) => true,
        _ => false,
    }
}

/// What a family slot's cleanup hands back under signal set `sig`.
pub open spec fn released_of(pre: Option<FamilyUploads>, sig: Seq<u64>) -> Seq<u64> {
    match pre {
        Some(f) => staging_of(f.pending@.take(signaled_prefix_len(f.pending@, sig))).flatten(),
        None => Seq::empty(),
    }
}

/// The family slot went through a cleanup under signal set `sig`.
pub open spec fn opt_cleaned(
    pre: Option<FamilyUploads>,
    post: Option<FamilyUploads>,
    sig: Seq<u64>,
) -> bool {
    match (pre, post) {
        (Some(a), Some(b)) => family_cleaned(a, b, sig, released_of(pre, sig)),
        (None, None) => true,
        _ => false,
    }
}

/// Staging buffers handed back by a cleanup of all families, in family
/// order.
pub open spec fn all_released(fams: Seq<Option<FamilyUploads>>, sig: Seq<u64>) -> Seq<u64>
    decreases fams.len(),
{
    if fams.len() == 0 {
        Seq::empty()
    } else {
        all_released(fams.drop_last(), sig) + released_of(fams.last(), sig)
    }
}

/// Fences destroyed by a teardown of all families, in family order.
pub open spec fn all_destroyed_fences(fams: Seq<Option<FamilyUploads>>) -> Seq<u64>
    decreases fams.len(),
{
    if fams.len() == 0 {
        Seq::empty()
    } else {
        all_destroyed_fences(fams.drop_last()) + match fams.last() {
            Some(f) => family_destroyed_fences(f),
            None => Seq::empty(),
        }
    }
}

/// Command buffers freed by a teardown of all families, in family order.
pub open spec fn all_freed_buffers(fams: Seq<Option<FamilyUploads>>) -> Seq<u64>
    decreases fams.len(),
{
    if fams.len() == 0 {
        Seq::empty()
    } else {
        all_freed_buffers(fams.drop_last()) + match fams.last() {
            Some(f) => family_freed_buffers(f),
            None => Seq::empty(),
        }
    }
}

/// The upload scheduler: one upload manager per queue family, indexed
/// by family index; unlisted indices hold no manager. Callers serialize
/// maintenance calls against each other and against uploads, as the
/// exclusive borrows already demand.
#[derive(Clone, Debug, PartialEq, Eq)]
pub struct Uploader {
    /// One upload manager per initialized queue family.
    pub family_uploads: Vec<Option<FamilyUploads>>,
}

impl Uploader {
    /// One upload manager per listed queue family, each in its initial
    /// state with barrier defaults fixed at transfer stage and transfer
    /// write; family indices not listed stay unoccupied.
    pub fn new(family_indices: &Vec<usize>) -> (r: Self)
        requires
            forall|j: int| 0 <= j < family_indices@.len() ==> family_indices@[j] < usize::MAX,
        ensures
            forall|i: int|
                0 <= i < r.family_uploads@.len() ==> (#[trigger] r.family_uploads@[i] matches Some(
                    f,
                ) ==> initial_family(f)),
            forall|i: int|
                0 <= i < r.family_uploads@.len() ==> ((#[trigger] r.family_uploads@[i] is Some)
                    <==> family_indices@.contains(i as usize)),
            forall|j: int|
                0 <= j < family_indices@.len() ==> (#[trigger] family_indices@[j] as int)
                    < r.family_uploads@.len(),
            family_indices@.len() == 0 ==> r.family_uploads@.len() == 0,
            r.family_uploads@.len() > 0 ==> r.family_uploads@.last() is Some,
    {
        let mut family_uploads: Vec<Option<FamilyUploads>> = Vec::new();
        let mut k: usize = 0;
        while k < family_indices.len()
            invariant
                k <= family_indices@.len(),
                forall|j: int| 0 <= j < family_indices@.len() ==> family_indices@[j] < usize::MAX,
                forall|i: int|
                    0 <= i < family_uploads@.len() ==> (#[trigger] family_uploads@[i] matches Some(
                        f,
                    ) ==> initial_family(f)),
                forall|i: int|
                    0 <= i < family_uploads@.len() ==> ((#[trigger] family_uploads@[i] is Some)
                        <==> family_indices@.take(k as int).contains(i as usize)),
                forall|j: int|
                    0 <= j < k ==> (#[trigger] family_indices@[j] as int) < family_uploads@.len(),
                k == 0 ==> family_uploads@.len() == 0,
                family_uploads@.len() > 0 ==> family_uploads@.last() is Some,
            decreases family_indices@.len() - k,
        {
            let idx = family_indices[k];
            let ghost before_grow = family_uploads@;
            while family_uploads.len() <= idx
                invariant
                    family_uploads@.len() >= before_grow.len(),
                    family_uploads@.len() <= idx + 1 || family_uploads@.len() == before_grow.len(),
                    forall|i: int|
                        0 <= i < before_grow.len() ==> family_uploads@[i] == before_grow[i],
                    forall|i: int|
                        before_grow.len() <= i < family_uploads@.len() ==> family_uploads@[i]
                            is None,
                decreases idx + 1 - family_uploads@.len(),
            {
                family_uploads.push(None);
            }
            let fam = FamilyUploads::new(STAGE_TRANSFER, ACCESS_TRANSFER_WRITE,
                ACCESS_TRANSFER_WRITE);
            let ghost grown = family_uploads@;
            let ghost famg = fam;
            let _evicted = family_uploads.remove(idx);
            family_uploads.insert(idx, Some(fam));
            proof {
                assert(family_uploads@ =~= grown.update(idx as int, Some(famg)));
                assert(initial_family(famg));
                assert forall|i: int|
                    0 <= i < family_uploads@.len() implies (#[trigger] family_uploads@[i] matches
                Some(f) ==> initial_family(f)) by {
                    if i != idx as int && family_uploads@[i] is Some {
                        assert(i < before_grow.len());
                        assert(family_uploads@[i] == before_grow[i]);
                    }
                }
                assert(forall|i: int|
                    0 <= i < family_uploads@.len() ==> ((#[trigger] family_uploads@[i] is Some)
                        <==> family_indices@.take(k as int + 1).contains(i as usize))) by {
                    assert forall|i: int| 0 <= i < family_uploads@.len() implies ((
                    #[trigger] family_uploads@[i] is Some) <==> family_indices@.take(
                        k as int + 1,
                    ).contains(i as usize)) by {
                        if i == idx as int {
                            assert(family_indices@.take(k as int + 1)[k as int] == idx);
                        } else {
                            if family_uploads@[i] is Some {
                                assert(before_grow.len() > i || grown[i] is None);
                                assert(family_indices@.take(k as int).contains(i as usize));
                                let w = choose|j: int|
                                    0 <= j < k as int && #[trigger] family_indices@.take(
                                        k as int,
                                    )[j] == i;
                                assert(family_indices@.take(k as int + 1)[w] == i);
                            }
                            if family_indices@.take(k as int + 1).contains(i as usize) {
                                let w = choose|j: int|
                                    0 <= j < k as int + 1 && #[trigger] family_indices@.take(
                                        k as int + 1,
                                    )[j] == i;
                                if w < k as int {
                                    assert(family_indices@.take(k as int)[w] == i);
                                    assert(before_grow.len() > i ==> before_grow[i] is Some);
                                }
                            }
                        }
                    }
                }
            }
            k = k + 1;
        }
        proof {
            assert(family_indices@.take(family_indices@.len() as int) =~= family_indices@);
        }
        Uploader { family_uploads }
    }

    /// Record a buffer upload: register the access transition with the
    /// owning family's barrier accumulator and append a copy of the
    /// whole staging buffer into `buffer` at byte offset `offset` to
    /// that queue's recording batch, creating the batch if the slot was
    /// idle. Ownership of the staging buffer moves into the batch; it is
    /// handed back by the cleanup that observes the batch's fence
    /// signaled.
    ///
    /// A prior state owned by a different queue is refused with
    /// [`UploadError::CrossQueueTransfer`] — this scheduler cannot
    /// synchronize resources across queues — and the scheduler is left
    /// untouched.
    pub fn upload_buffer(
        &mut self,
        buffer: u64,
        offset: u64,
        staging: StagingBuffer,
        last: Option<BufferState>,
        next: BufferState,
    ) -> (r: Result<(), UploadError>)
        requires
            next.queue.family < old(self).family_uploads@.len(),
            old(self).family_uploads@[next.queue.family as int] matches Some(f) && (
            f.next_fence_id < 0xffff_ffff_ffff_ffff && f.next_buffer_id
                < 0xffff_ffff_ffff_fffe),
            next.queue.index < usize::MAX,
        ensures
            (r is Err) <==> (last matches Some(l) && l.queue != next.queue),
            r is Err ==> *final(self) == *old(self) && r == Result::<(), UploadError>::Err(
                UploadError::CrossQueueTransfer,
            ),
            r is Ok ==> ({
                let fi = next.queue.family as int;
                &&& final(self).family_uploads@.len() == old(self).family_uploads@.len()
                &&& forall|i: int|
                    0 <= i < old(self).family_uploads@.len() && i != fi ==> final(self).family_uploads@[i] == old(self).family_uploads@[i]
                &&& old(self).family_uploads@[fi] matches Some(pre_f) && final(self).family_uploads@[fi] matches Some(post_f) && buffer_upload_applied(
                    pre_f,
                    post_f,
                    next.queue.index as int,
                    spec_buffer_copy(buffer, offset, staging),
                    staging.id,
                    (BufferBarrier {
                        last: spec_last_stage_access(last),
                        next: (StageAccess { stage: next.stage, access: next.access }),
                    }),
                )
            }),
    {
        if let Some(l) = &last {
            if l.queue != next.queue {
                return Err(UploadError::CrossQueueTransfer);
            }
        }
        let fi = next.queue.family;
        let fam_opt = self.family_uploads.remove(fi);
        let mut fam = fam_opt.unwrap();
        let ghost pre_fg = fam;
        let last_sa: Option<StageAccess> = match &last {
            Some(l) => Some(StageAccess { stage: l.stage, access: l.access }),
            None => None,
        };
        fam.barriers.add_buffer(last_sa, StageAccess { stage: next.stage, access: next.access });
        let ghost midg = fam;
        let c = Command::CopyBuffer {
            staging: staging.id,
            buffer,
            src_offset: 0,
            dst_offset: offset,
            size: staging.size,
        };
        fam.record_upload(next.queue.index, c, staging.id);
        let ghost famg = fam;
        self.family_uploads.insert(fi, Some(fam));
        proof {
            let q = next.queue.index as int;
            assert(self.family_uploads@ =~= old(self).family_uploads@.update(
                fi as int,
                Some(famg),
            ));
            assert(old(self).family_uploads@[fi as int] == Some(pre_fg));
            assert(last_sa == spec_last_stage_access(last));
            assert forall|i: int| #[trigger] crate::family::slot_of(pre_fg, i)
                == crate::family::slot_of(midg, i) by {
                assert(pre_fg.next@ == midg.next@);
            }
            assert(crate::family::upload_core(pre_fg, famg, q, c, staging.id));
            assert(buffer_upload_applied(
                pre_fg,
                famg,
                q,
                spec_buffer_copy(buffer, offset, staging),
                staging.id,
                (BufferBarrier {
                    last: spec_last_stage_access(last),
                    next: (StageAccess { stage: next.stage, access: next.access }),
                }),
            ));
        }
        Ok(())
    }

    /// Record an image upload: resolve the transition the barrier will
    /// see — forcing the previous layout to undefined when the region
    /// replaces the whole image — pick the target layout, register the
    /// image barrier, and append the copy to the owning queue's
    /// recording batch, creating it if the slot was idle. Ownership of
    /// the staging buffer moves into the batch.
    ///
    /// A prior state owned by a different queue is refused with
    /// [`UploadError::CrossQueueTransfer`], and the scheduler is left
    /// untouched.
    pub fn upload_image(
        &mut self,
        image: Image,
        data_width: u32,
        data_height: u32,
        image_layers: SubresourceLayers,
        image_offset: Offset,
        image_extent: Extent,
        staging: StagingBuffer,
        last: ImageStateOrLayout,
        next: ImageState,
    ) -> (r: Result<(), UploadError>)
        requires
            next.queue.family < old(self).family_uploads@.len(),
            old(self).family_uploads@[next.queue.family as int] matches Some(f) && (
            f.next_fence_id < 0xffff_ffff_ffff_ffff && f.next_buffer_id
                < 0xffff_ffff_ffff_fffe),
            next.queue.index < usize::MAX,
            image_layers.level < 0xffff_ffff,
        ensures
            (r is Err) <==> (last matches ImageStateOrLayout::State(ls) && ls.queue != next.queue),
            r is Err ==> *final(self) == *old(self) && r == Result::<(), UploadError>::Err(
                UploadError::CrossQueueTransfer,
            ),
            r is Ok ==> ({
                let fi = next.queue.family as int;
                &&& final(self).family_uploads@.len() == old(self).family_uploads@.len()
                &&& forall|i: int|
                    0 <= i < old(self).family_uploads@.len() && i != fi ==> final(self).family_uploads@[i] == old(self).family_uploads@[i]
                &&& old(self).family_uploads@[fi] matches Some(pre_f) && final(self).family_uploads@[fi] matches Some(post_f) && image_upload_applied(
                    pre_f,
                    post_f,
                    next.queue.index as int,
                    spec_image_copy(
                        image,
                        data_width,
                        data_height,
                        image_layers,
                        image_offset,
                        image_extent,
                        staging,
                        last,
                        next,
                    ),
                    staging.id,
                    spec_image_barrier(
                        image,
                        image_layers,
                        image_offset,
                        image_extent,
                        last,
                        next,
                    ),
                )
            }),
    {
        if let ImageStateOrLayout::State(ls) = &last {
            if ls.queue != next.queue {
                return Err(UploadError::CrossQueueTransfer);
            }
        }
        let full = image.info.kind.extent();
        let whole_image = image_offset == Offset::zero() && image_extent == full;
        let (last_stage, last_access, last_layout): (u32, u32, Layout) = match &last {
            ImageStateOrLayout::State(ls) => (
                ls.stage,
                ls.access,
                if whole_image {
                    Layout::Undefined
                } else {
                    ls.layout
                },
            ),
            ImageStateOrLayout::Layout(l) => (
                STAGE_TOP_OF_PIPE,
                ACCESS_NONE,
                if whole_image {
                    Layout::Undefined
                } else {
                    *l
                },
            ),
        };
        let target = target_layout(last_layout, next.layout);
        let range = crate::batch::SubresourceRange {
            aspects: image_layers.aspects,
            level_start: image_layers.level,
            level_end: image_layers.level + 1,
            layer_start: image_layers.layer_start,
            layer_end: image_layers.layer_end,
        };
        let bar = ImageBarrier {
            image: image.id,
            range,
            last_stage,
            last_access,
            last_layout,
            target_layout: target,
            next_stage: next.stage,
            next_access: next.access,
            next_layout: next.layout,
        };
        let c = Command::CopyBufferToImage {
            staging: staging.id,
            image: image.id,
            target_layout: target,
            buffer_offset: 0,
            buffer_width: data_width,
            buffer_height: data_height,
            layers: image_layers,
            offset: image_offset,
            extent: image_extent,
        };
        let fi = next.queue.family;
        let fam_opt = self.family_uploads.remove(fi);
        let mut fam = fam_opt.unwrap();
        let ghost pre_fg = fam;
        fam.barriers.add_image(bar);
        let ghost midg = fam;
        fam.record_upload(next.queue.index, c, staging.id);
        let ghost famg = fam;
        self.family_uploads.insert(fi, Some(fam));
        proof {
            let q = next.queue.index as int;
            assert(self.family_uploads@ =~= old(self).family_uploads@.update(
                fi as int,
                Some(famg),
            ));
            assert(old(self).family_uploads@[fi as int] == Some(pre_fg));
            assert forall|i: int| #[trigger] crate::family::slot_of(pre_fg, i)
                == crate::family::slot_of(midg, i) by {
                assert(pre_fg.next@ == midg.next@);
            }
            assert(crate::family::upload_core(pre_fg, famg, q, c, staging.id));
            assert(image_upload_applied(pre_fg, famg, q, c, staging.id, bar));
            assert(bar == spec_image_barrier(
                image,
                image_layers,
                image_offset,
                image_extent,
                last,
                next,
            ));
            assert(c == spec_image_copy(
                image,
                data_width,
                data_height,
                image_layers,
                image_offset,
                image_extent,
                staging,
                last,
                next,
            ));
        }
        Ok(())
    }

    /// Flush every family: seal each recording batch and move it, in
    /// queue-index order, to the tail of its family's pending FIFO, with
    /// that family's accumulated barriers emitted into the first batch
    /// so flushed. The new FIFO tail entries are what the caller must
    /// submit, each as one ordered submission — barrier buffer first,
    /// copy buffer second — guarded by the entry's fence.
    pub fn flush(&mut self)
        ensures
            final(self).family_uploads@.len() == old(self).family_uploads@.len(),
            forall|i: int|
                0 <= i < old(self).family_uploads@.len() ==> opt_flushed(
                    old(self).family_uploads@[i],
                    #[trigger] final(self).family_uploads@[i],
                ),
    {
        let n = self.family_uploads.len();
        let mut i: usize = 0;
        while i < n
            invariant
                n == old(self).family_uploads@.len(),
                i <= n,
                self.family_uploads@.len() == n,
                forall|j: int|
                    0 <= j < i ==> opt_flushed(
                        old(self).family_uploads@[j],
                        #[trigger] self.family_uploads@[j],
                    ),
                forall|j: int|
                    i <= j < n ==> #[trigger] self.family_uploads@[j] == old(self).family_uploads@[j],
            decreases n - i,
        {
            let ghost before = self.family_uploads@;
            let mut fam_opt = self.family_uploads.remove(i);
            match &mut fam_opt {
                Some(f) => f.flush(),
                None => (),
            }
            let ghost fog = fam_opt;
            self.family_uploads.insert(i, fam_opt);
            proof {
                assert(self.family_uploads@ =~= before.update(i as int, fog));
            }
            i = i + 1;
        }
    }

    /// Reclaim completed batches in every family under the observed
    /// signal set: each family pops its FIFO head while the head's fence
    /// is among `signaled`, returning fences and command buffers to the
    /// free-lists. The returned handles are the staging buffers whose
    /// device work is confirmed complete: the caller may free them.
    pub fn cleanup(&mut self, signaled: &Vec<u64>) -> (released: Vec<u64>)
        ensures
            final(self).family_uploads@.len() == old(self).family_uploads@.len(),
            forall|i: int|
                0 <= i < old(self).family_uploads@.len() ==> opt_cleaned(
                    old(self).family_uploads@[i],
                    #[trigger] final(self).family_uploads@[i],
                    signaled@,
                ),
            released@ == all_released(old(self).family_uploads@, signaled@),
    {
        let n = self.family_uploads.len();
        let mut released: Vec<u64> = Vec::new();
        proof {
            assert(old(self).family_uploads@.take(0) =~= Seq::<Option<FamilyUploads>>::empty());
        }
        let mut i: usize = 0;
        while i < n
            invariant
                n == old(self).family_uploads@.len(),
                i <= n,
                self.family_uploads@.len() == n,
                forall|j: int|
                    0 <= j < i ==> opt_cleaned(
                        old(self).family_uploads@[j],
                        #[trigger] self.family_uploads@[j],
                        signaled@,
                    ),
                forall|j: int|
                    i <= j < n ==> #[trigger] self.family_uploads@[j] == old(self).family_uploads@[j],
                released@ == all_released(old(self).family_uploads@.take(i as int), signaled@),
            decreases n - i,
        {
            let ghost before = self.family_uploads@;
            let mut fam_opt = self.family_uploads.remove(i);
            let ghost pre_opt = fam_opt;
            match &mut fam_opt {
                Some(f) => {
                    let mut r = f.cleanup(signaled);
                    released.append(&mut r);
                },
                None => (),
            }
            let ghost fog = fam_opt;
            self.family_uploads.insert(i, fam_opt);
            proof {
                assert(self.family_uploads@ =~= before.update(i as int, fog));
                assert(old(self).family_uploads@.take(i as int + 1).drop_last() =~= old(self).family_uploads@.take(i as int));
                assert(old(self).family_uploads@.take(i as int + 1).last() == pre_opt);
            }
            i = i + 1;
        }
        proof {
            assert(old(self).family_uploads@.take(n as int) =~= old(self).family_uploads@);
        }
        released
    }

    /// Tear every family down, bypassing the fence-wait path: destroy
    /// every fence and free every command buffer still held anywhere —
    /// submitted, idle, or mid-recording — and drop the family managers.
    /// The caller must know the device to be idle; nothing is awaited.
    pub fn dispose(&mut self) -> (r: DisposeReport)
        ensures
            final(self).family_uploads@.len() == 0,
            r.destroyed_fences@ == all_destroyed_fences(old(self).family_uploads@),
            r.freed_buffers@ == all_freed_buffers(old(self).family_uploads@),
    {
        let ghost fams0 = old(self).family_uploads@;
        let mut destroyed_fences: Vec<u64> = Vec::new();
        let mut freed_buffers: Vec<u64> = Vec::new();
        proof {
            assert(fams0.take(0) =~= Seq::<Option<FamilyUploads>>::empty());
        }
        let ghost t: int = 0;
        while self.family_uploads.len() > 0
            invariant
                fams0 == old(self).family_uploads@,
                0 <= t <= fams0.len(),
                self.family_uploads@ == fams0.skip(t),
                destroyed_fences@ == all_destroyed_fences(fams0.take(t)),
                freed_buffers@ == all_freed_buffers(fams0.take(t)),
            decreases fams0.len() - t,
        {
            let fam_opt = self.family_uploads.remove(0);
            proof {
                assert(fams0.skip(t)[0] == fams0[t]);
                assert(fams0.skip(t).remove(0) =~= fams0.skip(t + 1));
                assert(fams0.take(t + 1).drop_last() =~= fams0.take(t));
                assert(fams0.take(t + 1).last() == fams0[t]);
            }
            match fam_opt {
                Some(f) => {
                    let mut rep = f.dispose();
                    destroyed_fences.append(&mut rep.destroyed_fences);
                    freed_buffers.append(&mut rep.freed_buffers);
                },
                None => (),
            }
            proof {
                t = t + 1;
            }
        }
        proof {
            assert(fams0.take(t) =~= fams0);
        }
        DisposeReport { destroyed_fences, freed_buffers }
    }
}

} // verus!
