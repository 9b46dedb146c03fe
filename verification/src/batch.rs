//! The unit of recorded-then-submitted transfer work: copy commands,
//! barrier requests, and per-queue batches in their lifecycle states.

use vstd::prelude::*;
use crate::state::{Layout, StageAccess};

verus! {

/// A three-dimensional offset into an image.
#[derive(Clone, Copy, Debug, PartialEq, Eq, Structural)]
pub struct Offset {
    pub x: i32,
    pub y: i32,
    pub z: i32,
}

impl Offset {
    /// The zero offset.
    pub fn zero() -> (r: Self)
        ensures
            r == (Offset { x: 0, y: 0, z: 0 }),
    {
        Offset { x: 0, y: 0, z: 0 }
    }
}

/// A three-dimensional image extent.
#[derive(Clone, Copy, Debug, PartialEq, Eq, Structural)]
pub struct Extent {
    pub width: u32,
    pub height: u32,
    pub depth: u32,
}

/// The subresource layers a copy targets: one mip level and a layer range.
#[derive(Clone, Copy, Debug, PartialEq, Eq, Structural)]
pub struct SubresourceLayers {
    /// Aspect mask (color, depth, stencil bits).
    pub aspects: u32,
    /// The single mip level targeted.
    pub level: u32,
    /// First array layer targeted.
    pub layer_start: u32,
    /// One past the last array layer targeted.
    pub layer_end: u32,
}

/// The subresource range a barrier covers: mip-level and layer ranges.
#[derive(Clone, Copy, Debug, PartialEq, Eq, Structural)]
pub struct SubresourceRange {
    /// Aspect mask (color, depth, stencil bits).
    pub aspects: u32,
    /// First mip level covered.
    pub level_start: u32,
    /// One past the last mip level covered.
    pub level_end: u32,
    /// First array layer covered.
    pub layer_start: u32,
    /// One past the last array layer covered.
    pub layer_end: u32,
}

/// The range spanned by a barrier for a copy into `layers`: exactly the
/// one requested mip level and the requested layer range and aspects.
pub open spec fn spec_range_of(layers: SubresourceLayers) -> SubresourceRange {
    SubresourceRange {
        aspects: layers.aspects,
        level_start: layers.level,
        level_end: (layers.level + 1) as u32,
        layer_start: layers.layer_start,
        layer_end: layers.layer_end,
    }
}

/// A staging buffer handed over to the scheduler: the handle the caller
/// knows it by, and its size in bytes.
#[derive(Clone, Copy, Debug, PartialEq, Eq, Structural)]
pub struct StagingBuffer {
    /// Caller-side handle of the staging buffer.
    pub id: u64,
    /// Size of the staging buffer in bytes.
    pub size: u64,
}

/// One copy command recorded into a batch's copy command buffer.
#[derive(Clone, Copy, Debug, PartialEq, Eq, Structural)]
pub enum Command {
    /// Copy a whole staging buffer into a destination buffer.
    CopyBuffer {
        /// Handle of the source staging buffer.
        staging: u64,
        /// Handle of the destination buffer.
        buffer: u64,
        /// Byte offset of the source range (always zero: the staging
        /// buffer is consumed whole).
        src_offset: u64,
        /// Byte offset into the destination buffer.
        dst_offset: u64,
        /// Number of bytes copied: the staging buffer's size.
        size: u64,
    },
    /// Copy a staging buffer into a region of an image.
    CopyBufferToImage {
        /// Handle of the source staging buffer.
        staging: u64,
        /// Handle of the destination image.
        image: u64,
        /// Layout the image is transitioned to for the copy.
        target_layout: Layout,
        /// Byte offset of the source data (always zero).
        buffer_offset: u64,
        /// Row pitch of the source data in texels.
        buffer_width: u32,
        /// Plane pitch of the source data in rows.
        buffer_height: u32,
        /// Subresource layers the copy targets.
        layers: SubresourceLayers,
        /// Offset of the destination region.
        offset: Offset,
        /// Extent of the destination region.
        extent: Extent,
    },
}

/// A pending access transition for a buffer, accumulated until the next
/// emission.
#[derive(Clone, Copy, Debug, PartialEq, Eq)]
pub struct BufferBarrier {
    /// Stage and access of the last use, if the buffer was in use.
    pub last: Option<StageAccess>,
    /// Stage and access of the next use.
    pub next: StageAccess,
}

/// A pending access and layout transition for an image, accumulated
/// until the next emission.
#[derive(Clone, Copy, Debug, PartialEq, Eq, Structural)]
pub struct ImageBarrier {
    /// Handle of the image.
    pub image: u64,
    /// Subresource range the transition covers.
    pub range: SubresourceRange,
    /// Stage of the last use.
    pub last_stage: u32,
    /// Access of the last use.
    pub last_access: u32,
    /// Layout before the transfer; `Undefined` when the previous content
    /// need not be preserved.
    pub last_layout: Layout,
    /// Layout the image holds during the transfer.
    pub target_layout: Layout,
    /// Stage of the next use.
    pub next_stage: u32,
    /// Access of the next use.
    pub next_access: u32,
    /// Layout of the next use.
    pub next_layout: Layout,
}

/// Accumulates pending transitions between emissions. An emission (at
/// flush) records a "before" sequence into a batch's barrier command
/// buffer and an "after" sequence into its copy command buffer, both
/// derived from the accumulated transitions, and empties the accumulator
/// so that accumulation can start over.
#[derive(Clone, Debug, PartialEq, Eq)]
pub struct Barriers {
    /// Stage the emitted "before" barriers transition into and the
    /// "after" barriers transition out of.
    pub transfer_stage: u32,
    /// Buffer access the transfer itself performs.
    pub buffer_transfer_access: u32,
    /// Image access the transfer itself performs.
    pub image_transfer_access: u32,
    /// Accumulated buffer transitions, in request order.
    pub buffer_barriers: Vec<BufferBarrier>,
    /// Accumulated image transitions, in request order.
    pub image_barriers: Vec<ImageBarrier>,
}

impl Barriers {
    /// A fresh accumulator with the given transfer-time stage and
    /// access masks and nothing accumulated.
    pub fn new(transfer_stage: u32, buffer_transfer_access: u32, image_transfer_access: u32) -> (r:
        Self)
        ensures
            r.transfer_stage == transfer_stage,
            r.buffer_transfer_access == buffer_transfer_access,
            r.image_transfer_access == image_transfer_access,
            r.buffer_barriers@ =~= Seq::<BufferBarrier>::empty(),
            r.image_barriers@ =~= Seq::<ImageBarrier>::empty(),
    {
        Barriers {
            transfer_stage,
            buffer_transfer_access,
            image_transfer_access,
            buffer_barriers: Vec::new(),
            image_barriers: Vec::new(),
        }
    }

    /// Record a pending buffer transition.
    pub fn add_buffer(&mut self, last: Option<StageAccess>, next: StageAccess)
        ensures
            final(self).buffer_barriers@ == old(self).buffer_barriers@.push(
                BufferBarrier { last, next },
            ),
            final(self).image_barriers@ == old(self).image_barriers@,
            final(self).transfer_stage == old(self).transfer_stage,
            final(self).buffer_transfer_access == old(self).buffer_transfer_access,
            final(self).image_transfer_access == old(self).image_transfer_access,
    {
        self.buffer_barriers.push(BufferBarrier { last, next });
    }

    /// Record a pending image transition.
    pub fn add_image(&mut self, barrier: ImageBarrier)
        ensures
            final(self).image_barriers@ == old(self).image_barriers@.push(barrier),
            final(self).buffer_barriers@ == old(self).buffer_barriers@,
            final(self).transfer_stage == old(self).transfer_stage,
            final(self).buffer_transfer_access == old(self).buffer_transfer_access,
            final(self).image_transfer_access == old(self).image_transfer_access,
    {
        self.image_barriers.push(barrier);
    }
}

/// A batch under recording: the command buffers it will submit, the copy
/// commands recorded so far, the staging buffers whose ownership it
/// holds, and the fence that will guard its completion.
#[derive(Clone, Debug, PartialEq, Eq)]
pub struct Batch {
    /// Handle of the command buffer that will carry the "before" barriers.
    pub barriers_buffer: u64,
    /// Handle of the command buffer that carries the copies.
    pub command_buffer: u64,
    /// Copy commands recorded so far, in request order.
    pub commands: Vec<Command>,
    /// Staging buffers owned by the batch, in request order.
    pub staging_buffers: Vec<u64>,
    /// Fence that will be signaled when the submission completes.
    pub fence: u64,
}

/// The lifecycle state of one queue's upload slot.
#[derive(Clone, Debug, PartialEq, Eq)]
pub enum QueueSlot {
    /// No batch is being recorded for this queue.
    Idle,
    /// A batch is accumulating copy commands for this queue.
    Recording(Batch),
}

/// A batch after submission, waiting in the FIFO for its fence.
#[derive(Clone, Debug, PartialEq, Eq)]
pub struct PendingBatch {
    /// Index of the queue the batch was submitted to.
    pub queue_index: usize,
    /// Handle of the submitted barrier command buffer.
    pub barriers_buffer: u64,
    /// Handle of the submitted copy command buffer.
    pub command_buffer: u64,
    /// Buffer transitions emitted into this batch's command buffers.
    pub buffer_barriers: Vec<BufferBarrier>,
    /// Image transitions emitted into this batch's command buffers.
    pub image_barriers: Vec<ImageBarrier>,
    /// Copy commands the batch carries, in request order.
    pub commands: Vec<Command>,
    /// Staging buffers owned until completion, in request order.
    pub staging_buffers: Vec<u64>,
    /// Fence guarding the batch's completion.
    pub fence: u64,
}

} // verus!
