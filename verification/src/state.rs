//! Device-usage descriptions supplied by callers: which queue touches a
//! resource, at which pipeline stage, with which access mask, and (for
//! images) in which layout.

use vstd::prelude::*;

verus! {

/// Pipeline stage mask: the earliest stage, used as the default for a
/// state with no more precise information.
pub const STAGE_TOP_OF_PIPE: u32 = 0x1;

/// Pipeline stage mask of the transfer stage.
pub const STAGE_TRANSFER: u32 = 0x1000;

/// Access mask admitting every access kind.
pub const ACCESS_ALL: u32 = 0xffff_ffff;

/// Access mask of transfer writes.
pub const ACCESS_TRANSFER_WRITE: u32 = 0x1000;

/// Empty access mask: the resource is not accessed.
pub const ACCESS_NONE: u32 = 0;

/// A pipeline stage mask paired with an access mask: one side of a
/// buffer transition.
#[derive(Clone, Copy, Debug, PartialEq, Eq, Structural)]
pub struct StageAccess {
    /// Pipeline stage mask.
    pub stage: u32,
    /// Access mask.
    pub access: u32,
}

/// Identifies one device queue: the queue family and the index within it.
#[derive(Clone, Copy, Debug, PartialEq, Eq, Structural)]
pub struct QueueId {
    /// Index of the queue family.
    pub family: usize,
    /// Index of the queue within its family.
    pub index: usize,
}

/// An image's memory arrangement mode.
#[derive(Clone, Copy, Debug, PartialEq, Eq, Structural)]
pub enum Layout {
    General,
    ColorAttachmentOptimal,
    DepthStencilAttachmentOptimal,
    DepthStencilReadOnlyOptimal,
    ShaderReadOnlyOptimal,
    TransferSrcOptimal,
    TransferDstOptimal,
    Undefined,
    Preinitialized,
    Present,
}

/// State of a buffer on the device: how it is used immediately before or
/// after a transfer.
#[derive(Clone, Copy, Debug, PartialEq, Eq, Structural)]
pub struct BufferState {
    /// Queue that uses the buffer.
    pub queue: QueueId,
    /// Stages at which the buffer gets used.
    pub stage: u32,
    /// Access performed by the device.
    pub access: u32,
}

impl BufferState {
    /// Create a default buffer state on the given queue.
    pub fn new(queue: QueueId) -> (r: Self)
        ensures
            r == (BufferState { queue, stage: STAGE_TOP_OF_PIPE, access: ACCESS_ALL }),
    {
        BufferState { queue, stage: STAGE_TOP_OF_PIPE, access: ACCESS_ALL }
    }

    /// Set a specific stage mask.
    pub fn with_stage(self, stage: u32) -> (r: Self)
        ensures
            r == (BufferState { stage, ..self }),
    {
        BufferState { stage, ..self }
    }

    /// Set a specific access mask.
    pub fn with_access(self, access: u32) -> (r: Self)
        ensures
            r == (BufferState { access, ..self }),
    {
        BufferState { access, ..self }
    }
}

/// State of an image on the device: as [`BufferState`], plus the layout
/// in which the image is accessed.
#[derive(Clone, Copy, Debug, PartialEq, Eq, Structural)]
pub struct ImageState {
    /// Queue that uses the image.
    pub queue: QueueId,
    /// Stages at which the image gets used.
    pub stage: u32,
    /// Access performed by the device.
    pub access: u32,
    /// Layout in which the image is accessed.
    pub layout: Layout,
}

impl ImageState {
    /// Create a default image state on the given queue and layout.
    pub fn new(queue: QueueId, layout: Layout) -> (r: Self)
        ensures
            r == (ImageState { queue, stage: STAGE_TOP_OF_PIPE, access: ACCESS_ALL, layout }),
    {
        ImageState { queue, stage: STAGE_TOP_OF_PIPE, access: ACCESS_ALL, layout }
    }

    /// Set a specific stage mask.
    pub fn with_stage(self, stage: u32) -> (r: Self)
        ensures
            r == (ImageState { stage, ..self }),
    {
        ImageState { stage, ..self }
    }

    /// Set a specific access mask.
    pub fn with_access(self, access: u32) -> (r: Self)
        ensures
            r == (ImageState { access, ..self }),
    {
        ImageState { access, ..self }
    }
}

/// Either a full image state, or a bare layout for an image that the
/// device has not used yet.
#[derive(Clone, Copy, Debug, PartialEq, Eq, Structural)]
pub enum ImageStateOrLayout {
    /// State of an image already used by the device.
    State(ImageState),
    /// Layout of an image not used by the device.
    Layout(Layout),
}

impl ImageStateOrLayout {
    /// Describes an unused image with undefined content (or one whose
    /// previous content need not be preserved), as for newly created
    /// images or whole-image updates.
    pub fn undefined() -> (r: Self)
        ensures
            r == ImageStateOrLayout::Layout(Layout::Undefined),
    {
        ImageStateOrLayout::Layout(Layout::Undefined)
    }
}

impl From<ImageState> for ImageStateOrLayout {
    fn from(state: ImageState) -> (r: Self) {
        ImageStateOrLayout::State(state)
    }
}

impl vstd::std_specs::convert::FromSpecImpl<ImageState> for ImageStateOrLayout {
    open spec fn obeys_from_spec() -> bool {
        true
    }

    open spec fn from_spec(state: ImageState) -> Self {
        ImageStateOrLayout::State(state)
    }
}

impl From<Layout> for ImageStateOrLayout {
    fn from(layout: Layout) -> (r: Self) {
        ImageStateOrLayout::Layout(layout)
    }
}

impl vstd::std_specs::convert::FromSpecImpl<Layout> for ImageStateOrLayout {
    open spec fn obeys_from_spec() -> bool {
        true
    }

    open spec fn from_spec(layout: Layout) -> Self {
        ImageStateOrLayout::Layout(layout)
    }
}

/// Errors surfaced by the scheduler itself.
#[derive(Clone, Copy, Debug, PartialEq, Eq, Structural)]
pub enum UploadError {
    /// A transition between states owned by different queues was
    /// requested; this scheduler does not synchronize across queues.
    CrossQueueTransfer,
}

} // verus!
