use uploader::batch::{Command, Extent, Offset, QueueSlot, StagingBuffer, SubresourceLayers};
use uploader::image_meta::{Image, ImageInfo, Kind, Tiling};
use uploader::scheduler::{target_layout, Uploader};
use uploader::state::{
    BufferState, ImageState, ImageStateOrLayout, Layout, QueueId, UploadError, ACCESS_ALL,
    ACCESS_NONE, ACCESS_TRANSFER_WRITE, STAGE_TOP_OF_PIPE, STAGE_TRANSFER,
};

fn q(family: usize, index: usize) -> QueueId {
    QueueId { family, index }
}

fn staging(id: u64, size: u64) -> StagingBuffer {
    StagingBuffer { id, size }
}

fn image_2d(id: u64, width: u32, height: u32) -> Image {
    Image {
        id,
        info: ImageInfo {
            kind: Kind::D2(width, height, 1, 1),
            levels: 1,
            format: 37,
            tiling: Tiling::Optimal,
            view_caps: 0,
            usage: 0,
        },
    }
}

fn layers_one() -> SubresourceLayers {
    SubresourceLayers { aspects: 1, level: 0, layer_start: 0, layer_end: 1 }
}

#[test]
fn buffer_state_builders() {
    let s = BufferState::new(q(0, 0));
    assert_eq!(s.stage, STAGE_TOP_OF_PIPE);
    assert_eq!(s.access, ACCESS_ALL);
    let s = s.with_stage(STAGE_TRANSFER).with_access(ACCESS_TRANSFER_WRITE);
    assert_eq!(s.stage, STAGE_TRANSFER);
    assert_eq!(s.access, ACCESS_TRANSFER_WRITE);
    assert_eq!(s.queue, q(0, 0));
}

#[test]
fn image_state_builders() {
    let s = ImageState::new(q(1, 2), Layout::General);
    assert_eq!(s.stage, STAGE_TOP_OF_PIPE);
    assert_eq!(s.access, ACCESS_ALL);
    assert_eq!(s.layout, Layout::General);
    let s = s.with_stage(STAGE_TRANSFER).with_access(ACCESS_NONE);
    assert_eq!(s.stage, STAGE_TRANSFER);
    assert_eq!(s.access, ACCESS_NONE);
}

#[test]
fn undefined_state_is_undefined_layout() {
    assert_eq!(
        ImageStateOrLayout::undefined(),
        ImageStateOrLayout::Layout(Layout::Undefined)
    );
}

#[test]
fn state_or_layout_conversions() {
    let st = ImageState::new(q(0, 0), Layout::General);
    assert_eq!(ImageStateOrLayout::from(st), ImageStateOrLayout::State(st));
    assert_eq!(
        ImageStateOrLayout::from(Layout::Present),
        ImageStateOrLayout::Layout(Layout::Present)
    );
}

#[test]
fn target_layout_table() {
    assert_eq!(
        target_layout(Layout::TransferDstOptimal, Layout::General),
        Layout::General
    );
    assert_eq!(
        target_layout(Layout::General, Layout::ShaderReadOnlyOptimal),
        Layout::General
    );
    assert_eq!(
        target_layout(Layout::Undefined, Layout::ShaderReadOnlyOptimal),
        Layout::TransferDstOptimal
    );
    assert_eq!(
        target_layout(Layout::ShaderReadOnlyOptimal, Layout::TransferDstOptimal),
        Layout::TransferDstOptimal
    );
}

#[test]
fn cross_queue_buffer_rejected() {
    let mut u = Uploader::new(&vec![0]);
    let before = u.clone();
    let r = u.upload_buffer(
        10,
        0,
        staging(1, 64),
        Some(BufferState::new(q(0, 1))),
        BufferState::new(q(0, 0)),
    );
    assert_eq!(r, Err(UploadError::CrossQueueTransfer));
    assert_eq!(u, before);
}

#[test]
fn cross_queue_image_rejected() {
    let mut u = Uploader::new(&vec![0]);
    let before = u.clone();
    let r = u.upload_image(
        image_2d(5, 8, 8),
        8,
        8,
        layers_one(),
        Offset { x: 0, y: 0, z: 0 },
        Extent { width: 8, height: 8, depth: 1 },
        staging(1, 256),
        ImageStateOrLayout::State(ImageState::new(q(0, 1), Layout::General)),
        ImageState::new(q(0, 0), Layout::ShaderReadOnlyOptimal),
    );
    assert_eq!(r, Err(UploadError::CrossQueueTransfer));
    assert_eq!(u, before);
}

#[test]
fn single_batch_per_queue() {
    let mut u = Uploader::new(&vec![0]);
    u.upload_buffer(10, 0, staging(1, 64), None, BufferState::new(q(0, 0))).unwrap();
    u.upload_buffer(11, 8, staging(2, 32), None, BufferState::new(q(0, 0))).unwrap();
    let fam = u.family_uploads[0].as_ref().unwrap();
    assert_eq!(fam.next.len(), 1);
    match &fam.next[0] {
        QueueSlot::Recording(b) => {
            assert_eq!(b.commands.len(), 2);
            assert_eq!(b.staging_buffers, vec![1, 2]);
            assert_eq!(
                b.commands[0],
                Command::CopyBuffer { staging: 1, buffer: 10, src_offset: 0, dst_offset: 0, size: 64 }
            );
            assert_eq!(
                b.commands[1],
                Command::CopyBuffer { staging: 2, buffer: 11, src_offset: 0, dst_offset: 8, size: 32 }
            );
        }
        QueueSlot::Idle => panic!("queue 0 should be recording"),
    }
    assert!(fam.pending.is_empty());
    assert_eq!(fam.barriers.buffer_barriers.len(), 2);
}

#[test]
fn flush_moves_batches_to_fifo() {
    let mut u = Uploader::new(&vec![0]);
    u.upload_buffer(10, 0, staging(1, 64), None, BufferState::new(q(0, 0))).unwrap();
    u.upload_buffer(11, 0, staging(2, 16), None, BufferState::new(q(0, 2))).unwrap();
    u.flush();
    let fam = u.family_uploads[0].as_ref().unwrap();
    assert!(fam.next.is_empty());
    assert_eq!(fam.pending.len(), 2);
    assert_eq!(fam.pending[0].queue_index, 0);
    assert_eq!(fam.pending[1].queue_index, 2);
    // the accumulated barriers are emitted into the first submitted batch
    assert_eq!(fam.pending[0].buffer_barriers.len(), 2);
    assert_eq!(fam.pending[1].buffer_barriers.len(), 0);
    assert_ne!(fam.pending[0].fence, fam.pending[1].fence);
    assert!(fam.barriers.buffer_barriers.is_empty());
    // a second flush with nothing recording submits nothing
    let before = u.clone();
    u.flush();
    assert_eq!(u, before);
}

#[test]
fn cleanup_preserves_fifo_order() {
    let mut u = Uploader::new(&vec![0]);
    u.upload_buffer(10, 0, staging(1, 64), None, BufferState::new(q(0, 0))).unwrap();
    u.flush();
    u.upload_buffer(11, 0, staging(2, 64), None, BufferState::new(q(0, 0))).unwrap();
    u.flush();
    let fences: Vec<u64> = u.family_uploads[0]
        .as_ref()
        .unwrap()
        .pending
        .iter()
        .map(|p| p.fence)
        .collect();
    assert_eq!(fences.len(), 2);
    assert_ne!(fences[0], fences[1]);
    // only the SECOND batch's fence is signaled: nothing may be reclaimed
    let released = u.cleanup(&vec![fences[1]]);
    assert!(released.is_empty());
    let fam = u.family_uploads[0].as_ref().unwrap();
    assert_eq!(fam.pending.len(), 2);
    assert_eq!(fam.pending[0].fence, fences[0]);
    assert!(fam.fences.is_empty());
    // both signaled: both reclaimed, staging handed back oldest first
    let released = u.cleanup(&vec![fences[1], fences[0]]);
    assert_eq!(released, vec![1, 2]);
    assert!(u.family_uploads[0].as_ref().unwrap().pending.is_empty());
}

#[test]
fn round_trip_reclaims_exactly_once() {
    let mut u = Uploader::new(&vec![0]);
    u.upload_buffer(10, 0, staging(7, 64), None, BufferState::new(q(0, 0))).unwrap();
    u.flush();
    let fam = u.family_uploads[0].as_ref().unwrap();
    assert_eq!(fam.pending.len(), 1);
    let fence = fam.pending[0].fence;
    let cb = fam.pending[0].command_buffer;
    let bb = fam.pending[0].barriers_buffer;
    assert_eq!(fam.pending[0].staging_buffers, vec![7]);
    let released = u.cleanup(&vec![fence]);
    assert_eq!(released, vec![7]);
    let fam = u.family_uploads[0].as_ref().unwrap();
    assert!(fam.pending.is_empty());
    assert_eq!(fam.fences, vec![fence]);
    assert_eq!(fam.command_buffers, vec![cb]);
    assert_eq!(fam.barriers_buffers, vec![bb]);
}

#[test]
fn reclaimed_resources_are_reused() {
    let mut u = Uploader::new(&vec![0]);
    u.upload_buffer(10, 0, staging(1, 64), None, BufferState::new(q(0, 0))).unwrap();
    u.flush();
    let fence = u.family_uploads[0].as_ref().unwrap().pending[0].fence;
    u.cleanup(&vec![fence]);
    u.upload_buffer(11, 0, staging(2, 64), None, BufferState::new(q(0, 0))).unwrap();
    let fam = u.family_uploads[0].as_ref().unwrap();
    assert!(fam.fences.is_empty());
    assert!(fam.command_buffers.is_empty());
    assert!(fam.barriers_buffers.is_empty());
    match &fam.next[0] {
        QueueSlot::Recording(b) => assert_eq!(b.fence, fence),
        QueueSlot::Idle => panic!("queue 0 should be recording"),
    }
}

#[test]
fn dispose_fresh_scheduler_destroys_nothing() {
    let mut u = Uploader::new(&vec![0, 1]);
    let report = u.dispose();
    assert!(report.destroyed_fences.is_empty());
    assert!(report.freed_buffers.is_empty());
    assert!(u.family_uploads.is_empty());
}

#[test]
fn dispose_accounts_for_every_resource() {
    let mut u = Uploader::new(&vec![0]);
    u.upload_buffer(10, 0, staging(1, 64), None, BufferState::new(q(0, 0))).unwrap();
    u.flush();
    u.upload_buffer(11, 0, staging(2, 64), None, BufferState::new(q(0, 0))).unwrap();
    let report = u.dispose();
    // one submitted batch and one recording batch: two fences, four buffers
    assert_eq!(report.destroyed_fences.len(), 2);
    assert_eq!(report.freed_buffers.len(), 4);
    let mut fences = report.destroyed_fences.clone();
    fences.sort();
    fences.dedup();
    assert_eq!(fences.len(), 2, "no fence is destroyed twice");
    let mut buffers = report.freed_buffers.clone();
    buffers.sort();
    buffers.dedup();
    assert_eq!(buffers.len(), 4, "no buffer is freed twice");
}

#[test]
fn whole_image_upload_forces_undefined() {
    let mut u = Uploader::new(&vec![0]);
    u.upload_image(
        image_2d(5, 8, 8),
        8,
        8,
        layers_one(),
        Offset { x: 0, y: 0, z: 0 },
        Extent { width: 8, height: 8, depth: 1 },
        staging(1, 256),
        ImageStateOrLayout::State(ImageState::new(q(0, 0), Layout::ShaderReadOnlyOptimal)),
        ImageState::new(q(0, 0), Layout::ShaderReadOnlyOptimal),
    )
    .unwrap();
    let fam = u.family_uploads[0].as_ref().unwrap();
    let bar = &fam.barriers.image_barriers[0];
    assert_eq!(bar.last_layout, Layout::Undefined);
    assert_eq!(bar.target_layout, Layout::TransferDstOptimal);
}

#[test]
fn partial_image_upload_keeps_reported_layout() {
    let mut u = Uploader::new(&vec![0]);
    u.upload_image(
        image_2d(5, 8, 8),
        4,
        4,
        layers_one(),
        Offset { x: 0, y: 0, z: 0 },
        Extent { width: 4, height: 4, depth: 1 },
        staging(1, 64),
        ImageStateOrLayout::State(ImageState::new(q(0, 0), Layout::ShaderReadOnlyOptimal)),
        ImageState::new(q(0, 0), Layout::ShaderReadOnlyOptimal),
    )
    .unwrap();
    let fam = u.family_uploads[0].as_ref().unwrap();
    let bar = &fam.barriers.image_barriers[0];
    assert_eq!(bar.last_layout, Layout::ShaderReadOnlyOptimal);
}

#[test]
fn image_barrier_spans_one_level_and_records_copy() {
    let mut u = Uploader::new(&vec![0]);
    let layers = SubresourceLayers { aspects: 1, level: 3, layer_start: 2, layer_end: 5 };
    u.upload_image(
        image_2d(5, 64, 64),
        16,
        16,
        layers,
        Offset { x: 1, y: 2, z: 0 },
        Extent { width: 16, height: 16, depth: 1 },
        staging(9, 1024),
        ImageStateOrLayout::undefined(),
        ImageState::new(q(0, 0), Layout::General),
    )
    .unwrap();
    let fam = u.family_uploads[0].as_ref().unwrap();
    let bar = &fam.barriers.image_barriers[0];
    assert_eq!(bar.range.level_start, 3);
    assert_eq!(bar.range.level_end, 4);
    assert_eq!(bar.range.layer_start, 2);
    assert_eq!(bar.range.layer_end, 5);
    assert_eq!(bar.last_stage, STAGE_TOP_OF_PIPE);
    assert_eq!(bar.last_access, ACCESS_NONE);
    assert_eq!(bar.target_layout, Layout::General);
    match &fam.next[0] {
        QueueSlot::Recording(b) => match &b.commands[0] {
            Command::CopyBufferToImage { staging, image, target_layout, extent, .. } => {
                assert_eq!(*staging, 9);
                assert_eq!(*image, 5);
                assert_eq!(*target_layout, Layout::General);
                assert_eq!(*extent, Extent { width: 16, height: 16, depth: 1 });
            }
            other => panic!("expected an image copy, got {:?}", other),
        },
        QueueSlot::Idle => panic!("queue 0 should be recording"),
    }
}

#[test]
fn barrier_accumulator_keeps_transfer_defaults() {
    let u = Uploader::new(&vec![0, 3]);
    assert_eq!(u.family_uploads.len(), 4);
    assert!(u.family_uploads[0].is_some());
    assert!(u.family_uploads[1].is_none());
    assert!(u.family_uploads[2].is_none());
    let fam = u.family_uploads[3].as_ref().unwrap();
    assert_eq!(fam.barriers.transfer_stage, STAGE_TRANSFER);
    assert_eq!(fam.barriers.buffer_transfer_access, ACCESS_TRANSFER_WRITE);
    assert_eq!(fam.barriers.image_transfer_access, ACCESS_TRANSFER_WRITE);
}

#[test]
fn empty_family_list_makes_empty_scheduler() {
    let u = Uploader::new(&vec![]);
    assert!(u.family_uploads.is_empty());
}

#[test]
fn families_are_independent() {
    let mut u = Uploader::new(&vec![0, 1]);
    u.upload_buffer(10, 0, staging(1, 64), None, BufferState::new(q(0, 0))).unwrap();
    u.upload_buffer(11, 0, staging(2, 64), None, BufferState::new(q(1, 0))).unwrap();
    let fam0 = u.family_uploads[0].as_ref().unwrap();
    let fam1 = u.family_uploads[1].as_ref().unwrap();
    assert_eq!(fam0.barriers.buffer_barriers.len(), 1);
    assert_eq!(fam1.barriers.buffer_barriers.len(), 1);
    u.flush();
    assert_eq!(u.family_uploads[0].as_ref().unwrap().pending.len(), 1);
    assert_eq!(u.family_uploads[1].as_ref().unwrap().pending.len(), 1);
}

#[test]
fn buffer_barrier_carries_both_transitions() {
    let mut u = Uploader::new(&vec![0]);
    let prior = BufferState::new(q(0, 0)).with_stage(0x8).with_access(0x20);
    let next = BufferState::new(q(0, 0)).with_stage(0x400).with_access(0x40);
    u.upload_buffer(10, 0, staging(1, 64), Some(prior), next).unwrap();
    let fam = u.family_uploads[0].as_ref().unwrap();
    let bar = &fam.barriers.buffer_barriers[0];
    let last = bar.last.expect("a prior state was given");
    assert_eq!(last.stage, 0x8);
    assert_eq!(last.access, 0x20);
    assert_eq!(bar.next.stage, 0x400);
    assert_eq!(bar.next.access, 0x40);
    // without a prior state the barrier records no last use
    u.upload_buffer(10, 0, staging(2, 64), None, next).unwrap();
    let fam = u.family_uploads[0].as_ref().unwrap();
    assert!(fam.barriers.buffer_barriers[1].last.is_none());
}
