use ash::vk;
use ash::vk::Handle;
use b4d_core::submission::BufferBarrier;
use b4d_core::submission::Submission;
use b4d_core::submission::ACCESS_TRANSFER_WRITE;
use b4d_core::submission::ACCESS_VERTEX_ATTRIBUTE_AND_INDEX_READ;
use b4d_core::submission::COMMAND_BUFFER_CHUNK;
use b4d_core::submission::STAGE_ALL_COMMANDS;
use b4d_core::submission::STAGE_TRANSFER;
use b4d_core::submission::STAGE_VERTEX_AND_INDEX_INPUT;

#[test]
fn stage_masks_are_those_of_ash() {
    assert_eq!(STAGE_TRANSFER, vk::PipelineStageFlags2::TRANSFER.as_raw());
    assert_eq!(
        STAGE_VERTEX_AND_INDEX_INPUT,
        (vk::PipelineStageFlags2::VERTEX_INPUT | vk::PipelineStageFlags2::INDEX_INPUT).as_raw()
    );
    assert_eq!(STAGE_ALL_COMMANDS, vk::PipelineStageFlags2::ALL_COMMANDS.as_raw());
}

#[test]
fn access_masks_are_those_of_ash() {
    assert_eq!(ACCESS_TRANSFER_WRITE, vk::AccessFlags2::TRANSFER_WRITE.as_raw());
    assert_eq!(
        ACCESS_VERTEX_ATTRIBUTE_AND_INDEX_READ,
        (vk::AccessFlags2::VERTEX_ATTRIBUTE_READ | vk::AccessFlags2::INDEX_READ).as_raw()
    );
}

#[test]
fn command_buffers_are_allocated_four_at_a_time() {
    assert_eq!(COMMAND_BUFFER_CHUNK, 4);
}

#[test]
fn upload_barrier_covers_the_buffer_from_its_start() {
    let buffer = vk::Buffer::from_raw(3);
    let barrier = BufferBarrier::upload(buffer, 140);
    assert_eq!(
        barrier,
        BufferBarrier {
            src_stage_mask: 0x1000,
            src_access_mask: 0x1000,
            dst_stage_mask: 0x10_0000_0004,
            dst_access_mask: 0x6,
            buffer,
            offset: 0,
            size: 140,
        }
    );
}

#[test]
fn pipeline_barrier_is_needed_only_with_barriers() {
    let buffer = vk::Buffer::from_raw(3);
    let mut submission = Submission {
        command_buffer: vk::CommandBuffer::from_raw(1),
        buffer_barriers: Vec::new(),
        signal_value: 1,
        signal_stage_mask: STAGE_ALL_COMMANDS,
    };
    assert!(!submission.needs_pipeline_barrier());
    submission.buffer_barriers.push(BufferBarrier::upload(buffer, 8));
    assert!(submission.needs_pipeline_barrier());
}
