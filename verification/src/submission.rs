//! What the manager asks its caller to do on the device: obtain a command
//! buffer, submit a batch, release what a finished batch held.

use vstd::prelude::*;
use crate::ids::StagingAllocationId;
use crate::static_mesh::StaticMesh;

verus! {

/// How many command buffers are allocated at once when the pool runs dry.
pub const COMMAND_BUFFER_CHUNK: u32 = 4;

/// Pipeline stage bit of transfer commands.
pub const STAGE_TRANSFER: u64 = 0x1000;

/// Pipeline stage bits of vertex input and index input together.
pub const STAGE_VERTEX_AND_INDEX_INPUT: u64 = 0x10_0000_0004;

/// Pipeline stage bit that stands for all commands.
pub const STAGE_ALL_COMMANDS: u64 = 0x1_0000;

/// Access bit of a write by a transfer command.
pub const ACCESS_TRANSFER_WRITE: u64 = 0x1000;

/// Access bits of a vertex attribute read and an index read together.
pub const ACCESS_VERTEX_ATTRIBUTE_AND_INDEX_READ: u64 = 0x6;

/// A memory barrier on a range of a buffer. The masks hold the bits of the
/// Vulkan synchronization2 flag types.
#[derive(Copy, Clone, Debug, PartialEq, Eq)]
pub struct BufferBarrier {
    pub src_stage_mask: u64,
    pub src_access_mask: u64,
    pub dst_stage_mask: u64,
    pub dst_access_mask: u64,
    pub buffer: ash::vk::Buffer,
    pub offset: u64,
    pub size: u64,
}

impl BufferBarrier {
    /// The barrier that makes the first `size` bytes of `buffer`, written by
    /// a transfer, visible to vertex and index fetching.
    pub open spec fn spec_upload(buffer: ash::vk::Buffer, size: u64) -> BufferBarrier {
        BufferBarrier {
            src_stage_mask: STAGE_TRANSFER,
            src_access_mask: ACCESS_TRANSFER_WRITE,
            dst_stage_mask: STAGE_VERTEX_AND_INDEX_INPUT,
            dst_access_mask: ACCESS_VERTEX_ATTRIBUTE_AND_INDEX_READ,
            buffer,
            offset: 0,
            size,
        }
    }

    /// Builds the barrier that follows the upload of `size` bytes into
    /// `buffer`.
    pub fn upload(buffer: ash::vk::Buffer, size: u64) -> (barrier: BufferBarrier)
        ensures
            barrier == BufferBarrier::spec_upload(buffer, size),
    {
        BufferBarrier {
            src_stage_mask: STAGE_TRANSFER,
            src_access_mask: ACCESS_TRANSFER_WRITE,
            dst_stage_mask: STAGE_VERTEX_AND_INDEX_INPUT,
            dst_access_mask: ACCESS_VERTEX_ATTRIBUTE_AND_INDEX_READ,
            buffer,
            offset: 0,
            size,
        }
    }
}

/// The answer to a request for the command buffer that collects uploads.
#[derive(Copy, Clone, Debug, PartialEq, Eq)]
pub enum CommandBufferRequest {
    /// The pending command buffer. It is already recording.
    Recording(ash::vk::CommandBuffer),
    /// A command buffer taken from the pool that is now the pending one. The
    /// caller must begin recording on it before use.
    Begin(ash::vk::CommandBuffer),
    /// The pool is empty. The caller must allocate this many command buffers,
    /// add them to the pool and ask again.
    Allocate(u32),
}

/// One batch of recorded work, ready to be closed and sent to the queue.
#[derive(Debug)]
pub struct Submission {
    /// The command buffer that holds the batch.
    pub command_buffer: ash::vk::CommandBuffer,
    /// The barriers to record, in one pipeline barrier command, before the
    /// command buffer is closed. Nothing is recorded if there are none.
    pub buffer_barriers: Vec<BufferBarrier>,
    /// The value that the timeline semaphore must take when the batch has
    /// completed.
    pub signal_value: u64,
    /// The stages that must have completed before the semaphore is signaled.
    pub signal_stage_mask: u64,
}

impl Submission {
    /// Whether a pipeline barrier command has to be recorded.
    pub fn needs_pipeline_barrier(&self) -> (needed: bool)
        ensures
            needed == (self.buffer_barriers@.len() > 0),
    {
        self.buffer_barriers.len() > 0
    }
}

/// What an update released. The caller frees the staging allocations and
/// destroys the meshes.
#[derive(Debug)]
pub struct Reclaimed<A> {
    /// The staging allocations of the submissions that have completed, in
    /// the order in which they were used.
    pub staging_allocations: Vec<StagingAllocationId>,
    /// The meshes that nothing refers to any more, in the order in which
    /// they are to be destroyed.
    pub static_meshes: Vec<StaticMesh<A>>,
}

} // verus!
