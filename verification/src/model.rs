//! The state of the manager as mathematics, and each operation as a function
//! from state to state. The contracts of the executable code and the laws
//! are stated over these.

use vstd::prelude::*;
use crate::ids::StagingAllocationId;
use crate::static_mesh::StaticMeshDrawInfo;
use crate::static_mesh::StaticMeshView;
use crate::submission::BufferBarrier;
use crate::submission::CommandBufferRequest;
use crate::submission::COMMAND_BUFFER_CHUNK;

verus! {

/// A submission that has been sent to the queue and not yet been reclaimed.
#[verifier::ext_equal]
pub ghost struct InFlightSubmission {
    /// The timeline value that the device signals when the work is done.
    pub signal_value: u64,
    pub command_buffer: ash::vk::CommandBuffer,
    /// The staging allocations that the recorded copies read from.
    pub staging_allocations: Seq<StagingAllocationId>,
}

/// How many submissions at the front of the queue have completed once the
/// timeline has reached `current_value`. Counting stops at the first
/// submission that has not completed, whatever follows it.
pub open spec fn completed_count(submitted: Seq<InFlightSubmission>, current_value: u64) -> nat
    decreases submitted.len(),
{
    if submitted.len() == 0 || submitted[0].signal_value > current_value {
        0
    } else {
        1 + completed_count(submitted.skip(1), current_value)
    }
}

/// The command buffers of the submissions, in order.
pub open spec fn command_buffers_of(submitted: Seq<InFlightSubmission>) -> Seq<
    ash::vk::CommandBuffer,
> {
    submitted.map_values(|s: InFlightSubmission| s.command_buffer)
}

/// The staging allocations of the submissions, one submission after the
/// other.
pub open spec fn staging_allocations_of(submitted: Seq<InFlightSubmission>) -> Seq<
    StagingAllocationId,
>
    decreases submitted.len(),
{
    if submitted.len() == 0 {
        Seq::empty()
    } else {
        staging_allocations_of(submitted.drop_last()) + submitted.last().staging_allocations
    }
}

/// The begin or the end of one use of a mesh.
pub ghost enum UsageOp {
    /// A use begins.
    Inc,
    /// A use ends.
    Dec,
}

/// How often `op` occurs in `ops`.
pub open spec fn count_op(ops: Seq<UsageOp>, op: UsageOp) -> nat
    decreases ops.len(),
{
    if ops.len() == 0 {
        0
    } else {
        count_op(ops.drop_last(), op) + if ops.last() == op {
            1nat
        } else {
            0nat
        }
    }
}

/// The state of the manager.
#[verifier::ext_equal]
pub ghost struct DataView<A> {
    /// The last value that a submission was asked to signal; zero before the
    /// first submission.
    pub semaphore_current_value: u64,
    /// Command buffers that are free for reuse. The last one is taken first.
    pub available_command_buffers: Seq<ash::vk::CommandBuffer>,
    /// The command buffer that collects uploads until the next flush.
    pub pending_command_buffer: Option<ash::vk::CommandBuffer>,
    /// The submissions in flight, oldest first.
    pub submitted_command_buffers: Seq<InFlightSubmission>,
    /// Barriers to record at the next flush.
    pub pending_buffer_barriers: Seq<BufferBarrier>,
    /// Staging allocations read by the copies in the pending command buffer.
    pub pending_staging_allocations: Seq<StagingAllocationId>,
    /// The live meshes by the number of their id.
    pub static_meshes: Map<u64, StaticMeshView<A>>,
    /// Meshes that are marked and unused and wait to be destroyed.
    pub droppable_static_meshes: Seq<StaticMeshView<A>>,
    /// The number of the next id.
    pub next_mesh_id: u64,
}

impl<A> DataView<A> {
    /// The state of a new manager: nothing submitted, nothing pending, no
    /// mesh.
    pub open spec fn new() -> Self {
        DataView {
            semaphore_current_value: 0,
            available_command_buffers: Seq::empty(),
            pending_command_buffer: None,
            submitted_command_buffers: Seq::empty(),
            pending_buffer_barriers: Seq::empty(),
            pending_staging_allocations: Seq::empty(),
            static_meshes: Map::empty(),
            droppable_static_meshes: Seq::empty(),
            next_mesh_id: 0,
        }
    }

    /// What holds of every state that the operations can reach.
    pub open spec fn wf(self) -> bool {
        // signal values grow strictly along the queue and were all handed out
        &&& forall|i: int, j: int|
            0 <= i < j < self.submitted_command_buffers.len()
                ==> self.submitted_command_buffers[i].signal_value
                < self.submitted_command_buffers[j].signal_value
        &&& forall|i: int|
            0 <= i < self.submitted_command_buffers.len() ==> 0 < (
            #[trigger] self.submitted_command_buffers[i]).signal_value
                <= self.semaphore_current_value
        // barriers and staging allocations only exist beside a pending command buffer
        &&& self.pending_command_buffer is None ==> self.pending_buffer_barriers.len() == 0
            && self.pending_staging_allocations.len() == 0
        // every live mesh has an id that was handed out, and is not droppable
        &&& self.static_meshes.dom().finite()
        &&& forall|id: u64| #[trigger]
            self.static_meshes.contains_key(id) ==> id < self.next_mesh_id
                && !self.static_meshes[id].is_droppable()
        // every mesh that waits for destruction is droppable
        &&& forall|i: int|
            0 <= i < self.droppable_static_meshes.len() ==> (
            #[trigger] self.droppable_static_meshes[i]).is_droppable()
    }

    /// The mesh `id` is live.
    pub open spec fn contains(self, id: u64) -> bool {
        self.static_meshes.contains_key(id)
    }

    /// The mesh `id` may be marked for deletion: it is live and has not been
    /// marked before.
    pub open spec fn can_mark(self, id: u64) -> bool {
        self.contains(id) && !self.static_meshes[id].marked
    }

    /// A use of the mesh `id` may begin: it is live and not marked, and the
    /// counter has room.
    pub open spec fn can_inc(self, id: u64) -> bool {
        self.contains(id) && !self.static_meshes[id].marked && self.static_meshes[id].used_counter
            < u32::MAX
    }

    /// A use of the mesh `id` may end: it is live and a use is outstanding.
    pub open spec fn can_dec(self, id: u64) -> bool {
        self.contains(id) && self.static_meshes[id].used_counter > 0
    }

    /// A flush may run: if it has work to submit, the next signal value
    /// exists.
    pub open spec fn can_flush(self) -> bool {
        self.pending_command_buffer is Some ==> self.semaphore_current_value < u64::MAX
    }

    /// A mesh may be registered: an id is left, and if the data went through
    /// staging, the copy had a command buffer to be recorded on.
    pub open spec fn can_create(self, staging: Option<StagingAllocationId>) -> bool {
        self.next_mesh_id < u64::MAX && (staging is Some ==> self.pending_command_buffer is Some)
    }

    /// The state after the mesh `id` has moved from the live meshes to those
    /// that wait for destruction, as `mesh`.
    pub open spec fn move_to_droppable(self, id: u64, mesh: StaticMeshView<A>) -> Self {
        DataView {
            static_meshes: self.static_meshes.remove(id),
            droppable_static_meshes: self.droppable_static_meshes.push(mesh),
            ..self
        }
    }

    /// The state after the live mesh `id` has become `mesh`: it stays live
    /// unless it is now droppable.
    pub open spec fn settle(self, id: u64, mesh: StaticMeshView<A>) -> Self {
        if mesh.is_droppable() {
            self.move_to_droppable(id, mesh)
        } else {
            DataView { static_meshes: self.static_meshes.insert(id, mesh), ..self }
        }
    }

    /// The state after the mesh `id` has been marked for deletion.
    pub open spec fn mark_static_mesh(self, id: u64) -> Self
        recommends
            self.contains(id),
    {
        self.settle(id, self.static_meshes[id].mark())
    }

    /// The state after one more use of the mesh `id` has begun.
    pub open spec fn inc_static_mesh(self, id: u64) -> Self
        recommends
            self.contains(id),
    {
        DataView { static_meshes: self.static_meshes.insert(id, self.static_meshes[id].inc()), ..self }
    }

    /// The state after one use of the mesh `id` has ended.
    pub open spec fn dec_static_mesh(self, id: u64) -> Self
        recommends
            self.contains(id),
    {
        self.settle(id, self.static_meshes[id].dec())
    }

    /// Whether `op` may be applied to the mesh `id`.
    pub open spec fn admits_usage(self, id: u64, op: UsageOp) -> bool {
        match op {
            UsageOp::Inc => self.can_inc(id),
            UsageOp::Dec => self.can_dec(id),
        }
    }

    /// The state after `op` has been applied to the mesh `id`.
    pub open spec fn apply_usage(self, id: u64, op: UsageOp) -> Self {
        match op {
            UsageOp::Inc => self.inc_static_mesh(id),
            UsageOp::Dec => self.dec_static_mesh(id),
        }
    }

    /// The state after `ops` have been applied to the mesh `id`, one after
    /// the other.
    pub open spec fn apply_usages(self, id: u64, ops: Seq<UsageOp>) -> Self
        decreases ops.len(),
    {
        if ops.len() == 0 {
            self
        } else {
            self.apply_usages(id, ops.drop_last()).apply_usage(id, ops.last())
        }
    }

    /// Whether each of `ops` may be applied to the mesh `id` in the state
    /// that those before it have left.
    pub open spec fn admits_usages(self, id: u64, ops: Seq<UsageOp>) -> bool
        decreases ops.len(),
    {
        ops.len() == 0 || (self.admits_usages(id, ops.drop_last()) && self.apply_usages(
            id,
            ops.drop_last(),
        ).admits_usage(id, ops.last()))
    }

    /// The state after the command buffers `new_buffers` have been added to
    /// the pool.
    pub open spec fn add_command_buffers(self, new_buffers: Seq<ash::vk::CommandBuffer>) -> Self {
        DataView {
            available_command_buffers: self.available_command_buffers + new_buffers,
            ..self
        }
    }

    /// The state after a command buffer, if one is free, has been taken from
    /// the pool.
    pub open spec fn get_command_buffer(self) -> Self {
        if self.available_command_buffers.len() > 0 {
            DataView {
                available_command_buffers: self.available_command_buffers.drop_last(),
                ..self
            }
        } else {
            self
        }
    }

    /// The answer to a request for a command buffer to begin: the last of
    /// the pool, or the demand to allocate a chunk if the pool is empty.
    pub open spec fn begin_request(self) -> CommandBufferRequest {
        if self.available_command_buffers.len() > 0 {
            CommandBufferRequest::Begin(self.available_command_buffers.last())
        } else {
            CommandBufferRequest::Allocate(COMMAND_BUFFER_CHUNK)
        }
    }

    /// The answer to a request for the pending command buffer: the pending
    /// one if there is one, else as for a command buffer to begin.
    pub open spec fn pending_request(self) -> CommandBufferRequest {
        match self.pending_command_buffer {
            Some(command_buffer) => CommandBufferRequest::Recording(command_buffer),
            None => self.begin_request(),
        }
    }

    /// The state after the pending command buffer has been asked for: if
    /// there was none and the pool is not empty, the last command buffer of
    /// the pool has become the pending one.
    pub open spec fn get_begin_pending_command_buffer(self) -> Self {
        if self.pending_command_buffer is None && self.available_command_buffers.len() > 0 {
            DataView {
                pending_command_buffer: Some(self.available_command_buffers.last()),
                available_command_buffers: self.available_command_buffers.drop_last(),
                ..self
            }
        } else {
            self
        }
    }

    /// The state after a mesh has been registered under the next id. Where
    /// the data went through the staging allocation `staging`, the barrier
    /// behind the copy and the allocation are kept for the next flush.
    pub open spec fn create_static_mesh(
        self,
        buffer: ash::vk::Buffer,
        allocation: A,
        draw_info: StaticMeshDrawInfo,
        required_size: u64,
        staging: Option<StagingAllocationId>,
    ) -> Self {
        DataView {
            static_meshes: self.static_meshes.insert(
                self.next_mesh_id,
                StaticMeshView::fresh(buffer, allocation, draw_info),
            ),
            next_mesh_id: (self.next_mesh_id + 1) as u64,
            pending_buffer_barriers: match staging {
                Some(_) => self.pending_buffer_barriers.push(
                    BufferBarrier::spec_upload(buffer, required_size),
                ),
                None => self.pending_buffer_barriers,
            },
            pending_staging_allocations: match staging {
                Some(id) => self.pending_staging_allocations.push(id),
                None => self.pending_staging_allocations,
            },
            ..self
        }
    }

    /// The state after a flush. Without a pending command buffer nothing
    /// changes. Otherwise the batch gets the next signal value and joins the
    /// back of the queue with its staging allocations, and nothing is
    /// pending any more.
    pub open spec fn flush(self) -> Self {
        match self.pending_command_buffer {
            None => self,
            Some(command_buffer) => DataView {
                semaphore_current_value: (self.semaphore_current_value + 1) as u64,
                pending_command_buffer: None,
                submitted_command_buffers: self.submitted_command_buffers.push(
                    InFlightSubmission {
                        signal_value: (self.semaphore_current_value + 1) as u64,
                        command_buffer,
                        staging_allocations: self.pending_staging_allocations,
                    },
                ),
                pending_buffer_barriers: Seq::empty(),
                pending_staging_allocations: Seq::empty(),
                ..self
            },
        }
    }

    /// The submissions that an update reclaims when the timeline has reached
    /// `current_value`: the completed ones at the front of the queue.
    pub open spec fn reclaimed(self, current_value: u64) -> Seq<InFlightSubmission> {
        self.submitted_command_buffers.take(
            completed_count(self.submitted_command_buffers, current_value) as int,
        )
    }

    /// Whether an update that reads `current_value` reclaims the submission
    /// at position `index` of the queue.
    pub open spec fn reclaims(self, current_value: u64, index: int) -> bool {
        0 <= index < completed_count(self.submitted_command_buffers, current_value)
    }

    /// The meshes that an update hands out for destruction: all that wait,
    /// the last queued first.
    pub open spec fn destroyed(self) -> Seq<StaticMeshView<A>> {
        self.droppable_static_meshes.reverse()
    }

    /// The state after an update that read `current_value` from the
    /// timeline: the reclaimed submissions have left the queue, their
    /// command buffers are back in the pool, and no mesh waits for
    /// destruction.
    pub open spec fn update(self, current_value: u64) -> Self {
        DataView {
            available_command_buffers: self.available_command_buffers + command_buffers_of(
                self.reclaimed(current_value),
            ),
            submitted_command_buffers: self.submitted_command_buffers.skip(
                completed_count(self.submitted_command_buffers, current_value) as int,
            ),
            droppable_static_meshes: Seq::empty(),
            ..self
        }
    }
}

} // verus!
