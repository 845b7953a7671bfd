//! What holds of the manager whatever its callers do, proved over the model
//! that the contracts of the executable code are stated in.

use vstd::prelude::*;
use crate::ids::StagingAllocationId;
use crate::mesh_data::lemma_next_aligned;
use crate::mesh_data::spec_next_aligned;
use crate::mesh_data::MeshData;
use crate::model::completed_count;
use crate::model::count_op;
use crate::model::DataView;
use crate::model::InFlightSubmission;
use crate::model::UsageOp;
use crate::static_mesh::StaticMeshDrawInfo;

verus! {

/// Marking a mesh keeps the state well formed.
pub proof fn lemma_mark_keeps_wf<A>(state: DataView<A>, id: u64)
    requires
        state.wf(),
        state.can_mark(id),
    ensures
        state.mark_static_mesh(id).wf(),
{
}

/// Beginning a use keeps the state well formed.
pub proof fn lemma_inc_keeps_wf<A>(state: DataView<A>, id: u64)
    requires
        state.wf(),
        state.can_inc(id),
    ensures
        state.inc_static_mesh(id).wf(),
{
}

/// Ending a use keeps the state well formed.
pub proof fn lemma_dec_keeps_wf<A>(state: DataView<A>, id: u64)
    requires
        state.wf(),
        state.can_dec(id),
    ensures
        state.dec_static_mesh(id).wf(),
{
}

/// Registering a mesh keeps the state well formed.
pub proof fn lemma_create_keeps_wf<A>(
    state: DataView<A>,
    buffer: ash::vk::Buffer,
    allocation: A,
    draw_info: StaticMeshDrawInfo,
    required_size: u64,
    staging: Option<StagingAllocationId>,
)
    requires
        state.wf(),
        state.can_create(staging),
    ensures
        state.create_static_mesh(buffer, allocation, draw_info, required_size, staging).wf(),
{
}

/// A flush keeps the state well formed.
pub proof fn lemma_flush_keeps_wf<A>(state: DataView<A>)
    requires
        state.wf(),
        state.can_flush(),
    ensures
        state.flush().wf(),
{
}

/// An update keeps the state well formed.
pub proof fn lemma_update_keeps_wf<A>(state: DataView<A>, current_value: u64)
    requires
        state.wf(),
    ensures
        state.update(current_value).wf(),
{
    lemma_completed_count_is_prefix(state.submitted_command_buffers, current_value);
}

/// Asking for the pending command buffer and adding command buffers to the
/// pool keep the state well formed.
pub proof fn lemma_command_buffers_keep_wf<A>(
    state: DataView<A>,
    new_buffers: Seq<ash::vk::CommandBuffer>,
)
    requires
        state.wf(),
    ensures
        state.add_command_buffers(new_buffers).wf(),
        state.get_command_buffer().wf(),
        state.get_begin_pending_command_buffer().wf(),
{
}

/// The submissions counted as completed are a prefix of the queue, each of
/// them has completed, and the submission behind them, if there is one, has
/// not. This holds of every queue and every value read from the timeline.
pub proof fn lemma_completed_count_is_prefix(
    submitted: Seq<InFlightSubmission>,
    current_value: u64,
)
    ensures
        completed_count(submitted, current_value) <= submitted.len(),
        forall|i: int|
            0 <= i < completed_count(submitted, current_value) ==> (#[trigger] submitted[i]).signal_value
                <= current_value,
        completed_count(submitted, current_value) < submitted.len() ==> submitted[completed_count(
            submitted,
            current_value,
        ) as int].signal_value > current_value,
    decreases submitted.len(),
{
    if submitted.len() == 0 || submitted[0].signal_value > current_value {
    } else {
        let rest = submitted.skip(1);
        lemma_completed_count_is_prefix(rest, current_value);
        let n = completed_count(rest, current_value) as int;
        assert forall|i: int| 0 <= i < n + 1 implies (#[trigger] submitted[i]).signal_value
            <= current_value by {
            if i > 0 {
                assert(submitted[i] == rest[i - 1]);
            }
        }
        if n + 1 < submitted.len() {
            assert(submitted[n + 1] == rest[n]);
        }
    }
}

/// Applying only a prefix of an admitted sequence is admitted too.
pub proof fn lemma_admits_prefix<A>(state: DataView<A>, id: u64, ops: Seq<UsageOp>, k: int)
    requires
        state.admits_usages(id, ops),
        0 <= k <= ops.len(),
    ensures
        state.admits_usages(id, ops.take(k)),
    decreases ops.len(),
{
    if k == ops.len() {
        assert(ops.take(k) =~= ops);
    } else {
        lemma_admits_prefix(state, id, ops.drop_last(), k);
        assert(ops.drop_last().take(k) =~= ops.take(k));
    }
}

/// From any live, unmarked mesh, an admitted sequence of begun and ended
/// uses leaves the mesh live and unmarked and moves its used counter by the
/// number of begins minus the number of ends.
pub proof fn lemma_usages_move_counter<A>(state: DataView<A>, id: u64, ops: Seq<UsageOp>)
    requires
        state.wf(),
        state.contains(id),
        !state.static_meshes[id].marked,
        state.admits_usages(id, ops),
    ensures
        state.apply_usages(id, ops).wf(),
        state.apply_usages(id, ops).contains(id),
        !state.apply_usages(id, ops).static_meshes[id].marked,
        state.apply_usages(id, ops).static_meshes[id].used_counter
            == state.static_meshes[id].used_counter + count_op(ops, UsageOp::Inc) - count_op(
            ops,
            UsageOp::Dec,
        ),
    decreases ops.len(),
{
    if ops.len() > 0 {
        lemma_usages_move_counter(state, id, ops.drop_last());
    }
}

/// For every sequence of begun and ended uses of a mesh that was just
/// created, the used counter equals the number of begins minus the number
/// of ends. An end is admitted only while a use is outstanding: before each
/// end in the sequence strictly more uses have begun than have ended, so
/// the counter never passes below zero.
pub proof fn law_used_counter_counts_uses<A>(
    before: DataView<A>,
    buffer: ash::vk::Buffer,
    allocation: A,
    draw_info: StaticMeshDrawInfo,
    required_size: u64,
    staging: Option<StagingAllocationId>,
    ops: Seq<UsageOp>,
)
    requires
        before.wf(),
        before.can_create(staging),
        before.create_static_mesh(
            buffer,
            allocation,
            draw_info,
            required_size,
            staging,
        ).admits_usages(before.next_mesh_id, ops),
    ensures
        ({
            let id = before.next_mesh_id;
            let created = before.create_static_mesh(
                buffer,
                allocation,
                draw_info,
                required_size,
                staging,
            );
            let after = created.apply_usages(id, ops);
            &&& created.static_meshes[id].used_counter == 0
            &&& after.wf()
            &&& after.contains(id)
            &&& after.static_meshes[id].used_counter == count_op(ops, UsageOp::Inc) - count_op(
                ops,
                UsageOp::Dec,
            )
            &&& forall|k: int|
                0 <= k < ops.len() && ops[k] == UsageOp::Dec ==> count_op(
                    #[trigger] ops.take(k),
                    UsageOp::Dec,
                ) < count_op(ops.take(k), UsageOp::Inc)
            &&& !after.can_dec(id) <==> count_op(ops, UsageOp::Inc) == count_op(ops, UsageOp::Dec)
        }),
{
    let id = before.next_mesh_id;
    let created = before.create_static_mesh(buffer, allocation, draw_info, required_size, staging);
    lemma_create_keeps_wf(before, buffer, allocation, draw_info, required_size, staging);
    lemma_usages_move_counter(created, id, ops);
    assert forall|k: int| 0 <= k < ops.len() && ops[k] == UsageOp::Dec implies count_op(
        #[trigger] ops.take(k),
        UsageOp::Dec,
    ) < count_op(ops.take(k), UsageOp::Inc) by {
        lemma_admits_prefix(created, id, ops, k + 1);
        assert(ops.take(k + 1).drop_last() =~= ops.take(k));
        assert(ops.take(k + 1).last() == ops[k]);
        lemma_admits_prefix(created, id, ops, k);
        lemma_usages_move_counter(created, id, ops.take(k));
    }
}

/// Marking a mesh that is in use does not make it droppable: it stays live,
/// now marked, and nothing joins the meshes that wait for destruction.
/// Marking a mesh that nothing uses makes it droppable at once: it leaves
/// the live meshes and waits for destruction.
pub proof fn law_mark_queues_unused_mesh<A>(state: DataView<A>, id: u64)
    requires
        state.wf(),
        state.can_mark(id),
    ensures
        ({
            let mesh = state.static_meshes[id];
            let after = state.mark_static_mesh(id);
            &&& mesh.used_counter > 0 ==> {
                &&& after.contains(id)
                &&& after.static_meshes[id] == mesh.mark()
                &&& !after.static_meshes[id].is_droppable()
                &&& after.droppable_static_meshes == state.droppable_static_meshes
            }
            &&& mesh.used_counter == 0 ==> {
                &&& !after.contains(id)
                &&& mesh.mark().is_droppable()
                &&& after.droppable_static_meshes == state.droppable_static_meshes.push(mesh.mark())
            }
            &&& forall|other: u64|
                other != id ==> after.contains(other) == state.contains(other)
                    && after.static_meshes[other] == state.static_meshes[other]
        }),
{
}

/// A mesh becomes droppable at the end of a use exactly if it is marked and
/// that use was its last: then it leaves the live meshes and waits for
/// destruction. Every other end of a use leaves it live and queues nothing.
pub proof fn law_dec_queues_marked_mesh_at_zero<A>(state: DataView<A>, id: u64)
    requires
        state.wf(),
        state.can_dec(id),
    ensures
        ({
            let mesh = state.static_meshes[id];
            let after = state.dec_static_mesh(id);
            &&& mesh.dec().used_counter == mesh.used_counter - 1
            &&& (mesh.marked && mesh.used_counter == 1) ==> {
                &&& !after.contains(id)
                &&& mesh.dec().is_droppable()
                &&& after.droppable_static_meshes == state.droppable_static_meshes.push(mesh.dec())
            }
            &&& !(mesh.marked && mesh.used_counter == 1) ==> {
                &&& after.contains(id)
                &&& after.static_meshes[id] == mesh.dec()
                &&& !after.static_meshes[id].is_droppable()
                &&& after.droppable_static_meshes == state.droppable_static_meshes
            }
            &&& forall|other: u64|
                other != id ==> after.contains(other) == state.contains(other)
                    && after.static_meshes[other] == state.static_meshes[other]
        }),
{
}

/// No operation but marking and ending a use makes a mesh wait for
/// destruction: beginning a use, registering a mesh, a flush and the
/// handling of command buffers leave the waiting meshes as they are.
pub proof fn law_only_mark_and_dec_queue_meshes<A>(
    state: DataView<A>,
    id: u64,
    buffer: ash::vk::Buffer,
    allocation: A,
    draw_info: StaticMeshDrawInfo,
    required_size: u64,
    staging: Option<StagingAllocationId>,
    new_buffers: Seq<ash::vk::CommandBuffer>,
)
    ensures
        state.inc_static_mesh(id).droppable_static_meshes == state.droppable_static_meshes,
        state.create_static_mesh(
            buffer,
            allocation,
            draw_info,
            required_size,
            staging,
        ).droppable_static_meshes == state.droppable_static_meshes,
        state.flush().droppable_static_meshes == state.droppable_static_meshes,
        state.add_command_buffers(new_buffers).droppable_static_meshes
            == state.droppable_static_meshes,
        state.get_command_buffer().droppable_static_meshes == state.droppable_static_meshes,
        state.get_begin_pending_command_buffer().droppable_static_meshes
            == state.droppable_static_meshes,
{
}

/// An update hands out every mesh that waits for destruction exactly once,
/// the last queued first, and leaves none waiting: a second update, whatever
/// the timeline says, hands out no mesh.
pub proof fn law_update_destroys_once<A>(state: DataView<A>, first_value: u64, second_value: u64)
    requires
        state.wf(),
    ensures
        state.destroyed().len() == state.droppable_static_meshes.len(),
        forall|i: int|
            0 <= i < state.droppable_static_meshes.len() ==> state.destroyed()[i]
                == state.droppable_static_meshes[state.droppable_static_meshes.len() - 1 - i],
        state.update(first_value).droppable_static_meshes.len() == 0,
        state.update(first_value).static_meshes == state.static_meshes,
        state.update(first_value).destroyed().len() == 0,
        state.update(first_value).update(second_value).droppable_static_meshes.len() == 0,
{
}

/// A mesh that is marked while nothing uses it, or whose last use ends
/// after it was marked, is the first that the next update hands out for
/// destruction; after that update it is neither live nor waiting.
pub proof fn law_droppable_mesh_is_destroyed_by_next_update<A>(
    state: DataView<A>,
    id: u64,
    current_value: u64,
)
    requires
        state.wf(),
        state.contains(id),
    ensures
        state.can_mark(id) && state.static_meshes[id].used_counter == 0 ==> {
            let after = state.mark_static_mesh(id);
            &&& after.destroyed().len() == state.droppable_static_meshes.len() + 1
            &&& after.destroyed()[0] == state.static_meshes[id].mark()
            &&& !after.update(current_value).contains(id)
            &&& after.update(current_value).destroyed().len() == 0
        },
        state.static_meshes[id].marked && state.static_meshes[id].used_counter == 1 ==> {
            let after = state.dec_static_mesh(id);
            &&& after.destroyed().len() == state.droppable_static_meshes.len() + 1
            &&& after.destroyed()[0] == state.static_meshes[id].dec()
            &&& !after.update(current_value).contains(id)
            &&& after.update(current_value).destroyed().len() == 0
        },
{
}

/// Submissions are reclaimed strictly in the order in which they were
/// queued. Whatever value the timeline reports, an update reclaims a prefix
/// of the queue and keeps the rest in order: a submission is never reclaimed
/// while one queued before it stays in flight. Each reclaimed submission has
/// completed, and none of those that stay has.
pub proof fn law_reclaims_in_queue_order<A>(state: DataView<A>, current_value: u64)
    requires
        state.wf(),
    ensures
        ({
            let queue = state.submitted_command_buffers;
            let n = completed_count(queue, current_value);
            &&& n <= queue.len()
            &&& state.reclaimed(current_value) == queue.take(n as int)
            &&& state.update(current_value).submitted_command_buffers == queue.skip(n as int)
            &&& state.reclaimed(current_value) + state.update(
                current_value,
            ).submitted_command_buffers == queue
            &&& forall|i: int, j: int|
                0 <= i < j < queue.len() && #[trigger] state.reclaims(current_value, j)
                    ==> #[trigger] state.reclaims(current_value, i)
            &&& forall|i: int| 0 <= i < n ==> (#[trigger] queue[i]).signal_value <= current_value
            &&& forall|i: int|
                n <= i < queue.len() ==> (#[trigger] queue[i]).signal_value > current_value
        }),
{
    let queue = state.submitted_command_buffers;
    let n = completed_count(queue, current_value);
    lemma_completed_count_is_prefix(queue, current_value);
    assert(queue.take(n as int) + queue.skip(n as int) =~= queue);
}

/// A flush queues its submission behind all that are in flight, with a
/// signal value one above the last and so above every value in the queue.
pub proof fn law_flush_queues_last_with_next_value<A>(state: DataView<A>)
    requires
        state.wf(),
        state.can_flush(),
        state.pending_command_buffer is Some,
    ensures
        ({
            let after = state.flush();
            let queue = state.submitted_command_buffers;
            &&& after.semaphore_current_value == state.semaphore_current_value + 1
            &&& after.submitted_command_buffers.len() == queue.len() + 1
            &&& after.submitted_command_buffers.drop_last() == queue
            &&& after.submitted_command_buffers.last().signal_value
                == after.semaphore_current_value
            &&& Some(after.submitted_command_buffers.last().command_buffer)
                == state.pending_command_buffer
            &&& after.submitted_command_buffers.last().staging_allocations
                == state.pending_staging_allocations
            &&& forall|i: int|
                0 <= i < queue.len() ==> (#[trigger] queue[i]).signal_value
                    < after.submitted_command_buffers.last().signal_value
            &&& after.pending_command_buffer is None
            &&& after.pending_buffer_barriers.len() == 0
            &&& after.pending_staging_allocations.len() == 0
        }),
{
    let after = state.flush();
    assert(after.submitted_command_buffers.drop_last() =~= state.submitted_command_buffers);
}

/// A flush with nothing pending changes nothing: no submission, no new
/// signal value.
pub proof fn law_flush_without_pending_is_noop<A>(state: DataView<A>)
    requires
        state.pending_command_buffer is None,
    ensures
        state.flush() == state,
        state.can_flush(),
{
}

/// The index segment of a mesh starts at the vertex length rounded up to
/// the index size, and the first index of the draw info times the index
/// size gives that offset back; the buffer ends with the index segment.
pub proof fn law_first_index_gives_index_offset(data: MeshData, buffer: ash::vk::Buffer)
    requires
        data.spec_layout() is Some,
    ensures
        ({
            let layout = data.spec_layout()->Some_0;
            let index_size = data.spec_get_index_size()->Some_0;
            let vertex_len = data.vertex_data@.len();
            &&& index_size == 1 || index_size == 2 || index_size == 4
            &&& layout.index_size == index_size
            &&& layout.index_offset == spec_next_aligned(vertex_len as int, index_size as int)
            &&& data.spec_draw_info(buffer).first_index * index_size == layout.index_offset
            &&& layout.index_offset % (index_size as u64) == 0
            &&& vertex_len <= layout.index_offset < vertex_len + index_size
            &&& layout.required_size == layout.index_offset + data.index_data@.len()
        }),
{
    let index_size = data.spec_get_index_size()->Some_0;
    lemma_next_aligned(data.vertex_data@.len() as int, index_size as int);
}

} // verus!
