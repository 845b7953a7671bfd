//! Manages objects which are global to all passes of an emulator renderer:
//! the static meshes, the command buffer that collects their uploads, and
//! the submissions in flight.

use std::collections::HashMap;
use std::collections::VecDeque;
use vstd::prelude::*;
use vstd::std_specs::hash::*;
use crate::ids::StagingAllocationId;
use crate::ids::StaticMeshId;
use crate::model::DataView;
use crate::model::InFlightSubmission;
use crate::static_mesh::StaticMesh;
use crate::static_mesh::StaticMeshDrawInfo;
use crate::static_mesh::StaticMeshView;
use crate::mesh_data::MeshData;
use crate::model::command_buffers_of;
use crate::model::completed_count;
use crate::model::staging_allocations_of;
use crate::static_mesh::views_of;
use crate::submission::BufferBarrier;
use crate::submission::CommandBufferRequest;
use crate::submission::Reclaimed;
use crate::submission::Submission;
use crate::submission::COMMAND_BUFFER_CHUNK;
use crate::submission::STAGE_ALL_COMMANDS;

verus! {

/// The state behind the manager's lock.
///
/// `A` is the type of the memory allocations that back the mesh buffers.
pub struct Data<A> {
    semaphore_current_value: u64,
    available_command_buffers: Vec<ash::vk::CommandBuffer>,
    pending_command_buffer: Option<ash::vk::CommandBuffer>,
    submitted_command_buffers: VecDeque<(u64, ash::vk::CommandBuffer, Vec<StagingAllocationId>)>,
    pending_buffer_barriers: Vec<BufferBarrier>,
    pending_staging_allocations: Vec<StagingAllocationId>,
    static_meshes: HashMap<u64, StaticMesh<A>>,
    droppable_static_meshes: Vec<StaticMesh<A>>,
    next_mesh_id: u64,
}

/// The content of each mesh of a map.
spec fn mesh_views<A>(meshes: Map<u64, StaticMesh<A>>) -> Map<u64, StaticMeshView<A>> {
    Map::new(|id: u64| meshes.contains_key(id), |id: u64| meshes[id]@)
}

/// The content of each entry of the queue of submissions.
spec fn in_flight_views(
    entries: Seq<(u64, ash::vk::CommandBuffer, Vec<StagingAllocationId>)>,
) -> Seq<InFlightSubmission> {
    Seq::new(
        entries.len(),
        |i: int|
            InFlightSubmission {
                signal_value: entries[i].0,
                command_buffer: entries[i].1,
                staging_allocations: entries[i].2@,
            },
    )
}

impl<A> View for Data<A> {
    type V = DataView<A>;

    closed spec fn view(&self) -> DataView<A> {
        DataView {
            semaphore_current_value: self.semaphore_current_value,
            available_command_buffers: self.available_command_buffers@,
            pending_command_buffer: self.pending_command_buffer,
            submitted_command_buffers: in_flight_views(self.submitted_command_buffers@),
            pending_buffer_barriers: self.pending_buffer_barriers@,
            pending_staging_allocations: self.pending_staging_allocations@,
            static_meshes: mesh_views(self.static_meshes@),
            droppable_static_meshes: views_of(self.droppable_static_meshes@),
            next_mesh_id: self.next_mesh_id,
        }
    }
}

impl<A> Data<A> {
    /// Creates the state of a new manager.
    pub fn new() -> (data: Self)
        ensures
            data@ == DataView::<A>::new(),
            data@.wf(),
    {
        let data = Data {
            semaphore_current_value: 0,
            available_command_buffers: Vec::new(),
            pending_command_buffer: None,
            submitted_command_buffers: VecDeque::new(),
            pending_buffer_barriers: Vec::new(),
            pending_staging_allocations: Vec::new(),
            static_meshes: HashMap::new(),
            droppable_static_meshes: Vec::new(),
            next_mesh_id: 0,
        };
        assert(data@ =~= DataView::<A>::new());
        data
    }

    /// Looks up a live mesh.
    pub fn get_static_mesh(&self, mesh_id: StaticMeshId) -> (mesh: Option<&StaticMesh<A>>)
        ensures
            mesh is Some <==> self@.contains(mesh_id@),
            mesh matches Some(m) ==> m@ == self@.static_meshes[mesh_id@],
    {
        broadcast use group_hash_axioms;

        let key = mesh_id.get_raw();
        self.static_meshes.get(&key)
    }

    /// The last value that a submission was asked to signal.
    pub fn get_semaphore_current_value(&self) -> (value: u64)
        ensures
            value == self@.semaphore_current_value,
    {
        self.semaphore_current_value
    }

    /// The command buffer that collects uploads, if one is recording.
    pub fn get_pending_command_buffer(&self) -> (pending: Option<ash::vk::CommandBuffer>)
        ensures
            pending == self@.pending_command_buffer,
    {
        self.pending_command_buffer
    }

    /// The id that the next mesh will get.
    pub fn get_next_mesh_id(&self) -> (id: StaticMeshId)
        ensures
            id@ == self@.next_mesh_id,
    {
        StaticMeshId::from_raw(self.next_mesh_id)
    }

    /// Adds freshly allocated command buffers to the pool.
    pub fn add_command_buffers(&mut self, new_buffers: Vec<ash::vk::CommandBuffer>)
        requires
            old(self)@.wf(),
        ensures
            final(self)@ == old(self)@.add_command_buffers(new_buffers@),
            final(self)@.wf(),
    {
        let ghost added = new_buffers@;
        let mut new_buffers = new_buffers;
        self.available_command_buffers.append(&mut new_buffers);
        assert(self@ =~= old(self)@.add_command_buffers(added));
    }

    /// Takes a command buffer from the pool, the last one first. Returns
    /// `None` if the pool is empty; the caller then allocates
    /// [`COMMAND_BUFFER_CHUNK`] command buffers and adds them.
    pub fn get_command_buffer(&mut self) -> (command_buffer: Option<ash::vk::CommandBuffer>)
        requires
            old(self)@.wf(),
        ensures
            final(self)@ == old(self)@.get_command_buffer(),
            final(self)@.wf(),
            command_buffer == if old(self)@.available_command_buffers.len() > 0 {
                Some(old(self)@.available_command_buffers.last())
            } else {
                None
            },
    {
        let command_buffer = self.available_command_buffers.pop();
        assert(self@ =~= old(self)@.get_command_buffer());
        command_buffer
    }

    /// Takes a command buffer from the pool for the caller to begin
    /// recording on, or tells the caller to allocate more if the pool is
    /// empty.
    pub fn get_begin_command_buffer(&mut self) -> (request: CommandBufferRequest)
        requires
            old(self)@.wf(),
        ensures
            final(self)@ == old(self)@.get_command_buffer(),
            final(self)@.wf(),
            request == old(self)@.begin_request(),
    {
        match self.get_command_buffer() {
            Some(command_buffer) => CommandBufferRequest::Begin(command_buffer),
            None => CommandBufferRequest::Allocate(COMMAND_BUFFER_CHUNK),
        }
    }

    /// Asks for the command buffer that collects uploads until the next
    /// flush. If none is pending, one is taken from the pool and becomes the
    /// pending one.
    pub fn get_begin_pending_command_buffer(&mut self) -> (request: CommandBufferRequest)
        requires
            old(self)@.wf(),
        ensures
            final(self)@ == old(self)@.get_begin_pending_command_buffer(),
            final(self)@.wf(),
            request == old(self)@.pending_request(),
    {
        if let Some(command_buffer) = self.pending_command_buffer {
            return CommandBufferRequest::Recording(command_buffer);
        }
        let request = self.get_begin_command_buffer();
        if let CommandBufferRequest::Begin(command_buffer) = request {
            self.pending_command_buffer = Some(command_buffer);
        }
        assert(self@ =~= old(self)@.get_begin_pending_command_buffer());
        request
    }

    /// Registers a mesh whose buffer has been created and filled, and
    /// returns its id.
    ///
    /// `staging` names the staging allocation that the data was written to,
    /// if the buffer's memory could not be written directly. In that case
    /// the copy into `buffer` has been recorded on the pending command
    /// buffer; the barrier behind it and the staging allocation are kept for
    /// the next flush.
    pub fn create_static_mesh(
        &mut self,
        data: &MeshData,
        buffer: ash::vk::Buffer,
        allocation: A,
        staging: Option<StagingAllocationId>,
    ) -> (mesh_id: StaticMeshId)
        requires
            old(self)@.wf(),
            old(self)@.can_create(staging),
            data.spec_layout() is Some,
        ensures
            final(self)@ == old(self)@.create_static_mesh(
                buffer,
                allocation,
                data.spec_draw_info(buffer),
                data.spec_layout()->Some_0.required_size,
                staging,
            ),
            final(self)@.wf(),
            mesh_id@ == old(self)@.next_mesh_id,
    {
        broadcast use group_hash_axioms;

        let layout = data.layout().unwrap();
        if let Some(staging_id) = staging {
            self.pending_buffer_barriers.push(BufferBarrier::upload(buffer, layout.required_size));
            self.pending_staging_allocations.push(staging_id);
        }
        let draw_info = StaticMeshDrawInfo {
            buffer,
            first_index: layout.first_index,
            index_type: data.index_type,
            index_count: data.index_count,
            primitive_topology: data.primitive_topology,
        };
        let static_mesh = StaticMesh::new(buffer, allocation, draw_info);
        let mesh_id = StaticMeshId::from_raw(self.next_mesh_id);
        self.static_meshes.insert(self.next_mesh_id, static_mesh);
        self.next_mesh_id = self.next_mesh_id + 1;
        assert(self@ =~= old(self)@.create_static_mesh(
            buffer,
            allocation,
            data.spec_draw_info(buffer),
            data.spec_layout()->Some_0.required_size,
            staging,
        ));
        mesh_id
    }

    /// Flushes the pending uploads: hands out the pending command buffer
    /// with its barriers and the next signal value, and queues it as in
    /// flight. The caller records the barriers, closes the command buffer
    /// and submits it.
    ///
    /// Returns `None`, and changes nothing, if no command buffer is pending.
    pub fn flush(&mut self) -> (submission: Option<Submission>)
        requires
            old(self)@.wf(),
            old(self)@.can_flush(),
        ensures
            final(self)@ == old(self)@.flush(),
            final(self)@.wf(),
            submission is Some <==> old(self)@.pending_command_buffer is Some,
            submission matches Some(s) ==> {
                &&& Some(s.command_buffer) == old(self)@.pending_command_buffer
                &&& s.buffer_barriers@ == old(self)@.pending_buffer_barriers
                &&& s.signal_value == old(self)@.semaphore_current_value + 1
                &&& s.signal_stage_mask == STAGE_ALL_COMMANDS
            },
    {
        let command_buffer = match self.pending_command_buffer.take() {
            Some(command_buffer) => command_buffer,
            None => {
                assert(self@ =~= old(self)@.flush());
                return None;
            },
        };
        let mut buffer_barriers: Vec<BufferBarrier> = Vec::new();
        core::mem::swap(&mut self.pending_buffer_barriers, &mut buffer_barriers);

        self.semaphore_current_value = self.semaphore_current_value + 1;
        let signal_value = self.semaphore_current_value;

        let mut staging_allocations: Vec<StagingAllocationId> = Vec::new();
        core::mem::swap(&mut self.pending_staging_allocations, &mut staging_allocations);
        self.submitted_command_buffers.push_back((signal_value, command_buffer, staging_allocations));

        assert(self@ =~= old(self)@.flush());
        Some(
            Submission {
                command_buffer,
                buffer_barriers,
                signal_value,
                signal_stage_mask: STAGE_ALL_COMMANDS,
            },
        )
    }

    /// Should be called regularly by the worker. `current_value` is the
    /// value that the timeline semaphore has reached.
    ///
    /// Reclaims, from the front of the queue, the submissions that have
    /// completed: their command buffers return to the pool and their staging
    /// allocations are handed out for freeing. The first submission that has
    /// not completed ends the walk, so no submission is reclaimed before an
    /// older one. Then hands out every mesh that waits for destruction.
    pub fn update(&mut self, current_value: u64) -> (reclaimed: Reclaimed<A>)
        requires
            old(self)@.wf(),
        ensures
            final(self)@ == old(self)@.update(current_value),
            final(self)@.wf(),
            reclaimed.staging_allocations@ == staging_allocations_of(
                old(self)@.reclaimed(current_value),
            ),
            views_of(reclaimed.static_meshes@) == old(self)@.destroyed(),
            reclaimed.static_meshes@.len() == old(self)@.droppable_static_meshes.len(),
    {
        let ghost queue = old(self)@.submitted_command_buffers;
        let ghost pool = old(self)@.available_command_buffers;
        let ghost mut done: int = 0;
        let mut staging_allocations: Vec<StagingAllocationId> = Vec::new();
        assert(queue.skip(0) =~= queue);
        assert(command_buffers_of(queue.take(0)) =~= Seq::empty());
        loop
            invariant
                0 <= done <= queue.len(),
                in_flight_views(self.submitted_command_buffers@) == queue.skip(done),
                self.available_command_buffers@ == pool + command_buffers_of(queue.take(done)),
                staging_allocations@ == staging_allocations_of(queue.take(done)),
                completed_count(queue, current_value) == done + completed_count(
                    queue.skip(done),
                    current_value,
                ),
                self.semaphore_current_value == old(self).semaphore_current_value,
                self.pending_command_buffer == old(self).pending_command_buffer,
                self.pending_buffer_barriers == old(self).pending_buffer_barriers,
                self.pending_staging_allocations == old(self).pending_staging_allocations,
                self.static_meshes == old(self).static_meshes,
                self.droppable_static_meshes == old(self).droppable_static_meshes,
                self.next_mesh_id == old(self).next_mesh_id,
            ensures
                done == completed_count(queue, current_value),
            decreases queue.len() - done,
        {
            let ghost entries = self.submitted_command_buffers@;
            match self.submitted_command_buffers.pop_front() {
                Some((value, command_buffer, staging)) => {
                    assert(queue.skip(done)[0] == in_flight_views(entries)[0]);
                    if current_value >= value {
                        self.available_command_buffers.push(command_buffer);
                        let mut staging = staging;
                        staging_allocations.append(&mut staging);
                        proof {
                            assert(queue.skip(done).skip(1) =~= queue.skip(done + 1));
                            assert(queue.take(done + 1).drop_last() =~= queue.take(done));
                            assert(queue.take(done + 1).last() == queue[done]);
                            assert(command_buffers_of(queue.take(done + 1)) =~= command_buffers_of(
                                queue.take(done),
                            ).push(queue[done].command_buffer));
                            assert(in_flight_views(self.submitted_command_buffers@) =~= queue.skip(
                                done + 1,
                            ));
                            done = done + 1;
                        }
                    } else {
                        self.submitted_command_buffers.push_front((value, command_buffer, staging));
                        assert(self.submitted_command_buffers@ =~= entries);
                        break ;
                    }
                },
                None => {
                    assert(queue.skip(done).len() == 0);
                    break ;
                },
            }
        }

        let ghost waiting = self.droppable_static_meshes@;
        let mut static_meshes: Vec<StaticMesh<A>> = Vec::new();
        loop
            invariant
                self.droppable_static_meshes@.len() + static_meshes@.len() == waiting.len(),
                self.droppable_static_meshes@ == waiting.take(
                    waiting.len() - static_meshes@.len(),
                ),
                forall|i: int|
                    0 <= i < static_meshes@.len() ==> static_meshes@[i] == waiting[waiting.len()
                        - 1 - i],
                in_flight_views(self.submitted_command_buffers@) == queue.skip(done),
                self.available_command_buffers@ == pool + command_buffers_of(queue.take(done)),
                self.semaphore_current_value == old(self).semaphore_current_value,
                self.pending_command_buffer == old(self).pending_command_buffer,
                self.pending_buffer_barriers == old(self).pending_buffer_barriers,
                self.pending_staging_allocations == old(self).pending_staging_allocations,
                self.static_meshes == old(self).static_meshes,
                self.next_mesh_id == old(self).next_mesh_id,
            ensures
                self.droppable_static_meshes@.len() == 0,
            decreases self.droppable_static_meshes@.len(),
        {
            match self.droppable_static_meshes.pop() {
                Some(static_mesh) => {
                    static_meshes.push(static_mesh);
                },
                None => {
                    break ;
                },
            }
        }

        assert(views_of(static_meshes@) =~= old(self)@.droppable_static_meshes.reverse());
        assert(self@ =~= old(self)@.update(current_value));
        Reclaimed { staging_allocations, static_meshes }
    }

    /// Marks a mesh for deletion. If nothing uses the mesh it is queued for
    /// destruction at once; otherwise that happens when its last use ends.
    pub fn mark_static_mesh(&mut self, mesh_id: StaticMeshId)
        requires
            old(self)@.wf(),
            old(self)@.can_mark(mesh_id@),
        ensures
            final(self)@ == old(self)@.mark_static_mesh(mesh_id@),
            final(self)@.wf(),
    {
        broadcast use group_hash_axioms;

        let key = mesh_id.get_raw();
        let mut static_mesh = self.static_meshes.remove(&key).unwrap();
        if static_mesh.mark() {
            self.droppable_static_meshes.push(static_mesh);
        } else {
            self.static_meshes.insert(key, static_mesh);
        }
        assert(self@ =~= old(self)@.mark_static_mesh(mesh_id@));
    }

    /// Begins one more use of a mesh and returns what a draw needs.
    pub fn inc_get_static_mesh(&mut self, mesh_id: StaticMeshId) -> (draw_info: StaticMeshDrawInfo)
        requires
            old(self)@.wf(),
            old(self)@.can_inc(mesh_id@),
        ensures
            final(self)@ == old(self)@.inc_static_mesh(mesh_id@),
            final(self)@.wf(),
            draw_info == old(self)@.static_meshes[mesh_id@].draw_info,
    {
        broadcast use group_hash_axioms;

        let key = mesh_id.get_raw();
        let mut static_mesh = self.static_meshes.remove(&key).unwrap();
        static_mesh.inc();
        let draw_info = static_mesh.get_draw_info();
        self.static_meshes.insert(key, static_mesh);
        assert(self@ =~= old(self)@.inc_static_mesh(mesh_id@));
        draw_info
    }

    /// Ends one use of a mesh. If the mesh is marked and this was its last
    /// use, it is queued for destruction.
    pub fn dec_static_mesh(&mut self, mesh_id: StaticMeshId)
        requires
            old(self)@.wf(),
            old(self)@.can_dec(mesh_id@),
        ensures
            final(self)@ == old(self)@.dec_static_mesh(mesh_id@),
            final(self)@.wf(),
    {
        broadcast use group_hash_axioms;

        let key = mesh_id.get_raw();
        let mut static_mesh = self.static_meshes.remove(&key).unwrap();
        if static_mesh.dec() {
            self.droppable_static_meshes.push(static_mesh);
        } else {
            self.static_meshes.insert(key, static_mesh);
        }
        assert(self@ =~= old(self)@.dec_static_mesh(mesh_id@));
    }
}

} // verus!
