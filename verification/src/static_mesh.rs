//! One static mesh: its buffer, what a draw needs to know about it, and the
//! count of passes that are using it.

use vstd::prelude::*;

verus! {

/// What a pass needs to draw a static mesh. A snapshot that is cheap to copy.
#[derive(Copy, Clone, Debug)]
pub struct StaticMeshDrawInfo {
    pub buffer: ash::vk::Buffer,
    pub first_index: u32,
    pub index_type: ash::vk::IndexType,
    pub index_count: u32,
    pub primitive_topology: ash::vk::PrimitiveTopology,
}

/// A static mesh together with its bookkeeping.
///
/// `A` is the type of the memory allocation that backs the buffer. The mesh
/// owns the allocation from creation until [`StaticMesh::destroy`] hands it
/// back.
#[derive(Debug)]
pub struct StaticMesh<A> {
    buffer: ash::vk::Buffer,
    allocation: A,
    draw_info: StaticMeshDrawInfo,
    used_counter: u32,
    marked: bool,
}

/// The mathematical content of a [`StaticMesh`].
pub ghost struct StaticMeshView<A> {
    pub buffer: ash::vk::Buffer,
    pub allocation: A,
    pub draw_info: StaticMeshDrawInfo,
    /// Number of uses begun and not yet ended.
    pub used_counter: nat,
    /// Whether the mesh has been marked for deletion.
    pub marked: bool,
}

impl<A> StaticMeshView<A> {
    /// A mesh that nobody uses and nobody has marked.
    pub open spec fn fresh(buffer: ash::vk::Buffer, allocation: A, draw_info: StaticMeshDrawInfo) -> Self {
        StaticMeshView { buffer, allocation, draw_info, used_counter: 0, marked: false }
    }

    /// No use is outstanding.
    pub open spec fn is_unused(self) -> bool {
        self.used_counter == 0
    }

    /// Marked and unused: nothing can reach the buffer any more, so it may
    /// be destroyed.
    pub open spec fn is_droppable(self) -> bool {
        self.marked && self.used_counter == 0
    }

    /// One more use, unless the mesh is marked: a marked mesh accepts no new
    /// use.
    pub open spec fn inc(self) -> Self {
        if self.marked {
            self
        } else {
            StaticMeshView { used_counter: self.used_counter + 1, ..self }
        }
    }

    /// One use fewer. Without an outstanding use there is nothing to end.
    pub open spec fn dec(self) -> Self {
        if self.used_counter > 0 {
            StaticMeshView { used_counter: (self.used_counter - 1) as nat, ..self }
        } else {
            self
        }
    }

    /// The same mesh, marked for deletion.
    pub open spec fn mark(self) -> Self {
        StaticMeshView { marked: true, ..self }
    }
}

/// The content of each mesh of a sequence.
pub open spec fn views_of<A>(meshes: Seq<StaticMesh<A>>) -> Seq<StaticMeshView<A>> {
    Seq::new(meshes.len(), |i: int| meshes[i]@)
}

impl<A> View for StaticMesh<A> {
    type V = StaticMeshView<A>;

    closed spec fn view(&self) -> StaticMeshView<A> {
        StaticMeshView {
            buffer: self.buffer,
            allocation: self.allocation,
            draw_info: self.draw_info,
            used_counter: self.used_counter as nat,
            marked: self.marked,
        }
    }
}

impl<A> StaticMesh<A> {
    /// A new mesh over `buffer`, backed by `allocation`: unused and unmarked.
    pub fn new(buffer: ash::vk::Buffer, allocation: A, draw_info: StaticMeshDrawInfo) -> (mesh: Self)
        ensures
            mesh@ == StaticMeshView::fresh(buffer, allocation, draw_info),
    {
        StaticMesh { buffer, allocation, draw_info, used_counter: 0, marked: false }
    }

    /// Attempts to increment the used counter.
    ///
    /// If the mesh is marked the counter is not incremented and false is
    /// returned.
    pub fn inc(&mut self) -> (accepted: bool)
        requires
            !old(self)@.marked ==> old(self)@.used_counter < u32::MAX,
        ensures
            accepted == !old(self)@.marked,
            final(self)@ == old(self)@.inc(),
    {
        if self.marked {
            return false;
        }
        self.used_counter += 1;
        true
    }

    /// Decrements the used counter.
    ///
    /// If the mesh is marked and the counter decrements to 0 true is
    /// returned, indicating that the mesh can be destroyed.
    pub fn dec(&mut self) -> (droppable: bool)
        requires
            old(self)@.used_counter > 0,
        ensures
            final(self)@ == old(self)@.dec(),
            final(self)@.used_counter == old(self)@.used_counter - 1,
            droppable == final(self)@.is_droppable(),
    {
        self.used_counter -= 1;
        if self.marked && self.is_unused() {
            return true;
        }
        false
    }

    /// Marks the mesh for deletion. Returns true if the mesh is unused, so
    /// that it can be destroyed right away.
    pub fn mark(&mut self) -> (droppable: bool)
        ensures
            final(self)@ == old(self)@.mark(),
            droppable == final(self)@.is_droppable(),
    {
        self.marked = true;
        self.is_unused()
    }

    /// Returns true if the mesh used counter is 0.
    pub fn is_unused(&self) -> (unused: bool)
        ensures
            unused == self@.is_unused(),
    {
        self.used_counter == 0
    }

    /// Returns true if the mesh has been marked for deletion.
    pub fn is_marked(&self) -> (marked: bool)
        ensures
            marked == self@.marked,
    {
        self.marked
    }

    /// The number of uses begun and not yet ended.
    pub fn get_used_counter(&self) -> (count: u32)
        ensures
            count == self@.used_counter,
    {
        self.used_counter
    }

    /// A copy of what a draw of this mesh needs.
    pub fn get_draw_info(&self) -> (info: StaticMeshDrawInfo)
        ensures
            info == self@.draw_info,
    {
        self.draw_info
    }

    /// Gives up the mesh and hands out the buffer and the allocation, which
    /// the caller destroys and frees.
    pub fn destroy(self) -> (parts: (ash::vk::Buffer, A))
        ensures
            parts.0 == self@.buffer,
            parts.1 == self@.allocation,
    {
        (self.buffer, self.allocation)
    }
}

} // verus!
