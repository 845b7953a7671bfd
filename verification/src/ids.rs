//! Identifiers handed across the library boundary.

use vstd::prelude::*;

verus! {

/// Names one static mesh. Ids are assigned by a counter at creation and are
/// never used twice by the same manager.
#[derive(Clone, Copy, Debug, PartialEq, Eq, Hash, Structural)]
pub struct StaticMeshId {
    raw: u64,
}

impl View for StaticMeshId {
    type V = u64;

    closed spec fn view(&self) -> u64 {
        self.raw
    }
}

impl StaticMeshId {
    /// The id with the given number.
    pub fn from_raw(raw: u64) -> (id: Self)
        ensures
            id@ == raw,
    {
        StaticMeshId { raw }
    }

    /// The number behind the id.
    pub fn get_raw(&self) -> (raw: u64)
        ensures
            raw == self@,
    {
        self.raw
    }
}

/// Names one allocation of the staging pool. The pool chooses the numbers;
/// the library only stores them and hands them back for freeing.
#[derive(Clone, Copy, Debug, PartialEq, Eq, Hash, Structural)]
pub struct StagingAllocationId {
    raw: u64,
}

impl View for StagingAllocationId {
    type V = u64;

    closed spec fn view(&self) -> u64 {
        self.raw
    }
}

impl StagingAllocationId {
    /// The id with the given number.
    pub fn from_raw(raw: u64) -> (id: Self)
        ensures
            id@ == raw,
    {
        StagingAllocationId { raw }
    }

    /// The number behind the id.
    pub fn get_raw(&self) -> (raw: u64)
        ensures
            raw == self@,
    {
        self.raw
    }
}

} // verus!
