//! Raw mesh data and the layout of the device buffer that will hold it.

use vstd::prelude::*;
use vstd::arithmetic::div_mod::lemma_fundamental_div_mod;
use vstd::arithmetic::div_mod::lemma_mod_multiples_basic;
use vstd::arithmetic::div_mod::lemma_div_multiples_vanish;
use vstd::arithmetic::mul::lemma_mul_is_commutative;
use crate::vulkan::index_type_code;
use crate::vulkan::raw_index_type;
use crate::static_mesh::StaticMeshDrawInfo;

verus! {

/// Vulkan code of 16 bit indices.
pub const INDEX_TYPE_UINT16: i32 = 0;

/// Vulkan code of 32 bit indices.
pub const INDEX_TYPE_UINT32: i32 = 1;

/// Vulkan code of 8 bit indices.
pub const INDEX_TYPE_UINT8: i32 = 1_000_265_000;

/// The size in bytes of one index of the type with the given Vulkan code, or
/// `None` for a code that is no index type a mesh can use.
pub open spec fn spec_index_size(code: i32) -> Option<u32> {
    if code == INDEX_TYPE_UINT8 {
        Some(1u32)
    } else if code == INDEX_TYPE_UINT16 {
        Some(2u32)
    } else if code == INDEX_TYPE_UINT32 {
        Some(4u32)
    } else {
        None
    }
}

/// The smallest multiple of `alignment` that is not below `value`.
pub open spec fn spec_next_aligned(value: int, alignment: int) -> int
    recommends
        0 <= value,
        0 < alignment,
{
    if value % alignment == 0 {
        value
    } else {
        value + (alignment - value % alignment)
    }
}

/// `spec_next_aligned` is a multiple of the alignment, is reached from
/// `value` in fewer than `alignment` steps, and no multiple lies in between.
pub proof fn lemma_next_aligned(value: int, alignment: int)
    requires
        0 <= value,
        0 < alignment,
    ensures
        spec_next_aligned(value, alignment) % alignment == 0,
        value <= spec_next_aligned(value, alignment) < value + alignment,
        (spec_next_aligned(value, alignment) / alignment) * alignment == spec_next_aligned(
            value,
            alignment,
        ),
        forall|m: int|
            value <= m && #[trigger] (m % alignment) == 0 ==> spec_next_aligned(value, alignment)
                <= m,
{
    let r = spec_next_aligned(value, alignment);
    let q = value / alignment;
    lemma_fundamental_div_mod(value, alignment);
    assert(0 <= value % alignment < alignment);
    if value % alignment == 0 {
        assert(r == alignment * q);
        lemma_mul_is_commutative(alignment, q);
        lemma_mod_multiples_basic(q, alignment);
        lemma_div_multiples_vanish(q, alignment);
    } else {
        assert(r == alignment * (q + 1)) by (nonlinear_arith)
            requires
                r == value + (alignment - value % alignment),
                value == alignment * q + value % alignment,
        ;
        lemma_mul_is_commutative(alignment, q + 1);
        lemma_mod_multiples_basic(q + 1, alignment);
        lemma_div_multiples_vanish(q + 1, alignment);
    }
    assert forall|m: int| value <= m && #[trigger] (m % alignment) == 0 implies r <= m by {
        if m < r {
            // m and r are both multiples of the alignment less than one alignment apart
            lemma_fundamental_div_mod(m, alignment);
            lemma_fundamental_div_mod(r, alignment);
            let qm = m / alignment;
            let qr = r / alignment;
            assert(m == alignment * qm);
            assert(r == alignment * qr);
            assert(qm < qr) by (nonlinear_arith)
                requires
                    alignment * qm < alignment * qr,
                    0 < alignment,
            ;
            assert(alignment * qm + alignment <= alignment * qr) by (nonlinear_arith)
                requires
                    qm + 1 <= qr,
                    0 < alignment,
            ;
            assert(false);
        }
    }
}

/// Looks up the size in bytes of one index of the type with the given code.
pub fn index_size_for_code(code: i32) -> (size: Option<u32>)
    ensures
        size == spec_index_size(code),
{
    if code == INDEX_TYPE_UINT8 {
        Some(1)
    } else if code == INDEX_TYPE_UINT16 {
        Some(2)
    } else if code == INDEX_TYPE_UINT32 {
        Some(4)
    } else {
        None
    }
}

/// Rounds `value` up to the next multiple of `alignment`.
///
/// Returns `None` when `alignment` is zero or the result does not fit.
pub fn next_aligned(value: u64, alignment: u64) -> (aligned: Option<u64>)
    ensures
        aligned is Some <==> alignment > 0 && spec_next_aligned(value as int, alignment as int)
            <= u64::MAX,
        aligned matches Some(a) ==> a == spec_next_aligned(value as int, alignment as int),
{
    if alignment == 0 {
        return None;
    }
    let rem: u64 = value % alignment;
    if rem == 0 {
        Some(value)
    } else {
        value.checked_add(alignment - rem)
    }
}

/// Where the two segments of a mesh lie in its device buffer.
#[derive(Clone, Copy, Debug, PartialEq, Eq, Structural)]
pub struct MeshLayout {
    /// Size in bytes of one index.
    pub index_size: u32,
    /// Byte offset of the index segment: the vertex segment starts at zero
    /// and the index segment follows it, aligned to the index size.
    pub index_offset: u64,
    /// Size in bytes of the whole buffer.
    pub required_size: u64,
    /// Offset of the index segment counted in indices.
    pub first_index: u32,
}

/// The layout for `vertex_len` bytes of vertices followed by `index_len`
/// bytes of indices of `index_size` bytes each, or `None` when an offset or
/// size leaves the range of its integer type.
pub open spec fn spec_mesh_layout(vertex_len: nat, index_len: nat, index_size: u32) -> Option<
    MeshLayout,
>
    recommends
        index_size > 0,
{
    let index_offset = spec_next_aligned(vertex_len as int, index_size as int);
    let required_size = index_offset + index_len;
    let first_index = index_offset / (index_size as int);
    if required_size <= u64::MAX && first_index <= u32::MAX {
        Some(
            MeshLayout {
                index_size,
                index_offset: index_offset as u64,
                required_size: required_size as u64,
                first_index: first_index as u32,
            },
        )
    } else {
        None
    }
}

/// Computes the layout for `vertex_len` bytes of vertices followed by
/// `index_len` bytes of indices of `index_size` bytes each.
///
/// Returns `None` if the index size is zero, or if an offset or size leaves
/// the range of its integer type.
pub fn mesh_layout(vertex_len: u64, index_len: u64, index_size: u32) -> (layout: Option<MeshLayout>)
    ensures
        index_size > 0 ==> layout == spec_mesh_layout(
            vertex_len as nat,
            index_len as nat,
            index_size,
        ),
        index_size == 0 ==> layout is None,
{
    if index_size == 0 {
        return None;
    }
    let index_offset: u64 = match next_aligned(vertex_len, index_size as u64) {
        Some(offset) => offset,
        None => { return None; },
    };
    let required_size: u64 = match index_offset.checked_add(index_len) {
        Some(size) => size,
        None => { return None; },
    };
    let first_index: u64 = index_offset / (index_size as u64);
    if first_index > u32::MAX as u64 {
        return None;
    }
    Some(MeshLayout { index_size, index_offset, required_size, first_index: first_index as u32 })
}

/// The data of one mesh as the caller hands it in.
pub struct MeshData<'a> {
    pub vertex_data: &'a [u8],
    pub index_data: &'a [u8],
    pub vertex_stride: u32,
    pub index_count: u32,
    pub index_type: ash::vk::IndexType,
    pub primitive_topology: ash::vk::PrimitiveTopology,
}

impl<'a> MeshData<'a> {
    /// The size of one index of this mesh, where its index type has one.
    pub open spec fn spec_get_index_size(&self) -> Option<u32> {
        spec_index_size(index_type_code(self.index_type))
    }

    /// The layout of this mesh, where it has one.
    pub open spec fn spec_layout(&self) -> Option<MeshLayout> {
        match self.spec_get_index_size() {
            Some(index_size) => spec_mesh_layout(
                self.vertex_data@.len(),
                self.index_data@.len(),
                index_size,
            ),
            None => None,
        }
    }

    /// What a draw of this mesh needs once its data lies in `buffer`.
    pub open spec fn spec_draw_info(&self, buffer: ash::vk::Buffer) -> StaticMeshDrawInfo
        recommends
            self.spec_layout() is Some,
    {
        StaticMeshDrawInfo {
            buffer,
            first_index: self.spec_layout()->Some_0.first_index,
            index_type: self.index_type,
            index_count: self.index_count,
            primitive_topology: self.primitive_topology,
        }
    }

    /// The size in bytes of one index, or `None` if the index type is none of
    /// 8, 16 or 32 bit unsigned.
    pub fn checked_index_size(&self) -> (size: Option<u32>)
        ensures
            size == self.spec_get_index_size(),
    {
        index_size_for_code(raw_index_type(self.index_type))
    }

    /// The size in bytes of one index.
    pub fn get_index_size(&self) -> (size: u32)
        requires
            self.spec_get_index_size() is Some,
        ensures
            Some(size) == self.spec_get_index_size(),
    {
        self.checked_index_size().unwrap()
    }

    /// Computes where the segments of this mesh go in a device buffer.
    ///
    /// Returns `None` if the index type has no size or the mesh is too large
    /// for its offsets to be represented.
    pub fn layout(&self) -> (layout: Option<MeshLayout>)
        ensures
            layout == self.spec_layout(),
    {
        match self.checked_index_size() {
            Some(index_size) => mesh_layout(
                self.vertex_data.len() as u64,
                self.index_data.len() as u64,
                index_size,
            ),
            None => None,
        }
    }
}

} // verus!
