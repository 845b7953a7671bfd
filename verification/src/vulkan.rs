//! The Vulkan types of `ash` that the library stores and hands back, and the
//! one `ash` call its logic depends on.
//!
//! Everything in this file is taken on trust: the verifier sees the types as
//! opaque values and believes the contract of [`raw_index_type`].

use vstd::prelude::*;

verus! {

/// `ash::vk::IndexType`, the element type of an index buffer. Carried through
/// unchanged; its code is read with [`raw_index_type`].
#[verifier::external_type_specification]
#[verifier::external_body]
pub struct ExIndexType(ash::vk::IndexType);

/// `ash::vk::PrimitiveTopology`. Carried through unchanged, never inspected.
#[verifier::external_type_specification]
#[verifier::external_body]
pub struct ExPrimitiveTopology(ash::vk::PrimitiveTopology);

/// `ash::vk::Buffer`, a buffer handle. Carried through unchanged, never
/// inspected.
#[verifier::external_type_specification]
#[verifier::external_body]
pub struct ExBuffer(ash::vk::Buffer);

/// `ash::vk::CommandBuffer`, a command buffer handle. Carried through
/// unchanged, never inspected.
#[verifier::external_type_specification]
#[verifier::external_body]
pub struct ExCommandBuffer(ash::vk::CommandBuffer);

/// The integer that `ash::vk::IndexType::as_raw` returns for `index_type`:
/// the Vulkan code the value wraps.
pub uninterp spec fn index_type_code(index_type: ash::vk::IndexType) -> i32;

/// Calls `ash::vk::IndexType::as_raw`, which returns the wrapped `i32`
/// unchanged. The contract gives that integer its name and claims nothing
/// about which integer it is.
#[verifier::external_body]
pub(crate) fn raw_index_type(index_type: ash::vk::IndexType) -> (code: i32)
    ensures
        code == index_type_code(index_type),
{
    index_type.as_raw()
}

} // verus!
