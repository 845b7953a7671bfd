//! Bookkeeping for the long-lived GPU objects of an emulator renderer.
//!
//! Static meshes are reference counted and destroyed in two phases, uploads
//! are batched into one pending command buffer, and submitted command buffers
//! are recycled once the timeline semaphore has passed their signal value.
//! The crate decides and records; the caller performs the device calls.

pub mod vulkan;
pub mod ids;
pub mod mesh_data;
pub mod static_mesh;
pub mod submission;
pub mod model;
pub mod global_objects;
pub mod laws;
