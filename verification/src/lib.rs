//! An immediate-mode sprite-atlas draw path: a static geometry cache for a
//! shared unit quad and a per-call draw assembler that packs camera, atlas
//! and per-instance data into bind groups and emits one indexed draw command.
//!
//! GPU-side state (buffers, the asset-resource cache, recorded draw commands)
//! is modelled as explicit data, so every step of the binding and submission
//! logic is stated and proved here; a host renderer replays the recorded
//! commands and byte payloads against its own backend. 32-bit float payloads
//! (matrices, pixel sizes, tints) are carried as their bit patterns.

pub mod atlas;
pub mod bind;
pub mod bytes;
pub mod commands;
pub mod drawer;
pub mod geometry;
pub mod gpu;
pub mod laws;

use vstd::prelude::*;

verus! {

/// A recoverable failure of one draw call; the caller decides whether to
/// retry. `BindGroupCreationFailed` reports a bind-group creation failure of
/// a host GPU backend; the in-memory model backend never fails, so no
/// function of this crate returns it.
#[derive(Clone, Copy, Debug, PartialEq, Eq, Structural)]
pub enum DrawError {
    /// The quad's vertex or index buffer was not found in the asset-resource
    /// cache: `ensure_quad_uploaded` was never run.
    GeometryUnavailable,
    /// A globally bound render-resource binding could not be resolved into a
    /// finished bind group.
    AssetBindingFailed,
    /// No atlas is stored under the requested handle.
    AtlasNotFound,
    /// The requested frame index is not below the atlas's frame count.
    FrameIndexOutOfRange,
    /// The GPU backend failed to create a bind group.
    BindGroupCreationFailed,
}

} // verus!
