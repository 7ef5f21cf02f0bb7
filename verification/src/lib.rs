//! A verified model of a small real-time rasterization renderer.
//!
//! The library captures the logic of the renderer — device selection,
//! swapchain parameter choice, host-visible buffer uploads, push-constant
//! serialization, command recording, and the per-frame synchronization
//! state machine — over plain values, so that each step carries a proved
//! contract.  The surrounding program performs the actual graphics API
//! calls and feeds their outcomes back into this model.

use vstd::prelude::*;

pub mod allocator;
pub mod buffer;
pub mod bytes;
pub mod device;
pub mod laws;
pub mod object;
pub mod push_constants;
pub mod record;
pub mod renderer;
pub mod swapchain;
pub mod vertex;

verus! {

/// The errors the renderer can report.
///
/// Initialization failures are fatal and carry the failing step;
/// `BufferOverflow` is reported at the buffer API boundary when an
/// update does not fit the allocated capacity.
#[derive(Clone, Copy, Debug, PartialEq, Eq, Structural)]
pub enum RenderError {
    NoSuitableDevice,
    InstanceCreationFailed,
    DeviceCreationFailed,
    SwapchainCreationFailed,
    ShaderLoadFailed,
    BufferOverflow,
}

} // verus!

