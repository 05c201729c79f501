//! Settings the renderer is built with.
use vstd::prelude::*;
use crate::renderer::graphics::api::VK_API_VERSION_1_3;

verus! {

/// Enabling validation layers will enable further error reporting from Vulkan,
/// but can degrade performance.
pub const ENABLE_DEBUG_LAYER: bool = true;

/// The Vulkan version the renderer is written against.
pub const VK_API_VERSION: u32 = VK_API_VERSION_1_3;

/// How many frames the CPU may record ahead of the GPU.
pub const MAX_BUFFERED_FRAMES: usize = 3;

} // verus!
