pub mod api;
pub mod gpu_utils;
pub mod gpu_command_buffer;
pub mod gpu_pipeline;
pub mod gpu_descriptors;
pub mod gpu_swapchain;
pub mod gpu_command_pool;
pub mod consts;
pub mod gpu_device;

use vstd::prelude::*;
use crate::renderer::graphics::api::{VK_FORMAT_UNDEFINED, VkExtent3D, VkBuffer, VkFormat, VkImage, VkImageView, VmaAllocation};

verus! {

/// A device image with its default view and backing memory.
#[derive(Debug, Clone, Copy, PartialEq, Eq, Structural)]
pub struct AllocatedImage {
    pub image: VkImage,
    pub view: VkImageView,
    pub memory: VmaAllocation,
    pub dims: VkExtent3D,
    pub format: VkFormat,
}

impl AllocatedImage {
    /// The empty image: null handles, zero extent, undefined format.
    pub open spec fn empty_spec() -> Self {
        AllocatedImage {
            image: 0,
            view: 0,
            memory: 0,
            dims: VkExtent3D { width: 0, height: 0, depth: 0 },
            format: VK_FORMAT_UNDEFINED,
        }
    }

    /// The empty image: null handles, zero extent, undefined format.
    pub fn empty() -> (r: Self)
        ensures
            r == Self::empty_spec(),
    {
        AllocatedImage {
            image: 0,
            view: 0,
            memory: 0,
            dims: VkExtent3D { width: 0, height: 0, depth: 0 },
            format: VK_FORMAT_UNDEFINED,
        }
    }
}

/// A device buffer with the part of its allocation info the renderer reads:
/// the size of the allocation and the offset of the buffer inside it.
#[derive(Debug, Clone, Copy, PartialEq, Eq, Structural)]
pub struct AllocatedBuffer {
    pub buffer: VkBuffer,
    pub allocation: VmaAllocation,
    pub size: u64,
    pub offset: u64,
}

} // verus!
