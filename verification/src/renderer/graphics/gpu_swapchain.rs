//! The swapchain's images and frame synchronisation, and the decisions taken on
//! the results of acquiring and presenting its images.
use vstd::prelude::*;
use crate::renderer::graphics::api::{VK_ERROR_OUT_OF_DATE_KHR, VK_STRUCTURE_TYPE_PRESENT_INFO_KHR, VK_SUBOPTIMAL_KHR, VK_SUCCESS, VkExtent3D, VkFence, VkImage, VkImageView, VkQueue, VkSemaphore, VkSwapchainKHR};

verus! {

/// The swapchain's own driver entry points (it has none beyond the device's).
pub struct SwapchainFnTable {}

/// A present of one image that waits on one semaphore.
#[derive(Debug, Clone, Copy, PartialEq, Eq, Structural)]
pub struct PresentInfo {
    pub sType: u32,
    pub wait_semaphore: VkSemaphore,
    pub swapchain: VkSwapchainKHR,
    pub image_index: u32,
}

/// The swapchain's images and views, one present semaphore, render semaphore
/// and render fence per frame in flight, the current frame and image, the last
/// requested size, and two generation counters: the swapchain needs to be
/// recreated whenever `current_generation` has moved past `known_generation`.
pub struct Swapchain {
    pub fns: SwapchainFnTable,
    pub handle: VkSwapchainKHR,
    pub present_queue: VkQueue,
    pub image_views: Vec<VkImageView>,
    pub images: Vec<VkImage>,
    pub present_semaphores: Vec<VkSemaphore>,
    pub render_semaphores: Vec<VkSemaphore>,
    pub render_fences: Vec<VkFence>,
    pub frame_index: usize,
    pub swapchain_index: u32,
    pub cached_width: u32,
    pub cached_height: u32,
    pub known_generation: usize,
    pub current_generation: usize,
}

impl Default for Swapchain {
    fn default() -> (r: Self)
        ensures
            r.handle == 0,
            r.present_queue == 0,
            r.image_views@.len() == 0,
            r.images@.len() == 0,
            r.present_semaphores@.len() == 0,
            r.render_semaphores@.len() == 0,
            r.render_fences@.len() == 0,
            r.frame_index == 0,
            r.swapchain_index == 0,
            r.cached_width == 0,
            r.cached_height == 0,
            r.known_generation == 0,
            r.current_generation == 0,
    {
        Swapchain {
            fns: SwapchainFnTable {},
            handle: 0,
            present_queue: 0,
            image_views: Vec::new(),
            images: Vec::new(),
            present_semaphores: Vec::new(),
            render_semaphores: Vec::new(),
            render_fences: Vec::new(),
            frame_index: 0,
            swapchain_index: 0,
            cached_width: 0,
            cached_height: 0,
            known_generation: 0,
            current_generation: 0,
        }
    }
}

impl Swapchain {
    /// Everything but the generation counters, the size, the frame and the
    /// image index is as in `other`.
    pub open spec fn same_resources(&self, other: &Swapchain) -> bool {
        &&& self.handle == other.handle
        &&& self.present_queue == other.present_queue
        &&& self.image_views@ == other.image_views@
        &&& self.images@ == other.images@
        &&& self.present_semaphores@ == other.present_semaphores@
        &&& self.render_semaphores@ == other.render_semaphores@
        &&& self.render_fences@ == other.render_fences@
    }

    /// Marks the swapchain as matching the latest request.
    pub fn validate(&mut self)
        ensures
            final(self).same_resources(old(self)),
            final(self).known_generation == old(self).current_generation,
            final(self).current_generation == old(self).current_generation,
            final(self).frame_index == old(self).frame_index,
            final(self).swapchain_index == old(self).swapchain_index,
            final(self).cached_width == old(self).cached_width,
            final(self).cached_height == old(self).cached_height,
    {
        self.known_generation = self.current_generation;
    }

    /// Requests a recreation of the swapchain.
    pub fn invalidate(&mut self)
        requires
            old(self).current_generation < usize::MAX,
        ensures
            final(self).same_resources(old(self)),
            final(self).current_generation == old(self).current_generation + 1,
            final(self).known_generation == old(self).known_generation,
            final(self).frame_index == old(self).frame_index,
            final(self).swapchain_index == old(self).swapchain_index,
            final(self).cached_width == old(self).cached_width,
            final(self).cached_height == old(self).cached_height,
    {
        self.current_generation = self.current_generation + 1;
    }

    /// Whether no recreation has been requested since the last validation.
    pub fn is_valid(&self) -> (r: bool)
        ensures
            r == (self.current_generation == self.known_generation),
    {
        self.current_generation == self.known_generation
    }

    /// Records the new size and requests a recreation.
    pub fn on_resize(&mut self, width: u32, height: u32)
        requires
            old(self).current_generation < usize::MAX,
        ensures
            final(self).same_resources(old(self)),
            final(self).cached_width == width,
            final(self).cached_height == height,
            final(self).current_generation == old(self).current_generation + 1,
            final(self).known_generation == old(self).known_generation,
            final(self).frame_index == old(self).frame_index,
            final(self).swapchain_index == old(self).swapchain_index,
    {
        self.cached_width = width;
        self.cached_height = height;
        self.invalidate();
    }

    /// The last requested size, one deep.
    pub fn get_extent(&self) -> (r: VkExtent3D)
        ensures
            r == (VkExtent3D { width: self.cached_width, height: self.cached_height, depth: 1 }),
    {
        VkExtent3D { width: self.cached_width, height: self.cached_height, depth: 1 }
    }

    /// The image acquired for this frame.
    pub fn get_swapchain_image(&self) -> (r: VkImage)
        requires
            self.swapchain_index < self.images@.len(),
        ensures
            r == self.images@[self.swapchain_index as int],
    {
        self.images[self.swapchain_index as usize]
    }

    /// The view of the image acquired for this frame.
    pub fn get_swapchain_image_view(&self) -> (r: VkImageView)
        requires
            self.swapchain_index < self.image_views@.len(),
        ensures
            r == self.image_views@[self.swapchain_index as int],
    {
        self.image_views[self.swapchain_index as usize]
    }

    /// The semaphore signalled when this frame's rendering is done.
    pub fn get_render_semaphore(&self) -> (r: VkSemaphore)
        requires
            self.frame_index < self.render_semaphores@.len(),
        ensures
            r == self.render_semaphores@[self.frame_index as int],
    {
        self.render_semaphores[self.frame_index]
    }

    /// The semaphore signalled when this frame's image is ready to render into.
    pub fn get_present_semaphore(&self) -> (r: VkSemaphore)
        requires
            self.frame_index < self.present_semaphores@.len(),
        ensures
            r == self.present_semaphores@[self.frame_index as int],
    {
        self.present_semaphores[self.frame_index]
    }

    /// The fence signalled when this frame's commands have executed.
    pub fn get_render_fence(&self) -> (r: VkFence)
        requires
            self.frame_index < self.render_fences@.len(),
        ensures
            r == self.render_fences@[self.frame_index as int],
    {
        self.render_fences[self.frame_index]
    }

    /// The number of swapchain images.
    pub fn get_image_count(&self) -> (r: usize)
        ensures
            r == self.images@.len(),
    {
        self.images.len()
    }

    /// Takes the outcome of acquiring the next image: records its index, and
    /// answers whether the frame can be rendered. An out-of-date swapchain is
    /// invalidated; any other failure but a suboptimal success skips the frame.
    pub fn on_image_acquired(&mut self, result: i32, image_index: u32) -> (r: bool)
        requires
            result == VK_ERROR_OUT_OF_DATE_KHR ==> old(self).current_generation < usize::MAX,
        ensures
            final(self).same_resources(old(self)),
            final(self).swapchain_index == image_index,
            final(self).frame_index == old(self).frame_index,
            final(self).cached_width == old(self).cached_width,
            final(self).cached_height == old(self).cached_height,
            final(self).known_generation == old(self).known_generation,
            final(self).current_generation == if result == VK_ERROR_OUT_OF_DATE_KHR {
                old(self).current_generation + 1
            } else {
                old(self).current_generation as int
            },
            r == (result == VK_SUCCESS || result == VK_SUBOPTIMAL_KHR),
    {
        self.swapchain_index = image_index;
        if result == VK_ERROR_OUT_OF_DATE_KHR {
            self.invalidate();
            false
        } else if result != VK_SUCCESS && result != VK_SUBOPTIMAL_KHR {
            false
        } else {
            true
        }
    }

    /// The present of this frame's image, waiting on this frame's render semaphore.
    pub fn present_info(&self) -> (r: PresentInfo)
        requires
            self.frame_index < self.render_semaphores@.len(),
        ensures
            r == (PresentInfo {
                sType: VK_STRUCTURE_TYPE_PRESENT_INFO_KHR,
                wait_semaphore: self.render_semaphores@[self.frame_index as int],
                swapchain: self.handle,
                image_index: self.swapchain_index,
            }),
    {
        PresentInfo {
            sType: VK_STRUCTURE_TYPE_PRESENT_INFO_KHR,
            wait_semaphore: self.render_semaphores[self.frame_index],
            swapchain: self.handle,
            image_index: self.swapchain_index,
        }
    }

    /// Takes the outcome of presenting: an out-of-date or suboptimal swapchain
    /// is invalidated; the frame then advances to the next one in flight.
    pub fn on_frame_presented(&mut self, result: i32)
        requires
            result == VK_SUCCESS || result == VK_SUBOPTIMAL_KHR || result == VK_ERROR_OUT_OF_DATE_KHR,
            result != VK_SUCCESS ==> old(self).current_generation < usize::MAX,
            old(self).render_fences@.len() > 0,
            old(self).frame_index < usize::MAX,
        ensures
            final(self).same_resources(old(self)),
            final(self).swapchain_index == old(self).swapchain_index,
            final(self).cached_width == old(self).cached_width,
            final(self).cached_height == old(self).cached_height,
            final(self).known_generation == old(self).known_generation,
            final(self).current_generation == if result == VK_SUCCESS {
                old(self).current_generation as int
            } else {
                old(self).current_generation + 1
            },
            final(self).frame_index == (old(self).frame_index + 1) % (old(self).render_fences@.len() as int),
    {
        if result == VK_ERROR_OUT_OF_DATE_KHR || result == VK_SUBOPTIMAL_KHR {
            self.invalidate();
        }
        self.frame_index = (self.frame_index + 1) % self.render_fences.len();
    }
}

} // verus!
