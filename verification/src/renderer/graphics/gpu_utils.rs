//! Constructors of the Vulkan info structures the renderer hands to the driver.
use vstd::prelude::*;
use crate::renderer::graphics::api::{VK_ATTACHMENT_LOAD_OP_CLEAR, VK_ATTACHMENT_LOAD_OP_LOAD, VK_ATTACHMENT_STORE_OP_STORE, VK_COMPONENT_SWIZZLE_IDENTITY, VK_IMAGE_LAYOUT_UNDEFINED, VK_IMAGE_TILING_OPTIMAL, VK_IMAGE_TYPE_2D, VK_IMAGE_VIEW_TYPE_2D, VK_REMAINING_ARRAY_LAYERS, VK_REMAINING_MIP_LEVELS, VK_SAMPLE_COUNT_1_BIT, VK_SHARING_MODE_EXCLUSIVE, VK_STRUCTURE_TYPE_COMMAND_BUFFER_BEGIN_INFO, VK_STRUCTURE_TYPE_COMMAND_BUFFER_SUBMIT_INFO, VK_STRUCTURE_TYPE_IMAGE_CREATE_INFO, VK_STRUCTURE_TYPE_IMAGE_VIEW_CREATE_INFO, VK_STRUCTURE_TYPE_SEMAPHORE_SUBMIT_INFO, VK_STRUCTURE_TYPE_SUBMIT_INFO_2, VkClearValue, VkCommandBuffer, VkCommandBufferBeginInfo, VkCommandBufferSubmitInfo, VkComponentMapping, VkExtent2D, VkExtent3D, VkFormat, VkImage, VkImageCreateInfo, VkImageSubresourceRange, VkImageView, VkImageViewCreateInfo, VkOffset2D, VkPushConstantRange, VkRect2D, VkRenderingAttachmentInfo, VkRenderingInfo, VkSemaphore, VkSemaphoreSubmitInfo, VkSubmitInfo2};

verus! {

/// The kinds of device queue the renderer asks for.
#[derive(Debug, Clone, Copy, PartialEq, Eq, Structural)]
pub enum QueueType {
    Present,
    Graphics,
    Compute,
    Transfer,
}

/// The all-zero clear value.
pub open spec fn zero_clear_value() -> VkClearValue {
    VkClearValue { word0: 0, word1: 0, word2: 0, word3: 0 }
}

/// A begin info with the given usage flags and no inheritance info.
pub fn make_command_buffer_begin_info(usage_flags: u32) -> (r: VkCommandBufferBeginInfo)
    ensures
        r == (VkCommandBufferBeginInfo {
            sType: VK_STRUCTURE_TYPE_COMMAND_BUFFER_BEGIN_INFO,
            flags: usage_flags,
        }),
{
    VkCommandBufferBeginInfo { sType: VK_STRUCTURE_TYPE_COMMAND_BUFFER_BEGIN_INFO, flags: usage_flags }
}

/// The range covering every mip level and array layer of the given aspects.
pub fn make_image_subresource_range(aspect_mask: u32) -> (r: VkImageSubresourceRange)
    ensures
        r == (VkImageSubresourceRange {
            aspectMask: aspect_mask,
            baseMipLevel: 0,
            levelCount: VK_REMAINING_MIP_LEVELS,
            baseArrayLayer: 0,
            layerCount: VK_REMAINING_ARRAY_LAYERS,
        }),
{
    VkImageSubresourceRange {
        aspectMask: aspect_mask,
        baseMipLevel: 0,
        levelCount: VK_REMAINING_MIP_LEVELS,
        baseArrayLayer: 0,
        layerCount: VK_REMAINING_ARRAY_LAYERS,
    }
}

/// A semaphore submit info waiting or signalling at `stage_mask` with value 1.
pub fn make_semaphore_submit_info(stage_mask: u64, semaphore: VkSemaphore) -> (r: VkSemaphoreSubmitInfo)
    ensures
        r == (VkSemaphoreSubmitInfo {
            sType: VK_STRUCTURE_TYPE_SEMAPHORE_SUBMIT_INFO,
            semaphore: semaphore,
            value: 1,
            stageMask: stage_mask,
            deviceIndex: 0,
        }),
{
    VkSemaphoreSubmitInfo {
        sType: VK_STRUCTURE_TYPE_SEMAPHORE_SUBMIT_INFO,
        semaphore,
        value: 1,
        stageMask: stage_mask,
        deviceIndex: 0,
    }
}

/// A submit info for one command buffer.
pub fn make_command_buffer_submit_info(cmd_buffer: VkCommandBuffer) -> (r: VkCommandBufferSubmitInfo)
    ensures
        r == (VkCommandBufferSubmitInfo {
            sType: VK_STRUCTURE_TYPE_COMMAND_BUFFER_SUBMIT_INFO,
            commandBuffer: cmd_buffer,
            deviceMask: 0,
        }),
{
    VkCommandBufferSubmitInfo {
        sType: VK_STRUCTURE_TYPE_COMMAND_BUFFER_SUBMIT_INFO,
        commandBuffer: cmd_buffer,
        deviceMask: 0,
    }
}

/// A submit of one command buffer; each semaphore info is counted once when present.
pub fn make_submit_info(
    cmd_buffer_submit_info: VkCommandBufferSubmitInfo,
    signal_semaphore_info: Option<VkSemaphoreSubmitInfo>,
    wait_semaphore_info: Option<VkSemaphoreSubmitInfo>,
) -> (r: VkSubmitInfo2)
    ensures
        r == (VkSubmitInfo2 {
            sType: VK_STRUCTURE_TYPE_SUBMIT_INFO_2,
            flags: 0,
            waitSemaphoreInfoCount: if wait_semaphore_info is Some { 1 } else { 0 },
            waitSemaphoreInfo: wait_semaphore_info,
            commandBufferInfoCount: 1,
            commandBufferInfo: cmd_buffer_submit_info,
            signalSemaphoreInfoCount: if signal_semaphore_info is Some { 1 } else { 0 },
            signalSemaphoreInfo: signal_semaphore_info,
        }),
{
    let wait_count: u32 = if wait_semaphore_info.is_some() { 1 } else { 0 };
    let signal_count: u32 = if signal_semaphore_info.is_some() { 1 } else { 0 };
    VkSubmitInfo2 {
        sType: VK_STRUCTURE_TYPE_SUBMIT_INFO_2,
        flags: 0,
        waitSemaphoreInfoCount: wait_count,
        waitSemaphoreInfo: wait_semaphore_info,
        commandBufferInfoCount: 1,
        commandBufferInfo: cmd_buffer_submit_info,
        signalSemaphoreInfoCount: signal_count,
        signalSemaphoreInfo: signal_semaphore_info,
    }
}

/// A single-sampled, optimally tiled, exclusive 2D image with one mip level
/// and one layer, starting in the undefined layout.
pub open spec fn image_ci_spec(format: VkFormat, usage_flags: u32, extent: VkExtent3D) -> VkImageCreateInfo {
    VkImageCreateInfo {
        sType: VK_STRUCTURE_TYPE_IMAGE_CREATE_INFO,
        flags: 0,
        imageType: VK_IMAGE_TYPE_2D,
        format: format,
        extent: extent,
        mipLevels: 1,
        arrayLayers: 1,
        samples: VK_SAMPLE_COUNT_1_BIT,
        tiling: VK_IMAGE_TILING_OPTIMAL,
        usage: usage_flags,
        sharingMode: VK_SHARING_MODE_EXCLUSIVE,
        queueFamilyIndexCount: 0,
        initialLayout: VK_IMAGE_LAYOUT_UNDEFINED,
    }
}

/// The create info of `image_ci_spec`.
pub fn make_image_ci(format: VkFormat, usage_flags: u32, extent: VkExtent3D) -> (r: VkImageCreateInfo)
    ensures
        r == image_ci_spec(format, usage_flags, extent),
{
    VkImageCreateInfo {
        sType: VK_STRUCTURE_TYPE_IMAGE_CREATE_INFO,
        flags: 0,
        imageType: VK_IMAGE_TYPE_2D,
        format,
        extent,
        mipLevels: 1,
        arrayLayers: 1,
        samples: VK_SAMPLE_COUNT_1_BIT,
        tiling: VK_IMAGE_TILING_OPTIMAL,
        usage: usage_flags,
        sharingMode: VK_SHARING_MODE_EXCLUSIVE,
        queueFamilyIndexCount: 0,
        initialLayout: VK_IMAGE_LAYOUT_UNDEFINED,
    }
}

/// The identity component mapping.
pub open spec fn identity_components() -> VkComponentMapping {
    VkComponentMapping {
        r: VK_COMPONENT_SWIZZLE_IDENTITY,
        g: VK_COMPONENT_SWIZZLE_IDENTITY,
        b: VK_COMPONENT_SWIZZLE_IDENTITY,
        a: VK_COMPONENT_SWIZZLE_IDENTITY,
    }
}

/// A 2D view of the first mip level and layer of `image`.
pub open spec fn image_view_ci_spec(format: VkFormat, image: VkImage, aspect_flags: u32) -> VkImageViewCreateInfo {
    VkImageViewCreateInfo {
        sType: VK_STRUCTURE_TYPE_IMAGE_VIEW_CREATE_INFO,
        flags: 0,
        image: image,
        viewType: VK_IMAGE_VIEW_TYPE_2D,
        format: format,
        components: identity_components(),
        subresourceRange: VkImageSubresourceRange {
            aspectMask: aspect_flags,
            baseMipLevel: 0,
            levelCount: 1,
            baseArrayLayer: 0,
            layerCount: 1,
        },
    }
}

/// The create info of `image_view_ci_spec`.
pub fn make_image_view_ci(format: VkFormat, image: VkImage, aspect_flags: u32) -> (r: VkImageViewCreateInfo)
    ensures
        r == image_view_ci_spec(format, image, aspect_flags),
{
    VkImageViewCreateInfo {
        sType: VK_STRUCTURE_TYPE_IMAGE_VIEW_CREATE_INFO,
        flags: 0,
        image,
        viewType: VK_IMAGE_VIEW_TYPE_2D,
        format,
        components: VkComponentMapping {
            r: VK_COMPONENT_SWIZZLE_IDENTITY,
            g: VK_COMPONENT_SWIZZLE_IDENTITY,
            b: VK_COMPONENT_SWIZZLE_IDENTITY,
            a: VK_COMPONENT_SWIZZLE_IDENTITY,
        },
        subresourceRange: VkImageSubresourceRange {
            aspectMask: aspect_flags,
            baseMipLevel: 0,
            levelCount: 1,
            baseArrayLayer: 0,
            layerCount: 1,
        },
    }
}

/// A color attachment that is cleared to `clear` when one is given and loaded
/// otherwise, and always stored. The other fields keep their zero defaults.
pub fn make_color_attachment_info(view: VkImageView, clear: Option<VkClearValue>, layout: u32) -> (r: VkRenderingAttachmentInfo)
    ensures
        r == (VkRenderingAttachmentInfo {
            sType: 0,
            imageView: view,
            imageLayout: layout,
            resolveMode: 0,
            resolveImageView: 0,
            resolveImageLayout: 0,
            loadOp: if clear is Some { VK_ATTACHMENT_LOAD_OP_CLEAR } else { VK_ATTACHMENT_LOAD_OP_LOAD },
            storeOp: VK_ATTACHMENT_STORE_OP_STORE,
            clearValue: match clear { Some(c) => c, None => zero_clear_value() },
        }),
{
    let load_op = if clear.is_some() { VK_ATTACHMENT_LOAD_OP_CLEAR } else { VK_ATTACHMENT_LOAD_OP_LOAD };
    let clear_value = match clear {
        Some(c) => c,
        None => VkClearValue { word0: 0, word1: 0, word2: 0, word3: 0 },
    };
    VkRenderingAttachmentInfo {
        sType: 0,
        imageView: view,
        imageLayout: layout,
        resolveMode: 0,
        resolveImageView: 0,
        resolveImageLayout: 0,
        loadOp: load_op,
        storeOp: VK_ATTACHMENT_STORE_OP_STORE,
        clearValue: clear_value,
    }
}

/// A depth attachment cleared to depth 0 and stencil 0 and stored.
pub fn make_depth_attachment_info(view: VkImageView, layout: u32) -> (r: VkRenderingAttachmentInfo)
    ensures
        r == (VkRenderingAttachmentInfo {
            sType: 0,
            imageView: view,
            imageLayout: layout,
            resolveMode: 0,
            resolveImageView: 0,
            resolveImageLayout: 0,
            loadOp: VK_ATTACHMENT_LOAD_OP_CLEAR,
            storeOp: VK_ATTACHMENT_STORE_OP_STORE,
            clearValue: zero_clear_value(),
        }),
{
    VkRenderingAttachmentInfo {
        sType: 0,
        imageView: view,
        imageLayout: layout,
        resolveMode: 0,
        resolveImageView: 0,
        resolveImageLayout: 0,
        loadOp: VK_ATTACHMENT_LOAD_OP_CLEAR,
        storeOp: VK_ATTACHMENT_STORE_OP_STORE,
        clearValue: VkClearValue { word0: 0, word1: 0, word2: 0, word3: 0 },
    }
}

/// Rendering into the whole `render_extent` with one layer and one color attachment.
pub fn make_rendering_info(
    render_extent: VkExtent2D,
    color_attachment: Option<VkRenderingAttachmentInfo>,
    depth_attachment: Option<VkRenderingAttachmentInfo>,
) -> (r: VkRenderingInfo)
    ensures
        r == (VkRenderingInfo {
            sType: 0,
            flags: 0,
            renderArea: VkRect2D { offset: VkOffset2D { x: 0, y: 0 }, extent: render_extent },
            layerCount: 1,
            viewMask: 0,
            colorAttachmentCount: 1,
            colorAttachment: color_attachment,
            depthAttachment: depth_attachment,
        }),
{
    VkRenderingInfo {
        sType: 0,
        flags: 0,
        renderArea: VkRect2D { offset: VkOffset2D { x: 0, y: 0 }, extent: render_extent },
        layerCount: 1,
        viewMask: 0,
        colorAttachmentCount: 1,
        colorAttachment: color_attachment,
        depthAttachment: depth_attachment,
    }
}

/// A push constant range of `size` bytes at `offset`, visible to `stage_flags`.
pub fn make_push_constant_range(offset: u32, size: u32, stage_flags: u32) -> (r: VkPushConstantRange)
    ensures
        r == (VkPushConstantRange { stageFlags: stage_flags, offset: offset, size: size }),
{
    VkPushConstantRange { stageFlags: stage_flags, offset, size }
}

} // verus!
