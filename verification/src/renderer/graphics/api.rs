//! The Vulkan vocabulary the renderer speaks: handle and enum types, the
//! constants of the Vulkan headers it uses, and the plain-value parts of the
//! create-info and command structures that the renderer fills in.
use vstd::prelude::*;

verus! {

pub type VkBool32 = u32;
pub type VkFlags = u32;
pub type VkFlags64 = u64;
pub type VkFormat = u32;
pub type VkImageLayout = u32;
pub type VkImageAspectFlags = u32;
pub type VkImageUsageFlags = u32;
pub type VkBufferUsageFlags = u32;
pub type VkPipelineStageFlags2 = u64;
pub type VkAccessFlags2 = u64;
pub type VkCommandBufferUsageFlags = u32;
pub type VkShaderStageFlags = u32;
pub type VkShaderStageFlagBits = u32;
pub type VkDescriptorType = u32;
pub type VkDescriptorSetLayoutCreateFlags = u32;
pub type VkPrimitiveTopology = u32;
pub type VkPolygonMode = u32;
pub type VkCullModeFlags = u32;
pub type VkFrontFace = u32;
pub type VkCompareOp = u32;
pub type VkColorSpaceKHR = u32;
pub type VkPresentModeKHR = u32;
pub type VkResult = i32;
pub type VkDeviceSize = u64;
pub type VkDeviceAddress = u64;

// Handles are opaque 64-bit values; 0 is the null handle.
pub type VkImage = u64;
pub type VkImageView = u64;
pub type VkSampler = u64;
pub type VkBuffer = u64;
pub type VkPipeline = u64;
pub type VkPipelineLayout = u64;
pub type VkShaderModule = u64;
pub type VkDescriptorSet = u64;
pub type VkDescriptorSetLayout = u64;
pub type VkDescriptorPool = u64;
pub type VkCommandBuffer = u64;
pub type VkCommandPool = u64;
pub type VkSemaphore = u64;
pub type VkFence = u64;
pub type VkSwapchainKHR = u64;
pub type VkQueue = u64;
pub type VkSurfaceKHR = u64;
pub type VkPhysicalDevice = u64;
pub type VmaAllocation = u64;
pub type VmaAllocator = u64;
pub type VkDevice = u64;
pub type VkInstance = u64;

pub const VK_NULL_HANDLE: u64 = 0;

pub const VK_KHR_SURFACE_EXTENSION_NAME: &'static str = "VK_KHR_surface";
pub const VK_KHR_XLIB_SURFACE_EXTENSION_NAME: &'static str = "VK_KHR_xlib_surface";
pub const VK_KHR_WAYLAND_SURFACE_EXTENSION_NAME: &'static str = "VK_KHR_wayland_surface";
pub const VK_KHR_GET_PHYSICAL_DEVICE_PROPERTIES_2_EXTENSION_NAME: &'static str = "VK_KHR_get_physical_device_properties2";
pub const VK_EXT_DEBUG_UTILS_EXTENSION_NAME: &'static str = "VK_EXT_debug_utils";
pub const VK_KHR_SWAPCHAIN_EXTENSION_NAME: &'static str = "VK_KHR_swapchain";
pub const VK_KHR_TIMELINE_SEMAPHORE_EXTENSION_NAME: &'static str = "VK_KHR_timeline_semaphore";
pub const VK_KHR_DYNAMIC_RENDERING_EXTENSION_NAME: &'static str = "VK_KHR_dynamic_rendering";
pub const VK_KHR_PORTABILITY_SUBSET_EXTENSION_NAME: &'static str = "VK_KHR_portability_subset";
pub const VK_LAYER_KHRONOS_VALIDATION_LAYER_NAME: &'static str = "VK_LAYER_KHRONOS_validation";

pub const VK_TRUE: u32 = 1;
pub const VK_FALSE: u32 = 0;

pub const VK_SUCCESS: i32 = 0;
pub const VK_SUBOPTIMAL_KHR: i32 = 1000001003;
pub const VK_ERROR_OUT_OF_DATE_KHR: i32 = -1000001004;

pub const VK_REMAINING_MIP_LEVELS: u32 = 0xFFFF_FFFF;
pub const VK_REMAINING_ARRAY_LAYERS: u32 = 0xFFFF_FFFF;

pub const VK_API_VERSION_1_3: u32 = 0x0040_3000;

// VkStructureType
pub const VK_STRUCTURE_TYPE_IMAGE_CREATE_INFO: u32 = 14;
pub const VK_STRUCTURE_TYPE_IMAGE_VIEW_CREATE_INFO: u32 = 15;
pub const VK_STRUCTURE_TYPE_PIPELINE_SHADER_STAGE_CREATE_INFO: u32 = 18;
pub const VK_STRUCTURE_TYPE_PIPELINE_DYNAMIC_STATE_CREATE_INFO: u32 = 27;
pub const VK_STRUCTURE_TYPE_COMMAND_BUFFER_BEGIN_INFO: u32 = 42;
pub const VK_STRUCTURE_TYPE_RENDERING_INFO: u32 = 1000044000;
pub const VK_STRUCTURE_TYPE_RENDERING_ATTACHMENT_INFO: u32 = 1000044001;
pub const VK_STRUCTURE_TYPE_PIPELINE_RENDERING_CREATE_INFO: u32 = 1000044002;
pub const VK_STRUCTURE_TYPE_IMAGE_MEMORY_BARRIER_2: u32 = 1000314002;
pub const VK_STRUCTURE_TYPE_DEPENDENCY_INFO: u32 = 1000314003;
pub const VK_STRUCTURE_TYPE_SUBMIT_INFO_2: u32 = 1000314004;
pub const VK_STRUCTURE_TYPE_SEMAPHORE_SUBMIT_INFO: u32 = 1000314005;
pub const VK_STRUCTURE_TYPE_COMMAND_BUFFER_SUBMIT_INFO: u32 = 1000314006;
pub const VK_STRUCTURE_TYPE_BLIT_IMAGE_INFO_2: u32 = 1000337004;
pub const VK_STRUCTURE_TYPE_IMAGE_BLIT_2: u32 = 1000337008;
pub const VK_STRUCTURE_TYPE_PRESENT_INFO_KHR: u32 = 1000001001;
pub const VK_STRUCTURE_TYPE_SWAPCHAIN_CREATE_INFO_KHR: u32 = 1000001000;

// VkImageLayout
pub const VK_IMAGE_LAYOUT_UNDEFINED: u32 = 0;
pub const VK_IMAGE_LAYOUT_GENERAL: u32 = 1;
pub const VK_IMAGE_LAYOUT_COLOR_ATTACHMENT_OPTIMAL: u32 = 2;
pub const VK_IMAGE_LAYOUT_SHADER_READ_ONLY_OPTIMAL: u32 = 5;
pub const VK_IMAGE_LAYOUT_TRANSFER_SRC_OPTIMAL: u32 = 6;
pub const VK_IMAGE_LAYOUT_TRANSFER_DST_OPTIMAL: u32 = 7;
pub const VK_IMAGE_LAYOUT_DEPTH_ATTACHMENT_OPTIMAL: u32 = 1000241000;
pub const VK_IMAGE_LAYOUT_PRESENT_SRC_KHR: u32 = 1000001002;

// VkImageAspectFlagBits
pub const VK_IMAGE_ASPECT_COLOR_BIT: u32 = 0x1;
pub const VK_IMAGE_ASPECT_DEPTH_BIT: u32 = 0x2;

// VkPipelineStageFlagBits2
pub const VK_PIPELINE_STAGE_2_COLOR_ATTACHMENT_OUTPUT_BIT: u64 = 0x0000_0400;
pub const VK_PIPELINE_STAGE_2_ALL_GRAPHICS_BIT: u64 = 0x0000_8000;
pub const VK_PIPELINE_STAGE_2_ALL_COMMANDS_BIT: u64 = 0x0001_0000;

// VkAccessFlagBits2
pub const VK_ACCESS_2_MEMORY_READ_BIT: u64 = 0x0000_8000;
pub const VK_ACCESS_2_MEMORY_WRITE_BIT: u64 = 0x0001_0000;

// VkCommandBufferUsageFlagBits
pub const VK_COMMAND_BUFFER_USAGE_ONE_TIME_SUBMIT_BIT: u32 = 0x1;

// VkPipelineBindPoint
pub const VK_PIPELINE_BIND_POINT_GRAPHICS: u32 = 0;
pub const VK_PIPELINE_BIND_POINT_COMPUTE: u32 = 1;

// VkFilter
pub const VK_FILTER_NEAREST: u32 = 0;
pub const VK_FILTER_LINEAR: u32 = 1;

// VkIndexType
pub const VK_INDEX_TYPE_UINT32: u32 = 1;

// VkDescriptorType
pub const VK_DESCRIPTOR_TYPE_SAMPLER: u32 = 0;
pub const VK_DESCRIPTOR_TYPE_COMBINED_IMAGE_SAMPLER: u32 = 1;
pub const VK_DESCRIPTOR_TYPE_SAMPLED_IMAGE: u32 = 2;
pub const VK_DESCRIPTOR_TYPE_STORAGE_IMAGE: u32 = 3;
pub const VK_DESCRIPTOR_TYPE_UNIFORM_BUFFER: u32 = 6;
pub const VK_DESCRIPTOR_TYPE_STORAGE_BUFFER: u32 = 7;
pub const VK_DESCRIPTOR_TYPE_UNIFORM_BUFFER_DYNAMIC: u32 = 8;
pub const VK_DESCRIPTOR_TYPE_STORAGE_BUFFER_DYNAMIC: u32 = 9;

// Image creation
pub const VK_IMAGE_TYPE_2D: u32 = 1;
pub const VK_IMAGE_VIEW_TYPE_2D: u32 = 1;
pub const VK_SAMPLE_COUNT_1_BIT: u32 = 0x1;
pub const VK_IMAGE_TILING_OPTIMAL: u32 = 0;
pub const VK_SHARING_MODE_EXCLUSIVE: u32 = 0;
pub const VK_SHARING_MODE_CONCURRENT: u32 = 1;
pub const VK_COMPONENT_SWIZZLE_IDENTITY: u32 = 0;

// VkImageUsageFlagBits
pub const VK_IMAGE_USAGE_TRANSFER_SRC_BIT: u32 = 0x01;
pub const VK_IMAGE_USAGE_TRANSFER_DST_BIT: u32 = 0x02;
pub const VK_IMAGE_USAGE_SAMPLED_BIT: u32 = 0x04;
pub const VK_IMAGE_USAGE_STORAGE_BIT: u32 = 0x08;
pub const VK_IMAGE_USAGE_COLOR_ATTACHMENT_BIT: u32 = 0x10;
pub const VK_IMAGE_USAGE_DEPTH_STENCIL_ATTACHMENT_BIT: u32 = 0x20;

// Attachments
pub const VK_ATTACHMENT_LOAD_OP_LOAD: u32 = 0;
pub const VK_ATTACHMENT_LOAD_OP_CLEAR: u32 = 1;
pub const VK_ATTACHMENT_STORE_OP_STORE: u32 = 0;

// VkFormat
pub const VK_FORMAT_UNDEFINED: u32 = 0;
pub const VK_FORMAT_R8G8B8A8_UNORM: u32 = 37;
pub const VK_FORMAT_R8G8B8A8_SRGB: u32 = 43;
pub const VK_FORMAT_B8G8R8A8_UNORM: u32 = 44;
pub const VK_FORMAT_R16G16B16A16_SFLOAT: u32 = 97;
pub const VK_FORMAT_D32_SFLOAT: u32 = 126;
pub const VK_FORMAT_D24_UNORM_S8_UINT: u32 = 129;
pub const VK_FORMAT_D32_SFLOAT_S8_UINT: u32 = 130;
pub const VK_FORMAT_BC1_RGBA_UNORM_BLOCK: u32 = 133;
pub const VK_FORMAT_BC1_RGBA_SRGB_BLOCK: u32 = 134;

// VkFormatFeatureFlagBits
pub const VK_FORMAT_FEATURE_DEPTH_STENCIL_ATTACHMENT_BIT: u32 = 0x200;

// VkColorSpaceKHR
pub const VK_COLOR_SPACE_SRGB_NONLINEAR_KHR: u32 = 0;
pub const VK_COLOR_SPACE_MAX_ENUM_KHR: u32 = 0x7FFF_FFFF;

// VkShaderStageFlagBits
pub const VK_SHADER_STAGE_VERTEX_BIT: u32 = 0x01;
pub const VK_SHADER_STAGE_FRAGMENT_BIT: u32 = 0x10;
pub const VK_SHADER_STAGE_COMPUTE_BIT: u32 = 0x20;

// Pipeline state
pub const VK_PRIMITIVE_TOPOLOGY_TRIANGLE_LIST: u32 = 3;
pub const VK_POLYGON_MODE_FILL: u32 = 0;
pub const VK_CULL_MODE_BACK_BIT: u32 = 0x2;
pub const VK_FRONT_FACE_CLOCKWISE: u32 = 1;
pub const VK_COMPARE_OP_NEVER: u32 = 0;
pub const VK_COMPARE_OP_LESS_OR_EQUAL: u32 = 3;
pub const VK_COLOR_COMPONENT_R_BIT: u32 = 0x1;
pub const VK_COLOR_COMPONENT_G_BIT: u32 = 0x2;
pub const VK_COLOR_COMPONENT_B_BIT: u32 = 0x4;
pub const VK_COLOR_COMPONENT_A_BIT: u32 = 0x8;
pub const VK_BLEND_FACTOR_ZERO: u32 = 0;
pub const VK_BLEND_FACTOR_ONE: u32 = 1;
pub const VK_BLEND_FACTOR_SRC_ALPHA: u32 = 6;
pub const VK_BLEND_FACTOR_ONE_MINUS_SRC_ALPHA: u32 = 7;
pub const VK_BLEND_OP_ADD: u32 = 0;
pub const VK_LOGIC_OP_COPY: u32 = 3;
pub const VK_DYNAMIC_STATE_VIEWPORT: u32 = 0;
pub const VK_DYNAMIC_STATE_SCISSOR: u32 = 1;

// Queues and devices
pub const VK_QUEUE_GRAPHICS_BIT: u32 = 0x1;
pub const VK_QUEUE_COMPUTE_BIT: u32 = 0x2;
pub const VK_PHYSICAL_DEVICE_TYPE_DISCRETE_GPU: u32 = 2;
pub const VK_MEMORY_PROPERTY_DEVICE_LOCAL_BIT: u32 = 0x1;
pub const VK_MEMORY_PROPERTY_HOST_VISIBLE_BIT: u32 = 0x2;

// VkPresentModeKHR
pub const VK_PRESENT_MODE_IMMEDIATE_KHR: u32 = 0;
pub const VK_PRESENT_MODE_MAILBOX_KHR: u32 = 1;
pub const VK_PRESENT_MODE_FIFO_KHR: u32 = 2;

pub const VK_COMPOSITE_ALPHA_OPAQUE_BIT_KHR: u32 = 0x1;

// VkBufferUsageFlagBits
pub const VK_BUFFER_USAGE_TRANSFER_SRC_BIT: u32 = 0x01;
pub const VK_BUFFER_USAGE_TRANSFER_DST_BIT: u32 = 0x02;
pub const VK_BUFFER_USAGE_STORAGE_BUFFER_BIT: u32 = 0x20;
pub const VK_BUFFER_USAGE_INDEX_BUFFER_BIT: u32 = 0x40;
pub const VK_BUFFER_USAGE_SHADER_DEVICE_ADDRESS_BIT: u32 = 0x2_0000;

#[derive(Debug, Clone, Copy, PartialEq, Eq, Structural)]
pub struct VkExtent2D {
    pub width: u32,
    pub height: u32,
}

#[derive(Debug, Clone, Copy, PartialEq, Eq, Structural)]
pub struct VkExtent3D {
    pub width: u32,
    pub height: u32,
    pub depth: u32,
}

#[derive(Debug, Clone, Copy, PartialEq, Eq, Structural)]
pub struct VkOffset2D {
    pub x: i32,
    pub y: i32,
}

#[derive(Debug, Clone, Copy, PartialEq, Eq, Structural)]
pub struct VkOffset3D {
    pub x: i32,
    pub y: i32,
    pub z: i32,
}

#[derive(Debug, Clone, Copy, PartialEq, Eq, Structural)]
pub struct VkRect2D {
    pub offset: VkOffset2D,
    pub extent: VkExtent2D,
}

#[derive(Debug, Clone, Copy, PartialEq, Eq, Structural)]
pub struct VkImageSubresourceRange {
    pub aspectMask: u32,
    pub baseMipLevel: u32,
    pub levelCount: u32,
    pub baseArrayLayer: u32,
    pub layerCount: u32,
}

#[derive(Debug, Clone, Copy, PartialEq, Eq, Structural)]
pub struct VkImageSubresourceLayers {
    pub aspectMask: u32,
    pub mipLevel: u32,
    pub baseArrayLayer: u32,
    pub layerCount: u32,
}

/// The 16 bytes of a `VkClearValue` union, as four 32-bit words (a color's four
/// channels, or a depth value followed by a stencil value).
#[derive(Debug, Clone, Copy, PartialEq, Eq, Structural)]
pub struct VkClearValue {
    pub word0: u32,
    pub word1: u32,
    pub word2: u32,
    pub word3: u32,
}

#[derive(Debug, Clone, Copy, PartialEq, Eq, Structural)]
pub struct VkCommandBufferBeginInfo {
    pub sType: u32,
    pub flags: u32,
}

#[derive(Debug, Clone, Copy, PartialEq, Eq, Structural)]
pub struct VkSemaphoreSubmitInfo {
    pub sType: u32,
    pub semaphore: VkSemaphore,
    pub value: u64,
    pub stageMask: u64,
    pub deviceIndex: u32,
}

#[derive(Debug, Clone, Copy, PartialEq, Eq, Structural)]
pub struct VkCommandBufferSubmitInfo {
    pub sType: u32,
    pub commandBuffer: VkCommandBuffer,
    pub deviceMask: u32,
}

/// A submit of one command buffer with at most one wait and one signal
/// semaphore; each info is present exactly when its count is 1.
#[derive(Debug, Clone, Copy, PartialEq, Eq, Structural)]
pub struct VkSubmitInfo2 {
    pub sType: u32,
    pub flags: u32,
    pub waitSemaphoreInfoCount: u32,
    pub waitSemaphoreInfo: Option<VkSemaphoreSubmitInfo>,
    pub commandBufferInfoCount: u32,
    pub commandBufferInfo: VkCommandBufferSubmitInfo,
    pub signalSemaphoreInfoCount: u32,
    pub signalSemaphoreInfo: Option<VkSemaphoreSubmitInfo>,
}

#[derive(Debug, Clone, Copy, PartialEq, Eq, Structural)]
pub struct VkImageCreateInfo {
    pub sType: u32,
    pub flags: u32,
    pub imageType: u32,
    pub format: VkFormat,
    pub extent: VkExtent3D,
    pub mipLevels: u32,
    pub arrayLayers: u32,
    pub samples: u32,
    pub tiling: u32,
    pub usage: u32,
    pub sharingMode: u32,
    pub queueFamilyIndexCount: u32,
    pub initialLayout: u32,
}

#[derive(Debug, Clone, Copy, PartialEq, Eq, Structural)]
pub struct VkComponentMapping {
    pub r: u32,
    pub g: u32,
    pub b: u32,
    pub a: u32,
}

#[derive(Debug, Clone, Copy, PartialEq, Eq, Structural)]
pub struct VkImageViewCreateInfo {
    pub sType: u32,
    pub flags: u32,
    pub image: VkImage,
    pub viewType: u32,
    pub format: VkFormat,
    pub components: VkComponentMapping,
    pub subresourceRange: VkImageSubresourceRange,
}

#[derive(Debug, Clone, Copy, PartialEq, Eq, Structural)]
pub struct VkRenderingAttachmentInfo {
    pub sType: u32,
    pub imageView: VkImageView,
    pub imageLayout: u32,
    pub resolveMode: u32,
    pub resolveImageView: VkImageView,
    pub resolveImageLayout: u32,
    pub loadOp: u32,
    pub storeOp: u32,
    pub clearValue: VkClearValue,
}

#[derive(Debug, Clone, Copy, PartialEq, Eq, Structural)]
pub struct VkRenderingInfo {
    pub sType: u32,
    pub flags: u32,
    pub renderArea: VkRect2D,
    pub layerCount: u32,
    pub viewMask: u32,
    pub colorAttachmentCount: u32,
    pub colorAttachment: Option<VkRenderingAttachmentInfo>,
    pub depthAttachment: Option<VkRenderingAttachmentInfo>,
}

#[derive(Debug, Clone, Copy, PartialEq, Eq, Structural)]
pub struct VkPushConstantRange {
    pub stageFlags: u32,
    pub offset: u32,
    pub size: u32,
}

#[derive(Debug, Clone, Copy, PartialEq, Eq, Structural)]
pub struct VkImageMemoryBarrier2 {
    pub sType: u32,
    pub srcStageMask: u64,
    pub srcAccessMask: u64,
    pub dstStageMask: u64,
    pub dstAccessMask: u64,
    pub oldLayout: u32,
    pub newLayout: u32,
    pub srcQueueFamilyIndex: u32,
    pub dstQueueFamilyIndex: u32,
    pub image: VkImage,
    pub subresourceRange: VkImageSubresourceRange,
}

/// A dependency info carrying exactly one image memory barrier.
#[derive(Debug, Clone, Copy, PartialEq, Eq, Structural)]
pub struct VkDependencyInfo {
    pub sType: u32,
    pub dependencyFlags: u32,
    pub imageMemoryBarrierCount: u32,
    pub imageMemoryBarrier: VkImageMemoryBarrier2,
}

#[derive(Debug, Clone, Copy, PartialEq, Eq, Structural)]
pub struct VkBufferCopy {
    pub srcOffset: u64,
    pub dstOffset: u64,
    pub size: u64,
}

/// One blit region; `srcOffsets0`/`srcOffsets1` are the two corners of the
/// source box, likewise for the destination.
#[derive(Debug, Clone, Copy, PartialEq, Eq, Structural)]
pub struct VkImageBlit2 {
    pub sType: u32,
    pub srcSubresource: VkImageSubresourceLayers,
    pub srcOffsets0: VkOffset3D,
    pub srcOffsets1: VkOffset3D,
    pub dstSubresource: VkImageSubresourceLayers,
    pub dstOffsets0: VkOffset3D,
    pub dstOffsets1: VkOffset3D,
}

/// A blit of exactly one region.
#[derive(Debug, Clone, Copy, PartialEq, Eq, Structural)]
pub struct VkBlitImageInfo2 {
    pub sType: u32,
    pub srcImage: VkImage,
    pub srcImageLayout: u32,
    pub dstImage: VkImage,
    pub dstImageLayout: u32,
    pub regionCount: u32,
    pub region: VkImageBlit2,
    pub filter: u32,
}

#[derive(Debug, Clone, Copy, PartialEq, Eq, Structural)]
pub struct VkBufferImageCopy {
    pub bufferOffset: u64,
    pub bufferRowLength: u32,
    pub bufferImageHeight: u32,
    pub imageSubresource: VkImageSubresourceLayers,
    pub imageOffset: VkOffset3D,
    pub imageExtent: VkExtent3D,
}

/// The IEEE-754 bits of the single-precision value 1.0.
pub const FLOAT_ONE_BITS: u32 = 0x3F80_0000;

#[derive(Debug, Clone, Copy, PartialEq, Eq, Structural)]
pub struct VkPipelineShaderStageCreateInfo {
    pub sType: u32,
    pub flags: u32,
    pub stage: u32,
    pub module: VkShaderModule,
}

#[derive(Debug, Clone, Copy, PartialEq, Eq, Structural)]
pub struct VkPipelineInputAssemblyStateCreateInfo {
    pub sType: u32,
    pub flags: u32,
    pub topology: u32,
    pub primitiveRestartEnable: u32,
}

/// Rasterization state; `lineWidthBits` holds the IEEE-754 bits of the line width.
#[derive(Debug, Clone, Copy, PartialEq, Eq, Structural)]
pub struct VkPipelineRasterizationStateCreateInfo {
    pub sType: u32,
    pub flags: u32,
    pub depthClampEnable: u32,
    pub rasterizerDiscardEnable: u32,
    pub polygonMode: u32,
    pub cullMode: u32,
    pub frontFace: u32,
    pub depthBiasEnable: u32,
    pub lineWidthBits: u32,
}

#[derive(Debug, Clone, Copy, PartialEq, Eq, Structural)]
pub struct VkPipelineColorBlendAttachmentState {
    pub blendEnable: u32,
    pub srcColorBlendFactor: u32,
    pub dstColorBlendFactor: u32,
    pub colorBlendOp: u32,
    pub srcAlphaBlendFactor: u32,
    pub dstAlphaBlendFactor: u32,
    pub alphaBlendOp: u32,
    pub colorWriteMask: u32,
}

/// Multisample state; `minSampleShadingBits` holds the IEEE-754 bits of the
/// minimum sample shading fraction. No sample mask is used.
#[derive(Debug, Clone, Copy, PartialEq, Eq, Structural)]
pub struct VkPipelineMultisampleStateCreateInfo {
    pub sType: u32,
    pub flags: u32,
    pub rasterizationSamples: u32,
    pub sampleShadingEnable: u32,
    pub minSampleShadingBits: u32,
    pub alphaToCoverageEnable: u32,
    pub alphaToOneEnable: u32,
}

#[derive(Debug, Clone, Copy, PartialEq, Eq, Structural)]
pub struct VkStencilOpState {
    pub failOp: u32,
    pub passOp: u32,
    pub depthFailOp: u32,
    pub compareOp: u32,
    pub compareMask: u32,
    pub writeMask: u32,
    pub reference: u32,
}

/// Depth/stencil state; the depth bounds hold IEEE-754 bits.
#[derive(Debug, Clone, Copy, PartialEq, Eq, Structural)]
pub struct VkPipelineDepthStencilStateCreateInfo {
    pub sType: u32,
    pub flags: u32,
    pub depthTestEnable: u32,
    pub depthWriteEnable: u32,
    pub depthCompareOp: u32,
    pub depthBoundsTestEnable: u32,
    pub stencilTestEnable: u32,
    pub front: VkStencilOpState,
    pub back: VkStencilOpState,
    pub minDepthBoundsBits: u32,
    pub maxDepthBoundsBits: u32,
}

/// Dynamic-rendering formats of a pipeline. When `colorAttachmentCount` is 1
/// the color format is the builder's color attachment format.
#[derive(Debug, Clone, Copy, PartialEq, Eq, Structural)]
pub struct VkPipelineRenderingCreateInfo {
    pub sType: u32,
    pub viewMask: u32,
    pub colorAttachmentCount: u32,
    pub depthAttachmentFormat: u32,
    pub stencilAttachmentFormat: u32,
}

#[derive(Debug, Clone, Copy, PartialEq, Eq, Structural)]
pub struct VkDescriptorSetLayoutBinding {
    pub binding: u32,
    pub descriptorType: u32,
    pub descriptorCount: u32,
    pub stageFlags: u32,
}

#[derive(Debug, Clone, Copy, PartialEq, Eq, Structural)]
pub struct VkDescriptorImageInfo {
    pub sampler: VkSampler,
    pub imageView: VkImageView,
    pub imageLayout: u32,
}

#[derive(Debug, Clone, Copy, PartialEq, Eq, Structural)]
pub struct VkDescriptorBufferInfo {
    pub buffer: VkBuffer,
    pub offset: u64,
    pub range: u64,
}

/// A descriptor write of one descriptor; the image or buffer info it points
/// at is held by value.
#[derive(Debug, Clone, Copy, PartialEq, Eq, Structural)]
pub struct VkWriteDescriptorSet {
    pub sType: u32,
    pub dstSet: VkDescriptorSet,
    pub dstBinding: u32,
    pub dstArrayElement: u32,
    pub descriptorCount: u32,
    pub descriptorType: u32,
    pub imageInfo: Option<VkDescriptorImageInfo>,
    pub bufferInfo: Option<VkDescriptorBufferInfo>,
}

#[derive(Debug, Clone, Copy, PartialEq, Eq, Structural)]
pub struct VkSurfaceFormatKHR {
    pub format: VkFormat,
    pub colorSpace: u32,
}

#[derive(Debug, Clone, Copy, PartialEq, Eq, Structural)]
pub struct VkSurfaceCapabilitiesKHR {
    pub minImageCount: u32,
    pub maxImageCount: u32,
    pub currentExtent: VkExtent2D,
    pub minImageExtent: VkExtent2D,
    pub maxImageExtent: VkExtent2D,
    pub maxImageArrayLayers: u32,
    pub supportedTransforms: u32,
    pub currentTransform: u32,
    pub supportedCompositeAlpha: u32,
    pub supportedUsageFlags: u32,
}

#[derive(Debug, Clone, Copy, PartialEq, Eq, Structural)]
pub struct VkFormatProperties {
    pub linearTilingFeatures: u32,
    pub optimalTilingFeatures: u32,
    pub bufferFeatures: u32,
}

/// Everything a swapchain is created from; `queueFamilyIndices` holds the
/// families that share the images when the sharing mode is concurrent.
#[derive(Debug, Clone, PartialEq, Eq)]
pub struct VkSwapchainCreateInfoKHR {
    pub sType: u32,
    pub surface: VkSurfaceKHR,
    pub minImageCount: u32,
    pub imageFormat: VkFormat,
    pub imageColorSpace: VkColorSpaceKHR,
    pub imageExtent: VkExtent2D,
    pub imageArrayLayers: u32,
    pub imageUsage: VkImageUsageFlags,
    pub imageSharingMode: u32,
    pub queueFamilyIndices: Vec<u32>,
    pub preTransform: u32,
    pub compositeAlpha: u32,
    pub presentMode: VkPresentModeKHR,
    pub clipped: VkBool32,
    pub oldSwapchain: VkSwapchainKHR,
}

} // verus!
