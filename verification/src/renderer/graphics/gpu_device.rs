//! Choosing a GPU, its queues, formats and extensions, and the swapchain
//! configuration, from what the driver reports about the machine.
use vstd::prelude::*;
use crate::renderer::graphics::api::{VK_COLOR_SPACE_MAX_ENUM_KHR, VK_COLOR_SPACE_SRGB_NONLINEAR_KHR, VK_COMPOSITE_ALPHA_OPAQUE_BIT_KHR, VK_EXT_DEBUG_UTILS_EXTENSION_NAME, VK_FORMAT_B8G8R8A8_UNORM, VK_FORMAT_D24_UNORM_S8_UINT, VK_FORMAT_D32_SFLOAT, VK_FORMAT_D32_SFLOAT_S8_UINT, VK_FORMAT_FEATURE_DEPTH_STENCIL_ATTACHMENT_BIT, VK_FORMAT_UNDEFINED, VK_IMAGE_USAGE_COLOR_ATTACHMENT_BIT, VK_IMAGE_USAGE_TRANSFER_DST_BIT, VK_KHR_DYNAMIC_RENDERING_EXTENSION_NAME, VK_KHR_GET_PHYSICAL_DEVICE_PROPERTIES_2_EXTENSION_NAME, VK_KHR_PORTABILITY_SUBSET_EXTENSION_NAME, VK_KHR_SURFACE_EXTENSION_NAME, VK_KHR_SWAPCHAIN_EXTENSION_NAME, VK_KHR_TIMELINE_SEMAPHORE_EXTENSION_NAME, VK_KHR_WAYLAND_SURFACE_EXTENSION_NAME, VK_KHR_XLIB_SURFACE_EXTENSION_NAME, VK_LAYER_KHRONOS_VALIDATION_LAYER_NAME, VK_MEMORY_PROPERTY_DEVICE_LOCAL_BIT, VK_MEMORY_PROPERTY_HOST_VISIBLE_BIT, VK_NULL_HANDLE, VK_PHYSICAL_DEVICE_TYPE_DISCRETE_GPU, VK_PRESENT_MODE_FIFO_KHR, VK_PRESENT_MODE_MAILBOX_KHR, VK_QUEUE_COMPUTE_BIT, VK_QUEUE_GRAPHICS_BIT, VK_SHARING_MODE_CONCURRENT, VK_SHARING_MODE_EXCLUSIVE, VK_STRUCTURE_TYPE_SWAPCHAIN_CREATE_INFO_KHR, VK_TRUE, VkBool32, VkDevice, VkExtent2D, VkFence, VkFormat, VkFormatProperties, VkImage, VkImageView, VkInstance, VkPhysicalDevice, VkPresentModeKHR, VkQueue, VkSemaphore, VkSurfaceCapabilitiesKHR, VkSurfaceFormatKHR, VkSurfaceKHR, VkSwapchainCreateInfoKHR, VkSwapchainKHR, VmaAllocator};
use crate::renderer::graphics::gpu_utils::{QueueType, image_ci_spec, image_view_ci_spec, make_image_ci, make_image_view_ci};
use crate::renderer::graphics::api::{VK_IMAGE_ASPECT_COLOR_BIT, VK_IMAGE_ASPECT_DEPTH_BIT, VkExtent3D, VkImageCreateInfo, VkImageViewCreateInfo, VkImageSubresourceRange};
use crate::renderer::graphics::consts::ENABLE_DEBUG_LAYER;
use crate::renderer::graphics::gpu_swapchain::{Swapchain, SwapchainFnTable};

verus! {

/// Optional features the renderer may ask the device for.
pub struct Features {
    pub prefer_hdr: bool,
}

impl Default for Features {
    fn default() -> (r: Self)
        ensures
            !r.prefer_hdr,
    {
        Features { prefer_hdr: false }
    }
}

pub type QueueFamily = u32;

/// The queue family picked for each kind of work, where the GPU has one.
#[derive(Debug, Clone, Copy, PartialEq, Eq, Structural)]
pub struct GpuQueueFamilies {
    pub graphics: Option<QueueFamily>,
    pub present: Option<QueueFamily>,
    pub compute: Option<QueueFamily>,
    pub transfer: Option<QueueFamily>,
}

impl Default for GpuQueueFamilies {
    fn default() -> (r: Self)
        ensures
            r == (GpuQueueFamilies { graphics: None, present: None, compute: None, transfer: None }),
    {
        GpuQueueFamilies { graphics: None, present: None, compute: None, transfer: None }
    }
}

/// What the driver reports about one queue family: its capability flags and
/// whether it can present to the window's surface.
#[derive(Debug, Clone, Copy, PartialEq, Eq, Structural)]
pub struct QueueFamilyProperties {
    pub queue_flags: u32,
    pub supports_present: bool,
}

/// Whether a queue family can take work of the given kind. No family is ever
/// picked as a dedicated transfer family.
pub open spec fn family_supports(p: QueueFamilyProperties, kind: QueueType) -> bool {
    match kind {
        QueueType::Graphics => p.queue_flags & VK_QUEUE_GRAPHICS_BIT != 0,
        QueueType::Compute => p.queue_flags & VK_QUEUE_COMPUTE_BIT != 0,
        QueueType::Present => p.supports_present,
        QueueType::Transfer => false,
    }
}

/// The index of the last family in `props` that supports `kind`.
pub open spec fn last_family_with(props: Seq<QueueFamilyProperties>, kind: QueueType) -> Option<u32>
    decreases props.len(),
{
    if props.len() == 0 {
        None
    } else if family_supports(props.last(), kind) {
        Some((props.len() - 1) as u32)
    } else {
        last_family_with(props.drop_last(), kind)
    }
}

/// The queue families picked from the driver's list: for each kind of work
/// the last family that supports it.
pub open spec fn queue_families_of(props: Seq<QueueFamilyProperties>) -> GpuQueueFamilies {
    GpuQueueFamilies {
        graphics: last_family_with(props, QueueType::Graphics),
        present: last_family_with(props, QueueType::Present),
        compute: last_family_with(props, QueueType::Compute),
        transfer: None,
    }
}

/// What a surface supports on a GPU: its capabilities, the formats it can
/// present and the present modes it offers.
#[derive(Debug, Clone, PartialEq, Eq)]
pub struct SwapchainSupportInfo {
    pub capabilities: VkSurfaceCapabilitiesKHR,
    pub formats: Vec<VkSurfaceFormatKHR>,
    pub present_modes: Vec<VkPresentModeKHR>,
}

/// A GPU that meets the renderer's requirements, with what was learned of it
/// when the GPUs were enumerated.
pub struct Gpu {
    pub handle: VkPhysicalDevice,
    pub device_type: u32,
    pub sampler_anisotropy: VkBool32,
    pub memory_type_flags: Vec<u32>,
    pub queue_infos: GpuQueueFamilies,
    pub swapchain_support_info: SwapchainSupportInfo,
    pub supports_device_local_host_visible: bool,
}

/// Whether `name` is one of `names`.
pub open spec fn names_contain(names: Seq<String>, name: Seq<char>) -> bool {
    exists|i: int| 0 <= i < names.len() && #[trigger] names[i]@ == name
}

/// Whether `name` is one of `names`.
pub fn contains_name(names: &Vec<String>, name: &str) -> (r: bool)
    ensures
        r == names_contain(names@, name@),
{
    let target = String::from_str(name);
    let mut i: usize = 0;
    while i < names.len()
        invariant
            i <= names.len(),
            target@ == name@,
            forall|j: int| 0 <= j < i ==> #[trigger] names@[j]@ != name@,
        decreases names.len() - i,
    {
        if names[i] == target {
            return true;
        }
        i = i + 1;
    }
    false
}

/// A memory type that is both device local and host visible.
pub open spec fn is_device_local_host_visible(flags: u32) -> bool {
    flags & VK_MEMORY_PROPERTY_HOST_VISIBLE_BIT != 0 && flags & VK_MEMORY_PROPERTY_DEVICE_LOCAL_BIT != 0
}

/// What the renderer needs of a GPU: a present and a graphics queue, a
/// surface with at least one format and one present mode, sampler
/// anisotropy, and the swapchain, timeline semaphore and dynamic rendering
/// extensions.
pub open spec fn meets_requirements(
    queue_families: GpuQueueFamilies,
    swapchain_info: SwapchainSupportInfo,
    sampler_anisotropy: u32,
    device_extensions: Seq<String>,
) -> bool {
    &&& queue_families.present.is_some()
    &&& queue_families.graphics.is_some()
    &&& swapchain_info.formats.len() > 0
    &&& swapchain_info.present_modes.len() > 0
    &&& sampler_anisotropy == VK_TRUE
    &&& names_contain(device_extensions, VK_KHR_SWAPCHAIN_EXTENSION_NAME@)
    &&& names_contain(device_extensions, VK_KHR_TIMELINE_SEMAPHORE_EXTENSION_NAME@)
    &&& names_contain(device_extensions, VK_KHR_DYNAMIC_RENDERING_EXTENSION_NAME@)
}

pub open spec fn sdr_format() -> VkSurfaceFormatKHR {
    VkSurfaceFormatKHR { format: VK_FORMAT_B8G8R8A8_UNORM, colorSpace: VK_COLOR_SPACE_SRGB_NONLINEAR_KHR }
}

pub open spec fn hdr_format() -> VkSurfaceFormatKHR {
    VkSurfaceFormatKHR { format: VK_FORMAT_UNDEFINED, colorSpace: VK_COLOR_SPACE_MAX_ENUM_KHR }
}

/// The surface format picked from those a surface offers: the HDR format
/// where it is preferred and offered, else the SDR format where offered, else
/// the first one offered.
pub open spec fn surface_format_choice(formats: Seq<VkSurfaceFormatKHR>, prefer_hdr: bool) -> VkSurfaceFormatKHR {
    if prefer_hdr && formats.contains(hdr_format()) {
        hdr_format()
    } else if formats.contains(sdr_format()) {
        sdr_format()
    } else {
        formats[0]
    }
}

/// The depth formats tried, best first.
pub open spec fn depth_candidates() -> Seq<VkFormat> {
    seq![VK_FORMAT_D32_SFLOAT, VK_FORMAT_D32_SFLOAT_S8_UINT, VK_FORMAT_D24_UNORM_S8_UINT]
}

/// A format that can be a depth attachment with linear or optimal tiling.
pub open spec fn supports_depth_attachment(p: VkFormatProperties) -> bool {
    p.linearTilingFeatures & VK_FORMAT_FEATURE_DEPTH_STENCIL_ATTACHMENT_BIT != 0
        || p.optimalTilingFeatures & VK_FORMAT_FEATURE_DEPTH_STENCIL_ATTACHMENT_BIT != 0
}

/// The first candidate (from index `i` on) whose properties allow a depth
/// attachment, or the undefined format.
pub open spec fn depth_format_from(props: Seq<VkFormatProperties>, i: nat) -> VkFormat
    decreases 3 - i,
{
    if i >= 3 {
        VK_FORMAT_UNDEFINED
    } else if supports_depth_attachment(props[i as int]) {
        depth_candidates()[i as int]
    } else {
        depth_format_from(props, i + 1)
    }
}

impl Gpu {
    /// Picks a queue family for graphics, compute and present work from the
    /// driver's list of families.
    pub fn get_queue_families(props: &Vec<QueueFamilyProperties>) -> (r: GpuQueueFamilies)
        requires
            props.len() <= u32::MAX,
        ensures
            r == queue_families_of(props@),
    {
        let mut result = GpuQueueFamilies::default();
        let mut i: usize = 0;
        while i < props.len()
            invariant
                i <= props.len(),
                props.len() <= u32::MAX,
                result == queue_families_of(props@.take(i as int)),
            decreases props.len() - i,
        {
            let property = props[i];
            let queue_family_index: u32 = i as u32;
            proof {
                let s = props@.take(i as int + 1);
                assert(s.drop_last() =~= props@.take(i as int));
                assert(s.last() == property);
            }
            if property.queue_flags & VK_QUEUE_GRAPHICS_BIT != 0 {
                result.graphics = Some(queue_family_index);
            }
            if property.queue_flags & VK_QUEUE_COMPUTE_BIT != 0 {
                result.compute = Some(queue_family_index);
            }
            if property.supports_present {
                result.present = Some(queue_family_index);
            }
            i = i + 1;
        }
        assert(props@.take(i as int) =~= props@);
        result
    }

    /// Whether one of the GPU's memory types is both device local and host
    /// visible.
    pub fn has_device_local_host_visible_memory(memory_type_flags: &Vec<u32>) -> (r: bool)
        ensures
            r == exists|i: int|
                0 <= i < memory_type_flags.len() && #[trigger] is_device_local_host_visible(memory_type_flags@[i]),
    {
        let mut i: usize = 0;
        while i < memory_type_flags.len()
            invariant
                i <= memory_type_flags.len(),
                forall|j: int| 0 <= j < i ==> !#[trigger] is_device_local_host_visible(memory_type_flags@[j]),
            decreases memory_type_flags.len() - i,
        {
            let flags = memory_type_flags[i];
            let has_host_visible = flags & VK_MEMORY_PROPERTY_HOST_VISIBLE_BIT != 0;
            let has_device_local = flags & VK_MEMORY_PROPERTY_DEVICE_LOCAL_BIT != 0;
            if has_host_visible && has_device_local {
                assert(is_device_local_host_visible(memory_type_flags@[i as int]));
                return true;
            }
            i = i + 1;
        }
        false
    }

    /// Whether a GPU with these queue families, surface support, anisotropy
    /// feature and device extensions can run the renderer.
    pub fn does_gpu_meet_requirements(
        queue_families: &GpuQueueFamilies,
        swapchain_info: &SwapchainSupportInfo,
        sampler_anisotropy: VkBool32,
        device_extensions: &Vec<String>,
    ) -> (r: bool)
        ensures
            r == meets_requirements(*queue_families, *swapchain_info, sampler_anisotropy, device_extensions@),
    {
        if queue_families.present.is_none() || queue_families.graphics.is_none() {
            return false;
        }
        if swapchain_info.formats.len() == 0 || swapchain_info.present_modes.len() == 0 {
            return false;
        }
        if sampler_anisotropy != VK_TRUE {
            return false;
        }
        let swapchain_extension_found = contains_name(device_extensions, VK_KHR_SWAPCHAIN_EXTENSION_NAME);
        let semaphore_timelines_found = contains_name(device_extensions, VK_KHR_TIMELINE_SEMAPHORE_EXTENSION_NAME);
        let dynamic_rendering_found = contains_name(device_extensions, VK_KHR_DYNAMIC_RENDERING_EXTENSION_NAME);
        swapchain_extension_found && semaphore_timelines_found && dynamic_rendering_found
    }

    /// Whether the GPU asks for the portability subset extension to be
    /// enabled.
    pub fn require_portability_subset(device_extensions: &Vec<String>) -> (r: bool)
        ensures
            r == names_contain(device_extensions@, VK_KHR_PORTABILITY_SUBSET_EXTENSION_NAME@),
    {
        contains_name(device_extensions, VK_KHR_PORTABILITY_SUBSET_EXTENSION_NAME)
    }

    /// Picks the surface format to present with.
    pub fn select_surface_format(&self, prefer_hdr: bool) -> (r: VkSurfaceFormatKHR)
        requires
            self.swapchain_support_info.formats.len() > 0,
        ensures
            r == surface_format_choice(self.swapchain_support_info.formats@, prefer_hdr),
    {
        let sdr = VkSurfaceFormatKHR { format: VK_FORMAT_B8G8R8A8_UNORM, colorSpace: VK_COLOR_SPACE_SRGB_NONLINEAR_KHR };
        let hdr = VkSurfaceFormatKHR { format: VK_FORMAT_UNDEFINED, colorSpace: VK_COLOR_SPACE_MAX_ENUM_KHR };
        let formats = &self.swapchain_support_info.formats;
        if prefer_hdr && Self::has_format(formats, hdr) {
            return hdr;
        }
        if Self::has_format(formats, sdr) {
            return sdr;
        }
        formats[0]
    }

    fn has_format(formats: &Vec<VkSurfaceFormatKHR>, desired: VkSurfaceFormatKHR) -> (r: bool)
        ensures
            r == formats@.contains(desired),
    {
        let mut i: usize = 0;
        while i < formats.len()
            invariant
                i <= formats.len(),
                forall|j: int| 0 <= j < i ==> formats@[j] != desired,
            decreases formats.len() - i,
        {
            let f = formats[i];
            if f.format == desired.format && f.colorSpace == desired.colorSpace {
                assert(formats@[i as int] == desired);
                return true;
            }
            i = i + 1;
        }
        false
    }

    /// The depth formats to query the properties of, best first, in the
    /// order `select_depth_format` expects their properties.
    pub fn depth_format_candidates() -> (r: Vec<VkFormat>)
        ensures
            r@ == depth_candidates(),
    {
        vec![VK_FORMAT_D32_SFLOAT, VK_FORMAT_D32_SFLOAT_S8_UINT, VK_FORMAT_D24_UNORM_S8_UINT]
    }

    /// Picks the best depth format the GPU can attach, given the format
    /// properties of each candidate; the undefined format where none can be.
    pub fn select_depth_format(&self, candidate_properties: &Vec<VkFormatProperties>) -> (r: VkFormat)
        requires
            candidate_properties.len() == 3,
        ensures
            r == depth_format_from(candidate_properties@, 0),
    {
        let candidates = Self::depth_format_candidates();
        let mut i: usize = 0;
        while i < 3
            invariant
                i <= 3,
                candidate_properties.len() == 3,
                candidates@ == depth_candidates(),
                depth_format_from(candidate_properties@, 0) == depth_format_from(candidate_properties@, i as nat),
            decreases 3 - i,
        {
            let props = candidate_properties[i];
            let has_linear_tiling = props.linearTilingFeatures & VK_FORMAT_FEATURE_DEPTH_STENCIL_ATTACHMENT_BIT != 0;
            let has_optimal_tiling = props.optimalTilingFeatures & VK_FORMAT_FEATURE_DEPTH_STENCIL_ATTACHMENT_BIT != 0;
            if has_linear_tiling || has_optimal_tiling {
                return candidates[i];
            }
            i = i + 1;
        }
        VK_FORMAT_UNDEFINED
    }

    /// Builds the GPU from what the driver reported of it, where it meets
    /// the renderer's requirements; `None` where it does not.
    pub fn from_queried(
        handle: VkPhysicalDevice,
        device_type: u32,
        sampler_anisotropy: VkBool32,
        memory_type_flags: Vec<u32>,
        queue_family_properties: &Vec<QueueFamilyProperties>,
        swapchain_support_info: SwapchainSupportInfo,
        device_extensions: &Vec<String>,
    ) -> (r: Option<Gpu>)
        requires
            queue_family_properties.len() <= u32::MAX,
        ensures
            r is Some <==> meets_requirements(
                queue_families_of(queue_family_properties@),
                swapchain_support_info,
                sampler_anisotropy,
                device_extensions@,
            ),
            r matches Some(gpu) ==> {
                &&& gpu.handle == handle
                &&& gpu.device_type == device_type
                &&& gpu.sampler_anisotropy == sampler_anisotropy
                &&& gpu.memory_type_flags@ == memory_type_flags@
                &&& gpu.queue_infos == queue_families_of(queue_family_properties@)
                &&& gpu.swapchain_support_info == swapchain_support_info
                &&& gpu.supports_device_local_host_visible == exists|i: int|
                    0 <= i < memory_type_flags.len() && #[trigger] is_device_local_host_visible(memory_type_flags@[i])
            },
    {
        let supports_device_local_host_visible = Self::has_device_local_host_visible_memory(&memory_type_flags);
        let queue_infos = Self::get_queue_families(queue_family_properties);
        if !Self::does_gpu_meet_requirements(&queue_infos, &swapchain_support_info, sampler_anisotropy, device_extensions) {
            return None;
        }
        Some(Gpu {
            handle,
            device_type,
            sampler_anisotropy,
            memory_type_flags,
            queue_infos,
            swapchain_support_info,
            supports_device_local_host_visible,
        })
    }
}


/// The name the engine introduces itself to the driver with.
pub const ENGINE_NAME: &'static str = "ChibiTech";

/// The surface extension of the window system the session runs, where the
/// renderer supports it.
pub open spec fn platform_surface_extension(session_type: Option<Seq<char>>) -> Option<Seq<char>> {
    match session_type {
        Some(s) => if s == "x11"@ {
            Some(VK_KHR_XLIB_SURFACE_EXTENSION_NAME@)
        } else if s == "wayland"@ {
            Some(VK_KHR_WAYLAND_SURFACE_EXTENSION_NAME@)
        } else {
            None
        },
        None => None,
    }
}

/// The instance extensions the renderer enables when the driver offers them.
pub open spec fn is_wanted_instance_extension(name: Seq<char>, platform: Seq<char>) -> bool {
    ||| name == VK_KHR_SURFACE_EXTENSION_NAME@
    ||| name == VK_KHR_GET_PHYSICAL_DEVICE_PROPERTIES_2_EXTENSION_NAME@
    ||| name == platform
    ||| (ENABLE_DEBUG_LAYER && name == VK_EXT_DEBUG_UTILS_EXTENSION_NAME@)
}

/// The offered extensions that are enabled, in the order they were offered.
pub open spec fn wanted_instance_extensions(available: Seq<String>, platform: Seq<char>) -> Seq<Seq<char>>
    decreases available.len(),
{
    if available.len() == 0 {
        Seq::empty()
    } else {
        let prev = wanted_instance_extensions(available.drop_last(), platform);
        if is_wanted_instance_extension(available.last()@, platform) {
            prev.push(available.last()@)
        } else {
            prev
        }
    }
}

/// What the instance creation answers, given the offered extensions and the
/// session type: the extensions to enable, or why the renderer cannot run.
pub open spec fn instance_extensions_result(available: Seq<String>, session_type: Option<Seq<char>>) -> Result<Seq<Seq<char>>, Seq<char>> {
    match platform_surface_extension(session_type) {
        None => Err("Unsupported window manager"@),
        Some(platform) => if !names_contain(available, VK_KHR_SURFACE_EXTENSION_NAME@) {
            Err("Surface extension for Vulkan not found"@)
        } else if !names_contain(available, VK_KHR_GET_PHYSICAL_DEVICE_PROPERTIES_2_EXTENSION_NAME@) {
            Err("Failed to find instance extension: VK_KHR_GET_PHYSICAL_DEVICE_PROPERTIES_2_EXTENSION_NAME"@)
        } else if !names_contain(available, platform) {
            Err("Platform surface extension for Vulkan not found"@)
        } else {
            Ok(wanted_instance_extensions(available, platform))
        },
    }
}

/// The view of an optional name.
pub open spec fn optional_name_view(name: Option<String>) -> Option<Seq<char>> {
    match name {
        Some(s) => Some(s@),
        None => None,
    }
}

/// The views of a list of names.
pub open spec fn name_views(names: Seq<String>) -> Seq<Seq<char>> {
    names.map_values(|s: String| s@)
}

/// A created Vulkan instance with the layers and extensions it was created
/// with.
pub struct Instance {
    pub handle: VkInstance,
    pub requested_layers: Vec<String>,
    pub requested_extensions: Vec<String>,
    pub software_name: String,
    pub engine_name: String,
}

impl Instance {
    /// The surface extension for the session type the environment names.
    pub fn platform_surface_extension(session_type: &Option<String>) -> (r: Option<&'static str>)
        ensures
            match r {
                Some(s) => platform_surface_extension(optional_name_view(*session_type)) == Some(s@),
                None => platform_surface_extension(optional_name_view(*session_type)) is None,
            },
    {
        match session_type {
            Some(t) => {
                let x11 = String::from_str("x11");
                let wayland = String::from_str("wayland");
                proof {
                    reveal_strlit("x11");
                    reveal_strlit("wayland");
                }
                if *t == x11 {
                    Some(VK_KHR_XLIB_SURFACE_EXTENSION_NAME)
                } else if *t == wayland {
                    Some(VK_KHR_WAYLAND_SURFACE_EXTENSION_NAME)
                } else {
                    None
                }
            },
            None => None,
        }
    }

    /// The instance extensions to enable, chosen from those the driver
    /// offers; an error where the session's window system is not supported
    /// or a required extension is missing.
    pub fn select_extensions(available: &Vec<String>, session_type: &Option<String>) -> (r: Result<Vec<String>, String>)
        ensures
            match (r, instance_extensions_result(available@, optional_name_view(*session_type))) {
                (Ok(v), Ok(w)) => name_views(v@) == w,
                (Err(e), Err(m)) => e@ == m,
                _ => false,
            },
    {
        let platform = match Self::platform_surface_extension(session_type) {
            Some(p) => p,
            None => {
                return Err(String::from_str("Unsupported window manager"));
            },
        };
        let mut surface_ext_found = false;
        let mut device_props2_ext_found = false;
        let mut platform_surface_ext_found = false;
        let ghost platform_view = platform@;
        proof {
            reveal_strlit("VK_KHR_surface");
            reveal_strlit("VK_KHR_get_physical_device_properties2");
            reveal_strlit("VK_KHR_xlib_surface");
            reveal_strlit("VK_KHR_wayland_surface");
            assert(VK_KHR_SURFACE_EXTENSION_NAME@.len() == 14);
            assert(VK_KHR_GET_PHYSICAL_DEVICE_PROPERTIES_2_EXTENSION_NAME@.len() == 38);
            assert(VK_KHR_XLIB_SURFACE_EXTENSION_NAME@.len() == 19);
            assert(VK_KHR_WAYLAND_SURFACE_EXTENSION_NAME@.len() == 22);
        }
        let surface_name = String::from_str(VK_KHR_SURFACE_EXTENSION_NAME);
        let props2_name = String::from_str(VK_KHR_GET_PHYSICAL_DEVICE_PROPERTIES_2_EXTENSION_NAME);
        let platform_name = String::from_str(platform);
        let debug_name = String::from_str(VK_EXT_DEBUG_UTILS_EXTENSION_NAME);
        let mut extensions: Vec<String> = Vec::new();
        let mut i: usize = 0;
        while i < available.len()
            invariant
                i <= available.len(),
                surface_name@ == VK_KHR_SURFACE_EXTENSION_NAME@,
                props2_name@ == VK_KHR_GET_PHYSICAL_DEVICE_PROPERTIES_2_EXTENSION_NAME@,
                platform_name@ == platform_view,
                debug_name@ == VK_EXT_DEBUG_UTILS_EXTENSION_NAME@,
                VK_KHR_SURFACE_EXTENSION_NAME@ != VK_KHR_GET_PHYSICAL_DEVICE_PROPERTIES_2_EXTENSION_NAME@,
                platform_view != VK_KHR_SURFACE_EXTENSION_NAME@,
                platform_view != VK_KHR_GET_PHYSICAL_DEVICE_PROPERTIES_2_EXTENSION_NAME@,
                name_views(extensions@) == wanted_instance_extensions(available@.take(i as int), platform_view),
                surface_ext_found == names_contain(available@.take(i as int), VK_KHR_SURFACE_EXTENSION_NAME@),
                device_props2_ext_found == names_contain(
                    available@.take(i as int),
                    VK_KHR_GET_PHYSICAL_DEVICE_PROPERTIES_2_EXTENSION_NAME@,
                ),
                platform_surface_ext_found == names_contain(available@.take(i as int), platform_view),
            decreases available.len() - i,
        {
            let ghost prefix = available@.take(i as int);
            let ghost next = available@.take(i as int + 1);
            proof {
                assert(next.drop_last() =~= prefix);
                assert(next.last() == available@[i as int]);
                assert forall|n: Seq<char>| names_contain(next, n) <==> (names_contain(prefix, n) || available@[i as int]@ == n) by {
                    if names_contain(next, n) {
                        let j = choose|j: int| 0 <= j < next.len() && #[trigger] next[j]@ == n;
                        if j < i {
                            assert(prefix[j] == next[j]);
                        }
                    }
                    if names_contain(prefix, n) {
                        let j = choose|j: int| 0 <= j < prefix.len() && #[trigger] prefix[j]@ == n;
                        assert(next[j] == prefix[j]);
                    }
                    if available@[i as int]@ == n {
                        assert(next[i as int] == available@[i as int]);
                    }
                }
            }
            let name = &available[i];
            if *name == surface_name {
                extensions.push(name.clone());
                surface_ext_found = true;
            } else if *name == props2_name {
                extensions.push(name.clone());
                device_props2_ext_found = true;
            } else if *name == platform_name {
                extensions.push(name.clone());
                platform_surface_ext_found = true;
            } else if ENABLE_DEBUG_LAYER && *name == debug_name {
                extensions.push(name.clone());
            }
            proof {
                assert(name_views(extensions@) =~= wanted_instance_extensions(next, platform_view));
            }
            i = i + 1;
        }
        assert(available@.take(i as int) =~= available@);
        if !surface_ext_found {
            return Err(String::from_str("Surface extension for Vulkan not found"));
        }
        if !device_props2_ext_found {
            return Err(
                String::from_str(
                    "Failed to find instance extension: VK_KHR_GET_PHYSICAL_DEVICE_PROPERTIES_2_EXTENSION_NAME",
                ),
            );
        }
        if !platform_surface_ext_found {
            return Err(String::from_str("Platform surface extension for Vulkan not found"));
        }
        Ok(extensions)
    }

    /// The validation layer to enable: the Khronos one where debugging is
    /// enabled and the driver offers it, else none.
    pub fn select_layers(available_layers: &Vec<String>) -> (r: Vec<String>)
        ensures
            name_views(r@) == (if ENABLE_DEBUG_LAYER && names_contain(available_layers@, VK_LAYER_KHRONOS_VALIDATION_LAYER_NAME@) {
                seq![VK_LAYER_KHRONOS_VALIDATION_LAYER_NAME@]
            } else {
                Seq::<Seq<char>>::empty()
            }),
    {
        let mut layers: Vec<String> = Vec::new();
        if ENABLE_DEBUG_LAYER && contains_name(available_layers, VK_LAYER_KHRONOS_VALIDATION_LAYER_NAME) {
            layers.push(String::from_str(VK_LAYER_KHRONOS_VALIDATION_LAYER_NAME));
        }
        assert(name_views(layers@) =~= (if ENABLE_DEBUG_LAYER && names_contain(available_layers@, VK_LAYER_KHRONOS_VALIDATION_LAYER_NAME@) {
            seq![VK_LAYER_KHRONOS_VALIDATION_LAYER_NAME@]
        } else {
            Seq::<Seq<char>>::empty()
        }));
        layers
    }
}


/// A window surface the swapchain presents to.
pub struct Surface {
    pub handle: VkSurfaceKHR,
}

/// A display attached to a GPU.
pub struct Display {}

/// A GPU of the discrete kind, by the device type the driver reports.
pub open spec fn is_discrete(gpu: Gpu) -> bool {
    gpu.device_type & VK_PHYSICAL_DEVICE_TYPE_DISCRETE_GPU != 0
}

/// The GPU picked from a non-empty list: the one asked for by index, where
/// that index is in the list; where none is asked for, the first discrete
/// GPU; else the first GPU.
pub open spec fn gpu_choice(gpus: Seq<Gpu>, gpu_index: Option<usize>, r: int) -> bool {
    match gpu_index {
        Some(i) => r == (if i < gpus.len() { i as int } else { 0 }),
        None => {
            ||| (0 <= r < gpus.len() && is_discrete(gpus[r]) && forall|j: int| 0 <= j < r ==> !is_discrete(#[trigger] gpus[j]))
            ||| (r == 0 && forall|j: int| 0 <= j < gpus.len() ==> !is_discrete(#[trigger] gpus[j]))
        },
    }
}

/// The distinct queue families among `queues`, in the order they first
/// occur, skipping those that are absent.
pub open spec fn distinct_families(queues: Seq<Option<u32>>) -> Seq<u32>
    decreases queues.len(),
{
    if queues.len() == 0 {
        Seq::empty()
    } else {
        let prev = distinct_families(queues.drop_last());
        match queues.last() {
            Some(q) => if prev.contains(q) {
                prev
            } else {
                prev.push(q)
            },
            None => prev,
        }
    }
}

/// The queue families of a GPU in the order the device creates one queue of
/// each: present, graphics, compute, transfer.
pub open spec fn queue_order(q: GpuQueueFamilies) -> Seq<Option<u32>> {
    seq![q.present, q.graphics, q.compute, q.transfer]
}

/// The family a queue of the given kind comes from: its own family where the
/// GPU has one, for compute and transfer work the graphics family otherwise.
pub open spec fn queue_family_for(q: GpuQueueFamilies, queue_type: QueueType) -> Option<u32> {
    match queue_type {
        QueueType::Present => q.present,
        QueueType::Graphics => q.graphics,
        QueueType::Compute => if q.compute.is_some() { q.compute } else { q.graphics },
        QueueType::Transfer => if q.transfer.is_some() { q.transfer } else { q.graphics },
    }
}

/// The smallest swapchain side the renderer asks for when the surface leaves
/// the size to the swapchain.
pub const MIN_SWAPCHAIN_SIZE: u32 = 8;

pub open spec fn clamp_u32(x: u32, lo: u32, hi: u32) -> u32 {
    if x < lo {
        lo
    } else if x > hi {
        hi
    } else {
        x
    }
}

pub open spec fn max_u32(a: u32, b: u32) -> u32 {
    if a >= b {
        a
    } else {
        b
    }
}

/// The size of a new swapchain: the surface's current size where it has one,
/// else the last requested size but at least the minimum; then clamped to
/// what the surface allows.
pub open spec fn swapchain_extent(cached_width: u32, cached_height: u32, caps: VkSurfaceCapabilitiesKHR) -> VkExtent2D {
    let requested = if caps.currentExtent.width != u32::MAX && caps.currentExtent.height != u32::MAX {
        caps.currentExtent
    } else {
        VkExtent2D {
            width: max_u32(cached_width, MIN_SWAPCHAIN_SIZE),
            height: max_u32(cached_height, MIN_SWAPCHAIN_SIZE),
        }
    };
    VkExtent2D {
        width: clamp_u32(requested.width, caps.minImageExtent.width, caps.maxImageExtent.width),
        height: clamp_u32(requested.height, caps.minImageExtent.height, caps.maxImageExtent.height),
    }
}

/// When the surface leaves the size to the swapchain (a current side of
/// `u32::MAX`), the width is the last requested width, raised to at least 8
/// and kept within the surface's least and greatest widths, and the height
/// likewise from the last requested height. Otherwise each side is the
/// surface's current side kept within those bounds.
pub proof fn lemma_swapchain_extent_sides(cached_width: u32, cached_height: u32, caps: VkSurfaceCapabilitiesKHR)
    ensures
        ({
            let e = swapchain_extent(cached_width, cached_height, caps);
            let special = caps.currentExtent.width == u32::MAX || caps.currentExtent.height == u32::MAX;
            let w = if !special { caps.currentExtent.width } else if cached_width >= 8 { cached_width } else { 8 };
            let h = if !special { caps.currentExtent.height } else if cached_height >= 8 { cached_height } else { 8 };
            &&& e.width == (if w < caps.minImageExtent.width {
                caps.minImageExtent.width
            } else if w > caps.maxImageExtent.width {
                caps.maxImageExtent.width
            } else {
                w
            })
            &&& e.height == (if h < caps.minImageExtent.height {
                caps.minImageExtent.height
            } else if h > caps.maxImageExtent.height {
                caps.maxImageExtent.height
            } else {
                h
            })
        }),
{
}

/// The swapchain's width never depends on the last requested height, nor
/// its height on the last requested width.
pub proof fn lemma_swapchain_sides_independent(w1: u32, h1: u32, w2: u32, h2: u32, caps: VkSurfaceCapabilitiesKHR)
    ensures
        swapchain_extent(w1, h1, caps).width == swapchain_extent(w1, h2, caps).width,
        swapchain_extent(w1, h1, caps).height == swapchain_extent(w2, h1, caps).height,
{
}

/// One image more than the surface's minimum, but no more than its maximum
/// where it has one.
pub open spec fn swapchain_image_count(caps: VkSurfaceCapabilitiesKHR) -> u32 {
    if caps.maxImageCount > 0 && caps.minImageCount + 1 > caps.maxImageCount {
        caps.maxImageCount
    } else {
        (caps.minImageCount + 1) as u32
    }
}

/// Mailbox presentation where the surface offers it, else FIFO.
pub open spec fn present_mode_choice(modes: Seq<VkPresentModeKHR>) -> VkPresentModeKHR {
    if modes.contains(VK_PRESENT_MODE_MAILBOX_KHR) {
        VK_PRESENT_MODE_MAILBOX_KHR
    } else {
        VK_PRESENT_MODE_FIFO_KHR
    }
}

/// The semaphores and fences of a new swapchain, one of each per image.
pub struct SwapchainSync {
    pub present_semaphores: Vec<VkSemaphore>,
    pub render_semaphores: Vec<VkSemaphore>,
    pub render_fences: Vec<VkFence>,
}

/// The logical device, with the instance, surface and GPUs it was created
/// from and the index of the GPU it runs on.
pub struct Device {
    pub handle: VkDevice,
    pub allocator: VmaAllocator,
    pub instance: Instance,
    pub surface: Surface,
    pub gpus: Vec<Gpu>,
    pub gpu_index: usize,
}

impl Device {
    /// The device runs on one of its GPUs.
    pub open spec fn wf(&self) -> bool {
        self.gpu_index < self.gpus.len()
    }

    /// The GPU the device runs on.
    pub open spec fn gpu(&self) -> Gpu {
        self.gpus@[self.gpu_index as int]
    }

    /// If `gpu_index` is `None`, the first discrete GPU is chosen.
    pub fn select_gpu(gpu_list: &Vec<Gpu>, gpu_index: Option<usize>) -> (r: usize)
        requires
            gpu_list.len() > 0,
        ensures
            r < gpu_list.len(),
            gpu_choice(gpu_list@, gpu_index, r as int),
    {
        match gpu_index {
            Some(index) => {
                if index < gpu_list.len() {
                    return index;
                }
            },
            None => {
                let mut i: usize = 0;
                while i < gpu_list.len()
                    invariant
                        i <= gpu_list.len(),
                        gpu_index is None,
                        forall|j: int| 0 <= j < i ==> !is_discrete(#[trigger] gpu_list@[j]),
                    decreases gpu_list.len() - i,
                {
                    if gpu_list[i].device_type & VK_PHYSICAL_DEVICE_TYPE_DISCRETE_GPU != 0 {
                        assert(is_discrete(gpu_list@[i as int]));
                        return i;
                    }
                    i = i + 1;
                }
            },
        }
        0
    }

    /// The queue families to create one queue of each from: those of the
    /// present, graphics, compute and transfer queues, without repeats.
    pub fn unique_queue_families(queues: &GpuQueueFamilies) -> (r: Vec<u32>)
        ensures
            r@ == distinct_families(queue_order(*queues)),
    {
        let all_queues: [Option<u32>; 4] = [queues.present, queues.graphics, queues.compute, queues.transfer];
        let ghost order = queue_order(*queues);
        assert(all_queues@ =~= order);
        let mut unique_queues: Vec<u32> = Vec::new();
        let mut k: usize = 0;
        while k < 4
            invariant
                k <= 4,
                all_queues@ == order,
                order.len() == 4,
                unique_queues@ == distinct_families(order.take(k as int)),
            decreases 4 - k,
        {
            proof {
                assert(order.take(k as int + 1).drop_last() =~= order.take(k as int));
            }
            if let Some(queue) = all_queues[k] {
                let found = Self::contains_value(&unique_queues, queue);
                if !found {
                    unique_queues.push(queue);
                }
            }
            k = k + 1;
        }
        assert(order.take(4) =~= order);
        unique_queues
    }

    fn contains_value(families: &Vec<u32>, family: u32) -> (r: bool)
        ensures
            r == families@.contains(family),
    {
        let mut i: usize = 0;
        while i < families.len()
            invariant
                i <= families.len(),
                forall|j: int| 0 <= j < i ==> families@[j] != family,
            decreases families.len() - i,
        {
            if families[i] == family {
                assert(families@[i as int] == family);
                return true;
            }
            i = i + 1;
        }
        false
    }

    /// The device extensions the renderer enables: swapchain and timeline
    /// semaphores, and the portability subset where the GPU requires it.
    pub fn device_extensions(require_portability: bool) -> (r: Vec<String>)
        ensures
            name_views(r@) == (if require_portability {
                seq![
                    VK_KHR_SWAPCHAIN_EXTENSION_NAME@,
                    VK_KHR_TIMELINE_SEMAPHORE_EXTENSION_NAME@,
                    VK_KHR_PORTABILITY_SUBSET_EXTENSION_NAME@,
                ]
            } else {
                seq![VK_KHR_SWAPCHAIN_EXTENSION_NAME@, VK_KHR_TIMELINE_SEMAPHORE_EXTENSION_NAME@]
            }),
    {
        let mut extension_list: Vec<String> = Vec::new();
        extension_list.push(String::from_str(VK_KHR_SWAPCHAIN_EXTENSION_NAME));
        extension_list.push(String::from_str(VK_KHR_TIMELINE_SEMAPHORE_EXTENSION_NAME));
        if require_portability {
            extension_list.push(String::from_str(VK_KHR_PORTABILITY_SUBSET_EXTENSION_NAME));
        }
        assert(name_views(extension_list@) =~= (if require_portability {
            seq![
                VK_KHR_SWAPCHAIN_EXTENSION_NAME@,
                VK_KHR_TIMELINE_SEMAPHORE_EXTENSION_NAME@,
                VK_KHR_PORTABILITY_SUBSET_EXTENSION_NAME@,
            ]
        } else {
            seq![VK_KHR_SWAPCHAIN_EXTENSION_NAME@, VK_KHR_TIMELINE_SEMAPHORE_EXTENSION_NAME@]
        }));
        extension_list
    }

    /// The queue family a queue of the given kind is taken from.
    pub fn get_queue_index(&self, queue_type: QueueType) -> (r: u32)
        requires
            self.wf(),
            queue_family_for(self.gpu().queue_infos, queue_type).is_some(),
        ensures
            Some(r) == queue_family_for(self.gpu().queue_infos, queue_type),
    {
        let queues = &self.gpus[self.gpu_index].queue_infos;
        match queue_type {
            QueueType::Present => queues.present.unwrap(),
            QueueType::Graphics => queues.graphics.unwrap(),
            QueueType::Compute => match queues.compute {
                Some(index) => index,
                None => queues.graphics.unwrap(),
            },
            QueueType::Transfer => match queues.transfer {
                Some(index) => index,
                None => queues.graphics.unwrap(),
            },
        }
    }

    /// How the device's swapchain is (re)created: its size from the surface's
    /// current capabilities and the old swapchain's last size, its image
    /// count, format, present mode, and how its images are shared between the
    /// present and graphics queues.
    pub fn swapchain_create_info(&self, old_swapchain: Option<&Swapchain>, caps: &SwapchainSupportInfo) -> (r: VkSwapchainCreateInfoKHR)
        requires
            self.wf(),
            self.gpu().swapchain_support_info.formats.len() > 0,
            self.gpu().queue_infos.present.is_some(),
            self.gpu().queue_infos.graphics.is_some(),
            caps.capabilities.minImageCount < u32::MAX,
            caps.capabilities.minImageExtent.width <= caps.capabilities.maxImageExtent.width,
            caps.capabilities.minImageExtent.height <= caps.capabilities.maxImageExtent.height,
        ensures
            ({
                let (cached_width, cached_height, old_handle) = match old_swapchain {
                    Some(old) => (old.cached_width, old.cached_height, old.handle),
                    None => (0u32, 0u32, VK_NULL_HANDLE),
                };
                let format = surface_format_choice(self.gpu().swapchain_support_info.formats@, false);
                let present = self.gpu().queue_infos.present.unwrap();
                let graphics = self.gpu().queue_infos.graphics.unwrap();
                &&& r.sType == VK_STRUCTURE_TYPE_SWAPCHAIN_CREATE_INFO_KHR
                &&& r.surface == self.surface.handle
                &&& r.minImageCount == swapchain_image_count(caps.capabilities)
                &&& r.imageFormat == format.format
                &&& r.imageColorSpace == format.colorSpace
                &&& r.imageExtent == swapchain_extent(cached_width, cached_height, caps.capabilities)
                &&& r.imageArrayLayers == 1
                &&& r.imageUsage == VK_IMAGE_USAGE_COLOR_ATTACHMENT_BIT | VK_IMAGE_USAGE_TRANSFER_DST_BIT
                &&& r.imageSharingMode == (if present != graphics { VK_SHARING_MODE_CONCURRENT } else { VK_SHARING_MODE_EXCLUSIVE })
                &&& r.queueFamilyIndices@ == (if present != graphics { seq![present, graphics] } else { Seq::<u32>::empty() })
                &&& r.preTransform == caps.capabilities.currentTransform
                &&& r.compositeAlpha == VK_COMPOSITE_ALPHA_OPAQUE_BIT_KHR
                &&& r.presentMode == present_mode_choice(caps.present_modes@)
                &&& r.clipped == VK_TRUE
                &&& r.oldSwapchain == old_handle
            }),
            r.minImageCount > 0,
    {
        let gpu = &self.gpus[self.gpu_index];
        let mut cached_width: u32 = 0;
        let mut cached_height: u32 = 0;
        let mut old_handle: VkSwapchainKHR = VK_NULL_HANDLE;
        if let Some(old) = old_swapchain {
            cached_width = old.cached_width;
            cached_height = old.cached_height;
            old_handle = old.handle;
        }
        if cached_width < MIN_SWAPCHAIN_SIZE {
            cached_width = MIN_SWAPCHAIN_SIZE;
        }
        if cached_height < MIN_SWAPCHAIN_SIZE {
            cached_height = MIN_SWAPCHAIN_SIZE;
        }
        let features = Features::default();
        let surface_format = gpu.select_surface_format(features.prefer_hdr);

        let present_mode: VkPresentModeKHR = if Self::contains_value(&caps.present_modes, VK_PRESENT_MODE_MAILBOX_KHR) {
            VK_PRESENT_MODE_MAILBOX_KHR
        } else {
            VK_PRESENT_MODE_FIFO_KHR
        };

        let capabilities = &caps.capabilities;
        let mut swapchain_extent = VkExtent2D { width: cached_width, height: cached_height };
        if capabilities.currentExtent.width != u32::MAX && capabilities.currentExtent.height != u32::MAX {
            swapchain_extent = capabilities.currentExtent;
        }
        let image_min = capabilities.minImageExtent;
        let image_max = capabilities.maxImageExtent;
        if swapchain_extent.width < image_min.width {
            swapchain_extent.width = image_min.width;
        } else if swapchain_extent.width > image_max.width {
            swapchain_extent.width = image_max.width;
        }
        if swapchain_extent.height < image_min.height {
            swapchain_extent.height = image_min.height;
        } else if swapchain_extent.height > image_max.height {
            swapchain_extent.height = image_max.height;
        }

        let mut image_count = capabilities.minImageCount + 1;
        if capabilities.maxImageCount > 0 && image_count > capabilities.maxImageCount {
            image_count = capabilities.maxImageCount;
        }

        let present_queue_index = gpu.queue_infos.present.unwrap();
        let graphics_queue_index = gpu.queue_infos.graphics.unwrap();
        let mut queue_family_indices: Vec<u32> = Vec::new();
        let sharing_mode = if present_queue_index != graphics_queue_index {
            queue_family_indices.push(present_queue_index);
            queue_family_indices.push(graphics_queue_index);
            VK_SHARING_MODE_CONCURRENT
        } else {
            VK_SHARING_MODE_EXCLUSIVE
        };
        assert(queue_family_indices@ =~= (if present_queue_index != graphics_queue_index {
            seq![present_queue_index, graphics_queue_index]
        } else {
            Seq::<u32>::empty()
        }));

        VkSwapchainCreateInfoKHR {
            sType: VK_STRUCTURE_TYPE_SWAPCHAIN_CREATE_INFO_KHR,
            surface: self.surface.handle,
            minImageCount: image_count,
            imageFormat: surface_format.format,
            imageColorSpace: surface_format.colorSpace,
            imageExtent: swapchain_extent,
            imageArrayLayers: 1,
            imageUsage: VK_IMAGE_USAGE_COLOR_ATTACHMENT_BIT | VK_IMAGE_USAGE_TRANSFER_DST_BIT,
            imageSharingMode: sharing_mode,
            queueFamilyIndices: queue_family_indices,
            preTransform: capabilities.currentTransform,
            compositeAlpha: VK_COMPOSITE_ALPHA_OPAQUE_BIT_KHR,
            presentMode: present_mode,
            clipped: VK_TRUE,
            oldSwapchain: old_handle,
        }
    }

    /// The swapchain made from a created swapchain handle, its images and
    /// views: an old swapchain hands on its semaphores, fences and generation
    /// counters; a first swapchain takes the fresh ones and starts at
    /// generation zero. It starts at its first frame and image.
    pub fn assemble_swapchain(
        old_swapchain: Option<&Swapchain>,
        handle: VkSwapchainKHR,
        present_queue: VkQueue,
        extent: VkExtent2D,
        images: Vec<VkImage>,
        image_views: Vec<VkImageView>,
        fresh_sync: Option<SwapchainSync>,
    ) -> (r: Swapchain)
        requires
            old_swapchain is None <==> fresh_sync is Some,
        ensures
            r.handle == handle,
            r.present_queue == present_queue,
            r.images@ == images@,
            r.image_views@ == image_views@,
            r.frame_index == 0,
            r.swapchain_index == 0,
            r.cached_width == extent.width,
            r.cached_height == extent.height,
            match old_swapchain {
                Some(old) => {
                    &&& r.present_semaphores@ == old.present_semaphores@
                    &&& r.render_semaphores@ == old.render_semaphores@
                    &&& r.render_fences@ == old.render_fences@
                    &&& r.known_generation == old.known_generation
                    &&& r.current_generation == old.current_generation
                },
                None => {
                    let sync = fresh_sync.unwrap();
                    &&& r.present_semaphores@ == sync.present_semaphores@
                    &&& r.render_semaphores@ == sync.render_semaphores@
                    &&& r.render_fences@ == sync.render_fences@
                    &&& r.known_generation == 0
                    &&& r.current_generation == 0
                },
            },
    {
        let (present_semaphores, render_semaphores, render_fences, known_generation, current_generation) =
            match old_swapchain {
            Some(old) => (
                Self::copy_handles(&old.present_semaphores),
                Self::copy_handles(&old.render_semaphores),
                Self::copy_handles(&old.render_fences),
                old.known_generation,
                old.current_generation,
            ),
            None => {
                let sync = fresh_sync.unwrap();
                (sync.present_semaphores, sync.render_semaphores, sync.render_fences, 0, 0)
            },
        };
        Swapchain {
            fns: SwapchainFnTable {},
            handle,
            present_queue,
            image_views,
            images,
            present_semaphores,
            render_semaphores,
            render_fences,
            frame_index: 0,
            swapchain_index: 0,
            cached_width: extent.width,
            cached_height: extent.height,
            known_generation,
            current_generation,
        }
    }

    fn copy_handles(handles: &Vec<u64>) -> (r: Vec<u64>)
        ensures
            r@ == handles@,
    {
        let mut out: Vec<u64> = Vec::new();
        let mut i: usize = 0;
        while i < handles.len()
            invariant
                i <= handles.len(),
                out@ == handles@.take(i as int),
            decreases handles.len() - i,
        {
            out.push(handles[i]);
            assert(out@ =~= handles@.take(i as int + 1));
            i = i + 1;
        }
        assert(handles@.take(i as int) =~= handles@);
        out
    }

    /// The best depth format the device's GPU can attach, given the
    /// properties of each candidate format.
    pub fn get_depth_format(&self, candidate_properties: &Vec<VkFormatProperties>) -> (r: VkFormat)
        requires
            self.wf(),
            candidate_properties.len() == 3,
        ensures
            r == depth_format_from(candidate_properties@, 0),
    {
        self.gpus[self.gpu_index].select_depth_format(candidate_properties)
    }
}

/// The aspect of an image's default view: depth for the 32-bit float depth
/// format, color for every other format.
pub open spec fn image_aspect(format: VkFormat) -> u32 {
    if format == VK_FORMAT_D32_SFLOAT { VK_IMAGE_ASPECT_DEPTH_BIT } else { VK_IMAGE_ASPECT_COLOR_BIT }
}

impl Device {
    /// How an image of this size, format and usage is created: a 2D,
    /// single-sampled, optimally tiled image with one layer and the given
    /// number of mip levels. The caller gives one level, or for a mipmapped
    /// image the count the renderer computes in single precision as
    /// `floor(log2(max(width, height))) + 1`.
    pub fn image_allocation_info(extent: VkExtent3D, format: VkFormat, image_usage: u32, mip_levels: u32) -> (r: VkImageCreateInfo)
        ensures
            r == (VkImageCreateInfo { mipLevels: mip_levels, ..image_ci_spec(format, image_usage, extent) }),
    {
        let mut image_ci = make_image_ci(format, image_usage, extent);
        image_ci.mipLevels = mip_levels;
        image_ci
    }

    /// The default view of an allocated image: all its mip levels, of the
    /// aspect its format calls for.
    pub fn image_view_info(format: VkFormat, image: VkImage, mip_levels: u32) -> (r: VkImageViewCreateInfo)
        ensures
            r == (VkImageViewCreateInfo {
                subresourceRange: VkImageSubresourceRange { levelCount: mip_levels, ..image_view_ci_spec(format, image, image_aspect(format)).subresourceRange },
                ..image_view_ci_spec(format, image, image_aspect(format))
            }),
    {
        let aspect_flag = if format == VK_FORMAT_D32_SFLOAT { VK_IMAGE_ASPECT_DEPTH_BIT } else { VK_IMAGE_ASPECT_COLOR_BIT };
        let mut view_ci = make_image_view_ci(format, image, aspect_flag);
        view_ci.subresourceRange.levelCount = mip_levels;
        view_ci
    }
}

} // verus!
