use chibi_engine::renderer::graphics::api::{
    VkExtent2D, VkFormatProperties, VkSurfaceCapabilitiesKHR, VkSurfaceFormatKHR, VK_COLOR_SPACE_MAX_ENUM_KHR,
    VK_COLOR_SPACE_SRGB_NONLINEAR_KHR, VK_FORMAT_B8G8R8A8_UNORM, VK_FORMAT_D24_UNORM_S8_UINT, VK_FORMAT_D32_SFLOAT,
    VK_FORMAT_R8G8B8A8_UNORM, VK_FORMAT_UNDEFINED, VK_PRESENT_MODE_FIFO_KHR, VK_PRESENT_MODE_MAILBOX_KHR,
    VK_SHARING_MODE_CONCURRENT, VK_SHARING_MODE_EXCLUSIVE,
};
use chibi_engine::renderer::graphics::gpu_device::{
    contains_name, Device, Features, Gpu, GpuQueueFamilies, Instance, QueueFamilyProperties, Surface,
    SwapchainSupportInfo,
};
use chibi_engine::renderer::graphics::gpu_utils::QueueType;

fn names(list: &[&str]) -> Vec<String> {
    list.iter().map(|s| s.to_string()).collect()
}

fn caps(min: u32, max: u32, current: (u32, u32)) -> VkSurfaceCapabilitiesKHR {
    VkSurfaceCapabilitiesKHR {
        minImageCount: min,
        maxImageCount: max,
        currentExtent: VkExtent2D { width: current.0, height: current.1 },
        minImageExtent: VkExtent2D { width: 1, height: 1 },
        maxImageExtent: VkExtent2D { width: 4096, height: 4096 },
        maxImageArrayLayers: 1,
        supportedTransforms: 1,
        currentTransform: 1,
        supportedCompositeAlpha: 1,
        supportedUsageFlags: 0x1f,
    }
}

fn sdr() -> VkSurfaceFormatKHR {
    VkSurfaceFormatKHR { format: VK_FORMAT_B8G8R8A8_UNORM, colorSpace: VK_COLOR_SPACE_SRGB_NONLINEAR_KHR }
}

fn support(formats: Vec<VkSurfaceFormatKHR>, modes: Vec<u32>) -> SwapchainSupportInfo {
    SwapchainSupportInfo { capabilities: caps(2, 3, (800, 600)), formats, present_modes: modes }
}

fn required_extensions() -> Vec<String> {
    names(&["VK_KHR_swapchain", "VK_KHR_timeline_semaphore", "VK_KHR_dynamic_rendering"])
}

fn gpu(device_type: u32, queues: GpuQueueFamilies, formats: Vec<VkSurfaceFormatKHR>) -> Gpu {
    Gpu {
        handle: 1,
        device_type,
        sampler_anisotropy: 1,
        memory_type_flags: vec![],
        queue_infos: queues,
        swapchain_support_info: support(formats, vec![VK_PRESENT_MODE_FIFO_KHR]),
        supports_device_local_host_visible: false,
    }
}

fn queues(graphics: u32, present: u32) -> GpuQueueFamilies {
    GpuQueueFamilies { graphics: Some(graphics), present: Some(present), compute: None, transfer: None }
}

fn device(gpus: Vec<Gpu>) -> Device {
    Device {
        handle: 1,
        allocator: 2,
        instance: Instance {
            handle: 3,
            requested_layers: vec![],
            requested_extensions: vec![],
            software_name: "app".to_string(),
            engine_name: "ChibiTech".to_string(),
        },
        surface: Surface { handle: 77 },
        gpus,
        gpu_index: 0,
    }
}

#[test]
fn queue_families_take_last_matching_family() {
    let props = vec![
        QueueFamilyProperties { queue_flags: 0x3, supports_present: true },
        QueueFamilyProperties { queue_flags: 0x2, supports_present: false },
        QueueFamilyProperties { queue_flags: 0x4, supports_present: true },
    ];
    let q = Gpu::get_queue_families(&props);
    assert_eq!(q, GpuQueueFamilies { graphics: Some(0), present: Some(2), compute: Some(1), transfer: None });
    assert_eq!(Gpu::get_queue_families(&vec![]), GpuQueueFamilies::default());
}

#[test]
fn memory_type_must_be_both_local_and_visible() {
    assert!(!Gpu::has_device_local_host_visible_memory(&vec![0x1, 0x2, 0x4]));
    assert!(Gpu::has_device_local_host_visible_memory(&vec![0x1, 0x7]));
    assert!(!Gpu::has_device_local_host_visible_memory(&vec![]));
}

#[test]
fn gpu_requirements() {
    let good = queues(0, 0);
    let info = support(vec![sdr()], vec![VK_PRESENT_MODE_FIFO_KHR]);
    assert!(Gpu::does_gpu_meet_requirements(&good, &info, 1, &required_extensions()));
    assert!(!Gpu::does_gpu_meet_requirements(&good, &info, 0, &required_extensions()));
    let no_present = GpuQueueFamilies { present: None, ..good };
    assert!(!Gpu::does_gpu_meet_requirements(&no_present, &info, 1, &required_extensions()));
    let no_formats = support(vec![], vec![VK_PRESENT_MODE_FIFO_KHR]);
    assert!(!Gpu::does_gpu_meet_requirements(&good, &no_formats, 1, &required_extensions()));
    let missing = names(&["VK_KHR_swapchain", "VK_KHR_timeline_semaphore"]);
    assert!(!Gpu::does_gpu_meet_requirements(&good, &info, 1, &missing));
}

#[test]
fn gpu_from_queried_keeps_what_was_reported() {
    let props = vec![QueueFamilyProperties { queue_flags: 0x1, supports_present: true }];
    let info = support(vec![sdr()], vec![VK_PRESENT_MODE_FIFO_KHR]);
    let g = Gpu::from_queried(5, 2, 1, vec![0x3], &props, info.clone(), &required_extensions()).unwrap();
    assert_eq!(g.handle, 5);
    assert_eq!(g.queue_infos, queues(0, 0));
    assert!(g.supports_device_local_host_visible);
    assert!(Gpu::from_queried(5, 2, 0, vec![0x3], &props, info, &required_extensions()).is_none());
}

#[test]
fn portability_subset_and_contains_name() {
    assert!(Gpu::require_portability_subset(&names(&["a", "VK_KHR_portability_subset"])));
    assert!(!Gpu::require_portability_subset(&names(&["a"])));
    assert!(contains_name(&names(&["x", "y"]), "y"));
    assert!(!contains_name(&names(&["x", "y"]), "z"));
}

#[test]
fn surface_format_prefers_hdr_then_sdr_then_first() {
    let hdr = VkSurfaceFormatKHR { format: VK_FORMAT_UNDEFINED, colorSpace: VK_COLOR_SPACE_MAX_ENUM_KHR };
    let other = VkSurfaceFormatKHR { format: VK_FORMAT_R8G8B8A8_UNORM, colorSpace: VK_COLOR_SPACE_SRGB_NONLINEAR_KHR };
    let g = gpu(0, queues(0, 0), vec![other, sdr(), hdr]);
    assert_eq!(g.select_surface_format(true), hdr);
    assert_eq!(g.select_surface_format(false), sdr());
    let g = gpu(0, queues(0, 0), vec![other]);
    assert_eq!(g.select_surface_format(true), other);
    assert!(!Features::default().prefer_hdr);
}

#[test]
fn depth_format_first_supported_candidate() {
    let none = VkFormatProperties { linearTilingFeatures: 0, optimalTilingFeatures: 0, bufferFeatures: 0 };
    let optimal = VkFormatProperties { linearTilingFeatures: 0, optimalTilingFeatures: 0x200, bufferFeatures: 0 };
    let g = gpu(0, queues(0, 0), vec![sdr()]);
    assert_eq!(Gpu::depth_format_candidates(), vec![VK_FORMAT_D32_SFLOAT, 130, VK_FORMAT_D24_UNORM_S8_UINT]);
    assert_eq!(g.select_depth_format(&vec![optimal, none, none]), VK_FORMAT_D32_SFLOAT);
    assert_eq!(g.select_depth_format(&vec![none, none, optimal]), VK_FORMAT_D24_UNORM_S8_UINT);
    assert_eq!(g.select_depth_format(&vec![none, none, none]), VK_FORMAT_UNDEFINED);
    let d = device(vec![g]);
    assert_eq!(d.get_depth_format(&vec![none, optimal, none]), 130);
}

#[test]
fn instance_extensions_for_x11() {
    let available = names(&[
        "VK_EXT_debug_utils",
        "VK_KHR_surface",
        "VK_KHR_other",
        "VK_KHR_xlib_surface",
        "VK_KHR_get_physical_device_properties2",
    ]);
    let chosen = Instance::select_extensions(&available, &Some("x11".to_string())).unwrap();
    assert_eq!(
        chosen,
        names(&["VK_EXT_debug_utils", "VK_KHR_surface", "VK_KHR_xlib_surface", "VK_KHR_get_physical_device_properties2"])
    );
}

#[test]
fn instance_extension_errors() {
    let full = names(&["VK_KHR_surface", "VK_KHR_get_physical_device_properties2", "VK_KHR_wayland_surface"]);
    assert!(Instance::select_extensions(&full, &Some("wayland".to_string())).is_ok());
    assert_eq!(
        Instance::select_extensions(&full, &Some("tty".to_string())),
        Err("Unsupported window manager".to_string())
    );
    assert_eq!(Instance::select_extensions(&full, &None), Err("Unsupported window manager".to_string()));
    let no_surface = names(&["VK_KHR_get_physical_device_properties2", "VK_KHR_wayland_surface"]);
    assert_eq!(
        Instance::select_extensions(&no_surface, &Some("wayland".to_string())),
        Err("Surface extension for Vulkan not found".to_string())
    );
    let no_props2 = names(&["VK_KHR_surface", "VK_KHR_wayland_surface"]);
    assert_eq!(
        Instance::select_extensions(&no_props2, &Some("wayland".to_string())),
        Err("Failed to find instance extension: VK_KHR_GET_PHYSICAL_DEVICE_PROPERTIES_2_EXTENSION_NAME".to_string())
    );
    assert_eq!(
        Instance::select_extensions(&full, &Some("x11".to_string())),
        Err("Platform surface extension for Vulkan not found".to_string())
    );
}

#[test]
fn platform_extension_and_layers() {
    assert_eq!(Instance::platform_surface_extension(&Some("x11".to_string())), Some("VK_KHR_xlib_surface"));
    assert_eq!(Instance::platform_surface_extension(&Some("wayland".to_string())), Some("VK_KHR_wayland_surface"));
    assert_eq!(Instance::platform_surface_extension(&None), None);
    assert_eq!(
        Instance::select_layers(&names(&["VK_LAYER_other", "VK_LAYER_KHRONOS_validation"])),
        names(&["VK_LAYER_KHRONOS_validation"])
    );
    assert_eq!(Instance::select_layers(&names(&["VK_LAYER_other"])), Vec::<String>::new());
}

#[test]
fn gpu_selection() {
    let integrated = gpu(1, queues(0, 0), vec![sdr()]);
    let discrete = gpu(2, queues(0, 0), vec![sdr()]);
    let list = vec![integrated, discrete];
    assert_eq!(Device::select_gpu(&list, None), 1);
    assert_eq!(Device::select_gpu(&list, Some(0)), 0);
    assert_eq!(Device::select_gpu(&list, Some(5)), 0);
    let only_integrated = vec![gpu(1, queues(0, 0), vec![sdr()])];
    assert_eq!(Device::select_gpu(&only_integrated, None), 0);
}

#[test]
fn queue_families_and_device_extensions() {
    let q = GpuQueueFamilies { graphics: Some(1), present: Some(0), compute: Some(1), transfer: None };
    assert_eq!(Device::unique_queue_families(&q), vec![0, 1]);
    assert_eq!(Device::unique_queue_families(&queues(2, 2)), vec![2]);
    assert_eq!(Device::device_extensions(false), names(&["VK_KHR_swapchain", "VK_KHR_timeline_semaphore"]));
    assert_eq!(
        Device::device_extensions(true),
        names(&["VK_KHR_swapchain", "VK_KHR_timeline_semaphore", "VK_KHR_portability_subset"])
    );
    let d = device(vec![gpu(2, q, vec![sdr()])]);
    assert_eq!(d.get_queue_index(QueueType::Present), 0);
    assert_eq!(d.get_queue_index(QueueType::Graphics), 1);
    assert_eq!(d.get_queue_index(QueueType::Compute), 1);
    assert_eq!(d.get_queue_index(QueueType::Transfer), 1);
}

#[test]
fn swapchain_create_info_from_surface() {
    let d = device(vec![gpu(2, queues(1, 0), vec![sdr()])]);
    let info = SwapchainSupportInfo {
        capabilities: caps(2, 0, (800, 600)),
        formats: vec![sdr()],
        present_modes: vec![VK_PRESENT_MODE_FIFO_KHR, VK_PRESENT_MODE_MAILBOX_KHR],
    };
    let ci = d.swapchain_create_info(None, &info);
    assert_eq!(ci.imageExtent, VkExtent2D { width: 800, height: 600 });
    assert_eq!(ci.minImageCount, 3);
    assert_eq!(ci.presentMode, VK_PRESENT_MODE_MAILBOX_KHR);
    assert_eq!(ci.imageSharingMode, VK_SHARING_MODE_CONCURRENT);
    assert_eq!(ci.queueFamilyIndices, vec![0, 1]);
    assert_eq!(ci.surface, 77);
    assert_eq!(ci.oldSwapchain, 0);
    assert_eq!(ci.imageFormat, VK_FORMAT_B8G8R8A8_UNORM);

    let d = device(vec![gpu(2, queues(0, 0), vec![sdr()])]);
    let undecided = SwapchainSupportInfo {
        capabilities: caps(3, 3, (u32::MAX, u32::MAX)),
        formats: vec![sdr()],
        present_modes: vec![VK_PRESENT_MODE_FIFO_KHR],
    };
    let ci = d.swapchain_create_info(None, &undecided);
    assert_eq!(ci.imageExtent, VkExtent2D { width: 8, height: 8 });
    assert_eq!(ci.minImageCount, 3);
    assert_eq!(ci.presentMode, VK_PRESENT_MODE_FIFO_KHR);
    assert_eq!(ci.imageSharingMode, VK_SHARING_MODE_EXCLUSIVE);
    assert!(ci.queueFamilyIndices.is_empty());
}
