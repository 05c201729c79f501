use chibi_engine::make_app_version;
use chibi_engine::renderer::checkerboard_pixels;
use chibi_engine::renderer::graphics::api::{VkExtent3D, VK_IMAGE_LAYOUT_PRESENT_SRC_KHR};
use chibi_engine::renderer::graphics::gpu_command_buffer::{CommandBuffer, CommandBufferState, GpuCommand};
use chibi_engine::renderer::graphics::{AllocatedBuffer, AllocatedImage};
use chibi_engine::renderer::material::MaterialInstanceId;
use chibi_engine::renderer::mesh::{GpuDrawPushConstants, GpuMeshDraw};
use chibi_engine::renderer::system::{
    frame_submit_info, next_frame_index, push_constant_bytes, record_mesh_upload, render, FrameResources,
};
use chibi_engine::renderer::thread::{
    is_shutdown, response_for, FrameSync, RenderThreadCommandKind, RenderThreadResponse, ThreadFence,
};
use chibi_engine::util::ffi::{get_nul_terminated_string, get_nul_terminated_string_always};
use chibi_engine::window::glfw::{
    glfw_to_mouse_button, glfw_to_window_key, glfw_to_window_key_action, platform_for_session, SupportedPlatform,
    Window,
};
use chibi_engine::window::{
    event_type_index, is_key_mod_flag_set, mouse_button_number, KeyMod, KeyState, KeyboardKey, MouseButton,
    WindowEventType,
};

#[test]
fn app_version_packs_bytes() {
    assert_eq!(make_app_version(1, 2, 3), 0x0102_0300);
    assert_eq!(make_app_version(0, 0, 1), 0x100);
    assert_eq!(make_app_version(255, 255, 255), 0xFFFF_FF00);
}

#[test]
fn nul_termination() {
    assert_eq!(get_nul_terminated_string(""), None);
    assert_eq!(get_nul_terminated_string("abc"), Some("abc\0".to_string()));
    assert_eq!(get_nul_terminated_string("abc\0"), Some("abc\0".to_string()));
    assert_eq!(get_nul_terminated_string_always(""), "\0".to_string());
    let once = get_nul_terminated_string_always("x");
    assert_eq!(get_nul_terminated_string_always(&once), once);
}

#[test]
fn glfw_keys_map_to_engine_keys() {
    assert_eq!(glfw_to_window_key(32), KeyboardKey::Space);
    assert_eq!(glfw_to_window_key(48), KeyboardKey::Zero);
    assert_eq!(glfw_to_window_key(65), KeyboardKey::A);
    assert_eq!(glfw_to_window_key(348), KeyboardKey::Menu);
    assert_eq!(glfw_to_window_key(-1), KeyboardKey::Unknown);
    assert_eq!(glfw_to_window_key(1000), KeyboardKey::Unknown);
    assert_eq!(glfw_to_window_key_action(0), KeyState::Released);
    assert_eq!(glfw_to_window_key_action(1), KeyState::Pressed);
    assert_eq!(glfw_to_window_key_action(2), KeyState::Held);
    assert_eq!(glfw_to_window_key_action(7), KeyState::Unknown);
}

#[test]
fn glfw_mouse_buttons() {
    assert_eq!(glfw_to_mouse_button(0), MouseButton::ButtonLeft);
    assert_eq!(glfw_to_mouse_button(2), MouseButton::ButtonMiddle);
    assert_eq!(glfw_to_mouse_button(7), MouseButton::Button8);
    assert_eq!(glfw_to_mouse_button(8), MouseButton::Unknown);
    assert_eq!(mouse_button_number(MouseButton::ButtonRight), 2);
    assert_eq!(mouse_button_number(MouseButton::Unknown), 0);
}

#[test]
fn key_mod_flags() {
    assert!(is_key_mod_flag_set(0x3, KeyMod::Shift));
    assert!(is_key_mod_flag_set(0x3, KeyMod::Control));
    assert!(!is_key_mod_flag_set(0x3, KeyMod::Alt));
    assert!(!is_key_mod_flag_set(0xFFFF, KeyMod::NoMod));
    assert!(is_key_mod_flag_set(0x20, KeyMod::NumLock));
}

#[test]
fn session_platforms() {
    assert_eq!(platform_for_session(&"x11".to_string()), Some(SupportedPlatform::Xlib));
    assert_eq!(platform_for_session(&"wayland".to_string()), Some(SupportedPlatform::Wayland));
    assert_eq!(platform_for_session(&"tty".to_string()), None);
}

#[test]
fn window_sends_events_to_registered_listeners_in_order() {
    let mut w = Window::new(9, SupportedPlatform::Xlib);
    assert!(w.send_event(WindowEventType::OnResize).is_empty());
    w.register_event(WindowEventType::OnResize, 1);
    w.register_event(WindowEventType::OnKeyboardKey, 2);
    w.register_event(WindowEventType::OnResize, 3);
    assert_eq!(w.send_event(WindowEventType::OnResize), vec![1, 3]);
    assert_eq!(w.send_event(WindowEventType::OnKeyboardKey), vec![2]);
    assert!(w.send_event(WindowEventType::OnMouseMove).is_empty());
    assert_eq!(event_type_index(WindowEventType::OnMouseScroll), 3);
}

#[test]
fn thread_fences_and_responses() {
    let mut fence = ThreadFence::new();
    assert!(fence.try_acquire());
    assert!(!fence.try_acquire());
    fence.signal();
    assert!(fence.try_acquire());

    let mut sync = FrameSync::new();
    assert_eq!(sync.advance(), 0);
    assert_eq!(sync.advance(), 1);
    assert_eq!(sync.advance(), 2);
    assert_eq!(sync.advance(), 0);

    assert_eq!(response_for(RenderThreadCommandKind::RenderFrame), Some(RenderThreadResponse::RenderFrameDone));
    assert_eq!(response_for(RenderThreadCommandKind::DestroyRenderer), Some(RenderThreadResponse::RendererShutdown));
    assert_eq!(response_for(RenderThreadCommandKind::Resize), None);
    assert_eq!(response_for(RenderThreadCommandKind::SubmitCommandList), None);
    assert!(is_shutdown(RenderThreadResponse::RendererShutdown));
    assert!(!is_shutdown(RenderThreadResponse::RenderFrameDone));
}

#[test]
fn checkerboard_alternates() {
    let px = checkerboard_pixels(0xFF00FFFF, 0xFF000000);
    assert_eq!(px.len(), 256);
    assert_eq!(px[0], 0xFF000000);
    assert_eq!(px[1], 0xFF00FFFF);
    assert_eq!(px[16], 0xFF00FFFF);
    assert_eq!(px[17], 0xFF000000);
}

#[test]
fn push_constants_are_little_endian() {
    let pc = GpuDrawPushConstants { vertex_buffer: 0x0102030405060708, mesh_data_buffer: 0x10, mesh_index: 0x0A0B };
    assert_eq!(
        push_constant_bytes(pc),
        vec![8, 7, 6, 5, 4, 3, 2, 1, 0x10, 0, 0, 0, 0, 0, 0, 0, 0x0B, 0x0A, 0, 0, 0, 0, 0, 0]
    );
}

#[test]
fn frame_indices_cycle() {
    assert_eq!(next_frame_index(0), 1);
    assert_eq!(next_frame_index(2), 0);
    assert_eq!(next_frame_index(5), 0);
}

fn image(handle: u64, w: u32, h: u32) -> AllocatedImage {
    AllocatedImage { image: handle, view: handle + 1, memory: 0, dims: VkExtent3D { width: w, height: h, depth: 1 }, format: 97 }
}

#[test]
fn render_records_a_whole_frame() {
    let res = FrameResources {
        scene_image: image(10, 100, 50),
        depth_image: image(20, 100, 50),
        draw_image_set: 30,
        effect_pipeline: 31,
        effect_layout: 32,
        effect_push_data: vec![1, 2, 3],
        material_pipeline: 33,
        material_layout: 34,
        scene_set: 35,
        image_set: 36,
        swapchain_image: 40,
        swapchain_extent: VkExtent3D { width: 800, height: 600, depth: 1 },
    };
    let draw = GpuMeshDraw {
        index_buffer: AllocatedBuffer { buffer: 50, allocation: 0, size: 12, offset: 0 },
        index_count: 3,
        push_constant: GpuDrawPushConstants { vertex_buffer: 1, mesh_data_buffer: 2, mesh_index: 0 },
        material: MaterialInstanceId::invalid(),
    };
    let mut cmd = CommandBuffer::new(7);
    render(&mut cmd, &res, &vec![draw]);
    assert_eq!(cmd.state, CommandBufferState::Closed);
    assert_eq!(cmd.calls.len(), 23);
    assert!(matches!(cmd.calls[0], GpuCommand::Reset { .. }));
    assert_eq!(cmd.calls[6], GpuCommand::Dispatch { x: 7, y: 4, z: 1 });
    assert_eq!(
        cmd.calls[16],
        GpuCommand::DrawIndexed { index_count: 3, instance_count: 1, first_index: 0, vertex_offset: 0, first_instance: 0 }
    );
    assert!(matches!(cmd.calls[22], GpuCommand::End));
    match &cmd.calls[21] {
        GpuCommand::PipelineBarrier { info } => {
            assert_eq!(info.imageMemoryBarrier.image, 40);
            assert_eq!(info.imageMemoryBarrier.newLayout, VK_IMAGE_LAYOUT_PRESENT_SRC_KHR);
        }
        other => panic!("unexpected {:?}", other),
    }
    let submit = frame_submit_info(&cmd, 100, 200);
    assert_eq!(submit.commandBufferInfo.commandBuffer, 7);
    assert_eq!(submit.signalSemaphoreInfo.unwrap().semaphore, 100);
    assert_eq!(submit.waitSemaphoreInfo.unwrap().semaphore, 200);
}

#[test]
fn mesh_upload_copies_vertices_then_indices() {
    let mut cmd = CommandBuffer::new(1);
    cmd.reset();
    cmd.begin_recording();
    let vb = AllocatedBuffer { buffer: 2, allocation: 0, size: 96, offset: 0 };
    let ib = AllocatedBuffer { buffer: 3, allocation: 0, size: 12, offset: 0 };
    let staging = AllocatedBuffer { buffer: 4, allocation: 0, size: 108, offset: 0 };
    record_mesh_upload(&mut cmd, &vb, &ib, &staging, 96, 12);
    let n = cmd.calls.len();
    match (&cmd.calls[n - 2], &cmd.calls[n - 1]) {
        (GpuCommand::CopyBuffer { src: s1, dst: d1, region: r1 }, GpuCommand::CopyBuffer { src: s2, dst: d2, region: r2 }) => {
            assert_eq!((*s1, *d1, r1.srcOffset, r1.size), (4, 2, 0, 96));
            assert_eq!((*s2, *d2, r2.srcOffset, r2.size), (4, 3, 96, 12));
        }
        _ => panic!("expected two buffer copies"),
    }
    assert_eq!(cmd.state, CommandBufferState::Open);
}

#[test]
fn mipmaps_fill_the_given_levels() {
    let mut cmd = CommandBuffer::new(1);
    cmd.reset();
    cmd.begin_recording();
    let before = cmd.calls.len();
    let img = image(5, 8, 4);
    cmd.generate_mipmaps(&img, 4);
    let calls = &cmd.calls[before..];
    // a barrier per level, a blit into each level after the first, and the final barrier
    assert_eq!(calls.len(), 4 + 3 + 1);
    assert!(matches!(calls[0], GpuCommand::PipelineBarrier { .. }));
    match &calls[1] {
        GpuCommand::BlitImage { info } => {
            assert_eq!((info.region.srcOffsets1.x, info.region.srcOffsets1.y), (8, 4));
            assert_eq!((info.region.dstOffsets1.x, info.region.dstOffsets1.y), (4, 2));
            assert_eq!(info.region.dstSubresource.mipLevel, 1);
        }
        other => panic!("unexpected {:?}", other),
    }
    match &calls[7] {
        GpuCommand::PipelineBarrier { info } => assert_eq!(info.imageMemoryBarrier.newLayout, 5),
        other => panic!("unexpected {:?}", other),
    }
    let mut none = CommandBuffer::new(2);
    none.reset();
    none.begin_recording();
    let start = none.calls.len();
    none.generate_mipmaps(&image(6, 0, 0), 0);
    assert_eq!(none.calls.len(), start + 1);
}
