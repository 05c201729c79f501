//! The commands the renderer records for a frame: the background effect,
//! the meshes, and the copy of the scene to the swapchain image.
use vstd::prelude::*;
use crate::renderer::graphics::api::{VK_ATTACHMENT_LOAD_OP_CLEAR, VK_ATTACHMENT_LOAD_OP_LOAD, VK_ATTACHMENT_STORE_OP_STORE, VK_COMMAND_BUFFER_USAGE_ONE_TIME_SUBMIT_BIT, VK_IMAGE_LAYOUT_COLOR_ATTACHMENT_OPTIMAL, VK_IMAGE_LAYOUT_DEPTH_ATTACHMENT_OPTIMAL, VK_IMAGE_LAYOUT_GENERAL, VK_IMAGE_LAYOUT_PRESENT_SRC_KHR, VK_IMAGE_LAYOUT_TRANSFER_DST_OPTIMAL, VK_IMAGE_LAYOUT_TRANSFER_SRC_OPTIMAL, VK_IMAGE_LAYOUT_UNDEFINED, VK_INDEX_TYPE_UINT32, VK_PIPELINE_BIND_POINT_COMPUTE, VK_PIPELINE_BIND_POINT_GRAPHICS, VK_PIPELINE_STAGE_2_ALL_GRAPHICS_BIT, VK_PIPELINE_STAGE_2_COLOR_ATTACHMENT_OUTPUT_BIT, VK_SHADER_STAGE_COMPUTE_BIT, VK_SHADER_STAGE_VERTEX_BIT, VK_STRUCTURE_TYPE_COMMAND_BUFFER_BEGIN_INFO, VkBufferCopy, VkCommandBufferBeginInfo, VkDescriptorSet, VkExtent2D, VkExtent3D, VkImage, VkOffset2D, VkOffset3D, VkPipeline, VkPipelineLayout, VkRect2D, VkRenderingAttachmentInfo, VkRenderingInfo, VkSemaphore, VkSubmitInfo2};
use crate::renderer::graphics::{AllocatedImage, AllocatedBuffer};
use crate::renderer::graphics::gpu_command_buffer::{CommandBuffer, CommandBufferState, GpuCommand, CommandView, command_view, calls_view, transition_barrier, blit_info};
use crate::renderer::graphics::gpu_utils::{make_color_attachment_info, make_depth_attachment_info, make_rendering_info, zero_clear_value, make_semaphore_submit_info, make_submit_info};
use crate::renderer::mesh::{GpuMeshDraw, GpuDrawPushConstants};
use crate::renderer::graphics::consts::MAX_BUFFERED_FRAMES;
use crate::renderer::graphics::gpu_device::Device;
use crate::renderer::graphics::gpu_utils::image_ci_spec;
use crate::renderer::graphics::api::{VK_FORMAT_R16G16B16A16_SFLOAT, VK_IMAGE_USAGE_COLOR_ATTACHMENT_BIT, VK_IMAGE_USAGE_DEPTH_STENCIL_ATTACHMENT_BIT, VK_IMAGE_USAGE_STORAGE_BIT, VK_IMAGE_USAGE_TRANSFER_DST_BIT, VK_IMAGE_USAGE_TRANSFER_SRC_BIT, VkFormat, VkImageCreateInfo};

verus! {

/// The little-endian bytes of a 64-bit number.
pub open spec fn u64_le_bytes(x: u64) -> Seq<u8> {
    Seq::new(8, |k: int| ((x >> ((8 * k) as u64)) & 0xffu64) as u8)
}

/// The little-endian bytes of a 32-bit number.
pub open spec fn u32_le_bytes(x: u32) -> Seq<u8> {
    Seq::new(4, |k: int| ((x >> ((8 * k) as u32)) & 0xffu32) as u8)
}

/// The bytes of a mesh draw's push constants as the shader reads them: the
/// two addresses, the mesh index, and four bytes of padding.
pub open spec fn push_constant_bytes_spec(pc: GpuDrawPushConstants) -> Seq<u8> {
    u64_le_bytes(pc.vertex_buffer) + u64_le_bytes(pc.mesh_data_buffer) + u32_le_bytes(pc.mesh_index) + seq![0u8, 0u8, 0u8, 0u8]
}

/// The bytes of a mesh draw's push constants.
pub fn push_constant_bytes(pc: GpuDrawPushConstants) -> (r: Vec<u8>)
    ensures
        r@ == push_constant_bytes_spec(pc),
{
    let mut out: Vec<u8> = Vec::new();
    let mut k: u64 = 0;
    while k < 8
        invariant
            k <= 8,
            out@ == u64_le_bytes(pc.vertex_buffer).take(k as int),
        decreases 8 - k,
    {
        out.push(((pc.vertex_buffer >> (8 * k)) & 0xff) as u8);
        assert(out@ =~= u64_le_bytes(pc.vertex_buffer).take(k as int + 1));
        k = k + 1;
    }
    let mut k: u64 = 0;
    while k < 8
        invariant
            k <= 8,
            out@ == u64_le_bytes(pc.vertex_buffer) + u64_le_bytes(pc.mesh_data_buffer).take(k as int),
        decreases 8 - k,
    {
        out.push(((pc.mesh_data_buffer >> (8 * k)) & 0xff) as u8);
        assert(out@ =~= u64_le_bytes(pc.vertex_buffer) + u64_le_bytes(pc.mesh_data_buffer).take(k as int + 1));
        k = k + 1;
    }
    let mut k: u32 = 0;
    while k < 4
        invariant
            k <= 4,
            out@ == u64_le_bytes(pc.vertex_buffer) + u64_le_bytes(pc.mesh_data_buffer) + u32_le_bytes(
                pc.mesh_index,
            ).take(k as int),
        decreases 4 - k,
    {
        out.push(((pc.mesh_index >> (8 * k)) & 0xff) as u8);
        assert(out@ =~= u64_le_bytes(pc.vertex_buffer) + u64_le_bytes(pc.mesh_data_buffer) + u32_le_bytes(
            pc.mesh_index,
        ).take(k as int + 1));
        k = k + 1;
    }
    out.push(0);
    out.push(0);
    out.push(0);
    out.push(0);
    assert(out@ =~= push_constant_bytes_spec(pc));
    out
}

/// The number of 16-wide workgroups that cover `n` pixels.
pub open spec fn groups_of_16(n: u32) -> u32 {
    (n / 16 + if n % 16 != 0 { 1u32 } else { 0u32 }) as u32
}

/// What a frame is drawn with: the scene and depth images, the background
/// effect (its pipeline, layout, push constants, and the set that binds the
/// scene image to it), the material's pipeline, layout and sets, and the
/// swapchain image the frame goes to.
pub struct FrameResources {
    pub scene_image: AllocatedImage,
    pub depth_image: AllocatedImage,
    pub draw_image_set: VkDescriptorSet,
    pub effect_pipeline: VkPipeline,
    pub effect_layout: VkPipelineLayout,
    pub effect_push_data: Vec<u8>,
    pub material_pipeline: VkPipeline,
    pub material_layout: VkPipelineLayout,
    pub scene_set: VkDescriptorSet,
    pub image_set: VkDescriptorSet,
    pub swapchain_image: VkImage,
    pub swapchain_extent: VkExtent3D,
}

pub open spec fn barrier(image: VkImage, from: u32, to: u32) -> CommandView {
    CommandView::PipelineBarrier { info: transition_barrier(image, from, to) }
}

/// The background: the scene image made writable, then the effect run over
/// it in 16 by 16 workgroups.
pub open spec fn background_commands(res: FrameResources) -> Seq<CommandView> {
    seq![
        barrier(res.scene_image.image, VK_IMAGE_LAYOUT_UNDEFINED, VK_IMAGE_LAYOUT_GENERAL),
        CommandView::BindPipeline { bind_point: VK_PIPELINE_BIND_POINT_COMPUTE, pipeline: res.effect_pipeline },
        CommandView::BindDescriptorSets {
            bind_point: VK_PIPELINE_BIND_POINT_COMPUTE,
            layout: res.effect_layout,
            first_set: 0,
            sets: seq![res.draw_image_set],
        },
        CommandView::PushConstants {
            layout: res.effect_layout,
            stage: VK_SHADER_STAGE_COMPUTE_BIT,
            offset: 0,
            data: res.effect_push_data@,
        },
        CommandView::Dispatch {
            x: groups_of_16(res.scene_image.dims.width),
            y: groups_of_16(res.scene_image.dims.height),
            z: 1,
        },
    ]
}

/// Rendering into the scene image over its old contents, with the depth
/// image cleared.
pub open spec fn scene_rendering_info(res: FrameResources) -> VkRenderingInfo {
    VkRenderingInfo {
        sType: 0,
        flags: 0,
        renderArea: VkRect2D {
            offset: VkOffset2D { x: 0, y: 0 },
            extent: VkExtent2D { width: res.scene_image.dims.width, height: res.scene_image.dims.height },
        },
        layerCount: 1,
        viewMask: 0,
        colorAttachmentCount: 1,
        colorAttachment: Some(
            VkRenderingAttachmentInfo {
                sType: 0,
                imageView: res.scene_image.view,
                imageLayout: VK_IMAGE_LAYOUT_COLOR_ATTACHMENT_OPTIMAL,
                resolveMode: 0,
                resolveImageView: 0,
                resolveImageLayout: 0,
                loadOp: VK_ATTACHMENT_LOAD_OP_LOAD,
                storeOp: VK_ATTACHMENT_STORE_OP_STORE,
                clearValue: zero_clear_value(),
            },
        ),
        depthAttachment: Some(
            VkRenderingAttachmentInfo {
                sType: 0,
                imageView: res.depth_image.view,
                imageLayout: VK_IMAGE_LAYOUT_DEPTH_ATTACHMENT_OPTIMAL,
                resolveMode: 0,
                resolveImageView: 0,
                resolveImageLayout: 0,
                loadOp: VK_ATTACHMENT_LOAD_OP_CLEAR,
                storeOp: VK_ATTACHMENT_STORE_OP_STORE,
                clearValue: zero_clear_value(),
            },
        ),
    }
}

/// The `j`-th of the three commands that draw one mesh: its push
/// constants, its index buffer, and the indexed draw.
pub open spec fn mesh_draw_command(layout: VkPipelineLayout, draw: GpuMeshDraw, j: int) -> CommandView {
    if j == 0 {
        CommandView::PushConstants {
            layout: layout,
            stage: VK_SHADER_STAGE_VERTEX_BIT,
            offset: 0,
            data: push_constant_bytes_spec(draw.push_constant),
        }
    } else if j == 1 {
        CommandView::BindIndexBuffer { buffer: draw.index_buffer.buffer, offset: 0, index_type: VK_INDEX_TYPE_UINT32 }
    } else {
        CommandView::DrawIndexed {
            index_count: draw.index_count,
            instance_count: 1,
            first_index: 0,
            vertex_offset: 0,
            first_instance: 0,
        }
    }
}

/// The commands that draw a list of meshes, three per mesh in order.
pub open spec fn mesh_draw_commands(layout: VkPipelineLayout, draws: Seq<GpuMeshDraw>) -> Seq<CommandView> {
    Seq::new(3 * draws.len(), |i: int| mesh_draw_command(layout, draws[i / 3], i % 3))
}

/// The geometry: the scene image made a color target and the depth image a
/// depth target, then a render pass over the whole scene image with the
/// material's pipeline and sets, in which every mesh is drawn.
pub open spec fn geometry_commands(res: FrameResources, draws: Seq<GpuMeshDraw>) -> Seq<CommandView> {
    let w = res.scene_image.dims.width;
    let h = res.scene_image.dims.height;
    seq![
        barrier(res.scene_image.image, VK_IMAGE_LAYOUT_GENERAL, VK_IMAGE_LAYOUT_COLOR_ATTACHMENT_OPTIMAL),
        barrier(res.depth_image.image, VK_IMAGE_LAYOUT_UNDEFINED, VK_IMAGE_LAYOUT_DEPTH_ATTACHMENT_OPTIMAL),
        CommandView::BeginRendering { info: scene_rendering_info(res) },
        CommandView::BindPipeline { bind_point: VK_PIPELINE_BIND_POINT_GRAPHICS, pipeline: res.material_pipeline },
        CommandView::SetViewport { offset_x: 0, offset_y: 0, width: w as i32, height: h as i32 },
        CommandView::SetScissor {
            scissor: VkRect2D { offset: VkOffset2D { x: 0, y: 0 }, extent: VkExtent2D { width: w, height: h } },
        },
        CommandView::BindDescriptorSets {
            bind_point: VK_PIPELINE_BIND_POINT_GRAPHICS,
            layout: res.material_layout,
            first_set: 0,
            sets: seq![res.scene_set, res.image_set],
        },
    ] + mesh_draw_commands(res.material_layout, draws) + seq![CommandView::EndRendering]
}

/// The copy of the scene image onto the swapchain image, which is then
/// made ready for presentation.
pub open spec fn present_copy_commands(res: FrameResources) -> Seq<CommandView> {
    seq![
        barrier(res.scene_image.image, VK_IMAGE_LAYOUT_COLOR_ATTACHMENT_OPTIMAL, VK_IMAGE_LAYOUT_TRANSFER_SRC_OPTIMAL),
        barrier(res.swapchain_image, VK_IMAGE_LAYOUT_UNDEFINED, VK_IMAGE_LAYOUT_TRANSFER_DST_OPTIMAL),
        CommandView::BlitImage {
            info: blit_info(
                res.scene_image.image,
                0,
                res.scene_image.dims.width,
                res.scene_image.dims.height,
                res.swapchain_image,
                0,
                res.swapchain_extent.width,
                res.swapchain_extent.height,
            ),
        },
        barrier(res.swapchain_image, VK_IMAGE_LAYOUT_TRANSFER_DST_OPTIMAL, VK_IMAGE_LAYOUT_PRESENT_SRC_KHR),
    ]
}

/// All the commands of a frame, from the reset of the command buffer to the
/// end of its recording.
pub open spec fn frame_commands(res: FrameResources, draws: Seq<GpuMeshDraw>) -> Seq<CommandView> {
    seq![
        CommandView::Reset { flags: 0 },
        CommandView::Begin {
            info: VkCommandBufferBeginInfo {
                sType: VK_STRUCTURE_TYPE_COMMAND_BUFFER_BEGIN_INFO,
                flags: VK_COMMAND_BUFFER_USAGE_ONE_TIME_SUBMIT_BIT,
            },
        },
    ] + background_commands(res) + geometry_commands(res, draws) + present_copy_commands(res) + seq![
        CommandView::End,
    ]
}

/// One more call as a value.
proof fn lemma_calls_view_push(before: Seq<GpuCommand>, after: Seq<GpuCommand>)
    requires
        after.len() == before.len() + 1,
        after.drop_last() == before,
    ensures
        calls_view(after) == calls_view(before).push(command_view(after.last())),
{
    assert(calls_view(after) =~= calls_view(before).push(command_view(after.last())));
}

/// One more call as a value.
proof fn lemma_calls_view_pushed(before: Seq<GpuCommand>, c: GpuCommand)
    ensures
        calls_view(before.push(c)) == calls_view(before).push(command_view(c)),
{
    assert(calls_view(before.push(c)) =~= calls_view(before).push(command_view(c)));
}

fn copy_sets(sets: &[VkDescriptorSet]) -> (r: Vec<VkDescriptorSet>)
    ensures
        r@ == sets@,
{
    let mut out: Vec<VkDescriptorSet> = Vec::new();
    let mut i: usize = 0;
    while i < sets.len()
        invariant
            i <= sets@.len(),
            out@ == sets@.take(i as int),
        decreases sets@.len() - i,
    {
        out.push(sets[i]);
        assert(out@ =~= sets@.take(i as int + 1));
        i = i + 1;
    }
    assert(sets@.take(i as int) =~= sets@);
    out
}

fn copy_bytes(data: &Vec<u8>) -> (r: Vec<u8>)
    ensures
        r@ == data@,
{
    let mut out: Vec<u8> = Vec::new();
    let mut i: usize = 0;
    while i < data.len()
        invariant
            i <= data@.len(),
            out@ == data@.take(i as int),
        decreases data@.len() - i,
    {
        out.push(data[i]);
        assert(out@ =~= data@.take(i as int + 1));
        i = i + 1;
    }
    assert(data@.take(i as int) =~= data@);
    out
}

/// Records the background effect of a frame.
pub fn record_background(cmd: &mut CommandBuffer, res: &FrameResources)
    requires
        old(cmd).state == CommandBufferState::Open,
    ensures
        final(cmd).state == CommandBufferState::Open,
        final(cmd).handle == old(cmd).handle,
        calls_view(final(cmd).calls@) == calls_view(old(cmd).calls@) + background_commands(*res),
{
    let ghost start = calls_view(cmd.calls@);
    let ghost c0 = cmd.calls@;
    cmd.transition_image(res.scene_image.image, VK_IMAGE_LAYOUT_UNDEFINED, VK_IMAGE_LAYOUT_GENERAL);
    proof { lemma_calls_view_pushed(c0, cmd.calls@.last()); }
    let ghost c1 = cmd.calls@;
    cmd.bind_compute_pipeline(res.effect_pipeline);
    proof { lemma_calls_view_pushed(c1, cmd.calls@.last()); }
    let ghost c2 = cmd.calls@;
    let sets = copy_sets(&[res.draw_image_set]);
    assert(sets@ =~= seq![res.draw_image_set]);
    cmd.bind_compute_descriptor_sets(res.effect_layout, 0, sets);
    proof { lemma_calls_view_push(c2, cmd.calls@); }
    let ghost c3 = cmd.calls@;
    let data = copy_bytes(&res.effect_push_data);
    cmd.bind_push_constants(res.effect_layout, VK_SHADER_STAGE_COMPUTE_BIT, data, 0);
    proof { lemma_calls_view_push(c3, cmd.calls@); }
    let ghost c4 = cmd.calls@;
    let w = res.scene_image.dims.width;
    let h = res.scene_image.dims.height;
    let group_x = w / 16 + if w % 16 != 0 { 1 } else { 0 };
    let group_y = h / 16 + if h % 16 != 0 { 1 } else { 0 };
    cmd.dispatch_compute(group_x, group_y, 1);
    proof { lemma_calls_view_pushed(c4, cmd.calls@.last()); }
    assert(calls_view(cmd.calls@) =~= start + background_commands(*res));
}


/// Records the geometry of a frame: the render pass over the scene image in
/// which every mesh of the draw list is drawn.
pub fn draw_geometry(cmd: &mut CommandBuffer, res: &FrameResources, draws: &Vec<GpuMeshDraw>)
    requires
        old(cmd).state == CommandBufferState::Open,
    ensures
        final(cmd).state == CommandBufferState::Open,
        final(cmd).handle == old(cmd).handle,
        calls_view(final(cmd).calls@) == calls_view(old(cmd).calls@) + geometry_commands(*res, draws@),
{
    let ghost start = calls_view(cmd.calls@);
    let ghost c0 = cmd.calls@;
    cmd.transition_image(res.scene_image.image, VK_IMAGE_LAYOUT_GENERAL, VK_IMAGE_LAYOUT_COLOR_ATTACHMENT_OPTIMAL);
    proof { lemma_calls_view_pushed(c0, cmd.calls@.last()); }
    let ghost c1 = cmd.calls@;
    cmd.transition_image(res.depth_image.image, VK_IMAGE_LAYOUT_UNDEFINED, VK_IMAGE_LAYOUT_DEPTH_ATTACHMENT_OPTIMAL);
    proof { lemma_calls_view_pushed(c1, cmd.calls@.last()); }
    let color_attachment = make_color_attachment_info(res.scene_image.view, None, VK_IMAGE_LAYOUT_COLOR_ATTACHMENT_OPTIMAL);
    let depth_attachment = make_depth_attachment_info(res.depth_image.view, VK_IMAGE_LAYOUT_DEPTH_ATTACHMENT_OPTIMAL);
    let draw_extent = VkExtent2D { width: res.scene_image.dims.width, height: res.scene_image.dims.height };
    let render_info = make_rendering_info(draw_extent, Some(color_attachment), Some(depth_attachment));
    let ghost c2 = cmd.calls@;
    cmd.begin_rendering(render_info);
    proof { lemma_calls_view_pushed(c2, cmd.calls@.last()); }
    let ghost c3 = cmd.calls@;
    cmd.bind_graphics_pipeline(res.material_pipeline);
    proof { lemma_calls_view_pushed(c3, cmd.calls@.last()); }
    let ghost c4 = cmd.calls@;
    cmd.set_viewport(draw_extent.width as i32, draw_extent.height as i32, 0, 0);
    proof { lemma_calls_view_pushed(c4, cmd.calls@.last()); }
    let ghost c5 = cmd.calls@;
    cmd.set_scissor(draw_extent.width, draw_extent.height);
    proof { lemma_calls_view_pushed(c5, cmd.calls@.last()); }
    let ghost c6 = cmd.calls@;
    let sets = copy_sets(&[res.scene_set, res.image_set]);
    assert(sets@ =~= seq![res.scene_set, res.image_set]);
    cmd.bind_graphics_descriptor_sets(res.material_layout, 0, sets);
    proof { lemma_calls_view_push(c6, cmd.calls@); }
    let ghost head = calls_view(cmd.calls@);
    let ghost layout = res.material_layout;
    let mut k: usize = 0;
    while k < draws.len()
        invariant
            k <= draws@.len(),
            cmd.state == CommandBufferState::Open,
            cmd.handle == old(cmd).handle,
            layout == res.material_layout,
            calls_view(cmd.calls@) == head + mesh_draw_commands(layout, draws@.take(k as int)),
        decreases draws@.len() - k,
    {
        let draw = draws[k];
        let ghost before = cmd.calls@;
        let bytes = push_constant_bytes(draw.push_constant);
        cmd.bind_push_constants(res.material_layout, VK_SHADER_STAGE_VERTEX_BIT, bytes, 0);
        proof { lemma_calls_view_push(before, cmd.calls@); }
        let ghost b1 = cmd.calls@;
        cmd.bind_index_buffer(&draw.index_buffer);
        proof { lemma_calls_view_pushed(b1, cmd.calls@.last()); }
        let ghost b2 = cmd.calls@;
        cmd.draw_indexed(draw.index_count, 1, 0, 0, 0);
        proof {
            lemma_calls_view_pushed(b2, cmd.calls@.last());
            let next = mesh_draw_commands(layout, draws@.take(k as int + 1));
            let prev = mesh_draw_commands(layout, draws@.take(k as int));
            assert(next =~= prev + seq![
                mesh_draw_command(layout, draws@[k as int], 0),
                mesh_draw_command(layout, draws@[k as int], 1),
                mesh_draw_command(layout, draws@[k as int], 2),
            ]) by {
                assert forall|i: int| 0 <= i < next.len() implies next[i] == (prev + seq![
                    mesh_draw_command(layout, draws@[k as int], 0),
                    mesh_draw_command(layout, draws@[k as int], 1),
                    mesh_draw_command(layout, draws@[k as int], 2),
                ])[i] by {
                    if i < 3 * k {
                        assert(draws@.take(k as int + 1)[i / 3] == draws@.take(k as int)[i / 3]);
                    } else {
                        assert(i / 3 == k as int);
                    }
                }
            }
        }
        k = k + 1;
    }
    assert(draws@.take(k as int) =~= draws@);
    let ghost c7 = cmd.calls@;
    cmd.end_rendering();
    proof { lemma_calls_view_pushed(c7, cmd.calls@.last()); }
    assert(calls_view(cmd.calls@) =~= start + geometry_commands(*res, draws@));
}

/// Records the copy of the scene image to the swapchain image and its
/// transition to presentation.
pub fn record_present_copy(cmd: &mut CommandBuffer, res: &FrameResources)
    requires
        old(cmd).state == CommandBufferState::Open,
    ensures
        final(cmd).state == CommandBufferState::Open,
        final(cmd).handle == old(cmd).handle,
        calls_view(final(cmd).calls@) == calls_view(old(cmd).calls@) + present_copy_commands(*res),
{
    let ghost start = calls_view(cmd.calls@);
    let ghost c0 = cmd.calls@;
    cmd.transition_image(res.scene_image.image, VK_IMAGE_LAYOUT_COLOR_ATTACHMENT_OPTIMAL, VK_IMAGE_LAYOUT_TRANSFER_SRC_OPTIMAL);
    proof { lemma_calls_view_pushed(c0, cmd.calls@.last()); }
    let ghost c1 = cmd.calls@;
    cmd.transition_image(res.swapchain_image, VK_IMAGE_LAYOUT_UNDEFINED, VK_IMAGE_LAYOUT_TRANSFER_DST_OPTIMAL);
    proof { lemma_calls_view_pushed(c1, cmd.calls@.last()); }
    let src_extent = VkExtent2D { width: res.scene_image.dims.width, height: res.scene_image.dims.height };
    let dst_extent = VkExtent2D { width: res.swapchain_extent.width, height: res.swapchain_extent.height };
    let ghost c2 = cmd.calls@;
    cmd.copy_image_to_image(res.scene_image.image, src_extent, res.swapchain_image, dst_extent);
    proof { lemma_calls_view_pushed(c2, cmd.calls@.last()); }
    let ghost c3 = cmd.calls@;
    cmd.transition_image(res.swapchain_image, VK_IMAGE_LAYOUT_TRANSFER_DST_OPTIMAL, VK_IMAGE_LAYOUT_PRESENT_SRC_KHR);
    proof { lemma_calls_view_pushed(c3, cmd.calls@.last()); }
    assert(calls_view(cmd.calls@) =~= start + present_copy_commands(*res));
}

/// Records a whole frame into a command buffer that is not recording:
/// reset, background, geometry, copy to the swapchain image, end.
pub fn render(cmd: &mut CommandBuffer, res: &FrameResources, draws: &Vec<GpuMeshDraw>)
    requires
        old(cmd).state == CommandBufferState::Closed,
    ensures
        final(cmd).state == CommandBufferState::Closed,
        final(cmd).handle == old(cmd).handle,
        calls_view(final(cmd).calls@) == calls_view(old(cmd).calls@) + frame_commands(*res, draws@),
{
    let ghost start = calls_view(cmd.calls@);
    let ghost c0 = cmd.calls@;
    cmd.reset();
    proof { lemma_calls_view_pushed(c0, cmd.calls@.last()); }
    let ghost c1 = cmd.calls@;
    cmd.begin_recording();
    proof { lemma_calls_view_pushed(c1, cmd.calls@.last()); }
    record_background(cmd, res);
    draw_geometry(cmd, res, draws);
    record_present_copy(cmd, res);
    let ghost c2 = cmd.calls@;
    cmd.end_recording();
    proof { lemma_calls_view_pushed(c2, cmd.calls@.last()); }
    assert(calls_view(cmd.calls@) =~= start + frame_commands(*res, draws@));
}

/// The submission of a recorded frame: it waits for the swapchain image
/// (the present semaphore) before color output, and signals the render
/// semaphore once all graphics work is done.
pub fn frame_submit_info(cmd: &CommandBuffer, render_semaphore: VkSemaphore, present_semaphore: VkSemaphore) -> (r: VkSubmitInfo2)
    requires
        cmd.state == CommandBufferState::Closed,
    ensures
        r.commandBufferInfo.commandBuffer == cmd.handle,
        r.signalSemaphoreInfo matches Some(s) && s.semaphore == render_semaphore && s.stageMask
            == VK_PIPELINE_STAGE_2_ALL_GRAPHICS_BIT,
        r.waitSemaphoreInfo matches Some(w) && w.semaphore == present_semaphore && w.stageMask
            == VK_PIPELINE_STAGE_2_COLOR_ATTACHMENT_OUTPUT_BIT,
{
    let cmd_info = cmd.get_submit_info();
    let wait_info = make_semaphore_submit_info(VK_PIPELINE_STAGE_2_COLOR_ATTACHMENT_OUTPUT_BIT, present_semaphore);
    let signal_info = make_semaphore_submit_info(VK_PIPELINE_STAGE_2_ALL_GRAPHICS_BIT, render_semaphore);
    make_submit_info(cmd_info, Some(signal_info), Some(wait_info))
}

/// The frame after `frame_index`, in turn among the buffered frames.
pub fn next_frame_index(frame_index: usize) -> (r: usize)
    ensures
        r == (frame_index as int + 1) % (MAX_BUFFERED_FRAMES as int),
{
    if frame_index >= MAX_BUFFERED_FRAMES {
        (frame_index % MAX_BUFFERED_FRAMES + 1) % MAX_BUFFERED_FRAMES
    } else {
        (frame_index + 1) % MAX_BUFFERED_FRAMES
    }
}

/// Records the upload of a mesh from a staging buffer that holds its
/// vertices followed by its indices.
pub fn record_mesh_upload(
    cmd: &mut CommandBuffer,
    vertex_buffer: &AllocatedBuffer,
    index_buffer: &AllocatedBuffer,
    staging: &AllocatedBuffer,
    vertex_bytes: u64,
    index_bytes: u64,
)
    requires
        old(cmd).state == CommandBufferState::Open,
    ensures
        final(cmd).state == CommandBufferState::Open,
        final(cmd).handle == old(cmd).handle,
        calls_view(final(cmd).calls@) == calls_view(old(cmd).calls@) + seq![
            CommandView::CopyBuffer {
                src: staging.buffer,
                dst: vertex_buffer.buffer,
                region: VkBufferCopy { srcOffset: 0, dstOffset: 0, size: vertex_bytes },
            },
            CommandView::CopyBuffer {
                src: staging.buffer,
                dst: index_buffer.buffer,
                region: VkBufferCopy { srcOffset: vertex_bytes, dstOffset: 0, size: index_bytes },
            },
        ],
{
    let ghost start = calls_view(cmd.calls@);
    let ghost c0 = cmd.calls@;
    cmd.copy_buffer(vertex_buffer, 0, staging, 0, vertex_bytes);
    proof { lemma_calls_view_pushed(c0, cmd.calls@.last()); }
    let ghost c1 = cmd.calls@;
    cmd.copy_buffer(index_buffer, 0, staging, vertex_bytes, index_bytes);
    proof { lemma_calls_view_pushed(c1, cmd.calls@.last()); }
    assert(calls_view(cmd.calls@) =~= start + seq![
        CommandView::CopyBuffer {
            src: staging.buffer,
            dst: vertex_buffer.buffer,
            region: VkBufferCopy { srcOffset: 0, dstOffset: 0, size: vertex_bytes },
        },
        CommandView::CopyBuffer {
            src: staging.buffer,
            dst: index_buffer.buffer,
            region: VkBufferCopy { srcOffset: vertex_bytes, dstOffset: 0, size: index_bytes },
        },
    ]);
}

/// The scene image is drawn in half floats.
pub const SCENE_IMAGE_FORMAT: u32 = VK_FORMAT_R16G16B16A16_SFLOAT;

/// The scene image is copied from and to, written by the background
/// effect, and rendered into.
pub const SCENE_IMAGE_USAGE: u32 = VK_IMAGE_USAGE_TRANSFER_SRC_BIT | VK_IMAGE_USAGE_TRANSFER_DST_BIT
    | VK_IMAGE_USAGE_STORAGE_BIT | VK_IMAGE_USAGE_COLOR_ATTACHMENT_BIT;

/// How the scene image of a swapchain of this size is created: not
/// mipmapped.
pub fn scene_image_info(extent: VkExtent3D) -> (r: VkImageCreateInfo)
    ensures
        r == image_ci_spec(SCENE_IMAGE_FORMAT, SCENE_IMAGE_USAGE, extent),
{
    Device::image_allocation_info(extent, SCENE_IMAGE_FORMAT, SCENE_IMAGE_USAGE, 1)
}

/// How the depth image of a swapchain of this size is created, in the
/// device's depth format: a depth attachment only, not mipmapped.
pub fn depth_image_info(extent: VkExtent3D, depth_format: VkFormat) -> (r: VkImageCreateInfo)
    ensures
        r == image_ci_spec(depth_format, VK_IMAGE_USAGE_DEPTH_STENCIL_ATTACHMENT_BIT, extent),
{
    Device::image_allocation_info(extent, depth_format, VK_IMAGE_USAGE_DEPTH_STENCIL_ATTACHMENT_BIT, 1)
}

/// Every frame holds exactly one blit, third from its end: the copy of the
/// whole scene image (from its origin to its width and height) onto the whole
/// swapchain image (from its origin to the swapchain's width and height),
/// whatever the two sizes; the scene is stretched over the swapchain image.
pub proof fn lemma_frame_blits_scene_onto_whole_swapchain(res: FrameResources, draws: Seq<GpuMeshDraw>)
    ensures
        ({
            let f = frame_commands(res, draws);
            let k = f.len() - 3;
            &&& f.len() >= 3
            &&& forall|i: int| 0 <= i < f.len() && i != k ==> !(#[trigger] f[i] is BlitImage)
            &&& f[k] matches CommandView::BlitImage { info }
                && info.srcImage == res.scene_image.image
                && info.dstImage == res.swapchain_image
                && info.region.srcOffsets0 == VkOffset3D { x: 0, y: 0, z: 0 }
                && info.region.srcOffsets1 == VkOffset3D {
                    x: res.scene_image.dims.width as i32,
                    y: res.scene_image.dims.height as i32,
                    z: 1,
                }
                && info.region.dstOffsets0 == VkOffset3D { x: 0, y: 0, z: 0 }
                && info.region.dstOffsets1 == VkOffset3D {
                    x: res.swapchain_extent.width as i32,
                    y: res.swapchain_extent.height as i32,
                    z: 1,
                }
        }),
{
    let head = seq![
        CommandView::Reset { flags: 0 },
        CommandView::Begin {
            info: VkCommandBufferBeginInfo {
                sType: VK_STRUCTURE_TYPE_COMMAND_BUFFER_BEGIN_INFO,
                flags: VK_COMMAND_BUFFER_USAGE_ONE_TIME_SUBMIT_BIT,
            },
        },
    ];
    let bg = background_commands(res);
    let geo = geometry_commands(res, draws);
    let pc = present_copy_commands(res);
    let tail = seq![CommandView::End];
    let f = frame_commands(res, draws);
    assert(f == head + bg + geo + pc + tail);
    let meshes = mesh_draw_commands(res.material_layout, draws);
    assert(geo.len() == 8 + meshes.len());
    assert forall|j: int| 0 <= j < meshes.len() implies !(#[trigger] meshes[j] is BlitImage) by {
        assert(meshes[j] == mesh_draw_command(res.material_layout, draws[j / 3], j % 3));
    }
    assert forall|j: int| 0 <= j < geo.len() implies !(#[trigger] geo[j] is BlitImage) by {
        if j >= 7 && j < 7 + meshes.len() {
            assert(geo[j] == meshes[j - 7]);
        }
    }
    let k = f.len() - 3;
    assert(f.len() == 2 + 5 + geo.len() + 4 + 1);
    assert forall|i: int| 0 <= i < f.len() && i != k implies !(#[trigger] f[i] is BlitImage) by {
        if i < 2 {
            assert(f[i] == head[i]);
        } else if i < 7 {
            assert(f[i] == bg[i - 2]);
        } else if i < 7 + geo.len() {
            assert(f[i] == geo[i - 7]);
        } else if i < 11 + geo.len() {
            assert(f[i] == pc[i - 7 - geo.len()]);
        } else {
            assert(f[i] == tail[i - 11 - geo.len()]);
        }
    }
    assert(f[k] == pc[2]);
}

} // verus!
