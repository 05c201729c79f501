//! A command buffer as a state machine over the driver calls it issues: each
//! method checks the recording state and appends the calls the renderer makes,
//! in order; the platform layer replays them on the Vulkan command buffer.
use vstd::prelude::*;
use crate::renderer::graphics::api::{VK_ACCESS_2_MEMORY_READ_BIT, VK_ACCESS_2_MEMORY_WRITE_BIT, VK_COMMAND_BUFFER_USAGE_ONE_TIME_SUBMIT_BIT, VK_FILTER_LINEAR, VK_IMAGE_ASPECT_COLOR_BIT, VK_IMAGE_ASPECT_DEPTH_BIT, VK_IMAGE_LAYOUT_DEPTH_ATTACHMENT_OPTIMAL, VK_IMAGE_LAYOUT_GENERAL, VK_IMAGE_LAYOUT_SHADER_READ_ONLY_OPTIMAL, VK_IMAGE_LAYOUT_TRANSFER_DST_OPTIMAL, VK_IMAGE_LAYOUT_TRANSFER_SRC_OPTIMAL, VK_INDEX_TYPE_UINT32, VK_PIPELINE_BIND_POINT_COMPUTE, VK_PIPELINE_BIND_POINT_GRAPHICS, VK_PIPELINE_STAGE_2_ALL_COMMANDS_BIT, VK_REMAINING_ARRAY_LAYERS, VK_REMAINING_MIP_LEVELS, VK_STRUCTURE_TYPE_BLIT_IMAGE_INFO_2, VK_STRUCTURE_TYPE_COMMAND_BUFFER_BEGIN_INFO, VK_STRUCTURE_TYPE_COMMAND_BUFFER_SUBMIT_INFO, VK_STRUCTURE_TYPE_DEPENDENCY_INFO, VK_STRUCTURE_TYPE_IMAGE_BLIT_2, VK_STRUCTURE_TYPE_IMAGE_MEMORY_BARRIER_2, VkBlitImageInfo2, VkBuffer, VkBufferCopy, VkBufferImageCopy, VkClearValue, VkCommandBuffer, VkCommandBufferBeginInfo, VkCommandBufferSubmitInfo, VkDependencyInfo, VkDescriptorSet, VkExtent2D, VkExtent3D, VkImage, VkImageBlit2, VkImageMemoryBarrier2, VkImageSubresourceLayers, VkImageSubresourceRange, VkOffset2D, VkOffset3D, VkPipeline, VkPipelineLayout, VkRect2D, VkRenderingInfo};
use crate::renderer::graphics::{AllocatedBuffer, AllocatedImage};
use crate::renderer::graphics::gpu_utils::{make_command_buffer_begin_info, make_command_buffer_submit_info, make_image_subresource_range};

verus! {

/// Where a command buffer is in its record/submit cycle.
#[derive(Debug, Clone, Copy, PartialEq, Eq, Structural)]
pub enum CommandBufferState {
    Closed,
    Open,
    Reset,
}

/// A driver call on a command buffer.
#[derive(Debug, Clone, PartialEq, Eq)]
pub enum GpuCommand {
    Begin { info: VkCommandBufferBeginInfo },
    End,
    Reset { flags: u32 },
    PipelineBarrier { info: VkDependencyInfo },
    ClearColorImage { image: VkImage, layout: u32, clear_value: VkClearValue, range: VkImageSubresourceRange },
    BindPipeline { bind_point: u32, pipeline: VkPipeline },
    BindDescriptorSets { bind_point: u32, layout: VkPipelineLayout, first_set: u32, sets: Vec<VkDescriptorSet> },
    PushConstants { layout: VkPipelineLayout, stage: u32, offset: u32, data: Vec<u8> },
    Dispatch { x: u32, y: u32, z: u32 },
    BeginRendering { info: VkRenderingInfo },
    EndRendering,
    /// Viewport at (`offset_x`, `offset_y`) of `width` x `height`, depth range [0, 1].
    SetViewport { offset_x: u32, offset_y: u32, width: i32, height: i32 },
    SetScissor { scissor: VkRect2D },
    Draw { vertex_count: u32, instance_count: u32, first_vertex: u32, first_instance: u32 },
    CopyBuffer { src: VkBuffer, dst: VkBuffer, region: VkBufferCopy },
    BlitImage { info: VkBlitImageInfo2 },
    CopyBufferToImage { buffer: VkBuffer, image: VkImage, layout: u32, region: VkBufferImageCopy },
    BindIndexBuffer { buffer: VkBuffer, offset: u64, index_type: u32 },
    DrawIndexed { index_count: u32, instance_count: u32, first_index: u32, vertex_offset: i32, first_instance: u32 },
}

/// The color aspect of mip level `mip`, layer 0.
pub open spec fn color_layer(mip: u32) -> VkImageSubresourceLayers {
    VkImageSubresourceLayers { aspectMask: VK_IMAGE_ASPECT_COLOR_BIT, mipLevel: mip, baseArrayLayer: 0, layerCount: 1 }
}

/// The whole-image range of the given aspects.
pub open spec fn full_range(aspect: u32) -> VkImageSubresourceRange {
    VkImageSubresourceRange {
        aspectMask: aspect,
        baseMipLevel: 0,
        levelCount: VK_REMAINING_MIP_LEVELS,
        baseArrayLayer: 0,
        layerCount: VK_REMAINING_ARRAY_LAYERS,
    }
}

/// A full memory barrier on `image` moving `range` from `old_layout` to `new_layout`.
pub open spec fn image_barrier(image: VkImage, old_layout: u32, new_layout: u32, range: VkImageSubresourceRange) -> VkDependencyInfo {
    VkDependencyInfo {
        sType: VK_STRUCTURE_TYPE_DEPENDENCY_INFO,
        dependencyFlags: 0,
        imageMemoryBarrierCount: 1,
        imageMemoryBarrier: VkImageMemoryBarrier2 {
            sType: VK_STRUCTURE_TYPE_IMAGE_MEMORY_BARRIER_2,
            srcStageMask: VK_PIPELINE_STAGE_2_ALL_COMMANDS_BIT,
            srcAccessMask: VK_ACCESS_2_MEMORY_WRITE_BIT,
            dstStageMask: VK_PIPELINE_STAGE_2_ALL_COMMANDS_BIT,
            dstAccessMask: VK_ACCESS_2_MEMORY_WRITE_BIT | VK_ACCESS_2_MEMORY_READ_BIT,
            oldLayout: old_layout,
            newLayout: new_layout,
            srcQueueFamilyIndex: 0,
            dstQueueFamilyIndex: 0,
            image: image,
            subresourceRange: range,
        },
    }
}

/// The barrier that `transition_image` issues: depth aspect when moving into
/// the depth attachment layout, color aspect otherwise, over the whole image.
pub open spec fn transition_barrier(image: VkImage, current_layout: u32, new_layout: u32) -> VkDependencyInfo {
    image_barrier(
        image,
        current_layout,
        new_layout,
        full_range(if new_layout == VK_IMAGE_LAYOUT_DEPTH_ATTACHMENT_OPTIMAL { VK_IMAGE_ASPECT_DEPTH_BIT } else { VK_IMAGE_ASPECT_COLOR_BIT }),
    )
}

/// A linear blit of the color layer `src_mip` of `src` (box `src_w` x `src_h`,
/// transfer-source layout) onto layer `dst_mip` of `dst` (box `dst_w` x `dst_h`,
/// transfer-destination layout).
pub open spec fn blit_info(src: VkImage, src_mip: u32, src_w: u32, src_h: u32, dst: VkImage, dst_mip: u32, dst_w: u32, dst_h: u32) -> VkBlitImageInfo2 {
    VkBlitImageInfo2 {
        sType: VK_STRUCTURE_TYPE_BLIT_IMAGE_INFO_2,
        srcImage: src,
        srcImageLayout: VK_IMAGE_LAYOUT_TRANSFER_SRC_OPTIMAL,
        dstImage: dst,
        dstImageLayout: VK_IMAGE_LAYOUT_TRANSFER_DST_OPTIMAL,
        regionCount: 1,
        region: VkImageBlit2 {
            sType: VK_STRUCTURE_TYPE_IMAGE_BLIT_2,
            srcSubresource: color_layer(src_mip),
            srcOffsets0: VkOffset3D { x: 0, y: 0, z: 0 },
            srcOffsets1: VkOffset3D { x: src_w as i32, y: src_h as i32, z: 1 },
            dstSubresource: color_layer(dst_mip),
            dstOffsets0: VkOffset3D { x: 0, y: 0, z: 0 },
            dstOffsets1: VkOffset3D { x: dst_w as i32, y: dst_h as i32, z: 1 },
        },
        filter: VK_FILTER_LINEAR,
    }
}

/// The side length of mip level `level` of a side of length `size`.
pub open spec fn mip_size(size: u32, level: nat) -> u32
    decreases level,
{
    if level == 0 { size } else { mip_size(size, (level - 1) as nat) / 2 }
}

/// The calls for mip level `level` of `count`: move it to the transfer-source
/// layout and, unless it is the last one, blit it down into the next level.
pub open spec fn mip_step(image: AllocatedImage, level: nat, count: nat) -> Seq<GpuCommand> {
    let w = mip_size(image.dims.width, level);
    let h = mip_size(image.dims.height, level);
    let range = VkImageSubresourceRange {
        aspectMask: VK_IMAGE_ASPECT_COLOR_BIT,
        baseMipLevel: level as u32,
        levelCount: 1,
        baseArrayLayer: 0,
        layerCount: VK_REMAINING_ARRAY_LAYERS,
    };
    let barrier = GpuCommand::PipelineBarrier {
        info: image_barrier(image.image, VK_IMAGE_LAYOUT_TRANSFER_DST_OPTIMAL, VK_IMAGE_LAYOUT_TRANSFER_SRC_OPTIMAL, range),
    };
    if level + 1 < count {
        seq![
            barrier,
            GpuCommand::BlitImage {
                info: blit_info(image.image, level as u32, w, h, image.image, (level + 1) as u32, w / 2, h / 2),
            },
        ]
    } else {
        seq![barrier]
    }
}

/// The calls of the first `levels` mip steps out of `count`.
pub open spec fn mip_steps(image: AllocatedImage, levels: nat, count: nat) -> Seq<GpuCommand>
    decreases levels,
{
    if levels == 0 {
        Seq::empty()
    } else {
        mip_steps(image, (levels - 1) as nat, count) + mip_step(image, (levels - 1) as nat, count)
    }
}

/// A driver call as a value: a command with its lists as sequences.
pub ghost enum CommandView {
    Begin { info: VkCommandBufferBeginInfo },
    End,
    Reset { flags: u32 },
    PipelineBarrier { info: VkDependencyInfo },
    ClearColorImage { image: VkImage, layout: u32, clear_value: VkClearValue, range: VkImageSubresourceRange },
    BindPipeline { bind_point: u32, pipeline: VkPipeline },
    BindDescriptorSets { bind_point: u32, layout: VkPipelineLayout, first_set: u32, sets: Seq<VkDescriptorSet> },
    PushConstants { layout: VkPipelineLayout, stage: u32, offset: u32, data: Seq<u8> },
    Dispatch { x: u32, y: u32, z: u32 },
    BeginRendering { info: VkRenderingInfo },
    EndRendering,
    SetViewport { offset_x: u32, offset_y: u32, width: i32, height: i32 },
    SetScissor { scissor: VkRect2D },
    Draw { vertex_count: u32, instance_count: u32, first_vertex: u32, first_instance: u32 },
    CopyBuffer { src: VkBuffer, dst: VkBuffer, region: VkBufferCopy },
    BlitImage { info: VkBlitImageInfo2 },
    CopyBufferToImage { buffer: VkBuffer, image: VkImage, layout: u32, region: VkBufferImageCopy },
    BindIndexBuffer { buffer: VkBuffer, offset: u64, index_type: u32 },
    DrawIndexed { index_count: u32, instance_count: u32, first_index: u32, vertex_offset: i32, first_instance: u32 },
}

/// A recorded call as a value.
pub open spec fn command_view(c: GpuCommand) -> CommandView {
    match c {
        GpuCommand::Begin { info } => CommandView::Begin { info },
        GpuCommand::End => CommandView::End,
        GpuCommand::Reset { flags } => CommandView::Reset { flags },
        GpuCommand::PipelineBarrier { info } => CommandView::PipelineBarrier { info },
        GpuCommand::ClearColorImage { image, layout, clear_value, range } => CommandView::ClearColorImage {
            image,
            layout,
            clear_value,
            range,
        },
        GpuCommand::BindPipeline { bind_point, pipeline } => CommandView::BindPipeline { bind_point, pipeline },
        GpuCommand::BindDescriptorSets { bind_point, layout, first_set, sets } => CommandView::BindDescriptorSets {
            bind_point,
            layout,
            first_set,
            sets: sets@,
        },
        GpuCommand::PushConstants { layout, stage, offset, data } => CommandView::PushConstants {
            layout,
            stage,
            offset,
            data: data@,
        },
        GpuCommand::Dispatch { x, y, z } => CommandView::Dispatch { x, y, z },
        GpuCommand::BeginRendering { info } => CommandView::BeginRendering { info },
        GpuCommand::EndRendering => CommandView::EndRendering,
        GpuCommand::SetViewport { offset_x, offset_y, width, height } => CommandView::SetViewport {
            offset_x,
            offset_y,
            width,
            height,
        },
        GpuCommand::SetScissor { scissor } => CommandView::SetScissor { scissor },
        GpuCommand::Draw { vertex_count, instance_count, first_vertex, first_instance } => CommandView::Draw {
            vertex_count,
            instance_count,
            first_vertex,
            first_instance,
        },
        GpuCommand::CopyBuffer { src, dst, region } => CommandView::CopyBuffer { src, dst, region },
        GpuCommand::BlitImage { info } => CommandView::BlitImage { info },
        GpuCommand::CopyBufferToImage { buffer, image, layout, region } => CommandView::CopyBufferToImage {
            buffer,
            image,
            layout,
            region,
        },
        GpuCommand::BindIndexBuffer { buffer, offset, index_type } => CommandView::BindIndexBuffer {
            buffer,
            offset,
            index_type,
        },
        GpuCommand::DrawIndexed { index_count, instance_count, first_index, vertex_offset, first_instance } =>
            CommandView::DrawIndexed { index_count, instance_count, first_index, vertex_offset, first_instance },
    }
}

/// The recorded calls as values.
pub open spec fn calls_view(calls: Seq<GpuCommand>) -> Seq<CommandView> {
    calls.map_values(|c: GpuCommand| command_view(c))
}

/// The copy of a whole upload buffer into the first mip level of an image
/// that is laid out for transfers.
pub open spec fn buffer_to_image_copy(buffer: VkBuffer, image: VkImage, size: VkExtent3D) -> GpuCommand {
    GpuCommand::CopyBufferToImage {
        buffer: buffer,
        image: image,
        layout: VK_IMAGE_LAYOUT_TRANSFER_DST_OPTIMAL,
        region: VkBufferImageCopy {
            bufferOffset: 0,
            bufferRowLength: 0,
            bufferImageHeight: 0,
            imageSubresource: color_layer(0),
            imageOffset: VkOffset3D { x: 0, y: 0, z: 0 },
            imageExtent: size,
        },
    }
}

/// The commands that fill the first `mip_count` mip levels of an image, each
/// from the one above, and leave the whole image ready for sampling.
pub open spec fn mipmap_commands(image: AllocatedImage, mip_count: u32) -> Seq<GpuCommand> {
    mip_steps(image, mip_count as nat, mip_count as nat) + seq![
        GpuCommand::PipelineBarrier {
            info: transition_barrier(image.image, VK_IMAGE_LAYOUT_TRANSFER_SRC_OPTIMAL, VK_IMAGE_LAYOUT_SHADER_READ_ONLY_OPTIMAL),
        },
    ]
}

/// A command buffer handle with its recording state, the pipeline bound in the
/// current recording, and the driver calls issued on it so far.
pub struct CommandBuffer {
    pub handle: VkCommandBuffer,
    pub state: CommandBufferState,
    pub bound_pipeline: VkPipeline,
    pub calls: Vec<GpuCommand>,
}

impl CommandBuffer {
    /// A closed command buffer for `handle`, with no pipeline bound and no calls issued.
    pub fn new(handle: VkCommandBuffer) -> (r: Self)
        ensures
            r.handle == handle,
            r.state == CommandBufferState::Closed,
            r.bound_pipeline == 0,
            r.calls@ == Seq::<GpuCommand>::empty(),
    {
        CommandBuffer { handle, state: CommandBufferState::Closed, bound_pipeline: 0, calls: Vec::new() }
    }

    /// Starts a one-time-submit recording of a reset buffer.
    pub fn begin_recording(&mut self)
        requires
            old(self).state == CommandBufferState::Reset,
        ensures
            final(self).state == CommandBufferState::Open,
            final(self).handle == old(self).handle,
            final(self).bound_pipeline == old(self).bound_pipeline,
            final(self).calls@ == old(self).calls@.push(GpuCommand::Begin {
                info: VkCommandBufferBeginInfo {
                    sType: VK_STRUCTURE_TYPE_COMMAND_BUFFER_BEGIN_INFO,
                    flags: VK_COMMAND_BUFFER_USAGE_ONE_TIME_SUBMIT_BIT,
                },
            }),
    {
        let info = make_command_buffer_begin_info(VK_COMMAND_BUFFER_USAGE_ONE_TIME_SUBMIT_BIT);
        self.calls.push(GpuCommand::Begin { info });
        self.state = CommandBufferState::Open;
    }

    /// Ends the open recording.
    pub fn end_recording(&mut self)
        requires
            old(self).state == CommandBufferState::Open,
        ensures
            final(self).state == CommandBufferState::Closed,
            final(self).handle == old(self).handle,
            final(self).bound_pipeline == old(self).bound_pipeline,
            final(self).calls@ == old(self).calls@.push(GpuCommand::End),
    {
        self.calls.push(GpuCommand::End);
        self.state = CommandBufferState::Closed;
    }

    /// Resets a closed buffer for the next recording and forgets the bound pipeline.
    pub fn reset(&mut self)
        requires
            old(self).state == CommandBufferState::Closed,
        ensures
            final(self).state == CommandBufferState::Reset,
            final(self).handle == old(self).handle,
            final(self).bound_pipeline == 0,
            final(self).calls@ == old(self).calls@.push(GpuCommand::Reset { flags: 0 }),
    {
        self.calls.push(GpuCommand::Reset { flags: 0 });
        self.state = CommandBufferState::Reset;
        self.bound_pipeline = 0;
    }

    /// The submit info of a closed buffer.
    pub fn get_submit_info(&self) -> (r: VkCommandBufferSubmitInfo)
        requires
            self.state == CommandBufferState::Closed,
        ensures
            r == (VkCommandBufferSubmitInfo {
                sType: VK_STRUCTURE_TYPE_COMMAND_BUFFER_SUBMIT_INFO,
                commandBuffer: self.handle,
                deviceMask: 0,
            }),
    {
        make_command_buffer_submit_info(self.handle)
    }

    /// Moves the whole of `image` from `current_layout` to `new_layout` behind a
    /// full memory barrier.
    pub fn transition_image(&mut self, image: VkImage, current_layout: u32, new_layout: u32)
        requires
            old(self).state == CommandBufferState::Open,
        ensures
            final(self).state == old(self).state,
            final(self).handle == old(self).handle,
            final(self).bound_pipeline == old(self).bound_pipeline,
            final(self).calls@ == old(self).calls@.push(GpuCommand::PipelineBarrier {
                info: transition_barrier(image, current_layout, new_layout),
            }),
    {
        let aspect_mask = if new_layout == VK_IMAGE_LAYOUT_DEPTH_ATTACHMENT_OPTIMAL {
            VK_IMAGE_ASPECT_DEPTH_BIT
        } else {
            VK_IMAGE_ASPECT_COLOR_BIT
        };
        let barrier = VkImageMemoryBarrier2 {
            sType: VK_STRUCTURE_TYPE_IMAGE_MEMORY_BARRIER_2,
            srcStageMask: VK_PIPELINE_STAGE_2_ALL_COMMANDS_BIT,
            srcAccessMask: VK_ACCESS_2_MEMORY_WRITE_BIT,
            dstStageMask: VK_PIPELINE_STAGE_2_ALL_COMMANDS_BIT,
            dstAccessMask: VK_ACCESS_2_MEMORY_WRITE_BIT | VK_ACCESS_2_MEMORY_READ_BIT,
            oldLayout: current_layout,
            newLayout: new_layout,
            srcQueueFamilyIndex: 0,
            dstQueueFamilyIndex: 0,
            image,
            subresourceRange: make_image_subresource_range(aspect_mask),
        };
        let info = VkDependencyInfo {
            sType: VK_STRUCTURE_TYPE_DEPENDENCY_INFO,
            dependencyFlags: 0,
            imageMemoryBarrierCount: 1,
            imageMemoryBarrier: barrier,
        };
        self.calls.push(GpuCommand::PipelineBarrier { info });
    }

    /// Clears the whole color aspect of `image`, which is in the general layout.
    pub fn clear_color_image(&mut self, image: VkImage, clear_value: VkClearValue)
        requires
            old(self).state == CommandBufferState::Open,
        ensures
            final(self).state == old(self).state,
            final(self).handle == old(self).handle,
            final(self).bound_pipeline == old(self).bound_pipeline,
            final(self).calls@ == old(self).calls@.push(GpuCommand::ClearColorImage {
                image: image,
                layout: VK_IMAGE_LAYOUT_GENERAL,
                clear_value: clear_value,
                range: full_range(VK_IMAGE_ASPECT_COLOR_BIT),
            }),
    {
        let range = make_image_subresource_range(VK_IMAGE_ASPECT_COLOR_BIT);
        self.calls.push(GpuCommand::ClearColorImage { image, layout: VK_IMAGE_LAYOUT_GENERAL, clear_value, range });
    }

    /// Binds a compute pipeline and remembers it as the bound one.
    pub fn bind_compute_pipeline(&mut self, pipeline: VkPipeline)
        requires
            old(self).state == CommandBufferState::Open,
        ensures
            final(self).state == old(self).state,
            final(self).handle == old(self).handle,
            final(self).bound_pipeline == pipeline,
            final(self).calls@ == old(self).calls@.push(GpuCommand::BindPipeline {
                bind_point: VK_PIPELINE_BIND_POINT_COMPUTE,
                pipeline: pipeline,
            }),
    {
        if self.bound_pipeline != pipeline {
            self.bound_pipeline = pipeline;
        }
        self.calls.push(GpuCommand::BindPipeline { bind_point: VK_PIPELINE_BIND_POINT_COMPUTE, pipeline });
    }

    /// Binds a graphics pipeline and remembers it as the bound one.
    pub fn bind_graphics_pipeline(&mut self, pipeline: VkPipeline)
        requires
            old(self).state == CommandBufferState::Open,
        ensures
            final(self).state == old(self).state,
            final(self).handle == old(self).handle,
            final(self).bound_pipeline == pipeline,
            final(self).calls@ == old(self).calls@.push(GpuCommand::BindPipeline {
                bind_point: VK_PIPELINE_BIND_POINT_GRAPHICS,
                pipeline: pipeline,
            }),
    {
        if self.bound_pipeline != pipeline {
            self.bound_pipeline = pipeline;
        }
        self.calls.push(GpuCommand::BindPipeline { bind_point: VK_PIPELINE_BIND_POINT_GRAPHICS, pipeline });
    }

    /// Binds `descriptor_sets` from `first_set` on for compute, with no dynamic offsets.
    pub fn bind_compute_descriptor_sets(&mut self, pipeline_layout: VkPipelineLayout, first_set: u32, descriptor_sets: Vec<VkDescriptorSet>)
        requires
            old(self).state == CommandBufferState::Open,
        ensures
            final(self).state == old(self).state,
            final(self).handle == old(self).handle,
            final(self).bound_pipeline == old(self).bound_pipeline,
            final(self).calls@.len() == old(self).calls@.len() + 1,
            final(self).calls@.drop_last() == old(self).calls@,
            final(self).calls@.last() matches GpuCommand::BindDescriptorSets { bind_point, layout, first_set: f, sets }
                && bind_point == VK_PIPELINE_BIND_POINT_COMPUTE && layout == pipeline_layout && f == first_set
                && sets@ == descriptor_sets@,
    {
        self.calls.push(GpuCommand::BindDescriptorSets {
            bind_point: VK_PIPELINE_BIND_POINT_COMPUTE,
            layout: pipeline_layout,
            first_set,
            sets: descriptor_sets,
        });
        assert(self.calls@.drop_last() =~= old(self).calls@);
    }

    /// Binds `descriptor_sets` from `first_set` on for graphics, with no dynamic offsets.
    pub fn bind_graphics_descriptor_sets(&mut self, pipeline_layout: VkPipelineLayout, first_set: u32, descriptor_sets: Vec<VkDescriptorSet>)
        requires
            old(self).state == CommandBufferState::Open,
        ensures
            final(self).state == old(self).state,
            final(self).handle == old(self).handle,
            final(self).bound_pipeline == old(self).bound_pipeline,
            final(self).calls@.len() == old(self).calls@.len() + 1,
            final(self).calls@.drop_last() == old(self).calls@,
            final(self).calls@.last() matches GpuCommand::BindDescriptorSets { bind_point, layout, first_set: f, sets }
                && bind_point == VK_PIPELINE_BIND_POINT_GRAPHICS && layout == pipeline_layout && f == first_set
                && sets@ == descriptor_sets@,
    {
        self.calls.push(GpuCommand::BindDescriptorSets {
            bind_point: VK_PIPELINE_BIND_POINT_GRAPHICS,
            layout: pipeline_layout,
            first_set,
            sets: descriptor_sets,
        });
        assert(self.calls@.drop_last() =~= old(self).calls@);
    }

    /// Pushes the bytes of a push-constant block at `offset` for `stage`.
    pub fn bind_push_constants(&mut self, pipeline_layout: VkPipelineLayout, stage: u32, push_consts: Vec<u8>, offset: u32)
        requires
            old(self).state == CommandBufferState::Open,
        ensures
            final(self).state == old(self).state,
            final(self).handle == old(self).handle,
            final(self).bound_pipeline == old(self).bound_pipeline,
            final(self).calls@.len() == old(self).calls@.len() + 1,
            final(self).calls@.drop_last() == old(self).calls@,
            final(self).calls@.last() matches GpuCommand::PushConstants { layout, stage: st, offset: o, data }
                && layout == pipeline_layout && st == stage && o == offset && data@ == push_consts@,
    {
        self.calls.push(GpuCommand::PushConstants { layout: pipeline_layout, stage, offset, data: push_consts });
        assert(self.calls@.drop_last() =~= old(self).calls@);
    }

    /// Dispatches a compute grid of the given group counts.
    pub fn dispatch_compute(&mut self, group_count_x: u32, group_count_y: u32, group_count_z: u32)
        requires
            old(self).state == CommandBufferState::Open,
        ensures
            final(self).state == old(self).state,
            final(self).handle == old(self).handle,
            final(self).bound_pipeline == old(self).bound_pipeline,
            final(self).calls@ == old(self).calls@.push(GpuCommand::Dispatch { x: group_count_x, y: group_count_y, z: group_count_z }),
    {
        self.calls.push(GpuCommand::Dispatch { x: group_count_x, y: group_count_y, z: group_count_z });
    }

    /// Begins dynamic rendering with `render_info`.
    pub fn begin_rendering(&mut self, render_info: VkRenderingInfo)
        requires
            old(self).state == CommandBufferState::Open,
        ensures
            final(self).state == old(self).state,
            final(self).handle == old(self).handle,
            final(self).bound_pipeline == old(self).bound_pipeline,
            final(self).calls@ == old(self).calls@.push(GpuCommand::BeginRendering { info: render_info }),
    {
        self.calls.push(GpuCommand::BeginRendering { info: render_info });
    }

    /// Ends dynamic rendering.
    pub fn end_rendering(&mut self)
        requires
            old(self).state == CommandBufferState::Open,
        ensures
            final(self).state == old(self).state,
            final(self).handle == old(self).handle,
            final(self).bound_pipeline == old(self).bound_pipeline,
            final(self).calls@ == old(self).calls@.push(GpuCommand::EndRendering),
    {
        self.calls.push(GpuCommand::EndRendering);
    }

    /// Sets viewport 0 to `width` x `height` at (`offset_x`, `offset_y`).
    pub fn set_viewport(&mut self, width: i32, height: i32, offset_x: u32, offset_y: u32)
        requires
            old(self).state == CommandBufferState::Open,
        ensures
            final(self).state == old(self).state,
            final(self).handle == old(self).handle,
            final(self).bound_pipeline == old(self).bound_pipeline,
            final(self).calls@ == old(self).calls@.push(GpuCommand::SetViewport {
                offset_x: offset_x,
                offset_y: offset_y,
                width: width,
                height: height,
            }),
    {
        self.calls.push(GpuCommand::SetViewport { offset_x, offset_y, width, height });
    }

    /// Sets scissor 0 to `width` x `height` at the origin.
    pub fn set_scissor(&mut self, width: u32, height: u32)
        requires
            old(self).state == CommandBufferState::Open,
        ensures
            final(self).state == old(self).state,
            final(self).handle == old(self).handle,
            final(self).bound_pipeline == old(self).bound_pipeline,
            final(self).calls@ == old(self).calls@.push(GpuCommand::SetScissor {
                scissor: VkRect2D { offset: VkOffset2D { x: 0, y: 0 }, extent: VkExtent2D { width: width, height: height } },
            }),
    {
        let scissor = VkRect2D { offset: VkOffset2D { x: 0, y: 0 }, extent: VkExtent2D { width, height } };
        self.calls.push(GpuCommand::SetScissor { scissor });
    }

    /// Draws non-indexed vertices.
    pub fn draw(&mut self, vertex_count: u32, instance_count: u32, first_vertex: u32, first_instance: u32)
        requires
            old(self).state == CommandBufferState::Open,
        ensures
            final(self).state == old(self).state,
            final(self).handle == old(self).handle,
            final(self).bound_pipeline == old(self).bound_pipeline,
            final(self).calls@ == old(self).calls@.push(GpuCommand::Draw {
                vertex_count: vertex_count,
                instance_count: instance_count,
                first_vertex: first_vertex,
                first_instance: first_instance,
            }),
    {
        self.calls.push(GpuCommand::Draw { vertex_count, instance_count, first_vertex, first_instance });
    }

    /// Copies `copy_size` bytes from `src_buffer` at `src_offset` to `dst_buffer` at `dst_offset`.
    pub fn copy_buffer(&mut self, dst_buffer: &AllocatedBuffer, dst_offset: u64, src_buffer: &AllocatedBuffer, src_offset: u64, copy_size: u64)
        requires
            old(self).state == CommandBufferState::Open,
        ensures
            final(self).state == old(self).state,
            final(self).handle == old(self).handle,
            final(self).bound_pipeline == old(self).bound_pipeline,
            final(self).calls@ == old(self).calls@.push(GpuCommand::CopyBuffer {
                src: src_buffer.buffer,
                dst: dst_buffer.buffer,
                region: VkBufferCopy { srcOffset: src_offset, dstOffset: dst_offset, size: copy_size },
            }),
    {
        let region = VkBufferCopy { srcOffset: src_offset, dstOffset: dst_offset, size: copy_size };
        self.calls.push(GpuCommand::CopyBuffer { src: src_buffer.buffer, dst: dst_buffer.buffer, region });
    }

    /// Blits mip 0 of `source` (box `src_size`) onto mip 0 of `destination` (box `dst_size`).
    pub fn copy_image_to_image(&mut self, source: VkImage, src_size: VkExtent2D, destination: VkImage, dst_size: VkExtent2D)
        requires
            old(self).state == CommandBufferState::Open,
        ensures
            final(self).state == old(self).state,
            final(self).handle == old(self).handle,
            final(self).bound_pipeline == old(self).bound_pipeline,
            final(self).calls@ == old(self).calls@.push(GpuCommand::BlitImage {
                info: blit_info(source, 0, src_size.width, src_size.height, destination, 0, dst_size.width, dst_size.height),
            }),
    {
        let info = CommandBuffer::make_blit(source, 0, src_size.width, src_size.height, destination, 0, dst_size.width, dst_size.height);
        self.calls.push(GpuCommand::BlitImage { info });
    }

    fn make_blit(src: VkImage, src_mip: u32, src_w: u32, src_h: u32, dst: VkImage, dst_mip: u32, dst_w: u32, dst_h: u32) -> (r: VkBlitImageInfo2)
        ensures
            r == blit_info(src, src_mip, src_w, src_h, dst, dst_mip, dst_w, dst_h),
    {
        VkBlitImageInfo2 {
            sType: VK_STRUCTURE_TYPE_BLIT_IMAGE_INFO_2,
            srcImage: src,
            srcImageLayout: VK_IMAGE_LAYOUT_TRANSFER_SRC_OPTIMAL,
            dstImage: dst,
            dstImageLayout: VK_IMAGE_LAYOUT_TRANSFER_DST_OPTIMAL,
            regionCount: 1,
            region: VkImageBlit2 {
                sType: VK_STRUCTURE_TYPE_IMAGE_BLIT_2,
                srcSubresource: VkImageSubresourceLayers { aspectMask: VK_IMAGE_ASPECT_COLOR_BIT, mipLevel: src_mip, baseArrayLayer: 0, layerCount: 1 },
                srcOffsets0: VkOffset3D { x: 0, y: 0, z: 0 },
                srcOffsets1: VkOffset3D { x: src_w as i32, y: src_h as i32, z: 1 },
                dstSubresource: VkImageSubresourceLayers { aspectMask: VK_IMAGE_ASPECT_COLOR_BIT, mipLevel: dst_mip, baseArrayLayer: 0, layerCount: 1 },
                dstOffsets0: VkOffset3D { x: 0, y: 0, z: 0 },
                dstOffsets1: VkOffset3D { x: dst_w as i32, y: dst_h as i32, z: 1 },
            },
            filter: VK_FILTER_LINEAR,
        }
    }

    /// Copies the tightly packed pixels of `upload_buffer` into mip 0 of
    /// `dst_image` (in the transfer-destination layout), over `size`.
    pub fn copy_buffer_to_image(&mut self, upload_buffer: &AllocatedBuffer, dst_image: &AllocatedImage, size: VkExtent3D)
        requires
            old(self).state == CommandBufferState::Open,
        ensures
            final(self).state == old(self).state,
            final(self).handle == old(self).handle,
            final(self).bound_pipeline == old(self).bound_pipeline,
            final(self).calls@ == old(self).calls@.push(buffer_to_image_copy(upload_buffer.buffer, dst_image.image, size)),
    {
        let region = VkBufferImageCopy {
            bufferOffset: 0,
            bufferRowLength: 0,
            bufferImageHeight: 0,
            imageSubresource: VkImageSubresourceLayers { aspectMask: VK_IMAGE_ASPECT_COLOR_BIT, mipLevel: 0, baseArrayLayer: 0, layerCount: 1 },
            imageOffset: VkOffset3D { x: 0, y: 0, z: 0 },
            imageExtent: size,
        };
        self.calls.push(GpuCommand::CopyBufferToImage {
            buffer: upload_buffer.buffer,
            image: dst_image.image,
            layout: VK_IMAGE_LAYOUT_TRANSFER_DST_OPTIMAL,
            region,
        });
    }

    /// Binds `index_buffer` from offset 0 with 32-bit indices (in any state).
    pub fn bind_index_buffer(&mut self, index_buffer: &AllocatedBuffer)
        ensures
            final(self).state == old(self).state,
            final(self).handle == old(self).handle,
            final(self).bound_pipeline == old(self).bound_pipeline,
            final(self).calls@ == old(self).calls@.push(GpuCommand::BindIndexBuffer {
                buffer: index_buffer.buffer,
                offset: 0,
                index_type: VK_INDEX_TYPE_UINT32,
            }),
    {
        self.calls.push(GpuCommand::BindIndexBuffer { buffer: index_buffer.buffer, offset: 0, index_type: VK_INDEX_TYPE_UINT32 });
    }

    /// Draws indexed vertices (in any state).
    pub fn draw_indexed(&mut self, index_count: u32, instance_count: u32, first_index: u32, vertex_offset: i32, first_instance: u32)
        ensures
            final(self).state == old(self).state,
            final(self).handle == old(self).handle,
            final(self).bound_pipeline == old(self).bound_pipeline,
            final(self).calls@ == old(self).calls@.push(GpuCommand::DrawIndexed {
                index_count: index_count,
                instance_count: instance_count,
                first_index: first_index,
                vertex_offset: vertex_offset,
                first_instance: first_instance,
            }),
    {
        self.calls.push(GpuCommand::DrawIndexed { index_count, instance_count, first_index, vertex_offset, first_instance });
    }

    /// Fills every mip level of `image` from level 0: each level is moved to the
    /// transfer-source layout and, but for the last, blitted at half size into
    /// the next one; then the whole image is moved to the shader-read layout.
    /// The caller gives the number of levels, which the renderer computes in
    /// single precision as `floor(log2(max(width, height))) + 1`.
    pub fn generate_mipmaps(&mut self, image: &AllocatedImage, mip_count: u32)
        requires
            old(self).state == CommandBufferState::Open,
        ensures
            final(self).state == old(self).state,
            final(self).handle == old(self).handle,
            final(self).bound_pipeline == old(self).bound_pipeline,
            final(self).calls@ == old(self).calls@ + mipmap_commands(*image, mip_count),
    {
        let mut width = image.dims.width;
        let mut height = image.dims.height;
        let ghost count = mip_count as nat;

        let mut i: u32 = 0;
        while i < mip_count
            invariant
                self.state == CommandBufferState::Open,
                self.handle == old(self).handle,
                self.bound_pipeline == old(self).bound_pipeline,
                i <= mip_count,
                count == mip_count as nat,
                i < mip_count ==> width == mip_size(image.dims.width, i as nat),
                i < mip_count ==> height == mip_size(image.dims.height, i as nat),
                self.calls@ == old(self).calls@ + mip_steps(*image, i as nat, count),
            decreases mip_count - i,
        {
            let half_width = width / 2;
            let half_height = height / 2;
            let range = VkImageSubresourceRange {
                aspectMask: VK_IMAGE_ASPECT_COLOR_BIT,
                baseMipLevel: i,
                levelCount: 1,
                baseArrayLayer: 0,
                layerCount: VK_REMAINING_ARRAY_LAYERS,
            };
            let barrier = VkImageMemoryBarrier2 {
                sType: VK_STRUCTURE_TYPE_IMAGE_MEMORY_BARRIER_2,
                srcStageMask: VK_PIPELINE_STAGE_2_ALL_COMMANDS_BIT,
                srcAccessMask: VK_ACCESS_2_MEMORY_WRITE_BIT,
                dstStageMask: VK_PIPELINE_STAGE_2_ALL_COMMANDS_BIT,
                dstAccessMask: VK_ACCESS_2_MEMORY_WRITE_BIT | VK_ACCESS_2_MEMORY_READ_BIT,
                oldLayout: VK_IMAGE_LAYOUT_TRANSFER_DST_OPTIMAL,
                newLayout: VK_IMAGE_LAYOUT_TRANSFER_SRC_OPTIMAL,
                srcQueueFamilyIndex: 0,
                dstQueueFamilyIndex: 0,
                image: image.image,
                subresourceRange: range,
            };
            let info = VkDependencyInfo {
                sType: VK_STRUCTURE_TYPE_DEPENDENCY_INFO,
                dependencyFlags: 0,
                imageMemoryBarrierCount: 1,
                imageMemoryBarrier: barrier,
            };
            let ghost before = self.calls@;
            self.calls.push(GpuCommand::PipelineBarrier { info });

            if i < mip_count - 1 {
                let blit = CommandBuffer::make_blit(image.image, i, width, height, image.image, i + 1, half_width, half_height);
                self.calls.push(GpuCommand::BlitImage { info: blit });
                width = half_width;
                height = half_height;
            }
            proof {
                assert(mip_steps(*image, (i + 1) as nat, count)
                    == mip_steps(*image, i as nat, count) + mip_step(*image, i as nat, count));
                assert(self.calls@ =~= old(self).calls@ + mip_steps(*image, (i + 1) as nat, count));
            }
            i = i + 1;
        }

        self.transition_image(image.image, VK_IMAGE_LAYOUT_TRANSFER_SRC_OPTIMAL, VK_IMAGE_LAYOUT_SHADER_READ_ONLY_OPTIMAL);
    }
}

} // verus!
