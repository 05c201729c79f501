//! Material handles and the bump allocator of per-material GPU data.
use vstd::prelude::*;
use crate::renderer::graphics::api::{VK_COMPARE_OP_LESS_OR_EQUAL, VK_CULL_MODE_BACK_BIT, VK_DESCRIPTOR_TYPE_COMBINED_IMAGE_SAMPLER, VK_DESCRIPTOR_TYPE_UNIFORM_BUFFER, VK_FORMAT_R16G16B16A16_SFLOAT, VK_FRONT_FACE_CLOCKWISE, VK_POLYGON_MODE_FILL, VK_PRIMITIVE_TOPOLOGY_TRIANGLE_LIST, VK_SHADER_STAGE_FRAGMENT_BIT, VK_SHADER_STAGE_VERTEX_BIT, VkDescriptorSetLayout, VkDescriptorSetLayoutBinding, VkDeviceAddress, VkFormat, VkPipeline, VkPipelineLayout, VkPushConstantRange, VkShaderModule, VkPipelineInputAssemblyStateCreateInfo, VkPipelineRasterizationStateCreateInfo, VkPipelineColorBlendAttachmentState, VkPipelineMultisampleStateCreateInfo, VkPipelineDepthStencilStateCreateInfo, VkPipelineRenderingCreateInfo, VK_FALSE, VK_TRUE, FLOAT_ONE_BITS, VK_SAMPLE_COUNT_1_BIT, VK_LOGIC_OP_COPY, VK_DYNAMIC_STATE_VIEWPORT, VK_DYNAMIC_STATE_SCISSOR};
use crate::renderer::graphics::gpu_descriptors::{DescriptorLayoutBuilder, DescriptorSetLayoutDesc};
use crate::renderer::graphics::gpu_pipeline::{GraphicsPipelineBuilder, GraphicsPipelineDesc, PipelineBuilderState, default_builder_state, depth_state, rgba_mask, shader_stage};
use crate::id::{Id, INVALID_ID_VALUE};
use crate::renderer::graphics::AllocatedBuffer;

verus! {

/// A handle to a material.
#[derive(Debug, Clone, Copy, PartialEq, Eq, Structural)]
pub struct MaterialId(pub Id);

/// A handle to an instance of a material.
#[derive(Debug, Clone, Copy, PartialEq, Eq, Structural)]
pub struct MaterialInstanceId(pub MaterialId, pub Id);

impl MaterialId {
    /// The id that names no material.
    pub fn invalid() -> (r: Self)
        ensures
            r.0.0 == INVALID_ID_VALUE,
    {
        MaterialId(Id::invalid())
    }

    /// The id of the built-in opaque material: index zero, generation zero.
    pub fn opaque() -> (r: Self)
        ensures
            r.0.0 == 0,
    {
        MaterialId(Id(0))
    }
}

impl MaterialInstanceId {
    /// The id that names no material instance.
    pub fn invalid() -> (r: Self)
        ensures
            r.0.0.0 == INVALID_ID_VALUE,
            r.1.0 == INVALID_ID_VALUE,
    {
        MaterialInstanceId(MaterialId::invalid(), Id::invalid())
    }
}

pub const SHADER_BIND_POINT_SCENE: u32 = 0;
pub const SHADER_BIND_POINT_TEXTURES: u32 = 1;
pub const SHADER_BIND_POINT_MAT_INSTANCES: u32 = 2;

/// A part of a material data buffer: the buffer, with its offset moved to
/// where the part starts.
#[derive(Debug, Clone, Copy, PartialEq, Eq, Structural)]
pub struct MaterialDataAllocation {
    pub buffer: AllocatedBuffer,
}

/// A GPU buffer that material data is allocated from, front to back.
pub struct MaterialDataBuffer {
    pub buffer: AllocatedBuffer,
    pub address: VkDeviceAddress,
    pub next_offset: usize,
}

impl MaterialDataBuffer {
    /// An allocator over a created buffer at `address`, with nothing
    /// allocated yet.
    pub fn new(buffer: AllocatedBuffer, address: VkDeviceAddress) -> (r: Self)
        ensures
            r.buffer == buffer,
            r.address == address,
            r.next_offset == 0,
    {
        MaterialDataBuffer { buffer, address, next_offset: 0 }
    }

    /// Forgets the buffer; returns it, for the caller to free on the GPU.
    pub fn destroy(&mut self) -> (r: AllocatedBuffer)
        ensures
            r == old(self).buffer,
            final(self).buffer == old(self).buffer,
            final(self).address == old(self).address,
            final(self).next_offset == old(self).next_offset,
    {
        self.buffer
    }

    /// Takes the next `size` bytes of the buffer.
    pub fn allocate(&mut self, size: usize) -> (r: MaterialDataAllocation)
        requires
            old(self).next_offset + size <= old(self).buffer.size,
            old(self).next_offset + size <= usize::MAX,
            old(self).buffer.offset + old(self).next_offset <= u64::MAX,
        ensures
            r.buffer == (AllocatedBuffer {
                offset: (old(self).buffer.offset + old(self).next_offset) as u64,
                ..old(self).buffer
            }),
            final(self).next_offset == old(self).next_offset + size,
            final(self).buffer == old(self).buffer,
            final(self).address == old(self).address,
    {
        let mut allocation = self.buffer;
        allocation.offset = allocation.offset + self.next_offset as u64;
        self.next_offset = self.next_offset + size;
        MaterialDataAllocation { buffer: allocation }
    }
}

/// The most instances the opaque material is made for.
pub const MAX_OPAQUE_INSTANCES: usize = 1000;

/// The size in bytes of a mesh draw's push constants: two device addresses
/// and the mesh index, padded to eight bytes.
pub const DRAW_PUSH_CONSTANTS_SIZE: u32 = 24;

/// A binding of one descriptor of `descriptor_type` at binding zero, seen by
/// `stage`.
pub open spec fn single_binding(descriptor_type: u32, stage: u32) -> VkDescriptorSetLayoutBinding {
    VkDescriptorSetLayoutBinding { binding: 0, descriptorType: descriptor_type, descriptorCount: 1, stageFlags: stage }
}

/// The descriptor set layouts of the opaque material, without creation
/// flags: the scene's uniform buffer for the vertex stage, then the
/// combined image sampler of the material's texture for the fragment stage.
pub fn opaque_descriptor_layouts() -> (r: (DescriptorSetLayoutDesc, DescriptorSetLayoutDesc))
    ensures
        r.0.bindings@ == seq![single_binding(VK_DESCRIPTOR_TYPE_UNIFORM_BUFFER, VK_SHADER_STAGE_VERTEX_BIT)],
        r.0.flags == 0,
        r.1.bindings@ == seq![single_binding(VK_DESCRIPTOR_TYPE_COMBINED_IMAGE_SAMPLER, VK_SHADER_STAGE_FRAGMENT_BIT)],
        r.1.flags == 0,
{
    assert((0u32 | 0x01u32) == 0x01u32 && (0u32 | 0x10u32) == 0x10u32) by (bit_vector);
    let mut scene = DescriptorLayoutBuilder::new();
    scene.add_binding(0, VK_DESCRIPTOR_TYPE_UNIFORM_BUFFER);
    let scene_layout = scene.build(VK_SHADER_STAGE_VERTEX_BIT, 0);
    let mut texture = DescriptorLayoutBuilder::new();
    texture.add_binding(0, VK_DESCRIPTOR_TYPE_COMBINED_IMAGE_SAMPLER);
    let texture_layout = texture.build(VK_SHADER_STAGE_FRAGMENT_BIT, 0);
    assert(scene_layout.bindings@ =~= seq![single_binding(VK_DESCRIPTOR_TYPE_UNIFORM_BUFFER, VK_SHADER_STAGE_VERTEX_BIT)]);
    assert(texture_layout.bindings@ =~= seq![
        single_binding(VK_DESCRIPTOR_TYPE_COMBINED_IMAGE_SAMPLER, VK_SHADER_STAGE_FRAGMENT_BIT),
    ]);
    (scene_layout, texture_layout)
}

/// The push constant ranges of the opaque material's pipeline layout: the
/// mesh draw's push constants, for the vertex stage.
pub fn opaque_push_constant_ranges() -> (r: Vec<VkPushConstantRange>)
    ensures
        r@ == seq![VkPushConstantRange { stageFlags: VK_SHADER_STAGE_VERTEX_BIT, offset: 0, size: DRAW_PUSH_CONSTANTS_SIZE }],
{
    let ranges = vec![VkPushConstantRange { stageFlags: VK_SHADER_STAGE_VERTEX_BIT, offset: 0, size: DRAW_PUSH_CONSTANTS_SIZE }];
    assert(ranges@ =~= seq![VkPushConstantRange { stageFlags: VK_SHADER_STAGE_VERTEX_BIT, offset: 0, size: DRAW_PUSH_CONSTANTS_SIZE }]);
    ranges
}

/// The builder state of the opaque material's pipeline: its layout and
/// shaders, filled triangle lists with back faces culled and clockwise front
/// faces, one sample, no blending, depth tested with less-or-equal and
/// written, drawn into a half-float color target and the given depth format.
pub open spec fn opaque_pipeline_state(
    layout: VkPipelineLayout,
    vertex: VkShaderModule,
    fragment: VkShaderModule,
    depth_format: VkFormat,
) -> PipelineBuilderState {
    let d = default_builder_state();
    PipelineBuilderState {
        shader_stages: seq![
            shader_stage(VK_SHADER_STAGE_VERTEX_BIT, vertex),
            shader_stage(VK_SHADER_STAGE_FRAGMENT_BIT, fragment),
        ],
        input_assembly: VkPipelineInputAssemblyStateCreateInfo {
            topology: VK_PRIMITIVE_TOPOLOGY_TRIANGLE_LIST,
            primitiveRestartEnable: VK_FALSE,
            ..d.input_assembly
        },
        rasterizer: VkPipelineRasterizationStateCreateInfo {
            polygonMode: VK_POLYGON_MODE_FILL,
            lineWidthBits: FLOAT_ONE_BITS,
            cullMode: VK_CULL_MODE_BACK_BIT,
            frontFace: VK_FRONT_FACE_CLOCKWISE,
            ..d.rasterizer
        },
        color_blend_attachment: VkPipelineColorBlendAttachmentState {
            colorWriteMask: rgba_mask(),
            blendEnable: VK_FALSE,
            ..d.color_blend_attachment
        },
        multisampling: VkPipelineMultisampleStateCreateInfo {
            rasterizationSamples: VK_SAMPLE_COUNT_1_BIT,
            sampleShadingEnable: VK_FALSE,
            minSampleShadingBits: FLOAT_ONE_BITS,
            alphaToCoverageEnable: VK_FALSE,
            alphaToOneEnable: VK_FALSE,
            ..d.multisampling
        },
        pipeline_layout: layout,
        depth_stencil: VkPipelineDepthStencilStateCreateInfo {
            sType: d.depth_stencil.sType,
            flags: d.depth_stencil.flags,
            ..depth_state(VK_TRUE, VK_TRUE, VK_COMPARE_OP_LESS_OR_EQUAL)
        },
        render_info: VkPipelineRenderingCreateInfo {
            colorAttachmentCount: 1,
            depthAttachmentFormat: depth_format,
            ..d.render_info
        },
        color_attachment_format: VK_FORMAT_R16G16B16A16_SFLOAT,
    }
}

/// A pipeline description built from builder state `s`.
pub open spec fn describes(desc: GraphicsPipelineDesc, s: PipelineBuilderState) -> bool {
    &&& desc.shader_stages@ == s.shader_stages
    &&& desc.entry_point@ == "main"@
    &&& desc.input_assembly == s.input_assembly
    &&& desc.rasterizer == s.rasterizer
    &&& desc.color_blend_attachment == s.color_blend_attachment
    &&& desc.multisampling == s.multisampling
    &&& desc.pipeline_layout == s.pipeline_layout
    &&& desc.depth_stencil == s.depth_stencil
    &&& desc.render_info == s.render_info
    &&& desc.color_attachment_format == s.color_attachment_format
    &&& desc.viewport_count == 1
    &&& desc.scissor_count == 1
    &&& desc.logic_op == VK_LOGIC_OP_COPY
    &&& desc.blend_attachment_count == 1
    &&& desc.dynamic_states@ == seq![VK_DYNAMIC_STATE_VIEWPORT, VK_DYNAMIC_STATE_SCISSOR]
}

/// The description of the opaque material's pipeline, for its layout,
/// shaders and the device's depth format.
pub fn opaque_pipeline_desc(
    layout: VkPipelineLayout,
    vertex: VkShaderModule,
    fragment: VkShaderModule,
    depth_format: VkFormat,
) -> (r: GraphicsPipelineDesc)
    ensures
        describes(r, opaque_pipeline_state(layout, vertex, fragment, depth_format)),
{
    let mut builder = GraphicsPipelineBuilder::new();
    builder.set_pipeline_layout(layout);
    builder.set_shaders(vertex, fragment);
    builder.set_input_topology(VK_PRIMITIVE_TOPOLOGY_TRIANGLE_LIST);
    builder.set_polygon_mode(VK_POLYGON_MODE_FILL);
    builder.set_cull_mode(VK_CULL_MODE_BACK_BIT, VK_FRONT_FACE_CLOCKWISE);
    builder.set_multisampling_none();
    builder.disable_blending();
    builder.enable_depth_test(true, VK_COMPARE_OP_LESS_OR_EQUAL);
    builder.set_color_attachment_format(VK_FORMAT_R16G16B16A16_SFLOAT);
    builder.set_depth_format(depth_format);
    assert(builder@ == opaque_pipeline_state(layout, vertex, fragment, depth_format));
    builder.build()
}

/// The opaque material: its pipeline and layouts, and its per-frame
/// instance buffers.
pub struct OpaqueMaterial {
    pub pipeline: VkPipeline,
    pub pipeline_layout: VkPipelineLayout,
    pub scene_dl: VkDescriptorSetLayout,
    pub texture_resource_dl: VkDescriptorSetLayout,
    pub gpu_buffer: Vec<AllocatedBuffer>,
}

impl OpaqueMaterial {
    /// The material over a created pipeline, its layout and its two set
    /// layouts. No per-frame instance buffer is made: the list of them
    /// starts empty.
    pub fn on_init(
        pipeline: VkPipeline,
        pipeline_layout: VkPipelineLayout,
        scene_dl: VkDescriptorSetLayout,
        texture_resource_dl: VkDescriptorSetLayout,
    ) -> (r: Self)
        ensures
            r.pipeline == pipeline,
            r.pipeline_layout == pipeline_layout,
            r.scene_dl == scene_dl,
            r.texture_resource_dl == texture_resource_dl,
            r.gpu_buffer@ == Seq::<AllocatedBuffer>::empty(),
    {
        OpaqueMaterial { pipeline, pipeline_layout, scene_dl, texture_resource_dl, gpu_buffer: Vec::new() }
    }

    /// What destroying the material frees on the GPU: its pipeline, its
    /// pipeline layout and its instance buffers. The set layouts stay.
    pub fn on_destroy(&self) -> (r: (VkPipeline, VkPipelineLayout, Vec<AllocatedBuffer>))
        ensures
            r.0 == self.pipeline,
            r.1 == self.pipeline_layout,
            r.2@ == self.gpu_buffer@,
    {
        let mut buffers: Vec<AllocatedBuffer> = Vec::new();
        let mut i: usize = 0;
        while i < self.gpu_buffer.len()
            invariant
                i <= self.gpu_buffer@.len(),
                buffers@ == self.gpu_buffer@.take(i as int),
            decreases self.gpu_buffer@.len() - i,
        {
            buffers.push(self.gpu_buffer[i]);
            assert(buffers@ =~= self.gpu_buffer@.take(i as int + 1));
            i = i + 1;
        }
        assert(self.gpu_buffer@.take(i as int) =~= self.gpu_buffer@);
        (self.pipeline, self.pipeline_layout, buffers)
    }
}

} // verus!
