//! A builder for graphics pipelines rendered with dynamic rendering.
use vstd::prelude::*;
use crate::renderer::graphics::api::{FLOAT_ONE_BITS, VK_BLEND_FACTOR_ONE, VK_BLEND_FACTOR_ONE_MINUS_SRC_ALPHA, VK_BLEND_FACTOR_SRC_ALPHA, VK_BLEND_FACTOR_ZERO, VK_BLEND_OP_ADD, VK_COLOR_COMPONENT_A_BIT, VK_COLOR_COMPONENT_B_BIT, VK_COLOR_COMPONENT_G_BIT, VK_COLOR_COMPONENT_R_BIT, VK_COMPARE_OP_NEVER, VK_DYNAMIC_STATE_SCISSOR, VK_DYNAMIC_STATE_VIEWPORT, VK_FALSE, VK_LOGIC_OP_COPY, VK_SAMPLE_COUNT_1_BIT, VK_SHADER_STAGE_FRAGMENT_BIT, VK_SHADER_STAGE_VERTEX_BIT, VK_STRUCTURE_TYPE_PIPELINE_SHADER_STAGE_CREATE_INFO, VK_TRUE, VkFormat, VkPipelineColorBlendAttachmentState, VkPipelineDepthStencilStateCreateInfo, VkPipelineInputAssemblyStateCreateInfo, VkPipelineLayout, VkPipelineMultisampleStateCreateInfo, VkPipelineRasterizationStateCreateInfo, VkPipelineRenderingCreateInfo, VkPipelineShaderStageCreateInfo, VkShaderModule, VkStencilOpState};

verus! {

/// What a graphics pipeline builder holds.
pub ghost struct PipelineBuilderState {
    pub shader_stages: Seq<VkPipelineShaderStageCreateInfo>,
    pub input_assembly: VkPipelineInputAssemblyStateCreateInfo,
    pub rasterizer: VkPipelineRasterizationStateCreateInfo,
    pub color_blend_attachment: VkPipelineColorBlendAttachmentState,
    pub multisampling: VkPipelineMultisampleStateCreateInfo,
    pub pipeline_layout: VkPipelineLayout,
    pub depth_stencil: VkPipelineDepthStencilStateCreateInfo,
    pub render_info: VkPipelineRenderingCreateInfo,
    pub color_attachment_format: VkFormat,
}

pub open spec fn zero_stencil_op() -> VkStencilOpState {
    VkStencilOpState { failOp: 0, passOp: 0, depthFailOp: 0, compareOp: 0, compareMask: 0, writeMask: 0, reference: 0 }
}

/// The state of a fresh builder: no stages, a null layout, every other field zero.
pub open spec fn default_builder_state() -> PipelineBuilderState {
    PipelineBuilderState {
        shader_stages: Seq::empty(),
        input_assembly: VkPipelineInputAssemblyStateCreateInfo { sType: 0, flags: 0, topology: 0, primitiveRestartEnable: 0 },
        rasterizer: VkPipelineRasterizationStateCreateInfo {
            sType: 0,
            flags: 0,
            depthClampEnable: 0,
            rasterizerDiscardEnable: 0,
            polygonMode: 0,
            cullMode: 0,
            frontFace: 0,
            depthBiasEnable: 0,
            lineWidthBits: 0,
        },
        color_blend_attachment: VkPipelineColorBlendAttachmentState {
            blendEnable: 0,
            srcColorBlendFactor: 0,
            dstColorBlendFactor: 0,
            colorBlendOp: 0,
            srcAlphaBlendFactor: 0,
            dstAlphaBlendFactor: 0,
            alphaBlendOp: 0,
            colorWriteMask: 0,
        },
        multisampling: VkPipelineMultisampleStateCreateInfo {
            sType: 0,
            flags: 0,
            rasterizationSamples: 0,
            sampleShadingEnable: 0,
            minSampleShadingBits: 0,
            alphaToCoverageEnable: 0,
            alphaToOneEnable: 0,
        },
        pipeline_layout: 0,
        depth_stencil: VkPipelineDepthStencilStateCreateInfo {
            sType: 0,
            flags: 0,
            depthTestEnable: 0,
            depthWriteEnable: 0,
            depthCompareOp: 0,
            depthBoundsTestEnable: 0,
            stencilTestEnable: 0,
            front: zero_stencil_op(),
            back: zero_stencil_op(),
            minDepthBoundsBits: 0,
            maxDepthBoundsBits: 0,
        },
        render_info: VkPipelineRenderingCreateInfo {
            sType: 0,
            viewMask: 0,
            colorAttachmentCount: 0,
            depthAttachmentFormat: 0,
            stencilAttachmentFormat: 0,
        },
        color_attachment_format: 0,
    }
}

/// The stage info of `module` for `stage`, entry point unset.
pub open spec fn shader_stage(stage: u32, module: VkShaderModule) -> VkPipelineShaderStageCreateInfo {
    VkPipelineShaderStageCreateInfo {
        sType: VK_STRUCTURE_TYPE_PIPELINE_SHADER_STAGE_CREATE_INFO,
        flags: 0,
        stage: stage,
        module: module,
    }
}

/// All four color channels.
pub open spec fn rgba_mask() -> u32 {
    VK_COLOR_COMPONENT_R_BIT | VK_COLOR_COMPONENT_G_BIT | VK_COLOR_COMPONENT_B_BIT | VK_COLOR_COMPONENT_A_BIT
}

/// Depth-test state with the given test, write and compare settings, no depth
/// bounds or stencil test, and depth bounds [0, 1].
pub open spec fn depth_state(test: u32, write: u32, op: u32) -> VkPipelineDepthStencilStateCreateInfo {
    VkPipelineDepthStencilStateCreateInfo {
        sType: 0,
        flags: 0,
        depthTestEnable: test,
        depthWriteEnable: write,
        depthCompareOp: op,
        depthBoundsTestEnable: VK_FALSE,
        stencilTestEnable: VK_FALSE,
        front: zero_stencil_op(),
        back: zero_stencil_op(),
        minDepthBoundsBits: 0,
        maxDepthBoundsBits: FLOAT_ONE_BITS,
    }
}

/// Blending with the given color factors, one-zero alpha factors, additive ops.
pub open spec fn blend_state(dst_color: u32) -> VkPipelineColorBlendAttachmentState {
    VkPipelineColorBlendAttachmentState {
        blendEnable: VK_TRUE,
        srcColorBlendFactor: VK_BLEND_FACTOR_SRC_ALPHA,
        dstColorBlendFactor: dst_color,
        colorBlendOp: VK_BLEND_OP_ADD,
        srcAlphaBlendFactor: VK_BLEND_FACTOR_ONE,
        dstAlphaBlendFactor: VK_BLEND_FACTOR_ZERO,
        alphaBlendOp: VK_BLEND_OP_ADD,
        colorWriteMask: rgba_mask(),
    }
}

/// Everything a graphics pipeline is created from: the builder's state, one
/// viewport and one scissor, one blended attachment with logic op copy, the
/// entry point "main" for every stage, and viewport and scissor as dynamic state.
pub struct GraphicsPipelineDesc {
    pub shader_stages: Vec<VkPipelineShaderStageCreateInfo>,
    pub entry_point: String,
    pub input_assembly: VkPipelineInputAssemblyStateCreateInfo,
    pub rasterizer: VkPipelineRasterizationStateCreateInfo,
    pub color_blend_attachment: VkPipelineColorBlendAttachmentState,
    pub multisampling: VkPipelineMultisampleStateCreateInfo,
    pub pipeline_layout: VkPipelineLayout,
    pub depth_stencil: VkPipelineDepthStencilStateCreateInfo,
    pub render_info: VkPipelineRenderingCreateInfo,
    pub color_attachment_format: VkFormat,
    pub viewport_count: u32,
    pub scissor_count: u32,
    pub logic_op: u32,
    pub blend_attachment_count: u32,
    pub dynamic_states: Vec<u32>,
}

/// Collects the fixed-function state of a graphics pipeline.
pub struct GraphicsPipelineBuilder {
    shader_stages: Vec<VkPipelineShaderStageCreateInfo>,
    input_assembly: VkPipelineInputAssemblyStateCreateInfo,
    rasterizer: VkPipelineRasterizationStateCreateInfo,
    color_blend_attachment: VkPipelineColorBlendAttachmentState,
    multisampling: VkPipelineMultisampleStateCreateInfo,
    pipeline_layout: VkPipelineLayout,
    depth_stencil: VkPipelineDepthStencilStateCreateInfo,
    render_info: VkPipelineRenderingCreateInfo,
    color_attachment_format: VkFormat,
}

impl View for GraphicsPipelineBuilder {
    type V = PipelineBuilderState;

    closed spec fn view(&self) -> PipelineBuilderState {
        PipelineBuilderState {
            shader_stages: self.shader_stages@,
            input_assembly: self.input_assembly,
            rasterizer: self.rasterizer,
            color_blend_attachment: self.color_blend_attachment,
            multisampling: self.multisampling,
            pipeline_layout: self.pipeline_layout,
            depth_stencil: self.depth_stencil,
            render_info: self.render_info,
            color_attachment_format: self.color_attachment_format,
        }
    }
}

impl Default for GraphicsPipelineBuilder {
    fn default() -> (r: Self)
        ensures
            r@ == default_builder_state(),
    {
        let stencil = VkStencilOpState { failOp: 0, passOp: 0, depthFailOp: 0, compareOp: 0, compareMask: 0, writeMask: 0, reference: 0 };
        GraphicsPipelineBuilder {
            shader_stages: Vec::new(),
            input_assembly: VkPipelineInputAssemblyStateCreateInfo { sType: 0, flags: 0, topology: 0, primitiveRestartEnable: 0 },
            rasterizer: VkPipelineRasterizationStateCreateInfo {
                sType: 0,
                flags: 0,
                depthClampEnable: 0,
                rasterizerDiscardEnable: 0,
                polygonMode: 0,
                cullMode: 0,
                frontFace: 0,
                depthBiasEnable: 0,
                lineWidthBits: 0,
            },
            color_blend_attachment: VkPipelineColorBlendAttachmentState {
                blendEnable: 0,
                srcColorBlendFactor: 0,
                dstColorBlendFactor: 0,
                colorBlendOp: 0,
                srcAlphaBlendFactor: 0,
                dstAlphaBlendFactor: 0,
                alphaBlendOp: 0,
                colorWriteMask: 0,
            },
            multisampling: VkPipelineMultisampleStateCreateInfo {
                sType: 0,
                flags: 0,
                rasterizationSamples: 0,
                sampleShadingEnable: 0,
                minSampleShadingBits: 0,
                alphaToCoverageEnable: 0,
                alphaToOneEnable: 0,
            },
            pipeline_layout: 0,
            depth_stencil: VkPipelineDepthStencilStateCreateInfo {
                sType: 0,
                flags: 0,
                depthTestEnable: 0,
                depthWriteEnable: 0,
                depthCompareOp: 0,
                depthBoundsTestEnable: 0,
                stencilTestEnable: 0,
                front: stencil,
                back: stencil,
                minDepthBoundsBits: 0,
                maxDepthBoundsBits: 0,
            },
            render_info: VkPipelineRenderingCreateInfo {
                sType: 0,
                viewMask: 0,
                colorAttachmentCount: 0,
                depthAttachmentFormat: 0,
                stencilAttachmentFormat: 0,
            },
            color_attachment_format: 0,
        }
    }
}

impl GraphicsPipelineBuilder {
    /// A builder with no shader stages and every state zeroed.
    pub fn new() -> (r: Self)
        ensures
            r@ == default_builder_state(),
    {
        GraphicsPipelineBuilder::default()
    }

    /// Resets the builder to its fresh state.
    pub fn clear(&mut self)
        ensures
            final(self)@ == default_builder_state(),
    {
        *self = GraphicsPipelineBuilder::default();
    }

    /// The description the pipeline is created from; every stage gets the entry point "main".
    pub fn build(&self) -> (r: GraphicsPipelineDesc)
        ensures
            r.shader_stages@ == self@.shader_stages,
            r.entry_point@ == "main"@,
            r.input_assembly == self@.input_assembly,
            r.rasterizer == self@.rasterizer,
            r.color_blend_attachment == self@.color_blend_attachment,
            r.multisampling == self@.multisampling,
            r.pipeline_layout == self@.pipeline_layout,
            r.depth_stencil == self@.depth_stencil,
            r.render_info == self@.render_info,
            r.color_attachment_format == self@.color_attachment_format,
            r.viewport_count == 1,
            r.scissor_count == 1,
            r.logic_op == VK_LOGIC_OP_COPY,
            r.blend_attachment_count == 1,
            r.dynamic_states@ == seq![VK_DYNAMIC_STATE_VIEWPORT, VK_DYNAMIC_STATE_SCISSOR],
    {
        let mut stages: Vec<VkPipelineShaderStageCreateInfo> = Vec::new();
        let mut k: usize = 0;
        while k < self.shader_stages.len()
            invariant
                k <= self.shader_stages@.len(),
                stages@ == self.shader_stages@.subrange(0, k as int),
            decreases self.shader_stages@.len() - k,
        {
            stages.push(self.shader_stages[k]);
            k = k + 1;
            assert(stages@ =~= self.shader_stages@.subrange(0, k as int));
        }
        assert(stages@ =~= self.shader_stages@);
        let dynamic_states = vec![VK_DYNAMIC_STATE_VIEWPORT, VK_DYNAMIC_STATE_SCISSOR];
        proof {
            reveal_strlit("main");
        }
        GraphicsPipelineDesc {
            shader_stages: stages,
            entry_point: String::from_str("main"),
            input_assembly: self.input_assembly,
            rasterizer: self.rasterizer,
            color_blend_attachment: self.color_blend_attachment,
            multisampling: self.multisampling,
            pipeline_layout: self.pipeline_layout,
            depth_stencil: self.depth_stencil,
            render_info: self.render_info,
            color_attachment_format: self.color_attachment_format,
            viewport_count: 1,
            scissor_count: 1,
            logic_op: VK_LOGIC_OP_COPY,
            blend_attachment_count: 1,
            dynamic_states,
        }
    }

    /// Sets the pipeline layout.
    pub fn set_pipeline_layout(&mut self, layout: VkPipelineLayout) -> (r: &mut Self)
        ensures
            r@ == (PipelineBuilderState { pipeline_layout: layout, ..old(self)@ }),
            *final(self) == *final(r),
    {
        self.pipeline_layout = layout;
        self
    }

    /// Replaces the shader stages with a vertex stage and a fragment stage.
    pub fn set_shaders(&mut self, vertex: VkShaderModule, fragment: VkShaderModule) -> (r: &mut Self)
        ensures
            r@ == (PipelineBuilderState {
                shader_stages: seq![
                    shader_stage(VK_SHADER_STAGE_VERTEX_BIT, vertex),
                    shader_stage(VK_SHADER_STAGE_FRAGMENT_BIT, fragment),
                ],
                ..old(self)@
            }),
            *final(self) == *final(r),
    {
        self.shader_stages.clear();
        let vertex_stage_info = VkPipelineShaderStageCreateInfo {
            sType: VK_STRUCTURE_TYPE_PIPELINE_SHADER_STAGE_CREATE_INFO,
            flags: 0,
            stage: VK_SHADER_STAGE_VERTEX_BIT,
            module: vertex,
        };
        let fragment_stage_info = VkPipelineShaderStageCreateInfo {
            sType: VK_STRUCTURE_TYPE_PIPELINE_SHADER_STAGE_CREATE_INFO,
            flags: 0,
            stage: VK_SHADER_STAGE_FRAGMENT_BIT,
            module: fragment,
        };
        self.shader_stages.push(vertex_stage_info);
        self.shader_stages.push(fragment_stage_info);
        assert(self.shader_stages@ =~= seq![
            shader_stage(VK_SHADER_STAGE_VERTEX_BIT, vertex),
            shader_stage(VK_SHADER_STAGE_FRAGMENT_BIT, fragment),
        ]);
        self
    }

    /// Sets the primitive topology, without primitive restart.
    pub fn set_input_topology(&mut self, topology: u32) -> (r: &mut Self)
        ensures
            r@ == (PipelineBuilderState {
                input_assembly: VkPipelineInputAssemblyStateCreateInfo {
                    topology: topology,
                    primitiveRestartEnable: VK_FALSE,
                    ..old(self)@.input_assembly
                },
                ..old(self)@
            }),
            *final(self) == *final(r),
    {
        self.input_assembly.topology = topology;
        self.input_assembly.primitiveRestartEnable = VK_FALSE;
        self
    }

    /// Sets the polygon mode, with line width 1.
    pub fn set_polygon_mode(&mut self, mode: u32) -> (r: &mut Self)
        ensures
            r@ == (PipelineBuilderState {
                rasterizer: VkPipelineRasterizationStateCreateInfo {
                    polygonMode: mode,
                    lineWidthBits: FLOAT_ONE_BITS,
                    ..old(self)@.rasterizer
                },
                ..old(self)@
            }),
            *final(self) == *final(r),
    {
        self.rasterizer.polygonMode = mode;
        self.rasterizer.lineWidthBits = FLOAT_ONE_BITS;
        self
    }

    /// Sets the cull mode and the front-face winding.
    pub fn set_cull_mode(&mut self, cull_mode: u32, front_face: u32) -> (r: &mut Self)
        ensures
            r@ == (PipelineBuilderState {
                rasterizer: VkPipelineRasterizationStateCreateInfo {
                    cullMode: cull_mode,
                    frontFace: front_face,
                    ..old(self)@.rasterizer
                },
                ..old(self)@
            }),
            *final(self) == *final(r),
    {
        self.rasterizer.cullMode = cull_mode;
        self.rasterizer.frontFace = front_face;
        self
    }

    /// One sample per pixel, no sample shading, no alpha-to-coverage or alpha-to-one.
    pub fn set_multisampling_none(&mut self) -> (r: &mut Self)
        ensures
            r@ == (PipelineBuilderState {
                multisampling: VkPipelineMultisampleStateCreateInfo {
                    rasterizationSamples: VK_SAMPLE_COUNT_1_BIT,
                    sampleShadingEnable: VK_FALSE,
                    minSampleShadingBits: FLOAT_ONE_BITS,
                    alphaToCoverageEnable: VK_FALSE,
                    alphaToOneEnable: VK_FALSE,
                    ..old(self)@.multisampling
                },
                ..old(self)@
            }),
            *final(self) == *final(r),
    {
        self.multisampling.sampleShadingEnable = VK_FALSE;
        self.multisampling.rasterizationSamples = VK_SAMPLE_COUNT_1_BIT;
        self.multisampling.minSampleShadingBits = FLOAT_ONE_BITS;
        self.multisampling.alphaToCoverageEnable = VK_FALSE;
        self.multisampling.alphaToOneEnable = VK_FALSE;
        self
    }

    /// Writes all four channels without blending.
    pub fn disable_blending(&mut self) -> (r: &mut Self)
        ensures
            r@ == (PipelineBuilderState {
                color_blend_attachment: VkPipelineColorBlendAttachmentState {
                    colorWriteMask: rgba_mask(),
                    blendEnable: VK_FALSE,
                    ..old(self)@.color_blend_attachment
                },
                ..old(self)@
            }),
            *final(self) == *final(r),
    {
        self.color_blend_attachment.colorWriteMask =
            VK_COLOR_COMPONENT_R_BIT | VK_COLOR_COMPONENT_G_BIT | VK_COLOR_COMPONENT_B_BIT | VK_COLOR_COMPONENT_A_BIT;
        self.color_blend_attachment.blendEnable = VK_FALSE;
        self
    }

    /// Additive blending: `src.rgb * src.a + dst.rgb`.
    pub fn enabled_blending_additive(&mut self) -> (r: &mut Self)
        ensures
            r@ == (PipelineBuilderState { color_blend_attachment: blend_state(VK_BLEND_FACTOR_ONE), ..old(self)@ }),
            *final(self) == *final(r),
    {
        self.color_blend_attachment.colorWriteMask =
            VK_COLOR_COMPONENT_R_BIT | VK_COLOR_COMPONENT_G_BIT | VK_COLOR_COMPONENT_B_BIT | VK_COLOR_COMPONENT_A_BIT;
        self.color_blend_attachment.blendEnable = VK_TRUE;
        self.color_blend_attachment.srcColorBlendFactor = VK_BLEND_FACTOR_SRC_ALPHA;
        self.color_blend_attachment.dstColorBlendFactor = VK_BLEND_FACTOR_ONE;
        self.color_blend_attachment.colorBlendOp = VK_BLEND_OP_ADD;
        self.color_blend_attachment.srcAlphaBlendFactor = VK_BLEND_FACTOR_ONE;
        self.color_blend_attachment.dstAlphaBlendFactor = VK_BLEND_FACTOR_ZERO;
        self.color_blend_attachment.alphaBlendOp = VK_BLEND_OP_ADD;
        self
    }

    /// Alpha blending: `src.rgb * src.a + dst.rgb * (1 - src.a)`.
    pub fn enabled_blending_alphablend(&mut self) -> (r: &mut Self)
        ensures
            r@ == (PipelineBuilderState { color_blend_attachment: blend_state(VK_BLEND_FACTOR_ONE_MINUS_SRC_ALPHA), ..old(self)@ }),
            *final(self) == *final(r),
    {
        self.color_blend_attachment.colorWriteMask =
            VK_COLOR_COMPONENT_R_BIT | VK_COLOR_COMPONENT_G_BIT | VK_COLOR_COMPONENT_B_BIT | VK_COLOR_COMPONENT_A_BIT;
        self.color_blend_attachment.blendEnable = VK_TRUE;
        self.color_blend_attachment.srcColorBlendFactor = VK_BLEND_FACTOR_SRC_ALPHA;
        self.color_blend_attachment.dstColorBlendFactor = VK_BLEND_FACTOR_ONE_MINUS_SRC_ALPHA;
        self.color_blend_attachment.colorBlendOp = VK_BLEND_OP_ADD;
        self.color_blend_attachment.srcAlphaBlendFactor = VK_BLEND_FACTOR_ONE;
        self.color_blend_attachment.dstAlphaBlendFactor = VK_BLEND_FACTOR_ZERO;
        self.color_blend_attachment.alphaBlendOp = VK_BLEND_OP_ADD;
        self
    }

    /// Sets the format of the single color attachment.
    pub fn set_color_attachment_format(&mut self, format: VkFormat) -> (r: &mut Self)
        ensures
            r@ == (PipelineBuilderState {
                color_attachment_format: format,
                render_info: VkPipelineRenderingCreateInfo { colorAttachmentCount: 1, ..old(self)@.render_info },
                ..old(self)@
            }),
            *final(self) == *final(r),
    {
        self.color_attachment_format = format;
        self.render_info.colorAttachmentCount = 1;
        self
    }

    /// Sets the depth attachment format.
    pub fn set_depth_format(&mut self, format: VkFormat) -> (r: &mut Self)
        ensures
            r@ == (PipelineBuilderState {
                render_info: VkPipelineRenderingCreateInfo { depthAttachmentFormat: format, ..old(self)@.render_info },
                ..old(self)@
            }),
            *final(self) == *final(r),
    {
        self.render_info.depthAttachmentFormat = format;
        self
    }

    /// No depth test or write; compare op never.
    pub fn disable_depth_test(&mut self) -> (r: &mut Self)
        ensures
            r@ == (PipelineBuilderState {
                depth_stencil: VkPipelineDepthStencilStateCreateInfo {
                    sType: old(self)@.depth_stencil.sType,
                    flags: old(self)@.depth_stencil.flags,
                    ..depth_state(VK_FALSE, VK_FALSE, VK_COMPARE_OP_NEVER)
                },
                ..old(self)@
            }),
            *final(self) == *final(r),
    {
        let stencil = VkStencilOpState { failOp: 0, passOp: 0, depthFailOp: 0, compareOp: 0, compareMask: 0, writeMask: 0, reference: 0 };
        self.depth_stencil.depthTestEnable = VK_FALSE;
        self.depth_stencil.depthWriteEnable = VK_FALSE;
        self.depth_stencil.depthCompareOp = VK_COMPARE_OP_NEVER;
        self.depth_stencil.depthBoundsTestEnable = VK_FALSE;
        self.depth_stencil.stencilTestEnable = VK_FALSE;
        self.depth_stencil.front = stencil;
        self.depth_stencil.back = stencil;
        self.depth_stencil.minDepthBoundsBits = 0;
        self.depth_stencil.maxDepthBoundsBits = FLOAT_ONE_BITS;
        self
    }

    /// Depth test with `op`, writing depth when `depth_write_enabled`.
    pub fn enable_depth_test(&mut self, depth_write_enabled: bool, op: u32) -> (r: &mut Self)
        ensures
            r@ == (PipelineBuilderState {
                depth_stencil: VkPipelineDepthStencilStateCreateInfo {
                    sType: old(self)@.depth_stencil.sType,
                    flags: old(self)@.depth_stencil.flags,
                    ..depth_state(VK_TRUE, if depth_write_enabled { VK_TRUE } else { VK_FALSE }, op)
                },
                ..old(self)@
            }),
            *final(self) == *final(r),
    {
        let stencil = VkStencilOpState { failOp: 0, passOp: 0, depthFailOp: 0, compareOp: 0, compareMask: 0, writeMask: 0, reference: 0 };
        self.depth_stencil.depthTestEnable = VK_TRUE;
        self.depth_stencil.depthWriteEnable = if depth_write_enabled { VK_TRUE } else { VK_FALSE };
        self.depth_stencil.depthCompareOp = op;
        self.depth_stencil.depthBoundsTestEnable = VK_FALSE;
        self.depth_stencil.stencilTestEnable = VK_FALSE;
        self.depth_stencil.front = stencil;
        self.depth_stencil.back = stencil;
        self.depth_stencil.minDepthBoundsBits = 0;
        self.depth_stencil.maxDepthBoundsBits = FLOAT_ONE_BITS;
        self
    }
}

} // verus!
