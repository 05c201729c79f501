use chibi_engine::id::INVALID_ID_VALUE;
use chibi_engine::renderer::buffer::StructuredBuffer;
use chibi_engine::renderer::graphics::api::VkExtent3D;
use chibi_engine::renderer::graphics::gpu_descriptors::{
    DescriptorAllocator, DescriptorAllocatorGrowable, PoolRequest, PoolSizeRatio, MAX_SETS_PER_POOL,
};
use chibi_engine::renderer::graphics::{AllocatedBuffer, AllocatedImage};
use chibi_engine::renderer::material::{
    opaque_descriptor_layouts, opaque_pipeline_desc, opaque_push_constant_ranges, MaterialInstanceId, OpaqueMaterial,
};
use chibi_engine::renderer::graphics::gpu_device::Device;
use chibi_engine::renderer::system::{depth_image_info, scene_image_info};
use chibi_engine::renderer::mesh::{mesh_buffer_sizes, GpuMeshBuffers, MatrixBits, MeshId, MeshSystem};
use chibi_engine::renderer::texture::{SamplerType, TextureId, TextureSystem, MAX_TEXTURES};

fn buffer(handle: u64, size: u64) -> AllocatedBuffer {
    AllocatedBuffer { buffer: handle, allocation: handle + 1000, size, offset: 0 }
}

fn image(handle: u64) -> AllocatedImage {
    AllocatedImage {
        image: handle,
        view: handle + 1,
        memory: handle + 2,
        dims: VkExtent3D { width: 4, height: 4, depth: 1 },
        format: 37,
    }
}

#[test]
fn texture_create_set_get_destroy() {
    let mut textures = TextureSystem::new(11, 22);
    let linear = textures.create_texture(SamplerType::Linear);
    let nearest = textures.create_texture(SamplerType::Nearest);
    assert_ne!(linear, nearest);
    let before = textures.get_texture_data(linear).unwrap();
    assert_eq!(before.image, AllocatedImage::empty());
    assert_eq!(before.sampler, 11);
    assert_eq!(textures.get_texture_data(nearest).unwrap().sampler, 22);

    textures.set_texture_image(linear, image(500));
    assert_eq!(textures.get_texture_data(linear).unwrap().image, image(500));
    assert_eq!(textures.get_texture_data(nearest).unwrap().image, AllocatedImage::empty());

    assert_eq!(textures.destroy_texture(linear), Some(image(500)));
    assert_eq!(textures.get_texture_data(linear), None);
    // destroying twice hands nothing back
    assert_eq!(textures.destroy_texture(linear), None);
    assert!(textures.get_texture_data(nearest).is_some());
}

#[test]
fn texture_table_full_gives_invalid_id() {
    let mut textures = TextureSystem::new(1, 2);
    let mut ids = Vec::new();
    // the id table keeps one index of its capacity unused
    for _ in 0..MAX_TEXTURES - 1 {
        let id = textures.create_texture(SamplerType::Linear);
        assert_ne!(id.0 .0, INVALID_ID_VALUE);
        ids.push(id);
    }
    let refused = textures.create_texture(SamplerType::Linear);
    assert_eq!(refused.0 .0, INVALID_ID_VALUE);
    assert_eq!(textures.get_texture_data(TextureId::invalid()), None);
    assert_eq!(textures.default_samplers(), (1, 2));
}

#[test]
fn texture_destroy_all_returns_live_images_in_slot_order() {
    let mut textures = TextureSystem::new(1, 2);
    let a = textures.create_texture(SamplerType::Linear);
    let b = textures.create_texture(SamplerType::Linear);
    let c = textures.create_texture(SamplerType::Nearest);
    textures.set_texture_image(a, image(100));
    textures.set_texture_image(b, image(200));
    textures.set_texture_image(c, image(300));
    textures.destroy_texture(b);
    let images = textures.destroy();
    assert_eq!(images, vec![image(100), image(300)]);
    assert_eq!(textures.get_texture_data(a), None);
    assert_eq!(textures.get_texture_data(c), None);
}

fn mesh(handle: u64, index_count: u32) -> GpuMeshBuffers {
    GpuMeshBuffers {
        material: MaterialInstanceId::invalid(),
        index_buffer: buffer(handle, 4 * index_count as u64),
        vertex_buffer: buffer(handle + 1, 48),
        vertex_buffer_address: 0x1000 * handle,
        index_count,
        transform: MatrixBits { m: [0u32; 16] },
    }
}

#[test]
fn mesh_buffer_sizes_are_vertex_and_index_bytes() {
    assert_eq!(mesh_buffer_sizes(3, 6), (144, 24));
    assert_eq!(mesh_buffer_sizes(0, 0), (0, 0));
}

#[test]
fn mesh_system_draw_list_uses_frame_region() {
    let data = StructuredBuffer::new(buffer(9, 64 * 500 * 3), 0x10_0000, 500, 3, 64);
    let mut meshes = MeshSystem::new(data);
    let first = meshes.create_mesh();
    let second = meshes.create_mesh();
    assert_ne!(first, second);
    meshes.store_mesh(first, mesh(1, 3));
    meshes.store_mesh(second, mesh(2, 6));
    let live = meshes.collect_live_meshes();
    assert_eq!(live, vec![mesh(1, 3), mesh(2, 6)]);

    let draws = meshes.build_draw_list(2, &live);
    assert_eq!(draws.len(), 2);
    let frame_address = 0x10_0000 + 500 * 2 * 64;
    assert_eq!(draws[0].push_constant.mesh_data_buffer, frame_address);
    assert_eq!(draws[1].push_constant.mesh_data_buffer, frame_address);
    assert_eq!(draws[0].push_constant.mesh_index, 0);
    assert_eq!(draws[1].push_constant.mesh_index, 1);
    assert_eq!(draws[1].push_constant.vertex_buffer, 0x2000);
    assert_eq!(draws[1].index_count, 6);
    assert_eq!(draws[0].index_buffer, buffer(1, 12));

    // no mesh ever has an owner counted, so none is destroyed
    assert_eq!(meshes.destroy_mesh(first), None);
    assert_eq!(meshes.destroy_mesh(MeshId::invalid()), None);
}

#[test]
fn mesh_system_destroy_returns_buffers_then_uniform_buffer() {
    let data = StructuredBuffer::new(buffer(9, 64), 0x10_0000, 500, 3, 64);
    let mut meshes = MeshSystem::new(data);
    let first = meshes.create_mesh();
    meshes.store_mesh(first, mesh(1, 3));
    let freed = meshes.destroy();
    assert_eq!(*freed.last().unwrap(), buffer(9, 64));
    assert!(freed.contains(&buffer(1, 12)));
    assert!(freed.contains(&buffer(2, 48)));
}

#[test]
fn structured_buffer_frames() {
    assert_eq!(StructuredBuffer::required_size(500, 3, 64), 96000);
    let mut b = StructuredBuffer::new(buffer(1, 96000), 0x1000, 500, 3, 64);
    assert_eq!(b.map_frame(1), 500);
    assert_eq!(b.get_device_address(), 0x1000 + 500 * 64);
    assert_eq!(b.write_next(), 0);
    assert_eq!(b.write_next(), 1);
    assert_eq!(b.write(1), 501);
    b.unmap_frame();
    assert!(!b.mapped);
    assert_eq!(b.destroy(), buffer(1, 96000));
    assert_eq!(b.capacity, 0);
}

fn ratios() -> Vec<PoolSizeRatio> {
    vec![PoolSizeRatio { descriptor_type: 1, ratio_bits: 0x4040_0000 }]
}

#[test]
fn descriptor_growable_grows_by_half() {
    let first = DescriptorAllocator { pool: 7 };
    let mut alloc = DescriptorAllocatorGrowable::new(&ratios(), 1000, first);
    assert_eq!(alloc.sets_per_pool(), 1500);
    assert_eq!(*alloc.ratios(), ratios());
    assert_eq!(alloc.get_pool(), PoolRequest::Ready(first));
    assert_eq!(alloc.get_pool(), PoolRequest::Create(1500));
    assert_eq!(alloc.sets_per_pool(), 2250);
    assert_eq!(alloc.get_pool(), PoolRequest::Create(2250));
    assert_eq!(alloc.sets_per_pool(), 3375);
}

#[test]
fn descriptor_growable_caps_pool_size() {
    let alloc = DescriptorAllocatorGrowable::new(&ratios(), 2728, DescriptorAllocator { pool: 1 });
    assert_eq!(alloc.sets_per_pool(), MAX_SETS_PER_POOL);
    let alloc = DescriptorAllocatorGrowable::new(&ratios(), 2727, DescriptorAllocator { pool: 1 });
    assert_eq!(alloc.sets_per_pool(), 4090);
}

#[test]
fn descriptor_growable_clear_makes_all_ready() {
    let mut alloc = DescriptorAllocatorGrowable::new(&ratios(), 10, DescriptorAllocator { pool: 1 });
    let taken = alloc.get_pool();
    assert_eq!(taken, PoolRequest::Ready(DescriptorAllocator { pool: 1 }));
    alloc.mark_full(DescriptorAllocator { pool: 1 });
    alloc.mark_ready(DescriptorAllocator { pool: 2 });
    let cleared = alloc.clear_pools();
    assert_eq!(cleared, vec![DescriptorAllocator { pool: 2 }, DescriptorAllocator { pool: 1 }]);
    assert_eq!(alloc.get_pool(), PoolRequest::Ready(DescriptorAllocator { pool: 1 }));
    assert_eq!(alloc.get_pool(), PoolRequest::Ready(DescriptorAllocator { pool: 2 }));
    alloc.mark_ready(DescriptorAllocator { pool: 2 });
    assert_eq!(alloc.destroy(), vec![DescriptorAllocator { pool: 2 }]);
    assert_eq!(alloc.get_pool(), PoolRequest::Create(15));
}

#[test]
fn opaque_material_layouts_and_push_constants() {
    let (scene, texture) = opaque_descriptor_layouts();
    assert_eq!(scene.bindings.len(), 1);
    assert_eq!(scene.bindings[0].descriptorType, 6);
    assert_eq!(scene.bindings[0].stageFlags, 0x01);
    assert_eq!(texture.bindings[0].descriptorType, 1);
    assert_eq!(texture.bindings[0].stageFlags, 0x10);
    assert_eq!(texture.bindings[0].descriptorCount, 1);
    let ranges = opaque_push_constant_ranges();
    assert_eq!(ranges.len(), 1);
    assert_eq!((ranges[0].stageFlags, ranges[0].offset, ranges[0].size), (0x01, 0, 24));

    let material = OpaqueMaterial::on_init(1, 2, 3, 4);
    assert!(material.gpu_buffer.is_empty());
    let (pipeline, layout, buffers) = material.on_destroy();
    assert_eq!((pipeline, layout), (1, 2));
    assert!(buffers.is_empty());
}

#[test]
fn opaque_material_pipeline() {
    let desc = opaque_pipeline_desc(9, 10, 11, 126);
    assert_eq!(desc.pipeline_layout, 9);
    assert_eq!(desc.shader_stages.len(), 2);
    assert_eq!((desc.shader_stages[0].stage, desc.shader_stages[0].module), (0x01, 10));
    assert_eq!((desc.shader_stages[1].stage, desc.shader_stages[1].module), (0x10, 11));
    assert_eq!(desc.input_assembly.topology, 3);
    assert_eq!((desc.rasterizer.cullMode, desc.rasterizer.frontFace, desc.rasterizer.polygonMode), (2, 1, 0));
    assert_eq!(desc.color_blend_attachment.blendEnable, 0);
    assert_eq!(desc.color_blend_attachment.colorWriteMask, 0xf);
    assert_eq!((desc.depth_stencil.depthTestEnable, desc.depth_stencil.depthWriteEnable), (1, 1));
    assert_eq!(desc.depth_stencil.depthCompareOp, 3);
    assert_eq!(desc.color_attachment_format, 97);
    assert_eq!(desc.render_info.depthAttachmentFormat, 126);
    assert_eq!(desc.render_info.colorAttachmentCount, 1);
    assert_eq!(desc.entry_point, "main");
}

#[test]
fn image_allocation_infos() {
    let extent = VkExtent3D { width: 1024, height: 300, depth: 1 };
    let info = Device::image_allocation_info(extent, 37, 0x6, 11);
    assert_eq!((info.mipLevels, info.format, info.usage, info.extent), (11, 37, 0x6, extent));
    assert_eq!(Device::image_allocation_info(extent, 37, 0x6, 1).mipLevels, 1);
    let view = Device::image_view_info(126, 77, 4);
    assert_eq!(view.subresourceRange.aspectMask, 0x2);
    assert_eq!(view.subresourceRange.levelCount, 4);
    assert_eq!(view.image, 77);
    assert_eq!(Device::image_view_info(37, 77, 1).subresourceRange.aspectMask, 0x1);
    let scene = scene_image_info(extent);
    assert_eq!((scene.format, scene.usage, scene.mipLevels), (97, 0x1b, 1));
    let depth = depth_image_info(extent, 126);
    assert_eq!((depth.format, depth.usage), (126, 0x20));
}

#[test]
fn destroyed_texture_id_is_never_handed_out_again() {
    let mut textures = TextureSystem::new(1, 2);
    let mut ids = Vec::new();
    for _ in 0..MAX_TEXTURES - 1 {
        ids.push(textures.create_texture(SamplerType::Linear));
    }
    let old = ids[5];
    textures.set_texture_image(old, image(5));
    assert_eq!(textures.destroy_texture(old), Some(image(5)));
    let reused = textures.create_texture(SamplerType::Nearest);
    assert_ne!(reused.0 .0, INVALID_ID_VALUE);
    assert_ne!(reused, old);
    assert_eq!(reused.0.get_index(), old.0.get_index());
    assert_eq!(textures.get_texture_data(old), None);
    assert_eq!(textures.get_texture_data(reused).unwrap().sampler, 2);
}
