//! Textures on the GPU: their formats, and the table that hands out texture
//! ids and keeps each texture's image and sampler.
use vstd::prelude::*;
use crate::renderer::graphics::api::{VK_FORMAT_BC1_RGBA_SRGB_BLOCK, VK_FORMAT_BC1_RGBA_UNORM_BLOCK, VK_FORMAT_R8G8B8A8_SRGB, VK_FORMAT_R8G8B8A8_UNORM, VK_FORMAT_UNDEFINED, VK_IMAGE_LAYOUT_SHADER_READ_ONLY_OPTIMAL, VK_IMAGE_LAYOUT_TRANSFER_DST_OPTIMAL, VK_IMAGE_LAYOUT_UNDEFINED, VkExtent3D, VkFormat, VkSampler};
use crate::id::{Id, IdSystem, INVALID_ID_VALUE, id_index, id_generation, id_compose, is_live_gen, lemma_compose_fields, lemma_decompose, lemma_invalid_index, lemma_stale_is_invalid};
use crate::renderer::graphics::AllocatedImage;
use crate::renderer::graphics::gpu_command_buffer::{CommandBuffer, CommandBufferState, GpuCommand, transition_barrier, buffer_to_image_copy, mipmap_commands};
use crate::renderer::graphics::AllocatedBuffer;

verus! {

/// A handle to a texture of the texture system.
#[derive(Debug, Clone, Copy, PartialEq, Eq, Structural)]
pub struct TextureId(pub Id);

impl TextureId {
    /// The id that names no texture.
    pub fn invalid() -> (r: Self)
        ensures
            r.0.0 == INVALID_ID_VALUE,
    {
        TextureId(Id::invalid())
    }
}

/// The pixel formats a texture can have.
#[derive(Debug, Clone, Copy, PartialEq, Eq, Structural)]
pub enum TextureFormat {
    Unknown,
    R8g8b8a8Unorm,
    R8g8b8a8UnormSrgb,
    R8g8b8a8Bc1,
    R8g8b8a8Bc1Srgb,
}

/// Options of a texture.
#[derive(Debug, Clone, Copy, PartialEq, Eq, Structural)]
pub enum TextureFlags {
    NoFlags,
    MipMapped,
}

/// How a texture is sampled.
#[derive(Debug, Clone, Copy, PartialEq, Eq, Structural)]
pub enum SamplerType {
    Linear,
    Nearest,
}

pub open spec fn vk_format_of(format: TextureFormat) -> VkFormat {
    match format {
        TextureFormat::Unknown => VK_FORMAT_UNDEFINED,
        TextureFormat::R8g8b8a8Unorm => VK_FORMAT_R8G8B8A8_UNORM,
        TextureFormat::R8g8b8a8UnormSrgb => VK_FORMAT_R8G8B8A8_SRGB,
        TextureFormat::R8g8b8a8Bc1 => VK_FORMAT_BC1_RGBA_UNORM_BLOCK,
        TextureFormat::R8g8b8a8Bc1Srgb => VK_FORMAT_BC1_RGBA_SRGB_BLOCK,
    }
}

/// The Vulkan formats textures can be uploaded in.
pub open spec fn is_texture_vk_format(format: VkFormat) -> bool {
    ||| format == VK_FORMAT_R8G8B8A8_UNORM
    ||| format == VK_FORMAT_R8G8B8A8_SRGB
    ||| format == VK_FORMAT_BC1_RGBA_UNORM_BLOCK
    ||| format == VK_FORMAT_BC1_RGBA_SRGB_BLOCK
}

/// The Vulkan format of a texture format.
pub fn texture_format_to_vkformat(format: TextureFormat) -> (r: VkFormat)
    ensures
        r == vk_format_of(format),
{
    match format {
        TextureFormat::Unknown => VK_FORMAT_UNDEFINED,
        TextureFormat::R8g8b8a8Unorm => VK_FORMAT_R8G8B8A8_UNORM,
        TextureFormat::R8g8b8a8UnormSrgb => VK_FORMAT_R8G8B8A8_SRGB,
        TextureFormat::R8g8b8a8Bc1 => VK_FORMAT_BC1_RGBA_UNORM_BLOCK,
        TextureFormat::R8g8b8a8Bc1Srgb => VK_FORMAT_BC1_RGBA_SRGB_BLOCK,
    }
}

/// The bytes one pixel of a texture format takes in an upload.
pub fn get_bytes_per_pixel(format: VkFormat) -> (r: u32)
    requires
        is_texture_vk_format(format),
    ensures
        r == 4,
{
    4
}

/// What a texture is made from: its name, format, options, sampler, size and
/// pixels.
pub struct TextureCreateInfo {
    pub name: String,
    pub format: TextureFormat,
    pub flags: TextureFlags,
    pub sampler: SamplerType,
    pub width: u32,
    pub height: u32,
    pub depth: u32,
    pub pixels: Vec<u8>,
}

/// The number of bytes uploaded for a texture of this size and format.
pub open spec fn texture_data_size(info: TextureCreateInfo) -> int {
    info.width * info.height * info.depth * 4
}

impl TextureCreateInfo {
    /// The number of bytes uploaded for the texture.
    pub fn data_size(&self) -> (r: u32)
        requires
            is_texture_vk_format(vk_format_of(self.format)),
            self.width * self.height <= u32::MAX,
            self.width * self.height * self.depth <= u32::MAX,
            texture_data_size(*self) <= u32::MAX,
        ensures
            r == texture_data_size(*self),
    {
        let format = texture_format_to_vkformat(self.format);
        let bytes_per_pixel = get_bytes_per_pixel(format);
        self.width * self.height * self.depth * bytes_per_pixel
    }

    /// Whether the texture gets a full chain of mip levels.
    pub fn is_mipmapped(&self) -> (r: bool)
        ensures
            r == (self.flags == TextureFlags::MipMapped),
    {
        match self.flags {
            TextureFlags::MipMapped => true,
            TextureFlags::NoFlags => false,
        }
    }
}


/// Records the upload of a texture: the image is made ready for the copy,
/// filled from the upload buffer, then either given its mip chain or made
/// ready for sampling.
pub fn record_texture_upload(
    command_buffer: &mut CommandBuffer,
    upload_buffer: &AllocatedBuffer,
    texture: &AllocatedImage,
    extent: VkExtent3D,
    mipmapped: bool,
    mip_count: u32,
)
    requires
        old(command_buffer).state == CommandBufferState::Open,
    ensures
        final(command_buffer).state == CommandBufferState::Open,
        final(command_buffer).handle == old(command_buffer).handle,
        final(command_buffer).calls@ == old(command_buffer).calls@ + seq![
            GpuCommand::PipelineBarrier {
                info: transition_barrier(texture.image, VK_IMAGE_LAYOUT_UNDEFINED, VK_IMAGE_LAYOUT_TRANSFER_DST_OPTIMAL),
            },
            buffer_to_image_copy(upload_buffer.buffer, texture.image, extent),
        ] + (if mipmapped {
            mipmap_commands(*texture, mip_count)
        } else {
            seq![
                GpuCommand::PipelineBarrier {
                    info: transition_barrier(
                        texture.image,
                        VK_IMAGE_LAYOUT_TRANSFER_DST_OPTIMAL,
                        VK_IMAGE_LAYOUT_SHADER_READ_ONLY_OPTIMAL,
                    ),
                },
            ]
        }),
{
    let ghost start = command_buffer.calls@;
    command_buffer.transition_image(texture.image, VK_IMAGE_LAYOUT_UNDEFINED, VK_IMAGE_LAYOUT_TRANSFER_DST_OPTIMAL);
    command_buffer.copy_buffer_to_image(upload_buffer, texture, extent);
    let ghost mid = command_buffer.calls@;
    if mipmapped {
        command_buffer.generate_mipmaps(texture, mip_count);
    } else {
        command_buffer.transition_image(texture.image, VK_IMAGE_LAYOUT_TRANSFER_DST_OPTIMAL, VK_IMAGE_LAYOUT_SHADER_READ_ONLY_OPTIMAL);
    }
    assert(command_buffer.calls@ =~= start + seq![
        GpuCommand::PipelineBarrier {
            info: transition_barrier(texture.image, VK_IMAGE_LAYOUT_UNDEFINED, VK_IMAGE_LAYOUT_TRANSFER_DST_OPTIMAL),
        },
        buffer_to_image_copy(upload_buffer.buffer, texture.image, extent),
    ] + (if mipmapped {
        mipmap_commands(*texture, mip_count)
    } else {
        seq![
            GpuCommand::PipelineBarrier {
                info: transition_barrier(
                    texture.image,
                    VK_IMAGE_LAYOUT_TRANSFER_DST_OPTIMAL,
                    VK_IMAGE_LAYOUT_SHADER_READ_ONLY_OPTIMAL,
                ),
            },
        ]
    }));
}

/// A texture on the GPU: its image and the sampler it is read with.
#[derive(Debug, Clone, Copy, PartialEq, Eq, Structural)]
pub struct Texture2D {
    pub image: AllocatedImage,
    pub sampler: VkSampler,
}

/// What the texture table knows of a slot: the id last stored in it and the
/// number of references to it.
#[derive(Debug, Clone, Copy, PartialEq, Eq, Structural)]
pub struct TextureMetadata {
    pub ref_count: u32,
    pub id: TextureId,
}

/// The number of textures the texture system can hold.
pub const MAX_TEXTURES: usize = 100;

/// Whether slot `i` of a generation table holds a live id.
pub open spec fn slot_live(gens: Seq<u16>, i: int) -> bool {
    0 <= i < gens.len() && is_live_gen(gens[i])
}

/// The images of the live slots below `n`, in slot order.
pub open spec fn live_images(gens: Seq<u16>, textures: Seq<Texture2D>, n: nat) -> Seq<AllocatedImage>
    decreases n,
{
    if n == 0 {
        Seq::empty()
    } else {
        let prev = live_images(gens, textures, (n - 1) as nat);
        if slot_live(gens, n - 1) {
            prev.push(textures[n - 1].image)
        } else {
            prev
        }
    }
}

/// The textures of the renderer, each in the slot of its id.
pub struct TextureSystem {
    metadata: Vec<TextureMetadata>,
    textures: Vec<Texture2D>,
    id_gen: IdSystem,
    default_sampler_linear: VkSampler,
    default_sampler_nearest: VkSampler,
}

impl TextureSystem {
    /// The table is as large as its id space; each slot remembers the id
    /// stored in it (or the invalid id), and every live slot holds its live id
    /// with one reference.
    pub closed spec fn wf(&self) -> bool {
        &&& self.metadata@.len() == MAX_TEXTURES
        &&& self.textures@.len() == MAX_TEXTURES
        &&& self.id_gen.wf()
        &&& self.id_gen.capacity() == MAX_TEXTURES
        &&& forall|i: int|
            0 <= i < MAX_TEXTURES ==> (id_index((#[trigger] self.metadata@[i]).id.0.0) == i
                || self.metadata@[i].id.0.0 == INVALID_ID_VALUE)
        &&& forall|i: int|
            #[trigger] slot_live(self.id_gen.gens(), i) ==> {
                &&& self.metadata@[i].id.0.0 == id_compose(i as u64, self.id_gen.gens()[i])
                &&& self.metadata@[i].ref_count == 1
            }
    }

    /// The texture an id names, where it is valid.
    pub closed spec fn texture_of(&self, id: TextureId) -> Option<Texture2D> {
        if self.id_gen.spec_is_id_valid(id.0) {
            Some(self.textures@[id_index(id.0.0) as int])
        } else {
            None
        }
    }

    /// Whether `id` named a texture that has since been destroyed: its slot
    /// has moved on to a later generation.
    pub closed spec fn is_retired(&self, id: TextureId) -> bool {
        self.id_gen.is_stale(id.0)
    }

    /// Whether creating a texture would fail for want of a free slot.
    pub closed spec fn is_full(&self) -> bool {
        self.id_gen.is_full()
    }

    /// The samplers textures are read with, linear and nearest.
    pub closed spec fn samplers(&self) -> (VkSampler, VkSampler) {
        (self.default_sampler_linear, self.default_sampler_nearest)
    }

    /// The images of all live textures, in slot order.
    pub closed spec fn live_texture_images(&self) -> Seq<AllocatedImage> {
        live_images(self.id_gen.gens(), self.textures@, MAX_TEXTURES as nat)
    }

    /// An empty texture system that samples with the given samplers.
    pub fn new(linear_sampler: VkSampler, nearest_sampler: VkSampler) -> (r: Self)
        ensures
            r.wf(),
            forall|id: TextureId| r.texture_of(id) is None,
            forall|id: TextureId| !r.is_retired(id),
            r.samplers() == (linear_sampler, nearest_sampler),
    {
        let empty_meta = TextureMetadata { ref_count: 0, id: TextureId::invalid() };
        let empty_texture = Texture2D { image: AllocatedImage::empty(), sampler: 0 };
        let mut metadata: Vec<TextureMetadata> = Vec::new();
        let mut textures: Vec<Texture2D> = Vec::new();
        let mut i: usize = 0;
        while i < MAX_TEXTURES
            invariant
                i <= MAX_TEXTURES,
                metadata@.len() == i,
                textures@.len() == i,
                empty_meta.id.0.0 == INVALID_ID_VALUE,
                forall|k: int| 0 <= k < i ==> (#[trigger] metadata@[k]).id.0.0 == INVALID_ID_VALUE,
            decreases MAX_TEXTURES - i,
        {
            metadata.push(empty_meta);
            textures.push(empty_texture);
            i = i + 1;
        }
        TextureSystem {
            metadata,
            textures,
            id_gen: IdSystem::new(MAX_TEXTURES),
            default_sampler_linear: linear_sampler,
            default_sampler_nearest: nearest_sampler,
        }
    }

    /// Makes a new texture read with the sampler of the given type; its image
    /// is set once it is uploaded. Returns the invalid id, changing nothing,
    /// when the table is full.
    pub fn create_texture(&mut self, sampler: SamplerType) -> (r: TextureId)
        requires
            old(self).wf(),
        ensures
            final(self).wf(),
            final(self).samplers() == old(self).samplers(),
            old(self).is_full() ==> r.0.0 == INVALID_ID_VALUE && forall|id: TextureId|
                #[trigger] final(self).texture_of(id) == old(self).texture_of(id),
            !old(self).is_full() ==> {
                &&& old(self).texture_of(r) is None
                &&& final(self).texture_of(r) == Some(Texture2D {
                    image: AllocatedImage::empty_spec(),
                    sampler: match sampler {
                        SamplerType::Linear => old(self).samplers().0,
                        SamplerType::Nearest => old(self).samplers().1,
                    },
                })
                &&& forall|id: TextureId| id != r ==> #[trigger] final(self).texture_of(id) == old(self).texture_of(id)
                &&& forall|id: TextureId| #[trigger] old(self).is_retired(id) ==> id != r
            },
            forall|id: TextureId| #[trigger] old(self).is_retired(id) ==> final(self).is_retired(id),
    {
        proof {
            self.id_gen.lemma_wf_bounds();
            lemma_invalid_index();
        }
        let ghost old_gens = self.id_gen.gens();
        match self.id_gen.alloc_id() {
            Err(_) => {
                TextureId::invalid()
            },
            Ok(id) => {
                let idx = id.get_index();
                proof {
                    self.id_gen.lemma_wf_bounds();
                    lemma_decompose(id.0);
                }
                let chosen = match sampler {
                    SamplerType::Linear => self.default_sampler_linear,
                    SamplerType::Nearest => self.default_sampler_nearest,
                };
                self.metadata.set(idx as usize, TextureMetadata { ref_count: 1, id: TextureId(id) });
                self.textures.set(idx as usize, Texture2D { image: AllocatedImage::empty(), sampler: chosen });
                proof {
                    let gens = self.id_gen.gens();
                    let old_id_gen = old(self).id_gen;
                    assert(!old_id_gen.spec_is_id_valid(id));
                    assert(self.id_gen.spec_is_id_valid(id));
                    assert forall|i: int| #[trigger] slot_live(gens, i) implies {
                        &&& self.metadata@[i].id.0.0 == id_compose(i as u64, gens[i])
                        &&& self.metadata@[i].ref_count == 1
                    } by {
                        if i != idx as int {
                            assert(slot_live(old_gens, i));
                        }
                    }
                    assert forall|other: TextureId| other != TextureId(id) implies #[trigger] self.texture_of(other)
                        == old(self).texture_of(other) by {
                        lemma_decompose(other.0.0);
                        if id_index(other.0.0) == idx {
                            if self.id_gen.spec_is_id_valid(other.0) {
                                assert(other.0.0 == id.0);
                            }
                        }
                    }
                }
                TextureId(id)
            },
        }
    }

    /// Sets the image of a texture once it has been uploaded.
    pub fn set_texture_image(&mut self, id: TextureId, image: AllocatedImage)
        requires
            old(self).wf(),
            old(self).texture_of(id) is Some,
        ensures
            final(self).wf(),
            final(self).samplers() == old(self).samplers(),
            final(self).is_full() == old(self).is_full(),
            final(self).texture_of(id) == Some(Texture2D { image: image, ..old(self).texture_of(id).unwrap() }),
            forall|other: TextureId| other != id ==> #[trigger] final(self).texture_of(other) == old(self).texture_of(other),
            forall|other: TextureId| #[trigger] final(self).is_retired(other) == old(self).is_retired(other),
    {
        proof {
            self.id_gen.lemma_wf_bounds();
        }
        let idx = id.0.get_index() as usize;
        let sampler = self.textures[idx].sampler;
        self.textures.set(idx, Texture2D { image, sampler });
        proof {
            assert forall|other: TextureId| other != id implies #[trigger] self.texture_of(other) == old(self).texture_of(other) by {
                if self.id_gen.spec_is_id_valid(other.0) && id_index(other.0.0) == idx as u64 {
                    lemma_decompose(other.0.0);
                    lemma_decompose(id.0.0);
                }
            }
        }
    }

    /// Destroys a texture that nothing else refers to; returns its image, for
    /// the caller to free on the GPU. Returns `None`, changing nothing, for an
    /// id that names no texture.
    pub fn destroy_texture(&mut self, id: TextureId) -> (r: Option<AllocatedImage>)
        requires
            old(self).wf(),
            old(self).texture_of(id) is Some ==> id_generation(id.0.0) < 0xFFFF,
        ensures
            final(self).wf(),
            final(self).samplers() == old(self).samplers(),
            r == (match old(self).texture_of(id) {
                Some(t) => Some(t.image),
                None => None,
            }),
            final(self).texture_of(id) is None,
            forall|other: TextureId| other != id ==> #[trigger] final(self).texture_of(other) == old(self).texture_of(other),
            old(self).texture_of(id) is Some ==> final(self).is_retired(id),
            forall|other: TextureId| #[trigger] old(self).is_retired(other) ==> final(self).is_retired(other),
    {
        proof {
            self.id_gen.lemma_wf_bounds();
        }
        if self.id_gen.is_id_valid(id.0) && self.metadata[id.0.get_index() as usize].ref_count == 1 {
            let idx = id.0.get_index() as usize;
            let image = self.textures[idx].image;
            let ghost old_gens = self.id_gen.gens();
            self.id_gen.free_id(id.0);
            proof {
                let gens = self.id_gen.gens();
                assert forall|i: int| #[trigger] slot_live(gens, i) implies {
                    &&& self.metadata@[i].id.0.0 == id_compose(i as u64, gens[i])
                    &&& self.metadata@[i].ref_count == 1
                } by {
                    assert(gens[i] == old_gens[i] || i == idx as int);
                    if i != idx as int {
                        assert(slot_live(old_gens, i));
                    }
                }
                assert forall|other: TextureId| other != id implies #[trigger] self.texture_of(other) == old(self).texture_of(other) by {
                    lemma_decompose(other.0.0);
                    lemma_decompose(id.0.0);
                }
            }
            Some(image)
        } else {
            proof {
                if old(self).texture_of(id) is Some {
                    lemma_decompose(id.0.0);
                    assert(slot_live(self.id_gen.gens(), id_index(id.0.0) as int));
                }
            }
            None
        }
    }

    /// The texture an id names, where it is valid.
    pub fn get_texture_data(&self, id: TextureId) -> (r: Option<Texture2D>)
        requires
            self.wf(),
        ensures
            r == self.texture_of(id),
    {
        proof {
            self.id_gen.lemma_wf_bounds();
        }
        if self.id_gen.is_id_valid(id.0) {
            Some(self.textures[id.0.get_index() as usize])
        } else {
            None
        }
    }

    /// The samplers textures are read with, linear then nearest.
    pub fn default_samplers(&self) -> (r: (VkSampler, VkSampler))
        ensures
            r == self.samplers(),
    {
        (self.default_sampler_linear, self.default_sampler_nearest)
    }

    /// Destroys every texture; returns their images, in slot order, for the
    /// caller to free on the GPU together with the samplers.
    pub fn destroy(&mut self) -> (r: Vec<AllocatedImage>)
        requires
            old(self).wf(),
            forall|id: TextureId| #[trigger] old(self).texture_of(id) is Some ==> id_generation(id.0.0) < 0xFFFF,
        ensures
            final(self).wf(),
            final(self).samplers() == old(self).samplers(),
            r@ == old(self).live_texture_images(),
            forall|id: TextureId| #[trigger] final(self).texture_of(id) is None,
            forall|id: TextureId| #[trigger] old(self).texture_of(id) is Some ==> final(self).is_retired(id),
            forall|id: TextureId| #[trigger] old(self).is_retired(id) ==> final(self).is_retired(id),
    {
        proof {
            self.id_gen.lemma_wf_bounds();
        }
        let ghost gens0 = self.id_gen.gens();
        let ghost textures0 = self.textures@;
        let mut images: Vec<AllocatedImage> = Vec::new();
        let mut i: usize = 0;
        while i < MAX_TEXTURES
            invariant
                i <= MAX_TEXTURES,
                self.wf(),
                self.samplers() == old(self).samplers(),
                self.textures@ == textures0,
                self.id_gen.gens().len() == gens0.len(),
                gens0 == old(self).id_gen.gens(),
                textures0 == old(self).textures@,
                forall|id: TextureId| #[trigger] old(self).texture_of(id) is Some ==> id_generation(id.0.0) < 0xFFFF,
                forall|k: int| i <= k < gens0.len() ==> self.id_gen.gens()[k] == #[trigger] gens0[k],
                forall|k: int| 0 <= k < i ==> !#[trigger] slot_live(self.id_gen.gens(), k),
                images@ == live_images(gens0, textures0, i as nat),
                forall|tid: TextureId| #[trigger] old(self).is_retired(tid) ==> self.is_retired(tid),
                forall|tid: TextureId| #[trigger] old(self).texture_of(tid) is Some && id_index(tid.0.0) < i ==> self.is_retired(tid),
            decreases MAX_TEXTURES - i,
        {
            proof {
                self.id_gen.lemma_wf_bounds();
            }
            let id = self.metadata[i].id;
            if self.id_gen.is_id_valid(id.0) {
                proof {
                    lemma_decompose(id.0.0);
                    lemma_invalid_index();
                    assert(id_index(id.0.0) == i as u64);
                    assert(slot_live(gens0, i as int));
                    assert(old(self).texture_of(id) is Some);
                }
                images.push(self.textures[i].image);
                let ghost before = self.id_gen.gens();
                self.id_gen.free_id(id.0);
                proof {
                    let gens = self.id_gen.gens();
                    assert(gens == before.update(i as int, (before[i as int] + 1) as u16));
                    assert(!slot_live(gens, i as int));
                    assert forall|k: int| 0 <= k < gens.len() && k != i as int implies gens[k] == before[k] by {}
                    assert forall|k: int| 0 <= k < i + 1 implies !#[trigger] slot_live(gens, k) by {
                        if k != i as int {
                            assert(!slot_live(before, k));
                        }
                    }
                    assert forall|k: int| #[trigger] slot_live(gens, k) implies {
                        &&& self.metadata@[k].id.0.0 == id_compose(k as u64, gens[k])
                        &&& self.metadata@[k].ref_count == 1
                    } by {
                        assert(k != i as int);
                        assert(slot_live(before, k));
                    }
                }
            } else {
                proof {
                    if slot_live(gens0, i as int) {
                        assert(slot_live(self.id_gen.gens(), i as int));
                        lemma_compose_fields(i as u64, gens0[i as int]);
                    }
                    assert(!slot_live(self.id_gen.gens(), i as int));
                }
            }
            i = i + 1;
        }
        proof {
            assert forall|id: TextureId| #[trigger] self.texture_of(id) is None by {
                if self.id_gen.spec_is_id_valid(id.0) {
                    assert(slot_live(self.id_gen.gens(), id_index(id.0.0) as int));
                }
            }
        }
        images
    }
}

/// A retired texture id names no texture: a handle kept after its texture
/// was destroyed reads nothing, and (by `create_texture`) is never handed
/// out again.
pub proof fn lemma_retired_texture_is_gone(sys: &TextureSystem, id: TextureId)
    requires
        sys.is_retired(id),
    ensures
        sys.texture_of(id) is None,
{
    lemma_stale_is_invalid(&sys.id_gen, id.0);
}

} // verus!
