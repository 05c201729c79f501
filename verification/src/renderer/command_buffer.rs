//! What the engine and the renderer tell each other about renderables.
use vstd::prelude::*;
use crate::renderer::mesh::MeshId;
use crate::renderer::texture::{TextureId, TextureFormat, TextureFlags, SamplerType};
use crate::renderer::material::{MaterialId, MaterialInstanceId};

verus! {

/// A handle to something the renderer holds.
#[derive(Debug, Clone, Copy, PartialEq, Eq, Structural)]
pub enum RenderId {
    /// Unknown id: an error state.
    Unknown,
    /// No renderable: a valid, empty state.
    Empty,
    Mesh(MeshId),
    Texture2d(TextureId),
    Material(MaterialId),
    MaterialInstance(MaterialInstanceId),
}

/// The renderer's answer that a renderable the engine asked for is ready:
/// the engine's id for it and the renderer's.
#[derive(Debug, Clone, Copy, PartialEq, Eq, Structural)]
pub struct ReadyRenderableInfo {
    pub engine_id: u64,
    pub render_mesh_id: RenderId,
}

/// A texture the engine asks the renderer to create, with the engine's id
/// for it.
pub struct TextureInfo {
    pub name: String,
    pub format: TextureFormat,
    pub flags: TextureFlags,
    pub sampler: SamplerType,
    pub width: u32,
    pub height: u32,
    pub depth: u32,
    pub pixels: Vec<u8>,
    pub engine_id: u64,
}

impl ReadyRenderableInfo {
    /// The answer for a mesh the renderer has uploaded.
    pub fn ready_mesh(engine_id: u64, mesh: MeshId) -> (r: Self)
        ensures
            r == (ReadyRenderableInfo { engine_id: engine_id, render_mesh_id: RenderId::Mesh(mesh) }),
    {
        ReadyRenderableInfo { engine_id, render_mesh_id: RenderId::Mesh(mesh) }
    }

    /// The answer for a texture the renderer has uploaded.
    pub fn ready_texture(engine_id: u64, texture: TextureId) -> (r: Self)
        ensures
            r == (ReadyRenderableInfo { engine_id: engine_id, render_mesh_id: RenderId::Texture2d(texture) }),
    {
        ReadyRenderableInfo { engine_id, render_mesh_id: RenderId::Texture2d(texture) }
    }
}

} // verus!
