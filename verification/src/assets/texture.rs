//! Texture assets.
use vstd::prelude::*;
use crate::id::{Id, IdSystem, INVALID_ID_VALUE};
use crate::assets::AssetLoadState;

verus! {

/// A handle to a texture asset.
#[derive(Debug, Clone, Copy, PartialEq, Eq, Structural)]
pub struct TextureId(pub Id);

impl TextureId {
    /// The id that names no texture asset.
    pub fn invalid() -> (r: Self)
        ensures
            r.0.0 == INVALID_ID_VALUE,
    {
        TextureId(Id::invalid())
    }

    /// The generational id behind the handle.
    pub fn as_id(&self) -> (r: Id)
        ensures
            r == self.0,
    {
        self.0
    }

    /// Whether the handle is not the invalid id.
    pub fn is_valid(&self) -> (r: bool)
        ensures
            r == (self.0.0 != INVALID_ID_VALUE),
    {
        self.0.0 != INVALID_ID_VALUE
    }
}

/// What a texture asset is made from.
pub struct TextureCreateInfo {}

/// A texture asset: how far it is loaded.
#[derive(Debug, Clone, Copy, PartialEq, Eq, Structural)]
pub struct TextureData {
    pub state: AssetLoadState,
}

impl Default for TextureData {
    fn default() -> (r: Self)
        ensures
            r.state == AssetLoadState::Unloaded,
    {
        TextureData { state: AssetLoadState::Unloaded }
    }
}

/// The number of texture assets the engine can hold.
pub const MAX_TEXTURES: usize = 1000;

/// The texture assets of the engine and the uploads waiting for the renderer.
pub struct AssetTextureSystem {
    pub textures: Vec<TextureData>,
    pub id_gen: IdSystem,
    pub to_upload_commands: Vec<TextureData>,
    pub command_count: usize,
}

} // verus!
