//! The engine's assets: their kinds, load states and handles.
pub mod material;
pub mod mesh;
pub mod texture;

use vstd::prelude::*;
use crate::assets::mesh::{MeshId, MeshCreateInfo};

verus! {

/// How far an asset has been loaded.
#[derive(Debug, Clone, Copy, PartialEq, Eq, Structural)]
pub enum AssetLoadState {
    Unloaded,
    Loading,
    Done,
}

/// A handle to a loaded asset.
#[derive(Debug, Clone, Copy, PartialEq, Eq, Structural)]
pub enum AssetId {
    Mesh(MeshId),
    Texture,
    Material,
    Rml,
}

/// The kinds of asset.
#[derive(Debug, Clone, Copy, PartialEq, Eq, Structural)]
pub enum AssetType {
    Mesh,
    Material,
    Texture,
    Rml,
}

/// What an asset of each kind is made from.
pub enum AssetCreateInfo {
    Mesh(MeshCreateInfo),
    Material,
    Texture,
    Rml,
}

/// Where the engine's and the game's assets are kept.
pub struct AssetSystem {
    pub engine_path: String,
    pub game_path: String,
}

} // verus!
