//! Mesh assets.
use vstd::prelude::*;
use crate::id::{Id, INVALID_ID_VALUE};
use crate::assets::AssetLoadState;
use crate::assets::material::MaterialId;

verus! {

/// A handle to a mesh asset.
#[derive(Debug, Clone, Copy, PartialEq, Eq, Structural)]
pub struct MeshId(pub Id);

impl MeshId {
    /// The id that names no mesh asset.
    pub fn invalid() -> (r: Self)
        ensures
            r.0.0 == INVALID_ID_VALUE,
    {
        MeshId(Id::invalid())
    }

    /// The generational id behind the handle.
    pub fn as_id(&self) -> (r: Id)
        ensures
            r == self.0,
    {
        self.0
    }
}

/// What a mesh asset is made from.
pub struct MeshCreateInfo {}

/// A mesh asset: its name, how far it is loaded, and its material.
pub struct MeshData {
    pub name: String,
    pub state: AssetLoadState,
    pub material: MaterialId,
}

/// The mesh assets of the engine.
pub struct AssetMeshSystem {}

} // verus!
