//! Material assets.
use vstd::prelude::*;
use crate::id::{Id, INVALID_ID_VALUE};
use crate::assets::AssetLoadState;
use crate::assets::texture::TextureId;

verus! {

/// A handle to a material asset.
#[derive(Debug, Clone, Copy, PartialEq, Eq, Structural)]
pub struct MaterialId(pub Id);

impl MaterialId {
    /// The id that names no material asset.
    pub fn invalid() -> (r: Self)
        ensures
            r.0.0 == INVALID_ID_VALUE,
    {
        MaterialId(Id::invalid())
    }

    /// The generational id behind the handle.
    pub fn as_id(&self) -> (r: Id)
        ensures
            r == self.0,
    {
        self.0
    }
}

/// What a material asset is made from.
pub struct MaterialCreateInfo {}

/// A material asset: its name, how far it is loaded, its ambient map and its
/// ambient color (the bits of three single-precision components).
pub struct MaterialData {
    pub name: String,
    pub state: AssetLoadState,
    pub ambient_map: TextureId,
    pub ambient_color: [u32; 3],
}

/// The material assets of the engine.
pub struct AssetMaterialSystem {}

} // verus!
