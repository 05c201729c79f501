#![allow(non_upper_case_globals)]
#![allow(non_camel_case_types)]
#![allow(non_snake_case)]

pub mod id;
pub mod renderer;
pub mod assets;
pub mod engine_core;
pub mod window;
pub mod util;
pub mod importer;

use vstd::prelude::*;

verus! {

pub const ENGINE_VERSION_MAJOR: u32 = 0;
pub const ENGINE_VERSION_MINOR: u32 = 0;
pub const ENGINE_VERSION_PATCH: u32 = 1;

/// The engine's version, packed as `make_app_version` packs one.
pub const ENGINE_VERSION: u32 = ENGINE_VERSION_MAJOR << 24u32 | ENGINE_VERSION_MINOR << 16u32 | ENGINE_VERSION_PATCH << 8u32;

/// Packs a version: the major number in the top byte, then the minor
/// number, then the patch number; bits shifted past the top are dropped.
pub fn make_app_version(major: u32, minor: u32, patch: u32) -> (r: u32)
    ensures
        r == major << 24u32 | minor << 16u32 | patch << 8u32,
        major < 256 && minor < 256 && patch < 256 ==> r == major * 0x100_0000 + minor * 0x1_0000 + patch * 0x100,
{
    let r = major << 24u32 | minor << 16u32 | patch << 8u32;
    assert(major < 256 && minor < 256 && patch < 256 ==> (major << 24u32 | minor << 16u32 | patch << 8u32) == major * 0x100_0000 + minor * 0x1_0000 + patch * 0x100) by (bit_vector);
    r
}

/// A packed version gives back its parts when each fits in a byte.
pub proof fn lemma_app_version_fields(major: u32, minor: u32, patch: u32)
    requires
        major < 256,
        minor < 256,
        patch < 256,
    ensures
        (major << 24u32 | minor << 16u32 | patch << 8u32) >> 24u32 == major,
        ((major << 24u32 | minor << 16u32 | patch << 8u32) >> 16u32) & 0xffu32 == minor,
        ((major << 24u32 | minor << 16u32 | patch << 8u32) >> 8u32) & 0xffu32 == patch,
        (major << 24u32 | minor << 16u32 | patch << 8u32) & 0xffu32 == 0,
{
    assert((major << 24u32 | minor << 16u32 | patch << 8u32) >> 24u32 == major) by (bit_vector)
        requires
            major < 256,
            minor < 256,
            patch < 256,
    ;
    assert(((major << 24u32 | minor << 16u32 | patch << 8u32) >> 16u32) & 0xffu32 == minor) by (bit_vector)
        requires
            major < 256,
            minor < 256,
            patch < 256,
    ;
    assert(((major << 24u32 | minor << 16u32 | patch << 8u32) >> 8u32) & 0xffu32 == patch) by (bit_vector)
        requires
            major < 256,
            minor < 256,
            patch < 256,
    ;
    assert((major << 24u32 | minor << 16u32 | patch << 8u32) & 0xffu32 == 0) by (bit_vector);
}

} // verus!
