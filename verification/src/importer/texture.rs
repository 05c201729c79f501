//! Decoding texture files into 8-bit RGBA pixels with the `image` crate.
use vstd::prelude::*;

verus! {

/// The width, height and 8-bit RGBA pixels that the `image` crate decodes
/// from a file's bytes, with the format taken from the file's extension;
/// `None` where the extension names no format it decodes or the bytes do
/// not decode.
pub uninterp spec fn decoded_rgba8(bytes: Seq<u8>, extension: Seq<char>) -> Option<(u32, u32, Seq<u8>)>;

/// `image::ImageFormat::from_extension`, then
/// `image::load_from_memory_with_format`, then `DynamicImage::to_rgba8`:
/// the result is named `decoded_rgba8` of the bytes and the extension.
/// How the pixels follow from the bytes (the decoders themselves) is not
/// stated.
#[verifier::external_body]
fn decode_rgba8(bytes: &Vec<u8>, extension: &str) -> (r: Option<(u32, u32, Vec<u8>)>)
    ensures
        match r {
            Some(t) => decoded_rgba8(bytes@, extension@) == Some((t.0, t.1, t.2@)),
            None => decoded_rgba8(bytes@, extension@) is None,
        },
{
    let format = image::ImageFormat::from_extension(extension)?;
    let decoded = image::load_from_memory_with_format(bytes.as_slice(), format).ok()?;
    let rgba = decoded.to_rgba8();
    Some((rgba.width(), rgba.height(), rgba.into_raw()))
}

/// A decoded texture: its size and its pixels, four bytes (red, green,
/// blue, alpha) each, row by row.
pub struct DecodedTexture {
    pub width: u32,
    pub height: u32,
    pub pixels: Vec<u8>,
}

/// Decodes the bytes of a texture file whose extension names its format;
/// `None` where the format is not one the decoder knows or the bytes do
/// not decode.
pub fn load_texture_file(bytes: &Vec<u8>, extension: &str) -> (r: Option<DecodedTexture>)
    ensures
        match decoded_rgba8(bytes@, extension@) {
            Some((w, h, p)) => r matches Some(t) && t.width == w && t.height == h && t.pixels@ == p,
            None => r is None,
        },
{
    match decode_rgba8(bytes, extension) {
        Some((width, height, pixels)) => Some(DecodedTexture { width, height, pixels }),
        None => None,
    }
}

} // verus!
