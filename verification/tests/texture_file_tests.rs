use chibi_engine::importer::texture::load_texture_file;
use std::io::Cursor;

fn png_bytes() -> Vec<u8> {
    let img = image::RgbaImage::from_raw(2, 1, vec![255, 0, 0, 255, 0, 255, 0, 128]).unwrap();
    let mut out = Vec::new();
    img.write_to(&mut Cursor::new(&mut out), image::ImageFormat::Png).unwrap();
    out
}

#[test]
fn png_file_decodes_to_its_pixels() {
    let bytes = png_bytes();
    let t = load_texture_file(&bytes, "png").unwrap();
    assert_eq!((t.width, t.height), (2, 1));
    assert_eq!(t.pixels, vec![255, 0, 0, 255, 0, 255, 0, 128]);
    assert_ne!(t.pixels, bytes);
    // the extension is read without regard to case
    assert!(load_texture_file(&bytes, "PNG").is_some());
}

#[test]
fn grey_png_is_expanded_to_rgba() {
    let img = image::GrayImage::from_raw(1, 2, vec![10, 200]).unwrap();
    let mut bytes = Vec::new();
    img.write_to(&mut Cursor::new(&mut bytes), image::ImageFormat::Png).unwrap();
    let t = load_texture_file(&bytes, "png").unwrap();
    assert_eq!((t.width, t.height), (1, 2));
    assert_eq!(t.pixels, vec![10, 10, 10, 255, 200, 200, 200, 255]);
}

#[test]
fn unknown_extension_or_bad_bytes_give_none() {
    let bytes = png_bytes();
    assert!(load_texture_file(&bytes, "txt").is_none());
    assert!(load_texture_file(&bytes, "").is_none());
    assert!(load_texture_file(&vec![1, 2, 3, 4], "png").is_none());
    assert!(load_texture_file(&bytes, "jpg").is_none());
}
