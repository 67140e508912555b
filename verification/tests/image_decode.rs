use std::io::Cursor;

use flat_engine::node::Node2D;
use flat_engine::node::SizedNode2D;
use flat_engine::render::Sprite;
use flat_engine::render::Texture;
use flat_engine::render::TextureError;
use flat_engine::scalar::Scalar;

/// Encodes raw RGBA8 pixels as an in-memory PNG.
fn png_bytes(width: u32, height: u32, rgba: Vec<u8>) -> Vec<u8> {
    let buffer: image::ImageBuffer<image::Rgba<u8>, Vec<u8>> =
        image::ImageBuffer::from_raw(width, height, rgba).unwrap();
    let img = image::DynamicImage::ImageRgba8(buffer);
    let mut encoded: Vec<u8> = Vec::new();
    img.write_to(&mut Cursor::new(&mut encoded), image::ImageFormat::Png).unwrap();
    encoded
}

#[test]
fn load_from_image_decodes_png_exactly() {
    let rgba: Vec<u8> = vec![
        255, 0, 0, 255, 0, 255, 0, 255, 0, 0, 255, 255, 10, 20, 30, 40,
    ];
    let encoded = png_bytes(2, 2, rgba.clone());
    // The encoded stream differs from the raw pixels; decoding gives the
    // pixels back.
    assert_ne!(encoded, rgba);
    let texture = Texture::load_from_image(&encoded).unwrap();
    assert_eq!(texture.dimensions.x, 2);
    assert_eq!(texture.dimensions.y, 2);
    assert_eq!(texture.data, rgba);
}

#[test]
fn load_from_image_rejects_undecodable_bytes() {
    let result = Texture::load_from_image(b"not an image at all");
    assert!(matches!(result, Err(TextureError::Decode(_))));
}

#[test]
fn load_from_image_rejects_empty_input() {
    let result = Texture::load_from_image(&[]);
    assert!(matches!(result, Err(TextureError::Decode(_))));
}

#[test]
fn sprite_from_image_bytes_takes_native_size() {
    let rgba: Vec<u8> = vec![200u8; 4 * 3 * 2];
    let encoded = png_bytes(3, 2, rgba);
    let sprite = Sprite::from_image_bytes(&encoded).unwrap();
    assert_eq!(sprite.texture.dimensions.x, 3);
    assert_eq!(sprite.texture.dimensions.y, 2);
    assert!(!sprite.has_loaded);
    // Sized to the native pixel dimensions, so the scale is one.
    let size = sprite.get_size();
    assert!(size.x.equals(&Scalar { num: 3, den: 1 }));
    assert!(size.y.equals(&Scalar { num: 2, den: 1 }));
    let scale = sprite.get_scale();
    assert!(scale.x.equals(&Scalar { num: 1, den: 1 }));
    assert!(scale.y.equals(&Scalar { num: 1, den: 1 }));
}

#[test]
fn sprite_from_image_bytes_rejects_garbage() {
    let result = Sprite::from_image_bytes(&[1, 2, 3]);
    assert!(matches!(result, Err(TextureError::Decode(_))));
}
