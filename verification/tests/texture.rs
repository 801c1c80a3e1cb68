//! Pictures of the editor, decoded and multiplied with their alpha.

use the_tweed::load_texture_from_bytes;
use the_tweed::texture::{texture_by, texture_of, Picture, TextureError};

/// A PNG of two pixels: an opaque one and one that is half transparent.
const TWO_PIXELS: [u8; 74] = [
    0x89, 0x50, 0x4e, 0x47, 0x0d, 0x0a, 0x1a, 0x0a, 0x00, 0x00, 0x00, 0x0d, 0x49, 0x48,
    0x44, 0x52, 0x00, 0x00, 0x00, 0x02, 0x00, 0x00, 0x00, 0x01, 0x08, 0x06, 0x00, 0x00,
    0x00, 0xf4, 0x22, 0x7f, 0x8a, 0x00, 0x00, 0x00, 0x11, 0x49, 0x44, 0x41, 0x54, 0x78,
    0x9c, 0x63, 0xf8, 0xcf, 0xc0, 0xf5, 0x3f, 0xe5, 0x84, 0x51, 0x03, 0x00, 0x12, 0x04,
    0x03, 0xe7, 0xa0, 0x0d, 0x55, 0x6c, 0x00, 0x00, 0x00, 0x00, 0x49, 0x45, 0x4e, 0x44,
    0xae, 0x42, 0x60, 0x82,
];

#[test]
fn png_becomes_a_texture() {
    let texture = load_texture_from_bytes(&TWO_PIXELS).unwrap();
    assert_eq!((texture.width, texture.height), (2, 1));
    assert_eq!(texture.texels, vec![[255, 0, 10, 255], [50, 100, 25, 128]]);
}

#[test]
fn bytes_that_are_no_image_give_no_texture() {
    for bytes in [&b""[..], &b"no image at all"[..], &TWO_PIXELS[..20]] {
        assert!(matches!(load_texture_from_bytes(bytes), Err(TextureError::Undecodable)));
    }
}

#[test]
fn pixels_have_to_fill_the_frame() {
    for (width, height, len) in [(2, 2, 12), (2, 2, 20), (1, 1, 0), (0, 5, 4), (u32::MAX, u32::MAX, 4)] {
        let picture = Picture { width, height, rgba: vec![9; len] };
        assert!(matches!(texture_of(Ok(picture)), Err(TextureError::FrameMismatch)));
    }
}

#[test]
fn empty_frame_is_a_texture() {
    let texture = texture_of(Ok(Picture { width: 0, height: 7, rgba: vec![] })).unwrap();
    assert_eq!((texture.width, texture.height, texture.texels.len()), (0, 7, 0));
}

#[test]
fn opaque_and_clear_pixels_keep_their_alpha() {
    let rgba = vec![1, 2, 3, 255, 200, 100, 50, 0, 255, 255, 255, 51, 0, 0, 0, 1];
    let texture = texture_of(Ok(Picture { width: 2, height: 2, rgba })).unwrap();
    assert_eq!(
        texture.texels,
        vec![[1, 2, 3, 255], [0, 0, 0, 0], [51, 51, 51, 51], [0, 0, 0, 1]]
    );
}

#[test]
fn colours_are_rounded_to_the_nearest() {
    let mut rgba = Vec::new();
    for alpha in 0..=255_u8 {
        for colour in 0..=255_u8 {
            rgba.extend_from_slice(&[colour, 255 - colour, 0, alpha]);
        }
    }
    let picture = Picture { width: 256, height: 256, rgba: rgba.clone() };
    let texture = texture_of(Ok(picture)).unwrap();
    let scaled = |colour: u8, alpha: u8| {
        ((2 * u32::from(colour) * u32::from(alpha) + 255) / 510) as u8
    };
    for (texel, p) in texture.texels.iter().zip(rgba.chunks_exact(4)) {
        assert_eq!(*texel, [scaled(p[0], p[3]), scaled(p[1], p[3]), 0, p[3]]);
    }
}

#[test]
fn decoder_gets_the_bytes() {
    let texture = texture_by(&[7, 8, 9, 255], |bytes: &[u8]| {
        Ok(Picture { width: 1, height: 1, rgba: bytes.to_vec() })
    })
    .unwrap();
    assert_eq!(texture.texels, vec![[7, 8, 9, 255]]);
}
