//! Pictures of the editor: from the bytes of an image file to texels.

use egui::ColorImage;
use vstd::prelude::*;

verus! {

/// Why the bytes of an image file gave no texture.
#[derive(Debug, Clone, Copy, PartialEq, Eq, Structural)]
pub enum TextureError {
    /// They are no image.
    Undecodable,
    /// They are an image whose pixels do not fill its frame.
    FrameMismatch,
}

/// An image of straight pixels: four bytes each, red, green, blue and alpha,
/// row by row from the top.
#[derive(Debug)]
pub struct Picture {
    pub width: u32,
    pub height: u32,
    pub rgba: Vec<u8>,
}

/// An image of texels whose colours are multiplied with their alpha.
#[derive(Debug)]
pub struct Texture {
    pub width: usize,
    pub height: usize,
    pub texels: Vec<[u8; 4]>,
}

/// `image::ImageError`: why `image::load_from_memory` decoded nothing. It is
/// carried through and never looked into.
#[verifier::external_type_specification]
#[verifier::external_body]
pub struct ExImageError(image::ImageError);

/// A colour times an alpha, both out of 255, rounded to the nearest.
pub open spec fn scaled(colour: u8, alpha: u8) -> int {
    (2 * colour * alpha + 255) / 510
}

/// The texels are the straight pixels with their colours multiplied with their
/// alpha, one for each, in the same order.
pub open spec fn is_premultiplied(texels: Seq<[u8; 4]>, rgba: Seq<u8>) -> bool {
    &&& 4 * texels.len() == rgba.len()
    &&& forall|i: int|
        #![trigger texels[i]]
        0 <= i < texels.len() ==> {
            &&& texels[i][0] == scaled(rgba[4 * i], rgba[4 * i + 3])
            &&& texels[i][1] == scaled(rgba[4 * i + 1], rgba[4 * i + 3])
            &&& texels[i][2] == scaled(rgba[4 * i + 2], rgba[4 * i + 3])
            &&& texels[i][3] == rgba[4 * i + 3]
        }
}

/// Decodes the bytes of an image file: `image::load_from_memory`, and of the
/// image its width, its height and its pixels as `to_rgba8` gives them.
///
/// Nothing is claimed of the result: which bytes are an image depends on the
/// decoders that the process has registered with the crate, and a registered
/// decoder may even fill a frame with too many pixels.
#[verifier::external_body]
pub(crate) fn decode(bytes: &[u8]) -> (picture: Result<Picture, image::ImageError>) {
    let image = image::load_from_memory(bytes)?;
    Ok(Picture { width: image.width(), height: image.height(), rgba: image.to_rgba8().into_raw() })
}

/// `picture` is what a call of `decode` on the bytes can give.
pub closed spec fn decodes_to(bytes: &[u8], picture: Result<Picture, image::ImageError>) -> bool {
    call_ensures(decode, (bytes,), picture)
}

/// Multiplies colours with their alpha: `ColorImage::from_rgba_unmultiplied`,
/// which panics unless the pixels fill the frame.
///
/// Each texel keeps the alpha of its pixel, and its colours are those of the
/// pixel times the alpha, rounded to the nearest; none lies half way, so the
/// single-precision arithmetic rounds as the integers do.
#[verifier::external_body]
pub(crate) fn premultiply(width: usize, height: usize, rgba: &[u8]) -> (texels: Vec<[u8; 4]>)
    requires
        width * height * 4 == rgba@.len(),
    ensures
        is_premultiplied(texels@, rgba@),
{
    let image = ColorImage::from_rgba_unmultiplied([width, height], rgba);
    image.pixels.iter().map(|c| c.to_array()).collect()
}

/// The texture of a decoded image.
pub fn texture_of(picture: Result<Picture, image::ImageError>) -> (texture: Result<
    Texture,
    TextureError,
>)
    ensures
        match picture {
            Err(_) => texture == Err::<Texture, _>(TextureError::Undecodable),
            Ok(p) => if p.width * p.height * 4 == p.rgba@.len() {
                &&& texture matches Ok(t)
                &&& t.width == p.width
                &&& t.height == p.height
                &&& is_premultiplied(t.texels@, p.rgba@)
                &&& t.texels@.len() == p.width * p.height
            } else {
                texture == Err::<Texture, _>(TextureError::FrameMismatch)
            },
        },
{
    match picture {
        Err(_) => Err(TextureError::Undecodable),
        Ok(p) => {
            assert(p.width * p.height <= 0x1_0000_0000 * 0x1_0000_0000) by (nonlinear_arith)
                requires
                    p.width <= 0x1_0000_0000,
                    p.height <= 0x1_0000_0000,
            ;
            let pixels: u128 = p.width as u128 * p.height as u128;
            if pixels * 4 == p.rgba.len() as u128 {
                let width: usize = p.width as usize;
                let height: usize = p.height as usize;
                let texels = premultiply(width, height, p.rgba.as_slice());
                Ok(Texture { width, height, texels })
            } else {
                Err(TextureError::FrameMismatch)
            }
        },
    }
}

/// Turns the bytes of an image file into a texture, by way of a decoder.
pub fn texture_by<Decode: FnOnce(&[u8]) -> Result<Picture, image::ImageError>>(
    bytes: &[u8],
    decoder: Decode,
) -> (texture: Result<Texture, TextureError>)
    requires
        call_requires(decoder, (bytes,)),
    ensures
        exists|picture: Result<Picture, image::ImageError>|
            {
                &&& #[trigger] call_ensures(decoder, (bytes,), picture)
                &&& call_ensures(texture_of, (picture,), texture)
            },
{
    let picture = decoder(bytes);
    texture_of(picture)
}

/// Turns the bytes of an image file into a texture: the bytes are decoded, and
/// the texture or the error is that of the decoded image. Whatever the decoder
/// makes of the bytes, a texture has one texel for each place of its frame.
pub fn load_texture_from_bytes(bytes: &[u8]) -> (texture: Result<Texture, TextureError>)
    ensures
        exists|picture: Result<Picture, image::ImageError>|
            {
                &&& #[trigger] decodes_to(bytes, picture)
                &&& call_ensures(texture_of, (picture,), texture)
            },
        texture matches Ok(t) ==> t.texels@.len() == t.width * t.height,
{
    let texture = texture_by(bytes, decode);
    proof {
        let picture = choose|picture: Result<Picture, image::ImageError>|
            {
                &&& #[trigger] call_ensures(decode, (bytes,), picture)
                &&& call_ensures(texture_of, (picture,), texture)
            };
        assert(decodes_to(bytes, picture));
    }
    texture
}

/// Multiplying with the alpha keeps an opaque colour, blacks out a wholly
/// transparent one, and never makes a colour stronger than itself or than the
/// alpha.
pub proof fn law_premultiplied_colours_stay_in_bounds(colour: u8, alpha: u8)
    ensures
        scaled(colour, 255) == colour,
        scaled(colour, 0) == 0,
        0 <= scaled(colour, alpha) <= colour,
        scaled(colour, alpha) <= alpha,
{
    assert(0 <= colour * alpha <= 255 * colour && colour * alpha <= 255 * alpha)
        by (nonlinear_arith)
        requires
            colour <= 255,
            alpha <= 255,
    ;
    assert(2 * colour * alpha == 2 * (colour * alpha)) by (nonlinear_arith);
}

/// A colour times its alpha is the whole number nearest to the product over
/// 255: it is never half a unit away.
pub proof fn law_premultiplied_colour_is_the_nearest(colour: u8, alpha: u8)
    ensures
        -255 <= 2 * (255 * scaled(colour, alpha) - colour * alpha) <= 255,
{
    assert(2 * colour * alpha == 2 * (colour * alpha)) by (nonlinear_arith);
}

/// A texture has the frame of its picture and a texel for each pixel of it, in
/// the same order: the alpha is kept, and each colour is the nearest to the
/// product of the pixel's colour and alpha. Only a picture whose pixels do not
/// fill its frame, and what is no picture, give none.
pub proof fn law_texture_is_that_of_the_picture(
    picture: Picture,
    texture: Result<Texture, TextureError>,
)
    requires
        call_ensures(texture_of, (Ok(picture),), texture),
    ensures
        texture is Ok <==> picture.width * picture.height * 4 == picture.rgba@.len(),
        texture matches Err(e) ==> e == TextureError::FrameMismatch,
        texture matches Ok(t) ==> {
            &&& t.width == picture.width
            &&& t.height == picture.height
            &&& t.texels@.len() == picture.width * picture.height
            &&& forall|i: int, k: int|
                0 <= i < t.texels@.len() && 0 <= k < 3 ==> -255 <= 2 * (255 * #[trigger] t.texels@[i][k]
                    - picture.rgba@[4 * i + k] * picture.rgba@[4 * i + 3]) <= 255
            &&& forall|i: int|
                0 <= i < t.texels@.len() ==> (#[trigger] t.texels@[i])[3] == picture.rgba@[4 * i
                    + 3]
        },
{
    if let Ok(t) = texture {
        assert forall|i: int, k: int| 0 <= i < t.texels@.len() && 0 <= k < 3 implies -255 <= 2 * (
        255 * #[trigger] t.texels@[i][k] - picture.rgba@[4 * i + k] * picture.rgba@[4 * i + 3])
            <= 255 by {
            law_premultiplied_colour_is_the_nearest(
                picture.rgba@[4 * i + k],
                picture.rgba@[4 * i + 3],
            );
            assert(k == 0 || k == 1 || k == 2);
        }
    }
}

/// What cannot be decoded gives no texture, and says so.
pub proof fn law_undecodable_gives_no_texture(
    error: image::ImageError,
    texture: Result<Texture, TextureError>,
)
    requires
        call_ensures(texture_of, (Err(error),), texture),
    ensures
        texture matches Err(e) && e == TextureError::Undecodable,
{
}

/// A texture is that of what the decoder made of the bytes, and of nothing
/// else; a file's is that of what the image decoder made of them.
pub proof fn law_texture_is_that_of_the_bytes<Decode>(
    bytes: &[u8],
    decoder: Decode,
    texture: Result<Texture, TextureError>,
    loaded: Result<Texture, TextureError>,
) where Decode: FnOnce(&[u8]) -> Result<Picture, image::ImageError>
    requires
        call_ensures(texture_by::<Decode>, (bytes, decoder), texture),
        call_ensures(load_texture_from_bytes, (bytes,), loaded),
    ensures
        exists|picture: Result<Picture, image::ImageError>|
            {
                &&& #[trigger] call_ensures(decoder, (bytes,), picture)
                &&& texture is Ok <==> picture is Ok && picture->Ok_0.width * picture->Ok_0.height
                    * 4 == picture->Ok_0.rgba@.len()
                &&& texture is Err ==> (texture->Err_0 == TextureError::Undecodable <==> picture
                    is Err)
                &&& texture is Ok ==> texture->Ok_0.width == picture->Ok_0.width
                    && texture->Ok_0.height == picture->Ok_0.height && is_premultiplied(
                    texture->Ok_0.texels@,
                    picture->Ok_0.rgba@,
                )
            },
        exists|picture: Result<Picture, image::ImageError>|
            {
                &&& #[trigger] decodes_to(bytes, picture)
                &&& loaded is Ok <==> picture is Ok && picture->Ok_0.width * picture->Ok_0.height
                    * 4 == picture->Ok_0.rgba@.len()
                &&& loaded is Err ==> (loaded->Err_0 == TextureError::Undecodable <==> picture
                    is Err)
                &&& loaded is Ok ==> loaded->Ok_0.width == picture->Ok_0.width
                    && loaded->Ok_0.height == picture->Ok_0.height && is_premultiplied(
                    loaded->Ok_0.texels@,
                    picture->Ok_0.rgba@,
                )
            },
{
}

} // verus!
