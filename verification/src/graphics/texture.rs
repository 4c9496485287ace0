//! Base-colour textures: from a decoded image to the RGBA bytes of a material.

use vstd::prelude::*;

use crate::graphics::asset::{Format, ImageData};
use crate::graphics::model::{white_pixel, ImageView, Material, MaterialView, RgbaImage, SamplerMode};

verus! {

/// A buffer of `len` bytes holds an image of `width` by `height` pixels of
/// four bytes each: the bytes of one row can be counted in a `usize`, and
/// the bytes of all rows are there.
pub open spec fn image_fits(width: u32, height: u32, len: nat) -> bool {
    4 * width <= usize::MAX && 4 * width * height <= len
}

/// Three-byte pixels widened to four: every complete red-green-blue triple
/// followed by full opacity. Bytes after the last complete triple are left
/// out.
pub open spec fn widen_rgb(pixels: Seq<u8>) -> Seq<u8> {
    Seq::new(
        (4 * (pixels.len() / 3)) as nat,
        |k: int|
            if k % 4 == 3 {
                255u8
            } else {
                pixels[3 * (k / 4) + k % 4]
            },
    )
}

/// The image with the given dimensions over `pixels` where the bytes
/// suffice, the white pixel where they do not.
pub open spec fn image_or_white(width: u32, height: u32, pixels: Seq<u8>) -> ImageView {
    if image_fits(width, height, pixels.len()) {
        ImageView { width, height, pixels }
    } else {
        white_pixel()
    }
}

/// The base-colour image of a material. Four-channel eight-bit images are
/// taken as they are, three-channel ones are widened, and everything else —
/// no image, another format, too few bytes for the stated dimensions — gives
/// the white pixel.
pub open spec fn texture_of(img: Option<ImageData>) -> ImageView {
    match img {
        None => white_pixel(),
        Some(g) => match g.format {
            Format::R8G8B8A8 => image_or_white(g.width, g.height, g.pixels@),
            Format::R8G8B8 => image_or_white(g.width, g.height, widen_rgb(g.pixels@)),
            _ => white_pixel(),
        },
    }
}

/// `image::RgbaImage::from_raw`, then the image's `width`, `height` and
/// `into_raw`. The crate multiplies four by the width and then by the height
/// in `usize`, and accepts the buffer exactly when neither product overflows
/// and the result does not exceed the buffer's length; the image then has
/// the dimensions given and keeps the buffer whole.
#[verifier::external_body]
fn rgba_from_raw(width: u32, height: u32, buf: Vec<u8>) -> (r: Option<RgbaImage>)
    ensures
        r is Some <==> image_fits(width, height, buf@.len()),
        r matches Some(img) ==> img@.width == width && img@.height == height && img@.pixels
            == buf@,
{
    match image::RgbaImage::from_raw(width, height, buf) {
        Some(img) => Some(
            RgbaImage { width: img.width(), height: img.height(), pixels: img.into_raw() },
        ),
        None => None,
    }
}

/// `image::RgbaImage::from_pixel`, then the image's `width`, `height` and
/// `into_raw`. The crate multiplies four by the width and then by the height
/// in `usize`, allocates that many bytes and writes `pixel` into every
/// pixel. It panics where either product overflows, and where a vector
/// cannot hold that many bytes; the precondition leaves both out.
#[verifier::external_body]
fn rgba_from_pixel(width: u32, height: u32, pixel: [u8; 4]) -> (r: RgbaImage)
    requires
        4 * width <= usize::MAX,
        4 * width * height <= isize::MAX,
    ensures
        r@.width == width,
        r@.height == height,
        r@.pixels.len() == 4 * width * height,
        forall|k: int| 0 <= k < r@.pixels.len() ==> r@.pixels[k] == pixel@[k % 4],
{
    let img = image::RgbaImage::from_pixel(width, height, image::Rgba(pixel));
    RgbaImage { width: img.width(), height: img.height(), pixels: img.into_raw() }
}

/// The one-by-one opaque white image.
pub fn white_image() -> (r: RgbaImage)
    ensures
        r@ == white_pixel(),
{
    let img = rgba_from_pixel(1, 1, [255, 255, 255, 255]);
    assert(img@.pixels =~= white_pixel().pixels);
    img
}

/// Widens three-byte pixels to four by appending full opacity to each.
pub fn widen_rgb_pixels(pixels: &Vec<u8>) -> (out: Vec<u8>)
    ensures
        out@ == widen_rgb(pixels@),
{
    let mut out: Vec<u8> = Vec::new();
    let n: usize = pixels.len() / 3;
    let mut j: usize = 0;
    while j < n
        invariant
            n == pixels@.len() / 3,
            pixels@.len() <= usize::MAX,
            j <= n,
            out@.len() == 4 * j,
            forall|k: int| 0 <= k < out@.len() ==> out@[k] == widen_rgb(pixels@)[k],
        decreases n - j,
    {
        assert(3 * j + 3 <= pixels@.len());
        let b: usize = 3 * j;
        out.push(pixels[b]);
        out.push(pixels[b + 1]);
        out.push(pixels[b + 2]);
        out.push(255);
        j += 1;
    }
    assert(out@ =~= widen_rgb(pixels@));
    out
}

/// An image over `pixels` where they suffice for the dimensions, the white
/// image where they do not.
fn image_or_white_image(width: u32, height: u32, pixels: Vec<u8>) -> (r: RgbaImage)
    ensures
        r@ == image_or_white(width, height, pixels@),
{
    match rgba_from_raw(width, height, pixels) {
        Some(img) => img,
        None => white_image(),
    }
}

/// The material over an asset's base-colour image: the image converted to
/// RGBA where its format is supported and its bytes suffice, white otherwise,
/// sampled linearly and repeating.
pub fn make_texture_material(img: Option<&ImageData>) -> (r: Material)
    ensures
        r@.image == texture_of(
            match img {
                Some(g) => Some(*g),
                None => None,
            },
        ),
        r@.sampler == SamplerMode::LinearRepeat,
{
    let image = match img {
        Some(g) => match g.format {
            Format::R8G8B8A8 => image_or_white_image(g.width, g.height, g.pixels.clone()),
            Format::R8G8B8 => image_or_white_image(g.width, g.height, widen_rgb_pixels(&g.pixels)),
            _ => white_image(),
        },
        None => white_image(),
    };
    Material { image, sampler: SamplerMode::LinearRepeat }
}

/// The material over a prepared image, or over the white pixel where there
/// is none, with default sampling.
pub fn make_texture_material_impl(rgba: Option<RgbaImage>) -> (r: Material)
    ensures
        r@.image == (match rgba {
            Some(img) => img@,
            None => white_pixel(),
        }),
        r@.sampler == SamplerMode::Default,
{
    let image = match rgba {
        Some(img) => img,
        None => white_image(),
    };
    Material { image, sampler: SamplerMode::Default }
}

/// The fallback material of an asset that defines none: one white pixel.
pub fn make_white_material() -> (r: Material)
    ensures
        r@ == (MaterialView { image: white_pixel(), sampler: SamplerMode::Default }),
{
    make_texture_material_impl(Some(white_image()))
}

} // verus!
