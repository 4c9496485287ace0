use gltf_viewer::graphics::asset::{Format, ImageData};
use gltf_viewer::graphics::model::{Material, RgbaImage, SamplerMode};
use gltf_viewer::graphics::texture::{
    make_texture_material, make_texture_material_impl, make_white_material, white_image,
    widen_rgb_pixels,
};

fn white_pixel() -> RgbaImage {
    RgbaImage { width: 1, height: 1, pixels: vec![255, 255, 255, 255] }
}

fn image(format: Format, width: u32, height: u32, pixels: Vec<u8>) -> ImageData {
    ImageData { pixels, format, width, height }
}

#[test]
fn white_image_is_one_opaque_white_pixel() {
    assert_eq!(white_image(), white_pixel());
}

#[test]
fn white_material_is_white_with_default_sampling() {
    assert_eq!(
        make_white_material(),
        Material { image: white_pixel(), sampler: SamplerMode::Default }
    );
}

#[test]
fn material_impl_keeps_a_given_image_and_defaults_to_white() {
    let img = RgbaImage { width: 2, height: 1, pixels: vec![1, 2, 3, 4, 5, 6, 7, 8] };
    assert_eq!(
        make_texture_material_impl(Some(img.clone())),
        Material { image: img, sampler: SamplerMode::Default }
    );
    assert_eq!(
        make_texture_material_impl(None),
        Material { image: white_pixel(), sampler: SamplerMode::Default }
    );
}

#[test]
fn no_image_gives_white_sampled_linearly() {
    assert_eq!(
        make_texture_material(None),
        Material { image: white_pixel(), sampler: SamplerMode::LinearRepeat }
    );
}

#[test]
fn rgba_image_is_taken_as_it_is() {
    let pixels: Vec<u8> = (0..16).collect();
    let m = make_texture_material(Some(&image(Format::R8G8B8A8, 2, 2, pixels.clone())));
    assert_eq!(m.image, RgbaImage { width: 2, height: 2, pixels });
    assert_eq!(m.sampler, SamplerMode::LinearRepeat);
}

#[test]
fn rgba_image_with_spare_bytes_keeps_them() {
    let pixels: Vec<u8> = (0..10).collect();
    let m = make_texture_material(Some(&image(Format::R8G8B8A8, 2, 1, pixels.clone())));
    assert_eq!(m.image, RgbaImage { width: 2, height: 1, pixels });
}

#[test]
fn rgba_image_with_too_few_bytes_gives_white() {
    let m = make_texture_material(Some(&image(Format::R8G8B8A8, 2, 2, vec![0; 15])));
    assert_eq!(m.image, white_pixel());
    assert_eq!(m.sampler, SamplerMode::LinearRepeat);
}

#[test]
fn empty_image_of_no_pixels_is_kept() {
    let m = make_texture_material(Some(&image(Format::R8G8B8A8, 0, 5, vec![])));
    assert_eq!(m.image, RgbaImage { width: 0, height: 5, pixels: vec![] });
}

#[test]
fn image_whose_size_overflows_gives_white() {
    let m = make_texture_material(Some(&image(Format::R8G8B8A8, u32::MAX, u32::MAX, vec![0; 64])));
    assert_eq!(m.image, white_pixel());
}

#[test]
fn rgb_image_is_widened_with_full_opacity() {
    let m = make_texture_material(Some(&image(Format::R8G8B8, 2, 1, vec![10, 20, 30, 40, 50, 60])));
    assert_eq!(
        m.image,
        RgbaImage { width: 2, height: 1, pixels: vec![10, 20, 30, 255, 40, 50, 60, 255] }
    );
}

#[test]
fn rgb_image_with_too_few_bytes_gives_white() {
    let m = make_texture_material(Some(&image(Format::R8G8B8, 2, 1, vec![10, 20, 30, 40, 50])));
    assert_eq!(m.image, white_pixel());
}

#[test]
fn widening_drops_an_incomplete_last_pixel() {
    assert_eq!(widen_rgb_pixels(&vec![1, 2, 3, 4, 5]), vec![1, 2, 3, 255]);
    assert_eq!(widen_rgb_pixels(&vec![1, 2]), Vec::<u8>::new());
    assert_eq!(widen_rgb_pixels(&vec![]), Vec::<u8>::new());
    assert_eq!(
        widen_rgb_pixels(&vec![1, 2, 3, 4, 5, 6, 7, 8, 9]),
        vec![1, 2, 3, 255, 4, 5, 6, 255, 7, 8, 9, 255]
    );
}

#[test]
fn other_formats_give_white() {
    let others = [
        Format::R8,
        Format::R8G8,
        Format::R16,
        Format::R16G16,
        Format::R16G16B16,
        Format::R16G16B16A16,
        Format::R32G32B32FLOAT,
        Format::R32G32B32A32FLOAT,
    ];
    for format in others {
        let m = make_texture_material(Some(&image(format, 1, 1, vec![7; 16])));
        assert_eq!(m, Material { image: white_pixel(), sampler: SamplerMode::LinearRepeat });
    }
}
