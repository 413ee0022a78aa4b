use denoise::img_io::{ImageSourceFormat, TiffBitDepth};
use denoise::paths::{choose_output_path, default_output_path, output_file_name};

#[test]
fn output_file_name_lists_settings() {
    assert_eq!(output_file_name("frame", 3, None, false), "frame_denoised_strength-3.png");
    assert_eq!(
        output_file_name("frame", 3, Some(2), true),
        "frame_denoised_strength-3_experimental_sharpen-2.png"
    );
    assert_eq!(output_file_name("a", 10, Some(0), false), "a_denoised_strength-10_sharpen-0.png");
    assert_eq!(output_file_name("", 255, Some(100), true), "_denoised_strength-255_experimental_sharpen-100.png");
    assert_eq!(output_file_name("x", 0, None, true), "x_denoised_strength-0_experimental.png");
}

#[test]
fn default_output_path_sits_next_to_input() {
    assert_eq!(default_output_path("/data/m42.png", 3, None, false), "/data/m42_denoised_strength-3.png");
    assert_eq!(
        default_output_path("/data/night/m31.tar.gz", 5, Some(1), false),
        "/data/night/m31.tar_denoised_strength-5_sharpen-1.png"
    );
    assert_eq!(default_output_path("m42.jpg", 2, None, true), "m42_denoised_strength-2_experimental.png");
}

#[test]
fn default_output_path_without_parent_or_stem() {
    assert_eq!(default_output_path("", 3, None, false), "./image_denoised_strength-3.png");
    assert_eq!(default_output_path("/", 1, None, false), "./image_denoised_strength-1.png");
}

#[test]
fn choose_output_path_prefers_user_path() {
    let png = ImageSourceFormat::StandardImage { is_tiff_format: false };
    let user = String::from("/out/result.jpg");
    assert_eq!(choose_output_path("/in/a.png", Some(&user), 3, None, false, &png), "/out/result.jpg");
    assert_eq!(choose_output_path("/in/a.png", None, 3, None, false, &png), "/in/a_denoised_strength-3.png");
}

#[test]
fn choose_output_path_keeps_tiff() {
    let tiff = ImageSourceFormat::Tiff { bit_depth: TiffBitDepth::U8 };
    let user = String::from("/out/result.png");
    assert_eq!(choose_output_path("/in/a.tif", Some(&user), 3, None, false, &tiff), "/out/result.tiff");
    assert_eq!(
        choose_output_path("/in/a.tif", None, 4, Some(3), false, &tiff),
        "/in/a_denoised_strength-4_sharpen-3.tiff"
    );
    let reported_tiff = ImageSourceFormat::StandardImage { is_tiff_format: true };
    assert_eq!(choose_output_path("/in/b.tif", Some(&user), 3, None, false, &reported_tiff), "/out/result.tiff");
    let no_ext = String::from("/out/result");
    assert_eq!(choose_output_path("/in/b.tif", Some(&no_ext), 3, None, false, &tiff), "/out/result.tiff");
}

#[test]
fn distinct_settings_get_distinct_names() {
    let mut names = Vec::new();
    for strength in [1u8, 2, 10, 12, 21, 121] {
        for sharpen in [None, Some(1u8), Some(2), Some(12)] {
            for experimental in [false, true] {
                names.push(output_file_name("m42", strength, sharpen, experimental));
            }
        }
    }
    let mut sorted = names.clone();
    sorted.sort();
    sorted.dedup();
    assert_eq!(sorted.len(), names.len());
}
