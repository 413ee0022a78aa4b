use denoise::cli::{Args, Strategy};
use denoise::img_io::{ImageSourceFormat, SaveEncoding, TiffBitDepth};
use denoise::pipelines::{FilterStep, PipelineFns, StandardImagePipelines, TiffPipelines};
use denoise::run::{run, run_with_pipelines};

fn png() -> ImageSourceFormat {
    ImageSourceFormat::StandardImage { is_tiff_format: false }
}

fn args(strength: u8, sharpen: Option<u8>, strategy: Strategy) -> Args {
    Args {
        input: String::from("/tmp/shots/input.png"),
        output: Some(String::from("/tmp/shots/out.png")),
        strength,
        sharpen,
        strategy,
    }
}

#[test]
fn run_invokes_experimental_and_luma_sharpen_when_flagged() {
    let a = args(3, Some(2), Strategy::Experimental);
    let plan = run_with_pipelines(&a, &StandardImagePipelines, &png());
    assert_eq!(plan.denoise, FilterStep::DenoiseExperimental { strength: 3 });
    assert_eq!(plan.sharpen, Some(FilterStep::SharpenLuma { strength: 2 }));
    assert_eq!(plan.output_path, "/tmp/shots/out.png");
}

#[test]
fn run_invokes_standard_without_sharpen() {
    let a = args(2, None, Strategy::Default);
    let plan = run_with_pipelines(&a, &StandardImagePipelines, &png());
    assert_eq!(plan.denoise, FilterStep::DenoiseStandard { strength: 2 });
    assert_eq!(plan.sharpen, None);
    assert_eq!(plan.output_path, "/tmp/shots/out.png");
}

#[test]
fn run_invokes_standard_with_sharpen() {
    let a = args(4, Some(2), Strategy::Default);
    let plan = run_with_pipelines(&a, &StandardImagePipelines, &png());
    assert_eq!(plan.denoise, FilterStep::DenoiseStandard { strength: 4 });
    assert_eq!(plan.sharpen, Some(FilterStep::Sharpen { strength: 2 }));
}

#[test]
fn run_invokes_experimental_without_sharpen() {
    let a = args(3, None, Strategy::Experimental);
    let plan = run_with_pipelines(&a, &StandardImagePipelines, &png());
    assert_eq!(plan.denoise, FilterStep::DenoiseExperimental { strength: 3 });
    assert_eq!(plan.sharpen, None);
}

#[test]
fn run_on_tiff_uses_tiff_filters_only() {
    let format = ImageSourceFormat::Tiff { bit_depth: TiffBitDepth::U16 };
    let a = args(5, Some(4), Strategy::Experimental);
    let plan = run(&a, &format);
    assert_eq!(plan.denoise, FilterStep::DenoiseTiff { strength: 5 });
    assert_eq!(plan.sharpen, Some(FilterStep::SharpenTiff { strength: 4 }));
    assert_eq!(plan.output_path, "/tmp/shots/out.tiff");
    assert_eq!(plan.encoding, SaveEncoding::Rgb16Tiff);
}

#[test]
fn run_on_png_uses_standard_filters() {
    let a = args(1, Some(5), Strategy::Default);
    let plan = run(&a, &png());
    assert_eq!(plan.denoise, FilterStep::DenoiseStandard { strength: 1 });
    assert_eq!(plan.sharpen, Some(FilterStep::Sharpen { strength: 5 }));
    assert_eq!(plan.encoding, SaveEncoding::Rgb8InSourceFormat);
    assert_eq!(plan.output_path, "/tmp/shots/out.png");
}

#[test]
fn run_a_trous_uses_wavelet_denoiser() {
    let a = args(3, Some(2), Strategy::ATrous);
    let plan = run(&a, &png());
    assert_eq!(plan.denoise, FilterStep::DenoiseATrous);
    assert_eq!(plan.sharpen, Some(FilterStep::Sharpen { strength: 2 }));
    let tiff = ImageSourceFormat::Tiff { bit_depth: TiffBitDepth::U8 };
    let plan = run(&a, &tiff);
    assert_eq!(plan.denoise, FilterStep::DenoiseATrous);
    assert_eq!(plan.sharpen, Some(FilterStep::SharpenTiff { strength: 2 }));
    assert_eq!(plan.encoding, SaveEncoding::Rgb8Tiff);
}

#[test]
fn run_without_output_names_the_result() {
    let a = Args {
        input: String::from("/data/m42.png"),
        output: None,
        strength: 3,
        sharpen: Some(2),
        strategy: Strategy::Experimental,
    };
    let plan = run(&a, &png());
    assert_eq!(plan.output_path, "/data/m42_denoised_strength-3_experimental_sharpen-2.png");
    let tiff = ImageSourceFormat::Tiff { bit_depth: TiffBitDepth::U16 };
    let b = Args { input: String::from("/data/m42.tif"), ..a };
    let plan = run(&b, &tiff);
    assert_eq!(plan.output_path, "/data/m42_denoised_strength-3_experimental_sharpen-2.tiff");
}

#[test]
fn tiff_pipelines_reuse_tiff_filters() {
    let p = TiffPipelines;
    assert_eq!(p.denoise(2), FilterStep::DenoiseTiff { strength: 2 });
    assert_eq!(p.denoise_experimental(2), FilterStep::DenoiseTiff { strength: 2 });
    assert_eq!(p.sharpen(3), FilterStep::SharpenTiff { strength: 3 });
    assert_eq!(p.sharpen_luma(3), FilterStep::SharpenTiff { strength: 3 });
}

#[test]
fn standard_pipelines_pick_standard_filters() {
    let p = StandardImagePipelines;
    assert_eq!(p.denoise(2), FilterStep::DenoiseStandard { strength: 2 });
    assert_eq!(p.denoise_experimental(2), FilterStep::DenoiseExperimental { strength: 2 });
    assert_eq!(p.sharpen(3), FilterStep::Sharpen { strength: 3 });
    assert_eq!(p.sharpen_luma(3), FilterStep::SharpenLuma { strength: 3 });
}

#[test]
fn args_experimental_only_for_experimental_strategy() {
    assert!(args(3, None, Strategy::Experimental).experimental());
    assert!(!args(3, None, Strategy::Default).experimental());
    assert!(!args(3, None, Strategy::ATrous).experimental());
}
