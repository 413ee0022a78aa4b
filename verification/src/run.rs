use vstd::prelude::*;

use crate::cli::{Args, Strategy};
use crate::img_io::{ImageSourceFormat, SaveEncoding, save_encoding, spec_is_tiff, spec_save_encoding};
use crate::paths::{
    choose_output_path, lemma_output_file_name_injective, spec_choose_output_path,
    spec_default_output_path, spec_output_file_name, spec_path_set_extension,
};
use crate::pipelines::{FilterStep, PipelineFns, StandardImagePipelines, TiffPipelines};

verus! {

/// Everything a run does once the image is loaded: where the result goes,
/// the denoising filter, the sharpening filter if any, and how the result is
/// encoded.
#[derive(Debug)]
pub struct RunPlan {
    pub output_path: String,
    pub denoise: FilterStep,
    pub sharpen: Option<FilterStep>,
    pub encoding: SaveEncoding,
}

/// The output path the arguments and the source format call for.
pub open spec fn spec_plan_output_path(args: Args, format: ImageSourceFormat) -> Seq<char> {
    spec_choose_output_path(
        args.input@,
        match args.output {
            Some(o) => Some(o@),
            None => None,
        },
        args.strength,
        args.sharpen,
        args.strategy == Strategy::Experimental,
        format,
    )
}

/// The denoising filter a family of filters gives for the arguments.
pub open spec fn spec_plan_denoise<P: PipelineFns>(args: Args, pipelines: P) -> FilterStep {
    match args.strategy {
        Strategy::Experimental => pipelines.spec_denoise_experimental(args.strength),
        Strategy::ATrous => FilterStep::DenoiseATrous,
        Strategy::Default => pipelines.spec_denoise(args.strength),
    }
}

/// The sharpening filter a family of filters gives for the arguments.
pub open spec fn spec_plan_sharpen<P: PipelineFns>(args: Args, pipelines: P) -> Option<FilterStep> {
    match args.sharpen {
        Some(s) => if args.strategy == Strategy::Experimental {
            Some(pipelines.spec_sharpen_luma(s))
        } else {
            Some(pipelines.spec_sharpen(s))
        },
        None => None,
    }
}

/// The denoising filter of a run on an image from this source.
pub open spec fn spec_run_denoise(args: Args, format: ImageSourceFormat) -> FilterStep {
    match format {
        ImageSourceFormat::Tiff { .. } => spec_plan_denoise(args, TiffPipelines),
        ImageSourceFormat::StandardImage { .. } => spec_plan_denoise(args, StandardImagePipelines),
    }
}

/// The sharpening filter of a run on an image from this source.
pub open spec fn spec_run_sharpen(args: Args, format: ImageSourceFormat) -> Option<FilterStep> {
    match format {
        ImageSourceFormat::Tiff { .. } => spec_plan_sharpen(args, TiffPipelines),
        ImageSourceFormat::StandardImage { .. } => spec_plan_sharpen(args, StandardImagePipelines),
    }
}

/// Plans a run with the given family of filters: the experimental denoiser
/// when it was chosen (then followed by the luminance sharpener), the wavelet
/// denoiser for the a trous strategy, the standard one otherwise; sharpening
/// only when it was asked for.
pub fn run_with_pipelines<P: PipelineFns>(args: &Args, pipelines: &P, format: &ImageSourceFormat) -> (plan: RunPlan)
    ensures
        plan.output_path@ == spec_plan_output_path(*args, *format),
        plan.denoise == spec_plan_denoise(*args, *pipelines),
        plan.sharpen == spec_plan_sharpen(*args, *pipelines),
        plan.encoding == spec_save_encoding(*format),
{
    let experimental = args.experimental();
    let output_path = choose_output_path(
        args.input.as_str(),
        args.output.as_ref(),
        args.strength,
        args.sharpen,
        experimental,
        format,
    );
    let denoise = match args.strategy {
        Strategy::Experimental => pipelines.denoise_experimental(args.strength),
        Strategy::ATrous => FilterStep::DenoiseATrous,
        Strategy::Default => pipelines.denoise(args.strength),
    };
    let sharpen = match args.sharpen {
        Some(s) => if experimental {
            Some(pipelines.sharpen_luma(s))
        } else {
            Some(pipelines.sharpen(s))
        },
        None => None,
    };
    RunPlan { output_path, denoise, sharpen, encoding: save_encoding(format) }
}

/// Plans the run for an image loaded from a source of this format: TIFF
/// sources go through the TIFF filters, all others through the standard ones.
pub fn run(args: &Args, format: &ImageSourceFormat) -> (plan: RunPlan)
    ensures
        plan.output_path@ == spec_plan_output_path(*args, *format),
        plan.denoise == spec_run_denoise(*args, *format),
        plan.sharpen == spec_run_sharpen(*args, *format),
        plan.encoding == spec_save_encoding(*format),
{
    match format {
        ImageSourceFormat::Tiff { .. } => run_with_pipelines(args, &TiffPipelines, format),
        ImageSourceFormat::StandardImage { .. } => run_with_pipelines(args, &StandardImagePipelines, format),
    }
}

/// A run denoises at the requested strength, sharpens exactly when asked and
/// at the requested sharpening strength, and keeps TIFF sources on the TIFF
/// filters and other sources off them.
pub proof fn lemma_run_follows_arguments(args: Args, format: ImageSourceFormat)
    ensures
        spec_run_sharpen(args, format) is Some <==> args.sharpen is Some,
        args.strategy != Strategy::ATrous ==> match spec_run_denoise(args, format) {
            FilterStep::DenoiseStandard { strength } => strength == args.strength,
            FilterStep::DenoiseExperimental { strength } => strength == args.strength,
            FilterStep::DenoiseTiff { strength } => strength == args.strength,
            _ => false,
        },
        args.sharpen matches Some(s) ==> match spec_run_sharpen(args, format) {
            Some(FilterStep::Sharpen { strength }) => strength == s,
            Some(FilterStep::SharpenLuma { strength }) => strength == s,
            Some(FilterStep::SharpenTiff { strength }) => strength == s,
            _ => false,
        },
        format is Tiff && args.strategy != Strategy::ATrous ==> spec_run_denoise(args, format).is_tiff_filter(),
        format is Tiff && args.sharpen is Some ==> spec_run_sharpen(args, format).unwrap().is_tiff_filter(),
        format is StandardImage ==> !spec_run_denoise(args, format).is_tiff_filter(),
        format is StandardImage && args.sharpen is Some ==> !spec_run_sharpen(args, format).unwrap().is_tiff_filter(),
{
}

/// On a standard image the experimental denoiser is followed by the
/// luminance sharpener and any other denoiser by the RGB sharpener.
pub proof fn lemma_standard_sharpener_matches_denoiser(args: Args, s: u8)
    requires
        args.sharpen == Some(s),
    ensures
        args.strategy == Strategy::Experimental ==> spec_run_sharpen(
            args,
            ImageSourceFormat::StandardImage { is_tiff_format: false },
        ) == Some(FilterStep::SharpenLuma { strength: s }),
        args.strategy != Strategy::Experimental ==> spec_run_sharpen(
            args,
            ImageSourceFormat::StandardImage { is_tiff_format: false },
        ) == Some(FilterStep::Sharpen { strength: s }),
{
}


/// Which denoiser a run uses is decided by the strategy and the source
/// alone, and it runs at the requested strength: the experimental denoiser
/// exactly for the experimental strategy on a non-TIFF source, the standard
/// one exactly for the default strategy on a non-TIFF source, the TIFF one
/// exactly for the two strategies with a strength on a TIFF source, and the
/// wavelet one exactly for the a trous strategy.
pub proof fn lemma_run_denoiser_choice(args: Args, format: ImageSourceFormat)
    ensures
        spec_run_denoise(args, format) == (FilterStep::DenoiseExperimental { strength: args.strength })
            <==> (args.strategy == Strategy::Experimental && format is StandardImage),
        spec_run_denoise(args, format) == (FilterStep::DenoiseStandard { strength: args.strength })
            <==> (args.strategy == Strategy::Default && format is StandardImage),
        spec_run_denoise(args, format) == (FilterStep::DenoiseTiff { strength: args.strength })
            <==> (args.strategy != Strategy::ATrous && format is Tiff),
        spec_run_denoise(args, format) == FilterStep::DenoiseATrous <==> args.strategy == Strategy::ATrous,
{
}

/// Which sharpener a run uses: none unless asked; when asked, at the
/// requested sharpening strength, the TIFF sharpener on a TIFF source, the
/// luminance sharpener after the experimental denoiser on other sources, and
/// the RGB sharpener otherwise.
pub proof fn lemma_run_sharpener_choice(args: Args, format: ImageSourceFormat, s: u8)
    ensures
        args.sharpen is None ==> spec_run_sharpen(args, format) is None,
        args.sharpen == Some(s) ==> (spec_run_sharpen(args, format) == Some(
            FilterStep::SharpenTiff { strength: s },
        ) <==> format is Tiff),
        args.sharpen == Some(s) ==> (spec_run_sharpen(args, format) == Some(
            FilterStep::SharpenLuma { strength: s },
        ) <==> (format is StandardImage && args.strategy == Strategy::Experimental)),
        args.sharpen == Some(s) ==> (spec_run_sharpen(args, format) == Some(
            FilterStep::Sharpen { strength: s },
        ) <==> (format is StandardImage && args.strategy != Strategy::Experimental)),
{
}

/// Where a run writes: the user's path when one was given, otherwise the
/// automatic name built from the run's own input, strength, sharpening and
/// denoiser choice (whatever the strategy); for a TIFF source that path with
/// the extension `tiff`, for any other source that path as it is.
pub proof fn lemma_run_output_path(args: Args, format: ImageSourceFormat)
    ensures
        args.output is None && !spec_is_tiff(format) ==> spec_plan_output_path(args, format)
            == spec_default_output_path(
            args.input@,
            args.strength,
            args.sharpen,
            args.strategy == Strategy::Experimental,
        ),
        args.output is None && spec_is_tiff(format) ==> spec_plan_output_path(args, format)
            == spec_path_set_extension(
            spec_default_output_path(
                args.input@,
                args.strength,
                args.sharpen,
                args.strategy == Strategy::Experimental,
            ),
            "tiff"@,
        ),
        args.output matches Some(o) ==> (!spec_is_tiff(format) ==> spec_plan_output_path(args, format)
            == o@),
        args.output matches Some(o) ==> (spec_is_tiff(format) ==> spec_plan_output_path(args, format)
            == spec_path_set_extension(o@, "tiff"@)),
{
}

/// Two runs on the same non-TIFF input without a user path write to the
/// same place only if they share strength, sharpening and denoiser choice,
/// as far as the automatic name tells them apart: their file names differ
/// otherwise.
pub proof fn lemma_run_names_differ(a: Args, b: Args, stem: Seq<char>)
    requires
        a.output is None,
        b.output is None,
        a.strength != b.strength || a.sharpen != b.sharpen || (a.strategy == Strategy::Experimental)
            != (b.strategy == Strategy::Experimental),
    ensures
        spec_output_file_name(stem, a.strength, a.sharpen, a.strategy == Strategy::Experimental)
            != spec_output_file_name(stem, b.strength, b.sharpen, b.strategy == Strategy::Experimental),
{
    if spec_output_file_name(stem, a.strength, a.sharpen, a.strategy == Strategy::Experimental)
        == spec_output_file_name(stem, b.strength, b.sharpen, b.strategy == Strategy::Experimental) {
        lemma_output_file_name_injective(
            stem,
            a.strength,
            a.sharpen,
            a.strategy == Strategy::Experimental,
            b.strength,
            b.sharpen,
            b.strategy == Strategy::Experimental,
        );
    }
}

} // verus!
