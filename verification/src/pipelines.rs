use vstd::prelude::*;

verus! {

/// One filter run on the image, with the strength it runs at.
#[derive(Clone, Copy, Debug, PartialEq, Eq, Structural)]
pub enum FilterStep {
    /// Median then Gaussian denoising of 8-bit RGB.
    DenoiseStandard { strength: u8 },
    /// The experimental multi-scale, chroma-heavy denoiser (8-bit RGB).
    DenoiseExperimental { strength: u8 },
    /// Median then Gaussian denoising of 16-bit RGB, keeping the bit depth.
    DenoiseTiff { strength: u8 },
    /// Wavelet (a trous) denoising; it has no strength.
    DenoiseATrous,
    /// Unsharp mask on 8-bit RGB.
    Sharpen { strength: u8 },
    /// Unsharp mask on luminance only.
    SharpenLuma { strength: u8 },
    /// Unsharp mask on 16-bit RGB, keeping the bit depth.
    SharpenTiff { strength: u8 },
}

impl FilterStep {
    /// The filters that keep 16-bit samples.
    pub open spec fn is_tiff_filter(self) -> bool {
        match self {
            FilterStep::DenoiseTiff { .. } | FilterStep::SharpenTiff { .. } => true,
            _ => false,
        }
    }
}

/// The filters a family of images is processed with.
pub trait PipelineFns {
    spec fn spec_denoise(&self, strength: u8) -> FilterStep;

    spec fn spec_denoise_experimental(&self, strength: u8) -> FilterStep;

    spec fn spec_sharpen(&self, strength: u8) -> FilterStep;

    spec fn spec_sharpen_luma(&self, strength: u8) -> FilterStep;

    /// The standard denoiser.
    fn denoise(&self, strength: u8) -> (r: FilterStep)
        ensures
            r == self.spec_denoise(strength),
    ;

    /// The experimental denoiser.
    fn denoise_experimental(&self, strength: u8) -> (r: FilterStep)
        ensures
            r == self.spec_denoise_experimental(strength),
    ;

    /// The RGB sharpener.
    fn sharpen(&self, strength: u8) -> (r: FilterStep)
        ensures
            r == self.spec_sharpen(strength),
    ;

    /// The sharpener that follows the experimental denoiser.
    fn sharpen_luma(&self, strength: u8) -> (r: FilterStep)
        ensures
            r == self.spec_sharpen_luma(strength),
    ;
}

/// Filters for 8-bit formats such as PNG and JPEG.
#[derive(Clone, Copy, Debug)]
pub struct StandardImagePipelines;

/// Filters for TIFF, which keep 16-bit samples.
#[derive(Clone, Copy, Debug)]
pub struct TiffPipelines;

impl PipelineFns for StandardImagePipelines {
    open spec fn spec_denoise(&self, strength: u8) -> FilterStep {
        FilterStep::DenoiseStandard { strength }
    }

    open spec fn spec_denoise_experimental(&self, strength: u8) -> FilterStep {
        FilterStep::DenoiseExperimental { strength }
    }

    open spec fn spec_sharpen(&self, strength: u8) -> FilterStep {
        FilterStep::Sharpen { strength }
    }

    open spec fn spec_sharpen_luma(&self, strength: u8) -> FilterStep {
        FilterStep::SharpenLuma { strength }
    }

    fn denoise(&self, strength: u8) -> (r: FilterStep) {
        FilterStep::DenoiseStandard { strength }
    }

    fn denoise_experimental(&self, strength: u8) -> (r: FilterStep) {
        FilterStep::DenoiseExperimental { strength }
    }

    fn sharpen(&self, strength: u8) -> (r: FilterStep) {
        FilterStep::Sharpen { strength }
    }

    fn sharpen_luma(&self, strength: u8) -> (r: FilterStep) {
        FilterStep::SharpenLuma { strength }
    }
}

impl PipelineFns for TiffPipelines {
    open spec fn spec_denoise(&self, strength: u8) -> FilterStep {
        FilterStep::DenoiseTiff { strength }
    }

    /// TIFF has no experimental denoiser of its own and uses the TIFF one.
    open spec fn spec_denoise_experimental(&self, strength: u8) -> FilterStep {
        FilterStep::DenoiseTiff { strength }
    }

    open spec fn spec_sharpen(&self, strength: u8) -> FilterStep {
        FilterStep::SharpenTiff { strength }
    }

    /// TIFF has no luminance sharpener of its own and uses the TIFF one.
    open spec fn spec_sharpen_luma(&self, strength: u8) -> FilterStep {
        FilterStep::SharpenTiff { strength }
    }

    fn denoise(&self, strength: u8) -> (r: FilterStep) {
        FilterStep::DenoiseTiff { strength }
    }

    fn denoise_experimental(&self, strength: u8) -> (r: FilterStep) {
        FilterStep::DenoiseTiff { strength }
    }

    fn sharpen(&self, strength: u8) -> (r: FilterStep) {
        FilterStep::SharpenTiff { strength }
    }

    fn sharpen_luma(&self, strength: u8) -> (r: FilterStep) {
        FilterStep::SharpenTiff { strength }
    }
}


/// For every strength, the standard family runs each request as its own 8-bit
/// filter at that strength: the standard denoiser, the experimental
/// denoiser, the RGB sharpener and the luminance sharpener, four different
/// filters, none of them a TIFF filter.
pub proof fn lemma_standard_pipelines_filters(s: u8)
    ensures
        StandardImagePipelines.spec_denoise(s) == (FilterStep::DenoiseStandard { strength: s }),
        StandardImagePipelines.spec_denoise_experimental(s) == (FilterStep::DenoiseExperimental {
            strength: s,
        }),
        StandardImagePipelines.spec_sharpen(s) == (FilterStep::Sharpen { strength: s }),
        StandardImagePipelines.spec_sharpen_luma(s) == (FilterStep::SharpenLuma { strength: s }),
        StandardImagePipelines.spec_denoise(s) != StandardImagePipelines.spec_denoise_experimental(s),
        StandardImagePipelines.spec_sharpen(s) != StandardImagePipelines.spec_sharpen_luma(s),
        !StandardImagePipelines.spec_denoise(s).is_tiff_filter(),
        !StandardImagePipelines.spec_denoise_experimental(s).is_tiff_filter(),
        !StandardImagePipelines.spec_sharpen(s).is_tiff_filter(),
        !StandardImagePipelines.spec_sharpen_luma(s).is_tiff_filter(),
{
}

/// For every strength, the TIFF family answers both denoise requests with
/// the same 16-bit denoiser and both sharpen requests with the same 16-bit
/// sharpener, at that strength.
pub proof fn lemma_tiff_pipelines_filters(s: u8)
    ensures
        TiffPipelines.spec_denoise(s) == (FilterStep::DenoiseTiff { strength: s }),
        TiffPipelines.spec_denoise_experimental(s) == TiffPipelines.spec_denoise(s),
        TiffPipelines.spec_sharpen(s) == (FilterStep::SharpenTiff { strength: s }),
        TiffPipelines.spec_sharpen_luma(s) == TiffPipelines.spec_sharpen(s),
{
}

} // verus!
