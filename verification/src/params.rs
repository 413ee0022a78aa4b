use vstd::prelude::*;

verus! {

// Every tuning value is held in hundredths: 0.35 is 35. Dividing such a value
// by 100 in `f32` gives the same number as writing the decimal literal.

/// The table row a strength selects: 1 to 4 select their own row, every other
/// value (0 and anything above 4) the strongest row, 5.
pub open spec fn level(strength: u8) -> u8 {
    if 1 <= strength <= 4 {
        strength
    } else {
        5
    }
}

/// Median kernel and Gaussian sigma of the 16-bit (TIFF) denoiser.
#[derive(Clone, Copy, Debug, PartialEq, Eq)]
pub struct DenoiseTiffParams {
    pub median_kernel: u32,
    pub sigma_centi: u32,
}

/// Gaussian sigma and amount of an unsharp mask.
#[derive(Clone, Copy, Debug, PartialEq, Eq)]
pub struct UnsharpParams {
    pub sigma_centi: u32,
    pub amount_centi: u32,
}

/// Tunables of the experimental multi-scale denoiser.
#[derive(Clone, Copy, Debug, PartialEq, Eq)]
pub struct ExperimentalParams {
    /// Small blur separating fine detail.
    pub sigma_fine: u32,
    /// Larger blur giving the coarse base.
    pub sigma_base: u32,
    /// Strong chroma smoothing.
    pub sigma_chroma: u32,
    /// Soft threshold of fine detail.
    pub fine_thresh: u32,
    /// Soft threshold of coarse detail.
    pub coarse_thresh: u32,
    /// Gain of positive (star) fine detail.
    pub fine_gain_pos: u32,
    /// Gain of negative (noise) fine detail.
    pub fine_gain_neg: u32,
    /// Gain of coarse detail.
    pub coarse_gain: u32,
    /// Weight of the blurred base against the unfiltered luminance.
    pub base_blend: u32,
}

pub open spec fn denoise_tiff_table(l: u8) -> DenoiseTiffParams {
    match l {
        1 => DenoiseTiffParams { median_kernel: 1, sigma_centi: 20 },
        2 => DenoiseTiffParams { median_kernel: 2, sigma_centi: 35 },
        3 => DenoiseTiffParams { median_kernel: 3, sigma_centi: 50 },
        4 => DenoiseTiffParams { median_kernel: 4, sigma_centi: 65 },
        _ => DenoiseTiffParams { median_kernel: 5, sigma_centi: 80 },
    }
}

pub open spec fn unsharp(sigma_centi: u32, amount_centi: u32) -> UnsharpParams {
    UnsharpParams { sigma_centi, amount_centi }
}

pub open spec fn sharpen_table(l: u8) -> UnsharpParams {
    match l {
        1 => unsharp(50, 30),
        2 => unsharp(60, 45),
        3 => unsharp(80, 60),
        4 => unsharp(100, 80),
        _ => unsharp(120, 100),
    }
}

pub open spec fn sharpen_luma_table(l: u8) -> UnsharpParams {
    match l {
        1 => unsharp(45, 60),
        2 => unsharp(55, 80),
        3 => unsharp(70, 100),
        4 => unsharp(85, 115),
        _ => unsharp(95, 130),
    }
}

pub open spec fn sharpen_tiff_table(l: u8) -> UnsharpParams {
    match l {
        1 => unsharp(35, 30),
        2 => unsharp(45, 45),
        3 => unsharp(60, 60),
        4 => unsharp(75, 80),
        _ => unsharp(90, 100),
    }
}

pub open spec fn experimental_table(l: u8) -> ExperimentalParams {
    match l {
        1 => ExperimentalParams {
            sigma_fine: 90,
            sigma_base: 180,
            sigma_chroma: 240,
            fine_thresh: 220,
            coarse_thresh: 110,
            fine_gain_pos: 85,
            fine_gain_neg: 25,
            coarse_gain: 80,
            base_blend: 78,
        },
        2 => ExperimentalParams {
            sigma_fine: 105,
            sigma_base: 210,
            sigma_chroma: 270,
            fine_thresh: 270,
            coarse_thresh: 130,
            fine_gain_pos: 90,
            fine_gain_neg: 26,
            coarse_gain: 82,
            base_blend: 78,
        },
        3 => ExperimentalParams {
            sigma_fine: 120,
            sigma_base: 240,
            sigma_chroma: 310,
            fine_thresh: 320,
            coarse_thresh: 150,
            fine_gain_pos: 95,
            fine_gain_neg: 28,
            coarse_gain: 85,
            base_blend: 79,
        },
        4 => ExperimentalParams {
            sigma_fine: 135,
            sigma_base: 270,
            sigma_chroma: 340,
            fine_thresh: 380,
            coarse_thresh: 180,
            fine_gain_pos: 100,
            fine_gain_neg: 30,
            coarse_gain: 88,
            base_blend: 80,
        },
        _ => ExperimentalParams {
            sigma_fine: 150,
            sigma_base: 300,
            sigma_chroma: 380,
            fine_thresh: 440,
            coarse_thresh: 200,
            fine_gain_pos: 105,
            fine_gain_neg: 32,
            coarse_gain: 90,
            base_blend: 80,
        },
    }
}

/// Parameters of the 16-bit median-then-Gaussian denoiser for a strength.
pub fn denoise_tiff_params(strength: u8) -> (p: DenoiseTiffParams)
    ensures
        p == denoise_tiff_table(level(strength)),
{
    match strength {
        1 => DenoiseTiffParams { median_kernel: 1, sigma_centi: 20 },
        2 => DenoiseTiffParams { median_kernel: 2, sigma_centi: 35 },
        3 => DenoiseTiffParams { median_kernel: 3, sigma_centi: 50 },
        4 => DenoiseTiffParams { median_kernel: 4, sigma_centi: 65 },
        _ => DenoiseTiffParams { median_kernel: 5, sigma_centi: 80 },
    }
}

/// Parameters of the 8-bit RGB unsharp mask for a strength.
pub fn sharpen_params(strength: u8) -> (p: UnsharpParams)
    ensures
        p == sharpen_table(level(strength)),
{
    let (sigma_centi, amount_centi) = match strength {
        1 => (50, 30),
        2 => (60, 45),
        3 => (80, 60),
        4 => (100, 80),
        _ => (120, 100),
    };
    UnsharpParams { sigma_centi, amount_centi }
}

/// Parameters of the luminance-only unsharp mask for a strength.
pub fn sharpen_luma_params(strength: u8) -> (p: UnsharpParams)
    ensures
        p == sharpen_luma_table(level(strength)),
{
    let (sigma_centi, amount_centi) = match strength {
        1 => (45, 60),
        2 => (55, 80),
        3 => (70, 100),
        4 => (85, 115),
        _ => (95, 130),
    };
    UnsharpParams { sigma_centi, amount_centi }
}

/// Parameters of the 16-bit (TIFF) unsharp mask for a strength.
pub fn sharpen_tiff_params(strength: u8) -> (p: UnsharpParams)
    ensures
        p == sharpen_tiff_table(level(strength)),
{
    let (sigma_centi, amount_centi) = match strength {
        1 => (35, 30),
        2 => (45, 45),
        3 => (60, 60),
        4 => (75, 80),
        _ => (90, 100),
    };
    UnsharpParams { sigma_centi, amount_centi }
}

/// Tunables of the experimental denoiser for a strength.
pub fn experimental_params(strength: u8) -> (p: ExperimentalParams)
    ensures
        p == experimental_table(level(strength)),
{
    let (
        sigma_fine,
        sigma_base,
        sigma_chroma,
        fine_thresh,
        coarse_thresh,
        fine_gain_pos,
        fine_gain_neg,
        coarse_gain,
        base_blend,
    ) = match strength {
        1 => (90, 180, 240, 220, 110, 85, 25, 80, 78),
        2 => (105, 210, 270, 270, 130, 90, 26, 82, 78),
        3 => (120, 240, 310, 320, 150, 95, 28, 85, 79),
        4 => (135, 270, 340, 380, 180, 100, 30, 88, 80),
        _ => (150, 300, 380, 440, 200, 105, 32, 90, 80),
    };
    ExperimentalParams {
        sigma_fine,
        sigma_base,
        sigma_chroma,
        fine_thresh,
        coarse_thresh,
        fine_gain_pos,
        fine_gain_neg,
        coarse_gain,
        base_blend,
    }
}

/// Number of wavelet levels the a trous denoiser decomposes into.
pub const A_TROUS_LEVELS: usize = 6;

/// Whether the a trous denoiser filters a wavelet layer: only detail layers
/// (those with a pixel scale) finer than 3 are filtered; the coarser ones and
/// the residue pass through.
pub fn a_trous_denoises_layer(pixel_scale: Option<usize>) -> (r: bool)
    ensures
        r == (pixel_scale matches Some(s) && s < 3),
{
    match pixel_scale {
        Some(s) => s < 3,
        None => false,
    }
}

/// A higher strength never selects a milder row: for strengths `a <= b`
/// (from 1 on) every tuning value of every table at `b` is at least its value
/// at `a`.
pub proof fn lemma_params_monotone(a: u8, b: u8)
    requires
        1 <= a <= b,
    ensures
        denoise_tiff_table(level(a)).median_kernel <= denoise_tiff_table(level(b)).median_kernel,
        denoise_tiff_table(level(a)).sigma_centi <= denoise_tiff_table(level(b)).sigma_centi,
        sharpen_table(level(a)).sigma_centi <= sharpen_table(level(b)).sigma_centi,
        sharpen_table(level(a)).amount_centi <= sharpen_table(level(b)).amount_centi,
        sharpen_luma_table(level(a)).sigma_centi <= sharpen_luma_table(level(b)).sigma_centi,
        sharpen_luma_table(level(a)).amount_centi <= sharpen_luma_table(level(b)).amount_centi,
        sharpen_tiff_table(level(a)).sigma_centi <= sharpen_tiff_table(level(b)).sigma_centi,
        sharpen_tiff_table(level(a)).amount_centi <= sharpen_tiff_table(level(b)).amount_centi,
        experimental_table(level(a)).sigma_fine <= experimental_table(level(b)).sigma_fine,
        experimental_table(level(a)).sigma_base <= experimental_table(level(b)).sigma_base,
        experimental_table(level(a)).sigma_chroma <= experimental_table(level(b)).sigma_chroma,
        experimental_table(level(a)).fine_thresh <= experimental_table(level(b)).fine_thresh,
        experimental_table(level(a)).coarse_thresh <= experimental_table(level(b)).coarse_thresh,
        experimental_table(level(a)).fine_gain_pos <= experimental_table(level(b)).fine_gain_pos,
        experimental_table(level(a)).fine_gain_neg <= experimental_table(level(b)).fine_gain_neg,
        experimental_table(level(a)).coarse_gain <= experimental_table(level(b)).coarse_gain,
        experimental_table(level(a)).base_blend <= experimental_table(level(b)).base_blend,
{
}

/// Strength 0 and every strength above 5 act as strength 5.
pub proof fn lemma_params_saturate(strength: u8)
    requires
        strength == 0 || strength >= 5,
    ensures
        denoise_tiff_table(level(strength)) == denoise_tiff_table(5),
        sharpen_table(level(strength)) == sharpen_table(5),
        sharpen_luma_table(level(strength)) == sharpen_luma_table(5),
        sharpen_tiff_table(level(strength)) == sharpen_tiff_table(5),
        experimental_table(level(strength)) == experimental_table(5),
{
}

/// The sharpening amount grows strictly with the strength from 1 to 5.
pub proof fn lemma_sharpen_amount_strictly_grows(a: u8, b: u8)
    requires
        1 <= a < b <= 5,
    ensures
        sharpen_table(level(a)).amount_centi < sharpen_table(level(b)).amount_centi,
        sharpen_luma_table(level(a)).amount_centi < sharpen_luma_table(level(b)).amount_centi,
        sharpen_tiff_table(level(a)).amount_centi < sharpen_tiff_table(level(b)).amount_centi,
{
}


/// The strengths 1 to 5 select five different rows: every tuning value that
/// the strength controls grows strictly with it (the base blend, which
/// saturates, excepted), in every table.
pub proof fn lemma_params_strictly_grow(a: u8, b: u8)
    requires
        1 <= a < b <= 5,
    ensures
        denoise_tiff_table(level(a)).median_kernel < denoise_tiff_table(level(b)).median_kernel,
        denoise_tiff_table(level(a)).sigma_centi < denoise_tiff_table(level(b)).sigma_centi,
        sharpen_table(level(a)).sigma_centi < sharpen_table(level(b)).sigma_centi,
        sharpen_luma_table(level(a)).sigma_centi < sharpen_luma_table(level(b)).sigma_centi,
        sharpen_tiff_table(level(a)).sigma_centi < sharpen_tiff_table(level(b)).sigma_centi,
        experimental_table(level(a)).sigma_fine < experimental_table(level(b)).sigma_fine,
        experimental_table(level(a)).sigma_base < experimental_table(level(b)).sigma_base,
        experimental_table(level(a)).sigma_chroma < experimental_table(level(b)).sigma_chroma,
        experimental_table(level(a)).fine_thresh < experimental_table(level(b)).fine_thresh,
        experimental_table(level(a)).coarse_thresh < experimental_table(level(b)).coarse_thresh,
        experimental_table(level(a)).fine_gain_pos < experimental_table(level(b)).fine_gain_pos,
        experimental_table(level(a)).fine_gain_neg < experimental_table(level(b)).fine_gain_neg,
        experimental_table(level(a)).coarse_gain < experimental_table(level(b)).coarse_gain,
{
}

/// Relations that hold across each table's rows, for every strength: the
/// median kernel of the 16-bit denoiser is the selected level itself; its
/// sigma steps by 0.15 per level from 0.20; the experimental denoiser's fine
/// blur steps by 0.15 per level from 0.90 and its coarse blur is twice the
/// fine one; its positive detail gain steps by 0.05 per level from 0.85; and
/// the 8-bit and 16-bit unsharp masks apply the same amount.
pub proof fn lemma_params_relations(s: u8)
    ensures
        denoise_tiff_table(level(s)).median_kernel == level(s),
        experimental_table(level(s)).sigma_base == 2 * experimental_table(level(s)).sigma_fine,
        experimental_table(level(s)).sigma_fine == 75 + 15 * level(s),
        experimental_table(level(s)).fine_gain_pos == 80 + 5 * level(s),
        sharpen_tiff_table(level(s)).amount_centi == sharpen_table(level(s)).amount_centi,
        denoise_tiff_table(level(s)).sigma_centi == 5 + 15 * level(s),
{
}

} // verus!
