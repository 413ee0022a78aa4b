use denoise::params::{
    a_trous_denoises_layer, denoise_tiff_params, experimental_params, sharpen_luma_params,
    sharpen_params, sharpen_tiff_params, A_TROUS_LEVELS,
};

#[test]
fn denoise_tiff_table() {
    let rows: Vec<(u32, u32)> = (1..=5u8)
        .map(|s| {
            let p = denoise_tiff_params(s);
            (p.median_kernel, p.sigma_centi)
        })
        .collect();
    assert_eq!(rows, vec![(1, 20), (2, 35), (3, 50), (4, 65), (5, 80)]);
    assert_eq!(denoise_tiff_params(0), denoise_tiff_params(5));
    assert_eq!(denoise_tiff_params(9), denoise_tiff_params(5));
}

#[test]
fn sharpen_tables() {
    let table = |f: fn(u8) -> denoise::params::UnsharpParams| -> Vec<(u32, u32)> {
        (1..=5u8).map(|s| (f(s).sigma_centi, f(s).amount_centi)).collect()
    };
    assert_eq!(table(sharpen_params), vec![(50, 30), (60, 45), (80, 60), (100, 80), (120, 100)]);
    assert_eq!(table(sharpen_luma_params), vec![(45, 60), (55, 80), (70, 100), (85, 115), (95, 130)]);
    assert_eq!(table(sharpen_tiff_params), vec![(35, 30), (45, 45), (60, 60), (75, 80), (90, 100)]);
    assert_eq!(sharpen_params(0), sharpen_params(5));
    assert_eq!(sharpen_luma_params(200), sharpen_luma_params(5));
    assert_eq!(sharpen_tiff_params(6), sharpen_tiff_params(5));
}

#[test]
fn experimental_table() {
    let p = experimental_params(1);
    assert_eq!(
        (p.sigma_fine, p.sigma_base, p.sigma_chroma, p.fine_thresh, p.coarse_thresh),
        (90, 180, 240, 220, 110)
    );
    assert_eq!((p.fine_gain_pos, p.fine_gain_neg, p.coarse_gain, p.base_blend), (85, 25, 80, 78));
    let p = experimental_params(3);
    assert_eq!(
        (p.sigma_fine, p.sigma_base, p.sigma_chroma, p.fine_thresh, p.coarse_thresh),
        (120, 240, 310, 320, 150)
    );
    assert_eq!((p.fine_gain_pos, p.fine_gain_neg, p.coarse_gain, p.base_blend), (95, 28, 85, 79));
    let p = experimental_params(5);
    assert_eq!(
        (p.sigma_fine, p.sigma_base, p.sigma_chroma, p.fine_thresh, p.coarse_thresh),
        (150, 300, 380, 440, 200)
    );
    assert_eq!((p.fine_gain_pos, p.fine_gain_neg, p.coarse_gain, p.base_blend), (105, 32, 90, 80));
    assert_eq!(experimental_params(0), experimental_params(5));
}

#[test]
fn stronger_never_milder() {
    for a in 1..=6u8 {
        for b in a..=6u8 {
            assert!(denoise_tiff_params(a).median_kernel <= denoise_tiff_params(b).median_kernel);
            assert!(sharpen_params(a).amount_centi <= sharpen_params(b).amount_centi);
            assert!(experimental_params(a).fine_thresh <= experimental_params(b).fine_thresh);
            assert!(experimental_params(a).base_blend <= experimental_params(b).base_blend);
        }
    }
}

#[test]
fn hundredths_match_decimal_literals() {
    assert_eq!(sharpen_luma_params(4).amount_centi as f32 / 100.0, 1.15f32);
    assert_eq!(experimental_params(2).sigma_fine as f32 / 100.0, 1.05f32);
    assert_eq!(denoise_tiff_params(4).sigma_centi as f32 / 100.0, 0.65f32);
}

#[test]
fn a_trous_layer_choice() {
    assert_eq!(A_TROUS_LEVELS, 6);
    assert!(a_trous_denoises_layer(Some(0)));
    assert!(a_trous_denoises_layer(Some(2)));
    assert!(!a_trous_denoises_layer(Some(3)));
    assert!(!a_trous_denoises_layer(None));
}

#[test]
fn sharpening_amount_grows_with_strength() {
    for a in 1..5u8 {
        assert!(sharpen_params(a).amount_centi < sharpen_params(a + 1).amount_centi);
        assert!(sharpen_luma_params(a).amount_centi < sharpen_luma_params(a + 1).amount_centi);
        assert!(sharpen_tiff_params(a).amount_centi < sharpen_tiff_params(a + 1).amount_centi);
    }
}
