use denoise::img_io::{
    is_tiff, loaded_format_label, save_encoding, source_format, tiff_bit_depth, DecodedLayout,
    ImageSourceFormat, SaveEncoding, TiffBitDepth,
};

#[test]
fn bit_depth_from_layout() {
    for l in [DecodedLayout::Luma16, DecodedLayout::LumaA16, DecodedLayout::Rgb16, DecodedLayout::Rgba16] {
        assert_eq!(tiff_bit_depth(l), TiffBitDepth::U16);
    }
    for l in [
        DecodedLayout::Luma8,
        DecodedLayout::LumaA8,
        DecodedLayout::Rgb8,
        DecodedLayout::Rgba8,
        DecodedLayout::Rgb32F,
        DecodedLayout::Rgba32F,
        DecodedLayout::Other,
    ] {
        assert_eq!(tiff_bit_depth(l), TiffBitDepth::U8);
    }
}

#[test]
fn tiff_round_trip_keeps_bit_depth() {
    let f = source_format(true, DecodedLayout::Rgb16);
    assert_eq!(f, ImageSourceFormat::Tiff { bit_depth: TiffBitDepth::U16 });
    assert_eq!(save_encoding(&f), SaveEncoding::Rgb16Tiff);
    assert!(is_tiff(&f));
    let f = source_format(true, DecodedLayout::Rgba8);
    assert_eq!(save_encoding(&f), SaveEncoding::Rgb8Tiff);
    let f = source_format(false, DecodedLayout::Rgb16);
    assert_eq!(f, ImageSourceFormat::StandardImage { is_tiff_format: false });
    assert_eq!(save_encoding(&f), SaveEncoding::Rgb8InSourceFormat);
    assert!(!is_tiff(&f));
}

#[test]
fn labels() {
    assert_eq!(loaded_format_label(&ImageSourceFormat::Tiff { bit_depth: TiffBitDepth::U16 }), "TIFF: U16");
    assert_eq!(loaded_format_label(&ImageSourceFormat::Tiff { bit_depth: TiffBitDepth::U8 }), "TIFF: U8");
    assert_eq!(loaded_format_label(&ImageSourceFormat::StandardImage { is_tiff_format: false }), "PNG");
}
