use vstd::prelude::*;

verus! {

/// Bit depth kept for a TIFF source so that the output keeps it.
#[derive(Clone, Copy, Debug, PartialEq, Eq, Structural)]
pub enum TiffBitDepth {
    U8,
    U16,
}

/// What the library needs to know of the format an image was read in.
#[derive(Clone, Copy, Debug, PartialEq, Eq, Structural)]
pub enum ImageSourceFormat {
    /// A format other than TIFF as the decoder reported it; `is_tiff_format`
    /// says whether that reported format is nonetheless TIFF.
    StandardImage { is_tiff_format: bool },
    /// A TIFF source with the bit depth of its decoded samples.
    Tiff { bit_depth: TiffBitDepth },
}

/// The sample layout of a decoded image.
#[derive(Clone, Copy, Debug, PartialEq, Eq, Structural)]
pub enum DecodedLayout {
    Luma8,
    LumaA8,
    Rgb8,
    Rgba8,
    Luma16,
    LumaA16,
    Rgb16,
    Rgba16,
    Rgb32F,
    Rgba32F,
    /// A layout this library does not name.
    Other,
}

/// How the processed image is encoded when it is written.
#[derive(Clone, Copy, Debug, PartialEq, Eq, Structural)]
pub enum SaveEncoding {
    /// 8-bit RGB in the format the source was read in.
    Rgb8InSourceFormat,
    /// 8-bit RGB TIFF.
    Rgb8Tiff,
    /// 16-bit RGB TIFF.
    Rgb16Tiff,
}

/// The layouts whose samples have 16 bits.
pub open spec fn is_16_bit(layout: DecodedLayout) -> bool {
    layout == DecodedLayout::Luma16 || layout == DecodedLayout::LumaA16 || layout
        == DecodedLayout::Rgb16 || layout == DecodedLayout::Rgba16
}

pub open spec fn spec_tiff_bit_depth(layout: DecodedLayout) -> TiffBitDepth {
    if is_16_bit(layout) {
        TiffBitDepth::U16
    } else {
        TiffBitDepth::U8
    }
}

pub open spec fn spec_source_format(format_is_tiff: bool, layout: DecodedLayout) -> ImageSourceFormat {
    if format_is_tiff {
        ImageSourceFormat::Tiff { bit_depth: spec_tiff_bit_depth(layout) }
    } else {
        ImageSourceFormat::StandardImage { is_tiff_format: false }
    }
}

pub open spec fn spec_save_encoding(format: ImageSourceFormat) -> SaveEncoding {
    match format {
        ImageSourceFormat::StandardImage { .. } => SaveEncoding::Rgb8InSourceFormat,
        ImageSourceFormat::Tiff { bit_depth: TiffBitDepth::U8 } => SaveEncoding::Rgb8Tiff,
        ImageSourceFormat::Tiff { bit_depth: TiffBitDepth::U16 } => SaveEncoding::Rgb16Tiff,
    }
}

/// Whether the output of this source is written as TIFF.
pub open spec fn spec_is_tiff(format: ImageSourceFormat) -> bool {
    match format {
        ImageSourceFormat::Tiff { .. } => true,
        ImageSourceFormat::StandardImage { is_tiff_format } => is_tiff_format,
    }
}

/// 16-bit samples keep 16 bits, every other layout is written with 8.
pub fn tiff_bit_depth(layout: DecodedLayout) -> (d: TiffBitDepth)
    ensures
        d == spec_tiff_bit_depth(layout),
{
    match layout {
        DecodedLayout::Rgb16 | DecodedLayout::Rgba16 | DecodedLayout::Luma16
        | DecodedLayout::LumaA16 => TiffBitDepth::U16,
        _ => TiffBitDepth::U8,
    }
}

/// The source format recorded for an image that the decoder read, from
/// whether the detected format is TIFF and the layout of the decoded samples.
pub fn source_format(format_is_tiff: bool, layout: DecodedLayout) -> (f: ImageSourceFormat)
    ensures
        f == spec_source_format(format_is_tiff, layout),
{
    if format_is_tiff {
        ImageSourceFormat::Tiff { bit_depth: tiff_bit_depth(layout) }
    } else {
        ImageSourceFormat::StandardImage { is_tiff_format: false }
    }
}

/// How an image from this source is written back: TIFF stays TIFF at its
/// bit depth, other formats are written as 8-bit RGB in their own format.
pub fn save_encoding(format: &ImageSourceFormat) -> (e: SaveEncoding)
    ensures
        e == spec_save_encoding(*format),
{
    match format {
        ImageSourceFormat::StandardImage { .. } => SaveEncoding::Rgb8InSourceFormat,
        ImageSourceFormat::Tiff { bit_depth } => match bit_depth {
            TiffBitDepth::U8 => SaveEncoding::Rgb8Tiff,
            TiffBitDepth::U16 => SaveEncoding::Rgb16Tiff,
        },
    }
}

/// Whether the output of this source is written as TIFF.
pub fn is_tiff(format: &ImageSourceFormat) -> (b: bool)
    ensures
        b == spec_is_tiff(*format),
{
    match format {
        ImageSourceFormat::Tiff { .. } => true,
        ImageSourceFormat::StandardImage { is_tiff_format } => *is_tiff_format,
    }
}

/// The label under which the loaded format is reported.
pub fn loaded_format_label(format: &ImageSourceFormat) -> (s: String)
    ensures
        s@ == match *format {
            ImageSourceFormat::Tiff { bit_depth: TiffBitDepth::U8 } => "TIFF: U8"@,
            ImageSourceFormat::Tiff { bit_depth: TiffBitDepth::U16 } => "TIFF: U16"@,
            ImageSourceFormat::StandardImage { .. } => "PNG"@,
        },
{
    match format {
        ImageSourceFormat::Tiff { bit_depth } => match bit_depth {
            TiffBitDepth::U8 => String::from_str("TIFF: U8"),
            TiffBitDepth::U16 => String::from_str("TIFF: U16"),
        },
        ImageSourceFormat::StandardImage { .. } => String::from_str("PNG"),
    }
}

/// TIFF stays TIFF and keeps its bit depth: an image read as TIFF is written
/// as TIFF with 16-bit samples exactly when it was decoded with 16-bit
/// samples, and an image read in another format is written in that format.
pub proof fn lemma_save_keeps_source(format_is_tiff: bool, layout: DecodedLayout)
    ensures
        format_is_tiff ==> spec_is_tiff(spec_source_format(format_is_tiff, layout)),
        format_is_tiff ==> (spec_save_encoding(spec_source_format(format_is_tiff, layout))
            == SaveEncoding::Rgb16Tiff <==> is_16_bit(layout)),
        format_is_tiff ==> spec_save_encoding(spec_source_format(format_is_tiff, layout))
            != SaveEncoding::Rgb8InSourceFormat,
        !format_is_tiff ==> spec_save_encoding(spec_source_format(format_is_tiff, layout))
            == SaveEncoding::Rgb8InSourceFormat,
        !format_is_tiff ==> !spec_is_tiff(spec_source_format(format_is_tiff, layout)),
{
}

} // verus!
