//! The internal structured compression configuration: per-format
//! sub-records plus the cross-format flags and the sizing request.

use vstd::prelude::*;

verus! {

/// The closed set of container formats the library knows.
#[derive(Clone, Copy, Debug, PartialEq, Eq, Structural)]
pub enum SupportedFileTypes {
    Jpeg,
    Png,
    Gif,
    WebP,
    Tiff,
    Unkn,
}

/// JPEG chroma-subsampling mode. `Auto` leaves the choice to the encoder.
#[derive(Clone, Copy, Debug, PartialEq, Eq, Structural)]
pub enum ChromaSubsampling {
    CS444,
    CS422,
    CS420,
    CS411,
    Auto,
}

/// TIFF compression algorithm.
#[derive(Clone, Copy, Debug, PartialEq, Eq, Structural)]
pub enum TiffCompression {
    Uncompressed,
    Lzw,
    Deflate,
    Packbits,
}

/// TIFF deflate effort tier.
#[derive(Clone, Copy, Debug, PartialEq, Eq, Structural)]
pub enum TiffDeflateLevel {
    Fast,
    Balanced,
    Best,
}

/// JPEG encoder settings.
#[derive(Clone, Copy, Debug, PartialEq, Eq, Structural)]
pub struct JpegParameters {
    pub quality: u32,
    pub chroma_subsampling: ChromaSubsampling,
    pub progressive: bool,
}

/// PNG encoder settings.
#[derive(Clone, Copy, Debug, PartialEq, Eq, Structural)]
pub struct PngParameters {
    pub quality: u32,
    pub optimization_level: u8,
    pub force_zopfli: bool,
}

/// GIF encoder settings.
#[derive(Clone, Copy, Debug, PartialEq, Eq, Structural)]
pub struct GifParameters {
    pub quality: u32,
}

/// WebP encoder settings.
#[derive(Clone, Copy, Debug, PartialEq, Eq, Structural)]
pub struct WebPParameters {
    pub quality: u32,
}

/// TIFF encoder settings.
#[derive(Clone, Copy, Debug, PartialEq, Eq, Structural)]
pub struct TiffParameters {
    pub algorithm: TiffCompression,
    pub deflate_level: TiffDeflateLevel,
}

/// The format-agnostic configuration envelope: per-format sub-records,
/// cross-format flags, and the sizing request. Built once per operation.
#[derive(Clone, Copy, Debug, PartialEq, Eq, Structural)]
pub struct CSParameters {
    pub jpeg: JpegParameters,
    pub png: PngParameters,
    pub gif: GifParameters,
    pub webp: WebPParameters,
    pub tiff: TiffParameters,
    pub keep_metadata: bool,
    pub optimize: bool,
    pub width: u32,
    pub height: u32,
    pub allow_magnify: bool,
    pub reduce_by_power_of_2: bool,
    pub short_side_pixels: u32,
    pub long_size_pixels: u32,
}

impl CSParameters {
    /// A configuration with every numeric field zero, every flag off,
    /// automatic chroma subsampling and uncompressed TIFF at best effort.
    pub fn new() -> (r: CSParameters)
        ensures
            r == (CSParameters {
                jpeg: JpegParameters {
                    quality: 0,
                    chroma_subsampling: ChromaSubsampling::Auto,
                    progressive: false,
                },
                png: PngParameters { quality: 0, optimization_level: 0, force_zopfli: false },
                gif: GifParameters { quality: 0 },
                webp: WebPParameters { quality: 0 },
                tiff: TiffParameters {
                    algorithm: TiffCompression::Uncompressed,
                    deflate_level: TiffDeflateLevel::Best,
                },
                keep_metadata: false,
                optimize: false,
                width: 0,
                height: 0,
                allow_magnify: false,
                reduce_by_power_of_2: false,
                short_side_pixels: 0,
                long_size_pixels: 0,
            }),
    {
        CSParameters {
            jpeg: JpegParameters {
                quality: 0,
                chroma_subsampling: ChromaSubsampling::Auto,
                progressive: false,
            },
            png: PngParameters { quality: 0, optimization_level: 0, force_zopfli: false },
            gif: GifParameters { quality: 0 },
            webp: WebPParameters { quality: 0 },
            tiff: TiffParameters {
                algorithm: TiffCompression::Uncompressed,
                deflate_level: TiffDeflateLevel::Best,
            },
            keep_metadata: false,
            optimize: false,
            width: 0,
            height: 0,
            allow_magnify: false,
            reduce_by_power_of_2: false,
            short_side_pixels: 0,
            long_size_pixels: 0,
        }
    }
}

} // verus!
