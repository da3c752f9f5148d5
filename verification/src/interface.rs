//! The boundary-safe parameter record and result record, and the
//! marshalling between them and the internal configuration and error
//! types.

use vstd::prelude::*;

use crate::error::CaesiumError;
use crate::parameters::{
    CSParameters, ChromaSubsampling, GifParameters, JpegParameters, PngParameters, TiffCompression,
    TiffDeflateLevel, TiffParameters, WebPParameters,
};

verus! {

/// The flat parameter record a caller fills at the boundary: plain
/// integers and flags only, one field per tunable.
#[allow(non_camel_case_types)]
#[derive(Clone, Copy, Debug, PartialEq, Eq, Structural)]
pub struct CSI_Parameters {
    pub keep_metadata: bool,
    pub jpeg_quality: u32,
    pub jpeg_chroma_subsampling: u32,
    pub jpeg_progressive: bool,
    pub png_quality: u32,
    pub png_optimization_level: u32,
    pub png_force_zopfli: bool,
    pub gif_quality: u32,
    pub webp_quality: u32,
    pub tiff_compression: u32,
    pub tiff_deflate_level: u32,
    pub optimize: bool,
    pub width: u32,
    pub height: u32,
    pub allow_magnify: bool,
    pub reduce_by_power_of_2: bool,
    pub short_side_pixels: u32,
    pub long_size_pixels: u32,
}

/// The boundary-safe outcome record: a success flag, a numeric code
/// (0 or a byte count on success, the error's code on failure) and a
/// message that is empty exactly on success.
pub struct CSI_Result {
    pub success: bool,
    pub code: u64,
    pub error_message: String,
}

/// The chroma-subsampling mode a numeric code selects: an exact match on
/// 444, 422, 420 or 411; every other code degrades to automatic mode.
pub open spec fn spec_chroma_of(code: int) -> ChromaSubsampling {
    if code == 444 {
        ChromaSubsampling::CS444
    } else if code == 422 {
        ChromaSubsampling::CS422
    } else if code == 420 {
        ChromaSubsampling::CS420
    } else if code == 411 {
        ChromaSubsampling::CS411
    } else {
        ChromaSubsampling::Auto
    }
}

/// The TIFF algorithm a numeric code selects; every unknown code degrades
/// to uncompressed.
pub open spec fn spec_tiff_compression_of(code: int) -> TiffCompression {
    if code == 1 {
        TiffCompression::Lzw
    } else if code == 2 {
        TiffCompression::Deflate
    } else if code == 3 {
        TiffCompression::Packbits
    } else {
        TiffCompression::Uncompressed
    }
}

/// The TIFF deflate tier a numeric code selects; every unknown code
/// degrades to best effort.
pub open spec fn spec_tiff_deflate_of(code: int) -> TiffDeflateLevel {
    if code == 1 {
        TiffDeflateLevel::Fast
    } else if code == 6 {
        TiffDeflateLevel::Balanced
    } else {
        TiffDeflateLevel::Best
    }
}

/// The internal configuration a boundary parameter record denotes: every
/// field copied across, the three enumerations decoded by their closed
/// numeric tables. No input is ever rejected.
pub open spec fn spec_marshalled(params: CSI_Parameters) -> CSParameters {
    CSParameters {
        jpeg: JpegParameters {
            quality: params.jpeg_quality,
            chroma_subsampling: spec_chroma_of(params.jpeg_chroma_subsampling as int),
            progressive: params.jpeg_progressive,
        },
        png: PngParameters {
            quality: params.png_quality,
            optimization_level: (params.png_optimization_level & 0xff) as u8,
            force_zopfli: params.png_force_zopfli,
        },
        gif: GifParameters { quality: params.gif_quality },
        webp: WebPParameters { quality: params.webp_quality },
        tiff: TiffParameters {
            algorithm: spec_tiff_compression_of(params.tiff_compression as int),
            deflate_level: spec_tiff_deflate_of(params.tiff_deflate_level as int),
        },
        keep_metadata: params.keep_metadata,
        optimize: params.optimize,
        width: params.width,
        height: params.height,
        allow_magnify: params.allow_magnify,
        reduce_by_power_of_2: params.reduce_by_power_of_2,
        short_side_pixels: params.short_side_pixels,
        long_size_pixels: params.long_size_pixels,
    }
}

/// Translate the flat boundary record into the internal configuration.
/// Unknown enumeration codes never fail: they select the documented
/// default (automatic chroma, uncompressed TIFF, best-effort deflate).
pub fn csi_set_parameters(params: CSI_Parameters) -> (r: CSParameters)
    ensures
        r == spec_marshalled(params),
{
    let mut parameters = CSParameters::new();

    parameters.jpeg.quality = params.jpeg_quality;
    parameters.jpeg.progressive = params.jpeg_progressive;
    parameters.png.quality = params.png_quality;
    parameters.optimize = params.optimize;
    parameters.keep_metadata = params.keep_metadata;
    parameters.png.optimization_level = (params.png_optimization_level & 0xff) as u8;
    parameters.png.force_zopfli = params.png_force_zopfli;
    parameters.gif.quality = params.gif_quality;
    parameters.webp.quality = params.webp_quality;
    parameters.width = params.width;
    parameters.height = params.height;
    parameters.allow_magnify = params.allow_magnify;
    parameters.reduce_by_power_of_2 = params.reduce_by_power_of_2;
    parameters.short_side_pixels = params.short_side_pixels;
    parameters.long_size_pixels = params.long_size_pixels;

    parameters.jpeg.chroma_subsampling = if params.jpeg_chroma_subsampling == 444 {
        ChromaSubsampling::CS444
    } else if params.jpeg_chroma_subsampling == 422 {
        ChromaSubsampling::CS422
    } else if params.jpeg_chroma_subsampling == 420 {
        ChromaSubsampling::CS420
    } else if params.jpeg_chroma_subsampling == 411 {
        ChromaSubsampling::CS411
    } else {
        ChromaSubsampling::Auto
    };

    parameters.tiff.algorithm = if params.tiff_compression == 1 {
        TiffCompression::Lzw
    } else if params.tiff_compression == 2 {
        TiffCompression::Deflate
    } else if params.tiff_compression == 3 {
        TiffCompression::Packbits
    } else {
        TiffCompression::Uncompressed
    };

    parameters.tiff.deflate_level = if params.tiff_deflate_level == 1 {
        TiffDeflateLevel::Fast
    } else if params.tiff_deflate_level == 6 {
        TiffDeflateLevel::Balanced
    } else {
        TiffDeflateLevel::Best
    };

    parameters
}

/// Convert an internal outcome without a byte count into the boundary
/// record. Success reports code 0 and an empty message; failure reports
/// the error's own code and message.
pub fn csi_return_result(result: Result<(), CaesiumError>) -> (r: CSI_Result)
    requires
        result matches Err(e) ==> e.wf(),
    ensures
        r.success <==> result is Ok,
        result is Ok ==> r.code == 0 && r.error_message@ == Seq::<char>::empty(),
        result matches Err(e) ==> r.code == e.code && r.code != 0 && r.error_message@
            == e.message@ && r.error_message@.len() > 0,
{
    match result {
        Ok(_) => CSI_Result { success: true, code: 0, error_message: String::new() },
        Err(e) => CSI_Result { success: false, code: e.code, error_message: e.message },
    }
}

/// Convert an internal outcome carrying a byte count into the boundary
/// record. On success the code field holds the byte count; failure is
/// reported exactly as in `csi_return_result`.
pub fn csi_return_result_u64(result: Result<u64, CaesiumError>) -> (r: CSI_Result)
    requires
        result matches Err(e) ==> e.wf(),
    ensures
        r.success <==> result is Ok,
        result matches Ok(len) ==> r.code == len && r.error_message@ == Seq::<char>::empty(),
        result matches Err(e) ==> r.code == e.code && r.code != 0 && r.error_message@
            == e.message@ && r.error_message@.len() > 0,
{
    match result {
        Ok(len) => CSI_Result { success: true, code: len, error_message: String::new() },
        Err(e) => CSI_Result { success: false, code: e.code, error_message: e.message },
    }
}

} // verus!
