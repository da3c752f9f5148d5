use libcaesium::error::CaesiumError;
use libcaesium::interface::{csi_return_result, csi_return_result_u64, csi_set_parameters, CSI_Parameters};
use libcaesium::parameters::{ChromaSubsampling, TiffCompression, TiffDeflateLevel};

fn base_params() -> CSI_Parameters {
    CSI_Parameters {
        keep_metadata: false,
        jpeg_quality: 80,
        jpeg_chroma_subsampling: 0,
        jpeg_progressive: false,
        png_quality: 80,
        png_optimization_level: 3,
        png_force_zopfli: false,
        gif_quality: 80,
        webp_quality: 60,
        tiff_compression: 0,
        tiff_deflate_level: 0,
        optimize: false,
        width: 0,
        height: 0,
        allow_magnify: false,
        reduce_by_power_of_2: false,
        short_side_pixels: 0,
        long_size_pixels: 0,
    }
}

#[test]
fn chroma_codes_map_exactly() {
    let mut p = base_params();
    p.jpeg_chroma_subsampling = 444;
    assert_eq!(csi_set_parameters(p).jpeg.chroma_subsampling, ChromaSubsampling::CS444);
    p.jpeg_chroma_subsampling = 422;
    assert_eq!(csi_set_parameters(p).jpeg.chroma_subsampling, ChromaSubsampling::CS422);
    p.jpeg_chroma_subsampling = 420;
    assert_eq!(csi_set_parameters(p).jpeg.chroma_subsampling, ChromaSubsampling::CS420);
    p.jpeg_chroma_subsampling = 411;
    assert_eq!(csi_set_parameters(p).jpeg.chroma_subsampling, ChromaSubsampling::CS411);
}

#[test]
fn unknown_chroma_code_selects_auto() {
    let mut p = base_params();
    p.jpeg_chroma_subsampling = 999;
    assert_eq!(csi_set_parameters(p).jpeg.chroma_subsampling, ChromaSubsampling::Auto);
    p.jpeg_chroma_subsampling = 0;
    assert_eq!(csi_set_parameters(p).jpeg.chroma_subsampling, ChromaSubsampling::Auto);
    p.jpeg_chroma_subsampling = 443;
    assert_eq!(csi_set_parameters(p).jpeg.chroma_subsampling, ChromaSubsampling::Auto);
}

#[test]
fn tiff_codes_map_exactly() {
    let mut p = base_params();
    p.tiff_compression = 1;
    assert_eq!(csi_set_parameters(p).tiff.algorithm, TiffCompression::Lzw);
    p.tiff_compression = 2;
    assert_eq!(csi_set_parameters(p).tiff.algorithm, TiffCompression::Deflate);
    p.tiff_compression = 3;
    assert_eq!(csi_set_parameters(p).tiff.algorithm, TiffCompression::Packbits);
    p.tiff_compression = 0;
    assert_eq!(csi_set_parameters(p).tiff.algorithm, TiffCompression::Uncompressed);
    p.tiff_compression = 7;
    assert_eq!(csi_set_parameters(p).tiff.algorithm, TiffCompression::Uncompressed);

    p.tiff_deflate_level = 1;
    assert_eq!(csi_set_parameters(p).tiff.deflate_level, TiffDeflateLevel::Fast);
    p.tiff_deflate_level = 6;
    assert_eq!(csi_set_parameters(p).tiff.deflate_level, TiffDeflateLevel::Balanced);
    p.tiff_deflate_level = 9;
    assert_eq!(csi_set_parameters(p).tiff.deflate_level, TiffDeflateLevel::Best);
}

#[test]
fn plain_fields_copy_across() {
    let mut p = base_params();
    p.keep_metadata = true;
    p.optimize = true;
    p.width = 123;
    p.height = 456;
    p.allow_magnify = true;
    p.reduce_by_power_of_2 = true;
    p.short_side_pixels = 7;
    p.long_size_pixels = 9;
    p.jpeg_progressive = true;
    p.png_force_zopfli = true;
    let c = csi_set_parameters(p);
    assert!(c.keep_metadata);
    assert!(c.optimize);
    assert_eq!(c.width, 123);
    assert_eq!(c.height, 456);
    assert!(c.allow_magnify);
    assert!(c.reduce_by_power_of_2);
    assert_eq!(c.short_side_pixels, 7);
    assert_eq!(c.long_size_pixels, 9);
    assert!(c.jpeg.progressive);
    assert!(c.png.force_zopfli);
    assert_eq!(c.jpeg.quality, 80);
    assert_eq!(c.png.quality, 80);
    assert_eq!(c.png.optimization_level, 3);
    assert_eq!(c.gif.quality, 80);
    assert_eq!(c.webp.quality, 60);
}

#[test]
fn success_marshals_to_code_zero() {
    let r = csi_return_result(Ok(()));
    assert!(r.success);
    assert_eq!(r.code, 0);
    assert!(r.error_message.is_empty());
}

#[test]
fn failure_marshals_code_and_message() {
    let r = csi_return_result(Err(CaesiumError {
        message: String::from("it broke"),
        code: 10301,
    }));
    assert!(!r.success);
    assert_eq!(r.code, 10301);
    assert_eq!(r.error_message, "it broke");
}

#[test]
fn byte_count_rides_in_the_code_field() {
    let r = csi_return_result_u64(Ok(42));
    assert!(r.success);
    assert_eq!(r.code, 42);
    assert!(r.error_message.is_empty());

    let r = csi_return_result_u64(Err(CaesiumError {
        message: String::from("no room"),
        code: 10304,
    }));
    assert!(!r.success);
    assert_eq!(r.code, 10304);
    assert_eq!(r.error_message, "no room");
}
