use libcaesium::compress::{accept_size_target, compress_fromto, convert_fromto, write_buffer};
use libcaesium::parameters::{CSParameters, SupportedFileTypes};
use libcaesium::resize::{resize_image_n, resize_n};

fn png_bytes(width: u32, height: u32) -> Vec<u8> {
    let img = image::DynamicImage::ImageRgb8(image::RgbImage::from_pixel(
        width,
        height,
        image::Rgb([40u8, 90u8, 160u8]),
    ));
    let mut out: Vec<u8> = Vec::new();
    img.write_to(&mut std::io::Cursor::new(&mut out), image::ImageFormat::Png)
        .unwrap();
    out
}

fn jpeg_bytes(width: u32, height: u32) -> Vec<u8> {
    let img = image::DynamicImage::ImageRgb8(image::RgbImage::from_pixel(
        width,
        height,
        image::Rgb([40u8, 90u8, 160u8]),
    ));
    let mut out: Vec<u8> = Vec::new();
    img.write_to(&mut std::io::Cursor::new(&mut out), image::ImageFormat::Jpeg)
        .unwrap();
    out
}

/// A JPEG with an APP1 EXIF segment carrying the given orientation value,
/// spliced in right after the start-of-image marker.
fn jpeg_bytes_with_orientation(width: u32, height: u32, orientation: u16) -> Vec<u8> {
    let plain = jpeg_bytes(width, height);
    assert_eq!(&plain[..2], &[0xFF, 0xD8]);
    let mut app1: Vec<u8> = Vec::new();
    app1.extend_from_slice(&[0xFF, 0xE1, 0x00, 0x22]); // marker, length 34
    app1.extend_from_slice(b"Exif\0\0");
    app1.extend_from_slice(&[0x4D, 0x4D, 0x00, 0x2A]); // big-endian TIFF header
    app1.extend_from_slice(&[0x00, 0x00, 0x00, 0x08]); // first IFD at offset 8
    app1.extend_from_slice(&[0x00, 0x01]); // one entry
    app1.extend_from_slice(&[0x01, 0x12, 0x00, 0x03, 0x00, 0x00, 0x00, 0x01]); // orientation, SHORT, count 1
    app1.extend_from_slice(&orientation.to_be_bytes());
    app1.extend_from_slice(&[0x00, 0x00]); // value padding
    app1.extend_from_slice(&[0x00, 0x00, 0x00, 0x00]); // no next IFD
    let mut out = plain[..2].to_vec();
    out.extend_from_slice(&app1);
    out.extend_from_slice(&plain[2..]);
    out
}

fn decoded_dims(bytes: &[u8]) -> (u32, u32) {
    let img = image::ImageReader::new(std::io::Cursor::new(bytes))
        .with_guessed_format()
        .unwrap()
        .decode()
        .unwrap();
    (img.width(), img.height())
}

#[test]
fn resize_downscales_to_requested_size() {
    let out = resize_n(png_bytes(10, 8), false, false, 5, 4, 0, 0, SupportedFileTypes::Png).unwrap();
    assert_eq!(decoded_dims(&out), (5, 4));
}

#[test]
fn magnify_guard_returns_input_unchanged() {
    let src = png_bytes(10, 8);
    let out = resize_n(src.clone(), false, false, 20, 20, 0, 0, SupportedFileTypes::Png).unwrap();
    assert_eq!(out, src);
}

#[test]
fn magnify_allowed_upscales() {
    let out = resize_n(png_bytes(10, 8), true, false, 20, 16, 0, 0, SupportedFileTypes::Png).unwrap();
    assert_eq!(decoded_dims(&out), (20, 16));
}

#[test]
fn orientation_six_swaps_the_request() {
    let src = jpeg_bytes_with_orientation(10, 8, 6);
    let out = resize_n(src, false, false, 4, 6, 0, 0, SupportedFileTypes::Jpeg).unwrap();
    // the 4x6 request acts as 6x4 on the unrotated pixel grid
    assert_eq!(decoded_dims(&out), (6, 4));
}

#[test]
fn upright_orientation_keeps_the_request() {
    let src = jpeg_bytes_with_orientation(10, 8, 1);
    let out = resize_n(src, false, false, 6, 4, 0, 0, SupportedFileTypes::Jpeg).unwrap();
    assert_eq!(decoded_dims(&out), (6, 4));
}

#[test]
fn garbage_input_reports_a_decode_error() {
    let e = resize_n(vec![1, 2, 3, 4], false, false, 5, 4, 0, 0, SupportedFileTypes::Png)
        .unwrap_err();
    assert_eq!(e.code, 10301);
}

#[test]
fn write_buffer_fills_the_prefix_only() {
    let data: Vec<u8> = vec![1, 2, 3];
    let mut dest: Vec<u8> = vec![9, 9, 9, 9, 9];
    let n = write_buffer(&data, &mut dest).unwrap();
    assert_eq!(n, 3);
    assert_eq!(dest, vec![1, 2, 3, 9, 9]);
}

#[test]
fn write_buffer_checks_capacity_before_writing() {
    let data: Vec<u8> = vec![1, 2, 3, 4, 5];
    let mut dest: Vec<u8> = vec![9, 9, 9];
    let e = write_buffer(&data, &mut dest).unwrap_err();
    assert_eq!(e.code, 10304);
    assert_eq!(dest, vec![9, 9, 9]);
}

#[test]
fn compress_into_round_trips_through_the_buffer() {
    let mut params = CSParameters::new();
    params.width = 5;
    params.height = 4;
    let mut output: Vec<u8> = vec![0; 65536];
    let n = compress_fromto(png_bytes(10, 8), &mut output, &params).unwrap() as usize;
    assert!(n > 0);
    // reading exactly the reported byte count reproduces a decodable file
    assert_eq!(decoded_dims(&output[..n]), (5, 4));
}

#[test]
fn compress_reports_a_too_small_buffer() {
    let mut params = CSParameters::new();
    params.width = 5;
    params.height = 4;
    let mut output: Vec<u8> = vec![7; 4];
    let e = compress_fromto(png_bytes(10, 8), &mut output, &params).unwrap_err();
    assert_eq!(e.code, 10304);
    assert_eq!(output, vec![7; 4]);
}

#[test]
fn compress_rejects_an_unknown_container() {
    let mut output: Vec<u8> = vec![0; 64];
    let e = compress_fromto(vec![0, 1, 2, 3], &mut output, &CSParameters::new()).unwrap_err();
    assert_eq!(e.code, 10300);
}

#[test]
fn convert_reencodes_in_the_target_format() {
    let mut params = CSParameters::new();
    params.width = 5;
    params.height = 4;
    let mut output: Vec<u8> = vec![0; 65536];
    let n = convert_fromto(
        png_bytes(10, 8),
        &mut output,
        &params,
        SupportedFileTypes::Jpeg,
    )
    .unwrap() as usize;
    assert_eq!(image::guess_format(&output[..n]).unwrap(), image::ImageFormat::Jpeg);
    assert_eq!(decoded_dims(&output[..n]), (5, 4));
}

#[test]
fn size_target_refuses_oversized_output() {
    let data: Vec<u8> = vec![1, 2, 3, 4, 5];
    let e = accept_size_target(data.clone(), 4, false).unwrap_err();
    assert_eq!(e.code, 10203);
    assert!(!e.message.is_empty());
    // the smallest-achieved fallback hands the output back instead
    assert_eq!(accept_size_target(data.clone(), 4, true).unwrap(), data);
    assert_eq!(accept_size_target(data.clone(), 5, false).unwrap(), data);
}

#[test]
fn failure_messages_are_never_empty() {
    let e = resize_n(vec![1, 2, 3, 4], false, false, 5, 4, 0, 0, SupportedFileTypes::Png)
        .unwrap_err();
    assert!(!e.message.is_empty());
    let mut output: Vec<u8> = vec![0; 64];
    let e = compress_fromto(vec![0, 1, 2, 3], &mut output, &CSParameters::new()).unwrap_err();
    assert!(!e.message.is_empty());
}

#[test]
fn image_variant_resizes_and_guards() {
    let img = image::DynamicImage::ImageRgb8(image::RgbImage::from_pixel(
        10,
        8,
        image::Rgb([40u8, 90u8, 160u8]),
    ));
    let out = resize_image_n(img.clone(), false, false, 5, 4, 0, 0);
    assert_eq!((out.width(), out.height()), (5, 4));
    // the magnify guard hands the image back at its own size
    let out = resize_image_n(img.clone(), false, false, 20, 20, 0, 0);
    assert_eq!((out.width(), out.height()), (10, 8));
    let out = resize_image_n(img, true, false, 20, 16, 0, 0);
    assert_eq!((out.width(), out.height()), (20, 16));
}
