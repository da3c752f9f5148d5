//! The trusted boundary to the `image` and `exif` codec crates.
//!
//! Everything the codecs compute is deterministic in the bytes handed to
//! them, so the results are named by uninterpreted spec functions; each
//! wrapper's contract ties its call to the name.

use vstd::prelude::*;

use crate::parameters::SupportedFileTypes;

verus! {

/// The pixel dimensions the `image` crate decodes from a byte buffer with
/// format auto-detection, or nothing when the buffer cannot be decoded.
pub uninterp spec fn decoded_size(b: Seq<u8>) -> Option<(u32, u32)>;

/// The bytes the `image` crate produces when it decodes `b`, resamples to
/// `w` by `h` with the Lanczos3 filter and re-encodes in the format with
/// code `fmt_code`, or nothing when encoding fails.
pub uninterp spec fn encoded_resized(b: Seq<u8>, w: int, h: int, fmt_code: int) -> Option<Seq<u8>>;

/// The EXIF orientation value the `exif` crate reads from a raw buffer,
/// defaulting to 1 when the buffer has no readable orientation tag.
pub uninterp spec fn jpeg_orientation_of(b: Seq<u8>) -> u32;

/// The container format the `image` crate detects from a buffer's magic
/// bytes, as a format code; an undetectable container has the code of
/// `SupportedFileTypes::Unkn`.
pub uninterp spec fn detected_kind_code(b: Seq<u8>) -> int;

/// The pixel dimensions of a decoded image value.
pub uninterp spec fn image_size(img: image::DynamicImage) -> (u32, u32);

/// The image the `image` crate produces when it resamples `img` to `w`
/// by `h` with the Lanczos3 filter.
pub uninterp spec fn resized_image(img: image::DynamicImage, w: u32, h: u32) -> image::DynamicImage;

/// A stable numeric code for each container format.
pub open spec fn kind_code(fmt: SupportedFileTypes) -> int {
    match fmt {
        SupportedFileTypes::Jpeg => 0,
        SupportedFileTypes::Png => 1,
        SupportedFileTypes::Gif => 2,
        SupportedFileTypes::WebP => 3,
        SupportedFileTypes::Tiff => 4,
        SupportedFileTypes::Unkn => 5,
    }
}

/// The container format a numeric code denotes (the inverse of
/// `kind_code`; every unassigned code denotes `Unkn`).
pub open spec fn kind_of(code: int) -> SupportedFileTypes {
    if code == 0 {
        SupportedFileTypes::Jpeg
    } else if code == 1 {
        SupportedFileTypes::Png
    } else if code == 2 {
        SupportedFileTypes::Gif
    } else if code == 3 {
        SupportedFileTypes::WebP
    } else if code == 4 {
        SupportedFileTypes::Tiff
    } else {
        SupportedFileTypes::Unkn
    }
}

/// How decoding a buffer failed: the container could not be read at all,
/// or it was recognised but its payload could not be decoded.
pub enum DecodeFailure {
    Guess(String),
    Decode(String),
}

/// Probe the dimensions of an encoded image.
///
/// Relies on `image::ImageReader`: `new` over an in-memory cursor,
/// `with_guessed_format` and `decode`, then `width`/`height` of the
/// decoded image. All of them read nothing but the buffer, so the outcome
/// is a function of the bytes alone. `with_guessed_format` can fail only
/// on io, which an in-memory cursor never raises (the crate's own doc
/// example relies on this), so the `Guess` variant never comes back: a
/// buffer whose format cannot be inferred fails in `decode` instead.
#[verifier::external_body]
pub(crate) fn probe_dimensions(buffer: &Vec<u8>) -> (r: Result<(u32, u32), DecodeFailure>)
    ensures
        r is Ok <==> decoded_size(buffer@) is Some,
        r matches Ok(d) ==> decoded_size(buffer@) == Some(d),
        !(r matches Err(DecodeFailure::Guess(_))),
{
    let reader = match image::ImageReader::new(std::io::Cursor::new(buffer)).with_guessed_format()
    {
        Ok(reader) => reader,
        Err(e) => return Err(DecodeFailure::Guess(e.to_string())),
    };
    match reader.decode() {
        Ok(img) => Ok((img.width(), img.height())),
        Err(e) => Err(DecodeFailure::Decode(e.to_string())),
    }
}

/// Decode a buffer, resample it to exactly `width` by `height` with the
/// Lanczos3 filter, and re-encode it in the given format.
///
/// Relies on `image::ImageReader` decoding (as in `probe_dimensions`),
/// `DynamicImage::resize_exact` and `DynamicImage::write_to`. Decoding,
/// resampling and encoding read nothing but the buffer and the arguments,
/// so the outcome is a function of them alone.
#[verifier::external_body]
pub(crate) fn encode_resized(
    buffer: &Vec<u8>,
    width: u32,
    height: u32,
    format: SupportedFileTypes,
) -> (r: Result<Vec<u8>, String>)
    requires
        decoded_size(buffer@) is Some,
        format != SupportedFileTypes::Unkn,
    ensures
        r is Ok <==> encoded_resized(buffer@, width as int, height as int, kind_code(format))
            is Some,
        r matches Ok(v) ==> Some(v@) == encoded_resized(
            buffer@,
            width as int,
            height as int,
            kind_code(format),
        ),
{
    let target = match format {
        SupportedFileTypes::Jpeg => image::ImageFormat::Jpeg,
        SupportedFileTypes::Png => image::ImageFormat::Png,
        SupportedFileTypes::Gif => image::ImageFormat::Gif,
        SupportedFileTypes::WebP => image::ImageFormat::WebP,
        SupportedFileTypes::Tiff => image::ImageFormat::Tiff,
        SupportedFileTypes::Unkn => return Err(String::new()),
    };
    let reader = image::ImageReader::new(std::io::Cursor::new(buffer));
    let img = reader.with_guessed_format().unwrap().decode().unwrap();
    let resized = img.resize_exact(width, height, image::imageops::FilterType::Lanczos3);
    let mut out: Vec<u8> = vec![];
    let written = resized.write_to(&mut std::io::Cursor::new(&mut out), target);
    written.map(|_| out).map_err(|e| e.to_string())
}

/// Read the EXIF orientation of a raw image buffer, defaulting to 1.
///
/// Relies on `exif::Reader::read_from_container`, `Exif::get_field` with
/// the primary orientation tag and `Value::get_uint`: a pure parse of the
/// buffer, so the outcome is a function of the bytes alone.
#[verifier::external_body]
pub(crate) fn jpeg_orientation(buffer: &Vec<u8>) -> (r: u32)
    ensures
        r == jpeg_orientation_of(buffer@),
{
    let mut cursor = std::io::Cursor::new(buffer.as_slice());
    match exif::Reader::new().read_from_container(&mut cursor) {
        Ok(meta) => match meta.get_field(exif::Tag::Orientation, exif::In::PRIMARY) {
            Some(field) => field.value.get_uint(0).unwrap_or(1),
            None => 1,
        },
        Err(_) => 1,
    }
}

/// Whether `b` begins with the given magic bytes.
pub open spec fn has_magic(b: Seq<u8>, magic: Seq<u8>) -> bool {
    magic.len() <= b.len() && b.take(magic.len() as int) == magic
}

/// Detect the container format of a buffer from its magic bytes.
///
/// Relies on `image::guess_format`, which matches the buffer's start
/// against a fixed table of signatures whose leading bytes are pairwise
/// distinct, so each signature below decides the format on its own;
/// formats this library does not handle, and an unrecognised signature,
/// come back as `Unkn`.
#[verifier::external_body]
pub(crate) fn detect_kind(buffer: &Vec<u8>) -> (r: SupportedFileTypes)
    ensures
        r == kind_of(detected_kind_code(buffer@)),
        has_magic(buffer@, seq![0x89u8, 0x50, 0x4e, 0x47, 0x0d, 0x0a, 0x1a, 0x0a]) ==> r
            == SupportedFileTypes::Png,
        has_magic(buffer@, seq![0xffu8, 0xd8, 0xff]) ==> r == SupportedFileTypes::Jpeg,
        has_magic(buffer@, seq![0x47u8, 0x49, 0x46, 0x38, 0x39, 0x61]) || has_magic(
            buffer@,
            seq![0x47u8, 0x49, 0x46, 0x38, 0x37, 0x61],
        ) ==> r == SupportedFileTypes::Gif,
        has_magic(buffer@, seq![0x52u8, 0x49, 0x46, 0x46]) ==> r == SupportedFileTypes::WebP,
        has_magic(buffer@, seq![0x4du8, 0x4d, 0x00, 0x2a]) || has_magic(
            buffer@,
            seq![0x49u8, 0x49, 0x2a, 0x00],
        ) ==> r == SupportedFileTypes::Tiff,
{
    match image::guess_format(buffer.as_slice()) {
        Ok(image::ImageFormat::Jpeg) => SupportedFileTypes::Jpeg,
        Ok(image::ImageFormat::Png) => SupportedFileTypes::Png,
        Ok(image::ImageFormat::Gif) => SupportedFileTypes::Gif,
        Ok(image::ImageFormat::WebP) => SupportedFileTypes::WebP,
        Ok(image::ImageFormat::Tiff) => SupportedFileTypes::Tiff,
        Ok(_) => SupportedFileTypes::Unkn,
        Err(_) => SupportedFileTypes::Unkn,
    }
}

/// A decoded image of the `image` crate, opaque to this library: values
/// of it are only carried between the codec calls below.
#[verifier::external_type_specification]
#[verifier::external_body]
pub struct ExDynamicImage(image::DynamicImage);

/// The pixel dimensions of a decoded image.
///
/// Relies on `DynamicImage::width` and `DynamicImage::height`, which
/// read nothing but the image value.
#[verifier::external_body]
pub(crate) fn image_dims(img: &image::DynamicImage) -> (r: (u32, u32))
    ensures
        r == image_size(*img),
{
    (img.width(), img.height())
}

/// Resample a decoded image to exactly `width` by `height` pixels with
/// the Lanczos3 filter.
///
/// Relies on `DynamicImage::resize_exact`, which reads nothing but the
/// image value and its arguments.
#[verifier::external_body]
pub(crate) fn resize_exact_image(
    img: &image::DynamicImage,
    width: u32,
    height: u32,
) -> (r: image::DynamicImage)
    ensures
        r == resized_image(*img, width, height),
{
    img.resize_exact(width, height, image::imageops::FilterType::Lanczos3)
}

} // verus!
