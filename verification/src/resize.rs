//! Dimension resolution and the orientation-aware resize adapter.
//!
//! `compute_dimensions` maps original pixel dimensions and a sizing request
//! to the final output dimensions. Rounding policy: the power-of-2 branch
//! always takes the ceiling of each halved axis; the direct branch rounds
//! the derived axis half away from zero and clamps it into `1..=u32::MAX`.

use vstd::prelude::*;

use crate::codec::{
    decoded_size, encode_resized, encoded_resized, image_dims, image_size, jpeg_orientation,
    jpeg_orientation_of, kind_code, probe_dimensions, resize_exact_image, resized_image,
    DecodeFailure,
};
use crate::error::{
    CaesiumError, CODE_DECODE, CODE_ENCODE, CODE_FORMAT_GUESS, CODE_ZERO_DIMENSIONS,
};
use crate::parameters::SupportedFileTypes;

verus! {

/// 2 raised to `k`.
pub open spec fn pow2(k: nat) -> nat
    decreases k,
{
    if k == 0 {
        1
    } else {
        2 * pow2((k - 1) as nat)
    }
}

/// After `k` simultaneous halvings, both original axes are at or under
/// their caps: `ow / 2^k <= cw` and `oh / 2^k <= ch` as exact fractions.
pub open spec fn fits_under(ow: int, oh: int, cw: int, ch: int, k: nat) -> bool {
    ow <= cw * pow2(k) && oh <= ch * pow2(k)
}

/// How many times both axes must be halved together until each is at or
/// under its cap. This is the least such count (`lemma_halvings_minimal`).
pub open spec fn halvings(ow: int, oh: int, cw: int, ch: int) -> nat
    decreases (if ow > cw {
        ow - cw
    } else {
        0
    }) + (if oh > ch {
        oh - ch
    } else {
        0
    }) when 1 <= cw && 1 <= ch
{
    if ow <= cw && oh <= ch {
        0
    } else {
        (1 + halvings(ow, oh, 2 * cw, 2 * ch)) as nat
    }
}

/// The per-axis targets once the short/long-side request is distributed:
/// the smaller original axis receives the short-side target, the larger
/// the long-side target. Explicit width/height take precedence.
pub open spec fn spec_effective_targets(
    ow: int,
    oh: int,
    dw: int,
    dh: int,
    short: int,
    long: int,
) -> (int, int) {
    if dw == 0 && dh == 0 && (short != 0 || long != 0) {
        if ow < oh {
            (short, long)
        } else {
            (long, short)
        }
    } else {
        (dw, dh)
    }
}

/// The cap an axis target imposes in the power-of-2 branch: an
/// unconstrained axis (target 0) never forces a halving, which the
/// original-plus-one cap expresses.
pub open spec fn spec_pow2_cap(target: int, original: int) -> int {
    if target == 0 {
        original + 1
    } else {
        target
    }
}

/// The power-of-2 branch runs only when at least one axis target is a real
/// downscale: greater than 3 and strictly below the original axis.
pub open spec fn spec_pow2_applies(ow: int, oh: int, dw: int, dh: int) -> bool {
    (3 < dw && dw < ow) || (3 < dh && dh < oh)
}

/// Ceiling of `a / b` for nonnegative `a` and positive `b`.
pub open spec fn ceil_div(a: int, b: int) -> int {
    (a + b - 1) / b
}

/// `a / b` rounded half away from zero, for nonnegative `a`, positive `b`.
pub open spec fn round_div(a: int, b: int) -> int {
    (2 * a + b) / (2 * b)
}

/// A derived axis: `known * num / den` rounded to the nearest integer and
/// clamped into the representable positive range.
pub open spec fn spec_derived_axis(known: int, num: int, den: int) -> int {
    let r = round_div(known * num, den);
    if r < 1 {
        1
    } else if r > u32::MAX {
        u32::MAX as int
    } else {
        r
    }
}

/// The resolved output dimensions for original size `(ow, oh)` and a
/// request of explicit targets `(dw0, dh0)`, short/long-side targets and
/// the power-of-2 flag.
pub open spec fn spec_resolve(
    ow: int,
    oh: int,
    dw0: int,
    dh0: int,
    short: int,
    long: int,
    rbpo2: bool,
) -> (int, int) {
    let (dw, dh) = spec_effective_targets(ow, oh, dw0, dh0, short, long);
    if rbpo2 && spec_pow2_applies(ow, oh, dw, dh) {
        let k = halvings(ow, oh, spec_pow2_cap(dw, ow), spec_pow2_cap(dh, oh));
        (ceil_div(ow, pow2(k) as int), ceil_div(oh, pow2(k) as int))
    } else if dw > 0 && dh > 0 {
        (dw, dh)
    } else if dw > 0 {
        (dw, spec_derived_axis(dw, oh, ow))
    } else if dh > 0 {
        (spec_derived_axis(dh, ow, oh), dh)
    } else {
        (ow, oh)
    }
}

/// The derived axis of the direct branch: round-half-away-from-zero of
/// `known * num / den`, clamped into `1..=u32::MAX`.
fn derived_axis(known: u32, num: u32, den: u32) -> (r: u32)
    requires
        1 <= den,
    ensures
        r as int == spec_derived_axis(known as int, num as int, den as int),
{
    proof {
        assert((known as int) * (num as int) < 0x1_0000_0000_0000_0000) by (nonlinear_arith)
            requires
                known < 0x1_0000_0000,
                num < 0x1_0000_0000,
                0 <= known,
                0 <= num,
        ;
    }
    let a: u128 = (known as u128) * (num as u128);
    let b: u128 = den as u128;
    let q: u128 = (2 * a + b) / (2 * b);
    assert(q == round_div((known as int) * (num as int), den as int));
    if q < 1 {
        1
    } else if q > 0xFFFF_FFFF {
        u32::MAX
    } else {
        q as u32
    }
}

/// Resolve the output dimensions for an image of `original_width` by
/// `original_height` pixels. A zero desired axis is unconstrained; the
/// short/long-side targets apply only when both desired axes are zero;
/// `rbpo2` requests reduction by an exact power of two. The result is the
/// mathematical resolution `spec_resolve`, and both axes are positive.
pub fn compute_dimensions(
    original_width: u32,
    original_height: u32,
    desired_width: u32,
    desired_height: u32,
    short_side_pixels: u32,
    long_size_pixels: u32,
    rbpo2: bool,
) -> (r: (u32, u32))
    requires
        1 <= original_width,
        1 <= original_height,
    ensures
        (r.0 as int, r.1 as int) == spec_resolve(
            original_width as int,
            original_height as int,
            desired_width as int,
            desired_height as int,
            short_side_pixels as int,
            long_size_pixels as int,
            rbpo2,
        ),
        1 <= r.0,
        1 <= r.1,
{
    let (dw, dh): (u32, u32) = if desired_width == 0 && desired_height == 0 && (
    short_side_pixels != 0 || long_size_pixels != 0) {
        if original_width < original_height {
            (short_side_pixels, long_size_pixels)
        } else {
            (long_size_pixels, short_side_pixels)
        }
    } else {
        (desired_width, desired_height)
    };
    if rbpo2 && ((dw > 3 && dw < original_width) || (dh > 3 && dh < original_height)) {
        let ow: u128 = original_width as u128;
        let oh: u128 = original_height as u128;
        let cw: u128 = if dw == 0 {
            ow + 1
        } else {
            dw as u128
        };
        let ch: u128 = if dh == 0 {
            oh + 1
        } else {
            dh as u128
        };
        let mut k: u32 = 0;
        let mut p: u128 = 1;
        while (ow + (p - 1)) / p > cw || (oh + (p - 1)) / p > ch
            invariant
                1 <= ow < 0x1_0000_0000,
                1 <= oh < 0x1_0000_0000,
                1 <= cw <= 0x1_0000_0000,
                1 <= ch <= 0x1_0000_0000,
                p == pow2(k as nat),
                1 <= p <= 0x1_0000_0000,
                k <= 32,
                forall|j: nat| j < k ==> !fits_under(ow as int, oh as int, cw as int, ch as int, j),
            decreases (if ow > cw * p {
                ow - cw * p
            } else {
                0
            }) + (if oh > ch * p {
                oh - ch * p
            } else {
                0
            }),
        {
            proof {
                lemma_ceil_div_gt(ow as int, p as int, cw as int);
                lemma_ceil_div_gt(oh as int, p as int, ch as int);
                lemma_pow2_bound(ow as int, oh as int, cw as int, ch as int, k as nat, p as int);
            }
            let ghost p0 = p as int;
            k = k + 1;
            p = 2 * p;
            proof {
                assert(cw * (2 * p0) == 2 * (cw * p0) && ch * (2 * p0) == 2 * (ch * p0))
                    by (nonlinear_arith);
                assert(cw * p0 >= cw && ch * p0 >= ch) by (nonlinear_arith)
                    requires
                        1 <= cw,
                        1 <= ch,
                        1 <= p0,
                ;
                assert(forall|j: nat|
                    j < k ==> !fits_under(ow as int, oh as int, cw as int, ch as int, j)) by {
                    assert(!fits_under(ow as int, oh as int, cw as int, ch as int, (k - 1) as nat));
                };
            }
        }
        proof {
            lemma_ceil_div_gt(ow as int, p as int, cw as int);
            lemma_ceil_div_gt(oh as int, p as int, ch as int);
            assert(fits_under(ow as int, oh as int, cw as int, ch as int, k as nat));
            lemma_halvings_minimal(ow as int, oh as int, cw as int, ch as int);
            lemma_fits_unique(ow as int, oh as int, cw as int, ch as int, k as nat);
        }
        let rw: u128 = (ow + (p - 1)) / p;
        let rh: u128 = (oh + (p - 1)) / p;
        proof {
            lemma_ceil_div_range(ow as int, p as int);
            lemma_ceil_div_range(oh as int, p as int);
        }
        (rw as u32, rh as u32)
    } else if dw > 0 && dh > 0 {
        (dw, dh)
    } else if dw > 0 {
        (dw, derived_axis(dw, original_height, original_width))
    } else if dh > 0 {
        (derived_axis(dh, original_width, original_height), dh)
    } else {
        (original_width, original_height)
    }
}

/// While the loop condition still holds, the halving count is below 32, so
/// its power stays well inside `u128` range.
proof fn lemma_pow2_bound(ow: int, oh: int, cw: int, ch: int, k: nat, p: int)
    requires
        1 <= ow < 0x1_0000_0000,
        1 <= oh < 0x1_0000_0000,
        1 <= cw,
        1 <= ch,
        p == pow2(k),
        k <= 32,
        ow > cw * p || oh > ch * p,
    ensures
        k < 32,
        p <= 0x8000_0000,
{
    assert(cw * p >= p) by (nonlinear_arith)
        requires
            1 <= cw,
            0 <= p,
    ;
    assert(ch * p >= p) by (nonlinear_arith)
        requires
            1 <= ch,
            0 <= p,
    ;
    assert(p < 0x1_0000_0000);
    if k == 32 {
        assert(pow2(32) == 0x1_0000_0000) by {
            reveal_with_fuel(pow2, 33);
        };
    }
    lemma_pow2_monotone(k, 31);
    assert(pow2(31) == 0x8000_0000) by {
        reveal_with_fuel(pow2, 32);
    };
}

/// `pow2` grows with its argument.
proof fn lemma_pow2_monotone(j: nat, k: nat)
    requires
        j <= k,
    ensures
        pow2(j) <= pow2(k),
    decreases k,
{
    if j < k {
        lemma_pow2_monotone(j, (k - 1) as nat);
        assert(pow2(k) == 2 * pow2((k - 1) as nat));
    }
}

/// `halvings` is the least count under which both axes fit.
proof fn lemma_halvings_minimal(ow: int, oh: int, cw: int, ch: int)
    requires
        1 <= cw,
        1 <= ch,
    ensures
        fits_under(ow, oh, cw, ch, halvings(ow, oh, cw, ch)),
        forall|j: nat| j < halvings(ow, oh, cw, ch) ==> !fits_under(ow, oh, cw, ch, j),
    decreases (if ow > cw {
        ow - cw
    } else {
        0
    }) + (if oh > ch {
        oh - ch
    } else {
        0
    }),
{
    if ow <= cw && oh <= ch {
        lemma_fits_zero(ow, oh, cw, ch);
    } else {
        lemma_halvings_minimal(ow, oh, 2 * cw, 2 * ch);
        let h = halvings(ow, oh, 2 * cw, 2 * ch);
        assert(halvings(ow, oh, cw, ch) == h + 1);
        assert(fits_under(ow, oh, cw, ch, (h + 1) as nat)) by {
            lemma_cap_doubling(cw, (h + 1) as nat);
            lemma_cap_doubling(ch, (h + 1) as nat);
        };
        assert forall|j: nat| j < h + 1 implies !fits_under(ow, oh, cw, ch, j) by {
            if j == 0 {
                lemma_fits_zero(ow, oh, cw, ch);
            } else {
                assert(!fits_under(ow, oh, 2 * cw, 2 * ch, (j - 1) as nat));
                lemma_cap_doubling(cw, j);
                lemma_cap_doubling(ch, j);
            }
        };
    }
}

/// With no halvings at all, fitting under the caps is just the direct
/// comparison of each axis with its cap.
proof fn lemma_fits_zero(ow: int, oh: int, cw: int, ch: int)
    ensures
        fits_under(ow, oh, cw, ch, 0) <==> (ow <= cw && oh <= ch),
{
    let p0 = pow2(0) as int;
    assert(p0 == 1);
    assert(cw * p0 == cw && ch * p0 == ch) by (nonlinear_arith)
        requires
            p0 == 1,
    ;
}

/// Halving one more time under cap `c` is the same as halving under a
/// doubled cap: `c * 2^(j+1) == (2c) * 2^j`.
proof fn lemma_cap_doubling(c: int, j: nat)
    requires
        1 <= j,
    ensures
        c * pow2(j) == (2 * c) * pow2((j - 1) as nat),
{
    let pj1 = pow2((j - 1) as nat);
    assert(pow2(j) == 2 * pj1);
    assert(c * (2 * pj1) == (2 * c) * pj1) by (nonlinear_arith);
}

/// Two least fitting counts agree: any count that fits while all smaller
/// counts do not is exactly `halvings`.
proof fn lemma_fits_unique(ow: int, oh: int, cw: int, ch: int, k: nat)
    requires
        1 <= cw,
        1 <= ch,
        fits_under(ow, oh, cw, ch, k),
        forall|j: nat| j < k ==> !fits_under(ow, oh, cw, ch, j),
    ensures
        k == halvings(ow, oh, cw, ch),
{
    let h = halvings(ow, oh, cw, ch);
    lemma_halvings_minimal(ow, oh, cw, ch);
    if h < k {
        assert(!fits_under(ow, oh, cw, ch, h));
    }
    if k < h {
        assert(!fits_under(ow, oh, cw, ch, k));
    }
}

/// For positive `a` and `p`, the ceiling of `a / p` exceeds `c` exactly
/// when `a` exceeds `c * p`.
proof fn lemma_ceil_div_gt(a: int, p: int, c: int)
    requires
        1 <= a,
        1 <= p,
        0 <= c,
    ensures
        ((a + (p - 1)) / p > c) <==> (a > c * p),
{
    assert(((a + (p - 1)) / p > c) <==> (a > c * p)) by (nonlinear_arith)
        requires
            1 <= a,
            1 <= p,
            0 <= c,
    ;
}

/// The ceiling of `a / p` stays within `1..=a` for positive `a` and `p`.
proof fn lemma_ceil_div_range(a: int, p: int)
    requires
        1 <= a,
        1 <= p,
    ensures
        1 <= ceil_div(a, p) <= a,
        a <= p ==> ceil_div(a, p) == 1,
{
    assert(1 <= (a + p - 1) / p <= a) by (nonlinear_arith)
        requires
            1 <= a,
            1 <= p,
    ;
    if a <= p {
        assert((a + p - 1) / p == 1) by (nonlinear_arith)
            requires
                1 <= a <= p,
        ;
    }
}

} // verus!


verus! {

/// The targets as the adapter applies them: for a JPEG whose EXIF
/// orientation is a 90/270-degree rotation (values 5 through 8), the
/// requested width and height swap roles.
pub open spec fn spec_oriented_targets(
    fmt: SupportedFileTypes,
    b: Seq<u8>,
    w: u32,
    h: u32,
) -> (u32, u32) {
    if fmt == SupportedFileTypes::Jpeg && 5 <= jpeg_orientation_of(b)
        && jpeg_orientation_of(b) <= 8 {
        (h, w)
    } else {
        (w, h)
    }
}

/// The dimensions the adapter resolves for a decoded size of `iw` by
/// `ih`: the orientation-adjusted targets fed to `spec_resolve`.
pub open spec fn spec_adapter_resolve(
    b: Seq<u8>,
    iw: u32,
    ih: u32,
    rbpo2: bool,
    w: u32,
    h: u32,
    short: u32,
    long: u32,
    fmt: SupportedFileTypes,
) -> (int, int) {
    let t = spec_oriented_targets(fmt, b, w, h);
    spec_resolve(iw as int, ih as int, t.0 as int, t.1 as int, short as int, long as int, rbpo2)
}

/// The magnify guard: with magnification disallowed, a resolution that
/// exceeds the source on either axis makes the adapter skip resizing.
pub open spec fn spec_skip_resize(iw: u32, ih: u32, rw: int, rh: int, allow_magnify: bool) -> bool {
    !allow_magnify && ((iw as int) < rw || (ih as int) < rh)
}

/// Whether the resize adapter succeeds on this input: the buffer decodes,
/// both axes are nonzero, and either the magnify guard skips the resample
/// or re-encoding at the resolved size succeeds.
pub open spec fn spec_resize_ok(
    b: Seq<u8>,
    allow_magnify: bool,
    rbpo2: bool,
    w: u32,
    h: u32,
    short: u32,
    long: u32,
    fmt: SupportedFileTypes,
) -> bool {
    match decoded_size(b) {
        Some(d) => d.0 != 0 && d.1 != 0 && {
            let (rw, rh) = spec_adapter_resolve(b, d.0, d.1, rbpo2, w, h, short, long, fmt);
            spec_skip_resize(d.0, d.1, rw, rh, allow_magnify) || encoded_resized(
                b,
                rw,
                rh,
                kind_code(fmt),
            ) is Some
        },
        None => false,
    }
}

/// The bytes the adapter returns when it succeeds: the input unchanged
/// under the magnify guard, else the re-encoded resampled image.
pub open spec fn spec_resize_result(
    b: Seq<u8>,
    allow_magnify: bool,
    rbpo2: bool,
    w: u32,
    h: u32,
    short: u32,
    long: u32,
    fmt: SupportedFileTypes,
) -> Seq<u8>
    recommends
        spec_resize_ok(b, allow_magnify, rbpo2, w, h, short, long, fmt),
{
    let d = decoded_size(b)->Some_0;
    let (rw, rh) = spec_adapter_resolve(b, d.0, d.1, rbpo2, w, h, short, long, fmt);
    if spec_skip_resize(d.0, d.1, rw, rh, allow_magnify) {
        b
    } else {
        encoded_resized(b, rw, rh, kind_code(fmt))->Some_0
    }
}

/// The error code the adapter reports for this input: the decode code
/// when the buffer does not decode (format inference on an in-memory
/// buffer cannot fail on its own, so the decode stage reports both), the
/// zero-dimension code when an axis is zero, and the encode code
/// otherwise.
pub open spec fn spec_resize_error_admits(b: Seq<u8>, code: u64) -> bool {
    match decoded_size(b) {
        None => code == CODE_DECODE,
        Some(d) => if d.0 == 0 || d.1 == 0 {
            code == CODE_ZERO_DIMENSIONS
        } else {
            code == CODE_ENCODE
        },
    }
}

/// Decode a raw image buffer, resolve its output dimensions (swapping the
/// requested axes when JPEG EXIF orientation says the pixel grid is
/// rotated), and re-encode at the resolved size in `format`. When
/// magnification is disallowed and the resolved size exceeds the source
/// on either axis, the original buffer is returned byte for byte.
pub fn resize_n(
    image_buffer: Vec<u8>,
    allow_magnify: bool,
    reduce_by_power_of_2: bool,
    width: u32,
    height: u32,
    short_side_pixels: u32,
    long_size_pixels: u32,
    format: SupportedFileTypes,
) -> (r: Result<Vec<u8>, CaesiumError>)
    requires
        format != SupportedFileTypes::Unkn,
    ensures
        r is Ok <==> spec_resize_ok(
            image_buffer@,
            allow_magnify,
            reduce_by_power_of_2,
            width,
            height,
            short_side_pixels,
            long_size_pixels,
            format,
        ),
        r matches Ok(v) ==> v@ == spec_resize_result(
            image_buffer@,
            allow_magnify,
            reduce_by_power_of_2,
            width,
            height,
            short_side_pixels,
            long_size_pixels,
            format,
        ),
        r matches Err(e) ==> e.wf() && spec_resize_error_admits(image_buffer@, e.code),
{
    let (desired_width, desired_height): (u32, u32) = if format == SupportedFileTypes::Jpeg {
        let orientation = jpeg_orientation(&image_buffer);
        if 5 <= orientation && orientation <= 8 {
            (height, width)
        } else {
            (width, height)
        }
    } else {
        (width, height)
    };
    let (image_width, image_height): (u32, u32) = match probe_dimensions(&image_buffer) {
        Err(DecodeFailure::Guess(m)) => {
            return Err(CaesiumError::new(m, CODE_FORMAT_GUESS));
        },
        Err(DecodeFailure::Decode(m)) => {
            return Err(CaesiumError::new(m, CODE_DECODE));
        },
        Ok(d) => d,
    };
    if image_width == 0 || image_height == 0 {
        return Err(
            CaesiumError::new(
                "the decoded image has a zero-sized axis".to_string(),
                CODE_ZERO_DIMENSIONS,
            ),
        );
    }
    let dimensions = compute_dimensions(
        image_width,
        image_height,
        desired_width,
        desired_height,
        short_side_pixels,
        long_size_pixels,
        reduce_by_power_of_2,
    );
    if !allow_magnify && (image_width < dimensions.0 || image_height < dimensions.1) {
        return Ok(image_buffer);
    }
    match encode_resized(&image_buffer, dimensions.0, dimensions.1, format) {
        Ok(v) => Ok(v),
        Err(m) => Err(CaesiumError::new(m, CODE_ENCODE)),
    }
}

/// Resize an already decoded image under the same request model: resolve
/// the output dimensions from the image's own size and the request, and
/// resample to them, unless an axis is zero or the magnify guard fires,
/// in which case the image comes back unchanged.
pub fn resize_image_n(
    image: image::DynamicImage,
    allow_magnify: bool,
    reduce_by_power_of_2: bool,
    width: u32,
    height: u32,
    short_side_pixels: u32,
    long_size_pixels: u32,
) -> (r: image::DynamicImage)
    ensures
        ({
            let d = image_size(image);
            if d.0 == 0 || d.1 == 0 {
                r == image
            } else {
                let (rw, rh) = spec_resolve(
                    d.0 as int,
                    d.1 as int,
                    width as int,
                    height as int,
                    short_side_pixels as int,
                    long_size_pixels as int,
                    reduce_by_power_of_2,
                );
                if spec_skip_resize(d.0, d.1, rw, rh, allow_magnify) {
                    r == image
                } else {
                    r == resized_image(image, rw as u32, rh as u32)
                }
            }
        }),
{
    let (image_width, image_height) = image_dims(&image);
    if image_width == 0 || image_height == 0 {
        return image;
    }
    let dimensions = compute_dimensions(
        image_width,
        image_height,
        width,
        height,
        short_side_pixels,
        long_size_pixels,
        reduce_by_power_of_2,
    );
    if !allow_magnify && (image_width < dimensions.0 || image_height < dimensions.1) {
        image
    } else {
        resize_exact_image(&image, dimensions.0, dimensions.1)
    }
}


/// The absolute value of an integer.
pub open spec fn abs_val(x: int) -> int {
    if x < 0 {
        -x
    } else {
        x
    }
}

/// A fully unconstrained request (no explicit axes, no short/long-side
/// targets) resolves to the original dimensions, with or without the
/// power-of-2 flag.
pub proof fn lemma_unconstrained_identity(ow: int, oh: int, rbpo2: bool)
    requires
        1 <= ow,
        1 <= oh,
    ensures
        spec_resolve(ow, oh, 0, 0, 0, 0, rbpo2) == (ow, oh),
{
}

/// An explicit width-and-height request resolves to exactly that pair,
/// with no aspect correction, whatever the short/long-side targets say.
pub proof fn lemma_explicit_override(ow: int, oh: int, dw: int, dh: int, short: int, long: int)
    requires
        1 <= ow,
        1 <= oh,
        1 <= dw,
        1 <= dh,
    ensures
        spec_resolve(ow, oh, dw, dh, short, long, false) == (dw, dh),
{
}

/// The rounded quotient is the best integer approximation: no integer
/// `c` brings `c * den` closer to `a` than `round_div(a, den) * den`.
pub proof fn lemma_round_div_nearest(a: int, den: int, c: int)
    requires
        0 <= a,
        1 <= den,
    ensures
        abs_val(round_div(a, den) * den - a) <= abs_val(c * den - a),
{
    let q = round_div(a, den);
    assert(2 * (q * den) - 2 * a <= den && 2 * a - 2 * (q * den) < den) by (nonlinear_arith)
        requires
            q == (2 * a + den) / (2 * den),
            0 <= a,
            1 <= den,
    ;
    if c != q {
        assert((c - q) * den == c * den - q * den) by (nonlinear_arith);
        if c > q {
            assert((c - q) * den >= den) by (nonlinear_arith)
                requires
                    c - q >= 1,
                    1 <= den,
            ;
        } else {
            assert((c - q) * den <= -den) by (nonlinear_arith)
                requires
                    c - q <= -1,
                    1 <= den,
            ;
        }
    }
}

/// Aspect preservation with only a desired width: the derived height is
/// the integer multiple of the original ratio closest to the request, so
/// no other integer height (in particular neither adjacent candidate)
/// fits `dw * oh / ow` better.
pub proof fn lemma_aspect_nearest_height(ow: int, oh: int, dw: int, c: int)
    requires
        1 <= ow,
        1 <= oh,
        1 <= dw,
        1 <= round_div(dw * oh, ow) <= u32::MAX,
    ensures
        ({
            let (w, h) = spec_resolve(ow, oh, dw, 0, 0, 0, false);
            w == dw && abs_val(h * ow - dw * oh) <= abs_val(c * ow - dw * oh)
        }),
{
    lemma_round_div_nearest(dw * oh, ow, c);
}

/// Aspect preservation with only a desired height, symmetrically.
pub proof fn lemma_aspect_nearest_width(ow: int, oh: int, dh: int, c: int)
    requires
        1 <= ow,
        1 <= oh,
        1 <= dh,
        1 <= round_div(dh * ow, oh) <= u32::MAX,
    ensures
        ({
            let (w, h) = spec_resolve(ow, oh, 0, dh, 0, 0, false);
            h == dh && abs_val(w * oh - dh * ow) <= abs_val(c * oh - dh * ow)
        }),
{
    lemma_round_div_nearest(dh * ow, oh, c);
}

/// `pow2` is positive.
proof fn lemma_pow2_pos(k: nat)
    ensures
        1 <= pow2(k),
    decreases k,
{
    if k > 0 {
        lemma_pow2_pos((k - 1) as nat);
    }
}

/// In the power-of-2 branch the result is exactly the ceiling of each
/// original axis divided by `2^k`, where `k` is the least halving count
/// meeting both axis caps: no axis comes out below that ceiling, and no
/// halving step magnifies, so neither axis exceeds its original.
pub proof fn lemma_pow2_reduction(ow: int, oh: int, dw: int, dh: int)
    requires
        1 <= ow,
        1 <= oh,
        0 <= dw,
        0 <= dh,
        spec_pow2_applies(ow, oh, dw, dh),
    ensures
        spec_resolve(ow, oh, dw, dh, 0, 0, true) == (
            ceil_div(ow, pow2(halvings(ow, oh, spec_pow2_cap(dw, ow), spec_pow2_cap(dh, oh))) as int),
            ceil_div(oh, pow2(halvings(ow, oh, spec_pow2_cap(dw, ow), spec_pow2_cap(dh, oh))) as int),
        ),
        fits_under(
            ow,
            oh,
            spec_pow2_cap(dw, ow),
            spec_pow2_cap(dh, oh),
            halvings(ow, oh, spec_pow2_cap(dw, ow), spec_pow2_cap(dh, oh)),
        ),
        forall|j: nat|
            j < halvings(ow, oh, spec_pow2_cap(dw, ow), spec_pow2_cap(dh, oh))
                ==> !fits_under(ow, oh, spec_pow2_cap(dw, ow), spec_pow2_cap(dh, oh), j),
        1 <= spec_resolve(ow, oh, dw, dh, 0, 0, true).0 <= ow,
        1 <= spec_resolve(ow, oh, dw, dh, 0, 0, true).1 <= oh,
{
    let cw = spec_pow2_cap(dw, ow);
    let ch = spec_pow2_cap(dh, oh);
    let k = halvings(ow, oh, cw, ch);
    lemma_halvings_minimal(ow, oh, cw, ch);
    lemma_pow2_pos(k);
    lemma_ceil_div_range(ow, pow2(k) as int);
    lemma_ceil_div_range(oh, pow2(k) as int);
}

/// The magnify guard as a law of the adapter: with magnification
/// disallowed and a resolution exceeding the source on either axis, the
/// adapter's outcome is its input, byte for byte.
pub proof fn lemma_magnify_guard(
    b: Seq<u8>,
    rbpo2: bool,
    w: u32,
    h: u32,
    short: u32,
    long: u32,
    fmt: SupportedFileTypes,
)
    requires
        decoded_size(b) is Some,
        ({
            let d = decoded_size(b)->Some_0;
            let (rw, rh) = spec_adapter_resolve(b, d.0, d.1, rbpo2, w, h, short, long, fmt);
            d.0 != 0 && d.1 != 0 && ((d.0 as int) < rw || (d.1 as int) < rh)
        }),
    ensures
        spec_resize_ok(b, false, rbpo2, w, h, short, long, fmt),
        spec_resize_result(b, false, rbpo2, w, h, short, long, fmt) == b,
{
}

/// The orientation swap as a law of the adapter: for a JPEG whose EXIF
/// orientation is a rotation with an axis swap (5 through 8), the adapter
/// resolves dimensions exactly as if width and height had been requested
/// the other way round on the unrotated pixel grid.
pub proof fn lemma_orientation_swap(
    b: Seq<u8>,
    iw: u32,
    ih: u32,
    rbpo2: bool,
    w: u32,
    h: u32,
    short: u32,
    long: u32,
)
    requires
        5 <= jpeg_orientation_of(b) <= 8,
    ensures
        spec_adapter_resolve(b, iw, ih, rbpo2, w, h, short, long, SupportedFileTypes::Jpeg)
            == spec_resolve(
            iw as int,
            ih as int,
            h as int,
            w as int,
            short as int,
            long as int,
            rbpo2,
        ),
{
}

} // verus!

