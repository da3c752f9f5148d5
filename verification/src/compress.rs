//! Buffer-output entry points and the destination-buffer write protocol.
//!
//! The destination is a caller-supplied buffer whose length is its
//! capacity; output is written into its prefix only after the capacity
//! check, never beyond it, and the byte count written is reported back.

use vstd::prelude::*;

use crate::codec::{detected_kind_code, kind_of};
use crate::error::{CaesiumError, CODE_BUFFER_TOO_SMALL, CODE_FORMAT_GUESS, CODE_SIZE_TARGET};
use crate::parameters::{CSParameters, SupportedFileTypes};
use crate::resize::{resize_n, spec_resize_error_admits, spec_resize_ok, spec_resize_result};

verus! {

/// Copy `data` into the prefix of `dest` and report the byte count, after
/// checking that `dest` (whose length is the caller's capacity) can hold
/// it; on a capacity failure nothing at all is written.
pub fn write_buffer(data: &Vec<u8>, dest: &mut Vec<u8>) -> (r: Result<u64, CaesiumError>)
    ensures
        final(dest)@.len() == old(dest)@.len(),
        data@.len() <= old(dest)@.len() ==> (r matches Ok(n) && n == data@.len() && final(dest)@
            == data@ + old(dest)@.skip(data@.len() as int)),
        data@.len() > old(dest)@.len() ==> (r matches Err(e) && e.code == CODE_BUFFER_TOO_SMALL
            && e.wf() && final(dest)@ == old(dest)@),
{
    if data.len() > dest.len() {
        return Err(
            CaesiumError::new(
                "the output exceeds the destination buffer's capacity".to_string(),
                CODE_BUFFER_TOO_SMALL,
            ),
        );
    }
    let n = data.len();
    let mut i: usize = 0;
    while i < n
        invariant
            i <= n,
            n == data@.len(),
            n <= dest@.len(),
            dest@.len() == old(dest)@.len(),
            forall|j: int| 0 <= j < i ==> dest@[j] == data@[j],
            forall|j: int| i <= j < dest@.len() ==> dest@[j] == old(dest)@[j],
        decreases n - i,
    {
        let b = data[i];
        dest[i] = b;
        i = i + 1;
    }
    proof {
        assert(dest@ =~= data@ + old(dest)@.skip(n as int));
    }
    Ok(n as u64)
}

/// Reading back exactly the reported byte count from the destination
/// reproduces the written output unchanged: the written prefix of the
/// buffer is the data itself.
pub proof fn lemma_round_trip(data: Seq<u8>, spare: Seq<u8>)
    ensures
        (data + spare).subrange(0, data.len() as int) == data,
{
    assert((data + spare).subrange(0, data.len() as int) =~= data);
}

/// Accept or refuse a pipeline's output against a requested maximum
/// size: output over the limit is refused with the size-target code,
/// unless the caller asked for the smallest achieved result anyway.
pub fn accept_size_target(data: Vec<u8>, max_output_size: usize, return_smallest: bool) -> (r:
    Result<Vec<u8>, CaesiumError>)
    ensures
        data@.len() <= max_output_size || return_smallest ==> (r matches Ok(v) && v@ == data@),
        data@.len() > max_output_size && !return_smallest ==> (r matches Err(e) && e.wf()
            && e.code == CODE_SIZE_TARGET),
{
    if data.len() > max_output_size && !return_smallest {
        return Err(
            CaesiumError::new(
                "the requested output size could not be reached".to_string(),
                CODE_SIZE_TARGET,
            ),
        );
    }
    Ok(data)
}

/// Resize an in-memory image per the request in `parameters`, re-encode
/// it in its own detected container format, and write the result into the
/// caller's buffer, reporting the bytes written. The buffer is touched
/// only when the pipeline has produced output that fits its capacity.
pub fn compress_fromto(in_file: Vec<u8>, output: &mut Vec<u8>, parameters: &CSParameters) -> (r:
    Result<u64, CaesiumError>)
    ensures
        final(output)@.len() == old(output)@.len(),
        r matches Err(e) ==> e.wf() && final(output)@ == old(output)@,
        ({
            let fmt = kind_of(detected_kind_code(in_file@));
            let ok = spec_resize_ok(
                in_file@,
                parameters.allow_magnify,
                parameters.reduce_by_power_of_2,
                parameters.width,
                parameters.height,
                parameters.short_side_pixels,
                parameters.long_size_pixels,
                fmt,
            );
            if fmt == SupportedFileTypes::Unkn {
                r matches Err(e) && e.code == CODE_FORMAT_GUESS
            } else if !ok {
                r matches Err(e) && spec_resize_error_admits(in_file@, e.code)
            } else {
                let v = spec_resize_result(
                    in_file@,
                    parameters.allow_magnify,
                    parameters.reduce_by_power_of_2,
                    parameters.width,
                    parameters.height,
                    parameters.short_side_pixels,
                    parameters.long_size_pixels,
                    fmt,
                );
                if v.len() > old(output)@.len() {
                    r matches Err(e) && e.code == CODE_BUFFER_TOO_SMALL
                } else {
                    r matches Ok(n) && n == v.len() && final(output)@ == v + old(output)@.skip(
                        v.len() as int,
                    )
                }
            }
        }),
{
    let kind = crate::codec::detect_kind(&in_file);
    if kind == SupportedFileTypes::Unkn {
        return Err(
            CaesiumError::new(
                "the input container format is not recognised".to_string(),
                CODE_FORMAT_GUESS,
            ),
        );
    }
    let data = match resize_n(
        in_file,
        parameters.allow_magnify,
        parameters.reduce_by_power_of_2,
        parameters.width,
        parameters.height,
        parameters.short_side_pixels,
        parameters.long_size_pixels,
        kind,
    ) {
        Ok(v) => v,
        Err(e) => return Err(e),
    };
    write_buffer(&data, output)
}

/// Resize an in-memory image per the request in `parameters`, re-encode
/// it in the requested target format, and write the result into the
/// caller's buffer, reporting the bytes written.
pub fn convert_fromto(
    in_file: Vec<u8>,
    output: &mut Vec<u8>,
    parameters: &CSParameters,
    format: SupportedFileTypes,
) -> (r: Result<u64, CaesiumError>)
    requires
        format != SupportedFileTypes::Unkn,
    ensures
        final(output)@.len() == old(output)@.len(),
        r matches Err(e) ==> e.wf() && final(output)@ == old(output)@,
        ({
            let ok = spec_resize_ok(
                in_file@,
                parameters.allow_magnify,
                parameters.reduce_by_power_of_2,
                parameters.width,
                parameters.height,
                parameters.short_side_pixels,
                parameters.long_size_pixels,
                format,
            );
            if !ok {
                r matches Err(e) && spec_resize_error_admits(in_file@, e.code)
            } else {
                let v = spec_resize_result(
                    in_file@,
                    parameters.allow_magnify,
                    parameters.reduce_by_power_of_2,
                    parameters.width,
                    parameters.height,
                    parameters.short_side_pixels,
                    parameters.long_size_pixels,
                    format,
                );
                if v.len() > old(output)@.len() {
                    r matches Err(e) && e.code == CODE_BUFFER_TOO_SMALL
                } else {
                    r matches Ok(n) && n == v.len() && final(output)@ == v + old(output)@.skip(
                        v.len() as int,
                    )
                }
            }
        }),
{
    let data = match resize_n(
        in_file,
        parameters.allow_magnify,
        parameters.reduce_by_power_of_2,
        parameters.width,
        parameters.height,
        parameters.short_side_pixels,
        parameters.long_size_pixels,
        format,
    ) {
        Ok(v) => v,
        Err(e) => return Err(e),
    };
    write_buffer(&data, output)
}

} // verus!
