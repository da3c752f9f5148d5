//! The library's error type and its stable numeric codes.

use vstd::prelude::*;

verus! {

broadcast use vstd::string::group_string_axioms;

/// Format auto-detection could not read the input container.
pub const CODE_FORMAT_GUESS: u64 = 10300;

/// The input container was recognised but could not be decoded.
pub const CODE_DECODE: u64 = 10301;

/// Re-encoding the resized image failed.
pub const CODE_ENCODE: u64 = 10302;

/// The decoded image has a zero-sized axis, so no dimensions can be resolved.
pub const CODE_ZERO_DIMENSIONS: u64 = 10303;

/// The destination buffer is too small for the output.
pub const CODE_BUFFER_TOO_SMALL: u64 = 10304;

/// The output could not be brought under the requested maximum size.
pub const CODE_SIZE_TARGET: u64 = 10203;

/// A failure with a stable numeric code and a human-readable message.
/// The code is what callers branch on; the message is informational only.
#[derive(Debug)]
pub struct CaesiumError {
    pub message: String,
    pub code: u64,
}

impl CaesiumError {
    /// Every error this library constructs carries a nonzero code and a
    /// nonempty message, so a success outcome (code 0, empty message) can
    /// never be confused with a failure.
    pub open spec fn wf(&self) -> bool {
        self.code != 0 && self.message@.len() > 0
    }

    /// Build an error with the given code, guarding the well-formedness
    /// invariant: when the supplied text is empty (an outside error can
    /// stringify to nothing), a fixed fallback message stands in for it.
    pub fn new(message: String, code: u64) -> (r: CaesiumError)
        requires
            code != 0,
        ensures
            r.wf(),
            r.code == code,
            message@.len() > 0 ==> r.message@ == message@,
    {
        proof {
            reveal_strlit("no further detail was reported");
        }
        if message.as_str().is_empty() {
            CaesiumError { message: "no further detail was reported".to_string(), code }
        } else {
            CaesiumError { message, code }
        }
    }

    /// The human-readable text of this error.
    pub fn to_message(&self) -> (r: String)
        ensures
            r@ == self.message@,
    {
        self.message.clone()
    }
}

} // verus!
