//! The error values a module's transform can return.
//!
//! Every failure of a pipeline step is one of these values; nothing in the
//! library panics. The pipeline shows a failed run as the textual form of
//! the error, so each variant carries a fixed message.

use vstd::prelude::*;
use vstd::string::StrSliceExecFns;
use vstd::string::StringSliceAdditionalSpecFns;

verus! {

/// Why a module's transform failed.
#[derive(Clone, Copy, Debug, PartialEq, Eq, Structural)]
pub enum ProcessError {
    /// The input bytes were not valid for the decoder applied to them.
    DecodeError,
    /// A module parameter (key or iv text) could not be decoded to bytes.
    InvalidArgument,
    /// The decoded cipher key or iv has a length outside the supported set.
    InvalidKeyOrIvLength,
    /// The selected cipher mode is offered for selection but not implemented.
    UnsupportedMode,
    /// Padding validation failed while decrypting.
    PaddingError,
}

/// The fixed message text of each error, as the pipeline displays it.
pub open spec fn spec_message(e: ProcessError) -> Seq<char> {
    match e {
        ProcessError::DecodeError => "Decode error"@,
        ProcessError::InvalidArgument => "Invalid argument"@,
        ProcessError::InvalidKeyOrIvLength => "Invalid key or iv length"@,
        ProcessError::UnsupportedMode => "Unsupported mode"@,
        ProcessError::PaddingError => "Padding error"@,
    }
}

impl ProcessError {
    /// The message text of this error.
    pub fn message(&self) -> (r: &'static str)
        ensures
            r@ == spec_message(*self),
    {
        match self {
            ProcessError::DecodeError => "Decode error",
            ProcessError::InvalidArgument => "Invalid argument",
            ProcessError::InvalidKeyOrIvLength => "Invalid key or iv length",
            ProcessError::UnsupportedMode => "Unsupported mode",
            ProcessError::PaddingError => "Padding error",
        }
    }

    /// The message text of this error, as the bytes the pipeline displays.
    pub fn message_bytes(&self) -> (r: Vec<u8>)
        ensures
            r@ == vstd::utf8::encode_utf8(spec_message(*self)),
    {
        self.message().as_bytes_vec()
    }
}

} // verus!
