//! Typed textual module parameters.
//!
//! An [`Argument`] is a string value together with a selectable
//! interpretation (text, hex or Base64). Decoding it to bytes is a pure
//! function of the value and the interpretation, re-derived on every use.

use vstd::prelude::*;
use vstd::string::StrSliceExecFns;
use vstd::string::StringSliceAdditionalSpecFns;
use vstd::utf8::encode_utf8;
use vstd::utf8::valid_utf8;

use crate::encoding::b64_decode;
use crate::encoding::b64_decode_of;
use crate::errors::ProcessError;

verus! {

/// How an [`Argument`]'s string value is read as bytes.
#[derive(Clone, Copy, Debug, PartialEq, Eq, Structural)]
pub enum InputType {
    /// The UTF-8 bytes of the value itself.
    Text,
    /// The value read as hex digit pairs.
    Hex,
    /// The value read as standard Base64 text.
    Base64,
}

impl InputType {
    /// The display name of this interpretation.
    pub fn label(&self) -> (r: &'static str)
        ensures
            r@ == spec_label(*self),
    {
        match self {
            InputType::Text => "Text",
            InputType::Hex => "Hex",
            InputType::Base64 => "Base64",
        }
    }
}

/// The display name of each interpretation.
pub open spec fn spec_label(t: InputType) -> Seq<char> {
    match t {
        InputType::Text => "Text"@,
        InputType::Hex => "Hex"@,
        InputType::Base64 => "Base64"@,
    }
}

/// Whether `b` is the ASCII code of a hex digit, upper or lower case.
pub open spec fn is_hex_digit(b: u8) -> bool {
    (48 <= b && b <= 57)  // '0' ..= '9'
    || (97 <= b && b <= 102)  // 'a' ..= 'f'
    || (65 <= b && b <= 70)  // 'A' ..= 'F'
}

/// The numeric value of the hex digit with ASCII code `b`.
pub open spec fn hex_digit_value(b: u8) -> u8
    recommends
        is_hex_digit(b),
{
    if 48 <= b && b <= 57 {
        (b - 48) as u8
    } else if 97 <= b && b <= 102 {
        (b - 87) as u8
    } else {
        (b - 55) as u8
    }
}

/// What decoding the bytes `s` as hex yields: the denoted bytes where `s` is
/// an even-length sequence of hex digits, nothing otherwise.
pub open spec fn spec_hex_decode(s: Seq<u8>) -> Option<Seq<u8>>
    decreases s.len(),
{
    if s.len() % 2 != 0 {
        None
    } else if s.len() == 0 {
        Some(Seq::empty())
    } else if is_hex_digit(s[0]) && is_hex_digit(s[1]) {
        match spec_hex_decode(s.skip(2)) {
            Some(rest) => Some(
                seq![(hex_digit_value(s[0]) * 16 + hex_digit_value(s[1])) as u8] + rest,
            ),
            None => None,
        }
    } else {
        None
    }
}

/// Relies on hex::decode: succeeds exactly on an even-length string of
/// upper- or lower-case hex digits and returns the bytes its digit pairs
/// denote.
#[verifier::external_body]
fn hex_decode(s: &str) -> (r: Option<Vec<u8>>)
    ensures
        (match r {
            Some(v) => spec_hex_decode(s.spec_bytes()) == Some(v@),
            None => spec_hex_decode(s.spec_bytes()) is None,
        }),
{
    hex::decode(s).ok()
}

/// Relies on String::from_utf8: succeeds exactly on valid UTF-8 and returns
/// the string those bytes encode.
#[verifier::external_body]
fn utf8_to_string(b: Vec<u8>) -> (r: Option<String>)
    ensures
        (match r {
            Some(s) => valid_utf8(b@) && encode_utf8(s@) == b@,
            None => !valid_utf8(b@),
        }),
{
    String::from_utf8(b).ok()
}

/// A typed textual parameter: a string value plus the interpretation under
/// which it is decoded to bytes.
pub struct Argument {
    /// The textual value as the user typed it.
    pub value: String,
    /// The interpretation under which `value` is decoded.
    pub input_type: InputType,
}

/// What decoding `a` to bytes yields, as a pure function of the value and
/// the interpretation.
pub open spec fn spec_arg_bytes(a: Argument) -> Option<Seq<u8>> {
    match a.input_type {
        InputType::Text => Some(encode_utf8(a.value@)),
        InputType::Hex => spec_hex_decode(encode_utf8(a.value@)),
        InputType::Base64 => b64_decode_of(encode_utf8(a.value@)),
    }
}

impl Default for Argument {
    /// An empty text argument.
    fn default() -> (r: Self)
        ensures
            r.value@ == Seq::<char>::empty(),
            r.input_type == InputType::Text,
    {
        Argument { value: String::new(), input_type: InputType::Text }
    }
}

impl Argument {
    /// Decodes the value under the selected interpretation; fails with
    /// `DecodeError` where the value is not valid for it.
    pub fn try_to_vec(&self) -> (r: Result<Vec<u8>, ProcessError>)
        ensures
            (match spec_arg_bytes(*self) {
                Some(b) => r matches Ok(v) && v@ == b,
                None => r matches Err(e) && e == ProcessError::DecodeError,
            }),
    {
        match self.input_type {
            InputType::Text => Ok(self.value.as_str().as_bytes_vec()),
            InputType::Hex => match hex_decode(self.value.as_str()) {
                Some(v) => Ok(v),
                None => Err(ProcessError::DecodeError),
            },
            InputType::Base64 => match b64_decode(self.value.as_str().as_bytes()) {
                Some(v) => Ok(v),
                None => Err(ProcessError::DecodeError),
            },
        }
    }

    /// Decodes the value to bytes and reads those bytes as UTF-8 text; fails
    /// with `DecodeError` where either step does.
    pub fn try_to_str(&self) -> (r: Result<String, ProcessError>)
        ensures
            (match spec_arg_bytes(*self) {
                Some(b) => {
                    if valid_utf8(b) {
                        r matches Ok(s) && encode_utf8(s@) == b
                    } else {
                        r matches Err(e) && e == ProcessError::DecodeError
                    }
                },
                None => r matches Err(e) && e == ProcessError::DecodeError,
            }),
    {
        match self.try_to_vec() {
            Ok(bytes) => match utf8_to_string(bytes) {
                Some(s) => Ok(s),
                None => Err(ProcessError::DecodeError),
            },
            Err(e) => Err(e),
        }
    }
}

} // verus!
