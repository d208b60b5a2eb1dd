//! Base64 encoding modules.
//!
//! Both modules call the base64 crate's STANDARD engine (standard alphabet,
//! `=` padding) through trusted wrappers; the wrappers' contracts name the
//! engine's results so that the modules' own contracts are exact, and state
//! the documented round trip: decoding an encoding yields the original bytes.

use vstd::prelude::*;

use crate::errors::ProcessError;

verus! {

/// The bytes of the STANDARD engine's base64 encoding of `b`.
pub uninterp spec fn b64_encode_of(b: Seq<u8>) -> Seq<u8>;

/// What the STANDARD engine's decode returns on `s`: the denoted bytes, or
/// `None` where `s` is not a canonical padded standard-alphabet encoding.
pub uninterp spec fn b64_decode_of(s: Seq<u8>) -> Option<Seq<u8>>;

/// Relies on base64's `Engine::encode` with the `STANDARD` engine: a pure
/// function of the input bytes, four output characters for every three input
/// bytes with `=` padding, whose result the same engine's decode inverts.
#[verifier::external_body]
pub(crate) fn b64_encode(input: &[u8]) -> (r: Vec<u8>)
    ensures
        r@ == b64_encode_of(input@),
        r@.len() == ((input@.len() + 2) / 3) * 4,
        b64_decode_of(r@) == Some(input@),
{
    base64::Engine::encode(&base64::engine::general_purpose::STANDARD, input).into_bytes()
}

/// Relies on base64's `Engine::decode` with the `STANDARD` engine: succeeds
/// exactly on canonical padded standard-alphabet encodings (the engine
/// requires canonical padding and rejects non-zero trailing bits), and on
/// the encoding of `b` it returns `b`.
#[verifier::external_body]
pub(crate) fn b64_decode(input: &[u8]) -> (r: Option<Vec<u8>>)
    ensures
        (match r {
            Some(v) => b64_decode_of(input@) == Some(v@) && (forall|b: Seq<u8>|
                input@ == b64_encode_of(b) ==> v@ == b),
            None => b64_decode_of(input@) is None && (forall|b: Seq<u8>|
                input@ != b64_encode_of(b)),
        }),
{
    base64::Engine::decode(&base64::engine::general_purpose::STANDARD, input).ok()
}

/// A module that encodes its input to Base64 text.
pub struct Base64Encoder {
    pub id: u64,
}

impl Base64Encoder {
    /// The display name of this module.
    pub fn name(&self) -> (r: &'static str)
        ensures
            r@ == "Base64 Encoder"@,
    {
        "Base64 Encoder"
    }

    /// The display description of this module.
    pub fn description(&self) -> (r: &'static str)
        ensures
            r@ == "Encode input to Base64"@,
    {
        "Encode input to Base64"
    }

    /// The stable identity of this instance.
    pub fn id(&self) -> (r: u64)
        ensures
            r == self.id,
    {
        self.id
    }

    /// Encodes the input bytes to the ASCII bytes of their standard Base64
    /// text, padding included. Never fails.
    pub fn process(&self, input: &[u8]) -> (r: Result<Vec<u8>, ProcessError>)
        ensures
            (r matches Ok(v) && v@ == b64_encode_of(input@) && b64_decode_of(v@) == Some(
                input@,
            ) && v@.len() == ((input@.len() + 2) / 3) * 4),
    {
        Ok(b64_encode(input))
    }
}

/// A module that decodes its input from Base64 text.
pub struct Base64Decoder {
    pub id: u64,
}

impl Base64Decoder {
    /// The display name of this module.
    pub fn name(&self) -> (r: &'static str)
        ensures
            r@ == "Base64 Decoder"@,
    {
        "Base64 Decoder"
    }

    /// The display description of this module.
    pub fn description(&self) -> (r: &'static str)
        ensures
            r@ == "Decode input from Base64"@,
    {
        "Decode input from Base64"
    }

    /// The stable identity of this instance.
    pub fn id(&self) -> (r: u64)
        ensures
            r == self.id,
    {
        self.id
    }

    /// Decodes the input bytes as standard Base64 text; fails with
    /// `DecodeError` on anything but a canonical padded encoding.
    ///
    /// The last clause is the round-trip law: for every byte sequence `b`,
    /// decoding the encoding of `b` returns exactly `b`.
    pub fn process(&self, input: &[u8]) -> (r: Result<Vec<u8>, ProcessError>)
        ensures
            (match r {
                Ok(v) => b64_decode_of(input@) == Some(v@),
                Err(e) => e == ProcessError::DecodeError && b64_decode_of(input@) is None,
            }),
            forall|b: Seq<u8>| input@ == b64_encode_of(b) ==> (r matches Ok(v) && v@ == b),
    {
        match b64_decode(input) {
            Some(v) => Ok(v),
            None => Err(ProcessError::DecodeError),
        }
    }
}

} // verus!
