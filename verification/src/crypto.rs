//! The AES cipher modules and the cipher-mode dispatch.
//!
//! An AES module holds a mode and two typed arguments (key and iv). Every
//! `process` call re-derives the key material from the current argument
//! values: mode outside {CBC, ECB} fails with `UnsupportedMode`; an
//! argument that does not decode fails with `InvalidArgument`; a decoded
//! key length outside {16, 24, 32} (or a CBC iv length other than 16) fails
//! with `InvalidKeyOrIvLength`; decryption of malformed padding fails with
//! `PaddingError`.

use vstd::prelude::*;
use vstd::slice::slice_subrange;
use vstd::slice::slice_to_vec;

use crate::aes_backend::aes128_cbc_decrypt;
use crate::aes_backend::aes128_cbc_decrypt_of;
use crate::aes_backend::aes128_cbc_encrypt;
use crate::aes_backend::aes128_cbc_encrypt_of;
use crate::aes_backend::aes128_ecb_decrypt;
use crate::aes_backend::aes128_ecb_decrypt_of;
use crate::aes_backend::aes128_ecb_encrypt;
use crate::aes_backend::aes128_ecb_encrypt_of;
use crate::aes_backend::aes192_cbc_decrypt;
use crate::aes_backend::aes192_cbc_decrypt_of;
use crate::aes_backend::aes192_cbc_encrypt;
use crate::aes_backend::aes192_cbc_encrypt_of;
use crate::aes_backend::aes192_ecb_decrypt;
use crate::aes_backend::aes192_ecb_decrypt_of;
use crate::aes_backend::aes192_ecb_encrypt;
use crate::aes_backend::aes192_ecb_encrypt_of;
use crate::aes_backend::aes256_cbc_decrypt;
use crate::aes_backend::aes256_cbc_decrypt_of;
use crate::aes_backend::aes256_cbc_encrypt;
use crate::aes_backend::aes256_cbc_encrypt_of;
use crate::aes_backend::aes256_ecb_decrypt;
use crate::aes_backend::aes256_ecb_decrypt_of;
use crate::aes_backend::aes256_ecb_encrypt;
use crate::aes_backend::aes256_ecb_encrypt_of;
use crate::errors::ProcessError;
use crate::input::spec_arg_bytes;
use crate::input::Argument;

verus! {

/// The selectable cipher modes. All seven can be configured; only CBC and
/// ECB are implemented, the rest fail at `process` time.
#[derive(Clone, Copy, Debug, PartialEq, Eq, Structural)]
pub enum EncryptMode {
    Cbc,
    Cfb,
    Ofb,
    Ctr,
    Ecb,
    CbcNoPadding,
    EcbNoPadding,
}

/// The display name of each mode.
pub open spec fn spec_mode_label(m: EncryptMode) -> Seq<char> {
    match m {
        EncryptMode::Cbc => "CBC"@,
        EncryptMode::Cfb => "CFB"@,
        EncryptMode::Ofb => "OFB"@,
        EncryptMode::Ctr => "CTR"@,
        EncryptMode::Ecb => "ECB"@,
        EncryptMode::CbcNoPadding => "CBC/NoPadding"@,
        EncryptMode::EcbNoPadding => "ECB/NoPadding"@,
    }
}

impl EncryptMode {
    /// The display name of this mode.
    pub fn label(&self) -> (r: &'static str)
        ensures
            r@ == spec_mode_label(*self),
    {
        match self {
            EncryptMode::Cbc => "CBC",
            EncryptMode::Cfb => "CFB",
            EncryptMode::Ofb => "OFB",
            EncryptMode::Ctr => "CTR",
            EncryptMode::Ecb => "ECB",
            EncryptMode::CbcNoPadding => "CBC/NoPadding",
            EncryptMode::EcbNoPadding => "ECB/NoPadding",
        }
    }
}

impl Default for EncryptMode {
    /// The initially selected mode.
    fn default() -> (r: Self)
        ensures
            r == EncryptMode::Cbc,
    {
        EncryptMode::Cbc
    }
}

/// How many bytes PKCS#7 appends to an input of length `len` for block size
/// `block_size`: always between 1 and the block size.
pub open spec fn spec_pad_len(len: nat, block_size: nat) -> nat
    recommends
        block_size > 0,
{
    (block_size - len % block_size) as nat
}

/// Appends PKCS#7 padding for `block_size` to `input`: between 1 and
/// `block_size` copies of the pad length itself, taken modulo 256.
pub fn pkcs7_pad(input: &[u8], block_size: usize) -> (r: Result<Vec<u8>, ProcessError>)
    requires
        block_size > 0,
        input@.len() + block_size <= usize::MAX,
    ensures
        (r matches Ok(v) && v@ == input@ + Seq::new(
            spec_pad_len(input@.len(), block_size as nat),
            |i: int| spec_pad_len(input@.len(), block_size as nat) as u8,
        )),
{
    let padding: usize = block_size - input.len() % block_size;
    let pad_byte: u8 = #[verifier::truncate] (padding as u8);
    let mut result: Vec<u8> = slice_to_vec(input);
    let mut i: usize = 0;
    while i < padding
        invariant
            i <= padding,
            padding == spec_pad_len(input@.len(), block_size as nat),
            pad_byte == padding as u8,
            result@ == input@ + Seq::new(i as nat, |j: int| pad_byte),
        decreases padding - i,
    {
        result.push(pad_byte);
        i += 1;
    }
    Ok(result)
}

/// Removes PKCS#7 padding: reads the last byte as the pad length and drops
/// that many bytes, failing with `PaddingError` where it exceeds the input
/// length. The padded bytes themselves are not inspected.
pub fn pkcs7_unpad(input: &[u8]) -> (r: Result<Vec<u8>, ProcessError>)
    requires
        input@.len() > 0,
    ensures
        (if input@.last() as int > input@.len() {
            r matches Err(e) && e == ProcessError::PaddingError
        } else {
            r matches Ok(v) && v@ == input@.take(input@.len() - input@.last())
        }),
{
    let n: usize = input.len();
    let padding: usize = input[n - 1] as usize;
    if padding > n {
        return Err(ProcessError::PaddingError);
    }
    Ok(slice_to_vec(slice_subrange(input, 0, n - padding)))
}

/// Whether decoded CBC parameters have supported lengths: an AES key of 16,
/// 24 or 32 bytes and an iv of exactly 16 bytes.
pub open spec fn valid_cbc_lens(key: Seq<u8>, iv: Seq<u8>) -> bool {
    (key.len() == 16 || key.len() == 24 || key.len() == 32) && iv.len() == 16
}

/// Whether a decoded ECB key has a supported length: 16, 24 or 32 bytes.
pub open spec fn valid_ecb_key_len(key: Seq<u8>) -> bool {
    key.len() == 16 || key.len() == 24 || key.len() == 32
}

/// CBC encryption under the AES variant the key length selects.
pub open spec fn spec_cbc_encrypt(key: Seq<u8>, iv: Seq<u8>, pt: Seq<u8>) -> Seq<u8>
    recommends
        valid_cbc_lens(key, iv),
{
    if key.len() == 16 {
        aes128_cbc_encrypt_of(key, iv, pt)
    } else if key.len() == 24 {
        aes192_cbc_encrypt_of(key, iv, pt)
    } else {
        aes256_cbc_encrypt_of(key, iv, pt)
    }
}

/// CBC decryption under the AES variant the key length selects.
pub open spec fn spec_cbc_decrypt(key: Seq<u8>, iv: Seq<u8>, ct: Seq<u8>) -> Option<Seq<u8>>
    recommends
        valid_cbc_lens(key, iv),
{
    if key.len() == 16 {
        aes128_cbc_decrypt_of(key, iv, ct)
    } else if key.len() == 24 {
        aes192_cbc_decrypt_of(key, iv, ct)
    } else {
        aes256_cbc_decrypt_of(key, iv, ct)
    }
}

/// ECB encryption under the AES variant the key length selects.
pub open spec fn spec_ecb_encrypt(key: Seq<u8>, pt: Seq<u8>) -> Seq<u8>
    recommends
        valid_ecb_key_len(key),
{
    if key.len() == 16 {
        aes128_ecb_encrypt_of(key, pt)
    } else if key.len() == 24 {
        aes192_ecb_encrypt_of(key, pt)
    } else {
        aes256_ecb_encrypt_of(key, pt)
    }
}

/// ECB decryption under the AES variant the key length selects.
pub open spec fn spec_ecb_decrypt(key: Seq<u8>, ct: Seq<u8>) -> Option<Seq<u8>>
    recommends
        valid_ecb_key_len(key),
{
    if key.len() == 16 {
        aes128_ecb_decrypt_of(key, ct)
    } else if key.len() == 24 {
        aes192_ecb_decrypt_of(key, ct)
    } else {
        aes256_ecb_decrypt_of(key, ct)
    }
}

/// What an AES module with the given mode and arguments returns on `input`:
/// the whole dispatch of a `process` call, for encryption (`encrypting`)
/// or decryption.
pub open spec fn spec_aes_process(
    mode: EncryptMode,
    key: Argument,
    iv: Argument,
    encrypting: bool,
    input: Seq<u8>,
) -> Result<Seq<u8>, ProcessError> {
    match mode {
        EncryptMode::Cbc => match (spec_arg_bytes(key), spec_arg_bytes(iv)) {
            (Some(k), Some(i)) => if valid_cbc_lens(k, i) {
                if encrypting {
                    Ok(spec_cbc_encrypt(k, i, input))
                } else {
                    match spec_cbc_decrypt(k, i, input) {
                        Some(p) => Ok(p),
                        None => Err(ProcessError::PaddingError),
                    }
                }
            } else {
                Err(ProcessError::InvalidKeyOrIvLength)
            },
            _ => Err(ProcessError::InvalidArgument),
        },
        EncryptMode::Ecb => match spec_arg_bytes(key) {
            Some(k) => if valid_ecb_key_len(k) {
                if encrypting {
                    Ok(spec_ecb_encrypt(k, input))
                } else {
                    match spec_ecb_decrypt(k, input) {
                        Some(p) => Ok(p),
                        None => Err(ProcessError::PaddingError),
                    }
                }
            } else {
                Err(ProcessError::InvalidKeyOrIvLength)
            },
            None => Err(ProcessError::InvalidArgument),
        },
        _ => Err(ProcessError::UnsupportedMode),
    }
}

/// Whether an [`Argument`] still has its default state: empty text.
pub open spec fn spec_is_default_argument(a: Argument) -> bool {
    a.value@ == Seq::<char>::empty() && a.input_type == crate::input::InputType::Text
}

/// A module that encrypts its input with AES.
pub struct AESEncrypt {
    pub id: u64,
    pub mode: EncryptMode,
    pub key: Argument,
    pub iv: Argument,
}

/// A module that decrypts its input with AES.
pub struct AESDecrypt {
    pub id: u64,
    pub mode: EncryptMode,
    pub key: Argument,
    pub iv: Argument,
}

impl AESEncrypt {
    /// A fresh instance with the given identity and default parameters.
    pub fn new(id: u64) -> (r: Self)
        ensures
            r.id == id,
            r.mode == EncryptMode::Cbc,
            spec_is_default_argument(r.key),
            spec_is_default_argument(r.iv),
    {
        AESEncrypt {
            id,
            mode: EncryptMode::Cbc,
            key: Argument::default(),
            iv: Argument::default(),
        }
    }

    /// The display name of this module.
    pub fn name(&self) -> (r: &'static str)
        ensures
            r@ == "AES Encrypt"@,
    {
        "AES Encrypt"
    }

    /// The display description of this module.
    pub fn description(&self) -> (r: &'static str)
        ensures
            r@ == "Encrypt input with AES"@,
    {
        "Encrypt input with AES"
    }

    /// The stable identity of this instance.
    pub fn id(&self) -> (r: u64)
        ensures
            r == self.id,
    {
        self.id
    }

    /// Encrypts the input under the configured mode, key and iv, with PKCS#7
    /// padding; the error cases are exactly those of [`spec_aes_process`].
    ///
    /// The second clause is one half of the round-trip law: decrypting the
    /// result with the same parameters recovers the input.
    pub fn process(&self, input: &[u8]) -> (r: Result<Vec<u8>, ProcessError>)
        ensures
            (match r {
                Ok(v) => spec_aes_process(self.mode, self.key, self.iv, true, input@) matches Ok(b)
                    && v@ == b,
                Err(e) => spec_aes_process(self.mode, self.key, self.iv, true, input@) matches Err(
                    e2,
                ) && e == e2,
            }),
            (r matches Ok(v) ==> spec_aes_process(self.mode, self.key, self.iv, false, v@) matches
                Ok(b) && b == input@),
    {
        match self.mode {
            EncryptMode::Cbc => {
                let key = match self.key.try_to_vec() {
                    Ok(k) => k,
                    Err(_) => {
                        return Err(ProcessError::InvalidArgument);
                    },
                };
                let iv = match self.iv.try_to_vec() {
                    Ok(v) => v,
                    Err(_) => {
                        return Err(ProcessError::InvalidArgument);
                    },
                };
                if iv.len() != 16 {
                    Err(ProcessError::InvalidKeyOrIvLength)
                } else if key.len() == 16 {
                    Ok(aes128_cbc_encrypt(key.as_slice(), iv.as_slice(), input))
                } else if key.len() == 24 {
                    Ok(aes192_cbc_encrypt(key.as_slice(), iv.as_slice(), input))
                } else if key.len() == 32 {
                    Ok(aes256_cbc_encrypt(key.as_slice(), iv.as_slice(), input))
                } else {
                    Err(ProcessError::InvalidKeyOrIvLength)
                }
            },
            EncryptMode::Ecb => {
                let key = match self.key.try_to_vec() {
                    Ok(k) => k,
                    Err(_) => {
                        return Err(ProcessError::InvalidArgument);
                    },
                };
                if key.len() == 16 {
                    Ok(aes128_ecb_encrypt(key.as_slice(), input))
                } else if key.len() == 24 {
                    Ok(aes192_ecb_encrypt(key.as_slice(), input))
                } else if key.len() == 32 {
                    Ok(aes256_ecb_encrypt(key.as_slice(), input))
                } else {
                    Err(ProcessError::InvalidKeyOrIvLength)
                }
            },
            _ => Err(ProcessError::UnsupportedMode),
        }
    }
}

impl AESDecrypt {
    /// A fresh instance with the given identity and default parameters.
    pub fn new(id: u64) -> (r: Self)
        ensures
            r.id == id,
            r.mode == EncryptMode::Cbc,
            spec_is_default_argument(r.key),
            spec_is_default_argument(r.iv),
    {
        AESDecrypt {
            id,
            mode: EncryptMode::Cbc,
            key: Argument::default(),
            iv: Argument::default(),
        }
    }

    /// The display name of this module.
    pub fn name(&self) -> (r: &'static str)
        ensures
            r@ == "AES Decrypt"@,
    {
        "AES Decrypt"
    }

    /// The display description of this module.
    pub fn description(&self) -> (r: &'static str)
        ensures
            r@ == "Decrypt input with AES"@,
    {
        "Decrypt input with AES"
    }

    /// The stable identity of this instance.
    pub fn id(&self) -> (r: u64)
        ensures
            r == self.id,
    {
        self.id
    }

    /// Decrypts the input under the configured mode, key and iv, removing
    /// PKCS#7 padding; the error cases are exactly those of
    /// [`spec_aes_process`].
    ///
    /// The second clause is the round-trip law: on the encryption of any
    /// `pt` under the same parameters this returns exactly `pt`, and a
    /// failed run means the input is no such encryption.
    pub fn process(&self, input: &[u8]) -> (r: Result<Vec<u8>, ProcessError>)
        ensures
            (match r {
                Ok(v) => spec_aes_process(self.mode, self.key, self.iv, false, input@) matches Ok(
                    b,
                ) && v@ == b,
                Err(e) => spec_aes_process(self.mode, self.key, self.iv, false, input@) matches Err(
                    e2,
                ) && e == e2,
            }),
            (match r {
                Ok(v) => forall|pt: Seq<u8>|
                    ((#[trigger] spec_aes_process(self.mode, self.key, self.iv, true, pt)) matches
                        Ok(c) && c == input@) ==> v@ == pt,
                Err(e) => forall|pt: Seq<u8>|
                    !((#[trigger] spec_aes_process(self.mode, self.key, self.iv, true, pt)) matches
                        Ok(c) && c == input@),
            }),
    {
        match self.mode {
            EncryptMode::Cbc => {
                let key = match self.key.try_to_vec() {
                    Ok(k) => k,
                    Err(_) => {
                        return Err(ProcessError::InvalidArgument);
                    },
                };
                let iv = match self.iv.try_to_vec() {
                    Ok(v) => v,
                    Err(_) => {
                        return Err(ProcessError::InvalidArgument);
                    },
                };
                if iv.len() != 16 {
                    Err(ProcessError::InvalidKeyOrIvLength)
                } else if key.len() == 16 {
                    match aes128_cbc_decrypt(key.as_slice(), iv.as_slice(), input) {
                        Some(v) => Ok(v),
                        None => Err(ProcessError::PaddingError),
                    }
                } else if key.len() == 24 {
                    match aes192_cbc_decrypt(key.as_slice(), iv.as_slice(), input) {
                        Some(v) => Ok(v),
                        None => Err(ProcessError::PaddingError),
                    }
                } else if key.len() == 32 {
                    match aes256_cbc_decrypt(key.as_slice(), iv.as_slice(), input) {
                        Some(v) => Ok(v),
                        None => Err(ProcessError::PaddingError),
                    }
                } else {
                    Err(ProcessError::InvalidKeyOrIvLength)
                }
            },
            EncryptMode::Ecb => {
                let key = match self.key.try_to_vec() {
                    Ok(k) => k,
                    Err(_) => {
                        return Err(ProcessError::InvalidArgument);
                    },
                };
                if key.len() == 16 {
                    match aes128_ecb_decrypt(key.as_slice(), input) {
                        Some(v) => Ok(v),
                        None => Err(ProcessError::PaddingError),
                    }
                } else if key.len() == 24 {
                    match aes192_ecb_decrypt(key.as_slice(), input) {
                        Some(v) => Ok(v),
                        None => Err(ProcessError::PaddingError),
                    }
                } else if key.len() == 32 {
                    match aes256_ecb_decrypt(key.as_slice(), input) {
                        Some(v) => Ok(v),
                        None => Err(ProcessError::PaddingError),
                    }
                } else {
                    Err(ProcessError::InvalidKeyOrIvLength)
                }
            },
            _ => Err(ProcessError::UnsupportedMode),
        }
    }
}

} // verus!
