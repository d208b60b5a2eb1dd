//! Trusted bindings to the AES block-cipher primitives.
//!
//! The cipher crates compute AES in CBC and ECB mode with PKCS#7 padding;
//! their results are pure functions of key, iv and input, so each one is
//! given a name here and the wrappers' contracts speak of those names. The
//! documented facts stated of them: encryption pads to the next full
//! 16-byte block, and decryption with the same parameters inverts it.

use aes::cipher::BlockDecryptMut;
use aes::cipher::BlockEncryptMut;
use aes::cipher::KeyInit;
use aes::cipher::KeyIvInit;
use block_padding::Pkcs7;
use vstd::prelude::*;

verus! {

/// AES-128-CBC encryption with PKCS#7 padding of `pt` under `key` and `iv`.
pub uninterp spec fn aes128_cbc_encrypt_of(key: Seq<u8>, iv: Seq<u8>, pt: Seq<u8>) -> Seq<u8>;

/// What AES-128-CBC decryption with PKCS#7 unpadding returns on `ct` under
/// `key` and `iv`: the recovered bytes, or `None` on a padding failure.
pub uninterp spec fn aes128_cbc_decrypt_of(key: Seq<u8>, iv: Seq<u8>, ct: Seq<u8>) -> Option<
    Seq<u8>,
>;

/// AES-192-CBC encryption with PKCS#7 padding of `pt` under `key` and `iv`.
pub uninterp spec fn aes192_cbc_encrypt_of(key: Seq<u8>, iv: Seq<u8>, pt: Seq<u8>) -> Seq<u8>;

/// What AES-192-CBC decryption with PKCS#7 unpadding returns on `ct` under
/// `key` and `iv`.
pub uninterp spec fn aes192_cbc_decrypt_of(key: Seq<u8>, iv: Seq<u8>, ct: Seq<u8>) -> Option<
    Seq<u8>,
>;

/// AES-256-CBC encryption with PKCS#7 padding of `pt` under `key` and `iv`.
pub uninterp spec fn aes256_cbc_encrypt_of(key: Seq<u8>, iv: Seq<u8>, pt: Seq<u8>) -> Seq<u8>;

/// What AES-256-CBC decryption with PKCS#7 unpadding returns on `ct` under
/// `key` and `iv`.
pub uninterp spec fn aes256_cbc_decrypt_of(key: Seq<u8>, iv: Seq<u8>, ct: Seq<u8>) -> Option<
    Seq<u8>,
>;

/// AES-128-ECB encryption with PKCS#7 padding of `pt` under `key`.
pub uninterp spec fn aes128_ecb_encrypt_of(key: Seq<u8>, pt: Seq<u8>) -> Seq<u8>;

/// What AES-128-ECB decryption with PKCS#7 unpadding returns on `ct` under
/// `key`.
pub uninterp spec fn aes128_ecb_decrypt_of(key: Seq<u8>, ct: Seq<u8>) -> Option<Seq<u8>>;

/// AES-192-ECB encryption with PKCS#7 padding of `pt` under `key`.
pub uninterp spec fn aes192_ecb_encrypt_of(key: Seq<u8>, pt: Seq<u8>) -> Seq<u8>;

/// What AES-192-ECB decryption with PKCS#7 unpadding returns on `ct` under
/// `key`.
pub uninterp spec fn aes192_ecb_decrypt_of(key: Seq<u8>, ct: Seq<u8>) -> Option<Seq<u8>>;

/// AES-256-ECB encryption with PKCS#7 padding of `pt` under `key`.
pub uninterp spec fn aes256_ecb_encrypt_of(key: Seq<u8>, pt: Seq<u8>) -> Seq<u8>;

/// What AES-256-ECB decryption with PKCS#7 unpadding returns on `ct` under
/// `key`.
pub uninterp spec fn aes256_ecb_decrypt_of(key: Seq<u8>, ct: Seq<u8>) -> Option<Seq<u8>>;

/// Relies on cbc::Encryptor<aes::Aes128> and encrypt_padded_vec_mut with
/// PKCS#7: pads to the next full block, never fails, and its result is what
/// the matching decryption inverts.
#[verifier::external_body]
pub(crate) fn aes128_cbc_encrypt(key: &[u8], iv: &[u8], input: &[u8]) -> (r: Vec<u8>)
    requires
        key@.len() == 16,
        iv@.len() == 16,
    ensures
        r@ == aes128_cbc_encrypt_of(key@, iv@, input@),
        r@.len() == (input@.len() / 16 + 1) * 16,
        aes128_cbc_decrypt_of(key@, iv@, r@) == Some(input@),
{
    cbc::Encryptor::<aes::Aes128>::new(key.into(), iv.into()).encrypt_padded_vec_mut::<Pkcs7>(
        input,
    )
}

/// Relies on cbc::Decryptor<aes::Aes128> and decrypt_padded_vec_mut with
/// PKCS#7: fails exactly on malformed padding or partial blocks, and on the
/// encryption of `pt` under the same key and iv it returns `pt`.
#[verifier::external_body]
pub(crate) fn aes128_cbc_decrypt(key: &[u8], iv: &[u8], input: &[u8]) -> (r: Option<Vec<u8>>)
    requires
        key@.len() == 16,
        iv@.len() == 16,
    ensures
        (match r {
            Some(v) => aes128_cbc_decrypt_of(key@, iv@, input@) == Some(v@) && (forall|
                pt: Seq<u8>,
            |
                input@ == aes128_cbc_encrypt_of(key@, iv@, pt) ==> v@ == pt),
            None => aes128_cbc_decrypt_of(key@, iv@, input@) is None && (forall|pt: Seq<u8>|
                input@ != aes128_cbc_encrypt_of(key@, iv@, pt)),
        }),
{
    cbc::Decryptor::<aes::Aes128>::new(key.into(), iv.into()).decrypt_padded_vec_mut::<Pkcs7>(
        input,
    ).ok()
}

/// Relies on cbc::Encryptor<aes::Aes192>, as the AES-128 variant does.
#[verifier::external_body]
pub(crate) fn aes192_cbc_encrypt(key: &[u8], iv: &[u8], input: &[u8]) -> (r: Vec<u8>)
    requires
        key@.len() == 24,
        iv@.len() == 16,
    ensures
        r@ == aes192_cbc_encrypt_of(key@, iv@, input@),
        r@.len() == (input@.len() / 16 + 1) * 16,
        aes192_cbc_decrypt_of(key@, iv@, r@) == Some(input@),
{
    cbc::Encryptor::<aes::Aes192>::new(key.into(), iv.into()).encrypt_padded_vec_mut::<Pkcs7>(
        input,
    )
}

/// Relies on cbc::Decryptor<aes::Aes192>, as the AES-128 variant does.
#[verifier::external_body]
pub(crate) fn aes192_cbc_decrypt(key: &[u8], iv: &[u8], input: &[u8]) -> (r: Option<Vec<u8>>)
    requires
        key@.len() == 24,
        iv@.len() == 16,
    ensures
        (match r {
            Some(v) => aes192_cbc_decrypt_of(key@, iv@, input@) == Some(v@) && (forall|
                pt: Seq<u8>,
            |
                input@ == aes192_cbc_encrypt_of(key@, iv@, pt) ==> v@ == pt),
            None => aes192_cbc_decrypt_of(key@, iv@, input@) is None && (forall|pt: Seq<u8>|
                input@ != aes192_cbc_encrypt_of(key@, iv@, pt)),
        }),
{
    cbc::Decryptor::<aes::Aes192>::new(key.into(), iv.into()).decrypt_padded_vec_mut::<Pkcs7>(
        input,
    ).ok()
}

/// Relies on cbc::Encryptor<aes::Aes256>, as the AES-128 variant does.
#[verifier::external_body]
pub(crate) fn aes256_cbc_encrypt(key: &[u8], iv: &[u8], input: &[u8]) -> (r: Vec<u8>)
    requires
        key@.len() == 32,
        iv@.len() == 16,
    ensures
        r@ == aes256_cbc_encrypt_of(key@, iv@, input@),
        r@.len() == (input@.len() / 16 + 1) * 16,
        aes256_cbc_decrypt_of(key@, iv@, r@) == Some(input@),
{
    cbc::Encryptor::<aes::Aes256>::new(key.into(), iv.into()).encrypt_padded_vec_mut::<Pkcs7>(
        input,
    )
}

/// Relies on cbc::Decryptor<aes::Aes256>, as the AES-128 variant does.
#[verifier::external_body]
pub(crate) fn aes256_cbc_decrypt(key: &[u8], iv: &[u8], input: &[u8]) -> (r: Option<Vec<u8>>)
    requires
        key@.len() == 32,
        iv@.len() == 16,
    ensures
        (match r {
            Some(v) => aes256_cbc_decrypt_of(key@, iv@, input@) == Some(v@) && (forall|
                pt: Seq<u8>,
            |
                input@ == aes256_cbc_encrypt_of(key@, iv@, pt) ==> v@ == pt),
            None => aes256_cbc_decrypt_of(key@, iv@, input@) is None && (forall|pt: Seq<u8>|
                input@ != aes256_cbc_encrypt_of(key@, iv@, pt)),
        }),
{
    cbc::Decryptor::<aes::Aes256>::new(key.into(), iv.into()).decrypt_padded_vec_mut::<Pkcs7>(
        input,
    ).ok()
}

/// Relies on ecb::Encryptor<aes::Aes128> and encrypt_padded_vec_mut with
/// PKCS#7: pads to the next full block, never fails, and its result is what
/// the matching decryption inverts.
#[verifier::external_body]
pub(crate) fn aes128_ecb_encrypt(key: &[u8], input: &[u8]) -> (r: Vec<u8>)
    requires
        key@.len() == 16,
    ensures
        r@ == aes128_ecb_encrypt_of(key@, input@),
        r@.len() == (input@.len() / 16 + 1) * 16,
        aes128_ecb_decrypt_of(key@, r@) == Some(input@),
{
    ecb::Encryptor::<aes::Aes128>::new(key.into()).encrypt_padded_vec_mut::<Pkcs7>(input)
}

/// Relies on ecb::Decryptor<aes::Aes128> and decrypt_padded_vec_mut with
/// PKCS#7: fails exactly on malformed padding or partial blocks, and on the
/// encryption of `pt` under the same key it returns `pt`.
#[verifier::external_body]
pub(crate) fn aes128_ecb_decrypt(key: &[u8], input: &[u8]) -> (r: Option<Vec<u8>>)
    requires
        key@.len() == 16,
    ensures
        (match r {
            Some(v) => aes128_ecb_decrypt_of(key@, input@) == Some(v@) && (forall|pt: Seq<u8>|
                input@ == aes128_ecb_encrypt_of(key@, pt) ==> v@ == pt),
            None => aes128_ecb_decrypt_of(key@, input@) is None && (forall|pt: Seq<u8>|
                input@ != aes128_ecb_encrypt_of(key@, pt)),
        }),
{
    ecb::Decryptor::<aes::Aes128>::new(key.into()).decrypt_padded_vec_mut::<Pkcs7>(input).ok()
}

/// Relies on ecb::Encryptor<aes::Aes192>, as the AES-128 variant does.
#[verifier::external_body]
pub(crate) fn aes192_ecb_encrypt(key: &[u8], input: &[u8]) -> (r: Vec<u8>)
    requires
        key@.len() == 24,
    ensures
        r@ == aes192_ecb_encrypt_of(key@, input@),
        r@.len() == (input@.len() / 16 + 1) * 16,
        aes192_ecb_decrypt_of(key@, r@) == Some(input@),
{
    ecb::Encryptor::<aes::Aes192>::new(key.into()).encrypt_padded_vec_mut::<Pkcs7>(input)
}

/// Relies on ecb::Decryptor<aes::Aes192>, as the AES-128 variant does.
#[verifier::external_body]
pub(crate) fn aes192_ecb_decrypt(key: &[u8], input: &[u8]) -> (r: Option<Vec<u8>>)
    requires
        key@.len() == 24,
    ensures
        (match r {
            Some(v) => aes192_ecb_decrypt_of(key@, input@) == Some(v@) && (forall|pt: Seq<u8>|
                input@ == aes192_ecb_encrypt_of(key@, pt) ==> v@ == pt),
            None => aes192_ecb_decrypt_of(key@, input@) is None && (forall|pt: Seq<u8>|
                input@ != aes192_ecb_encrypt_of(key@, pt)),
        }),
{
    ecb::Decryptor::<aes::Aes192>::new(key.into()).decrypt_padded_vec_mut::<Pkcs7>(input).ok()
}

/// Relies on ecb::Encryptor<aes::Aes256>, as the AES-128 variant does.
#[verifier::external_body]
pub(crate) fn aes256_ecb_encrypt(key: &[u8], input: &[u8]) -> (r: Vec<u8>)
    requires
        key@.len() == 32,
    ensures
        r@ == aes256_ecb_encrypt_of(key@, input@),
        r@.len() == (input@.len() / 16 + 1) * 16,
        aes256_ecb_decrypt_of(key@, r@) == Some(input@),
{
    ecb::Encryptor::<aes::Aes256>::new(key.into()).encrypt_padded_vec_mut::<Pkcs7>(input)
}

/// Relies on ecb::Decryptor<aes::Aes256>, as the AES-128 variant does.
#[verifier::external_body]
pub(crate) fn aes256_ecb_decrypt(key: &[u8], input: &[u8]) -> (r: Option<Vec<u8>>)
    requires
        key@.len() == 32,
    ensures
        (match r {
            Some(v) => aes256_ecb_decrypt_of(key@, input@) == Some(v@) && (forall|pt: Seq<u8>|
                input@ == aes256_ecb_encrypt_of(key@, pt) ==> v@ == pt),
            None => aes256_ecb_decrypt_of(key@, input@) is None && (forall|pt: Seq<u8>|
                input@ != aes256_ecb_encrypt_of(key@, pt)),
        }),
{
    ecb::Decryptor::<aes::Aes256>::new(key.into()).decrypt_padded_vec_mut::<Pkcs7>(input).ok()
}

} // verus!
