//! The closed set of module kinds and their common surface.
//!
//! A [`ModuleInstance`] is one concrete module together with its parameter
//! state; the pipeline and the edit model handle modules only through this
//! type. Duplication from a catalogue template yields a fresh instance with
//! a caller-chosen identity and default parameters — it is a template
//! reset, not a parameter-preserving copy.

use vstd::prelude::*;

use crate::crypto::spec_aes_process;
use crate::crypto::spec_is_default_argument;
use crate::crypto::AESDecrypt;
use crate::crypto::AESEncrypt;
use crate::crypto::EncryptMode;
use crate::encoding::b64_decode_of;
use crate::encoding::b64_encode_of;
use crate::encoding::Base64Decoder;
use crate::encoding::Base64Encoder;
use crate::errors::ProcessError;

verus! {

/// One module instance of the recipe or the catalogue.
pub enum ModuleInstance {
    Base64Encoder(Base64Encoder),
    Base64Decoder(Base64Decoder),
    AESEncrypt(AESEncrypt),
    AESDecrypt(AESDecrypt),
}

/// The stable identity of a module instance.
pub open spec fn spec_id(m: ModuleInstance) -> u64 {
    match m {
        ModuleInstance::Base64Encoder(x) => x.id,
        ModuleInstance::Base64Decoder(x) => x.id,
        ModuleInstance::AESEncrypt(x) => x.id,
        ModuleInstance::AESDecrypt(x) => x.id,
    }
}

/// The display name of a module instance.
pub open spec fn spec_name(m: ModuleInstance) -> Seq<char> {
    match m {
        ModuleInstance::Base64Encoder(_) => "Base64 Encoder"@,
        ModuleInstance::Base64Decoder(_) => "Base64 Decoder"@,
        ModuleInstance::AESEncrypt(_) => "AES Encrypt"@,
        ModuleInstance::AESDecrypt(_) => "AES Decrypt"@,
    }
}

/// The display description of a module instance.
pub open spec fn spec_description(m: ModuleInstance) -> Seq<char> {
    match m {
        ModuleInstance::Base64Encoder(_) => "Encode input to Base64"@,
        ModuleInstance::Base64Decoder(_) => "Decode input from Base64"@,
        ModuleInstance::AESEncrypt(_) => "Encrypt input with AES"@,
        ModuleInstance::AESDecrypt(_) => "Decrypt input with AES"@,
    }
}

/// What `m.process(input)` returns, as a pure function of the instance's
/// parameter state and the input bytes.
pub open spec fn spec_process(m: ModuleInstance, input: Seq<u8>) -> Result<Seq<u8>, ProcessError> {
    match m {
        ModuleInstance::Base64Encoder(_) => Ok(b64_encode_of(input)),
        ModuleInstance::Base64Decoder(_) => match b64_decode_of(input) {
            Some(v) => Ok(v),
            None => Err(ProcessError::DecodeError),
        },
        ModuleInstance::AESEncrypt(x) => spec_aes_process(x.mode, x.key, x.iv, true, input),
        ModuleInstance::AESDecrypt(x) => spec_aes_process(x.mode, x.key, x.iv, false, input),
    }
}

/// Whether two instances are of the same module kind.
pub open spec fn spec_same_kind(a: ModuleInstance, b: ModuleInstance) -> bool {
    match (a, b) {
        (ModuleInstance::Base64Encoder(_), ModuleInstance::Base64Encoder(_)) => true,
        (ModuleInstance::Base64Decoder(_), ModuleInstance::Base64Decoder(_)) => true,
        (ModuleInstance::AESEncrypt(_), ModuleInstance::AESEncrypt(_)) => true,
        (ModuleInstance::AESDecrypt(_), ModuleInstance::AESDecrypt(_)) => true,
        _ => false,
    }
}

/// Whether an instance still has its default parameter state.
pub open spec fn spec_has_default_params(m: ModuleInstance) -> bool {
    match m {
        ModuleInstance::Base64Encoder(_) => true,
        ModuleInstance::Base64Decoder(_) => true,
        ModuleInstance::AESEncrypt(x) => x.mode == EncryptMode::Cbc && spec_is_default_argument(
            x.key,
        ) && spec_is_default_argument(x.iv),
        ModuleInstance::AESDecrypt(x) => x.mode == EncryptMode::Cbc && spec_is_default_argument(
            x.key,
        ) && spec_is_default_argument(x.iv),
    }
}

impl ModuleInstance {
    /// The stable identity of this instance.
    pub fn id(&self) -> (r: u64)
        ensures
            r == spec_id(*self),
    {
        match self {
            ModuleInstance::Base64Encoder(x) => x.id(),
            ModuleInstance::Base64Decoder(x) => x.id(),
            ModuleInstance::AESEncrypt(x) => x.id(),
            ModuleInstance::AESDecrypt(x) => x.id(),
        }
    }

    /// The display name of this instance.
    pub fn name(&self) -> (r: &'static str)
        ensures
            r@ == spec_name(*self),
    {
        match self {
            ModuleInstance::Base64Encoder(x) => x.name(),
            ModuleInstance::Base64Decoder(x) => x.name(),
            ModuleInstance::AESEncrypt(x) => x.name(),
            ModuleInstance::AESDecrypt(x) => x.name(),
        }
    }

    /// The display description of this instance.
    pub fn description(&self) -> (r: &'static str)
        ensures
            r@ == spec_description(*self),
    {
        match self {
            ModuleInstance::Base64Encoder(x) => x.description(),
            ModuleInstance::Base64Decoder(x) => x.description(),
            ModuleInstance::AESEncrypt(x) => x.description(),
            ModuleInstance::AESDecrypt(x) => x.description(),
        }
    }

    /// Applies this module's transform to `input`: a pure function of the
    /// input and the current parameter state, never of earlier calls.
    pub fn process(&self, input: &[u8]) -> (r: Result<Vec<u8>, ProcessError>)
        ensures
            (match r {
                Ok(v) => spec_process(*self, input@) matches Ok(b) && v@ == b,
                Err(e) => spec_process(*self, input@) matches Err(e2) && e == e2,
            }),
    {
        match self {
            ModuleInstance::Base64Encoder(x) => x.process(input),
            ModuleInstance::Base64Decoder(x) => x.process(input),
            ModuleInstance::AESEncrypt(x) => x.process(input),
            ModuleInstance::AESDecrypt(x) => x.process(input),
        }
    }

    /// A fresh instance of the same kind with the given identity and
    /// default parameters.
    pub fn duplicate(&self, id: u64) -> (r: ModuleInstance)
        ensures
            spec_same_kind(r, *self),
            spec_id(r) == id,
            spec_has_default_params(r),
    {
        match self {
            ModuleInstance::Base64Encoder(_) => ModuleInstance::Base64Encoder(
                Base64Encoder { id },
            ),
            ModuleInstance::Base64Decoder(_) => ModuleInstance::Base64Decoder(
                Base64Decoder { id },
            ),
            ModuleInstance::AESEncrypt(_) => ModuleInstance::AESEncrypt(AESEncrypt::new(id)),
            ModuleInstance::AESDecrypt(_) => ModuleInstance::AESDecrypt(AESDecrypt::new(id)),
        }
    }
}

} // verus!
