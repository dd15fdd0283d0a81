use vstd::prelude::*;

use crate::codec::{key_pair_of_text, parse, KeyPairMaterial, KeyPairView};
use crate::decryption::{
    accept_plaintext, check_ciphertext, plaintext_spec, plaintext_to_text, utf8_text,
};
use crate::errors::{
    status_spec, CryptoError, DecodeError, IoError, PipelineError, SealError, StatusCode,
};
use crate::vault::{sealed_record, unseal_spec, SealedKeyVault, HEADER_LEN};

verus! {

/// The key pair that a vault with identity `id` and slot contents `slot`
/// yields: the unsealed record, decoded.
pub open spec fn load_key_spec(id: Seq<u8>, slot: Option<Seq<u8>>) -> Result<KeyPairView, PipelineError> {
    match unseal_spec(id, slot) {
        Err(e) => Err(PipelineError::Seal(e)),
        Ok(text) => match key_pair_of_text(text) {
            Some(k) => Ok(k),
            None => Err(PipelineError::Decode(DecodeError::Malformed)),
        },
    }
}

/// The ciphertext that a read of the ciphertext file yields for decryption
/// under a key whose modulus is `modulus`.
pub open spec fn ciphertext_spec(modulus: Seq<u8>, read: Result<Seq<u8>, IoError>) -> Result<Seq<u8>, PipelineError> {
    match read {
        Err(e) => Err(PipelineError::Io(e)),
        Ok(c) => if c.len() == modulus.len() {
            Ok(c)
        } else {
            Err(PipelineError::Crypto(CryptoError::InvalidLength))
        },
    }
}

/// The text that the outcome of RSA decryption yields.
pub open spec fn text_spec(outcome: Option<Seq<u8>>) -> Result<Seq<char>, PipelineError> {
    match plaintext_spec(outcome) {
        Err(e) => Err(PipelineError::Crypto(e)),
        Ok(p) => match utf8_text(p) {
            Some(t) => Ok(t),
            None => Err(PipelineError::Text(crate::errors::TextEncodingError::InvalidUtf8)),
        },
    }
}

/// Stores `key_bytes`, unchecked, as the sealed key record, replacing any
/// record that was there.
pub fn fake_provisioning(vault: &mut SealedKeyVault, key_bytes: &[u8]) -> (s: StatusCode)
    requires
        old(vault).wf(),
        key_bytes@.len() + HEADER_LEN <= usize::MAX,
    ensures
        s == StatusCode::Success,
        final(vault).wf(),
        final(vault).identity_view() == old(vault).identity_view(),
        final(vault).slot_view() == Some(sealed_record(old(vault).identity_view(), key_bytes@)),
{
    vault.create(key_bytes);
    StatusCode::Success
}

/// Unseals the key record and decodes the key pair in it.
pub fn load_key(vault: &SealedKeyVault) -> (r: Result<KeyPairMaterial, PipelineError>)
    requires
        vault.wf(),
    ensures
        match r {
            Ok(k) => k.wf() && load_key_spec(vault.identity_view(), vault.slot_view()) == Ok::<
                KeyPairView,
                PipelineError,
            >(k@),
            Err(e) => load_key_spec(vault.identity_view(), vault.slot_view()) == Err::<
                KeyPairView,
                PipelineError,
            >(e),
        },
{
    match vault.open() {
        Err(e) => Err(PipelineError::Seal(e)),
        Ok(text) => match parse(text.as_slice()) {
            Ok(k) => Ok(k),
            Err(e) => Err(PipelineError::Decode(e)),
        },
    }
}

/// Checks the outcome of reading the ciphertext file against `key`: the
/// ciphertext to decrypt, or why there is none.
pub fn take_ciphertext(key: &KeyPairMaterial, read: Result<Vec<u8>, IoError>) -> (r: Result<Vec<u8>, PipelineError>)
    requires
        key.wf(),
    ensures
        crate::vault::bytes_result(r) == ciphertext_spec(key@.n, crate::vault::bytes_result(read)),
{
    match read {
        Err(e) => Err(PipelineError::Io(e)),
        Ok(c) => match check_ciphertext(key, c.as_slice()) {
            Ok(()) => Ok(c),
            Err(e) => Err(PipelineError::Crypto(e)),
        },
    }
}

/// Turns the outcome of RSA decryption into the text to emit.
pub fn finish_decrypt(outcome: Option<Vec<u8>>) -> (r: Result<String, PipelineError>)
    ensures
        match r {
            Ok(s) => text_spec(
                match outcome {
                    Some(v) => Some(v@),
                    None => None::<Seq<u8>>,
                },
            ) == Ok::<Seq<char>, PipelineError>(s@),
            Err(e) => text_spec(
                match outcome {
                    Some(v) => Some(v@),
                    None => None::<Seq<u8>>,
                },
            ) == Err::<Seq<char>, PipelineError>(e),
        },
{
    match accept_plaintext(outcome) {
        Err(e) => Err(PipelineError::Crypto(e)),
        Ok(p) => match plaintext_to_text(p) {
            Ok(s) => Ok(s),
            Err(e) => Err(PipelineError::Text(e)),
        },
    }
}

/// Before any key is provisioned, decryption stops at the first stage: the
/// vault reports no record, and the boundary reports an unexpected error.
pub proof fn lemma_decrypt_before_provision(id: Seq<u8>)
    ensures
        load_key_spec(id, None) == Err::<KeyPairView, PipelineError>(
            PipelineError::Seal(SealError::NotFound),
        ),
        status_spec(load_key_spec(id, None)) == StatusCode::UnexpectedError,
{
}

/// After a key text is provisioned, loading the key under the same identity
/// decodes exactly that text: the key pair it encodes, or a decode error.
pub proof fn lemma_load_provisioned(id: Seq<u8>, text: Seq<u8>)
    requires
        id.len() == crate::vault::IDENTITY_LEN,
        text.len() + HEADER_LEN <= u64::MAX,
    ensures
        load_key_spec(id, Some(sealed_record(id, text))) == (match key_pair_of_text(text) {
            Some(k) => Ok(k),
            None => Err(PipelineError::Decode(DecodeError::Malformed)),
        }),
{
    crate::vault::lemma_unseal_sealed(id, text);
}

/// The vault takes any bytes, but bytes that do not decode as a key make
/// every later decryption fail with a decode error at the boundary.
pub proof fn lemma_undecodable_key(id: Seq<u8>, text: Seq<u8>)
    requires
        id.len() == crate::vault::IDENTITY_LEN,
        text.len() + HEADER_LEN <= u64::MAX,
        key_pair_of_text(text) is None,
    ensures
        load_key_spec(id, Some(sealed_record(id, text))) == Err::<KeyPairView, PipelineError>(
            PipelineError::Decode(DecodeError::Malformed),
        ),
        status_spec(load_key_spec(id, Some(sealed_record(id, text)))) == StatusCode::UnexpectedError,
{
    lemma_load_provisioned(id, text);
}

} // verus!
