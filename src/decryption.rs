use vstd::prelude::*;

use crate::codec::{KeyPairMaterial, KEY_SIZE};
use crate::errors::{CryptoError, TextEncodingError};

verus! {

/// Whether `ciphertext` may be handed to RSA decryption under `key`: it must be
/// exactly one key block long.
pub fn check_ciphertext(key: &KeyPairMaterial, ciphertext: &[u8]) -> (r: Result<(), CryptoError>)
    requires
        key.wf(),
    ensures
        r is Ok <==> ciphertext@.len() == key@.n.len(),
        r is Err ==> r == Err::<(), CryptoError>(CryptoError::InvalidLength),
{
    if ciphertext.len() == key.block_size() {
        Ok(())
    } else {
        Err(CryptoError::InvalidLength)
    }
}

/// What RSA decryption of one block recovered, as the plaintext of the
/// decryption: `None` (the padding did not check out) and anything longer
/// than a block are padding failures.
pub open spec fn plaintext_spec(outcome: Option<Seq<u8>>) -> Result<Seq<u8>, CryptoError> {
    match outcome {
        Some(p) => if p.len() <= KEY_SIZE {
            Ok(p)
        } else {
            Err(CryptoError::PaddingInvalid)
        },
        None => Err(CryptoError::PaddingInvalid),
    }
}

/// Takes the outcome of RSA decryption of one block and yields the plaintext.
pub fn accept_plaintext(outcome: Option<Vec<u8>>) -> (r: Result<Vec<u8>, CryptoError>)
    ensures
        crate::vault::bytes_result(r) == plaintext_spec(
            match outcome {
                Some(v) => Some(v@),
                None => None::<Seq<u8>>,
            },
        ),
{
    match outcome {
        Some(p) => if p.len() <= KEY_SIZE {
            Ok(p)
        } else {
            Err(CryptoError::PaddingInvalid)
        },
        None => Err(CryptoError::PaddingInvalid),
    }
}

/// The text that the bytes `b` encode in UTF-8, or `None` where they are not
/// valid UTF-8.
pub uninterp spec fn utf8_text(b: Seq<u8>) -> Option<Seq<char>>;

/// Relies on String::from_utf8: it decodes the bytes as UTF-8 and fails on any
/// invalid sequence; empty input decodes to the empty string.
#[verifier::external_body]
fn decode_utf8(b: Vec<u8>) -> (r: Option<String>)
    ensures
        r is Some <==> utf8_text(b@) is Some,
        r matches Some(s) ==> s@ == utf8_text(b@).unwrap(),
        b@.len() == 0 ==> r is Some && r.unwrap()@.len() == 0,
{
    String::from_utf8(b).ok()
}

/// Interprets recovered plaintext as UTF-8 text.
pub fn plaintext_to_text(plaintext: Vec<u8>) -> (r: Result<String, TextEncodingError>)
    ensures
        match r {
            Ok(s) => utf8_text(plaintext@) == Some(s@),
            Err(e) => e == TextEncodingError::InvalidUtf8 && utf8_text(plaintext@) is None,
        },
{
    match decode_utf8(plaintext) {
        Some(s) => Ok(s),
        None => Err(TextEncodingError::InvalidUtf8),
    }
}

} // verus!
