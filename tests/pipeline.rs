use static_data_distribution::boundary::{fake_provisioning, finish_decrypt, load_key, take_ciphertext};
use static_data_distribution::codec::{find_field, key_pair_from_fields, parse, KeyPairMaterial};
use static_data_distribution::decryption::{accept_plaintext, check_ciphertext, plaintext_to_text};
use static_data_distribution::errors::{
    status_of, CryptoError, DecodeError, IoError, PipelineError, SealError, StatusCode,
    TextEncodingError,
};
use static_data_distribution::vault::{
    bytes_match_at, copy_range, seal, unseal, ModuleIdentity, SealedKeyVault,
};

fn identity(fill: u8) -> ModuleIdentity {
    ModuleIdentity::from_bytes(&[fill; 32]).unwrap()
}

fn byte_array(len: usize, fill: u8) -> String {
    let items: Vec<String> = (0..len).map(|i| ((i as u8).wrapping_add(fill)).to_string()).collect();
    format!("[{}]", items.join(","))
}

fn key_json() -> String {
    format!(
        "{{\"n\":{},\"d\":{},\"e\":{},\"p\":{},\"q\":{},\"dmp1\":{},\"dmq1\":{},\"iqmp\":{}}}",
        byte_array(384, 1),
        byte_array(384, 2),
        "[1,0,1,0]",
        byte_array(192, 3),
        byte_array(192, 4),
        byte_array(192, 5),
        byte_array(192, 6),
        byte_array(192, 7)
    )
}

fn valid_key() -> KeyPairMaterial {
    parse(key_json().as_bytes()).unwrap()
}

#[test]
fn provision_then_open_returns_same_bytes() {
    let mut vault = SealedKeyVault::new(identity(7));
    let key = b"some key bytes \x00\xff".to_vec();
    assert_eq!(fake_provisioning(&mut vault, &key), StatusCode::Success);
    assert_eq!(vault.open(), Ok(key));
}

#[test]
fn provision_overwrites_previous_record() {
    let mut vault = SealedKeyVault::new(identity(7));
    fake_provisioning(&mut vault, b"first");
    fake_provisioning(&mut vault, b"second");
    assert_eq!(vault.open(), Ok(b"second".to_vec()));
}

#[test]
fn provision_empty_key_round_trips() {
    let mut vault = SealedKeyVault::new(identity(1));
    fake_provisioning(&mut vault, b"");
    assert_eq!(vault.open(), Ok(Vec::new()));
}

#[test]
fn record_restored_from_storage_opens() {
    let mut first = SealedKeyVault::new(identity(3));
    fake_provisioning(&mut first, b"persisted");
    let stored = first.record().unwrap().to_vec();
    let second = SealedKeyVault::with_record(identity(3), Some(stored));
    assert_eq!(second.open(), Ok(b"persisted".to_vec()));
}

#[test]
fn other_identity_cannot_unseal() {
    let mut a = SealedKeyVault::new(identity(1));
    fake_provisioning(&mut a, b"secret");
    let stored = a.record().unwrap().to_vec();
    let b = SealedKeyVault::with_record(identity(2), Some(stored));
    assert_eq!(b.open(), Err(SealError::IdentityMismatch));
}

#[test]
fn empty_slot_is_not_found() {
    let vault = SealedKeyVault::new(identity(1));
    assert!(vault.record().is_none());
    assert_eq!(vault.open(), Err(SealError::NotFound));
}

#[test]
fn sealed_record_layout() {
    let id = identity(9);
    let rec = seal(&id, &[0xaa, 0xbb]);
    let mut expected = b"SKV1".to_vec();
    expected.extend_from_slice(&[9u8; 32]);
    expected.extend_from_slice(&[2, 0, 0, 0, 0, 0, 0, 0]);
    expected.extend_from_slice(&[0xaa, 0xbb]);
    assert_eq!(rec, expected);
}

#[test]
fn truncated_record_is_corrupted() {
    let id = identity(4);
    let rec = seal(&id, b"payload");
    assert_eq!(unseal(&id, Some(&rec[..rec.len() - 1])), Err(SealError::Corrupted));
    assert_eq!(unseal(&id, Some(&rec[..10])), Err(SealError::Corrupted));
    assert_eq!(unseal(&id, Some(&[])), Err(SealError::Corrupted));
}

#[test]
fn extended_record_is_corrupted() {
    let id = identity(4);
    let mut rec = seal(&id, b"payload");
    rec.push(0);
    assert_eq!(unseal(&id, Some(&rec)), Err(SealError::Corrupted));
}

#[test]
fn bad_magic_is_corrupted() {
    let id = identity(4);
    let mut rec = seal(&id, b"payload");
    rec[0] = b'X';
    assert_eq!(unseal(&id, Some(&rec)), Err(SealError::Corrupted));
}

#[test]
fn absent_record_is_not_found() {
    assert_eq!(unseal(&identity(4), None), Err(SealError::NotFound));
}

#[test]
fn identity_needs_thirty_two_bytes() {
    assert!(ModuleIdentity::from_bytes(&[0u8; 31]).is_none());
    assert!(ModuleIdentity::from_bytes(&[0u8; 33]).is_none());
    let id = ModuleIdentity::from_bytes(&[5u8; 32]).unwrap();
    assert_eq!(id.as_bytes(), &[5u8; 32][..]);
}

#[test]
fn byte_helpers() {
    assert_eq!(copy_range(&[1, 2, 3, 4], 1, 3), vec![2, 3]);
    assert!(bytes_match_at(&[1, 2, 3, 4], 2, &[3, 4]));
    assert!(!bytes_match_at(&[1, 2, 3, 4], 1, &[3, 4]));
}

#[test]
fn parse_valid_key() {
    let k = valid_key();
    assert_eq!(k.block_size(), 384);
    assert_eq!(k.modulus().len(), 384);
    assert_eq!(k.modulus()[0], 1);
    assert_eq!(k.private_exponent()[0], 2);
    assert_eq!(k.public_exponent(), &[1, 0, 1, 0][..]);
    assert_eq!(k.prime_p()[1], 4);
    assert_eq!(k.prime_q()[0], 4);
    assert_eq!(k.dmp1()[0], 5);
    assert_eq!(k.dmq1()[0], 6);
    assert_eq!(k.iqmp()[191], 7u8.wrapping_add(191));
}

#[test]
fn parse_rejects_invalid_json() {
    assert!(matches!(parse(b"not valid json"), Err(DecodeError::Malformed)));
    assert!(matches!(parse(b""), Err(DecodeError::Malformed)));
}

#[test]
fn parse_rejects_missing_field() {
    let text = key_json().replace("\"iqmp\"", "\"other\"");
    assert!(matches!(parse(text.as_bytes()), Err(DecodeError::Malformed)));
}

#[test]
fn parse_rejects_short_field() {
    let text = key_json().replace("[1,0,1,0]", "[1,0,1]");
    assert!(matches!(parse(text.as_bytes()), Err(DecodeError::Malformed)));
}

#[test]
fn fields_lookup() {
    let fields = vec![("a".to_string(), vec![1u8]), ("b".to_string(), vec![2u8, 3])];
    assert_eq!(find_field(&fields, "b"), Some(&vec![2u8, 3]));
    assert_eq!(find_field(&fields, "c"), None);
    assert!(matches!(key_pair_from_fields(&fields), Err(DecodeError::Malformed)));
}

#[test]
fn ciphertext_must_be_one_block() {
    let k = valid_key();
    assert_eq!(check_ciphertext(&k, &[0u8; 384]), Ok(()));
    assert_eq!(check_ciphertext(&k, &[0u8; 383]), Err(CryptoError::InvalidLength));
    assert_eq!(check_ciphertext(&k, &[0u8; 768]), Err(CryptoError::InvalidLength));
    assert_eq!(check_ciphertext(&k, &[]), Err(CryptoError::InvalidLength));
}

#[test]
fn take_ciphertext_outcomes() {
    let k = valid_key();
    assert_eq!(take_ciphertext(&k, Ok(vec![1u8; 384])), Ok(vec![1u8; 384]));
    assert_eq!(
        take_ciphertext(&k, Ok(vec![1u8; 10])),
        Err(PipelineError::Crypto(CryptoError::InvalidLength))
    );
    assert_eq!(take_ciphertext(&k, Err(IoError::Open)), Err(PipelineError::Io(IoError::Open)));
}

#[test]
fn plaintext_outcomes() {
    assert_eq!(accept_plaintext(Some(b"abc".to_vec())), Ok(b"abc".to_vec()));
    assert_eq!(accept_plaintext(None), Err(CryptoError::PaddingInvalid));
    assert_eq!(accept_plaintext(Some(vec![0u8; 385])), Err(CryptoError::PaddingInvalid));
    assert_eq!(accept_plaintext(Some(vec![0u8; 384])), Ok(vec![0u8; 384]));
}

#[test]
fn plaintext_decodes_as_utf8() {
    assert_eq!(plaintext_to_text(b"hello enclave".to_vec()), Ok("hello enclave".to_string()));
    assert_eq!(plaintext_to_text("h\u{e9}".as_bytes().to_vec()), Ok("h\u{e9}".to_string()));
    assert_eq!(plaintext_to_text(vec![0xff, 0xfe]), Err(TextEncodingError::InvalidUtf8));
    assert_eq!(plaintext_to_text(Vec::new()), Ok(String::new()));
}

#[test]
fn finish_decrypt_outcomes() {
    assert_eq!(finish_decrypt(Some(b"hello enclave".to_vec())), Ok("hello enclave".to_string()));
    assert_eq!(finish_decrypt(None), Err(PipelineError::Crypto(CryptoError::PaddingInvalid)));
    assert_eq!(
        finish_decrypt(Some(vec![0xc3])),
        Err(PipelineError::Text(TextEncodingError::InvalidUtf8))
    );
}

#[test]
fn decrypt_before_provision_is_unexpected_error() {
    let vault = SealedKeyVault::new(identity(1));
    let r = load_key(&vault);
    assert!(matches!(r, Err(PipelineError::Seal(SealError::NotFound))));
    assert_eq!(status_of(&r), StatusCode::UnexpectedError);
}

#[test]
fn provisioned_invalid_json_fails_to_decode() {
    let mut vault = SealedKeyVault::new(identity(1));
    assert_eq!(fake_provisioning(&mut vault, b"not valid json"), StatusCode::Success);
    let r = load_key(&vault);
    assert!(matches!(r, Err(PipelineError::Decode(DecodeError::Malformed))));
    assert_eq!(status_of(&r), StatusCode::UnexpectedError);
}

#[test]
fn provisioned_key_loads() {
    let mut vault = SealedKeyVault::new(identity(1));
    fake_provisioning(&mut vault, key_json().as_bytes());
    let r = load_key(&vault);
    assert_eq!(status_of(&r), StatusCode::Success);
    let k = r.ok().unwrap();
    assert_eq!(k.modulus(), valid_key().modulus());
    assert_eq!(k.public_exponent(), &[1, 0, 1, 0][..]);
}

#[test]
fn key_of_other_identity_does_not_load() {
    let mut a = SealedKeyVault::new(identity(1));
    fake_provisioning(&mut a, key_json().as_bytes());
    let b = SealedKeyVault::with_record(identity(2), Some(a.record().unwrap().to_vec()));
    assert!(matches!(load_key(&b), Err(PipelineError::Seal(SealError::IdentityMismatch))));
}
