use crypnotes::crypto::{
    current_encryption_container_version, decrypt_payload, derive_kek, encrypt_payload,
    unwrap_dek_with_kek, wrap_dek_with_kek, CryptoError, CryptoParams, ENCRYPTION_CONTAINER_VERSION,
    KEY_LEN, NONCE_LEN, TAG_LEN,
};

fn light_params() -> CryptoParams {
    CryptoParams { argon_mem_mib: 1, argon_iters: 1, argon_lanes: 1 }
}

#[test]
fn argon2_uses_fixed_output_size() {
    let salt = b"0123456789abcdef";
    let kek = derive_kek("password", salt, CryptoParams::default()).unwrap();
    assert_eq!(kek.len(), KEY_LEN);
}

#[test]
fn wrap_unwrap_roundtrip() {
    let kek = vec![7_u8; KEY_LEN];
    let dek = vec![9_u8; KEY_LEN];

    let wrapped = wrap_dek_with_kek(&dek, &kek).unwrap();
    let unwrapped = unwrap_dek_with_kek(&wrapped, &kek).unwrap();

    assert_eq!(unwrapped, dek);
}

#[test]
fn decrypt_rejects_modified_ciphertext() {
    let kek = vec![1_u8; KEY_LEN];
    let ciphertext = encrypt_payload(&kek, b"hello", b"aad").unwrap();

    let mut tampered = ciphertext.clone();
    let idx = tampered.len() - 1;
    tampered[idx] ^= 0xAA;

    let result = decrypt_payload(&kek, &tampered, b"aad");
    assert!(matches!(result, Err(CryptoError::Aead)));
}

#[test]
fn encryption_container_version_matches_shared_constant() {
    assert_eq!(current_encryption_container_version(), ENCRYPTION_CONTAINER_VERSION);
}

#[test]
fn default_params_are_the_fixed_baseline() {
    let p = CryptoParams::default();
    assert_eq!(p, CryptoParams { argon_mem_mib: 64, argon_iters: 3, argon_lanes: 1 });
}

#[test]
fn derive_kek_rejects_short_salt() {
    let result = derive_kek("password", b"0123456789abcde", light_params());
    assert_eq!(result, Err(CryptoError::InvalidSaltLen));
}

#[test]
fn derive_kek_reports_memory_overflow() {
    let params = CryptoParams { argon_mem_mib: 4_194_304, argon_iters: 1, argon_lanes: 1 };
    let result = derive_kek("password", b"0123456789abcdef", params);
    assert_eq!(result, Err(CryptoError::Argon2Params("memory cost overflow".to_owned())));
}

#[test]
fn derive_kek_rejects_zero_iterations() {
    let params = CryptoParams { argon_mem_mib: 1, argon_iters: 0, argon_lanes: 1 };
    let result = derive_kek("password", b"0123456789abcdef", params);
    assert!(matches!(result, Err(CryptoError::Argon2Params(_))));
}

#[test]
fn derive_kek_rejects_zero_lanes() {
    let params = CryptoParams { argon_mem_mib: 1, argon_iters: 1, argon_lanes: 0 };
    let result = derive_kek("password", b"0123456789abcdef", params);
    assert!(matches!(result, Err(CryptoError::Argon2Params(_))));
}

#[test]
fn derive_kek_is_deterministic_and_salt_dependent() {
    let a = derive_kek("password", b"0123456789abcdef", light_params()).unwrap();
    let b = derive_kek("password", b"0123456789abcdef", light_params()).unwrap();
    let c = derive_kek("password", b"fedcba9876543210", light_params()).unwrap();
    let d = derive_kek("passwore", b"0123456789abcdef", light_params()).unwrap();
    assert_eq!(a, b);
    assert_ne!(a, c);
    assert_ne!(a, d);
    assert_ne!(a, vec![0u8; KEY_LEN]);
}

#[test]
fn encrypt_layout_is_nonce_ciphertext_tag() {
    let kek = vec![3_u8; KEY_LEN];
    let plaintext = b"some note body";
    let sealed = encrypt_payload(&kek, plaintext, b"").unwrap();
    assert_eq!(sealed.len(), NONCE_LEN + plaintext.len() + TAG_LEN);
    assert_ne!(&sealed[NONCE_LEN..NONCE_LEN + plaintext.len()], &plaintext[..]);
    assert_eq!(decrypt_payload(&kek, &sealed, b"").unwrap(), plaintext.to_vec());
}

#[test]
fn encrypt_uses_fresh_nonces() {
    let kek = vec![3_u8; KEY_LEN];
    let a = encrypt_payload(&kek, b"same", b"x").unwrap();
    let b = encrypt_payload(&kek, b"same", b"x").unwrap();
    assert_ne!(a[..NONCE_LEN], b[..NONCE_LEN]);
}

#[test]
fn encrypt_rejects_wrong_key_length() {
    assert_eq!(encrypt_payload(&[1u8; 31], b"x", b""), Err(CryptoError::InvalidKeyLen));
    assert_eq!(encrypt_payload(&[1u8; 33], b"x", b""), Err(CryptoError::InvalidKeyLen));
}

#[test]
fn decrypt_rejects_short_input_before_key_check() {
    assert_eq!(decrypt_payload(&[1u8; 3], &[0u8; NONCE_LEN], b""), Err(CryptoError::InvalidCiphertext));
    assert_eq!(decrypt_payload(&[1u8; KEY_LEN], &[], b""), Err(CryptoError::InvalidCiphertext));
}

#[test]
fn decrypt_rejects_wrong_key_length() {
    assert_eq!(decrypt_payload(&[1u8; 16], &[0u8; 60], b""), Err(CryptoError::InvalidKeyLen));
}

#[test]
fn decrypt_rejects_wrong_key_and_wrong_aad() {
    let kek = vec![5_u8; KEY_LEN];
    let sealed = encrypt_payload(&kek, b"secret", b"note:1").unwrap();
    assert_eq!(decrypt_payload(&vec![6_u8; KEY_LEN], &sealed, b"note:1"), Err(CryptoError::Aead));
    assert_eq!(decrypt_payload(&kek, &sealed, b"note:2"), Err(CryptoError::Aead));
}

#[test]
fn unwrap_requires_the_vault_aad() {
    let kek = vec![7_u8; KEY_LEN];
    let dek = vec![9_u8; KEY_LEN];
    let wrapped = wrap_dek_with_kek(&dek, &kek).unwrap();
    assert_eq!(decrypt_payload(&kek, &wrapped, b"crypnotes:vault:dek").unwrap(), dek);
    assert_eq!(decrypt_payload(&kek, &wrapped, b""), Err(CryptoError::Aead));
}
