//! Vault key derivation and authenticated encryption.
//!
//! A key-encryption key (KEK) is derived from the master password and a salt
//! with Argon2id; it wraps the data-encryption key (DEK). Payloads are sealed
//! with XChaCha20-Poly1305 under a fresh random nonce, which is stored in
//! front of the ciphertext: `nonce (24 bytes) || ciphertext || tag (16 bytes)`.
use argon2::{Algorithm, Argon2, Params, Version};
use chacha20poly1305::aead::{Aead, AeadCore, KeyInit, OsRng, Payload};
use chacha20poly1305::{Key, XChaCha20Poly1305, XNonce};
use vstd::prelude::*;
use vstd::slice::slice_subrange;
use vstd::string::StringSliceAdditionalSpecFns;

pub use crate::versioning::ENCRYPTION_CONTAINER_VERSION;

verus! {

/// Length in bytes of a KEK or DEK.
pub const KEY_LEN: usize = 32;

/// Length in bytes of an XChaCha20-Poly1305 nonce.
pub const NONCE_LEN: usize = 24;

/// Length in bytes of a Poly1305 authentication tag.
pub const TAG_LEN: usize = 16;

/// Minimum length in bytes of an Argon2id salt.
pub const MIN_SALT_LEN: usize = 16;

/// Longest password or salt Argon2 accepts (`argon2::MAX_PWD_LEN`, `MAX_SALT_LEN`).
pub const ARGON2_MAX_INPUT_LEN: usize = 0xFFFF_FFFF;

/// Shortest salt Argon2 itself accepts (`argon2::MIN_SALT_LEN`).
pub const ARGON2_MIN_SALT_LEN: usize = 8;

/// Plaintexts of this many 64-byte blocks or more cannot be sealed: the
/// ChaCha20 block counter would overflow.
pub const MAX_CHACHA_BLOCKS: usize = 0xFFFF_FFFF;

/// Argon2id cost parameters: memory in MiB, iterations, parallel lanes.
#[derive(Debug, Clone, Copy, PartialEq, Eq, Structural)]
pub struct CryptoParams {
    pub argon_mem_mib: u32,
    pub argon_iters: u32,
    pub argon_lanes: u32,
}

impl Default for CryptoParams {
    /// The fixed v1 baseline: 64 MiB, 3 iterations, 1 lane.
    fn default() -> (p: Self)
        ensures
            p == (CryptoParams { argon_mem_mib: 64, argon_iters: 3, argon_lanes: 1 }),
    {
        CryptoParams { argon_mem_mib: 64, argon_iters: 3, argon_lanes: 1 }
    }
}

/// Why a key derivation, encryption or decryption failed.
#[derive(Debug, Clone, PartialEq, Eq)]
pub enum CryptoError {
    /// The salt is shorter than `MIN_SALT_LEN` bytes.
    InvalidSaltLen,
    /// The key is not `KEY_LEN` bytes.
    InvalidKeyLen,
    /// The input is too short to hold a nonce and a ciphertext.
    InvalidCiphertext,
    /// The Argon2 parameters were rejected.
    Argon2Params(String),
    /// Argon2 failed to derive a key.
    Argon2Derive(String),
    /// Encryption or decryption (authentication) failed.
    Aead,
}

/// Which step of an Argon2 derivation failed, with its error message.
#[derive(Debug, Clone, PartialEq, Eq)]
pub enum KdfFailure {
    /// `Params::new` rejected the parameters.
    Params(String),
    /// `hash_password_into` failed.
    Derive(String),
}

/// The derived key, or which step of the derivation failed.
pub type KdfResult = Result<Vec<u8>, KdfFailure>;

/// Whether `argon2::Params::new(m_cost, t_cost, p_cost, Some(output_len))` accepts.
pub open spec fn argon2_params_valid(m_cost: u32, t_cost: u32, p_cost: u32, output_len: usize) -> bool {
    &&& m_cost >= 8
    &&& m_cost >= 8 * p_cost
    &&& t_cost >= 1
    &&& 1 <= p_cost <= 0xFF_FFFF
    &&& 4 <= output_len <= 0xFFFF_FFFF
}

/// Whether Argon2's `hash_password_into` accepts a password and salt of these lengths.
pub open spec fn argon2_inputs_valid(password_len: nat, salt_len: nat) -> bool {
    &&& password_len <= ARGON2_MAX_INPUT_LEN
    &&& ARGON2_MIN_SALT_LEN <= salt_len <= ARGON2_MAX_INPUT_LEN
}

/// The Argon2id (version 0x13) output of `output_len` bytes for a password,
/// salt and costs, without secret or associated data.
pub uninterp spec fn spec_argon2id(
    password: Seq<u8>,
    salt: Seq<u8>,
    m_cost: u32,
    t_cost: u32,
    p_cost: u32,
    output_len: usize,
) -> Seq<u8>;

/// XChaCha20-Poly1305 encryption of `plaintext` under `key` and `nonce` with
/// associated data `aad`: the ciphertext followed by the tag.
pub uninterp spec fn spec_xchacha_seal(key: Seq<u8>, nonce: Seq<u8>, plaintext: Seq<u8>, aad: Seq<u8>) -> Seq<u8>;

/// XChaCha20-Poly1305 decryption of `ciphertext` (with its tag) under `key`,
/// `nonce` and `aad`; `None` when it does not authenticate.
pub uninterp spec fn spec_xchacha_open(key: Seq<u8>, nonce: Seq<u8>, ciphertext: Seq<u8>, aad: Seq<u8>) -> Option<Seq<u8>>;

/// Calls `argon2::Params::new` and, when it accepts, `Argon2::new` (Argon2id,
/// version 0x13) and `hash_password_into` with an output buffer of
/// `output_len` bytes. Each error is turned into its message, tagged by the
/// step that failed. The contract restates from the crate's source when each
/// step accepts, and names the derived bytes. `Params::new` computes
/// `p_cost * 8` before it checks `p_cost`, which overflows (a panic in debug
/// builds) for very large `p_cost`; `requires` leaves those inputs out. The
/// contract says nothing of the error messages, nor of running out of memory
/// for the `m_cost` KiB of blocks that Argon2 allocates.
#[verifier::external_body]
fn argon2id_hash(password: &[u8], salt: &[u8], m_cost: u32, t_cost: u32, p_cost: u32, output_len: usize) -> (res: KdfResult)
    requires
        m_cost < 8 || p_cost <= 0x1FFF_FFFF,
    ensures
        res matches Err(KdfFailure::Params(_)) <==> !argon2_params_valid(m_cost, t_cost, p_cost, output_len),
        res matches Ok(_) <==> (argon2_params_valid(m_cost, t_cost, p_cost, output_len) && argon2_inputs_valid(password@.len(), salt@.len())),
        res matches Ok(out) ==> out@ == spec_argon2id(password@, salt@, m_cost, t_cost, p_cost, output_len) && out@.len() == output_len,
{
    let params = match Params::new(m_cost, t_cost, p_cost, Some(output_len)) {
        Ok(p) => p,
        Err(e) => return Err(KdfFailure::Params(e.to_string())),
    };
    let mut output = vec![0u8; output_len];
    match Argon2::new(Algorithm::Argon2id, Version::V0x13, params).hash_password_into(password, salt, &mut output) {
        Ok(()) => Ok(output),
        Err(e) => Err(KdfFailure::Derive(e.to_string())),
    }
}

/// Calls `XChaCha20Poly1305::generate_nonce` with the operating system's
/// random source. Only the length of the nonce is stated; its bytes are
/// random. (The random source panics if the operating system cannot supply
/// randomness; that is not stated.)
#[verifier::external_body]
fn random_xnonce() -> (nonce: Vec<u8>)
    ensures
        nonce@.len() == NONCE_LEN,
{
    XChaCha20Poly1305::generate_nonce(&mut OsRng).to_vec()
}

/// Calls `Aead::encrypt` of XChaCha20-Poly1305 keyed with `key`. Its source
/// fails only when the plaintext has `MAX_CHACHA_BLOCKS` or more 64-byte
/// blocks, and otherwise returns the ciphertext followed by a 16-byte tag.
/// The contract names that output and states the AEAD guarantee that
/// decrypting it with the same key, nonce and associated data gives back the
/// plaintext.
#[verifier::external_body]
fn xchacha_seal(key: &[u8], nonce: &[u8], plaintext: &[u8], aad: &[u8]) -> (res: Option<Vec<u8>>)
    requires
        key@.len() == KEY_LEN,
        nonce@.len() == NONCE_LEN,
    ensures
        res matches Some(_) <==> plaintext@.len() / 64 < MAX_CHACHA_BLOCKS,
        res matches Some(c) ==> c@ == spec_xchacha_seal(key@, nonce@, plaintext@, aad@),
        res matches Some(c) ==> c@.len() == plaintext@.len() + TAG_LEN,
        res matches Some(c) ==> spec_xchacha_open(key@, nonce@, c@, aad@) == Some(plaintext@),
{
    let cipher = XChaCha20Poly1305::new(Key::from_slice(key));
    cipher.encrypt(XNonce::from_slice(nonce), Payload { msg: plaintext, aad }).ok()
}

/// Calls `Aead::decrypt` of XChaCha20-Poly1305 keyed with `key`, mapping its
/// error to `None`. The contract names the outcome and states what the source
/// shows of a success: the plaintext is the input less its 16-byte tag.
#[verifier::external_body]
fn xchacha_open(key: &[u8], nonce: &[u8], ciphertext: &[u8], aad: &[u8]) -> (res: Option<Vec<u8>>)
    requires
        key@.len() == KEY_LEN,
        nonce@.len() == NONCE_LEN,
    ensures
        res matches Some(_) <==> spec_xchacha_open(key@, nonce@, ciphertext@, aad@) is Some,
        res matches Some(p) ==> spec_xchacha_open(key@, nonce@, ciphertext@, aad@) == Some(p@),
        res matches Some(p) ==> p@.len() + TAG_LEN == ciphertext@.len(),
{
    let cipher = XChaCha20Poly1305::new(Key::from_slice(key));
    cipher.decrypt(XNonce::from_slice(nonce), Payload { msg: ciphertext, aad }).ok()
}

/// Argon2 memory cost in KiB for `mib` MiB, if it fits in a `u32`.
pub open spec fn memory_cost_kib(mib: u32) -> Option<u32> {
    if mib * 1024 <= u32::MAX {
        Some((mib * 1024) as u32)
    } else {
        None
    }
}

/// Whether `res` is what deriving a KEK from a password (as UTF-8 bytes), a
/// salt and cost parameters gives.
pub open spec fn kek_verdict(
    password: Seq<u8>,
    salt: Seq<u8>,
    params: CryptoParams,
    res: Result<Vec<u8>, CryptoError>,
) -> bool {
    if salt.len() < MIN_SALT_LEN {
        res == Err::<Vec<u8>, CryptoError>(CryptoError::InvalidSaltLen)
    } else {
        match memory_cost_kib(params.argon_mem_mib) {
            None => res matches Err(CryptoError::Argon2Params(m)) && m@ == "memory cost overflow"@,
            Some(m_cost) => if !argon2_params_valid(m_cost, params.argon_iters, params.argon_lanes, KEY_LEN) {
                res matches Err(CryptoError::Argon2Params(_))
            } else if !argon2_inputs_valid(password.len(), salt.len()) {
                res matches Err(CryptoError::Argon2Derive(_))
            } else {
                res matches Ok(k) && k@ == spec_argon2id(
                    password,
                    salt,
                    m_cost,
                    params.argon_iters,
                    params.argon_lanes,
                    KEY_LEN,
                ) && k@.len() == KEY_LEN
            },
        }
    }
}

/// Whether deriving a KEK with these inputs runs into the `p_cost * 8`
/// overflow of `argon2::Params::new`.
pub open spec fn kek_params_overflow(salt_len: nat, params: CryptoParams) -> bool {
    &&& salt_len >= MIN_SALT_LEN
    &&& memory_cost_kib(params.argon_mem_mib) matches Some(m) && m >= 8
    &&& params.argon_lanes > 0x1FFF_FFFF
}

/// Derives a `KEY_LEN`-byte key-encryption key from the master password and a
/// salt of at least `MIN_SALT_LEN` bytes with Argon2id.
pub fn derive_kek(password: &str, salt: &[u8], params: CryptoParams) -> (res: Result<Vec<u8>, CryptoError>)
    requires
        !kek_params_overflow(salt@.len(), params),
    ensures
        kek_verdict(password.spec_bytes(), salt@, params, res),
{
    if salt.len() < MIN_SALT_LEN {
        return Err(CryptoError::InvalidSaltLen);
    }
    let mem_kib = match params.argon_mem_mib.checked_mul(1024) {
        Some(m) => m,
        None => return Err(CryptoError::Argon2Params("memory cost overflow".to_owned())),
    };
    match argon2id_hash(password.as_bytes(), salt, mem_kib, params.argon_iters, params.argon_lanes, KEY_LEN) {
        Ok(key) => Ok(key),
        Err(KdfFailure::Params(m)) => Err(CryptoError::Argon2Params(m)),
        Err(KdfFailure::Derive(m)) => Err(CryptoError::Argon2Derive(m)),
    }
}

/// The associated data that binds a wrapped DEK to its purpose:
/// the ASCII bytes of `crypnotes:vault:dek`.
pub open spec fn vault_dek_aad() -> Seq<u8> {
    seq![99u8, 114, 121, 112, 110, 111, 116, 101, 115, 58, 118, 97, 117, 108, 116, 58, 100, 101, 107]
}

fn vault_dek_aad_bytes() -> (aad: Vec<u8>)
    ensures
        aad@ == vault_dek_aad(),
{
    let aad: Vec<u8> = vec![99u8, 114, 121, 112, 110, 111, 116, 101, 115, 58, 118, 97, 117, 108, 116, 58, 100, 101, 107];
    assert(aad@ =~= vault_dek_aad());
    aad
}

/// Checks that `kek` has the length of an XChaCha20-Poly1305 key.
fn new_cipher(kek: &[u8]) -> (res: Result<(), CryptoError>)
    ensures
        kek@.len() == KEY_LEN ==> res is Ok,
        kek@.len() != KEY_LEN ==> res == Err::<(), CryptoError>(CryptoError::InvalidKeyLen),
{
    if kek.len() != KEY_LEN {
        return Err(CryptoError::InvalidKeyLen);
    }
    Ok(())
}

/// Whether `payload` is `plaintext` sealed under `key` with associated data
/// `aad`: some nonce followed by the XChaCha20-Poly1305 encryption under it.
pub open spec fn is_sealed_payload(key: Seq<u8>, plaintext: Seq<u8>, aad: Seq<u8>, payload: Seq<u8>) -> bool {
    &&& payload.len() == NONCE_LEN + plaintext.len() + TAG_LEN
    &&& payload.skip(NONCE_LEN as int) == spec_xchacha_seal(key, payload.take(NONCE_LEN as int), plaintext, aad)
}

/// What decrypting `payload` (nonce followed by ciphertext) under `key` and
/// `aad` gives, for a payload longer than a nonce.
pub open spec fn opened_payload(key: Seq<u8>, payload: Seq<u8>, aad: Seq<u8>) -> Option<Seq<u8>> {
    spec_xchacha_open(key, payload.take(NONCE_LEN as int), payload.skip(NONCE_LEN as int), aad)
}

/// Whether `res` is what decrypting `payload` under `key` and `aad` gives; a
/// plaintext is always `NONCE_LEN + TAG_LEN` bytes shorter than the payload.
pub open spec fn decrypt_verdict(key: Seq<u8>, payload: Seq<u8>, aad: Seq<u8>, res: Result<Vec<u8>, CryptoError>) -> bool {
    if payload.len() <= NONCE_LEN {
        res == Err::<Vec<u8>, CryptoError>(CryptoError::InvalidCiphertext)
    } else if key.len() != KEY_LEN {
        res == Err::<Vec<u8>, CryptoError>(CryptoError::InvalidKeyLen)
    } else {
        match opened_payload(key, payload, aad) {
            Some(p) => res matches Ok(out) && out@ == p && out@.len() + NONCE_LEN + TAG_LEN == payload.len(),
            None => res == Err::<Vec<u8>, CryptoError>(CryptoError::Aead),
        }
    }
}

/// Whether `res` is a possible result of encrypting `plaintext` under `key`
/// and `aad` (the nonce is random).
pub open spec fn encrypt_verdict(key: Seq<u8>, plaintext: Seq<u8>, aad: Seq<u8>, res: Result<Vec<u8>, CryptoError>) -> bool {
    if key.len() != KEY_LEN {
        res == Err::<Vec<u8>, CryptoError>(CryptoError::InvalidKeyLen)
    } else if plaintext.len() / 64 >= MAX_CHACHA_BLOCKS {
        res == Err::<Vec<u8>, CryptoError>(CryptoError::Aead)
    } else {
        res matches Ok(c) && is_sealed_payload(key, plaintext, aad, c@) && opened_payload(key, c@, aad)
            == Some(plaintext)
    }
}

/// Encrypts `plaintext` under the 32-byte key `kek` with associated data
/// `aad`, returning a fresh random nonce followed by the ciphertext and tag.
pub fn encrypt_payload(kek: &[u8], plaintext: &[u8], aad: &[u8]) -> (res: Result<Vec<u8>, CryptoError>)
    ensures
        encrypt_verdict(kek@, plaintext@, aad@, res),
{
    match new_cipher(kek) {
        Ok(()) => {},
        Err(e) => return Err(e),
    }
    let nonce = random_xnonce();
    let ciphertext = match xchacha_seal(kek, nonce.as_slice(), plaintext, aad) {
        Some(c) => c,
        None => return Err(CryptoError::Aead),
    };
    let mut output: Vec<u8> = Vec::new();
    output.extend_from_slice(nonce.as_slice());
    output.extend_from_slice(ciphertext.as_slice());
    assert(output@.take(NONCE_LEN as int) =~= nonce@);
    assert(output@.skip(NONCE_LEN as int) =~= ciphertext@);
    Ok(output)
}

/// Decrypts a payload produced by `encrypt_payload`: the first `NONCE_LEN`
/// bytes are the nonce, the rest the ciphertext and tag.
pub fn decrypt_payload(kek: &[u8], ciphertext_with_nonce: &[u8], aad: &[u8]) -> (res: Result<Vec<u8>, CryptoError>)
    ensures
        decrypt_verdict(kek@, ciphertext_with_nonce@, aad@, res),
{
    if ciphertext_with_nonce.len() <= NONCE_LEN {
        return Err(CryptoError::InvalidCiphertext);
    }
    match new_cipher(kek) {
        Ok(()) => {},
        Err(e) => return Err(e),
    }
    let nonce = slice_subrange(ciphertext_with_nonce, 0, NONCE_LEN);
    let ciphertext = slice_subrange(ciphertext_with_nonce, NONCE_LEN, ciphertext_with_nonce.len());
    assert(nonce@ =~= ciphertext_with_nonce@.take(NONCE_LEN as int));
    assert(ciphertext@ =~= ciphertext_with_nonce@.skip(NONCE_LEN as int));
    match xchacha_open(kek, nonce, ciphertext, aad) {
        Some(p) => Ok(p),
        None => Err(CryptoError::Aead),
    }
}

/// Wraps (encrypts) a data-encryption key under a key-encryption key, bound
/// to the purpose by the associated data `vault_dek_aad()`.
pub fn wrap_dek_with_kek(dek: &[u8], kek: &[u8]) -> (res: Result<Vec<u8>, CryptoError>)
    ensures
        encrypt_verdict(kek@, dek@, vault_dek_aad(), res),
{
    let aad = vault_dek_aad_bytes();
    encrypt_payload(kek, dek, aad.as_slice())
}

/// Unwraps (decrypts) a data-encryption key wrapped by `wrap_dek_with_kek`.
pub fn unwrap_dek_with_kek(wrapped_dek: &[u8], kek: &[u8]) -> (res: Result<Vec<u8>, CryptoError>)
    ensures
        decrypt_verdict(kek@, wrapped_dek@, vault_dek_aad(), res),
{
    let aad = vault_dek_aad_bytes();
    decrypt_payload(kek, wrapped_dek, aad.as_slice())
}

/// The version of the encryption container this module writes.
pub fn current_encryption_container_version() -> (v: u32)
    ensures
        v == ENCRYPTION_CONTAINER_VERSION,
{
    ENCRYPTION_CONTAINER_VERSION
}

/// Decrypting what encryption produced, under the same key and associated
/// data, gives back the plaintext.
pub proof fn lemma_encrypt_then_decrypt(
    key: Seq<u8>,
    plaintext: Seq<u8>,
    aad: Seq<u8>,
    encrypted: Result<Vec<u8>, CryptoError>,
    decrypted: Result<Vec<u8>, CryptoError>,
)
    requires
        encrypt_verdict(key, plaintext, aad, encrypted),
        encrypted matches Ok(c) && decrypt_verdict(key, c@, aad, decrypted),
    ensures
        decrypted matches Ok(p) && p@ == plaintext,
{
}

/// Unwrapping what wrapping produced, under the same KEK, gives back the DEK.
pub proof fn lemma_wrap_then_unwrap(
    kek: Seq<u8>,
    dek: Seq<u8>,
    wrapped: Result<Vec<u8>, CryptoError>,
    unwrapped: Result<Vec<u8>, CryptoError>,
)
    requires
        encrypt_verdict(kek, dek, vault_dek_aad(), wrapped),
        wrapped matches Ok(w) && decrypt_verdict(kek, w@, vault_dek_aad(), unwrapped),
    ensures
        unwrapped matches Ok(d) && d@ == dek,
{
}

/// Key derivation is deterministic: the same password, salt and parameters
/// always give the same key, so a vault can be unlocked again with the
/// password.
pub proof fn lemma_kek_deterministic(
    password: Seq<u8>,
    salt: Seq<u8>,
    params: CryptoParams,
    first: Result<Vec<u8>, CryptoError>,
    second: Result<Vec<u8>, CryptoError>,
)
    requires
        kek_verdict(password, salt, params, first),
        kek_verdict(password, salt, params, second),
        first is Ok,
    ensures
        second matches Ok(k) && k@ == first->Ok_0@,
{
}

} // verus!
