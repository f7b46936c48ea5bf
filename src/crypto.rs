//! Key derivation and authenticated encryption.
//!
//! - The master key is Argon2id over the PIN and the vault salt
//!   (64 MiB, 3 passes, 4 lanes, 32 bytes).
//! - A per-secret key is Argon2id over `master key || "app|key"` and the
//!   secret's own salt (32 MiB, 2 passes, 2 lanes, 32 bytes).
//! - Values are sealed with AES-256-GCM under a fresh random 12-byte nonce;
//!   the ciphertext carries a 16-byte tag.

use aes_gcm::aead::{Aead, KeyInit};
use vstd::prelude::*;
use vstd::string::StringSliceAdditionalSpecFns;
use vstd::string::StringExecFns;
use vstd::utf8::encode_utf8;

verus! {

/// Argon2 memory cost of the master key, in KiB.
pub const MASTER_M_COST: u32 = 65536;
/// Argon2 passes of the master key.
pub const MASTER_T_COST: u32 = 3;
/// Argon2 lanes of the master key.
pub const MASTER_P_COST: u32 = 4;
/// Argon2 memory cost of a per-secret key, in KiB.
pub const SECRET_M_COST: u32 = 32768;
/// Argon2 passes of a per-secret key.
pub const SECRET_T_COST: u32 = 2;
/// Argon2 lanes of a per-secret key.
pub const SECRET_P_COST: u32 = 2;
/// Shortest PIN that key derivation accepts, in bytes.
pub const MIN_DERIVATION_PIN_LEN: usize = 6;
/// Bytes of an AES-GCM nonce.
pub const NONCE_LEN: usize = 12;
/// Bytes of an AES-GCM tag.
pub const TAG_LEN: usize = 16;
/// Longest plaintext that AES-GCM seals, in bytes.
pub const AES_GCM_P_MAX: u64 = 0x10_0000_0000;
/// Longest password or salt that Argon2 takes, in bytes.
pub const ARGON2_MAX_INPUT: usize = 0xFFFF_FFFF;

/// The 32 bytes of Argon2id (version 0x13) with these costs over `password` and `salt`.
pub uninterp spec fn argon2id_output(
    m_cost: u32,
    t_cost: u32,
    p_cost: u32,
    password: Seq<u8>,
    salt: Seq<u8>,
) -> Seq<u8>;

/// AES-256-GCM sealing, without associated data: ciphertext followed by tag.
pub uninterp spec fn aes256gcm_seal(key: Seq<u8>, nonce: Seq<u8>, plaintext: Seq<u8>) -> Seq<u8>;

/// AES-256-GCM opening, without associated data: `None` when the tag does not verify.
pub uninterp spec fn aes256gcm_open(key: Seq<u8>, nonce: Seq<u8>, ciphertext: Seq<u8>) -> Option<
    Seq<u8>,
>;

/// The master key for a PIN (its UTF-8 bytes) and the vault salt.
pub open spec fn master_key_of(pin: Seq<u8>, salt: Seq<u8>) -> Seq<u8> {
    argon2id_output(MASTER_M_COST, MASTER_T_COST, MASTER_P_COST, pin, salt)
}

/// The encryption context of a secret: `app_name|key_name`.
pub open spec fn context_of(app_name: Seq<char>, key_name: Seq<char>) -> Seq<char> {
    app_name + seq!['|'] + key_name
}

/// The Argon2 password of a per-secret key: the master key followed by the context's bytes.
pub open spec fn secret_key_input(master: Seq<u8>, app_name: Seq<char>, key_name: Seq<char>) -> Seq<
    u8,
> {
    master + encode_utf8(context_of(app_name, key_name))
}

/// A per-secret key is derivable when its Argon2 password fits Argon2's limit.
pub open spec fn secret_key_derivable(master: Seq<u8>, app_name: Seq<char>, key_name: Seq<char>) -> bool {
    secret_key_input(master, app_name, key_name).len() <= ARGON2_MAX_INPUT
}

/// The per-secret key for a master key, a context and a per-secret salt.
pub open spec fn secret_key_of(
    master: Seq<u8>,
    app_name: Seq<char>,
    key_name: Seq<char>,
    salt: Seq<u8>,
) -> Seq<u8> {
    argon2id_output(
        SECRET_M_COST,
        SECRET_T_COST,
        SECRET_P_COST,
        secret_key_input(master, app_name, key_name),
        salt,
    )
}

/// A PIN that key derivation accepts: 6 bytes at least, and within Argon2's limit.
pub open spec fn pin_derivable(pin: Seq<u8>) -> bool {
    MIN_DERIVATION_PIN_LEN <= pin.len() <= ARGON2_MAX_INPUT
}

/// A 256-bit symmetric key.
pub struct VaultKey {
    bytes: [u8; 32],
}

impl View for VaultKey {
    type V = Seq<u8>;

    closed spec fn view(&self) -> Seq<u8> {
        self.bytes@
    }
}

/// Relies on zeroize's `Zeroize` for byte arrays: every byte is overwritten with
/// zero, by volatile writes that the compiler does not remove; it does not panic.
#[verifier::external_body]
fn zeroize_bytes(bytes: &mut [u8; 32])
    ensures
        final(bytes)@ == Seq::new(32, |i: int| 0u8),
    opens_invariants none
    no_unwind
{
    zeroize::Zeroize::zeroize(bytes)
}

impl VaultKey {
    /// A key with exactly these bytes.
    pub fn from_bytes(bytes: [u8; 32]) -> (r: VaultKey)
        ensures
            r@ == bytes@,
    {
        VaultKey { bytes }
    }

    /// The key's bytes.
    pub fn as_bytes(&self) -> (r: &[u8; 32])
        ensures
            r@ == self@,
    {
        &self.bytes
    }

    /// An independent copy of the key, for a single operation.
    pub fn duplicate(&self) -> (r: VaultKey)
        ensures
            r@ == self@,
    {
        VaultKey { bytes: self.bytes }
    }

    /// Overwrites the key material with zeros.
    pub fn wipe(&mut self)
        ensures
            final(self)@ == Seq::new(32, |i: int| 0u8),
    {
        zeroize_bytes(&mut self.bytes);
    }
}

impl Drop for VaultKey {
    /// The key material is overwritten with zeros before the memory is released.
    fn drop(&mut self)
        opens_invariants none
        no_unwind
    {
        zeroize_bytes(&mut self.bytes);
    }
}

/// A sealed value: AES-256-GCM ciphertext (tag included) and the nonce it was sealed under.
#[derive(Debug, Clone)]
pub struct EncryptedData {
    pub ciphertext: Vec<u8>,
    pub nonce: Vec<u8>,
}

/// What decrypting `blob` under `key` gives: `None` when the nonce is not 12 bytes
/// or the tag does not verify.
pub open spec fn decryption_of(key: Seq<u8>, blob: EncryptedData) -> Option<Seq<u8>> {
    if blob.nonce@.len() == NONCE_LEN {
        aes256gcm_open(key, blob.nonce@, blob.ciphertext@)
    } else {
        None
    }
}

/// `blob` is a sealing of `plaintext` under `key`: a 12-byte nonce, and a ciphertext
/// that is the plaintext's length plus the tag and opens to the plaintext.
pub open spec fn seals(key: Seq<u8>, blob: EncryptedData, plaintext: Seq<u8>) -> bool {
    &&& blob.nonce@.len() == NONCE_LEN
    &&& blob.ciphertext@ == aes256gcm_seal(key, blob.nonce@, plaintext)
    &&& blob.ciphertext@.len() == plaintext.len() + TAG_LEN
    &&& decryption_of(key, blob) == Some(plaintext)
}

/// Errors of the cryptographic operations.
#[derive(Debug, Clone)]
pub enum CryptoError {
    KeyDerivation(String),
    Encryption(String),
    Decryption(String),
    InvalidKeyLength,
    InvalidNonceLength,
}

/// Relies on argon2's `Params::new` and `Argon2::hash_password_into` (Argon2id, version
/// 0x13, 32-byte output). Within the bounds below neither fails (they check exactly
/// these bounds), and the output is a function of the costs, the password and the salt.
#[verifier::external_body]
fn argon2id_hash(
    m_cost: u32,
    t_cost: u32,
    p_cost: u32,
    password: &[u8],
    salt: &[u8],
) -> (r: Option<[u8; 32]>)
    requires
        1 <= p_cost <= 0xFF_FFFF,
        8 * p_cost <= m_cost,
        1 <= t_cost,
        password@.len() <= ARGON2_MAX_INPUT,
        8 <= salt@.len() <= ARGON2_MAX_INPUT,
    ensures
        r is Some,
        r->0@ == argon2id_output(m_cost, t_cost, p_cost, password@, salt@),
{
    let params = argon2::Params::new(m_cost, t_cost, p_cost, Some(32)).ok()?;
    let hasher = argon2::Argon2::new(argon2::Algorithm::Argon2id, argon2::Version::V0x13, params);
    let mut out = [0u8; 32];
    hasher.hash_password_into(password, salt, &mut out).ok()?;
    Some(out)
}

/// Relies on aes_gcm's `Aes256Gcm::encrypt` without associated data: it fails only on a
/// plaintext over 2^36 bytes; the ciphertext is the plaintext's length plus a 16-byte tag,
/// and opening it with the same key and nonce gives the plaintext back.
#[verifier::external_body]
fn aes_gcm_seal(key: &[u8; 32], nonce: &[u8], plaintext: &[u8]) -> (r: Option<Vec<u8>>)
    requires
        nonce@.len() == NONCE_LEN,
    ensures
        r is Some <==> plaintext@.len() <= AES_GCM_P_MAX,
        r is Some ==> r->0@ == aes256gcm_seal(key@, nonce@, plaintext@),
        r is Some ==> r->0@.len() == plaintext@.len() + TAG_LEN,
        r is Some ==> aes256gcm_open(key@, nonce@, r->0@) == Some(plaintext@),
{
    let cipher = aes_gcm::Aes256Gcm::new(key.into());
    cipher.encrypt(aes_gcm::Nonce::from_slice(nonce), plaintext).ok()
}

/// Relies on aes_gcm's `Aes256Gcm::decrypt` without associated data: the plaintext when
/// the tag verifies, an error otherwise (at once for a ciphertext shorter than the
/// 16-byte tag); it does not panic on any ciphertext.
#[verifier::external_body]
fn aes_gcm_open(key: &[u8; 32], nonce: &[u8], ciphertext: &[u8]) -> (r: Option<Vec<u8>>)
    requires
        nonce@.len() == NONCE_LEN,
    ensures
        r is Some ==> aes256gcm_open(key@, nonce@, ciphertext@) == Some(r->0@),
        r is None ==> aes256gcm_open(key@, nonce@, ciphertext@) is None,
        ciphertext@.len() < TAG_LEN ==> r is None,
{
    let cipher = aes_gcm::Aes256Gcm::new(key.into());
    cipher.decrypt(aes_gcm::Nonce::from_slice(nonce), ciphertext).ok()
}

/// Relies on rand's `OsRng` through `RngCore::try_fill_bytes`: `n` bytes from the
/// operating system's secure random source, or `None` when that source fails.
/// Nothing is known of the bytes' values.
#[verifier::external_body]
pub(crate) fn os_random_bytes(n: usize) -> (r: Option<Vec<u8>>)
    ensures
        r is Some ==> r->0@.len() == n,
{
    let mut bytes = vec![0u8; n];
    rand::RngCore::try_fill_bytes(&mut rand::rngs::OsRng, &mut bytes).ok()?;
    Some(bytes)
}

/// Every byte is zero.
pub open spec fn all_zero(bytes: Seq<u8>) -> bool {
    forall|i: int| 0 <= i < bytes.len() ==> #[trigger] bytes[i] == 0
}

/// Whether every byte is zero.
pub fn is_all_zero(bytes: &[u8]) -> (r: bool)
    ensures
        r == all_zero(bytes@),
{
    let mut i: usize = 0;
    while i < bytes.len()
        invariant
            i <= bytes@.len(),
            forall|k: int| 0 <= k < i ==> #[trigger] bytes@[k] == 0,
        decreases bytes@.len() - i,
    {
        if bytes[i] != 0 {
            return false;
        }
        i = i + 1;
    }
    true
}

/// A slice of 32 bytes, as an array.
pub fn salt_array(bytes: &[u8]) -> (r: [u8; 32])
    requires
        bytes@.len() == 32,
    ensures
        r@ == bytes@,
{
    let mut out = [0u8; 32];
    let mut i: usize = 0;
    while i < 32
        invariant
            bytes@.len() == 32,
            out@.len() == 32,
            i <= 32,
            forall|k: int| 0 <= k < i ==> out@[k] == bytes@[k],
        decreases 32 - i,
    {
        out[i] = bytes[i];
        i = i + 1;
    }
    assert(out@ =~= bytes@);
    out
}

/// Fresh random values for one sealing: a salt for a key and a nonce.
#[derive(Debug)]
pub struct SealMaterial {
    pub salt: [u8; 32],
    pub nonce: Vec<u8>,
}

/// Usable sealing material: a 12-byte nonce and a salt that is not all zero (an
/// all-zero salt marks a legacy record).
pub open spec fn material_ok(m: SealMaterial) -> bool {
    m.nonce@.len() == NONCE_LEN && !all_zero(m.salt@)
}

/// Draws sealing material from the operating system's random source; `None`
/// when the source fails (or, with negligible chance, gives an all-zero salt).
pub fn fresh_material() -> (r: Option<SealMaterial>)
    ensures
        r matches Some(m) ==> material_ok(m),
{
    let salt_bytes = os_random_bytes(32)?;
    if is_all_zero(salt_bytes.as_slice()) {
        return None;
    }
    let nonce = os_random_bytes(NONCE_LEN)?;
    Some(SealMaterial { salt: salt_array(salt_bytes.as_slice()), nonce })
}

/// Derives the master key from a PIN and the vault salt.
///
/// Fails with `KeyDerivation` when the PIN is shorter than 6 bytes (or longer than
/// Argon2 accepts); otherwise the key is `master_key_of(pin, salt)`.
pub fn derive_key_from_pin(pin: &str, salt: &[u8; 32]) -> (r: Result<VaultKey, CryptoError>)
    ensures
        r is Ok <==> pin_derivable(pin.spec_bytes()),
        r matches Ok(k) ==> k@ == master_key_of(pin.spec_bytes(), salt@),
        r matches Err(e) ==> e is KeyDerivation,
{
    let bytes = pin.as_bytes();
    if bytes.len() < MIN_DERIVATION_PIN_LEN {
        return Err(CryptoError::KeyDerivation(String::from_str("PIN must be at least 6 characters")));
    }
    if bytes.len() > ARGON2_MAX_INPUT {
        return Err(CryptoError::KeyDerivation(String::from_str("PIN is too long")));
    }
    match argon2id_hash(MASTER_M_COST, MASTER_T_COST, MASTER_P_COST, bytes, salt.as_slice()) {
        Some(out) => Ok(VaultKey { bytes: out }),
        None => Err(CryptoError::KeyDerivation(String::from_str("Argon2 failed"))),
    }
}

/// Derives the key of one secret from the master key, its `(app_name, key_name)`
/// context and its own salt. An empty `app_name` is allowed.
pub fn derive_per_key_encryption_key(
    master_key: &VaultKey,
    app_name: &str,
    key_name: &str,
    salt: &[u8; 32],
) -> (r: Result<VaultKey, CryptoError>)
    ensures
        r is Ok <==> secret_key_derivable(master_key@, app_name@, key_name@),
        r matches Ok(k) ==> k@ == secret_key_of(master_key@, app_name@, key_name@, salt@),
        r matches Err(e) ==> e is KeyDerivation,
{
    let mut context = String::from_str(app_name);
    context.append("|");
    context.append(key_name);
    proof {
        reveal_strlit("|");
    }
    assert(context@ == context_of(app_name@, key_name@));
    let mut combined: Vec<u8> = Vec::new();
    combined.extend_from_slice(master_key.bytes.as_slice());
    combined.extend_from_slice(context.as_str().as_bytes());
    assert(combined@ == secret_key_input(master_key@, app_name@, key_name@));
    if combined.len() > ARGON2_MAX_INPUT {
        return Err(CryptoError::KeyDerivation(String::from_str("key context is too long")));
    }
    match argon2id_hash(SECRET_M_COST, SECRET_T_COST, SECRET_P_COST, combined.as_slice(), salt.as_slice()) {
        Some(out) => Ok(VaultKey { bytes: out }),
        None => Err(CryptoError::KeyDerivation(String::from_str("Argon2 failed"))),
    }
}

/// 32 fresh random bytes, for a vault salt or a per-secret salt; `None` when the
/// operating system's random source fails.
pub fn generate_salt() -> (r: Option<[u8; 32]>) {
    let bytes = os_random_bytes(32)?;
    Some(salt_array(bytes.as_slice()))
}

/// A fresh random key; `None` when the random source fails.
pub fn generate_vault_key() -> (r: Option<VaultKey>) {
    let bytes = os_random_bytes(32)?;
    Some(VaultKey { bytes: salt_array(bytes.as_slice()) })
}

/// Seals `plaintext` under `key` with the given nonce, which must never have been
/// used with this key. Fails with `Encryption` exactly on a plaintext over 2^36 bytes.
pub fn encrypt_with_nonce(plaintext: &[u8], key: &VaultKey, nonce: &[u8]) -> (r: Result<
    EncryptedData,
    CryptoError,
>)
    requires
        nonce@.len() == NONCE_LEN,
    ensures
        r is Ok <==> plaintext@.len() <= AES_GCM_P_MAX,
        r matches Ok(blob) ==> seals(key@, blob, plaintext@) && blob.nonce@ == nonce@,
        r matches Err(e) ==> e is Encryption,
{
    match aes_gcm_seal(&key.bytes, nonce, plaintext) {
        Some(ciphertext) => Ok(EncryptedData { ciphertext, nonce: vstd::slice::slice_to_vec(nonce) }),
        None => Err(CryptoError::Encryption(String::from_str("plaintext is too long"))),
    }
}

/// Seals `plaintext` under `key` with a fresh random nonce.
///
/// Fails with `Encryption` on a plaintext over 2^36 bytes or when the random
/// source fails; the nonce is then drawn, and the rest is `encrypt_with_nonce`.
/// The result decrypts under `key` to `plaintext`.
pub fn encrypt(plaintext: &[u8], key: &VaultKey) -> (r: Result<EncryptedData, CryptoError>)
    ensures
        plaintext@.len() > AES_GCM_P_MAX ==> r is Err,
        r matches Ok(blob) ==> seals(key@, blob, plaintext@),
        r matches Err(e) ==> e is Encryption,
{
    match os_random_bytes(NONCE_LEN) {
        Some(nonce) => encrypt_with_nonce(plaintext, key, nonce.as_slice()),
        None => Err(CryptoError::Encryption(String::from_str("random source failed"))),
    }
}

/// Opens a sealed value under `key`.
///
/// Fails with `InvalidNonceLength` when the nonce is not 12 bytes and with
/// `Decryption` when authentication fails (wrong key, or a tampered ciphertext
/// or nonce). It never panics, whatever the bytes.
pub fn decrypt(encrypted: &EncryptedData, key: &VaultKey) -> (r: Result<Vec<u8>, CryptoError>)
    ensures
        r matches Ok(p) ==> decryption_of(key@, *encrypted) == Some(p@),
        r is Err ==> decryption_of(key@, *encrypted) is None,
        r matches Err(e) ==> (encrypted.nonce@.len() != NONCE_LEN <==> e is InvalidNonceLength),
        r matches Err(e) ==> (e is InvalidNonceLength || e is Decryption),
        encrypted.ciphertext@.len() < TAG_LEN ==> r is Err,
{
    if encrypted.nonce.len() != NONCE_LEN {
        return Err(CryptoError::InvalidNonceLength);
    }
    match aes_gcm_open(&key.bytes, encrypted.nonce.as_slice(), encrypted.ciphertext.as_slice()) {
        Some(plaintext) => Ok(plaintext),
        None => Err(CryptoError::Decryption(String::from_str("authentication failed"))),
    }
}

/// Key derivation is deterministic: one PIN and one salt always give the same
/// master key.
pub proof fn lemma_master_key_deterministic(pin: Seq<u8>, salt: Seq<u8>, k1: Seq<u8>, k2: Seq<u8>)
    requires
        pin_derivable(pin),
        k1 == master_key_of(pin, salt),
        k2 == master_key_of(pin, salt),
    ensures
        k1 == k2,
{
}

/// Decryption inverts encryption: a value that `encrypt` sealed under a key
/// decrypts under that key to the bytes that were sealed, the empty text included.
pub proof fn lemma_decrypt_inverts_encrypt(key: Seq<u8>, blob: EncryptedData, plaintext: Seq<u8>)
    requires
        seals(key, blob, plaintext),
    ensures
        decryption_of(key, blob) == Some(plaintext),
        blob.ciphertext@.len() == plaintext.len() + TAG_LEN,
{
}

} // verus!
