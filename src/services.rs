//! The operations that callers use: [`CryptoService`] for the cryptographic
//! steps with the library's errors, and [`KeyService`], the registry of secrets.
//!
//! Every registry operation first requires an unlocked [`AuthService`] and fails
//! with `Locked` otherwise. A secret's `app_name` and `key_name` are part of its
//! encryption context: whenever either changes, or a new value is given, the
//! value is sealed again under a fresh salt.

use vstd::prelude::*;
use vstd::string::StringSliceAdditionalSpecFns;
use vstd::string::StringExecFns;
use vstd::utf8::{decode_utf8, encode_utf8, valid_utf8};

use crate::auth::AuthService;
use crate::order::{names_cmp, record_cmp, sort_positions};
use crate::crypto::{
    decrypt, decryption_of, derive_key_from_pin, derive_per_key_encryption_key, encrypt,
    encrypt_with_nonce, fresh_material, generate_salt, is_all_zero, master_key_of,
    material_ok, pin_derivable, salt_array, seals, secret_key_derivable, secret_key_of,
    SealMaterial,
    EncryptedData, VaultKey, AES_GCM_P_MAX,
};
use crate::error::VaultError;
use crate::store::{
    app_ctx, clone_opt, has_names, has_proper_salt, id_taken, key_name_taken, matching,
    opt_text, opt_text_eq, record_matches, records_wf, matches_query,
    stored_value, SecretRecord, VaultStore,
};
use crate::system::{new_record_id, unix_now};

verus! {

/// Relies on std's `String::from_utf8`: it succeeds exactly on valid UTF-8, and the
/// string's characters are the decoded bytes.
#[verifier::external_body]
fn string_from_utf8(bytes: Vec<u8>) -> (r: Option<String>)
    ensures
        r is Some <==> valid_utf8(bytes@),
        r is Some ==> r->0@ == decode_utf8(bytes@),
{
    String::from_utf8(bytes).ok()
}

/// The characters of an optional string slice.
pub open spec fn opt_str(s: Option<&str>) -> Option<Seq<char>> {
    match s {
        Some(t) => Some(t@),
        None => None,
    }
}

/// An optional app name as it enters the encryption context: empty when absent.
pub open spec fn str_ctx(s: Option<&str>) -> Seq<char> {
    match s {
        Some(t) => t@,
        None => Seq::empty(),
    }
}

/// The sealed value opens under `key` to valid UTF-8.
pub open spec fn opens_to_text(key: Seq<u8>, blob: EncryptedData) -> bool {
    decryption_of(key, blob) matches Some(b) && valid_utf8(b)
}

/// An owned copy of an optional string slice.
fn own_opt(s: Option<&str>) -> (r: Option<String>)
    ensures
        opt_text(r) == opt_str(s),
{
    match s {
        Some(t) => Some(String::from_str(t)),
        None => None,
    }
}

/// The cryptographic operations, reporting the library's errors.
pub struct CryptoService {}

impl CryptoService {
    /// The service.
    pub fn new() -> (r: CryptoService) {
        CryptoService {  }
    }

    /// 32 fresh random bytes; `None` when the random source fails.
    pub fn generate_salt(&self) -> (r: Option<[u8; 32]>) {
        generate_salt()
    }

    /// The master key of a PIN and salt; `KeyDerivation` for a PIN under 6 bytes.
    pub fn derive_master_key(&self, pin: &str, salt: &[u8; 32]) -> (r: Result<VaultKey, VaultError>)
        ensures
            r is Ok <==> pin_derivable(pin.spec_bytes()),
            r matches Ok(k) ==> k@ == master_key_of(pin.spec_bytes(), salt@),
            r matches Err(e) ==> e is KeyDerivation,
    {
        match derive_key_from_pin(pin, salt) {
            Ok(k) => Ok(k),
            Err(_) => Err(VaultError::KeyDerivation(String::from_str("invalid PIN for key derivation"))),
        }
    }

    /// The key of one secret, from the master key, its context and its salt.
    pub fn derive_per_key_key(
        &self,
        master_key: &VaultKey,
        app_name: &str,
        key_name: &str,
        salt: &[u8; 32],
    ) -> (r: Result<VaultKey, VaultError>)
        ensures
            r is Ok <==> secret_key_derivable(master_key@, app_name@, key_name@),
            r matches Ok(k) ==> k@ == secret_key_of(master_key@, app_name@, key_name@, salt@),
            r matches Err(e) ==> e is KeyDerivation,
    {
        match derive_per_key_encryption_key(master_key, app_name, key_name, salt) {
            Ok(k) => Ok(k),
            Err(_) => Err(VaultError::KeyDerivation(String::from_str("key context is too long"))),
        }
    }

    /// Seals bytes under a key with a fresh nonce; `Encryption` for a plaintext over
    /// 2^36 bytes or when the random source fails.
    pub fn encrypt(&self, plaintext: &[u8], key: &VaultKey) -> (r: Result<EncryptedData, VaultError>)
        ensures
            plaintext@.len() > AES_GCM_P_MAX ==> r is Err,
            r matches Ok(blob) ==> seals(key@, blob, plaintext@),
            r matches Err(e) ==> e is Encryption,
    {
        match encrypt(plaintext, key) {
            Ok(blob) => Ok(blob),
            Err(_) => Err(VaultError::Encryption(String::from_str("encryption failed"))),
        }
    }

    /// Opens sealed bytes; `Decryption` when the nonce is malformed or authentication fails.
    pub fn decrypt(&self, encrypted: &EncryptedData, key: &VaultKey) -> (r: Result<Vec<u8>, VaultError>)
        ensures
            r matches Ok(p) ==> decryption_of(key@, *encrypted) == Some(p@),
            r is Err ==> decryption_of(key@, *encrypted) is None,
            r matches Err(e) ==> e is Decryption,
    {
        match decrypt(encrypted, key) {
            Ok(p) => Ok(p),
            Err(_) => Err(VaultError::Decryption(String::from_str("authentication failed"))),
        }
    }

    /// Seals a secret's value under its own key: a fresh salt, the key derived for
    /// `(app_name, key_name)` and that salt, then encryption. Returns the sealed
    /// value and the salt.
    pub fn encrypt_api_key(
        &self,
        value: &str,
        master_key: &VaultKey,
        app_name: &str,
        key_name: &str,
    ) -> (r: Result<(EncryptedData, [u8; 32]), VaultError>)
        ensures
            !secret_key_derivable(master_key@, app_name@, key_name@) || value.spec_bytes().len()
                > AES_GCM_P_MAX ==> r is Err,
            r matches Ok((blob, salt)) ==> seals(
                secret_key_of(master_key@, app_name@, key_name@, salt@),
                blob,
                value.spec_bytes(),
            ),
            r matches Err(e) ==> e is KeyDerivation || e is Encryption,
    {
        let salt = match self.generate_salt() {
            Some(s) => s,
            None => {
                return Err(VaultError::Encryption(String::from_str("random source failed")));
            },
        };
        let per_key = self.derive_per_key_key(master_key, app_name, key_name, &salt)?;
        let encrypted = self.encrypt(value.as_bytes(), &per_key)?;
        Ok((encrypted, salt))
    }

    /// Opens a secret's value with the key derived for `(app_name, key_name)` and
    /// `salt`; `Decryption` when it does not open or is not UTF-8.
    pub fn decrypt_api_key(
        &self,
        encrypted: &EncryptedData,
        master_key: &VaultKey,
        app_name: &str,
        key_name: &str,
        salt: &[u8; 32],
    ) -> (r: Result<String, VaultError>)
        ensures
            r matches Ok(s) ==> secret_key_derivable(master_key@, app_name@, key_name@)
                && decryption_of(secret_key_of(master_key@, app_name@, key_name@, salt@), *encrypted)
                == Some(encode_utf8(s@)),
            secret_key_derivable(master_key@, app_name@, key_name@) && opens_to_text(
                secret_key_of(master_key@, app_name@, key_name@, salt@),
                *encrypted,
            ) ==> r is Ok,
            r matches Err(e) ==> e is KeyDerivation || e is Decryption,
    {
        let per_key = self.derive_per_key_key(master_key, app_name, key_name, salt)?;
        let plaintext = self.decrypt(encrypted, &per_key)?;
        let ghost bytes = plaintext@;
        match string_from_utf8(plaintext) {
            Some(s) => {
                proof {
                    vstd::utf8::decode_utf8_encode_utf8(bytes);
                }
                Ok(s)
            },
            None => Err(VaultError::Decryption(String::from_str("Invalid UTF-8 in decrypted data"))),
        }
    }
}

/// A secret with its decrypted value. Times are seconds since the Unix epoch.
#[derive(Debug, Clone)]
pub struct ApiKey {
    pub id: String,
    pub app_name: Option<String>,
    pub key_name: String,
    pub key_value: String,
    pub api_url: Option<String>,
    pub description: Option<String>,
    pub created_at: i64,
    pub updated_at: i64,
}

/// A secret's metadata, without its value.
#[derive(Debug, Clone)]
pub struct ApiKeyMetadata {
    pub id: String,
    pub app_name: Option<String>,
    pub key_name: String,
    pub api_url: Option<String>,
    pub description: Option<String>,
    pub created_at: i64,
    pub updated_at: i64,
}

/// The fields of a new secret.
#[derive(Debug, Clone)]
pub struct CreateKeyRequest {
    pub app_name: Option<String>,
    pub key_name: String,
    pub key_value: String,
    pub api_url: Option<String>,
    pub description: Option<String>,
}

/// Changes to a secret: `None` keeps a field, `Some` replaces it (with `Some(None)`
/// clearing an optional field).
#[derive(Debug, Clone)]
pub struct UpdateKeyRequest {
    pub app_name: Option<Option<String>>,
    pub key_name: Option<String>,
    pub key_value: Option<String>,
    pub api_url: Option<Option<String>>,
    pub description: Option<Option<String>>,
}

/// The metadata agrees with the record.
pub open spec fn metadata_agrees(m: ApiKeyMetadata, rec: SecretRecord) -> bool {
    &&& m.id@ == rec.id@
    &&& opt_text(m.app_name) == opt_text(rec.app_name)
    &&& m.key_name@ == rec.key_name@
    &&& opt_text(m.api_url) == opt_text(rec.api_url)
    &&& opt_text(m.description) == opt_text(rec.description)
    &&& m.created_at == rec.created_at
    &&& m.updated_at == rec.updated_at
}

/// The decrypted secret agrees with the record, and its value is the record's
/// value under the master key.
pub open spec fn api_key_agrees(k: ApiKey, rec: SecretRecord, master: Seq<u8>) -> bool {
    &&& k.id@ == rec.id@
    &&& opt_text(k.app_name) == opt_text(rec.app_name)
    &&& k.key_name@ == rec.key_name@
    &&& opt_text(k.api_url) == opt_text(rec.api_url)
    &&& opt_text(k.description) == opt_text(rec.description)
    &&& k.created_at == rec.created_at
    &&& k.updated_at == rec.updated_at
    &&& stored_value(master, rec) == Some(encode_utf8(k.key_value@))
}

/// The record's value can be read: it opens and is UTF-8.
pub open spec fn readable(master: Seq<u8>, rec: SecretRecord) -> bool {
    stored_value(master, rec) matches Some(b) && valid_utf8(b)
}

/// The record that `create` adds for these inputs.
pub open spec fn created_record(
    rec: SecretRecord,
    master: Seq<u8>,
    app_name: Option<Seq<char>>,
    key_name: Seq<char>,
    value: Seq<u8>,
    api_url: Option<Seq<char>>,
    description: Option<Seq<char>>,
) -> bool {
    &&& opt_text(rec.app_name) == app_name
    &&& rec.key_name@ == key_name
    &&& opt_text(rec.api_url) == api_url
    &&& opt_text(rec.description) == description
    &&& has_proper_salt(rec)
    &&& stored_value(master, rec) == Some(value)
    &&& rec.created_at == rec.updated_at
}

/// A new secret's key name and value are not empty.
pub open spec fn create_inputs_ok(key_name: &str, key_value: &str) -> bool {
    key_name@.len() > 0 && key_value@.len() > 0
}

/// `create` has all it needs: an unlocked session, non-empty inputs, a free key
/// name, a context that derives a key and a value that fits AES-GCM.
pub open spec fn create_ready(
    auth: AuthService,
    recs: Seq<SecretRecord>,
    app_name: Option<&str>,
    key_name: &str,
    key_value: &str,
) -> bool {
    &&& auth.unlocked()
    &&& create_inputs_ok(key_name, key_value)
    &&& !key_name_taken(recs, key_name@)
    &&& secret_key_derivable(auth.master_key()->0, str_ctx(app_name), key_name@)
    &&& key_value.spec_bytes().len() <= AES_GCM_P_MAX
}

/// The app name after an update.
pub open spec fn merged_app(old: SecretRecord, req: UpdateKeyRequest) -> Option<Seq<char>> {
    match req.app_name {
        Some(a) => opt_text(a),
        None => opt_text(old.app_name),
    }
}

/// The key name after an update.
pub open spec fn merged_key(old: SecretRecord, req: UpdateKeyRequest) -> Seq<char> {
    match req.key_name {
        Some(k) => k@,
        None => old.key_name@,
    }
}

/// An update seals the value again: a new value, or a changed app or key name.
pub open spec fn needs_reencrypt(old: SecretRecord, req: UpdateKeyRequest) -> bool {
    ||| req.key_value is Some
    ||| merged_app(old, req) != opt_text(old.app_name)
    ||| merged_key(old, req) != old.key_name@
}

/// The record after the update: merged metadata, the same identifier and creation
/// time, and either the value sealed again under the new context and a fresh salt
/// (the new value, or the old one) or, for a metadata-only change, the same sealed
/// value and salt.
pub open spec fn update_applied(
    master: Seq<u8>,
    old: SecretRecord,
    new: SecretRecord,
    req: UpdateKeyRequest,
) -> bool {
    &&& new.id@ == old.id@
    &&& new.created_at == old.created_at
    &&& opt_text(new.app_name) == merged_app(old, req)
    &&& new.key_name@ == merged_key(old, req)
    &&& opt_text(new.api_url) == match req.api_url {
        Some(u) => opt_text(u),
        None => opt_text(old.api_url),
    }
    &&& opt_text(new.description) == match req.description {
        Some(d) => opt_text(d),
        None => opt_text(old.description),
    }
    &&& if needs_reencrypt(old, req) {
        &&& has_proper_salt(new)
        &&& stored_value(master, new) == match req.key_value {
            Some(v) => Some(encode_utf8(v@)),
            None => stored_value(master, old),
        }
    } else {
        &&& new.encrypted.ciphertext@ == old.encrypted.ciphertext@
        &&& new.encrypted.nonce@ == old.encrypted.nonce@
        &&& new.key_salt@ == old.key_salt@
    }
}

/// Legacy records among the first `n`.
pub open spec fn legacy_count(recs: Seq<SecretRecord>, n: int) -> nat
    decreases n,
{
    if n <= 0 {
        0
    } else {
        legacy_count(recs, n - 1) + if has_proper_salt(recs[n - 1]) {
            0nat
        } else {
            1nat
        }
    }
}

/// With no legacy record among the first `n`, none is counted.
proof fn lemma_no_legacy(recs: Seq<SecretRecord>, n: int)
    requires
        0 <= n <= recs.len(),
        forall|k: int| 0 <= k < n ==> has_proper_salt(#[trigger] recs[k]),
    ensures
        legacy_count(recs, n) == 0,
    decreases n,
{
    if n > 0 {
        lemma_no_legacy(recs, n - 1);
    }
}

/// A legacy record can be sealed again: its value opens under the master key, fits
/// AES-GCM, and its context derives a key.
pub open spec fn convertible(master: Seq<u8>, rec: SecretRecord) -> bool {
    &&& stored_value(master, rec) matches Some(b) && b.len() <= AES_GCM_P_MAX
    &&& secret_key_derivable(master, app_ctx(rec.app_name), rec.key_name@)
}

/// `new` is `old` sealed again: the same metadata and value.
pub open spec fn resealed(master: Seq<u8>, old: SecretRecord, new: SecretRecord) -> bool {
    &&& new.id == old.id
    &&& new.app_name == old.app_name
    &&& new.key_name == old.key_name
    &&& new.api_url == old.api_url
    &&& new.description == old.description
    &&& new.created_at == old.created_at
    &&& new.updated_at == old.updated_at
    &&& stored_value(master, new) == stored_value(master, old)
}

/// The app name after an update, as it enters the encryption context.
pub open spec fn merged_ctx(old: SecretRecord, req: UpdateKeyRequest) -> Seq<char> {
    match merged_app(old, req) {
        Some(a) => a,
        None => Seq::empty(),
    }
}

/// An update of the record at `i` can succeed: the new key name is not held by
/// another record and, when the value is sealed again, the new context derives a
/// key and the value (new, or the old one, which must open) fits AES-GCM.
pub open spec fn update_possible(
    master: Seq<u8>,
    recs: Seq<SecretRecord>,
    i: int,
    req: UpdateKeyRequest,
) -> bool {
    &&& forall|k: int|
        0 <= k < recs.len() && k != i ==> #[trigger] recs[k].key_name@ != merged_key(recs[i], req)
    &&& needs_reencrypt(recs[i], req) ==> {
        &&& secret_key_derivable(master, merged_ctx(recs[i], req), merged_key(recs[i], req))
        &&& match req.key_value {
            Some(v) => encode_utf8(v@).len() <= AES_GCM_P_MAX,
            None => stored_value(master, recs[i]) matches Some(b) && b.len() <= AES_GCM_P_MAX,
        }
    }
}

/// Registry operations run only on an unlocked session.
fn require_unlocked(auth: &AuthService) -> (r: Result<(), VaultError>)
    ensures
        r is Ok <==> auth.unlocked(),
        r matches Err(e) ==> e is Locked,
{
    if !auth.is_unlocked() {
        return Err(VaultError::Locked);
    }
    Ok(())
}

/// `new` holds the same secret as `old` with its value moved from one master key
/// to another: the same metadata, a per-secret salt, and the same value.
pub open spec fn rekeyed(from: Seq<u8>, to: Seq<u8>, old: SecretRecord, new: SecretRecord) -> bool {
    &&& new.id == old.id
    &&& new.app_name == old.app_name
    &&& new.key_name == old.key_name
    &&& new.api_url == old.api_url
    &&& new.description == old.description
    &&& new.created_at == old.created_at
    &&& new.updated_at == old.updated_at
    &&& has_proper_salt(new)
    &&& stored_value(to, new) == stored_value(from, old)
}

/// A record can move to another master key: its value opens under the old one
/// and fits AES-GCM, and its context derives a key under the new one.
pub open spec fn rekeyable(from: Seq<u8>, to: Seq<u8>, rec: SecretRecord) -> bool {
    &&& stored_value(from, rec) matches Some(b) && b.len() <= AES_GCM_P_MAX
    &&& secret_key_derivable(to, app_ctx(rec.app_name), rec.key_name@)
}

/// Fresh sealing material for `n` records; `None` when the random source fails.
fn draw_materials(n: usize) -> (r: Option<Vec<SealMaterial>>)
    ensures
        r matches Some(v) ==> v@.len() == n && forall|i: int|
            0 <= i < v@.len() ==> material_ok(#[trigger] v@[i]),
{
    let mut out: Vec<SealMaterial> = Vec::new();
    let mut i: usize = 0;
    while i < n
        invariant
            i <= n,
            out@.len() == i,
            forall|k: int| 0 <= k < out@.len() ==> material_ok(#[trigger] out@[k]),
        decreases n - i,
    {
        out.push(fresh_material()?);
        i = i + 1;
    }
    Some(out)
}

/// Whether a record carries a per-secret salt.
fn record_has_salt(rec: &SecretRecord) -> (r: bool)
    ensures
        r == has_proper_salt(*rec),
{
    rec.key_salt.len() == 32 && !is_all_zero(rec.key_salt.as_slice())
}

/// Entry `k` of `v` is the metadata of some record.
pub open spec fn entry_of_some(v: Seq<ApiKeyMetadata>, k: int, recs: Seq<SecretRecord>) -> bool {
    exists|i: int| 0 <= i < recs.len() && metadata_agrees(v[k], recs[i])
}

/// Entry `k` of `v` is the metadata of some record that matches the query.
pub open spec fn entry_of_match(
    v: Seq<ApiKeyMetadata>,
    k: int,
    recs: Seq<SecretRecord>,
    query: Seq<u8>,
) -> bool {
    exists|i: int| 0 <= i < recs.len() && matches_query(recs[i], query) && metadata_agrees(v[k], recs[i])
}

/// Record `i` has an entry in `v`.
pub open spec fn listed_in(v: Seq<ApiKeyMetadata>, recs: Seq<SecretRecord>, i: int) -> bool {
    exists|k: int| 0 <= k < v.len() && metadata_agrees(v[k], recs[i])
}

/// The listing order of two metadata entries.
pub open spec fn metadata_cmp(a: ApiKeyMetadata, b: ApiKeyMetadata) -> int {
    names_cmp(opt_text(a.app_name), a.key_name@, opt_text(b.app_name), b.key_name@)
}

/// The entries come in the listing order: by app name (absent first), then key name.
pub open spec fn listing_sorted(v: Seq<ApiKeyMetadata>) -> bool {
    forall|k: int, l: int| 0 <= k < l < v.len() ==> #[trigger] metadata_cmp(v[k], v[l]) <= 0
}

/// The metadata of a record.
fn metadata_of(rec: &SecretRecord) -> (m: ApiKeyMetadata)
    ensures
        metadata_agrees(m, *rec),
{
    ApiKeyMetadata {
        id: rec.id.clone(),
        app_name: clone_opt(&rec.app_name),
        key_name: rec.key_name.clone(),
        api_url: clone_opt(&rec.api_url),
        description: clone_opt(&rec.description),
        created_at: rec.created_at,
        updated_at: rec.updated_at,
    }
}

/// The registry of secrets.
pub struct KeyService {
    store: VaultStore,
    crypto: CryptoService,
}

impl View for KeyService {
    type V = Seq<SecretRecord>;

    closed spec fn view(&self) -> Seq<SecretRecord> {
        self.store@
    }
}

impl KeyService {
    /// A registry over a store.
    pub fn new(store: VaultStore) -> (r: KeyService)
        ensures
            r@ == store@,
    {
        KeyService { store, crypto: CryptoService::new() }
    }

    /// The underlying store, for persisting.
    pub fn store(&self) -> (r: &VaultStore)
        ensures
            r@ == self@,
    {
        &self.store
    }

    /// The plaintext bytes of a record's value, opened with its own key (the
    /// master key itself for a legacy record).
    fn open_record(&self, rec: &SecretRecord, master: &VaultKey) -> (r: Result<Vec<u8>, VaultError>)
        ensures
            r matches Ok(b) ==> stored_value(master@, *rec) == Some(b@),
            r is Err ==> stored_value(master@, *rec) is None,
            r matches Err(e) ==> e is KeyDerivation || e is Decryption,
    {
        if record_has_salt(rec) {
            let salt = salt_array(rec.key_salt.as_slice());
            let app = match &rec.app_name {
                Some(a) => a.as_str(),
                None => "",
            };
            proof {
                reveal_strlit("");
            }
            assert(app@ == app_ctx(rec.app_name));
            let per_key = self.crypto.derive_per_key_key(master, app, rec.key_name.as_str(), &salt)?;
            self.crypto.decrypt(&rec.encrypted, &per_key)
        } else {
            self.crypto.decrypt(&rec.encrypted, master)
        }
    }

    /// A record with its value decrypted.
    fn decrypt_record(&self, rec: &SecretRecord, master: &VaultKey) -> (r: Result<ApiKey, VaultError>)
        ensures
            r matches Ok(k) ==> api_key_agrees(k, *rec, master@),
            readable(master@, *rec) ==> r is Ok,
            r matches Err(e) ==> e is KeyDerivation || e is Decryption,
    {
        let bytes = self.open_record(rec, master)?;
        let ghost b = bytes@;
        match string_from_utf8(bytes) {
            Some(value) => {
                proof {
                    vstd::utf8::decode_utf8_encode_utf8(b);
                }
                Ok(ApiKey {
                    id: rec.id.clone(),
                    app_name: clone_opt(&rec.app_name),
                    key_name: rec.key_name.clone(),
                    key_value: value,
                    api_url: clone_opt(&rec.api_url),
                    description: clone_opt(&rec.description),
                    created_at: rec.created_at,
                    updated_at: rec.updated_at,
                })
            },
            None => Err(VaultError::Decryption(String::from_str("Invalid UTF-8 in decrypted data"))),
        }
    }

    /// Stores a new secret under the identifier `id`, created at `now`, its value
    /// sealed with the given salt and nonce; returns the identifier.
    ///
    /// Fails with `Locked` while locked, `InvalidInput` for an empty key name or
    /// value, `DuplicateKey` when the key name is taken under any app,
    /// `KeyDerivation` when the context derives no key, `Encryption` for a value
    /// over 2^36 bytes, and `Database` when the identifier is taken, in that order.
    pub fn create_with(
        &mut self,
        auth: &AuthService,
        app_name: Option<&str>,
        key_name: &str,
        key_value: &str,
        api_url: Option<&str>,
        description: Option<&str>,
        id: String,
        now: i64,
        material: &SealMaterial,
    ) -> (r: Result<String, VaultError>)
        requires
            records_wf(old(self)@),
            material_ok(*material),
        ensures
            records_wf(final(self)@),
            r is Err ==> final(self)@ == old(self)@,
            !auth.unlocked() ==> (r matches Err(e) && e is Locked),
            auth.unlocked() && !create_inputs_ok(key_name, key_value) ==> (r matches Err(e) && e is InvalidInput),
            auth.unlocked() && create_inputs_ok(key_name, key_value) && key_name_taken(old(self)@, key_name@)
                ==> (r matches Err(e) && e is DuplicateKey),
            auth.unlocked() && create_inputs_ok(key_name, key_value) && !key_name_taken(old(self)@, key_name@)
                && !secret_key_derivable(auth.master_key()->0, str_ctx(app_name), key_name@)
                ==> (r matches Err(e) && e is KeyDerivation),
            auth.unlocked() && create_inputs_ok(key_name, key_value) && !key_name_taken(old(self)@, key_name@)
                && secret_key_derivable(auth.master_key()->0, str_ctx(app_name), key_name@)
                && key_value.spec_bytes().len() > AES_GCM_P_MAX ==> (r matches Err(e) && e is Encryption),
            create_ready(*auth, old(self)@, app_name, key_name, key_value) ==> (r is Ok <==> !id_taken(old(self)@, id@)),
            create_ready(*auth, old(self)@, app_name, key_name, key_value) && id_taken(old(self)@, id@)
                ==> (r matches Err(e) && e is Database),
            r matches Err(e) && e is Database ==> id_taken(old(self)@, id@),
            r matches Ok(i) ==> i@ == id@ && final(self)@.len() == old(self)@.len() + 1
                && final(self)@.drop_last() == old(self)@ && final(self)@.last().id@ == id@
                && final(self)@.last().key_salt@ == material.salt@ && final(self)@.last().created_at == now
                && created_record(
                final(self)@.last(),
                auth.master_key()->0,
                opt_str(app_name),
                key_name@,
                key_value.spec_bytes(),
                opt_str(api_url),
                opt_str(description),
            ),
    {
        require_unlocked(auth)?;
        if key_name.is_empty() || key_value.is_empty() {
            return Err(VaultError::InvalidInput(String::from_str("key name and value must not be empty")));
        }
        let app_str = match app_name {
            Some(a) => a,
            None => "",
        };
        proof {
            reveal_strlit("");
        }
        assert(app_str@ == str_ctx(app_name));
        if self.store.position_by_key_name(key_name).is_some() {
            return Err(VaultError::duplicate_key(app_str, key_name));
        }
        let master = auth.get_vault_key()?;
        let per_key = self.crypto.derive_per_key_key(&master, app_str, key_name, &material.salt)?;
        let encrypted = match encrypt_with_nonce(key_value.as_bytes(), &per_key, material.nonce.as_slice()) {
            Ok(blob) => blob,
            Err(_) => {
                return Err(VaultError::Encryption(String::from_str("value is too long")));
            },
        };
        let out = id.clone();
        let rec = SecretRecord {
            id,
            app_name: own_opt(app_name),
            key_name: String::from_str(key_name),
            api_url: own_opt(api_url),
            description: own_opt(description),
            encrypted,
            key_salt: vstd::slice::slice_to_vec(material.salt.as_slice()),
            created_at: now,
            updated_at: now,
        };
        assert(app_ctx(rec.app_name) == app_str@);
        let ghost before = self.store@;
        self.store.insert(rec)?;
        assert(self.store@.drop_last() =~= before);
        Ok(out)
    }

    /// Stores a new secret and returns its identifier: the checks of `create_with`
    /// first, then a fresh identifier, salt and nonce and the current time are drawn
    /// and `create_with` does the rest. A failed draw gives `Encryption` (random
    /// source) or `InvalidState` (clock before 1970) and changes nothing.
    pub fn create(
        &mut self,
        auth: &AuthService,
        app_name: Option<&str>,
        key_name: &str,
        key_value: &str,
        api_url: Option<&str>,
        description: Option<&str>,
    ) -> (r: Result<String, VaultError>)
        requires
            records_wf(old(self)@),
        ensures
            records_wf(final(self)@),
            r is Err ==> final(self)@ == old(self)@,
            !auth.unlocked() ==> (r matches Err(e) && e is Locked),
            auth.unlocked() && !create_inputs_ok(key_name, key_value) ==> (r matches Err(e) && e is InvalidInput),
            auth.unlocked() && create_inputs_ok(key_name, key_value) && key_name_taken(old(self)@, key_name@)
                ==> (r matches Err(e) && e is DuplicateKey),
            r matches Err(e) && e is KeyDerivation ==> !secret_key_derivable(
                auth.master_key()->0,
                str_ctx(app_name),
                key_name@,
            ),
            r matches Err(e) && e is Database ==> old(self)@.len() > 0,
            create_ready(*auth, old(self)@, app_name, key_name, key_value) && old(self)@.len() == 0
                ==> (r is Ok || (r matches Err(e) && (e is Encryption || e is InvalidState))),
            r matches Err(e) ==> e is Locked || e is InvalidInput || e is DuplicateKey
                || e is KeyDerivation || e is Encryption || e is Database || e is InvalidState,
            r matches Ok(id) ==> final(self)@.len() == old(self)@.len() + 1 && final(self)@.drop_last()
                == old(self)@ && final(self)@.last().id@ == id@ && created_record(
                final(self)@.last(),
                auth.master_key()->0,
                opt_str(app_name),
                key_name@,
                key_value.spec_bytes(),
                opt_str(api_url),
                opt_str(description),
            ),
    {
        require_unlocked(auth)?;
        if key_name.is_empty() || key_value.is_empty() {
            return Err(VaultError::InvalidInput(String::from_str("key name and value must not be empty")));
        }
        if self.store.position_by_key_name(key_name).is_some() {
            let app_str = match app_name {
                Some(a) => a,
                None => "",
            };
            return Err(VaultError::duplicate_key(app_str, key_name));
        }
        let material = match fresh_material() {
            Some(m) => m,
            None => {
                return Err(VaultError::Encryption(String::from_str("random source failed")));
            },
        };
        let id = match new_record_id() {
            Some(i) => i,
            None => {
                return Err(VaultError::Encryption(String::from_str("random source failed")));
            },
        };
        let now = match unix_now() {
            Some(t) => t,
            None => {
                return Err(VaultError::InvalidState(String::from_str("system clock is before 1970")));
            },
        };
        self.create_with(auth, app_name, key_name, key_value, api_url, description, id, now, &material)
    }

    /// The secret found by `(app_name, key_name)`, decrypted; an empty `app_name`
    /// also finds a secret stored without one.
    ///
    /// Fails with `Locked` while locked and `NotFound` when no secret has the
    /// pair; `KeyDerivation` or `Decryption` when the stored value cannot be read.
    pub fn get(&self, auth: &AuthService, app_name: &str, key_name: &str) -> (r: Result<
        ApiKey,
        VaultError,
    >)
        requires
            records_wf(self@),
        ensures
            !auth.unlocked() ==> (r matches Err(e) && e is Locked),
            auth.unlocked() && (forall|i: int|
                0 <= i < self@.len() ==> !has_names(#[trigger] self@[i], app_name@, key_name@))
                ==> (r matches Err(e) && e is NotFound),
            auth.unlocked() && (exists|i: int|
                0 <= i < self@.len() && has_names(#[trigger] self@[i], app_name@, key_name@)
                    && readable(auth.master_key()->0, self@[i])) ==> r is Ok,
            r matches Ok(k) ==> exists|i: int|
                0 <= i < self@.len() && has_names(#[trigger] self@[i], app_name@, key_name@)
                    && api_key_agrees(k, self@[i], auth.master_key()->0),
            r matches Err(e) ==> e is Locked || e is NotFound || e is KeyDerivation || e is Decryption,
    {
        require_unlocked(auth)?;
        let master = auth.get_vault_key()?;
        match self.store.position_by_names(app_name, key_name) {
            None => Err(VaultError::key_not_found(app_name, key_name)),
            Some(i) => {
                let rec = &self.store.records()[i];
                proof {
                    assert forall|j: int|
                        0 <= j < self@.len() && has_names(#[trigger] self@[j], app_name@, key_name@)
                            implies j == i by {
                        if j != i {
                            assert(self@[j].key_name@ == self@[i as int].key_name@);
                        }
                    }
                }
                self.decrypt_record(rec, &master)
            },
        }
    }

    /// The secret with this identifier, decrypted; the errors of `get`.
    pub fn get_by_id(&self, auth: &AuthService, id: &str) -> (r: Result<ApiKey, VaultError>)
        requires
            records_wf(self@),
        ensures
            !auth.unlocked() ==> (r matches Err(e) && e is Locked),
            auth.unlocked() && !id_taken(self@, id@) ==> (r matches Err(e) && e is NotFound),
            auth.unlocked() && (exists|i: int|
                0 <= i < self@.len() && #[trigger] self@[i].id@ == id@ && readable(
                    auth.master_key()->0,
                    self@[i],
                )) ==> r is Ok,
            r matches Ok(k) ==> exists|i: int|
                0 <= i < self@.len() && #[trigger] self@[i].id@ == id@ && api_key_agrees(
                    k,
                    self@[i],
                    auth.master_key()->0,
                ),
            r matches Err(e) ==> e is Locked || e is NotFound || e is KeyDerivation || e is Decryption,
    {
        require_unlocked(auth)?;
        let master = auth.get_vault_key()?;
        match self.store.position_by_id(id) {
            None => Err(VaultError::NotFound(String::from_str(id))),
            Some(i) => {
                proof {
                    assert forall|j: int| 0 <= j < self@.len() && #[trigger] self@[j].id@ == id@ implies j == i by {
                        if j != i {
                            assert(self@[j].id@ == self@[i as int].id@);
                        }
                    }
                }
                self.decrypt_record(&self.store.records()[i], &master)
            },
        }
    }

    /// The metadata of the records at `positions`, in that order.
    fn metadata_at(&self, positions: &Vec<usize>) -> (r: Vec<ApiKeyMetadata>)
        requires
            forall|k: int| 0 <= k < positions@.len() ==> #[trigger] positions@[k] < self@.len(),
        ensures
            r@.len() == positions@.len(),
            forall|k: int|
                0 <= k < r@.len() ==> metadata_agrees(#[trigger] r@[k], self@[positions@[k] as int]),
    {
        let records = self.store.records();
        let mut out: Vec<ApiKeyMetadata> = Vec::new();
        let mut k: usize = 0;
        while k < positions.len()
            invariant
                records@ == self@,
                forall|m: int| 0 <= m < positions@.len() ==> #[trigger] positions@[m] < self@.len(),
                k <= positions@.len(),
                out@.len() == k,
                forall|m: int|
                    0 <= m < k ==> metadata_agrees(#[trigger] out@[m], self@[positions@[m] as int]),
            decreases positions@.len() - k,
        {
            out.push(metadata_of(&records[positions[k]]));
            k = k + 1;
        }
        out
    }

    /// The metadata of every secret, ordered by app name (secrets without one
    /// first) and then key name, each compared byte by byte; nothing is decrypted.
    pub fn list(&self, auth: &AuthService) -> (r: Result<Vec<ApiKeyMetadata>, VaultError>)
        ensures
            !auth.unlocked() ==> (r matches Err(e) && e is Locked),
            auth.unlocked() ==> r is Ok,
            r matches Ok(v) ==> v@.len() == self@.len(),
            r matches Ok(v) ==> forall|k: int|
                0 <= k < v@.len() ==> #[trigger] entry_of_some(v@, k, self@),
            r matches Ok(v) ==> forall|i: int|
                0 <= i < self@.len() ==> #[trigger] listed_in(v@, self@, i),
            r matches Ok(v) ==> listing_sorted(v@),
    {
        require_unlocked(auth)?;
        let records = self.store.records();
        let mut all: Vec<usize> = Vec::new();
        let mut i: usize = 0;
        while i < records.len()
            invariant
                records@ == self@,
                i <= records@.len(),
                all@.len() == i,
                forall|m: int| 0 <= m < i ==> #[trigger] all@[m] == m,
            decreases records@.len() - i,
        {
            all.push(i);
            i = i + 1;
        }
        let ghost cands = all@;
        let sorted = sort_positions(records, all);
        let out = self.metadata_at(&sorted);
        proof {
            broadcast use vstd::seq_lib::group_to_multiset_ensures;

            assert forall|k: int| 0 <= k < out@.len() implies #[trigger] entry_of_some(out@, k, self@) by {
                assert(metadata_agrees(out@[k], self@[sorted@[k] as int]));
            }
            assert forall|i: int| 0 <= i < self@.len() implies #[trigger] listed_in(out@, self@, i) by {
                assert(cands[i] == i);
                assert(cands.contains(i as usize));
                assert(sorted@.to_multiset().count(i as usize) > 0);
                assert(sorted@.contains(i as usize));
                let k = choose|k: int| 0 <= k < sorted@.len() && sorted@[k] == i as usize;
                assert(metadata_agrees(out@[k], self@[i]));
            }
            assert forall|k: int, l: int| 0 <= k < l < out@.len() implies #[trigger] metadata_cmp(out@[k], out@[l]) <= 0 by {
                assert(record_cmp(records@[sorted@[k] as int], records@[sorted@[l] as int]) <= 0);
            }
        }
        Ok(out)
    }

    /// The metadata of the secrets whose app name, key name or description
    /// contains `query`, ignoring ASCII case, in the order of `list`; nothing is
    /// decrypted.
    pub fn search(&self, auth: &AuthService, query: &str) -> (r: Result<Vec<ApiKeyMetadata>, VaultError>)
        ensures
            !auth.unlocked() ==> (r matches Err(e) && e is Locked),
            auth.unlocked() ==> r is Ok,
            r matches Ok(v) ==> v@.len() == matching(self@, query.spec_bytes(), self@.len() as int).len(),
            r matches Ok(v) ==> forall|k: int|
                0 <= k < v@.len() ==> #[trigger] entry_of_match(v@, k, self@, query.spec_bytes()),
            r matches Ok(v) ==> forall|i: int|
                0 <= i < self@.len() && matches_query(self@[i], query.spec_bytes())
                    ==> #[trigger] listed_in(v@, self@, i),
            r matches Ok(v) ==> listing_sorted(v@),
    {
        require_unlocked(auth)?;
        let records = self.store.records();
        let mut hits: Vec<usize> = Vec::new();
        let mut i: usize = 0;
        while i < records.len()
            invariant
                records@ == self@,
                i <= records@.len(),
                hits@.len() == matching(self@, query.spec_bytes(), i as int).len(),
                forall|m: int|
                    0 <= m < hits@.len() ==> #[trigger] hits@[m] < i && matches_query(
                        self@[hits@[m] as int],
                        query.spec_bytes(),
                    ),
                forall|j: int|
                    0 <= j < i && matches_query(#[trigger] self@[j], query.spec_bytes())
                        ==> hits@.contains(j as usize),
            decreases records@.len() - i,
        {
            if record_matches(&records[i], query) {
                let ghost before = hits@;
                hits.push(i);
                proof {
                    assert forall|j: int|
                        0 <= j < i + 1 && matches_query(#[trigger] self@[j], query.spec_bytes())
                            implies hits@.contains(j as usize) by {
                        if j < i {
                            let m = choose|m: int| 0 <= m < before.len() && before[m] == j as usize;
                            assert(hits@[m] == j as usize);
                        } else {
                            assert(hits@[before.len() as int] == i);
                        }
                    }
                }
            }
            i = i + 1;
        }
        let ghost cands = hits@;
        let sorted = sort_positions(records, hits);
        let out = self.metadata_at(&sorted);
        proof {
            broadcast use vstd::seq_lib::group_to_multiset_ensures;

            assert(sorted@.len() == cands.len());
            assert forall|k: int| 0 <= k < out@.len() implies #[trigger] entry_of_match(
                out@,
                k,
                self@,
                query.spec_bytes(),
            ) by {
                let p = sorted@[k];
                assert(sorted@.contains(p));
                assert(cands.to_multiset().count(p) > 0);
                assert(cands.contains(p));
                let m = choose|m: int| 0 <= m < cands.len() && cands[m] == p;
                assert(matches_query(self@[cands[m] as int], query.spec_bytes()));
                assert(metadata_agrees(out@[k], self@[p as int]));
            }
            assert forall|i: int|
                0 <= i < self@.len() && matches_query(self@[i], query.spec_bytes())
                    implies #[trigger] listed_in(out@, self@, i) by {
                assert(cands.contains(i as usize));
                assert(sorted@.to_multiset().count(i as usize) > 0);
                assert(sorted@.contains(i as usize));
                let k = choose|k: int| 0 <= k < sorted@.len() && sorted@[k] == i as usize;
                assert(metadata_agrees(out@[k], self@[i]));
            }
            assert forall|k: int, l: int| 0 <= k < l < out@.len() implies #[trigger] metadata_cmp(out@[k], out@[l]) <= 0 by {
                assert(record_cmp(records@[sorted@[k] as int], records@[sorted@[l] as int]) <= 0);
            }
        }
        Ok(out)
    }

    /// Removes the secret with this identifier and returns its metadata.
    pub fn delete(&mut self, auth: &AuthService, id: &str) -> (r: Result<ApiKeyMetadata, VaultError>)
        requires
            records_wf(old(self)@),
        ensures
            records_wf(final(self)@),
            !auth.unlocked() ==> (r matches Err(e) && e is Locked),
            auth.unlocked() && !id_taken(old(self)@, id@) ==> (r matches Err(e) && e is NotFound),
            auth.unlocked() && id_taken(old(self)@, id@) ==> r is Ok,
            r is Err ==> final(self)@ == old(self)@,
            r matches Ok(m) ==> exists|i: int|
                0 <= i < old(self)@.len() && #[trigger] old(self)@[i].id@ == id@ && final(self)@
                    == old(self)@.remove(i) && metadata_agrees(m, old(self)@[i]),
    {
        require_unlocked(auth)?;
        match self.store.position_by_id(id) {
            None => Err(VaultError::NotFound(String::from_str(id))),
            Some(i) => {
                let rec = self.store.remove(i);
                Ok(metadata_of(&rec))
            },
        }
    }

    /// Removes the secret found by `(app_name, key_name)` and returns its metadata.
    pub fn delete_by_name(&mut self, auth: &AuthService, app_name: &str, key_name: &str) -> (r:
        Result<ApiKeyMetadata, VaultError>)
        requires
            records_wf(old(self)@),
        ensures
            records_wf(final(self)@),
            !auth.unlocked() ==> (r matches Err(e) && e is Locked),
            auth.unlocked() && (forall|i: int|
                0 <= i < old(self)@.len() ==> !has_names(#[trigger] old(self)@[i], app_name@, key_name@))
                ==> (r matches Err(e) && e is NotFound),
            auth.unlocked() && (exists|i: int|
                0 <= i < old(self)@.len() && has_names(#[trigger] old(self)@[i], app_name@, key_name@))
                ==> r is Ok,
            r is Err ==> final(self)@ == old(self)@,
            r matches Ok(m) ==> exists|i: int|
                0 <= i < old(self)@.len() && has_names(#[trigger] old(self)@[i], app_name@, key_name@)
                    && final(self)@ == old(self)@.remove(i) && metadata_agrees(m, old(self)@[i]),
    {
        require_unlocked(auth)?;
        match self.store.position_by_names(app_name, key_name) {
            None => Err(VaultError::key_not_found(app_name, key_name)),
            Some(i) => {
                let rec = self.store.remove(i);
                Ok(metadata_of(&rec))
            },
        }
    }

    /// Changes a secret at time `now`. Fields left `None` in the request keep their
    /// value.
    ///
    /// When a new value is given, or the app name or key name changes, the value
    /// (new, or the old one decrypted) is sealed again under the new context with
    /// the given salt and nonce; otherwise only the metadata changes and the sealed
    /// value stays. Fails with `Locked` while locked, `NotFound` for an unknown
    /// identifier and `DuplicateKey` when another secret holds the new key name.
    pub fn update_with(
        &mut self,
        auth: &AuthService,
        id: &str,
        request: UpdateKeyRequest,
        now: i64,
        material: &SealMaterial,
    ) -> (r: Result<(), VaultError>)
        requires
            records_wf(old(self)@),
            material_ok(*material),
        ensures
            records_wf(final(self)@),
            !auth.unlocked() ==> (r matches Err(e) && e is Locked),
            auth.unlocked() && !id_taken(old(self)@, id@) ==> (r matches Err(e) && e is NotFound),
            auth.unlocked() && (exists|i: int|
                0 <= i < old(self)@.len() && #[trigger] old(self)@[i].id@ == id@ && update_possible(
                    auth.master_key()->0,
                    old(self)@,
                    i,
                    request,
                )) ==> r is Ok,
            r is Err ==> final(self)@ == old(self)@,
            r is Ok ==> exists|i: int|
                0 <= i < old(self)@.len() && #[trigger] old(self)@[i].id@ == id@ && final(self)@
                    == old(self)@.update(i, final(self)@[i]) && update_applied(
                    auth.master_key()->0,
                    old(self)@[i],
                    final(self)@[i],
                    request,
                ),
            r matches Err(e) ==> e is Locked || e is NotFound || e is DuplicateKey
                || e is KeyDerivation || e is Decryption || e is Encryption,
    {
        require_unlocked(auth)?;
        let i = match self.store.position_by_id(id) {
            Some(i) => i,
            None => {
                return Err(VaultError::NotFound(String::from_str(id)));
            },
        };
        proof {
            assert forall|j: int| 0 <= j < self@.len() && #[trigger] self@[j].id@ == id@ implies j == i by {
                if j != i {
                    assert(self@[j].id@ == self@[i as int].id@);
                }
            }
        }
        let master = auth.get_vault_key()?;
        let ghost req = request;
        let existing = &self.store.records()[i];
        let UpdateKeyRequest { app_name, key_name, key_value, api_url, description } = request;
        let new_app = match app_name {
            Some(a) => a,
            None => clone_opt(&existing.app_name),
        };
        let new_key = match key_name {
            Some(k) => k,
            None => existing.key_name.clone(),
        };
        let new_url = match api_url {
            Some(u) => u,
            None => clone_opt(&existing.api_url),
        };
        let new_description = match description {
            Some(d) => d,
            None => clone_opt(&existing.description),
        };
        let app_changed = !opt_text_eq(&new_app, &existing.app_name);
        let key_changed = !(new_key == existing.key_name);
        let reseal = key_value.is_some() || app_changed || key_changed;
        assert(reseal == needs_reencrypt(self@[i as int], req));
        let (encrypted, key_salt) = if reseal {
            let plaintext: Vec<u8> = match &key_value {
                Some(v) => vstd::slice::slice_to_vec(v.as_str().as_bytes()),
                None => self.open_record(existing, &master)?,
            };
            let app = match &new_app {
                Some(a) => a.as_str(),
                None => "",
            };
            proof {
                reveal_strlit("");
            }
            assert(app@ == app_ctx(new_app));
            let per_key = self.crypto.derive_per_key_key(&master, app, new_key.as_str(), &material.salt)?;
            let sealed = match encrypt_with_nonce(plaintext.as_slice(), &per_key, material.nonce.as_slice()) {
                Ok(blob) => blob,
                Err(_) => {
                    return Err(VaultError::Encryption(String::from_str("value is too long")));
                },
            };
            (sealed, vstd::slice::slice_to_vec(material.salt.as_slice()))
        } else {
            let kept = EncryptedData {
                ciphertext: vstd::slice::slice_to_vec(existing.encrypted.ciphertext.as_slice()),
                nonce: vstd::slice::slice_to_vec(existing.encrypted.nonce.as_slice()),
            };
            (kept, vstd::slice::slice_to_vec(existing.key_salt.as_slice()))
        };
        let rec = SecretRecord {
            id: existing.id.clone(),
            app_name: new_app,
            key_name: new_key,
            api_url: new_url,
            description: new_description,
            encrypted,
            key_salt,
            created_at: existing.created_at,
            updated_at: now,
        };
        assert(update_applied(master@, self@[i as int], rec, req));
        self.store.replace(i, rec)?;
        Ok(())
    }

    /// Changes a secret: `Locked` and `NotFound` are checked first, then fresh
    /// sealing material and the current time are drawn and `update_with` does the
    /// rest. A failed draw gives `Encryption` or `InvalidState` and changes nothing.
    pub fn update(&mut self, auth: &AuthService, id: &str, request: UpdateKeyRequest) -> (r: Result<
        (),
        VaultError,
    >)
        requires
            records_wf(old(self)@),
        ensures
            records_wf(final(self)@),
            !auth.unlocked() ==> (r matches Err(e) && e is Locked),
            auth.unlocked() && !id_taken(old(self)@, id@) ==> (r matches Err(e) && e is NotFound),
            r is Err ==> final(self)@ == old(self)@,
            r is Ok ==> exists|i: int|
                0 <= i < old(self)@.len() && #[trigger] old(self)@[i].id@ == id@ && final(self)@
                    == old(self)@.update(i, final(self)@[i]) && update_applied(
                    auth.master_key()->0,
                    old(self)@[i],
                    final(self)@[i],
                    request,
                ),
            r matches Err(e) ==> e is Locked || e is NotFound || e is DuplicateKey
                || e is KeyDerivation || e is Decryption || e is Encryption || e is InvalidState,
    {
        require_unlocked(auth)?;
        if self.store.position_by_id(id).is_none() {
            return Err(VaultError::NotFound(String::from_str(id)));
        }
        let material = match fresh_material() {
            Some(m) => m,
            None => {
                return Err(VaultError::Encryption(String::from_str("random source failed")));
            },
        };
        let now = match unix_now() {
            Some(t) => t,
            None => {
                return Err(VaultError::InvalidState(String::from_str("system clock is before 1970")));
            },
        };
        self.update_with(auth, id, request, now, &material)
    }

    /// Seals every legacy record (one without a per-secret salt, whose value is
    /// sealed directly under the master key) again under its own key and a fresh
    /// salt, and returns how many were converted. Records with a salt are left as
    /// they are, so running it again converts nothing. Every record keeps its
    /// metadata and value, also when a failure stops the run part way.
    pub fn reencrypt_all_keys_with(
        &mut self,
        master_key: &VaultKey,
        materials: &Vec<SealMaterial>,
    ) -> (r: Result<usize, VaultError>)
        requires
            records_wf(old(self)@),
            materials@.len() == old(self)@.len(),
            forall|i: int| 0 <= i < materials@.len() ==> material_ok(#[trigger] materials@[i]),
        ensures
            records_wf(final(self)@),
            final(self)@.len() == old(self)@.len(),
            forall|i: int|
                0 <= i < old(self)@.len() ==> resealed(
                    master_key@,
                    #[trigger] old(self)@[i],
                    final(self)@[i],
                ),
            forall|i: int|
                0 <= i < old(self)@.len() && has_proper_salt(#[trigger] old(self)@[i])
                    ==> final(self)@[i] == old(self)@[i],
            r matches Ok(n) ==> n == legacy_count(old(self)@, old(self)@.len() as int),
            r is Ok ==> forall|i: int|
                0 <= i < final(self)@.len() ==> has_proper_salt(#[trigger] final(self)@[i]),
            (forall|i: int|
                0 <= i < old(self)@.len() && !has_proper_salt(#[trigger] old(self)@[i]) ==> convertible(
                    master_key@,
                    old(self)@[i],
                )) ==> r is Ok,
            (forall|i: int| 0 <= i < old(self)@.len() ==> has_proper_salt(#[trigger] old(self)@[i]))
                ==> final(self)@ == old(self)@ && r == Ok::<usize, VaultError>(0),
            r matches Err(e) ==> e is Decryption || e is KeyDerivation || e is Encryption,
    {
        let ghost before = self.store@;
        let n = self.store.len();
        let mut converted: usize = 0;
        let mut i: usize = 0;
        while i < n
            invariant
                records_wf(self.store@),
                before == old(self)@,
                self.store@.len() == n,
                before.len() == n,
                materials@.len() == n,
                forall|k: int| 0 <= k < materials@.len() ==> material_ok(#[trigger] materials@[k]),
                i <= n,
                converted <= i,
                converted == legacy_count(before, i as int),
                (forall|k: int| 0 <= k < n ==> has_proper_salt(#[trigger] before[k])) ==> converted == 0,
                forall|k: int| 0 <= k < i ==> has_proper_salt(#[trigger] self.store@[k]),
                forall|k: int| 0 <= k < n ==> resealed(master_key@, #[trigger] before[k], self.store@[k]),
                forall|k: int| i <= k < n ==> #[trigger] self.store@[k] == before[k],
                forall|k: int|
                    0 <= k < n && has_proper_salt(#[trigger] before[k]) ==> self.store@[k] == before[k],
            decreases n - i,
        {
            let rec = &self.store.records()[i];
            if !record_has_salt(rec) {
                let value = self.crypto.decrypt(&rec.encrypted, master_key)?;
                let fresh = self.reseal(rec, value.as_slice(), master_key, &materials[i])?;
                assert(resealed(master_key@, before[i as int], fresh));
                assert forall|k: int|
                    0 <= k < self.store@.len() && k != i implies #[trigger] self.store@[k].key_name@
                    != fresh.key_name@ by {
                    assert(self.store@[k].key_name@ != self.store@[i as int].key_name@);
                }
                match self.store.replace(i, fresh) {
                    Ok(()) => {},
                    Err(e) => {
                        assert(false);
                        return Err(e);
                    },
                }
                converted = converted + 1;
            }
            i = i + 1;
        }
        proof {
            if forall|k: int| 0 <= k < n ==> has_proper_salt(#[trigger] before[k]) {
                assert(self.store@ =~= before);
            }
        }
        Ok(converted)
    }

    /// The record with the same metadata whose value `value` is sealed under a
    /// fresh salt and the key that `master` derives for the record's context.
    fn reseal(&self, rec: &SecretRecord, value: &[u8], master: &VaultKey, material: &SealMaterial) -> (r: Result<
        SecretRecord,
        VaultError,
    >)
        requires
            material_ok(*material),
        ensures
            r matches Ok(n) ==> n.id == rec.id && n.app_name == rec.app_name && n.key_name
                == rec.key_name && n.api_url == rec.api_url && n.description == rec.description
                && n.created_at == rec.created_at && n.updated_at == rec.updated_at
                && has_proper_salt(n) && stored_value(master@, n) == Some(value@),
            secret_key_derivable(master@, app_ctx(rec.app_name), rec.key_name@) && value@.len()
                <= AES_GCM_P_MAX ==> r is Ok,
            r matches Err(e) ==> e is KeyDerivation || e is Encryption,
    {
        let salt = material.salt;
        let app = match &rec.app_name {
            Some(a) => a.as_str(),
            None => "",
        };
        proof {
            reveal_strlit("");
        }
        assert(app@ == app_ctx(rec.app_name));
        let per_key = self.crypto.derive_per_key_key(master, app, rec.key_name.as_str(), &salt)?;
        let sealed = match encrypt_with_nonce(value, &per_key, material.nonce.as_slice()) {
            Ok(blob) => blob,
            Err(_) => {
                return Err(VaultError::Encryption(String::from_str("value is too long")));
            },
        };
        Ok(SecretRecord {
            id: rec.id.clone(),
            app_name: clone_opt(&rec.app_name),
            key_name: rec.key_name.clone(),
            api_url: clone_opt(&rec.api_url),
            description: clone_opt(&rec.description),
            encrypted: sealed,
            key_salt: vstd::slice::slice_to_vec(salt.as_slice()),
            created_at: rec.created_at,
            updated_at: rec.updated_at,
        })
    }

    /// Moves every secret from `old_master` to `new_master`, as a PIN change
    /// requires: each value is opened with its key under the old master key and
    /// sealed under a fresh salt and its key under the new one. All or nothing:
    /// on failure no record changes. Returns how many records were moved.
    pub fn rekey_all_with(
        &mut self,
        old_master: &VaultKey,
        new_master: &VaultKey,
        materials: &Vec<SealMaterial>,
    ) -> (r: Result<usize, VaultError>)
        requires
            records_wf(old(self)@),
            materials@.len() == old(self)@.len(),
            forall|i: int| 0 <= i < materials@.len() ==> material_ok(#[trigger] materials@[i]),
        ensures
            records_wf(final(self)@),
            r is Err ==> final(self)@ == old(self)@,
            r matches Ok(n) ==> n == old(self)@.len() && final(self)@.len() == old(self)@.len(),
            r is Ok ==> forall|i: int|
                0 <= i < old(self)@.len() ==> rekeyed(
                    old_master@,
                    new_master@,
                    #[trigger] old(self)@[i],
                    final(self)@[i],
                ),
            (forall|i: int|
                0 <= i < old(self)@.len() ==> rekeyable(old_master@, new_master@, #[trigger] old(self)@[i]))
                ==> r is Ok,
            r matches Err(e) ==> e is Decryption || e is KeyDerivation || e is Encryption,
    {
        let records = self.store.records();
        let n = records.len();
        let mut moved: Vec<SecretRecord> = Vec::new();
        let mut i: usize = 0;
        while i < n
            invariant
                records@ == self@,
                self@ == old(self)@,
                records_wf(self@),
                n == records@.len(),
                materials@.len() == n,
                forall|k: int| 0 <= k < materials@.len() ==> material_ok(#[trigger] materials@[k]),
                i <= n,
                moved@.len() == i,
                forall|k: int|
                    0 <= k < i ==> rekeyed(old_master@, new_master@, #[trigger] records@[k], moved@[k]),
            decreases n - i,
        {
            let value = self.open_record(&records[i], old_master)?;
            let fresh = self.reseal(&records[i], value.as_slice(), new_master, &materials[i])?;
            moved.push(fresh);
            i = i + 1;
        }
        self.store.replace_all(moved);
        Ok(n)
    }

    /// Whether some record is a legacy one.
    fn has_legacy(&self) -> (r: bool)
        ensures
            r == exists|i: int| 0 <= i < self@.len() && !has_proper_salt(#[trigger] self@[i]),
    {
        let records = self.store.records();
        let mut i: usize = 0;
        while i < records.len()
            invariant
                records@ == self@,
                i <= records@.len(),
                forall|k: int| 0 <= k < i ==> has_proper_salt(#[trigger] self@[k]),
            decreases records@.len() - i,
        {
            if !record_has_salt(&records[i]) {
                return true;
            }
            i = i + 1;
        }
        false
    }

    /// Seals every legacy record again under its own key, as
    /// `reencrypt_all_keys_with` does, drawing the sealing material. With no legacy
    /// record nothing is drawn and nothing changes, so a second run returns `Ok(0)`.
    /// A failed draw gives `Encryption` and changes nothing.
    pub fn reencrypt_all_keys(&mut self, master_key: &VaultKey) -> (r: Result<usize, VaultError>)
        requires
            records_wf(old(self)@),
        ensures
            records_wf(final(self)@),
            final(self)@.len() == old(self)@.len(),
            forall|i: int|
                0 <= i < old(self)@.len() ==> resealed(
                    master_key@,
                    #[trigger] old(self)@[i],
                    final(self)@[i],
                ),
            forall|i: int|
                0 <= i < old(self)@.len() && has_proper_salt(#[trigger] old(self)@[i])
                    ==> final(self)@[i] == old(self)@[i],
            r matches Ok(n) ==> n == legacy_count(old(self)@, old(self)@.len() as int),
            r is Ok ==> forall|i: int|
                0 <= i < final(self)@.len() ==> has_proper_salt(#[trigger] final(self)@[i]),
            (forall|i: int| 0 <= i < old(self)@.len() ==> has_proper_salt(#[trigger] old(self)@[i]))
                ==> final(self)@ == old(self)@ && r == Ok::<usize, VaultError>(0),
            r matches Err(e) ==> e is Decryption || e is KeyDerivation || e is Encryption,
    {
        if !self.has_legacy() {
            proof {
                lemma_no_legacy(self@, self@.len() as int);
            }
            return Ok(0);
        }
        let materials = match draw_materials(self.store.len()) {
            Some(m) => m,
            None => {
                return Err(VaultError::Encryption(String::from_str("random source failed")));
            },
        };
        self.reencrypt_all_keys_with(master_key, &materials)
    }

    /// Moves every secret from `old_master` to `new_master`, as `rekey_all_with`
    /// does, drawing the sealing material. A failed draw gives `Encryption` and
    /// changes nothing.
    pub fn rekey_all(&mut self, old_master: &VaultKey, new_master: &VaultKey) -> (r: Result<
        usize,
        VaultError,
    >)
        requires
            records_wf(old(self)@),
        ensures
            records_wf(final(self)@),
            r is Err ==> final(self)@ == old(self)@,
            r matches Ok(n) ==> n == old(self)@.len() && final(self)@.len() == old(self)@.len(),
            r is Ok ==> forall|i: int|
                0 <= i < old(self)@.len() ==> rekeyed(
                    old_master@,
                    new_master@,
                    #[trigger] old(self)@[i],
                    final(self)@[i],
                ),
            r matches Err(e) ==> e is Decryption || e is KeyDerivation || e is Encryption,
    {
        let materials = match draw_materials(self.store.len()) {
            Some(m) => m,
            None => {
                return Err(VaultError::Encryption(String::from_str("random source failed")));
            },
        };
        self.rekey_all_with(old_master, new_master, &materials)
    }

    /// How many secrets are stored; nothing is decrypted.
    pub fn count(&self, auth: &AuthService) -> (r: Result<i64, VaultError>)
        ensures
            !auth.unlocked() ==> (r matches Err(e) && e is Locked),
            auth.unlocked() && self@.len() <= i64::MAX ==> r == Ok::<i64, VaultError>(self@.len() as i64),
            r is Ok ==> r == Ok::<i64, VaultError>(self@.len() as i64),
    {
        require_unlocked(auth)?;
        let n = self.store.len();
        if n as u64 > i64::MAX as u64 {
            return Err(VaultError::Database(String::from_str("too many records to count")));
        }
        Ok(n as i64)
    }
}

/// Renaming moves a secret: after an update that changes a secret's app name or
/// key name as lookups see them (and gives no new value), no secret is found under
/// the old pair, and the secret is found under the new pair with the same value.
pub proof fn lemma_rename_moves_secret(
    master: Seq<u8>,
    before: Seq<SecretRecord>,
    after: Seq<SecretRecord>,
    i: int,
    req: UpdateKeyRequest,
)
    requires
        records_wf(before),
        0 <= i < before.len(),
        after == before.update(i, after[i]),
        update_applied(master, before[i], after[i], req),
        req.key_value is None,
        app_ctx(after[i].app_name) != app_ctx(before[i].app_name) || after[i].key_name@
            != before[i].key_name@,
    ensures
        forall|j: int|
            0 <= j < after.len() ==> !has_names(
                #[trigger] after[j],
                app_ctx(before[i].app_name),
                before[i].key_name@,
            ),
        has_names(after[i], app_ctx(after[i].app_name), after[i].key_name@),
        stored_value(master, after[i]) == stored_value(master, before[i]),
{
    assert(needs_reencrypt(before[i], req)) by {
        if opt_text(after[i].app_name) == opt_text(before[i].app_name) {
            assert(app_ctx(after[i].app_name) == app_ctx(before[i].app_name));
        }
    }
    assert forall|j: int| 0 <= j < after.len() implies !has_names(
        #[trigger] after[j],
        app_ctx(before[i].app_name),
        before[i].key_name@,
    ) by {
        if j != i && has_names(after[j], app_ctx(before[i].app_name), before[i].key_name@) {
            assert(after[j] == before[j]);
            assert(before[j].key_name@ == before[i].key_name@);
        }
    }
}

/// The reply of a command-style adapter: the data on success, a message on failure.
#[derive(Debug)]
pub struct CommandResponse<T> {
    pub success: bool,
    pub data: Option<T>,
    pub error: Option<String>,
}

impl<T> CommandResponse<T> {
    /// A successful reply carrying `data`.
    pub fn success(data: T) -> (r: CommandResponse<T>)
        ensures
            r.success,
            r.data == Some(data),
            r.error is None,
    {
        CommandResponse { success: true, data: Some(data), error: None }
    }

    /// A failed reply carrying `message`.
    pub fn error(message: String) -> (r: CommandResponse<T>)
        ensures
            !r.success,
            r.data is None,
            r.error == Some(message),
    {
        CommandResponse { success: false, data: None, error: Some(message) }
    }
}

/// Whether the vault is initialized and whether it is unlocked.
#[derive(Debug, Clone, Copy, PartialEq, Eq, Structural)]
pub struct AuthState {
    pub is_initialized: bool,
    pub is_unlocked: bool,
}

/// The fields of a new secret, as the storage layer takes them.
#[derive(Debug, Clone)]
pub struct CreateApiKey {
    pub app_name: Option<String>,
    pub key_name: String,
    pub api_url: Option<String>,
    pub description: Option<String>,
    pub key_value: String,
}

/// Changes to the secret `id`, as the storage layer takes them: `None` keeps a
/// field; an app name, once given, is set.
#[derive(Debug, Clone)]
pub struct UpdateApiKey {
    pub id: String,
    pub app_name: Option<String>,
    pub key_name: Option<String>,
    pub api_url: Option<Option<String>>,
    pub description: Option<Option<String>>,
    pub key_value: Option<String>,
}

impl UpdateApiKey {
    /// The secret's identifier and the registry request for this change; an app
    /// name, when given, is set.
    pub fn into_request(self) -> (r: (String, UpdateKeyRequest))
        ensures
            r.0 == self.id,
            r.1.app_name == match self.app_name {
                Some(a) => Some(Some(a)),
                None => None::<Option<String>>,
            },
            r.1.key_name == self.key_name,
            r.1.key_value == self.key_value,
            r.1.api_url == self.api_url,
            r.1.description == self.description,
    {
        let app_name = match self.app_name {
            Some(a) => Some(Some(a)),
            None => None,
        };
        (
            self.id,
            UpdateKeyRequest {
                app_name,
                key_name: self.key_name,
                key_value: self.key_value,
                api_url: self.api_url,
                description: self.description,
            },
        )
    }
}

} // verus!
