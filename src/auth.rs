//! The authentication session: vault initialization, lock and unlock, PIN
//! changes, failed-attempt rate limiting and inactivity tracking.
//!
//! States: uninitialized (no vault configuration), locked, unlocked. The master
//! key is held exactly while the session is unlocked and is wiped on lock.
//! The configuration holds the vault salt and a verifier: the empty text sealed
//! under the master key, so that only the right PIN's key opens it (a full
//! 128-bit AES-GCM tag check in constant time, not a partial comparison).

use vstd::prelude::*;
use vstd::arithmetic::power2::{pow2, lemma2_to64};
use vstd::string::StringSliceAdditionalSpecFns;
use vstd::string::StringExecFns;

use crate::crypto::{
    decrypt, derive_key_from_pin, encrypt_with_nonce, fresh_material, master_key_of,
    material_ok, pin_derivable, decryption_of, EncryptedData, SealMaterial, VaultKey,
};
use crate::error::VaultError;
use crate::pin::{pin_check, PinValidationError, MAX_PIN_LENGTH, MIN_PIN_LENGTH};
use crate::system::unix_now;

verus! {

/// Failed unlocks after which every unlock is refused.
pub const MAX_FAILED_ATTEMPTS: u32 = 10;

/// Largest exponent of the unlock backoff (2^5 = 32 seconds).
pub const MAX_BACKOFF_EXPONENT: u32 = 5;

/// Errors of the compact authentication interface of [`validate_pin`].
#[derive(Debug, Clone)]
pub enum AuthError {
    Database(String),
    Crypto(String),
    InvalidPin,
    PinTooShort,
    NotInitialized,
    AlreadyInitialized,
    TooManyAttempts,
}

/// Checks a PIN with the rules of [`crate::pin::validate_pin`], reporting a short
/// PIN as `PinTooShort` and any other refusal as `InvalidPin`.
pub fn validate_pin(pin: &str) -> (r: Result<(), AuthError>)
    ensures
        r is Ok <==> pin_check(pin.spec_bytes()) is Ok,
        r matches Err(e) ==> (e is PinTooShort <==> pin_check(pin.spec_bytes())
            == Err::<(), PinValidationError>(PinValidationError::TooShort)),
        r matches Err(e) ==> (e is PinTooShort || e is InvalidPin),
{
    match crate::pin::validate_pin(pin) {
        Ok(()) => Ok(()),
        Err(PinValidationError::TooShort) => Err(AuthError::PinTooShort),
        Err(_) => Err(AuthError::InvalidPin),
    }
}

/// A snapshot of the session: whether it is unlocked and how many seconds have
/// passed since the last activity.
#[derive(Debug, Clone, Copy, PartialEq, Eq, Structural)]
pub struct SessionState {
    pub is_unlocked: bool,
    pub last_activity_secs: i64,
}

impl SessionState {
    /// A snapshot with these values.
    pub fn new(is_unlocked: bool, last_activity_secs: i64) -> (r: SessionState)
        ensures
            r.is_unlocked == is_unlocked,
            r.last_activity_secs == last_activity_secs,
    {
        SessionState { is_unlocked, last_activity_secs }
    }
}

/// The persisted vault configuration: the vault salt, the verifier sealed under
/// the master key, and the creation time (seconds since the Unix epoch).
#[derive(Debug, Clone)]
pub struct VaultConfig {
    pub salt: [u8; 32],
    pub verifier: EncryptedData,
    pub created_at: i64,
}

/// The PIN opens the configuration's verifier: it derives the vault's master key.
pub open spec fn pin_matches(config: VaultConfig, pin: Seq<u8>) -> bool {
    &&& pin_derivable(pin)
    &&& decryption_of(master_key_of(pin, config.salt@), config.verifier) is Some
}

/// Seconds to wait before an unlock after `attempts` failures: none after no
/// failure, else `2^min(attempts, 5)`.
pub open spec fn backoff_secs(attempts: u32) -> int {
    if attempts == 0 {
        0
    } else if attempts < MAX_BACKOFF_EXPONENT {
        pow2(attempts as nat) as int
    } else {
        pow2(MAX_BACKOFF_EXPONENT as nat) as int
    }
}

/// The unlock backoff never shrinks as failures accumulate, and is at most 32 seconds.
pub proof fn lemma_backoff_monotone(a: u32, b: u32)
    requires
        a <= b,
    ensures
        backoff_secs(a) <= backoff_secs(b),
        backoff_secs(b) <= 32,
        b > 0 ==> backoff_secs(b) >= 2,
{
    lemma2_to64();
}

/// The vault error for a refused PIN.
pub open spec fn pin_refusal(e: PinValidationError, r: VaultError) -> bool {
    match e {
        PinValidationError::TooShort => r is PinTooShort,
        PinValidationError::TooLong => r is PinTooLong,
        PinValidationError::InvalidCharacters => r is InvalidInput,
    }
}

/// A PIN accepted by the PIN rules.
pub open spec fn pin_valid(pin: Seq<u8>) -> bool {
    pin_check(pin) is Ok
}

/// Checks a new PIN, mapping a refusal to the vault error that reports it.
fn check_new_pin(pin: &str) -> (r: Result<(), VaultError>)
    ensures
        r is Ok <==> pin_valid(pin.spec_bytes()),
        r matches Err(e) ==> pin_check(pin.spec_bytes()) matches Err(pe) && pin_refusal(pe, e),
{
    match crate::pin::validate_pin(pin) {
        Ok(()) => Ok(()),
        Err(PinValidationError::TooShort) => Err(VaultError::PinTooShort),
        Err(PinValidationError::TooLong) => Err(VaultError::PinTooLong),
        Err(PinValidationError::InvalidCharacters) => Err(
            VaultError::InvalidInput(String::from_str("PIN contains invalid characters")),
        ),
    }
}

/// A PIN of 6 to 64 bytes, the only rule for a new PIN in a PIN change.
pub open spec fn pin_length_ok(pin: Seq<u8>) -> bool {
    MIN_PIN_LENGTH <= pin.len() <= MAX_PIN_LENGTH
}

/// The vault error for a PIN of the wrong length.
pub open spec fn pin_length_refusal(pin: Seq<u8>, e: VaultError) -> bool {
    if pin.len() < MIN_PIN_LENGTH {
        e is PinTooShort
    } else {
        e is PinTooLong
    }
}

/// Checks only the length of a new PIN.
fn check_new_pin_length(pin: &str) -> (r: Result<(), VaultError>)
    ensures
        r is Ok <==> pin_length_ok(pin.spec_bytes()),
        r matches Err(e) ==> pin_length_refusal(pin.spec_bytes(), e),
{
    let n = pin.as_bytes().len();
    if n < MIN_PIN_LENGTH {
        Err(VaultError::PinTooShort)
    } else if n > MAX_PIN_LENGTH {
        Err(VaultError::PinTooLong)
    } else {
        Ok(())
    }
}

/// The master key that `pin` derives with the material's salt, and a verifier for
/// that key sealed under the material's nonce.
fn new_credentials(pin: &str, material: &SealMaterial) -> (r: ([u8; 32], VaultKey, EncryptedData))
    requires
        pin_length_ok(pin.spec_bytes()),
        material_ok(*material),
    ensures
        r.0 == material.salt,
        r.1@ == master_key_of(pin.spec_bytes(), r.0@),
        decryption_of(r.1@, r.2) is Some,
{
    let salt = material.salt;
    let derived = derive_key_from_pin(pin, &salt);
    let key = match derived {
        Ok(k) => k,
        Err(_) => {
            assert(false);
            VaultKey::from_bytes(salt)
        },
    };
    let empty: Vec<u8> = Vec::new();
    let sealed = encrypt_with_nonce(empty.as_slice(), &key, material.nonce.as_slice());
    let verifier = match sealed {
        Ok(v) => v,
        Err(_) => {
            assert(false);
            EncryptedData { ciphertext: Vec::new(), nonce: Vec::new() }
        },
    };
    (salt, key, verifier)
}

/// The authentication session.
pub struct AuthService {
    config: Option<VaultConfig>,
    vault_key: Option<VaultKey>,
    failed_attempts: u32,
    idle_secs: u64,
}

/// `unlock(pin)` succeeds from state `pre`.
pub open spec fn unlock_succeeds(pre: AuthService, pin: Seq<u8>) -> bool {
    &&& pre.attempts() < MAX_FAILED_ATTEMPTS
    &&& pre.stored_config() matches Some(c) && pin_matches(c, pin)
}

/// What `unlock(pin)` does, from state `pre` to state `post` with result `r`.
pub open spec fn unlock_post(
    pre: AuthService,
    post: AuthService,
    pin: Seq<u8>,
    r: Result<(), VaultError>,
) -> bool {
    if pre.attempts() >= MAX_FAILED_ATTEMPTS {
        (r matches Err(e) && e is TooManyAttempts) && post == pre
    } else {
        match pre.stored_config() {
            None => (r matches Err(e) && e is NotInitialized) && post == pre,
            Some(c) => if pin_matches(c, pin) {
                &&& r is Ok
                &&& post.stored_config() == pre.stored_config()
                &&& post.master_key() == Some(master_key_of(pin, c.salt@))
                &&& post.attempts() == 0
                &&& post.idle() == 0
            } else {
                &&& r matches Err(e) && e is InvalidPin
                &&& post.stored_config() == pre.stored_config()
                &&& post.master_key() == pre.master_key()
                &&& post.attempts() == pre.attempts() + 1
                &&& post.idle() == pre.idle()
            },
        }
    }
}

impl AuthService {
    /// The vault configuration, `None` while the vault is uninitialized.
    pub closed spec fn stored_config(&self) -> Option<VaultConfig> {
        self.config
    }

    /// The master key held by the session, `None` while locked.
    pub closed spec fn master_key(&self) -> Option<Seq<u8>> {
        match self.vault_key {
            Some(k) => Some(k@),
            None => None,
        }
    }

    /// Failed unlocks since the last successful one.
    pub closed spec fn attempts(&self) -> u32 {
        self.failed_attempts
    }

    /// Seconds since the last activity.
    pub closed spec fn idle(&self) -> u64 {
        self.idle_secs
    }

    /// The session holds the master key.
    pub open spec fn unlocked(&self) -> bool {
        self.master_key() is Some
    }

    /// A locked session over a stored configuration (`None`: uninitialized vault).
    pub fn new(config: Option<VaultConfig>) -> (r: AuthService)
        ensures
            r.stored_config() == config,
            r.master_key() is None,
            r.attempts() == 0,
            r.idle() == 0,
    {
        AuthService { config, vault_key: None, failed_attempts: 0, idle_secs: 0 }
    }

    /// The vault configuration, for persisting.
    pub fn config(&self) -> (r: &Option<VaultConfig>)
        ensures
            *r == self.stored_config(),
    {
        &self.config
    }

    /// Whether the vault has been initialized.
    pub fn is_initialized(&self) -> (r: bool)
        ensures
            r == self.stored_config() is Some,
    {
        self.config.is_some()
    }

    /// Initializes the vault with a PIN and unlocks it, with the given salt and
    /// verifier nonce and creation time.
    ///
    /// Fails with `AlreadyInitialized` when a configuration exists, and otherwise
    /// with `PinTooShort`, `PinTooLong` or `InvalidInput` exactly when the PIN breaks
    /// the PIN rules; then nothing changes. On success the new configuration's
    /// verifier opens under this PIN, and the session holds its master key.
    pub fn init_vault_with(&mut self, pin: &str, material: SealMaterial, now: i64) -> (r: Result<
        (),
        VaultError,
    >)
        requires
            material_ok(material),
        ensures
            old(self).stored_config() is Some ==> (r matches Err(e) && e is AlreadyInitialized),
            old(self).stored_config() is None ==> (r is Ok <==> pin_valid(pin.spec_bytes())),
            old(self).stored_config() is None ==> (r matches Err(e) ==> pin_check(
                pin.spec_bytes(),
            ) matches Err(pe) && pin_refusal(pe, e)),
            r is Err ==> *final(self) == *old(self),
            r is Ok ==> (final(self).stored_config() matches Some(c) && c.salt == material.salt
                && c.created_at == now && pin_matches(c, pin.spec_bytes())
                && final(self).master_key() == Some(master_key_of(pin.spec_bytes(), c.salt@))),
            r is Ok ==> final(self).attempts() == old(self).attempts() && final(self).idle() == 0,
    {
        if self.config.is_some() {
            return Err(VaultError::AlreadyInitialized);
        }
        check_new_pin(pin)?;
        let (salt, key, verifier) = new_credentials(pin, &material);
        self.config = Some(VaultConfig { salt, verifier, created_at: now });
        self.vault_key = Some(key);
        self.idle_secs = 0;
        Ok(())
    }

    /// Initializes the vault with a PIN and unlocks it, drawing a fresh salt and
    /// nonce and reading the clock; then as `init_vault_with`.
    ///
    /// `AlreadyInitialized` and the PIN errors come exactly as there; `Encryption`
    /// when the random source fails and `InvalidState` when the clock is before 1970.
    pub fn init_vault(&mut self, pin: &str) -> (r: Result<(), VaultError>)
        ensures
            old(self).stored_config() is Some ==> (r matches Err(e) && e is AlreadyInitialized),
            old(self).stored_config() is None && !pin_valid(pin.spec_bytes()) ==> (r matches Err(e)
                && pin_check(pin.spec_bytes()) matches Err(pe) && pin_refusal(pe, e)),
            old(self).stored_config() is None && pin_valid(pin.spec_bytes()) ==> (r is Ok || (r matches Err(e)
                && (e is Encryption || e is InvalidState))),
            r is Err ==> *final(self) == *old(self),
            r is Ok ==> (final(self).stored_config() matches Some(c) && pin_matches(
                c,
                pin.spec_bytes(),
            ) && final(self).master_key() == Some(master_key_of(pin.spec_bytes(), c.salt@))),
            r is Ok ==> final(self).attempts() == old(self).attempts() && final(self).idle() == 0,
    {
        if self.config.is_some() {
            return Err(VaultError::AlreadyInitialized);
        }
        check_new_pin(pin)?;
        let material = match fresh_material() {
            Some(m) => m,
            None => {
                return Err(VaultError::Encryption(String::from_str("random source failed")));
            },
        };
        let now = match unix_now() {
            Some(t) => t,
            None => {
                return Err(VaultError::InvalidState(String::from_str("system clock is before 1970")));
            },
        };
        self.init_vault_with(pin, material, now)
    }

    /// Seconds that the caller waits before attempting an unlock: `2^min(n, 5)`
    /// after `n > 0` failed attempts, none otherwise.
    pub fn unlock_delay_secs(&self) -> (r: u64)
        ensures
            r == backoff_secs(self.attempts()),
    {
        proof {
            lemma2_to64();
        }
        let n = self.failed_attempts;
        if n == 0 {
            0
        } else if n == 1 {
            2
        } else if n == 2 {
            4
        } else if n == 3 {
            8
        } else if n == 4 {
            16
        } else {
            32
        }
    }

    /// Unlocks the vault with a PIN (after the caller has waited `unlock_delay_secs`).
    ///
    /// Fails with `TooManyAttempts` after 10 failures, with `NotInitialized` when
    /// there is no configuration, and with `InvalidPin`, counting the failure, when
    /// the PIN does not open the verifier. On success the failure count is reset
    /// and the session holds the master key.
    pub fn unlock(&mut self, pin: &str) -> (r: Result<(), VaultError>)
        ensures
            unlock_post(*old(self), *final(self), pin.spec_bytes(), r),
    {
        if self.failed_attempts >= MAX_FAILED_ATTEMPTS {
            return Err(VaultError::TooManyAttempts);
        }
        let opened = match &self.config {
            None => {
                return Err(VaultError::NotInitialized);
            },
            Some(config) => match derive_key_from_pin(pin, &config.salt) {
                Ok(key) => match decrypt(&config.verifier, &key) {
                    Ok(_) => Some(key),
                    Err(_) => None,
                },
                Err(_) => None,
            },
        };
        match opened {
            Some(key) => {
                self.failed_attempts = 0;
                self.vault_key = Some(key);
                self.idle_secs = 0;
                Ok(())
            },
            None => {
                self.failed_attempts = self.failed_attempts + 1;
                Err(VaultError::InvalidPin)
            },
        }
    }

    /// Locks the vault: the master key is overwritten with zeros and dropped, and
    /// the inactivity counter is reset.
    pub fn lock(&mut self)
        ensures
            final(self).master_key() is None,
            final(self).stored_config() == old(self).stored_config(),
            final(self).attempts() == old(self).attempts(),
            final(self).idle() == 0,
    {
        let held = self.vault_key.take();
        if let Some(mut key) = held {
            key.wipe();
        }
        self.idle_secs = 0;
    }

    /// Whether the session holds the master key.
    pub fn is_unlocked(&self) -> (r: bool)
        ensures
            r == self.unlocked(),
    {
        self.vault_key.is_some()
    }

    /// A copy of the master key for one operation; `Locked` while locked.
    pub fn get_vault_key(&self) -> (r: Result<VaultKey, VaultError>)
        ensures
            self.master_key() is None ==> (r matches Err(e) && e is Locked),
            self.master_key() matches Some(k) ==> (r matches Ok(key) && key@ == k),
    {
        match &self.vault_key {
            Some(key) => Ok(key.duplicate()),
            None => Err(VaultError::Locked),
        }
    }

    /// Changes the PIN with the given salt and verifier nonce: checks the new PIN's
    /// length (6 to 64 bytes), unlocks with the old one (the same path, failure
    /// counting and errors as `unlock`), then stores the salt and a verifier for the
    /// new PIN and holds the new master key. Secrets are not re-encrypted here.
    pub fn change_pin_with(&mut self, old_pin: &str, new_pin: &str, material: SealMaterial) -> (r:
        Result<(), VaultError>)
        requires
            material_ok(material),
        ensures
            !pin_length_ok(new_pin.spec_bytes()) ==> *final(self) == *old(self),
            !pin_length_ok(new_pin.spec_bytes()) ==> (r matches Err(e) && pin_length_refusal(
                new_pin.spec_bytes(),
                e,
            )),
            pin_length_ok(new_pin.spec_bytes()) && r is Err ==> unlock_post(
                *old(self),
                *final(self),
                old_pin.spec_bytes(),
                r,
            ),
            pin_length_ok(new_pin.spec_bytes()) ==> (r is Ok <==> unlock_succeeds(
                *old(self),
                old_pin.spec_bytes(),
            )),
            r is Ok ==> (old(self).stored_config() matches Some(c0) && final(self).stored_config()
                matches Some(c) && c.created_at == c0.created_at && c.salt == material.salt
                && pin_matches(c, new_pin.spec_bytes()) && final(self).master_key() == Some(
                master_key_of(new_pin.spec_bytes(), c.salt@),
            ) && final(self).attempts() == 0),
    {
        check_new_pin_length(new_pin)?;
        self.unlock(old_pin)?;
        let (salt, key, verifier) = new_credentials(new_pin, &material);
        let created_at = match &self.config {
            Some(c) => c.created_at,
            None => 0,
        };
        self.config = Some(VaultConfig { salt, verifier, created_at });
        self.vault_key = Some(key);
        Ok(())
    }

    /// Changes the PIN, drawing a fresh salt and nonce; then as `change_pin_with`.
    /// `Encryption`, with nothing changed, when the random source fails.
    pub fn change_pin(&mut self, old_pin: &str, new_pin: &str) -> (r: Result<(), VaultError>)
        ensures
            !pin_length_ok(new_pin.spec_bytes()) ==> *final(self) == *old(self),
            !pin_length_ok(new_pin.spec_bytes()) ==> (r matches Err(e) && pin_length_refusal(
                new_pin.spec_bytes(),
                e,
            )),
            pin_length_ok(new_pin.spec_bytes()) && r is Err ==> unlock_post(
                *old(self),
                *final(self),
                old_pin.spec_bytes(),
                r,
            ) || (r->Err_0 is Encryption && *final(self) == *old(self)),
            pin_length_ok(new_pin.spec_bytes()) && r is Ok ==> unlock_succeeds(
                *old(self),
                old_pin.spec_bytes(),
            ),
            r is Ok ==> (old(self).stored_config() matches Some(c0) && final(self).stored_config()
                matches Some(c) && c.created_at == c0.created_at && pin_matches(
                c,
                new_pin.spec_bytes(),
            ) && final(self).master_key() == Some(master_key_of(new_pin.spec_bytes(), c.salt@))
                && final(self).attempts() == 0),
    {
        check_new_pin_length(new_pin)?;
        let material = match fresh_material() {
            Some(m) => m,
            None => {
                return Err(VaultError::Encryption(String::from_str("random source failed")));
            },
        };
        self.change_pin_with(old_pin, new_pin, material)
    }

    /// Sets the failure count back to zero.
    pub fn reset_failed_attempts(&mut self)
        ensures
            final(self).attempts() == 0,
            final(self).stored_config() == old(self).stored_config(),
            final(self).master_key() == old(self).master_key(),
            final(self).idle() == old(self).idle(),
    {
        self.failed_attempts = 0;
    }

    /// Failed unlocks since the last successful one.
    pub fn get_failed_attempts(&self) -> (r: u32)
        ensures
            r == self.attempts(),
    {
        self.failed_attempts
    }

    /// Records user activity: the inactivity counter restarts at zero.
    pub fn update_activity(&mut self)
        ensures
            final(self).idle() == 0,
            final(self).stored_config() == old(self).stored_config(),
            final(self).master_key() == old(self).master_key(),
            final(self).attempts() == old(self).attempts(),
    {
        self.idle_secs = 0;
    }

    /// One second has passed: the inactivity counter grows while unlocked.
    pub fn tick(&mut self)
        ensures
            final(self).idle() == if old(self).unlocked() && old(self).idle() < u64::MAX {
                old(self).idle() + 1
            } else {
                old(self).idle() as int
            },
            final(self).stored_config() == old(self).stored_config(),
            final(self).master_key() == old(self).master_key(),
            final(self).attempts() == old(self).attempts(),
    {
        if self.vault_key.is_some() && self.idle_secs < u64::MAX {
            self.idle_secs = self.idle_secs + 1;
        }
    }

    /// Seconds since the last activity.
    pub fn seconds_since_activity(&self) -> (r: u64)
        ensures
            r == self.idle(),
    {
        self.idle_secs
    }

    /// Whether the session should lock itself: it is unlocked and `elapsed_secs`
    /// of inactivity have reached `timeout_secs`.
    pub fn should_auto_lock(&self, elapsed_secs: u64, timeout_secs: u64) -> (r: bool)
        ensures
            r == (self.unlocked() && elapsed_secs >= timeout_secs),
    {
        self.vault_key.is_some() && elapsed_secs >= timeout_secs
    }

    /// A snapshot of the session (the inactivity counter capped at `i64::MAX`).
    pub fn get_session_state(&self) -> (r: SessionState)
        ensures
            r.is_unlocked == self.unlocked(),
            r.last_activity_secs == if self.idle() <= i64::MAX {
                self.idle() as int
            } else {
                i64::MAX as int
            },
    {
        let secs: i64 = if self.idle_secs <= i64::MAX as u64 {
            self.idle_secs as i64
        } else {
            i64::MAX
        };
        SessionState { is_unlocked: self.vault_key.is_some(), last_activity_secs: secs }
    }
}

} // verus!
