//! The library's error taxonomy, with the exit code and hint that adapters show.

use vstd::prelude::*;
use vstd::string::StringExecFns;

verus! {

/// Every way a vault operation can fail.
#[derive(Debug, Clone)]
pub enum VaultError {
    InvalidPin,
    PinTooShort,
    PinTooLong,
    TooManyAttempts,
    NotInitialized,
    AlreadyInitialized,
    Locked,
    KeyDerivation(String),
    Encryption(String),
    Decryption(String),
    InvalidKeyLength,
    InvalidNonceLength,
    Database(String),
    NotFound(String),
    DuplicateKey { app_name: String, key_name: String },
    IncompatibleVersion { db_version: i64, app_version: i64 },
    MigrationFailed(String),
    BackupFailed(String),
    InvalidInput(String),
    MissingField(String),
    InvalidState(String),
    Clipboard(String),
    Io(String),
}

/// Authentication and vault-state errors.
pub open spec fn is_auth_kind(e: VaultError) -> bool {
    ||| e is InvalidPin
    ||| e is PinTooShort
    ||| e is PinTooLong
    ||| e is TooManyAttempts
    ||| e is NotInitialized
    ||| e is AlreadyInitialized
    ||| e is Locked
}

/// The exit code of each error: 1 authentication, 2 not found, 3 (not) initialized,
/// 4 conflict, 5 invalid input, 6 cryptography, 7 database, 8 I/O, 9 state, 10 clipboard.
pub open spec fn exit_code_of(e: VaultError) -> i32 {
    match e {
        VaultError::InvalidPin | VaultError::PinTooShort | VaultError::PinTooLong
        | VaultError::TooManyAttempts | VaultError::Locked => 1,
        VaultError::NotFound(_) => 2,
        VaultError::NotInitialized | VaultError::AlreadyInitialized => 3,
        VaultError::DuplicateKey { .. } => 4,
        VaultError::InvalidInput(_) | VaultError::MissingField(_) => 5,
        VaultError::KeyDerivation(_) | VaultError::Encryption(_) | VaultError::Decryption(_)
        | VaultError::InvalidKeyLength | VaultError::InvalidNonceLength => 6,
        VaultError::Database(_) | VaultError::IncompatibleVersion { .. }
        | VaultError::MigrationFailed(_) | VaultError::BackupFailed(_) => 7,
        VaultError::Io(_) => 8,
        VaultError::InvalidState(_) => 9,
        VaultError::Clipboard(_) => 10,
    }
}

/// The hint shown with an error, where there is one.
pub open spec fn suggestion_of(e: VaultError) -> Option<Seq<char>> {
    match e {
        VaultError::InvalidPin => Some("Check your PIN and try again."@),
        VaultError::PinTooShort => Some("PIN must be at least 6 characters."@),
        VaultError::TooManyAttempts => Some("Wait a moment before trying again."@),
        VaultError::NotInitialized => Some("Run 'vult init' to set up your vault."@),
        VaultError::AlreadyInitialized => Some("Your vault is already set up."@),
        VaultError::Locked => Some("Unlock your vault first with your PIN."@),
        VaultError::NotFound(_) => Some("Check the app and key name."@),
        VaultError::DuplicateKey { .. } => Some("Use 'vult update' to modify an existing key."@),
        _ => None,
    }
}

/// The message of an error; `None` for `IncompatibleVersion`, whose numbers are
/// written by std's integer formatting.
pub open spec fn message_of(e: VaultError) -> Option<Seq<char>> {
    match e {
        VaultError::InvalidPin => Some("Invalid PIN"@),
        VaultError::PinTooShort => Some("PIN too short (minimum 6 characters required)"@),
        VaultError::PinTooLong => Some("PIN too long (maximum 64 characters allowed)"@),
        VaultError::TooManyAttempts => Some(
            "Too many failed attempts. Please wait before trying again."@,
        ),
        VaultError::NotInitialized => Some("Vault not initialized. Run 'init' first."@),
        VaultError::AlreadyInitialized => Some("Vault already initialized"@),
        VaultError::Locked => Some("Vault is locked. Unlock with your PIN first."@),
        VaultError::KeyDerivation(s) => Some("Key derivation failed: "@ + s@),
        VaultError::Encryption(s) => Some("Encryption failed: "@ + s@),
        VaultError::Decryption(s) => Some("Decryption failed: "@ + s@),
        VaultError::InvalidKeyLength => Some("Invalid key length"@),
        VaultError::InvalidNonceLength => Some("Invalid nonce length"@),
        VaultError::Database(s) => Some("Database error: "@ + s@),
        VaultError::NotFound(s) => Some("Key not found: "@ + s@),
        VaultError::DuplicateKey { app_name, key_name } => Some(
            "Duplicate key: "@ + app_name@ + "/"@ + key_name@ + " already exists"@,
        ),
        VaultError::IncompatibleVersion { .. } => None,
        VaultError::MigrationFailed(s) => Some("Migration failed: "@ + s@),
        VaultError::BackupFailed(s) => Some("Backup failed: "@ + s@),
        VaultError::InvalidInput(s) => Some("Invalid input: "@ + s@),
        VaultError::MissingField(s) => Some("Missing required field: "@ + s@),
        VaultError::InvalidState(s) => Some("Invalid state: "@ + s@),
        VaultError::Clipboard(s) => Some("Clipboard error: "@ + s@),
        VaultError::Io(s) => Some("I/O error: "@ + s@),
    }
}

/// `prefix` followed by `rest`.
fn prefixed(prefix: &str, rest: &String) -> (r: String)
    ensures
        r@ == prefix@ + rest@,
{
    let mut m = String::from_str(prefix);
    m.append(rest.as_str());
    m
}

impl VaultError {
    /// A database error with this message.
    pub fn database_context(msg: &str) -> (r: VaultError)
        ensures
            r matches VaultError::Database(m) && m@ == msg@,
    {
        VaultError::Database(String::from_str(msg))
    }

    /// A not-found error naming `app_name/key_name`.
    pub fn key_not_found(app_name: &str, key_name: &str) -> (r: VaultError)
        ensures
            r matches VaultError::NotFound(m) && m@ == app_name@ + "/"@ + key_name@,
    {
        let mut m = String::from_str(app_name);
        m.append("/");
        m.append(key_name);
        VaultError::NotFound(m)
    }

    /// A duplicate-key error for `app_name/key_name`.
    pub fn duplicate_key(app_name: &str, key_name: &str) -> (r: VaultError)
        ensures
            r matches VaultError::DuplicateKey { app_name: a, key_name: k } && a@ == app_name@
                && k@ == key_name@,
    {
        VaultError::DuplicateKey {
            app_name: String::from_str(app_name),
            key_name: String::from_str(key_name),
        }
    }

    /// Whether this is an authentication or vault-state error.
    pub fn is_auth_error(&self) -> (r: bool)
        ensures
            r == is_auth_kind(*self),
    {
        match self {
            VaultError::InvalidPin | VaultError::PinTooShort | VaultError::PinTooLong
            | VaultError::TooManyAttempts | VaultError::NotInitialized
            | VaultError::AlreadyInitialized | VaultError::Locked => true,
            _ => false,
        }
    }

    /// Whether this is a not-found error.
    pub fn is_not_found(&self) -> (r: bool)
        ensures
            r == (*self is NotFound),
    {
        match self {
            VaultError::NotFound(_) => true,
            _ => false,
        }
    }

    /// The process exit code that command-line adapters use for this error.
    pub fn exit_code(&self) -> (r: i32)
        ensures
            r == exit_code_of(*self),
    {
        match self {
            VaultError::InvalidPin | VaultError::PinTooShort | VaultError::PinTooLong
            | VaultError::TooManyAttempts | VaultError::Locked => 1,
            VaultError::NotFound(_) => 2,
            VaultError::NotInitialized | VaultError::AlreadyInitialized => 3,
            VaultError::DuplicateKey { .. } => 4,
            VaultError::InvalidInput(_) | VaultError::MissingField(_) => 5,
            VaultError::KeyDerivation(_) | VaultError::Encryption(_)
            | VaultError::Decryption(_) | VaultError::InvalidKeyLength
            | VaultError::InvalidNonceLength => 6,
            VaultError::Database(_) | VaultError::IncompatibleVersion { .. }
            | VaultError::MigrationFailed(_) | VaultError::BackupFailed(_) => 7,
            VaultError::Io(_) => 8,
            VaultError::InvalidState(_) => 9,
            VaultError::Clipboard(_) => 10,
        }
    }

    /// A hint for fixing the error, where there is one.
    pub fn suggestion(&self) -> (r: Option<&'static str>)
        ensures
            r is Some == suggestion_of(*self) is Some,
            r is Some ==> suggestion_of(*self) == Some(r->0@),
    {
        match self {
            VaultError::InvalidPin => Some("Check your PIN and try again."),
            VaultError::PinTooShort => Some("PIN must be at least 6 characters."),
            VaultError::TooManyAttempts => Some("Wait a moment before trying again."),
            VaultError::NotInitialized => Some("Run 'vult init' to set up your vault."),
            VaultError::AlreadyInitialized => Some("Your vault is already set up."),
            VaultError::Locked => Some("Unlock your vault first with your PIN."),
            VaultError::NotFound(_) => Some("Check the app and key name."),
            VaultError::DuplicateKey { .. } => Some("Use 'vult update' to modify an existing key."),
            _ => None,
        }
    }

    /// The error's message, for display.
    pub fn to_string(&self) -> (r: String)
        ensures
            message_of(*self) is Some ==> message_of(*self) == Some(r@),
    {
        match self {
            VaultError::InvalidPin => String::from_str("Invalid PIN"),
            VaultError::PinTooShort => String::from_str(
                "PIN too short (minimum 6 characters required)",
            ),
            VaultError::PinTooLong => String::from_str("PIN too long (maximum 64 characters allowed)"),
            VaultError::TooManyAttempts => String::from_str(
                "Too many failed attempts. Please wait before trying again.",
            ),
            VaultError::NotInitialized => String::from_str("Vault not initialized. Run 'init' first."),
            VaultError::AlreadyInitialized => String::from_str("Vault already initialized"),
            VaultError::Locked => String::from_str("Vault is locked. Unlock with your PIN first."),
            VaultError::KeyDerivation(s) => prefixed("Key derivation failed: ", s),
            VaultError::Encryption(s) => prefixed("Encryption failed: ", s),
            VaultError::Decryption(s) => prefixed("Decryption failed: ", s),
            VaultError::InvalidKeyLength => String::from_str("Invalid key length"),
            VaultError::InvalidNonceLength => String::from_str("Invalid nonce length"),
            VaultError::Database(s) => prefixed("Database error: ", s),
            VaultError::NotFound(s) => prefixed("Key not found: ", s),
            VaultError::DuplicateKey { app_name, key_name } => {
                let mut m = prefixed("Duplicate key: ", app_name);
                m.append("/");
                m.append(key_name.as_str());
                m.append(" already exists");
                m
            },
            VaultError::IncompatibleVersion { db_version, app_version } => {
                let mut m = String::from_str("Database version ");
                m.append(db_version.to_string().as_str());
                m.append(" is newer than application version ");
                m.append(app_version.to_string().as_str());
                m.append(". Please update the application.");
                m
            },
            VaultError::MigrationFailed(s) => prefixed("Migration failed: ", s),
            VaultError::BackupFailed(s) => prefixed("Backup failed: ", s),
            VaultError::InvalidInput(s) => prefixed("Invalid input: ", s),
            VaultError::MissingField(s) => prefixed("Missing required field: ", s),
            VaultError::InvalidState(s) => prefixed("Invalid state: ", s),
            VaultError::Clipboard(s) => prefixed("Clipboard error: ", s),
            VaultError::Io(s) => prefixed("I/O error: ", s),
        }
    }
}

} // verus!
