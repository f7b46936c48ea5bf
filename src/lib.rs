//! A PIN-protected local store for application secrets.
//!
//! Every secret is encrypted with its own key, derived from the vault's master
//! key, the secret's `(app_name, key_name)` context and a per-secret salt.
//! The modules, leaf first:
//! - [`pin`]: PIN rules;
//! - [`crypto`]: key derivation and authenticated encryption;
//! - [`error`]: the library's error taxonomy;
//! - [`auth`]: the lock / unlock state machine that owns the master key;
//! - [`store`]: the encrypted records, their invariants and schema evolution;
//! - [`services`]: the operations that callers use.

pub mod auth;
pub mod crypto;
pub mod error;
pub mod order;
pub mod pin;
pub mod services;
pub mod store;
mod system;
