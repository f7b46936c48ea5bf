use vult::auth::AuthService;
use vult::crypto::{encrypt, EncryptedData};
use vult::error::VaultError;
use vult::services::{KeyService, UpdateKeyRequest};
use vult::store::{migrate_legacy_record, VaultStore};

fn no_changes() -> UpdateKeyRequest {
    UpdateKeyRequest { app_name: None, key_name: None, key_value: None, api_url: None, description: None }
}

fn fresh_vault(pin: &str) -> (AuthService, KeyService) {
    let mut auth = AuthService::new(None);
    auth.init_vault(pin).unwrap();
    (auth, KeyService::new(VaultStore::new()))
}

#[test]
fn rename_scenario_moves_secret() {
    let (auth, mut keys) = fresh_vault("correctPin123");
    let id = keys.create(&auth, Some("github"), "token", "ghp_abc", None, None).unwrap();
    assert_eq!(keys.get(&auth, "github", "token").unwrap().key_value, "ghp_abc");

    let mut req = no_changes();
    req.app_name = Some(Some("gitlab".to_string()));
    keys.update(&auth, &id, req).unwrap();

    assert!(matches!(keys.get(&auth, "github", "token"), Err(VaultError::NotFound(_))));
    let moved = keys.get(&auth, "gitlab", "token").unwrap();
    assert_eq!(moved.key_value, "ghp_abc");
    assert_eq!(moved.app_name, Some("gitlab".to_string()));
}

#[test]
fn key_name_rename_keeps_value() {
    let (auth, mut keys) = fresh_vault("correctPin123");
    let id = keys.create(&auth, None, "old-name", "value-1", None, None).unwrap();
    let mut req = no_changes();
    req.key_name = Some("new-name".to_string());
    keys.update(&auth, &id, req).unwrap();
    assert!(matches!(keys.get(&auth, "", "old-name"), Err(VaultError::NotFound(_))));
    assert_eq!(keys.get(&auth, "", "new-name").unwrap().key_value, "value-1");
}

#[test]
fn metadata_only_update_keeps_ciphertext() {
    let (auth, mut keys) = fresh_vault("correctPin123");
    let id = keys.create(&auth, Some("aws"), "access", "AKIA123", None, None).unwrap();
    let before = keys.store().records()[0].encrypted.clone();
    let mut req = no_changes();
    req.description = Some(Some("prod account".to_string()));
    req.api_url = Some(Some("https://aws.example".to_string()));
    keys.update(&auth, &id, req).unwrap();
    let rec = &keys.store().records()[0];
    assert_eq!(rec.encrypted.ciphertext, before.ciphertext);
    assert_eq!(rec.encrypted.nonce, before.nonce);
    let got = keys.get_by_id(&auth, &id).unwrap();
    assert_eq!(got.description, Some("prod account".to_string()));
    assert_eq!(got.key_value, "AKIA123");
}

#[test]
fn new_value_is_resealed() {
    let (auth, mut keys) = fresh_vault("correctPin123");
    let id = keys.create(&auth, Some("svc"), "k", "first", None, None).unwrap();
    let mut req = no_changes();
    req.key_value = Some("second".to_string());
    keys.update(&auth, &id, req).unwrap();
    assert_eq!(keys.get(&auth, "svc", "k").unwrap().key_value, "second");
}

#[test]
fn initialize_pin_rules_and_twice() {
    let mut auth = AuthService::new(None);
    assert!(matches!(auth.init_vault("short"), Err(VaultError::PinTooShort)));
    assert!(!auth.is_initialized());
    auth.init_vault("validPin1").unwrap();
    assert!(auth.is_unlocked());
    assert!(matches!(auth.init_vault("other"), Err(VaultError::AlreadyInitialized)));
}

#[test]
fn initialize_rejects_long_and_non_ascii_pins() {
    let mut auth = AuthService::new(None);
    assert!(matches!(auth.init_vault(&"x".repeat(65)), Err(VaultError::PinTooLong)));
    assert!(matches!(auth.init_vault("p\u{e9}n12345"), Err(VaultError::InvalidInput(_))));
}

#[test]
fn wrong_pins_count_and_back_off() {
    let mut auth = AuthService::new(None);
    auth.init_vault("rightPin42").unwrap();
    auth.lock();
    assert_eq!(auth.unlock_delay_secs(), 0);
    let mut delays = Vec::new();
    for wrong in ["wrongPin1", "wrongPin2", "wrongPin3"] {
        assert!(matches!(auth.unlock(wrong), Err(VaultError::InvalidPin)));
        delays.push(auth.unlock_delay_secs());
    }
    assert_eq!(auth.get_failed_attempts(), 3);
    assert_eq!(delays, vec![2, 4, 8]);
    assert!(!auth.is_unlocked());
    auth.unlock("rightPin42").unwrap();
    assert_eq!(auth.get_failed_attempts(), 0);
    assert!(auth.is_unlocked());
}

#[test]
fn unlock_before_initialization() {
    let mut auth = AuthService::new(None);
    assert!(matches!(auth.unlock("anything1"), Err(VaultError::NotInitialized)));
    assert!(matches!(auth.get_vault_key(), Err(VaultError::Locked)));
}

#[test]
fn change_pin_switches_pins() {
    let mut auth = AuthService::new(None);
    auth.init_vault("secure123").unwrap();
    assert!(matches!(auth.change_pin("secure123", "123"), Err(VaultError::PinTooShort)));
    auth.change_pin("secure123", "new-pin-456").unwrap();
    auth.lock();
    assert!(matches!(auth.unlock("secure123"), Err(VaultError::InvalidPin)));
    auth.unlock("new-pin-456").unwrap();
    assert!(auth.is_unlocked());
}

#[test]
fn duplicate_key_name_across_apps() {
    let (auth, mut keys) = fresh_vault("correctPin123");
    keys.create(&auth, Some("github"), "token", "a-value", None, None).unwrap();
    let again = keys.create(&auth, Some("gitlab"), "token", "b-value", None, None);
    assert!(matches!(again, Err(VaultError::DuplicateKey { .. })));
    assert_eq!(keys.count(&auth).unwrap(), 1);
}

#[test]
fn empty_inputs_are_rejected() {
    let (auth, mut keys) = fresh_vault("correctPin123");
    assert!(matches!(keys.create(&auth, None, "", "v", None, None), Err(VaultError::InvalidInput(_))));
    assert!(matches!(keys.create(&auth, None, "k", "", None, None), Err(VaultError::InvalidInput(_))));
}

#[test]
fn locked_registry_refuses_everything() {
    let (mut auth, mut keys) = fresh_vault("correctPin123");
    let id = keys.create(&auth, Some("a"), "b", "c", None, None).unwrap();
    auth.lock();
    assert!(matches!(keys.create(&auth, None, "x", "y", None, None), Err(VaultError::Locked)));
    assert!(matches!(keys.get(&auth, "a", "b"), Err(VaultError::Locked)));
    assert!(matches!(keys.get_by_id(&auth, &id), Err(VaultError::Locked)));
    assert!(matches!(keys.list(&auth), Err(VaultError::Locked)));
    assert!(matches!(keys.search(&auth, "a"), Err(VaultError::Locked)));
    assert!(matches!(keys.update(&auth, &id, no_changes()), Err(VaultError::Locked)));
    assert!(matches!(keys.delete(&auth, &id), Err(VaultError::Locked)));
    assert!(matches!(keys.count(&auth), Err(VaultError::Locked)));
    assert_eq!(keys.store().len(), 1);
}

#[test]
fn search_ignores_ascii_case() {
    let (auth, mut keys) = fresh_vault("correctPin123");
    keys.create(&auth, Some("GitHub"), "token", "v1", None, Some("Personal access")).unwrap();
    keys.create(&auth, Some("aws"), "secret", "v2", None, None).unwrap();
    keys.create(&auth, None, "stripe-live", "v3", None, None).unwrap();
    let found = keys.search(&auth, "github").unwrap();
    assert_eq!(found.len(), 1);
    assert_eq!(found[0].key_name, "token");
    assert_eq!(keys.search(&auth, "ACCESS").unwrap().len(), 1);
    assert_eq!(keys.search(&auth, "e").unwrap().len(), 3);
    assert_eq!(keys.search(&auth, "nothing").unwrap().len(), 0);
    assert_eq!(keys.list(&auth).unwrap().len(), 3);
}

#[test]
fn delete_returns_metadata() {
    let (auth, mut keys) = fresh_vault("correctPin123");
    let id = keys.create(&auth, Some("app"), "gone", "v", Some("https://x"), None).unwrap();
    let meta = keys.delete(&auth, &id).unwrap();
    assert_eq!(meta.key_name, "gone");
    assert_eq!(meta.api_url, Some("https://x".to_string()));
    assert!(matches!(keys.delete(&auth, &id), Err(VaultError::NotFound(_))));
    assert_eq!(keys.count(&auth).unwrap(), 0);
    keys.create(&auth, None, "other", "v", None, None).unwrap();
    assert!(keys.delete_by_name(&auth, "", "other").is_ok());
}

#[test]
fn update_unknown_id_and_conflicting_name() {
    let (auth, mut keys) = fresh_vault("correctPin123");
    assert!(matches!(keys.update(&auth, "missing", no_changes()), Err(VaultError::NotFound(_))));
    keys.create(&auth, None, "one", "v1", None, None).unwrap();
    let id2 = keys.create(&auth, None, "two", "v2", None, None).unwrap();
    let mut req = no_changes();
    req.key_name = Some("one".to_string());
    assert!(matches!(keys.update(&auth, &id2, req), Err(VaultError::DuplicateKey { .. })));
    assert_eq!(keys.get(&auth, "", "two").unwrap().key_value, "v2");
}

#[test]
fn legacy_records_are_resealed_once() {
    let (auth, _) = fresh_vault("correctPin123");
    let master = auth.get_vault_key().unwrap();
    let sealed: EncryptedData = encrypt(b"legacy-secret", &master).unwrap();
    let rec = migrate_legacy_record(
        "id-1".to_string(),
        "old-app".to_string(),
        "old-key".to_string(),
        None,
        None,
        sealed,
        10,
        20,
    );
    let store = VaultStore::from_records(vec![rec]).unwrap();
    let mut keys = KeyService::new(store);
    assert_eq!(keys.get(&auth, "old-app", "old-key").unwrap().key_value, "legacy-secret");
    assert_eq!(keys.reencrypt_all_keys(&master).unwrap(), 1);
    assert_eq!(keys.store().records()[0].key_salt.len(), 32);
    assert_eq!(keys.get(&auth, "old-app", "old-key").unwrap().key_value, "legacy-secret");
    assert_eq!(keys.reencrypt_all_keys(&master).unwrap(), 0);
}

#[test]
fn loaded_records_must_be_unique() {
    let (auth, _) = fresh_vault("correctPin123");
    let master = auth.get_vault_key().unwrap();
    let a = migrate_legacy_record(
        "id-a".to_string(), "x".to_string(), "same".to_string(), None, None,
        encrypt(b"1", &master).unwrap(), 0, 0,
    );
    let b = migrate_legacy_record(
        "id-b".to_string(), "y".to_string(), "same".to_string(), None, None,
        encrypt(b"2", &master).unwrap(), 0, 0,
    );
    assert!(matches!(VaultStore::from_records(vec![a, b]), Err(VaultError::Database(_))));
}

#[test]
fn auto_lock_decision() {
    let mut auth = AuthService::new(None);
    assert!(!auth.should_auto_lock(500, 300));
    auth.init_vault("timeoutPin1").unwrap();
    assert!(!auth.should_auto_lock(299, 300));
    assert!(auth.should_auto_lock(300, 300));
    auth.tick();
    auth.tick();
    assert_eq!(auth.seconds_since_activity(), 2);
    assert_eq!(auth.get_session_state().last_activity_secs, 2);
    auth.update_activity();
    assert_eq!(auth.seconds_since_activity(), 0);
    auth.lock();
    assert!(!auth.get_session_state().is_unlocked);
}

#[test]
fn pin_change_moves_secrets_to_the_new_key() {
    let (mut auth, mut keys) = fresh_vault("firstPin11");
    keys.create(&auth, Some("svc"), "api", "s3cr3t", None, None).unwrap();
    let old_master = auth.get_vault_key().unwrap();
    auth.change_pin("firstPin11", "secondPin22").unwrap();
    let new_master = auth.get_vault_key().unwrap();
    assert_ne!(old_master.as_bytes(), new_master.as_bytes());
    assert!(matches!(keys.get(&auth, "svc", "api"), Err(VaultError::Decryption(_))));
    assert_eq!(keys.rekey_all(&old_master, &new_master).unwrap(), 1);
    assert_eq!(keys.get(&auth, "svc", "api").unwrap().key_value, "s3cr3t");
}

#[test]
fn storage_update_input_sets_app_name() {
    let input = vult::services::UpdateApiKey {
        id: "abc".to_string(),
        app_name: Some("gitlab".to_string()),
        key_name: None,
        api_url: Some(None),
        description: None,
        key_value: Some("new".to_string()),
    };
    let (id, req) = input.into_request();
    assert_eq!(id, "abc");
    assert_eq!(req.app_name, Some(Some("gitlab".to_string())));
    assert_eq!(req.api_url, Some(None));
    assert_eq!(req.key_value, Some("new".to_string()));
    assert!(req.key_name.is_none());
}

#[test]
fn ten_failures_refuse_further_unlocks() {
    let mut auth = AuthService::new(None);
    auth.init_vault("steadyPin9").unwrap();
    auth.lock();
    for _ in 0..10 {
        assert!(matches!(auth.unlock("bad"), Err(VaultError::InvalidPin)));
    }
    assert_eq!(auth.get_failed_attempts(), 10);
    assert_eq!(auth.unlock_delay_secs(), 32);
    assert!(matches!(auth.unlock("steadyPin9"), Err(VaultError::TooManyAttempts)));
    auth.reset_failed_attempts();
    auth.unlock("steadyPin9").unwrap();
    assert!(auth.is_unlocked());
}

fn record_with_salt(master: &vult::crypto::VaultKey, id: &str, app: Option<&str>, key: &str, salt: Vec<u8>) -> vult::store::SecretRecord {
    vult::store::SecretRecord {
        id: id.to_string(),
        app_name: app.map(|a| a.to_string()),
        key_name: key.to_string(),
        api_url: None,
        description: None,
        encrypted: encrypt(b"zero-salt-secret", master).unwrap(),
        key_salt: salt,
        created_at: 1,
        updated_at: 2,
    }
}

#[test]
fn zero_salt_records_are_legacy() {
    let (auth, _) = fresh_vault("correctPin123");
    let master = auth.get_vault_key().unwrap();
    let rec = record_with_salt(&master, "z-1", Some("app"), "zeroed", vec![0u8; 32]);
    let mut keys = KeyService::new(VaultStore::from_records(vec![rec]).unwrap());
    assert_eq!(keys.get(&auth, "app", "zeroed").unwrap().key_value, "zero-salt-secret");
    assert_eq!(keys.reencrypt_all_keys(&master).unwrap(), 1);
    let salt = keys.store().records()[0].key_salt.clone();
    assert_eq!(salt.len(), 32);
    assert!(salt.iter().any(|b| *b != 0));
    assert_eq!(keys.get(&auth, "app", "zeroed").unwrap().key_value, "zero-salt-secret");
    assert_eq!(keys.reencrypt_all_keys(&master).unwrap(), 0);
}

#[test]
fn list_and_search_follow_name_order() {
    let (auth, mut keys) = fresh_vault("correctPin123");
    keys.create(&auth, Some("b"), "k1", "v", None, None).unwrap();
    keys.create(&auth, None, "z", "v", None, None).unwrap();
    keys.create(&auth, Some("a"), "k2", "v", None, None).unwrap();
    keys.create(&auth, Some("a"), "k0", "v", None, None).unwrap();
    keys.create(&auth, Some("B"), "k3", "v", None, None).unwrap();
    let listed: Vec<(Option<String>, String)> =
        keys.list(&auth).unwrap().into_iter().map(|m| (m.app_name, m.key_name)).collect();
    let expected = vec![
        (None, "z".to_string()),
        (Some("B".to_string()), "k3".to_string()),
        (Some("a".to_string()), "k0".to_string()),
        (Some("a".to_string()), "k2".to_string()),
        (Some("b".to_string()), "k1".to_string()),
    ];
    assert_eq!(listed, expected);
    let found: Vec<String> = keys.search(&auth, "K").unwrap().into_iter().map(|m| m.key_name).collect();
    assert_eq!(found, vec!["k3", "k0", "k2", "k1"]);
}

#[test]
fn create_with_fixed_id_and_time() {
    let (auth, mut keys) = fresh_vault("correctPin123");
    let material = vult::crypto::fresh_material().unwrap();
    let id = keys
        .create_with(&auth, Some("svc"), "key-a", "value-a", None, None, "fixed-id".to_string(), 42, &material)
        .unwrap();
    assert_eq!(id, "fixed-id");
    assert_eq!(keys.store().records()[0].created_at, 42);
    assert_eq!(keys.store().records()[0].key_salt, material.salt.to_vec());
    let again = keys.create_with(&auth, None, "key-b", "value-b", None, None, "fixed-id".to_string(), 43, &material);
    assert!(matches!(again, Err(VaultError::Database(_))));
    assert_eq!(keys.get_by_id(&auth, "fixed-id").unwrap().key_value, "value-a");
}

#[test]
fn change_pin_checks_only_new_pin_length() {
    let mut auth = AuthService::new(None);
    auth.init_vault("asciiPin1").unwrap();
    assert!(matches!(auth.change_pin("wrongPin1", "n\u{e9}wPin123"), Err(VaultError::InvalidPin)));
    assert_eq!(auth.get_failed_attempts(), 1);
    assert!(matches!(auth.change_pin("asciiPin1", &"x".repeat(65)), Err(VaultError::PinTooLong)));
    auth.change_pin("asciiPin1", "n\u{e9}wPin123").unwrap();
    auth.lock();
    auth.unlock("n\u{e9}wPin123").unwrap();
    assert_eq!(auth.get_failed_attempts(), 0);
}

#[test]
fn init_with_given_material_and_time() {
    let mut auth = AuthService::new(None);
    let material = vult::crypto::fresh_material().unwrap();
    let salt = material.salt;
    auth.init_vault_with("givenPin7", material, 1_700_000_000).unwrap();
    let config = auth.config().as_ref().unwrap();
    assert_eq!(config.created_at, 1_700_000_000);
    assert_eq!(config.salt, salt);
    auth.lock();
    auth.unlock("givenPin7").unwrap();
}
