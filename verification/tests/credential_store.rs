use iota_stronghold::{KeyProvider, Store, Stronghold};
use spacemolt_viewer::credential_store::{cred_key, ClientLoad, CredentialError, CredentialStore, SnapshotRead};
use std::time::{SystemTime, UNIX_EPOCH};

fn temp_snapshot(tag: &str) -> String {
    // The snapshot's default key-stretching work factor takes far longer
    // than a unit test may; these tests use the cheapest one.
    iota_stronghold::engine::snapshot::try_set_encrypt_work_factor(0).unwrap();
    let nonce = SystemTime::now().duration_since(UNIX_EPOCH).unwrap().as_nanos();
    format!("/tmp/spacemolt_test_{tag}_{nonce}.stronghold")
}

fn test_store(tag: &str) -> (CredentialStore, String) {
    let path = temp_snapshot(tag);
    let mut store = CredentialStore::new(&path);
    store.initialize("test_master_password").unwrap();
    (store, path)
}

#[test]
fn test_new_store_not_initialized() {
    let path = temp_snapshot("new_store");
    let store = CredentialStore::new(&path);
    assert!(!store.is_initialized());
    assert!(!store.snapshot_exists());
}

#[test]
fn test_initialize_creates_store() {
    let path = temp_snapshot("init_creates");
    let mut store = CredentialStore::new(&path);
    assert!(!store.is_initialized());
    store.initialize("mypassword").unwrap();
    assert!(store.is_initialized());
}

#[test]
fn test_initialize_rejects_empty_password() {
    let path = temp_snapshot("init_empty");
    let mut store = CredentialStore::new(&path);
    let result = store.initialize("");
    assert!(result.is_err());
}

#[test]
fn test_save_and_load_password() {
    let (mut store, _path) = test_store("save_load");
    store.save_password("stoleas", "hunter2").unwrap();
    let loaded = store.load_password("stoleas").unwrap();
    assert_eq!(loaded, Some("hunter2".to_string()));
    store.save().unwrap();
}

#[test]
fn test_load_nonexistent_account() {
    let (store, _path) = test_store("load_missing");
    let loaded = store.load_password("nonexistent").unwrap();
    assert_eq!(loaded, None);
}

#[test]
fn test_delete_password() {
    let (mut store, _path) = test_store("delete");
    store.save_password("testuser", "pass123").unwrap();
    assert!(store.account_exists("testuser").unwrap());
    store.delete_password("testuser").unwrap();
    assert!(!store.account_exists("testuser").unwrap());
    assert_eq!(store.load_password("testuser").unwrap(), None);
}

#[test]
fn credential_store_test_list_accounts() {
    let (mut store, _path) = test_store("list");
    store.save_password("stoleas", "pass1").unwrap();
    store.save_password("atervisus", "pass2").unwrap();
    store.save_password("zh0ul", "pass3").unwrap();
    let accounts = store.list_accounts().unwrap();
    assert_eq!(accounts.len(), 3);
    assert!(accounts.contains(&"stoleas".to_string()));
    assert!(accounts.contains(&"atervisus".to_string()));
    assert!(accounts.contains(&"zh0ul".to_string()));
}

#[test]
fn test_list_accounts_empty() {
    let (store, _path) = test_store("list_empty");
    let accounts = store.list_accounts().unwrap();
    assert!(accounts.is_empty());
}

#[test]
fn test_save_overwrites_existing() {
    let (mut store, _path) = test_store("overwrite");
    store.save_password("user", "old_pass").unwrap();
    store.save_password("user", "new_pass").unwrap();
    let loaded = store.load_password("user").unwrap();
    assert_eq!(loaded, Some("new_pass".to_string()));
    let accounts = store.list_accounts().unwrap();
    assert_eq!(accounts.len(), 1);
}

#[test]
fn test_delete_removes_from_list() {
    let (mut store, _path) = test_store("delete_list");
    store.save_password("user1", "pass1").unwrap();
    store.save_password("user2", "pass2").unwrap();
    store.delete_password("user1").unwrap();
    let accounts = store.list_accounts().unwrap();
    assert_eq!(accounts.len(), 1);
    assert_eq!(accounts[0], "user2");
}

#[test]
fn test_save_rejects_empty_username() {
    let (mut store, _path) = test_store("empty_user");
    let result = store.save_password("", "password");
    assert!(result.is_err());
}

#[test]
fn test_save_rejects_empty_password() {
    let (mut store, _path) = test_store("empty_pass");
    let result = store.save_password("user", "");
    assert!(result.is_err());
}

#[test]
fn test_persist_and_reload() {
    let path = temp_snapshot("persist");
    {
        let mut store = CredentialStore::new(&path);
        store.initialize("master_pass").unwrap();
        store.save_password("stoleas", "secret123").unwrap();
        store.save().unwrap();
    }
    {
        let mut store = CredentialStore::new(&path);
        store.initialize("master_pass").unwrap();
        let loaded = store.load_password("stoleas").unwrap();
        assert_eq!(loaded, Some("secret123".to_string()));
        let accounts = store.list_accounts().unwrap();
        assert_eq!(accounts.len(), 1);
        assert_eq!(accounts[0], "stoleas");
    }
}

#[test]
fn test_reload_with_wrong_password_fails() {
    let path = temp_snapshot("wrong_pass");
    {
        let mut store = CredentialStore::new(&path);
        store.initialize("correct_password").unwrap();
        store.save_password("user", "pass").unwrap();
        store.save().unwrap();
    }
    {
        let mut store = CredentialStore::new(&path);
        let result = store.initialize("wrong_password");
        assert!(result.is_err());
    }
}

#[test]
fn test_operations_without_init_fail() {
    let path = temp_snapshot("no_init");
    let store = CredentialStore::new(&path);
    let result = store.load_password("user");
    assert!(result.is_err());
    let result = store.list_accounts();
    assert!(result.is_err());
    let result = store.account_exists("user");
    assert!(result.is_err());
}

#[test]
fn test_snapshot_exists_check() {
    let path = temp_snapshot("exists");
    let store = CredentialStore::new(&path);
    assert!(!store.snapshot_exists());
    {
        let mut store = CredentialStore::new(&path);
        store.initialize("pass").unwrap();
        store.save().unwrap();
    }
    let store = CredentialStore::new(&path);
    assert!(store.snapshot_exists());
}

#[test]
fn test_snapshot_path_accessor() {
    let path = temp_snapshot("path");
    let store = CredentialStore::new(&path);
    assert_eq!(store.snapshot_path(), path);
}

#[test]
fn password_keys_are_prefixed() {
    assert_eq!(cred_key("stoleas"), b"password:stoleas".to_vec());
    assert_eq!(cred_key(""), b"password:".to_vec());
    assert_eq!(cred_key("é"), "password:é".as_bytes().to_vec());
}

#[test]
fn errors_before_initialize_are_not_initialized() {
    let path = temp_snapshot("not_init_kind");
    let mut store = CredentialStore::new(&path);
    assert!(matches!(store.save_password("u", "p"), Err(CredentialError::NotInitialized)));
    assert!(matches!(store.delete_password("u"), Err(CredentialError::NotInitialized)));
    assert!(matches!(store.save(), Err(CredentialError::NotInitialized)));
    assert!(matches!(store.load_password("u"), Err(CredentialError::NotInitialized)));
}

#[test]
fn empty_credentials_are_invalid_credential() {
    let (mut store, _path) = test_store("invalid_kind");
    assert!(matches!(store.save_password("", "p"), Err(CredentialError::InvalidCredential(_))));
    assert!(matches!(store.save_password("u", ""), Err(CredentialError::InvalidCredential(_))));
    assert!(matches!(store.initialize(""), Err(CredentialError::InvalidCredential(_))));
}

#[test]
fn wrong_password_is_init_failed() {
    let path = temp_snapshot("init_failed_kind");
    {
        let mut store = CredentialStore::new(&path);
        store.initialize("right").unwrap();
        store.save().unwrap();
    }
    let mut store = CredentialStore::new(&path);
    assert!(matches!(store.initialize("wrong"), Err(CredentialError::InitFailed(_))));
    assert!(!store.is_initialized());
}

#[test]
fn deleting_missing_account_is_fine_and_keeps_others() {
    let (mut store, _path) = test_store("delete_missing");
    store.save_password("a", "1").unwrap();
    store.delete_password("ghost").unwrap();
    assert_eq!(store.load_password("a").unwrap(), Some("1".to_string()));
    assert_eq!(store.list_accounts().unwrap(), vec!["a".to_string()]);
}

#[test]
fn credential_error_messages() {
    assert_eq!(
        CredentialError::NotInitialized.message(),
        "credential store not initialized — call initialize() first"
    );
    assert_eq!(CredentialError::InitFailed("x".into()).message(), "failed to initialize stronghold: x");
    assert_eq!(CredentialError::OperationFailed("x".into()).message(), "credential operation failed: x");
    assert_eq!(CredentialError::SaveFailed("x".into()).message(), "failed to save snapshot: x");
    assert_eq!(CredentialError::AccountNotFound("x".into()).message(), "account 'x' not found");
    assert_eq!(CredentialError::InvalidCredential("x".into()).message(), "invalid credential: x");
}

#[test]
fn list_names_exactly_the_users_with_passwords() {
    let (mut store, _path) = test_store("list_matches");
    store.save_password("a", "1").unwrap();
    store.save_password("b", "2").unwrap();
    store.save_password("a", "3").unwrap();
    store.delete_password("b").unwrap();
    store.save_password("c", "4").unwrap();
    assert_eq!(store.list_accounts().unwrap(), vec!["a".to_string(), "c".to_string()]);
    assert!(store.account_exists("a").unwrap());
    assert!(!store.account_exists("b").unwrap());
    assert!(store.account_exists("c").unwrap());
    assert_eq!(store.load_password("a").unwrap(), Some("3".to_string()));
}

fn some_key() -> KeyProvider {
    KeyProvider::with_passphrase_hashed_blake2b(b"k".to_vec()).unwrap()
}

#[test]
fn open_with_failed_load_is_init_failed_and_changes_nothing() {
    let path = temp_snapshot("open_load_failed");
    let mut store = CredentialStore::new(&path);
    let r = store.open_with(Stronghold::default(), some_key(), SnapshotRead::LoadFailed("bad key".into()));
    match r {
        Err(CredentialError::InitFailed(t)) => assert_eq!(t, "failed to load snapshot (wrong password?): bad key"),
        other => panic!("unexpected {other:?}"),
    }
    assert!(!store.is_initialized());
}

#[test]
fn open_with_loaded_client_keeps_its_entries() {
    let path = temp_snapshot("open_loaded");
    let loaded = Store::default();
    loaded.insert(b"password:kept".to_vec(), b"secret".to_vec(), None).unwrap();
    loaded.insert(b"accounts_list".to_vec(), br#"["kept"]"#.to_vec(), None).unwrap();
    let mut store = CredentialStore::new(&path);
    store.open_with(Stronghold::default(), some_key(), SnapshotRead::Loaded(ClientLoad::Loaded(loaded))).unwrap();
    assert!(store.is_initialized());
    assert_eq!(store.load_password("kept").unwrap(), Some("secret".to_string()));
    assert_eq!(store.list_accounts().unwrap(), vec!["kept".to_string()]);
}

#[test]
fn open_with_no_file_starts_empty() {
    let path = temp_snapshot("open_absent");
    let mut store = CredentialStore::new(&path);
    store.open_with(Stronghold::default(), some_key(), SnapshotRead::Absent).unwrap();
    assert!(store.is_initialized());
    assert!(store.list_accounts().unwrap().is_empty());
    let mut other = CredentialStore::new(&path);
    other.open_with(Stronghold::default(), some_key(), SnapshotRead::Loaded(ClientLoad::NotPresent)).unwrap();
    assert!(other.list_accounts().unwrap().is_empty());
}
