use spacemolt_viewer::account_manager::{AccountInfo, AccountManager, AccountManagerError};
use spacemolt_viewer::credential_store::{CredentialError, CredentialStore};
use std::time::{SystemTime, UNIX_EPOCH};

fn temp_path(tag: &str, ext: &str) -> String {
    // The snapshot's default key-stretching work factor takes far longer
    // than a unit test may; these tests use the cheapest one.
    iota_stronghold::engine::snapshot::try_set_encrypt_work_factor(0).unwrap();
    let nonce = SystemTime::now().duration_since(UNIX_EPOCH).unwrap().as_nanos();
    format!("/tmp/spacemolt_acct_test_{tag}_{nonce}.{ext}")
}

fn test_manager(tag: &str) -> (AccountManager, String, String) {
    let snap = temp_path(tag, "stronghold");
    let cfg = temp_path(tag, "json");
    let cred = CredentialStore::new(&snap);
    let mut mgr = AccountManager::new(cred, &cfg);
    mgr.init_credentials("test_master_pass").unwrap();
    (mgr, snap, cfg)
}

#[test]
fn test_new_manager_empty() {
    let snap = temp_path("new", "stronghold");
    let cfg = temp_path("new", "json");
    let cred = CredentialStore::new(&snap);
    let mgr = AccountManager::new(cred, &cfg);
    assert!(mgr.accounts.is_empty());
    assert!(!mgr.credentials_initialized());
    assert_eq!(mgr.account_count(), 0);
    assert_eq!(mgr.config_path(), cfg);
}

#[test]
fn test_init_credentials() {
    let snap = temp_path("init", "stronghold");
    let cfg = temp_path("init", "json");
    let cred = CredentialStore::new(&snap);
    let mut mgr = AccountManager::new(cred, &cfg);
    assert!(!mgr.credentials_initialized());
    mgr.init_credentials("master_pass").unwrap();
    assert!(mgr.credentials_initialized());
}

#[test]
fn test_add_account() {
    let (mut mgr, _snap, _cfg) = test_manager("add");
    mgr.add_account("Drift", "drift-user", "pass123").unwrap();
    assert_eq!(mgr.account_count(), 1);
    let acct = mgr.get_account("drift-user").unwrap();
    assert_eq!(acct.display_name, "Drift");
    assert_eq!(acct.username, "drift-user");
}

#[test]
fn test_add_duplicate_fails() {
    let (mut mgr, _snap, _cfg) = test_manager("dup");
    mgr.add_account("Drift", "drift-user", "pass123").unwrap();
    let result = mgr.add_account("Drift2", "drift-user", "pass456");
    assert!(result.is_err());
    assert!(matches!(result.unwrap_err(), AccountManagerError::AccountExists(_)));
}

#[test]
fn test_add_without_init_fails() {
    let snap = temp_path("noinit", "stronghold");
    let cfg = temp_path("noinit", "json");
    let cred = CredentialStore::new(&snap);
    let mut mgr = AccountManager::new(cred, &cfg);
    let result = mgr.add_account("Drift", "drift-user", "pass");
    assert!(result.is_err());
    assert!(matches!(result.unwrap_err(), AccountManagerError::CredentialsNotInitialized));
}

#[test]
fn test_get_password() {
    let (mut mgr, _snap, _cfg) = test_manager("getpw");
    mgr.add_account("Drift", "drift-user", "s3cr3t").unwrap();
    let password = mgr.get_password("drift-user").unwrap();
    assert_eq!(password, Some("s3cr3t".to_string()));
}

#[test]
fn test_get_password_nonexistent() {
    let (mgr, _snap, _cfg) = test_manager("getpw_missing");
    let password = mgr.get_password("nonexistent").unwrap();
    assert_eq!(password, None);
}

#[test]
fn test_remove_account() {
    let (mut mgr, _snap, _cfg) = test_manager("remove");
    mgr.add_account("Drift", "drift-user", "pass").unwrap();
    assert_eq!(mgr.account_count(), 1);
    mgr.remove_account("drift-user").unwrap();
    assert_eq!(mgr.account_count(), 0);
    assert!(!mgr.account_exists("drift-user"));
    let password = mgr.get_password("drift-user").unwrap();
    assert_eq!(password, None);
}

#[test]
fn test_remove_nonexistent_fails() {
    let (mut mgr, _snap, _cfg) = test_manager("remove_missing");
    let result = mgr.remove_account("ghost");
    assert!(result.is_err());
    assert!(matches!(result.unwrap_err(), AccountManagerError::AccountNotFound(_)));
}

#[test]
fn test_update_password() {
    let (mut mgr, _snap, _cfg) = test_manager("update_pw");
    mgr.add_account("Drift", "drift-user", "old_pass").unwrap();
    mgr.update_password("drift-user", "new_pass").unwrap();
    let password = mgr.get_password("drift-user").unwrap();
    assert_eq!(password, Some("new_pass".to_string()));
}

#[test]
fn test_update_display_name() {
    let (mut mgr, _snap, _cfg) = test_manager("rename");
    mgr.add_account("OldName", "drift-user", "pass").unwrap();
    mgr.update_display_name("drift-user", "NewName").unwrap();
    let acct = mgr.get_account("drift-user").unwrap();
    assert_eq!(acct.display_name, "NewName");
}

#[test]
fn test_account_exists() {
    let (mut mgr, _snap, _cfg) = test_manager("exists");
    assert!(!mgr.account_exists("drift-user"));
    mgr.add_account("Drift", "drift-user", "pass").unwrap();
    assert!(mgr.account_exists("drift-user"));
    assert!(!mgr.account_exists("other-user"));
}

#[test]
fn account_manager_test_list_accounts() {
    let (mut mgr, _snap, _cfg) = test_manager("list");
    mgr.add_account("Drift", "drift-user", "p1").unwrap();
    mgr.add_account("Stoleas", "stoleas", "p2").unwrap();
    mgr.add_account("Atervisus", "atervisus", "p3").unwrap();
    let list = mgr.list_accounts();
    assert_eq!(list.len(), 3);
    assert_eq!(list[0].display_name, "Drift");
    assert_eq!(list[1].display_name, "Stoleas");
    assert_eq!(list[2].display_name, "Atervisus");
}

#[test]
fn test_credential_store_accessors() {
    let (mut mgr, _snap, _cfg) = test_manager("accessors");
    let cred = mgr.credential_store();
    assert!(cred.is_initialized());
    let cred_mut = mgr.credential_store_mut();
    assert!(cred_mut.is_initialized());
}

#[test]
fn test_account_info_default() {
    let info = AccountInfo::default();
    assert!(info.display_name.is_empty());
    assert!(info.username.is_empty());
}

#[test]
fn test_multiple_accounts_independent() {
    let (mut mgr, _snap, _cfg) = test_manager("independent");
    mgr.add_account("A", "user_a", "pass_a").unwrap();
    mgr.add_account("B", "user_b", "pass_b").unwrap();
    mgr.add_account("C", "user_c", "pass_c").unwrap();
    assert_eq!(mgr.get_password("user_a").unwrap().unwrap(), "pass_a");
    assert_eq!(mgr.get_password("user_b").unwrap().unwrap(), "pass_b");
    assert_eq!(mgr.get_password("user_c").unwrap().unwrap(), "pass_c");
    mgr.remove_account("user_b").unwrap();
    assert_eq!(mgr.account_count(), 2);
    assert_eq!(mgr.get_password("user_a").unwrap().unwrap(), "pass_a");
    assert_eq!(mgr.get_password("user_c").unwrap().unwrap(), "pass_c");
    assert_eq!(mgr.get_password("user_b").unwrap(), None);
}

#[test]
fn account_info_equality_compares_both_fields() {
    let a = AccountInfo { display_name: "A".into(), username: "u".into() };
    let b = AccountInfo { display_name: "A".into(), username: "u".into() };
    let c = AccountInfo { display_name: "B".into(), username: "u".into() };
    assert_eq!(a, b);
    assert_ne!(a, c);
}

#[test]
fn empty_credentials_are_refused_through_the_store() {
    let (mut mgr, _snap, _cfg) = test_manager("empty");
    assert!(matches!(
        mgr.add_account("X", "", "p"),
        Err(AccountManagerError::Credential(CredentialError::InvalidCredential(_)))
    ));
    assert!(matches!(
        mgr.add_account("X", "x", ""),
        Err(AccountManagerError::Credential(CredentialError::InvalidCredential(_)))
    ));
    assert_eq!(mgr.account_count(), 0);
    assert!(matches!(
        mgr.init_credentials(""),
        Err(AccountManagerError::Credential(CredentialError::InvalidCredential(_)))
    ));
}

#[test]
fn operations_before_init_are_refused() {
    let snap = temp_path("before_init", "stronghold");
    let cfg = temp_path("before_init", "json");
    let mut mgr = AccountManager::new(CredentialStore::new(&snap), &cfg);
    assert!(matches!(mgr.remove_account("u"), Err(AccountManagerError::CredentialsNotInitialized)));
    assert!(matches!(mgr.get_password("u"), Err(AccountManagerError::CredentialsNotInitialized)));
    assert!(matches!(mgr.update_password("u", "p"), Err(AccountManagerError::CredentialsNotInitialized)));
    assert!(matches!(
        mgr.save_credentials(),
        Err(AccountManagerError::Credential(CredentialError::NotInitialized))
    ));
    assert!(matches!(mgr.update_display_name("u", "N"), Err(AccountManagerError::AccountNotFound(_))));
}

#[test]
fn update_password_of_unknown_account_fails() {
    let (mut mgr, _snap, _cfg) = test_manager("update_unknown");
    assert!(matches!(mgr.update_password("ghost", "p"), Err(AccountManagerError::AccountNotFound(_))));
}

#[test]
fn manager_error_messages() {
    assert_eq!(AccountManagerError::Io("x".into()).message(), "config I/O error: x");
    assert_eq!(AccountManagerError::Json("x".into()).message(), "config JSON error: x");
    assert_eq!(AccountManagerError::AccountExists("u".into()).message(), "account 'u' already exists");
    assert_eq!(AccountManagerError::AccountNotFound("u".into()).message(), "account 'u' not found");
    assert_eq!(
        AccountManagerError::CredentialsNotInitialized.message(),
        "credential store not initialized — call init_credentials() first"
    );
    assert_eq!(
        AccountManagerError::Credential(CredentialError::SaveFailed("disk".into())).message(),
        "credential error: failed to save snapshot: disk"
    );
}

#[test]
fn save_and_reopen_keeps_passwords() {
    let snap = temp_path("reopen", "stronghold");
    let cfg = temp_path("reopen", "json");
    {
        let mut mgr = AccountManager::new(CredentialStore::new(&snap), &cfg);
        mgr.init_credentials("m").unwrap();
        mgr.add_account("Drift", "drift-user", "pass123").unwrap();
        mgr.save_credentials().unwrap();
    }
    let mut mgr = AccountManager::new(CredentialStore::new(&snap), &cfg);
    mgr.init_credentials("m").unwrap();
    assert_eq!(mgr.get_password("drift-user").unwrap(), Some("pass123".to_string()));
}
