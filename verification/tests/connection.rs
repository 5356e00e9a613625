use spacemolt_viewer::account_manager::AccountManagerError;
use spacemolt_viewer::connection::{
    connect_password, disconnect_result, failure_message, INTER_ACCOUNT_DELAY_SECS,
};
use std::time::Duration;

#[test]
fn inter_account_delay_is_2_seconds() {
    assert_eq!(Duration::from_secs(INTER_ACCOUNT_DELAY_SECS), Duration::from_secs(2));
}

#[test]
fn connected_account_is_refused_first() {
    let r = connect_password("drift", true, Ok(Some("pw".to_string())));
    assert_eq!(r, Err("Account 'drift' is already connected".to_string()));
}

#[test]
fn stored_password_is_used() {
    assert_eq!(connect_password("drift", false, Ok(Some("pw".to_string()))), Ok("pw".to_string()));
}

#[test]
fn missing_password_is_an_error() {
    assert_eq!(
        connect_password("drift", false, Ok(None)),
        Err("No password stored for 'drift'".to_string())
    );
}

#[test]
fn store_errors_pass_their_message_on() {
    assert_eq!(
        connect_password("drift", false, Err(AccountManagerError::CredentialsNotInitialized)),
        Err("credential store not initialized — call init_credentials() first".to_string())
    );
}

#[test]
fn disconnect_answers() {
    assert_eq!(disconnect_result("drift", true), Ok(()));
    assert_eq!(disconnect_result("drift", false), Err("Account 'drift' is not connected".to_string()));
}

#[test]
fn failure_messages() {
    assert_eq!(failure_message("MCP login failed", "bad password"), "MCP login failed: bad password");
    assert_eq!(failure_message("Connection failed", ""), "Connection failed: ");
}
