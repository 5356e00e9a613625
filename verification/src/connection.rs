//! The decisions around connecting and disconnecting an account: accounts
//! connect one at a time with a pause between them, an account already
//! connected is refused, and the password comes from the credential store,
//! never from the frontend. Holding the sessions, the network work and the
//! pause itself belong to the caller.

use vstd::prelude::*;
use crate::account_manager::{manager_message, AccountManagerError};
use crate::text::{push_str, string_from_chars};

verus! {

/// Seconds between two accounts' connections, so that the server does not
/// close the second one as rate limited.
pub const INTER_ACCOUNT_DELAY_SECS: u64 = 2;

/// The error that refuses connecting an account that is already connected.
pub open spec fn already_connected_text(username: Seq<char>) -> Seq<char> {
    "Account '"@ + username + "' is already connected"@
}

/// The error for an account whose password the store does not hold.
pub open spec fn no_password_text(username: Seq<char>) -> Seq<char> {
    "No password stored for '"@ + username + "'"@
}

/// The error that refuses disconnecting an account that is not connected.
pub open spec fn not_connected_text(username: Seq<char>) -> Seq<char> {
    "Account '"@ + username + "' is not connected"@
}

/// `prefix`, a colon and a space, then `detail`.
pub open spec fn failure_text(prefix: Seq<char>, detail: Seq<char>) -> Seq<char> {
    prefix + ": "@ + detail
}

/// The password to connect `username` with, given whether the account is
/// already connected and what the credential store answered for it. An
/// account already connected is refused before its password is looked at;
/// a store error is passed on as its message; a missing password is an
/// error.
pub fn connect_password(
    username: &str,
    already_connected: bool,
    lookup: Result<Option<String>, AccountManagerError>,
) -> (r: Result<String, String>)
    ensures
        already_connected ==> (r matches Err(e) && e@ == already_connected_text(username@)),
        !already_connected ==> match lookup {
            Ok(Some(p)) => (r matches Ok(q) && q@ == p@),
            Ok(None) => (r matches Err(e) && e@ == no_password_text(username@)),
            Err(err) => (r matches Err(e) && e@ == manager_message(err)),
        },
{
    if already_connected {
        let mut v: Vec<char> = Vec::new();
        push_str(&mut v, "Account '");
        push_str(&mut v, username);
        push_str(&mut v, "' is already connected");
        return Err(string_from_chars(&v));
    }
    match lookup {
        Ok(Some(p)) => Ok(p),
        Ok(None) => {
            let mut v: Vec<char> = Vec::new();
            push_str(&mut v, "No password stored for '");
            push_str(&mut v, username);
            push_str(&mut v, "'");
            Err(string_from_chars(&v))
        },
        Err(e) => Err(e.message()),
    }
}

/// The answer to a disconnect request: `Ok` when a session was found and
/// closed, the "not connected" error otherwise.
pub fn disconnect_result(username: &str, was_connected: bool) -> (r: Result<(), String>)
    ensures
        was_connected ==> r is Ok,
        !was_connected ==> (r matches Err(e) && e@ == not_connected_text(username@)),
{
    if was_connected {
        Ok(())
    } else {
        let mut v: Vec<char> = Vec::new();
        push_str(&mut v, "Account '");
        push_str(&mut v, username);
        push_str(&mut v, "' is not connected");
        Err(string_from_chars(&v))
    }
}

/// The message of a failed connection step: the step's name, a colon, and
/// what went wrong ("WebSocket connection failed: …", "MCP login failed: …").
pub fn failure_message(prefix: &str, detail: &str) -> (s: String)
    ensures
        s@ == failure_text(prefix@, detail@),
{
    let mut v: Vec<char> = Vec::new();
    push_str(&mut v, prefix);
    push_str(&mut v, ": ");
    push_str(&mut v, detail);
    string_from_chars(&v)
}

} // verus!
