//! The MCP session's rules: which errors mean the game session expired,
//! when a failed call may be recovered by logging in again (once), when the
//! game session id is added to a call, and how a tool result is read. The
//! transport itself is the caller's work.

use vstd::prelude::*;
use crate::text::{chars_of, push_str, str_equals, string_from_chars};

verus! {

#[verifier::external_type_specification]
#[verifier::external_body]
pub struct ExJsonError(serde_json::Error);

/// Error texts by which the server says that the game session expired; on
/// these a call is retried once after logging in again.
pub const SESSION_RECOVERY_MARKERS: [&'static str; 2] = ["session_required", "session_invalid"];

/// The one SpaceMolt MCP endpoint.
pub const MCP_ENDPOINT: &'static str = "https://game.spacemolt.com/mcp";

/// Errors of the MCP layer.
#[derive(Debug)]
pub enum McpError {
    /// The server refused the call (or recovery could not help).
    ToolError { tool: String, message: String },
    /// The call succeeded but its content was empty.
    NoContent { tool: String },
    /// Logging in again after a session expiry failed.
    RecoveryFailed { tool: String, message: String },
    /// A transport-level failure (connection, initialize, ...).
    Transport(String),
    /// The text content was not JSON.
    JsonParse { tool: String, source: serde_json::Error },
}

/// Whether `needle` occurs in `hay`.
pub open spec fn contains_text(hay: Seq<char>, needle: Seq<char>) -> bool {
    exists|i: int| 0 <= i && i + needle.len() <= hay.len() && #[trigger] hay.subrange(i, i + needle.len()) == needle
}

/// The error text of an error that may signal session expiry.
pub open spec fn expiry_candidate_text(err: McpError) -> Option<Seq<char>> {
    match err {
        McpError::ToolError { message, .. } => Some(message@),
        McpError::Transport(m) => Some(m@),
        _ => None,
    }
}

/// The error says that the game session expired: a tool or transport error
/// whose text contains one of the recovery markers.
pub open spec fn is_session_expiry(err: McpError) -> bool {
    match expiry_candidate_text(err) {
        Some(t) => contains_text(t, "session_required"@) || contains_text(t, "session_invalid"@),
        None => false,
    }
}

/// `tool` logs in or registers: it gets no session id and is never recovered.
pub open spec fn is_auth_tool(tool: Seq<char>) -> bool {
    tool == "login"@ || tool == "register"@
}

/// Whether `needle` occurs in `hay` (`str::contains` for a string pattern).
pub fn text_contains(hay: &str, needle: &str) -> (r: bool)
    ensures
        r == contains_text(hay@, needle@),
{
    let h = chars_of(hay);
    let n = chars_of(needle);
    if n.len() > h.len() {
        return false;
    }
    if n.len() == 0 {
        assert(hay@.subrange(0int, 0int + needle@.len()) =~= needle@);
        return true;
    }
    let hn = h.len();
    let last = hn - n.len();
    let mut i: usize = 0;
    while i <= last
        invariant
            h@ == hay@,
            n@ == needle@,
            1 <= n@.len() <= h@.len(),
            hn == h@.len(),
            last == h@.len() - n@.len(),
            0 <= i <= last + 1,
            forall|j: int| 0 <= j < i ==> #[trigger] h@.subrange(j, j + n@.len()) != n@,
        decreases last + 1 - i,
    {
        let mut k: usize = 0;
        let mut same = true;
        while k < n.len()
            invariant
                h@ == hay@,
                n@ == needle@,
                i <= last,
                hn == h@.len(),
                1 <= n@.len() <= h@.len(),
                last == h@.len() - n@.len(),
                0 <= k <= n@.len(),
                same == (forall|m: int| 0 <= m < k ==> h@[i + m] == n@[m]),
            decreases n@.len() - k,
        {
            if h[i + k] != n[k] {
                same = false;
            }
            k = k + 1;
        }
        if same {
            assert(hay@.subrange(i as int, i + needle@.len()) =~= needle@);
            return true;
        } else {
            let ghost m = choose|m: int| 0 <= m < n@.len() && h@[i + m] != n@[m];
            assert(h@.subrange(i as int, i + n@.len())[m] != n@[m]);
        }
        i = i + 1;
    }
    assert forall|j: int| !(0 <= j && j + needle@.len() <= hay@.len() && #[trigger] hay@.subrange(j, j + needle@.len()) == needle@) by {
        if 0 <= j && j + needle@.len() <= hay@.len() {
            assert(j < i);
        }
    }
    false
}

/// Whether the error says that the game session expired.
pub fn is_session_expiry_error(err: &McpError) -> (r: bool)
    ensures
        r == is_session_expiry(*err),
{
    let message: &str = match err {
        McpError::ToolError { message, .. } => message.as_str(),
        McpError::Transport(m) => m.as_str(),
        _ => {
            return false;
        },
    };
    text_contains(message, SESSION_RECOVERY_MARKERS[0]) || text_contains(
        message,
        SESSION_RECOVERY_MARKERS[1],
    )
}

/// Whether a call of `tool` gets the game session id added to its arguments:
/// every tool but the ones that log in or register, once a session id exists.
pub fn injects_session_id(tool: &str, has_session_id: bool) -> (r: bool)
    ensures
        r == (!is_auth_tool(tool@) && has_session_id),
{
    !str_equals(tool, "login") && !str_equals(tool, "register") && has_session_id
}

/// Whether a failed call of `tool` is recovered by logging in again and
/// retrying once: not for the auth tools, only with stored credentials, and
/// only when the error says that the game session expired.
pub fn can_recover(tool: &str, has_username: bool, has_password: bool, err: &McpError) -> (r:
    bool)
    ensures
        r == (!is_auth_tool(tool@) && has_username && has_password && is_session_expiry(*err)),
{
    !str_equals(tool, "login") && !str_equals(tool, "register") && has_username && has_password
        && is_session_expiry_error(err)
}

/// How a tool result is read.
#[derive(Debug)]
pub enum ToolOutcome {
    /// Use the structured content, which is a JSON object.
    Structured,
    /// Parse this text content as JSON.
    ParseText(String),
    /// The call failed.
    Failed(McpError),
}

/// Reads a tool result: an error result fails with its first text (or
/// "unknown error"); otherwise structured content that is an object wins;
/// otherwise the first text content is parsed; without one the result has
/// no content.
pub fn interpret_tool_result(
    tool: &str,
    is_error: bool,
    first_text: Option<String>,
    structured_is_object: bool,
) -> (r: ToolOutcome)
    ensures
        is_error ==> (r matches ToolOutcome::Failed(McpError::ToolError { tool: t, message: m })
            && t@ == tool@ && m@ == (match first_text {
            Some(x) => x@,
            None => "unknown error"@,
        })),
        !is_error && structured_is_object ==> r is Structured,
        !is_error && !structured_is_object && first_text is Some ==> (r matches ToolOutcome::ParseText(
            x,
        ) && x@ == first_text->0@),
        !is_error && !structured_is_object && first_text is None ==> (r matches ToolOutcome::Failed(
            McpError::NoContent { tool: t },
        ) && t@ == tool@),
{
    if is_error {
        let message = match first_text {
            Some(t) => t,
            None => "unknown error".to_owned(),
        };
        return ToolOutcome::Failed(McpError::ToolError { tool: tool.to_owned(), message });
    }
    if structured_is_object {
        return ToolOutcome::Structured;
    }
    match first_text {
        Some(t) => ToolOutcome::ParseText(t),
        None => ToolOutcome::Failed(McpError::NoContent { tool: tool.to_owned() }),
    }
}

/// The text of a JSON parse error. Trusted: serde_json's `Display` for its
/// `Error`; nothing is promised of the text.
#[verifier::external_body]
pub(crate) fn json_error_text(e: &serde_json::Error) -> String {
    format!("{e}")
}

impl McpError {
    /// The error's message, as it is shown to the user.
    pub fn message(&self) -> (s: String)
        ensures
            self matches McpError::ToolError { tool, message } ==> s@ == "MCP tool '"@ + tool@
                + "' failed: "@ + message@,
            self matches McpError::NoContent { tool } ==> s@ == "MCP tool '"@ + tool@
                + "' returned no parseable content"@,
            self matches McpError::RecoveryFailed { tool, message } ==> s@
                == "session recovery failed during '"@ + tool@ + "': "@ + message@,
            self matches McpError::Transport(m) ==> s@ == "MCP transport error: "@ + m@,
            self matches McpError::JsonParse { tool, .. } ==> exists|detail: Seq<char>|
                s@ == "JSON parse error in '"@ + tool@ + "' response: "@ + detail,
    {
        let mut out: Vec<char> = Vec::new();
        match self {
            McpError::ToolError { tool, message } => {
                push_str(&mut out, "MCP tool '");
                push_str(&mut out, tool.as_str());
                push_str(&mut out, "' failed: ");
                push_str(&mut out, message.as_str());
            },
            McpError::NoContent { tool } => {
                push_str(&mut out, "MCP tool '");
                push_str(&mut out, tool.as_str());
                push_str(&mut out, "' returned no parseable content");
            },
            McpError::RecoveryFailed { tool, message } => {
                push_str(&mut out, "session recovery failed during '");
                push_str(&mut out, tool.as_str());
                push_str(&mut out, "': ");
                push_str(&mut out, message.as_str());
            },
            McpError::Transport(m) => {
                push_str(&mut out, "MCP transport error: ");
                push_str(&mut out, m.as_str());
            },
            McpError::JsonParse { tool, source } => {
                push_str(&mut out, "JSON parse error in '");
                push_str(&mut out, tool.as_str());
                push_str(&mut out, "' response: ");
                let detail = json_error_text(source);
                let ghost before = out@;
                push_str(&mut out, detail.as_str());
                assert(out@ == before + detail@);
            },
        }
        let s = string_from_chars(&out);
        proof {
            match self {
                McpError::ToolError { tool, message } => {
                    assert(s@ =~= "MCP tool '"@ + tool@ + "' failed: "@ + message@);
                },
                McpError::NoContent { tool } => {
                    assert(s@ =~= "MCP tool '"@ + tool@ + "' returned no parseable content"@);
                },
                McpError::RecoveryFailed { tool, message } => {
                    assert(s@ =~= "session recovery failed during '"@ + tool@ + "': "@ + message@);
                },
                McpError::Transport(m) => {
                    assert(s@ =~= "MCP transport error: "@ + m@);
                },
                McpError::JsonParse { tool, .. } => {
                    let d = s@.subrange(("JSON parse error in '"@ + tool@ + "' response: "@).len() as int, s@.len() as int);
                    assert(s@ =~= "JSON parse error in '"@ + tool@ + "' response: "@ + d);
                },
            }
        }
        s
    }
}


/// The message of an error, where the library knows it exactly (all but a
/// JSON parse error, whose text comes from serde_json).
pub open spec fn known_message(e: McpError) -> Option<Seq<char>> {
    match e {
        McpError::ToolError { tool, message } => Some("MCP tool '"@ + tool@ + "' failed: "@ + message@),
        McpError::NoContent { tool } => Some("MCP tool '"@ + tool@ + "' returned no parseable content"@),
        McpError::RecoveryFailed { tool, message } => Some(
            "session recovery failed during '"@ + tool@ + "': "@ + message@,
        ),
        McpError::Transport(m) => Some("MCP transport error: "@ + m@),
        McpError::JsonParse { .. } => None,
    }
}

/// Where a tool call stands: its first try, logging in again after a
/// session expiry, or its one retry.
#[derive(Debug, Clone, Copy, PartialEq, Eq, Structural)]
pub enum CallStage {
    First,
    Relogin,
    Retry,
}

/// What the step in progress gave.
#[derive(Debug)]
pub enum CallEvent {
    /// The call (or the login) succeeded.
    Succeeded,
    /// It failed with this error.
    Failed(McpError),
}

/// What the session does next.
#[derive(Debug)]
pub enum CallAction {
    /// Return what the last call gave.
    Finish,
    /// Return this error.
    Fail(McpError),
    /// Log in again with the stored credentials.
    LogIn,
    /// Call the tool again, with the new session id.
    RetryCall,
}

/// One step of a tool call with session recovery: a failure of the first
/// try that `can_recover` accepts leads to one new login and then one
/// retry; a failed login ends the call with `RecoveryFailed`; whatever the
/// retry gives is final. So a call logs in again at most once and is
/// retried at most once.
pub fn call_step(
    tool: &str,
    has_username: bool,
    has_password: bool,
    stage: CallStage,
    event: CallEvent,
) -> (r: (CallStage, CallAction))
    ensures
        match event {
            CallEvent::Succeeded => if stage == CallStage::Relogin {
                r == (CallStage::Retry, CallAction::RetryCall)
            } else {
                r.1 is Finish
            },
            CallEvent::Failed(e) => if stage == CallStage::First {
                if !is_auth_tool(tool@) && has_username && has_password && is_session_expiry(e) {
                    r.0 == CallStage::Relogin && r.1 is LogIn
                } else {
                    r.1 matches CallAction::Fail(f) && f == e
                }
            } else if stage == CallStage::Retry {
                r.1 matches CallAction::Fail(f) && f == e
            } else {
                r.1 matches CallAction::Fail(McpError::RecoveryFailed { tool: t, message: m })
                    && t@ == tool@ && "re-login failed: "@.is_prefix_of(m@) && (known_message(e) matches Some(k) ==> m@ == "re-login failed: "@ + k)
            },
        },
        r.1 is LogIn ==> stage == CallStage::First && r.0 == CallStage::Relogin,
        r.1 is RetryCall ==> stage == CallStage::Relogin && r.0 == CallStage::Retry,
        stage == CallStage::Retry ==> (r.1 is Finish || r.1 is Fail),
{
    match event {
        CallEvent::Succeeded => {
            if stage == CallStage::Relogin {
                (CallStage::Retry, CallAction::RetryCall)
            } else {
                (stage, CallAction::Finish)
            }
        },
        CallEvent::Failed(e) => {
            if stage == CallStage::First {
                if can_recover(tool, has_username, has_password, &e) {
                    (CallStage::Relogin, CallAction::LogIn)
                } else {
                    (stage, CallAction::Fail(e))
                }
            } else if stage == CallStage::Retry {
                (stage, CallAction::Fail(e))
            } else {
                let mut v: Vec<char> = Vec::new();
                push_str(&mut v, "re-login failed: ");
                let inner = e.message();
                push_str(&mut v, inner.as_str());
                let m = string_from_chars(&v);
                assert("re-login failed: "@.is_prefix_of(m@)) by {
                    assert(m@.subrange(0, "re-login failed: "@.len() as int) =~= "re-login failed: "@);
                }
                proof {
                    if known_message(e) is Some {
                        assert(inner@ == known_message(e)->0);
                    }
                }
                (CallStage::Retry, CallAction::Fail(McpError::RecoveryFailed { tool: tool.to_owned(), message: m }))
            }
        },
    }
}


} // verus!
