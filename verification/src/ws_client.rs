//! The rules the WebSocket receive loop follows when the connection closes.
//!
//! Close codes decide what happens next:
//!   1000 (and any other code) → reconnect after an exponential backoff,
//!   4001 (session replaced)   → stop, never reconnect,
//!   4002 (auth timeout)       → reconnect at once,
//!   4003 (rate limited)       → wait `retry_after` seconds, then reconnect.
//! The socket, the sleeps and the login handshake belong to the caller; this
//! module decides, from the close code and the attempt counter, what to do.

use vstd::prelude::*;
use vstd::arithmetic::power2::pow2;
use vstd::string::*;
use vstd::utf8::*;
use crate::models::ConnectionState;
use crate::text::{chars_of, parse_u64, parse_u64_chars, trim, trim_bounds};

verus! {

/// WS v2 endpoint: push events only.
pub const WS_URL: &'static str = "wss://game.spacemolt.com/ws/v2";

/// Reconnect attempts allowed before giving up.
pub const MAX_RECONNECT_ATTEMPTS: u32 = 10;

/// Longest wait, in seconds, between reconnect attempts.
pub const MAX_BACKOFF_SECS: u64 = 30;

/// Wait, in seconds, after a rate-limited close whose reason names no number.
pub const DEFAULT_RETRY_AFTER_SECS: u64 = 30;

/// What the receive loop does when the server closes the socket.
#[derive(Debug, Clone, Copy, PartialEq, Eq, Structural)]
pub enum ReconnectAction {
    /// Normal close: reconnect after `delay_secs` seconds; `attempt` is the
    /// attempt number the loop records.
    Backoff { delay_secs: u64, attempt: u32 },
    /// Session replaced: do not reconnect.
    Abort,
    /// Auth timeout: reconnect at once.
    Immediate,
    /// Rate limited: wait `seconds`, then reconnect.
    WaitFor { seconds: u64 },
}

/// The backoff before reconnect attempt `attempt` (counted from 1):
/// 2^(attempt-1) seconds, the exponent capped at 5, the delay at 30 s.
pub open spec fn backoff_delay(attempt: u32) -> u64 {
    let e: nat = if attempt - 1 < 5 { (attempt - 1) as nat } else { 5 };
    if pow2(e) < MAX_BACKOFF_SECS {
        pow2(e) as u64
    } else {
        MAX_BACKOFF_SECS
    }
}

// --- retry_after in a close reason ---------------------------------------

/// The `u64` at `key` when `text` parses as a JSON object holding a
/// non-negative integer there (serde_json's `from_str`, `get`, `as_u64`).
pub uninterp spec fn json_u64_field(text: Seq<char>, key: Seq<char>) -> Option<u64>;

/// The characters of `s.to_lowercase()`.
pub uninterp spec fn lowercase_text(s: Seq<char>) -> Seq<char>;

/// Reads the JSON object in `text` and returns the non-negative integer stored
/// at `key`, when there is one. Trusted: serde_json's `from_str::<Value>`,
/// `Value::get` and `Value::as_u64`; the result is named, not stated.
#[verifier::external_body]
fn json_object_u64_field(text: &str, key: &str) -> (r: Option<u64>)
    ensures
        r == json_u64_field(text@, key@),
{
    serde_json::from_str::<serde_json::Value>(text).ok().and_then(|v| v.get(key).and_then(|f| f.as_u64()))
}

/// `str::to_lowercase`. Trusted; its Unicode mapping is named, not stated.
#[verifier::external_body]
fn to_lowercase(s: &str) -> (r: String)
    ensures
        r@ == lowercase_text(s@),
{
    s.to_lowercase()
}

pub open spec fn retry_after_key() -> Seq<char> {
    "retry_after"@
}

pub open spec fn matches_at(hay: Seq<u8>, pat: Seq<u8>, i: int) -> bool {
    0 <= i && i + pat.len() <= hay.len() && hay.subrange(i, i + pat.len()) == pat
}

pub open spec fn is_first_match(hay: Seq<u8>, pat: Seq<u8>, i: int) -> bool {
    matches_at(hay, pat, i) && forall|j: int| 0 <= j < i ==> !matches_at(hay, pat, j)
}

/// The byte index of the first occurrence of `pat` in `hay` (what `str::find` returns).
pub open spec fn first_match(hay: Seq<u8>, pat: Seq<u8>) -> Option<int> {
    if exists|i: int| is_first_match(hay, pat, i) {
        Some(choose|i: int| is_first_match(hay, pat, i))
    } else {
        None
    }
}

pub open spec fn is_digit_byte(b: u8) -> bool {
    48 <= b <= 57
}

/// `b` without its leading non-digit bytes.
pub open spec fn skip_non_digits(b: Seq<u8>) -> Seq<u8>
    decreases b.len(),
{
    if b.len() > 0 && !is_digit_byte(b[0]) {
        skip_non_digits(b.drop_first())
    } else {
        b
    }
}

/// The digits at the start of `b`.
pub open spec fn leading_digits(b: Seq<u8>) -> Seq<u8>
    decreases b.len(),
{
    if b.len() > 0 && is_digit_byte(b[0]) {
        seq![b[0]] + leading_digits(b.drop_first())
    } else {
        Seq::<u8>::empty()
    }
}

pub open spec fn bytes_as_chars(b: Seq<u8>) -> Seq<char> {
    b.map_values(|x: u8| x as char)
}

/// Where the text search for `retry_after` starts: the byte index of its
/// first occurrence in the lower-cased reason.
pub open spec fn retry_after_position(reason: Seq<char>) -> Option<int> {
    first_match(encode_utf8(lowercase_text(reason)), encode_utf8(retry_after_key()))
}

/// The reason is neither JSON carrying `retry_after` nor a bare number, so the
/// text after the word `retry_after` is read.
pub open spec fn reaches_text_search(reason: Seq<char>) -> bool {
    json_u64_field(reason, retry_after_key()) is None && parse_u64(trim(reason)) is None
}

/// Where the text after `retry_after` starts: the byte index just past the
/// word's first occurrence in the lower-cased reason, when that index is a
/// character boundary of the reason itself (lower-casing can change byte
/// lengths, so the index found in the lower-cased text may not be one).
pub open spec fn retry_after_cut(reason: Seq<char>) -> Option<int> {
    if retry_after_position(reason) is Some && is_char_boundary(
        encode_utf8(reason),
        retry_after_position(reason)->0 + 11,
    ) {
        Some(retry_after_position(reason)->0 + 11)
    } else {
        None
    }
}

/// The first run of ASCII digits in the bytes `b`, read as a `u64`.
pub open spec fn first_number(b: Seq<u8>) -> Option<u64> {
    parse_u64(bytes_as_chars(leading_digits(skip_non_digits(b))))
}

/// The wait that a rate-limited close reason asks for:
/// 1. a JSON object's non-negative integer `retry_after`; else
/// 2. the whole trimmed reason read as a `u64`; else
/// 3. the first run of ASCII digits after `retry_after` (matched
///    case-insensitively, where the word ends on a character boundary of
///    the reason), read as a `u64`; else
/// 4. the first run of ASCII digits anywhere in the reason, read as a `u64`;
/// else nothing: no number was found.
pub open spec fn retry_after_spec(reason: Seq<char>) -> Option<u64> {
    if json_u64_field(reason, retry_after_key()) is Some {
        json_u64_field(reason, retry_after_key())
    } else if parse_u64(trim(reason)) is Some {
        parse_u64(trim(reason))
    } else if retry_after_cut(reason) is Some && first_number(
        encode_utf8(reason).skip(retry_after_cut(reason)->0),
    ) is Some {
        first_number(encode_utf8(reason).skip(retry_after_cut(reason)->0))
    } else {
        first_number(encode_utf8(reason))
    }
}

proof fn lemma_first_match_unique(hay: Seq<u8>, pat: Seq<u8>, i: int)
    requires
        is_first_match(hay, pat, i),
    ensures
        first_match(hay, pat) == Some(i),
{
    let k = choose|k: int| is_first_match(hay, pat, k);
    assert(is_first_match(hay, pat, k));
    if k < i {
        assert(!matches_at(hay, pat, k));
    } else if k > i {
        assert(!matches_at(hay, pat, i));
    }
}

/// The first byte index at which `pat` occurs in `hay`.
fn find_bytes(hay: &[u8], pat: &[u8]) -> (r: Option<usize>)
    ensures
        match r {
            Some(i) => first_match(hay@, pat@) == Some(i as int),
            None => first_match(hay@, pat@) is None,
        },
{
    if pat.len() > hay.len() {
        assert forall|i: int| !is_first_match(hay@, pat@, i) by {}
        return None;
    }
    if pat.len() == 0 {
        assert(hay@.subrange(0, 0) =~= pat@);
        proof {
            lemma_first_match_unique(hay@, pat@, 0);
        }
        return Some(0);
    }
    let hn = hay.len();
    let last = hn - pat.len();
    let mut i: usize = 0;
    while i <= last
        invariant
            1 <= pat@.len() <= hay@.len(),
            hn == hay@.len(),
            last == hay@.len() - pat@.len(),
            0 <= i <= last + 1,
            forall|j: int| 0 <= j < i ==> !matches_at(hay@, pat@, j),
        decreases last + 1 - i,
    {
        let mut k: usize = 0;
        let mut same = true;
        while k < pat.len()
            invariant
                i <= last,
                hn == hay@.len(),
                1 <= pat@.len() <= hay@.len(),
                last == hay@.len() - pat@.len(),
                0 <= k <= pat@.len(),
                same == (forall|m: int| 0 <= m < k ==> hay@[i + m] == pat@[m]),
            decreases pat@.len() - k,
        {
            if hay[i + k] != pat[k] {
                same = false;
            }
            k = k + 1;
        }
        if same {
            assert(hay@.subrange(i as int, i + pat@.len()) =~= pat@);
            proof {
                lemma_first_match_unique(hay@, pat@, i as int);
            }
            return Some(i);
        } else {
            let ghost m = choose|m: int| 0 <= m < pat@.len() && hay@[i + m] != pat@[m];
            assert(hay@.subrange(i as int, i + pat@.len())[m] != pat@[m]);
        }
        i = i + 1;
    }
    assert forall|i: int| !is_first_match(hay@, pat@, i) by {
        if is_first_match(hay@, pat@, i) {
            assert(matches_at(hay@, pat@, i));
        }
    }
    None
}

proof fn lemma_skip_non_digits(b: Seq<u8>, i: int)
    requires
        0 <= i <= b.len(),
        forall|j: int| 0 <= j < i ==> !is_digit_byte(#[trigger] b[j]),
    ensures
        skip_non_digits(b) == skip_non_digits(b.subrange(i, b.len() as int)),
    decreases i,
{
    if i > 0 {
        assert(b.drop_first().subrange(i - 1, b.drop_first().len() as int) =~= b.subrange(
            i,
            b.len() as int,
        ));
        assert forall|j: int| 0 <= j < i - 1 implies !is_digit_byte(#[trigger] b.drop_first()[j]) by {
            assert(b.drop_first()[j] == b[j + 1]);
        }
        lemma_skip_non_digits(b.drop_first(), i - 1);
    } else {
        assert(b.subrange(0, b.len() as int) =~= b);
    }
}

proof fn lemma_leading_digits(b: Seq<u8>, j: int)
    requires
        0 <= j <= b.len(),
        forall|k: int| 0 <= k < j ==> is_digit_byte(#[trigger] b[k]),
        j == b.len() || !is_digit_byte(b[j]),
    ensures
        leading_digits(b) == b.subrange(0, j),
    decreases j,
{
    if j > 0 {
        assert forall|k: int| 0 <= k < j - 1 implies is_digit_byte(#[trigger] b.drop_first()[k]) by {
            assert(b.drop_first()[k] == b[k + 1]);
        }
        if j < b.len() {
            assert(b.drop_first()[j - 1] == b[j]);
        }
        lemma_leading_digits(b.drop_first(), j - 1);
        assert(seq![b[0]] + b.drop_first().subrange(0, j - 1) =~= b.subrange(0, j));
    } else {
        assert(b.subrange(0, 0) =~= Seq::<u8>::empty());
    }
}

/// Reads the first run of ASCII digits at or after byte `start` of `bytes`.
fn digits_after(bytes: &[u8], start: usize) -> (r: Option<u64>)
    requires
        start <= bytes@.len(),
    ensures
        r == first_number(bytes@.skip(start as int)),
{
    let n = bytes.len();
    let ghost tail = bytes@.skip(start as int);
    let mut i = start;
    while i < n && !(48 <= bytes[i] && bytes[i] <= 57)
        invariant
            start <= i <= n == bytes@.len(),
            tail == bytes@.skip(start as int),
            forall|j: int| 0 <= j < i - start ==> !is_digit_byte(#[trigger] tail[j]),
        decreases n - i,
    {
        assert(tail[i - start] == bytes@[i as int]);
        i = i + 1;
    }
    proof {
        lemma_skip_non_digits(tail, i - start);
        assert(tail.subrange(i - start, tail.len() as int) =~= bytes@.skip(i as int));
    }
    let ghost rest = bytes@.skip(i as int);
    let mut digits: Vec<char> = Vec::new();
    let mut j = i;
    while j < n && 48 <= bytes[j] && bytes[j] <= 57
        invariant
            i <= j <= n == bytes@.len(),
            rest == bytes@.skip(i as int),
            forall|k: int| 0 <= k < j - i ==> is_digit_byte(#[trigger] rest[k]),
            digits@ == bytes_as_chars(rest.subrange(0, j - i)),
        decreases n - j,
    {
        assert(rest[j - i] == bytes@[j as int]);
        digits.push(bytes[j] as char);
        assert(bytes_as_chars(rest.subrange(0, j + 1 - i)) =~= bytes_as_chars(
            rest.subrange(0, j - i),
        ).push(bytes@[j as int] as char));
        j = j + 1;
    }
    proof {
        if j < n {
            assert(rest[j - i] == bytes@[j as int]);
        }
        lemma_leading_digits(rest, j - i);
        assert(digits@.subrange(0, digits@.len() as int) =~= digits@);
    }
    parse_u64_chars(&digits, 0, digits.len())
}

/// Where the text search for `retry_after` would slice the reason: the
/// byte index just after the word's first occurrence in the lower-cased
/// reason, when the reason is neither JSON carrying `retry_after` nor a bare
/// number and the word occurs.
fn retry_after_slice_point(reason: &str) -> (r: Option<usize>)
    ensures
        match r {
            Some(i) => reaches_text_search(reason@) && retry_after_position(reason@) is Some
                && i == retry_after_position(reason@)->0 + 11,
            None => !(reaches_text_search(reason@) && retry_after_position(reason@) is Some),
        },
{
    if json_object_u64_field(reason, "retry_after").is_some() {
        return None;
    }
    let cs = chars_of(reason);
    let (a, z) = trim_bounds(&cs);
    if parse_u64_chars(&cs, a, z).is_some() {
        return None;
    }
    let lowered = to_lowercase(reason);
    let hay = lowered.as_str().as_bytes();
    match find_bytes(hay, "retry_after".as_bytes()) {
        None => None,
        Some(pos) => {
            proof {
                reveal_strlit("retry_after");
                assert(is_ascii_chars(retry_after_key()));
                is_ascii_chars_encode_utf8(retry_after_key());
            }
            let n = hay.len();
            assert(pos + 11 <= n);
            Some(pos + 11)
        },
    }
}

/// The wait that a rate-limited close reason asks for (see `retry_after_spec`).
pub fn parse_retry_after(reason: &str) -> (r: Option<u64>)
    ensures
        r == retry_after_spec(reason@),
{
    if let Some(retry) = json_object_u64_field(reason, "retry_after") {
        return Some(retry);
    }
    let cs = chars_of(reason);
    let (a, z) = trim_bounds(&cs);
    if let Some(n) = parse_u64_chars(&cs, a, z) {
        return Some(n);
    }
    let bytes = reason.as_bytes();
    proof {
        vstd::utf8::encode_utf8_valid_utf8(reason@);
    }
    if let Some(cut) = retry_after_slice_point(reason) {
        if reason.is_char_boundary(cut) {
            assert(cut <= bytes@.len()) by {
                if cut > bytes@.len() {
                    assert(!is_char_boundary(bytes@, cut as int));
                }
            }
            if let Some(n) = digits_after(bytes, cut) {
                return Some(n);
            }
        }
    }
    assert(bytes@.skip(0) =~= bytes@);
    digits_after(bytes, 0)
}

/// For a close reason that is neither a JSON object carrying `retry_after`
/// nor a bare number: when the word `retry_after` first occurs (matched
/// case-insensitively) at byte `p`, ends on a character boundary of the
/// reason, and ASCII digits follow it, the wait is the first run of digits
/// after the word, whatever numbers come earlier in the reason.
pub proof fn lemma_retry_after_reads_digits_after_word(reason: Seq<char>, p: int, n: u64)
    requires
        json_u64_field(reason, retry_after_key()) is None,
        parse_u64(trim(reason)) is None,
        retry_after_position(reason) == Some(p),
        is_char_boundary(encode_utf8(reason), p + 11),
        first_number(encode_utf8(reason).skip(p + 11)) == Some(n),
    ensures
        retry_after_spec(reason) == Some(n),
{
}

/// Where the wait of a rate-limited close comes from: a JSON object's
/// non-negative integer `retry_after` wins over everything; otherwise a
/// reason that is, trimmed, a bare number is that wait; otherwise, when the
/// word `retry_after` does not occur, the first run of ASCII digits anywhere
/// in the reason (none: no wait is named).
pub proof fn lemma_retry_after_sources(reason: Seq<char>)
    ensures
        json_u64_field(reason, retry_after_key()) matches Some(s) ==> retry_after_spec(reason) == Some(s),
        json_u64_field(reason, retry_after_key()) is None ==> (parse_u64(trim(reason)) matches Some(s)
            ==> retry_after_spec(reason) == Some(s)),
        reaches_text_search(reason) && retry_after_position(reason) is None ==> retry_after_spec(reason)
            == first_number(encode_utf8(reason)),
{
}

/// The reconnect action for close code `code` with reason `reason`, as
/// attempt number `attempt`.
pub open spec fn close_action(code: u16, reason: Seq<char>, attempt: u32) -> ReconnectAction {
    if code == 4001 {
        ReconnectAction::Abort
    } else if code == 4002 {
        ReconnectAction::Immediate
    } else if code == 4003 {
        ReconnectAction::WaitFor {
            seconds: match retry_after_spec(reason) {
                Some(s) => s,
                None => DEFAULT_RETRY_AFTER_SECS,
            },
        }
    } else {
        ReconnectAction::Backoff { delay_secs: backoff_delay(attempt), attempt }
    }
}

/// Classifies a close code into the reconnect action. `attempt` counts from 1;
/// codes other than 4001, 4002 and 4003 back off exponentially.
pub fn classify_close_code(code: u16, reason: &str, attempt: u32) -> (action: ReconnectAction)
    requires
        code == 4001 || code == 4002 || code == 4003 || attempt >= 1,
    ensures
        action == close_action(code, reason@, attempt),
{
    if code == 4001 {
        ReconnectAction::Abort
    } else if code == 4002 {
        ReconnectAction::Immediate
    } else if code == 4003 {
        let seconds = match parse_retry_after(reason) {
            Some(s) => s,
            None => DEFAULT_RETRY_AFTER_SECS,
        };
        ReconnectAction::WaitFor { seconds }
    } else {
        let delay_secs = backoff_delay_secs(attempt);
        ReconnectAction::Backoff { delay_secs, attempt }
    }
}

/// `classify_close_code` for every input: `None` exactly for a backoff code
/// with attempt 0, which has no attempt before it to back off from.
pub fn classify_close_code_checked(code: u16, reason: &str, attempt: u32) -> (r: Option<
    ReconnectAction,
>)
    ensures
        r is None <==> (code != 4001 && code != 4002 && code != 4003 && attempt == 0),
        r matches Some(a) ==> a == close_action(code, reason@, attempt),
{
    if code != 4001 && code != 4002 && code != 4003 && attempt == 0 {
        return None;
    }
    Some(classify_close_code(code, reason, attempt))
}

/// The backoff before reconnect attempt `attempt` (see `backoff_delay`).
pub fn backoff_delay_secs(attempt: u32) -> (d: u64)
    requires
        attempt >= 1,
    ensures
        d == backoff_delay(attempt),
        1 <= d <= MAX_BACKOFF_SECS,
{
    let exp: u32 = if attempt - 1 < 5 {
        attempt - 1
    } else {
        5
    };
    proof {
        vstd::arithmetic::power2::lemma2_to64();
    }
    let shifted: u64 = if exp == 0 {
        1
    } else if exp == 1 {
        2
    } else if exp == 2 {
        4
    } else if exp == 3 {
        8
    } else if exp == 4 {
        16
    } else {
        32
    };
    assert(shifted == pow2(exp as nat));
    if shifted < MAX_BACKOFF_SECS {
        shifted
    } else {
        MAX_BACKOFF_SECS
    }
}

/// The backoff never waits less than one second nor more than `MAX_BACKOFF_SECS`.
pub proof fn lemma_backoff_bounded(attempt: u32)
    requires
        attempt >= 1,
    ensures
        1 <= backoff_delay(attempt) <= MAX_BACKOFF_SECS,
{
    vstd::arithmetic::power2::lemma2_to64();
}

/// The backoff never shrinks as the attempt count grows.
pub proof fn lemma_backoff_monotonic(a: u32, b: u32)
    requires
        1 <= a <= b,
    ensures
        backoff_delay(a) <= backoff_delay(b),
{
    vstd::arithmetic::power2::lemma2_to64();
}

// --- the receive loop's decisions ----------------------------------------

/// A reconnect that the receive loop performs: send `notify` to the caller,
/// sleep `wait_secs`, record `attempt`, then try to log in again.
#[derive(Debug, Clone, Copy, PartialEq, Eq, Structural)]
pub struct ReconnectPlan {
    pub notify: ConnectionState,
    pub wait_secs: u64,
    pub attempt: u32,
}

/// What the receive loop does after the socket closes.
#[derive(Debug, Clone, Copy, PartialEq, Eq, Structural)]
pub enum LoopStep {
    /// Send `notify` and leave the loop.
    Stop { notify: ConnectionState },
    /// Reconnect as planned.
    Reconnect(ReconnectPlan),
}

/// The receive loop's step after a close classified as `action`, with
/// `attempt` attempts recorded so far.
pub open spec fn step_after_close(attempt: u32, action: ReconnectAction) -> LoopStep {
    match action {
        ReconnectAction::Abort => LoopStep::Stop { notify: ConnectionState::SessionReplaced },
        ReconnectAction::WaitFor { seconds } => LoopStep::Reconnect(
            ReconnectPlan {
                notify: ConnectionState::RateLimited { retry_after: seconds },
                wait_secs: seconds,
                attempt,
            },
        ),
        ReconnectAction::Backoff { delay_secs, attempt: next } => LoopStep::Reconnect(
            ReconnectPlan { notify: ConnectionState::Reconnecting, wait_secs: delay_secs, attempt: next },
        ),
        ReconnectAction::Immediate => LoopStep::Reconnect(
            ReconnectPlan { notify: ConnectionState::Reconnecting, wait_secs: 0, attempt: 0 },
        ),
    }
}

/// The loop's step once a close frame has been classified as `action`
/// (`classify_close_code` with attempt number `attempt + 1`), when the loop
/// has recorded `attempt` attempts so far.
pub fn plan_after_close(attempt: u32, action: ReconnectAction) -> (step: LoopStep)
    ensures
        step == step_after_close(attempt, action),
{
    match action {
        ReconnectAction::Abort => LoopStep::Stop { notify: ConnectionState::SessionReplaced },
        ReconnectAction::WaitFor { seconds } => LoopStep::Reconnect(
            ReconnectPlan {
                notify: ConnectionState::RateLimited { retry_after: seconds },
                wait_secs: seconds,
                attempt,
            },
        ),
        ReconnectAction::Backoff { delay_secs, attempt: next } => LoopStep::Reconnect(
            ReconnectPlan { notify: ConnectionState::Reconnecting, wait_secs: delay_secs, attempt: next },
        ),
        ReconnectAction::Immediate => LoopStep::Reconnect(
            ReconnectPlan { notify: ConnectionState::Reconnecting, wait_secs: 0, attempt: 0 },
        ),
    }
}

/// The loop's plan after the stream ends without a close frame or fails:
/// count one more attempt and back off before it.
pub fn plan_after_drop(attempt: u32) -> (plan: ReconnectPlan)
    requires
        attempt < u32::MAX,
    ensures
        plan == (ReconnectPlan {
            notify: ConnectionState::Reconnecting,
            wait_secs: backoff_delay((attempt + 1) as u32),
            attempt: (attempt + 1) as u32,
        }),
{
    let next = attempt + 1;
    ReconnectPlan { notify: ConnectionState::Reconnecting, wait_secs: backoff_delay_secs(next), attempt: next }
}

/// Whether a reconnect with attempt number `attempt` is still allowed.
pub fn may_reconnect(attempt: u32) -> (b: bool)
    ensures
        b == (attempt <= MAX_RECONNECT_ATTEMPTS),
{
    attempt <= MAX_RECONNECT_ATTEMPTS
}

/// What the receive loop does after reconnect attempt number `attempt`.
#[derive(Debug, Clone, Copy, PartialEq, Eq, Structural)]
pub enum AfterReconnect {
    /// Logged in again: report `Connected` and keep reading.
    Connected,
    /// Failed with attempts left: follow this plan (one more attempt, after
    /// its backoff).
    Retry(ReconnectPlan),
    /// Failed with no attempt left: report `Error` and stop.
    GiveUp,
}

/// The loop's step after reconnect attempt `attempt` succeeded or failed: a
/// failure below `MAX_RECONNECT_ATTEMPTS` counts one more attempt and backs
/// off before it; only a failure at the limit gives up.
pub open spec fn reconnect_outcome(attempt: u32, succeeded: bool) -> AfterReconnect {
    if succeeded {
        AfterReconnect::Connected
    } else if attempt < MAX_RECONNECT_ATTEMPTS {
        AfterReconnect::Retry(
            ReconnectPlan {
                notify: ConnectionState::Reconnecting,
                wait_secs: backoff_delay((attempt + 1) as u32),
                attempt: (attempt + 1) as u32,
            },
        )
    } else {
        AfterReconnect::GiveUp
    }
}

/// What the loop does after reconnect attempt `attempt`.
pub fn after_reconnect(attempt: u32, succeeded: bool) -> (step: AfterReconnect)
    ensures
        step == reconnect_outcome(attempt, succeeded),
{
    if succeeded {
        AfterReconnect::Connected
    } else if attempt < MAX_RECONNECT_ATTEMPTS {
        AfterReconnect::Retry(plan_after_drop(attempt))
    } else {
        AfterReconnect::GiveUp
    }
}



/// The close-code rules of the receive loop, for a loop that has recorded
/// `attempt` attempts: a replaced session (4001) stops it for good; an
/// auth timeout (4002) reconnects at once and starts the count again; a
/// rate limit (4003) waits the seconds the reason names (30 when it names
/// none) and keeps the count; any other code counts one more attempt and
/// waits 1, 2, 4, 8 or 16 seconds for the first five attempts and
/// `MAX_BACKOFF_SECS` after them, never less than the attempt before it.
pub proof fn lemma_close_code_rules(attempt: u32, code: u16, reason: Seq<char>)
    requires
        attempt < u32::MAX,
    ensures
        code == 4001 ==> step_after_close(attempt, close_action(code, reason, (attempt + 1) as u32))
            == (LoopStep::Stop { notify: ConnectionState::SessionReplaced }),
        code == 4002 ==> step_after_close(attempt, close_action(code, reason, (attempt + 1) as u32))
            == LoopStep::Reconnect(
            ReconnectPlan { notify: ConnectionState::Reconnecting, wait_secs: 0, attempt: 0 },
        ),
        code == 4003 ==> step_after_close(attempt, close_action(code, reason, (attempt + 1) as u32))
            == LoopStep::Reconnect(
            ReconnectPlan {
                notify: ConnectionState::RateLimited {
                    retry_after: match retry_after_spec(reason) {
                        Some(s) => s,
                        None => DEFAULT_RETRY_AFTER_SECS,
                    },
                },
                wait_secs: match retry_after_spec(reason) {
                    Some(s) => s,
                    None => DEFAULT_RETRY_AFTER_SECS,
                },
                attempt,
            },
        ),
        code != 4001 && code != 4002 && code != 4003 ==> (step_after_close(
            attempt,
            close_action(code, reason, (attempt + 1) as u32),
        ) matches LoopStep::Reconnect(plan) && plan.notify == ConnectionState::Reconnecting
            && plan.attempt == attempt + 1 && 1 <= plan.wait_secs <= MAX_BACKOFF_SECS && (attempt
            >= 1 ==> backoff_delay(attempt) <= plan.wait_secs) && plan.wait_secs == (if attempt < 5 {
            pow2(attempt as nat) as u64
        } else {
            MAX_BACKOFF_SECS
        })),
{
    vstd::arithmetic::power2::lemma2_to64();
    lemma_backoff_bounded((attempt + 1) as u32);
    if attempt >= 1 {
        lemma_backoff_monotonic(attempt, (attempt + 1) as u32);
    }
}


/// A close classified as a backoff reconnects after exactly that backoff's
/// delay, reports `Reconnecting`, and records the backoff's attempt number.
pub proof fn lemma_backoff_close_waits_its_delay(attempt: u32, delay_secs: u64, next: u32)
    ensures
        step_after_close(attempt, ReconnectAction::Backoff { delay_secs, attempt: next }) matches LoopStep::Reconnect(
            plan,
        ) && plan.wait_secs == delay_secs && plan.attempt == next && plan.notify
            == ConnectionState::Reconnecting,
{
}

/// The backoff starts at one second and doubles with each attempt until it
/// reaches `MAX_BACKOFF_SECS`, where it stays.
pub proof fn lemma_backoff_doubles(n: u32)
    requires
        1 <= n < u32::MAX,
    ensures
        backoff_delay(1) == 1,
        backoff_delay((n + 1) as u32) == (if 2 * backoff_delay(n) < MAX_BACKOFF_SECS {
            2 * backoff_delay(n)
        } else {
            MAX_BACKOFF_SECS as int
        }),
{
    vstd::arithmetic::power2::lemma2_to64();
}

/// A failed reconnect is retried with backoff while attempts are left: it
/// gives up (and reports `Error`) exactly when the next attempt would be
/// beyond `MAX_RECONNECT_ATTEMPTS`, so at most that many attempts are made
/// in a row, each waiting between one and `MAX_BACKOFF_SECS` seconds.
pub proof fn lemma_retry_until_limit(attempt: u32)
    ensures
        reconnect_outcome(attempt, false) is GiveUp <==> !(attempt + 1 <= MAX_RECONNECT_ATTEMPTS),
        reconnect_outcome(attempt, false) matches AfterReconnect::Retry(plan) ==> plan.attempt
            == attempt + 1 && plan.attempt <= MAX_RECONNECT_ATTEMPTS && 1 <= plan.wait_secs
            <= MAX_BACKOFF_SECS,
{
    if attempt < MAX_RECONNECT_ATTEMPTS {
        lemma_backoff_bounded((attempt + 1) as u32);
    }
}

} // verus!
