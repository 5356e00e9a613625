//! The read-only discipline of the game API: the tool allowlist (a viewer
//! never calls a mutating tool) and the per-tool throttle. The MCP call
//! itself and the decoding of its answer are the caller's work; a call is
//! made only after `GameApi::admit_call` accepts it.

use vstd::prelude::*;
use crate::text::{chars_of, push_all, push_str, str_equals, string_from_chars};

verus! {

#[verifier::external_type_specification]
#[verifier::external_body]
pub struct ExInstant(std::time::Instant);

/// The read-only tools a viewer may call. Battle, chat and forum, settings,
/// subscriptions, writes, state-changing trades and missions, and the
/// action-dispatch tools are all absent.
pub const ALLOWED_TOOLS: [&'static str; 71] = [
    // Player / ship / status
    "get_status", "get_state", "get_ship", "get_cargo", "get_skills",
    "get_location", "list_ships", "browse_ships", "view_ship_buy_orders",
    "commission_quote", "commission_status",
    // System / map / navigation
    "get_system", "get_poi", "get_nearby", "get_map", "get_system_agents",
    "search_systems", "find_route", "inspect",
    // Missions
    "get_missions", "get_active_missions", "completed_missions", "view_completed_mission",
    // Market / trade / storage
    "view_market", "analyze_market", "view_orders", "estimate_purchase",
    "get_trades", "view_storage", "view_faction_storage",
    "get_tax_estimate", "get_faction_tax_estimate",
    // Faction (read-only)
    "faction_info", "faction_list", "faction_get_invites", "faction_list_missions",
    "faction_garages", "faction_rooms", "faction_intel_status",
    "faction_query_intel", "faction_query_trade_intel", "faction_trade_intel_status",
    // Catalog / reference
    "catalog", "get_commands", "get_version", "get_guide", "help",
    // Captain's log / notes (read-only)
    "captains_log_list", "captains_log_get", "get_notes", "read_note",
    "get_action_log", "get_battle_log", "get_battle_status", "get_battle_summary",
    // Drones / passengers / wrecks / insurance
    "get_drone", "get_drones", "list_passengers", "list_station_passengers",
    "get_wrecks", "view_insurance", "claim_insurance", "get_insurance_quote",
    // Base / empire / achievements / notifications
    "get_base", "get_base_cost", "get_empire_info",
    "get_achievements", "get_faction_achievements",
    "get_chat_history", "get_notifications", "get_notification_settings",
];

/// Minimum seconds between two calls of a throttled tool; tools not listed
/// have no throttle.
pub const THROTTLE: [(&'static str, u64); 8] = [
    ("get_skills", 10),
    ("get_nearby", 5),
    ("get_cargo", 5),
    ("list_ships", 30),
    ("get_map", 300),
    ("get_notifications", 10),
    ("get_state", 3),
    ("get_status", 3),
];

/// The names of the allowed tools.
pub open spec fn allowed_tools() -> Seq<Seq<char>> {
    ALLOWED_TOOLS@.map_values(|t: &str| t@)
}

/// The throttle of `tool`, in seconds: the first entry of `THROTTLE` that names it.
pub open spec fn throttle_secs(tool: Seq<char>) -> Option<u64> {
    throttle_from(THROTTLE@, tool)
}

pub open spec fn throttle_from(entries: Seq<(&str, u64)>, tool: Seq<char>) -> Option<u64>
    decreases entries.len(),
{
    if entries.len() == 0 {
        None
    } else if entries[0].0@ == tool {
        Some(entries[0].1)
    } else {
        throttle_from(entries.drop_first(), tool)
    }
}

/// Whether `tool` is in the allowlist.
pub fn is_tool_allowed(tool: &str) -> (r: bool)
    ensures
        r == allowed_tools().contains(tool@),
{
    let mut i: usize = 0;
    while i < 71
        invariant
            0 <= i <= 71,
            ALLOWED_TOOLS@.len() == 71,
            forall|k: int| 0 <= k < i ==> ALLOWED_TOOLS@[k]@ != tool@,
        decreases 71 - i,
    {
        if str_equals(ALLOWED_TOOLS[i], tool) {
            assert(allowed_tools()[i as int] == tool@);
            return true;
        }
        i = i + 1;
    }
    assert forall|k: int| 0 <= k < allowed_tools().len() implies allowed_tools()[k] != tool@ by {
        assert(allowed_tools()[k] == ALLOWED_TOOLS@[k]@);
    }
    false
}

/// The throttle interval of `tool`, in seconds, if it has one.
pub fn throttle_for(tool: &str) -> (r: Option<u64>)
    ensures
        r == throttle_secs(tool@),
        r matches Some(s) ==> 3 <= s <= 300,
{
    assert(forall|k: int| 0 <= k < 8 ==> 3 <= #[trigger] THROTTLE@[k].1 <= 300);
    assert(THROTTLE@.skip(0) =~= THROTTLE@);
    let mut i: usize = 0;
    while i < 8
        invariant
            0 <= i <= 8,
            THROTTLE@.len() == 8,
            forall|k: int| 0 <= k < 8 ==> 3 <= #[trigger] THROTTLE@[k].1 <= 300,
            throttle_secs(tool@) == throttle_from(THROTTLE@.skip(i as int), tool@),
        decreases 8 - i,
    {
        let (name, secs) = THROTTLE[i];
        assert(THROTTLE@.skip(i as int)[0] == THROTTLE@[i as int]);
        assert(THROTTLE@.skip(i as int).drop_first() =~= THROTTLE@.skip(i + 1));
        if str_equals(name, tool) {
            return Some(secs);
        }
        i = i + 1;
    }
    None
}

/// Whether a call made `elapsed_nanos` ago still throttles a tool whose
/// interval is `interval_secs`; if so, the nanoseconds left.
pub fn throttle_remaining(interval_secs: u64, elapsed_nanos: u64) -> (r: Option<u64>)
    requires
        interval_secs <= 18_446_744_073,
    ensures
        elapsed_nanos < interval_secs * 1_000_000_000 ==> r == Some(
            (interval_secs * 1_000_000_000 - elapsed_nanos) as u64,
        ),
        elapsed_nanos >= interval_secs * 1_000_000_000 ==> r is None,
{
    let interval_nanos = interval_secs * 1_000_000_000;
    if elapsed_nanos < interval_nanos {
        Some(interval_nanos - elapsed_nanos)
    } else {
        None
    }
}

/// The seconds text of `{:.1}` for the duration `nanos` as an `f32`.
pub uninterp spec fn remaining_seconds_text(nanos: u64) -> Seq<char>;

/// Formats a remaining duration with one decimal, as `{:.1}` prints
/// `Duration::as_secs_f32`. Trusted; the text is named, not stated.
#[verifier::external_body]
fn remaining_seconds(nanos: u64) -> (s: String)
    ensures
        s@ == remaining_seconds_text(nanos),
{
    format!("{:.1}", std::time::Duration::from_nanos(nanos).as_secs_f32())
}

/// The current instant. Trusted: `Instant::now`; nothing is promised.
#[verifier::external_body]
fn instant_now() -> std::time::Instant {
    std::time::Instant::now()
}

/// Nanoseconds since `t` (saturating at `u64::MAX`). Trusted:
/// `Instant::elapsed`; nothing is promised, it depends on the clock.
#[verifier::external_body]
fn nanos_since(t: &std::time::Instant) -> u64 {
    u64::try_from(t.elapsed().as_nanos()).unwrap_or(u64::MAX)
}

/// When a tool was last let through.
pub struct CallRecord {
    pub tool: String,
    pub at: std::time::Instant,
}

/// What the caller passes as extra arguments of a tool call.
#[derive(Debug, Clone, Copy, PartialEq, Eq, Structural)]
pub enum ToolArgs {
    /// No extra arguments.
    Absent,
    /// A JSON object.
    Object,
    /// Any other JSON value.
    NotObject,
}

/// The text of the error that refuses a tool outside the allowlist.
pub open spec fn not_allowed_text(tool: Seq<char>) -> Seq<char> {
    "Tool '"@ + tool + "' is not in the safety allowlist"@
}

/// The text of the error that refuses a throttled call.
pub open spec fn throttled_text(tool: Seq<char>, remaining_nanos: u64) -> Seq<char> {
    "tool '"@ + tool + "' throttled ("@ + remaining_seconds_text(remaining_nanos) + "s remaining)"@
}

/// When a call of `tool`, made `elapsed` nanoseconds after its last recorded
/// call, is refused: the nanoseconds left of its throttle interval.
pub open spec fn throttle_refusal(recorded: Seq<Seq<char>>, tool: Seq<char>, elapsed: Option<u64>) -> Option<
    u64,
> {
    if throttle_secs(tool) is Some && recorded.contains(tool) && elapsed is Some && elapsed->0
        < throttle_secs(tool)->0 * 1_000_000_000 {
        Some((throttle_secs(tool)->0 * 1_000_000_000 - elapsed->0) as u64)
    } else {
        None
    }
}

/// `e` is an elapsed time, in nanoseconds, that measuring the time since
/// the instant `t` on the clock can give.
pub closed spec fn measured_since(t: std::time::Instant, e: u64) -> bool {
    call_ensures(nanos_since, (&t,), e)
}

/// The allowlist gate and per-tool throttle in front of every game query.
pub struct GameApi {
    last_calls: Vec<CallRecord>,
}

impl GameApi {
    /// The tools whose last call is recorded, in order of first call.
    pub closed spec fn recorded(&self) -> Seq<Seq<char>> {
        self.last_calls@.map_values(|r: CallRecord| r.tool@)
    }

    /// The instant recorded for the tool at position `i` of `recorded()`.
    pub closed spec fn recorded_at(&self, i: int) -> std::time::Instant {
        self.last_calls@[i].at
    }

    /// Each tool is recorded at most once.
    pub closed spec fn wf(&self) -> bool {
        forall|i: int, j: int|
            0 <= i < j < self.last_calls@.len() ==> self.last_calls@[i].tool@
                != self.last_calls@[j].tool@
    }

    /// A gate with no call recorded.
    pub fn new() -> (api: Self)
        ensures
            api.wf(),
            api.recorded().len() == 0,
    {
        let api = GameApi { last_calls: Vec::new() };
        assert(api.recorded() =~= Seq::<Seq<char>>::empty());
        api
    }

    /// How many tools have a recorded call.
    pub fn recorded_count(&self) -> (n: usize)
        ensures
            n == self.recorded().len(),
    {
        self.last_calls.len()
    }

    fn position(&self, tool: &str) -> (r: Option<usize>)
        requires
            self.wf(),
        ensures
            match r {
                Some(i) => i < self.recorded().len() && self.recorded()[i as int] == tool@,
                None => !self.recorded().contains(tool@),
            },
    {
        let mut i: usize = 0;
        while i < self.last_calls.len()
            invariant
                0 <= i <= self.last_calls@.len(),
                forall|k: int| 0 <= k < i ==> self.last_calls@[k].tool@ != tool@,
            decreases self.last_calls@.len() - i,
        {
            if str_equals(self.last_calls[i].tool.as_str(), tool) {
                return Some(i);
            }
            i = i + 1;
        }
        assert forall|k: int| 0 <= k < self.recorded().len() implies self.recorded()[k] != tool@ by {
            assert(self.recorded()[k] == self.last_calls@[k].tool@);
        }
        None
    }

    /// Lets a call of `tool` through, or refuses it because the tool's
    /// throttle interval has not passed since its last call. A call that is
    /// let through is recorded (with the current instant); a refused one
    /// changes nothing. Unthrottled tools, and the first call of any tool,
    /// always pass.
    pub fn check_throttle(&mut self, tool: &str) -> (r: Result<(), String>)
        requires
            old(self).wf(),
        ensures
            final(self).wf(),
            throttle_secs(tool@) is None ==> r is Ok,
            !old(self).recorded().contains(tool@) ==> r is Ok,
            r matches Err(e) ==> {
                &&& throttle_secs(tool@) is Some
                &&& old(self).recorded().contains(tool@)
                &&& exists|nanos: u64|
                    0 < nanos <= throttle_secs(tool@)->0 * 1_000_000_000 && e@ == throttled_text(
                        tool@,
                        nanos,
                    )
                &&& exists|elapsed: u64|
                    #[trigger] throttle_refusal(old(self).recorded(), tool@, Some(elapsed)) matches Some(left)
                        && e@ == throttled_text(tool@, left)
                &&& final(self).recorded() == old(self).recorded()
                &&& forall|i: int|
                    0 <= i < old(self).recorded().len() ==> final(self).recorded_at(i)
                        == old(self).recorded_at(i)
            },
            r is Ok ==> final(self).recorded() == (if old(self).recorded().contains(tool@) {
                old(self).recorded()
            } else {
                old(self).recorded().push(tool@)
            }),
            r is Ok ==> forall|i: int|
                0 <= i < old(self).recorded().len() && old(self).recorded()[i] != tool@
                    ==> final(self).recorded_at(i) == old(self).recorded_at(i),
            throttle_secs(tool@) is Some && old(self).recorded().contains(tool@) ==> exists|
                i: int,
                e: u64,
            |
                0 <= i < old(self).recorded().len() && old(self).recorded()[i] == tool@
                    && #[trigger] measured_since(old(self).recorded_at(i), e) && (r is Err <==> e
                    < throttle_secs(tool@)->0 * 1_000_000_000),
    {
        let pos = self.position(tool);
        let elapsed = match (throttle_for(tool), pos) {
            (Some(_), Some(p)) => Some(nanos_since(&self.last_calls[p].at)),
            _ => None,
        };
        let now = instant_now();
        let r = self.decide_throttle(tool, elapsed, now);
        proof {
            if r is Err {
                let el = elapsed->0;
                assert(throttle_refusal(old(self).recorded(), tool@, Some(el)) is Some);
            }
            if throttle_secs(tool@) is Some && old(self).recorded().contains(tool@) {
                let p = pos->0 as int;
                let el = elapsed->0;
                assert(old(self).recorded_at(p) == old(self).last_calls@[p].at);
                assert(measured_since(old(self).recorded_at(p), el));
            }
        }
        r
    }

    /// The throttle's decision for a call of `tool` made `elapsed` nanoseconds
    /// after the tool's last recorded call (`None`: not measured), at the
    /// instant `now`. The call is refused, and nothing recorded, exactly when
    /// the tool has a throttle interval, a recorded call, and less than the
    /// interval has passed since it; the error names the time left.
    /// Otherwise the call is let through and recorded at `now`.
    pub fn decide_throttle(&mut self, tool: &str, elapsed: Option<u64>, now: std::time::Instant) -> (r:
        Result<(), String>)
        requires
            old(self).wf(),
        ensures
            final(self).wf(),
            match throttle_refusal(old(self).recorded(), tool@, elapsed) {
                Some(left) => {
                    &&& r matches Err(e) && e@ == throttled_text(tool@, left)
                    &&& final(self).recorded() == old(self).recorded()
                    &&& forall|i: int|
                        0 <= i < old(self).recorded().len() ==> final(self).recorded_at(i)
                            == old(self).recorded_at(i)
                },
                None => {
                    &&& r is Ok
                    &&& final(self).recorded() == (if old(self).recorded().contains(tool@) {
                        old(self).recorded()
                    } else {
                        old(self).recorded().push(tool@)
                    })
                    &&& forall|i: int|
                        0 <= i < final(self).recorded().len() && final(self).recorded()[i] == tool@
                            ==> final(self).recorded_at(i) == now
                    &&& forall|i: int|
                        0 <= i < old(self).recorded().len() && old(self).recorded()[i] != tool@
                            ==> final(self).recorded_at(i) == old(self).recorded_at(i)
                },
            },
    {
        let pos = self.position(tool);
        if let Some(interval) = throttle_for(tool) {
            if let Some(_) = pos {
                if let Some(e) = elapsed {
                    if let Some(remaining) = throttle_remaining(interval, e) {
                        let mut text: Vec<char> = Vec::new();
                        push_str(&mut text, "tool '");
                        push_str(&mut text, tool);
                        push_str(&mut text, "' throttled (");
                        let secs = remaining_seconds(remaining);
                        push_str(&mut text, secs.as_str());
                        push_str(&mut text, "s remaining)");
                        let err = string_from_chars(&text);
                        assert(err@ =~= throttled_text(tool@, remaining));
                        return Err(err);
                    }
                }
            }
        }
        let ghost old_calls = self.last_calls@;
        match pos {
            Some(p) => {
                self.last_calls.set(p, CallRecord { tool: tool.to_owned(), at: now });
                proof {
                    assert(self.recorded() =~= old(self).recorded());
                    assert forall|i: int|
                        0 <= i < self.recorded().len() && self.recorded()[i] == tool@ implies self.recorded_at(i) == now by {
                        if i != p {
                            assert(old(self).recorded()[i] == old_calls[i].tool@);
                            assert(old(self).recorded()[p as int] == old_calls[p as int].tool@);
                        }
                    }
                }
            },
            None => {
                self.last_calls.push(CallRecord { tool: tool.to_owned(), at: now });
                proof {
                    assert(self.recorded() =~= old(self).recorded().push(tool@));
                    assert forall|i: int, j: int|
                        0 <= i < j < self.last_calls@.len() implies self.last_calls@[i].tool@
                            != self.last_calls@[j].tool@ by {
                        if j == self.last_calls@.len() - 1 {
                            assert(old(self).recorded()[i] == old_calls[i].tool@);
                        }
                    }
                    assert forall|i: int|
                        0 <= i < self.recorded().len() && self.recorded()[i] == tool@ implies self.recorded_at(i) == now by {
                        if i < old_calls.len() {
                            assert(old(self).recorded()[i] == old_calls[i].tool@);
                        }
                    }
                }
            },
        }
        Ok(())
    }

    /// Decides whether a tool call may be made: refused when the tool is not
    /// in the allowlist (nothing recorded), refused when throttled (nothing
    /// recorded), refused when the extra arguments are not a JSON object
    /// (the call is still recorded by the throttle); accepted otherwise.
    pub fn admit_call(&mut self, tool: &str, args: ToolArgs) -> (r: Result<(), String>)
        requires
            old(self).wf(),
        ensures
            final(self).wf(),
            r is Ok ==> allowed_tools().contains(tool@) && args != ToolArgs::NotObject,
            !allowed_tools().contains(tool@) ==> r == Err::<(), String>(r->Err_0) && r->Err_0@
                == not_allowed_text(tool@) && final(self).recorded() == old(self).recorded(),
            !allowed_tools().contains(tool@) ==> forall|i: int|
                0 <= i < old(self).recorded().len() ==> final(self).recorded_at(i)
                    == old(self).recorded_at(i),
            allowed_tools().contains(tool@) && args == ToolArgs::NotObject && (throttle_secs(
                tool@,
            ) is None || !old(self).recorded().contains(tool@)) ==> r is Err && r->Err_0@
                == "extra_args must be a JSON object"@,
            allowed_tools().contains(tool@) && args != ToolArgs::NotObject && (throttle_secs(
                tool@,
            ) is None || !old(self).recorded().contains(tool@)) ==> r is Ok,
    {
        if !is_tool_allowed(tool) {
            let mut text: Vec<char> = Vec::new();
            push_str(&mut text, "Tool '");
            push_str(&mut text, tool);
            push_str(&mut text, "' is not in the safety allowlist");
            return Err(string_from_chars(&text));
        }
        let throttled = self.check_throttle(tool);
        if let Err(e) = throttled {
            return Err(e);
        }
        match args {
            ToolArgs::NotObject => Err("extra_args must be a JSON object".to_owned()),
            _ => Ok(()),
        }
    }
}

impl Default for GameApi {
    fn default() -> (api: Self)
        ensures
            api.wf(),
            api.recorded().len() == 0,
    {
        GameApi::new()
    }
}


/// Every throttled tool is in the allowlist, with an interval of at least
/// three seconds.
pub proof fn lemma_throttled_tools_are_allowed(tool: Seq<char>)
    ensures
        throttle_secs(tool) matches Some(d) ==> allowed_tools().contains(tool) && d >= 3,
{
    reveal_with_fuel(throttle_from, 9);
    if throttle_secs(tool) is Some {
        reveal_strlit("get_skills");
        assert(allowed_tools()[4] == "get_skills"@);
        reveal_strlit("get_nearby");
        assert(allowed_tools()[13] == "get_nearby"@);
        reveal_strlit("get_cargo");
        assert(allowed_tools()[3] == "get_cargo"@);
        reveal_strlit("list_ships");
        assert(allowed_tools()[6] == "list_ships"@);
        reveal_strlit("get_map");
        assert(allowed_tools()[14] == "get_map"@);
        reveal_strlit("get_notifications");
        assert(allowed_tools()[69] == "get_notifications"@);
        reveal_strlit("get_state");
        assert(allowed_tools()[1] == "get_state"@);
        reveal_strlit("get_status");
        assert(allowed_tools()[0] == "get_status"@);
    }
}


/// The position of `t` in the allowlist (71 when it is not there).
pub open spec fn allowlist_rank(t: Seq<char>) -> int {
    if t == "get_status"@ {
        0
    } else if t == "get_state"@ {
        1
    } else if t == "get_ship"@ {
        2
    } else if t == "get_cargo"@ {
        3
    } else if t == "get_skills"@ {
        4
    } else if t == "get_location"@ {
        5
    } else if t == "list_ships"@ {
        6
    } else if t == "browse_ships"@ {
        7
    } else if t == "view_ship_buy_orders"@ {
        8
    } else if t == "commission_quote"@ {
        9
    } else if t == "commission_status"@ {
        10
    } else if t == "get_system"@ {
        11
    } else if t == "get_poi"@ {
        12
    } else if t == "get_nearby"@ {
        13
    } else if t == "get_map"@ {
        14
    } else if t == "get_system_agents"@ {
        15
    } else if t == "search_systems"@ {
        16
    } else if t == "find_route"@ {
        17
    } else if t == "inspect"@ {
        18
    } else if t == "get_missions"@ {
        19
    } else if t == "get_active_missions"@ {
        20
    } else if t == "completed_missions"@ {
        21
    } else if t == "view_completed_mission"@ {
        22
    } else if t == "view_market"@ {
        23
    } else if t == "analyze_market"@ {
        24
    } else if t == "view_orders"@ {
        25
    } else if t == "estimate_purchase"@ {
        26
    } else if t == "get_trades"@ {
        27
    } else if t == "view_storage"@ {
        28
    } else if t == "view_faction_storage"@ {
        29
    } else if t == "get_tax_estimate"@ {
        30
    } else if t == "get_faction_tax_estimate"@ {
        31
    } else if t == "faction_info"@ {
        32
    } else if t == "faction_list"@ {
        33
    } else if t == "faction_get_invites"@ {
        34
    } else if t == "faction_list_missions"@ {
        35
    } else if t == "faction_garages"@ {
        36
    } else if t == "faction_rooms"@ {
        37
    } else if t == "faction_intel_status"@ {
        38
    } else if t == "faction_query_intel"@ {
        39
    } else if t == "faction_query_trade_intel"@ {
        40
    } else if t == "faction_trade_intel_status"@ {
        41
    } else if t == "catalog"@ {
        42
    } else if t == "get_commands"@ {
        43
    } else if t == "get_version"@ {
        44
    } else if t == "get_guide"@ {
        45
    } else if t == "help"@ {
        46
    } else if t == "captains_log_list"@ {
        47
    } else if t == "captains_log_get"@ {
        48
    } else if t == "get_notes"@ {
        49
    } else if t == "read_note"@ {
        50
    } else if t == "get_action_log"@ {
        51
    } else if t == "get_battle_log"@ {
        52
    } else if t == "get_battle_status"@ {
        53
    } else if t == "get_battle_summary"@ {
        54
    } else if t == "get_drone"@ {
        55
    } else if t == "get_drones"@ {
        56
    } else if t == "list_passengers"@ {
        57
    } else if t == "list_station_passengers"@ {
        58
    } else if t == "get_wrecks"@ {
        59
    } else if t == "view_insurance"@ {
        60
    } else if t == "claim_insurance"@ {
        61
    } else if t == "get_insurance_quote"@ {
        62
    } else if t == "get_base"@ {
        63
    } else if t == "get_base_cost"@ {
        64
    } else if t == "get_empire_info"@ {
        65
    } else if t == "get_achievements"@ {
        66
    } else if t == "get_faction_achievements"@ {
        67
    } else if t == "get_chat_history"@ {
        68
    } else if t == "get_notifications"@ {
        69
    } else if t == "get_notification_settings"@ {
        70
    } else {
        71
    }
}

/// Each allowed tool sits at its own position: `allowlist_rank` finds
/// entry `i` at `i`.
#[verifier::rlimit(100)]
proof fn lemma_allowlist_rank(i: int)
    requires
        0 <= i < 71,
    ensures
        allowlist_rank(allowed_tools()[i]) == i,
{
    reveal_strlit("get_status");
    reveal_strlit("get_state");
    reveal_strlit("get_ship");
    reveal_strlit("get_cargo");
    reveal_strlit("get_skills");
    reveal_strlit("get_location");
    reveal_strlit("list_ships");
    reveal_strlit("browse_ships");
    reveal_strlit("view_ship_buy_orders");
    reveal_strlit("commission_quote");
    reveal_strlit("commission_status");
    reveal_strlit("get_system");
    reveal_strlit("get_poi");
    reveal_strlit("get_nearby");
    reveal_strlit("get_map");
    reveal_strlit("get_system_agents");
    reveal_strlit("search_systems");
    reveal_strlit("find_route");
    reveal_strlit("inspect");
    reveal_strlit("get_missions");
    reveal_strlit("get_active_missions");
    reveal_strlit("completed_missions");
    reveal_strlit("view_completed_mission");
    reveal_strlit("view_market");
    reveal_strlit("analyze_market");
    reveal_strlit("view_orders");
    reveal_strlit("estimate_purchase");
    reveal_strlit("get_trades");
    reveal_strlit("view_storage");
    reveal_strlit("view_faction_storage");
    reveal_strlit("get_tax_estimate");
    reveal_strlit("get_faction_tax_estimate");
    reveal_strlit("faction_info");
    reveal_strlit("faction_list");
    reveal_strlit("faction_get_invites");
    reveal_strlit("faction_list_missions");
    reveal_strlit("faction_garages");
    reveal_strlit("faction_rooms");
    reveal_strlit("faction_intel_status");
    reveal_strlit("faction_query_intel");
    reveal_strlit("faction_query_trade_intel");
    reveal_strlit("faction_trade_intel_status");
    reveal_strlit("catalog");
    reveal_strlit("get_commands");
    reveal_strlit("get_version");
    reveal_strlit("get_guide");
    reveal_strlit("help");
    reveal_strlit("captains_log_list");
    reveal_strlit("captains_log_get");
    reveal_strlit("get_notes");
    reveal_strlit("read_note");
    reveal_strlit("get_action_log");
    reveal_strlit("get_battle_log");
    reveal_strlit("get_battle_status");
    reveal_strlit("get_battle_summary");
    reveal_strlit("get_drone");
    reveal_strlit("get_drones");
    reveal_strlit("list_passengers");
    reveal_strlit("list_station_passengers");
    reveal_strlit("get_wrecks");
    reveal_strlit("view_insurance");
    reveal_strlit("claim_insurance");
    reveal_strlit("get_insurance_quote");
    reveal_strlit("get_base");
    reveal_strlit("get_base_cost");
    reveal_strlit("get_empire_info");
    reveal_strlit("get_achievements");
    reveal_strlit("get_faction_achievements");
    reveal_strlit("get_chat_history");
    reveal_strlit("get_notifications");
    reveal_strlit("get_notification_settings");
    assert("get_status"@ =~= seq!['g', 'e', 't', '_', 's', 't', 'a', 't', 'u', 's']);
    assert("get_state"@ =~= seq!['g', 'e', 't', '_', 's', 't', 'a', 't', 'e']);
    assert("get_ship"@ =~= seq!['g', 'e', 't', '_', 's', 'h', 'i', 'p']);
    assert("get_cargo"@ =~= seq!['g', 'e', 't', '_', 'c', 'a', 'r', 'g', 'o']);
    assert("get_skills"@ =~= seq!['g', 'e', 't', '_', 's', 'k', 'i', 'l', 'l', 's']);
    assert("get_location"@ =~= seq!['g', 'e', 't', '_', 'l', 'o', 'c', 'a', 't', 'i', 'o', 'n']);
    assert("list_ships"@ =~= seq!['l', 'i', 's', 't', '_', 's', 'h', 'i', 'p', 's']);
    assert("browse_ships"@ =~= seq!['b', 'r', 'o', 'w', 's', 'e', '_', 's', 'h', 'i', 'p', 's']);
    assert("view_ship_buy_orders"@ =~= seq!['v', 'i', 'e', 'w', '_', 's', 'h', 'i', 'p', '_', 'b', 'u', 'y', '_', 'o', 'r', 'd', 'e', 'r', 's']);
    assert("commission_quote"@ =~= seq!['c', 'o', 'm', 'm', 'i', 's', 's', 'i', 'o', 'n', '_', 'q', 'u', 'o', 't', 'e']);
    assert("commission_status"@ =~= seq!['c', 'o', 'm', 'm', 'i', 's', 's', 'i', 'o', 'n', '_', 's', 't', 'a', 't', 'u', 's']);
    assert("get_system"@ =~= seq!['g', 'e', 't', '_', 's', 'y', 's', 't', 'e', 'm']);
    assert("get_poi"@ =~= seq!['g', 'e', 't', '_', 'p', 'o', 'i']);
    assert("get_nearby"@ =~= seq!['g', 'e', 't', '_', 'n', 'e', 'a', 'r', 'b', 'y']);
    assert("get_map"@ =~= seq!['g', 'e', 't', '_', 'm', 'a', 'p']);
    assert("get_system_agents"@ =~= seq!['g', 'e', 't', '_', 's', 'y', 's', 't', 'e', 'm', '_', 'a', 'g', 'e', 'n', 't', 's']);
    assert("search_systems"@ =~= seq!['s', 'e', 'a', 'r', 'c', 'h', '_', 's', 'y', 's', 't', 'e', 'm', 's']);
    assert("find_route"@ =~= seq!['f', 'i', 'n', 'd', '_', 'r', 'o', 'u', 't', 'e']);
    assert("inspect"@ =~= seq!['i', 'n', 's', 'p', 'e', 'c', 't']);
    assert("get_missions"@ =~= seq!['g', 'e', 't', '_', 'm', 'i', 's', 's', 'i', 'o', 'n', 's']);
    assert("get_active_missions"@ =~= seq!['g', 'e', 't', '_', 'a', 'c', 't', 'i', 'v', 'e', '_', 'm', 'i', 's', 's', 'i', 'o', 'n', 's']);
    assert("completed_missions"@ =~= seq!['c', 'o', 'm', 'p', 'l', 'e', 't', 'e', 'd', '_', 'm', 'i', 's', 's', 'i', 'o', 'n', 's']);
    assert("view_completed_mission"@ =~= seq!['v', 'i', 'e', 'w', '_', 'c', 'o', 'm', 'p', 'l', 'e', 't', 'e', 'd', '_', 'm', 'i', 's', 's', 'i', 'o', 'n']);
    assert("view_market"@ =~= seq!['v', 'i', 'e', 'w', '_', 'm', 'a', 'r', 'k', 'e', 't']);
    assert("analyze_market"@ =~= seq!['a', 'n', 'a', 'l', 'y', 'z', 'e', '_', 'm', 'a', 'r', 'k', 'e', 't']);
    assert("view_orders"@ =~= seq!['v', 'i', 'e', 'w', '_', 'o', 'r', 'd', 'e', 'r', 's']);
    assert("estimate_purchase"@ =~= seq!['e', 's', 't', 'i', 'm', 'a', 't', 'e', '_', 'p', 'u', 'r', 'c', 'h', 'a', 's', 'e']);
    assert("get_trades"@ =~= seq!['g', 'e', 't', '_', 't', 'r', 'a', 'd', 'e', 's']);
    assert("view_storage"@ =~= seq!['v', 'i', 'e', 'w', '_', 's', 't', 'o', 'r', 'a', 'g', 'e']);
    assert("view_faction_storage"@ =~= seq!['v', 'i', 'e', 'w', '_', 'f', 'a', 'c', 't', 'i', 'o', 'n', '_', 's', 't', 'o', 'r', 'a', 'g', 'e']);
    assert("get_tax_estimate"@ =~= seq!['g', 'e', 't', '_', 't', 'a', 'x', '_', 'e', 's', 't', 'i', 'm', 'a', 't', 'e']);
    assert("get_faction_tax_estimate"@ =~= seq!['g', 'e', 't', '_', 'f', 'a', 'c', 't', 'i', 'o', 'n', '_', 't', 'a', 'x', '_', 'e', 's', 't', 'i', 'm', 'a', 't', 'e']);
    assert("faction_info"@ =~= seq!['f', 'a', 'c', 't', 'i', 'o', 'n', '_', 'i', 'n', 'f', 'o']);
    assert("faction_list"@ =~= seq!['f', 'a', 'c', 't', 'i', 'o', 'n', '_', 'l', 'i', 's', 't']);
    assert("faction_get_invites"@ =~= seq!['f', 'a', 'c', 't', 'i', 'o', 'n', '_', 'g', 'e', 't', '_', 'i', 'n', 'v', 'i', 't', 'e', 's']);
    assert("faction_list_missions"@ =~= seq!['f', 'a', 'c', 't', 'i', 'o', 'n', '_', 'l', 'i', 's', 't', '_', 'm', 'i', 's', 's', 'i', 'o', 'n', 's']);
    assert("faction_garages"@ =~= seq!['f', 'a', 'c', 't', 'i', 'o', 'n', '_', 'g', 'a', 'r', 'a', 'g', 'e', 's']);
    assert("faction_rooms"@ =~= seq!['f', 'a', 'c', 't', 'i', 'o', 'n', '_', 'r', 'o', 'o', 'm', 's']);
    assert("faction_intel_status"@ =~= seq!['f', 'a', 'c', 't', 'i', 'o', 'n', '_', 'i', 'n', 't', 'e', 'l', '_', 's', 't', 'a', 't', 'u', 's']);
    assert("faction_query_intel"@ =~= seq!['f', 'a', 'c', 't', 'i', 'o', 'n', '_', 'q', 'u', 'e', 'r', 'y', '_', 'i', 'n', 't', 'e', 'l']);
    assert("faction_query_trade_intel"@ =~= seq!['f', 'a', 'c', 't', 'i', 'o', 'n', '_', 'q', 'u', 'e', 'r', 'y', '_', 't', 'r', 'a', 'd', 'e', '_', 'i', 'n', 't', 'e', 'l']);
    assert("faction_trade_intel_status"@ =~= seq!['f', 'a', 'c', 't', 'i', 'o', 'n', '_', 't', 'r', 'a', 'd', 'e', '_', 'i', 'n', 't', 'e', 'l', '_', 's', 't', 'a', 't', 'u', 's']);
    assert("catalog"@ =~= seq!['c', 'a', 't', 'a', 'l', 'o', 'g']);
    assert("get_commands"@ =~= seq!['g', 'e', 't', '_', 'c', 'o', 'm', 'm', 'a', 'n', 'd', 's']);
    assert("get_version"@ =~= seq!['g', 'e', 't', '_', 'v', 'e', 'r', 's', 'i', 'o', 'n']);
    assert("get_guide"@ =~= seq!['g', 'e', 't', '_', 'g', 'u', 'i', 'd', 'e']);
    assert("help"@ =~= seq!['h', 'e', 'l', 'p']);
    assert("captains_log_list"@ =~= seq!['c', 'a', 'p', 't', 'a', 'i', 'n', 's', '_', 'l', 'o', 'g', '_', 'l', 'i', 's', 't']);
    assert("captains_log_get"@ =~= seq!['c', 'a', 'p', 't', 'a', 'i', 'n', 's', '_', 'l', 'o', 'g', '_', 'g', 'e', 't']);
    assert("get_notes"@ =~= seq!['g', 'e', 't', '_', 'n', 'o', 't', 'e', 's']);
    assert("read_note"@ =~= seq!['r', 'e', 'a', 'd', '_', 'n', 'o', 't', 'e']);
    assert("get_action_log"@ =~= seq!['g', 'e', 't', '_', 'a', 'c', 't', 'i', 'o', 'n', '_', 'l', 'o', 'g']);
    assert("get_battle_log"@ =~= seq!['g', 'e', 't', '_', 'b', 'a', 't', 't', 'l', 'e', '_', 'l', 'o', 'g']);
    assert("get_battle_status"@ =~= seq!['g', 'e', 't', '_', 'b', 'a', 't', 't', 'l', 'e', '_', 's', 't', 'a', 't', 'u', 's']);
    assert("get_battle_summary"@ =~= seq!['g', 'e', 't', '_', 'b', 'a', 't', 't', 'l', 'e', '_', 's', 'u', 'm', 'm', 'a', 'r', 'y']);
    assert("get_drone"@ =~= seq!['g', 'e', 't', '_', 'd', 'r', 'o', 'n', 'e']);
    assert("get_drones"@ =~= seq!['g', 'e', 't', '_', 'd', 'r', 'o', 'n', 'e', 's']);
    assert("list_passengers"@ =~= seq!['l', 'i', 's', 't', '_', 'p', 'a', 's', 's', 'e', 'n', 'g', 'e', 'r', 's']);
    assert("list_station_passengers"@ =~= seq!['l', 'i', 's', 't', '_', 's', 't', 'a', 't', 'i', 'o', 'n', '_', 'p', 'a', 's', 's', 'e', 'n', 'g', 'e', 'r', 's']);
    assert("get_wrecks"@ =~= seq!['g', 'e', 't', '_', 'w', 'r', 'e', 'c', 'k', 's']);
    assert("view_insurance"@ =~= seq!['v', 'i', 'e', 'w', '_', 'i', 'n', 's', 'u', 'r', 'a', 'n', 'c', 'e']);
    assert("claim_insurance"@ =~= seq!['c', 'l', 'a', 'i', 'm', '_', 'i', 'n', 's', 'u', 'r', 'a', 'n', 'c', 'e']);
    assert("get_insurance_quote"@ =~= seq!['g', 'e', 't', '_', 'i', 'n', 's', 'u', 'r', 'a', 'n', 'c', 'e', '_', 'q', 'u', 'o', 't', 'e']);
    assert("get_base"@ =~= seq!['g', 'e', 't', '_', 'b', 'a', 's', 'e']);
    assert("get_base_cost"@ =~= seq!['g', 'e', 't', '_', 'b', 'a', 's', 'e', '_', 'c', 'o', 's', 't']);
    assert("get_empire_info"@ =~= seq!['g', 'e', 't', '_', 'e', 'm', 'p', 'i', 'r', 'e', '_', 'i', 'n', 'f', 'o']);
    assert("get_achievements"@ =~= seq!['g', 'e', 't', '_', 'a', 'c', 'h', 'i', 'e', 'v', 'e', 'm', 'e', 'n', 't', 's']);
    assert("get_faction_achievements"@ =~= seq!['g', 'e', 't', '_', 'f', 'a', 'c', 't', 'i', 'o', 'n', '_', 'a', 'c', 'h', 'i', 'e', 'v', 'e', 'm', 'e', 'n', 't', 's']);
    assert("get_chat_history"@ =~= seq!['g', 'e', 't', '_', 'c', 'h', 'a', 't', '_', 'h', 'i', 's', 't', 'o', 'r', 'y']);
    assert("get_notifications"@ =~= seq!['g', 'e', 't', '_', 'n', 'o', 't', 'i', 'f', 'i', 'c', 'a', 't', 'i', 'o', 'n', 's']);
    assert("get_notification_settings"@ =~= seq!['g', 'e', 't', '_', 'n', 'o', 't', 'i', 'f', 'i', 'c', 'a', 't', 'i', 'o', 'n', '_', 's', 'e', 't', 't', 'i', 'n', 'g', 's']);
    assert(allowed_tools()[0] == "get_status"@);
    assert(allowed_tools()[1] == "get_state"@);
    assert(allowed_tools()[2] == "get_ship"@);
    assert(allowed_tools()[3] == "get_cargo"@);
    assert(allowed_tools()[4] == "get_skills"@);
    assert(allowed_tools()[5] == "get_location"@);
    assert(allowed_tools()[6] == "list_ships"@);
    assert(allowed_tools()[7] == "browse_ships"@);
    assert(allowed_tools()[8] == "view_ship_buy_orders"@);
    assert(allowed_tools()[9] == "commission_quote"@);
    assert(allowed_tools()[10] == "commission_status"@);
    assert(allowed_tools()[11] == "get_system"@);
    assert(allowed_tools()[12] == "get_poi"@);
    assert(allowed_tools()[13] == "get_nearby"@);
    assert(allowed_tools()[14] == "get_map"@);
    assert(allowed_tools()[15] == "get_system_agents"@);
    assert(allowed_tools()[16] == "search_systems"@);
    assert(allowed_tools()[17] == "find_route"@);
    assert(allowed_tools()[18] == "inspect"@);
    assert(allowed_tools()[19] == "get_missions"@);
    assert(allowed_tools()[20] == "get_active_missions"@);
    assert(allowed_tools()[21] == "completed_missions"@);
    assert(allowed_tools()[22] == "view_completed_mission"@);
    assert(allowed_tools()[23] == "view_market"@);
    assert(allowed_tools()[24] == "analyze_market"@);
    assert(allowed_tools()[25] == "view_orders"@);
    assert(allowed_tools()[26] == "estimate_purchase"@);
    assert(allowed_tools()[27] == "get_trades"@);
    assert(allowed_tools()[28] == "view_storage"@);
    assert(allowed_tools()[29] == "view_faction_storage"@);
    assert(allowed_tools()[30] == "get_tax_estimate"@);
    assert(allowed_tools()[31] == "get_faction_tax_estimate"@);
    assert(allowed_tools()[32] == "faction_info"@);
    assert(allowed_tools()[33] == "faction_list"@);
    assert(allowed_tools()[34] == "faction_get_invites"@);
    assert(allowed_tools()[35] == "faction_list_missions"@);
    assert(allowed_tools()[36] == "faction_garages"@);
    assert(allowed_tools()[37] == "faction_rooms"@);
    assert(allowed_tools()[38] == "faction_intel_status"@);
    assert(allowed_tools()[39] == "faction_query_intel"@);
    assert(allowed_tools()[40] == "faction_query_trade_intel"@);
    assert(allowed_tools()[41] == "faction_trade_intel_status"@);
    assert(allowed_tools()[42] == "catalog"@);
    assert(allowed_tools()[43] == "get_commands"@);
    assert(allowed_tools()[44] == "get_version"@);
    assert(allowed_tools()[45] == "get_guide"@);
    assert(allowed_tools()[46] == "help"@);
    assert(allowed_tools()[47] == "captains_log_list"@);
    assert(allowed_tools()[48] == "captains_log_get"@);
    assert(allowed_tools()[49] == "get_notes"@);
    assert(allowed_tools()[50] == "read_note"@);
    assert(allowed_tools()[51] == "get_action_log"@);
    assert(allowed_tools()[52] == "get_battle_log"@);
    assert(allowed_tools()[53] == "get_battle_status"@);
    assert(allowed_tools()[54] == "get_battle_summary"@);
    assert(allowed_tools()[55] == "get_drone"@);
    assert(allowed_tools()[56] == "get_drones"@);
    assert(allowed_tools()[57] == "list_passengers"@);
    assert(allowed_tools()[58] == "list_station_passengers"@);
    assert(allowed_tools()[59] == "get_wrecks"@);
    assert(allowed_tools()[60] == "view_insurance"@);
    assert(allowed_tools()[61] == "claim_insurance"@);
    assert(allowed_tools()[62] == "get_insurance_quote"@);
    assert(allowed_tools()[63] == "get_base"@);
    assert(allowed_tools()[64] == "get_base_cost"@);
    assert(allowed_tools()[65] == "get_empire_info"@);
    assert(allowed_tools()[66] == "get_achievements"@);
    assert(allowed_tools()[67] == "get_faction_achievements"@);
    assert(allowed_tools()[68] == "get_chat_history"@);
    assert(allowed_tools()[69] == "get_notifications"@);
    assert(allowed_tools()[70] == "get_notification_settings"@);
    assert(allowlist_rank(allowed_tools()[0]) == 0);
    assert(allowlist_rank(allowed_tools()[1]) == 1);
    assert(allowlist_rank(allowed_tools()[2]) == 2);
    assert(allowlist_rank(allowed_tools()[3]) == 3);
    assert(allowlist_rank(allowed_tools()[4]) == 4);
    assert(allowlist_rank(allowed_tools()[5]) == 5);
    assert(allowlist_rank(allowed_tools()[6]) == 6);
    assert(allowlist_rank(allowed_tools()[7]) == 7);
    assert(allowlist_rank(allowed_tools()[8]) == 8);
    assert(allowlist_rank(allowed_tools()[9]) == 9);
    assert(allowlist_rank(allowed_tools()[10]) == 10);
    assert(allowlist_rank(allowed_tools()[11]) == 11);
    assert(allowlist_rank(allowed_tools()[12]) == 12);
    assert(allowlist_rank(allowed_tools()[13]) == 13);
    assert(allowlist_rank(allowed_tools()[14]) == 14);
    assert(allowlist_rank(allowed_tools()[15]) == 15);
    assert(allowlist_rank(allowed_tools()[16]) == 16);
    assert(allowlist_rank(allowed_tools()[17]) == 17);
    assert(allowlist_rank(allowed_tools()[18]) == 18);
    assert(allowlist_rank(allowed_tools()[19]) == 19);
    assert(allowlist_rank(allowed_tools()[20]) == 20);
    assert(allowlist_rank(allowed_tools()[21]) == 21);
    assert(allowlist_rank(allowed_tools()[22]) == 22);
    assert(allowlist_rank(allowed_tools()[23]) == 23);
    assert(allowlist_rank(allowed_tools()[24]) == 24);
    assert(allowlist_rank(allowed_tools()[25]) == 25);
    assert(allowlist_rank(allowed_tools()[26]) == 26);
    assert(allowlist_rank(allowed_tools()[27]) == 27);
    assert(allowlist_rank(allowed_tools()[28]) == 28);
    assert(allowlist_rank(allowed_tools()[29]) == 29);
    assert(allowlist_rank(allowed_tools()[30]) == 30);
    assert(allowlist_rank(allowed_tools()[31]) == 31);
    assert(allowlist_rank(allowed_tools()[32]) == 32);
    assert(allowlist_rank(allowed_tools()[33]) == 33);
    assert(allowlist_rank(allowed_tools()[34]) == 34);
    assert(allowlist_rank(allowed_tools()[35]) == 35);
    assert(allowlist_rank(allowed_tools()[36]) == 36);
    assert(allowlist_rank(allowed_tools()[37]) == 37);
    assert(allowlist_rank(allowed_tools()[38]) == 38);
    assert(allowlist_rank(allowed_tools()[39]) == 39);
    assert(allowlist_rank(allowed_tools()[40]) == 40);
    assert(allowlist_rank(allowed_tools()[41]) == 41);
    assert(allowlist_rank(allowed_tools()[42]) == 42);
    assert(allowlist_rank(allowed_tools()[43]) == 43);
    assert(allowlist_rank(allowed_tools()[44]) == 44);
    assert(allowlist_rank(allowed_tools()[45]) == 45);
    assert(allowlist_rank(allowed_tools()[46]) == 46);
    assert(allowlist_rank(allowed_tools()[47]) == 47);
    assert(allowlist_rank(allowed_tools()[48]) == 48);
    assert(allowlist_rank(allowed_tools()[49]) == 49);
    assert(allowlist_rank(allowed_tools()[50]) == 50);
    assert(allowlist_rank(allowed_tools()[51]) == 51);
    assert(allowlist_rank(allowed_tools()[52]) == 52);
    assert(allowlist_rank(allowed_tools()[53]) == 53);
    assert(allowlist_rank(allowed_tools()[54]) == 54);
    assert(allowlist_rank(allowed_tools()[55]) == 55);
    assert(allowlist_rank(allowed_tools()[56]) == 56);
    assert(allowlist_rank(allowed_tools()[57]) == 57);
    assert(allowlist_rank(allowed_tools()[58]) == 58);
    assert(allowlist_rank(allowed_tools()[59]) == 59);
    assert(allowlist_rank(allowed_tools()[60]) == 60);
    assert(allowlist_rank(allowed_tools()[61]) == 61);
    assert(allowlist_rank(allowed_tools()[62]) == 62);
    assert(allowlist_rank(allowed_tools()[63]) == 63);
    assert(allowlist_rank(allowed_tools()[64]) == 64);
    assert(allowlist_rank(allowed_tools()[65]) == 65);
    assert(allowlist_rank(allowed_tools()[66]) == 66);
    assert(allowlist_rank(allowed_tools()[67]) == 67);
    assert(allowlist_rank(allowed_tools()[68]) == 68);
    assert(allowlist_rank(allowed_tools()[69]) == 69);
    assert(allowlist_rank(allowed_tools()[70]) == 70);
}

/// The allowlist holds 71 tools, each named once.
pub proof fn lemma_allowlist_distinct()
    ensures
        allowed_tools().len() == 71,
        allowed_tools().no_duplicates(),
{
    assert forall|i: int, j: int|
        0 <= i < allowed_tools().len() && 0 <= j < allowed_tools().len() && i != j implies #[trigger] allowed_tools()[i]
            != #[trigger] allowed_tools()[j] by {
        lemma_allowlist_rank(i);
        lemma_allowlist_rank(j);
    }
}


/// A tool name that changes the game: a setting (`set_`), a subscription
/// (`subscribe_`, `unsubscribe`), a forum post (`forum_`), combat, chat,
/// muting, log writes, deletions, trade and mission changes, and the
/// action-dispatch tools.
pub open spec fn is_mutating_name(t: Seq<char>) -> bool {
    "set_"@.is_prefix_of(t) || "subscribe_"@.is_prefix_of(t) || "unsubscribe"@.is_prefix_of(t) || "forum_"@.is_prefix_of(t)
        || t == "battle"@
        || t == "chat"@
        || t == "mute"@
        || t == "captains_log_add"@
        || t == "delete"@
        || t == "trade_cancel"@
        || t == "decline_mission"@
        || t == "shipping"@
        || t == "storage"@
        || t == "station"@
        || t == "facility"@
}

#[verifier::rlimit(100)]
proof fn lemma_allowlist_entry_read_only(i: int)
    requires
        0 <= i < 71,
    ensures
        !is_mutating_name(allowed_tools()[i]),
{
    reveal_strlit("get_status");
    reveal_strlit("get_state");
    reveal_strlit("get_ship");
    reveal_strlit("get_cargo");
    reveal_strlit("get_skills");
    reveal_strlit("get_location");
    reveal_strlit("list_ships");
    reveal_strlit("browse_ships");
    reveal_strlit("view_ship_buy_orders");
    reveal_strlit("commission_quote");
    reveal_strlit("commission_status");
    reveal_strlit("get_system");
    reveal_strlit("get_poi");
    reveal_strlit("get_nearby");
    reveal_strlit("get_map");
    reveal_strlit("get_system_agents");
    reveal_strlit("search_systems");
    reveal_strlit("find_route");
    reveal_strlit("inspect");
    reveal_strlit("get_missions");
    reveal_strlit("get_active_missions");
    reveal_strlit("completed_missions");
    reveal_strlit("view_completed_mission");
    reveal_strlit("view_market");
    reveal_strlit("analyze_market");
    reveal_strlit("view_orders");
    reveal_strlit("estimate_purchase");
    reveal_strlit("get_trades");
    reveal_strlit("view_storage");
    reveal_strlit("view_faction_storage");
    reveal_strlit("get_tax_estimate");
    reveal_strlit("get_faction_tax_estimate");
    reveal_strlit("faction_info");
    reveal_strlit("faction_list");
    reveal_strlit("faction_get_invites");
    reveal_strlit("faction_list_missions");
    reveal_strlit("faction_garages");
    reveal_strlit("faction_rooms");
    reveal_strlit("faction_intel_status");
    reveal_strlit("faction_query_intel");
    reveal_strlit("faction_query_trade_intel");
    reveal_strlit("faction_trade_intel_status");
    reveal_strlit("catalog");
    reveal_strlit("get_commands");
    reveal_strlit("get_version");
    reveal_strlit("get_guide");
    reveal_strlit("help");
    reveal_strlit("captains_log_list");
    reveal_strlit("captains_log_get");
    reveal_strlit("get_notes");
    reveal_strlit("read_note");
    reveal_strlit("get_action_log");
    reveal_strlit("get_battle_log");
    reveal_strlit("get_battle_status");
    reveal_strlit("get_battle_summary");
    reveal_strlit("get_drone");
    reveal_strlit("get_drones");
    reveal_strlit("list_passengers");
    reveal_strlit("list_station_passengers");
    reveal_strlit("get_wrecks");
    reveal_strlit("view_insurance");
    reveal_strlit("claim_insurance");
    reveal_strlit("get_insurance_quote");
    reveal_strlit("get_base");
    reveal_strlit("get_base_cost");
    reveal_strlit("get_empire_info");
    reveal_strlit("get_achievements");
    reveal_strlit("get_faction_achievements");
    reveal_strlit("get_chat_history");
    reveal_strlit("get_notifications");
    reveal_strlit("get_notification_settings");
    reveal_strlit("set_");
    reveal_strlit("subscribe_");
    reveal_strlit("unsubscribe");
    reveal_strlit("forum_");
    reveal_strlit("battle");
    reveal_strlit("chat");
    reveal_strlit("mute");
    reveal_strlit("captains_log_add");
    reveal_strlit("delete");
    reveal_strlit("trade_cancel");
    reveal_strlit("decline_mission");
    reveal_strlit("shipping");
    reveal_strlit("storage");
    reveal_strlit("station");
    reveal_strlit("facility");
    assert("get_status"@ =~= seq!['g', 'e', 't', '_', 's', 't', 'a', 't', 'u', 's']);
    assert("get_state"@ =~= seq!['g', 'e', 't', '_', 's', 't', 'a', 't', 'e']);
    assert("get_ship"@ =~= seq!['g', 'e', 't', '_', 's', 'h', 'i', 'p']);
    assert("get_cargo"@ =~= seq!['g', 'e', 't', '_', 'c', 'a', 'r', 'g', 'o']);
    assert("get_skills"@ =~= seq!['g', 'e', 't', '_', 's', 'k', 'i', 'l', 'l', 's']);
    assert("get_location"@ =~= seq!['g', 'e', 't', '_', 'l', 'o', 'c', 'a', 't', 'i', 'o', 'n']);
    assert("list_ships"@ =~= seq!['l', 'i', 's', 't', '_', 's', 'h', 'i', 'p', 's']);
    assert("browse_ships"@ =~= seq!['b', 'r', 'o', 'w', 's', 'e', '_', 's', 'h', 'i', 'p', 's']);
    assert("view_ship_buy_orders"@ =~= seq!['v', 'i', 'e', 'w', '_', 's', 'h', 'i', 'p', '_', 'b', 'u', 'y', '_', 'o', 'r', 'd', 'e', 'r', 's']);
    assert("commission_quote"@ =~= seq!['c', 'o', 'm', 'm', 'i', 's', 's', 'i', 'o', 'n', '_', 'q', 'u', 'o', 't', 'e']);
    assert("commission_status"@ =~= seq!['c', 'o', 'm', 'm', 'i', 's', 's', 'i', 'o', 'n', '_', 's', 't', 'a', 't', 'u', 's']);
    assert("get_system"@ =~= seq!['g', 'e', 't', '_', 's', 'y', 's', 't', 'e', 'm']);
    assert("get_poi"@ =~= seq!['g', 'e', 't', '_', 'p', 'o', 'i']);
    assert("get_nearby"@ =~= seq!['g', 'e', 't', '_', 'n', 'e', 'a', 'r', 'b', 'y']);
    assert("get_map"@ =~= seq!['g', 'e', 't', '_', 'm', 'a', 'p']);
    assert("get_system_agents"@ =~= seq!['g', 'e', 't', '_', 's', 'y', 's', 't', 'e', 'm', '_', 'a', 'g', 'e', 'n', 't', 's']);
    assert("search_systems"@ =~= seq!['s', 'e', 'a', 'r', 'c', 'h', '_', 's', 'y', 's', 't', 'e', 'm', 's']);
    assert("find_route"@ =~= seq!['f', 'i', 'n', 'd', '_', 'r', 'o', 'u', 't', 'e']);
    assert("inspect"@ =~= seq!['i', 'n', 's', 'p', 'e', 'c', 't']);
    assert("get_missions"@ =~= seq!['g', 'e', 't', '_', 'm', 'i', 's', 's', 'i', 'o', 'n', 's']);
    assert("get_active_missions"@ =~= seq!['g', 'e', 't', '_', 'a', 'c', 't', 'i', 'v', 'e', '_', 'm', 'i', 's', 's', 'i', 'o', 'n', 's']);
    assert("completed_missions"@ =~= seq!['c', 'o', 'm', 'p', 'l', 'e', 't', 'e', 'd', '_', 'm', 'i', 's', 's', 'i', 'o', 'n', 's']);
    assert("view_completed_mission"@ =~= seq!['v', 'i', 'e', 'w', '_', 'c', 'o', 'm', 'p', 'l', 'e', 't', 'e', 'd', '_', 'm', 'i', 's', 's', 'i', 'o', 'n']);
    assert("view_market"@ =~= seq!['v', 'i', 'e', 'w', '_', 'm', 'a', 'r', 'k', 'e', 't']);
    assert("analyze_market"@ =~= seq!['a', 'n', 'a', 'l', 'y', 'z', 'e', '_', 'm', 'a', 'r', 'k', 'e', 't']);
    assert("view_orders"@ =~= seq!['v', 'i', 'e', 'w', '_', 'o', 'r', 'd', 'e', 'r', 's']);
    assert("estimate_purchase"@ =~= seq!['e', 's', 't', 'i', 'm', 'a', 't', 'e', '_', 'p', 'u', 'r', 'c', 'h', 'a', 's', 'e']);
    assert("get_trades"@ =~= seq!['g', 'e', 't', '_', 't', 'r', 'a', 'd', 'e', 's']);
    assert("view_storage"@ =~= seq!['v', 'i', 'e', 'w', '_', 's', 't', 'o', 'r', 'a', 'g', 'e']);
    assert("view_faction_storage"@ =~= seq!['v', 'i', 'e', 'w', '_', 'f', 'a', 'c', 't', 'i', 'o', 'n', '_', 's', 't', 'o', 'r', 'a', 'g', 'e']);
    assert("get_tax_estimate"@ =~= seq!['g', 'e', 't', '_', 't', 'a', 'x', '_', 'e', 's', 't', 'i', 'm', 'a', 't', 'e']);
    assert("get_faction_tax_estimate"@ =~= seq!['g', 'e', 't', '_', 'f', 'a', 'c', 't', 'i', 'o', 'n', '_', 't', 'a', 'x', '_', 'e', 's', 't', 'i', 'm', 'a', 't', 'e']);
    assert("faction_info"@ =~= seq!['f', 'a', 'c', 't', 'i', 'o', 'n', '_', 'i', 'n', 'f', 'o']);
    assert("faction_list"@ =~= seq!['f', 'a', 'c', 't', 'i', 'o', 'n', '_', 'l', 'i', 's', 't']);
    assert("faction_get_invites"@ =~= seq!['f', 'a', 'c', 't', 'i', 'o', 'n', '_', 'g', 'e', 't', '_', 'i', 'n', 'v', 'i', 't', 'e', 's']);
    assert("faction_list_missions"@ =~= seq!['f', 'a', 'c', 't', 'i', 'o', 'n', '_', 'l', 'i', 's', 't', '_', 'm', 'i', 's', 's', 'i', 'o', 'n', 's']);
    assert("faction_garages"@ =~= seq!['f', 'a', 'c', 't', 'i', 'o', 'n', '_', 'g', 'a', 'r', 'a', 'g', 'e', 's']);
    assert("faction_rooms"@ =~= seq!['f', 'a', 'c', 't', 'i', 'o', 'n', '_', 'r', 'o', 'o', 'm', 's']);
    assert("faction_intel_status"@ =~= seq!['f', 'a', 'c', 't', 'i', 'o', 'n', '_', 'i', 'n', 't', 'e', 'l', '_', 's', 't', 'a', 't', 'u', 's']);
    assert("faction_query_intel"@ =~= seq!['f', 'a', 'c', 't', 'i', 'o', 'n', '_', 'q', 'u', 'e', 'r', 'y', '_', 'i', 'n', 't', 'e', 'l']);
    assert("faction_query_trade_intel"@ =~= seq!['f', 'a', 'c', 't', 'i', 'o', 'n', '_', 'q', 'u', 'e', 'r', 'y', '_', 't', 'r', 'a', 'd', 'e', '_', 'i', 'n', 't', 'e', 'l']);
    assert("faction_trade_intel_status"@ =~= seq!['f', 'a', 'c', 't', 'i', 'o', 'n', '_', 't', 'r', 'a', 'd', 'e', '_', 'i', 'n', 't', 'e', 'l', '_', 's', 't', 'a', 't', 'u', 's']);
    assert("catalog"@ =~= seq!['c', 'a', 't', 'a', 'l', 'o', 'g']);
    assert("get_commands"@ =~= seq!['g', 'e', 't', '_', 'c', 'o', 'm', 'm', 'a', 'n', 'd', 's']);
    assert("get_version"@ =~= seq!['g', 'e', 't', '_', 'v', 'e', 'r', 's', 'i', 'o', 'n']);
    assert("get_guide"@ =~= seq!['g', 'e', 't', '_', 'g', 'u', 'i', 'd', 'e']);
    assert("help"@ =~= seq!['h', 'e', 'l', 'p']);
    assert("captains_log_list"@ =~= seq!['c', 'a', 'p', 't', 'a', 'i', 'n', 's', '_', 'l', 'o', 'g', '_', 'l', 'i', 's', 't']);
    assert("captains_log_get"@ =~= seq!['c', 'a', 'p', 't', 'a', 'i', 'n', 's', '_', 'l', 'o', 'g', '_', 'g', 'e', 't']);
    assert("get_notes"@ =~= seq!['g', 'e', 't', '_', 'n', 'o', 't', 'e', 's']);
    assert("read_note"@ =~= seq!['r', 'e', 'a', 'd', '_', 'n', 'o', 't', 'e']);
    assert("get_action_log"@ =~= seq!['g', 'e', 't', '_', 'a', 'c', 't', 'i', 'o', 'n', '_', 'l', 'o', 'g']);
    assert("get_battle_log"@ =~= seq!['g', 'e', 't', '_', 'b', 'a', 't', 't', 'l', 'e', '_', 'l', 'o', 'g']);
    assert("get_battle_status"@ =~= seq!['g', 'e', 't', '_', 'b', 'a', 't', 't', 'l', 'e', '_', 's', 't', 'a', 't', 'u', 's']);
    assert("get_battle_summary"@ =~= seq!['g', 'e', 't', '_', 'b', 'a', 't', 't', 'l', 'e', '_', 's', 'u', 'm', 'm', 'a', 'r', 'y']);
    assert("get_drone"@ =~= seq!['g', 'e', 't', '_', 'd', 'r', 'o', 'n', 'e']);
    assert("get_drones"@ =~= seq!['g', 'e', 't', '_', 'd', 'r', 'o', 'n', 'e', 's']);
    assert("list_passengers"@ =~= seq!['l', 'i', 's', 't', '_', 'p', 'a', 's', 's', 'e', 'n', 'g', 'e', 'r', 's']);
    assert("list_station_passengers"@ =~= seq!['l', 'i', 's', 't', '_', 's', 't', 'a', 't', 'i', 'o', 'n', '_', 'p', 'a', 's', 's', 'e', 'n', 'g', 'e', 'r', 's']);
    assert("get_wrecks"@ =~= seq!['g', 'e', 't', '_', 'w', 'r', 'e', 'c', 'k', 's']);
    assert("view_insurance"@ =~= seq!['v', 'i', 'e', 'w', '_', 'i', 'n', 's', 'u', 'r', 'a', 'n', 'c', 'e']);
    assert("claim_insurance"@ =~= seq!['c', 'l', 'a', 'i', 'm', '_', 'i', 'n', 's', 'u', 'r', 'a', 'n', 'c', 'e']);
    assert("get_insurance_quote"@ =~= seq!['g', 'e', 't', '_', 'i', 'n', 's', 'u', 'r', 'a', 'n', 'c', 'e', '_', 'q', 'u', 'o', 't', 'e']);
    assert("get_base"@ =~= seq!['g', 'e', 't', '_', 'b', 'a', 's', 'e']);
    assert("get_base_cost"@ =~= seq!['g', 'e', 't', '_', 'b', 'a', 's', 'e', '_', 'c', 'o', 's', 't']);
    assert("get_empire_info"@ =~= seq!['g', 'e', 't', '_', 'e', 'm', 'p', 'i', 'r', 'e', '_', 'i', 'n', 'f', 'o']);
    assert("get_achievements"@ =~= seq!['g', 'e', 't', '_', 'a', 'c', 'h', 'i', 'e', 'v', 'e', 'm', 'e', 'n', 't', 's']);
    assert("get_faction_achievements"@ =~= seq!['g', 'e', 't', '_', 'f', 'a', 'c', 't', 'i', 'o', 'n', '_', 'a', 'c', 'h', 'i', 'e', 'v', 'e', 'm', 'e', 'n', 't', 's']);
    assert("get_chat_history"@ =~= seq!['g', 'e', 't', '_', 'c', 'h', 'a', 't', '_', 'h', 'i', 's', 't', 'o', 'r', 'y']);
    assert("get_notifications"@ =~= seq!['g', 'e', 't', '_', 'n', 'o', 't', 'i', 'f', 'i', 'c', 'a', 't', 'i', 'o', 'n', 's']);
    assert("get_notification_settings"@ =~= seq!['g', 'e', 't', '_', 'n', 'o', 't', 'i', 'f', 'i', 'c', 'a', 't', 'i', 'o', 'n', '_', 's', 'e', 't', 't', 'i', 'n', 'g', 's']);
    assert("set_"@ =~= seq!['s', 'e', 't', '_']);
    assert("subscribe_"@ =~= seq!['s', 'u', 'b', 's', 'c', 'r', 'i', 'b', 'e', '_']);
    assert("unsubscribe"@ =~= seq!['u', 'n', 's', 'u', 'b', 's', 'c', 'r', 'i', 'b', 'e']);
    assert("forum_"@ =~= seq!['f', 'o', 'r', 'u', 'm', '_']);
    assert("battle"@ =~= seq!['b', 'a', 't', 't', 'l', 'e']);
    assert("chat"@ =~= seq!['c', 'h', 'a', 't']);
    assert("mute"@ =~= seq!['m', 'u', 't', 'e']);
    assert("captains_log_add"@ =~= seq!['c', 'a', 'p', 't', 'a', 'i', 'n', 's', '_', 'l', 'o', 'g', '_', 'a', 'd', 'd']);
    assert("delete"@ =~= seq!['d', 'e', 'l', 'e', 't', 'e']);
    assert("trade_cancel"@ =~= seq!['t', 'r', 'a', 'd', 'e', '_', 'c', 'a', 'n', 'c', 'e', 'l']);
    assert("decline_mission"@ =~= seq!['d', 'e', 'c', 'l', 'i', 'n', 'e', '_', 'm', 'i', 's', 's', 'i', 'o', 'n']);
    assert("shipping"@ =~= seq!['s', 'h', 'i', 'p', 'p', 'i', 'n', 'g']);
    assert("storage"@ =~= seq!['s', 't', 'o', 'r', 'a', 'g', 'e']);
    assert("station"@ =~= seq!['s', 't', 'a', 't', 'i', 'o', 'n']);
    assert("facility"@ =~= seq!['f', 'a', 'c', 'i', 'l', 'i', 't', 'y']);
    assert(allowed_tools()[0] == "get_status"@);
    assert(allowed_tools()[1] == "get_state"@);
    assert(allowed_tools()[2] == "get_ship"@);
    assert(allowed_tools()[3] == "get_cargo"@);
    assert(allowed_tools()[4] == "get_skills"@);
    assert(allowed_tools()[5] == "get_location"@);
    assert(allowed_tools()[6] == "list_ships"@);
    assert(allowed_tools()[7] == "browse_ships"@);
    assert(allowed_tools()[8] == "view_ship_buy_orders"@);
    assert(allowed_tools()[9] == "commission_quote"@);
    assert(allowed_tools()[10] == "commission_status"@);
    assert(allowed_tools()[11] == "get_system"@);
    assert(allowed_tools()[12] == "get_poi"@);
    assert(allowed_tools()[13] == "get_nearby"@);
    assert(allowed_tools()[14] == "get_map"@);
    assert(allowed_tools()[15] == "get_system_agents"@);
    assert(allowed_tools()[16] == "search_systems"@);
    assert(allowed_tools()[17] == "find_route"@);
    assert(allowed_tools()[18] == "inspect"@);
    assert(allowed_tools()[19] == "get_missions"@);
    assert(allowed_tools()[20] == "get_active_missions"@);
    assert(allowed_tools()[21] == "completed_missions"@);
    assert(allowed_tools()[22] == "view_completed_mission"@);
    assert(allowed_tools()[23] == "view_market"@);
    assert(allowed_tools()[24] == "analyze_market"@);
    assert(allowed_tools()[25] == "view_orders"@);
    assert(allowed_tools()[26] == "estimate_purchase"@);
    assert(allowed_tools()[27] == "get_trades"@);
    assert(allowed_tools()[28] == "view_storage"@);
    assert(allowed_tools()[29] == "view_faction_storage"@);
    assert(allowed_tools()[30] == "get_tax_estimate"@);
    assert(allowed_tools()[31] == "get_faction_tax_estimate"@);
    assert(allowed_tools()[32] == "faction_info"@);
    assert(allowed_tools()[33] == "faction_list"@);
    assert(allowed_tools()[34] == "faction_get_invites"@);
    assert(allowed_tools()[35] == "faction_list_missions"@);
    assert(allowed_tools()[36] == "faction_garages"@);
    assert(allowed_tools()[37] == "faction_rooms"@);
    assert(allowed_tools()[38] == "faction_intel_status"@);
    assert(allowed_tools()[39] == "faction_query_intel"@);
    assert(allowed_tools()[40] == "faction_query_trade_intel"@);
    assert(allowed_tools()[41] == "faction_trade_intel_status"@);
    assert(allowed_tools()[42] == "catalog"@);
    assert(allowed_tools()[43] == "get_commands"@);
    assert(allowed_tools()[44] == "get_version"@);
    assert(allowed_tools()[45] == "get_guide"@);
    assert(allowed_tools()[46] == "help"@);
    assert(allowed_tools()[47] == "captains_log_list"@);
    assert(allowed_tools()[48] == "captains_log_get"@);
    assert(allowed_tools()[49] == "get_notes"@);
    assert(allowed_tools()[50] == "read_note"@);
    assert(allowed_tools()[51] == "get_action_log"@);
    assert(allowed_tools()[52] == "get_battle_log"@);
    assert(allowed_tools()[53] == "get_battle_status"@);
    assert(allowed_tools()[54] == "get_battle_summary"@);
    assert(allowed_tools()[55] == "get_drone"@);
    assert(allowed_tools()[56] == "get_drones"@);
    assert(allowed_tools()[57] == "list_passengers"@);
    assert(allowed_tools()[58] == "list_station_passengers"@);
    assert(allowed_tools()[59] == "get_wrecks"@);
    assert(allowed_tools()[60] == "view_insurance"@);
    assert(allowed_tools()[61] == "claim_insurance"@);
    assert(allowed_tools()[62] == "get_insurance_quote"@);
    assert(allowed_tools()[63] == "get_base"@);
    assert(allowed_tools()[64] == "get_base_cost"@);
    assert(allowed_tools()[65] == "get_empire_info"@);
    assert(allowed_tools()[66] == "get_achievements"@);
    assert(allowed_tools()[67] == "get_faction_achievements"@);
    assert(allowed_tools()[68] == "get_chat_history"@);
    assert(allowed_tools()[69] == "get_notifications"@);
    assert(allowed_tools()[70] == "get_notification_settings"@);
    assert(!is_mutating_name(allowed_tools()[0]));
    assert(!is_mutating_name(allowed_tools()[1]));
    assert(!is_mutating_name(allowed_tools()[2]));
    assert(!is_mutating_name(allowed_tools()[3]));
    assert(!is_mutating_name(allowed_tools()[4]));
    assert(!is_mutating_name(allowed_tools()[5]));
    assert(!is_mutating_name(allowed_tools()[6]));
    assert(!is_mutating_name(allowed_tools()[7]));
    assert(!is_mutating_name(allowed_tools()[8]));
    assert(!is_mutating_name(allowed_tools()[9]));
    assert(!is_mutating_name(allowed_tools()[10]));
    assert(!is_mutating_name(allowed_tools()[11]));
    assert(!is_mutating_name(allowed_tools()[12]));
    assert(!is_mutating_name(allowed_tools()[13]));
    assert(!is_mutating_name(allowed_tools()[14]));
    assert(!is_mutating_name(allowed_tools()[15]));
    assert(!is_mutating_name(allowed_tools()[16]));
    assert(!is_mutating_name(allowed_tools()[17]));
    assert(!is_mutating_name(allowed_tools()[18]));
    assert(!is_mutating_name(allowed_tools()[19]));
    assert(!is_mutating_name(allowed_tools()[20]));
    assert(!is_mutating_name(allowed_tools()[21]));
    assert(!is_mutating_name(allowed_tools()[22]));
    assert(!is_mutating_name(allowed_tools()[23]));
    assert(!is_mutating_name(allowed_tools()[24]));
    assert(!is_mutating_name(allowed_tools()[25]));
    assert(!is_mutating_name(allowed_tools()[26]));
    assert(!is_mutating_name(allowed_tools()[27]));
    assert(!is_mutating_name(allowed_tools()[28]));
    assert(!is_mutating_name(allowed_tools()[29]));
    assert(!is_mutating_name(allowed_tools()[30]));
    assert(!is_mutating_name(allowed_tools()[31]));
    assert(!is_mutating_name(allowed_tools()[32]));
    assert(!is_mutating_name(allowed_tools()[33]));
    assert(!is_mutating_name(allowed_tools()[34]));
    assert(!is_mutating_name(allowed_tools()[35]));
    assert(!is_mutating_name(allowed_tools()[36]));
    assert(!is_mutating_name(allowed_tools()[37]));
    assert(!is_mutating_name(allowed_tools()[38]));
    assert(!is_mutating_name(allowed_tools()[39]));
    assert(!is_mutating_name(allowed_tools()[40]));
    assert(!is_mutating_name(allowed_tools()[41]));
    assert(!is_mutating_name(allowed_tools()[42]));
    assert(!is_mutating_name(allowed_tools()[43]));
    assert(!is_mutating_name(allowed_tools()[44]));
    assert(!is_mutating_name(allowed_tools()[45]));
    assert(!is_mutating_name(allowed_tools()[46]));
    assert(!is_mutating_name(allowed_tools()[47]));
    assert(!is_mutating_name(allowed_tools()[48]));
    assert(!is_mutating_name(allowed_tools()[49]));
    assert(!is_mutating_name(allowed_tools()[50]));
    assert(!is_mutating_name(allowed_tools()[51]));
    assert(!is_mutating_name(allowed_tools()[52]));
    assert(!is_mutating_name(allowed_tools()[53]));
    assert(!is_mutating_name(allowed_tools()[54]));
    assert(!is_mutating_name(allowed_tools()[55]));
    assert(!is_mutating_name(allowed_tools()[56]));
    assert(!is_mutating_name(allowed_tools()[57]));
    assert(!is_mutating_name(allowed_tools()[58]));
    assert(!is_mutating_name(allowed_tools()[59]));
    assert(!is_mutating_name(allowed_tools()[60]));
    assert(!is_mutating_name(allowed_tools()[61]));
    assert(!is_mutating_name(allowed_tools()[62]));
    assert(!is_mutating_name(allowed_tools()[63]));
    assert(!is_mutating_name(allowed_tools()[64]));
    assert(!is_mutating_name(allowed_tools()[65]));
    assert(!is_mutating_name(allowed_tools()[66]));
    assert(!is_mutating_name(allowed_tools()[67]));
    assert(!is_mutating_name(allowed_tools()[68]));
    assert(!is_mutating_name(allowed_tools()[69]));
    assert(!is_mutating_name(allowed_tools()[70]));
}

/// No allowed tool changes the game: none has a mutating prefix or name.
pub proof fn lemma_allowlist_read_only(t: Seq<char>)
    ensures
        allowed_tools().contains(t) ==> !is_mutating_name(t),
{
    if allowed_tools().contains(t) {
        let i = choose|i: int| 0 <= i < allowed_tools().len() && allowed_tools()[i] == t;
        lemma_allowlist_entry_read_only(i);
    }
}


/// The throttle refuses a call of `tool` exactly when the tool has an
/// interval, a recorded call, and the elapsed time is below the interval;
/// the time it reports left is the interval minus the elapsed time.
pub proof fn lemma_throttle_refuses_within_interval(recorded: Seq<Seq<char>>, tool: Seq<char>, elapsed: u64)
    ensures
        throttle_refusal(recorded, tool, Some(elapsed)) is Some <==> (throttle_secs(tool) matches Some(d)
            && recorded.contains(tool) && (elapsed as int) < (d as int) * 1_000_000_000),
        throttle_refusal(recorded, tool, Some(elapsed)) matches Some(left) ==> left as int + elapsed as int
            == throttle_secs(tool)->0 as int * 1_000_000_000 && left > 0,
        throttle_refusal(recorded, tool, None) is None,
{
    assert(forall|k: int| 0 <= k < 8 ==> 3 <= #[trigger] THROTTLE@[k].1 <= 300);
    lemma_throttle_within_bounds(THROTTLE@, tool);
}

/// A table whose intervals are all between 3 and 300 seconds gives no
/// interval outside that range.
proof fn lemma_throttle_within_bounds(entries: Seq<(&str, u64)>, tool: Seq<char>)
    requires
        forall|k: int| 0 <= k < entries.len() ==> 3 <= #[trigger] entries[k].1 <= 300,
    ensures
        throttle_from(entries, tool) matches Some(d) ==> 3 <= d <= 300,
    decreases entries.len(),
{
    if entries.len() > 0 {
        assert forall|k: int| 0 <= k < entries.drop_first().len() implies 3
            <= #[trigger] entries.drop_first()[k].1 <= 300 by {
            assert(entries.drop_first()[k] == entries[k + 1]);
        }
        lemma_throttle_within_bounds(entries.drop_first(), tool);
    }
}

} // verus!
