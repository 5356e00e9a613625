//! The game-state manager's decisions: merging state deltas into the
//! current state, turning push events into event-feed entries, keeping the
//! feed newest-first and capped, and deciding when a reconnect calls for a
//! refresh. Receiving the events, querying the server and emitting to the
//! frontend are the caller's work.

use std::collections::VecDeque;
use vstd::prelude::*;
use crate::models::{
    ActionErrorPayload, ChatMessagePayload, CombatUpdatePayload, ConnectionState, GameEvent,
    GameEventCategory, GameState, LoggedInPayload, MiningYieldPayload, OkActionPayload,
    PirateWarningPayload, PlayerDiedPayload, ScanDetectedPayload, SkillLevelUpPayload,
    StateUpdatePayload,
};
use crate::text::{
    chars_of, i64_text, int_text, join_with, push_all, push_str, str_equals, string_from_chars,
    title_case,
};
pub use crate::text::format_snake_case;

verus! {

/// Most events the feed keeps.
pub const MAX_EVENTS: usize = 200;

/// Seconds between periodic state refreshes.
pub const REFRESH_INTERVAL_SECS: u64 = 5;

/// A state update for the frontend, tagged with the account it belongs to.
#[derive(Debug, Clone)]
pub struct AccountStateUpdate {
    pub username: String,
    pub state: GameState,
}

/// A feed event for the frontend, tagged with the account it belongs to.
#[derive(Debug, Clone)]
pub struct AccountGameEvent {
    pub username: String,
    pub event: GameEvent,
}

/// A connection-state change for the frontend, tagged with its account.
#[derive(Debug, Clone)]
pub struct AccountConnectionState {
    pub username: String,
    pub state: ConnectionState,
}

/// What a feed entry shows: its category, title and detail.
pub open spec fn entry_view(e: GameEvent) -> (GameEventCategory, Seq<char>, Seq<char>) {
    (e.category, e.title@, e.detail@)
}

pub open spec fn feed_view(events: Seq<GameEvent>) -> Seq<(GameEventCategory, Seq<char>, Seq<char>)> {
    events.map_values(|e: GameEvent| entry_view(e))
}

/// Every entry already in the feed `old` is still in `new`, one place
/// further down, unchanged (timestamp included), as far as `new` reaches.
pub open spec fn older_kept(old: Seq<GameEvent>, new: Seq<GameEvent>) -> bool {
    forall|i: int| 1 <= i < new.len() ==> #[trigger] new[i] == old[i - 1]
}

/// The feed after one more entry: the entry first, then the older entries,
/// cut to `MAX_EVENTS`.
pub open spec fn feed_push<T>(feed: Seq<T>, e: T) -> Seq<T> {
    let s = seq![e] + feed;
    if s.len() > MAX_EVENTS {
        s.subrange(0, MAX_EVENTS as int)
    } else {
        s
    }
}

/// The feed after the entries `es`, pushed in order.
pub open spec fn feed_push_all<T>(feed: Seq<T>, es: Seq<T>) -> Seq<T>
    decreases es.len(),
{
    if es.len() == 0 {
        feed
    } else {
        feed_push(feed_push_all(feed, es.drop_last()), es.last())
    }
}

/// Current Unix time in milliseconds (0 if the clock is before the epoch).
/// Trusted: `SystemTime::now` and `duration_since`; nothing is promised of
/// the value, which depends on the clock.
#[verifier::external_body]
pub fn now_millis() -> i64 {
    std::time::SystemTime::now().duration_since(std::time::UNIX_EPOCH).map(|d| d.as_millis() as i64).unwrap_or(0)
}

/// Prepends an event to the feed and drops the oldest entries beyond
/// `MAX_EVENTS`. The event's timestamp is `timestamp`.
pub fn push_event(
    events: &mut VecDeque<GameEvent>,
    category: GameEventCategory,
    title: &str,
    detail: &str,
    timestamp: i64,
)
    ensures
        final(events)@.len() == (if old(events)@.len() + 1 > MAX_EVENTS {
            MAX_EVENTS as int
        } else {
            old(events)@.len() + 1 as int
        }),
        final(events)@[0].category == category,
        final(events)@[0].title@ == title@,
        final(events)@[0].detail@ == detail@,
        final(events)@[0].timestamp == timestamp,
        forall|i: int| 1 <= i < final(events)@.len() ==> final(events)@[i] == old(events)@[i - 1],
{
    let event = GameEvent {
        category,
        title: title.to_owned(),
        detail: detail.to_owned(),
        timestamp,
    };
    let ghost full = seq![event] + old(events)@;
    events.push_front(event);
    while events.len() > MAX_EVENTS
        invariant
            events@ == full.subrange(0, events@.len() as int),
            events@.len() >= (if full.len() > MAX_EVENTS { MAX_EVENTS as int } else { full.len() as int }),
            full.len() == old(events)@.len() + 1,
            full[0] == event,
            events@.len() <= full.len(),
        decreases events@.len(),
    {
        events.pop_back();
    }
    assert(events@[0] == full[0]);
}

/// Prepends an event with timestamp 0 to the feed, capped at `MAX_EVENTS`.
pub fn append_event_to_vec(
    events: &mut VecDeque<GameEvent>,
    category: GameEventCategory,
    title: &str,
    detail: &str,
)
    ensures
        final(events)@.len() == (if old(events)@.len() + 1 > MAX_EVENTS {
            MAX_EVENTS as int
        } else {
            old(events)@.len() + 1 as int
        }),
        final(events)@[0].category == category,
        final(events)@[0].title@ == title@,
        final(events)@[0].detail@ == detail@,
        final(events)@[0].timestamp == 0,
        forall|i: int| 1 <= i < final(events)@.len() ==> final(events)@[i] == old(events)@[i - 1],
{
    push_event(events, category, title, detail, 0);
}

// --- texts of the feed entries --------------------------------------------

pub open spec fn chat_title(m: ChatMessagePayload) -> Seq<char> {
    "["@ + m.channel@ + "] "@ + m.sender@
}

pub open spec fn combat_title(c: CombatUpdatePayload) -> Seq<char> {
    if c.destroyed {
        c.target@ + " destroyed!"@
    } else {
        "Combat: "@ + c.attacker@ + " → "@ + c.target@
    }
}

pub open spec fn combat_detail(c: CombatUpdatePayload) -> Seq<char> {
    "Damage: "@ + int_text(c.damage as int) + " ("@ + c.damage_type@ + ") | Shield: -"@ + int_text(
        c.shield_hit as int,
    ) + " | Hull: -"@ + int_text(c.hull_hit as int)
}

pub open spec fn mining_title(m: MiningYieldPayload) -> Seq<char> {
    "Mined "@ + int_text(m.quantity as int) + " "@ + title_case(m.resource_id@)
}

pub open spec fn mining_detail(m: MiningYieldPayload) -> Seq<char> {
    int_text(m.remaining as int) + " remaining in deposit"@
}

pub open spec fn skill_title(s: SkillLevelUpPayload) -> Seq<char> {
    title_case(s.skill_id@) + " reached level "@ + int_text(s.new_level as int) + "!"@
}

pub open spec fn skill_detail(s: SkillLevelUpPayload) -> Seq<char> {
    "+"@ + int_text(s.xp_gained as int) + " XP"@
}

pub open spec fn death_title(d: PlayerDiedPayload) -> Seq<char> {
    "Destroyed by "@ + d.killer@
}

pub open spec fn death_detail(d: PlayerDiedPayload) -> Seq<char> {
    "Respawn at "@ + d.respawn_base@ + " | Clone cost: "@ + int_text(d.clone_cost as int)
        + " cr | Insurance: "@ + int_text(d.insurance_payout as int) + " cr | New ship: "@
        + d.new_ship_class@
}

pub open spec fn scan_title(s: ScanDetectedPayload) -> Seq<char> {
    "Scanned by "@ + s.scanner_username@
}

pub open spec fn scan_detail(s: ScanDetectedPayload) -> Seq<char> {
    s.scanner_ship_class@ + " | "@ + s.message@
}

pub open spec fn pirate_title(p: PirateWarningPayload) -> Seq<char> {
    if p.is_boss {
        "⚠ BOSS PIRATE: "@ + p.pirate_name@
    } else {
        "Pirate nearby: "@ + p.pirate_name@ + " (Tier "@ + int_text(p.pirate_tier as int) + ")"@
    }
}

pub open spec fn labelled(label: Seq<char>, value: Option<String>) -> Seq<Seq<char>> {
    match value {
        Some(v) => seq![label + v@],
        None => Seq::<Seq<char>>::empty(),
    }
}

/// The `label: value` pieces of a confirmed action's optional fields.
pub open spec fn ok_parts(ok: OkActionPayload) -> Seq<Seq<char>> {
    labelled("dest: "@, ok.destination) + labelled("base: "@, ok.base) + labelled(
        "system: "@,
        ok.system,
    ) + labelled("target: "@, ok.target)
}

pub open spec fn ok_detail(ok: OkActionPayload) -> Seq<char> {
    if ok.message@.len() == 0 {
        if ok_parts(ok).len() == 0 {
            "OK"@
        } else {
            join_with(ok_parts(ok), ", "@)
        }
    } else {
        ok.message@
    }
}

/// Which feed category a confirmed action belongs to.
pub open spec fn action_category(action: Seq<char>) -> GameEventCategory {
    if action == "travel"@ || action == "warp"@ || action == "jump"@ || action == "dock"@
        || action == "undock"@ || action == "navigate"@ {
        GameEventCategory::Navigation
    } else if action == "mine"@ || action == "jettison"@ {
        GameEventCategory::Mining
    } else if action == "buy"@ || action == "sell"@ || action == "trade"@ {
        GameEventCategory::Trade
    } else {
        GameEventCategory::Info
    }
}

pub open spec fn action_error_title(e: ActionErrorPayload) -> Seq<char> {
    "Error: "@ + title_case(e.command@)
}

pub open spec fn action_error_detail(e: ActionErrorPayload) -> Seq<char> {
    if e.code@.len() == 0 {
        e.message@
    } else {
        "["@ + e.code@ + "] "@ + e.message@
    }
}

pub open spec fn text_or(value: Option<String>, fallback: Seq<char>) -> Seq<char> {
    match value {
        Some(v) => v@,
        None => fallback,
    }
}

/// The title and message of one notification, as the server sent them.
#[derive(Debug, Clone)]
pub struct NotificationFields {
    pub title: Option<String>,
    pub message: Option<String>,
}

/// Missed notifications fetched after a (re)connect.
#[derive(Debug, Clone)]
pub enum NotificationBatch {
    /// An array of notification objects.
    List(Vec<NotificationFields>),
    /// A single notification object with a text message.
    Single { title: Option<String>, message: String },
    /// Anything else: nothing to show.
    Nothing,
}

/// The feed entry a fetched notification becomes, if any: those with neither
/// a message nor a title of their own are skipped.
pub open spec fn notification_entry(n: NotificationFields) -> Option<
    (GameEventCategory, Seq<char>, Seq<char>),
> {
    let message = text_or(n.message, Seq::<char>::empty());
    let title = text_or(n.title, "Notification"@);
    if message.len() > 0 || title != "Notification"@ {
        Some((GameEventCategory::Info, title, message))
    } else {
        None
    }
}

/// The feed entries a list of fetched notifications becomes, in order.
pub open spec fn notification_entries(ns: Seq<NotificationFields>) -> Seq<
    (GameEventCategory, Seq<char>, Seq<char>),
>
    decreases ns.len(),
{
    if ns.len() == 0 {
        Seq::empty()
    } else {
        match notification_entry(ns.last()) {
            Some(e) => notification_entries(ns.drop_last()).push(e),
            None => notification_entries(ns.drop_last()),
        }
    }
}

/// The state after a delta: every section present in the delta replaces the
/// current one; the tick only when it is positive.
pub open spec fn merged(s: GameState, u: StateUpdatePayload) -> GameState {
    GameState {
        tick: if u.tick > 0 {
            u.tick
        } else {
            s.tick
        },
        player: match u.player {
            Some(p) => p,
            None => s.player,
        },
        ship: match u.ship {
            Some(x) => x,
            None => s.ship,
        },
        nearby: match u.nearby {
            Some(n) => n,
            None => s.nearby,
        },
        in_combat: match u.in_combat {
            Some(b) => b,
            None => s.in_combat,
        },
        travel_progress_bits: match u.travel_progress_bits {
            Some(p) => Some(p),
            None => s.travel_progress_bits,
        },
        travel_destination: match u.travel_destination {
            Some(d) => Some(d),
            None => s.travel_destination,
        },
        ..s
    }
}

/// What kind of push message a frame `type` names.
#[derive(Debug, Clone, Copy, PartialEq, Eq, Structural)]
pub enum MessageKind {
    StateUpdate,
    ActionResult,
    ChatMessage,
    CombatUpdate,
    MiningYield,
    SkillLevelUp,
    PlayerDied,
    ScanDetected,
    PirateWarning,
    OkAction,
    ActionError,
    Notification,
    Welcome,
    LoggedIn,
    Unknown,
}

pub open spec fn message_kind(t: Seq<char>) -> MessageKind {
    if t == "state_update"@ {
        MessageKind::StateUpdate
    } else if t == "action_result"@ {
        MessageKind::ActionResult
    } else if t == "chat_message"@ {
        MessageKind::ChatMessage
    } else if t == "combat_update"@ {
        MessageKind::CombatUpdate
    } else if t == "mining_yield"@ {
        MessageKind::MiningYield
    } else if t == "skill_level_up"@ {
        MessageKind::SkillLevelUp
    } else if t == "player_died"@ {
        MessageKind::PlayerDied
    } else if t == "scan_detected"@ {
        MessageKind::ScanDetected
    } else if t == "pirate_warning"@ {
        MessageKind::PirateWarning
    } else if t == "ok"@ {
        MessageKind::OkAction
    } else if t == "action_error"@ {
        MessageKind::ActionError
    } else if t == "notification"@ {
        MessageKind::Notification
    } else if t == "welcome"@ {
        MessageKind::Welcome
    } else if t == "logged_in"@ {
        MessageKind::LoggedIn
    } else {
        MessageKind::Unknown
    }
}

/// The frame `type` the server writes for each kind of push message; the
/// unknown kind has none of its own.
pub open spec fn frame_type(k: MessageKind) -> Seq<char> {
    match k {
        MessageKind::StateUpdate => "state_update"@,
        MessageKind::ActionResult => "action_result"@,
        MessageKind::ChatMessage => "chat_message"@,
        MessageKind::CombatUpdate => "combat_update"@,
        MessageKind::MiningYield => "mining_yield"@,
        MessageKind::SkillLevelUp => "skill_level_up"@,
        MessageKind::PlayerDied => "player_died"@,
        MessageKind::ScanDetected => "scan_detected"@,
        MessageKind::PirateWarning => "pirate_warning"@,
        MessageKind::OkAction => "ok"@,
        MessageKind::ActionError => "action_error"@,
        MessageKind::Notification => "notification"@,
        MessageKind::Welcome => "welcome"@,
        MessageKind::LoggedIn => "logged_in"@,
        MessageKind::Unknown => Seq::empty(),
    }
}

/// Routes a push message by its frame `type`.
pub fn route_message(msg_type: &str) -> (k: MessageKind)
    ensures
        k == message_kind(msg_type@),
{
    if str_equals(msg_type, "state_update") {
        MessageKind::StateUpdate
    } else if str_equals(msg_type, "action_result") {
        MessageKind::ActionResult
    } else if str_equals(msg_type, "chat_message") {
        MessageKind::ChatMessage
    } else if str_equals(msg_type, "combat_update") {
        MessageKind::CombatUpdate
    } else if str_equals(msg_type, "mining_yield") {
        MessageKind::MiningYield
    } else if str_equals(msg_type, "skill_level_up") {
        MessageKind::SkillLevelUp
    } else if str_equals(msg_type, "player_died") {
        MessageKind::PlayerDied
    } else if str_equals(msg_type, "scan_detected") {
        MessageKind::ScanDetected
    } else if str_equals(msg_type, "pirate_warning") {
        MessageKind::PirateWarning
    } else if str_equals(msg_type, "ok") {
        MessageKind::OkAction
    } else if str_equals(msg_type, "action_error") {
        MessageKind::ActionError
    } else if str_equals(msg_type, "notification") {
        MessageKind::Notification
    } else if str_equals(msg_type, "welcome") {
        MessageKind::Welcome
    } else if str_equals(msg_type, "logged_in") {
        MessageKind::LoggedIn
    } else {
        MessageKind::Unknown
    }
}

/// Which feed category a confirmed action `action` belongs to.
pub fn category_for_action(action: &str) -> (c: GameEventCategory)
    ensures
        c == action_category(action@),
{
    if str_equals(action, "travel") || str_equals(action, "warp") || str_equals(action, "jump")
        || str_equals(action, "dock") || str_equals(action, "undock") || str_equals(
        action,
        "navigate",
    ) {
        GameEventCategory::Navigation
    } else if str_equals(action, "mine") || str_equals(action, "jettison") {
        GameEventCategory::Mining
    } else if str_equals(action, "buy") || str_equals(action, "sell") || str_equals(action, "trade") {
        GameEventCategory::Trade
    } else {
        GameEventCategory::Info
    }
}

/// What woke an account's state task.
#[derive(Debug, Clone, Copy, PartialEq, Eq, Structural)]
pub enum RunnerEvent {
    /// A push frame arrived.
    Message,
    /// The frame channel closed: the WebSocket loop has ended.
    MessagesClosed,
    /// A connection-state change arrived.
    StateChange,
    /// The connection-state channel closed.
    StatesClosed,
    /// The periodic refresh is due.
    RefreshDue,
}

/// What the state task does about an event.
#[derive(Debug, Clone, Copy, PartialEq, Eq, Structural)]
pub enum RunnerAction {
    HandleMessage,
    HandleStateChange,
    Refresh,
    /// Nothing; keep waiting.
    Ignore,
    /// Leave the loop: the task ends.
    Stop,
}

/// The state task's rule: it stops exactly when the frame channel closes;
/// a closed connection-state channel is ignored; everything else is
/// handled.
pub fn runner_step(event: RunnerEvent) -> (action: RunnerAction)
    ensures
        action == (match event {
            RunnerEvent::Message => RunnerAction::HandleMessage,
            RunnerEvent::MessagesClosed => RunnerAction::Stop,
            RunnerEvent::StateChange => RunnerAction::HandleStateChange,
            RunnerEvent::StatesClosed => RunnerAction::Ignore,
            RunnerEvent::RefreshDue => RunnerAction::Refresh,
        }),
        action == RunnerAction::Stop <==> event == RunnerEvent::MessagesClosed,
{
    match event {
        RunnerEvent::Message => RunnerAction::HandleMessage,
        RunnerEvent::MessagesClosed => RunnerAction::Stop,
        RunnerEvent::StateChange => RunnerAction::HandleStateChange,
        RunnerEvent::StatesClosed => RunnerAction::Ignore,
        RunnerEvent::RefreshDue => RunnerAction::Refresh,
    }
}

/// The state kept for one account: the game state, the event feed (newest
/// first) and whether a reconnect is under way.
pub struct GameStateManager {
    pub username: String,
    pub state: GameState,
    pub events: VecDeque<GameEvent>,
    pub was_reconnecting: bool,
}

impl GameStateManager {
    /// The feed never holds more than `MAX_EVENTS` entries.
    pub open spec fn wf(&self) -> bool {
        self.events@.len() <= MAX_EVENTS
    }

    /// A manager for `username` with a blank state, an empty feed and no
    /// reconnect under way.
    pub fn new(username: String) -> (m: Self)
        ensures
            m.wf(),
            m.username == username,
            m.state.is_blank(),
            m.events@.len() == 0,
            !m.was_reconnecting,
    {
        GameStateManager {
            username,
            state: GameState::default(),
            events: VecDeque::new(),
            was_reconnecting: false,
        }
    }

    /// Adds an entry to the feed, stamped with the current time.
    pub fn append_event(&mut self, category: GameEventCategory, title: &str, detail: &str)
        requires
            old(self).wf(),
        ensures
            final(self).wf(),
            older_kept(old(self).events@, final(self).events@),
            feed_view(final(self).events@) == feed_push(
                feed_view(old(self).events@),
                (category, title@, detail@),
            ),
            final(self).state == old(self).state,
            final(self).username == old(self).username,
            final(self).was_reconnecting == old(self).was_reconnecting,
    {
        let ts = now_millis();
        let ghost before = self.events@;
        push_event(&mut self.events, category, title, detail, ts);
        let ghost after = self.events@;
        proof {
            let fb = feed_view(before);
            let e = (category, title@, detail@);
            let expect = feed_push(fb, e);
            assert(feed_view(after).len() == expect.len());
            assert forall|i: int| 0 <= i < expect.len() implies feed_view(after)[i] == expect[i] by {
                if i > 0 {
                    assert(after[i] == before[i - 1]);
                    assert((seq![e] + fb)[i] == fb[i - 1]);
                }
            }
            assert(feed_view(after) =~= expect);
        }
    }

    /// Appends an entry whose texts are given as character vectors.
    fn append_event_chars(&mut self, category: GameEventCategory, title: &Vec<char>, detail: &Vec<char>)
        requires
            old(self).wf(),
        ensures
            final(self).wf(),
            older_kept(old(self).events@, final(self).events@),
            feed_view(final(self).events@) == feed_push(
                feed_view(old(self).events@),
                (category, title@, detail@),
            ),
            final(self).state == old(self).state,
            final(self).username == old(self).username,
            final(self).was_reconnecting == old(self).was_reconnecting,
    {
        let t = string_from_chars(title);
        let d = string_from_chars(detail);
        self.append_event(category, t.as_str(), d.as_str());
    }

    /// Merges a state delta: only the sections present in it change.
    pub fn merge_state_update(&mut self, update: StateUpdatePayload)
        ensures
            final(self).state == merged(old(self).state, update),
            final(self).events == old(self).events,
            final(self).username == old(self).username,
            final(self).was_reconnecting == old(self).was_reconnecting,
    {
        if update.tick > 0 {
            self.state.tick = update.tick;
        }
        if let Some(player) = update.player {
            self.state.player = player;
        }
        if let Some(ship) = update.ship {
            self.state.ship = ship;
        }
        if let Some(nearby) = update.nearby {
            self.state.nearby = nearby;
        }
        if let Some(in_combat) = update.in_combat {
            self.state.in_combat = in_combat;
        }
        if let Some(progress) = update.travel_progress_bits {
            self.state.travel_progress_bits = Some(progress);
        }
        if let Some(dest) = update.travel_destination {
            self.state.travel_destination = Some(dest);
        }
    }

    /// Takes player, ship, system and point of interest from a `logged_in`
    /// snapshot; the rest of the state stays.
    pub fn handle_logged_in(&mut self, snapshot: LoggedInPayload)
        ensures
            final(self).state == (GameState {
                player: snapshot.player,
                ship: snapshot.ship,
                current_system: snapshot.system,
                current_poi: snapshot.poi,
                ..old(self).state
            }),
            final(self).events == old(self).events,
            final(self).username == old(self).username,
            final(self).was_reconnecting == old(self).was_reconnecting,
    {
        self.state.player = snapshot.player;
        self.state.ship = snapshot.ship;
        self.state.current_system = snapshot.system;
        self.state.current_poi = snapshot.poi;
    }

    /// Replaces the state with a full snapshot from the server, keeping the
    /// connection state this manager tracks.
    pub fn apply_refreshed_state(&mut self, refreshed: GameState)
        ensures
            final(self).state == (GameState {
                connection_state: old(self).state.connection_state,
                ..refreshed
            }),
            final(self).events == old(self).events,
            final(self).username == old(self).username,
            final(self).was_reconnecting == old(self).was_reconnecting,
    {
        let conn = self.state.connection_state;
        self.state = refreshed;
        self.state.connection_state = conn;
    }

    /// A chat message: "[channel] sender" with the message as detail.
    pub fn handle_chat_message(&mut self, msg: &ChatMessagePayload)
        requires
            old(self).wf(),
        ensures
            final(self).wf(),
            older_kept(old(self).events@, final(self).events@),
            feed_view(final(self).events@) == feed_push(
                feed_view(old(self).events@),
                (GameEventCategory::Chat, chat_title(*msg), msg.content@),
            ),
            final(self).state == old(self).state,
            final(self).username == old(self).username,
            final(self).was_reconnecting == old(self).was_reconnecting,
    {
        let mut title: Vec<char> = Vec::new();
        push_str(&mut title, "[");
        push_str(&mut title, msg.channel.as_str());
        push_str(&mut title, "] ");
        push_str(&mut title, msg.sender.as_str());
        let detail = chars_of(msg.content.as_str());
        self.append_event_chars(GameEventCategory::Chat, &title, &detail);
    }

    /// A combat update: the player is in combat unless the target was
    /// destroyed. Returns whether the state should be sent to the frontend
    /// (when something was destroyed).
    pub fn handle_combat_update(&mut self, combat: &CombatUpdatePayload) -> (emit_state: bool)
        requires
            old(self).wf(),
        ensures
            final(self).wf(),
            older_kept(old(self).events@, final(self).events@),
            emit_state == combat.destroyed,
            final(self).state == (GameState { in_combat: !combat.destroyed, ..old(self).state }),
            feed_view(final(self).events@) == feed_push(
                feed_view(old(self).events@),
                (
                    if combat.destroyed {
                        GameEventCategory::Death
                    } else {
                        GameEventCategory::Combat
                    },
                    combat_title(*combat),
                    combat_detail(*combat),
                ),
            ),
            final(self).username == old(self).username,
            final(self).was_reconnecting == old(self).was_reconnecting,
    {
        self.state.in_combat = !combat.destroyed;
        let mut title: Vec<char> = Vec::new();
        let category;
        if combat.destroyed {
            push_str(&mut title, combat.target.as_str());
            push_str(&mut title, " destroyed!");
            category = GameEventCategory::Death;
        } else {
            push_str(&mut title, "Combat: ");
            push_str(&mut title, combat.attacker.as_str());
            push_str(&mut title, " → ");
            push_str(&mut title, combat.target.as_str());
            category = GameEventCategory::Combat;
        }
        let mut detail: Vec<char> = Vec::new();
        push_str(&mut detail, "Damage: ");
        push_all(&mut detail, &i64_text(combat.damage));
        push_str(&mut detail, " (");
        push_str(&mut detail, combat.damage_type.as_str());
        push_str(&mut detail, ") | Shield: -");
        push_all(&mut detail, &i64_text(combat.shield_hit));
        push_str(&mut detail, " | Hull: -");
        push_all(&mut detail, &i64_text(combat.hull_hit));
        self.append_event_chars(category, &title, &detail);
        combat.destroyed
    }

    /// A mining yield: "Mined <quantity> <Resource Name>".
    pub fn handle_mining_yield(&mut self, mining: &MiningYieldPayload)
        requires
            old(self).wf(),
        ensures
            final(self).wf(),
            older_kept(old(self).events@, final(self).events@),
            feed_view(final(self).events@) == feed_push(
                feed_view(old(self).events@),
                (GameEventCategory::Mining, mining_title(*mining), mining_detail(*mining)),
            ),
            final(self).state == old(self).state,
            final(self).username == old(self).username,
            final(self).was_reconnecting == old(self).was_reconnecting,
    {
        let resource = format_snake_case(mining.resource_id.as_str());
        let mut title: Vec<char> = Vec::new();
        push_str(&mut title, "Mined ");
        push_all(&mut title, &i64_text(mining.quantity));
        push_str(&mut title, " ");
        push_str(&mut title, resource.as_str());
        let mut detail = i64_text(mining.remaining);
        push_str(&mut detail, " remaining in deposit");
        self.append_event_chars(GameEventCategory::Mining, &title, &detail);
    }

    /// A skill level-up: "<Skill Name> reached level <n>!".
    pub fn handle_skill_level_up(&mut self, skill: &SkillLevelUpPayload)
        requires
            old(self).wf(),
        ensures
            final(self).wf(),
            older_kept(old(self).events@, final(self).events@),
            feed_view(final(self).events@) == feed_push(
                feed_view(old(self).events@),
                (GameEventCategory::Skill, skill_title(*skill), skill_detail(*skill)),
            ),
            final(self).state == old(self).state,
            final(self).username == old(self).username,
            final(self).was_reconnecting == old(self).was_reconnecting,
    {
        let name = format_snake_case(skill.skill_id.as_str());
        let mut title = chars_of(name.as_str());
        push_str(&mut title, " reached level ");
        push_all(&mut title, &i64_text(skill.new_level));
        push_str(&mut title, "!");
        let mut detail: Vec<char> = Vec::new();
        push_str(&mut detail, "+");
        push_all(&mut detail, &i64_text(skill.xp_gained));
        push_str(&mut detail, " XP");
        self.append_event_chars(GameEventCategory::Skill, &title, &detail);
    }

    /// The player died: combat is over and the death goes to the feed. The
    /// state is always sent to the frontend afterwards.
    pub fn handle_player_died(&mut self, death: &PlayerDiedPayload)
        requires
            old(self).wf(),
        ensures
            final(self).wf(),
            older_kept(old(self).events@, final(self).events@),
            final(self).state == (GameState { in_combat: false, ..old(self).state }),
            feed_view(final(self).events@) == feed_push(
                feed_view(old(self).events@),
                (GameEventCategory::Death, death_title(*death), death_detail(*death)),
            ),
            final(self).username == old(self).username,
            final(self).was_reconnecting == old(self).was_reconnecting,
    {
        self.state.in_combat = false;
        let mut title: Vec<char> = Vec::new();
        push_str(&mut title, "Destroyed by ");
        push_str(&mut title, death.killer.as_str());
        let mut detail: Vec<char> = Vec::new();
        push_str(&mut detail, "Respawn at ");
        push_str(&mut detail, death.respawn_base.as_str());
        push_str(&mut detail, " | Clone cost: ");
        push_all(&mut detail, &i64_text(death.clone_cost));
        push_str(&mut detail, " cr | Insurance: ");
        push_all(&mut detail, &i64_text(death.insurance_payout));
        push_str(&mut detail, " cr | New ship: ");
        push_str(&mut detail, death.new_ship_class.as_str());
        self.append_event_chars(GameEventCategory::Death, &title, &detail);
    }

    /// Another player scanned this ship.
    pub fn handle_scan_detected(&mut self, scan: &ScanDetectedPayload)
        requires
            old(self).wf(),
        ensures
            final(self).wf(),
            older_kept(old(self).events@, final(self).events@),
            feed_view(final(self).events@) == feed_push(
                feed_view(old(self).events@),
                (GameEventCategory::Scan, scan_title(*scan), scan_detail(*scan)),
            ),
            final(self).state == old(self).state,
            final(self).username == old(self).username,
            final(self).was_reconnecting == old(self).was_reconnecting,
    {
        let mut title: Vec<char> = Vec::new();
        push_str(&mut title, "Scanned by ");
        push_str(&mut title, scan.scanner_username.as_str());
        let mut detail: Vec<char> = Vec::new();
        push_str(&mut detail, scan.scanner_ship_class.as_str());
        push_str(&mut detail, " | ");
        push_str(&mut detail, scan.message.as_str());
        self.append_event_chars(GameEventCategory::Scan, &title, &detail);
    }

    /// A pirate warning; bosses get their own title.
    pub fn handle_pirate_warning(&mut self, pirate: &PirateWarningPayload)
        requires
            old(self).wf(),
        ensures
            final(self).wf(),
            older_kept(old(self).events@, final(self).events@),
            feed_view(final(self).events@) == feed_push(
                feed_view(old(self).events@),
                (GameEventCategory::Pirate, pirate_title(*pirate), pirate.message@),
            ),
            final(self).state == old(self).state,
            final(self).username == old(self).username,
            final(self).was_reconnecting == old(self).was_reconnecting,
    {
        let mut title: Vec<char> = Vec::new();
        if pirate.is_boss {
            push_str(&mut title, "⚠ BOSS PIRATE: ");
            push_str(&mut title, pirate.pirate_name.as_str());
        } else {
            push_str(&mut title, "Pirate nearby: ");
            push_str(&mut title, pirate.pirate_name.as_str());
            push_str(&mut title, " (Tier ");
            push_all(&mut title, &i64_text(pirate.pirate_tier));
            push_str(&mut title, ")");
        }
        let detail = chars_of(pirate.message.as_str());
        self.append_event_chars(GameEventCategory::Pirate, &title, &detail);
    }

    /// A confirmed action. The title is the action name in Title Case; the
    /// detail is the message, or the optional fields, or "OK".
    pub fn handle_ok(&mut self, ok: &OkActionPayload)
        requires
            old(self).wf(),
        ensures
            final(self).wf(),
            older_kept(old(self).events@, final(self).events@),
            feed_view(final(self).events@) == feed_push(
                feed_view(old(self).events@),
                (action_category(ok.action@), title_case(ok.action@), ok_detail(*ok)),
            ),
            final(self).state == old(self).state,
            final(self).username == old(self).username,
            final(self).was_reconnecting == old(self).was_reconnecting,
    {
        let action = format_snake_case(ok.action.as_str());
        let detail: Vec<char>;
        if ok.message.as_str().is_empty() {
            let mut out: Vec<char> = Vec::new();
            let mut any = false;
            let ghost mut parts: Seq<Seq<char>> = Seq::empty();
            if let Some(d) = &ok.destination {
                append_part(&mut out, &mut any, "dest: ", d.as_str(), Ghost(parts));
                proof { parts = parts + seq!["dest: "@ + d@]; }
            }
            assert(parts =~= labelled("dest: "@, ok.destination));
            let ghost p1 = parts;
            if let Some(b) = &ok.base {
                append_part(&mut out, &mut any, "base: ", b.as_str(), Ghost(parts));
                proof { parts = parts + seq!["base: "@ + b@]; }
            }
            assert(parts =~= p1 + labelled("base: "@, ok.base));
            let ghost p2 = parts;
            if let Some(s) = &ok.system {
                append_part(&mut out, &mut any, "system: ", s.as_str(), Ghost(parts));
                proof { parts = parts + seq!["system: "@ + s@]; }
            }
            assert(parts =~= p2 + labelled("system: "@, ok.system));
            let ghost p3 = parts;
            if let Some(t) = &ok.target {
                append_part(&mut out, &mut any, "target: ", t.as_str(), Ghost(parts));
                proof { parts = parts + seq!["target: "@ + t@]; }
            }
            assert(parts =~= p3 + labelled("target: "@, ok.target));
            assert(parts =~= ok_parts(*ok));
            if !any {
                out = chars_of("OK");
            }
            detail = out;
        } else {
            detail = chars_of(ok.message.as_str());
        }
        let category = category_for_action(ok.action.as_str());
        let title = chars_of(action.as_str());
        self.append_event_chars(category, &title, &detail);
    }

    /// A refused action: "Error: <Command>", with the code when there is one.
    pub fn handle_action_error(&mut self, err: &ActionErrorPayload)
        requires
            old(self).wf(),
        ensures
            final(self).wf(),
            older_kept(old(self).events@, final(self).events@),
            feed_view(final(self).events@) == feed_push(
                feed_view(old(self).events@),
                (GameEventCategory::Info, action_error_title(*err), action_error_detail(*err)),
            ),
            final(self).state == old(self).state,
            final(self).username == old(self).username,
            final(self).was_reconnecting == old(self).was_reconnecting,
    {
        let command = format_snake_case(err.command.as_str());
        let mut title: Vec<char> = Vec::new();
        push_str(&mut title, "Error: ");
        push_str(&mut title, command.as_str());
        let mut detail: Vec<char> = Vec::new();
        if err.code.as_str().is_empty() {
            push_str(&mut detail, err.message.as_str());
        } else {
            push_str(&mut detail, "[");
            push_str(&mut detail, err.code.as_str());
            push_str(&mut detail, "] ");
            push_str(&mut detail, err.message.as_str());
        }
        self.append_event_chars(GameEventCategory::Info, &title, &detail);
    }

    /// A pushed notification; a missing title or message gets a default text.
    pub fn handle_notification(&mut self, title: Option<String>, message: Option<String>)
        requires
            old(self).wf(),
        ensures
            final(self).wf(),
            older_kept(old(self).events@, final(self).events@),
            feed_view(final(self).events@) == feed_push(
                feed_view(old(self).events@),
                (
                    GameEventCategory::Info,
                    text_or(title, "Notification"@),
                    text_or(message, "Notification received"@),
                ),
            ),
            final(self).state == old(self).state,
            final(self).username == old(self).username,
            final(self).was_reconnecting == old(self).was_reconnecting,
    {
        let t = match title {
            Some(t) => t,
            None => "Notification".to_owned(),
        };
        let m = match message {
            Some(m) => m,
            None => "Notification received".to_owned(),
        };
        self.append_event(GameEventCategory::Info, t.as_str(), m.as_str());
    }

    /// Missed notifications fetched from the server. Returns how many feed
    /// entries were added.
    pub fn apply_notifications(&mut self, batch: NotificationBatch) -> (added: usize)
        requires
            old(self).wf(),
        ensures
            final(self).wf(),
            forall|k: int|
                added <= k < final(self).events@.len() ==> #[trigger] final(self).events@[k]
                    == old(self).events@[k - added],
            match batch {
                NotificationBatch::List(ns) => {
                    &&& feed_view(final(self).events@) == feed_push_all(
                        feed_view(old(self).events@),
                        notification_entries(ns@),
                    )
                    &&& added == notification_entries(ns@).len()
                },
                NotificationBatch::Single { title, message } => {
                    &&& feed_view(final(self).events@) == feed_push(
                        feed_view(old(self).events@),
                        (GameEventCategory::Info, text_or(title, "Notification"@), message@),
                    )
                    &&& added == 1
                },
                NotificationBatch::Nothing => {
                    &&& final(self).events == old(self).events
                    &&& added == 0
                },
            },
            final(self).state == old(self).state,
            final(self).username == old(self).username,
            final(self).was_reconnecting == old(self).was_reconnecting,
    {
        match batch {
            NotificationBatch::List(ns) => {
                let ghost start = feed_view(self.events@);
                let ghost start_events = self.events@;
                let mut added: usize = 0;
                let mut i: usize = 0;
                while i < ns.len()
                    invariant
                        self.wf(),
                        0 <= i <= ns@.len(),
                        added == notification_entries(ns@.subrange(0, i as int)).len(),
                        added <= i,
                        start_events == old(self).events@,
                        forall|k: int|
                            added <= k < self.events@.len() ==> #[trigger] self.events@[k]
                                == start_events[k - added],
                        feed_view(self.events@) == feed_push_all(
                            start,
                            notification_entries(ns@.subrange(0, i as int)),
                        ),
                        self.state == old(self).state,
                        self.username == old(self).username,
                        self.was_reconnecting == old(self).was_reconnecting,
                    decreases ns@.len() - i,
                {
                    let n = &ns[i];
                    let ghost pre = ns@.subrange(0, i as int);
                    let ghost next = ns@.subrange(0, i + 1);
                    proof {
                        assert(next.drop_last() =~= pre);
                        assert(next.last() == ns@[i as int]);
                    }
                    let message: &str = match &n.message {
                        Some(m) => m.as_str(),
                        None => "",
                    };
                    let title: &str = match &n.title {
                        Some(t) => t.as_str(),
                        None => "Notification",
                    };
                    proof {
                        reveal_strlit("");
                        assert(""@ =~= Seq::<char>::empty());
                        assert(n == ns@[i as int]);
                        assert(message@ == text_or(n.message, Seq::<char>::empty()));
                        assert(title@ == text_or(n.title, "Notification"@));
                    }
                    if !message.is_empty() || !str_equals(title, "Notification") {
                        self.append_event(GameEventCategory::Info, title, message);
                        added = added + 1;
                        proof {
                            let es = notification_entries(pre);
                            assert(notification_entries(next) == es.push(
                                (GameEventCategory::Info, title@, message@),
                            ));
                            assert(es.push((GameEventCategory::Info, title@, message@)).drop_last() =~= es);
                        }
                    } else {
                        assert(notification_entries(next) == notification_entries(pre));
                    }
                    i = i + 1;
                }
                assert(ns@.subrange(0, ns@.len() as int) =~= ns@);
                added
            },
            NotificationBatch::Single { title, message } => {
                let t = match title {
                    Some(t) => t,
                    None => "Notification".to_owned(),
                };
                self.append_event(GameEventCategory::Info, t.as_str(), message.as_str());
                1
            },
            NotificationBatch::Nothing => 0,
        }
    }

    /// A connection-state change. Returns whether the state and missed
    /// notifications should be fetched again: on `Connected` after a
    /// `Reconnecting` seen since the last refresh.
    pub fn handle_connection_state(&mut self, state: ConnectionState) -> (refresh: bool)
        ensures
            refresh == (state == ConnectionState::Connected && (old(self).was_reconnecting)),
            final(self).was_reconnecting == connection_step(old(self).was_reconnecting, state).0,
            refresh == connection_step(old(self).was_reconnecting, state).1,
            final(self).state == (GameState { connection_state: state, ..old(self).state }),
            final(self).events == old(self).events,
            final(self).username == old(self).username,
    {
        if state == ConnectionState::Reconnecting {
            self.was_reconnecting = true;
        }
        self.state.connection_state = state;
        if state == ConnectionState::Connected && self.was_reconnecting {
            self.was_reconnecting = false;
            true
        } else {
            false
        }
    }
}

/// The reconnect flag after a connection-state change, and whether that
/// change calls for a refresh.
pub open spec fn connection_step(was_reconnecting: bool, state: ConnectionState) -> (bool, bool) {
    if state == ConnectionState::Reconnecting {
        (true, false)
    } else if state == ConnectionState::Connected && was_reconnecting {
        (false, true)
    } else {
        (was_reconnecting, false)
    }
}

/// Appends ", " (unless it is the first piece) and then `label` and `value`.
fn append_part(out: &mut Vec<char>, any: &mut bool, label: &str, value: &str, Ghost(parts): Ghost<Seq<Seq<char>>>)
    requires
        *old(any) == (parts.len() > 0),
        parts.len() > 0 ==> old(out)@ == join_with(parts, ", "@),
        parts.len() == 0 ==> old(out)@.len() == 0,
    ensures
        *final(any),
        final(out)@ == join_with(parts + seq![label@ + value@], ", "@),
{
    let ghost ps = parts + seq![label@ + value@];
    assert(ps.drop_last() =~= parts);
    if *any {
        push_str(out, ", ");
    }
    push_str(out, label);
    push_str(out, value);
    *any = true;
    proof {
        if parts.len() == 0 {
            assert(ps =~= seq![label@ + value@]);
            assert(out@ =~= label@ + value@);
        } else {
            assert(out@ =~= join_with(parts, ", "@) + ", "@ + (label@ + value@));
        }
    }
}


/// A delta with no section in it (no positive tick, every other section
/// absent) leaves the state exactly as it was.
pub proof fn lemma_merge_empty_delta(s: GameState, u: StateUpdatePayload)
    requires
        u.tick <= 0,
        u.player is None,
        u.ship is None,
        u.nearby is None,
        u.in_combat is None,
        u.travel_progress_bits is None,
        u.travel_destination is None,
    ensures
        merged(s, u) == s,
{
}

/// Every section a delta carries replaces the current one, whatever it held:
/// the player, the ship, the nearby players, the combat flag and both travel
/// fields; the tick only when the delta's tick is positive. A section the
/// delta leaves out keeps its current value.
pub proof fn lemma_merge_delta_sections_replace(s: GameState, u: StateUpdatePayload)
    ensures
        u.tick > 0 ==> merged(s, u).tick == u.tick,
        u.tick <= 0 ==> merged(s, u).tick == s.tick,
        u.player matches Some(p) ==> merged(s, u).player == p,
        u.player is None ==> merged(s, u).player == s.player,
        u.ship matches Some(x) ==> merged(s, u).ship == x,
        u.ship is None ==> merged(s, u).ship == s.ship,
        u.nearby matches Some(n) ==> merged(s, u).nearby == n,
        u.nearby is None ==> merged(s, u).nearby == s.nearby,
        u.in_combat matches Some(b) ==> merged(s, u).in_combat == b,
        u.in_combat is None ==> merged(s, u).in_combat == s.in_combat,
        u.travel_progress_bits is Some ==> merged(s, u).travel_progress_bits == u.travel_progress_bits,
        u.travel_progress_bits is None ==> merged(s, u).travel_progress_bits == s.travel_progress_bits,
        u.travel_destination is Some ==> merged(s, u).travel_destination == u.travel_destination,
        u.travel_destination is None ==> merged(s, u).travel_destination == s.travel_destination,
{
}

/// Merging the same delta twice gives the state that merging it once gives.
pub proof fn lemma_merge_idempotent(s: GameState, u: StateUpdatePayload)
    ensures
        merged(merged(s, u), u) == merged(s, u),
{
}

/// A merge never touches what a delta cannot carry: pirates, system, point
/// of interest, cargo, skills, missions and the connection state.
pub proof fn lemma_merge_keeps_other_sections(s: GameState, u: StateUpdatePayload)
    ensures
        merged(s, u).pirates == s.pirates,
        merged(s, u).current_system == s.current_system,
        merged(s, u).current_poi == s.current_poi,
        merged(s, u).cargo == s.cargo,
        merged(s, u).skills == s.skills,
        merged(s, u).missions == s.missions,
        merged(s, u).connection_state == s.connection_state,
{
}

/// The feed is newest first and capped: after pushing `es` in order onto a
/// feed of at most `MAX_EVENTS` entries, it holds the pushed entries newest
/// first, then the older feed, cut to `MAX_EVENTS` entries.
pub proof fn lemma_feed_newest_first_capped<T>(feed: Seq<T>, es: Seq<T>)
    requires
        feed.len() <= MAX_EVENTS,
    ensures
        feed_push_all(feed, es) == (es.reverse() + feed).take(
            if es.len() + feed.len() > MAX_EVENTS {
                MAX_EVENTS as int
            } else {
                (es.len() + feed.len()) as int
            },
        ),
        feed_push_all(feed, es).len() <= MAX_EVENTS,
    decreases es.len(),
{
    if es.len() == 0 {
        assert((es.reverse() + feed).take(feed.len() as int) =~= feed);
    } else {
        let rest = es.drop_last();
        lemma_feed_newest_first_capped(feed, rest);
        let x = es.last();
        let r = rest.reverse() + feed;
        assert(es.reverse() + feed =~= seq![x] + r) by {
            assert(es.reverse() =~= seq![x] + rest.reverse());
        }
        let m1 = if rest.len() + feed.len() > MAX_EVENTS {
            MAX_EVENTS as int
        } else {
            (rest.len() + feed.len()) as int
        };
        let m = if es.len() + feed.len() > MAX_EVENTS {
            MAX_EVENTS as int
        } else {
            (es.len() + feed.len()) as int
        };
        let pushed = seq![x] + r.take(m1);
        if pushed.len() > MAX_EVENTS {
            assert(pushed.subrange(0, MAX_EVENTS as int) =~= (seq![x] + r).take(m));
        } else {
            assert(pushed =~= (seq![x] + r).take(m));
        }
    }
}

/// A reconnect asks for exactly one refresh: `Reconnecting` raises the
/// flag without a refresh, states other than `Connected` keep it raised
/// without a refresh, the next `Connected` refreshes and lowers it, and a
/// `Connected` with the flag lowered asks for none.
pub proof fn lemma_refresh_once_per_reconnect(w: bool, other: ConnectionState)
    requires
        other != ConnectionState::Connected,
    ensures
        connection_step(w, ConnectionState::Reconnecting) == (true, false),
        connection_step(true, other) == (true, false),
        connection_step(true, ConnectionState::Connected) == (false, true),
        connection_step(false, ConnectionState::Connected) == (false, false),
{
}

/// Each frame type the server sends is routed to its own kind, and a frame is
/// routed to a known kind only when its type is that kind's frame type: any
/// other type is unknown.
pub proof fn lemma_route_by_frame_type(k: MessageKind, t: Seq<char>)
    ensures
        k !is Unknown ==> message_kind(frame_type(k)) == k,
        message_kind(t) !is Unknown ==> t == frame_type(message_kind(t)),
{
    reveal_strlit("state_update");
    reveal_strlit("action_result");
    reveal_strlit("chat_message");
    reveal_strlit("combat_update");
    reveal_strlit("mining_yield");
    reveal_strlit("skill_level_up");
    reveal_strlit("player_died");
    reveal_strlit("scan_detected");
    reveal_strlit("pirate_warning");
    reveal_strlit("ok");
    reveal_strlit("action_error");
    reveal_strlit("notification");
    reveal_strlit("welcome");
    reveal_strlit("logged_in");
    assert("state_update"@ =~= seq!['s', 't', 'a', 't', 'e', '_', 'u', 'p', 'd', 'a', 't', 'e']);
    assert("action_result"@ =~= seq!['a', 'c', 't', 'i', 'o', 'n', '_', 'r', 'e', 's', 'u', 'l', 't']);
    assert("chat_message"@ =~= seq!['c', 'h', 'a', 't', '_', 'm', 'e', 's', 's', 'a', 'g', 'e']);
    assert("combat_update"@ =~= seq!['c', 'o', 'm', 'b', 'a', 't', '_', 'u', 'p', 'd', 'a', 't', 'e']);
    assert("mining_yield"@ =~= seq!['m', 'i', 'n', 'i', 'n', 'g', '_', 'y', 'i', 'e', 'l', 'd']);
    assert("skill_level_up"@ =~= seq!['s', 'k', 'i', 'l', 'l', '_', 'l', 'e', 'v', 'e', 'l', '_', 'u', 'p']);
    assert("player_died"@ =~= seq!['p', 'l', 'a', 'y', 'e', 'r', '_', 'd', 'i', 'e', 'd']);
    assert("scan_detected"@ =~= seq!['s', 'c', 'a', 'n', '_', 'd', 'e', 't', 'e', 'c', 't', 'e', 'd']);
    assert("pirate_warning"@ =~= seq!['p', 'i', 'r', 'a', 't', 'e', '_', 'w', 'a', 'r', 'n', 'i', 'n', 'g']);
    assert("ok"@ =~= seq!['o', 'k']);
    assert("action_error"@ =~= seq!['a', 'c', 't', 'i', 'o', 'n', '_', 'e', 'r', 'r', 'o', 'r']);
    assert("notification"@ =~= seq!['n', 'o', 't', 'i', 'f', 'i', 'c', 'a', 't', 'i', 'o', 'n']);
    assert("welcome"@ =~= seq!['w', 'e', 'l', 'c', 'o', 'm', 'e']);
    assert("logged_in"@ =~= seq!['l', 'o', 'g', 'g', 'e', 'd', '_', 'i', 'n']);
}

} // verus!
