//! The game data the viewer shows: player, ship, system, missions, the
//! composite game state, connection state, event feed and push payloads.
//! Every field defaults to empty, zero or false, as missing fields do in the
//! server's answers.

use vstd::prelude::*;

verus! {

/// Player and ship status (`get_status`).
#[derive(Debug, Clone, Default)]
pub struct PlayerStatusResponse {
    pub player: Player,
    pub ship: ShipOverview,
}

/// A player.
#[derive(Debug, Clone)]
pub struct Player {
    pub id: String,
    pub username: String,
    pub empire: String,
    pub credits: i64,
    pub created_at: String,
    pub last_login_at: String,
    pub last_active_at: String,
    pub status_message: String,
    pub clan_tag: String,
    pub primary_color: String,
    pub secondary_color: String,
    pub anonymous: bool,
    pub is_cloaked: bool,
    pub current_ship_id: String,
    pub current_system: String,
    pub current_poi: String,
    pub home_base: String,
    pub docked_at_base: String,
    pub skills: std::collections::HashMap<String, i64>,
    pub skill_xp: std::collections::HashMap<String, i64>,
    pub experience: i64,
    pub stats: PlayerStats,
    pub discovered_systems: std::collections::HashMap<String, bool>,
}

impl Player {
    /// Every field is empty, zero or false.
    pub open spec fn is_blank(&self) -> bool {
        &&& self.id@.len() == 0
        &&& self.username@.len() == 0
        &&& self.empire@.len() == 0
        &&& self.credits == 0
        &&& self.created_at@.len() == 0
        &&& self.last_login_at@.len() == 0
        &&& self.last_active_at@.len() == 0
        &&& self.status_message@.len() == 0
        &&& self.clan_tag@.len() == 0
        &&& self.primary_color@.len() == 0
        &&& self.secondary_color@.len() == 0
        &&& !self.anonymous
        &&& !self.is_cloaked
        &&& self.current_ship_id@.len() == 0
        &&& self.current_system@.len() == 0
        &&& self.current_poi@.len() == 0
        &&& self.home_base@.len() == 0
        &&& self.docked_at_base@.len() == 0
        &&& self.skills@.dom().len() == 0
        &&& self.skill_xp@.dom().len() == 0
        &&& self.experience == 0
        &&& self.stats.is_blank()
        &&& self.discovered_systems@.dom().len() == 0
    }
}

impl Default for Player {
    fn default() -> (r: Self)
        ensures
            r.is_blank(),
    {
        Player {
            id: String::new(),
            username: String::new(),
            empire: String::new(),
            credits: 0,
            created_at: String::new(),
            last_login_at: String::new(),
            last_active_at: String::new(),
            status_message: String::new(),
            clan_tag: String::new(),
            primary_color: String::new(),
            secondary_color: String::new(),
            anonymous: false,
            is_cloaked: false,
            current_ship_id: String::new(),
            current_system: String::new(),
            current_poi: String::new(),
            home_base: String::new(),
            docked_at_base: String::new(),
            skills: std::collections::HashMap::new(),
            skill_xp: std::collections::HashMap::new(),
            experience: 0,
            stats: PlayerStats::default(),
            discovered_systems: std::collections::HashMap::new(),
        }
    }
}

/// Lifetime statistics of a player.
#[derive(Debug, Clone)]
pub struct PlayerStats {
    pub credits_earned: i64,
    pub credits_spent: i64,
    pub ships_destroyed: i64,
    pub ships_lost: i64,
    pub pirates_destroyed: i64,
    pub ore_mined: i64,
    pub items_crafted: i64,
    pub trades_completed: i64,
    pub systems_explored: i64,
}

impl PlayerStats {
    /// Every field is empty, zero or false.
    pub open spec fn is_blank(&self) -> bool {
        &&& self.credits_earned == 0
        &&& self.credits_spent == 0
        &&& self.ships_destroyed == 0
        &&& self.ships_lost == 0
        &&& self.pirates_destroyed == 0
        &&& self.ore_mined == 0
        &&& self.items_crafted == 0
        &&& self.trades_completed == 0
        &&& self.systems_explored == 0
    }
}

impl Default for PlayerStats {
    fn default() -> (r: Self)
        ensures
            r.is_blank(),
    {
        PlayerStats {
            credits_earned: 0,
            credits_spent: 0,
            ships_destroyed: 0,
            ships_lost: 0,
            pirates_destroyed: 0,
            ore_mined: 0,
            items_crafted: 0,
            trades_completed: 0,
            systems_explored: 0,
        }
    }
}

/// The active ship at a glance.
#[derive(Debug, Clone)]
pub struct ShipOverview {
    pub id: String,
    pub name: String,
    pub class_id: String,
    pub hull: i64,
    pub max_hull: i64,
    pub shield: i64,
    pub max_shield: i64,
    pub armor: i64,
    pub fuel: i64,
    pub max_fuel: i64,
    pub speed: i64,
    pub cargo_used: i64,
    pub cargo_capacity: i64,
    pub cpu_used: i64,
    pub cpu_max: i64,
    pub power_used: i64,
    pub power_max: i64,
}

impl ShipOverview {
    /// Every field is empty, zero or false.
    pub open spec fn is_blank(&self) -> bool {
        &&& self.id@.len() == 0
        &&& self.name@.len() == 0
        &&& self.class_id@.len() == 0
        &&& self.hull == 0
        &&& self.max_hull == 0
        &&& self.shield == 0
        &&& self.max_shield == 0
        &&& self.armor == 0
        &&& self.fuel == 0
        &&& self.max_fuel == 0
        &&& self.speed == 0
        &&& self.cargo_used == 0
        &&& self.cargo_capacity == 0
        &&& self.cpu_used == 0
        &&& self.cpu_max == 0
        &&& self.power_used == 0
        &&& self.power_max == 0
    }
}

impl Default for ShipOverview {
    fn default() -> (r: Self)
        ensures
            r.is_blank(),
    {
        ShipOverview {
            id: String::new(),
            name: String::new(),
            class_id: String::new(),
            hull: 0,
            max_hull: 0,
            shield: 0,
            max_shield: 0,
            armor: 0,
            fuel: 0,
            max_fuel: 0,
            speed: 0,
            cargo_used: 0,
            cargo_capacity: 0,
            cpu_used: 0,
            cpu_max: 0,
            power_used: 0,
            power_max: 0,
        }
    }
}

/// Cargo hold contents (`get_cargo`).
#[derive(Debug, Clone)]
pub struct CargoResponse {
    pub available: i64,
    pub capacity: i64,
    pub used: i64,
    pub cargo: Vec<CargoItem>,
}

impl CargoResponse {
    /// Every field is empty, zero or false.
    pub open spec fn is_blank(&self) -> bool {
        &&& self.available == 0
        &&& self.capacity == 0
        &&& self.used == 0
        &&& self.cargo@.len() == 0
    }
}

impl Default for CargoResponse {
    fn default() -> (r: Self)
        ensures
            r.is_blank(),
    {
        CargoResponse {
            available: 0,
            capacity: 0,
            used: 0,
            cargo: Vec::new(),
        }
    }
}

/// One cargo stack.
#[derive(Debug, Clone, Default)]
pub struct CargoItem {
    pub item_id: String,
    pub quantity: i64,
    pub size: i64,
}

/// The current star system (`get_system`).
#[derive(Debug, Clone, Default)]
pub struct SystemResponse {
    pub system: StarSystem,
    pub pois: Vec<PointOfInterest>,
    pub security_status: String,
}

/// A star system.
#[derive(Debug, Clone)]
pub struct StarSystem {
    pub id: String,
    pub name: String,
    pub description: String,
    pub police_level: i64,
    pub connections: Vec<String>,
    pub pois: Vec<String>,
    pub position: SystemPosition,
}

impl StarSystem {
    /// Every field is empty, zero or false.
    pub open spec fn is_blank(&self) -> bool {
        &&& self.id@.len() == 0
        &&& self.name@.len() == 0
        &&& self.description@.len() == 0
        &&& self.police_level == 0
        &&& self.connections@.len() == 0
        &&& self.pois@.len() == 0
        &&& self.position.is_blank()
    }
}

impl Default for StarSystem {
    fn default() -> (r: Self)
        ensures
            r.is_blank(),
    {
        StarSystem {
            id: String::new(),
            name: String::new(),
            description: String::new(),
            police_level: 0,
            connections: Vec::new(),
            pois: Vec::new(),
            position: SystemPosition::default(),
        }
    }
}

/// Galaxy coordinates.
#[derive(Debug, Clone)]
pub struct SystemPosition {
    pub x: i64,
    pub y: i64,
}

impl SystemPosition {
    /// Every field is empty, zero or false.
    pub open spec fn is_blank(&self) -> bool {
        &&& self.x == 0
        &&& self.y == 0
    }
}

impl Default for SystemPosition {
    fn default() -> (r: Self)
        ensures
            r.is_blank(),
    {
        SystemPosition {
            x: 0,
            y: 0,
        }
    }
}

/// A point of interest in a system.
#[derive(Debug, Clone)]
pub struct PointOfInterest {
    pub id: String,
    pub system_id: String,
    pub kind: String,
    pub name: String,
    pub position: SystemPosition,
}

impl PointOfInterest {
    /// Every field is empty, zero or false.
    pub open spec fn is_blank(&self) -> bool {
        &&& self.id@.len() == 0
        &&& self.system_id@.len() == 0
        &&& self.kind@.len() == 0
        &&& self.name@.len() == 0
        &&& self.position.is_blank()
    }
}

impl Default for PointOfInterest {
    fn default() -> (r: Self)
        ensures
            r.is_blank(),
    {
        PointOfInterest {
            id: String::new(),
            system_id: String::new(),
            kind: String::new(),
            name: String::new(),
            position: SystemPosition::default(),
        }
    }
}

/// Players and pirates nearby (`get_nearby`).
#[derive(Debug, Clone, Default)]
pub struct NearbyResponse {
    pub count: i64,
    pub nearby: Vec<NearbyPlayer>,
    pub pirate_count: i64,
    pub pirates: Vec<Pirate>,
    pub poi_id: String,
}

/// A player nearby.
#[derive(Debug, Clone, Default)]
pub struct NearbyPlayer {
    pub player_id: String,
    pub username: String,
    pub ship_class: String,
    pub clan_tag: String,
    pub anonymous: bool,
    pub in_combat: bool,
    pub status_message: String,
}

/// A pirate nearby; `hull_percent_bits` holds the bit pattern of its hull percentage (an `f64`).
#[derive(Debug, Clone, Default)]
pub struct Pirate {
    pub id: String,
    pub name: String,
    pub ship_class: String,
    pub hull_percent_bits: u64,
}

/// Detailed ship information (`get_ship`).
#[derive(Debug, Clone, Default)]
pub struct ShipDetailResponse {
    pub cargo_max: i64,
    pub cargo_used: i64,
    pub class: ShipClass,
    pub modules: Vec<ShipModule>,
    pub ship: ShipVitals,
    pub stats: ShipStats,
}

/// A ship class.
#[derive(Debug, Clone, Default)]
pub struct ShipClass {
    pub id: String,
    pub name: String,
    pub description: String,
    pub class: String,
    pub price: i64,
    pub base_hull: i64,
    pub base_shield: i64,
    pub base_armor: i64,
    pub base_speed: i64,
    pub base_fuel: i64,
    pub cargo_capacity: i64,
    pub cpu_capacity: i64,
    pub power_capacity: i64,
    pub weapon_slots: i64,
    pub defense_slots: i64,
    pub utility_slots: i64,
    pub default_modules: Vec<ShipModule>,
    pub required_skills: std::collections::HashMap<String, i64>,
}

/// A fitted module.
#[derive(Debug, Clone, Default)]
pub struct ShipModule {
    pub id: String,
    pub type_id: String,
    pub name: String,
    pub kind: String,
    pub cpu_usage: i64,
    pub power_usage: i64,
    pub mining_power: i64,
    pub mining_range: i64,
    pub quality: i64,
    pub quality_grade: String,
    pub wear: i64,
    pub wear_status: String,
}

/// Ship vitals.
#[derive(Debug, Clone, Default)]
pub struct ShipVitals {
    pub armor: i64,
    pub fuel: i64,
    pub hull: i64,
    pub max_fuel: i64,
    pub max_hull: i64,
    pub max_shield: i64,
    pub shield: i64,
    pub speed: i64,
}

/// Ship CPU and power use.
#[derive(Debug, Clone, Default)]
pub struct ShipStats {
    pub cpu_max: i64,
    pub cpu_used: i64,
    pub power_max: i64,
    pub power_used: i64,
}

/// Skills (`get_skills`).
#[derive(Debug, Clone)]
pub struct SkillsResponse {
    pub player_skill_count: i64,
    pub player_skills: Vec<Skill>,
    pub total_skill_count: i64,
    pub all_skills: Vec<Skill>,
}

impl SkillsResponse {
    /// Every field is empty, zero or false.
    pub open spec fn is_blank(&self) -> bool {
        &&& self.player_skill_count == 0
        &&& self.player_skills@.len() == 0
        &&& self.total_skill_count == 0
        &&& self.all_skills@.len() == 0
    }
}

impl Default for SkillsResponse {
    fn default() -> (r: Self)
        ensures
            r.is_blank(),
    {
        SkillsResponse {
            player_skill_count: 0,
            player_skills: Vec::new(),
            total_skill_count: 0,
            all_skills: Vec::new(),
        }
    }
}

/// A skill.
#[derive(Debug, Clone, Default)]
pub struct Skill {
    pub skill_id: String,
    pub name: String,
    pub category: String,
    pub level: i64,
    pub current_xp: i64,
    pub next_level_xp: i64,
    pub max_level: i64,
}

/// Missions (`get_missions`, `get_active_missions`); `missions` is `None` when the server sends null.
#[derive(Debug, Clone)]
pub struct MissionsResponse {
    pub missions: Option<Vec<Mission>>,
    pub total_count: i64,
    pub max_missions: i64,
}

impl MissionsResponse {
    /// Every field is empty, zero or false.
    pub open spec fn is_blank(&self) -> bool {
        &&& self.missions is None
        &&& self.total_count == 0
        &&& self.max_missions == 0
    }
}

impl Default for MissionsResponse {
    fn default() -> (r: Self)
        ensures
            r.is_blank(),
    {
        MissionsResponse {
            missions: None,
            total_count: 0,
            max_missions: 0,
        }
    }
}

/// A mission.
#[derive(Debug, Clone, Default)]
pub struct Mission {
    pub id: String,
    pub kind: String,
    pub title: String,
    pub description: String,
    pub difficulty: i64,
    pub objectives: Vec<MissionObjective>,
    pub rewards: MissionRewards,
    pub expires_at: String,
    pub ticks_remaining: i64,
}

/// One mission objective.
#[derive(Debug, Clone, Default)]
pub struct MissionObjective {
    pub description: String,
    pub current: i64,
    pub required: i64,
    pub completed: bool,
}

/// Mission rewards.
#[derive(Debug, Clone, Default)]
pub struct MissionRewards {
    pub credits: i64,
    pub skill_xp: std::collections::HashMap<String, i64>,
}

/// Owned ships (`list_ships`).
#[derive(Debug, Clone, Default)]
pub struct OwnedShipsResponse {
    pub active_ship_class: String,
    pub active_ship_id: String,
    pub count: i64,
    pub ships: Vec<OwnedShip>,
}

/// An owned ship; `hull` and `fuel` are texts such as "346/350".
#[derive(Debug, Clone, Default)]
pub struct OwnedShip {
    pub ship_id: String,
    pub class_id: String,
    pub class_name: String,
    pub is_active: bool,
    pub location: String,
    pub hull: String,
    pub fuel: String,
    pub cargo_used: i64,
    pub modules: i64,
}

/// Station storage (`view_storage`).
#[derive(Debug, Clone, Default)]
pub struct StorageResponse {
    pub credits: i64,
    pub items: Vec<StorageItem>,
    pub station_name: String,
    pub station_id: String,
}

/// One storage stack.
#[derive(Debug, Clone, Default)]
pub struct StorageItem {
    pub item_id: String,
    pub name: String,
    pub quantity: i64,
}

/// A market's orders (`view_market`).
#[derive(Debug, Clone, Default)]
pub struct MarketResponse {
    pub buy_orders: Vec<MarketOrder>,
    pub sell_orders: Vec<MarketOrder>,
}

/// One market order.
#[derive(Debug, Clone, Default)]
pub struct MarketOrder {
    pub item_id: String,
    pub price: i64,
    pub total_quantity: i64,
}

/// Chat history (`get_chat_history`).
#[derive(Debug, Clone, Default)]
pub struct ChatHistoryResponse {
    pub messages: Vec<ChatMessage>,
    pub has_more: bool,
}

/// One chat message.
#[derive(Debug, Clone, Default)]
pub struct ChatMessage {
    pub id: String,
    pub channel: String,
    pub sender_id: String,
    pub sender_name: String,
    pub content: String,
    pub timestamp: String,
}

/// Captain's log entries.
#[derive(Debug, Clone, Default)]
pub struct CaptainsLogResponse {
    pub entries: Vec<LogEntry>,
}

/// One captain's log entry; index 0 is the newest.
#[derive(Debug, Clone, Default)]
pub struct LogEntry {
    pub index: i64,
    pub entry: String,
    pub created_at: String,
}

/// The galaxy map (`get_map`).
#[derive(Debug, Clone, Default)]
pub struct PublicMapResponse {
    pub systems: Vec<MapSystem>,
    pub total: i64,
}

/// A system on the galaxy map.
#[derive(Debug, Clone, Default)]
pub struct MapSystem {
    pub id: String,
    pub name: String,
    pub position: SystemPosition,
    pub connections: Vec<String>,
    pub police_level: i64,
    pub security_status: String,
}

/// The `welcome` frame.
#[derive(Debug, Clone, Default)]
pub struct WelcomePayload {
    pub version: String,
    pub tick_rate: i64,
    pub current_tick: i64,
    pub server_time: String,
    pub motd: String,
}

/// The `logged_in` frame: the initial full snapshot.
#[derive(Debug, Clone, Default)]
pub struct LoggedInPayload {
    pub player: Player,
    pub ship: ShipOverview,
    pub system: StarSystem,
    pub poi: PointOfInterest,
    pub captains_log: CaptainsLogResponse,
    pub unread_chat: i64,
}

/// A `state_update` or `action_result` delta: only the sections that changed are present; `travel_progress_bits` holds the bit pattern of an `f64`.
#[derive(Debug, Clone, Default)]
pub struct StateUpdatePayload {
    pub tick: i64,
    pub player: Option<Player>,
    pub ship: Option<ShipOverview>,
    pub nearby: Option<Vec<NearbyPlayer>>,
    pub in_combat: Option<bool>,
    pub travel_progress_bits: Option<u64>,
    pub travel_destination: Option<String>,
}

/// The `chat_message` push event.
#[derive(Debug, Clone, Default)]
pub struct ChatMessagePayload {
    pub channel: String,
    pub sender: String,
    pub content: String,
    pub timestamp: String,
}

/// The `combat_update` push event.
#[derive(Debug, Clone, Default)]
pub struct CombatUpdatePayload {
    pub tick: i64,
    pub attacker: String,
    pub target: String,
    pub damage: i64,
    pub damage_type: String,
    pub shield_hit: i64,
    pub hull_hit: i64,
    pub destroyed: bool,
}

/// The `mining_yield` push event.
#[derive(Debug, Clone, Default)]
pub struct MiningYieldPayload {
    pub resource_id: String,
    pub quantity: i64,
    pub remaining: i64,
}

/// The `skill_level_up` push event.
#[derive(Debug, Clone, Default)]
pub struct SkillLevelUpPayload {
    pub skill_id: String,
    pub new_level: i64,
    pub xp_gained: i64,
}

/// The `player_died` push event.
#[derive(Debug, Clone, Default)]
pub struct PlayerDiedPayload {
    pub killer: String,
    pub respawn_base: String,
    pub clone_cost: i64,
    pub insurance_payout: i64,
    pub new_ship_class: String,
}

/// The `scan_detected` push event.
#[derive(Debug, Clone, Default)]
pub struct ScanDetectedPayload {
    pub scanner_username: String,
    pub scanner_ship_class: String,
    pub message: String,
}

/// The `pirate_warning` push event.
#[derive(Debug, Clone, Default)]
pub struct PirateWarningPayload {
    pub pirate_name: String,
    pub pirate_tier: i64,
    pub is_boss: bool,
    pub message: String,
}

/// The `ok` push event: a confirmed action.
#[derive(Debug, Clone, Default)]
pub struct OkActionPayload {
    pub action: String,
    pub destination: Option<String>,
    pub base: Option<String>,
    pub system: Option<String>,
    pub target: Option<String>,
    pub message: String,
}

/// The `action_error` push event.
#[derive(Debug, Clone, Default)]
pub struct ActionErrorPayload {
    pub command: String,
    pub message: String,
    pub code: String,
}

/// An error answer (MCP or WebSocket).
#[derive(Debug, Clone, Default)]
pub struct ErrorResponse {
    pub code: i64,
    pub message: String,
}

/// An MCP tool result: `content[0].text` holds JSON-encoded game data.
#[derive(Debug, Clone, Default)]
pub struct McpToolResult {
    pub content: Vec<McpContentItem>,
}

/// One MCP content item.
#[derive(Debug, Clone, Default)]
pub struct McpContentItem {
    pub kind: String,
    pub text: String,
}
/// The composite game state kept for one account, built from push events
/// and periodic refreshes. `travel_progress_bits` holds the bit pattern of
/// the travel progress (an `f64`).
#[derive(Debug, Clone)]
pub struct GameState {
    pub tick: i64,
    pub player: Player,
    pub ship: ShipOverview,
    pub nearby: Vec<NearbyPlayer>,
    pub pirates: Vec<Pirate>,
    pub in_combat: bool,
    pub travel_progress_bits: Option<u64>,
    pub travel_destination: Option<String>,
    pub current_system: StarSystem,
    pub current_poi: PointOfInterest,
    pub cargo: CargoResponse,
    pub skills: SkillsResponse,
    pub missions: MissionsResponse,
    pub connection_state: ConnectionState,
}

impl GameState {
    /// The state before anything was received: every field empty, zero or
    /// false, and disconnected.
    pub open spec fn is_blank(&self) -> bool {
        &&& self.tick == 0
        &&& self.player.is_blank()
        &&& self.ship.is_blank()
        &&& self.nearby@.len() == 0
        &&& self.pirates@.len() == 0
        &&& !self.in_combat
        &&& self.travel_progress_bits is None
        &&& self.travel_destination is None
        &&& self.current_system.is_blank()
        &&& self.current_poi.is_blank()
        &&& self.cargo.is_blank()
        &&& self.skills.is_blank()
        &&& self.missions.is_blank()
        &&& self.connection_state == ConnectionState::Disconnected
    }
}

impl Default for GameState {
    fn default() -> (r: Self)
        ensures
            r.is_blank(),
    {
        GameState {
            tick: 0,
            player: Player::default(),
            ship: ShipOverview::default(),
            nearby: Vec::new(),
            pirates: Vec::new(),
            in_combat: false,
            travel_progress_bits: None,
            travel_destination: None,
            current_system: StarSystem::default(),
            current_poi: PointOfInterest::default(),
            cargo: CargoResponse::default(),
            skills: SkillsResponse::default(),
            missions: MissionsResponse::default(),
            connection_state: ConnectionState::default(),
        }
    }
}

/// Connection state of one account, as shown to the frontend.
#[derive(Debug, Clone, Copy, PartialEq, Eq, Structural)]
pub enum ConnectionState {
    Disconnected,
    Connecting,
    Connected,
    Reconnecting,
    SessionExpired,
    /// Close code 4001: do not reconnect.
    SessionReplaced,
    /// Close code 4003.
    RateLimited { retry_after: u64 },
    Error,
    Offline,
}

impl Default for ConnectionState {
    fn default() -> (s: Self)
        ensures
            s == ConnectionState::Disconnected,
    {
        ConnectionState::Disconnected
    }
}

/// One entry of the event feed; `timestamp` is in Unix milliseconds.
#[derive(Debug, Clone)]
pub struct GameEvent {
    pub category: GameEventCategory,
    pub title: String,
    pub detail: String,
    pub timestamp: i64,
}

/// The kind of an event-feed entry.
#[derive(Debug, Clone, Copy, PartialEq, Eq, Structural)]
pub enum GameEventCategory {
    Info,
    Combat,
    Mining,
    Navigation,
    Trade,
    Skill,
    Pirate,
    Scan,
    Base,
    System,
    Broadcast,
    Chat,
    Death,
}

impl Default for GameEventCategory {
    fn default() -> (c: Self)
        ensures
            c == GameEventCategory::Info,
    {
        GameEventCategory::Info
    }
}

impl Default for GameEvent {
    fn default() -> (e: Self)
        ensures
            e.category == GameEventCategory::Info,
            e.title@.len() == 0,
            e.detail@.len() == 0,
            e.timestamp == 0,
    {
        GameEvent { category: GameEventCategory::Info, title: String::new(), detail: String::new(), timestamp: 0 }
    }
}

} // verus!
