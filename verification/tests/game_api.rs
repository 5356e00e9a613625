use spacemolt_viewer::game_api::{is_tool_allowed, throttle_for, GameApi, ToolArgs, ALLOWED_TOOLS};
use std::collections::HashSet;
use std::time::{Duration, Instant};

fn throttle_duration(tool: &str) -> Option<Duration> {
    throttle_for(tool).map(Duration::from_secs)
}

#[test]
fn test_mutation_tools_rejected() {
    assert!(!is_tool_allowed("attack"));
    assert!(!is_tool_allowed("battle"));
    assert!(!is_tool_allowed("chat"));
    assert!(!is_tool_allowed("forum_post"));
    assert!(!is_tool_allowed("set_status_message"));
    assert!(!is_tool_allowed("mute"));
    assert!(!is_tool_allowed("trade_cancel"));
    assert!(!is_tool_allowed("decline_mission"));
    assert!(!is_tool_allowed("captains_log_add"));
    assert!(!is_tool_allowed("delete"));
    assert!(!is_tool_allowed("subscribe_observation"));
    assert!(!is_tool_allowed("shipping"));
    assert!(!is_tool_allowed("station"));
    assert!(!is_tool_allowed("facility"));
}

#[test]
fn test_readonly_tools_allowed() {
    assert!(is_tool_allowed("get_status"));
    assert!(is_tool_allowed("get_state"));
    assert!(is_tool_allowed("get_ship"));
    assert!(is_tool_allowed("get_cargo"));
    assert!(is_tool_allowed("get_skills"));
    assert!(is_tool_allowed("get_nearby"));
    assert!(is_tool_allowed("get_system"));
    assert!(is_tool_allowed("get_map"));
    assert!(is_tool_allowed("list_ships"));
    assert!(is_tool_allowed("view_market"));
    assert!(is_tool_allowed("get_missions"));
    assert!(is_tool_allowed("get_active_missions"));
    assert!(is_tool_allowed("captains_log_list"));
    assert!(is_tool_allowed("get_notifications"));
    assert!(is_tool_allowed("faction_info"));
    assert!(is_tool_allowed("get_battle_log"));
    assert!(is_tool_allowed("get_wrecks"));
    assert!(is_tool_allowed("get_drones"));
}

#[test]
fn test_unknown_tool_rejected() {
    assert!(!is_tool_allowed(""));
    assert!(!is_tool_allowed("not_a_tool"));
    assert!(!is_tool_allowed("GET_STATUS"));
    assert!(!is_tool_allowed("get_status "));
}

#[test]
fn test_allowlist_count() {
    assert_eq!(ALLOWED_TOOLS.len(), 71, "Allowlist must have 71 tools — got {}", ALLOWED_TOOLS.len());
}

#[test]
fn test_allowlist_no_duplicates() {
    let set: HashSet<&&str> = ALLOWED_TOOLS.iter().collect();
    assert_eq!(set.len(), ALLOWED_TOOLS.len(), "Allowlist has duplicate entries");
}

#[test]
fn test_allowlist_sorted_for_readability() {
    assert!(ALLOWED_TOOLS.contains(&"get_status"));
    assert!(ALLOWED_TOOLS.contains(&"get_map"));
}

#[test]
fn test_throttle_intervals() {
    assert_eq!(throttle_duration("get_skills"), Some(Duration::from_secs(10)));
    assert_eq!(throttle_duration("get_nearby"), Some(Duration::from_secs(5)));
    assert_eq!(throttle_duration("get_cargo"), Some(Duration::from_secs(5)));
    assert_eq!(throttle_duration("list_ships"), Some(Duration::from_secs(30)));
    assert_eq!(throttle_duration("get_map"), Some(Duration::from_secs(300)));
    assert_eq!(throttle_duration("get_state"), Some(Duration::from_secs(3)));
    assert_eq!(throttle_duration("get_status"), Some(Duration::from_secs(3)));
}

#[test]
fn test_throttle_not_in_map() {
    assert_eq!(throttle_duration("get_ship"), None);
    assert_eq!(throttle_duration("get_system"), None);
    assert_eq!(throttle_duration("faction_info"), None);
    assert_eq!(throttle_duration("not_a_tool"), None);
}

#[test]
fn test_throttle_blocks_rapid_calls() {
    let mut api = GameApi::new();
    assert!(api.check_throttle("get_skills").is_ok());
    let result = api.check_throttle("get_skills");
    assert!(result.is_err());
    assert!(result.unwrap_err().contains("throttled"));
}

#[test]
fn test_throttle_different_tools_independent() {
    let mut api = GameApi::new();
    assert!(api.check_throttle("get_skills").is_ok());
    assert!(api.check_throttle("get_nearby").is_ok());
}

#[test]
fn test_throttle_unthrottled_tool_always_ok() {
    let mut api = GameApi::new();
    assert!(api.check_throttle("get_ship").is_ok());
    assert!(api.check_throttle("get_ship").is_ok());
    assert!(api.check_throttle("get_ship").is_ok());
}

#[test]
fn test_game_api_new() {
    let api = GameApi::new();
    assert_eq!(api.recorded_count(), 0);
}

#[test]
fn test_game_api_default() {
    let api = GameApi::default();
    assert_eq!(api.recorded_count(), 0);
}

#[test]
fn test_allowlist_covers_player_tools() {
    for tool in &["get_status", "get_state", "get_ship", "get_cargo", "get_skills",
    "get_location", "list_ships", "browse_ships", "view_ship_buy_orders",
    "commission_quote", "commission_status"] {
        assert!(is_tool_allowed(tool), "Player tool {tool} should be allowed");
    }
}

#[test]
fn test_allowlist_covers_system_tools() {
    for tool in &["get_system", "get_poi", "get_nearby", "get_map", "get_system_agents",
    "search_systems", "find_route", "inspect"] {
        assert!(is_tool_allowed(tool), "System tool {tool} should be allowed");
    }
}

#[test]
fn test_allowlist_covers_mission_tools() {
    for tool in &["get_missions", "get_active_missions", "completed_missions", "view_completed_mission"] {
        assert!(is_tool_allowed(tool), "Mission tool {tool} should be allowed");
    }
}

#[test]
fn test_allowlist_covers_market_tools() {
    for tool in &["view_market", "analyze_market", "view_orders", "estimate_purchase",
    "get_trades", "view_storage", "view_faction_storage",
    "get_tax_estimate", "get_faction_tax_estimate"] {
        assert!(is_tool_allowed(tool), "Market tool {tool} should be allowed");
    }
}

#[test]
fn test_allowlist_covers_faction_tools() {
    for tool in &["faction_info", "faction_list", "faction_get_invites", "faction_list_missions",
    "faction_garages", "faction_rooms", "faction_intel_status",
    "faction_query_intel", "faction_query_trade_intel", "faction_trade_intel_status"] {
        assert!(is_tool_allowed(tool), "Faction tool {tool} should be allowed");
    }
}

#[test]
fn test_allowlist_covers_catalog_tools() {
    for tool in &["catalog", "get_commands", "get_version", "get_guide", "help"] {
        assert!(is_tool_allowed(tool), "Catalog tool {tool} should be allowed");
    }
}

#[test]
fn test_allowlist_covers_log_tools() {
    for tool in &["captains_log_list", "captains_log_get", "get_notes", "read_note",
    "get_action_log", "get_battle_log", "get_battle_status", "get_battle_summary"] {
        assert!(is_tool_allowed(tool), "Log tool {tool} should be allowed");
    }
}

#[test]
fn test_allowlist_covers_drone_tools() {
    for tool in &["get_drone", "get_drones", "list_passengers", "list_station_passengers",
    "get_wrecks", "view_insurance", "claim_insurance", "get_insurance_quote"] {
        assert!(is_tool_allowed(tool), "Drone/misc tool {tool} should be allowed");
    }
}

#[test]
fn test_allowlist_covers_base_tools() {
    for tool in &["get_base", "get_base_cost", "get_empire_info",
    "get_achievements", "get_faction_achievements",
    "get_chat_history", "get_notifications", "get_notification_settings"] {
        assert!(is_tool_allowed(tool), "Base/empire tool {tool} should be allowed");
    }
}

#[test]
fn test_phantom_tools_excluded() {
    assert!(!is_tool_allowed("get_listings"));
    assert!(!is_tool_allowed("get_base_wrecks"));
    assert!(!is_tool_allowed("raid_status"));
    assert!(!is_tool_allowed("get_recipes"));
    assert!(!is_tool_allowed("get_ships"));
}

#[test]
fn admit_call_refuses_tool_outside_allowlist() {
    let mut api = GameApi::new();
    let r = api.admit_call("attack", ToolArgs::Absent);
    assert_eq!(r, Err("Tool 'attack' is not in the safety allowlist".to_string()));
    assert_eq!(api.recorded_count(), 0);
}

#[test]
fn admit_call_refuses_non_object_arguments() {
    let mut api = GameApi::new();
    let r = api.admit_call("get_ship", ToolArgs::NotObject);
    assert_eq!(r, Err("extra_args must be a JSON object".to_string()));
}

#[test]
fn admit_call_accepts_allowed_tool() {
    let mut api = GameApi::new();
    assert_eq!(api.admit_call("get_ship", ToolArgs::Object), Ok(()));
    assert_eq!(api.admit_call("get_status", ToolArgs::Absent), Ok(()));
    assert_eq!(api.recorded_count(), 2);
}

#[test]
fn admit_call_throttles_repeated_call() {
    let mut api = GameApi::new();
    assert_eq!(api.admit_call("get_map", ToolArgs::Absent), Ok(()));
    let r = api.admit_call("get_map", ToolArgs::Absent).unwrap_err();
    assert!(r.starts_with("tool 'get_map' throttled ("));
    assert!(r.ends_with("s remaining)"));
    // 300 s interval, so the text shows a value just under 300
    assert!(r.contains("300.0") || r.contains("299.9"));
}

#[test]
fn decide_throttle_refuses_exactly_within_the_interval() {
    let mut api = GameApi::new();
    let now = Instant::now();
    assert_eq!(api.decide_throttle("get_skills", None, now), Ok(()));
    let refused = api.decide_throttle("get_skills", Some(4_000_000_000), now).unwrap_err();
    assert!(refused.starts_with("tool 'get_skills' throttled (6.0s remaining)"));
    assert_eq!(api.recorded_count(), 1);
    assert_eq!(api.decide_throttle("get_skills", Some(10_000_000_000), now), Ok(()));
    assert_eq!(api.decide_throttle("get_ship", Some(0), now), Ok(()));
    assert_eq!(api.decide_throttle("get_ship", Some(0), now), Ok(()));
    assert_eq!(api.recorded_count(), 2);
}
