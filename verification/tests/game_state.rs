use spacemolt_viewer::game_state::{
    append_event_to_vec, category_for_action, runner_step, RunnerAction, RunnerEvent, format_snake_case, route_message, GameStateManager,
    MessageKind, NotificationBatch, NotificationFields, MAX_EVENTS,
};
use spacemolt_viewer::models::{
    ActionErrorPayload, ChatMessagePayload, LoggedInPayload, CombatUpdatePayload, ConnectionState,
    GameEventCategory, GameState, MiningYieldPayload, OkActionPayload, PirateWarningPayload,
    PlayerDiedPayload, ScanDetectedPayload, ShipOverview, SkillLevelUpPayload, StateUpdatePayload,
};
use std::collections::VecDeque;

#[test]
fn format_snake_case_converts_to_title_case() {
    assert_eq!(format_snake_case("mining_laser_1"), "Mining Laser 1");
    assert_eq!(format_snake_case("deep_core_mine"), "Deep Core Mine");
}

#[test]
fn format_snake_case_handles_single_word() {
    assert_eq!(format_snake_case("combat"), "Combat");
    assert_eq!(format_snake_case("mining"), "Mining");
}

#[test]
fn format_snake_case_handles_empty_string() {
    assert_eq!(format_snake_case(""), "");
}

#[test]
fn format_snake_case_handles_no_underscores() {
    assert_eq!(format_snake_case("hello"), "Hello");
}

#[test]
fn format_snake_case_preserves_numbers() {
    assert_eq!(format_snake_case("ore_1"), "Ore 1");
    assert_eq!(format_snake_case("v2"), "V2");
}

#[test]
fn format_snake_case_keeps_empty_words_and_uppercases_fully() {
    assert_eq!(format_snake_case("a__b"), "A  B");
    assert_eq!(format_snake_case("_x_"), " X ");
    assert_eq!(format_snake_case("ßeta"), "SSeta");
}

#[test]
fn append_event_caps_at_200() {
    let mut events = VecDeque::new();
    for i in 0..250 {
        append_event_to_vec(&mut events, GameEventCategory::Info, &format!("Event {i}"), "test");
    }
    assert_eq!(events.len(), 200);
    assert_eq!(events[0].title, "Event 249");
    assert_eq!(events[199].title, "Event 50");
}

#[test]
fn append_event_preserves_order() {
    let mut events = VecDeque::new();
    append_event_to_vec(&mut events, GameEventCategory::Info, "First", "d1");
    append_event_to_vec(&mut events, GameEventCategory::Info, "Second", "d2");
    append_event_to_vec(&mut events, GameEventCategory::Info, "Third", "d3");

    assert_eq!(events.len(), 3);
    assert_eq!(events[0].title, "Third");
    assert_eq!(events[1].title, "Second");
    assert_eq!(events[2].title, "First");
}

#[test]
fn append_event_under_cap_keeps_all() {
    let mut events = VecDeque::new();
    for i in 0..100 {
        append_event_to_vec(&mut events, GameEventCategory::Info, &format!("Event {i}"), "test");
    }
    assert_eq!(events.len(), 100);
}

#[test]
fn merge_state_update_merges_only_present_fields() {
    let mut gsm = GameStateManager::new("pilot".to_string());
    gsm.state.player.username = "original".to_string();
    gsm.state.ship.hull = 100;
    gsm.state.ship.max_hull = 200;

    let delta = StateUpdatePayload {
        tick: 42,
        player: None,
        ship: Some(ShipOverview { hull: 50, max_hull: 200, ..Default::default() }),
        nearby: None,
        in_combat: Some(true),
        travel_progress_bits: None,
        travel_destination: None,
    };
    gsm.merge_state_update(delta);

    assert_eq!(gsm.state.ship.hull, 50);
    assert_eq!(gsm.state.player.username, "original");
    assert_eq!(gsm.state.tick, 42);
    assert!(gsm.state.in_combat);
}

#[test]
fn merge_state_update_empty_delta_preserves_state() {
    let mut gsm = GameStateManager::new("pilot".to_string());
    gsm.state.player.username = "testuser".to_string();
    gsm.state.ship.hull = 350;
    gsm.state.tick = 100;

    gsm.merge_state_update(StateUpdatePayload::default());

    assert_eq!(gsm.state.player.username, "testuser");
    assert_eq!(gsm.state.ship.hull, 350);
    assert_eq!(gsm.state.tick, 100);
}

#[test]
fn merge_twice_is_merge_once() {
    let delta = StateUpdatePayload {
        tick: 7,
        travel_destination: Some("Sol".to_string()),
        travel_progress_bits: Some(0.5f64.to_bits()),
        ..Default::default()
    };
    let mut a = GameStateManager::new("p".to_string());
    a.merge_state_update(delta.clone());
    let once_tick = a.state.tick;
    let once_dest = a.state.travel_destination.clone();
    a.merge_state_update(delta);
    assert_eq!(a.state.tick, once_tick);
    assert_eq!(a.state.travel_destination, once_dest);
    assert_eq!(a.state.travel_progress_bits.map(f64::from_bits), Some(0.5));
}

#[test]
fn manager_starts_blank() {
    let gsm = GameStateManager::new("pilot".to_string());
    assert_eq!(gsm.username, "pilot");
    assert!(gsm.events.is_empty());
    assert!(!gsm.was_reconnecting);
    assert_eq!(gsm.state.tick, 0);
    assert_eq!(gsm.state.connection_state, ConnectionState::Disconnected);
}

#[test]
fn chat_message_entry() {
    let mut gsm = GameStateManager::new("p".to_string());
    gsm.handle_chat_message(&ChatMessagePayload {
        channel: "local".to_string(),
        sender: "bob".to_string(),
        content: "hi all".to_string(),
        timestamp: String::new(),
    });
    assert_eq!(gsm.events[0].category, GameEventCategory::Chat);
    assert_eq!(gsm.events[0].title, "[local] bob");
    assert_eq!(gsm.events[0].detail, "hi all");
}

#[test]
fn combat_update_entries() {
    let mut gsm = GameStateManager::new("p".to_string());
    let hit = CombatUpdatePayload {
        tick: 1,
        attacker: "me".to_string(),
        target: "drone".to_string(),
        damage: 12,
        damage_type: "kinetic".to_string(),
        shield_hit: 5,
        hull_hit: 7,
        destroyed: false,
    };
    assert!(!gsm.handle_combat_update(&hit));
    assert_eq!(gsm.events[0].category, GameEventCategory::Combat);
    assert_eq!(gsm.events[0].title, "Combat: me → drone");
    assert_eq!(gsm.events[0].detail, "Damage: 12 (kinetic) | Shield: -5 | Hull: -7");
    assert!(gsm.state.in_combat);

    let kill = CombatUpdatePayload { destroyed: true, damage: -3, ..hit };
    assert!(gsm.handle_combat_update(&kill));
    assert_eq!(gsm.events[0].title, "drone destroyed!");
    assert_eq!(gsm.events[0].detail, "Damage: -3 (kinetic) | Shield: -5 | Hull: -7");
}

#[test]
fn mining_and_skill_entries() {
    let mut gsm = GameStateManager::new("p".to_string());
    gsm.handle_mining_yield(&MiningYieldPayload {
        resource_id: "iron_ore".to_string(),
        quantity: 12,
        remaining: 300,
    });
    assert_eq!(gsm.events[0].category, GameEventCategory::Mining);
    assert_eq!(gsm.events[0].title, "Mined 12 Iron Ore");
    assert_eq!(gsm.events[0].detail, "300 remaining in deposit");

    gsm.handle_skill_level_up(&SkillLevelUpPayload {
        skill_id: "deep_core_mining".to_string(),
        new_level: 4,
        xp_gained: 250,
    });
    assert_eq!(gsm.events[0].category, GameEventCategory::Skill);
    assert_eq!(gsm.events[0].title, "Deep Core Mining reached level 4!");
    assert_eq!(gsm.events[0].detail, "+250 XP");
}

#[test]
fn death_entry_clears_combat() {
    let mut gsm = GameStateManager::new("p".to_string());
    gsm.state.in_combat = true;
    gsm.handle_player_died(&PlayerDiedPayload {
        killer: "Raider".to_string(),
        respawn_base: "Haven".to_string(),
        clone_cost: 500,
        insurance_payout: 1200,
        new_ship_class: "shuttle".to_string(),
    });
    assert!(!gsm.state.in_combat);
    assert_eq!(gsm.events[0].category, GameEventCategory::Death);
    assert_eq!(gsm.events[0].title, "Destroyed by Raider");
    assert_eq!(
        gsm.events[0].detail,
        "Respawn at Haven | Clone cost: 500 cr | Insurance: 1200 cr | New ship: shuttle"
    );
}

#[test]
fn scan_and_pirate_entries() {
    let mut gsm = GameStateManager::new("p".to_string());
    gsm.handle_scan_detected(&ScanDetectedPayload {
        scanner_username: "eve".to_string(),
        scanner_ship_class: "frigate".to_string(),
        message: "deep scan".to_string(),
    });
    assert_eq!(gsm.events[0].category, GameEventCategory::Scan);
    assert_eq!(gsm.events[0].title, "Scanned by eve");
    assert_eq!(gsm.events[0].detail, "frigate | deep scan");

    gsm.handle_pirate_warning(&PirateWarningPayload {
        pirate_name: "Blackbeard".to_string(),
        pirate_tier: 3,
        is_boss: false,
        message: "closing in".to_string(),
    });
    assert_eq!(gsm.events[0].category, GameEventCategory::Pirate);
    assert_eq!(gsm.events[0].title, "Pirate nearby: Blackbeard (Tier 3)");
    assert_eq!(gsm.events[0].detail, "closing in");

    gsm.handle_pirate_warning(&PirateWarningPayload {
        pirate_name: "Kraken".to_string(),
        pirate_tier: 9,
        is_boss: true,
        message: "run".to_string(),
    });
    assert_eq!(gsm.events[0].title, "⚠ BOSS PIRATE: Kraken");
}

#[test]
fn ok_entries() {
    let mut gsm = GameStateManager::new("p".to_string());
    gsm.handle_ok(&OkActionPayload {
        action: "travel".to_string(),
        destination: Some("Mars".to_string()),
        system: Some("Sol".to_string()),
        ..Default::default()
    });
    assert_eq!(gsm.events[0].category, GameEventCategory::Navigation);
    assert_eq!(gsm.events[0].title, "Travel");
    assert_eq!(gsm.events[0].detail, "dest: Mars, system: Sol");

    gsm.handle_ok(&OkActionPayload { action: "sell".to_string(), ..Default::default() });
    assert_eq!(gsm.events[0].category, GameEventCategory::Trade);
    assert_eq!(gsm.events[0].detail, "OK");

    gsm.handle_ok(&OkActionPayload {
        action: "jettison_cargo".to_string(),
        target: Some("x".to_string()),
        message: "done".to_string(),
        ..Default::default()
    });
    assert_eq!(gsm.events[0].category, GameEventCategory::Info);
    assert_eq!(gsm.events[0].title, "Jettison Cargo");
    assert_eq!(gsm.events[0].detail, "done");
}

#[test]
fn action_error_entries() {
    let mut gsm = GameStateManager::new("p".to_string());
    gsm.handle_action_error(&ActionErrorPayload {
        command: "jump_gate".to_string(),
        message: "not docked".to_string(),
        code: "E12".to_string(),
    });
    assert_eq!(gsm.events[0].category, GameEventCategory::Info);
    assert_eq!(gsm.events[0].title, "Error: Jump Gate");
    assert_eq!(gsm.events[0].detail, "[E12] not docked");

    gsm.handle_action_error(&ActionErrorPayload {
        command: "mine".to_string(),
        message: "no deposit".to_string(),
        code: String::new(),
    });
    assert_eq!(gsm.events[0].detail, "no deposit");
}

#[test]
fn notification_defaults() {
    let mut gsm = GameStateManager::new("p".to_string());
    gsm.handle_notification(None, None);
    assert_eq!(gsm.events[0].title, "Notification");
    assert_eq!(gsm.events[0].detail, "Notification received");
    gsm.handle_notification(Some("Market".to_string()), Some("Order filled".to_string()));
    assert_eq!(gsm.events[0].title, "Market");
    assert_eq!(gsm.events[0].detail, "Order filled");
}

#[test]
fn fetched_notifications_skip_empty_ones() {
    let mut gsm = GameStateManager::new("p".to_string());
    let added = gsm.apply_notifications(NotificationBatch::List(vec![
        NotificationFields { title: None, message: Some("first".to_string()) },
        NotificationFields { title: None, message: None },
        NotificationFields { title: Some("Notification".to_string()), message: Some(String::new()) },
        NotificationFields { title: Some("Bounty".to_string()), message: None },
    ]));
    assert_eq!(added, 2);
    assert_eq!(gsm.events.len(), 2);
    assert_eq!(gsm.events[0].title, "Bounty");
    assert_eq!(gsm.events[0].detail, "");
    assert_eq!(gsm.events[1].title, "Notification");
    assert_eq!(gsm.events[1].detail, "first");

    assert_eq!(
        gsm.apply_notifications(NotificationBatch::Single { title: None, message: "lone".to_string() }),
        1
    );
    assert_eq!(gsm.events[0].title, "Notification");
    assert_eq!(gsm.apply_notifications(NotificationBatch::Nothing), 0);
    assert_eq!(gsm.events.len(), 3);
}

#[test]
fn reconnect_refreshes_once() {
    let mut gsm = GameStateManager::new("p".to_string());
    assert!(!gsm.handle_connection_state(ConnectionState::Connected));
    assert!(!gsm.handle_connection_state(ConnectionState::Reconnecting));
    assert!(!gsm.handle_connection_state(ConnectionState::RateLimited { retry_after: 5 }));
    assert!(gsm.handle_connection_state(ConnectionState::Connected));
    assert_eq!(gsm.state.connection_state, ConnectionState::Connected);
    assert!(!gsm.handle_connection_state(ConnectionState::Connected));
}

#[test]
fn feed_capped_through_manager() {
    let mut gsm = GameStateManager::new("p".to_string());
    for i in 0..(MAX_EVENTS + 5) {
        gsm.append_event(GameEventCategory::Info, &format!("E{i}"), "");
    }
    assert_eq!(gsm.events.len(), MAX_EVENTS);
    assert_eq!(gsm.events[0].title, format!("E{}", MAX_EVENTS + 4));
    assert!(gsm.events[0].timestamp > 0);
}

#[test]
fn routing_and_categories() {
    assert_eq!(route_message("state_update"), MessageKind::StateUpdate);
    assert_eq!(route_message("ok"), MessageKind::OkAction);
    assert_eq!(route_message("logged_in"), MessageKind::LoggedIn);
    assert_eq!(route_message("OK"), MessageKind::Unknown);
    assert_eq!(category_for_action("dock"), GameEventCategory::Navigation);
    assert_eq!(category_for_action("mine"), GameEventCategory::Mining);
    assert_eq!(category_for_action("trade"), GameEventCategory::Trade);
    assert_eq!(category_for_action("scan"), GameEventCategory::Info);
}

#[test]
fn refreshed_state_keeps_connection_state() {
    let mut gsm = GameStateManager::new("p".to_string());
    gsm.handle_connection_state(ConnectionState::Connected);
    let mut fresh = GameState::default();
    fresh.tick = 99;
    gsm.apply_refreshed_state(fresh);
    assert_eq!(gsm.state.tick, 99);
    assert_eq!(gsm.state.connection_state, ConnectionState::Connected);
}

#[test]
fn merge_leaves_sections_a_delta_cannot_carry() {
    let mut gsm = GameStateManager::new("p".to_string());
    gsm.state.cargo.used = 12;
    gsm.state.current_system.name = "Sol".to_string();
    gsm.handle_connection_state(ConnectionState::Connected);
    gsm.merge_state_update(StateUpdatePayload {
        tick: 3,
        player: Some(Default::default()),
        ship: Some(Default::default()),
        nearby: Some(Vec::new()),
        in_combat: Some(false),
        travel_progress_bits: Some(1.0f64.to_bits()),
        travel_destination: Some("Mars".to_string()),
    });
    assert_eq!(gsm.state.cargo.used, 12);
    assert_eq!(gsm.state.current_system.name, "Sol");
    assert_eq!(gsm.state.connection_state, ConnectionState::Connected);
    assert_eq!(gsm.state.tick, 3);
}

#[test]
fn non_positive_tick_is_ignored() {
    let mut gsm = GameStateManager::new("p".to_string());
    gsm.state.tick = 10;
    gsm.merge_state_update(StateUpdatePayload { tick: -4, ..Default::default() });
    assert_eq!(gsm.state.tick, 10);
}

#[test]
fn logged_in_snapshot_fills_player_ship_and_location() {
    let mut gsm = GameStateManager::new("p".to_string());
    gsm.state.tick = 5;
    let mut snapshot = LoggedInPayload::default();
    snapshot.player.username = "drift".to_string();
    snapshot.ship.hull = 77;
    snapshot.system.name = "Vega".to_string();
    snapshot.poi.name = "Belt".to_string();
    gsm.handle_logged_in(snapshot);
    assert_eq!(gsm.state.player.username, "drift");
    assert_eq!(gsm.state.ship.hull, 77);
    assert_eq!(gsm.state.current_system.name, "Vega");
    assert_eq!(gsm.state.current_poi.name, "Belt");
    assert_eq!(gsm.state.tick, 5);
}

#[test]
fn format_snake_case_leaves_its_own_result_alone() {
    for s in ["mining_laser_1", "deep_core_mine", "_x_", "a__b", "v2", "", "Already Title"] {
        let once = format_snake_case(s);
        assert_eq!(format_snake_case(&once), once);
    }
}

#[test]
fn state_task_stops_only_when_frames_end() {
    assert_eq!(runner_step(RunnerEvent::Message), RunnerAction::HandleMessage);
    assert_eq!(runner_step(RunnerEvent::MessagesClosed), RunnerAction::Stop);
    assert_eq!(runner_step(RunnerEvent::StateChange), RunnerAction::HandleStateChange);
    assert_eq!(runner_step(RunnerEvent::StatesClosed), RunnerAction::Ignore);
    assert_eq!(runner_step(RunnerEvent::RefreshDue), RunnerAction::Refresh);
}

#[test]
fn format_snake_case_ascii_shape() {
    assert_eq!(format_snake_case("a__b"), "A  B");
    assert_eq!(format_snake_case("_x"), " X");
    assert_eq!(format_snake_case("9lives_of_cat"), "9lives Of Cat");
}
