use spacemolt_viewer::models::{ConnectionState, GameEventCategory, GameState, ShipOverview};

#[test]
fn game_state_default_is_empty() {
    let state = GameState::default();
    assert_eq!(state.tick, 0);
    assert_eq!(state.player.username, "");
    assert_eq!(state.connection_state, ConnectionState::Disconnected);
    assert!(!state.in_combat);
}

#[test]
fn defaults_are_blank() {
    let state = GameState::default();
    assert!(state.nearby.is_empty());
    assert!(state.pirates.is_empty());
    assert!(state.travel_progress_bits.is_none());
    assert!(state.travel_destination.is_none());
    assert!(state.cargo.cargo.is_empty());
    assert_eq!(ShipOverview::default().hull, 0);
    assert_eq!(ConnectionState::default(), ConnectionState::Disconnected);
    assert_eq!(GameEventCategory::default(), GameEventCategory::Info);
}
