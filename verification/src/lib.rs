//! Verified core of a desktop viewer for the SpaceMolt game: the rules it
//! follows when a connection closes, the read-only tool allowlist with its
//! throttle, the game-state merge and event feed, and the account and
//! credential bookkeeping.

pub mod account_manager;
pub mod connection;
pub mod credential_store;
pub mod game_api;
pub mod game_state;
pub mod mcp_client;
pub mod models;
pub mod text;
pub mod ws_client;
