//! Core of a real-time multiplayer room/lobby server.
//!
//! Many clients share one duplex connection abstraction, issue typed
//! request/response and request/stream calls, and observe concurrently
//! mutated entities (users, rooms). This crate holds the verified logic:
//! an id-allocating entity store, a debounced change-notification channel,
//! a command registry with typed dispatch, and the room lifecycle rules
//! (join/leave/ownership/capacity/idle-timeout). Transport, JSON encoding
//! and task scheduling live outside, in the surrounding application.

pub mod baodatui_poker;
pub mod channel;
pub mod configurable_rules;
pub mod configs;
pub mod dispatch;
pub mod errors;
pub mod ext;
pub mod handler;
pub mod handlers;
pub mod poker;
pub mod registry;
pub mod room;
pub mod room_manager;
pub mod settings;
pub mod store;
pub mod user;
pub mod user_manager;
pub mod utils;
