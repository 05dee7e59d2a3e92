//! A server-side coordinator for a small tank arena game: lobbies, the
//! per-tick world update, admission of clients and the control plane's
//! operations, as a state machine that a host drives.

pub mod actions;
pub mod api_models;
pub mod client_handling;
pub mod connections;
pub mod formations;
pub mod game;
pub mod ids;
pub mod laws;
pub mod management_api;
pub mod models;
pub mod projectiles;
pub mod snapshot;
pub mod tables;
pub mod text;
pub mod wellformed;
