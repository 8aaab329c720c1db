//! Panel-level models for album and playlist details: they project the shared
//! application state, turn state-change events into list updates and turn user
//! gestures into actions and network requests. The state itself changes only
//! through `AppState::apply`, which reports each change as events.
pub mod models;
pub mod state;
pub mod dispatch;
pub mod store;
pub mod details_model;
pub mod playlist_details_model;
