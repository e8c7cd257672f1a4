//! Terminal UI logic: app state, stream session, and the text the screen shows.
pub mod events;
pub mod rows;
pub mod state;
pub mod stream_session;
pub mod time_display;
pub mod view;
