//! The server: its playlists, configuration, events and player.

pub mod playlist;
pub mod context;
pub mod config;
pub mod channel;
pub mod events;
pub mod request;
pub mod stream;
pub mod client_command;
pub mod playback;
pub mod player;
pub mod commands;
pub mod handlers;
pub mod args;
