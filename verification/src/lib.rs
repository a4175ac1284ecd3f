//! dizi: the state and rules of a server-client music player.
//!
//! The library holds what the player knows and decides: songs and playlists,
//! the player state and its query variables, the configuration, the events
//! that the server broadcasts and how a client applies them.

pub mod song;
pub mod text;
pub mod error;
pub mod playlist;
pub mod player;
pub mod response;
pub mod client;
pub mod server;
