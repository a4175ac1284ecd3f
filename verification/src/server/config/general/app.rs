use vstd::prelude::*;

use super::server::{config_from_crude, ServerConfig, ServerConfigCrude};

verus! {

/// The configuration file as it is read.
#[derive(Debug)]
pub struct AppConfigCrude {
    pub server: ServerConfigCrude,
}

/// The configuration the server runs with.
#[derive(Debug)]
pub struct AppConfig {
    server: ServerConfig,
}

impl AppConfig {
    /// The server settings.
    pub closed spec fn server(&self) -> ServerConfig {
        self.server
    }

    /// The configuration made from the file's (see `ServerConfig::from_crude`).
    pub fn from_crude(crude: AppConfigCrude) -> (c: Self)
        ensures
            exists|home: Option<Seq<char>>| config_from_crude(c.server(), crude.server, home),
    {
        Self { server: ServerConfig::from_crude(crude.server) }
    }

    pub fn new(server: ServerConfig) -> (c: Self)
        ensures
            c.server() == server,
    {
        Self { server }
    }

    pub fn server_ref(&self) -> (r: &ServerConfig)
        ensures
            *r == self.server(),
    {
        &self.server
    }
}

impl core::default::Default for AppConfig {
    fn default() -> (c: Self)
        ensures
            c.server().socket@ == "/tmp/dizi-server-socket"@,
            c.server().playlist@ == "/tmp/dizi-playlist.m3u"@,
            c.server().audio_system == super::server::HostId::Jack,
            c.server().on_song_change is None,
            c.server().player == (super::player::PlayerOption {
                shuffle: false,
                repeat: true,
                next: true,
            }),
    {
        Self { server: ServerConfig::default() }
    }
}

} // verus!
