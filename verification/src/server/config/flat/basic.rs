use vstd::prelude::*;

use super::Flattenable;

verus! {

/// The server settings as the file gives them: the socket path.
#[derive(Debug)]
pub struct RawServerConfig {
    pub socket: String,
}

impl Flattenable<ServerConfig> for RawServerConfig {
    fn flatten(self) -> (c: ServerConfig)
        ensures
            c.socket == self.socket,
    {
        ServerConfig { socket: self.socket }
    }
}

/// The server settings: the socket path.
#[derive(Debug)]
pub struct ServerConfig {
    pub socket: String,
}

impl core::default::Default for ServerConfig {
    fn default() -> (c: Self)
        ensures
            c.socket@ == "."@,
    {
        Self { socket: String::from_str(".") }
    }
}

/// The configuration file's values.
#[derive(Debug)]
pub struct RawAppConfig {
    _server: ServerConfig,
}

impl RawAppConfig {
    pub closed spec fn server(&self) -> ServerConfig {
        self._server
    }

    pub fn new(server: ServerConfig) -> (r: Self)
        ensures
            r.server() == server,
    {
        Self { _server: server }
    }
}

impl Flattenable<AppConfig> for RawAppConfig {
    fn flatten(self) -> (c: AppConfig)
        ensures
            c.server() == self.server(),
    {
        AppConfig { _server: self._server }
    }
}

/// The configuration the server runs with.
#[derive(Debug)]
pub struct AppConfig {
    _server: ServerConfig,
}

impl AppConfig {
    pub closed spec fn server(&self) -> ServerConfig {
        self._server
    }

    pub fn new(server: ServerConfig) -> (c: Self)
        ensures
            c.server() == server,
    {
        Self { _server: server }
    }

    pub fn server_ref(&self) -> (r: &ServerConfig)
        ensures
            *r == self.server(),
    {
        &self._server
    }
}

impl core::default::Default for AppConfig {
    fn default() -> (c: Self)
        ensures
            c.server().socket@ == "."@,
    {
        Self { _server: ServerConfig::default() }
    }
}

} // verus!
