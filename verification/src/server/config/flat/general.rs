use vstd::prelude::*;

use super::server::{RawServerConfig, ServerConfig};
use super::Flattenable;
use crate::server::config::general::server::{host_named, HostId};

verus! {

/// The configuration file's values.
#[derive(Debug)]
pub struct RawAppConfig {
    _server: RawServerConfig,
}

impl RawAppConfig {
    pub closed spec fn server(&self) -> RawServerConfig {
        self._server
    }

    pub fn new(server: RawServerConfig) -> (r: Self)
        ensures
            r.server() == server,
    {
        Self { _server: server }
    }
}

impl Flattenable<AppConfig> for RawAppConfig {
    fn flatten(self) -> (c: AppConfig)
        ensures
            c.server().socket == self.server().socket,
            c.server().audio_system == match host_named(self.server().audio_system@) {
                Some(h) => h,
                None => HostId::Jack,
            },
    {
        AppConfig { _server: self._server.flatten() }
    }
}

/// The configuration the server runs with.
#[derive(Debug)]
pub struct AppConfig {
    _server: ServerConfig,
}

impl AppConfig {
    pub closed spec fn server(&self) -> ServerConfig {
        self._server
    }

    pub fn new(server: ServerConfig) -> (c: Self)
        ensures
            c.server() == server,
    {
        Self { _server: server }
    }

    pub fn server_ref(&self) -> (r: &ServerConfig)
        ensures
            *r == self.server(),
    {
        &self._server
    }
}

impl core::default::Default for AppConfig {
    fn default() -> (c: Self)
        ensures
            c.server().socket@ == "/tmp/dizi-server-socket"@,
            c.server().audio_system == HostId::Jack,
    {
        Self { _server: ServerConfig::default() }
    }
}

} // verus!
