use vstd::prelude::*;

use super::Flattenable;
use crate::server::config::general::server::{host_named, HostId};
use crate::text::str_eq;

verus! {

pub fn default_socket_path() -> (s: String)
    ensures
        s@ == "/tmp/dizi-server-socket"@,
{
    String::from_str("/tmp/dizi-server-socket")
}

pub fn default_audio_system() -> (h: HostId)
    ensures
        h == HostId::Jack,
{
    HostId::Jack
}

pub fn default_audio_system_string() -> (s: String)
    ensures
        s@ == "jack"@,
{
    String::from_str("jack")
}

/// The audio system named "jack" or "alsa".
pub fn str_to_cpal_hostid(s: &str) -> (h: Option<HostId>)
    ensures
        h == host_named(s@),
{
    if str_eq(s, "jack") {
        Some(HostId::Jack)
    } else if str_eq(s, "alsa") {
        Some(HostId::Alsa)
    } else {
        None
    }
}

/// The server settings as the file gives them.
#[derive(Debug)]
pub struct RawServerConfig {
    pub socket: String,
    pub audio_system: String,
}

impl core::default::Default for RawServerConfig {
    fn default() -> (c: Self)
        ensures
            c.socket@ == "/tmp/dizi-server-socket"@,
            c.audio_system@ == "jack"@,
    {
        Self { socket: default_socket_path(), audio_system: default_audio_system_string() }
    }
}

impl Flattenable<ServerConfig> for RawServerConfig {
    /// The socket as given; the audio system named, or Jack.
    fn flatten(self) -> (c: ServerConfig)
        ensures
            c.socket == self.socket,
            c.audio_system == match host_named(self.audio_system@) {
                Some(h) => h,
                None => HostId::Jack,
            },
    {
        let audio_system = match str_to_cpal_hostid(self.audio_system.as_str()) {
            Some(h) => h,
            None => default_audio_system(),
        };
        ServerConfig { socket: self.socket, audio_system }
    }
}

/// The server settings the server runs with.
#[derive(Debug)]
pub struct ServerConfig {
    pub socket: String,
    pub audio_system: HostId,
}

impl core::default::Default for ServerConfig {
    fn default() -> (c: Self)
        ensures
            c.socket@ == "/tmp/dizi-server-socket"@,
            c.audio_system == HostId::Jack,
    {
        Self { socket: default_socket_path(), audio_system: default_audio_system() }
    }
}

} // verus!
