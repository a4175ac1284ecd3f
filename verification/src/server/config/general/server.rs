use vstd::prelude::*;

use super::player::{PlayerOption, PlayerOptionCrude};
use crate::text::str_eq;

verus! {

/// The audio systems the server can play through.
#[derive(Clone, Copy, Debug, PartialEq, Eq, Structural)]
pub enum HostId {
    Alsa,
    Jack,
}

pub fn default_socket_string() -> (s: String)
    ensures
        s@ == "/tmp/dizi-server-socket"@,
{
    String::from_str("/tmp/dizi-server-socket")
}

pub fn default_playlist_string() -> (s: String)
    ensures
        s@ == "/tmp/dizi-playlist.m3u"@,
{
    String::from_str("/tmp/dizi-playlist.m3u")
}

pub fn default_socket_path() -> (s: String)
    ensures
        s@ == "/tmp/dizi-server-socket"@,
{
    default_socket_string()
}

pub fn default_playlist_path() -> (s: String)
    ensures
        s@ == "/tmp/dizi-playlist.m3u"@,
{
    default_playlist_string()
}

pub fn default_audio_system() -> (h: HostId)
    ensures
        h == HostId::Jack,
{
    HostId::Jack
}

pub fn default_audio_system_string() -> (s: String)
    ensures
        s@ == "jack"@,
{
    String::from_str("jack")
}

/// The audio system a configuration names: "jack" or "alsa".
pub open spec fn host_named(s: Seq<char>) -> Option<HostId> {
    if s == "jack"@ {
        Some(HostId::Jack)
    } else if s == "alsa"@ {
        Some(HostId::Alsa)
    } else {
        None
    }
}

pub fn str_to_cpal_hostid(s: &str) -> (h: Option<HostId>)
    ensures
        h == host_named(s@),
{
    if str_eq(s, "jack") {
        Some(HostId::Jack)
    } else if str_eq(s, "alsa") {
        Some(HostId::Alsa)
    } else {
        None
    }
}

/// A path as `shellexpand::tilde_with_context` expands it on Unix: a leading `~`
/// that is alone or followed by `/` becomes the home directory when one is known;
/// anything else is left as it is.
pub open spec fn tilde_expanded(input: Seq<char>, home: Option<Seq<char>>) -> Seq<char> {
    if input.len() > 0 && input[0] == '~' && (input.len() == 1 || input[1] == '/') {
        match home {
            Some(h) => h + input.skip(1),
            None => input,
        }
    } else {
        input
    }
}

pub open spec fn opt_view(o: Option<String>) -> Option<Seq<char>> {
    match o {
        Some(s) => Some(s@),
        None => None,
    }
}

/// `shellexpand::tilde_with_context`, with the home directory given.
#[verifier::external_body]
fn expand_tilde(input: &str, home: &Option<String>) -> (r: String)
    ensures
        r@ == tilde_expanded(input@, opt_view(*home)),
{
    shellexpand::tilde_with_context(input, || home.clone()).into_owned()
}

/// `dirs_next::home_dir`: the user's home directory, read from the environment
/// and the system; nothing is said of what it is.
#[verifier::external_body]
fn home_dir() -> (r: Option<String>) {
    dirs_next::home_dir().map(|p| p.to_string_lossy().into_owned())
}

/// The server settings as the configuration file gives them.
#[derive(Debug)]
pub struct ServerConfigCrude {
    pub socket: String,
    pub playlist: String,
    pub audio_system: String,
    pub on_song_change: Option<String>,
    pub player: PlayerOptionCrude,
}

impl core::default::Default for ServerConfigCrude {
    fn default() -> (c: Self)
        ensures
            c.socket@ == "/tmp/dizi-server-socket"@,
            c.playlist@ == "/tmp/dizi-playlist.m3u"@,
            c.audio_system@ == "jack"@,
            c.on_song_change is None,
            c.player == (PlayerOptionCrude { shuffle: false, repeat: true, next: true }),
    {
        Self {
            socket: default_socket_string(),
            playlist: default_playlist_string(),
            audio_system: default_audio_system_string(),
            on_song_change: None,
            player: PlayerOptionCrude::default(),
        }
    }
}

/// The server settings the server runs with.
#[derive(Debug)]
pub struct ServerConfig {
    pub socket: String,
    pub playlist: String,
    pub audio_system: HostId,
    pub on_song_change: Option<String>,
    pub player: PlayerOption,
}

/// The settings made from the file's, with `home` as the home directory: paths
/// expanded, the audio system recognised or Jack.
pub open spec fn config_from_crude(
    c: ServerConfig,
    crude: ServerConfigCrude,
    home: Option<Seq<char>>,
) -> bool {
    &&& c.socket@ == tilde_expanded(crude.socket@, home)
    &&& c.playlist@ == tilde_expanded(crude.playlist@, home)
    &&& c.audio_system == match host_named(crude.audio_system@) {
        Some(h) => h,
        None => HostId::Jack,
    }
    &&& match crude.on_song_change {
        Some(p) => c.on_song_change matches Some(q) && q@ == tilde_expanded(p@, home),
        None => c.on_song_change is None,
    }
    &&& c.player == (PlayerOption {
        shuffle: crude.player.shuffle,
        repeat: crude.player.repeat,
        next: crude.player.next,
    })
}

impl ServerConfig {
    pub fn socket_ref(&self) -> (r: &str)
        ensures
            r@ == self.socket@,
    {
        self.socket.as_str()
    }

    pub fn playlist_ref(&self) -> (r: &str)
        ensures
            r@ == self.playlist@,
    {
        self.playlist.as_str()
    }

    pub fn player_ref(&self) -> (r: &PlayerOption)
        ensures
            *r == self.player,
    {
        &self.player
    }

    /// The settings made from the file's with the given home directory (see
    /// `config_from_crude`).
    pub fn from_crude_with_home(crude: ServerConfigCrude, home: Option<String>) -> (c: Self)
        ensures
            config_from_crude(c, crude, opt_view(home)),
    {
        let audio_system = match str_to_cpal_hostid(crude.audio_system.as_str()) {
            Some(h) => h,
            None => default_audio_system(),
        };
        let socket = expand_tilde(crude.socket.as_str(), &home);
        let playlist = expand_tilde(crude.playlist.as_str(), &home);
        let on_song_change = match &crude.on_song_change {
            Some(path) => Some(expand_tilde(path.as_str(), &home)),
            None => None,
        };
        Self {
            socket,
            playlist,
            audio_system,
            on_song_change,
            player: PlayerOption::from_crude(crude.player),
        }
    }

    /// The settings made from the file's, with the user's home directory.
    pub fn from_crude(crude: ServerConfigCrude) -> (c: Self)
        ensures
            exists|home: Option<Seq<char>>| config_from_crude(c, crude, home),
    {
        let home = home_dir();
        let c = Self::from_crude_with_home(crude, home);
        c
    }
}

impl core::default::Default for ServerConfig {
    fn default() -> (c: Self)
        ensures
            c.socket@ == "/tmp/dizi-server-socket"@,
            c.playlist@ == "/tmp/dizi-playlist.m3u"@,
            c.audio_system == HostId::Jack,
            c.on_song_change is None,
            c.player == (PlayerOption { shuffle: false, repeat: true, next: true }),
    {
        Self {
            socket: default_socket_path(),
            playlist: default_playlist_path(),
            audio_system: default_audio_system(),
            on_song_change: None,
            player: PlayerOption::default(),
        }
    }
}

} // verus!
