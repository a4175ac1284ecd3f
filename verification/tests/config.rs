use dizi::server::config::flat::basic;
use dizi::server::config::flat::general as flat_general;
use dizi::server::config::flat::server as flat_server;
use dizi::server::config::flat::Flattenable;
use dizi::server::config::general::server::{
    default_audio_system, default_audio_system_string, default_playlist_path, default_socket_path,
    str_to_cpal_hostid,
};
use dizi::server::config::general::{
    AppConfig, AppConfigCrude, HostId, PlayerOption, PlayerOptionCrude, ServerConfig, ServerConfigCrude,
};
use dizi::server::config::{first_existing, search_directories};

fn crude(socket: &str, playlist: &str, audio: &str, hook: Option<&str>) -> ServerConfigCrude {
    ServerConfigCrude {
        socket: socket.to_string(),
        playlist: playlist.to_string(),
        audio_system: audio.to_string(),
        on_song_change: hook.map(|s| s.to_string()),
        player: PlayerOptionCrude { shuffle: true, repeat: false, next: true },
    }
}

#[test]
fn defaults() {
    let c = ServerConfig::default();
    assert_eq!(c.socket_ref(), "/tmp/dizi-server-socket");
    assert_eq!(c.playlist_ref(), "/tmp/dizi-playlist.m3u");
    assert_eq!(c.audio_system, HostId::Jack);
    assert!(c.on_song_change.is_none());
    assert_eq!(*c.player_ref(), PlayerOption { shuffle: false, repeat: true, next: true });
    let cc = ServerConfigCrude::default();
    assert_eq!(cc.socket, "/tmp/dizi-server-socket");
    assert_eq!(cc.audio_system, "jack");
    assert_eq!(PlayerOptionCrude::default(), PlayerOptionCrude { shuffle: false, repeat: true, next: true });
    assert_eq!(default_socket_path(), "/tmp/dizi-server-socket");
    assert_eq!(default_playlist_path(), "/tmp/dizi-playlist.m3u");
    assert_eq!(default_audio_system(), HostId::Jack);
    assert_eq!(default_audio_system_string(), "jack");
    assert!(dizi::server::config::general::player::default_true());
    let a = AppConfig::default();
    assert_eq!(a.server_ref().socket, "/tmp/dizi-server-socket");
}

#[test]
fn audio_system_names() {
    assert_eq!(str_to_cpal_hostid("jack"), Some(HostId::Jack));
    assert_eq!(str_to_cpal_hostid("alsa"), Some(HostId::Alsa));
    assert_eq!(str_to_cpal_hostid("pulse"), None);
    assert_eq!(flat_server::str_to_cpal_hostid("alsa"), Some(HostId::Alsa));
}

#[test]
fn tilde_expands_to_home() {
    let c = ServerConfig::from_crude_with_home(
        crude("~/sock", "~", "alsa", Some("~/bin/hook")),
        Some("/home/u".to_string()),
    );
    assert_eq!(c.socket, "/home/u/sock");
    assert_eq!(c.playlist, "/home/u");
    assert_eq!(c.on_song_change.as_deref(), Some("/home/u/bin/hook"));
    assert_eq!(c.audio_system, HostId::Alsa);
    assert_eq!(c.player, PlayerOption { shuffle: true, repeat: false, next: true });
}

#[test]
fn tilde_left_alone_when_not_a_home_path() {
    let c = ServerConfig::from_crude_with_home(crude("~other/sock", "/a/~/b", "x", None), Some("/home/u".to_string()));
    assert_eq!(c.socket, "~other/sock");
    assert_eq!(c.playlist, "/a/~/b");
    assert_eq!(c.audio_system, HostId::Jack);
    assert!(c.on_song_change.is_none());
    let d = ServerConfig::from_crude_with_home(crude("~/sock", "p", "jack", None), None);
    assert_eq!(d.socket, "~/sock");
}

#[test]
fn app_config_from_file_values() {
    let a = AppConfig::from_crude(AppConfigCrude { server: crude("/s", "/p", "alsa", None) });
    assert_eq!(a.server_ref().socket, "/s");
    assert_eq!(a.server_ref().playlist, "/p");
    assert_eq!(a.server_ref().audio_system, HostId::Alsa);
    let b = AppConfig::new(ServerConfig::from_crude(crude("/x", "/y", "jack", None)));
    assert_eq!(b.server_ref().socket, "/x");
}

#[test]
fn flattened_configurations() {
    let raw = flat_server::RawServerConfig { socket: "/s".to_string(), audio_system: "alsa".to_string() };
    let c = raw.flatten();
    assert_eq!(c.socket, "/s");
    assert_eq!(c.audio_system, HostId::Alsa);
    let d = flat_server::RawServerConfig::default().flatten();
    assert_eq!(d.socket, "/tmp/dizi-server-socket");
    assert_eq!(d.audio_system, HostId::Jack);
    let a = flat_general::RawAppConfig::new(flat_server::RawServerConfig {
        socket: "/q".to_string(),
        audio_system: "none".to_string(),
    })
    .flatten();
    assert_eq!(a.server_ref().socket, "/q");
    assert_eq!(a.server_ref().audio_system, HostId::Jack);
    assert_eq!(flat_general::AppConfig::default().server_ref().socket, "/tmp/dizi-server-socket");
    let b = basic::RawAppConfig::new(basic::ServerConfig { socket: "/b".to_string() }).flatten();
    assert_eq!(b.server_ref().socket, "/b");
    assert_eq!(basic::AppConfig::default().server_ref().socket, ".");
    assert_eq!(basic::RawServerConfig { socket: "/r".to_string() }.flatten().socket, "/r");
    assert_eq!(flat_server::ServerConfig::default().audio_system, HostId::Jack);
    assert_eq!(flat_server::default_socket_path(), "/tmp/dizi-server-socket");
    assert_eq!(flat_server::default_audio_system(), HostId::Jack);
    assert_eq!(flat_server::default_audio_system_string(), "jack");
}

#[test]
fn first_existing_directory_wins() {
    let dirs = vec!["/a".to_string(), "/b/".to_string(), "/c".to_string()];
    assert_eq!(first_existing("f.toml", &dirs, &[false, true, true]), Some("/b/f.toml".to_string()));
    assert_eq!(first_existing("f.toml", &dirs, &[false, false, false]), None);
    assert_eq!(first_existing("f.toml", &dirs, &[true, false, false]), Some("/a/f.toml".to_string()));
}

#[test]
fn search_directories_on_disk() {
    let dirs = vec!["/no/such/dir/here".to_string(), "/".to_string()];
    assert_eq!(search_directories("etc", &dirs), Some("/etc".to_string()));
    assert_eq!(search_directories("no-such-file-xyz", &dirs), None);
}
