use std::collections::HashMap;

use dizi::error::DiziErrorKind;
use dizi::player::{insert_var, PlayerState, PlayerStatus, QueryVar};
use dizi::playlist::PlaylistType;
use dizi::song::{DiziAudioFile, PlayDuration, SongTag};

fn to_map(vars: &[QueryVar]) -> HashMap<String, String> {
    let mut m = HashMap::new();
    for v in vars {
        assert!(m.insert(v.key.clone(), v.value.clone()).is_none(), "key twice: {}", v.key);
    }
    m
}

fn song() -> DiziAudioFile {
    DiziAudioFile::new(
        "a.flac".to_string(),
        "/music/a.flac".to_string(),
        vec![
            SongTag { name: "TrackTitle".to_string(), value: "Song A".to_string() },
            SongTag { name: "Artist".to_string(), value: "Band".to_string() },
        ],
        Some(PlayDuration { secs: 125, nanos: 500 }),
    )
}

#[test]
fn default_player_state() {
    let s = PlayerState::new();
    assert!(s.song.is_none());
    assert_eq!(s.status, PlayerStatus::Stopped);
    assert_eq!(s.playlist_status, PlaylistType::PlaylistFile);
    assert_eq!(s.elapsed, PlayDuration { secs: 0, nanos: 0 });
    assert_eq!(s.volume, 50);
    assert!(s.next);
    assert!(!s.repeat);
    assert!(!s.shuffle);
    assert!(s.playlist.is_empty());
    assert_eq!(s.audio_host, "UNKNOWN");
}

#[test]
fn player_status_names() {
    assert_eq!(PlayerStatus::Playing.to_string(), "playing");
    assert_eq!(PlayerStatus::Paused.to_string(), "paused");
    assert_eq!(PlayerStatus::Stopped.to_string(), "stopped");
}

#[test]
fn query_all_of_default_state() {
    let s = PlayerState::new();
    let m = to_map(&s.query_all());
    let mut expected = HashMap::new();
    for (k, v) in [
        ("player.status", "stopped"),
        ("player.volume", "50"),
        ("player.next", "true"),
        ("player.repeat", "false"),
        ("player.shuffle", "false"),
        ("playlist.status", "file"),
        ("playlist.length", "0"),
        ("audio.host", "UNKNOWN"),
    ] {
        expected.insert(k.to_string(), v.to_string());
    }
    assert_eq!(m, expected);
}

#[test]
fn query_all_with_song_and_playing_index() {
    let mut s = PlayerState::new();
    s.playlist.append_song(song());
    s.playlist.append_song(song());
    s.playlist.set_playing_index(Some(1));
    s.volume = 100;
    s.status = PlayerStatus::Playing;
    s.song = Some(song());
    let m = to_map(&s.query_all());
    assert_eq!(m["playlist.index"], "1");
    assert_eq!(m["playlist.length"], "2");
    assert_eq!(m["player.volume"], "100");
    assert_eq!(m["player.status"], "playing");
    assert_eq!(m["song.file_name"], "a.flac");
    assert_eq!(m["song.file_path"], "/music/a.flac");
    assert_eq!(m["song.tag.tracktitle"], "Song A");
    assert_eq!(m["song.tag.artist"], "Band");
    assert_eq!(m["song.total_duration"], "125");
    assert_eq!(m.len(), 14);
}

#[test]
fn query_formats_variables() {
    let mut s = PlayerState::new();
    s.song = Some(song());
    let r = s.query("{player.status} {player.volume}% {song.tag.tracktitle}").unwrap();
    assert_eq!(r, "stopped 50% Song A");
}

#[test]
fn query_with_unknown_variable_fails() {
    let s = PlayerState::new();
    let e = s.query("{nope}").unwrap_err();
    assert_eq!(e.kind(), DiziErrorKind::InvalidParameters);
    assert_eq!(e.cause(), "Failed to process query '{nope}', Reason: 'KeyError(Invalid key: nope)'");
}

#[test]
fn query_answer_builds_the_message() {
    let r = dizi::player::query_answer("q", Err("why".to_string())).unwrap_err();
    assert_eq!(r.cause, "Failed to process query 'q', Reason: 'why'");
    assert_eq!(dizi::player::query_answer("q", Ok("done".to_string())).unwrap(), "done");
}

#[test]
fn insert_var_replaces_existing_key() {
    let mut vars = Vec::new();
    insert_var(&mut vars, "a".to_string(), "1".to_string());
    insert_var(&mut vars, "b".to_string(), "2".to_string());
    insert_var(&mut vars, "a".to_string(), "3".to_string());
    let m = to_map(&vars);
    assert_eq!(m.len(), 2);
    assert_eq!(m["a"], "3");
    assert_eq!(m["b"], "2");
}

#[test]
fn tags_that_lower_case_alike_keep_the_last_value() {
    let mut vars = Vec::new();
    let mut s = song();
    s.standard_tags = vec![
        SongTag { name: "Title".to_string(), value: "first".to_string() },
        SongTag { name: "TITLE".to_string(), value: "second".to_string() },
    ];
    s.total_duration = None;
    PlayerState::load_song_query_vars(&mut vars, &s);
    let m = to_map(&vars);
    assert_eq!(m["song.tag.title"], "second");
    assert!(!m.contains_key("song.total_duration"));
    assert_eq!(m.len(), 3);
}

#[test]
fn player_state_clone_keeps_fields() {
    let mut s = PlayerState::new();
    s.song = Some(song());
    s.playlist.append_song(song());
    s.playlist.set_cursor_index(Some(0));
    let c = s.clone();
    assert_eq!(c.song.unwrap().file_name, "a.flac");
    assert_eq!(c.playlist.len(), 1);
    assert_eq!(c.playlist.get_cursor_index(), Some(0));
    assert_eq!(c.volume, 50);
}

#[test]
fn numbers_and_lower_case_reach_the_query_variables() {
    let mut s = PlayerState::new();
    s.volume = 1234;
    let mut song = song();
    song.standard_tags = vec![SongTag { name: "ÀLBUM".to_string(), value: "x".to_string() }];
    song.total_duration = Some(PlayDuration::from_secs(18446744073709551615));
    s.song = Some(song);
    let m = to_map(&s.query_all());
    assert_eq!(m["player.volume"], "1234");
    assert_eq!(m["song.tag.àlbum"], "x");
    assert_eq!(m["song.total_duration"], "18446744073709551615");
}
