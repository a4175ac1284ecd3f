use std::sync::mpsc;

use dizi::error::{DiziError, DiziErrorKind, DiziResult};
use dizi::player::PlayerStatus;
use dizi::playlist::{FilePlaylist, PlaylistType};
use dizi::server::commands::{
    player_get_volume, player_pause, player_song_done, player_toggle_play, player_volume_decrease,
    player_volume_increase,
};
use dizi::server::config::general::{AppConfig, PlayerOption, ServerConfig};
use dizi::server::events::{broadcast_event, kept_listeners, ServerEvent};
use dizi::server::handlers::{
    playlist_add_check, playlist_add_song, playlist_contains_path, remove_from_playlist, PlaylistAddSongReq,
    PlaylistRemoveSongReq,
};
use dizi::server::player::{find_song_with_path, SymphoniaPlayer};
use dizi::server::playlist::{PlayerDirectoryPlaylist, PlayerFilePlaylist};
use dizi::server::request::PlayerRequest;
use dizi::song::DiziAudioFile;

fn song(name: &str) -> DiziAudioFile {
    DiziAudioFile::new(name.to_string(), format!("/m/{}", name), Vec::new(), None)
}

struct Rig {
    player: SymphoniaPlayer,
    requests: mpsc::Receiver<PlayerRequest>,
    answers: mpsc::Sender<DiziResult>,
}

fn rig(n: usize, shuffle: bool) -> Rig {
    let (req_tx, req_rx) = mpsc::channel();
    let (res_tx, res_rx) = mpsc::channel();
    let mut server = ServerConfig::default();
    server.player = PlayerOption { shuffle, repeat: false, next: true };
    let config = AppConfig::new(server);
    let songs = (0..n).map(|i| song(&format!("s{}", i))).collect();
    let player = SymphoniaPlayer::with_channels(&config, "JACK", PlayerFilePlaylist::new(songs), req_tx, res_rx);
    Rig { player, requests: req_rx, answers: res_tx }
}

fn sent(r: &Rig) -> Vec<String> {
    r.requests
        .try_iter()
        .map(|q| match q {
            PlayerRequest::Play(s) => format!("play {}", s.file_name),
            PlayerRequest::Pause => "pause".to_string(),
            PlayerRequest::Resume => "resume".to_string(),
            PlayerRequest::Stop => "stop".to_string(),
            PlayerRequest::SetVolume(v) => format!("volume {}", v),
            PlayerRequest::FastForward(d) => format!("ff {}", d.secs),
            PlayerRequest::Rewind(d) => format!("rw {}", d.secs),
        })
        .collect()
}

#[test]
fn new_player_takes_configured_options() {
    let r = rig(2, true);
    let s = r.player.player_state();
    assert!(s.shuffle && !s.repeat && s.next);
    assert_eq!(s.audio_host, "jack");
    assert_eq!(s.status, PlayerStatus::Stopped);
    assert_eq!(s.volume, 50);
    assert_eq!(s.playlist.len(), 2);
    assert_eq!(s.playlist.get_playing_index(), None);
}

#[test]
fn pause_resume_stop_follow_the_stream_answers() {
    let mut r = rig(1, false);
    r.answers.send(Ok(())).unwrap();
    r.player.pause().unwrap();
    assert_eq!(r.player.player_state().status, PlayerStatus::Paused);
    r.answers.send(Ok(())).unwrap();
    assert_eq!(r.player.toggle_play().unwrap(), PlayerStatus::Playing);
    r.answers.send(Err(DiziError::new(DiziErrorKind::NoDevice, "gone".to_string()))).unwrap();
    let e = r.player.stop().unwrap_err();
    assert_eq!(e.kind(), DiziErrorKind::NoDevice);
    assert_eq!(r.player.player_state().status, PlayerStatus::Playing);
    assert_eq!(sent(&r), vec!["pause", "resume", "stop"]);
}

#[test]
fn stopped_player_stays_stopped_on_toggle() {
    let mut r = rig(1, false);
    assert_eq!(r.player.toggle_play().unwrap(), PlayerStatus::Stopped);
    assert!(sent(&r).is_empty());
}

#[test]
fn closed_stream_is_a_receive_error() {
    let mut r = rig(1, false);
    drop(r.answers);
    let e = r.player.resume().unwrap_err();
    assert_eq!(e.kind(), DiziErrorKind::ReceiveError);
}

#[test]
fn closed_request_channel_is_a_send_error() {
    let (req_tx, req_rx) = mpsc::channel::<PlayerRequest>();
    let (_res_tx, res_rx) = mpsc::channel();
    drop(req_rx);
    let mut p = SymphoniaPlayer::with_channels(
        &AppConfig::default(),
        "alsa",
        PlayerFilePlaylist::new(Vec::new()),
        req_tx,
        res_rx,
    );
    assert_eq!(p.pause().unwrap_err().kind(), DiziErrorKind::SendError);
}

#[test]
fn volume_commands_clamp() {
    let mut r = rig(1, false);
    for _ in 0..4 {
        r.answers.send(Ok(())).unwrap();
    }
    player_volume_increase(&mut r.player, 30).unwrap();
    assert_eq!(r.player.get_volume(), 80);
    player_volume_increase(&mut r.player, 30).unwrap();
    assert_eq!(r.player.get_volume(), 100);
    player_volume_decrease(&mut r.player, 130).unwrap();
    assert_eq!(r.player.get_volume(), 0);
    player_volume_decrease(&mut r.player, 0).unwrap();
    assert_eq!(player_get_volume(&r.player, 5).unwrap(), 0);
    assert_eq!(sent(&r), vec!["volume 80", "volume 100", "volume 0", "volume 0"]);
}

#[test]
fn pause_and_toggle_commands() {
    let mut r = rig(1, false);
    r.answers.send(Ok(())).unwrap();
    r.answers.send(Ok(())).unwrap();
    player_pause(&mut r.player).unwrap();
    player_toggle_play(&mut r.player).unwrap();
    assert_eq!(r.player.player_state().status, PlayerStatus::Playing);
}

#[test]
fn play_from_playlist_plays_chosen_song() {
    let mut r = rig(4, false);
    r.answers.send(Ok(())).unwrap();
    r.answers.send(Ok(())).unwrap();
    r.player.play_from_playlist(2).unwrap();
    let s = r.player.player_state();
    assert_eq!(s.status, PlayerStatus::Playing);
    assert_eq!(s.song.unwrap().file_name, "s2");
    assert_eq!(s.playlist.get_playing_index(), Some(2));
    assert_eq!(s.playlist_status, PlaylistType::PlaylistFile);
    assert_eq!(sent(&r), vec!["play s2", "volume 50"]);
}

#[test]
fn play_from_shuffled_playlist_plays_chosen_song() {
    let mut r = rig(6, true);
    r.answers.send(Ok(())).unwrap();
    r.answers.send(Ok(())).unwrap();
    r.player.play_from_playlist(4).unwrap();
    assert_eq!(r.player.current_song_ref().unwrap().file_name, "s4");
    assert_eq!(r.player.playlist_ref().file_playlist_ref().playlist_order_ref()[4], 4);
}

#[test]
fn play_next_and_previous() {
    let mut r = rig(3, false);
    for _ in 0..8 {
        r.answers.send(Ok(())).unwrap();
    }
    r.player.play_from_playlist(1).unwrap();
    r.player.play_next().unwrap();
    assert_eq!(r.player.current_song_ref().unwrap().file_name, "s2");
    r.player.play_next().unwrap();
    assert_eq!(r.player.current_song_ref().unwrap().file_name, "s0");
    r.player.play_previous().unwrap();
    assert_eq!(r.player.current_song_ref().unwrap().file_name, "s2");
    assert_eq!(sent(&r), vec!["play s1", "volume 50", "play s2", "volume 50", "play s0", "volume 50", "play s2", "volume 50"]);
}

#[test]
fn play_again_and_nothing_to_play() {
    let mut r = rig(2, false);
    r.player.play_next().unwrap();
    r.player.play_again().unwrap();
    assert!(r.player.current_song_ref().is_none());
    assert!(sent(&r).is_empty());
}

#[test]
fn play_directory_playlist_finds_the_file() {
    let mut r = rig(0, false);
    r.answers.send(Ok(())).unwrap();
    r.answers.send(Ok(())).unwrap();
    let dir = PlayerDirectoryPlaylist::new(vec![song("a"), song("b"), song("c")]);
    r.player.play_directory_playlist(dir, "/m/b").unwrap();
    assert_eq!(r.player.current_song_ref().unwrap().file_name, "b");
    assert_eq!(r.player.playlist_ref().get_type(), PlaylistType::DirectoryListing);
    assert_eq!(r.player.playlist_ref().directory_playlist_ref().get_order_index(), Some(1));
    assert_eq!(r.player.player_state().playlist_status, PlaylistType::DirectoryListing);

    let dir = PlayerDirectoryPlaylist::new(vec![song("x")]);
    r.player.play_directory_playlist(dir, "/m/none").unwrap();
    assert_eq!(r.player.playlist_ref().directory_playlist_ref().get_order_index(), None);
    assert_eq!(r.player.current_song_ref().unwrap().file_name, "b");
}

#[test]
fn play_from_directory_plays_chosen_song() {
    let mut r = rig(0, false);
    for _ in 0..4 {
        r.answers.send(Ok(())).unwrap();
    }
    let dir = PlayerDirectoryPlaylist::new(vec![song("a"), song("b"), song("c")]);
    r.player.play_directory_playlist(dir, "/m/a").unwrap();
    r.player.play_from_directory(2).unwrap();
    assert_eq!(r.player.current_song_ref().unwrap().file_name, "c");
}

#[test]
fn shuffle_switch_reorders_and_keeps_song() {
    let mut r = rig(5, false);
    r.answers.send(Ok(())).unwrap();
    r.answers.send(Ok(())).unwrap();
    r.player.play_from_playlist(3).unwrap();
    r.player.set_shuffle(true);
    assert!(r.player.shuffle_enabled());
    assert_eq!(r.player.playlist_ref().file_playlist_ref().get_song_index(), Some(3));
    r.player.set_shuffle(false);
    assert_eq!(r.player.playlist_ref().file_playlist_ref().playlist_order_ref(), &vec![0, 1, 2, 3, 4]);
    assert_eq!(r.player.playlist_ref().file_playlist_ref().get_song_index(), Some(3));
}

#[test]
fn settings_setters() {
    let mut r = rig(0, false);
    r.player.set_next(false);
    r.player.set_repeat(true);
    r.player.set_elapsed(dizi::song::PlayDuration::from_secs(30));
    assert!(!r.player.next_enabled());
    assert!(r.player.repeat_enabled());
    assert_eq!(r.player.get_elapsed().as_secs(), 30);
    r.player.playlist_mut().set_type(PlaylistType::DirectoryListing);
    assert_eq!(r.player.playlist_ref().get_type(), PlaylistType::DirectoryListing);
}

#[test]
fn find_song_by_path() {
    let v = vec![song("a"), song("b"), song("b")];
    assert_eq!(find_song_with_path(&v, "/m/b"), Some(1));
    assert_eq!(find_song_with_path(&v, "/m/z"), None);
}

#[test]
fn handlers_check_and_change_the_playlist() {
    let mut p = FilePlaylist::new();
    p.append_song(song("a"));
    assert!(playlist_contains_path(&p, "/m/a"));
    let e = playlist_add_check(&p, &PlaylistAddSongReq { path: "/m/a".to_string() }).unwrap_err();
    assert_eq!(e.kind, "");
    assert_eq!(e.message, "This file is already in the playlist");
    assert!(playlist_add_check(&p, &PlaylistAddSongReq { path: "/m/b".to_string() }).is_ok());
    let added = playlist_add_song(&mut p, song("b"));
    assert_eq!(added.index, 1);
    assert_eq!(added.song.file_name, "b");
    let e = remove_from_playlist(&mut p, &PlaylistRemoveSongReq { index: 2 }).unwrap_err();
    assert_eq!(e.message, "Index out of bounds");
    assert_eq!(p.len(), 2);
    let removed = remove_from_playlist(&mut p, &PlaylistRemoveSongReq { index: 0 }).unwrap();
    assert_eq!(removed.index, 0);
    assert_eq!(removed.song.file_name, "a");
    assert_eq!(p.len(), 1);
}

#[test]
fn broadcast_drops_closed_listeners() {
    let (a_tx, a_rx) = mpsc::channel();
    let (b_tx, b_rx) = mpsc::channel();
    let (c_tx, c_rx) = mpsc::channel();
    drop(b_rx);
    let kept = broadcast_event(vec![a_tx, b_tx, c_tx], &ServerEvent::PlayerVolumeUpdate(7));
    assert_eq!(kept.len(), 2);
    assert!(matches!(a_rx.try_recv(), Ok(ServerEvent::PlayerVolumeUpdate(7))));
    assert!(matches!(c_rx.try_recv(), Ok(ServerEvent::PlayerVolumeUpdate(7))));
    kept[1].send(ServerEvent::PlayerDone).unwrap();
    assert!(matches!(c_rx.try_recv(), Ok(ServerEvent::PlayerDone)));
}

#[test]
fn a_refused_song_leaves_no_volume_request_behind() {
    let mut r = rig(3, false);
    r.answers.send(Err(DiziError::new(DiziErrorKind::SymphoniaError, "bad file".to_string()))).unwrap();
    assert!(r.player.play_from_playlist(1).is_err());
    assert_eq!(sent(&r), vec!["play s1"]);
    assert_eq!(r.player.player_state().status, PlayerStatus::Stopped);
    // the next request reads its own answer
    r.answers.send(Ok(())).unwrap();
    assert!(r.player.pause().is_ok());
    assert_eq!(sent(&r), vec!["pause"]);
    assert_eq!(r.player.player_state().status, PlayerStatus::Paused);
}

#[test]
fn song_done_plays_next_or_stops() {
    let mut r = rig(3, false);
    r.answers.send(Ok(())).unwrap();
    r.answers.send(Ok(())).unwrap();
    r.player.play_from_playlist(0).unwrap();
    let _ = sent(&r);
    r.answers.send(Ok(())).unwrap();
    r.answers.send(Ok(())).unwrap();
    player_song_done(&mut r.player).unwrap();
    assert_eq!(sent(&r), vec!["play s1", "volume 50"]);
    assert_eq!(r.player.player_state().song.unwrap().file_name, "s1");
    r.player.set_next(false);
    r.answers.send(Ok(())).unwrap();
    player_song_done(&mut r.player).unwrap();
    assert_eq!(sent(&r), vec!["stop"]);
    assert_eq!(r.player.player_state().status, PlayerStatus::Stopped);
}

#[test]
fn kept_listeners_follow_the_flags() {
    let (a_tx, a_rx) = mpsc::channel();
    let (b_tx, _b_rx) = mpsc::channel();
    let (c_tx, c_rx) = mpsc::channel();
    let kept = kept_listeners(vec![a_tx, b_tx, c_tx], &[true, false, true]);
    assert_eq!(kept.len(), 2);
    kept[0].send(ServerEvent::PlayerPause).unwrap();
    kept[1].send(ServerEvent::PlayerResume).unwrap();
    assert!(matches!(a_rx.try_recv(), Ok(ServerEvent::PlayerPause)));
    assert!(matches!(c_rx.try_recv(), Ok(ServerEvent::PlayerResume)));
    assert!(kept_listeners(Vec::new(), &[]).is_empty());
}
