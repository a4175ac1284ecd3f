use dizi::client::input::{process_server_event, swap_songs, ServerEventOutcome};
use dizi::client::query::{focus_first_song, query_local, query_step, QueryStep};
use dizi::client::unix::is_executable;
use dizi::client::widgets::{clock_parts, clock_string, find_tag, progress_line, song_name, status_symbol, switch_labels, volume_line};
use dizi::error::DiziErrorKind;
use dizi::player::{PlayerState, PlayerStatus};
use dizi::playlist::PlaylistType;
use dizi::response::ServerBroadcastEvent;
use dizi::song::{DiziAudioFile, PlayDuration, SongTag};

fn song(name: &str) -> DiziAudioFile {
    DiziAudioFile::new(name.to_string(), format!("/m/{}", name), Vec::new(), None)
}

fn names(s: &PlayerState) -> Vec<String> {
    s.playlist.list_ref().iter().map(|x| x.file_name.clone()).collect()
}

fn state_with(n: usize) -> PlayerState {
    let mut s = PlayerState::new();
    for i in 0..n {
        s.playlist.append_song(song(&format!("s{}", i)));
    }
    s
}

#[test]
fn server_quit_asks_to_quit() {
    let mut s = state_with(1);
    assert!(matches!(process_server_event(&mut s, ServerBroadcastEvent::ServerQuit), ServerEventOutcome::Quit));
}

#[test]
fn server_error_is_shown() {
    let mut s = state_with(0);
    match process_server_event(&mut s, ServerBroadcastEvent::ServerError { msg: "boom".to_string() }) {
        ServerEventOutcome::Error(m) => assert_eq!(m, "Server: boom"),
        o => panic!("unexpected {:?}", o),
    }
}

#[test]
fn new_state_keeps_cursor_within_playlist() {
    let mut s = state_with(5);
    s.playlist.set_cursor_index(Some(4));
    let mut new_state = state_with(3);
    new_state.volume = 70;
    let o = process_server_event(&mut s, ServerBroadcastEvent::PlayerState { state: new_state });
    assert!(matches!(o, ServerEventOutcome::Applied));
    assert_eq!(s.volume, 70);
    assert_eq!(s.playlist.len(), 3);
    assert_eq!(s.playlist.get_cursor_index(), Some(2));

    let mut t = state_with(2);
    process_server_event(&mut t, ServerBroadcastEvent::PlayerState { state: state_with(3) });
    assert_eq!(t.playlist.get_cursor_index(), Some(0));

    let mut u = state_with(2);
    u.playlist.set_cursor_index(Some(1));
    process_server_event(&mut u, ServerBroadcastEvent::PlayerState { state: state_with(0) });
    assert_eq!(u.playlist.get_cursor_index(), None);
}

#[test]
fn player_events_update_state() {
    let mut s = state_with(0);
    process_server_event(&mut s, ServerBroadcastEvent::PlayerFilePlay { file: song("x") });
    assert_eq!(s.status, PlayerStatus::Playing);
    assert_eq!(s.playlist_status, PlaylistType::DirectoryListing);
    assert_eq!(s.song.as_ref().unwrap().file_name, "x");
    process_server_event(&mut s, ServerBroadcastEvent::PlayerPause);
    assert_eq!(s.status, PlayerStatus::Paused);
    process_server_event(&mut s, ServerBroadcastEvent::PlayerResume);
    assert_eq!(s.status, PlayerStatus::Playing);
    process_server_event(&mut s, ServerBroadcastEvent::PlayerShuffle { on: true });
    process_server_event(&mut s, ServerBroadcastEvent::PlayerRepeat { on: true });
    process_server_event(&mut s, ServerBroadcastEvent::PlayerNext { on: false });
    process_server_event(&mut s, ServerBroadcastEvent::PlayerVolumeUpdate { volume: 12 });
    process_server_event(&mut s, ServerBroadcastEvent::PlayerProgressUpdate { elapsed: PlayDuration::from_secs(9) });
    assert!(s.shuffle && s.repeat && !s.next);
    assert_eq!(s.volume, 12);
    assert_eq!(s.elapsed.as_secs(), 9);
}

#[test]
fn swap_move_swaps_and_moves_cursor() {
    let mut s = state_with(3);
    process_server_event(&mut s, ServerBroadcastEvent::PlaylistSwapMove { index1: 0, index2: 2 });
    assert_eq!(names(&s), vec!["s2", "s1", "s0"]);
    assert_eq!(s.playlist.get_cursor_index(), Some(2));
    let mut v = vec![song("a"), song("b")];
    swap_songs(&mut v, 1, 1);
    assert_eq!(v[1].file_name, "b");
}

#[test]
fn append_reports_and_sets_cursor() {
    let mut s = state_with(1);
    let o = process_server_event(
        &mut s,
        ServerBroadcastEvent::PlaylistAppend { audio_files: vec![song("a"), song("b")] },
    );
    match o {
        ServerEventOutcome::Success(m) => assert_eq!(m, "Added 2 songs to playlist"),
        o => panic!("unexpected {:?}", o),
    }
    assert_eq!(names(&s), vec!["s0", "a", "b"]);
    assert_eq!(s.playlist.get_cursor_index(), Some(0));
}

#[test]
fn remove_and_clear() {
    let mut s = state_with(2);
    s.playlist.set_cursor_index(Some(1));
    process_server_event(&mut s, ServerBroadcastEvent::PlaylistRemove { index: 1 });
    assert_eq!(names(&s), vec!["s0"]);
    assert_eq!(s.playlist.get_cursor_index(), Some(0));
    process_server_event(&mut s, ServerBroadcastEvent::PlaylistRemove { index: 0 });
    assert_eq!(s.playlist.get_cursor_index(), None);
    let mut t = state_with(3);
    process_server_event(&mut t, ServerBroadcastEvent::PlaylistClear);
    assert!(t.playlist.is_empty());
}

#[test]
fn playlist_play_plays_the_song() {
    let mut s = state_with(3);
    process_server_event(&mut s, ServerBroadcastEvent::PlaylistPlay { index: 2 });
    assert_eq!(s.song.as_ref().unwrap().file_name, "s2");
    assert_eq!(s.status, PlayerStatus::Playing);
    assert_eq!(s.playlist_status, PlaylistType::PlaylistFile);
    assert_eq!(s.playlist.get_playing_index(), Some(2));
    assert_eq!(s.playlist.get_cursor_index(), Some(2));

    s.playlist.set_cursor_index(Some(0));
    process_server_event(&mut s, ServerBroadcastEvent::PlaylistPlay { index: 1 });
    assert_eq!(s.playlist.get_cursor_index(), Some(0));
    assert_eq!(s.playlist.get_playing_index(), Some(1));

    process_server_event(&mut s, ServerBroadcastEvent::PlaylistPlay { index: 9 });
    assert_eq!(s.playlist.get_playing_index(), Some(1));
}

#[test]
fn unhandled_events_are_reported() {
    let mut s = state_with(0);
    assert!(matches!(
        process_server_event(&mut s, ServerBroadcastEvent::PlayerStop),
        ServerEventOutcome::Unimplemented(ServerBroadcastEvent::PlayerStop)
    ));
    assert!(matches!(
        process_server_event(&mut s, ServerBroadcastEvent::ServerQuery { query: "q".to_string() }),
        ServerEventOutcome::Applied
    ));
}

#[test]
fn local_query_uses_file_name_and_path() {
    let mut s = state_with(0);
    s.song = Some(song("tune.ogg"));
    assert_eq!(query_local(&s, "{file_name} at {file_path}").unwrap(), "tune.ogg at /m/tune.ogg");
    let e = query_local(&s, "{volume}").unwrap_err();
    assert_eq!(e.kind(), DiziErrorKind::InvalidParameters);
    assert_eq!(e.cause(), "Failed to process query");
    let empty = state_with(0);
    assert!(query_local(&empty, "{file_name}").is_err());
    assert_eq!(query_local(&empty, "plain").unwrap(), "plain");
}

#[test]
fn query_state_focuses_first_song() {
    let mut s = state_with(2);
    focus_first_song(&mut s);
    assert_eq!(s.playlist.get_cursor_index(), Some(0));
    let mut e = state_with(0);
    focus_first_song(&mut e);
    assert_eq!(e.playlist.get_cursor_index(), None);
}

#[test]
fn query_step_answers_from_server_replies() {
    let mut s = state_with(1);
    match query_step(&mut s, "{file_name}", ServerBroadcastEvent::ServerQuery { query: "42".to_string() }) {
        Ok(QueryStep::Answer(a)) => assert_eq!(a, "42"),
        o => panic!("unexpected {:?}", o),
    }
    match query_step(&mut s, "{file_name}", ServerBroadcastEvent::ServerError { msg: "no".to_string() }) {
        Ok(QueryStep::Answer(a)) => assert_eq!(a, "no"),
        o => panic!("unexpected {:?}", o),
    }
    assert!(matches!(query_step(&mut s, "{file_name}", ServerBroadcastEvent::PlayerPause), Ok(QueryStep::Wait)));
    assert_eq!(s.playlist.len(), 1);
    assert_eq!(s.playlist.get_cursor_index(), None);
}

#[test]
fn query_step_answers_from_a_player_state() {
    let mut s = state_with(0);
    let mut received = state_with(3);
    received.song = Some(song("b.mp3"));
    match query_step(&mut s, "{file_path}", ServerBroadcastEvent::PlayerState { state: received }) {
        Ok(QueryStep::Answer(a)) => assert_eq!(a, "/m/b.mp3"),
        o => panic!("unexpected {:?}", o),
    }
    assert_eq!(s.playlist.len(), 3);
    assert_eq!(s.playlist.get_cursor_index(), Some(0));
    let mut t = state_with(0);
    let e = query_step(&mut t, "{file_path}", ServerBroadcastEvent::PlayerState { state: state_with(2) }).unwrap_err();
    assert_eq!(e.kind(), DiziErrorKind::InvalidParameters);
    assert_eq!(t.playlist.get_cursor_index(), Some(0));
}

#[test]
fn executable_modes() {
    assert!(is_executable(0o755));
    assert!(is_executable(0o010));
    assert!(is_executable(0o001));
    assert!(!is_executable(0o644));
    assert!(!is_executable(0));
}

#[test]
fn clock_of_a_duration() {
    assert_eq!(clock_parts(0), (0, 0, 0));
    assert_eq!(clock_parts(3725), (1, 62, 5));
    assert_eq!(clock_parts(59), (0, 0, 59));
}

#[test]
fn clock_is_written_with_two_digits() {
    assert_eq!(clock_string(0), "00:00:00");
    assert_eq!(clock_string(3725), "01:62:05");
    assert_eq!(clock_string(600), "00:10:00");
    assert_eq!(clock_string(36000), "10:600:00");
}

#[test]
fn status_symbols() {
    assert_eq!(status_symbol(PlayerStatus::Playing), ">>");
    assert_eq!(status_symbol(PlayerStatus::Stopped), "\u{2588}\u{2588}");
    assert_eq!(status_symbol(PlayerStatus::Paused), "||");
}

fn tag(name: &str, value: &str) -> SongTag {
    SongTag { name: name.to_string(), value: value.to_string() }
}

#[test]
fn song_name_prefers_the_title_tag() {
    assert_eq!(song_name(&None), " ");
    assert_eq!(song_name(&Some(song("a.mp3"))), "a.mp3");
    let titled = DiziAudioFile::new(
        "a.mp3".to_string(),
        "/m/a.mp3".to_string(),
        vec![tag("TrackTitle", "Old"), tag("Artist", "X"), tag("TrackTitle", "Song A")],
        None,
    );
    assert_eq!(song_name(&Some(titled)), "Song A");
    assert_eq!(find_tag(&vec![tag("Artist", "X")], "TrackTitle"), None);
    assert_eq!(find_tag(&vec![tag("Artist", "X")], "Artist"), Some("X".to_string()));
}

#[test]
fn player_lines() {
    let mut s = state_with(0);
    s.elapsed = PlayDuration::from_secs(65);
    assert_eq!(progress_line(&s), "\u{2588}\u{2588} 00:01:05 / 00:00:00   ");
    s.status = PlayerStatus::Playing;
    s.song = Some(DiziAudioFile::new("a".to_string(), "/a".to_string(), Vec::new(), Some(PlayDuration::from_secs(3600))));
    assert_eq!(progress_line(&s), ">> 00:01:05 / 01:60:00   ");
    assert_eq!(volume_line(35), "Volume: 35%");
}

#[test]
fn player_switches() {
    let mut s = state_with(0);
    s.next = true;
    s.repeat = false;
    s.shuffle = true;
    assert_eq!(
        switch_labels(&s),
        vec![
            ("[NEXT] ".to_string(), true),
            ("[REPEAT] ".to_string(), false),
            ("[SHUFFLE] ".to_string(), true)
        ]
    );
}
