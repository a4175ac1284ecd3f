use dizi::response::ServerBroadcastEvent as B;
use dizi::server::events::{client_event, ServerEvent};
use dizi::server::request::{PlayerRequest, StreamEvent};
use dizi::server::stream::{stream_step, PlayerStreamEvent, StreamAction};
use dizi::song::{DiziAudioFile, PlayDuration};

fn kinds(actions: &[StreamAction]) -> Vec<String> {
    actions
        .iter()
        .map(|a| match a {
            StreamAction::StartStream(p) => format!("start {}", p),
            StreamAction::PauseStream => "pause".to_string(),
            StreamAction::ResumeStream => "resume".to_string(),
            StreamAction::DropStream => "drop".to_string(),
            StreamAction::Forward(PlayerRequest::SetVolume(v)) => format!("volume {}", v),
            StreamAction::Forward(PlayerRequest::FastForward(d)) => format!("ff {}", d.secs),
            StreamAction::Forward(PlayerRequest::Rewind(d)) => format!("rw {}", d.secs),
            StreamAction::Forward(r) => format!("forward {:?}", r),
            StreamAction::ReplyOk => "ok".to_string(),
            StreamAction::Notify(ServerEvent::PlayerDone) => "done".to_string(),
            StreamAction::Notify(ServerEvent::PlayerProgressUpdate(d)) => format!("progress {}", d.secs),
            StreamAction::Notify(e) => format!("notify {:?}", e),
        })
        .collect()
}

fn player(active: bool, r: PlayerRequest) -> Vec<String> {
    kinds(&stream_step(active, PlayerStreamEvent::Player(r)))
}

#[test]
fn play_starts_a_stream_of_the_song() {
    let song = DiziAudioFile::new("a.ogg".to_string(), "/m/a.ogg".to_string(), Vec::new(), None);
    assert_eq!(player(false, PlayerRequest::Play(song.clone())), vec!["start /m/a.ogg"]);
    assert_eq!(player(true, PlayerRequest::Play(song)), vec!["start /m/a.ogg"]);
}

#[test]
fn controls_act_on_the_current_stream_only() {
    assert_eq!(player(true, PlayerRequest::Pause), vec!["pause", "ok"]);
    assert_eq!(player(false, PlayerRequest::Pause), vec!["ok"]);
    assert_eq!(player(true, PlayerRequest::Resume), vec!["resume", "ok"]);
    assert_eq!(player(false, PlayerRequest::Resume), vec!["ok"]);
    assert_eq!(player(true, PlayerRequest::Stop), vec!["drop", "ok"]);
    assert_eq!(player(false, PlayerRequest::Stop), vec!["drop", "ok"]);
    assert_eq!(player(true, PlayerRequest::SetVolume(40)), vec!["volume 40", "ok"]);
    assert_eq!(player(false, PlayerRequest::SetVolume(40)), vec!["ok"]);
    assert_eq!(player(true, PlayerRequest::FastForward(PlayDuration::from_secs(5))), vec!["ff 5"]);
    assert!(player(false, PlayerRequest::FastForward(PlayDuration::from_secs(5))).is_empty());
    assert_eq!(player(true, PlayerRequest::Rewind(PlayDuration::from_secs(3))), vec!["rw 3"]);
    assert!(player(false, PlayerRequest::Rewind(PlayDuration::from_secs(3))).is_empty());
}

#[test]
fn stream_events_reach_the_server() {
    let ended = kinds(&stream_step(true, PlayerStreamEvent::Stream(StreamEvent::StreamEnded)));
    assert_eq!(ended, vec!["drop", "done"]);
    let progress = kinds(&stream_step(
        true,
        PlayerStreamEvent::Stream(StreamEvent::Progress(PlayDuration::from_secs(12))),
    ));
    assert_eq!(progress, vec!["progress 12"]);
}

#[test]
fn clients_are_told_of_player_changes_only() {
    let song = DiziAudioFile::new("a.ogg".to_string(), "/m/a.ogg".to_string(), Vec::new(), None);
    match client_event(&ServerEvent::PlayerPlay(song)) {
        Some(B::PlayerFilePlay { file }) => assert_eq!(file.file_path, "/m/a.ogg"),
        o => panic!("unexpected {:?}", o),
    }
    assert!(matches!(client_event(&ServerEvent::Quit), Some(B::ServerQuit)));
    assert!(matches!(client_event(&ServerEvent::PlayerRepeatOff), Some(B::PlayerRepeat { on: false })));
    assert!(matches!(client_event(&ServerEvent::PlayerShuffleOn), Some(B::PlayerShuffle { on: true })));
    assert!(matches!(client_event(&ServerEvent::PlayerVolumeUpdate(70)), Some(B::PlayerVolumeUpdate { volume: 70 })));
    match client_event(&ServerEvent::PlayerProgressUpdate(PlayDuration::from_secs(9))) {
        Some(B::PlayerProgressUpdate { elapsed }) => assert_eq!(elapsed.secs, 9),
        o => panic!("unexpected {:?}", o),
    }
    assert!(client_event(&ServerEvent::PlayerDone).is_none());
    assert!(client_event(&ServerEvent::PlayerDurationLeft(3)).is_none());
}

#[test]
fn every_waited_request_gets_one_answer() {
    let song = DiziAudioFile::new("a.ogg".to_string(), "/m/a.ogg".to_string(), Vec::new(), None);
    for active in [false, true] {
        for req in [
            PlayerRequest::Play(song.clone()),
            PlayerRequest::Pause,
            PlayerRequest::Resume,
            PlayerRequest::Stop,
            PlayerRequest::SetVolume(10),
        ] {
            let answers = stream_step(active, PlayerStreamEvent::Player(req))
                .iter()
                .filter(|a| matches!(a, StreamAction::ReplyOk | StreamAction::StartStream(_)))
                .count();
            assert_eq!(answers, 1);
        }
        for req in [
            PlayerRequest::FastForward(PlayDuration::from_secs(1)),
            PlayerRequest::Rewind(PlayDuration::from_secs(1)),
        ] {
            assert!(stream_step(active, PlayerStreamEvent::Player(req))
                .iter()
                .all(|a| !matches!(a, StreamAction::ReplyOk | StreamAction::StartStream(_))));
        }
    }
}
