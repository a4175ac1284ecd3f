use std::sync::mpsc;

use dizi::error::DiziErrorKind;
use dizi::server::client_command::{classify_command, command_request, run_command, ClientCommand, ClientRequest};

#[test]
fn commands_are_classified_by_name() {
    assert_eq!(classify_command(Some("/server/quit".to_string())), ClientCommand::Quit);
    assert_eq!(classify_command(Some("/player/play".to_string())), ClientCommand::Play);
    assert_eq!(classify_command(Some("/player/pause".to_string())), ClientCommand::Pause);
    assert_eq!(classify_command(Some("/player/toggle/play".to_string())), ClientCommand::TogglePlay);
    assert_eq!(classify_command(Some("/player/volume/increase".to_string())), ClientCommand::VolumeUp);
    assert_eq!(classify_command(Some("/player/volume/decrease".to_string())), ClientCommand::VolumeDown);
    assert_eq!(classify_command(Some("/player/dance".to_string())), ClientCommand::Unknown);
    assert_eq!(classify_command(None), ClientCommand::Absent);
}

#[test]
fn command_lines_become_requests() {
    assert!(matches!(command_request(r#"{"command":"/server/quit"}"#), Ok(Some(ClientRequest::Quit))));
    match command_request(r#"{"command":"/player/play","path":"/m/a.ogg"}"#) {
        Ok(Some(ClientRequest::PlayerFilePlay(p))) => assert_eq!(p, "/m/a.ogg"),
        o => panic!("unexpected {:?}", o),
    }
    assert!(matches!(
        command_request(r#"{"command":"/player/volume/increase","amount":5}"#),
        Ok(Some(ClientRequest::PlayerVolumeUp(5)))
    ));
    assert!(matches!(
        command_request(r#"{"command":"/player/volume/decrease","amount":7}"#),
        Ok(Some(ClientRequest::PlayerVolumeDown(7)))
    ));
    assert!(matches!(command_request(r#"{"command":"/player/pause"}"#), Ok(Some(ClientRequest::PlayerPause))));
    assert!(matches!(command_request(r#"{"command":"/nope"}"#), Ok(None)));
    assert!(matches!(command_request(r#"{"other":1}"#), Ok(None)));
    assert!(matches!(command_request("not json"), Ok(None)));
    assert!(matches!(command_request(r#"{"command":5}"#), Ok(None)));
    let e = command_request(r#"{"command":"/player/play"}"#).unwrap_err();
    assert_eq!(e.kind(), DiziErrorKind::InvalidParameters);
    let e = command_request(r#"{"command":"/player/volume/increase","amount":-3}"#).unwrap_err();
    assert_eq!(e.kind(), DiziErrorKind::InvalidParameters);
}

#[test]
fn run_command_hands_the_request_on() {
    let (tx, rx) = mpsc::channel();
    run_command(&tx, r#"{"command":"/player/toggle/play"}"#).unwrap();
    assert!(matches!(rx.try_recv(), Ok(ClientRequest::PlayerTogglePlay)));
    run_command(&tx, r#"{"command":"/unknown"}"#).unwrap();
    assert!(rx.try_recv().is_err());
    assert_eq!(
        run_command(&tx, r#"{"command":"/player/play"}"#).unwrap_err().kind(),
        DiziErrorKind::InvalidParameters
    );
    drop(rx);
    assert!(run_command(&tx, r#"{"command":"/server/quit"}"#).is_ok());
    assert_eq!(run_command(&tx, r#"{"command":"/player/pause"}"#).unwrap_err().kind(), DiziErrorKind::SendError);
}
