//! The commands that clients send as JSON objects, named by their "command"
//! entry: which request of the server each one asks for.

use std::sync::mpsc::Sender;

use vstd::prelude::*;

use crate::error::{DiziError, DiziErrorKind, DiziResult};
use crate::server::channel::send;
use crate::server::config::general::server::opt_view;
use crate::text::str_eq;

verus! {

/// A request of a client to the server.
#[derive(Clone, Debug)]
pub enum ClientRequest {
    /// Stop the server.
    Quit,
    /// Play the file at this path.
    PlayerFilePlay(String),
    PlayerPause,
    PlayerTogglePlay,
    /// Raise the volume by this many percent.
    PlayerVolumeUp(usize),
    /// Lower the volume by this many percent.
    PlayerVolumeDown(usize),
}

/// The string entry `key` of the JSON object that `s` holds, as `serde_json`
/// reads it; none when `s` is not a JSON object or the entry is missing or not
/// a string.
pub uninterp spec fn json_string_field(s: Seq<char>, key: Seq<char>) -> Option<Seq<char>>;

/// The unsigned integer entry `key` of the JSON object that `s` holds, as
/// `serde_json` reads it; none when `s` is not a JSON object or the entry is
/// missing or not an integer that fits a `usize`.
pub uninterp spec fn json_uint_field(s: Seq<char>, key: Seq<char>) -> Option<usize>;

/// `serde_json::from_str` into a `serde_json::Map`, then the entry `key` when it
/// is a string. How the text is parsed is the crate's; the result is named
/// `json_string_field` of the text and the key.
#[verifier::external_body]
fn string_field(s: &str, key: &str) -> (r: Option<String>)
    ensures
        opt_view(r) == json_string_field(s@, key@),
{
    match serde_json::from_str::<serde_json::Map<String, serde_json::Value>>(s) {
        Ok(map) => match map.get(key) {
            Some(serde_json::Value::String(v)) => Some(v.clone()),
            _ => None,
        },
        Err(_) => None,
    }
}

/// `serde_json::from_str` into a `serde_json::Map`, then the entry `key` when it
/// is a number that `Number::as_u64` reads and that fits a `usize`. The result
/// is named `json_uint_field` of the text and the key.
#[verifier::external_body]
fn uint_field(s: &str, key: &str) -> (r: Option<usize>)
    ensures
        r == json_uint_field(s@, key@),
{
    match serde_json::from_str::<serde_json::Map<String, serde_json::Value>>(s) {
        Ok(map) => match map.get(key) {
            Some(serde_json::Value::Number(n)) => match n.as_u64() {
                Some(a) => usize::try_from(a).ok(),
                None => None,
            },
            _ => None,
        },
        Err(_) => None,
    }
}

/// The kinds of command a client can name.
#[derive(Clone, Copy, Debug, PartialEq, Eq, Structural)]
pub enum ClientCommand {
    Quit,
    Play,
    Pause,
    TogglePlay,
    VolumeUp,
    VolumeDown,
    /// A command that the server does not know.
    Unknown,
    /// No command is named.
    Absent,
}

/// The command that a "command" entry names.
pub open spec fn command_named(command: Option<Seq<char>>) -> ClientCommand {
    match command {
        None => ClientCommand::Absent,
        Some(c) => if c == "/server/quit"@ {
            ClientCommand::Quit
        } else if c == "/player/play"@ {
            ClientCommand::Play
        } else if c == "/player/pause"@ {
            ClientCommand::Pause
        } else if c == "/player/toggle/play"@ {
            ClientCommand::TogglePlay
        } else if c == "/player/volume/increase"@ {
            ClientCommand::VolumeUp
        } else if c == "/player/volume/decrease"@ {
            ClientCommand::VolumeDown
        } else {
            ClientCommand::Unknown
        },
    }
}

/// Tells which command a "command" entry names (see `command_named`).
pub fn classify_command(command: Option<String>) -> (c: ClientCommand)
    ensures
        c == command_named(opt_view(command)),
{
    match command {
        None => ClientCommand::Absent,
        Some(c) => {
            let c = c.as_str();
            if str_eq(c, "/server/quit") {
                ClientCommand::Quit
            } else if str_eq(c, "/player/play") {
                ClientCommand::Play
            } else if str_eq(c, "/player/pause") {
                ClientCommand::Pause
            } else if str_eq(c, "/player/toggle/play") {
                ClientCommand::TogglePlay
            } else if str_eq(c, "/player/volume/increase") {
                ClientCommand::VolumeUp
            } else if str_eq(c, "/player/volume/decrease") {
                ClientCommand::VolumeDown
            } else {
                ClientCommand::Unknown
            }
        },
    }
}

/// The error of a command that lacks the entry it needs.
pub open spec fn missing_entry(r: DiziResult<Option<ClientRequest>>) -> bool {
    r matches Err(e) && e.kind == DiziErrorKind::InvalidParameters
}

/// What a command line `s` asks for: the request its command names, with the
/// "path" or "amount" entry that the command needs; nothing when it names no
/// known command; an error when the needed entry is missing.
pub open spec fn asked(s: Seq<char>, r: DiziResult<Option<ClientRequest>>) -> bool {
    match command_named(json_string_field(s, "command"@)) {
        ClientCommand::Quit => r matches Ok(Some(ClientRequest::Quit)),
        ClientCommand::Play => match json_string_field(s, "path"@) {
            Some(p) => r matches Ok(Some(ClientRequest::PlayerFilePlay(q))) && q@ == p,
            None => missing_entry(r),
        },
        ClientCommand::Pause => r matches Ok(Some(ClientRequest::PlayerPause)),
        ClientCommand::TogglePlay => r matches Ok(Some(ClientRequest::PlayerTogglePlay)),
        ClientCommand::VolumeUp => match json_uint_field(s, "amount"@) {
            Some(a) => r matches Ok(Some(ClientRequest::PlayerVolumeUp(b))) && b == a,
            None => missing_entry(r),
        },
        ClientCommand::VolumeDown => match json_uint_field(s, "amount"@) {
            Some(a) => r matches Ok(Some(ClientRequest::PlayerVolumeDown(b))) && b == a,
            None => missing_entry(r),
        },
        ClientCommand::Unknown => r matches Ok(None),
        ClientCommand::Absent => r matches Ok(None),
    }
}

/// The error of a command that lacks the entry it needs, as `run_command` gives it.
pub open spec fn missing_entry_error(r: DiziResult) -> bool {
    r matches Err(e) && e.kind == DiziErrorKind::InvalidParameters
}

fn missing(entry: &str) -> (e: DiziError)
    ensures
        e.kind == DiziErrorKind::InvalidParameters,
{
    DiziError::new(DiziErrorKind::InvalidParameters, crate::text::concat_text("missing entry: ", entry))
}

/// Reads the request that the command line `s` asks for (see `asked`).
pub fn command_request(s: &str) -> (r: DiziResult<Option<ClientRequest>>)
    ensures
        asked(s@, r),
{
    proof {
        reveal_strlit("command");
        reveal_strlit("path");
        reveal_strlit("amount");
    }
    match classify_command(string_field(s, "command")) {
        ClientCommand::Quit => Ok(Some(ClientRequest::Quit)),
        ClientCommand::Play => match string_field(s, "path") {
            Some(p) => Ok(Some(ClientRequest::PlayerFilePlay(p))),
            None => Err(missing("path")),
        },
        ClientCommand::Pause => Ok(Some(ClientRequest::PlayerPause)),
        ClientCommand::TogglePlay => Ok(Some(ClientRequest::PlayerTogglePlay)),
        ClientCommand::VolumeUp => match uint_field(s, "amount") {
            Some(a) => Ok(Some(ClientRequest::PlayerVolumeUp(a))),
            None => Err(missing("amount")),
        },
        ClientCommand::VolumeDown => match uint_field(s, "amount") {
            Some(a) => Ok(Some(ClientRequest::PlayerVolumeDown(a))),
            None => Err(missing("amount")),
        },
        ClientCommand::Unknown => Ok(None),
        ClientCommand::Absent => Ok(None),
    }
}

/// A send error, the only way a request that was read can fail to be handed on.
pub open spec fn send_error(r: DiziResult) -> bool {
    r matches Err(e) && e.kind == DiziErrorKind::SendError
}

/// Reads the command line `s` and hands the request it asks for to the server's
/// loop on `server_req`. A line that names no known command is passed over; a
/// command without the entry it needs is refused, and only such a command; a
/// request to quit is handed on and passed over if the loop no longer takes it;
/// any other request that the loop no longer takes gives a send error.
pub fn run_command(server_req: &Sender<ClientRequest>, s: &str) -> (r: DiziResult)
    ensures
        match command_named(json_string_field(s@, "command"@)) {
            ClientCommand::Unknown | ClientCommand::Absent | ClientCommand::Quit => r is Ok,
            ClientCommand::Play => if json_string_field(s@, "path"@) is None {
                missing_entry_error(r)
            } else {
                r is Ok || send_error(r)
            },
            ClientCommand::VolumeUp | ClientCommand::VolumeDown => if json_uint_field(s@, "amount"@)
                is None {
                missing_entry_error(r)
            } else {
                r is Ok || send_error(r)
            },
            ClientCommand::Pause | ClientCommand::TogglePlay => r is Ok || send_error(r),
        },
{
    proof {
        reveal_strlit("command");
        reveal_strlit("path");
        reveal_strlit("amount");
    }
    let req = command_request(s);
    match req {
        Err(e) => Err(e),
        Ok(None) => Ok(()),
        Ok(Some(ClientRequest::Quit)) => {
            let _ = send(server_req, ClientRequest::Quit);
            Ok(())
        },
        Ok(Some(request)) => match send(server_req, request) {
            Ok(()) => Ok(()),
            Err(cause) => Err(DiziError::new(DiziErrorKind::SendError, cause)),
        },
    }
}

} // verus!
