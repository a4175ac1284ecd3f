//! Queries that a client answers from its own copy of the player state.

use vstd::prelude::*;

use crate::error::{DiziError, DiziErrorKind, DiziResult};
use crate::player::{format_query, insert_var, strfmt_result, vars_map, PlayerState, QueryVar};
use crate::response::ServerBroadcastEvent;

verus! {

/// The variables of a local query: the file name and path of the song being played.
pub open spec fn local_query_vars(state: PlayerState) -> Map<Seq<char>, Seq<char>> {
    match state.song {
        Some(s) => Map::empty().insert("file_name"@, s.file_name@).insert(
            "file_path"@,
            s.file_path@,
        ),
        None => Map::empty(),
    }
}

/// Formats `query` with the song's file name and path.
pub fn query_local(state: &PlayerState, query: &str) -> (r: DiziResult<String>)
    ensures
        match strfmt_result(query@, local_query_vars(*state)) {
            Ok(s) => r matches Ok(t) && t@ == s,
            Err(_) => r matches Err(e) && e.kind == DiziErrorKind::InvalidParameters && e.cause@
                == "Failed to process query"@,
        },
{
    let mut vars: Vec<QueryVar> = Vec::new();
    proof {
        assert(vars_map(vars@) =~= Map::empty());
    }
    if let Some(song) = state.song.as_ref() {
        insert_var(&mut vars, String::from_str("file_name"), String::from_str(song.file_name()));
        insert_var(&mut vars, String::from_str("file_path"), String::from_str(song.file_path()));
    }
    match format_query(query, &vars) {
        Ok(s) => Ok(s),
        Err(_e) => Err(
            DiziError::new(DiziErrorKind::InvalidParameters, String::from_str("Failed to process query")),
        ),
    }
}

/// A state received for a query, with the cursor on the first song when the
/// playlist has one.
pub open spec fn first_song_focused(state: PlayerState) -> PlayerState {
    if state.playlist.list@.len() > 0 {
        PlayerState {
            playlist: crate::playlist::FilePlaylist { cursor_index: Some(0usize), ..state.playlist },
            ..state
        }
    } else {
        state
    }
}

/// Puts the cursor of a received state on its first song (see `first_song_focused`).
pub fn focus_first_song(state: &mut PlayerState)
    ensures
        *final(state) == first_song_focused(*old(state)),
{
    if !state.playlist.is_empty() {
        state.playlist.set_cursor_index(Some(0));
    }
}

/// What a client that sent a query does after a server event.
#[derive(Debug)]
pub enum QueryStep {
    /// The event does not answer the query: wait for the next one.
    Wait,
    /// Print this answer and stop.
    Answer(String),
}

/// One step of a query client. The server's answer to a query, or its error
/// message, is the answer. A whole player state is stored in `state`, with the
/// cursor on its first song, and the query is answered from it by
/// `query_local`, whose error is passed on. Any other event is waited past.
pub fn query_step(state: &mut PlayerState, query: &str, event: ServerBroadcastEvent) -> (r:
    DiziResult<QueryStep>)
    ensures
        match event {
            ServerBroadcastEvent::ServerQuery { query: q } => r matches Ok(QueryStep::Answer(a))
                && a@ == q@ && *final(state) == *old(state),
            ServerBroadcastEvent::ServerError { msg } => r matches Ok(QueryStep::Answer(a)) && a@
                == msg@ && *final(state) == *old(state),
            ServerBroadcastEvent::PlayerState { state: s } => *final(state) == first_song_focused(s)
                && match strfmt_result(query@, local_query_vars(first_song_focused(s))) {
                Ok(t) => r matches Ok(QueryStep::Answer(a)) && a@ == t,
                Err(_) => r matches Err(e) && e.kind == DiziErrorKind::InvalidParameters
                    && e.cause@ == "Failed to process query"@,
            },
            _ => r matches Ok(QueryStep::Wait) && *final(state) == *old(state),
        },
{
    match event {
        ServerBroadcastEvent::ServerQuery { query: q } => Ok(QueryStep::Answer(q)),
        ServerBroadcastEvent::ServerError { msg } => Ok(QueryStep::Answer(msg)),
        ServerBroadcastEvent::PlayerState { state: s } => {
            *state = s;
            focus_first_song(state);
            match query_local(state, query) {
                Ok(a) => Ok(QueryStep::Answer(a)),
                Err(e) => Err(e),
            }
        },
        _ => Ok(QueryStep::Wait),
    }
}

} // verus!
