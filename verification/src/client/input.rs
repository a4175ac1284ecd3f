use vstd::prelude::*;

use crate::player::{PlayerState, PlayerStatus};
use crate::playlist::{cursor_after_remove, playing_after_remove, FilePlaylist, PlaylistType};
use crate::response::ServerBroadcastEvent;
use crate::song::DiziSongEntry;
use crate::text::{concat_text, decimal, usize_to_string};

verus! {

/// What the client has to do, besides updating its copy of the player state,
/// after a server event.
#[derive(Debug)]
pub enum ServerEventOutcome {
    /// Nothing more.
    Applied,
    /// The server quits, and so does the client.
    Quit,
    /// Show this error message.
    Error(String),
    /// Show this success message.
    Success(String),
    /// The client does not handle this event: report it.
    Unimplemented(ServerBroadcastEvent),
}

/// The cursor that a client keeps when a new, non-empty playlist of `new_len`
/// songs arrives: its old cursor, pulled back onto the last song, or the first song.
pub open spec fn kept_cursor(old_cursor: Option<usize>, new_len: nat) -> usize {
    match old_cursor {
        Some(s) => if s < new_len {
            s
        } else {
            (new_len - 1) as usize
        },
        None => 0,
    }
}

/// The events that the client can apply without failing: moves and removals
/// name songs of the playlist, and an append fits in memory.
pub open spec fn event_applicable(state: PlayerState, event: ServerBroadcastEvent) -> bool {
    match event {
        ServerBroadcastEvent::PlaylistSwapMove { index1, index2 } => index1
            < state.playlist.list@.len() && index2 < state.playlist.list@.len(),
        ServerBroadcastEvent::PlaylistRemove { index } => index < state.playlist.list@.len(),
        ServerBroadcastEvent::PlaylistAppend { audio_files } => state.playlist.list@.len()
            + audio_files@.len() <= usize::MAX,
        _ => true,
    }
}

/// The events after which a client's playlist indices still point at songs when
/// they did before: a new state must come with valid indices, and an append must
/// not leave an empty playlist with a cursor.
pub open spec fn event_keeps_indices(state: PlayerState, event: ServerBroadcastEvent) -> bool {
    match event {
        ServerBroadcastEvent::PlayerState { state: s } => s.playlist.indices_valid(),
        ServerBroadcastEvent::PlaylistAppend { audio_files } => state.playlist.list@.len()
            + audio_files@.len() > 0 || state.playlist.cursor_index is Some,
        _ => true,
    }
}

/// Swaps the songs at `i` and `j`.
pub fn swap_songs(v: &mut Vec<DiziSongEntry>, i: usize, j: usize)
    requires
        i < old(v)@.len(),
        j < old(v)@.len(),
    ensures
        final(v)@ == old(v)@.update(i as int, old(v)@[j as int]).update(j as int, old(v)@[i as int]),
{
    if i == j {
        proof {
            assert(v@.update(i as int, v@[j as int]).update(j as int, v@[i as int]) =~= v@);
        }
        return ;
    }
    let ghost s = v@;
    let (lo, hi) = if i < j {
        (i, j)
    } else {
        (j, i)
    };
    let x_hi = v.remove(hi);
    let x_lo = v.remove(lo);
    v.insert(lo, x_hi);
    v.insert(hi, x_lo);
    proof {
        assert(v@ =~= s.update(i as int, s[j as int]).update(j as int, s[i as int]));
    }
}

/// Applies a server event to the client's copy of the player state.
pub fn process_server_event(state: &mut PlayerState, event: ServerBroadcastEvent) -> (outcome:
    ServerEventOutcome)
    requires
        event_applicable(*old(state), event),
    ensures
        old(state).playlist.indices_valid() && event_keeps_indices(*old(state), event)
            ==> final(state).playlist.indices_valid(),
        match event {
            ServerBroadcastEvent::ServerQuit => outcome is Quit && *final(state) == *old(state),
            ServerBroadcastEvent::ServerError { msg } => outcome matches ServerEventOutcome::Error(
                m,
            ) && m@ == "Server: "@ + msg@ && *final(state) == *old(state),
            ServerBroadcastEvent::ServerQuery { .. } => outcome is Applied && *final(state)
                == *old(state),
            ServerBroadcastEvent::PlayerState { state: s } => outcome is Applied && *final(state)
                == (PlayerState {
                playlist: FilePlaylist {
                    cursor_index: if s.playlist.list@.len() == 0 {
                        s.playlist.cursor_index
                    } else {
                        Some(
                            kept_cursor(old(state).playlist.cursor_index, s.playlist.list@.len()),
                        )
                    },
                    ..s.playlist
                },
                ..s
            }),
            ServerBroadcastEvent::PlayerFilePlay { file } => outcome is Applied && *final(state)
                == (PlayerState {
                song: Some(file),
                status: PlayerStatus::Playing,
                playlist_status: PlaylistType::DirectoryListing,
                ..*old(state)
            }),
            ServerBroadcastEvent::PlayerPause => outcome is Applied && *final(state)
                == (PlayerState { status: PlayerStatus::Paused, ..*old(state) }),
            ServerBroadcastEvent::PlayerResume => outcome is Applied && *final(state)
                == (PlayerState { status: PlayerStatus::Playing, ..*old(state) }),
            ServerBroadcastEvent::PlayerShuffle { on } => outcome is Applied && *final(state)
                == (PlayerState { shuffle: on, ..*old(state) }),
            ServerBroadcastEvent::PlayerRepeat { on } => outcome is Applied && *final(state)
                == (PlayerState { repeat: on, ..*old(state) }),
            ServerBroadcastEvent::PlayerNext { on } => outcome is Applied && *final(state)
                == (PlayerState { next: on, ..*old(state) }),
            ServerBroadcastEvent::PlayerVolumeUpdate { volume } => outcome is Applied
                && *final(state) == (PlayerState { volume, ..*old(state) }),
            ServerBroadcastEvent::PlayerProgressUpdate { elapsed } => outcome is Applied
                && *final(state) == (PlayerState { elapsed, ..*old(state) }),
            ServerBroadcastEvent::PlaylistSwapMove { index1, index2 } => {
                let l = old(state).playlist.list@;
                &&& outcome is Applied
                &&& final(state).playlist.list@ == l.update(index1 as int, l[index2 as int]).update(
                    index2 as int,
                    l[index1 as int],
                )
                &&& final(state).playlist.cursor_index == Some(index2)
                &&& final(state).playlist.playing_index == old(state).playlist.playing_index
                &&& *final(state) == (PlayerState { playlist: final(state).playlist, ..*old(state) })
            },
            ServerBroadcastEvent::PlaylistClear => {
                &&& outcome is Applied
                &&& final(state).playlist.list@.len() == 0
                &&& final(state).playlist.cursor_index is None
                &&& final(state).playlist.playing_index is None
                &&& *final(state) == (PlayerState { playlist: final(state).playlist, ..*old(state) })
            },
            ServerBroadcastEvent::PlaylistAppend { audio_files } => {
                &&& outcome matches ServerEventOutcome::Success(m) && m@ == "Added "@ + decimal(
                    audio_files@.len(),
                ) + " songs to playlist"@
                &&& final(state).playlist.list@ == old(state).playlist.list@ + audio_files@
                &&& final(state).playlist.cursor_index == if old(
                    state,
                ).playlist.cursor_index is None {
                    Some(0usize)
                } else {
                    old(state).playlist.cursor_index
                }
                &&& final(state).playlist.playing_index == old(state).playlist.playing_index
                &&& *final(state) == (PlayerState { playlist: final(state).playlist, ..*old(state) })
            },
            ServerBroadcastEvent::PlaylistRemove { index } => {
                &&& outcome is Applied
                &&& final(state).playlist.list@ == old(state).playlist.list@.remove(index as int)
                &&& final(state).playlist.cursor_index == cursor_after_remove(
                    old(state).playlist.cursor_index,
                    final(state).playlist.list@.len(),
                )
                &&& final(state).playlist.playing_index == playing_after_remove(
                    old(state).playlist.playing_index,
                    index,
                    final(state).playlist.list@.len(),
                )
                &&& *final(state) == (PlayerState { playlist: final(state).playlist, ..*old(state) })
            },
            ServerBroadcastEvent::PlaylistPlay { index } => {
                &&& outcome is Applied
                &&& if index < old(state).playlist.list@.len() {
                    &&& final(state).song matches Some(song) && song.deep_view() == old(
                        state,
                    ).playlist.list@[index as int].deep_view()
                    &&& final(state).status == PlayerStatus::Playing
                    &&& final(state).playlist_status == PlaylistType::PlaylistFile
                    &&& final(state).playlist.list == old(state).playlist.list
                    &&& final(state).playlist.playing_index == Some(index)
                    &&& final(state).playlist.cursor_index == if old(state).playlist.playing_index
                        == old(state).playlist.cursor_index {
                        Some(index)
                    } else {
                        old(state).playlist.cursor_index
                    }
                    &&& *final(state) == (PlayerState {
                        song: final(state).song,
                        status: PlayerStatus::Playing,
                        playlist_status: PlaylistType::PlaylistFile,
                        playlist: final(state).playlist,
                        ..*old(state)
                    })
                } else {
                    *final(state) == *old(state)
                }
            },
            _ => outcome is Unimplemented && *final(state) == *old(state),
        },
{
    match event {
        ServerBroadcastEvent::ServerQuit => ServerEventOutcome::Quit,
        ServerBroadcastEvent::ServerError { msg } => {
            ServerEventOutcome::Error(concat_text("Server: ", msg.as_str()))
        },
        ServerBroadcastEvent::ServerQuery { .. } => ServerEventOutcome::Applied,
        ServerBroadcastEvent::PlayerState { state: mut new_state } => {
            if !new_state.playlist.is_empty() {
                let playlist_len = new_state.playlist.len();
                let new_cursor_index = match state.playlist.get_cursor_index() {
                    Some(s) => if s < playlist_len {
                        s
                    } else {
                        playlist_len - 1
                    },
                    None => 0,
                };
                new_state.playlist.set_cursor_index(Some(new_cursor_index));
            }
            *state = new_state;
            ServerEventOutcome::Applied
        },
        ServerBroadcastEvent::PlayerFilePlay { file } => {
            state.song = Some(file);
            state.status = PlayerStatus::Playing;
            state.playlist_status = PlaylistType::DirectoryListing;
            ServerEventOutcome::Applied
        },
        ServerBroadcastEvent::PlayerPause => {
            state.status = PlayerStatus::Paused;
            ServerEventOutcome::Applied
        },
        ServerBroadcastEvent::PlayerResume => {
            state.status = PlayerStatus::Playing;
            ServerEventOutcome::Applied
        },
        ServerBroadcastEvent::PlayerShuffle { on } => {
            state.shuffle = on;
            ServerEventOutcome::Applied
        },
        ServerBroadcastEvent::PlayerRepeat { on } => {
            state.repeat = on;
            ServerEventOutcome::Applied
        },
        ServerBroadcastEvent::PlayerNext { on } => {
            state.next = on;
            ServerEventOutcome::Applied
        },
        ServerBroadcastEvent::PlayerVolumeUpdate { volume } => {
            state.volume = volume;
            ServerEventOutcome::Applied
        },
        ServerBroadcastEvent::PlayerProgressUpdate { elapsed } => {
            state.elapsed = elapsed;
            ServerEventOutcome::Applied
        },
        ServerBroadcastEvent::PlaylistSwapMove { index1, index2 } => {
            swap_songs(&mut state.playlist.list, index1, index2);
            state.playlist.set_cursor_index(Some(index2));
            ServerEventOutcome::Applied
        },
        ServerBroadcastEvent::PlaylistClear => {
            state.playlist.clear();
            ServerEventOutcome::Applied
        },
        ServerBroadcastEvent::PlaylistAppend { mut audio_files } => {
            let count = audio_files.len();
            state.playlist.list.append(&mut audio_files);
            if state.playlist.get_cursor_index().is_none() {
                state.playlist.set_cursor_index(Some(0));
            }
            let m = concat_text("Added ", usize_to_string(count).as_str());
            ServerEventOutcome::Success(concat_text(m.as_str(), " songs to playlist"))
        },
        ServerBroadcastEvent::PlaylistRemove { index } => {
            state.playlist.remove_song(index);
            if state.playlist.is_empty() {
                state.playlist.set_cursor_index(None);
            }
            ServerEventOutcome::Applied
        },
        ServerBroadcastEvent::PlaylistPlay { index } => {
            let len = state.playlist.len();
            if index < len {
                let song = state.playlist.list[index].clone();
                state.song = Some(song);
                state.status = PlayerStatus::Playing;
                state.playlist_status = PlaylistType::PlaylistFile;
                let cursor_index = state.playlist.get_cursor_index();
                let playing_index = state.playlist.get_playing_index();
                if playing_index == cursor_index {
                    state.playlist.set_cursor_index(Some(index));
                }
                state.playlist.set_playing_index(Some(index));
            }
            ServerEventOutcome::Applied
        },
        other => ServerEventOutcome::Unimplemented(other),
    }
}

} // verus!
