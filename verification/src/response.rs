use vstd::prelude::*;

use crate::player::{PlayerState, QueryVar};
use crate::song::{DiziAudioFile, PlayDuration};

verus! {

/// What the server tells every client.
#[derive(Debug)]
pub enum ServerBroadcastEvent {
    /// The server is shutting down.
    ServerQuit,
    ServerError { msg: String },
    ServerQuery { query: String },
    ServerQueryAll { query_items: Vec<QueryVar> },
    /// The whole player state.
    PlayerState { state: PlayerState },
    PlayerFilePlay { file: DiziAudioFile },
    PlayerPause,
    PlayerResume,
    PlayerStop,
    PlayerRepeat { on: bool },
    PlayerShuffle { on: bool },
    PlayerNext { on: bool },
    PlayerVolumeUpdate { volume: usize },
    PlayerProgressUpdate { elapsed: PlayDuration },
    PlaylistOpen { state: PlayerState },
    PlaylistPlay { index: usize },
    PlaylistAppend { audio_files: Vec<DiziAudioFile> },
    PlaylistRemove { index: usize },
    PlaylistSwapMove { index1: usize, index2: usize },
    PlaylistClear,
}

} // verus!
