//! What the web handlers decide about the playlist.

use vstd::prelude::*;

use crate::error::AppError;
use crate::playlist::{cursor_after_remove, playing_after_remove, FilePlaylist};
use crate::song::Song;

verus! {

/// A request to add the song at `path` to the playlist.
#[derive(Debug)]
pub struct PlaylistAddSongReq {
    pub path: String,
}

/// The song added and its index in the playlist.
#[derive(Debug)]
pub struct PlaylistAddSongResp {
    pub song: Song,
    pub index: usize,
}

/// A request to remove the song at `index`.
#[derive(Debug)]
pub struct PlaylistRemoveSongReq {
    pub index: usize,
}

/// The song removed and the index it had.
#[derive(Debug)]
pub struct PlaylistRemoveSongResp {
    pub index: usize,
    pub song: Song,
}

/// Some song of the playlist is the file at `path`.
pub open spec fn playlist_contains(list: Seq<Song>, path: Seq<char>) -> bool {
    exists|i: int| 0 <= i < list.len() && #[trigger] list[i].file_path@ == path
}

/// Whether a song of the playlist is the file at `path`.
pub fn playlist_contains_path(playlist: &FilePlaylist, path: &str) -> (b: bool)
    ensures
        b == playlist_contains(playlist.list@, path@),
{
    let n = playlist.len();
    let mut i: usize = 0;
    while i < n
        invariant
            n == playlist.list@.len(),
            i <= n,
            forall|j: int| 0 <= j < i ==> #[trigger] playlist.list@[j].file_path@ != path@,
        decreases n - i,
    {
        if crate::text::str_eq(playlist.list[i].file_path(), path) {
            return true;
        }
        i = i + 1;
    }
    false
}

/// An error with no kind and the given message.
fn app_error(message: &str) -> (e: AppError)
    ensures
        e.kind@ == Seq::<char>::empty(),
        e.message@ == message@,
{
    AppError { kind: String::new(), message: String::from_str(message) }
}

/// Refuses a file that is already in the playlist.
pub fn playlist_add_check(playlist: &FilePlaylist, data: &PlaylistAddSongReq) -> (r: Result<
    (),
    AppError,
>)
    ensures
        match r {
            Ok(()) => !playlist_contains(playlist.list@, data.path@),
            Err(e) => playlist_contains(playlist.list@, data.path@) && e.kind@ == Seq::<
                char,
            >::empty() && e.message@ == "This file is already in the playlist"@,
        },
{
    if playlist_contains_path(playlist, data.path.as_str()) {
        return Err(app_error("This file is already in the playlist"));
    }
    Ok(())
}

/// Adds a song at the end of the playlist and answers with it and its index.
pub fn playlist_add_song(playlist: &mut FilePlaylist, s: Song) -> (r: PlaylistAddSongResp)
    requires
        old(playlist).list@.len() < usize::MAX,
    ensures
        final(playlist).list@ == old(playlist).list@.push(s),
        final(playlist).cursor_index == old(playlist).cursor_index,
        final(playlist).playing_index == old(playlist).playing_index,
        r.song.deep_view() == s.deep_view(),
        r.index == old(playlist).list@.len(),
{
    let song = s.clone();
    playlist.append_song(s);
    let index = playlist.len() - 1;
    PlaylistAddSongResp { song, index }
}

/// Removes the song of the request, or refuses an index past the end.
pub fn remove_from_playlist(playlist: &mut FilePlaylist, data: &PlaylistRemoveSongReq) -> (r:
    Result<PlaylistRemoveSongResp, AppError>)
    ensures
        match r {
            Ok(resp) => {
                &&& data.index < old(playlist).list@.len()
                &&& resp.index == data.index
                &&& resp.song == old(playlist).list@[data.index as int]
                &&& final(playlist).list@ == old(playlist).list@.remove(data.index as int)
                &&& final(playlist).cursor_index == cursor_after_remove(
                    old(playlist).cursor_index,
                    final(playlist).list@.len(),
                )
                &&& final(playlist).playing_index == playing_after_remove(
                    old(playlist).playing_index,
                    data.index,
                    final(playlist).list@.len(),
                )
            },
            Err(e) => {
                &&& data.index >= old(playlist).list@.len()
                &&& *final(playlist) == *old(playlist)
                &&& e.kind@ == Seq::<char>::empty()
                &&& e.message@ == "Index out of bounds"@
            },
        },
{
    if data.index >= playlist.len() {
        return Err(app_error("Index out of bounds"));
    }
    let song = playlist.remove_song(data.index);
    Ok(PlaylistRemoveSongResp { index: data.index, song })
}

} // verus!
