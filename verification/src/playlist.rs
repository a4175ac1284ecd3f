use vstd::prelude::*;

use crate::song::DiziSongEntry;

verus! {

/// Where the songs that the player goes through come from.
#[derive(Clone, Copy, Debug, PartialEq, Eq, Structural)]
pub enum PlaylistType {
    DirectoryListing,
    PlaylistFile,
}

pub open spec fn playlist_type_text(t: PlaylistType) -> Seq<char> {
    match t {
        PlaylistType::DirectoryListing => "directory"@,
        PlaylistType::PlaylistFile => "file"@,
    }
}

impl PlaylistType {
    /// "directory" or "file".
    pub fn to_string(&self) -> (s: String)
        ensures
            s@ == playlist_type_text(*self),
    {
        match *self {
            PlaylistType::DirectoryListing => String::from_str("directory"),
            PlaylistType::PlaylistFile => String::from_str("file"),
        }
    }
}

/// The cursor after `remove_song` left `new_len` songs: none when the list is
/// empty, pulled back onto the last song when it points past the end.
pub open spec fn cursor_after_remove(cursor: Option<usize>, new_len: nat) -> Option<usize> {
    if new_len == 0 {
        None
    } else {
        match cursor {
            Some(i) => if i >= new_len {
                Some((new_len - 1) as usize)
            } else {
                Some(i)
            },
            None => None,
        }
    }
}

/// The playing index after `remove_song(index)` left `new_len` songs: none when
/// the playing song was removed; one less when it stood after the removed song
/// (the shift is only made while songs remain).
pub open spec fn playing_after_remove(playing: Option<usize>, index: usize, new_len: nat) -> Option<
    usize,
> {
    let p = if playing == Some(index) {
        None
    } else {
        playing
    };
    if new_len == 0 {
        p
    } else {
        match p {
            Some(i) => if i > index {
                Some((i - 1) as usize)
            } else {
                Some(i)
            },
            None => None,
        }
    }
}

/// An index that is either absent or points at an element of a list of `len` items.
pub open spec fn index_in_list(i: Option<usize>, len: nat) -> bool {
    match i {
        Some(k) => k < len,
        None => true,
    }
}

/// A playlist that the user puts together: its songs, the song under the cursor
/// and the song being played.
#[derive(Debug)]
pub struct FilePlaylist {
    pub list: Vec<DiziSongEntry>,
    pub cursor_index: Option<usize>,
    pub playing_index: Option<usize>,
}

impl Clone for FilePlaylist {
    fn clone(&self) -> (res: Self)
        ensures
            res.list.deep_view() == self.list.deep_view(),
            res.cursor_index == self.cursor_index,
            res.playing_index == self.playing_index,
    {
        let list = self.list.clone();
        proof {
            assert forall|i: int| 0 <= i < list@.len() implies #[trigger] list@[i].deep_view()
                == self.list@[i].deep_view() by {
                assert(cloned(self.list@[i], list@[i]));
            }
            assert(list.deep_view() =~= self.list.deep_view());
        }
        FilePlaylist { list, cursor_index: self.cursor_index, playing_index: self.playing_index }
    }
}

impl FilePlaylist {
    /// The playlist's cursor and playing index each point at a song or at nothing.
    pub open spec fn indices_valid(&self) -> bool {
        &&& index_in_list(self.cursor_index, self.list@.len())
        &&& index_in_list(self.playing_index, self.list@.len())
    }

    /// An empty playlist with no cursor and nothing playing.
    pub fn new() -> (p: Self)
        ensures
            p.list@.len() == 0,
            p.cursor_index is None,
            p.playing_index is None,
    {
        Self::default()
    }

    /// The first index of the page of `viewport_height` rows that holds the cursor
    /// (0 without a cursor).
    pub fn first_index_for_viewport(&self, viewport_height: usize) -> (r: usize)
        requires
            self.cursor_index is Some ==> viewport_height > 0,
        ensures
            self.cursor_index is None ==> r == 0,
            self.cursor_index matches Some(i) ==> r == i / viewport_height * viewport_height,
    {
        match self.get_cursor_index() {
            Some(index) => {
                proof {
                    assert(index / viewport_height * viewport_height <= index) by (nonlinear_arith)
                        requires
                            viewport_height > 0,
                    ;
                }
                index / viewport_height * viewport_height
            },
            None => 0,
        }
    }

    pub fn playlist(&self) -> (r: &[DiziSongEntry])
        ensures
            r@ == self.list@,
    {
        self.list.as_slice()
    }

    /// Empties the playlist and forgets the cursor and the playing song.
    pub fn clear(&mut self)
        ensures
            final(self).list@.len() == 0,
            final(self).cursor_index is None,
            final(self).playing_index is None,
    {
        self.list.clear();
        self.cursor_index = None;
        self.playing_index = None;
    }

    /// Puts a song at the end of the playlist.
    pub fn append_song(&mut self, s: DiziSongEntry)
        ensures
            final(self).list@ == old(self).list@.push(s),
            final(self).cursor_index == old(self).cursor_index,
            final(self).playing_index == old(self).playing_index,
    {
        self.list.push(s);
    }

    /// Takes the song at `index` out of the playlist and returns it; the cursor and
    /// the playing index follow the songs they pointed at.
    pub fn remove_song(&mut self, index: usize) -> (song: DiziSongEntry)
        requires
            index < old(self).list@.len(),
        ensures
            song == old(self).list@[index as int],
            final(self).list@ == old(self).list@.remove(index as int),
            final(self).cursor_index == cursor_after_remove(
                old(self).cursor_index,
                final(self).list@.len(),
            ),
            final(self).playing_index == playing_after_remove(
                old(self).playing_index,
                index,
                final(self).list@.len(),
            ),
    {
        let song = self.list.remove(index);

        if let Some(playing_index) = self.playing_index {
            if playing_index == index {
                self.set_playing_index(None);
            }
        }
        if self.list_ref().len() == 0 {
            self.set_cursor_index(None);
        } else {
            match self.get_cursor_index() {
                Some(i) => {
                    if i >= self.list_ref().len() {
                        let last = self.list_ref().len() - 1;
                        self.set_cursor_index(Some(last));
                    }
                },
                _ => {},
            }
            match self.get_playing_index() {
                Some(i) => {
                    if i > index {
                        self.set_playing_index(Some(i - 1));
                    }
                },
                _ => {},
            }
        }
        song
    }

    pub fn get_cursor_index(&self) -> (r: Option<usize>)
        ensures
            r == self.cursor_index,
    {
        self.cursor_index
    }

    pub fn set_cursor_index(&mut self, index: Option<usize>)
        ensures
            final(self).cursor_index == index,
            final(self).list == old(self).list,
            final(self).playing_index == old(self).playing_index,
    {
        self.cursor_index = index;
    }

    pub fn get_playing_index(&self) -> (r: Option<usize>)
        ensures
            r == self.playing_index,
    {
        self.playing_index
    }

    pub fn set_playing_index(&mut self, index: Option<usize>)
        ensures
            final(self).playing_index == index,
            final(self).list == old(self).list,
            final(self).cursor_index == old(self).cursor_index,
    {
        self.playing_index = index;
    }

    pub fn len(&self) -> (n: usize)
        ensures
            n == self.list@.len(),
    {
        self.list.len()
    }

    pub fn is_empty(&self) -> (b: bool)
        ensures
            b == (self.list@.len() == 0),
    {
        self.list.len() == 0
    }

    pub fn list_ref(&self) -> (r: &[DiziSongEntry])
        ensures
            r@ == self.list@,
    {
        self.list.as_slice()
    }

    pub fn list_mut(&mut self) -> (r: &mut Vec<DiziSongEntry>)
        ensures
            *r == old(self).list,
            final(self).list == *final(r),
            final(self).cursor_index == old(self).cursor_index,
            final(self).playing_index == old(self).playing_index,
    {
        &mut self.list
    }
}

impl core::default::Default for FilePlaylist {
    fn default() -> (p: Self)
        ensures
            p.list@.len() == 0,
            p.cursor_index is None,
            p.playing_index is None,
    {
        FilePlaylist { list: Vec::new(), cursor_index: None, playing_index: None }
    }
}

/// The songs of a directory, by path, and the index of the one being played.
#[derive(Debug)]
pub struct DirectoryPlaylist {
    _list: Vec<String>,
    pub index: usize,
}

impl Clone for DirectoryPlaylist {
    fn clone(&self) -> (res: Self)
        ensures
            res.paths() == self.paths(),
            res.playing() == self.playing(),
    {
        let list = self._list.clone();
        proof {
            assert forall|i: int| 0 <= i < list@.len() implies list@[i] == self._list@[i] by {
                assert(cloned(self._list@[i], list@[i]));
            }
            assert(list@ =~= self._list@);
        }
        DirectoryPlaylist { _list: list, index: self.index }
    }
}

impl DirectoryPlaylist {
    /// The paths of the directory's songs.
    pub closed spec fn paths(&self) -> Seq<String> {
        self._list@
    }

    /// The index of the song being played.
    pub closed spec fn playing(&self) -> usize {
        self.index
    }

    /// An empty directory playlist at index 0.
    pub fn new() -> (p: Self)
        ensures
            p.paths().len() == 0,
            p.playing() == 0,
    {
        Self::default()
    }

    pub fn set_playing_index(&mut self, index: usize)
        ensures
            final(self).playing() == index,
            final(self).paths() == old(self).paths(),
    {
        self.index = index;
    }

    pub fn get_playing_index(&self) -> (r: usize)
        ensures
            r == self.playing(),
    {
        self.index
    }

    pub fn len(&self) -> (n: usize)
        ensures
            n == self.paths().len(),
    {
        self._list.len()
    }

    pub fn list_ref(&self) -> (r: &Vec<String>)
        ensures
            r@ == self.paths(),
    {
        &self._list
    }

    pub fn list_mut(&mut self) -> (r: &mut Vec<String>)
        ensures
            r@ == old(self).paths(),
            final(self).paths() == final(r)@,
            final(self).playing() == old(self).playing(),
    {
        &mut self._list
    }
}

impl core::default::Default for DirectoryPlaylist {
    fn default() -> (p: Self)
        ensures
            p.paths().len() == 0,
            p.playing() == 0,
    {
        DirectoryPlaylist { _list: Vec::new(), index: 0 }
    }
}

/// Removing a song keeps a well-indexed playlist well indexed: afterwards the
/// cursor and the playing index still point at songs (or at nothing).
pub proof fn lemma_remove_song_keeps_indices_valid(
    before: FilePlaylist,
    after: FilePlaylist,
    index: usize,
)
    requires
        before.indices_valid(),
        index < before.list@.len(),
        after.list@ == before.list@.remove(index as int),
        after.cursor_index == cursor_after_remove(before.cursor_index, after.list@.len()),
        after.playing_index == playing_after_remove(
            before.playing_index,
            index,
            after.list@.len(),
        ),
    ensures
        after.indices_valid(),
{
}

/// Removing a song keeps the playing index on the song being played: when the
/// song at `playing` is not the one removed, the new playing index names the
/// same song in the shortened list; when it is, nothing plays. The cursor stays
/// on its song when that song stays and fits, and otherwise lands on the last song.
pub proof fn lemma_remove_song_follows_songs(
    list: Seq<DiziSongEntry>,
    index: usize,
    playing: usize,
    cursor: usize,
)
    requires
        index < list.len(),
        playing < list.len(),
        cursor < list.len(),
    ensures
        playing != index ==> (playing_after_remove(Some(playing), index, (list.len() - 1) as nat)
            matches Some(q) && q < list.remove(index as int).len() && list.remove(
            index as int,
        )[q as int] == list[playing as int]),
        playing == index ==> playing_after_remove(Some(playing), index, (list.len() - 1) as nat)
            is None,
        cursor < list.len() - 1 ==> cursor_after_remove(Some(cursor), (list.len() - 1) as nat)
            == Some(cursor),
        cursor == list.len() - 1 && list.len() > 1 ==> cursor_after_remove(
            Some(cursor),
            (list.len() - 1) as nat,
        ) == Some((list.len() - 2) as usize),
{
}

/// Appending a song and then removing it gives back the playlist's songs, cursor
/// and playing index when both indices pointed at songs.
pub proof fn lemma_append_then_remove_restores(
    before: FilePlaylist,
    song: DiziSongEntry,
    after: FilePlaylist,
)
    requires
        before.indices_valid(),
        before.list@.len() < usize::MAX,
        after.list@ == before.list@.push(song).remove(before.list@.len() as int),
        after.cursor_index == cursor_after_remove(before.cursor_index, after.list@.len()),
        after.playing_index == playing_after_remove(
            before.playing_index,
            before.list@.len() as usize,
            after.list@.len(),
        ),
    ensures
        after.list@ == before.list@,
        after.cursor_index == before.cursor_index,
        after.playing_index == before.playing_index,
{
    assert(before.list@.push(song).remove(before.list@.len() as int) =~= before.list@);
}

} // verus!
