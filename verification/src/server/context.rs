use vstd::prelude::*;

use crate::playlist::PlaylistType;
use crate::server::playlist::{
    is_entry_at, next_order_index, previous_order_index, OrderedPlaylistEntry,
    PlayerDirectoryPlaylist, PlayerFilePlaylist,
};
use crate::song::Song;

verus! {

/// Whether the server goes on or quits.
#[derive(Clone, Copy, Debug, PartialEq, Eq, Structural)]
pub enum QuitType {
    DoNot,
    Server,
}

/// The server's two playlists and which of them the player goes through.
#[derive(Debug)]
pub struct PlaylistContext {
    pub file_playlist: PlayerFilePlaylist,
    pub directory_playlist: PlayerDirectoryPlaylist,
    pub _type: PlaylistType,
}

/// The songs, play order and position of the playlist in use.
pub open spec fn active_songs(c: PlaylistContext) -> Seq<Song> {
    match c._type {
        PlaylistType::PlaylistFile => c.file_playlist.songs(),
        PlaylistType::DirectoryListing => c.directory_playlist.songs(),
    }
}

pub open spec fn active_order(c: PlaylistContext) -> Seq<usize> {
    match c._type {
        PlaylistType::PlaylistFile => c.file_playlist.order(),
        PlaylistType::DirectoryListing => c.directory_playlist.order(),
    }
}

pub open spec fn active_order_index(c: PlaylistContext) -> Option<usize> {
    match c._type {
        PlaylistType::PlaylistFile => c.file_playlist.order_index(),
        PlaylistType::DirectoryListing => c.directory_playlist.order_index(),
    }
}

/// Both playlists are well formed.
pub open spec fn context_well_formed(c: PlaylistContext) -> bool {
    c.file_playlist.well_formed() && c.directory_playlist.well_formed()
}

impl PlaylistContext {
    pub fn get_type(&self) -> (t: PlaylistType)
        ensures
            t == self._type,
    {
        self._type
    }

    pub fn set_type(&mut self, _type: PlaylistType)
        ensures
            final(self)._type == _type,
            final(self).file_playlist == old(self).file_playlist,
            final(self).directory_playlist == old(self).directory_playlist,
    {
        self._type = _type;
    }

    pub fn file_playlist_ref(&self) -> (r: &PlayerFilePlaylist)
        ensures
            *r == self.file_playlist,
    {
        &self.file_playlist
    }

    pub fn file_playlist_mut(&mut self) -> (r: &mut PlayerFilePlaylist)
        ensures
            *r == old(self).file_playlist,
            final(self).file_playlist == *final(r),
            final(self).directory_playlist == old(self).directory_playlist,
            final(self)._type == old(self)._type,
    {
        &mut self.file_playlist
    }

    pub fn directory_playlist_ref(&self) -> (r: &PlayerDirectoryPlaylist)
        ensures
            *r == self.directory_playlist,
    {
        &self.directory_playlist
    }

    pub fn directory_playlist_mut(&mut self) -> (r: &mut PlayerDirectoryPlaylist)
        ensures
            *r == old(self).directory_playlist,
            final(self).directory_playlist == *final(r),
            final(self).file_playlist == old(self).file_playlist,
            final(self)._type == old(self)._type,
    {
        &mut self.directory_playlist
    }

    /// Does nothing: choosing a song is done through the playlists themselves.
    pub fn play(&mut self, index: usize)
        ensures
            *final(self) == *old(self),
    {
    }

    /// The song at `index` of the playlist in use.
    pub fn get_entry(&self, index: usize) -> (r: &Song)
        requires
            index < active_songs(*self).len(),
        ensures
            *r == active_songs(*self)[index as int],
    {
        match self.get_type() {
            PlaylistType::PlaylistFile => self.file_playlist.get_entry(index),
            PlaylistType::DirectoryListing => self.directory_playlist.get_entry(index),
        }
    }

    /// The song being played in the playlist in use, with its place.
    pub fn get_current_entry(&self) -> (r: Option<OrderedPlaylistEntry>)
        requires
            context_well_formed(*self),
        ensures
            is_entry_at(r, active_songs(*self), active_order(*self), active_order_index(*self)),
    {
        proof {
            crate::server::playlist::lemma_order_indices_below(
                self.file_playlist.order(),
                self.file_playlist.songs().len(),
            );
            crate::server::playlist::lemma_order_indices_below(
                self.directory_playlist.order(),
                self.directory_playlist.songs().len(),
            );
        }
        match self.get_type() {
            PlaylistType::PlaylistFile => self.file_playlist.current_entry_details(),
            PlaylistType::DirectoryListing => self.directory_playlist.current_entry_details(),
        }
    }

    /// Moves the playlist in use on to its next song and gives that song.
    pub fn next_song(&mut self) -> (r: Option<OrderedPlaylistEntry>)
        requires
            context_well_formed(*old(self)),
        ensures
            context_well_formed(*final(self)),
            final(self)._type == old(self)._type,
            active_songs(*final(self)) == active_songs(*old(self)),
            active_order(*final(self)) == active_order(*old(self)),
            active_order_index(*final(self)) == match active_order_index(*old(self)) {
                Some(i) => Some(next_order_index(i, active_songs(*old(self)).len())),
                None => None::<usize>,
            },
            is_entry_at(
                r,
                active_songs(*final(self)),
                active_order(*final(self)),
                active_order_index(*final(self)),
            ),
            old(self)._type == PlaylistType::PlaylistFile ==> final(self).directory_playlist
                == old(self).directory_playlist,
            old(self)._type == PlaylistType::DirectoryListing ==> final(self).file_playlist
                == old(self).file_playlist,
    {
        proof {
            crate::server::playlist::lemma_order_indices_below(
                self.file_playlist.order(),
                self.file_playlist.songs().len(),
            );
            crate::server::playlist::lemma_order_indices_below(
                self.directory_playlist.order(),
                self.directory_playlist.songs().len(),
            );
        }
        match self.get_type() {
            PlaylistType::PlaylistFile => self.file_playlist.next_song(),
            PlaylistType::DirectoryListing => self.directory_playlist.next_song(),
        }
    }

    /// Moves the playlist in use back to its previous song and gives that song.
    pub fn previous_song(&mut self) -> (r: Option<OrderedPlaylistEntry>)
        requires
            context_well_formed(*old(self)),
        ensures
            context_well_formed(*final(self)),
            final(self)._type == old(self)._type,
            active_songs(*final(self)) == active_songs(*old(self)),
            active_order(*final(self)) == active_order(*old(self)),
            active_order_index(*final(self)) == match active_order_index(*old(self)) {
                Some(i) => Some(previous_order_index(i, active_songs(*old(self)).len())),
                None => None::<usize>,
            },
            is_entry_at(
                r,
                active_songs(*final(self)),
                active_order(*final(self)),
                active_order_index(*final(self)),
            ),
            old(self)._type == PlaylistType::PlaylistFile ==> final(self).directory_playlist
                == old(self).directory_playlist,
            old(self)._type == PlaylistType::DirectoryListing ==> final(self).file_playlist
                == old(self).file_playlist,
    {
        proof {
            crate::server::playlist::lemma_order_indices_below(
                self.file_playlist.order(),
                self.file_playlist.songs().len(),
            );
            crate::server::playlist::lemma_order_indices_below(
                self.directory_playlist.order(),
                self.directory_playlist.songs().len(),
            );
        }
        match self.get_type() {
            PlaylistType::PlaylistFile => self.file_playlist.previous_song(),
            PlaylistType::DirectoryListing => self.directory_playlist.previous_song(),
        }
    }

    /// Whether the playlist in use is at its last song (or plays nothing).
    pub fn is_end(&self) -> (b: bool)
        ensures
            b == match active_order_index(*self) {
                Some(i) => i + 1 >= active_songs(*self).len(),
                None => true,
            },
    {
        match self.get_type() {
            PlaylistType::PlaylistFile => self.file_playlist.is_end(),
            PlaylistType::DirectoryListing => self.directory_playlist.is_end(),
        }
    }
}

impl core::default::Default for PlaylistContext {
    fn default() -> (c: Self)
        ensures
            c.file_playlist.songs().len() == 0,
            c.file_playlist.order().len() == 0,
            c.file_playlist.order_index() is None,
            c.directory_playlist.songs().len() == 0,
            c.directory_playlist.order().len() == 0,
            c.directory_playlist.order_index() is None,
            c._type == PlaylistType::PlaylistFile,
            context_well_formed(c),
    {
        PlaylistContext {
            file_playlist: PlayerFilePlaylist::new(Vec::new()),
            directory_playlist: PlayerDirectoryPlaylist::new(Vec::new()),
            _type: PlaylistType::PlaylistFile,
        }
    }
}

} // verus!
