use vstd::prelude::*;

use crate::playlist::{FilePlaylist, PlaylistType};
use crate::song::Song;
use rand::seq::SliceRandom;

verus! {

broadcast use vstd::seq_lib::group_to_multiset_ensures;

/// The indices 0, 1, ..., n - 1 in order.
pub open spec fn identity_order(n: nat) -> Seq<usize> {
    Seq::new(n, |i: int| i as usize)
}

/// `order` visits every index below `n` exactly once.
pub open spec fn is_order_of(order: Seq<usize>, n: nat) -> bool {
    order.to_multiset() == identity_order(n).to_multiset()
}

/// The song index at an order position, when the position is set.
pub open spec fn song_index_at(order: Seq<usize>, order_index: Option<usize>) -> Option<usize> {
    match order_index {
        Some(s) => Some(order[s as int]),
        None => None,
    }
}

/// The next order position: one further, or back to the start after the last song.
pub open spec fn next_order_index(i: usize, len: nat) -> usize {
    if i + 1 < len {
        (i + 1) as usize
    } else {
        0
    }
}

/// The previous order position as the player computes it: one back from
/// positions above 1, else the last position.
pub open spec fn previous_order_index(i: usize, len: nat) -> usize {
    if i > 1 {
        (i - 1) as usize
    } else {
        (len - 1) as usize
    }
}

/// Builds the identity order over `n` songs.
fn identity_vec(n: usize) -> (v: Vec<usize>)
    ensures
        v@ == identity_order(n as nat),
{
    let mut v: Vec<usize> = Vec::new();
    let mut i: usize = 0;
    while i < n
        invariant
            i <= n,
            v@ == identity_order(i as nat),
        decreases n - i,
    {
        v.push(i);
        i = i + 1;
        proof {
            assert(v@ =~= identity_order(i as nat));
        }
    }
    v
}

/// `rand`'s `SliceRandom::shuffle` with the thread's generator: the indices are
/// put in a random order. The source swaps elements only, so the result is a
/// permutation of the input; which one is left to chance.
#[verifier::external_body]
fn shuffle_indices(v: &mut Vec<usize>)
    ensures
        final(v)@.len() == old(v)@.len(),
        final(v)@.to_multiset() == old(v)@.to_multiset(),
{
    v.shuffle(&mut rand::thread_rng());
}

/// Every index in an order of `n` songs names one of the songs.
pub proof fn lemma_order_indices_below(order: Seq<usize>, n: nat)
    requires
        is_order_of(order, n),
    ensures
        order.len() == n,
        forall|k: int| 0 <= k < order.len() ==> #[trigger] order[k] < n,
{
    assert(order.len() == order.to_multiset().len());
    assert(identity_order(n).len() == identity_order(n).to_multiset().len());
    assert forall|k: int| 0 <= k < order.len() implies #[trigger] order[k] < n by {
        let x = order[k];
        assert(order.contains(x));
        assert(order.to_multiset().count(x) > 0);
        assert(identity_order(n).to_multiset().count(x) > 0);
        assert(identity_order(n).contains(x));
        let j = choose|j: int| 0 <= j < identity_order(n).len() && identity_order(n)[j] == x;
    }
}

/// A random order of `len` songs in which position `fixed` (when given) keeps index `fixed`.
fn shuffled_order(len: usize, fixed: Option<usize>) -> (order: Vec<usize>)
    requires
        fixed matches Some(i) ==> i < len,
    ensures
        order@.len() == len,
        is_order_of(order@, len as nat),
        fixed matches Some(i) ==> order@[i as int] == i,
{
    let mut random_order = identity_vec(len);
    let ghost id = random_order@;
    if let Some(index) = fixed {
        random_order.remove(index);
        let ghost removed = random_order@;
        shuffle_indices(&mut random_order);
        let ghost shuffled = random_order@;
        random_order.insert(index, index);
        proof {
            assert(id[index as int] == index);
            assert(removed.to_multiset() == id.to_multiset().remove(index));
            assert(random_order@ == shuffled.insert(index as int, index));
            assert(random_order@.to_multiset() == shuffled.to_multiset().insert(index));
            assert(id.to_multiset().contains(index));
            assert(id.to_multiset().remove(index).insert(index) =~= id.to_multiset());
        }
    } else {
        shuffle_indices(&mut random_order);
    }
    random_order
}


/// A song of a playlist with its index among the songs and its position in the play order.
#[derive(Debug)]
pub struct OrderedPlaylistEntry {
    pub entry_index: usize,
    pub order_index: usize,
    pub entry: Song,
}

/// The entry at an order position: the position, the song index there, and that
/// song (as a copy, equal in value).
pub open spec fn entry_matches(
    e: OrderedPlaylistEntry,
    songs: Seq<Song>,
    order: Seq<usize>,
    order_index: usize,
) -> bool {
    &&& e.order_index == order_index
    &&& e.entry_index == order[order_index as int]
    &&& e.entry.deep_view() == songs[order[order_index as int] as int].deep_view()
}

/// The songs of a player playlist, the order in which they are played, and the
/// position in that order of the song being played.
#[derive(Debug)]
pub struct PlayerFilePlaylist {
    _songs: Vec<Song>,
    _order: Vec<usize>,
    _order_index: Option<usize>,
}

/// The songs of a directory as the player plays them (see `PlayerFilePlaylist`).
#[derive(Debug)]
pub struct PlayerDirectoryPlaylist {
    _songs: Vec<Song>,
    _order: Vec<usize>,
    _order_index: Option<usize>,
}

/// Which of its two playlists the player goes through, and the playlists themselves.
#[derive(Debug)]
pub struct PlayerPlaylist {
    pub file_playlist: PlayerFilePlaylist,
    pub directory_playlist: PlayerDirectoryPlaylist,
    pub status: PlaylistType,
}


impl PlayerFilePlaylist {
    /// `after` is this playlist with a play order drawn on the spot: the same
    /// songs and position, an order of all the songs, and the position, when
    /// set, holding the song of that index.
    pub open spec fn shuffled_to(&self, after: Self) -> bool {
        &&& after.songs() == self.songs()
        &&& after.order_index() == self.order_index()
        &&& after.order().len() == self.songs().len()
        &&& is_order_of(after.order(), self.songs().len())
        &&& self.order_index() matches Some(i) ==> after.order()[i as int] == i
    }

    /// `after` is this playlist back in its given order, at the position of the
    /// song that was being played.
    pub open spec fn unshuffled_to(&self, after: Self) -> bool {
        &&& after.songs() == self.songs()
        &&& after.order() == identity_order(self.songs().len())
        &&& after.order_index() == song_index_at(self.order(), self.order_index())
    }
}

impl PlayerFilePlaylist {
    /// The songs.
    pub closed spec fn songs(&self) -> Seq<Song> {
        self._songs@
    }

    /// The play order: song indices in the order in which they are played.
    pub closed spec fn order(&self) -> Seq<usize> {
        self._order@
    }

    /// The position in the play order of the song being played.
    pub closed spec fn order_index(&self) -> Option<usize> {
        self._order_index
    }

    /// The order position, when set, names a place in the play order.
    pub open spec fn order_index_in_order(&self) -> bool {
        self.order_index() matches Some(i) ==> i < self.order().len()
    }

    /// The play order is an order of all the songs and the position, when set, is in it.
    pub open spec fn well_formed(&self) -> bool {
        &&& is_order_of(self.order(), self.songs().len())
        &&& self.order().len() == self.songs().len()
        &&& self.order_index_in_order()
    }

    /// A playlist of `songs` played in their given order, with nothing playing.
    pub fn new(songs: Vec<Song>) -> (p: Self)
        ensures
            p.songs() == songs@,
            p.order() == identity_order(songs@.len()),
            p.order_index() is None,
            p.well_formed(),
    {
        let songs_count = songs.len();
        Self { _songs: songs, _order: identity_vec(songs_count), _order_index: None }
    }

    pub fn is_empty(&self) -> (b: bool)
        ensures
            b == (self.songs().len() == 0),
    {
        self._songs.len() == 0
    }

    pub fn len(&self) -> (n: usize)
        ensures
            n == self.songs().len(),
    {
        self._songs.len()
    }

    pub fn songs_ref(&self) -> (r: &Vec<Song>)
        ensures
            r@ == self.songs(),
    {
        &self._songs
    }

    pub fn songs_mut(&mut self) -> (r: &mut Vec<Song>)
        ensures
            r@ == old(self).songs(),
            final(self).songs() == final(r)@,
            final(self).order() == old(self).order(),
            final(self).order_index() == old(self).order_index(),
    {
        &mut self._songs
    }

    pub fn playlist_order_ref(&self) -> (r: &Vec<usize>)
        ensures
            r@ == self.order(),
    {
        &self._order
    }

    pub fn playlist_order_mut(&mut self) -> (r: &mut Vec<usize>)
        ensures
            r@ == old(self).order(),
            final(self).order() == final(r)@,
            final(self).songs() == old(self).songs(),
            final(self).order_index() == old(self).order_index(),
    {
        &mut self._order
    }

    /// The index of the song being played: the song index at the order position.
    pub fn get_song_index(&self) -> (r: Option<usize>)
        requires
            self.order_index_in_order(),
        ensures
            r == song_index_at(self.order(), self.order_index()),
    {
        match self._order_index {
            Some(s) => Some(self._order[s]),
            None => None,
        }
    }

    /// Sets the order position to `index` when `index` names a song; otherwise
    /// changes nothing.
    pub fn set_song_index(&mut self, index: usize)
        ensures
            final(self).songs() == old(self).songs(),
            final(self).order() == old(self).order(),
            final(self).order_index() == if index < old(self).songs().len() {
                Some(index)
            } else {
                old(self).order_index()
            },
            old(self).well_formed() ==> final(self).well_formed(),
    {
        if self.len() <= index {
            return ;
        }
        self.set_order_index(Some(index));
    }

    /// Draws a new random play order over all the songs, in which the current
    /// order position holds the song whose index equals that position. That is
    /// the song being played only when the order put it there (as the given
    /// order does); otherwise the song at the position changes.
    pub fn on_spot_shuffle(&mut self)
        requires
            old(self).order_index() matches Some(i) ==> i < old(self).songs().len(),
        ensures
            old(self).shuffled_to(*final(self)),
            song_index_at(final(self).order(), final(self).order_index()) == final(self).order_index(),
            old(self).well_formed() ==> final(self).well_formed(),
    {
        let random_order = shuffled_order(self.len(), self.get_order_index());
        self._order = random_order;
    }

    /// Goes back to playing the songs in their given order; the song being played
    /// stays the one being played.
    pub fn unshuffle(&mut self)
        requires
            old(self).well_formed(),
        ensures
            old(self).unshuffled_to(*final(self)),
            song_index_at(final(self).order(), final(self).order_index()) == song_index_at(
                old(self).order(),
                old(self).order_index(),
            ),
            final(self).well_formed(),
    {
        proof {
            lemma_order_indices_below(self._order@, self._songs@.len());
        }
        let index = self.get_song_index();
        self._order = identity_vec(self._songs.len());
        self._order_index = index;
    }

    pub fn get_order_index(&self) -> (r: Option<usize>)
        ensures
            r == self.order_index(),
    {
        self._order_index
    }

    pub fn set_order_index(&mut self, index: Option<usize>)
        ensures
            final(self).order_index() == index,
            final(self).songs() == old(self).songs(),
            final(self).order() == old(self).order(),
    {
        self._order_index = index;
    }

    /// Moves to the next order position, back to the first after the last; gives
    /// the new position, or nothing (and no change) when no position is set.
    pub fn increment_order_index(&mut self) -> (r: Option<usize>)
        requires
            old(self).order_index() matches Some(i) ==> i < usize::MAX,
        ensures
            final(self).songs() == old(self).songs(),
            final(self).order() == old(self).order(),
            r == match old(self).order_index() {
                Some(i) => Some(next_order_index(i, old(self).songs().len())),
                None => None::<usize>,
            },
            final(self).order_index() == r,
            old(self).well_formed() ==> final(self).well_formed(),
    {
        let order_index = match self.get_order_index() {
            Some(i) => i,
            None => return None,
        };
        let new_order_index = if order_index + 1 < self.len() {
            order_index + 1
        } else {
            0
        };
        self.set_order_index(Some(new_order_index));
        Some(new_order_index)
    }

    /// Moves to the previous order position as the player does it (see
    /// `previous_order_index`); gives the new position, or nothing (and no change)
    /// when no position is set.
    pub fn decrement_order_index(&mut self) -> (r: Option<usize>)
        requires
            old(self).order_index() is Some ==> old(self).songs().len() > 0,
        ensures
            final(self).songs() == old(self).songs(),
            final(self).order() == old(self).order(),
            r == match old(self).order_index() {
                Some(i) => Some(previous_order_index(i, old(self).songs().len())),
                None => None::<usize>,
            },
            final(self).order_index() == r,
            old(self).well_formed() ==> final(self).well_formed(),
    {
        let order_index = match self.get_order_index() {
            Some(i) => i,
            None => return None,
        };
        let new_order_index = if order_index > 1 {
            order_index - 1
        } else {
            self.len() - 1
        };
        self.set_order_index(Some(new_order_index));
        Some(new_order_index)
    }
}

/// `r` is what the playlist holds at the order position: nothing without a
/// position, else the entry there.
pub open spec fn is_entry_at(
    r: Option<OrderedPlaylistEntry>,
    songs: Seq<Song>,
    order: Seq<usize>,
    order_index: Option<usize>,
) -> bool {
    match order_index {
        Some(i) => r matches Some(e) && entry_matches(e, songs, order, i),
        None => r is None,
    }
}

impl PlayerFilePlaylist {
    /// Adds a song at the end; the play order is left as it is.
    pub fn push(&mut self, song: Song)
        ensures
            final(self).songs() == old(self).songs().push(song),
            final(self).order() == old(self).order(),
            final(self).order_index() == old(self).order_index(),
    {
        self._songs.push(song);
    }

    /// Takes out the song at `index`; the play order is left as it is.
    pub fn remove(&mut self, index: usize)
        requires
            index < old(self).songs().len(),
        ensures
            final(self).songs() == old(self).songs().remove(index as int),
            final(self).order() == old(self).order(),
            final(self).order_index() == old(self).order_index(),
    {
        self._songs.remove(index);
    }

    /// Empties the playlist, its play order and its position.
    pub fn clear(&mut self)
        ensures
            final(self).songs().len() == 0,
            final(self).order().len() == 0,
            final(self).order_index() is None,
    {
        self._songs.clear();
        self._order = Vec::new();
        self._order_index = None;
    }

    /// The playlist as clients see it: the same songs, no cursor, and the song
    /// being played as the playing index.
    pub fn clone_file_playlist(&self) -> (p: FilePlaylist)
        requires
            self.order_index_in_order(),
        ensures
            p.list.deep_view() == self.songs().map_values(|s: Song| s.deep_view()),
            p.list@.len() == self.songs().len(),
            p.cursor_index is None,
            p.playing_index == song_index_at(self.order(), self.order_index()),
    {
        let list = self._songs.clone();
        proof {
            assert forall|i: int| 0 <= i < list@.len() implies #[trigger] list@[i].deep_view()
                == self._songs@[i].deep_view() by {
                assert(cloned(self._songs@[i], list@[i]));
            }
            assert(list.deep_view() =~= self._songs.deep_view());
        }
        FilePlaylist { list, cursor_index: None, playing_index: self.get_song_index() }
    }
}

impl PlayerDirectoryPlaylist {
    /// `after` is this playlist with a play order drawn on the spot: the same
    /// songs and position, an order of all the songs, and the position, when
    /// set, holding the song of that index.
    pub open spec fn shuffled_to(&self, after: Self) -> bool {
        &&& after.songs() == self.songs()
        &&& after.order_index() == self.order_index()
        &&& after.order().len() == self.songs().len()
        &&& is_order_of(after.order(), self.songs().len())
        &&& self.order_index() matches Some(i) ==> after.order()[i as int] == i
    }

    /// `after` is this playlist back in its given order, at the position of the
    /// song that was being played.
    pub open spec fn unshuffled_to(&self, after: Self) -> bool {
        &&& after.songs() == self.songs()
        &&& after.order() == identity_order(self.songs().len())
        &&& after.order_index() == song_index_at(self.order(), self.order_index())
    }
}

impl PlayerDirectoryPlaylist {
    /// The songs.
    pub closed spec fn songs(&self) -> Seq<Song> {
        self._songs@
    }

    /// The play order: song indices in the order in which they are played.
    pub closed spec fn order(&self) -> Seq<usize> {
        self._order@
    }

    /// The position in the play order of the song being played.
    pub closed spec fn order_index(&self) -> Option<usize> {
        self._order_index
    }

    /// The order position, when set, names a place in the play order.
    pub open spec fn order_index_in_order(&self) -> bool {
        self.order_index() matches Some(i) ==> i < self.order().len()
    }

    /// The play order is an order of all the songs and the position, when set, is in it.
    pub open spec fn well_formed(&self) -> bool {
        &&& is_order_of(self.order(), self.songs().len())
        &&& self.order().len() == self.songs().len()
        &&& self.order_index_in_order()
    }

    /// A playlist of `songs` played in their given order, with nothing playing.
    pub fn new(songs: Vec<Song>) -> (p: Self)
        ensures
            p.songs() == songs@,
            p.order() == identity_order(songs@.len()),
            p.order_index() is None,
            p.well_formed(),
    {
        let songs_count = songs.len();
        Self { _songs: songs, _order: identity_vec(songs_count), _order_index: None }
    }

    pub fn is_empty(&self) -> (b: bool)
        ensures
            b == (self.songs().len() == 0),
    {
        self._songs.len() == 0
    }

    pub fn len(&self) -> (n: usize)
        ensures
            n == self.songs().len(),
    {
        self._songs.len()
    }

    pub fn songs_ref(&self) -> (r: &Vec<Song>)
        ensures
            r@ == self.songs(),
    {
        &self._songs
    }

    pub fn songs_mut(&mut self) -> (r: &mut Vec<Song>)
        ensures
            r@ == old(self).songs(),
            final(self).songs() == final(r)@,
            final(self).order() == old(self).order(),
            final(self).order_index() == old(self).order_index(),
    {
        &mut self._songs
    }

    pub fn playlist_order_ref(&self) -> (r: &Vec<usize>)
        ensures
            r@ == self.order(),
    {
        &self._order
    }

    pub fn playlist_order_mut(&mut self) -> (r: &mut Vec<usize>)
        ensures
            r@ == old(self).order(),
            final(self).order() == final(r)@,
            final(self).songs() == old(self).songs(),
            final(self).order_index() == old(self).order_index(),
    {
        &mut self._order
    }

    /// The index of the song being played: the song index at the order position.
    pub fn get_song_index(&self) -> (r: Option<usize>)
        requires
            self.order_index_in_order(),
        ensures
            r == song_index_at(self.order(), self.order_index()),
    {
        match self._order_index {
            Some(s) => Some(self._order[s]),
            None => None,
        }
    }

    /// Sets the order position to `index` when `index` names a song; otherwise
    /// changes nothing.
    pub fn set_song_index(&mut self, index: usize)
        ensures
            final(self).songs() == old(self).songs(),
            final(self).order() == old(self).order(),
            final(self).order_index() == if index < old(self).songs().len() {
                Some(index)
            } else {
                old(self).order_index()
            },
            old(self).well_formed() ==> final(self).well_formed(),
    {
        if self.len() <= index {
            return ;
        }
        self.set_order_index(Some(index));
    }

    /// Draws a new random play order over all the songs, in which the current
    /// order position holds the song whose index equals that position. That is
    /// the song being played only when the order put it there (as the given
    /// order does); otherwise the song at the position changes.
    pub fn on_spot_shuffle(&mut self)
        requires
            old(self).order_index() matches Some(i) ==> i < old(self).songs().len(),
        ensures
            old(self).shuffled_to(*final(self)),
            song_index_at(final(self).order(), final(self).order_index()) == final(self).order_index(),
            old(self).well_formed() ==> final(self).well_formed(),
    {
        let random_order = shuffled_order(self.len(), self.get_order_index());
        self._order = random_order;
    }

    /// Goes back to playing the songs in their given order; the song being played
    /// stays the one being played.
    pub fn unshuffle(&mut self)
        requires
            old(self).well_formed(),
        ensures
            old(self).unshuffled_to(*final(self)),
            song_index_at(final(self).order(), final(self).order_index()) == song_index_at(
                old(self).order(),
                old(self).order_index(),
            ),
            final(self).well_formed(),
    {
        proof {
            lemma_order_indices_below(self._order@, self._songs@.len());
        }
        let index = self.get_song_index();
        self._order = identity_vec(self._songs.len());
        self._order_index = index;
    }

    pub fn get_order_index(&self) -> (r: Option<usize>)
        ensures
            r == self.order_index(),
    {
        self._order_index
    }

    pub fn set_order_index(&mut self, index: Option<usize>)
        ensures
            final(self).order_index() == index,
            final(self).songs() == old(self).songs(),
            final(self).order() == old(self).order(),
    {
        self._order_index = index;
    }

    /// Moves to the next order position, back to the first after the last; gives
    /// the new position, or nothing (and no change) when no position is set.
    pub fn increment_order_index(&mut self) -> (r: Option<usize>)
        requires
            old(self).order_index() matches Some(i) ==> i < usize::MAX,
        ensures
            final(self).songs() == old(self).songs(),
            final(self).order() == old(self).order(),
            r == match old(self).order_index() {
                Some(i) => Some(next_order_index(i, old(self).songs().len())),
                None => None::<usize>,
            },
            final(self).order_index() == r,
            old(self).well_formed() ==> final(self).well_formed(),
    {
        let order_index = match self.get_order_index() {
            Some(i) => i,
            None => return None,
        };
        let new_order_index = if order_index + 1 < self.len() {
            order_index + 1
        } else {
            0
        };
        self.set_order_index(Some(new_order_index));
        Some(new_order_index)
    }

    /// Moves to the previous order position as the player does it (see
    /// `previous_order_index`); gives the new position, or nothing (and no change)
    /// when no position is set.
    pub fn decrement_order_index(&mut self) -> (r: Option<usize>)
        requires
            old(self).order_index() is Some ==> old(self).songs().len() > 0,
        ensures
            final(self).songs() == old(self).songs(),
            final(self).order() == old(self).order(),
            r == match old(self).order_index() {
                Some(i) => Some(previous_order_index(i, old(self).songs().len())),
                None => None::<usize>,
            },
            final(self).order_index() == r,
            old(self).well_formed() ==> final(self).well_formed(),
    {
        let order_index = match self.get_order_index() {
            Some(i) => i,
            None => return None,
        };
        let new_order_index = if order_index > 1 {
            order_index - 1
        } else {
            self.len() - 1
        };
        self.set_order_index(Some(new_order_index));
        Some(new_order_index)
    }
}

impl PlayerFilePlaylist {
    /// Every order position names a song.
    pub open spec fn order_in_songs(&self) -> bool {
        forall|k: int| 0 <= k < self.order().len() ==> #[trigger] self.order()[k] < self.songs().len()
    }

    /// The song being played with its place, when a position is set.
    pub fn current_entry_details(&self) -> (r: Option<OrderedPlaylistEntry>)
        requires
            self.order_index_in_order(),
            self.order_in_songs(),
        ensures
            is_entry_at(r, self.songs(), self.order(), self.order_index()),
    {
        match self._order_index {
            Some(order_index) => {
                let entry_index = self._order[order_index];
                Some(
                    OrderedPlaylistEntry {
                        entry_index,
                        order_index,
                        entry: self._songs[entry_index].clone(),
                    },
                )
            },
            None => None,
        }
    }

    /// Moves on to the next song (see `increment_order_index`) and gives it.
    pub fn next_song(&mut self) -> (r: Option<OrderedPlaylistEntry>)
        requires
            old(self).order().len() == old(self).songs().len(),
            old(self).order_index_in_order(),
            old(self).order_in_songs(),
        ensures
            final(self).songs() == old(self).songs(),
            final(self).order() == old(self).order(),
            final(self).order_index() == match old(self).order_index() {
                Some(i) => Some(next_order_index(i, old(self).songs().len())),
                None => None::<usize>,
            },
            is_entry_at(r, final(self).songs(), final(self).order(), final(self).order_index()),
    {
        proof {
            assert(self._order@.len() <= usize::MAX) by {
                vstd::std_specs::vec::axiom_spec_len(&self._order);
            }
        }
        self.increment_order_index();
        self.current_entry_details()
    }

    /// Moves back to the previous song (see `decrement_order_index`) and gives it.
    pub fn previous_song(&mut self) -> (r: Option<OrderedPlaylistEntry>)
        requires
            old(self).order_index() is Some ==> old(self).songs().len() > 0,
            old(self).order().len() == old(self).songs().len(),
            old(self).order_index_in_order(),
            old(self).order_in_songs(),
        ensures
            final(self).songs() == old(self).songs(),
            final(self).order() == old(self).order(),
            final(self).order_index() == match old(self).order_index() {
                Some(i) => Some(previous_order_index(i, old(self).songs().len())),
                None => None::<usize>,
            },
            is_entry_at(r, final(self).songs(), final(self).order(), final(self).order_index()),
    {
        self.decrement_order_index();
        self.current_entry_details()
    }

    /// Whether the song being played is the last of the play order (or nothing is playing).
    pub fn is_end(&self) -> (b: bool)
        ensures
            b == match self.order_index() {
                Some(i) => i + 1 >= self.songs().len(),
                None => true,
            },
    {
        match self._order_index {
            Some(i) => i >= self._songs.len() || i + 1 >= self._songs.len(),
            None => true,
        }
    }

    /// The song at `index`.
    pub fn get_entry(&self, index: usize) -> (r: &Song)
        requires
            index < self.songs().len(),
        ensures
            *r == self.songs()[index as int],
    {
        &self._songs[index]
    }
}

impl PlayerDirectoryPlaylist {
    /// Every order position names a song.
    pub open spec fn order_in_songs(&self) -> bool {
        forall|k: int| 0 <= k < self.order().len() ==> #[trigger] self.order()[k] < self.songs().len()
    }

    /// The song being played with its place, when a position is set.
    pub fn current_entry_details(&self) -> (r: Option<OrderedPlaylistEntry>)
        requires
            self.order_index_in_order(),
            self.order_in_songs(),
        ensures
            is_entry_at(r, self.songs(), self.order(), self.order_index()),
    {
        match self._order_index {
            Some(order_index) => {
                let entry_index = self._order[order_index];
                Some(
                    OrderedPlaylistEntry {
                        entry_index,
                        order_index,
                        entry: self._songs[entry_index].clone(),
                    },
                )
            },
            None => None,
        }
    }

    /// Moves on to the next song (see `increment_order_index`) and gives it.
    pub fn next_song(&mut self) -> (r: Option<OrderedPlaylistEntry>)
        requires
            old(self).order().len() == old(self).songs().len(),
            old(self).order_index_in_order(),
            old(self).order_in_songs(),
        ensures
            final(self).songs() == old(self).songs(),
            final(self).order() == old(self).order(),
            final(self).order_index() == match old(self).order_index() {
                Some(i) => Some(next_order_index(i, old(self).songs().len())),
                None => None::<usize>,
            },
            is_entry_at(r, final(self).songs(), final(self).order(), final(self).order_index()),
    {
        proof {
            assert(self._order@.len() <= usize::MAX) by {
                vstd::std_specs::vec::axiom_spec_len(&self._order);
            }
        }
        self.increment_order_index();
        self.current_entry_details()
    }

    /// Moves back to the previous song (see `decrement_order_index`) and gives it.
    pub fn previous_song(&mut self) -> (r: Option<OrderedPlaylistEntry>)
        requires
            old(self).order_index() is Some ==> old(self).songs().len() > 0,
            old(self).order().len() == old(self).songs().len(),
            old(self).order_index_in_order(),
            old(self).order_in_songs(),
        ensures
            final(self).songs() == old(self).songs(),
            final(self).order() == old(self).order(),
            final(self).order_index() == match old(self).order_index() {
                Some(i) => Some(previous_order_index(i, old(self).songs().len())),
                None => None::<usize>,
            },
            is_entry_at(r, final(self).songs(), final(self).order(), final(self).order_index()),
    {
        self.decrement_order_index();
        self.current_entry_details()
    }

    /// Whether the song being played is the last of the play order (or nothing is playing).
    pub fn is_end(&self) -> (b: bool)
        ensures
            b == match self.order_index() {
                Some(i) => i + 1 >= self.songs().len(),
                None => true,
            },
    {
        match self._order_index {
            Some(i) => i >= self._songs.len() || i + 1 >= self._songs.len(),
            None => true,
        }
    }

    /// The song at `index`.
    pub fn get_entry(&self, index: usize) -> (r: &Song)
        requires
            index < self.songs().len(),
        ensures
            *r == self.songs()[index as int],
    {
        &self._songs[index]
    }
}

} // verus!

verus! {

impl PlayerPlaylist {
    pub fn get_status(&self) -> (s: PlaylistType)
        ensures
            s == self.status,
    {
        self.status
    }

    pub fn set_status(&mut self, status: PlaylistType)
        ensures
            final(self).status == status,
            final(self).file_playlist == old(self).file_playlist,
            final(self).directory_playlist == old(self).directory_playlist,
    {
        self.status = status;
    }

    pub fn file_playlist_ref(&self) -> (r: &PlayerFilePlaylist)
        ensures
            *r == self.file_playlist,
    {
        &self.file_playlist
    }

    pub fn file_playlist_mut(&mut self) -> (r: &mut PlayerFilePlaylist)
        ensures
            *r == old(self).file_playlist,
            final(self).file_playlist == *final(r),
            final(self).directory_playlist == old(self).directory_playlist,
            final(self).status == old(self).status,
    {
        &mut self.file_playlist
    }

    pub fn directory_playlist_ref(&self) -> (r: &PlayerDirectoryPlaylist)
        ensures
            *r == self.directory_playlist,
    {
        &self.directory_playlist
    }

    pub fn directory_playlist_mut(&mut self) -> (r: &mut PlayerDirectoryPlaylist)
        ensures
            *r == old(self).directory_playlist,
            final(self).directory_playlist == *final(r),
            final(self).file_playlist == old(self).file_playlist,
            final(self).status == old(self).status,
    {
        &mut self.directory_playlist
    }
}

impl core::default::Default for PlayerPlaylist {
    fn default() -> (p: Self)
        ensures
            p.file_playlist.songs().len() == 0,
            p.file_playlist.order().len() == 0,
            p.file_playlist.order_index() is None,
            p.directory_playlist.songs().len() == 0,
            p.directory_playlist.order().len() == 0,
            p.directory_playlist.order_index() is None,
            p.status == PlaylistType::PlaylistFile,
    {
        PlayerPlaylist {
            file_playlist: PlayerFilePlaylist::new(Vec::new()),
            directory_playlist: PlayerDirectoryPlaylist::new(Vec::new()),
            status: PlaylistType::PlaylistFile,
        }
    }
}

/// The order position moves within the playlist: the next and the previous
/// positions of a position in a non-empty playlist are positions of it.
pub proof fn lemma_order_moves_stay_in_playlist(i: usize, len: nat)
    requires
        i < len,
    ensures
        next_order_index(i, len) < len,
        previous_order_index(i, len) < len,
{
}

/// Going back from a position past the second one lands on the position just
/// before it: stepping forward from there returns to where it started, and
/// stepping back from the position after any position but the first returns to it.
pub proof fn lemma_previous_undoes_next(i: usize, len: nat)
    requires
        len < usize::MAX,
    ensures
        1 < i < len ==> previous_order_index(i, len) + 1 == i,
        1 < i < len ==> next_order_index(previous_order_index(i, len), len) == i,
        1 <= i && i + 1 < len ==> previous_order_index(next_order_index(i, len), len) == i,
{
}

/// Going to the next position `len` times from any position comes back to it.
pub proof fn lemma_next_order_index_cycles(i: usize, len: nat, k: nat)
    requires
        i < len,
        len < usize::MAX,
    ensures
        repeat_next(i, len, k) == (i + k) % (len as int),
    decreases k,
{
    if k > 0 {
        lemma_next_order_index_cycles(i, len, (k - 1) as nat);
        let p = repeat_next(i, len, (k - 1) as nat);
        assert(p == (i + k - 1) % (len as int));
        assert(0 <= p < len) by {
            vstd::arithmetic::div_mod::lemma_mod_bound((i + k - 1) as int, len as int);
        }
        if p + 1 < len {
            assert((i + k) % (len as int) == p + 1) by {
                vstd::arithmetic::div_mod::lemma_add_mod_noop((i + k - 1) as int, 1, len as int);
                vstd::arithmetic::div_mod::lemma_small_mod(1, len);
                vstd::arithmetic::div_mod::lemma_small_mod((p + 1) as nat, len);
            }
        } else {
            assert((i + k) % (len as int) == 0) by {
                let a = (i + k - 1) as int;
                let q = a / (len as int);
                vstd::arithmetic::div_mod::lemma_fundamental_div_mod(a, len as int);
                assert(a + 1 == (q + 1) * len) by (nonlinear_arith)
                    requires
                        a == len * q + (len - 1),
                ;
                vstd::arithmetic::div_mod::lemma_mod_multiples_basic(q + 1, len as int);
            }
        }
    } else {
        vstd::arithmetic::div_mod::lemma_small_mod(i as nat, len);
    }
}

/// From the given order, drawing a play order on the spot and then going back
/// to the given order leaves the playlist as it was: the same songs, the given
/// order and the same position.
pub proof fn lemma_unshuffle_undoes_shuffle(
    a: PlayerFilePlaylist,
    b: PlayerFilePlaylist,
    c: PlayerFilePlaylist,
)
    requires
        a.well_formed(),
        a.order() == identity_order(a.songs().len()),
        a.shuffled_to(b),
        b.unshuffled_to(c),
    ensures
        c.songs() == a.songs(),
        c.order() == a.order(),
        c.order_index() == a.order_index(),
{
}

/// The same law for a directory playlist.
pub proof fn lemma_directory_unshuffle_undoes_shuffle(
    a: PlayerDirectoryPlaylist,
    b: PlayerDirectoryPlaylist,
    c: PlayerDirectoryPlaylist,
)
    requires
        a.well_formed(),
        a.order() == identity_order(a.songs().len()),
        a.shuffled_to(b),
        b.unshuffled_to(c),
    ensures
        c.songs() == a.songs(),
        c.order() == a.order(),
        c.order_index() == a.order_index(),
{
}

/// The position reached by `k` steps of `next_order_index` from `i`.
pub open spec fn repeat_next(i: usize, len: nat, k: nat) -> usize
    decreases k,
{
    if k == 0 {
        i
    } else {
        next_order_index(repeat_next(i, len, (k - 1) as nat), len)
    }
}

} // verus!

verus! {

/// The entries of an M3U playlist, read from its text by the `m3u` crate, in
/// order: `Some(path)` for a path entry, `None` for a URL entry.
pub uninterp spec fn m3u_entries(text: Seq<char>) -> Seq<Option<Seq<char>>>;

/// Reads the entries of an M3U playlist from its text with `m3u::Reader::new`
/// and `entries`. The contract claims only that the result is a function of the
/// text, named `m3u_entries`: which lines are comments, which are URLs and how a
/// path line is trimmed is the crate's parser, not stated here. A line that the
/// reader could not read would also come back as `None`; a `&str` gives none.
#[verifier::external_body]
fn read_m3u_entries(text: &str) -> (entries: Vec<Option<String>>)
    ensures
        entries.deep_view() == m3u_entries(text@),
{
    let mut reader = m3u::Reader::new(text.as_bytes());
    reader.entries().map(|entry| match entry {
        Ok(m3u::Entry::Path(p)) => Some(p.to_string_lossy().into_owned()),
        Ok(m3u::Entry::Url(_)) => None,
        Err(_) => None,
    }).collect()
}

/// The songs a playlist file names: its path entries in order, each an
/// absolute path as it is or a relative one under `cwd`; URL entries are left out.
pub open spec fn playlist_entry_paths(
    cwd: Seq<char>,
    entries: Seq<Option<Seq<char>>>,
) -> Seq<Seq<char>>
    decreases entries.len(),
{
    if entries.len() == 0 {
        seq![]
    } else {
        let rest = playlist_entry_paths(cwd, entries.drop_last());
        match entries.last() {
            Some(p) => rest.push(crate::text::path_join(cwd, p)),
            None => rest,
        }
    }
}

/// Resolves the entries of a playlist file against `cwd` (see `playlist_entry_paths`).
pub fn playlist_paths(cwd: &str, entries: &Vec<Option<String>>) -> (paths: Vec<String>)
    ensures
        paths.deep_view() == playlist_entry_paths(cwd@, entries.deep_view()),
{
    let mut paths: Vec<String> = Vec::new();
    let n = entries.len();
    let mut i: usize = 0;
    while i < n
        invariant
            n == entries@.len(),
            i <= n,
            paths.deep_view() == playlist_entry_paths(cwd@, entries.deep_view().take(i as int)),
        decreases n - i,
    {
        proof {
            assert(entries.deep_view().take(i + 1).drop_last() =~= entries.deep_view().take(
                i as int,
            ));
        }
        match &entries[i] {
            Some(p) => {
                let full = crate::text::join_path(cwd, p.as_str());
                let ghost before = paths.deep_view();
                paths.push(full);
                proof {
                    assert(paths.deep_view() =~= before.push(full@));
                }
            },
            None => {},
        }
        i = i + 1;
    }
    proof {
        assert(entries.deep_view().take(n as int) =~= entries.deep_view());
    }
    paths
}

/// The songs that a playlist file's text names, resolved against `cwd`: its
/// M3U entries as the `m3u` crate reads them, then `playlist_paths`.
pub fn read_playlist_paths(cwd: &str, text: &str) -> (paths: Vec<String>)
    ensures
        paths.deep_view() == playlist_entry_paths(cwd@, m3u_entries(text@)),
{
    let entries = read_m3u_entries(text);
    playlist_paths(cwd, &entries)
}

} // verus!
