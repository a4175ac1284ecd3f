use std::sync::mpsc::{Receiver, Sender};

use vstd::prelude::*;

use crate::error::{DiziError, DiziErrorKind, DiziResult};
use crate::player::{PlayerState, PlayerStatus};
use crate::playlist::{FilePlaylist, PlaylistType};
use crate::server::channel::{recv, send};
use crate::server::config::general::AppConfig;
use crate::server::context::{
    active_order, active_order_index, active_songs, context_well_formed, PlaylistContext,
};
use crate::server::playlist::{
    entry_matches, identity_order, is_entry_at, song_index_at, PlayerDirectoryPlaylist,
    PlayerFilePlaylist,
};
use crate::server::request::{request_view, PlayerRequest, RequestView};
use crate::song::{PlayDuration, Song};
use crate::text::{lowercase, to_lowercase};

verus! {

/// The player of the server: its state, its playlists, and the channels to the
/// thread that drives the audio stream. Each request to that thread is answered
/// on the response channel.
pub struct SymphoniaPlayer {
    state: PlayerState,
    playlist_context: PlaylistContext,
    player_req_tx: Sender<PlayerRequest>,
    player_res_rx: Receiver<DiziResult>,
    /// The requests handed to the stream thread so far, in order.
    sent: Ghost<Seq<RequestView>>,
}

/// `b` differs from `a` at most in the status, the song and the playlist kind.
pub open spec fn same_settings(a: PlayerState, b: PlayerState) -> bool {
    &&& b.elapsed == a.elapsed
    &&& b.volume == a.volume
    &&& b.next == a.next
    &&& b.repeat == a.repeat
    &&& b.shuffle == a.shuffle
    &&& b.playlist == a.playlist
    &&& b.audio_host == a.audio_host
}

/// `b` plays `song`: the player is playing it; its settings are those of `a`.
pub open spec fn now_playing(a: PlayerState, b: PlayerState, song: Song) -> bool {
    &&& same_settings(a, b)
    &&& b.status == PlayerStatus::Playing
    &&& b.song matches Some(s) && s.deep_view() == song.deep_view()
    &&& b.playlist_status == a.playlist_status
}

/// The requests that playing `song` hands to the stream thread: the song, then
/// the current volume once the song has been taken.
pub open spec fn play_requests(song: Song, volume: usize) -> Seq<RequestView> {
    seq![RequestView::Play(song.deep_view()), RequestView::SetVolume(volume)]
}

/// `after` is `before` with the requests of playing `song`: both when it was
/// played, else the song alone (the stream thread did not take it) or both (the
/// volume was not taken).
pub open spec fn sent_play(
    before: Seq<RequestView>,
    after: Seq<RequestView>,
    song: Song,
    volume: usize,
    ok: bool,
) -> bool {
    if ok {
        after == before + play_requests(song, volume)
    } else {
        after == before.push(RequestView::Play(song.deep_view())) || after == before
            + play_requests(song, volume)
    }
}

fn send_failed(cause: String) -> (e: DiziError)
    ensures
        e.kind == DiziErrorKind::SendError,
        e.cause == cause,
{
    DiziError::new(DiziErrorKind::SendError, cause)
}

fn receive_failed(cause: String) -> (e: DiziError)
    ensures
        e.kind == DiziErrorKind::ReceiveError,
        e.cause == cause,
{
    DiziError::new(DiziErrorKind::ReceiveError, cause)
}

impl SymphoniaPlayer {
    /// The player state.
    pub closed spec fn state(&self) -> PlayerState {
        self.state
    }

    /// The playlists.
    pub closed spec fn context(&self) -> PlaylistContext {
        self.playlist_context
    }

    /// The requests handed to the stream thread so far, in order.
    pub closed spec fn sent(&self) -> Seq<RequestView> {
        self.sent@
    }

    /// Both playlists are well formed.
    pub open spec fn wf(&self) -> bool {
        context_well_formed(self.context())
    }

    /// A stopped player with the configured options, playing through the named
    /// audio host, with `file_playlist` as its playlist; requests go out on
    /// `player_req_tx` and their answers come in on `player_res_rx`.
    pub fn with_channels(
        config: &AppConfig,
        audio_host: &str,
        file_playlist: PlayerFilePlaylist,
        player_req_tx: Sender<PlayerRequest>,
        player_res_rx: Receiver<DiziResult>,
    ) -> (p: Self)
        requires
            file_playlist.well_formed(),
        ensures
            p.wf(),
            p.state().next == config.server().player.next,
            p.state().repeat == config.server().player.repeat,
            p.state().shuffle == config.server().player.shuffle,
            p.state().audio_host@ == lowercase(audio_host@),
            p.state().song is None,
            p.state().status == PlayerStatus::Stopped,
            p.state().playlist_status == PlaylistType::PlaylistFile,
            p.state().volume == 50,
            p.state().elapsed == (PlayDuration { secs: 0, nanos: 0 }),
            p.context().file_playlist == file_playlist,
            p.context().directory_playlist.songs().len() == 0,
            p.context()._type == PlaylistType::PlaylistFile,
            p.sent().len() == 0,
    {
        let player_config = config.server_ref().player_ref();
        let mut playlist_context = PlaylistContext::default();
        playlist_context.file_playlist = file_playlist;
        let mut state = PlayerState::default();
        state.next = player_config.next;
        state.repeat = player_config.repeat;
        state.shuffle = player_config.shuffle;
        state.audio_host = to_lowercase(audio_host);
        SymphoniaPlayer {
            state,
            playlist_context,
            player_req_tx,
            player_res_rx,
            sent: Ghost(Seq::empty()),
        }
    }

    /// Hands a request to the stream thread and waits for its answer.
    fn request(&mut self, req: PlayerRequest) -> (r: DiziResult)
        ensures
            final(self).state() == old(self).state(),
            final(self).context() == old(self).context(),
            final(self).sent() == old(self).sent().push(request_view(req)),
    {
        self.sent = Ghost(self.sent@.push(request_view(req)));
        match send(&self.player_req_tx, req) {
            Ok(()) => {},
            Err(e) => return Err(send_failed(e)),
        }
        match recv(&self.player_res_rx) {
            Ok(res) => res,
            Err(e) => Err(receive_failed(e)),
        }
    }

    /// Asks the stream thread to play `song`; once it has taken the song, sets
    /// the stream to the current volume, and records the song as playing.
    fn play(&mut self, song: &Song) -> (r: DiziResult)
        ensures
            final(self).context() == old(self).context(),
            r is Ok ==> now_playing(old(self).state(), final(self).state(), *song),
            r is Err ==> final(self).state() == old(self).state(),
            sent_play(old(self).sent(), final(self).sent(), *song, old(self).state().volume, r is Ok),
    {
        let ghost before = self.sent();
        self.request(PlayerRequest::Play(song.clone()))?;
        let volume = self.get_volume();
        let res = self.set_volume(volume);
        proof {
            assert(self.sent() =~= before + play_requests(*song, volume));
        }
        res?;
        self.state.status = PlayerStatus::Playing;
        self.state.song = Some(song.clone());
        Ok(())
    }

    /// The player state as clients see it: the state, with the playlist file as
    /// clients see it (see `PlayerFilePlaylist::clone_file_playlist`).
    pub fn player_state(&self) -> (s: PlayerState)
        requires
            self.wf(),
        ensures
            s.song.deep_view() == self.state().song.deep_view(),
            s.elapsed == self.state().elapsed,
            s.status == self.state().status,
            s.playlist_status == self.state().playlist_status,
            s.volume == self.state().volume,
            s.next == self.state().next,
            s.repeat == self.state().repeat,
            s.shuffle == self.state().shuffle,
            s.audio_host == self.state().audio_host,
            s.playlist.list.deep_view() == self.context().file_playlist.songs().map_values(
                |x: Song| x.deep_view(),
            ),
            s.playlist.cursor_index is None,
            s.playlist.playing_index == song_index_at(
                self.context().file_playlist.order(),
                self.context().file_playlist.order_index(),
            ),
    {
        let mut state = self.state.clone();
        state.playlist = self.playlist_context.file_playlist.clone_file_playlist();
        state
    }

    /// Stops the stream, asking the stream thread first.
    pub fn stop(&mut self) -> (r: DiziResult)
        ensures
            final(self).context() == old(self).context(),
            r is Ok ==> final(self).state() == (PlayerState {
                status: PlayerStatus::Stopped,
                ..old(self).state()
            }),
            r is Err ==> final(self).state() == old(self).state(),
            final(self).sent() == old(self).sent().push(RequestView::Stop),
    {
        self.request(PlayerRequest::Stop)?;
        self.state.status = PlayerStatus::Stopped;
        Ok(())
    }

    /// Pauses the stream, asking the stream thread first.
    pub fn pause(&mut self) -> (r: DiziResult)
        ensures
            final(self).sent() == old(self).sent().push(RequestView::Pause),
            final(self).context() == old(self).context(),
            r is Ok ==> final(self).state() == (PlayerState {
                status: PlayerStatus::Paused,
                ..old(self).state()
            }),
            r is Err ==> final(self).state() == old(self).state(),
    {
        self.request(PlayerRequest::Pause)?;
        self.state.status = PlayerStatus::Paused;
        Ok(())
    }

    /// Resumes the stream, asking the stream thread first.
    pub fn resume(&mut self) -> (r: DiziResult)
        ensures
            final(self).sent() == old(self).sent().push(RequestView::Resume),
            final(self).context() == old(self).context(),
            r is Ok ==> final(self).state() == (PlayerState {
                status: PlayerStatus::Playing,
                ..old(self).state()
            }),
            r is Err ==> final(self).state() == old(self).state(),
    {
        self.request(PlayerRequest::Resume)?;
        self.state.status = PlayerStatus::Playing;
        Ok(())
    }

    /// Pauses a playing player, resumes a paused one, and leaves a stopped one
    /// stopped; gives the new status.
    pub fn toggle_play(&mut self) -> (r: DiziResult<PlayerStatus>)
        ensures
            final(self).context() == old(self).context(),
            match old(self).state().status {
                PlayerStatus::Playing => match r {
                    Ok(s) => s == PlayerStatus::Paused && final(self).state() == (PlayerState {
                        status: PlayerStatus::Paused,
                        ..old(self).state()
                    }),
                    Err(_) => final(self).state() == old(self).state(),
                },
                PlayerStatus::Paused => match r {
                    Ok(s) => s == PlayerStatus::Playing && final(self).state() == (PlayerState {
                        status: PlayerStatus::Playing,
                        ..old(self).state()
                    }),
                    Err(_) => final(self).state() == old(self).state(),
                },
                PlayerStatus::Stopped => r matches Ok(s) && s == PlayerStatus::Stopped
                    && final(self).state() == old(self).state(),
            },
            final(self).sent() == match old(self).state().status {
                PlayerStatus::Playing => old(self).sent().push(RequestView::Pause),
                PlayerStatus::Paused => old(self).sent().push(RequestView::Resume),
                PlayerStatus::Stopped => old(self).sent(),
            },
    {
        match self.state.status {
            PlayerStatus::Playing => {
                self.pause()?;
                Ok(PlayerStatus::Paused)
            },
            PlayerStatus::Paused => {
                self.resume()?;
                Ok(PlayerStatus::Playing)
            },
            s => Ok(s),
        }
    }

    /// The volume in percent.
    pub fn get_volume(&self) -> (v: usize)
        ensures
            v == self.state().volume,
    {
        self.state.volume
    }

    /// Sets the volume (in percent), asking the stream thread first.
    pub fn set_volume(&mut self, volume: usize) -> (r: DiziResult)
        ensures
            final(self).context() == old(self).context(),
            r is Ok ==> final(self).state() == (PlayerState { volume, ..old(self).state() }),
            r is Err ==> final(self).state() == old(self).state(),
            final(self).sent() == old(self).sent().push(RequestView::SetVolume(volume)),
    {
        self.request(PlayerRequest::SetVolume(volume))?;
        self.state.volume = volume;
        Ok(())
    }

    pub fn next_enabled(&self) -> (b: bool)
        ensures
            b == self.state().next,
    {
        self.state.next
    }

    pub fn repeat_enabled(&self) -> (b: bool)
        ensures
            b == self.state().repeat,
    {
        self.state.repeat
    }

    pub fn shuffle_enabled(&self) -> (b: bool)
        ensures
            b == self.state().shuffle,
    {
        self.state.shuffle
    }

    pub fn set_next(&mut self, next: bool)
        ensures
            final(self).context() == old(self).context(),
            final(self).state() == (PlayerState { next, ..old(self).state() }),
            final(self).sent() == old(self).sent(),
    {
        self.state.next = next;
    }

    pub fn set_repeat(&mut self, repeat: bool)
        ensures
            final(self).context() == old(self).context(),
            final(self).state() == (PlayerState { repeat, ..old(self).state() }),
            final(self).sent() == old(self).sent(),
    {
        self.state.repeat = repeat;
    }

    pub fn get_elapsed(&self) -> (d: PlayDuration)
        ensures
            d == self.state().elapsed,
    {
        self.state.elapsed
    }

    pub fn set_elapsed(&mut self, elapsed: PlayDuration)
        ensures
            final(self).context() == old(self).context(),
            final(self).state() == (PlayerState { elapsed, ..old(self).state() }),
            final(self).sent() == old(self).sent(),
    {
        self.state.elapsed = elapsed;
    }

    pub fn current_song_ref(&self) -> (r: Option<&Song>)
        ensures
            r == match self.state().song {
                Some(s) => Some(&s),
                None => None::<&Song>,
            },
    {
        self.state.song.as_ref()
    }

    pub fn playlist_ref(&self) -> (r: &PlaylistContext)
        ensures
            *r == self.context(),
    {
        &self.playlist_context
    }

    pub fn playlist_mut(&mut self) -> (r: &mut PlaylistContext)
        ensures
            *r == old(self).context(),
            final(self).context() == *final(r),
            final(self).state() == old(self).state(),
            final(self).sent() == old(self).sent(),
    {
        &mut self.playlist_context
    }
}

} // verus!

verus! {

impl SymphoniaPlayer {
    /// Turns shuffling on or off. Turning it on draws new play orders for both
    /// playlists; turning it off puts the playlist file back in its given order
    /// and draws a new order for the directory playlist. The order position stays;
    /// on turning shuffling on, the song at it becomes the one whose index equals
    /// it, which differs from the song being played when the order was already
    /// shuffled. On turning it off, the playlist file keeps its song.
    pub fn set_shuffle(&mut self, shuffle: bool)
        requires
            old(self).wf(),
        ensures
            final(self).wf(),
            final(self).state() == (PlayerState { shuffle, ..old(self).state() }),
            final(self).sent() == old(self).sent(),
            final(self).context()._type == old(self).context()._type,
            final(self).context().file_playlist.songs() == old(self).context().file_playlist.songs(),
            final(self).context().directory_playlist.songs() == old(
                self,
            ).context().directory_playlist.songs(),
            final(self).context().file_playlist.order_index() == if shuffle {
                old(self).context().file_playlist.order_index()
            } else {
                song_index_at(
                    old(self).context().file_playlist.order(),
                    old(self).context().file_playlist.order_index(),
                )
            },
            shuffle ==> song_index_at(
                final(self).context().file_playlist.order(),
                final(self).context().file_playlist.order_index(),
            ) == final(self).context().file_playlist.order_index(),
            !shuffle ==> song_index_at(
                final(self).context().file_playlist.order(),
                final(self).context().file_playlist.order_index(),
            ) == song_index_at(
                old(self).context().file_playlist.order(),
                old(self).context().file_playlist.order_index(),
            ),
            !shuffle ==> final(self).context().file_playlist.order() == identity_order(
                old(self).context().file_playlist.songs().len(),
            ),
    {
        self.state.shuffle = shuffle;
        if self.state.shuffle {
            self.playlist_context.file_playlist.on_spot_shuffle();
            self.playlist_context.directory_playlist.on_spot_shuffle();
        } else {
            self.playlist_context.file_playlist.unshuffle();
            self.playlist_context.directory_playlist.on_spot_shuffle();
        }
    }

    /// Plays the song at `index` of the playlist file: the playlist is put back in
    /// its given order, moved to `index` (when `index` names a song), shuffled
    /// around it when shuffling is on, and its song there is played; the playlist
    /// file becomes the one in use.
    pub fn play_from_playlist(&mut self, index: usize) -> (r: DiziResult)
        requires
            old(self).wf(),
        ensures
            final(self).wf(),
            final(self).context().file_playlist.songs() == old(self).context().file_playlist.songs(),
            final(self).context().directory_playlist == old(self).context().directory_playlist,
            index < old(self).context().file_playlist.songs().len() ==> {
                &&& final(self).context().file_playlist.order_index() == Some(index)
                &&& song_index_at(
                    final(self).context().file_playlist.order(),
                    final(self).context().file_playlist.order_index(),
                ) == Some(index)
                &&& r is Ok ==> {
                    &&& now_playing(
                        PlayerState { playlist_status: PlaylistType::PlaylistFile, ..old(self).state() },
                        final(self).state(),
                        old(self).context().file_playlist.songs()[index as int],
                    )
                    &&& final(self).context()._type == PlaylistType::PlaylistFile
                }
            },
            r is Err ==> final(self).state() == old(self).state(),
            match (if index < old(self).context().file_playlist.songs().len() {
                Some(index)
            } else {
                song_index_at(
                    old(self).context().file_playlist.order(),
                    old(self).context().file_playlist.order_index(),
                )
            }) {
                Some(k) => sent_play(
                    old(self).sent(),
                    final(self).sent(),
                    old(self).context().file_playlist.songs()[k as int],
                    old(self).state().volume,
                    r is Ok,
                ),
                None => r is Ok && final(self).sent() == old(self).sent(),
            },
    {
        let shuffle_enabled = self.shuffle_enabled();
        let playlist = &mut self.playlist_context.file_playlist;
        playlist.unshuffle();
        playlist.set_song_index(index);
        if shuffle_enabled {
            playlist.on_spot_shuffle();
        }
        proof {
            crate::server::playlist::lemma_order_indices_below(playlist.order(), playlist.songs().len());
        }
        if let Some(entry) = playlist.current_entry_details() {
            self.play(&entry.entry)?;
            self.state.playlist_status = PlaylistType::PlaylistFile;
            self.playlist_context.set_type(PlaylistType::PlaylistFile);
        }
        Ok(())
    }

    /// Plays the song at `index` of the directory playlist: the playlist is put back in
    /// its given order, moved to `index` (when `index` names a song), shuffled
    /// around it when shuffling is on, and its song there is played; the directory
    /// playlist becomes the one in use.
    pub fn play_from_directory(&mut self, index: usize) -> (r: DiziResult)
        requires
            old(self).wf(),
        ensures
            final(self).wf(),
            final(self).context().directory_playlist.songs() == old(self).context().directory_playlist.songs(),
            final(self).context().file_playlist == old(self).context().file_playlist,
            index < old(self).context().directory_playlist.songs().len() ==> {
                &&& final(self).context().directory_playlist.order_index() == Some(index)
                &&& song_index_at(
                    final(self).context().directory_playlist.order(),
                    final(self).context().directory_playlist.order_index(),
                ) == Some(index)
                &&& r is Ok ==> {
                    &&& now_playing(
                        PlayerState { playlist_status: PlaylistType::DirectoryListing, ..old(self).state() },
                        final(self).state(),
                        old(self).context().directory_playlist.songs()[index as int],
                    )
                    &&& final(self).context()._type == PlaylistType::DirectoryListing
                }
            },
            r is Err ==> final(self).state() == old(self).state(),
            match (if index < old(self).context().directory_playlist.songs().len() {
                Some(index)
            } else {
                song_index_at(
                    old(self).context().directory_playlist.order(),
                    old(self).context().directory_playlist.order_index(),
                )
            }) {
                Some(k) => sent_play(
                    old(self).sent(),
                    final(self).sent(),
                    old(self).context().directory_playlist.songs()[k as int],
                    old(self).state().volume,
                    r is Ok,
                ),
                None => r is Ok && final(self).sent() == old(self).sent(),
            },
    {
        let shuffle_enabled = self.shuffle_enabled();
        let playlist = &mut self.playlist_context.directory_playlist;
        playlist.unshuffle();
        playlist.set_song_index(index);
        if shuffle_enabled {
            playlist.on_spot_shuffle();
        }
        proof {
            crate::server::playlist::lemma_order_indices_below(playlist.order(), playlist.songs().len());
        }
        if let Some(entry) = playlist.current_entry_details() {
            self.play(&entry.entry)?;
            self.state.playlist_status = PlaylistType::DirectoryListing;
            self.playlist_context.set_type(PlaylistType::DirectoryListing);
        }
        Ok(())
    }

    /// Plays `path` from its directory's songs: the directory playlist becomes
    /// `playlist`, moved to the first song whose file is `path` (no position when
    /// there is none), shuffled around it when shuffling is on; that song is
    /// played, and the directory playlist becomes the one in use.
    pub fn play_directory_playlist(&mut self, playlist: PlayerDirectoryPlaylist, path: &str) -> (r:
        DiziResult)
        requires
            old(self).wf(),
            playlist.well_formed(),
            playlist.order() == identity_order(playlist.songs().len()),
        ensures
            r is Ok ==> final(self).wf(),
            r is Ok ==> final(self).context().directory_playlist.songs() == playlist.songs(),
            r is Ok ==> final(self).context().file_playlist == old(self).context().file_playlist,
            r is Ok ==> final(self).context()._type == PlaylistType::DirectoryListing,
            r is Ok ==> final(self).state().playlist_status == PlaylistType::DirectoryListing,
            r is Ok ==> {
                &&& match first_song_with_path(playlist.songs(), path@) {
                    Some(i) => {
                        &&& final(self).context().directory_playlist.order_index() == Some(i as usize)
                        &&& now_playing(
                            PlayerState {
                                playlist_status: PlaylistType::DirectoryListing,
                                ..old(self).state()
                            },
                            final(self).state(),
                            playlist.songs()[i],
                        )
                    },
                    None => {
                        &&& final(self).context().directory_playlist.order_index() is None
                        &&& final(self).state() == (PlayerState {
                            playlist_status: PlaylistType::DirectoryListing,
                            ..old(self).state()
                        })
                    },
                }
            },
            r is Err ==> final(self).state() == old(self).state() && final(self).context()
                == old(self).context(),
            match first_song_with_path(playlist.songs(), path@) {
                Some(i) => sent_play(
                    old(self).sent(),
                    final(self).sent(),
                    playlist.songs()[i],
                    old(self).state().volume,
                    r is Ok,
                ),
                None => r is Ok && final(self).sent() == old(self).sent(),
            },
    {
        let mut playlist = playlist;
        let index = find_song_with_path(playlist.songs_ref(), path);
        playlist.set_order_index(index);
        if self.shuffle_enabled() {
            playlist.on_spot_shuffle();
        }
        proof {
            crate::server::playlist::lemma_order_indices_below(playlist.order(), playlist.songs().len());
        }
        let ghost p = playlist;
        if let Some(entry) = playlist.current_entry_details() {
            self.play(&entry.entry)?;
        }
        self.playlist_context.directory_playlist = playlist;
        self.state.playlist_status = PlaylistType::DirectoryListing;
        self.playlist_context.set_type(PlaylistType::DirectoryListing);
        proof {
            if let Some(i) = first_song_with_path(p.songs(), path@) {
                assert(index.unwrap() as int == i);
            }
        }
        Ok(())
    }

    /// Plays again the song being played in the playlist in use.
    pub fn play_again(&mut self) -> (r: DiziResult)
        requires
            old(self).wf(),
        ensures
            final(self).context() == old(self).context(),
            match active_order_index(old(self).context()) {
                Some(i) => r is Ok ==> now_playing(
                    old(self).state(),
                    final(self).state(),
                    active_songs(old(self).context())[active_order(old(self).context())[i as int] as int],
                ),
                None => r is Ok && final(self).state() == old(self).state(),
            },
            r is Err ==> final(self).state() == old(self).state(),
            match active_order_index(old(self).context()) {
                Some(i) => sent_play(
                    old(self).sent(),
                    final(self).sent(),
                    active_songs(old(self).context())[active_order(old(self).context())[i as int] as int],
                    old(self).state().volume,
                    r is Ok,
                ),
                None => final(self).sent() == old(self).sent(),
            },
    {
        if let Some(entry) = self.playlist_context.get_current_entry() {
            self.play(&entry.entry)?;
        }
        Ok(())
    }

    /// Moves the playlist in use on to its next song and plays it.
    pub fn play_next(&mut self) -> (r: DiziResult)
        requires
            old(self).wf(),
        ensures
            final(self).wf(),
            final(self).context()._type == old(self).context()._type,
            active_songs(final(self).context()) == active_songs(old(self).context()),
            active_order(final(self).context()) == active_order(old(self).context()),
            active_order_index(final(self).context()) == match active_order_index(old(self).context()) {
                Some(i) => Some(
                    crate::server::playlist::next_order_index(i, active_songs(old(self).context()).len()),
                ),
                None => None::<usize>,
            },
            match active_order_index(final(self).context()) {
                Some(j) => r is Ok ==> now_playing(
                    old(self).state(),
                    final(self).state(),
                    active_songs(old(self).context())[active_order(old(self).context())[j as int] as int],
                ),
                None => r is Ok && final(self).state() == old(self).state(),
            },
            r is Err ==> final(self).state() == old(self).state(),
            match active_order_index(final(self).context()) {
                Some(j) => sent_play(
                    old(self).sent(),
                    final(self).sent(),
                    active_songs(old(self).context())[active_order(old(self).context())[j as int] as int],
                    old(self).state().volume,
                    r is Ok,
                ),
                None => final(self).sent() == old(self).sent(),
            },
    {
        if let Some(entry) = self.playlist_context.next_song() {
            self.play(&entry.entry)?;
        }
        Ok(())
    }

    /// Moves the playlist in use back to its previous song and plays it.
    pub fn play_previous(&mut self) -> (r: DiziResult)
        requires
            old(self).wf(),
        ensures
            final(self).wf(),
            final(self).context()._type == old(self).context()._type,
            active_songs(final(self).context()) == active_songs(old(self).context()),
            active_order(final(self).context()) == active_order(old(self).context()),
            active_order_index(final(self).context()) == match active_order_index(old(self).context()) {
                Some(i) => Some(
                    crate::server::playlist::previous_order_index(
                        i,
                        active_songs(old(self).context()).len(),
                    ),
                ),
                None => None::<usize>,
            },
            match active_order_index(final(self).context()) {
                Some(j) => r is Ok ==> now_playing(
                    old(self).state(),
                    final(self).state(),
                    active_songs(old(self).context())[active_order(old(self).context())[j as int] as int],
                ),
                None => r is Ok && final(self).state() == old(self).state(),
            },
            r is Err ==> final(self).state() == old(self).state(),
            match active_order_index(final(self).context()) {
                Some(j) => sent_play(
                    old(self).sent(),
                    final(self).sent(),
                    active_songs(old(self).context())[active_order(old(self).context())[j as int] as int],
                    old(self).state().volume,
                    r is Ok,
                ),
                None => final(self).sent() == old(self).sent(),
            },
    {
        if let Some(entry) = self.playlist_context.previous_song() {
            self.play(&entry.entry)?;
        }
        Ok(())
    }
}

/// The index of the first song whose file is `path`.
pub open spec fn first_song_with_path(songs: Seq<Song>, path: Seq<char>) -> Option<int> {
    if exists|i: int| 0 <= i < songs.len() && #[trigger] songs[i].file_path@ == path {
        Some(
            choose|i: int|
                0 <= i < songs.len() && #[trigger] songs[i].file_path@ == path && forall|j: int|
                    0 <= j < i ==> songs[j].file_path@ != path,
        )
    } else {
        None
    }
}

/// Finds the first song whose file is `path`.
pub fn find_song_with_path(songs: &Vec<Song>, path: &str) -> (r: Option<usize>)
    ensures
        match first_song_with_path(songs@, path@) {
            Some(i) => r matches Some(k) && k as int == i && 0 <= i < songs@.len(),
            None => r is None,
        },
{
    let n = songs.len();
    let mut i: usize = 0;
    while i < n
        invariant
            n == songs@.len(),
            i <= n,
            forall|j: int| 0 <= j < i ==> songs@[j].file_path@ != path@,
        decreases n - i,
    {
        if crate::text::str_eq(songs[i].file_path(), path) {
            proof {
                let k = choose|k: int|
                    0 <= k < songs@.len() && #[trigger] songs@[k].file_path@ == path@ && forall|j: int|
                        0 <= j < k ==> songs@[j].file_path@ != path@;
                assert(songs@[i as int].file_path@ == path@);
                if k < i {
                } else if k > i {
                }
            }
            return Some(i);
        }
        i = i + 1;
    }
    None
}

} // verus!
