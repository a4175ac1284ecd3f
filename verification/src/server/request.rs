use vstd::prelude::*;

use crate::song::{PlayDuration, Song, SongView};

verus! {

/// What the player asks of the thread that drives the audio stream.
#[derive(Clone, Debug)]
pub enum PlayerRequest {
    Play(Song),
    Pause,
    Resume,
    Stop,
    /// The volume in percent; the stream plays at `volume / 100` of full scale.
    SetVolume(usize),
    FastForward(PlayDuration),
    Rewind(PlayDuration),
}

/// A request to the stream thread, seen as plain values.
pub enum RequestView {
    Play(SongView),
    Pause,
    Resume,
    Stop,
    SetVolume(usize),
    FastForward(PlayDuration),
    Rewind(PlayDuration),
}

/// How a request is seen in contracts.
pub open spec fn request_view(r: PlayerRequest) -> RequestView {
    match r {
        PlayerRequest::Play(song) => RequestView::Play(song.deep_view()),
        PlayerRequest::Pause => RequestView::Pause,
        PlayerRequest::Resume => RequestView::Resume,
        PlayerRequest::Stop => RequestView::Stop,
        PlayerRequest::SetVolume(v) => RequestView::SetVolume(v),
        PlayerRequest::FastForward(d) => RequestView::FastForward(d),
        PlayerRequest::Rewind(d) => RequestView::Rewind(d),
    }
}

} // verus!

verus! {

/// What the audio stream reports to the player stream thread.
#[derive(Clone, Copy, Debug, PartialEq, Eq, Structural)]
pub enum StreamEvent {
    Progress(PlayDuration),
    StreamEnded,
}

} // verus!
