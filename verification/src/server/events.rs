use std::sync::mpsc::Sender;

use vstd::prelude::*;

use crate::server::channel::send;
use crate::response::ServerBroadcastEvent;
use crate::song::{PlayDuration, Song};

verus! {

/// What the server's player tells the rest of the server.
#[derive(Clone, Debug)]
pub enum ServerEvent {
    /// The server is shutting down.
    Quit,
    PlayerPlay(Song),
    PlayerPause,
    PlayerResume,
    PlayerRepeatOn,
    PlayerRepeatOff,
    PlayerShuffleOn,
    PlayerShuffleOff,
    PlayerVolumeUpdate(usize),
    PlayerDurationLeft(usize),
    PlayerProgressUpdate(PlayDuration),
    /// The song being played has ended.
    PlayerDone,
}

/// The listeners whose flag is set, in their order.
pub open spec fn flagged<T>(listeners: Seq<T>, flags: Seq<bool>) -> Seq<T>
    decreases listeners.len(),
{
    if listeners.len() == 0 {
        seq![]
    } else {
        let rest = flagged(listeners.drop_last(), flags.take(listeners.len() - 1));
        if flags[listeners.len() - 1] {
            rest.push(listeners.last())
        } else {
            rest
        }
    }
}

/// Keeps, in their order, the listeners that took the event (`sent[i]` tells
/// whether listener `i` did) and drops the others.
pub fn kept_listeners(listeners: Vec<Sender<ServerEvent>>, sent: &[bool]) -> (kept: Vec<
    Sender<ServerEvent>,
>)
    requires
        sent@.len() == listeners@.len(),
    ensures
        kept@ == flagged(listeners@, sent@),
{
    let ghost orig = listeners@;
    let mut rest = listeners;
    let mut kept: Vec<Sender<ServerEvent>> = Vec::new();
    let n = sent.len();
    let mut i: usize = 0;
    while i < n
        invariant
            n == sent@.len(),
            n == orig.len(),
            i <= n,
            rest@ == orig.skip(i as int),
            kept@ == flagged(orig.take(i as int), sent@.take(i as int)),
        decreases n - i,
    {
        let tx = rest.remove(0);
        proof {
            assert(tx == orig[i as int]);
            let t = orig.take(i + 1);
            assert(t.drop_last() =~= orig.take(i as int));
            assert(sent@.take(i + 1).take(i as int) =~= sent@.take(i as int));
            assert(t.last() == orig[i as int]);
        }
        if sent[i] {
            kept.push(tx);
        }
        i = i + 1;
        proof {
            assert(rest@ =~= orig.skip(i as int));
        }
    }
    proof {
        assert(orig.take(n as int) =~= orig);
        assert(sent@.take(n as int) =~= sent@);
    }
    kept
}

/// Sends `event` to every listener and keeps, in their order, the listeners that
/// took it (see `kept_listeners`); a listener whose channel is closed is dropped.
/// Which listeners take it is up to their receiving ends.
pub fn broadcast_event(listeners: Vec<Sender<ServerEvent>>, event: &ServerEvent) -> (kept: Vec<
    Sender<ServerEvent>,
>)
    ensures
        exists|sent: Seq<bool>|
            sent.len() == listeners@.len() && kept@ == #[trigger] flagged(listeners@, sent),
{
    let mut sent: Vec<bool> = Vec::new();
    let n = listeners.len();
    let mut i: usize = 0;
    while i < n
        invariant
            n == listeners@.len(),
            i <= n,
            sent@.len() == i,
        decreases n - i,
    {
        let ok = send(&listeners[i], event.clone()).is_ok();
        sent.push(ok);
        i = i + 1;
    }
    let kept = kept_listeners(listeners, sent.as_slice());
    proof {
        assert(flagged(listeners@, sent@) == kept@);
    }
    kept
}

/// What the clients are told of a server event: the player's changes as they
/// are, none of its notices to itself (the time left, the end of a song).
pub open spec fn told_to_clients(event: ServerEvent, told: Option<ServerBroadcastEvent>) -> bool {
    match event {
        ServerEvent::Quit => told matches Some(ServerBroadcastEvent::ServerQuit),
        ServerEvent::PlayerPlay(song) => told matches Some(ServerBroadcastEvent::PlayerFilePlay { file })
            && file.deep_view() == song.deep_view(),
        ServerEvent::PlayerPause => told matches Some(ServerBroadcastEvent::PlayerPause),
        ServerEvent::PlayerResume => told matches Some(ServerBroadcastEvent::PlayerResume),
        ServerEvent::PlayerRepeatOn => told matches Some(ServerBroadcastEvent::PlayerRepeat { on }) && on,
        ServerEvent::PlayerRepeatOff => told matches Some(ServerBroadcastEvent::PlayerRepeat { on }) && !on,
        ServerEvent::PlayerShuffleOn => told matches Some(ServerBroadcastEvent::PlayerShuffle { on }) && on,
        ServerEvent::PlayerShuffleOff => told matches Some(ServerBroadcastEvent::PlayerShuffle { on }) && !on,
        ServerEvent::PlayerVolumeUpdate(v) => told matches Some(
            ServerBroadcastEvent::PlayerVolumeUpdate { volume },
        ) && volume == v,
        ServerEvent::PlayerProgressUpdate(d) => told matches Some(
            ServerBroadcastEvent::PlayerProgressUpdate { elapsed },
        ) && elapsed == d,
        ServerEvent::PlayerDurationLeft(_) => told is None,
        ServerEvent::PlayerDone => told is None,
    }
}

/// The event that the clients are told of a server event, if any (see `told_to_clients`).
pub fn client_event(event: &ServerEvent) -> (r: Option<ServerBroadcastEvent>)
    ensures
        told_to_clients(*event, r),
{
    match event {
        ServerEvent::Quit => Some(ServerBroadcastEvent::ServerQuit),
        ServerEvent::PlayerPlay(song) => Some(ServerBroadcastEvent::PlayerFilePlay { file: song.clone() }),
        ServerEvent::PlayerPause => Some(ServerBroadcastEvent::PlayerPause),
        ServerEvent::PlayerResume => Some(ServerBroadcastEvent::PlayerResume),
        ServerEvent::PlayerRepeatOn => Some(ServerBroadcastEvent::PlayerRepeat { on: true }),
        ServerEvent::PlayerRepeatOff => Some(ServerBroadcastEvent::PlayerRepeat { on: false }),
        ServerEvent::PlayerShuffleOn => Some(ServerBroadcastEvent::PlayerShuffle { on: true }),
        ServerEvent::PlayerShuffleOff => Some(ServerBroadcastEvent::PlayerShuffle { on: false }),
        ServerEvent::PlayerVolumeUpdate(v) => Some(ServerBroadcastEvent::PlayerVolumeUpdate { volume: *v }),
        ServerEvent::PlayerProgressUpdate(d) => Some(ServerBroadcastEvent::PlayerProgressUpdate { elapsed: *d }),
        ServerEvent::PlayerDurationLeft(_) => None,
        ServerEvent::PlayerDone => None,
    }
}

} // verus!
