//! The decisions of the thread that drives the audio stream: what it does on a
//! request of the player or on an event of the stream it plays.

use vstd::prelude::*;

use crate::server::events::ServerEvent;
use crate::server::request::{PlayerRequest, StreamEvent};
use crate::song::PlayDuration;

verus! {

/// What reaches the audio stream thread: a request of the player, or an event
/// of the stream being played.
#[derive(Clone, Debug)]
pub enum PlayerStreamEvent {
    Stream(StreamEvent),
    Player(PlayerRequest),
}

/// One thing that the audio stream thread does.
#[derive(Clone, Debug)]
pub enum StreamAction {
    /// Open the file at this path, decode it and start a stream of it, which
    /// becomes the current stream; answer the player with how that went.
    StartStream(String),
    /// Pause the current stream.
    PauseStream,
    /// Resume the current stream.
    ResumeStream,
    /// Drop the current stream, which stops it.
    DropStream,
    /// Hand this request to the playback loop of the current stream.
    Forward(PlayerRequest),
    /// Answer the player that its request was carried out.
    ReplyOk,
    /// Tell the server this.
    Notify(ServerEvent),
}

/// The spec view of what the thread does, in order.
pub enum ActionView {
    StartStream(Seq<char>),
    PauseStream,
    ResumeStream,
    DropStream,
    ForwardVolume(usize),
    ForwardFastForward(PlayDuration),
    ForwardRewind(PlayDuration),
    ReplyOk,
    NotifyDone,
    NotifyProgress(PlayDuration),
    Other,
}

/// How an action is seen in contracts.
pub open spec fn action_view(a: StreamAction) -> ActionView {
    match a {
        StreamAction::StartStream(p) => ActionView::StartStream(p@),
        StreamAction::PauseStream => ActionView::PauseStream,
        StreamAction::ResumeStream => ActionView::ResumeStream,
        StreamAction::DropStream => ActionView::DropStream,
        StreamAction::Forward(PlayerRequest::SetVolume(v)) => ActionView::ForwardVolume(v),
        StreamAction::Forward(PlayerRequest::FastForward(d)) => ActionView::ForwardFastForward(d),
        StreamAction::Forward(PlayerRequest::Rewind(d)) => ActionView::ForwardRewind(d),
        StreamAction::ReplyOk => ActionView::ReplyOk,
        StreamAction::Notify(ServerEvent::PlayerDone) => ActionView::NotifyDone,
        StreamAction::Notify(ServerEvent::PlayerProgressUpdate(d)) => ActionView::NotifyProgress(d),
        _ => ActionView::Other,
    }
}

/// The actions, seen as values.
pub open spec fn actions_view(s: Seq<StreamAction>) -> Seq<ActionView> {
    s.map_values(|a: StreamAction| action_view(a))
}

/// What the thread does on an event when a stream is current (`active`) or not.
/// A new song starts a stream; pausing, resuming and stopping act on the
/// current stream and are answered; a volume change, a fast-forward or a rewind
/// is handed to the current stream's playback loop, and only the volume change
/// is answered. When the stream ends it is dropped and the server told; its
/// progress is passed on to the server.
pub open spec fn stream_plan(active: bool, event: PlayerStreamEvent) -> Seq<ActionView> {
    match event {
        PlayerStreamEvent::Player(req) => match req {
            PlayerRequest::Play(song) => seq![ActionView::StartStream(song.file_path@)],
            PlayerRequest::Pause => if active {
                seq![ActionView::PauseStream, ActionView::ReplyOk]
            } else {
                seq![ActionView::ReplyOk]
            },
            PlayerRequest::Resume => if active {
                seq![ActionView::ResumeStream, ActionView::ReplyOk]
            } else {
                seq![ActionView::ReplyOk]
            },
            PlayerRequest::Stop => seq![ActionView::DropStream, ActionView::ReplyOk],
            PlayerRequest::SetVolume(v) => if active {
                seq![ActionView::ForwardVolume(v), ActionView::ReplyOk]
            } else {
                seq![ActionView::ReplyOk]
            },
            PlayerRequest::FastForward(d) => if active {
                seq![ActionView::ForwardFastForward(d)]
            } else {
                seq![]
            },
            PlayerRequest::Rewind(d) => if active {
                seq![ActionView::ForwardRewind(d)]
            } else {
                seq![]
            },
        },
        PlayerStreamEvent::Stream(StreamEvent::StreamEnded) => seq![
            ActionView::DropStream,
            ActionView::NotifyDone,
        ],
        PlayerStreamEvent::Stream(StreamEvent::Progress(d)) => seq![ActionView::NotifyProgress(d)],
    }
}

/// Decides what the audio stream thread does on `event` (see `stream_plan`).
pub fn stream_step(active: bool, event: PlayerStreamEvent) -> (actions: Vec<StreamAction>)
    ensures
        actions_view(actions@) == stream_plan(active, event),
{
    let mut actions: Vec<StreamAction> = Vec::new();
    match event {
        PlayerStreamEvent::Player(req) => match req {
            PlayerRequest::Play(song) => {
                actions.push(StreamAction::StartStream(song.file_path));
            },
            PlayerRequest::Pause => {
                if active {
                    actions.push(StreamAction::PauseStream);
                }
                actions.push(StreamAction::ReplyOk);
            },
            PlayerRequest::Resume => {
                if active {
                    actions.push(StreamAction::ResumeStream);
                }
                actions.push(StreamAction::ReplyOk);
            },
            PlayerRequest::Stop => {
                actions.push(StreamAction::DropStream);
                actions.push(StreamAction::ReplyOk);
            },
            PlayerRequest::SetVolume(v) => {
                if active {
                    actions.push(StreamAction::Forward(PlayerRequest::SetVolume(v)));
                }
                actions.push(StreamAction::ReplyOk);
            },
            PlayerRequest::FastForward(d) => {
                if active {
                    actions.push(StreamAction::Forward(PlayerRequest::FastForward(d)));
                }
            },
            PlayerRequest::Rewind(d) => {
                if active {
                    actions.push(StreamAction::Forward(PlayerRequest::Rewind(d)));
                }
            },
        },
        PlayerStreamEvent::Stream(StreamEvent::StreamEnded) => {
            actions.push(StreamAction::DropStream);
            actions.push(StreamAction::Notify(ServerEvent::PlayerDone));
        },
        PlayerStreamEvent::Stream(StreamEvent::Progress(d)) => {
            actions.push(StreamAction::Notify(ServerEvent::PlayerProgressUpdate(d)));
        },
    }
    proof {
        assert(actions_view(actions@) =~= stream_plan(active, event));
    }
    actions
}

/// How many answers to the player a plan gives: a reply, or the outcome of
/// starting a stream.
pub open spec fn answer_count(plan: Seq<ActionView>) -> nat
    decreases plan.len(),
{
    if plan.len() == 0 {
        0
    } else {
        answer_count(plan.drop_last()) + if plan.last() is ReplyOk || plan.last() is StartStream {
            1nat
        } else {
            0nat
        }
    }
}

/// The player waits for one answer to each request it makes but a fast-forward
/// or a rewind, which it does not wait on: the stream thread answers each other
/// request exactly once and those two never, whether a stream is current or not.
pub proof fn lemma_each_request_answered_once(active: bool, req: PlayerRequest)
    ensures
        answer_count(stream_plan(active, PlayerStreamEvent::Player(req))) == if req is FastForward
            || req is Rewind {
            0nat
        } else {
            1nat
        },
{
    let plan = stream_plan(active, PlayerStreamEvent::Player(req));
    reveal_with_fuel(answer_count, 3);
    if plan.len() == 2 {
        assert(plan.drop_last().drop_last() =~= Seq::<ActionView>::empty());
    } else if plan.len() == 1 {
        assert(plan.drop_last() =~= Seq::<ActionView>::empty());
    }
}

/// The events of the stream are never answered to the player: they only reach the server.
pub proof fn lemma_stream_events_not_answered(active: bool, event: StreamEvent)
    ensures
        answer_count(stream_plan(active, PlayerStreamEvent::Stream(event))) == 0,
{
    let plan = stream_plan(active, PlayerStreamEvent::Stream(event));
    reveal_with_fuel(answer_count, 3);
    if plan.len() == 2 {
        assert(plan.drop_last().drop_last() =~= Seq::<ActionView>::empty());
    } else {
        assert(plan.drop_last() =~= Seq::<ActionView>::empty());
    }
}

} // verus!
