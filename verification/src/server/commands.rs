//! The server's answers to player commands.

use vstd::prelude::*;

use crate::error::DiziResult;
use crate::player::{PlayerState, PlayerStatus};
use crate::server::context::{active_order, active_order_index, active_songs};
use crate::server::player::{now_playing, sent_play, SymphoniaPlayer};
use crate::server::playlist::next_order_index;
use crate::server::request::RequestView;

verus! {

/// The volume after raising `volume` by `amount` percent, at most full volume.
pub open spec fn raised_volume(volume: usize, amount: usize) -> usize {
    if volume + amount > 100 {
        100
    } else {
        (volume + amount) as usize
    }
}

/// The volume after lowering `volume` by `amount` percent, at least silence.
pub open spec fn lowered_volume(volume: usize, amount: usize) -> usize {
    if volume < amount {
        0
    } else {
        (volume - amount) as usize
    }
}

pub fn player_pause(player: &mut SymphoniaPlayer) -> (r: DiziResult)
    ensures
        final(player).context() == old(player).context(),
        r is Ok ==> final(player).state() == (PlayerState {
            status: PlayerStatus::Paused,
            ..old(player).state()
        }),
        r is Err ==> final(player).state() == old(player).state(),
        final(player).sent() == old(player).sent().push(RequestView::Pause),
{
    player.pause()
}

/// Pauses a playing player and resumes a paused one (see `SymphoniaPlayer::toggle_play`).
pub fn player_toggle_play(player: &mut SymphoniaPlayer) -> (r: DiziResult)
    ensures
        final(player).context() == old(player).context(),
        r is Ok ==> final(player).state() == (PlayerState {
            status: match old(player).state().status {
                PlayerStatus::Playing => PlayerStatus::Paused,
                PlayerStatus::Paused => PlayerStatus::Playing,
                PlayerStatus::Stopped => PlayerStatus::Stopped,
            },
            ..old(player).state()
        }),
        r is Err ==> final(player).state() == old(player).state(),
        final(player).sent() == match old(player).state().status {
            PlayerStatus::Playing => old(player).sent().push(RequestView::Pause),
            PlayerStatus::Paused => old(player).sent().push(RequestView::Resume),
            PlayerStatus::Stopped => old(player).sent(),
        },
{
    player.toggle_play()?;
    Ok(())
}

/// The volume in percent.
pub fn player_get_volume(player: &SymphoniaPlayer, amount: usize) -> (r: DiziResult<usize>)
    ensures
        r matches Ok(v) && v == player.state().volume,
{
    Ok(player.get_volume())
}

/// Raises the volume by `amount` percent, up to full volume.
pub fn player_volume_increase(player: &mut SymphoniaPlayer, amount: usize) -> (r: DiziResult)
    ensures
        final(player).context() == old(player).context(),
        r is Ok ==> final(player).state() == (PlayerState {
            volume: raised_volume(old(player).state().volume, amount),
            ..old(player).state()
        }),
        r is Err ==> final(player).state() == old(player).state(),
        final(player).sent() == old(player).sent().push(
            RequestView::SetVolume(raised_volume(old(player).state().volume, amount)),
        ),
{
    let volume = player.get_volume();
    let volume = if volume > 100 || amount > 100 - volume {
        100
    } else {
        volume + amount
    };
    player.set_volume(volume)
}

/// Lowers the volume by `amount` percent, down to silence.
pub fn player_volume_decrease(player: &mut SymphoniaPlayer, amount: usize) -> (r: DiziResult)
    ensures
        final(player).context() == old(player).context(),
        r is Ok ==> final(player).state() == (PlayerState {
            volume: lowered_volume(old(player).state().volume, amount),
            ..old(player).state()
        }),
        r is Err ==> final(player).state() == old(player).state(),
        final(player).sent() == old(player).sent().push(
            RequestView::SetVolume(lowered_volume(old(player).state().volume, amount)),
        ),
{
    let volume = player.get_volume();
    let volume = if volume < amount {
        0
    } else {
        volume - amount
    };
    player.set_volume(volume)
}

/// What the server does when the song being played has ended: with `next` on,
/// the playlist in use moves on to its next song, which is played (see
/// `SymphoniaPlayer::play_next`); otherwise the player stops.
pub fn player_song_done(player: &mut SymphoniaPlayer) -> (r: DiziResult)
    requires
        old(player).wf(),
    ensures
        final(player).wf(),
        old(player).state().next ==> {
            &&& active_songs(final(player).context()) == active_songs(old(player).context())
            &&& active_order(final(player).context()) == active_order(old(player).context())
            &&& active_order_index(final(player).context()) == match active_order_index(
                old(player).context(),
            ) {
                Some(i) => Some(next_order_index(i, active_songs(old(player).context()).len())),
                None => None::<usize>,
            }
            &&& match active_order_index(final(player).context()) {
                Some(j) => {
                    &&& r is Ok ==> now_playing(
                        old(player).state(),
                        final(player).state(),
                        active_songs(old(player).context())[active_order(
                            old(player).context(),
                        )[j as int] as int],
                    )
                    &&& sent_play(
                        old(player).sent(),
                        final(player).sent(),
                        active_songs(old(player).context())[active_order(
                            old(player).context(),
                        )[j as int] as int],
                        old(player).state().volume,
                        r is Ok,
                    )
                },
                None => r is Ok && final(player).state() == old(player).state()
                    && final(player).sent() == old(player).sent(),
            }
        },
        !old(player).state().next ==> {
            &&& final(player).context() == old(player).context()
            &&& final(player).sent() == old(player).sent().push(RequestView::Stop)
            &&& r is Ok ==> final(player).state() == (PlayerState {
                status: PlayerStatus::Stopped,
                ..old(player).state()
            })
        },
        r is Err ==> final(player).state() == old(player).state(),
{
    if player.next_enabled() {
        player.play_next()
    } else {
        player.stop()
    }
}

/// Raising or lowering the volume moves it by exactly the amount asked when
/// that stays between silence and full volume, and lowering then raising (or
/// raising then lowering) by the same amount gives the volume back.
pub proof fn lemma_volume_steps_are_exact(volume: usize, amount: usize)
    ensures
        amount <= volume ==> lowered_volume(volume, amount) + amount == volume,
        amount > volume ==> lowered_volume(volume, amount) == 0,
        volume + amount <= 100 ==> raised_volume(volume, amount) == volume + amount,
        volume + amount > 100 ==> raised_volume(volume, amount) == 100,
        amount <= volume <= 100 ==> raised_volume(lowered_volume(volume, amount), amount) == volume,
        volume + amount <= 100 ==> lowered_volume(raised_volume(volume, amount), amount) == volume,
{
}

/// Raising the volume never goes above full volume and lowering it never raises
/// it; raising a volume of at most full volume by nothing keeps it.
pub proof fn lemma_volume_bounds(volume: usize, amount: usize)
    ensures
        raised_volume(volume, amount) <= 100,
        lowered_volume(volume, amount) <= volume,
        volume <= 100 ==> raised_volume(volume, 0) == volume,
{
}

} // verus!
