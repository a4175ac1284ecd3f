//! What the client's widgets compute before drawing.

use vstd::prelude::*;

use crate::player::{PlayerState, PlayerStatus};
use crate::song::{DiziAudioFile, SongTag};
use crate::text::{concat_text, decimal, str_eq, u64_to_string};

verus! {

/// The numbers of the player's clock for `total_secs` seconds, as the player
/// widget shows them: the hours, the minutes counted from zero (not wrapped at
/// an hour) and the seconds within the minute.
pub fn clock_parts(total_secs: u64) -> (r: (u64, u64, u64))
    ensures
        r.0 == total_secs / 3600,
        r.1 == total_secs / 60,
        r.2 == total_secs % 60,
{
    let minutes = total_secs / 60;
    let hours = total_secs / 3600;
    let seconds = total_secs % 60;
    (hours, minutes, seconds)
}

/// A number written with at least two digits, a zero in front of a single one.
pub open spec fn two_digits(n: nat) -> Seq<char> {
    if n < 10 {
        "0"@ + decimal(n)
    } else {
        decimal(n)
    }
}

/// The clock of `total_secs` seconds as the player widget writes it:
/// hours, minutes and seconds of `clock_parts`, each with two digits, between colons.
pub open spec fn clock_text(total_secs: nat) -> Seq<char> {
    two_digits(total_secs / 3600) + ":"@ + two_digits(total_secs / 60) + ":"@ + two_digits(
        total_secs % 60,
    )
}

/// Writes `n` with at least two digits.
fn two_digit_text(n: u64) -> (s: String)
    ensures
        s@ == two_digits(n as nat),
{
    let d = u64_to_string(n);
    if n < 10 {
        concat_text("0", d.as_str())
    } else {
        d
    }
}

/// Writes the clock of `total_secs` seconds (see `clock_text`).
pub fn clock_string(total_secs: u64) -> (s: String)
    ensures
        s@ == clock_text(total_secs as nat),
{
    let (h, m, sec) = clock_parts(total_secs);
    let hs = two_digit_text(h);
    let ms = two_digit_text(m);
    let ss = two_digit_text(sec);
    let a = concat_text(hs.as_str(), ":");
    let b = concat_text(a.as_str(), ms.as_str());
    let c = concat_text(b.as_str(), ":");
    concat_text(c.as_str(), ss.as_str())
}

/// The symbol that the player widget shows for a status: ">>" while playing,
/// two full blocks when stopped, "||" when paused.
pub open spec fn status_symbol_text(status: PlayerStatus) -> Seq<char> {
    match status {
        PlayerStatus::Playing => ">>"@,
        PlayerStatus::Stopped => "\u{2588}\u{2588}"@,
        PlayerStatus::Paused => "||"@,
    }
}

/// Writes the symbol of a status (see `status_symbol_text`).
pub fn status_symbol(status: PlayerStatus) -> (s: String)
    ensures
        s@ == status_symbol_text(status),
{
    match status {
        PlayerStatus::Playing => String::from_str(">>"),
        PlayerStatus::Stopped => String::from_str("\u{2588}\u{2588}"),
        PlayerStatus::Paused => String::from_str("||"),
    }
}

/// The value of the tag `name` among `tags`: the last one of that name wins,
/// as when the tags are gathered into a map one after the other.
pub open spec fn tag_value(tags: Seq<(Seq<char>, Seq<char>)>, name: Seq<char>) -> Option<
    Seq<char>,
>
    decreases tags.len(),
{
    if tags.len() == 0 {
        None
    } else if tags.last().0 == name {
        Some(tags.last().1)
    } else {
        tag_value(tags.drop_last(), name)
    }
}

/// Looks up the tag `name` of a song (see `tag_value`).
pub fn find_tag(tags: &Vec<SongTag>, name: &str) -> (r: Option<String>)
    ensures
        r.deep_view() == tag_value(tags.deep_view(), name@),
{
    let mut i: usize = tags.len();
    proof {
        assert(tags.deep_view().take(i as int) =~= tags.deep_view());
    }
    while i > 0
        invariant
            i <= tags@.len(),
            tag_value(tags.deep_view(), name@) == tag_value(
                tags.deep_view().take(i as int),
                name@,
            ),
        decreases i,
    {
        let ghost prefix = tags.deep_view().take(i as int);
        proof {
            assert(prefix.drop_last() =~= tags.deep_view().take(i - 1));
            assert(prefix.last() == tags.deep_view()[i - 1]);
        }
        if str_eq(tags[i - 1].name.as_str(), name) {
            return Some(tags[i - 1].value.clone());
        }
        i = i - 1;
    }
    None
}

/// The name under which the player widget shows a song: its "TrackTitle" tag,
/// else its file name; a single space when nothing plays.
pub open spec fn shown_song_name(song: Option<crate::song::SongView>) -> Seq<char> {
    match song {
        Some(s) => match tag_value(s.standard_tags, "TrackTitle"@) {
            Some(t) => t,
            None => s.file_name,
        },
        None => " "@,
    }
}

/// Writes the name of the song being played (see `shown_song_name`).
pub fn song_name(song: &Option<DiziAudioFile>) -> (s: String)
    ensures
        s@ == shown_song_name(song.deep_view()),
{
    match song {
        Some(f) => match find_tag(&f.standard_tags, "TrackTitle") {
            Some(t) => t,
            None => String::from_str(f.file_name()),
        },
        None => String::from_str(" "),
    }
}

/// The line of the player widget before its switches: the status symbol, the
/// time played and the song's length (zero when unknown), then three spaces.
pub open spec fn progress_text(state: PlayerState) -> Seq<char> {
    let total = match state.song {
        Some(s) => match s.total_duration {
            Some(d) => d.secs as nat,
            None => 0,
        },
        None => 0,
    };
    status_symbol_text(state.status) + " "@ + clock_text(state.elapsed.secs as nat) + " / "@
        + clock_text(total) + "   "@
}

/// Writes the progress line of the player widget (see `progress_text`).
pub fn progress_line(state: &PlayerState) -> (s: String)
    ensures
        s@ == progress_text(*state),
{
    let total: u64 = match &state.song {
        Some(f) => match &f.total_duration {
            Some(d) => d.secs,
            None => 0,
        },
        None => 0,
    };
    let sym = status_symbol(state.status);
    let played = clock_string(state.elapsed.secs);
    let whole = clock_string(total);
    let a = concat_text(sym.as_str(), " ");
    let b = concat_text(a.as_str(), played.as_str());
    let c = concat_text(b.as_str(), " / ");
    let d = concat_text(c.as_str(), whole.as_str());
    concat_text(d.as_str(), "   ")
}

/// The volume line of the player widget.
pub open spec fn volume_text(volume: nat) -> Seq<char> {
    "Volume: "@ + decimal(volume) + "%"@
}

/// Writes the volume line of the player widget (see `volume_text`).
pub fn volume_line(volume: usize) -> (s: String)
    ensures
        s@ == volume_text(volume as nat),
{
    let v = crate::text::usize_to_string(volume);
    let a = concat_text("Volume: ", v.as_str());
    concat_text(a.as_str(), "%")
}

/// The switches that the player widget shows after the progress line: each
/// label, and whether it is on (drawn lit) or off (drawn dark).
pub open spec fn switches_of(state: PlayerState) -> Seq<(Seq<char>, bool)> {
    seq![
        ("[NEXT] "@, state.next),
        ("[REPEAT] "@, state.repeat),
        ("[SHUFFLE] "@, state.shuffle),
    ]
}

/// Gives the switches of the player widget (see `switches_of`).
pub fn switch_labels(state: &PlayerState) -> (r: Vec<(String, bool)>)
    ensures
        r@.map_values(|p: (String, bool)| (p.0@, p.1)) == switches_of(*state),
{
    let mut r: Vec<(String, bool)> = Vec::new();
    r.push((String::from_str("[NEXT] "), state.next));
    r.push((String::from_str("[REPEAT] "), state.repeat));
    r.push((String::from_str("[SHUFFLE] "), state.shuffle));
    proof {
        assert(r@.map_values(|p: (String, bool)| (p.0@, p.1)) =~= switches_of(*state));
    }
    r
}

} // verus!
