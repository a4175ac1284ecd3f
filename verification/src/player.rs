use vstd::prelude::*;

use crate::error::{DiziError, DiziErrorKind, DiziResult};
use crate::playlist::{playlist_type_text, FilePlaylist, PlaylistType};
use crate::song::{DiziAudioFile, PlayDuration};
use crate::text::{
    bool_text, bool_to_string, concat_text, decimal, lowercase, to_lowercase, u64_to_string,
    usize_to_string,
};

verus! {

/// Whether the player is playing, paused or stopped.
#[derive(Clone, Copy, Debug, PartialEq, Eq, Structural)]
pub enum PlayerStatus {
    Playing,
    Paused,
    Stopped,
}

pub open spec fn player_status_text(s: PlayerStatus) -> Seq<char> {
    match s {
        PlayerStatus::Playing => "playing"@,
        PlayerStatus::Paused => "paused"@,
        PlayerStatus::Stopped => "stopped"@,
    }
}

impl PlayerStatus {
    /// "playing", "paused" or "stopped".
    pub fn to_string(&self) -> (s: String)
        ensures
            s@ == player_status_text(*self),
    {
        match *self {
            PlayerStatus::Playing => String::from_str("playing"),
            PlayerStatus::Paused => String::from_str("paused"),
            PlayerStatus::Stopped => String::from_str("stopped"),
        }
    }
}

/// A named value that a query can refer to, such as `player.volume`.
#[derive(Debug)]
pub struct QueryVar {
    pub key: String,
    pub value: String,
}

impl Clone for QueryVar {
    fn clone(&self) -> (res: Self)
        ensures
            res == *self,
    {
        QueryVar { key: self.key.clone(), value: self.value.clone() }
    }
}

/// No key occurs twice among the variables.
pub open spec fn vars_keys_unique(s: Seq<QueryVar>) -> bool {
    forall|i: int, j: int|
        0 <= i < s.len() && 0 <= j < s.len() && i != j ==> #[trigger] s[i].key@ != #[trigger] s[j].key@
}

/// The variables as a map from key to value.
pub open spec fn vars_map(s: Seq<QueryVar>) -> Map<Seq<char>, Seq<char>> {
    Map::new(
        |k: Seq<char>| exists|i: int| 0 <= i < s.len() && #[trigger] s[i].key@ == k,
        |k: Seq<char>| s[choose|i: int| 0 <= i < s.len() && #[trigger] s[i].key@ == k].value@,
    )
}

proof fn lemma_vars_map_at(s: Seq<QueryVar>, i: int)
    requires
        vars_keys_unique(s),
        0 <= i < s.len(),
    ensures
        vars_map(s).dom().contains(s[i].key@),
        vars_map(s)[s[i].key@] == s[i].value@,
{
    let k = s[i].key@;
    assert(exists|j: int| 0 <= j < s.len() && #[trigger] s[j].key@ == k);
    let j = choose|j: int| 0 <= j < s.len() && #[trigger] s[j].key@ == k;
    assert(j == i);
}

/// Sets `key` to `value` among the variables: the value of an existing key is
/// replaced, a new key is added at the end.
pub fn insert_var(vars: &mut Vec<QueryVar>, key: String, value: String)
    requires
        vars_keys_unique(old(vars)@),
    ensures
        vars_keys_unique(final(vars)@),
        vars_map(final(vars)@) == vars_map(old(vars)@).insert(key@, value@),
{
    let ghost old_vars = vars@;
    let n = vars.len();
    let mut i: usize = 0;
    while i < n
        invariant
            n == vars@.len(),
            vars@ == old_vars,
            old_vars == old(vars)@,
            vars_keys_unique(old_vars),
            i <= n,
            forall|j: int| 0 <= j < i ==> #[trigger] old_vars[j].key@ != key@,
        decreases n - i,
    {
        if vars[i].key == key {
            let ghost k = key@;
            let ghost v = value@;
            vars.set(i, QueryVar { key, value });
            proof {
                let s = vars@;
                assert(vars_keys_unique(s)) by {
                    assert forall|a: int, b: int|
                        0 <= a < s.len() && 0 <= b < s.len() && a != b implies #[trigger] s[a].key@
                        != #[trigger] s[b].key@ by {
                        assert(old_vars[a].key@ != old_vars[b].key@);
                    }
                }
                assert forall|k2: Seq<char>|
                    #![trigger vars_map(s).dom().contains(k2)]
                    vars_map(s).dom().contains(k2) == vars_map(old_vars).insert(
                        k,
                        v,
                    ).dom().contains(k2) by {
                    if vars_map(s).dom().contains(k2) {
                        let a = choose|a: int| 0 <= a < s.len() && #[trigger] s[a].key@ == k2;
                        if a != i {
                            lemma_vars_map_at(old_vars, a);
                        }
                    }
                    if vars_map(old_vars).dom().contains(k2) {
                        let a = choose|a: int| 0 <= a < old_vars.len() && #[trigger] old_vars[a].key@ == k2;
                        lemma_vars_map_at(s, a);
                    }
                    if k2 == k {
                        lemma_vars_map_at(s, i as int);
                    }
                }
                assert forall|k2: Seq<char>| #[trigger]
                    vars_map(s).dom().contains(k2) implies vars_map(s)[k2] == vars_map(
                    old_vars,
                ).insert(k, v)[k2] by {
                    let a = choose|a: int| 0 <= a < s.len() && #[trigger] s[a].key@ == k2;
                    lemma_vars_map_at(s, a);
                    if a != i {
                        lemma_vars_map_at(old_vars, a);
                    }
                }
                assert(vars_map(s) =~= vars_map(old_vars).insert(k, v));
            }
            return ;
        }
        i = i + 1;
    }
    let ghost k = key@;
    let ghost v = value@;
    vars.push(QueryVar { key, value });
    proof {
        let s = vars@;
        assert(s[n as int].key@ == k);
        assert(vars_keys_unique(s)) by {
            assert forall|a: int, b: int|
                0 <= a < s.len() && 0 <= b < s.len() && a != b implies #[trigger] s[a].key@
                != #[trigger] s[b].key@ by {
                if a < n && b < n {
                    assert(old_vars[a].key@ != old_vars[b].key@);
                } else if a < n {
                    assert(old_vars[a].key@ != k);
                } else if b < n {
                    assert(old_vars[b].key@ != k);
                }
            }
        }
        assert forall|k2: Seq<char>|
            #![trigger vars_map(s).dom().contains(k2)]
            vars_map(s).dom().contains(k2) == vars_map(old_vars).insert(k, v).dom().contains(k2) by {
            if vars_map(s).dom().contains(k2) {
                let a = choose|a: int| 0 <= a < s.len() && #[trigger] s[a].key@ == k2;
                if a < n {
                    lemma_vars_map_at(old_vars, a);
                }
            }
            if vars_map(old_vars).dom().contains(k2) {
                let a = choose|a: int| 0 <= a < old_vars.len() && #[trigger] old_vars[a].key@ == k2;
                assert(s[a] == old_vars[a]);
                lemma_vars_map_at(s, a);
            }
            if k2 == k {
                lemma_vars_map_at(s, n as int);
            }
        }
        assert forall|k2: Seq<char>| #[trigger]
            vars_map(s).dom().contains(k2) implies vars_map(s)[k2] == vars_map(old_vars).insert(
            k,
            v,
        )[k2] by {
            let a = choose|a: int| 0 <= a < s.len() && #[trigger] s[a].key@ == k2;
            lemma_vars_map_at(s, a);
            if a < n {
                assert(s[a] == old_vars[a]);
                lemma_vars_map_at(old_vars, a);
            }
        }
        assert(vars_map(s) =~= vars_map(old_vars).insert(k, v));
    }
}

} // verus!

verus! {

/// What the server tells its clients about the player.
#[derive(Debug)]
pub struct PlayerState {
    pub song: Option<DiziAudioFile>,
    pub elapsed: PlayDuration,
    pub status: PlayerStatus,
    pub playlist_status: PlaylistType,
    pub volume: usize,
    pub next: bool,
    pub repeat: bool,
    pub shuffle: bool,
    pub playlist: FilePlaylist,
    pub audio_host: String,
}

impl Clone for PlayerState {
    fn clone(&self) -> (res: Self)
        ensures
            res.song.deep_view() == self.song.deep_view(),
            res.elapsed == self.elapsed,
            res.status == self.status,
            res.playlist_status == self.playlist_status,
            res.volume == self.volume,
            res.next == self.next,
            res.repeat == self.repeat,
            res.shuffle == self.shuffle,
            res.playlist.list.deep_view() == self.playlist.list.deep_view(),
            res.playlist.cursor_index == self.playlist.cursor_index,
            res.playlist.playing_index == self.playlist.playing_index,
            res.audio_host == self.audio_host,
    {
        let song = match &self.song {
            Some(s) => Some(s.clone()),
            None => None,
        };
        PlayerState {
            song,
            elapsed: self.elapsed,
            status: self.status,
            playlist_status: self.playlist_status,
            volume: self.volume,
            next: self.next,
            repeat: self.repeat,
            shuffle: self.shuffle,
            playlist: self.playlist.clone(),
            audio_host: self.audio_host.clone(),
        }
    }
}

/// The player's variables added to `m`, in the order in which the player sets them.
pub open spec fn with_player_vars(m: Map<Seq<char>, Seq<char>>, st: PlayerState) -> Map<
    Seq<char>,
    Seq<char>,
> {
    let m1 = m.insert("player.status"@, player_status_text(st.status)).insert(
        "player.volume"@,
        decimal(st.volume as nat),
    ).insert("player.next"@, bool_text(st.next)).insert(
        "player.repeat"@,
        bool_text(st.repeat),
    ).insert("player.shuffle"@, bool_text(st.shuffle)).insert(
        "playlist.status"@,
        playlist_type_text(st.playlist_status),
    );
    let m2 = match st.playlist.playing_index {
        Some(i) => m1.insert("playlist.index"@, decimal(i as nat)),
        None => m1,
    };
    m2.insert("playlist.length"@, decimal(st.playlist.list@.len())).insert(
        "audio.host"@,
        st.audio_host@,
    )
}

/// The variable under which a song tag is queried: `song.tag.` and the tag's
/// name in lower case.
pub open spec fn song_tag_key(name: Seq<char>) -> Seq<char> {
    "song.tag."@ + lowercase(name)
}

/// The tags added to `m` one after the other.
pub open spec fn with_tag_vars(m: Map<Seq<char>, Seq<char>>, tags: Seq<(Seq<char>, Seq<char>)>) -> Map<
    Seq<char>,
    Seq<char>,
>
    decreases tags.len(),
{
    if tags.len() == 0 {
        m
    } else {
        with_tag_vars(m, tags.drop_last()).insert(song_tag_key(tags.last().0), tags.last().1)
    }
}

/// A song's variables added to `m`.
pub open spec fn with_song_vars(m: Map<Seq<char>, Seq<char>>, song: crate::song::SongView) -> Map<
    Seq<char>,
    Seq<char>,
> {
    let m1 = with_tag_vars(
        m.insert("song.file_name"@, song.file_name).insert("song.file_path"@, song.file_path),
        song.standard_tags,
    );
    match song.total_duration {
        Some(d) => m1.insert("song.total_duration"@, decimal(d.secs as nat)),
        None => m1,
    }
}

/// Every variable that a query on the player state can use.
pub open spec fn state_query_vars(st: PlayerState) -> Map<Seq<char>, Seq<char>> {
    let m = with_player_vars(Map::empty(), st);
    match st.song {
        Some(s) => with_song_vars(m, s.deep_view()),
        None => m,
    }
}

/// Adding a song's tags leaves every variable whose name does not start with
/// `s` as it was.
proof fn lemma_tag_vars_keep_other_keys(
    m: Map<Seq<char>, Seq<char>>,
    tags: Seq<(Seq<char>, Seq<char>)>,
    k: Seq<char>,
)
    requires
        k.len() > 0,
        k[0] != 's',
    ensures
        with_tag_vars(m, tags).dom().contains(k) == m.dom().contains(k),
        with_tag_vars(m, tags)[k] == m[k],
    decreases tags.len(),
{
    reveal_strlit("song.tag.");
    if tags.len() > 0 {
        lemma_tag_vars_keep_other_keys(m, tags.drop_last(), k);
        let key = song_tag_key(tags.last().0);
        assert(key[0] == 's');
        assert(key != k);
    }
}

/// A query sees the player's settings under their names: its status, its
/// volume in decimal, and each of its next, repeat and shuffle switches as
/// "true" or "false", whatever song is playing.
pub proof fn lemma_query_vars_report_the_player(st: PlayerState)
    ensures
        state_query_vars(st).dom().contains("player.status"@),
        state_query_vars(st)["player.status"@] == player_status_text(st.status),
        state_query_vars(st).dom().contains("player.volume"@),
        state_query_vars(st)["player.volume"@] == decimal(st.volume as nat),
        state_query_vars(st).dom().contains("player.next"@),
        state_query_vars(st)["player.next"@] == bool_text(st.next),
        state_query_vars(st).dom().contains("player.repeat"@),
        state_query_vars(st)["player.repeat"@] == bool_text(st.repeat),
        state_query_vars(st).dom().contains("player.shuffle"@),
        state_query_vars(st)["player.shuffle"@] == bool_text(st.shuffle),
{
    reveal_strlit("player.status");
    reveal_strlit("player.volume");
    reveal_strlit("player.next");
    reveal_strlit("player.repeat");
    reveal_strlit("player.shuffle");
    reveal_strlit("playlist.status");
    reveal_strlit("playlist.index");
    reveal_strlit("playlist.length");
    reveal_strlit("audio.host");
    reveal_strlit("song.file_name");
    reveal_strlit("song.file_path");
    reveal_strlit("song.total_duration");
    assert("player.status"@[7] != "player.volume"@[7]);
    assert("player.status"@ != "player.volume"@);
    assert("player.status"@.len() == 13 && "player.next"@.len() == 11);
    assert("player.status"@ != "player.next"@);
    assert("player.status"@[7] != "player.repeat"@[7]);
    assert("player.status"@ != "player.repeat"@);
    assert("player.status"@.len() == 13 && "player.shuffle"@.len() == 14);
    assert("player.status"@ != "player.shuffle"@);
    assert("player.status"@.len() == 13 && "playlist.status"@.len() == 15);
    assert("player.status"@ != "playlist.status"@);
    assert("player.status"@.len() == 13 && "playlist.index"@.len() == 14);
    assert("player.status"@ != "playlist.index"@);
    assert("player.status"@.len() == 13 && "playlist.length"@.len() == 15);
    assert("player.status"@ != "playlist.length"@);
    assert("player.status"@.len() == 13 && "audio.host"@.len() == 10);
    assert("player.status"@ != "audio.host"@);
    assert("player.volume"@.len() == 13 && "player.next"@.len() == 11);
    assert("player.volume"@ != "player.next"@);
    assert("player.volume"@[7] != "player.repeat"@[7]);
    assert("player.volume"@ != "player.repeat"@);
    assert("player.volume"@.len() == 13 && "player.shuffle"@.len() == 14);
    assert("player.volume"@ != "player.shuffle"@);
    assert("player.volume"@.len() == 13 && "playlist.status"@.len() == 15);
    assert("player.volume"@ != "playlist.status"@);
    assert("player.volume"@.len() == 13 && "playlist.index"@.len() == 14);
    assert("player.volume"@ != "playlist.index"@);
    assert("player.volume"@.len() == 13 && "playlist.length"@.len() == 15);
    assert("player.volume"@ != "playlist.length"@);
    assert("player.volume"@.len() == 13 && "audio.host"@.len() == 10);
    assert("player.volume"@ != "audio.host"@);
    assert("player.next"@.len() == 11 && "player.repeat"@.len() == 13);
    assert("player.next"@ != "player.repeat"@);
    assert("player.next"@.len() == 11 && "player.shuffle"@.len() == 14);
    assert("player.next"@ != "player.shuffle"@);
    assert("player.next"@.len() == 11 && "playlist.status"@.len() == 15);
    assert("player.next"@ != "playlist.status"@);
    assert("player.next"@.len() == 11 && "playlist.index"@.len() == 14);
    assert("player.next"@ != "playlist.index"@);
    assert("player.next"@.len() == 11 && "playlist.length"@.len() == 15);
    assert("player.next"@ != "playlist.length"@);
    assert("player.next"@.len() == 11 && "audio.host"@.len() == 10);
    assert("player.next"@ != "audio.host"@);
    assert("player.repeat"@.len() == 13 && "player.shuffle"@.len() == 14);
    assert("player.repeat"@ != "player.shuffle"@);
    assert("player.repeat"@.len() == 13 && "playlist.status"@.len() == 15);
    assert("player.repeat"@ != "playlist.status"@);
    assert("player.repeat"@.len() == 13 && "playlist.index"@.len() == 14);
    assert("player.repeat"@ != "playlist.index"@);
    assert("player.repeat"@.len() == 13 && "playlist.length"@.len() == 15);
    assert("player.repeat"@ != "playlist.length"@);
    assert("player.repeat"@.len() == 13 && "audio.host"@.len() == 10);
    assert("player.repeat"@ != "audio.host"@);
    assert("player.shuffle"@.len() == 14 && "playlist.status"@.len() == 15);
    assert("player.shuffle"@ != "playlist.status"@);
    assert("player.shuffle"@[4] != "playlist.index"@[4]);
    assert("player.shuffle"@ != "playlist.index"@);
    assert("player.shuffle"@.len() == 14 && "playlist.length"@.len() == 15);
    assert("player.shuffle"@ != "playlist.length"@);
    assert("player.shuffle"@.len() == 14 && "audio.host"@.len() == 10);
    assert("player.shuffle"@ != "audio.host"@);
    let m = with_player_vars(Map::empty(), st);
    assert(m["player.status"@] == player_status_text(st.status));
    assert(m["player.volume"@] == decimal(st.volume as nat));
    assert(m["player.next"@] == bool_text(st.next));
    assert(m["player.repeat"@] == bool_text(st.repeat));
    assert(m["player.shuffle"@] == bool_text(st.shuffle));
    match st.song {
        Some(song) => {
            let sv = song.deep_view();
            let m0 = m.insert("song.file_name"@, sv.file_name).insert("song.file_path"@, sv.file_path);
            lemma_tag_vars_keep_other_keys(m0, sv.standard_tags, "player.status"@);
            lemma_tag_vars_keep_other_keys(m0, sv.standard_tags, "player.volume"@);
            lemma_tag_vars_keep_other_keys(m0, sv.standard_tags, "player.next"@);
            lemma_tag_vars_keep_other_keys(m0, sv.standard_tags, "player.repeat"@);
            lemma_tag_vars_keep_other_keys(m0, sv.standard_tags, "player.shuffle"@);
        },
        None => {},
    }
}

/// The message of a query that could not be formatted.
pub open spec fn query_error_text(query: Seq<char>, reason: Seq<char>) -> Seq<char> {
    "Failed to process query '"@ + query + "', Reason: '"@ + reason + "'"@
}

/// What `strfmt::strfmt` gives for a format text and its variables: the
/// formatted text, or the text of the formatting error.
pub uninterp spec fn strfmt_result(fmt: Seq<char>, vars: Map<Seq<char>, Seq<char>>) -> Result<
    Seq<char>,
    Seq<char>,
>;

/// `strfmt::strfmt` on the variables, gathered into the map it takes; an error
/// is handed back as its display text. Its result is named `strfmt_result`.
#[verifier::external_body]
pub(crate) fn format_query(fmt: &str, vars: &Vec<QueryVar>) -> (r: Result<String, String>)
    requires
        vars_keys_unique(vars@),
    ensures
        match r {
            Ok(s) => strfmt_result(fmt@, vars_map(vars@)) == Ok::<Seq<char>, Seq<char>>(s@),
            Err(e) => strfmt_result(fmt@, vars_map(vars@)) == Err::<Seq<char>, Seq<char>>(e@),
        },
{
    let map: std::collections::HashMap<String, String> = vars.iter().map(
        |v| (v.key.clone(), v.value.clone()),
    ).collect();
    strfmt::strfmt(fmt, &map).map_err(|e| e.to_string())
}

/// The answer to a query once the formatter has run: the formatted text, or an
/// `InvalidParameters` error that names the query and the formatter's reason.
pub fn query_answer(query: &str, formatted: Result<String, String>) -> (r: DiziResult<String>)
    ensures
        match formatted {
            Ok(s) => r matches Ok(t) && t@ == s@,
            Err(e) => r matches Err(err) && err.kind == DiziErrorKind::InvalidParameters
                && err.cause@ == query_error_text(query@, e@),
        },
{
    match formatted {
        Ok(s) => Ok(s),
        Err(e) => {
            let m = concat_text("Failed to process query '", query);
            let m = concat_text(m.as_str(), "', Reason: '");
            let m = concat_text(m.as_str(), e.as_str());
            let m = concat_text(m.as_str(), "'");
            Err(DiziError::new(DiziErrorKind::InvalidParameters, m))
        },
    }
}

impl PlayerState {
    /// A stopped player with nothing loaded (see `default`).
    pub fn new() -> (s: Self)
        ensures
            s.is_initial(),
    {
        Self::default()
    }

    /// The state of a player that has just started.
    pub open spec fn is_initial(&self) -> bool {
        &&& self.song is None
        &&& self.status == PlayerStatus::Stopped
        &&& self.playlist_status == PlaylistType::PlaylistFile
        &&& self.elapsed == PlayDuration { secs: 0, nanos: 0 }
        &&& self.volume == 50
        &&& self.next
        &&& !self.repeat
        &&& !self.shuffle
        &&& self.playlist.list@.len() == 0
        &&& self.playlist.cursor_index is None
        &&& self.playlist.playing_index is None
        &&& self.audio_host@ == "UNKNOWN"@
    }

    /// Formats `query` with the player's variables (see `query_all`).
    pub fn query(&self, query: &str) -> (r: DiziResult<String>)
        ensures
            match strfmt_result(query@, state_query_vars(*self)) {
                Ok(s) => r matches Ok(t) && t@ == s,
                Err(e) => r matches Err(err) && err.kind == DiziErrorKind::InvalidParameters
                    && err.cause@ == query_error_text(query@, e),
            },
    {
        let vars = self.query_all();
        let formatted = format_query(query, &vars);
        query_answer(query, formatted)
    }

    /// Every variable of the player and of the song being played, each once.
    pub fn query_all(&self) -> (vars: Vec<QueryVar>)
        ensures
            vars_keys_unique(vars@),
            vars_map(vars@) == state_query_vars(*self),
    {
        let mut vars: Vec<QueryVar> = Vec::new();
        proof {
            assert(vars_map(vars@) =~= Map::empty());
        }
        Self::load_player_query_vars(&mut vars, self);
        if let Some(song) = self.song.as_ref() {
            Self::load_song_query_vars(&mut vars, song);
        }
        vars
    }

    /// Sets the player's variables among `vars`.
    pub fn load_player_query_vars(vars: &mut Vec<QueryVar>, player_state: &PlayerState)
        requires
            vars_keys_unique(old(vars)@),
        ensures
            vars_keys_unique(final(vars)@),
            vars_map(final(vars)@) == with_player_vars(vars_map(old(vars)@), *player_state),
    {
        insert_var(vars, String::from_str("player.status"), player_state.status.to_string());
        insert_var(vars, String::from_str("player.volume"), usize_to_string(player_state.volume));
        insert_var(vars, String::from_str("player.next"), bool_to_string(player_state.next));
        insert_var(vars, String::from_str("player.repeat"), bool_to_string(player_state.repeat));
        insert_var(vars, String::from_str("player.shuffle"), bool_to_string(player_state.shuffle));
        insert_var(
            vars,
            String::from_str("playlist.status"),
            player_state.playlist_status.to_string(),
        );
        if let Some(index) = player_state.playlist.get_playing_index() {
            insert_var(vars, String::from_str("playlist.index"), usize_to_string(index));
        }
        insert_var(
            vars,
            String::from_str("playlist.length"),
            usize_to_string(player_state.playlist.len()),
        );
        insert_var(vars, String::from_str("audio.host"), player_state.audio_host.clone());
    }

    /// Sets a song's variables among `vars`: its file name and path, each of its
    /// tags under `song.tag.<name in lower case>`, and its length in seconds when known.
    pub fn load_song_query_vars(vars: &mut Vec<QueryVar>, song: &DiziAudioFile)
        requires
            vars_keys_unique(old(vars)@),
        ensures
            vars_keys_unique(final(vars)@),
            vars_map(final(vars)@) == with_song_vars(vars_map(old(vars)@), song.deep_view()),
    {
        let ghost m0 = vars_map(vars@);
        insert_var(vars, String::from_str("song.file_name"), String::from_str(song.file_name()));
        insert_var(
            vars,
            String::from_str("song.file_path"),
            String::from_str(song.file_path()),
        );
        let ghost m1 = vars_map(vars@);
        let ghost tags = song.standard_tags.deep_view();
        let n = song.standard_tags.len();
        let mut i: usize = 0;
        proof {
            assert(tags.take(0) =~= Seq::<(Seq<char>, Seq<char>)>::empty());
        }
        while i < n
            invariant
                n == song.standard_tags@.len(),
                tags == song.standard_tags.deep_view(),
                i <= n,
                vars_keys_unique(vars@),
                vars_map(vars@) == with_tag_vars(m1, tags.take(i as int)),
            decreases n - i,
        {
            let tag = &song.standard_tags[i];
            let lower = to_lowercase(tag.name.as_str());
            let key = concat_text("song.tag.", lower.as_str());
            insert_var(vars, key, tag.value.clone());
            proof {
                assert(tags.take(i + 1).drop_last() =~= tags.take(i as int));
                assert(tags[i as int] == tag.deep_view());
            }
            i = i + 1;
        }
        proof {
            assert(tags.take(n as int) =~= tags);
        }
        if let Some(total_duration) = song.total_duration.as_ref() {
            insert_var(
                vars,
                String::from_str("song.total_duration"),
                u64_to_string(total_duration.as_secs()),
            );
        }
    }
}

impl core::default::Default for PlayerState {
    fn default() -> (s: Self)
        ensures
            s.is_initial(),
    {
        PlayerState {
            song: None,
            status: PlayerStatus::Stopped,
            playlist_status: PlaylistType::PlaylistFile,
            elapsed: PlayDuration::from_secs(0),
            volume: 50,
            next: true,
            repeat: false,
            shuffle: false,
            playlist: FilePlaylist::new(),
            audio_host: String::from_str("UNKNOWN"),
        }
    }
}

} // verus!
