use vstd::prelude::*;

verus! {

/// A span of playing time, held as whole seconds and the nanoseconds below a second.
#[derive(Clone, Copy, Debug, PartialEq, Eq, Structural)]
pub struct PlayDuration {
    pub secs: u64,
    pub nanos: u32,
}

impl PlayDuration {
    pub open spec fn wf(self) -> bool {
        self.nanos < 1_000_000_000
    }

    /// A duration of whole seconds.
    pub fn from_secs(secs: u64) -> (d: PlayDuration)
        ensures
            d.secs == secs,
            d.nanos == 0,
            d.wf(),
    {
        PlayDuration { secs, nanos: 0 }
    }

    /// The whole seconds of the duration.
    pub fn as_secs(&self) -> (s: u64)
        ensures
            s == self.secs,
    {
        self.secs
    }
}

/// One standard tag of a song's metadata: its name and its value.
#[derive(Debug)]
pub struct SongTag {
    pub name: String,
    pub value: String,
}

impl DeepView for SongTag {
    type V = (Seq<char>, Seq<char>);

    open spec fn deep_view(&self) -> (Seq<char>, Seq<char>) {
        (self.name@, self.value@)
    }
}

impl Clone for SongTag {
    fn clone(&self) -> (res: Self)
        ensures
            res == *self,
    {
        SongTag { name: self.name.clone(), value: self.value.clone() }
    }
}

/// An audio file known to the player: where it is, its standard tags and,
/// when known, how long it plays.
#[derive(Debug)]
pub struct DiziAudioFile {
    pub file_name: String,
    pub file_path: String,
    pub standard_tags: Vec<SongTag>,
    pub total_duration: Option<PlayDuration>,
}

/// What a song is, seen as plain values.
pub struct SongView {
    pub file_name: Seq<char>,
    pub file_path: Seq<char>,
    pub standard_tags: Seq<(Seq<char>, Seq<char>)>,
    pub total_duration: Option<PlayDuration>,
}

impl DeepView for DiziAudioFile {
    type V = SongView;

    open spec fn deep_view(&self) -> SongView {
        SongView {
            file_name: self.file_name@,
            file_path: self.file_path@,
            standard_tags: self.standard_tags.deep_view(),
            total_duration: self.total_duration,
        }
    }
}

/// A song as it stands in a playlist.
pub type DiziSongEntry = DiziAudioFile;

/// A song as the server plays it.
pub type Song = DiziAudioFile;

impl Clone for DiziAudioFile {
    fn clone(&self) -> (res: Self)
        ensures
            res.deep_view() == self.deep_view(),
    {
        let tags = self.standard_tags.clone();
        proof {
            assert forall|i: int| 0 <= i < tags@.len() implies tags@[i] == self.standard_tags@[i] by {
                assert(cloned(self.standard_tags@[i], tags@[i]));
            }
            assert(tags.deep_view() =~= self.standard_tags.deep_view());
        }
        DiziAudioFile {
            file_name: self.file_name.clone(),
            file_path: self.file_path.clone(),
            standard_tags: tags,
            total_duration: self.total_duration,
        }
    }
}

impl DiziAudioFile {
    pub fn new(
        file_name: String,
        file_path: String,
        standard_tags: Vec<SongTag>,
        total_duration: Option<PlayDuration>,
    ) -> (s: Self)
        ensures
            s.file_name == file_name,
            s.file_path == file_path,
            s.standard_tags == standard_tags,
            s.total_duration == total_duration,
    {
        DiziAudioFile { file_name, file_path, standard_tags, total_duration }
    }

    pub fn file_name(&self) -> (r: &str)
        ensures
            r@ == self.file_name@,
    {
        self.file_name.as_str()
    }

    pub fn file_path(&self) -> (r: &str)
        ensures
            r@ == self.file_path@,
    {
        self.file_path.as_str()
    }
}

} // verus!
