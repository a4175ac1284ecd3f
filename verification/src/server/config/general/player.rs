use vstd::prelude::*;

verus! {

/// The default of options that are on unless the file says otherwise.
pub fn default_true() -> (b: bool)
    ensures
        b,
{
    true
}

/// The player options as the configuration file gives them.
#[derive(Clone, Copy, Debug, PartialEq, Eq, Structural)]
pub struct PlayerOptionCrude {
    pub shuffle: bool,
    pub repeat: bool,
    pub next: bool,
}

impl core::default::Default for PlayerOptionCrude {
    fn default() -> (o: Self)
        ensures
            !o.shuffle,
            o.repeat,
            o.next,
    {
        Self { shuffle: false, repeat: true, next: true }
    }
}

/// The player options the server runs with.
#[derive(Clone, Copy, Debug, PartialEq, Eq, Structural)]
pub struct PlayerOption {
    pub shuffle: bool,
    pub repeat: bool,
    pub next: bool,
}

impl PlayerOption {
    /// The options of the file, taken as they are.
    pub fn from_crude(crude: PlayerOptionCrude) -> (o: Self)
        ensures
            o.shuffle == crude.shuffle,
            o.repeat == crude.repeat,
            o.next == crude.next,
    {
        Self { shuffle: crude.shuffle, repeat: crude.repeat, next: crude.next }
    }
}

impl core::default::Default for PlayerOption {
    fn default() -> (o: Self)
        ensures
            !o.shuffle,
            o.repeat,
            o.next,
    {
        Self { shuffle: false, repeat: true, next: true }
    }
}

} // verus!
