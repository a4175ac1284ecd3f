use vstd::prelude::*;

verus! {

/// What kind of failure an error reports.
///
/// Failures that come from outside the library (I/O, JSON, TOML, audio back ends)
/// are named here by their source; what the outside error said is kept in the
/// error's cause.
#[derive(Clone, Copy, Debug, PartialEq, Eq, Structural)]
pub enum DiziErrorKind {
    Server,
    IoError,
    EnvVarNotPresent,
    ParseError,
    SerdeJson,
    ClipboardError,
    Glob,
    InvalidParameters,
    SendError,
    ReceiveError,
    SymphoniaError,
    CpalBuildStreamError,
    CpalPlayStreamError,
    CpalPauseStreamError,
    NoDevice,
    UnrecognizedFormat,
    NotAudioFile,
    UnrecognizedArgument,
    UnrecognizedCommand,
}

/// An error: its kind and a human-readable cause.
#[derive(Debug)]
pub struct DiziError {
    pub kind: DiziErrorKind,
    pub cause: String,
}

impl DiziError {
    pub fn new(kind: DiziErrorKind, cause: String) -> (e: DiziError)
        ensures
            e.kind == kind,
            e.cause == cause,
    {
        DiziError { kind, cause }
    }

    pub fn kind(&self) -> (k: DiziErrorKind)
        ensures
            k == self.kind,
    {
        self.kind
    }

    pub fn cause(&self) -> (c: &str)
        ensures
            c@ == self.cause@,
    {
        self.cause.as_str()
    }
}

pub type DiziResult<T = ()> = Result<T, DiziError>;

pub type AppResult<T = ()> = Result<T, DiziError>;

/// An error as the web handlers answer it: a kind and a message.
#[derive(Debug)]
pub struct AppError {
    pub kind: String,
    pub message: String,
}

impl Clone for AppError {
    fn clone(&self) -> (res: Self)
        ensures
            res == *self,
    {
        AppError { kind: self.kind.clone(), message: self.message.clone() }
    }
}

} // verus!
