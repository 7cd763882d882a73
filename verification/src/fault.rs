//! What can go wrong while signing in or synchronising, as plain values.

use vstd::prelude::*;

verus! {

/// The five classes of failure.
#[derive(Clone, Copy, Debug, PartialEq, Eq, Structural)]
pub enum ErrorKind {
    /// The service could not be reached.
    Transport,
    /// The service answered, but not with a 2xx status and a JSON body.
    Protocol,
    /// The JSON lacks a part, or the part has the wrong type.
    UnexpectedShape,
    /// The operation is not valid in the current state.
    StateMismatch,
    /// A directory or a file could not be written.
    Filesystem,
}

/// A part of a reply that the client reads.
#[derive(Clone, Copy, Debug, PartialEq, Eq, Structural)]
pub enum Part {
    Document,
    TwoFactorRequired,
    ObjectId,
    Students,
    Student,
    FirstName,
    LastName,
    Page,
    PageSize,
    Activities,
    Activity,
    Media,
    VideoInfo,
    CreatedAt,
    ImageUrl,
    DownloadableUrl,
}

/// One failure.
#[derive(Clone, Copy, Debug, PartialEq, Eq, Structural)]
pub enum Fault {
    /// No reply came back.
    Unreachable,
    /// The reply carries this status, which is not in `200..=299`.
    Status(u16),
    /// The body of the reply is not JSON.
    NotJson,
    /// The named part is absent, has the wrong type, or cannot be read.
    Shape(Part),
    /// A feed went on past the last page index.
    EndlessFeed,
    /// The operation is not valid in the current state.
    WrongState,
    /// The driver reported something that the engine had not asked for.
    UnexpectedEvent,
    /// A directory could not be created.
    Directory,
    /// A file could not be written.
    Write,
}

impl Fault {
    /// The class that this failure belongs to.
    pub open spec fn spec_kind(self) -> ErrorKind {
        match self {
            Fault::Unreachable => ErrorKind::Transport,
            Fault::Status(_) | Fault::NotJson | Fault::EndlessFeed => ErrorKind::Protocol,
            Fault::Shape(_) => ErrorKind::UnexpectedShape,
            Fault::WrongState | Fault::UnexpectedEvent => ErrorKind::StateMismatch,
            Fault::Directory | Fault::Write => ErrorKind::Filesystem,
        }
    }

    /// The class that this failure belongs to.
    #[verifier::when_used_as_spec(spec_kind)]
    pub fn kind(self) -> (kind: ErrorKind)
        ensures
            kind == self.spec_kind(),
    {
        match self {
            Fault::Unreachable => ErrorKind::Transport,
            Fault::Status(_) | Fault::NotJson | Fault::EndlessFeed => ErrorKind::Protocol,
            Fault::Shape(_) => ErrorKind::UnexpectedShape,
            Fault::WrongState | Fault::UnexpectedEvent => ErrorKind::StateMismatch,
            Fault::Directory | Fault::Write => ErrorKind::Filesystem,
        }
    }
}

} // verus!
