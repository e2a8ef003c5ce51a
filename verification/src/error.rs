//! The error type shared by every component.

use vstd::prelude::*;

use crate::text::chars_of;
use crate::text::push_chars;
use crate::text::push_str;
use crate::text::string_of;

verus! {

/// The kind of a failure, without its message.
#[derive(Clone, Copy, Debug, PartialEq, Eq, Structural)]
pub enum ErrorKind {
    NotFound,
    AlreadyExists,
    InvalidState,
    Config,
    Engine,
    Guest,
    Storage,
    Database,
    Image,
    Network,
    Stopped,
    Unsupported,
    Internal,
}

/// A failure: its kind and a message for the user.
#[derive(Clone, Debug)]
pub enum BoxliteError {
    /// No box, image or file of that name.
    NotFound(String),
    /// The name is taken.
    AlreadyExists(String),
    /// The operation is not allowed in the box's current status.
    InvalidState(String),
    /// Invalid user input.
    Config(String),
    /// The virtual machine monitor failed.
    Engine(String),
    /// A call to the guest agent failed.
    Guest(String),
    /// A file, archive or mount operation failed.
    Storage(String),
    /// The database failed.
    Database(String),
    /// An image could not be pulled or verified.
    Image(String),
    /// The network failed.
    Network(String),
    /// The handle has been invalidated by a stop.
    Stopped(String),
    /// Not available on this platform.
    Unsupported(String),
    /// An invariant of the runtime was broken.
    Internal(String),
}

/// The mathematical content of a [`BoxliteError`].
pub struct ErrorView {
    pub kind: ErrorKind,
    pub message: Seq<char>,
}

pub type BoxliteResult<T> = Result<T, BoxliteError>;

impl DeepView for BoxliteError {
    type V = ErrorView;

    open spec fn deep_view(&self) -> ErrorView {
        ErrorView { kind: self.spec_kind(), message: self.spec_message() }
    }
}

/// The words that stand for a kind in a printed error.
pub open spec fn kind_label(kind: ErrorKind) -> Seq<char> {
    match kind {
        ErrorKind::NotFound => "not found"@,
        ErrorKind::AlreadyExists => "already exists"@,
        ErrorKind::InvalidState => "invalid state"@,
        ErrorKind::Config => "configuration error"@,
        ErrorKind::Engine => "engine error"@,
        ErrorKind::Guest => "guest error"@,
        ErrorKind::Storage => "storage error"@,
        ErrorKind::Database => "database error"@,
        ErrorKind::Image => "image error"@,
        ErrorKind::Network => "network error"@,
        ErrorKind::Stopped => "stopped"@,
        ErrorKind::Unsupported => "unsupported"@,
        ErrorKind::Internal => "internal error"@,
    }
}

/// The process exit status that the command line reports for a failure of
/// the given kind: 2 for invalid input, 125 when the machine could not be
/// built or no image matched, 1 otherwise.
pub open spec fn kind_exit_code(kind: ErrorKind) -> int {
    match kind {
        ErrorKind::Config => 2,
        ErrorKind::Engine => 125,
        ErrorKind::Image => 125,
        _ => 1,
    }
}

impl ErrorKind {
    pub fn label(&self) -> (r: &'static str)
        ensures
            r@ == kind_label(*self),
    {
        match self {
            ErrorKind::NotFound => "not found",
            ErrorKind::AlreadyExists => "already exists",
            ErrorKind::InvalidState => "invalid state",
            ErrorKind::Config => "configuration error",
            ErrorKind::Engine => "engine error",
            ErrorKind::Guest => "guest error",
            ErrorKind::Storage => "storage error",
            ErrorKind::Database => "database error",
            ErrorKind::Image => "image error",
            ErrorKind::Network => "network error",
            ErrorKind::Stopped => "stopped",
            ErrorKind::Unsupported => "unsupported",
            ErrorKind::Internal => "internal error",
        }
    }

    pub fn exit_code(&self) -> (r: i32)
        ensures
            r == kind_exit_code(*self),
    {
        match self {
            ErrorKind::Config => 2,
            ErrorKind::Engine => 125,
            ErrorKind::Image => 125,
            _ => 1,
        }
    }
}

impl BoxliteError {
    pub open spec fn spec_kind(&self) -> ErrorKind {
        match self {
            BoxliteError::NotFound(_) => ErrorKind::NotFound,
            BoxliteError::AlreadyExists(_) => ErrorKind::AlreadyExists,
            BoxliteError::InvalidState(_) => ErrorKind::InvalidState,
            BoxliteError::Config(_) => ErrorKind::Config,
            BoxliteError::Engine(_) => ErrorKind::Engine,
            BoxliteError::Guest(_) => ErrorKind::Guest,
            BoxliteError::Storage(_) => ErrorKind::Storage,
            BoxliteError::Database(_) => ErrorKind::Database,
            BoxliteError::Image(_) => ErrorKind::Image,
            BoxliteError::Network(_) => ErrorKind::Network,
            BoxliteError::Stopped(_) => ErrorKind::Stopped,
            BoxliteError::Unsupported(_) => ErrorKind::Unsupported,
            BoxliteError::Internal(_) => ErrorKind::Internal,
        }
    }

    pub open spec fn spec_message(&self) -> Seq<char> {
        match self {
            BoxliteError::NotFound(m) => m@,
            BoxliteError::AlreadyExists(m) => m@,
            BoxliteError::InvalidState(m) => m@,
            BoxliteError::Config(m) => m@,
            BoxliteError::Engine(m) => m@,
            BoxliteError::Guest(m) => m@,
            BoxliteError::Storage(m) => m@,
            BoxliteError::Database(m) => m@,
            BoxliteError::Image(m) => m@,
            BoxliteError::Network(m) => m@,
            BoxliteError::Stopped(m) => m@,
            BoxliteError::Unsupported(m) => m@,
            BoxliteError::Internal(m) => m@,
        }
    }

    /// An error of the given kind with the given message.
    pub fn new(kind: ErrorKind, message: String) -> (e: BoxliteError)
        ensures
            e.deep_view() == (ErrorView { kind, message: message@ }),
    {
        match kind {
            ErrorKind::NotFound => BoxliteError::NotFound(message),
            ErrorKind::AlreadyExists => BoxliteError::AlreadyExists(message),
            ErrorKind::InvalidState => BoxliteError::InvalidState(message),
            ErrorKind::Config => BoxliteError::Config(message),
            ErrorKind::Engine => BoxliteError::Engine(message),
            ErrorKind::Guest => BoxliteError::Guest(message),
            ErrorKind::Storage => BoxliteError::Storage(message),
            ErrorKind::Database => BoxliteError::Database(message),
            ErrorKind::Image => BoxliteError::Image(message),
            ErrorKind::Network => BoxliteError::Network(message),
            ErrorKind::Stopped => BoxliteError::Stopped(message),
            ErrorKind::Unsupported => BoxliteError::Unsupported(message),
            ErrorKind::Internal => BoxliteError::Internal(message),
        }
    }

    pub fn kind(&self) -> (k: ErrorKind)
        ensures
            k == self.spec_kind(),
    {
        match self {
            BoxliteError::NotFound(_) => ErrorKind::NotFound,
            BoxliteError::AlreadyExists(_) => ErrorKind::AlreadyExists,
            BoxliteError::InvalidState(_) => ErrorKind::InvalidState,
            BoxliteError::Config(_) => ErrorKind::Config,
            BoxliteError::Engine(_) => ErrorKind::Engine,
            BoxliteError::Guest(_) => ErrorKind::Guest,
            BoxliteError::Storage(_) => ErrorKind::Storage,
            BoxliteError::Database(_) => ErrorKind::Database,
            BoxliteError::Image(_) => ErrorKind::Image,
            BoxliteError::Network(_) => ErrorKind::Network,
            BoxliteError::Stopped(_) => ErrorKind::Stopped,
            BoxliteError::Unsupported(_) => ErrorKind::Unsupported,
            BoxliteError::Internal(_) => ErrorKind::Internal,
        }
    }

    pub fn message(&self) -> (m: &str)
        ensures
            m@ == self.spec_message(),
    {
        match self {
            BoxliteError::NotFound(m) => m.as_str(),
            BoxliteError::AlreadyExists(m) => m.as_str(),
            BoxliteError::InvalidState(m) => m.as_str(),
            BoxliteError::Config(m) => m.as_str(),
            BoxliteError::Engine(m) => m.as_str(),
            BoxliteError::Guest(m) => m.as_str(),
            BoxliteError::Storage(m) => m.as_str(),
            BoxliteError::Database(m) => m.as_str(),
            BoxliteError::Image(m) => m.as_str(),
            BoxliteError::Network(m) => m.as_str(),
            BoxliteError::Stopped(m) => m.as_str(),
            BoxliteError::Unsupported(m) => m.as_str(),
            BoxliteError::Internal(m) => m.as_str(),
        }
    }

    /// The printed form: the kind's label, a colon and the message.
    pub fn to_string(&self) -> (s: String)
        ensures
            s@ == kind_label(self.spec_kind()) + ": "@ + self.spec_message(),
    {
        let mut out: Vec<char> = chars_of(self.kind().label());
        push_str(&mut out, ": ");
        let m = chars_of(self.message());
        push_chars(&mut out, &m);
        string_of(&out)
    }

    /// The exit status that the command line reports for this failure.
    pub fn exit_code(&self) -> (r: i32)
        ensures
            r == kind_exit_code(self.spec_kind()),
    {
        self.kind().exit_code()
    }
}

/// A configuration error with the given message.
pub fn config_error(message: &Vec<char>) -> (e: BoxliteError)
    ensures
        e.deep_view() == (ErrorView { kind: ErrorKind::Config, message: message@ }),
{
    BoxliteError::Config(string_of(message))
}

} // verus!
