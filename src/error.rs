use vstd::prelude::*;

verus! {

/// The closed set of failure classes shared by the client and the daemon.
#[derive(Debug, PartialEq, Eq)]
pub enum Error {
    /// The model could not be opened or prepared.
    ModelLoad(String),
    /// A socket or filesystem failure at the boundary.
    Io(String),
    /// A malformed or unsupported wire message.
    Protocol(String),
    /// The connect deadline passed.
    Timeout,
    /// Anything else.
    Unknown,
}

pub type Result<T> = core::result::Result<T, Error>;

/// The human-readable text of an error.
pub open spec fn message_of(e: Error) -> Seq<char> {
    match e {
        Error::ModelLoad(m) => "model load failed: "@ + m@,
        Error::Io(m) => "io error: "@ + m@,
        Error::Protocol(m) => "socket protocol error: "@ + m@,
        Error::Timeout => "timeout"@,
        Error::Unknown => "unknown"@,
    }
}

/// The error's own text, without the class: what an error frame carries.
pub open spec fn detail_of(e: Error) -> Seq<char> {
    match e {
        Error::ModelLoad(m) => m@,
        Error::Io(m) => m@,
        Error::Protocol(m) => m@,
        Error::Timeout => "timeout"@,
        Error::Unknown => "unknown"@,
    }
}

/// The tag that names an error's class on the wire.
pub open spec fn kind_tag_of(e: Error) -> Seq<char> {
    match e {
        Error::ModelLoad(_) => "ModelLoad"@,
        Error::Io(_) => "Io"@,
        Error::Protocol(_) => "Protocol"@,
        Error::Timeout => "Timeout"@,
        Error::Unknown => "Unknown"@,
    }
}

/// The client's process exit status for an error.
pub open spec fn exit_code_of(e: Error) -> i32 {
    match e {
        Error::Io(_) => 2,
        Error::ModelLoad(_) => 3,
        Error::Timeout => 4,
        Error::Protocol(_) | Error::Unknown => 1,
    }
}

impl Error {
    /// Renders the error as one line of text.
    pub fn message(&self) -> (r: String)
        ensures
            r@ == message_of(*self),
    {
        match self {
            Error::ModelLoad(m) => "model load failed: ".to_owned().concat(m.as_str()),
            Error::Io(m) => "io error: ".to_owned().concat(m.as_str()),
            Error::Protocol(m) => "socket protocol error: ".to_owned().concat(m.as_str()),
            Error::Timeout => "timeout".to_owned(),
            Error::Unknown => "unknown".to_owned(),
        }
    }

    /// The error's own text, without the class.
    pub fn detail(&self) -> (r: String)
        ensures
            r@ == detail_of(*self),
    {
        match self {
            Error::ModelLoad(m) => m.clone(),
            Error::Io(m) => m.clone(),
            Error::Protocol(m) => m.clone(),
            Error::Timeout => "timeout".to_owned(),
            Error::Unknown => "unknown".to_owned(),
        }
    }

    /// The wire tag of the error's class.
    pub fn kind_tag(&self) -> (r: &'static str)
        ensures
            r@ == kind_tag_of(*self),
    {
        match self {
            Error::ModelLoad(_) => "ModelLoad",
            Error::Io(_) => "Io",
            Error::Protocol(_) => "Protocol",
            Error::Timeout => "Timeout",
            Error::Unknown => "Unknown",
        }
    }

    /// The exit status the client reports for this error.
    pub fn exit_code(&self) -> (r: i32)
        ensures
            r == exit_code_of(*self),
    {
        match self {
            Error::Io(_) => 2,
            Error::ModelLoad(_) => 3,
            Error::Timeout => 4,
            Error::Protocol(_) | Error::Unknown => 1,
        }
    }
}

} // verus!
