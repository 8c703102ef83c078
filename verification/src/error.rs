//! Error kinds of the controller: configuration, hardware, transport,
//! strategy selection and command errors, each carrying a message.

use vstd::prelude::*;
use vstd::string::StringExecFns;

verus! {

/// All failures the controller and its command protocol can report.
#[derive(Debug, Clone)]
pub enum Error {
    /// An input/output failure, reported by the surrounding process.
    Io(String),
    /// A malformed or inconsistent configuration.
    Config(String),
    /// An embedded-controller (sensor or fan) failure.
    Ec(String),
    /// A connection or transport failure on the command channel.
    Socket(String),
    /// A request for a strategy name the configuration does not know.
    Strategy(String),
    /// A malformed or unknown command.
    Command(String),
}

/// The text a rendered `Error` starts with, by variant.
pub open spec fn error_prefix(e: Error) -> Seq<char> {
    match e {
        Error::Io(_) => "IO error: "@,
        Error::Config(_) => "Config error: "@,
        Error::Ec(_) => "EC error: "@,
        Error::Socket(_) => "Socket error: "@,
        Error::Strategy(_) => "Strategy error: "@,
        Error::Command(_) => "Invalid command: "@,
    }
}

/// The message payload of an `Error`, whatever its variant.
pub open spec fn error_payload(e: Error) -> Seq<char> {
    match e {
        Error::Io(m) => m@,
        Error::Config(m) => m@,
        Error::Ec(m) => m@,
        Error::Socket(m) => m@,
        Error::Strategy(m) => m@,
        Error::Command(m) => m@,
    }
}

impl Error {
    /// Human-readable rendering: a variant prefix followed by the payload.
    pub fn message(&self) -> (r: String)
        ensures
            r@ == error_prefix(*self) + error_payload(*self),
    {
        let prefix: &str = match self {
            Error::Io(_) => "IO error: ",
            Error::Config(_) => "Config error: ",
            Error::Ec(_) => "EC error: ",
            Error::Socket(_) => "Socket error: ",
            Error::Strategy(_) => "Strategy error: ",
            Error::Command(_) => "Invalid command: ",
        };
        let payload: &str = match self {
            Error::Io(m) => m.as_str(),
            Error::Config(m) => m.as_str(),
            Error::Ec(m) => m.as_str(),
            Error::Socket(m) => m.as_str(),
            Error::Strategy(m) => m.as_str(),
            Error::Command(m) => m.as_str(),
        };
        let mut r = String::from_str(prefix);
        r.append(payload);
        r
    }
}

} // verus!
