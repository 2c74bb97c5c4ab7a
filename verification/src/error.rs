//! Errors reported by the library.

use vstd::prelude::*;

verus! {

/// Failure of an operation of the client, each with a human readable detail.
#[derive(Debug, PartialEq, Eq, Clone)]
pub enum Error {
    /// The server refused the client's credentials.
    Authorization(String),
    /// The HTTP client could not complete a request.
    Client(String),
    /// A command could not be interpreted.
    Command(String),
    /// Reading or writing local storage failed.
    Io(String),
    /// A package manager reported a failure.
    Package(String),
    /// Some input could not be parsed.
    Parse(String),
}

impl Error {
    /// The text that the message of an error consists of.
    pub open spec fn message_view(&self) -> Seq<char> {
        match self {
            Error::Authorization(s) => "Http client authorization error: "@ + s@,
            Error::Client(s) => "Http client error: "@ + s@,
            Error::Command(s) => "Unknown Command: "@ + s@,
            Error::Io(s) => "IO error: "@ + s@,
            Error::Package(s) => "Package error: "@ + s@,
            Error::Parse(s) => "Parse error: "@ + s@,
        }
    }

    /// The human readable message of the error.
    pub fn message(&self) -> (m: String)
        ensures
            m@ == self.message_view(),
    {
        match self {
            Error::Authorization(s) => String::from_str("Http client authorization error: ").concat(s.as_str()),
            Error::Client(s) => String::from_str("Http client error: ").concat(s.as_str()),
            Error::Command(s) => String::from_str("Unknown Command: ").concat(s.as_str()),
            Error::Io(s) => String::from_str("IO error: ").concat(s.as_str()),
            Error::Package(s) => String::from_str("Package error: ").concat(s.as_str()),
            Error::Parse(s) => String::from_str("Parse error: ").concat(s.as_str()),
        }
    }
}

} // verus!
