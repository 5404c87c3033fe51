//! The closed set of failures that an operation can end in.

use vstd::prelude::*;

verus! {

/// Why an operation failed.
#[derive(Debug)]
pub enum Error {
    /// The request could not be sent or no response came back: the address
    /// is not a URL, or the transport reported a failure.
    Network(String),
    /// The service answered with a status outside 200..=299.
    Api { status: u16, body: String },
    /// The service answered with a success status but broke the protocol.
    Protocol(String),
    /// The response body does not have the expected shape.
    Parse(String),
}

/// An [`Error`] as plain data.
pub enum ErrorView {
    Network(Seq<char>),
    Api { status: u16, body: Seq<char> },
    Protocol(Seq<char>),
    Parse(Seq<char>),
}

impl View for Error {
    type V = ErrorView;

    open spec fn view(&self) -> ErrorView {
        match self {
            Error::Network(m) => ErrorView::Network(m@),
            Error::Api { status, body } => ErrorView::Api { status: *status, body: body@ },
            Error::Protocol(m) => ErrorView::Protocol(m@),
            Error::Parse(m) => ErrorView::Parse(m@),
        }
    }
}

/// The message of the protocol error of a creation without a `Location`.
pub open spec fn missing_location() -> Seq<char> {
    "Can't create issue."@
}

/// The message of every parse error.
pub open spec fn unparsable() -> Seq<char> {
    "Can't parse json"@
}

/// The message of the network error of an address that is not a URL.
pub open spec fn bad_url(address: Seq<char>) -> Seq<char> {
    "Can't parse url: "@ + address
}

impl Error {
    /// The parse error.
    pub fn parse() -> (e: Error)
        ensures
            e@ == ErrorView::Parse(unparsable()),
    {
        Error::Parse(String::from_str("Can't parse json"))
    }

    /// The status that an API error carries.
    pub fn status(&self) -> (s: Option<u16>)
        ensures
            s == match self@ {
                ErrorView::Api { status, .. } => Some(status),
                _ => None,
            },
    {
        match self {
            Error::Api { status, .. } => Some(*status),
            _ => None,
        }
    }
}

} // verus!
