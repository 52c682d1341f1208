//! The ways in which a request can fail.

use vstd::prelude::*;

verus! {

/// A way in which the service broke its own protocol. None of these is worth
/// a second attempt.
#[derive(Debug, Clone, Copy, PartialEq, Eq, Structural)]
pub enum Fault {
    /// The reply came with a status that the protocol does not know.
    UnexpectedStatus(u16),
    /// The body of the reply is not JSON, or holds a longer run of digits
    /// than can be parsed.
    MalformedBody,
    /// A row lacks a cell, or holds one that cannot be read as the value of
    /// the statistic asked for at its position.
    UnreadableRow,
    /// The reply goes on beyond the last page that can be numbered.
    TooManyPages,
}

/// Why a request gave no data.
#[derive(Debug, Clone, PartialEq, Eq)]
pub enum Error {
    /// No reply could be had; the text is what the transport said of it.
    RequestErr(String),
    /// The service has no data for the request (status 204).
    NoData,
    /// The service refuses further requests for the moment (status 429).
    TooManyRequests,
    /// The service answered, but not as its protocol says.
    Protocol(Fault),
}

/// What an [`Error`] stands for.
pub enum ErrorView {
    RequestErr(Seq<char>),
    NoData,
    TooManyRequests,
    Protocol(Fault),
}

impl View for Error {
    type V = ErrorView;

    open spec fn view(&self) -> ErrorView {
        match self {
            Error::RequestErr(cause) => ErrorView::RequestErr(cause@),
            Error::NoData => ErrorView::NoData,
            Error::TooManyRequests => ErrorView::TooManyRequests,
            Error::Protocol(fault) => ErrorView::Protocol(*fault),
        }
    }
}

} // verus!
