//! Why a command was not carried out, and what the client is told.

use vstd::prelude::*;
use vstd::string::*;

verus! {

/// The fixed reasons for which the engine itself turns a command down.
#[derive(Clone, Copy, Debug, PartialEq, Eq, Structural)]
pub enum Reason {
    /// A mailbox command arrived before the client logged in.
    NotAuthenticated,
    /// A login command arrived after the client logged in.
    AlreadyAuthenticated,
    /// Credentials would cross an unencrypted transport and policy forbids it.
    PlainTextForbidden,
    /// `PASS` arrived with no pending `USER`.
    UsernameMissing,
    /// `STLS` arrived on a transport that is already encrypted.
    AlreadyTls,
    /// `APOP` is recognised and never served.
    ApopUnsupported,
    /// The account went over its request-rate limit.
    TooManyRequests,
}

/// How telemetry files an error.
#[derive(Clone, Copy, Debug, PartialEq, Eq, Structural)]
pub enum Classification {
    /// A protocol-level error: bad input, or a command out of place.
    Protocol,
    /// Throttling.
    Limit,
    /// A collaborator (store, directory, handler) failed.
    Service,
}

/// An error that is written back to the client.
#[derive(Clone, Debug, PartialEq, Eq)]
pub enum Error {
    /// The engine turned the command down.
    Rejected(Reason),
    /// The parser consumed a malformed unit; `detail` is its description.
    Malformed { detail: String },
    /// A collaborator failed; `detail` is its description.
    Service { detail: String },
}

/// The mathematical value of an [`Error`].
pub ghost enum ErrorView {
    Rejected(Reason),
    Malformed { detail: Seq<char> },
    Service { detail: Seq<char> },
}

impl Reason {
    /// How this reason is filed: throttling apart from everything else.
    pub open spec fn classification(self) -> Classification {
        if self == Reason::TooManyRequests {
            Classification::Limit
        } else {
            Classification::Protocol
        }
    }

    /// The text sent to the client.
    pub open spec fn details(self) -> Seq<char> {
        match self {
            Reason::NotAuthenticated => "Not authenticated."@,
            Reason::AlreadyAuthenticated => "Already authenticated."@,
            Reason::PlainTextForbidden => "Cannot authenticate over plain-text."@,
            Reason::UsernameMissing => "Username was not provided."@,
            Reason::AlreadyTls => "Already in TLS mode."@,
            Reason::ApopUnsupported => "APOP not supported."@,
            Reason::TooManyRequests => "Too many requests."@,
        }
    }

    /// How this reason is filed.
    pub fn classify(self) -> (c: Classification)
        ensures
            c == self.classification(),
    {
        match self {
            Reason::TooManyRequests => Classification::Limit,
            _ => Classification::Protocol,
        }
    }

    /// The text sent to the client.
    pub fn message(self) -> (text: &'static str)
        ensures
            text@ == self.details(),
    {
        match self {
            Reason::NotAuthenticated => "Not authenticated.",
            Reason::AlreadyAuthenticated => "Already authenticated.",
            Reason::PlainTextForbidden => "Cannot authenticate over plain-text.",
            Reason::UsernameMissing => "Username was not provided.",
            Reason::AlreadyTls => "Already in TLS mode.",
            Reason::ApopUnsupported => "APOP not supported.",
            Reason::TooManyRequests => "Too many requests.",
        }
    }
}

impl View for Error {
    type V = ErrorView;

    open spec fn view(&self) -> ErrorView {
        match *self {
            Error::Rejected(reason) => ErrorView::Rejected(reason),
            Error::Malformed { detail } => ErrorView::Malformed { detail: detail@ },
            Error::Service { detail } => ErrorView::Service { detail: detail@ },
        }
    }
}

impl ErrorView {
    /// How this error is filed.
    pub open spec fn classification(self) -> Classification {
        match self {
            ErrorView::Rejected(reason) => reason.classification(),
            ErrorView::Malformed { .. } => Classification::Protocol,
            ErrorView::Service { .. } => Classification::Service,
        }
    }

    /// The text sent to the client.
    pub open spec fn details(self) -> Seq<char> {
        match self {
            ErrorView::Rejected(reason) => reason.details(),
            ErrorView::Malformed { detail } => detail,
            ErrorView::Service { detail } => detail,
        }
    }
}

impl Error {
    /// How this error is filed.
    pub fn classify(&self) -> (c: Classification)
        ensures
            c == self@.classification(),
    {
        match self {
            Error::Rejected(reason) => reason.classify(),
            Error::Malformed { .. } => Classification::Protocol,
            Error::Service { .. } => Classification::Service,
        }
    }

    /// The text sent to the client.
    pub fn message(&self) -> (text: String)
        ensures
            text@ == self@.details(),
    {
        match self {
            Error::Rejected(reason) => String::from_str(reason.message()),
            Error::Malformed { detail } => detail.clone(),
            Error::Service { detail } => detail.clone(),
        }
    }
}

} // verus!
