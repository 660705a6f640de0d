//! The authentication state of one connection, and the server policy that
//! the engine consults.

use vstd::prelude::*;

verus! {

/// The account that an authenticated session works on.
#[derive(Clone, Copy, Debug, PartialEq, Eq, Structural)]
pub struct Mailbox {
    /// Identifies the account for authorisation and rate limiting.
    pub account_id: u32,
}

/// The authentication state machine.
///
/// A pending user name exists only inside `NotAuthenticated`, so a session
/// that is logged in cannot hold one.
#[derive(Clone, Debug, PartialEq, Eq)]
pub enum State {
    /// Before credentials were accepted. `username` is the name that a
    /// `USER` command supplied and that waits for its `PASS`.
    NotAuthenticated { username: Option<String> },
    /// After credentials were accepted.
    Authenticated { mailbox: Mailbox },
}

/// The mathematical value of a [`State`].
pub ghost enum StateView {
    NotAuthenticated { username: Option<Seq<char>> },
    Authenticated { mailbox: Mailbox },
}

impl View for State {
    type V = StateView;

    open spec fn view(&self) -> StateView {
        match *self {
            State::NotAuthenticated { username } => StateView::NotAuthenticated {
                username: match username {
                    Some(name) => Some(name@),
                    None => None,
                },
            },
            State::Authenticated { mailbox } => StateView::Authenticated { mailbox },
        }
    }
}

impl State {
    /// The state in which every connection starts.
    pub fn new() -> (state: State)
        ensures
            state@ == (StateView::NotAuthenticated { username: None }),
    {
        State::NotAuthenticated { username: None }
    }

    /// Whether credentials were accepted.
    pub fn is_authenticated(&self) -> (r: bool)
        ensures
            r == (self@ is Authenticated),
    {
        match self {
            State::Authenticated { .. } => true,
            State::NotAuthenticated { .. } => false,
        }
    }
}

/// The server policy flags that the engine reads.
#[derive(Clone, Copy, Debug, PartialEq, Eq, Structural)]
pub struct Policy {
    /// Whether credentials may cross an unencrypted transport.
    pub allow_plain_auth: bool,
    /// Whether a request-rate limit is configured.
    pub rate_limited: bool,
}

} // verus!
