//! What an approved command asks of the handler layer, and what it does to
//! the session's state on the way.

use vstd::prelude::*;
use vstd::string::*;
use crate::error::{Error, ErrorView, Reason};
use crate::listener::SessionResult;
use crate::protocol::{Command, CommandView, Mechanism};
use crate::state::{State, StateView};

verus! {

/// A user name and the secret that was sent for it, both in the clear.
#[derive(Clone, Debug, PartialEq, Eq)]
pub struct PlainCredentials {
    pub username: String,
    pub secret: String,
}

/// One invocation of the handler layer.
#[derive(Clone, Debug, PartialEq, Eq)]
pub enum Call {
    /// Acknowledge with `message`; nothing else is to be done.
    WriteOk { message: String },
    /// Check the credentials and, if they are good, log the session in.
    Authenticate { credentials: PlainCredentials },
    /// Continue or finish a SASL exchange.
    Sasl { mechanism: Mechanism, params: Vec<String> },
    Quit,
    Stat,
    List { msg: Option<u32> },
    /// Send message `msg`: all of it, or its headers and `lines` lines.
    Fetch { msg: u32, lines: Option<u32> },
    /// Mark every message of `msgs` as deleted.
    Dele { msgs: Vec<u32> },
    Uidl { msg: Option<u32> },
    Rset,
    Capa,
    Stls,
    Utf8,
}

/// The mathematical value of a [`Call`].
pub ghost enum CallView {
    WriteOk { message: Seq<char> },
    Authenticate { username: Seq<char>, secret: Seq<char> },
    Sasl { mechanism: Mechanism, params: Seq<Seq<char>> },
    Quit,
    Stat,
    List { msg: Option<u32> },
    Fetch { msg: u32, lines: Option<u32> },
    Dele { msgs: Seq<u32> },
    Uidl { msg: Option<u32> },
    Rset,
    Capa,
    Stls,
    Utf8,
}

impl View for Call {
    type V = CallView;

    open spec fn view(&self) -> CallView {
        match *self {
            Call::WriteOk { message } => CallView::WriteOk { message: message@ },
            Call::Authenticate { credentials } => CallView::Authenticate {
                username: credentials.username@,
                secret: credentials.secret@,
            },
            Call::Sasl { mechanism, params } => CallView::Sasl {
                mechanism,
                params: Seq::new(params@.len(), |i: int| params@[i]@),
            },
            Call::Quit => CallView::Quit,
            Call::Stat => CallView::Stat,
            Call::List { msg } => CallView::List { msg },
            Call::Fetch { msg, lines } => CallView::Fetch { msg, lines },
            Call::Dele { msgs } => CallView::Dele { msgs: msgs@ },
            Call::Uidl { msg } => CallView::Uidl { msg },
            Call::Rset => CallView::Rset,
            Call::Capa => CallView::Capa,
            Call::Stls => CallView::Stls,
            Call::Utf8 => CallView::Utf8,
        }
    }
}

impl CallView {
    /// What the connection driver is told once this call has succeeded.
    pub open spec fn outcome(self) -> SessionResult {
        match self {
            CallView::Quit => SessionResult::Close,
            CallView::Stls => SessionResult::UpgradeTls,
            _ => SessionResult::Continue,
        }
    }
}

impl Call {
    /// What the connection driver is told once this call has succeeded.
    pub fn outcome(&self) -> (r: SessionResult)
        ensures
            r == self@.outcome(),
    {
        match self {
            Call::Quit => SessionResult::Close,
            Call::Stls => SessionResult::UpgradeTls,
            _ => SessionResult::Continue,
        }
    }
}

/// Whether `command` can be dispatched in `state`: `USER` and `PASS` work
/// on the pending user name, which only a session that is not logged in
/// has, and `PASS` needs one to be there. The validator approves these
/// commands in no other state.
pub open spec fn dispatchable(state: StateView, command: CommandView) -> bool {
    match command {
        CommandView::User { .. } => state is NotAuthenticated,
        CommandView::Pass { .. } => state matches StateView::NotAuthenticated { username }
            && username is Some,
        _ => true,
    }
}

/// The state after an approved `command` was dispatched in `state`.
pub open spec fn state_after(state: StateView, command: CommandView) -> StateView {
    match command {
        CommandView::User { name } => StateView::NotAuthenticated { username: Some(name) },
        CommandView::Pass { .. } => StateView::NotAuthenticated { username: None },
        _ => state,
    }
}

/// The handler invocation that an approved `command` stands for in
/// `state`, or the error with which it is turned down after all.
pub open spec fn call_for(state: StateView, command: CommandView) -> Result<CallView, ErrorView> {
    match command {
        CommandView::User { name } => Ok(
            CallView::WriteOk { message: name + " is a valid mailbox"@ },
        ),
        CommandView::Pass { string } => Ok(
            CallView::Authenticate {
                username: state->NotAuthenticated_username->Some_0,
                secret: string,
            },
        ),
        CommandView::Apop { .. } => Err(ErrorView::Rejected(Reason::ApopUnsupported)),
        CommandView::Quit => Ok(CallView::Quit),
        CommandView::Stat => Ok(CallView::Stat),
        CommandView::List { msg } => Ok(CallView::List { msg }),
        CommandView::Retr { msg } => Ok(CallView::Fetch { msg, lines: None }),
        CommandView::Dele { msg } => Ok(CallView::Dele { msgs: seq![msg] }),
        CommandView::DeleMany { msgs } => Ok(CallView::Dele { msgs }),
        CommandView::Top { msg, n } => Ok(CallView::Fetch { msg, lines: Some(n) }),
        CommandView::Uidl { msg } => Ok(CallView::Uidl { msg }),
        CommandView::Noop => Ok(CallView::WriteOk { message: "NOOP"@ }),
        CommandView::Rset => Ok(CallView::Rset),
        CommandView::Capa => Ok(CallView::Capa),
        CommandView::Stls => Ok(CallView::Stls),
        CommandView::Utf8 => Ok(CallView::Utf8),
        CommandView::Auth { mechanism, params } => Ok(CallView::Sasl { mechanism, params }),
    }
}

/// Dispatches an approved `command`: makes the state transition that
/// belongs to it and says which handler is to run.
///
/// `USER` stores its name as the pending user name, replacing any earlier
/// one. `PASS` takes the pending name out of the state and pairs it with
/// its secret. No other command touches the state.
pub fn dispatch(state: &mut State, command: Command) -> (r: Result<Call, Error>)
    requires
        dispatchable(old(state)@, command@),
    ensures
        final(state)@ == state_after(old(state)@, command@),
        match call_for(old(state)@, command@) {
            Ok(call) => r is Ok && r->Ok_0@ == call,
            Err(error) => r is Err && r->Err_0@ == error,
        },
{
    match command {
        Command::User { name } => {
            let message = name.clone().concat(" is a valid mailbox");
            *state = State::NotAuthenticated { username: Some(name) };
            Ok(Call::WriteOk { message })
        },
        Command::Pass { string } => {
            let pending = match state {
                State::NotAuthenticated { username } => username.take(),
                State::Authenticated { .. } => None,
            };
            match pending {
                Some(username) => Ok(
                    Call::Authenticate { credentials: PlainCredentials { username, secret: string } },
                ),
                None => Err(Error::Rejected(Reason::UsernameMissing)),
            }
        },
        Command::Apop { .. } => Err(Error::Rejected(Reason::ApopUnsupported)),
        Command::Quit => Ok(Call::Quit),
        Command::Stat => Ok(Call::Stat),
        Command::List { msg } => Ok(Call::List { msg }),
        Command::Retr { msg } => Ok(Call::Fetch { msg, lines: None }),
        Command::Dele { msg } => {
            let mut msgs: Vec<u32> = Vec::new();
            msgs.push(msg);
            assert(msgs@ =~= seq![msg]);
            Ok(Call::Dele { msgs })
        },
        Command::DeleMany { msgs } => Ok(Call::Dele { msgs }),
        Command::Top { msg, n } => Ok(Call::Fetch { msg, lines: Some(n) }),
        Command::Uidl { msg } => Ok(Call::Uidl { msg }),
        Command::Noop => Ok(Call::WriteOk { message: String::from_str("NOOP") }),
        Command::Rset => Ok(Call::Rset),
        Command::Capa => Ok(Call::Capa),
        Command::Stls => Ok(Call::Stls),
        Command::Utf8 => Ok(Call::Utf8),
        Command::Auth { mechanism, params } => Ok(Call::Sasl { mechanism, params }),
    }
}

} // verus!
