//! The command model: one variant per protocol verb.

use vstd::prelude::*;

verus! {

/// SASL mechanisms that the `AUTH` verb can name.
#[derive(Clone, Copy, Debug, PartialEq, Eq, Structural)]
pub enum Mechanism {
    Plain,
    CramMd5,
    DigestMd5,
    ScramSha1,
    ScramSha256,
    Apop,
    Ntlm,
    Gssapi,
    Anonymous,
    External,
    OAuthBearer,
    XOauth2,
}

/// One parsed protocol verb with its arguments.
///
/// `Dele` and `DeleMany` mean the same to the handler layer; the second is
/// what contiguous single deletes are folded into while a chunk is read.
#[derive(Clone, Debug, PartialEq, Eq)]
pub enum Command {
    User { name: String },
    Pass { string: String },
    Apop { name: String, digest: String },
    Quit,
    Stat,
    List { msg: Option<u32> },
    Retr { msg: u32 },
    Dele { msg: u32 },
    DeleMany { msgs: Vec<u32> },
    Noop,
    Rset,
    Top { msg: u32, n: u32 },
    Uidl { msg: Option<u32> },
    Capa,
    Stls,
    Utf8,
    Auth { mechanism: Mechanism, params: Vec<String> },
}

/// The mathematical value of a [`Command`].
pub ghost enum CommandView {
    User { name: Seq<char> },
    Pass { string: Seq<char> },
    Apop { name: Seq<char>, digest: Seq<char> },
    Quit,
    Stat,
    List { msg: Option<u32> },
    Retr { msg: u32 },
    Dele { msg: u32 },
    DeleMany { msgs: Seq<u32> },
    Noop,
    Rset,
    Top { msg: u32, n: u32 },
    Uidl { msg: Option<u32> },
    Capa,
    Stls,
    Utf8,
    Auth { mechanism: Mechanism, params: Seq<Seq<char>> },
}

/// What the incremental parser reports in place of a command.
#[derive(Clone, Debug, PartialEq, Eq)]
pub enum ParseError {
    /// The buffer ends inside a command: nothing was consumed, and the rest
    /// of the command has yet to arrive.
    NeedsMoreData,
    /// A malformed unit was consumed; `detail` describes it.
    Parse { detail: String },
}

/// The classes of command that the request validator tells apart.
#[derive(Clone, Copy, Debug, PartialEq, Eq, Structural)]
pub enum CommandClass {
    /// Capability listing, quit and no-op.
    Always,
    /// `USER`, `APOP` and `AUTH PLAIN`: credentials that travel in the clear.
    PlainCredentials,
    /// `PASS`: like the above, and it needs a pending user name.
    Secret,
    /// `AUTH` with any mechanism but `PLAIN`.
    ProtectedAuth,
    /// `STLS`.
    TransportUpgrade,
    /// Everything that works on the mailbox.
    Mailbox,
}

impl View for Command {
    type V = CommandView;

    open spec fn view(&self) -> CommandView {
        match *self {
            Command::User { name } => CommandView::User { name: name@ },
            Command::Pass { string } => CommandView::Pass { string: string@ },
            Command::Apop { name, digest } => CommandView::Apop { name: name@, digest: digest@ },
            Command::Quit => CommandView::Quit,
            Command::Stat => CommandView::Stat,
            Command::List { msg } => CommandView::List { msg },
            Command::Retr { msg } => CommandView::Retr { msg },
            Command::Dele { msg } => CommandView::Dele { msg },
            Command::DeleMany { msgs } => CommandView::DeleMany { msgs: msgs@ },
            Command::Noop => CommandView::Noop,
            Command::Rset => CommandView::Rset,
            Command::Top { msg, n } => CommandView::Top { msg, n },
            Command::Uidl { msg } => CommandView::Uidl { msg },
            Command::Capa => CommandView::Capa,
            Command::Stls => CommandView::Stls,
            Command::Utf8 => CommandView::Utf8,
            Command::Auth { mechanism, params } => CommandView::Auth {
                mechanism,
                params: Seq::new(params@.len(), |i: int| params@[i]@),
            },
        }
    }
}

impl CommandView {
    /// The class under which the validator judges this command.
    pub open spec fn class(self) -> CommandClass {
        match self {
            CommandView::Capa | CommandView::Quit | CommandView::Noop => CommandClass::Always,
            CommandView::User { .. } | CommandView::Apop { .. } => CommandClass::PlainCredentials,
            CommandView::Auth { mechanism, .. } => if mechanism == Mechanism::Plain {
                CommandClass::PlainCredentials
            } else {
                CommandClass::ProtectedAuth
            },
            CommandView::Pass { .. } => CommandClass::Secret,
            CommandView::Stls => CommandClass::TransportUpgrade,
            CommandView::List { .. }
            | CommandView::Retr { .. }
            | CommandView::Dele { .. }
            | CommandView::DeleMany { .. }
            | CommandView::Top { .. }
            | CommandView::Uidl { .. }
            | CommandView::Utf8
            | CommandView::Stat
            | CommandView::Rset => CommandClass::Mailbox,
        }
    }

    /// Whether this is a single delete or a batch of deletes.
    pub open spec fn is_delete(self) -> bool {
        self is Dele || self is DeleMany
    }

    /// The message numbers that a delete command names, in order; empty for
    /// any other command.
    pub open spec fn deleted(self) -> Seq<u32> {
        match self {
            CommandView::Dele { msg } => seq![msg],
            CommandView::DeleMany { msgs } => msgs,
            _ => Seq::empty(),
        }
    }
}

impl Command {
    /// The class under which the validator judges this command.
    pub fn class(&self) -> (c: CommandClass)
        ensures
            c == self@.class(),
    {
        match self {
            Command::Capa | Command::Quit | Command::Noop => CommandClass::Always,
            Command::User { .. } | Command::Apop { .. } => CommandClass::PlainCredentials,
            Command::Auth { mechanism, .. } => match mechanism {
                Mechanism::Plain => CommandClass::PlainCredentials,
                _ => CommandClass::ProtectedAuth,
            },
            Command::Pass { .. } => CommandClass::Secret,
            Command::Stls => CommandClass::TransportUpgrade,
            Command::List { .. }
            | Command::Retr { .. }
            | Command::Dele { .. }
            | Command::DeleMany { .. }
            | Command::Top { .. }
            | Command::Uidl { .. }
            | Command::Utf8
            | Command::Stat
            | Command::Rset => CommandClass::Mailbox,
        }
    }
}

} // verus!
