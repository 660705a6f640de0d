//! The request validator: whether a command may run, given the session's
//! state, the transport and the server policy.
//!
//! The validator reads the state and never changes it. It does not look
//! the rate counter up itself: where a limit is configured its verdict
//! names the account whose counter decides.

use vstd::prelude::*;
use crate::error::{Error, ErrorView, Reason, Classification};
use crate::protocol::{Command, CommandClass, CommandView};
use crate::state::{Policy, State, StateView};

verus! {

/// What the validator decides about one command.
#[derive(Clone, Copy, Debug, PartialEq, Eq, Structural)]
pub enum Verdict {
    /// The command may be dispatched.
    Approved,
    /// The command may be dispatched if the account is under its rate
    /// limit; the counter for `account_id` has to be consulted first.
    RateCheck { account_id: u32 },
    /// The command is turned down.
    Rejected(Reason),
}

/// What the rate-limit counter store reported.
#[derive(Clone, Debug, PartialEq, Eq)]
pub enum RateOutcome {
    /// The account is under its limit.
    Allowed,
    /// The account is at or over its limit.
    Exceeded,
    /// The lookup itself failed; `detail` describes how.
    Failed { detail: String },
}

/// The mathematical value of a [`RateOutcome`].
pub ghost enum RateOutcomeView {
    Allowed,
    Exceeded,
    Failed { detail: Seq<char> },
}

impl View for RateOutcome {
    type V = RateOutcomeView;

    open spec fn view(&self) -> RateOutcomeView {
        match *self {
            RateOutcome::Allowed => RateOutcomeView::Allowed,
            RateOutcome::Exceeded => RateOutcomeView::Exceeded,
            RateOutcome::Failed { detail } => RateOutcomeView::Failed { detail: detail@ },
        }
    }
}

/// Whether credentials may be sent on this transport.
pub open spec fn credentials_protected(is_tls: bool, policy: Policy) -> bool {
    is_tls || policy.allow_plain_auth
}

/// The validator's rules.
pub open spec fn verdict(
    state: StateView,
    class: CommandClass,
    is_tls: bool,
    policy: Policy,
) -> Verdict {
    match class {
        CommandClass::Always => Verdict::Approved,
        CommandClass::PlainCredentials | CommandClass::Secret => match state {
            StateView::Authenticated { .. } => Verdict::Rejected(Reason::AlreadyAuthenticated),
            StateView::NotAuthenticated { username } => if !credentials_protected(
                is_tls,
                policy,
            ) {
                Verdict::Rejected(Reason::PlainTextForbidden)
            } else if class == CommandClass::Secret && username is None {
                Verdict::Rejected(Reason::UsernameMissing)
            } else {
                Verdict::Approved
            },
        },
        CommandClass::ProtectedAuth => if state is NotAuthenticated {
            Verdict::Approved
        } else {
            Verdict::Rejected(Reason::AlreadyAuthenticated)
        },
        CommandClass::TransportUpgrade => if is_tls {
            Verdict::Rejected(Reason::AlreadyTls)
        } else {
            Verdict::Approved
        },
        CommandClass::Mailbox => match state {
            StateView::Authenticated { mailbox } => if policy.rate_limited {
                Verdict::RateCheck { account_id: mailbox.account_id }
            } else {
                Verdict::Approved
            },
            StateView::NotAuthenticated { .. } => Verdict::Rejected(Reason::NotAuthenticated),
        },
    }
}

/// What a rate lookup's report makes of a command that waited for it:
/// `None` where the command may run, else the error for the client.
pub open spec fn rate_conclusion(outcome: RateOutcomeView) -> Option<ErrorView> {
    match outcome {
        RateOutcomeView::Allowed => None,
        RateOutcomeView::Exceeded => Some(ErrorView::Rejected(Reason::TooManyRequests)),
        RateOutcomeView::Failed { detail } => Some(ErrorView::Service { detail }),
    }
}

/// Judges `command` against the state, the transport and the policy.
pub fn validate_request(state: &State, command: &Command, is_tls: bool, policy: Policy) -> (v:
    Verdict)
    ensures
        v == verdict(state@, command@.class(), is_tls, policy),
{
    match command.class() {
        CommandClass::Always => Verdict::Approved,
        CommandClass::PlainCredentials => match state {
            State::NotAuthenticated { .. } => {
                if is_tls || policy.allow_plain_auth {
                    Verdict::Approved
                } else {
                    Verdict::Rejected(Reason::PlainTextForbidden)
                }
            },
            State::Authenticated { .. } => Verdict::Rejected(Reason::AlreadyAuthenticated),
        },
        CommandClass::Secret => match state {
            State::NotAuthenticated { username } => {
                if is_tls || policy.allow_plain_auth {
                    if username.is_some() {
                        Verdict::Approved
                    } else {
                        Verdict::Rejected(Reason::UsernameMissing)
                    }
                } else {
                    Verdict::Rejected(Reason::PlainTextForbidden)
                }
            },
            State::Authenticated { .. } => Verdict::Rejected(Reason::AlreadyAuthenticated),
        },
        CommandClass::ProtectedAuth => match state {
            State::NotAuthenticated { .. } => Verdict::Approved,
            State::Authenticated { .. } => Verdict::Rejected(Reason::AlreadyAuthenticated),
        },
        CommandClass::TransportUpgrade => {
            if !is_tls {
                Verdict::Approved
            } else {
                Verdict::Rejected(Reason::AlreadyTls)
            }
        },
        CommandClass::Mailbox => match state {
            State::Authenticated { mailbox } => {
                if policy.rate_limited {
                    Verdict::RateCheck { account_id: mailbox.account_id }
                } else {
                    Verdict::Approved
                }
            },
            State::NotAuthenticated { .. } => Verdict::Rejected(Reason::NotAuthenticated),
        },
    }
}

/// Turns the report of the rate-limit counter into the decision on the
/// command that waited for it.
pub fn conclude_rate_check(outcome: RateOutcome) -> (r: Result<(), Error>)
    ensures
        match rate_conclusion(outcome@) {
            None => r is Ok,
            Some(e) => r is Err && r->Err_0@ == e,
        },
{
    match outcome {
        RateOutcome::Allowed => Ok(()),
        RateOutcome::Exceeded => Err(Error::Rejected(Reason::TooManyRequests)),
        RateOutcome::Failed { detail } => Err(Error::Service { detail }),
    }
}

/// Capability listing, quit and no-op are approved in every state, on
/// every transport and under every policy.
pub proof fn lemma_always_allowed(state: StateView, is_tls: bool, policy: Policy)
    ensures
        verdict(state, CommandClass::Always, is_tls, policy) == Verdict::Approved,
{
}

/// A mailbox command from a session that is not logged in is rejected as
/// "not authenticated", whatever the transport and the policy: in
/// particular no rate check is asked for.
pub proof fn lemma_mailbox_needs_login(
    username: Option<Seq<char>>,
    command: CommandView,
    is_tls: bool,
    policy: Policy,
)
    requires
        command.class() == CommandClass::Mailbox,
    ensures
        verdict(StateView::NotAuthenticated { username }, command.class(), is_tls, policy)
            == Verdict::Rejected(Reason::NotAuthenticated),
        Reason::NotAuthenticated.details() == "Not authenticated."@,
{
}

/// With plain-text authentication disabled and no encryption, `USER` and
/// `PASS` are rejected as forbidden over plain text, whether or not a user
/// name is pending.
pub proof fn lemma_plaintext_forbidden(
    username: Option<Seq<char>>,
    command: CommandView,
    policy: Policy,
)
    requires
        command is User || command is Pass,
        !policy.allow_plain_auth,
    ensures
        verdict(StateView::NotAuthenticated { username }, command.class(), false, policy)
            == Verdict::Rejected(Reason::PlainTextForbidden),
        Reason::PlainTextForbidden.details() == "Cannot authenticate over plain-text."@,
{
}

/// `PASS` with no pending user name, on a transport where credentials may
/// travel, is rejected as "username was not provided"; with one pending it
/// is approved.
pub proof fn lemma_secret_needs_username(
    username: Option<Seq<char>>,
    is_tls: bool,
    policy: Policy,
)
    requires
        credentials_protected(is_tls, policy),
    ensures
        verdict(StateView::NotAuthenticated { username }, CommandClass::Secret, is_tls, policy)
            == if username is Some {
            Verdict::Approved
        } else {
            Verdict::Rejected(Reason::UsernameMissing)
        },
        Reason::UsernameMissing.details() == "Username was not provided."@,
{
}

/// `STLS` is rejected as "already in TLS mode" exactly on an encrypted
/// transport, and approved on any other, in every state.
pub proof fn lemma_upgrade_only_once(state: StateView, is_tls: bool, policy: Policy)
    ensures
        verdict(state, CommandClass::TransportUpgrade, is_tls, policy) == if is_tls {
            Verdict::Rejected(Reason::AlreadyTls)
        } else {
            Verdict::Approved
        },
        Reason::AlreadyTls.details() == "Already in TLS mode."@,
{
}

/// Once logged in, every login command is rejected as "already
/// authenticated".
pub proof fn lemma_login_only_once(
    mailbox: crate::state::Mailbox,
    class: CommandClass,
    is_tls: bool,
    policy: Policy,
)
    requires
        class == CommandClass::PlainCredentials || class == CommandClass::Secret || class
            == CommandClass::ProtectedAuth,
    ensures
        verdict(StateView::Authenticated { mailbox }, class, is_tls, policy) == Verdict::Rejected(
            Reason::AlreadyAuthenticated,
        ),
{
}

/// Under a rate-limit policy, a mailbox command of a logged-in account
/// waits for the counter of that account; when the counter reports the
/// limit exceeded, the command is rejected under the throttling
/// classification, not the one of authentication-state rejections.
pub proof fn lemma_rate_limit_classified(
    mailbox: crate::state::Mailbox,
    command: CommandView,
    is_tls: bool,
    policy: Policy,
)
    requires
        command.class() == CommandClass::Mailbox,
        policy.rate_limited,
    ensures
        verdict(StateView::Authenticated { mailbox }, command.class(), is_tls, policy)
            == (Verdict::RateCheck { account_id: mailbox.account_id }),
        rate_conclusion(RateOutcomeView::Exceeded) == Some(
            ErrorView::Rejected(Reason::TooManyRequests),
        ),
        ErrorView::Rejected(Reason::TooManyRequests).classification() == Classification::Limit,
        ErrorView::Rejected(Reason::NotAuthenticated).classification()
            == Classification::Protocol,
{
}

} // verus!
