//! What the engine does over several events in a row.

use vstd::prelude::*;
use crate::batch::{ends_in_delete, push_commands, single_deletes, lemma_deletes_merge, RequestView};
use crate::call::CallView;
use crate::error::{Classification, ErrorView, Reason};
use crate::listener::SessionResult;
use crate::protocol::{CommandClass, CommandView};
use crate::session::{advance, step, ActionView, EventView, PhaseView, ScanReport, SessionView};
use crate::state::{Mailbox, StateView};
use crate::validate::{credentials_protected, RateOutcomeView};

verus! {

/// The session after the parser returned each of `commands`, in order.
pub open spec fn feed(s: SessionView, commands: Seq<CommandView>) -> SessionView
    decreases commands.len(),
{
    if commands.len() == 0 {
        s
    } else {
        step(feed(s, commands.drop_last()), EventView::Command(commands.last())).0
    }
}

/// While the engine reads, commands only grow the queue, by the merging
/// rule; the state stays as it is and the engine goes on reading.
pub proof fn lemma_reading_collects(s: SessionView, commands: Seq<CommandView>)
    requires
        s.phase is Reading,
    ensures
        feed(s, commands) == (SessionView { queue: push_commands(s.queue, commands), ..s }),
    decreases commands.len(),
{
    if commands.len() > 0 {
        lemma_reading_collects(s, commands.drop_last());
    }
}

/// Two or more single deletes that arrive in a row, behind a queue that
/// does not end in a delete, stand in the queue as one batch delete of all
/// their messages, in the order of arrival.
pub proof fn lemma_consecutive_deletes_queued_as_one(s: SessionView, msgs: Seq<u32>)
    requires
        s.phase is Reading,
        !ends_in_delete(s.queue),
        msgs.len() >= 2,
    ensures
        feed(s, single_deletes(msgs)) == (SessionView {
            queue: s.queue.push(Ok(CommandView::DeleMany { msgs })),
            ..s
        }),
{
    lemma_reading_collects(s, single_deletes(msgs));
    lemma_deletes_merge(s.queue, msgs);
}

/// Two or more single deletes that make up a whole chunk for a logged-in
/// session without a rate limit: the delete handler is called once, with
/// every message in the order of arrival, and when it succeeds the chunk
/// ends with `Continue`.
pub proof fn lemma_consecutive_deletes_one_call(s: SessionView, msgs: Seq<u32>)
    requires
        s.phase is Reading,
        s.queue.len() == 0,
        s.state is Authenticated,
        !s.policy.rate_limited,
        msgs.len() >= 2,
    ensures
        ({
            let (called, action) = step(feed(s, single_deletes(msgs)), EventView::NeedsMoreData);
            &&& action == ActionView::Call(CallView::Dele { msgs })
            &&& called == (SessionView {
                phase: PhaseView::Calling { outcome: SessionResult::Continue },
                ..s
            })
            &&& step(called, EventView::Done) == (
                SessionView { phase: PhaseView::Idle, ..s },
                ActionView::Finish(SessionResult::Continue),
            )
        }),
{
    lemma_consecutive_deletes_queued_as_one(s, msgs);
    let fed = feed(s, single_deletes(msgs));
    assert(fed.queue.drop_first() =~= s.queue);
    assert(s.queue =~= Seq::<RequestView>::empty());
}

/// A batch delete in front of the queue of a logged-in session without a
/// rate limit reaches the delete handler as one call that names every
/// message, in order; a single delete reaches it as a call with that one
/// message.
pub proof fn lemma_delete_dispatched_once(s: SessionView, msgs: Seq<u32>, msg: u32)
    requires
        s.state is Authenticated,
        !s.policy.rate_limited,
        s.queue.len() > 0,
    ensures
        s.queue[0] == Ok::<CommandView, ErrorView>(CommandView::DeleMany { msgs }) ==> advance(s).1
            == ActionView::Call(CallView::Dele { msgs }),
        s.queue[0] == Ok::<CommandView, ErrorView>(CommandView::Dele { msg }) ==> advance(s).1
            == ActionView::Call(CallView::Dele { msgs: seq![msg] }),
        s.queue[0] is Ok && s.queue[0]->Ok_0.is_delete() ==> advance(s).0.queue
            == s.queue.drop_first(),
{
}

/// `USER` followed by `PASS`, from a session that is not logged in and on
/// a transport where credentials may travel: the name is acknowledged as a
/// tentative identity and held; then the handler is asked to authenticate
/// that name with the secret, and the pending name is gone from the state.
/// When the handler reports success the session is logged in.
pub proof fn lemma_user_then_pass_authenticates(
    s: SessionView,
    name: Seq<char>,
    secret: Seq<char>,
    mailbox: Mailbox,
)
    requires
        s.state is NotAuthenticated,
        credentials_protected(s.is_tls, s.policy),
        s.queue.len() >= 2,
        s.queue[0] == Ok::<CommandView, ErrorView>(CommandView::User { name }),
        s.queue[1] == Ok::<CommandView, ErrorView>(CommandView::Pass { string: secret }),
    ensures
        ({
            let (s1, a1) = advance(s);
            let (s2, a2) = step(s1, EventView::Done);
            let (s3, a3) = step(s2, EventView::LoggedIn { mailbox });
            &&& a1 == ActionView::Call(
                CallView::WriteOk { message: name + " is a valid mailbox"@ },
            )
            &&& s1.state == (StateView::NotAuthenticated { username: Some(name) })
            &&& a2 == ActionView::Call(CallView::Authenticate { username: name, secret })
            &&& s2.state == (StateView::NotAuthenticated { username: None })
            &&& s3.state == (StateView::Authenticated { mailbox })
        }),
{
    let (s1, a1) = advance(s);
    assert(s1.queue[0] == s.queue[1]);
}

/// `PASS` with no pending user name is answered with "username was not
/// provided": no handler runs and the state stays as it is.
pub proof fn lemma_pass_without_user_rejected(s: SessionView, secret: Seq<char>)
    requires
        s.state == (StateView::NotAuthenticated { username: None }),
        credentials_protected(s.is_tls, s.policy),
        s.queue.len() > 0,
        s.queue[0] == Ok::<CommandView, ErrorView>(CommandView::Pass { string: secret }),
    ensures
        advance(s).1 == ActionView::WriteErr(ErrorView::Rejected(Reason::UsernameMissing)),
        advance(s).0.state == s.state,
        advance(s).0.phase is Reporting,
{
}

/// A mailbox command from a session that is not logged in is answered
/// with "not authenticated": the engine asks for no handler and for no
/// rate check, and the state stays as it is.
pub proof fn lemma_mailbox_command_needs_login(s: SessionView, command: CommandView)
    requires
        s.state is NotAuthenticated,
        command.class() == CommandClass::Mailbox,
        s.queue.len() > 0,
        s.queue[0] == Ok::<CommandView, ErrorView>(command),
    ensures
        advance(s).1 == ActionView::WriteErr(ErrorView::Rejected(Reason::NotAuthenticated)),
        advance(s).0.state == s.state,
        advance(s).0.phase is Reporting,
{
}

/// With plain-text authentication disabled and no encryption, `USER` and
/// `PASS` are answered with the plain-text refusal before any handler
/// could look at the credentials.
pub proof fn lemma_plaintext_login_refused(s: SessionView, command: CommandView)
    requires
        s.state is NotAuthenticated,
        !s.is_tls,
        !s.policy.allow_plain_auth,
        command is User || command is Pass,
        s.queue.len() > 0,
        s.queue[0] == Ok::<CommandView, ErrorView>(command),
    ensures
        advance(s).1 == ActionView::WriteErr(ErrorView::Rejected(Reason::PlainTextForbidden)),
        advance(s).0.state == s.state,
{
}

/// `STLS` on an encrypted transport is answered with "already in TLS
/// mode". On any other transport the upgrade handler runs, and when it
/// succeeds the chunk ends with `UpgradeTls` and whatever else was queued
/// is dropped.
pub proof fn lemma_upgrade_ends_chunk(s: SessionView)
    requires
        s.queue.len() > 0,
        s.queue[0] == Ok::<CommandView, ErrorView>(CommandView::Stls),
    ensures
        s.is_tls ==> advance(s).1 == ActionView::WriteErr(
            ErrorView::Rejected(Reason::AlreadyTls),
        ),
        !s.is_tls ==> advance(s).1 == ActionView::Call(CallView::Stls),
        !s.is_tls ==> step(advance(s).0, EventView::Done) == (
            SessionView { phase: PhaseView::Idle, queue: Seq::empty(), ..s },
            ActionView::Finish(SessionResult::UpgradeTls),
        ),
{
}

/// `QUIT` is approved in every state; when its handler succeeds the chunk
/// ends with `Close` and whatever else was queued is dropped.
pub proof fn lemma_quit_ends_chunk(s: SessionView)
    requires
        s.queue.len() > 0,
        s.queue[0] == Ok::<CommandView, ErrorView>(CommandView::Quit),
    ensures
        advance(s).1 == ActionView::Call(CallView::Quit),
        step(advance(s).0, EventView::Done) == (
            SessionView { phase: PhaseView::Idle, queue: Seq::empty(), ..s },
            ActionView::Finish(SessionResult::Close),
        ),
{
}

/// Under a rate-limit policy a mailbox command of a logged-in account
/// first has the counter of that account consulted. When the counter
/// reports the limit exceeded, the command is answered with the throttling
/// error, which is filed apart from authentication-state rejections, and
/// no handler runs; when it reports room, the handler runs.
pub proof fn lemma_rate_limit_enforced(s: SessionView, command: CommandView, mailbox: Mailbox)
    requires
        s.state == (StateView::Authenticated { mailbox }),
        s.policy.rate_limited,
        command.class() == CommandClass::Mailbox,
        s.queue.len() > 0,
        s.queue[0] == Ok::<CommandView, ErrorView>(command),
    ensures
        advance(s).1 == (ActionView::CheckRate { account_id: mailbox.account_id }),
        step(advance(s).0, EventView::RateChecked(RateOutcomeView::Exceeded)).1
            == ActionView::WriteErr(ErrorView::Rejected(Reason::TooManyRequests)),
        ErrorView::Rejected(Reason::TooManyRequests).classification() == Classification::Limit,
        ErrorView::Rejected(Reason::TooManyRequests).classification() != ErrorView::Rejected(
            Reason::NotAuthenticated,
        ).classification(),
        step(advance(s).0, EventView::RateChecked(RateOutcomeView::Allowed)).1 is Call,
{
}

/// A malformed unit from a session that is not logged in has the
/// abuse-detection service asked. On a ban the chunk ends with `Close` at
/// once: everything queued so far, earlier malformed units included, is
/// dropped without an answer. Otherwise, a failure of the service
/// included, the unit is queued as an error and reading goes on.
pub proof fn lemma_scanner_ban_closes(s: SessionView, detail: Seq<char>, answer: ScanReport)
    requires
        s.phase is Reading,
        s.state is NotAuthenticated,
    ensures
        step(s, EventView::Malformed { detail }).1 == ActionView::CheckScanner,
        step(s, EventView::Malformed { detail }).0.queue == s.queue,
        answer == ScanReport::Banned ==> step(
            step(s, EventView::Malformed { detail }).0,
            EventView::Screened(answer),
        ) == (
            SessionView { phase: PhaseView::Idle, queue: Seq::empty(), ..s },
            ActionView::Finish(SessionResult::Close),
        ),
        answer != ScanReport::Banned ==> step(
            step(s, EventView::Malformed { detail }).0,
            EventView::Screened(answer),
        ) == (
            SessionView { queue: s.queue.push(Err(ErrorView::Malformed { detail })), ..s },
            ActionView::Parse,
        ),
{
}

/// A malformed unit from a logged-in session is queued as an error with no
/// question to the abuse-detection service.
pub proof fn lemma_logged_in_not_screened(s: SessionView, detail: Seq<char>)
    requires
        s.phase is Reading,
        s.state is Authenticated,
    ensures
        step(s, EventView::Malformed { detail }) == (
            SessionView { queue: s.queue.push(Err(ErrorView::Malformed { detail })), ..s },
            ActionView::Parse,
        ),
{
}

/// A queued error goes to the client without passing the validator. If it
/// cannot be written the chunk ends with `Close`; otherwise the next
/// request is taken up.
pub proof fn lemma_error_reported(s: SessionView, error: ErrorView, sent: bool)
    requires
        s.queue.len() > 0,
        s.queue[0] == Err::<CommandView, ErrorView>(error),
    ensures
        advance(s) == (
            SessionView { phase: PhaseView::Reporting, queue: s.queue.drop_first(), ..s },
            ActionView::WriteErr(error),
        ),
        !sent ==> step(advance(s).0, EventView::Written(sent)) == (
            SessionView { phase: PhaseView::Idle, queue: Seq::empty(), ..s },
            ActionView::Finish(SessionResult::Close),
        ),
        sent ==> step(advance(s).0, EventView::Written(sent)) == advance(
            SessionView { queue: s.queue.drop_first(), ..s },
        ),
{
    let rest = SessionView { queue: s.queue.drop_first(), ..s };
    let reporting = SessionView { phase: PhaseView::Reporting, ..rest };
    assert(advance(reporting) == advance(rest)) by {
        lemma_advance_ignores_phase(reporting, rest);
    }
}

/// What the engine does with the queue does not depend on the phase that
/// it comes from.
pub proof fn lemma_advance_ignores_phase(a: SessionView, b: SessionView)
    requires
        a.state == b.state,
        a.is_tls == b.is_tls,
        a.policy == b.policy,
        a.queue == b.queue,
    ensures
        advance(a) == advance(b),
{
}

/// A chunk that ends inside its first command changes nothing: no handler
/// runs, nothing is written, the state stays as it is and the chunk ends
/// with `Continue`. The command is processed when the chunk that completes
/// it arrives, exactly as if it had come in one piece.
pub proof fn lemma_incomplete_chunk_inert(s: SessionView)
    requires
        s.phase is Idle,
    ensures
        step(step(s, EventView::Received).0, EventView::NeedsMoreData) == (
            SessionView { queue: Seq::empty(), ..s },
            ActionView::Finish(SessionResult::Continue),
        ),
{
}

/// Every chunk starts from an empty queue: nothing of an earlier chunk is
/// processed in a later one.
pub proof fn lemma_chunk_starts_empty(s: SessionView)
    requires
        s.phase is Idle,
    ensures
        step(s, EventView::Received) == (
            SessionView { phase: PhaseView::Reading, queue: Seq::<RequestView>::empty(), ..s },
            ActionView::Parse,
        ),
{
}

} // verus!
