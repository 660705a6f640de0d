use pop3::call::{Call, PlainCredentials};
use pop3::error::{Classification, Error, Reason};
use pop3::listener::SessionResult;
use pop3::protocol::{Command, Mechanism, ParseError};
use pop3::session::{Action, Event, HandlerOutcome, ScanReport, Session};
use pop3::state::{Mailbox, Policy, State};
use pop3::validate::RateOutcome;

/// A scripted connection driver: it feeds the parser's results to the
/// session and answers every action from its script.
struct Driver {
    scans: Vec<ScanReport>,
    rates: Vec<RateOutcome>,
    login: Option<Mailbox>,
    failing_calls: usize,
    broken_transport: bool,
    calls: Vec<Call>,
    errors: Vec<Error>,
    scanner_asked: usize,
    rate_asked: Vec<u32>,
}

impl Driver {
    fn new() -> Driver {
        Driver {
            scans: vec![],
            rates: vec![],
            login: None,
            failing_calls: 0,
            broken_transport: false,
            calls: vec![],
            errors: vec![],
            scanner_asked: 0,
            rate_asked: vec![],
        }
    }

    fn ingest(
        &mut self,
        session: &mut Session,
        parsed: Vec<Result<Command, ParseError>>,
    ) -> SessionResult {
        let mut parsed = parsed.into_iter();
        let mut event = Event::Received;
        loop {
            assert!(session.expects(&event));
            event = match session.ingest(event) {
                Action::Parse => {
                    Event::Parsed(parsed.next().unwrap_or(Err(ParseError::NeedsMoreData)))
                }
                Action::CheckScanner => {
                    self.scanner_asked += 1;
                    Event::Screened(self.scans.remove(0))
                }
                Action::CheckRate { account_id } => {
                    self.rate_asked.push(account_id);
                    Event::RateChecked(self.rates.remove(0))
                }
                Action::Call(call) => {
                    let is_login = matches!(call, Call::Authenticate { .. } | Call::Sasl { .. });
                    self.calls.push(call);
                    if self.failing_calls > 0 {
                        self.failing_calls -= 1;
                        Event::Handled(HandlerOutcome::Failed { detail: "backend down".to_string() })
                    } else if is_login && self.login.is_some() {
                        Event::Handled(HandlerOutcome::LoggedIn { mailbox: self.login.unwrap() })
                    } else {
                        Event::Handled(HandlerOutcome::Done)
                    }
                }
                Action::WriteErr(error) => {
                    self.errors.push(error);
                    Event::Written(!self.broken_transport)
                }
                Action::Finish(result) => return result,
            };
        }
    }
}

fn open_policy() -> Policy {
    Policy { allow_plain_auth: true, rate_limited: false }
}

fn logged_in(account_id: u32) -> State {
    State::Authenticated { mailbox: Mailbox { account_id } }
}

fn dele(msg: u32) -> Result<Command, ParseError> {
    Ok(Command::Dele { msg })
}

fn malformed(detail: &str) -> Result<Command, ParseError> {
    Err(ParseError::Parse { detail: detail.to_string() })
}

#[test]
fn consecutive_deletes_reach_the_handler_once() {
    let mut session = Session::new(logged_in(7), false, open_policy());
    let mut driver = Driver::new();
    let result = driver.ingest(&mut session, vec![dele(3), dele(1), dele(2), dele(9)]);
    assert_eq!(result, SessionResult::Continue);
    assert_eq!(driver.calls, vec![Call::Dele { msgs: vec![3, 1, 2, 9] }]);
    assert!(driver.errors.is_empty());
}

#[test]
fn two_deletes_merge_in_arrival_order() {
    let mut session = Session::new(logged_in(7), false, open_policy());
    let mut driver = Driver::new();
    driver.ingest(&mut session, vec![dele(5), dele(4)]);
    assert_eq!(driver.calls, vec![Call::Dele { msgs: vec![5, 4] }]);
}

#[test]
fn lone_delete_between_other_commands_is_not_merged() {
    let mut session = Session::new(logged_in(7), false, open_policy());
    let mut driver = Driver::new();
    let result =
        driver.ingest(&mut session, vec![Ok(Command::Stat), dele(2), Ok(Command::Noop)]);
    assert_eq!(result, SessionResult::Continue);
    assert_eq!(
        driver.calls,
        vec![
            Call::Stat,
            Call::Dele { msgs: vec![2] },
            Call::WriteOk { message: "NOOP".to_string() },
        ]
    );
}

#[test]
fn deletes_do_not_merge_across_another_command() {
    let mut session = Session::new(logged_in(7), false, open_policy());
    let mut driver = Driver::new();
    driver.ingest(
        &mut session,
        vec![dele(1), dele(2), Ok(Command::List { msg: None }), dele(3), dele(4), dele(5)],
    );
    assert_eq!(
        driver.calls,
        vec![
            Call::Dele { msgs: vec![1, 2] },
            Call::List { msg: None },
            Call::Dele { msgs: vec![3, 4, 5] },
        ]
    );
}

#[test]
fn deletes_do_not_merge_across_a_malformed_unit() {
    let mut session = Session::new(logged_in(7), false, open_policy());
    let mut driver = Driver::new();
    driver.ingest(&mut session, vec![dele(1), malformed("bad"), dele(2)]);
    assert_eq!(
        driver.calls,
        vec![Call::Dele { msgs: vec![1] }, Call::Dele { msgs: vec![2] }]
    );
    assert_eq!(driver.errors, vec![Error::Malformed { detail: "bad".to_string() }]);
    assert_eq!(driver.scanner_asked, 0);
}

#[test]
fn user_then_pass_authenticates_with_the_pair() {
    let mut session = Session::new(State::new(), false, open_policy());
    let mut driver = Driver::new();
    driver.login = Some(Mailbox { account_id: 42 });
    let result = driver.ingest(
        &mut session,
        vec![
            Ok(Command::User { name: "jane".to_string() }),
            Ok(Command::Pass { string: "s3cret".to_string() }),
        ],
    );
    assert_eq!(result, SessionResult::Continue);
    assert_eq!(
        driver.calls,
        vec![
            Call::WriteOk { message: "jane is a valid mailbox".to_string() },
            Call::Authenticate {
                credentials: PlainCredentials {
                    username: "jane".to_string(),
                    secret: "s3cret".to_string(),
                },
            },
        ]
    );
    assert_eq!(session.state(), &logged_in(42));
}

#[test]
fn user_name_waits_across_chunks() {
    let mut session = Session::new(State::new(), true, open_policy());
    let mut driver = Driver::new();
    driver.ingest(&mut session, vec![Ok(Command::User { name: "jane".to_string() })]);
    assert_eq!(
        session.state(),
        &State::NotAuthenticated { username: Some("jane".to_string()) }
    );
    driver.ingest(&mut session, vec![Ok(Command::User { name: "john".to_string() })]);
    assert_eq!(
        session.state(),
        &State::NotAuthenticated { username: Some("john".to_string()) }
    );
    driver.ingest(&mut session, vec![Ok(Command::Pass { string: "pw".to_string() })]);
    assert_eq!(
        driver.calls[2],
        Call::Authenticate {
            credentials: PlainCredentials { username: "john".to_string(), secret: "pw".to_string() },
        }
    );
    assert_eq!(session.state(), &State::NotAuthenticated { username: None });
}

#[test]
fn pass_consumes_the_pending_name_even_when_login_fails() {
    let mut session = Session::new(State::new(), true, open_policy());
    let mut driver = Driver::new();
    driver.ingest(&mut session, vec![Ok(Command::User { name: "jane".to_string() })]);
    driver.failing_calls = 1;
    let result =
        driver.ingest(&mut session, vec![Ok(Command::Pass { string: "wrong".to_string() })]);
    assert_eq!(result, SessionResult::Continue);
    assert_eq!(driver.errors, vec![Error::Service { detail: "backend down".to_string() }]);
    assert_eq!(session.state(), &State::NotAuthenticated { username: None });
    driver.ingest(&mut session, vec![Ok(Command::Pass { string: "again".to_string() })]);
    assert_eq!(driver.errors[1], Error::Rejected(Reason::UsernameMissing));
}

#[test]
fn pass_without_user_is_rejected() {
    let mut session = Session::new(State::new(), true, open_policy());
    let mut driver = Driver::new();
    let result =
        driver.ingest(&mut session, vec![Ok(Command::Pass { string: "s3cret".to_string() })]);
    assert_eq!(result, SessionResult::Continue);
    assert!(driver.calls.is_empty());
    assert_eq!(driver.errors, vec![Error::Rejected(Reason::UsernameMissing)]);
    assert_eq!(driver.errors[0].message(), "Username was not provided.");
}

#[test]
fn mailbox_commands_need_login() {
    let commands = vec![
        Command::Stat,
        Command::List { msg: Some(1) },
        Command::Retr { msg: 1 },
        Command::Dele { msg: 1 },
        Command::DeleMany { msgs: vec![1, 2] },
        Command::Top { msg: 1, n: 10 },
        Command::Uidl { msg: None },
        Command::Utf8,
        Command::Rset,
    ];
    for command in commands {
        let policy = Policy { allow_plain_auth: true, rate_limited: true };
        let mut session = Session::new(State::new(), true, policy);
        let mut driver = Driver::new();
        let result = driver.ingest(&mut session, vec![Ok(command)]);
        assert_eq!(result, SessionResult::Continue);
        assert!(driver.calls.is_empty());
        assert!(driver.rate_asked.is_empty());
        assert_eq!(driver.errors, vec![Error::Rejected(Reason::NotAuthenticated)]);
        assert_eq!(driver.errors[0].message(), "Not authenticated.");
    }
}

#[test]
fn plain_text_login_is_refused_without_tls() {
    let policy = Policy { allow_plain_auth: false, rate_limited: false };
    let mut session = Session::new(
        State::NotAuthenticated { username: Some("jane".to_string()) },
        false,
        policy,
    );
    let mut driver = Driver::new();
    driver.login = Some(Mailbox { account_id: 1 });
    driver.ingest(
        &mut session,
        vec![
            Ok(Command::User { name: "jane".to_string() }),
            Ok(Command::Pass { string: "s3cret".to_string() }),
            Ok(Command::Apop { name: "jane".to_string(), digest: "00".to_string() }),
            Ok(Command::Auth { mechanism: Mechanism::Plain, params: vec![] }),
        ],
    );
    assert!(driver.calls.is_empty());
    assert_eq!(driver.errors, vec![Error::Rejected(Reason::PlainTextForbidden); 4]);
    assert_eq!(driver.errors[0].message(), "Cannot authenticate over plain-text.");
    assert!(!session.state().is_authenticated());
}

#[test]
fn plain_text_login_is_allowed_over_tls() {
    let policy = Policy { allow_plain_auth: false, rate_limited: false };
    let mut session = Session::new(State::new(), true, policy);
    let mut driver = Driver::new();
    driver.ingest(&mut session, vec![Ok(Command::User { name: "jane".to_string() })]);
    assert!(driver.errors.is_empty());
    assert_eq!(driver.calls.len(), 1);
}

#[test]
fn protected_mechanisms_need_no_tls() {
    let policy = Policy { allow_plain_auth: false, rate_limited: false };
    let mut session = Session::new(State::new(), false, policy);
    let mut driver = Driver::new();
    driver.login = Some(Mailbox { account_id: 3 });
    driver.ingest(
        &mut session,
        vec![Ok(Command::Auth {
            mechanism: Mechanism::OAuthBearer,
            params: vec!["token".to_string()],
        })],
    );
    assert_eq!(
        driver.calls,
        vec![Call::Sasl { mechanism: Mechanism::OAuthBearer, params: vec!["token".to_string()] }]
    );
    assert_eq!(session.state(), &logged_in(3));
}

#[test]
fn login_commands_are_rejected_once_logged_in() {
    let mut session = Session::new(logged_in(7), true, open_policy());
    let mut driver = Driver::new();
    driver.ingest(
        &mut session,
        vec![
            Ok(Command::User { name: "jane".to_string() }),
            Ok(Command::Pass { string: "x".to_string() }),
            Ok(Command::Auth { mechanism: Mechanism::Plain, params: vec![] }),
            Ok(Command::Auth { mechanism: Mechanism::CramMd5, params: vec![] }),
            Ok(Command::Apop { name: "jane".to_string(), digest: "00".to_string() }),
        ],
    );
    assert!(driver.calls.is_empty());
    assert_eq!(driver.errors, vec![Error::Rejected(Reason::AlreadyAuthenticated); 5]);
    assert_eq!(driver.errors[0].message(), "Already authenticated.");
    assert_eq!(session.state(), &logged_in(7));
}

#[test]
fn apop_is_never_served() {
    let mut session = Session::new(State::new(), true, open_policy());
    let mut driver = Driver::new();
    driver.ingest(
        &mut session,
        vec![Ok(Command::Apop { name: "jane".to_string(), digest: "00".to_string() })],
    );
    assert!(driver.calls.is_empty());
    assert_eq!(driver.errors, vec![Error::Rejected(Reason::ApopUnsupported)]);
    assert_eq!(driver.errors[0].message(), "APOP not supported.");
}

#[test]
fn stls_on_tls_is_rejected() {
    let mut session = Session::new(State::new(), true, open_policy());
    let mut driver = Driver::new();
    let result = driver.ingest(&mut session, vec![Ok(Command::Stls)]);
    assert_eq!(result, SessionResult::Continue);
    assert!(driver.calls.is_empty());
    assert_eq!(driver.errors, vec![Error::Rejected(Reason::AlreadyTls)]);
    assert_eq!(driver.errors[0].message(), "Already in TLS mode.");
}

#[test]
fn stls_upgrades_and_drops_the_rest() {
    let mut session = Session::new(State::new(), false, open_policy());
    let mut driver = Driver::new();
    let result = driver.ingest(
        &mut session,
        vec![Ok(Command::Capa), Ok(Command::Stls), Ok(Command::Noop), Ok(Command::Stat)],
    );
    assert_eq!(result, SessionResult::UpgradeTls);
    assert_eq!(driver.calls, vec![Call::Capa, Call::Stls]);
    assert!(driver.errors.is_empty());
    assert!(session.is_idle());
    assert_eq!(session.pending(), 0);
}

#[test]
fn quit_closes_and_drops_the_rest() {
    let mut session = Session::new(logged_in(7), true, open_policy());
    let mut driver = Driver::new();
    let result =
        driver.ingest(&mut session, vec![Ok(Command::Quit), Ok(Command::Stat), dele(1)]);
    assert_eq!(result, SessionResult::Close);
    assert_eq!(driver.calls, vec![Call::Quit]);
    assert_eq!(session.pending(), 0);
}

#[test]
fn exceeded_rate_limit_is_its_own_classification() {
    let policy = Policy { allow_plain_auth: true, rate_limited: true };
    let mut session = Session::new(logged_in(258), true, policy);
    let mut driver = Driver::new();
    driver.rates = vec![RateOutcome::Allowed, RateOutcome::Exceeded];
    let result = driver.ingest(&mut session, vec![Ok(Command::Stat), Ok(Command::Retr { msg: 1 })]);
    assert_eq!(result, SessionResult::Continue);
    assert_eq!(driver.rate_asked, vec![258, 258]);
    assert_eq!(driver.calls, vec![Call::Stat]);
    assert_eq!(driver.errors, vec![Error::Rejected(Reason::TooManyRequests)]);
    assert_eq!(driver.errors[0].classify(), Classification::Limit);
    assert_eq!(Error::Rejected(Reason::NotAuthenticated).classify(), Classification::Protocol);
}

#[test]
fn failed_rate_lookup_is_reported_to_the_client() {
    let policy = Policy { allow_plain_auth: true, rate_limited: true };
    let mut session = Session::new(logged_in(1), true, policy);
    let mut driver = Driver::new();
    driver.rates = vec![RateOutcome::Failed { detail: "store offline".to_string() }];
    let result = driver.ingest(&mut session, vec![Ok(Command::Stat)]);
    assert_eq!(result, SessionResult::Continue);
    assert!(driver.calls.is_empty());
    assert_eq!(driver.errors, vec![Error::Service { detail: "store offline".to_string() }]);
    assert_eq!(driver.errors[0].classify(), Classification::Service);
    assert_eq!(driver.errors[0].message(), "store offline");
}

#[test]
fn no_rate_check_without_a_configured_limit() {
    let mut session = Session::new(logged_in(1), true, open_policy());
    let mut driver = Driver::new();
    driver.ingest(&mut session, vec![Ok(Command::Top { msg: 4, n: 12 }), Ok(Command::Retr { msg: 4 })]);
    assert!(driver.rate_asked.is_empty());
    assert_eq!(
        driver.calls,
        vec![Call::Fetch { msg: 4, lines: Some(12) }, Call::Fetch { msg: 4, lines: None }]
    );
}

#[test]
fn always_allowed_commands_skip_the_rate_check() {
    let policy = Policy { allow_plain_auth: false, rate_limited: true };
    let mut session = Session::new(logged_in(1), false, policy);
    let mut driver = Driver::new();
    driver.ingest(&mut session, vec![Ok(Command::Capa), Ok(Command::Noop)]);
    assert!(driver.rate_asked.is_empty());
    assert_eq!(driver.calls.len(), 2);
}

#[test]
fn ban_on_third_malformed_unit_closes_without_answers() {
    let mut session = Session::new(State::new(), false, open_policy());
    let mut driver = Driver::new();
    driver.scans = vec![ScanReport::Clear, ScanReport::Clear, ScanReport::Banned];
    let result = driver.ingest(
        &mut session,
        vec![malformed("one"), malformed("two"), malformed("three"), Ok(Command::Capa)],
    );
    assert_eq!(result, SessionResult::Close);
    assert_eq!(driver.scanner_asked, 3);
    assert!(driver.errors.is_empty());
    assert!(driver.calls.is_empty());
    assert_eq!(session.pending(), 0);
}

#[test]
fn ban_drops_commands_queued_before_it() {
    let mut session = Session::new(State::new(), false, open_policy());
    let mut driver = Driver::new();
    driver.scans = vec![ScanReport::Banned];
    let result = driver.ingest(&mut session, vec![Ok(Command::Capa), malformed("x")]);
    assert_eq!(result, SessionResult::Close);
    assert!(driver.calls.is_empty());
}

#[test]
fn scanner_failure_counts_as_not_banned() {
    let mut session = Session::new(State::new(), false, open_policy());
    let mut driver = Driver::new();
    driver.scans = vec![ScanReport::Failed];
    let result = driver.ingest(&mut session, vec![malformed("junk"), Ok(Command::Capa)]);
    assert_eq!(result, SessionResult::Continue);
    assert_eq!(driver.errors, vec![Error::Malformed { detail: "junk".to_string() }]);
    assert_eq!(driver.errors[0].classify(), Classification::Protocol);
    assert_eq!(driver.calls, vec![Call::Capa]);
}

#[test]
fn malformed_unit_keeps_its_place_in_the_order() {
    let mut session = Session::new(State::new(), false, open_policy());
    let mut driver = Driver::new();
    driver.scans = vec![ScanReport::Clear];
    driver.broken_transport = true;
    let result = driver.ingest(
        &mut session,
        vec![Ok(Command::Capa), malformed("junk"), Ok(Command::Noop)],
    );
    assert_eq!(result, SessionResult::Close);
    assert_eq!(driver.calls, vec![Call::Capa]);
    assert_eq!(driver.errors.len(), 1);
}

#[test]
fn failed_error_write_closes() {
    let mut session = Session::new(State::new(), true, open_policy());
    let mut driver = Driver::new();
    driver.broken_transport = true;
    let result = driver.ingest(&mut session, vec![Ok(Command::Stat), Ok(Command::Capa)]);
    assert_eq!(result, SessionResult::Close);
    assert!(driver.calls.is_empty());
    assert_eq!(driver.errors.len(), 1);
}

#[test]
fn handler_failure_is_written_and_processing_goes_on() {
    let mut session = Session::new(logged_in(1), true, open_policy());
    let mut driver = Driver::new();
    driver.failing_calls = 1;
    let result = driver.ingest(&mut session, vec![Ok(Command::Stat), Ok(Command::Rset)]);
    assert_eq!(result, SessionResult::Continue);
    assert_eq!(driver.calls, vec![Call::Stat, Call::Rset]);
    assert_eq!(driver.errors, vec![Error::Service { detail: "backend down".to_string() }]);
}

#[test]
fn split_command_is_dispatched_once() {
    let mut whole = Session::new(logged_in(1), true, open_policy());
    let mut whole_driver = Driver::new();
    let result = whole_driver.ingest(&mut whole, vec![Ok(Command::Uidl { msg: Some(2) })]);
    assert_eq!(result, SessionResult::Continue);

    let mut split = Session::new(logged_in(1), true, open_policy());
    let mut split_driver = Driver::new();
    let first = split_driver.ingest(&mut split, vec![]);
    assert_eq!(first, SessionResult::Continue);
    assert!(split_driver.calls.is_empty());
    assert!(split_driver.errors.is_empty());
    assert_eq!(split.state(), &logged_in(1));
    let second = split_driver.ingest(&mut split, vec![Ok(Command::Uidl { msg: Some(2) })]);
    assert_eq!(second, SessionResult::Continue);
    assert_eq!(split_driver.calls, whole_driver.calls);
    assert_eq!(split_driver.calls, vec![Call::Uidl { msg: Some(2) }]);
}

#[test]
fn empty_chunk_continues() {
    let mut session = Session::new(State::new(), false, open_policy());
    let mut driver = Driver::new();
    assert_eq!(driver.ingest(&mut session, vec![]), SessionResult::Continue);
    assert!(session.is_idle());
}

#[test]
fn events_out_of_turn_are_not_expected() {
    let mut session = Session::new(State::new(), false, open_policy());
    assert!(session.expects(&Event::Received));
    assert!(!session.expects(&Event::Written(true)));
    assert!(!session.expects(&Event::Parsed(Ok(Command::Noop))));
    assert_eq!(session.ingest(Event::Received), Action::Parse);
    assert!(!session.expects(&Event::Received));
    assert!(session.expects(&Event::Parsed(Err(ParseError::NeedsMoreData))));
    assert!(!session.expects(&Event::Handled(HandlerOutcome::Done)));
    assert!(!session.expects(&Event::Screened(ScanReport::Clear)));
    assert!(!session.expects(&Event::RateChecked(RateOutcome::Allowed)));
}

#[test]
fn event_out_of_turn_closes() {
    let mut session = Session::new(logged_in(1), false, open_policy());
    assert_eq!(session.ingest(Event::Written(true)), Action::Finish(SessionResult::Close));
    assert!(session.is_idle());
    assert_eq!(session.ingest(Event::Received), Action::Parse);
    assert_eq!(session.ingest(Event::Parsed(Ok(Command::Stat))), Action::Parse);
    assert_eq!(
        session.ingest(Event::Handled(HandlerOutcome::Done)),
        Action::Finish(SessionResult::Close)
    );
    assert!(session.is_idle());
    assert_eq!(session.pending(), 0);
    assert_eq!(session.state(), &logged_in(1));
}
