use postkast::envelope::Envelope;
use postkast::envelope::Message;
use postkast::error::ConnectionError;
use postkast::error::ErrorKind;
use postkast::error::ImapFailure;
use postkast::session::advance;
use postkast::session::begin;
use postkast::session::missing_credentials;
use postkast::session::missing_tls;
use postkast::session::Command;
use postkast::session::Phase;
use postkast::session::Reply;
use postkast::session::Transition;
use postkast::settings::Server;

fn account_with_tls() -> Server {
    let mut server = Server::default();
    server
        .with_name("work")
        .with_imap_host_and_port("imap.example.org", 143)
        .with_imap_host_and_tls_port("imap.example.org", 993)
        .with_username_and_password("alice", "secret");
    server
}

fn subject(text: &str) -> Message {
    Message {
        envelope: Some(Envelope {
            date: None,
            subject: Some(text.as_bytes().to_vec()),
            from: None,
            to: None,
            cc: None,
            bcc: None,
        }),
    }
}

fn quiet(phase: Phase, command: Command) -> Transition {
    Transition { phase, output: String::new(), command }
}

fn failed(error: ConnectionError) -> Transition {
    quiet(Phase::Failed(error), Command::Stop)
}

#[test]
fn account_without_tls_fails_before_dialling() {
    let mut server = Server::default();
    server.with_name("home").with_username_and_password("bob", "pw");
    let first = begin(&server);
    assert_eq!(
        first,
        failed(ConnectionError::ConfigError("No TLS configured for 'home'".to_string()))
    );
    assert_eq!(first.phase.result(), Some(Err(ConnectionError::ConfigError(
        "No TLS configured for 'home'".to_string()
    ))));
}

#[test]
fn account_without_tls_and_without_credentials_fails_for_tls() {
    let first = begin(&Server::default());
    assert_eq!(
        first,
        failed(ConnectionError::ConfigError("No TLS configured for 'default'".to_string()))
    );
}

#[test]
fn dial_goes_to_the_tls_port() {
    let first = begin(&account_with_tls());
    assert_eq!(
        first,
        quiet(
            Phase::Disconnected,
            Command::Dial { host: "imap.example.org".to_string(), port: 993 }
        )
    );
}

#[test]
fn session_runs_from_dial_to_logout() {
    let account = account_with_tls();
    let dial = begin(&account);
    let login = advance(&account, dial.phase, Reply::Completed);
    assert_eq!(
        login,
        quiet(
            Phase::Unauthenticated,
            Command::Login { username: "alice".to_string(), password: "secret".to_string() }
        )
    );
    let select = advance(&account, login.phase, Reply::Completed);
    assert_eq!(
        select,
        quiet(Phase::Authenticated, Command::Select { mailbox: "INBOX".to_string() })
    );
    let fetch = advance(&account, select.phase, Reply::Completed);
    assert_eq!(
        fetch,
        quiet(
            Phase::MailboxSelected,
            Command::Fetch { sequence_set: "1:100".to_string(), query: "ALL".to_string() }
        )
    );
    let batch = vec![subject("one"), Message { envelope: None }, subject("two")];
    let logout = advance(&account, fetch.phase, Reply::Messages(batch));
    assert_eq!(
        logout,
        Transition {
            phase: Phase::Fetched,
            output: "---\nSubject: one\n---\nSubject: two\n".to_string(),
            command: Command::Logout,
        }
    );
    let done = advance(&account, logout.phase, Reply::Completed);
    assert_eq!(done, quiet(Phase::Done, Command::Stop));
    assert_eq!(done.phase.result(), Some(Ok(())));
}

#[test]
fn login_without_credentials_is_a_configuration_failure() {
    let mut account = Server::default();
    account.with_name("work").with_imap_host_and_tls_port("imap.example.org", 993);
    let dial = begin(&account);
    assert_eq!(dial.phase, Phase::Disconnected);
    let login = advance(&account, dial.phase, Reply::Completed);
    assert_eq!(
        login,
        failed(ConnectionError::ConfigError(
            "No username and password configured for '\"work\"'".to_string()
        ))
    );
    match login.phase {
        Phase::Failed(error) => {
            assert_eq!(error.kind(), ErrorKind::Configuration);
            assert!(!error.is_negative_response());
        }
        other => panic!("the account went on to {:?}", other),
    }
}

#[test]
fn account_name_is_quoted_as_debug_quotes_it() {
    let mut account = Server::default();
    account.with_name("o\"hare\\n").with_imap_host_and_tls_port("imap.example.org", 993);
    let login = advance(&account, Phase::Disconnected, Reply::Completed);
    assert_eq!(
        login.phase,
        Phase::Failed(ConnectionError::ConfigError(
            "No username and password configured for '\"o\\\"hare\\\\n\"'".to_string()
        ))
    );
}

#[test]
fn failed_dial_is_a_protocol_failure_with_or_without_credentials() {
    let mut account = Server::default();
    account.with_imap_host_and_tls_port("imap.example.org", 993);
    let refused = ImapFailure::Other("Io(ConnectionRefused)".to_string());
    let step = advance(&account, Phase::Disconnected, Reply::Failed(refused.clone()));
    assert_eq!(step, failed(ConnectionError::ImapError(refused)));
}

#[test]
fn failure_in_any_phase_under_way_is_a_protocol_failure() {
    let account = account_with_tls();
    let phases = vec![
        Phase::Disconnected,
        Phase::Unauthenticated,
        Phase::Authenticated,
        Phase::MailboxSelected,
        Phase::Fetched,
    ];
    for phase in phases {
        let lost = ImapFailure::Other("ConnectionLost".to_string());
        let step = advance(&account, phase, Reply::Failed(lost.clone()));
        assert_eq!(step, failed(ConnectionError::ImapError(lost)));
        match step.phase {
            Phase::Failed(error) => assert_eq!(error.kind(), ErrorKind::Protocol),
            other => panic!("the account went on to {:?}", other),
        }
    }
}

#[test]
fn negative_response_to_login_stays_apart() {
    let account = account_with_tls();
    let no = ImapFailure::No("[AUTHENTICATIONFAILED] Invalid credentials".to_string());
    let step = advance(&account, Phase::Unauthenticated, Reply::Failed(no.clone()));
    assert_eq!(step, failed(ConnectionError::ImapError(no)));
    match step.phase {
        Phase::Failed(error) => {
            assert_eq!(error.kind(), ErrorKind::Protocol);
            assert!(error.is_negative_response());
        }
        other => panic!("the account went on to {:?}", other),
    }
}

#[test]
fn failed_logout_comes_after_the_output() {
    let account = account_with_tls();
    let logout = advance(&account, Phase::MailboxSelected, Reply::Messages(vec![subject("kept")]));
    assert_eq!(logout.output, "---\nSubject: kept\n");
    assert_eq!(logout.command, Command::Logout);
    let bye = ImapFailure::Other("ConnectionLost".to_string());
    let end = advance(&account, logout.phase, Reply::Failed(bye.clone()));
    assert_eq!(end, failed(ConnectionError::ImapError(bye)));
}

#[test]
fn fetch_that_brought_nothing_prints_nothing_and_logs_out() {
    let account = account_with_tls();
    let empty = advance(&account, Phase::MailboxSelected, Reply::Messages(vec![]));
    assert_eq!(empty, quiet(Phase::Fetched, Command::Logout));
    let bare = advance(&account, Phase::MailboxSelected, Reply::Completed);
    assert_eq!(bare, quiet(Phase::Fetched, Command::Logout));
}

#[test]
fn batch_is_read_only_after_the_fetch() {
    let account = account_with_tls();
    let step = advance(&account, Phase::Unauthenticated, Reply::Messages(vec![subject("early")]));
    assert_eq!(
        step,
        quiet(Phase::Authenticated, Command::Select { mailbox: "INBOX".to_string() })
    );
}

#[test]
fn machine_at_rest_stays_at_rest() {
    let account = account_with_tls();
    let lost = ImapFailure::Other("ConnectionLost".to_string());
    assert_eq!(
        advance(&account, Phase::Done, Reply::Failed(lost.clone())),
        quiet(Phase::Done, Command::Stop)
    );
    let error = ConnectionError::ConfigError("No TLS configured for 'work'".to_string());
    assert_eq!(
        advance(&account, Phase::Failed(error.clone()), Reply::Messages(vec![subject("late")])),
        failed(error.clone())
    );
    assert_eq!(advance(&account, Phase::Failed(error.clone()), Reply::Failed(lost)), failed(error));
}

#[test]
fn result_is_known_only_at_rest() {
    assert_eq!(Phase::Disconnected.result(), None);
    assert_eq!(Phase::Unauthenticated.result(), None);
    assert_eq!(Phase::Authenticated.result(), None);
    assert_eq!(Phase::MailboxSelected.result(), None);
    assert_eq!(Phase::Fetched.result(), None);
    assert_eq!(Phase::Done.result(), Some(Ok(())));
}

#[test]
fn kinds_of_the_three_errors() {
    assert_eq!(ConnectionError::ConfigError("c".to_string()).kind(), ErrorKind::Configuration);
    assert_eq!(
        ConnectionError::ImapError(ImapFailure::Other("o".to_string())).kind(),
        ErrorKind::Protocol
    );
    assert_eq!(
        ConnectionError::ImapError(ImapFailure::No("n".to_string())).kind(),
        ErrorKind::Protocol
    );
    assert_eq!(ConnectionError::EncodingError("e".to_string()).kind(), ErrorKind::Encoding);
    assert!(ConnectionError::ImapError(ImapFailure::No("n".to_string())).is_negative_response());
    assert!(!ConnectionError::ImapError(ImapFailure::Other("o".to_string())).is_negative_response());
    assert!(!ConnectionError::ConfigError("c".to_string()).is_negative_response());
    assert!(!ConnectionError::EncodingError("e".to_string()).is_negative_response());
}

#[test]
fn messages_of_the_two_configuration_failures() {
    assert_eq!(
        missing_tls("home"),
        ConnectionError::ConfigError("No TLS configured for 'home'".to_string())
    );
    assert_eq!(
        missing_credentials("\"home\""),
        ConnectionError::ConfigError(
            "No username and password configured for '\"home\"'".to_string()
        )
    );
    assert_eq!(
        missing_credentials("home"),
        ConnectionError::ConfigError("No username and password configured for 'home'".to_string())
    );
}

#[test]
fn session_failure_converts_into_a_protocol_failure() {
    let no = ImapFailure::No("NO".to_string());
    assert_eq!(ConnectionError::from(no.clone()), ConnectionError::ImapError(no));
    let other = ImapFailure::Other("ConnectionLost".to_string());
    assert_eq!(ConnectionError::from(other.clone()).kind(), ErrorKind::Protocol);
}
