//! The connection bootstrapper: the state machine that takes one account
//! from nothing to a fetched and printed inbox.
//!
//! The machine decides; its caller performs. `begin` and `advance` answer
//! with the phase reached, the text to print and the command to perform
//! next, and the caller hands the reply to that command back to `advance`.

use crate::envelope::message_views;
use crate::envelope::messages_text;
use crate::envelope::render_messages;
use crate::envelope::Message;
use crate::envelope::MessageView;
use crate::error::ConnectionError;
use crate::error::ConnectionErrorView;
use crate::error::ErrorKind;
use crate::error::ImapFailure;
use crate::error::ImapFailureView;
use crate::settings::Credentials;
use crate::settings::CredentialsView;
use crate::settings::Server;
use crate::settings::ServerView;
use crate::text::debug_format;
use crate::text::debug_text;
use vstd::prelude::*;
use vstd::string::StringExecFns;

verus! {

/// The mailbox that is selected.
pub const MAILBOX: &'static str = "INBOX";

/// The messages that are fetched: the first hundred of the mailbox.
pub const SEQUENCE_SET: &'static str = "1:100";

/// What is fetched of each message; it includes the envelope.
pub const QUERY: &'static str = "ALL";

/// What a phase holds.
pub enum PhaseView {
    Disconnected,
    Unauthenticated,
    Authenticated,
    MailboxSelected,
    Fetched,
    Done,
    Failed(ConnectionErrorView),
}

impl PhaseView {
    /// Whether the machine has come to rest.
    pub open spec fn is_terminal(self) -> bool {
        self is Done || self is Failed
    }
}

/// How far the session of one account has come.
#[derive(Debug, Clone, PartialEq, Eq)]
pub enum Phase {
    /// A connection is being dialled; none is open yet.
    Disconnected,
    /// The connection is open and nobody is logged in.
    Unauthenticated,
    /// Logged in; no mailbox is selected.
    Authenticated,
    /// The mailbox is selected; nothing was fetched yet.
    MailboxSelected,
    /// The batch was fetched and its text handed out; the session is still
    /// open.
    Fetched,
    /// Logged out after a fetch: the account is done.
    Done,
    /// The account failed; the machine rests here.
    Failed(ConnectionError),
}

impl View for Phase {
    type V = PhaseView;

    open spec fn view(&self) -> PhaseView {
        match self {
            Phase::Disconnected => PhaseView::Disconnected,
            Phase::Unauthenticated => PhaseView::Unauthenticated,
            Phase::Authenticated => PhaseView::Authenticated,
            Phase::MailboxSelected => PhaseView::MailboxSelected,
            Phase::Fetched => PhaseView::Fetched,
            Phase::Done => PhaseView::Done,
            Phase::Failed(error) => PhaseView::Failed(error@),
        }
    }
}

/// What a command holds.
pub enum CommandView {
    Dial { host: Seq<char>, port: u16 },
    Login { username: Seq<char>, password: Seq<char> },
    Select { mailbox: Seq<char> },
    Fetch { sequence_set: Seq<char>, query: Seq<char> },
    Logout,
    Stop,
}

/// What the caller is to do next.
#[derive(Debug, Clone, PartialEq, Eq)]
pub enum Command {
    /// Open a TLS connection to this host and port.
    Dial { host: String, port: u16 },
    /// Log in with these credentials.
    Login { username: String, password: String },
    /// Select this mailbox.
    Select { mailbox: String },
    /// Fetch this of these messages.
    Fetch { sequence_set: String, query: String },
    /// Log out.
    Logout,
    /// Nothing more: the phase is `Done` or `Failed`.
    Stop,
}

impl View for Command {
    type V = CommandView;

    open spec fn view(&self) -> CommandView {
        match self {
            Command::Dial { host, port } => CommandView::Dial { host: host@, port: *port },
            Command::Login { username, password } => CommandView::Login {
                username: username@,
                password: password@,
            },
            Command::Select { mailbox } => CommandView::Select { mailbox: mailbox@ },
            Command::Fetch { sequence_set, query } => CommandView::Fetch {
                sequence_set: sequence_set@,
                query: query@,
            },
            Command::Logout => CommandView::Logout,
            Command::Stop => CommandView::Stop,
        }
    }
}

/// What a reply holds.
pub enum ReplyView {
    Completed,
    Messages(Seq<MessageView>),
    Failed(ImapFailureView),
}

impl ReplyView {
    /// The batch that the reply brought: empty where it brought none.
    pub open spec fn messages(self) -> Seq<MessageView> {
        match self {
            ReplyView::Messages(messages) => messages,
            _ => Seq::empty(),
        }
    }
}

/// How the command that was performed last went.
#[derive(Debug, Clone, PartialEq, Eq)]
pub enum Reply {
    /// It succeeded and brought nothing.
    Completed,
    /// It succeeded and brought this batch of messages.
    Messages(Vec<Message>),
    /// It failed.
    Failed(ImapFailure),
}

impl View for Reply {
    type V = ReplyView;

    open spec fn view(&self) -> ReplyView {
        match self {
            Reply::Completed => ReplyView::Completed,
            Reply::Messages(messages) => ReplyView::Messages(message_views(messages@)),
            Reply::Failed(failure) => ReplyView::Failed(failure@),
        }
    }
}

/// What a transition holds.
pub struct TransitionView {
    pub phase: PhaseView,
    pub output: Seq<char>,
    pub command: CommandView,
}

/// One step of the machine: the phase reached, the text to print before
/// anything else is done, and the command to perform then.
#[derive(Debug, Clone, PartialEq, Eq)]
pub struct Transition {
    pub phase: Phase,
    pub output: String,
    pub command: Command,
}

impl View for Transition {
    type V = TransitionView;

    open spec fn view(&self) -> TransitionView {
        TransitionView { phase: self.phase@, output: self.output@, command: self.command@ }
    }
}

/// The message of an account without TLS.
pub open spec fn no_tls_message(name: Seq<char>) -> Seq<char> {
    "No TLS configured for '"@ + name + "'"@
}

/// The message of an account without credentials; `quoted_name` is the
/// account's name as `{:?}` writes it.
pub open spec fn no_credentials_message(quoted_name: Seq<char>) -> Seq<char> {
    "No username and password configured for '"@ + quoted_name + "'"@
}

/// The transition into failure: nothing to print, nothing more to do.
pub open spec fn failure(error: ConnectionErrorView) -> TransitionView {
    TransitionView {
        phase: PhaseView::Failed(error),
        output: Seq::empty(),
        command: CommandView::Stop,
    }
}

/// The first step for an account. Without a TLS override nothing is
/// dialled: the account fails for its configuration. With one, the
/// connection goes to the account's host, on the port of the override.
pub open spec fn begun(account: ServerView) -> TransitionView {
    if account.imap.tls is None {
        failure(ConnectionErrorView::ConfigError(no_tls_message(account.name)))
    } else {
        TransitionView {
            phase: PhaseView::Disconnected,
            output: Seq::empty(),
            command: CommandView::Dial {
                host: account.imap.host,
                port: account.imap.effective_port(),
            },
        }
    }
}

/// The step that follows a command that succeeded in `phase`.
pub open spec fn succeeded(
    account: ServerView,
    phase: PhaseView,
    messages: Seq<MessageView>,
) -> TransitionView {
    match phase {
        PhaseView::Disconnected => match account.credentials {
            CredentialsView::Unset => failure(
                ConnectionErrorView::ConfigError(no_credentials_message(debug_text(account.name))),
            ),
            CredentialsView::UsernameAndPassword { username, password } => TransitionView {
                phase: PhaseView::Unauthenticated,
                output: Seq::empty(),
                command: CommandView::Login { username, password },
            },
        },
        PhaseView::Unauthenticated => TransitionView {
            phase: PhaseView::Authenticated,
            output: Seq::empty(),
            command: CommandView::Select { mailbox: MAILBOX@ },
        },
        PhaseView::Authenticated => TransitionView {
            phase: PhaseView::MailboxSelected,
            output: Seq::empty(),
            command: CommandView::Fetch { sequence_set: SEQUENCE_SET@, query: QUERY@ },
        },
        PhaseView::MailboxSelected => TransitionView {
            phase: PhaseView::Fetched,
            output: messages_text(messages),
            command: CommandView::Logout,
        },
        PhaseView::Fetched => TransitionView {
            phase: PhaseView::Done,
            output: Seq::empty(),
            command: CommandView::Stop,
        },
        _ => TransitionView { phase: phase, output: Seq::empty(), command: CommandView::Stop },
    }
}

/// The step that follows `reply` in `phase`. A machine at rest stays where
/// it is. Elsewhere a failure of the session, in whatever phase, is a
/// protocol failure of the account, and a success takes the machine on.
pub open spec fn advanced(account: ServerView, phase: PhaseView, reply: ReplyView) -> TransitionView {
    if phase.is_terminal() {
        TransitionView { phase: phase, output: Seq::empty(), command: CommandView::Stop }
    } else {
        match reply {
            ReplyView::Failed(failure) => self::failure(ConnectionErrorView::ImapError(failure)),
            _ => succeeded(account, phase, reply.messages()),
        }
    }
}

/// The transition into failure with `error`.
fn fail(error: ConnectionError) -> (transition: Transition)
    ensures
        transition@ == failure(error@),
{
    Transition { phase: Phase::Failed(error), output: String::new(), command: Command::Stop }
}

/// The transition to `phase` with `command`, with nothing to print.
fn proceed(phase: Phase, command: Command) -> (transition: Transition)
    ensures
        transition@ == (TransitionView {
            phase: phase@,
            output: Seq::empty(),
            command: command@,
        }),
{
    Transition { phase, output: String::new(), command }
}

/// The failure of the account of this name for want of TLS.
pub fn missing_tls(name: &str) -> (error: ConnectionError)
    ensures
        error@ == ConnectionErrorView::ConfigError(no_tls_message(name@)),
{
    let mut message = String::from_str("No TLS configured for '");
    message.append(name);
    message.append("'");
    ConnectionError::ConfigError(message)
}

/// The failure of an account for want of credentials; `quoted_name` is the
/// account's name as `{:?}` writes it.
pub fn missing_credentials(quoted_name: &str) -> (error: ConnectionError)
    ensures
        error@ == ConnectionErrorView::ConfigError(no_credentials_message(quoted_name@)),
{
    let mut message = String::from_str("No username and password configured for '");
    message.append(quoted_name);
    message.append("'");
    ConnectionError::ConfigError(message)
}

/// Starts the session of `account`: dials, where TLS is configured, and
/// fails for the configuration where it is not.
pub fn begin(account: &Server) -> (transition: Transition)
    ensures
        transition@ == begun(account@),
        account@.imap.tls is None <==> transition@.phase is Failed,
{
    let imap = account.imap();
    match imap.tls() {
        None => fail(missing_tls(account.name())),
        Some(_) => proceed(
            Phase::Disconnected,
            Command::Dial { host: String::from_str(imap.host()), port: imap.port() },
        ),
    }
}

/// The step after the connection was opened: logs in with the account's
/// credentials, and fails for the configuration where it has none.
fn login(account: &Server) -> (transition: Transition)
    ensures
        transition@ == succeeded(account@, PhaseView::Disconnected, Seq::empty()),
{
    match account.credentials() {
        Credentials::UsernameAndPassword { username, password } => proceed(
            Phase::Unauthenticated,
            Command::Login { username: username.clone(), password: password.clone() },
        ),
        Credentials::Unset => {
            let quoted_name = debug_format(account.name());
            fail(missing_credentials(quoted_name.as_str()))
        },
    }
}

/// Takes the session of `account` one step on: from `phase`, in which the
/// last command was issued, and the `reply` to that command, to the next
/// phase, the text to print and the next command.
pub fn advance(account: &Server, phase: Phase, reply: Reply) -> (transition: Transition)
    ensures
        transition@ == advanced(account@, phase@, reply@),
{
    match phase {
        Phase::Done => proceed(Phase::Done, Command::Stop),
        Phase::Failed(error) => proceed(Phase::Failed(error), Command::Stop),
        phase => match reply {
            Reply::Failed(failure) => fail(ConnectionError::from(failure)),
            reply => match phase {
                Phase::Disconnected => login(account),
                Phase::Unauthenticated => proceed(
                    Phase::Authenticated,
                    Command::Select { mailbox: String::from_str(MAILBOX) },
                ),
                Phase::Authenticated => proceed(
                    Phase::MailboxSelected,
                    Command::Fetch {
                        sequence_set: String::from_str(SEQUENCE_SET),
                        query: String::from_str(QUERY),
                    },
                ),
                Phase::MailboxSelected => {
                    let output = match reply {
                        Reply::Messages(messages) => render_messages(&messages),
                        _ => String::new(),
                    };
                    Transition { phase: Phase::Fetched, output, command: Command::Logout }
                },
                Phase::Fetched => proceed(Phase::Done, Command::Stop),
                phase => proceed(phase, Command::Stop),
            },
        },
    }
}

/// An account without credentials that gets as far as logging in fails for
/// its configuration, whatever the reply to the dial brought, and is never
/// made to fail for the protocol there.
pub proof fn lemma_login_without_credentials_is_a_configuration_failure(
    account: ServerView,
    reply: ReplyView,
)
    requires
        account.credentials is Unset,
        !(reply is Failed),
    ensures
        advanced(account, PhaseView::Disconnected, reply).phase matches PhaseView::Failed(error)
            && error.kind() == ErrorKind::Configuration,
        advanced(account, PhaseView::Disconnected, reply).command is Stop,
{
}

/// No step of an account without credentials asks for a login.
pub proof fn lemma_no_login_without_credentials(
    account: ServerView,
    phase: PhaseView,
    reply: ReplyView,
)
    requires
        account.credentials is Unset,
    ensures
        !(begun(account).command is Login),
        !(advanced(account, phase, reply).command is Login),
{
}

/// A failure of the session is a protocol failure of the account in every
/// phase in which the machine is under way, and it keeps what the session
/// said, so that a negative response stays apart from the other failures.
pub proof fn lemma_session_failure_is_a_protocol_failure(
    account: ServerView,
    phase: PhaseView,
    failure: ImapFailureView,
)
    requires
        !phase.is_terminal(),
    ensures
        advanced(account, phase, ReplyView::Failed(failure)).phase == PhaseView::Failed(
            ConnectionErrorView::ImapError(failure),
        ),
        advanced(account, phase, ReplyView::Failed(failure)).output == Seq::<char>::empty(),
        advanced(account, phase, ReplyView::Failed(failure)).command is Stop,
{
}

/// The machine asks for a logout exactly after a fetch that succeeded, and
/// with it hands out the text of the batch: the text comes before the logout.
pub proof fn lemma_logout_follows_the_fetch(account: ServerView, phase: PhaseView, reply: ReplyView)
    ensures
        advanced(account, phase, reply).command is Logout <==> phase is MailboxSelected && !(reply
            is Failed),
        advanced(account, phase, reply).command is Logout ==> advanced(
            account,
            phase,
            reply,
        ).output == messages_text(reply.messages()),
{
}

/// A session in which nothing fails dials, logs in, selects, fetches and
/// logs out, in this order, and is done then. It hands out the text of the
/// fetched batch together with the logout, and no other text.
pub proof fn lemma_session_without_failure(
    account: ServerView,
    dialled: ReplyView,
    logged_in: ReplyView,
    selected: ReplyView,
    fetched: ReplyView,
    logged_out: ReplyView,
)
    requires
        account.imap.tls is Some,
        account.credentials is UsernameAndPassword,
        !(dialled is Failed),
        !(logged_in is Failed),
        !(selected is Failed),
        !(fetched is Failed),
        !(logged_out is Failed),
    ensures
        ({
            let dial = begun(account);
            let login = advanced(account, dial.phase, dialled);
            let select = advanced(account, login.phase, logged_in);
            let fetch = advanced(account, select.phase, selected);
            let logout = advanced(account, fetch.phase, fetched);
            let end = advanced(account, logout.phase, logged_out);
            &&& dial.command is Dial && dial.phase is Disconnected
            &&& login.command is Login && login.phase is Unauthenticated
            &&& select.command is Select && select.phase is Authenticated
            &&& fetch.command is Fetch && fetch.phase is MailboxSelected
            &&& logout.command is Logout && logout.phase is Fetched
            &&& end.command is Stop && end.phase is Done
            &&& logout.output == messages_text(fetched.messages())
            &&& dial.output.len() == 0 && login.output.len() == 0 && select.output.len() == 0
            &&& fetch.output.len() == 0 && end.output.len() == 0
        }),
{
}

impl Phase {
    /// How the account ended: nothing while the machine is under way.
    pub fn result(self) -> (result: Option<Result<(), ConnectionError>>)
        ensures
            result is Some == self@.is_terminal(),
            self@ is Done ==> result == Some(Ok::<(), ConnectionError>(())),
            self matches Phase::Failed(error) ==> result == Some(
                Err::<(), ConnectionError>(error),
            ),
    {
        match self {
            Phase::Done => Some(Ok(())),
            Phase::Failed(error) => Some(Err(error)),
            _ => None,
        }
    }
}

} // verus!
