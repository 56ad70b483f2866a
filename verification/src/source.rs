//! The sources of the settings: what a configuration file or the environment
//! says of each account, how a later source overrides an earlier one, and how
//! what was said becomes an account.
//!
//! A source gives each field of an account or leaves it out. Sources are
//! merged field by field, account by account: a field that the later source
//! gives wins, a field that it leaves out stays as the earlier source had it.

use crate::settings::CredentialsView;
use crate::settings::ImapView;
use crate::settings::ServerView;
use crate::settings::SmtpView;
use crate::settings::Tls;
use crate::settings::DEFAULT_IMAP_PORT;
use crate::settings::DEFAULT_SERVER_HOST;
use crate::settings::DEFAULT_SERVER_NAME;
use crate::settings::DEFAULT_SMTP_PORT;
use vstd::prelude::*;
use vstd::string::StringExecFns;

verus! {

/// What a failure to load the settings holds.
pub enum ConfigErrorView {
    NoProjectDirectory,
    Unreadable(Seq<char>),
    PartialCredentials(Seq<char>),
}

impl ConfigErrorView {
    /// The failure in words.
    pub open spec fn message(self) -> Seq<char> {
        match self {
            ConfigErrorView::NoProjectDirectory => "Cannot locate project directories"@,
            ConfigErrorView::Unreadable(description) => description,
            ConfigErrorView::PartialCredentials(account) => "Credentials of '"@ + account
                + "' need both username and password"@,
        }
    }
}

/// Why the settings could not be loaded.
#[derive(Debug, Clone, PartialEq, Eq)]
pub enum ConfigError {
    /// The platform's directory for preferences cannot be determined.
    NoProjectDirectory,
    /// A source is there, but it cannot be read as a configuration; with the
    /// reader's description.
    Unreadable(String),
    /// The account of this name gives a user name without a password, or a
    /// password without a user name: nothing is guessed of such credentials.
    PartialCredentials(String),
}

impl View for ConfigError {
    type V = ConfigErrorView;

    open spec fn view(&self) -> ConfigErrorView {
        match self {
            ConfigError::NoProjectDirectory => ConfigErrorView::NoProjectDirectory,
            ConfigError::Unreadable(description) => ConfigErrorView::Unreadable(description@),
            ConfigError::PartialCredentials(account) => ConfigErrorView::PartialCredentials(
                account@,
            ),
        }
    }
}

impl ConfigError {
    /// The failure in words.
    pub fn message(&self) -> (message: String)
        ensures
            message@ == self@.message(),
    {
        match self {
            ConfigError::NoProjectDirectory => String::from_str(
                "Cannot locate project directories",
            ),
            ConfigError::Unreadable(description) => description.clone(),
            ConfigError::PartialCredentials(account) => {
                let mut message = String::from_str("Credentials of '");
                message.append(account.as_str());
                message.append("' need both username and password");
                message
            },
        }
    }
}

/// The view of a text field that a source gives or leaves out.
pub open spec fn text_view(field: Option<String>) -> Option<Seq<char>> {
    match field {
        Some(text) => Some(text@),
        None => None,
    }
}

/// What a source says of an account.
pub struct AccountSourceView {
    pub name: Option<Seq<char>>,
    pub imap_host: Option<Seq<char>>,
    pub imap_port: Option<u16>,
    pub imap_tls_port: Option<u16>,
    pub smtp_host: Option<Seq<char>>,
    pub smtp_port: Option<u16>,
    pub smtp_tls_port: Option<u16>,
    pub username: Option<Seq<char>>,
    pub password: Option<Seq<char>>,
}

/// What one source says of one account: each field is given or left out.
#[derive(Debug, Clone, PartialEq, Eq)]
pub struct AccountSource {
    pub name: Option<String>,
    pub imap_host: Option<String>,
    pub imap_port: Option<u16>,
    pub imap_tls_port: Option<u16>,
    pub smtp_host: Option<String>,
    pub smtp_port: Option<u16>,
    pub smtp_tls_port: Option<u16>,
    pub username: Option<String>,
    pub password: Option<String>,
}

impl View for AccountSource {
    type V = AccountSourceView;

    open spec fn view(&self) -> AccountSourceView {
        AccountSourceView {
            name: text_view(self.name),
            imap_host: text_view(self.imap_host),
            imap_port: self.imap_port,
            imap_tls_port: self.imap_tls_port,
            smtp_host: text_view(self.smtp_host),
            smtp_port: self.smtp_port,
            smtp_tls_port: self.smtp_tls_port,
            username: text_view(self.username),
            password: text_view(self.password),
        }
    }
}

/// The views of the accounts of a source, in their order.
pub open spec fn source_views(accounts: Seq<AccountSource>) -> Seq<AccountSourceView> {
    accounts.map_values(|account: AccountSource| account@)
}

/// A field after a later source was laid over an earlier one: what the later
/// source gives, and where it gives nothing, what the earlier one had.
pub open spec fn prefer<T>(later: Option<T>, earlier: Option<T>) -> Option<T> {
    if later is Some {
        later
    } else {
        earlier
    }
}

impl AccountSourceView {
    /// The account of which nothing is said.
    pub open spec fn blank() -> AccountSourceView {
        AccountSourceView {
            name: None,
            imap_host: None,
            imap_port: None,
            imap_tls_port: None,
            smtp_host: None,
            smtp_port: None,
            smtp_tls_port: None,
            username: None,
            password: None,
        }
    }

    /// This account with `later` laid over it, field by field.
    pub open spec fn overlaid(self, later: AccountSourceView) -> AccountSourceView {
        AccountSourceView {
            name: prefer(later.name, self.name),
            imap_host: prefer(later.imap_host, self.imap_host),
            imap_port: prefer(later.imap_port, self.imap_port),
            imap_tls_port: prefer(later.imap_tls_port, self.imap_tls_port),
            smtp_host: prefer(later.smtp_host, self.smtp_host),
            smtp_port: prefer(later.smtp_port, self.smtp_port),
            smtp_tls_port: prefer(later.smtp_tls_port, self.smtp_tls_port),
            username: prefer(later.username, self.username),
            password: prefer(later.password, self.password),
        }
    }

    /// The credentials that the account gives: a user name and a password,
    /// or neither. An account that gives one of the two has none.
    pub open spec fn credentials(self) -> Option<CredentialsView> {
        match (self.username, self.password) {
            (Some(username), Some(password)) => Some(
                CredentialsView::UsernameAndPassword { username, password },
            ),
            (None, None) => Some(CredentialsView::Unset),
            _ => None,
        }
    }

    /// The name of the account: `default` where none is given.
    pub open spec fn resolved_name(self) -> Seq<char> {
        match self.name {
            Some(name) => name,
            None => DEFAULT_SERVER_NAME@,
        }
    }

    /// The IMAP endpoint of the account, with the defaults for what is left
    /// out: `localhost`, port 143 and no TLS.
    pub open spec fn resolved_imap(self) -> ImapView {
        ImapView {
            host: match self.imap_host {
                Some(host) => host,
                None => DEFAULT_SERVER_HOST@,
            },
            port: match self.imap_port {
                Some(port) => port,
                None => DEFAULT_IMAP_PORT,
            },
            tls: match self.imap_tls_port {
                Some(port) => Some(Tls { port }),
                None => None,
            },
        }
    }

    /// The SMTP endpoint of the account, with the defaults for what is left
    /// out: `localhost`, port 25 and no TLS.
    pub open spec fn resolved_smtp(self) -> SmtpView {
        SmtpView {
            host: match self.smtp_host {
                Some(host) => host,
                None => DEFAULT_SERVER_HOST@,
            },
            port: match self.smtp_port {
                Some(port) => port,
                None => DEFAULT_SMTP_PORT,
            },
            tls: match self.smtp_tls_port {
                Some(port) => Some(Tls { port }),
                None => None,
            },
        }
    }

    /// The account that the source describes, or why it describes none.
    pub open spec fn resolved(self) -> Result<ServerView, ConfigErrorView> {
        match self.credentials() {
            Some(credentials) => Ok(
                ServerView {
                    name: self.resolved_name(),
                    smtp: self.resolved_smtp(),
                    imap: self.resolved_imap(),
                    credentials,
                },
            ),
            None => Err(ConfigErrorView::PartialCredentials(self.resolved_name())),
        }
    }
}

/// What a source says of the account at `position`: nothing where it has
/// fewer accounts.
pub open spec fn account_at(accounts: Seq<AccountSourceView>, position: int) -> AccountSourceView {
    if 0 <= position < accounts.len() {
        accounts[position]
    } else {
        AccountSourceView::blank()
    }
}

/// The longer of two lengths.
pub open spec fn longer(a: nat, b: nat) -> nat {
    if a >= b {
        a
    } else {
        b
    }
}

/// Two sources merged: as many accounts as the longer of them has, each the
/// account of `earlier` with that of `later` laid over it.
pub open spec fn merged(
    earlier: Seq<AccountSourceView>,
    later: Seq<AccountSourceView>,
) -> Seq<AccountSourceView> {
    Seq::new(
        longer(earlier.len(), later.len()),
        |position: int| account_at(earlier, position).overlaid(account_at(later, position)),
    )
}

/// The accounts that a source describes, in its order, or the failure of
/// the first account that it does not describe.
pub open spec fn resolved_all(accounts: Seq<AccountSourceView>) -> Result<
    Seq<ServerView>,
    ConfigErrorView,
>
    decreases accounts.len(),
{
    if accounts.len() == 0 {
        Ok(Seq::empty())
    } else {
        match resolved_all(accounts.drop_last()) {
            Err(error) => Err(error),
            Ok(servers) => match accounts.last().resolved() {
                Ok(server) => Ok(servers.push(server)),
                Err(error) => Err(error),
            },
        }
    }
}

/// The source that gives every field of `server` as `server` has it.
pub open spec fn described(server: ServerView) -> AccountSourceView {
    AccountSourceView {
        name: Some(server.name),
        imap_host: Some(server.imap.host),
        imap_port: Some(server.imap.port),
        imap_tls_port: match server.imap.tls {
            Some(tls) => Some(tls.port),
            None => None,
        },
        smtp_host: Some(server.smtp.host),
        smtp_port: Some(server.smtp.port),
        smtp_tls_port: match server.smtp.tls {
            Some(tls) => Some(tls.port),
            None => None,
        },
        username: match server.credentials {
            CredentialsView::UsernameAndPassword { username, password } => Some(username),
            CredentialsView::Unset => None,
        },
        password: match server.credentials {
            CredentialsView::UsernameAndPassword { username, password } => Some(password),
            CredentialsView::Unset => None,
        },
    }
}

/// The sources that describe `servers`, account by account.
pub open spec fn described_all(servers: Seq<ServerView>) -> Seq<AccountSourceView> {
    servers.map_values(|server: ServerView| described(server))
}

/// A copy of a text field.
fn copy_text(field: &Option<String>) -> (copy: Option<String>)
    ensures
        text_view(copy) == text_view(*field),
{
    match field {
        Some(text) => Some(text.clone()),
        None => None,
    }
}

/// Of two text fields the later where it is given, else the earlier.
fn prefer_text(later: &Option<String>, earlier: &Option<String>) -> (field: Option<String>)
    ensures
        text_view(field) == prefer(text_view(*later), text_view(*earlier)),
{
    if later.is_some() {
        copy_text(later)
    } else {
        copy_text(earlier)
    }
}

/// Of two ports the later where it is given, else the earlier.
fn prefer_port(later: Option<u16>, earlier: Option<u16>) -> (field: Option<u16>)
    ensures
        field == prefer(later, earlier),
{
    if later.is_some() {
        later
    } else {
        earlier
    }
}

impl AccountSource {
    /// The account of which nothing is said.
    pub fn blank() -> (account: AccountSource)
        ensures
            account@ == AccountSourceView::blank(),
    {
        AccountSource {
            name: None,
            imap_host: None,
            imap_port: None,
            imap_tls_port: None,
            smtp_host: None,
            smtp_port: None,
            smtp_tls_port: None,
            username: None,
            password: None,
        }
    }

    /// This account with `later` laid over it: each field as `later` gives
    /// it, and as this account has it where `later` leaves it out.
    pub fn overlay(&self, later: &AccountSource) -> (account: AccountSource)
        ensures
            account@ == self@.overlaid(later@),
    {
        AccountSource {
            name: prefer_text(&later.name, &self.name),
            imap_host: prefer_text(&later.imap_host, &self.imap_host),
            imap_port: prefer_port(later.imap_port, self.imap_port),
            imap_tls_port: prefer_port(later.imap_tls_port, self.imap_tls_port),
            smtp_host: prefer_text(&later.smtp_host, &self.smtp_host),
            smtp_port: prefer_port(later.smtp_port, self.smtp_port),
            smtp_tls_port: prefer_port(later.smtp_tls_port, self.smtp_tls_port),
            username: prefer_text(&later.username, &self.username),
            password: prefer_text(&later.password, &self.password),
        }
    }
}

/// Merges two sources, the later over the earlier, account by account and
/// field by field.
pub fn merge_sources(earlier: &Vec<AccountSource>, later: &Vec<AccountSource>) -> (accounts: Vec<
    AccountSource,
>)
    ensures
        source_views(accounts@) == merged(source_views(earlier@), source_views(later@)),
{
    let count = if earlier.len() >= later.len() {
        earlier.len()
    } else {
        later.len()
    };
    let blank = AccountSource::blank();
    let mut accounts: Vec<AccountSource> = Vec::new();
    let mut i: usize = 0;
    while i < count
        invariant
            i <= count,
            count == longer(earlier@.len(), later@.len()),
            blank@ == AccountSourceView::blank(),
            accounts@.len() == i,
            forall|k: int|
                0 <= k < i ==> (#[trigger] accounts@[k])@ == account_at(
                    source_views(earlier@),
                    k,
                ).overlaid(account_at(source_views(later@), k)),
        decreases count - i,
    {
        let below = if i < earlier.len() {
            &earlier[i]
        } else {
            &blank
        };
        let above = if i < later.len() {
            &later[i]
        } else {
            &blank
        };
        accounts.push(below.overlay(above));
        i = i + 1;
    }
    proof {
        assert(source_views(accounts@) =~= merged(source_views(earlier@), source_views(later@)));
    }
    accounts
}

/// Whether `merged` is `later` where `later` is given, and `earlier` where
/// it is not.
pub open spec fn later_wins<T>(merged: Option<T>, later: Option<T>, earlier: Option<T>) -> bool {
    &&& later is Some ==> merged == later
    &&& later is None ==> merged == earlier
}

/// Of every account and every field: a field that the later source gives
/// wins over the same field of the earlier source, and a field that the
/// later source leaves out stays as the earlier source has it.
pub proof fn lemma_later_source_wins_field_by_field(
    earlier: Seq<AccountSourceView>,
    later: Seq<AccountSourceView>,
    position: int,
)
    requires
        0 <= position < longer(earlier.len(), later.len()),
    ensures
        merged(earlier, later).len() == longer(earlier.len(), later.len()),
        ({
            let account = merged(earlier, later)[position];
            let above = account_at(later, position);
            let below = account_at(earlier, position);
            &&& later_wins(account.name, above.name, below.name)
            &&& later_wins(account.imap_host, above.imap_host, below.imap_host)
            &&& later_wins(account.imap_port, above.imap_port, below.imap_port)
            &&& later_wins(account.imap_tls_port, above.imap_tls_port, below.imap_tls_port)
            &&& later_wins(account.smtp_host, above.smtp_host, below.smtp_host)
            &&& later_wins(account.smtp_port, above.smtp_port, below.smtp_port)
            &&& later_wins(account.smtp_tls_port, above.smtp_tls_port, below.smtp_tls_port)
            &&& later_wins(account.username, above.username, below.username)
            &&& later_wins(account.password, above.password, below.password)
        }),
{
}

/// A source that says nothing changes nothing, whether it is laid over
/// another source or under it.
pub proof fn lemma_merge_with_nothing(accounts: Seq<AccountSourceView>)
    ensures
        merged(accounts, Seq::empty()) == accounts,
        merged(Seq::empty(), accounts) == accounts,
{
    assert(merged(accounts, Seq::empty()) =~= accounts);
    assert(merged(Seq::empty(), accounts) =~= accounts);
}

/// The first account of a source that describes no account decides: once
/// the accounts up to a position fail, all of them fail in the same way,
/// whatever the accounts behind that position say.
pub proof fn lemma_first_failure_decides(accounts: Seq<AccountSourceView>, upto: int)
    requires
        0 <= upto <= accounts.len(),
        resolved_all(accounts.take(upto)) is Err,
    ensures
        resolved_all(accounts) == resolved_all(accounts.take(upto)),
    decreases accounts.len() - upto,
{
    if upto < accounts.len() {
        assert(accounts.take(upto + 1).drop_last() == accounts.take(upto));
        lemma_first_failure_decides(accounts, upto + 1);
    } else {
        assert(accounts.take(upto) == accounts);
    }
}

/// What describes an account gives that account back: nothing is lost
/// between an account and the source that is written for it.
pub proof fn lemma_described_account_resolves_to_itself(server: ServerView)
    ensures
        described(server).resolved() == Ok::<ServerView, ConfigErrorView>(server),
{
}

/// What describes a sequence of accounts gives those accounts back, in
/// their order.
pub proof fn lemma_described_accounts_resolve_to_themselves(servers: Seq<ServerView>)
    ensures
        resolved_all(described_all(servers)) == Ok::<Seq<ServerView>, ConfigErrorView>(servers),
    decreases servers.len(),
{
    if servers.len() > 0 {
        lemma_described_accounts_resolve_to_themselves(servers.drop_last());
        lemma_described_account_resolves_to_itself(servers.last());
        assert(described_all(servers).drop_last() =~= described_all(servers.drop_last()));
        assert(servers.drop_last().push(servers.last()) =~= servers);
    } else {
        assert(servers =~= Seq::empty());
    }
}

} // verus!
