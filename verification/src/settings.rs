//! The configuration model: accounts, their endpoints, the TLS override and
//! the credentials, with the rules that resolve a port.
//!
//! Every type has a view that holds its content as mathematical values; the
//! contracts of this crate speak of those views.

use crate::source::described;
use crate::source::described_all;
use crate::source::lemma_first_failure_decides;
use crate::source::merge_sources;
use crate::source::merged;
use crate::source::resolved_all;
use crate::source::source_views;
use crate::source::AccountSource;
use crate::source::ConfigError;
use crate::source::ConfigErrorView;
use vstd::prelude::*;
use vstd::string::StringExecFns;

verus! {

/// Name of an account that was given none.
pub const DEFAULT_SERVER_NAME: &'static str = "default";

/// Host of an endpoint that was given none.
pub const DEFAULT_SERVER_HOST: &'static str = "localhost";

/// Default server port number for SMTP protocol
pub const DEFAULT_SMTP_PORT: u16 = 25;

/// Default server port number for POP3 protocol
pub const DEFAULT_POP3_PORT: u16 = 110;

/// Default server port number for IMAP protocol
pub const DEFAULT_IMAP_PORT: u16 = 143;

/// Default server port number for SMTP protocol over secure (TLS) channel
pub const DEFAULT_SMTP_TLS_PORT: u16 = 465;

/// Default server port number for POP3 protocol over secure (TLS) channel
pub const DEFAULT_POP3_TLS_PORT: u16 = 995;

/// Default server port number for IMAP protocol over secure (TLS) channel
pub const DEFAULT_IMAP_TLS_PORT: u16 = 993;

/// TLS configuration. Its presence in an endpoint is the one sign that TLS is
/// to be used, and its port then replaces the endpoint's own.
#[derive(Debug, Clone, Copy, PartialEq, Eq, Structural)]
pub struct Tls {
    pub port: u16,
}

impl Tls {
    /// TLS on the port that IMAP uses for it.
    pub fn default_imap() -> (tls: Tls)
        ensures
            tls.port == DEFAULT_IMAP_TLS_PORT,
    {
        Tls { port: DEFAULT_IMAP_TLS_PORT }
    }

    /// TLS on the port that SMTP uses for it.
    pub fn default_smtp() -> (tls: Tls)
        ensures
            tls.port == DEFAULT_SMTP_TLS_PORT,
    {
        Tls { port: DEFAULT_SMTP_TLS_PORT }
    }
}

/// The port on which an endpoint is reached: that of the TLS override where
/// there is one, the endpoint's own port otherwise.
pub open spec fn effective_port(port: u16, tls: Option<Tls>) -> u16 {
    match tls {
        Some(tls) => tls.port,
        None => port,
    }
}

/// What an SMTP endpoint holds.
pub struct SmtpView {
    pub host: Seq<char>,
    pub port: u16,
    pub tls: Option<Tls>,
}

impl SmtpView {
    /// The endpoint that nothing was said of.
    pub open spec fn initial() -> SmtpView {
        SmtpView { host: DEFAULT_SERVER_HOST@, port: DEFAULT_SMTP_PORT, tls: None }
    }

    /// The port on which the endpoint is reached.
    pub open spec fn effective_port(self) -> u16 {
        effective_port(self.port, self.tls)
    }
}

/// Configuration of an SMTP server connection settings
#[derive(Debug, Clone, PartialEq, Eq)]
pub struct Smtp {
    host: String,
    port: u16,
    tls: Option<Tls>,
}

impl View for Smtp {
    type V = SmtpView;

    closed spec fn view(&self) -> SmtpView {
        SmtpView { host: self.host@, port: self.port, tls: self.tls }
    }
}

impl Default for Smtp {
    fn default() -> (smtp: Smtp)
        ensures
            smtp@ == SmtpView::initial(),
    {
        Smtp { host: String::from_str(DEFAULT_SERVER_HOST), port: DEFAULT_SMTP_PORT, tls: None }
    }
}

impl Smtp {
    /// Host name of the SMTP server
    pub fn host(&self) -> (host: &str)
        ensures
            host@ == self@.host,
    {
        self.host.as_str()
    }

    /// Port number of the SMTP server: the TLS port where TLS is configured.
    pub fn port(&self) -> (port: u16)
        ensures
            port == self@.effective_port(),
    {
        if let Some(tls) = &self.tls {
            tls.port
        } else {
            self.port
        }
    }

    /// Server TLS configuration
    pub fn tls(&self) -> (tls: Option<&Tls>)
        ensures
            tls is Some == self@.tls is Some,
            tls matches Some(t) ==> self@.tls == Some(*t),
    {
        self.tls.as_ref()
    }

    /// Update server hostname
    pub fn with_host(&mut self, host: &str) -> (this: &mut Self)
        ensures
            this@ == (SmtpView { host: host@, ..old(self)@ }),
            *final(self) == *final(this),
    {
        self.host = String::from_str(host);
        self
    }

    /// Set SMTP server port settings
    pub fn with_port(&mut self, port: u16) -> (this: &mut Self)
        ensures
            this@ == (SmtpView { port: port, ..old(self)@ }),
            *final(self) == *final(this),
    {
        self.port = port;
        self
    }

    /// Set TLS connection settings
    pub fn with_tls(&mut self, tls: Tls) -> (this: &mut Self)
        ensures
            this@ == (SmtpView { tls: Some(tls), ..old(self)@ }),
            *final(self) == *final(this),
    {
        self.tls = Some(tls);
        self
    }

    /// Set up with default SMTP connection settings
    pub fn with_default_tls(&mut self) -> (this: &mut Self)
        ensures
            this@ == (SmtpView {
                tls: Some(Tls { port: DEFAULT_SMTP_TLS_PORT }),
                ..old(self)@
            }),
            *final(self) == *final(this),
    {
        self.tls = Some(Tls::default_smtp());
        self
    }
}

/// What an IMAP endpoint holds.
pub struct ImapView {
    pub host: Seq<char>,
    pub port: u16,
    pub tls: Option<Tls>,
}

impl ImapView {
    /// The endpoint that nothing was said of.
    pub open spec fn initial() -> ImapView {
        ImapView { host: DEFAULT_SERVER_HOST@, port: DEFAULT_IMAP_PORT, tls: None }
    }

    /// The port on which the endpoint is reached.
    pub open spec fn effective_port(self) -> u16 {
        effective_port(self.port, self.tls)
    }
}

/// Configuration of an IMAP server connection settings
#[derive(Debug, Clone, PartialEq, Eq)]
pub struct Imap {
    host: String,
    port: u16,
    tls: Option<Tls>,
}

impl View for Imap {
    type V = ImapView;

    closed spec fn view(&self) -> ImapView {
        ImapView { host: self.host@, port: self.port, tls: self.tls }
    }
}

impl Default for Imap {
    fn default() -> (imap: Imap)
        ensures
            imap@ == ImapView::initial(),
    {
        Imap { host: String::from_str(DEFAULT_SERVER_HOST), port: DEFAULT_IMAP_PORT, tls: None }
    }
}

impl Imap {
    /// Server hostname
    pub fn host(&self) -> (host: &str)
        ensures
            host@ == self@.host,
    {
        self.host.as_str()
    }

    /// Server port number: the port of the TLS override where there is one,
    /// the endpoint's own port otherwise.
    pub fn port(&self) -> (port: u16)
        ensures
            port == self@.effective_port(),
            self@.tls matches Some(tls) ==> port == tls.port,
            self@.tls is None ==> port == self@.port,
    {
        if let Some(tls) = self.tls() {
            tls.port
        } else {
            self.port
        }
    }

    /// Server TLS configuration
    pub fn tls(&self) -> (tls: Option<&Tls>)
        ensures
            tls is Some == self@.tls is Some,
            tls matches Some(t) ==> self@.tls == Some(*t),
    {
        self.tls.as_ref()
    }

    /// Update server hostname
    pub fn with_host(&mut self, host: &str) -> (this: &mut Self)
        ensures
            this@ == (ImapView { host: host@, ..old(self)@ }),
            *final(self) == *final(this),
    {
        self.host = String::from_str(host);
        self
    }

    /// Set IMAP server port settings
    pub fn with_port(&mut self, port: u16) -> (this: &mut Self)
        ensures
            this@ == (ImapView { port: port, ..old(self)@ }),
            *final(self) == *final(this),
    {
        self.port = port;
        self
    }

    /// Set TLS connection settings
    pub fn with_tls(&mut self, tls: Tls) -> (this: &mut Self)
        ensures
            this@ == (ImapView { tls: Some(tls), ..old(self)@ }),
            *final(self) == *final(this),
    {
        self.tls = Some(tls);
        self
    }

    /// Set up with default IMAP connection settings
    pub fn with_default_tls(&mut self) -> (this: &mut Self)
        ensures
            this@ == (ImapView {
                tls: Some(Tls { port: DEFAULT_IMAP_TLS_PORT }),
                ..old(self)@
            }),
            *final(self) == *final(this),
    {
        self.tls = Some(Tls::default_imap());
        self
    }
}

/// What credentials hold.
pub enum CredentialsView {
    Unset,
    UsernameAndPassword { username: Seq<char>, password: Seq<char> },
}

/// How an account authenticates. `Unset` stands for "nothing configured": it
/// is a placeholder, and a session that has to log in cannot use it.
#[derive(Debug, Clone, PartialEq, Eq)]
pub enum Credentials {
    Unset,
    UsernameAndPassword { username: String, password: String },
}

impl View for Credentials {
    type V = CredentialsView;

    open spec fn view(&self) -> CredentialsView {
        match self {
            Credentials::Unset => CredentialsView::Unset,
            Credentials::UsernameAndPassword { username, password } =>
                CredentialsView::UsernameAndPassword {
                    username: username@,
                    password: password@,
                },
        }
    }
}

impl Default for Credentials {
    fn default() -> (credentials: Credentials)
        ensures
            credentials@ == CredentialsView::Unset,
    {
        Credentials::Unset
    }
}

/// What an account holds.
pub struct ServerView {
    pub name: Seq<char>,
    pub smtp: SmtpView,
    pub imap: ImapView,
    pub credentials: CredentialsView,
}

impl ServerView {
    /// The account that nothing was said of.
    pub open spec fn initial() -> ServerView {
        ServerView {
            name: DEFAULT_SERVER_NAME@,
            smtp: SmtpView::initial(),
            imap: ImapView::initial(),
            credentials: CredentialsView::Unset,
        }
    }
}

/// Configuration parameters of a server
#[derive(Debug, Clone, PartialEq, Eq)]
pub struct Server {
    name: String,
    smtp: Smtp,
    imap: Imap,
    credentials: Credentials,
}

impl View for Server {
    type V = ServerView;

    closed spec fn view(&self) -> ServerView {
        ServerView {
            name: self.name@,
            smtp: self.smtp@,
            imap: self.imap@,
            credentials: self.credentials@,
        }
    }
}

impl Default for Server {
    fn default() -> (server: Server)
        ensures
            server@ == ServerView::initial(),
    {
        Server {
            name: String::from_str(DEFAULT_SERVER_NAME),
            smtp: Smtp::default(),
            imap: Imap::default(),
            credentials: Credentials::Unset,
        }
    }
}

impl Server {
    /// server name
    pub fn name(&self) -> (name: &str)
        ensures
            name@ == self@.name,
    {
        self.name.as_str()
    }

    /// IMAP server configuration settings
    pub fn imap(&self) -> (imap: &Imap)
        ensures
            imap@ == self@.imap,
    {
        &self.imap
    }

    /// SMTP server configuration settings
    pub fn smtp(&self) -> (smtp: &Smtp)
        ensures
            smtp@ == self@.smtp,
    {
        &self.smtp
    }

    /// Server credentials
    pub fn credentials(&self) -> (credentials: &Credentials)
        ensures
            credentials@ == self@.credentials,
    {
        &self.credentials
    }

    /// Replaces the account's name.
    pub fn with_name(&mut self, name: &str) -> (this: &mut Self)
        ensures
            this@ == (ServerView { name: name@, ..old(self)@ }),
            *final(self) == *final(this),
    {
        self.name = String::from_str(name);
        self
    }

    /// Replaces the IMAP endpoint.
    pub fn with_imap(&mut self, imap: Imap) -> (this: &mut Self)
        ensures
            this@ == (ServerView { imap: imap@, ..old(self)@ }),
            *final(self) == *final(this),
    {
        self.imap = imap;
        self
    }

    /// Replaces the host of the IMAP endpoint.
    pub fn with_imap_host(&mut self, host: &str) -> (this: &mut Self)
        ensures
            this@ == (ServerView {
                imap: ImapView { host: host@, ..old(self)@.imap },
                ..old(self)@
            }),
            *final(self) == *final(this),
    {
        self.imap.with_host(host);
        self
    }

    /// Replaces host and port of the IMAP endpoint; a TLS override stays.
    pub fn with_imap_host_and_port(&mut self, host: &str, port: u16) -> (this: &mut Self)
        ensures
            this@ == (ServerView {
                imap: ImapView { host: host@, port: port, ..old(self)@.imap },
                ..old(self)@
            }),
            *final(self) == *final(this),
    {
        self.imap.with_host(host).with_port(port);
        self
    }

    /// Replaces the host of the IMAP endpoint and sets its TLS override to
    /// `port`; the endpoint's own port stays.
    pub fn with_imap_host_and_tls_port(&mut self, host: &str, port: u16) -> (this: &mut Self)
        ensures
            this@ == (ServerView {
                imap: ImapView { host: host@, tls: Some(Tls { port: port }), ..old(self)@.imap },
                ..old(self)@
            }),
            *final(self) == *final(this),
    {
        self.imap.with_host(host).with_tls(Tls { port });
        self
    }

    /// Sets the credentials to this user name and password.
    pub fn with_username_and_password(&mut self, username: &str, password: &str) -> (this:
        &mut Self)
        ensures
            this@ == (ServerView {
                credentials: CredentialsView::UsernameAndPassword {
                    username: username@,
                    password: password@,
                },
                ..old(self)@
            }),
            *final(self) == *final(this),
    {
        let username = String::from_str(username);
        let password = String::from_str(password);
        self.credentials = Credentials::UsernameAndPassword { username, password };
        self
    }
}

/// The text of a field, or `default` where the field is left out.
fn text_or(field: &Option<String>, default: &str) -> (text: String)
    ensures
        text@ == (match *field {
            Some(given) => given@,
            None => default@,
        }),
{
    match field {
        Some(given) => given.clone(),
        None => String::from_str(default),
    }
}

/// The port of a field, or `default` where the field is left out.
fn port_or(field: Option<u16>, default: u16) -> (port: u16)
    ensures
        port == (match field {
            Some(given) => given,
            None => default,
        }),
{
    match field {
        Some(given) => given,
        None => default,
    }
}

/// The TLS override on the port of a field, none where it is left out.
fn tls_on(field: Option<u16>) -> (tls: Option<Tls>)
    ensures
        tls == (match field {
            Some(port) => Some(Tls { port }),
            None => None::<Tls>,
        }),
{
    match field {
        Some(port) => Some(Tls { port }),
        None => None,
    }
}

/// The port of a TLS override, none where there is no override.
fn tls_port(tls: Option<Tls>) -> (port: Option<u16>)
    ensures
        port == (match tls {
            Some(tls) => Some(tls.port),
            None => None::<u16>,
        }),
{
    match tls {
        Some(tls) => Some(tls.port),
        None => None,
    }
}

impl Server {
    /// The account that `source` describes: what it gives, and the defaults
    /// for what it leaves out. Credentials take a user name and a password;
    /// a source that gives one of the two describes no account.
    pub fn from_source(source: &AccountSource) -> (result: Result<Server, ConfigError>)
        ensures
            result matches Ok(server) ==> source@.resolved() == Ok::<
                ServerView,
                ConfigErrorView,
            >(server@),
            result matches Err(error) ==> source@.resolved() == Err::<
                ServerView,
                ConfigErrorView,
            >(error@),
    {
        let name = text_or(&source.name, DEFAULT_SERVER_NAME);
        let credentials = match (&source.username, &source.password) {
            (Some(username), Some(password)) => Credentials::UsernameAndPassword {
                username: username.clone(),
                password: password.clone(),
            },
            (None, None) => Credentials::Unset,
            _ => {
                return Err(ConfigError::PartialCredentials(name));
            },
        };
        let imap = Imap {
            host: text_or(&source.imap_host, DEFAULT_SERVER_HOST),
            port: port_or(source.imap_port, DEFAULT_IMAP_PORT),
            tls: tls_on(source.imap_tls_port),
        };
        let smtp = Smtp {
            host: text_or(&source.smtp_host, DEFAULT_SERVER_HOST),
            port: port_or(source.smtp_port, DEFAULT_SMTP_PORT),
            tls: tls_on(source.smtp_tls_port),
        };
        Ok(Server { name, smtp, imap, credentials })
    }

    /// The source that describes this account: every field as the account
    /// has it, the endpoints' own ports beside those of their TLS overrides.
    pub fn to_source(&self) -> (source: AccountSource)
        ensures
            source@ == described(self@),
    {
        let (username, password) = match &self.credentials {
            Credentials::UsernameAndPassword { username, password } => (
                Some(username.clone()),
                Some(password.clone()),
            ),
            Credentials::Unset => (None, None),
        };
        AccountSource {
            name: Some(self.name.clone()),
            imap_host: Some(self.imap.host.clone()),
            imap_port: Some(self.imap.port),
            imap_tls_port: tls_port(self.imap.tls),
            smtp_host: Some(self.smtp.host.clone()),
            smtp_port: Some(self.smtp.port),
            smtp_tls_port: tls_port(self.smtp.tls),
            username,
            password,
        }
    }
}

/// The views of a sequence of accounts, in their order.
pub open spec fn server_views(servers: Seq<Server>) -> Seq<ServerView> {
    servers.map_values(|server: Server| server@)
}

/// Application settings configuration: the accounts, in the order in which
/// they were configured, which is the order in which they are processed.
#[derive(Debug, Clone, PartialEq, Eq)]
pub struct Settings {
    servers: Vec<Server>,
}

impl View for Settings {
    type V = Seq<ServerView>;

    closed spec fn view(&self) -> Seq<ServerView> {
        server_views(self.servers@)
    }
}

impl Settings {
    /// Settings that hold `servers`, in that order.
    pub fn new(servers: Vec<Server>) -> (settings: Settings)
        ensures
            settings@ == server_views(servers@),
    {
        Settings { servers }
    }

    /// The settings that two sources give together: `file`, and over it
    /// `environment`, whose fields win where it gives them. A source that
    /// is not there is a source without accounts. The accounts keep the
    /// order of the sources. The first account that gives one of user name
    /// and password without the other fails the whole.
    pub fn load(file: &Vec<AccountSource>, environment: &Vec<AccountSource>) -> (result: Result<
        Settings,
        ConfigError,
    >)
        ensures
            result matches Ok(settings) ==> resolved_all(
                merged(source_views(file@), source_views(environment@)),
            ) == Ok::<Seq<ServerView>, ConfigErrorView>(settings@),
            result matches Err(error) ==> resolved_all(
                merged(source_views(file@), source_views(environment@)),
            ) == Err::<Seq<ServerView>, ConfigErrorView>(error@),
    {
        let accounts = merge_sources(file, environment);
        let ghost views = source_views(accounts@);
        let mut servers: Vec<Server> = Vec::new();
        let mut i: usize = 0;
        proof {
            assert(views.take(0) =~= Seq::empty());
            assert(server_views(servers@) =~= Seq::empty());
        }
        while i < accounts.len()
            invariant
                i <= accounts.len(),
                views == source_views(accounts@),
                views == merged(source_views(file@), source_views(environment@)),
                resolved_all(views.take(i as int)) == Ok::<
                    Seq<ServerView>,
                    ConfigErrorView,
                >(server_views(servers@)),
            decreases accounts.len() - i,
        {
            proof {
                assert(views.take(i + 1).drop_last() == views.take(i as int));
                assert(views.take(i + 1).last() == accounts@[i as int]@);
            }
            match Server::from_source(&accounts[i]) {
                Ok(server) => {
                    proof {
                        assert(server_views(servers@).push(server@) == server_views(
                            servers@.push(server),
                        ));
                    }
                    servers.push(server);
                },
                Err(error) => {
                    proof {
                        assert(resolved_all(views.take(i + 1)) == Err::<
                            Seq<ServerView>,
                            ConfigErrorView,
                        >(error@));
                        lemma_first_failure_decides(views, i + 1);
                    }
                    return Err(error);
                },
            }
            i = i + 1;
        }
        proof {
            assert(views.take(i as int) == views);
        }
        Ok(Settings { servers })
    }

    /// The sources that describe these settings, account by account.
    pub fn to_sources(&self) -> (accounts: Vec<AccountSource>)
        ensures
            source_views(accounts@) == described_all(self@),
    {
        let mut accounts: Vec<AccountSource> = Vec::new();
        let mut i: usize = 0;
        while i < self.servers.len()
            invariant
                i <= self.servers.len(),
                accounts@.len() == i,
                forall|k: int|
                    0 <= k < i ==> (#[trigger] accounts@[k])@ == described(self.servers@[k]@),
            decreases self.servers.len() - i,
        {
            accounts.push(self.servers[i].to_source());
            i = i + 1;
        }
        proof {
            assert(source_views(accounts@) =~= described_all(self@));
        }
        accounts
    }

    /// The sample configuration: one account, `GMail`, on `imap.google.com`
    /// with TLS on port 993, with the user name `username` and the password
    /// `password`.
    pub fn sample() -> (settings: Settings)
        ensures
            settings@ == seq![
                ServerView {
                    name: "GMail"@,
                    imap: ImapView {
                        host: "imap.google.com"@,
                        tls: Some(Tls { port: 993 }),
                        ..ImapView::initial()
                    },
                    credentials: CredentialsView::UsernameAndPassword {
                        username: "username"@,
                        password: "password"@,
                    },
                    ..ServerView::initial()
                },
            ],
    {
        let mut server = Server::default();
        server.with_name("GMail").with_imap_host_and_tls_port(
            "imap.google.com",
            993,
        ).with_username_and_password("username", "password");
        let mut servers: Vec<Server> = Vec::new();
        servers.push(server);
        proof {
            assert(server_views(servers@) =~= seq![server@]);
        }
        Settings { servers }
    }

    /// All configured server configurations, in configuration order.
    pub fn servers(&self) -> (servers: &Vec<Server>)
        ensures
            server_views(servers@) == self@,
    {
        &self.servers
    }
}

} // verus!
