//! Connection descriptors: which engine a descriptor selects, and what the
//! exclusive-session engine needs to open its transport.

use vstd::prelude::*;
use crate::error::DbError;
use crate::text::same_text;

verus! {

/// The five kinds of storage engine.
#[derive(Debug, Clone, Copy, PartialEq, Eq, Structural)]
pub enum Engine {
    /// The row store that allows one request at a time per session.
    Mssql,
    /// The pooled relational engine of the `mysql` and `mariadb` schemes.
    Mysql,
    /// The pooled relational engine of the `postgres` and `postgresql` schemes.
    Postgres,
    /// The document store.
    Mongo,
    /// The key-value store.
    Redis,
}

/// The engine that a URI scheme selects.
pub open spec fn scheme_engine(s: Seq<char>) -> Option<Engine> {
    if s == "sqlserver"@ {
        Option::Some(Engine::Mssql)
    } else if s == "mysql"@ || s == "mariadb"@ {
        Option::Some(Engine::Mysql)
    } else if s == "postgres"@ || s == "postgresql"@ {
        Option::Some(Engine::Postgres)
    } else if s == "mongodb"@ {
        Option::Some(Engine::Mongo)
    } else if s == "redis"@ {
        Option::Some(Engine::Redis)
    } else {
        Option::None
    }
}

/// The engine that a URI scheme selects, if any.
pub fn engine_for_scheme(scheme: &str) -> (r: Option<Engine>)
    ensures
        r == scheme_engine(scheme@),
{
    if same_text(scheme, "sqlserver") {
        Option::Some(Engine::Mssql)
    } else if same_text(scheme, "mysql") || same_text(scheme, "mariadb") {
        Option::Some(Engine::Mysql)
    } else if same_text(scheme, "postgres") || same_text(scheme, "postgresql") {
        Option::Some(Engine::Postgres)
    } else if same_text(scheme, "mongodb") {
        Option::Some(Engine::Mongo)
    } else if same_text(scheme, "redis") {
        Option::Some(Engine::Redis)
    } else {
        Option::None
    }
}

/// The components of a parsed URI that the library reads.
#[derive(Debug, Clone, PartialEq, Eq)]
pub struct DescriptorParts {
    pub scheme: String,
    pub host: Option<String>,
    pub port: Option<u16>,
    pub username: String,
    pub password: Option<String>,
    pub path: String,
}

/// Scheme, host, port, user name, password and path of a parsed URI.
pub type PartsView = (Seq<char>, Option<Seq<char>>, Option<u16>, Seq<char>, Option<Seq<char>>, Seq<char>);

/// The text of an optional string.
pub open spec fn opt_text(o: Option<String>) -> Option<Seq<char>> {
    match o {
        Option::Some(t) => Option::Some(t@),
        Option::None => Option::None,
    }
}

impl View for DescriptorParts {
    type V = PartsView;

    open spec fn view(&self) -> PartsView {
        (self.scheme@, opt_text(self.host), self.port, self.username@, opt_text(self.password), self.path@)
    }
}

/// What the URI parser makes of a text: `None` where it is no URI.
pub uninterp spec fn parsed_url(s: Seq<char>) -> Option<(Seq<char>, Option<Seq<char>>, Option<u16>, Seq<char>, Option<Seq<char>>, Seq<char>)>;

/// Relies on `url::Url::parse` and the `Url` accessors `scheme`, `host_str`,
/// `port`, `username`, `password` and `path`: the components depend on the
/// text alone.
#[verifier::external_body]
fn parse_descriptor(s: &str) -> (r: Option<DescriptorParts>)
    ensures
        (match r {
            Option::Some(p) => Option::Some(p@),
            Option::None => Option::None,
        }) == parsed_url(s@),
{
    url::Url::parse(s).ok().map(|u| DescriptorParts {
        scheme: u.scheme().to_string(),
        host: u.host_str().map(|h| h.to_string()),
        port: u.port(),
        username: u.username().to_string(),
        password: u.password().map(|p| p.to_string()),
        path: u.path().to_string(),
    })
}

/// The well-known port of the exclusive-session engine.
pub const DEFAULT_SESSION_PORT: u16 = 1433;

/// A login: user name and password.
#[derive(Debug, Clone, PartialEq, Eq)]
pub struct Login {
    pub username: String,
    pub password: String,
}

/// What opening an exclusive session needs.
#[derive(Debug, Clone, PartialEq, Eq)]
pub struct SessionTarget {
    pub host: String,
    pub port: u16,
    /// Present where the descriptor names a user.
    pub login: Option<Login>,
    /// The default database; absent where the path names none.
    pub database: Option<String>,
}

/// How a descriptor is connected.
#[derive(Debug, Clone, PartialEq, Eq)]
pub enum ConnectPlan {
    /// Open a transport to the target and run the session handshake.
    Session(SessionTarget),
    /// Hand the whole descriptor to the engine's own pool or client.
    Delegate(Engine),
}

/// The text without its leading `/` characters.
pub open spec fn strip_slashes(s: Seq<char>) -> Seq<char>
    decreases s.len(),
{
    if s.len() > 0 && s[0] == '/' {
        strip_slashes(s.drop_first())
    } else {
        s
    }
}

/// The plan for parsed descriptor components, or why there is none.
pub open spec fn plan_spec(p: PartsView) -> Result<ConnectView, DbErrorKind> {
    match scheme_engine(p.0) {
        Option::None => Err(DbErrorKind::InvalidConnectionString),
        Option::Some(Engine::Mssql) => match p.1 {
            Option::None => Err(DbErrorKind::ConnectionError),
            Option::Some(host) => Ok(ConnectView::Session {
                host,
                port: match p.2 {
                    Option::Some(n) => n,
                    Option::None => DEFAULT_SESSION_PORT,
                },
                login: if p.3.len() == 0 {
                    Option::None
                } else {
                    Option::Some(
                        (
                            p.3,
                            match p.4 {
                                Option::Some(w) => w,
                                Option::None => Seq::empty(),
                            },
                        ),
                    )
                },
                database: if strip_slashes(p.5).len() == 0 {
                    Option::None
                } else {
                    Option::Some(strip_slashes(p.5))
                },
            }),
        },
        Option::Some(e) => Ok(ConnectView::Delegate(e)),
    }
}

/// The meaning of a connection plan.
pub enum ConnectView {
    Session {
        host: Seq<char>,
        port: u16,
        login: Option<(Seq<char>, Seq<char>)>,
        database: Option<Seq<char>>,
    },
    Delegate(Engine),
}

/// The kind of an error, without its message.
pub enum DbErrorKind {
    InvalidConnectionString,
    ConnectionError,
}

impl View for ConnectPlan {
    type V = ConnectView;

    open spec fn view(&self) -> ConnectView {
        match self {
            ConnectPlan::Session(t) => ConnectView::Session {
                host: t.host@,
                port: t.port,
                login: match t.login {
                    Option::Some(l) => Option::Some((l.username@, l.password@)),
                    Option::None => Option::None,
                },
                database: opt_text(t.database),
            },
            ConnectPlan::Delegate(e) => ConnectView::Delegate(*e),
        }
    }
}

/// Whether a plan result agrees with its meaning.
pub open spec fn plan_matches(r: Result<ConnectPlan, DbError>, m: Result<ConnectView, DbErrorKind>) -> bool {
    match m {
        Ok(v) => r is Ok && r->Ok_0@ == v,
        Err(DbErrorKind::InvalidConnectionString) => r == Err::<ConnectPlan, DbError>(DbError::InvalidConnectionString),
        Err(DbErrorKind::ConnectionError) => r is Err && r->Err_0 is ConnectionError
            && r->Err_0->ConnectionError_0@ == "Missing host"@,
    }
}

fn strip_leading_slashes(s: &str) -> (r: String)
    ensures
        r@ == strip_slashes(s@),
{
    let v = crate::text::chars_of(s);
    let mut i: usize = 0;
    assert(s@.subrange(0, s@.len() as int) =~= s@);
    while i < v.len() && v[i] == '/'
        invariant
            v@ == s@,
            i <= v.len(),
            strip_slashes(s@) == strip_slashes(s@.subrange(i as int, s@.len() as int)),
        decreases v.len() - i,
    {
        assert(s@.subrange(i as int, s@.len() as int).drop_first() =~= s@.subrange(i + 1, s@.len() as int));
        i = i + 1;
    }
    let mut r = String::new();
    let mut j: usize = i;
    while j < v.len()
        invariant
            v@ == s@,
            i <= j <= v.len(),
            r@ == s@.subrange(i as int, j as int),
        decreases v.len() - j,
    {
        crate::text::push_char(&mut r, v[j]);
        j = j + 1;
        assert(r@ =~= s@.subrange(i as int, j as int));
    }
    r
}

/// The connection plan for parsed descriptor components.
///
/// An unsupported scheme is an invalid connection string. For the
/// exclusive-session engine the host is required, the port defaults to the
/// engine's well-known port, a user name brings a login whose password
/// defaults to empty, and the path without its leading slashes names the
/// default database.
pub fn plan_for_parts(p: DescriptorParts) -> (r: Result<ConnectPlan, DbError>)
    ensures
        plan_matches(r, plan_spec(p@)),
{
    match engine_for_scheme(p.scheme.as_str()) {
        Option::None => Err(DbError::InvalidConnectionString),
        Option::Some(Engine::Mssql) => {
            let host = match p.host {
                Option::Some(h) => h,
                Option::None => {
                    return Err(DbError::ConnectionError(String::from_str("Missing host")));
                },
            };
            let port = match p.port {
                Option::Some(n) => n,
                Option::None => DEFAULT_SESSION_PORT,
            };
            let named = crate::text::chars_of(p.username.as_str()).len() > 0;
            let login = if named {
                let password = match p.password {
                    Option::Some(w) => w,
                    Option::None => String::new(),
                };
                Option::Some(Login { username: p.username, password })
            } else {
                Option::None
            };
            let db = strip_leading_slashes(p.path.as_str());
            let database = if crate::text::chars_of(db.as_str()).len() > 0 {
                Option::Some(db)
            } else {
                Option::None
            };
            Ok(ConnectPlan::Session(SessionTarget { host, port, login, database }))
        },
        Option::Some(e) => Ok(ConnectPlan::Delegate(e)),
    }
}

/// The connection plan for a descriptor. Text that is no URI, and a URI of
/// an unsupported scheme, are invalid connection strings.
pub fn plan_connection(descriptor: &str) -> (r: Result<ConnectPlan, DbError>)
    ensures
        parsed_url(descriptor@) is None ==> r == Err::<ConnectPlan, DbError>(DbError::InvalidConnectionString),
        parsed_url(descriptor@) is Some ==> plan_matches(r, plan_spec(parsed_url(descriptor@)->0)),
{
    match parse_descriptor(descriptor) {
        Option::None => Err(DbError::InvalidConnectionString),
        Option::Some(p) => plan_for_parts(p),
    }
}

/// The query text that checks a fresh session: a trivial select, a ping
/// command, or the key-value `PING`.
pub open spec fn probe_spec(e: Engine) -> Seq<char> {
    match e {
        Engine::Mongo => "{ \"ping\": 1 }"@,
        Engine::Redis => "PING"@,
        _ => "SELECT 1"@,
    }
}

/// The lightweight query that checks that a session answers.
pub fn probe_query(e: Engine) -> (r: String)
    ensures
        r@ == probe_spec(e),
{
    match e {
        Engine::Mongo => String::from_str("{ \"ping\": 1 }"),
        Engine::Redis => String::from_str("PING"),
        _ => String::from_str("SELECT 1"),
    }
}

/// A descriptor that parses but names no supported engine is an invalid
/// connection string, whatever else it holds.
pub proof fn lemma_unsupported_scheme_is_invalid(p: PartsView)
    requires
        scheme_engine(p.0) is None,
    ensures
        plan_spec(p) == Err::<ConnectView, DbErrorKind>(DbErrorKind::InvalidConnectionString),
{
}

} // verus!
