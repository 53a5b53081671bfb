//! Service configuration: defaults for unset settings, the database URL, the
//! listen address, and the port rule.

use crate::text::{decimal, push_decimal};
use vstd::prelude::*;
use vstd::string::*;

verus! {

/// An IP address.
#[derive(Debug, Clone, Copy, PartialEq, Eq)]
pub enum IpAddress {
    V4([u8; 4]),
    V6([u16; 8]),
}

/// The address the HTTP server listens on.
#[derive(Debug, Clone, Copy, PartialEq, Eq)]
pub struct ListenAddress {
    pub ip: IpAddress,
    pub port: u16,
}

/// Settings read from the environment; `None` where a variable is unset.
#[derive(Debug)]
pub struct EnvConfig {
    pub data_dir: Option<String>,
    pub host: Option<IpAddress>,
    pub port: Option<u16>,
    pub db_user: String,
    pub db_pass: String,
    pub db_host: Option<String>,
    pub db_port: Option<u16>,
    pub db_name: Option<String>,
    pub cookie_secure: Option<bool>,
}

/// Why the configuration was refused.
#[derive(Debug, Clone, Copy, PartialEq, Eq)]
pub enum ConfigError {
    /// The environment could not be read into settings.
    Environment,
    /// `PORT` is zero.
    ZeroPort,
}

/// The service configuration.
#[derive(Debug)]
pub struct AppConfig {
    data_dir: String,
    database_url: String,
    listen_address: ListenAddress,
    cookie_secure: bool,
}

/// The abstract content of an `AppConfig`.
pub struct AppConfigView {
    pub data_dir: Seq<char>,
    pub database_url: Seq<char>,
    pub listen_address: ListenAddress,
    pub cookie_secure: bool,
}

impl View for AppConfig {
    type V = AppConfigView;

    closed spec fn view(&self) -> AppConfigView {
        AppConfigView {
            data_dir: self.data_dir@,
            database_url: self.database_url@,
            listen_address: self.listen_address,
            cookie_secure: self.cookie_secure,
        }
    }
}

/// Default data directory.
pub fn default_data_dir() -> (r: String)
    ensures
        r@ == "./data"@,
{
    String::from_str("./data")
}

/// Default host: all IPv4 interfaces.
pub fn default_host() -> (r: IpAddress)
    ensures
        r == IpAddress::V4([0u8, 0u8, 0u8, 0u8]),
{
    IpAddress::V4([0, 0, 0, 0])
}

/// Default HTTP port.
pub fn default_port() -> (r: u16)
    ensures
        r == 7878,
{
    7878
}

/// Default database host.
pub fn default_db_host() -> (r: String)
    ensures
        r@ == "localhost"@,
{
    String::from_str("localhost")
}

/// Default database port.
pub fn default_db_port() -> (r: u16)
    ensures
        r == 5432,
{
    5432
}

/// Default database name.
pub fn default_db_name() -> (r: String)
    ensures
        r@ == "rincuma"@,
{
    String::from_str("rincuma")
}

/// Cookies are secure unless configured otherwise.
pub fn default_cookie_secure() -> (r: bool)
    ensures
        r,
{
    true
}

/// The PostgreSQL URL for the given connection settings.
pub open spec fn database_url_text(
    user: Seq<char>,
    pass: Seq<char>,
    host: Seq<char>,
    port: u16,
    name: Seq<char>,
) -> Seq<char> {
    "postgresql://"@ + user + ":"@ + pass + "@"@ + host + ":"@ + decimal(port as nat) + "/"@
        + name
}

/// Builds the PostgreSQL connection URL.
pub fn database_url(user: &str, pass: &str, host: &str, port: u16, name: &str) -> (r: String)
    ensures
        r@ == database_url_text(user@, pass@, host@, port, name@),
{
    let mut url = String::from_str("postgresql://");
    url.append(user);
    url.append(":");
    url.append(pass);
    url.append("@");
    url.append(host);
    url.append(":");
    push_decimal(&mut url, port as u64);
    url.append("/");
    url.append(name);
    url
}

/// A setting's value, or its default when unset.
pub open spec fn text_or(value: Option<String>, default: Seq<char>) -> Seq<char> {
    match value {
        Some(v) => v@,
        None => default,
    }
}

/// The configuration the settings `env` describe.
pub open spec fn configured(env: EnvConfig, c: AppConfigView) -> bool {
    let port = match env.port {
        Some(p) => p,
        None => 7878u16,
    };
    let host = match env.host {
        Some(h) => h,
        None => IpAddress::V4([0u8, 0u8, 0u8, 0u8]),
    };
    let db_port = match env.db_port {
        Some(p) => p,
        None => 5432u16,
    };
    &&& c.data_dir == text_or(env.data_dir, "./data"@)
    &&& c.database_url == database_url_text(
        env.db_user@,
        env.db_pass@,
        text_or(env.db_host, "localhost"@),
        db_port,
        text_or(env.db_name, "rincuma"@),
    )
    &&& c.listen_address == ListenAddress { ip: host, port }
    &&& c.cookie_secure == match env.cookie_secure {
        Some(b) => b,
        None => true,
    }
}

/// The port the settings ask for.
pub open spec fn configured_port(env: EnvConfig) -> u16 {
    match env.port {
        Some(p) => p,
        None => 7878u16,
    }
}

fn text_or_default(value: Option<String>, default: String) -> (r: String)
    ensures
        r@ == text_or(value, default@),
{
    match value {
        Some(v) => v,
        None => default,
    }
}

impl AppConfig {
    /// Builds the configuration from the settings, filling unset ones with
    /// their defaults. A zero port is refused.
    pub fn from_env_config(env: EnvConfig) -> (r: Result<AppConfig, ConfigError>)
        ensures
            r is Ok <==> configured_port(env) != 0,
            r matches Ok(c) ==> configured(env, c@),
            r matches Err(e) ==> e == ConfigError::ZeroPort,
    {
        let ghost env0 = env;
        let port = match env.port {
            Some(p) => p,
            None => default_port(),
        };
        if port == 0 {
            return Err(ConfigError::ZeroPort);
        }
        let host = match env.host {
            Some(h) => h,
            None => default_host(),
        };
        let db_port = match env.db_port {
            Some(p) => p,
            None => default_db_port(),
        };
        let db_host = text_or_default(env.db_host, default_db_host());
        let db_name = text_or_default(env.db_name, default_db_name());
        let database_url = database_url(
            env.db_user.as_str(),
            env.db_pass.as_str(),
            db_host.as_str(),
            db_port,
            db_name.as_str(),
        );
        let cookie_secure = match env.cookie_secure {
            Some(b) => b,
            None => default_cookie_secure(),
        };
        let data_dir = text_or_default(env.data_dir, default_data_dir());
        Ok(AppConfig {
            data_dir,
            database_url,
            listen_address: ListenAddress { ip: host, port },
            cookie_secure,
        })
    }

    /// A configuration for tests: data under `library_dir/data`, an in-memory
    /// SQLite database, an ephemeral loopback port, and plain-HTTP cookies.
    pub fn for_test(library_dir: &str) -> (r: AppConfig)
        ensures
            r@.data_dir == joined_path(library_dir@, "data"@),
            r@.database_url == "sqlite::memory:"@,
            r@.listen_address == (ListenAddress { ip: IpAddress::V4([127u8, 0u8, 0u8, 1u8]), port: 0 }),
            !r@.cookie_secure,
    {
        AppConfig {
            data_dir: join_path(library_dir, "data"),
            database_url: String::from_str("sqlite::memory:"),
            listen_address: ListenAddress { ip: IpAddress::V4([127, 0, 0, 1]), port: 0 },
            cookie_secure: false,
        }
    }

    /// The data directory.
    pub fn data_dir(&self) -> (r: &str)
        ensures
            r@ == self@.data_dir,
    {
        self.data_dir.as_str()
    }

    /// The database connection URL.
    pub fn database_url(&self) -> (r: &str)
        ensures
            r@ == self@.database_url,
    {
        self.database_url.as_str()
    }

    /// The address the HTTP server listens on.
    pub fn listen_address(&self) -> (r: ListenAddress)
        ensures
            r == self@.listen_address,
    {
        self.listen_address
    }

    /// Whether session cookies are marked secure.
    pub fn cookie_secure(&self) -> (r: bool)
        ensures
            r == self@.cookie_secure,
    {
        self.cookie_secure
    }
}

/// `base` joined with the relative path `rel`, as `Path::join` does on Unix:
/// a `/` is put between them unless `base` is empty or already ends in one.
pub open spec fn joined_path(base: Seq<char>, rel: Seq<char>) -> Seq<char> {
    if base.len() == 0 {
        rel
    } else if base.last() == '/' {
        base + rel
    } else {
        base + "/"@ + rel
    }
}

/// Joins the relative path `rel` onto `base`.
pub fn join_path(base: &str, rel: &str) -> (r: String)
    ensures
        r@ == joined_path(base@, rel@),
{
    let n = base.unicode_len();
    let mut out = String::from_str(base);
    if n == 0 {
        return String::from_str(rel);
    }
    if base.get_char(n - 1) != '/' {
        out.append("/");
    }
    out.append(rel);
    out
}

/// Every setting that is given is used as given, and a default stands only
/// for an unset one: the listen address is `HOST` (all IPv4 interfaces when
/// unset) and `PORT` (7878 when unset), cookies are secure as
/// `COOKIE_SECURE` says (secure when unset), and the data directory is
/// `DATA_DIR` (`./data` when unset).
pub proof fn law_settings_used_as_given(env: EnvConfig, c: AppConfigView)
    requires
        configured(env, c),
    ensures
        env.host matches Some(h) ==> c.listen_address.ip == h,
        env.host is None ==> c.listen_address.ip == IpAddress::V4([0u8, 0u8, 0u8, 0u8]),
        env.port matches Some(p) ==> c.listen_address.port == p,
        env.port is None ==> c.listen_address.port == 7878,
        env.cookie_secure matches Some(b) ==> c.cookie_secure == b,
        env.cookie_secure is None ==> c.cookie_secure,
        env.data_dir matches Some(d) ==> c.data_dir == d@,
        env.data_dir is None ==> c.data_dir == "./data"@,
{
}

/// Only a zero port is refused: the port checked is `PORT` when given, and
/// the default 7878, which is accepted, when unset.
pub proof fn law_only_zero_port_refused(env: EnvConfig)
    ensures
        env.port matches Some(p) ==> (configured_port(env) != 0 <==> p != 0),
        env.port is None ==> configured_port(env) != 0,
{
}

} // verus!
