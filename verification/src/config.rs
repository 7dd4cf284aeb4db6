//! Server configuration: the settings and their defaults, the environment
//! overrides, validation, and what the settings select (authentication,
//! transport, configuration file).
//!
//! Reading the file, parsing the TOML and reading the environment are the
//! caller's part; it hands over the parsed settings and the environment as
//! a list of name/value pairs.

use vstd::prelude::*;

use crate::request::{AuthMode, OpengrokClientConfig};
use crate::text::{opt_view, push_str, str_eq};
use crate::tls::TlsConfig;

verus! {

/// Name of the environment variable that overrides the base URL.
pub const ENV_OPENGROK_URL: &'static str = "OPENGROK_URL";
/// Name of the environment variable that sets the CA certificate file.
pub const ENV_OPENGROK_CA_CERT: &'static str = "OPENGROK_CA_CERT";
/// Name of the standard CA certificate file variable (wins over the above).
pub const ENV_SSL_CERT_FILE: &'static str = "SSL_CERT_FILE";
/// Name of the standard CA certificate directory variable.
pub const ENV_SSL_CERT_DIR: &'static str = "SSL_CERT_DIR";
/// Name of the environment variable that can turn TLS verification off.
pub const ENV_OPENGROK_VERIFY_SSL: &'static str = "OPENGROK_VERIFY_SSL";
/// Name of the environment variable that overrides the log level.
pub const ENV_RUST_LOG: &'static str = "RUST_LOG";
/// Default name of the environment variable that holds the bearer token.
pub const ENV_OPENGROK_TOKEN: &'static str = "OPENGROK_TOKEN";
/// Default name of the environment variable that holds the Basic username.
pub const ENV_OPENGROK_USERNAME: &'static str = "OPENGROK_USERNAME";
/// Default name of the environment variable that holds the Basic password.
pub const ENV_OPENGROK_PASSWORD: &'static str = "OPENGROK_PASSWORD";
/// CA certificate file used when the settings name none.
pub const DEFAULT_CA_CERT: &'static str = "./config/certs/russian_trusted_root_ca_pem.crt";
/// HTTP request timeout, in seconds, used when the settings give none.
pub const DEFAULT_TIMEOUT_SECS: u64 = 60;
/// Configuration file used when none is given on the command line.
pub const DEFAULT_CONFIG_PATH: &'static str = "config/config.toml";
/// First file looked for when no path is given.
pub const SEARCH_PATH_FALLBACK_1: &'static str = "./config/config.toml";
/// Second file looked for when no path is given.
pub const SEARCH_PATH_FALLBACK_2: &'static str = "./config.toml";

// ---------------------------------------------------------------------------
// Settings
// ---------------------------------------------------------------------------

/// Top-level configuration of the server.
#[derive(Debug, Clone)]
pub struct Config {
    /// OpenGrok connection settings.
    pub opengrok: OpengrokConfig,
    /// Service-level behaviour.
    pub service: ServiceConfig,
    /// Cache settings.
    pub cache: CacheConfig,
    /// Rate limit settings.
    pub rate_limit: RateLimitConfig,
    /// Transport settings.
    pub transport: TransportConfig,
    /// Logging settings.
    pub log: LogConfig,
}

/// Connection settings.
#[derive(Debug, Clone)]
pub struct OpengrokConfig {
    /// Base URL of the OpenGrok instance.
    pub base_url: String,
    /// Authentication settings.
    pub auth: AuthConfig,
    /// HTTP request timeout in seconds.
    pub timeout_secs: u64,
    /// Path to custom CA certificate PEM file.
    pub ca_cert: Option<String>,
    /// Path to directory of CA certificate files.
    pub ca_cert_dir: Option<String>,
    /// Whether to verify TLS certificates.
    pub verify_ssl: bool,
}

/// Authentication settings. Secrets are never read from the file: only
/// the names of the environment variables that hold them.
#[derive(Debug, Clone)]
pub struct AuthConfig {
    /// `"token"`, `"basic"`, or `"none"`.
    pub mode: String,
    /// Env variable name for the bearer token.
    pub token_env: Option<String>,
    /// The actual token value (populated from env at load time).
    pub token: Option<String>,
    /// Env variable name for Basic auth username.
    pub username_env: Option<String>,
    /// The actual username (populated from env at load time).
    pub username: Option<String>,
    /// Env variable name for Basic auth password.
    pub password_env: Option<String>,
    /// The actual password (populated from env at load time).
    pub password: Option<String>,
}

/// Service-level behaviour.
#[derive(Debug, Clone, Copy, PartialEq, Eq)]
pub struct ServiceConfig {
    /// Whether to strip `<b>` tags from search results.
    pub strip_html: bool,
    /// Maximum matching lines per file.
    pub max_hits_per_file: u32,
    /// Default maximum result documents.
    pub default_max_results: u32,
}

/// Cache settings.
#[derive(Debug, Clone, Copy, PartialEq, Eq)]
pub struct CacheConfig {
    pub enabled: bool,
    pub ttl_secs: u64,
    pub max_entries: usize,
}

/// Rate limit settings.
#[derive(Debug, Clone, Copy, PartialEq, Eq)]
pub struct RateLimitConfig {
    pub enabled: bool,
    pub requests_per_second: u32,
    pub burst: u32,
}

/// Transport settings.
#[derive(Debug, Clone)]
pub struct TransportConfig {
    /// `"stdio"`, `"http"`, or `"both"`.
    pub mode: String,
    /// Bind address for HTTP transport.
    pub bind_addr: String,
    /// URL path for the MCP Streamable HTTP endpoint.
    pub http_path: String,
    /// Health check endpoint path.
    pub health_path: String,
    /// Readiness check endpoint path.
    pub ready_path: String,
    /// Prometheus metrics endpoint path.
    pub metrics_path: String,
    /// Allowed hostnames for Streamable HTTP Host header validation.
    pub allowed_hosts: Vec<String>,
    /// Bearer token every MCP request over HTTP must carry (empty = no
    /// check).
    pub mcp_auth_token: String,
}

/// Logging settings.
#[derive(Debug, Clone)]
pub struct LogConfig {
    pub level: String,
}

// ---------------------------------------------------------------------------
// Defaults
// ---------------------------------------------------------------------------

/// The default authentication settings: no authentication; the token, the
/// username and the password are read from `OPENGROK_TOKEN`,
/// `OPENGROK_USERNAME` and `OPENGROK_PASSWORD` once a mode needs them.
pub open spec fn is_default_auth(a: AuthConfig) -> bool {
    &&& a.mode@ == "none"@
    &&& opt_view(a.token_env) == Some("OPENGROK_TOKEN"@)
    &&& a.token is None
    &&& opt_view(a.username_env) == Some("OPENGROK_USERNAME"@)
    &&& a.username is None
    &&& opt_view(a.password_env) == Some("OPENGROK_PASSWORD"@)
    &&& a.password is None
}

/// The default connection settings: no base URL, a 60 s timeout, the
/// bundled CA file, no CA directory, verification on.
pub open spec fn is_default_opengrok(o: OpengrokConfig) -> bool {
    &&& o.base_url@ == Seq::<char>::empty()
    &&& is_default_auth(o.auth)
    &&& o.timeout_secs == 60
    &&& opt_view(o.ca_cert) == Some("./config/certs/russian_trusted_root_ca_pem.crt"@)
    &&& o.ca_cert_dir is None
    &&& o.verify_ssl
}

/// The default transport settings.
pub open spec fn is_default_transport(t: TransportConfig) -> bool {
    &&& t.mode@ == "both"@
    &&& t.bind_addr@ == "0.0.0.0:8080"@
    &&& t.http_path@ == "/mcp"@
    &&& t.health_path@ == "/healthz"@
    &&& t.ready_path@ == "/readyz"@
    &&& t.metrics_path@ == "/metrics"@
    &&& t.allowed_hosts@.len() == 0
    &&& t.mcp_auth_token@ == Seq::<char>::empty()
}

/// The default service settings.
pub open spec fn default_service() -> ServiceConfig {
    ServiceConfig { strip_html: true, max_hits_per_file: 10, default_max_results: 25 }
}

/// The default cache settings.
pub open spec fn default_cache() -> CacheConfig {
    CacheConfig { enabled: false, ttl_secs: 300, max_entries: 1000 }
}

/// The default rate limit settings.
pub open spec fn default_rate_limit() -> RateLimitConfig {
    RateLimitConfig { enabled: false, requests_per_second: 5, burst: 10 }
}

/// The default configuration, section by section.
pub open spec fn is_default_config(c: Config) -> bool {
    &&& is_default_opengrok(c.opengrok)
    &&& c.service == default_service()
    &&& c.cache == default_cache()
    &&& c.rate_limit == default_rate_limit()
    &&& is_default_transport(c.transport)
    &&& c.log.level@ == "info"@
}

impl Default for AuthConfig {
    fn default() -> (r: Self)
        ensures
            is_default_auth(r),
    {
        proof {
            reveal_strlit("none");
            reveal_strlit("OPENGROK_TOKEN");
            reveal_strlit("OPENGROK_USERNAME");
            reveal_strlit("OPENGROK_PASSWORD");
        }
        AuthConfig {
            mode: String::from_str("none"),
            token_env: Some(String::from_str(ENV_OPENGROK_TOKEN)),
            token: None,
            username_env: Some(String::from_str(ENV_OPENGROK_USERNAME)),
            username: None,
            password_env: Some(String::from_str(ENV_OPENGROK_PASSWORD)),
            password: None,
        }
    }
}

impl Default for OpengrokConfig {
    fn default() -> (r: Self)
        ensures
            is_default_opengrok(r),
    {
        proof { reveal_strlit("./config/certs/russian_trusted_root_ca_pem.crt"); }
        OpengrokConfig {
            base_url: String::new(),
            auth: AuthConfig::default(),
            timeout_secs: DEFAULT_TIMEOUT_SECS,
            ca_cert: Some(String::from_str(DEFAULT_CA_CERT)),
            ca_cert_dir: None,
            verify_ssl: true,
        }
    }
}

impl Default for ServiceConfig {
    fn default() -> (r: Self)
        ensures
            r == default_service(),
    {
        ServiceConfig { strip_html: true, max_hits_per_file: 10, default_max_results: 25 }
    }
}

impl Default for CacheConfig {
    fn default() -> (r: Self)
        ensures
            r == default_cache(),
    {
        CacheConfig { enabled: false, ttl_secs: 300, max_entries: 1000 }
    }
}

impl Default for RateLimitConfig {
    fn default() -> (r: Self)
        ensures
            r == default_rate_limit(),
    {
        RateLimitConfig { enabled: false, requests_per_second: 5, burst: 10 }
    }
}

impl Default for TransportConfig {
    fn default() -> (r: Self)
        ensures
            is_default_transport(r),
    {
        proof {
            reveal_strlit("both");
            reveal_strlit("0.0.0.0:8080");
            reveal_strlit("/mcp");
            reveal_strlit("/healthz");
            reveal_strlit("/readyz");
            reveal_strlit("/metrics");
        }
        TransportConfig {
            mode: String::from_str("both"),
            bind_addr: String::from_str("0.0.0.0:8080"),
            http_path: String::from_str("/mcp"),
            health_path: String::from_str("/healthz"),
            ready_path: String::from_str("/readyz"),
            metrics_path: String::from_str("/metrics"),
            allowed_hosts: Vec::new(),
            mcp_auth_token: String::new(),
        }
    }
}

impl Default for LogConfig {
    fn default() -> (r: Self)
        ensures
            r.level@ == "info"@,
    {
        proof { reveal_strlit("info"); }
        LogConfig { level: String::from_str("info") }
    }
}

impl Default for Config {
    fn default() -> (r: Self)
        ensures
            is_default_config(r),
    {
        Config {
            opengrok: OpengrokConfig::default(),
            service: ServiceConfig::default(),
            cache: CacheConfig::default(),
            rate_limit: RateLimitConfig::default(),
            transport: TransportConfig::default(),
            log: LogConfig::default(),
        }
    }
}

// ---------------------------------------------------------------------------
// Errors
// ---------------------------------------------------------------------------

/// Why the configuration could not be loaded.
#[derive(Debug, Clone, PartialEq, Eq)]
pub enum ConfigError {
    /// The file could not be read.
    Io(String),
    /// The file is not valid configuration TOML.
    Parse(String),
    /// A setting has a value the server cannot run with.
    Validation(String),
}

/// The message of a [`ConfigError`] (what `Display` prints).
pub open spec fn config_error_message(e: ConfigError) -> Seq<char> {
    match e {
        ConfigError::Io(m) => "config I/O error: "@ + m@,
        ConfigError::Parse(m) => "config parse error: "@ + m@,
        ConfigError::Validation(m) => "config validation error: "@ + m@,
    }
}

impl ConfigError {
    /// The error message.
    pub fn to_string(&self) -> (s: String)
        ensures
            s@ == config_error_message(*self),
    {
        let (prefix, m) = match self {
            ConfigError::Io(m) => ("config I/O error: ", m),
            ConfigError::Parse(m) => ("config parse error: ", m),
            ConfigError::Validation(m) => ("config validation error: ", m),
        };
        let mut s = String::from_str(prefix);
        push_str(&mut s, m.as_str());
        proof {
            reveal_strlit("config I/O error: ");
            reveal_strlit("config parse error: ");
            reveal_strlit("config validation error: ");
        }
        s
    }

    /// The error of a configuration file that could not be read.
    pub fn read_failure(path: &str, cause: &str) -> (e: ConfigError)
        ensures
            e matches ConfigError::Io(m)
                && m@ == "failed to read config file '"@ + path@ + "': "@ + cause@,
    {
        let mut m = String::from_str("failed to read config file '");
        push_str(&mut m, path);
        push_str(&mut m, "': ");
        push_str(&mut m, cause);
        proof {
            reveal_strlit("failed to read config file '");
            reveal_strlit("': ");
        }
        ConfigError::Io(m)
    }

    /// The error of a configuration file that is not valid TOML for the
    /// settings.
    pub fn parse_failure(path: &str, cause: &str) -> (e: ConfigError)
        ensures
            e matches ConfigError::Parse(m)
                && m@ == "failed to parse config file '"@ + path@ + "': "@ + cause@,
    {
        let mut m = String::from_str("failed to parse config file '");
        push_str(&mut m, path);
        push_str(&mut m, "': ");
        push_str(&mut m, cause);
        proof {
            reveal_strlit("failed to parse config file '");
            reveal_strlit("': ");
        }
        ConfigError::Parse(m)
    }
}

// ---------------------------------------------------------------------------
// Choosing the file
// ---------------------------------------------------------------------------

/// The configuration file to read: the explicit path if one is given,
/// otherwise the first of `./config/config.toml` and `./config.toml` that
/// exists (`fallback_exists` says which do); `None` means the defaults.
pub fn config_file_to_read(explicit: Option<&str>, fallback_exists: (bool, bool)) -> (r: Option<String>)
    ensures
        match explicit {
            Some(p) => r matches Some(s) && s@ == p@,
            None => if fallback_exists.0 {
                r matches Some(s) && s@ == SEARCH_PATH_FALLBACK_1@
            } else if fallback_exists.1 {
                r matches Some(s) && s@ == SEARCH_PATH_FALLBACK_2@
            } else {
                r is None
            },
        },
{
    match explicit {
        Some(p) => Some(String::from_str(p)),
        None => if fallback_exists.0 {
            Some(String::from_str(SEARCH_PATH_FALLBACK_1))
        } else if fallback_exists.1 {
            Some(String::from_str(SEARCH_PATH_FALLBACK_2))
        } else {
            None
        },
    }
}

// ---------------------------------------------------------------------------
// Environment overrides
// ---------------------------------------------------------------------------

/// The value of the first pair named `name` in the environment.
pub open spec fn env_value(env: Seq<(String, String)>, name: Seq<char>) -> Option<Seq<char>>
    decreases env.len(),
{
    if env.len() == 0 {
        None
    } else if env[0].0@ == name {
        Some(env[0].1@)
    } else {
        env_value(env.skip(1), name)
    }
}

/// The value of the variable named by an optional setting.
pub open spec fn env_value_of(env: Seq<(String, String)>, name: Option<String>) -> Option<Seq<char>> {
    match name {
        Some(n) => env_value(env, n@),
        None => None,
    }
}

/// A value that turns TLS verification off: `false` in any case, or `0`.
pub open spec fn disables_verification(v: Seq<char>) -> bool {
    crate::text::eq_ignore_ascii_case(v, "false"@) || v == "0"@
}

/// `over` if present, else `keep`.
pub open spec fn overridden(over: Option<Seq<char>>, keep: Seq<char>) -> Seq<char> {
    match over {
        Some(v) => v,
        None => keep,
    }
}

/// `over` if present, else `keep` (optional settings).
pub open spec fn overridden_opt(over: Option<Seq<char>>, keep: Option<Seq<char>>) -> Option<Seq<char>> {
    match over {
        Some(v) => Some(v),
        None => keep,
    }
}

/// `new` is `old` with the environment applied: the base URL, the CA file
/// (`SSL_CERT_FILE` over `OPENGROK_CA_CERT`), the CA directory, TLS
/// verification (only ever turned off), the credentials from the variables
/// the auth settings name, and the log level; nothing else changes.
pub open spec fn env_applied(old: Config, new: Config, env: Seq<(String, String)>) -> bool {
    &&& new.opengrok.base_url@ == overridden(env_value(env, ENV_OPENGROK_URL@), old.opengrok.base_url@)
    &&& opt_view(new.opengrok.ca_cert) == overridden_opt(
        env_value(env, ENV_SSL_CERT_FILE@),
        overridden_opt(env_value(env, ENV_OPENGROK_CA_CERT@), opt_view(old.opengrok.ca_cert)),
    )
    &&& opt_view(new.opengrok.ca_cert_dir) == overridden_opt(env_value(env, ENV_SSL_CERT_DIR@), opt_view(old.opengrok.ca_cert_dir))
    &&& new.opengrok.verify_ssl == (old.opengrok.verify_ssl && !(env_value(env, ENV_OPENGROK_VERIFY_SSL@) matches Some(v) && disables_verification(v)))
    &&& opt_view(new.opengrok.auth.token) == overridden_opt(env_value_of(env, old.opengrok.auth.token_env), opt_view(old.opengrok.auth.token))
    &&& opt_view(new.opengrok.auth.username) == overridden_opt(env_value_of(env, old.opengrok.auth.username_env), opt_view(old.opengrok.auth.username))
    &&& opt_view(new.opengrok.auth.password) == overridden_opt(env_value_of(env, old.opengrok.auth.password_env), opt_view(old.opengrok.auth.password))
    &&& new.log.level@ == overridden(env_value(env, ENV_RUST_LOG@), old.log.level@)
    &&& new.opengrok.auth.mode == old.opengrok.auth.mode
    &&& new.opengrok.auth.token_env == old.opengrok.auth.token_env
    &&& new.opengrok.auth.username_env == old.opengrok.auth.username_env
    &&& new.opengrok.auth.password_env == old.opengrok.auth.password_env
    &&& new.opengrok.timeout_secs == old.opengrok.timeout_secs
    &&& new.service == old.service
    &&& new.cache == old.cache
    &&& new.rate_limit == old.rate_limit
    &&& new.transport == old.transport
}

/// Looks a variable up in the environment.
pub fn env_lookup(env: &Vec<(String, String)>, name: &str) -> (r: Option<String>)
    ensures
        opt_view(r) == env_value(env@, name@),
{
    let mut i: usize = 0;
    assert(env@.skip(0) == env@);
    while i < env.len()
        invariant
            i <= env@.len(),
            env_value(env@, name@) == env_value(env@.skip(i as int), name@),
        decreases env@.len() - i,
    {
        if str_eq(env[i].0.as_str(), name) {
            assert(env@.skip(i as int)[0] == env@[i as int]);
            return Some(env[i].1.clone());
        }
        assert(env@.skip(i as int).skip(1) == env@.skip(i + 1));
        i = i + 1;
    }
    None
}

fn env_lookup_opt(env: &Vec<(String, String)>, name: &Option<String>) -> (r: Option<String>)
    ensures
        opt_view(r) == env_value_of(env@, *name),
{
    match name {
        Some(n) => env_lookup(env, n.as_str()),
        None => None,
    }
}

impl Config {
    /// Applies the environment overrides (see [`env_applied`]).
    pub fn apply_env_overrides(&mut self, env: &Vec<(String, String)>)
        ensures
            env_applied(*old(self), *final(self), env@),
    {
        if let Some(v) = env_lookup(env, ENV_OPENGROK_URL) {
            self.opengrok.base_url = v;
        }
        if let Some(v) = env_lookup(env, ENV_OPENGROK_CA_CERT) {
            self.opengrok.ca_cert = Some(v);
        }
        if let Some(v) = env_lookup(env, ENV_SSL_CERT_FILE) {
            self.opengrok.ca_cert = Some(v);
        }
        if let Some(v) = env_lookup(env, ENV_SSL_CERT_DIR) {
            self.opengrok.ca_cert_dir = Some(v);
        }
        if let Some(v) = env_lookup(env, ENV_OPENGROK_VERIFY_SSL) {
            let vc = crate::text::chars_of(v.as_str());
            let f = crate::text::chars_of("false");
            proof {
                reveal_strlit("false");
                reveal_strlit("0");
            }
            if crate::text::eq_ignore_ascii_case_exec(&vc, &f) || str_eq(v.as_str(), "0") {
                self.opengrok.verify_ssl = false;
            }
        }
        if let Some(t) = env_lookup_opt(env, &self.opengrok.auth.token_env) {
            self.opengrok.auth.token = Some(t);
        }
        if let Some(u) = env_lookup_opt(env, &self.opengrok.auth.username_env) {
            self.opengrok.auth.username = Some(u);
        }
        if let Some(p) = env_lookup_opt(env, &self.opengrok.auth.password_env) {
            self.opengrok.auth.password = Some(p);
        }
        if let Some(v) = env_lookup(env, ENV_RUST_LOG) {
            self.log.level = v;
        }
    }

    /// Checks the settings: the base URL must not be empty.
    pub fn validate(&self) -> (r: Result<(), ConfigError>)
        ensures
            r is Ok <==> self.opengrok.base_url@.len() > 0,
            r matches Err(e) ==> (e matches ConfigError::Validation(m)
                && m@ == "opengrok.base_url must not be empty"@),
    {
        if self.opengrok.base_url.as_str().unicode_len() == 0 {
            proof { reveal_strlit("opengrok.base_url must not be empty"); }
            return Err(ConfigError::Validation(String::from_str("opengrok.base_url must not be empty")));
        }
        Ok(())
    }

    /// Finishes loading: takes the settings read from the file (or the
    /// defaults, or the error of reading them), applies the environment
    /// and validates the result.
    pub fn load(loaded: Result<Config, ConfigError>, env: &Vec<(String, String)>) -> (r: Result<Config, ConfigError>)
        ensures
            loaded is Err ==> r == loaded,
            loaded matches Ok(c) ==> match r {
                Ok(n) => env_applied(c, n, env@) && n.opengrok.base_url@.len() > 0,
                Err(e) => overridden(env_value(env@, ENV_OPENGROK_URL@), c.opengrok.base_url@).len() == 0
                    && (e matches ConfigError::Validation(m) && m@ == "opengrok.base_url must not be empty"@),
            },
    {
        let mut config = match loaded {
            Ok(c) => c,
            Err(e) => return Err(e),
        };
        config.apply_env_overrides(env);
        match config.validate() {
            Ok(()) => Ok(config),
            Err(e) => Err(e),
        }
    }
}

// ---------------------------------------------------------------------------
// What the settings select
// ---------------------------------------------------------------------------

/// The message when `token` mode has no token.
pub open spec fn missing_token_message(token_env: Option<String>) -> Seq<char> {
    "token auth mode requires "@ + overridden(opt_view(token_env), "OPENGROK_TOKEN"@) + " to be set"@
}

/// The message of an unknown authentication mode.
pub open spec fn unknown_auth_message(mode: Seq<char>) -> Seq<char> {
    "unknown auth mode: '"@ + mode + "' (expected token, basic, or none)"@
}

impl AuthConfig {
    /// The authentication the settings select: a bearer token in `token`
    /// mode (the token must be set), Basic auth in `basic` mode (the
    /// username must be set; a missing password is empty), nothing in
    /// `none` mode; any other mode is refused.
    pub fn auth_mode(&self) -> (r: Result<AuthMode, String>)
        ensures
            self.mode@ == "token"@ ==> match self.token {
                Some(t) => r matches Ok(AuthMode::Bearer(b)) && b@ == t@,
                None => r matches Err(m) && m@ == missing_token_message(self.token_env),
            },
            self.mode@ == "basic"@ ==> match self.username {
                Some(u) => r matches Ok(AuthMode::Basic { username, password })
                    && username@ == u@ && password@ == overridden(opt_view(self.password), Seq::empty()),
                None => r matches Err(m) && m@ == "basic auth mode requires username env to be set"@,
            },
            self.mode@ == "none"@ ==> r matches Ok(AuthMode::NoAuth),
            (self.mode@ != "token"@ && self.mode@ != "basic"@ && self.mode@ != "none"@)
                ==> (r matches Err(m) && m@ == unknown_auth_message(self.mode@)),
    {
        proof {
            reveal_strlit("token");
            reveal_strlit("basic");
            reveal_strlit("none");
            reveal_strlit("token auth mode requires ");
            reveal_strlit("OPENGROK_TOKEN");
            reveal_strlit(" to be set");
            reveal_strlit("basic auth mode requires username env to be set");
            reveal_strlit("unknown auth mode: '");
            reveal_strlit("' (expected token, basic, or none)");
            assert("basic"@[0] != "token"@[0]);
            assert("none"@[0] != "token"@[0]);
            assert("none"@[0] != "basic"@[0]);
        }
        let mode = self.mode.as_str();
        if str_eq(mode, "token") {
            match &self.token {
                Some(t) => Ok(AuthMode::Bearer(t.clone())),
                None => {
                    let mut m = String::from_str("token auth mode requires ");
                    match &self.token_env {
                        Some(n) => push_str(&mut m, n.as_str()),
                        None => push_str(&mut m, ENV_OPENGROK_TOKEN),
                    }
                    push_str(&mut m, " to be set");
                    Err(m)
                },
            }
        } else if str_eq(mode, "basic") {
            match &self.username {
                Some(u) => {
                    let password = match &self.password {
                        Some(p) => p.clone(),
                        None => String::new(),
                    };
                    Ok(AuthMode::Basic { username: u.clone(), password })
                },
                None => Err(String::from_str("basic auth mode requires username env to be set")),
            }
        } else if str_eq(mode, "none") {
            Ok(AuthMode::NoAuth)
        } else {
            let mut m = String::from_str("unknown auth mode: '");
            push_str(&mut m, mode);
            push_str(&mut m, "' (expected token, basic, or none)");
            Err(m)
        }
    }
}

/// The transports the server can run.
#[derive(Debug, Clone, Copy, PartialEq, Eq)]
pub enum TransportMode {
    /// MCP over standard input and output.
    Stdio,
    /// MCP over Streamable HTTP.
    Http,
    /// Both at once.
    Both,
}

/// The message of an unknown transport mode.
pub open spec fn unknown_transport_message(mode: Seq<char>) -> Seq<char> {
    "unknown transport mode: '"@ + mode + "' (expected stdio, http, or both)"@
}

impl TransportConfig {
    /// The transport the `mode` setting selects; any other mode is refused.
    pub fn transport_mode(&self) -> (r: Result<TransportMode, String>)
        ensures
            self.mode@ == "stdio"@ ==> r == Ok::<TransportMode, String>(TransportMode::Stdio),
            self.mode@ == "http"@ ==> r == Ok::<TransportMode, String>(TransportMode::Http),
            self.mode@ == "both"@ ==> r == Ok::<TransportMode, String>(TransportMode::Both),
            (self.mode@ != "stdio"@ && self.mode@ != "http"@ && self.mode@ != "both"@)
                ==> (r matches Err(m) && m@ == unknown_transport_message(self.mode@)),
    {
        proof {
            reveal_strlit("stdio");
            reveal_strlit("http");
            reveal_strlit("both");
            reveal_strlit("unknown transport mode: '");
            reveal_strlit("' (expected stdio, http, or both)");
            assert("http"@[0] != "stdio"@[0]);
            assert("both"@[0] != "stdio"@[0]);
            assert("both"@[0] != "http"@[0]);
        }
        let mode = self.mode.as_str();
        if str_eq(mode, "stdio") {
            Ok(TransportMode::Stdio)
        } else if str_eq(mode, "http") {
            Ok(TransportMode::Http)
        } else if str_eq(mode, "both") {
            Ok(TransportMode::Both)
        } else {
            let mut m = String::from_str("unknown transport mode: '");
            push_str(&mut m, mode);
            push_str(&mut m, "' (expected stdio, http, or both)");
            Err(m)
        }
    }
}

/// The duration of `secs` whole seconds, as `Duration::from_secs` makes it.
pub uninterp spec fn seconds_duration(secs: u64) -> std::time::Duration;

/// `std::time::Duration::from_secs`: claimed to return the duration of
/// `secs` seconds, a value that depends on `secs` alone (named
/// `seconds_duration`). `Duration` is opaque here, so what it holds is not
/// stated further.
#[verifier::external_body]
fn duration_from_secs(secs: u64) -> (d: std::time::Duration)
    ensures
        d == seconds_duration(secs),
{
    std::time::Duration::from_secs(secs)
}

impl OpengrokConfig {
    /// The client settings these connection settings describe, with the
    /// given authentication.
    pub fn client_config(&self, auth: AuthMode) -> (r: OpengrokClientConfig)
        ensures
            r.base_url@ == self.base_url@,
            r.auth == auth,
            r.timeout == seconds_duration(self.timeout_secs),
            r.tls.verify_ssl == self.verify_ssl,
            opt_view(r.tls.ca_cert) == opt_view(self.ca_cert),
            opt_view(r.tls.ca_cert_dir) == opt_view(self.ca_cert_dir),
    {
        OpengrokClientConfig {
            base_url: self.base_url.clone(),
            auth,
            timeout: duration_from_secs(self.timeout_secs),
            tls: TlsConfig {
                verify_ssl: self.verify_ssl,
                ca_cert: self.ca_cert.clone(),
                ca_cert_dir: self.ca_cert_dir.clone(),
            },
        }
    }
}

} // verus!
