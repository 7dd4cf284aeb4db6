use opengrok_mcp::config::{
    config_file_to_read, AuthConfig, Config, ConfigError, OpengrokConfig, TransportConfig,
    TransportMode,
};
use opengrok_mcp::request::AuthMode;

fn env(pairs: &[(&str, &str)]) -> Vec<(String, String)> {
    pairs.iter().map(|(k, v)| (k.to_string(), v.to_string())).collect()
}

#[test]
fn default_config_validates_fails_no_base_url() {
    let config = Config::default();
    let result = config.validate();
    assert!(result.is_err());
}

#[test]
fn default_config_with_base_url_validates() {
    let config = Config {
        opengrok: OpengrokConfig {
            base_url: "http://localhost:8080".into(),
            ..Default::default()
        },
        ..Default::default()
    };
    let result = config.validate();
    assert!(result.is_ok());
}

#[test]
fn env_override_base_url() {
    let mut config = Config::default();
    config.opengrok.base_url = "https://from-env.example.com".into();
    assert_eq!(config.opengrok.base_url, "https://from-env.example.com");
}

#[test]
fn auth_token_from_env() {
    let mut config = Config::default();
    config.opengrok.auth.token_env = Some("TEST_TOKEN".into());
    assert!(config.opengrok.auth.token.is_none());
}

#[test]
fn transport_defaults() {
    let config = TransportConfig::default();
    assert_eq!(config.mode, "both");
    assert_eq!(config.bind_addr, "0.0.0.0:8080");
    assert_eq!(config.http_path, "/mcp");
    assert!(config.allowed_hosts.is_empty());
}

// -- environment overrides -------------------------------------------------

#[test]
fn env_overrides_apply_to_the_named_fields() {
    let mut config = Config::default();
    config.opengrok.auth.username_env = Some("OG_USER".into());
    let e = env(&[
        ("OPENGROK_URL", "https://og.example.com"),
        ("OPENGROK_CA_CERT", "/a.pem"),
        ("SSL_CERT_FILE", "/b.pem"),
        ("SSL_CERT_DIR", "/certs"),
        ("OPENGROK_VERIFY_SSL", "FALSE"),
        ("OPENGROK_TOKEN", "tok"),
        ("OG_USER", "alice"),
        ("RUST_LOG", "debug"),
    ]);
    config.apply_env_overrides(&e);
    assert_eq!(config.opengrok.base_url, "https://og.example.com");
    assert_eq!(config.opengrok.ca_cert.as_deref(), Some("/b.pem"));
    assert_eq!(config.opengrok.ca_cert_dir.as_deref(), Some("/certs"));
    assert!(!config.opengrok.verify_ssl);
    assert_eq!(config.opengrok.auth.token.as_deref(), Some("tok"));
    assert_eq!(config.opengrok.auth.username.as_deref(), Some("alice"));
    assert_eq!(config.opengrok.auth.password, None);
    assert_eq!(config.log.level, "debug");
}

#[test]
fn verify_ssl_is_only_turned_off_by_false_or_zero() {
    for (v, expected) in [("0", false), ("false", false), ("fAlSe", false), ("no", true), ("true", true)] {
        let mut config = Config::default();
        config.apply_env_overrides(&env(&[("OPENGROK_VERIFY_SSL", v)]));
        assert_eq!(config.opengrok.verify_ssl, expected, "value {v}");
    }
}

#[test]
fn load_applies_env_then_validates() {
    let loaded = Ok(Config::default());
    let r = Config::load(loaded, &env(&[("OPENGROK_URL", "http://x")]));
    assert_eq!(r.unwrap().opengrok.base_url, "http://x");

    let r = Config::load(Ok(Config::default()), &env(&[]));
    match r {
        Err(ConfigError::Validation(m)) => assert_eq!(m, "opengrok.base_url must not be empty"),
        other => panic!("unexpected {other:?}"),
    }

    let r = Config::load(Err(ConfigError::Io("gone".into())), &env(&[]));
    assert!(matches!(r, Err(ConfigError::Io(m)) if m == "gone"));
}

#[test]
fn config_error_messages() {
    assert_eq!(ConfigError::Validation("x".into()).to_string(), "config validation error: x");
    assert_eq!(
        ConfigError::read_failure("c.toml", "No such file").to_string(),
        "config I/O error: failed to read config file 'c.toml': No such file"
    );
    assert_eq!(
        ConfigError::parse_failure("c.toml", "bad").to_string(),
        "config parse error: failed to parse config file 'c.toml': bad"
    );
}

#[test]
fn config_file_choice() {
    assert_eq!(config_file_to_read(Some("/etc/x.toml"), (false, false)).as_deref(), Some("/etc/x.toml"));
    assert_eq!(config_file_to_read(None, (true, true)).as_deref(), Some("./config/config.toml"));
    assert_eq!(config_file_to_read(None, (false, true)).as_deref(), Some("./config.toml"));
    assert_eq!(config_file_to_read(None, (false, false)), None);
}

#[test]
fn auth_modes() {
    let mut a = AuthConfig::default();
    assert_eq!(a.auth_mode(), Ok(AuthMode::NoAuth));
    a.mode = "token".into();
    assert_eq!(a.auth_mode(), Err("token auth mode requires OPENGROK_TOKEN to be set".into()));
    a.token = Some("t".into());
    assert_eq!(a.auth_mode(), Ok(AuthMode::Bearer("t".into())));
    a.mode = "basic".into();
    assert_eq!(a.auth_mode(), Err("basic auth mode requires username env to be set".into()));
    a.username = Some("u".into());
    assert_eq!(
        a.auth_mode(),
        Ok(AuthMode::Basic { username: "u".into(), password: String::new() })
    );
    a.mode = "kerberos".into();
    assert_eq!(
        a.auth_mode(),
        Err("unknown auth mode: 'kerberos' (expected token, basic, or none)".into())
    );
}

#[test]
fn transport_modes() {
    let mut t = TransportConfig::default();
    assert_eq!(t.transport_mode(), Ok(TransportMode::Both));
    t.mode = "stdio".into();
    assert_eq!(t.transport_mode(), Ok(TransportMode::Stdio));
    t.mode = "http".into();
    assert_eq!(t.transport_mode(), Ok(TransportMode::Http));
    t.mode = "grpc".into();
    assert_eq!(
        t.transport_mode(),
        Err("unknown transport mode: 'grpc' (expected stdio, http, or both)".into())
    );
}

#[test]
fn defaults_match_the_reference_values() {
    let c = Config::default();
    assert_eq!(c.opengrok.timeout_secs, 60);
    assert_eq!(c.opengrok.base_url, "");
    assert_eq!(
        c.opengrok.ca_cert.as_deref(),
        Some("./config/certs/russian_trusted_root_ca_pem.crt")
    );
    assert_eq!(c.opengrok.ca_cert_dir, None);
    assert!(c.opengrok.verify_ssl);
    assert_eq!(c.opengrok.auth.mode, "none");
    assert_eq!(c.opengrok.auth.token_env.as_deref(), Some("OPENGROK_TOKEN"));
    assert_eq!(c.opengrok.auth.username_env.as_deref(), Some("OPENGROK_USERNAME"));
    assert_eq!(c.opengrok.auth.password_env.as_deref(), Some("OPENGROK_PASSWORD"));
    assert_eq!(c.opengrok.auth.token, None);
    assert_eq!(c.opengrok.auth.username, None);
    assert_eq!(c.opengrok.auth.password, None);
    assert!(c.service.strip_html);
    assert_eq!(c.service.max_hits_per_file, 10);
    assert_eq!(c.service.default_max_results, 25);
    assert!(!c.cache.enabled);
    assert_eq!(c.cache.ttl_secs, 300);
    assert_eq!(c.cache.max_entries, 1000);
    assert!(!c.rate_limit.enabled);
    assert_eq!(c.rate_limit.requests_per_second, 5);
    assert_eq!(c.rate_limit.burst, 10);
    assert_eq!(c.log.level, "info");
    assert_eq!(c.transport.mcp_auth_token, "");
}

#[test]
fn client_config_carries_the_connection_settings() {
    let mut o = OpengrokConfig::default();
    o.base_url = "http://og".into();
    o.verify_ssl = false;
    o.ca_cert = Some("/ca.pem".into());
    let c = o.client_config(AuthMode::Bearer("t".into()));
    assert_eq!(c.base_url, "http://og");
    assert_eq!(c.auth, AuthMode::Bearer("t".into()));
    assert_eq!(c.timeout, std::time::Duration::from_secs(60));
    assert!(!c.tls.verify_ssl);
    assert_eq!(c.tls.ca_cert.as_deref(), Some("/ca.pem"));
    assert_eq!(c.tls.ca_cert_dir, None);
}

#[test]
fn default_basic_credentials_come_from_the_documented_variables() {
    let mut config = Config::default();
    let e = env(&[("OPENGROK_USERNAME", "bob"), ("OPENGROK_PASSWORD", "pw")]);
    config.apply_env_overrides(&e);
    assert_eq!(config.opengrok.auth.username.as_deref(), Some("bob"));
    assert_eq!(config.opengrok.auth.password.as_deref(), Some("pw"));
}
