use inventory_server::config::{
    default_bind, default_db_path, resolve_settings, truthy, truthy_given, Config, EnvOverrides,
};

fn no_env() -> EnvOverrides {
    EnvOverrides { bind: None, db_path: None, tls_cert: None, tls_key: None, debug: None }
}

#[test]
fn test_config_default() {
    let config = Config::default();
    assert_eq!(config.bind, "0.0.0.0:8443");
    assert_eq!(config.db_path, None);
    assert_eq!(config.tls_cert, None);
    assert_eq!(config.tls_key, None);
    assert_eq!(config.debug, false);
}

#[test]
fn test_default_bind() {
    assert_eq!(default_bind(), "0.0.0.0:8443");
}

#[test]
fn test_default_db_path_format() {
    let path = default_db_path("/opt/inventory");
    assert!(path.ends_with("inventory.db"));
    assert!(path.starts_with("/opt/inventory"));
    assert_eq!(path, "/opt/inventory/inventory.db");
}

#[test]
fn default_db_path_keeps_trailing_separator() {
    assert_eq!(default_db_path("/opt/inventory/"), "/opt/inventory/inventory.db");
}

#[test]
fn default_db_path_of_empty_dir_is_bare_name() {
    assert_eq!(default_db_path(""), "inventory.db");
}

#[test]
fn settings_fall_back_to_file_and_defaults() {
    let s = resolve_settings(Config::default(), no_env(), false, "/srv/app");
    assert_eq!(s.bind, "0.0.0.0:8443");
    assert_eq!(s.db_path, "/srv/app/inventory.db");
    assert!(s.tls.is_none());
    assert!(!s.debug);
}

#[test]
fn settings_environment_overrides_file() {
    let cfg = Config {
        bind: "127.0.0.1:9000".to_string(),
        db_path: Some("/tmp/test.db".to_string()),
        tls_cert: Some("/path/to/cert.pem".to_string()),
        tls_key: Some("/path/to/key.pem".to_string()),
        debug: false,
    };
    let env = EnvOverrides {
        bind: Some("192.168.1.1:8080".to_string()),
        db_path: Some("/data/inv.db".to_string()),
        tls_cert: None,
        tls_key: Some("/etc/key.pem".to_string()),
        debug: Some("TRUE".to_string()),
    };
    let s = resolve_settings(cfg, env, false, "/srv/app");
    assert_eq!(s.bind, "192.168.1.1:8080");
    assert_eq!(s.db_path, "/data/inv.db");
    let tls = s.tls.expect("both paths are set");
    assert_eq!(tls.cert, "/path/to/cert.pem");
    assert_eq!(tls.key, "/etc/key.pem");
    assert!(s.debug);
}

#[test]
fn settings_tls_needs_both_paths() {
    let mut cfg = Config::default();
    cfg.tls_cert = Some("/path/to/cert.pem".to_string());
    let s = resolve_settings(cfg, no_env(), false, "/srv/app");
    assert!(s.tls.is_none());

    let mut cfg = Config::default();
    cfg.tls_cert = Some("/path/to/cert.pem".to_string());
    cfg.tls_key = Some(String::new());
    let s = resolve_settings(cfg, no_env(), false, "/srv/app");
    assert!(s.tls.is_none());
}

#[test]
fn settings_debug_from_flag_or_file() {
    let s = resolve_settings(Config::default(), no_env(), true, "/srv/app");
    assert!(s.debug);
    let mut cfg = Config::default();
    cfg.debug = true;
    let s = resolve_settings(cfg, no_env(), false, "/srv/app");
    assert!(s.debug);
}

#[test]
fn truthy_values() {
    assert!(truthy("1"));
    assert!(truthy("true"));
    assert!(truthy("True"));
    assert!(truthy("TRUE"));
    assert!(!truthy("0"));
    assert!(!truthy("yes"));
    assert!(!truthy(""));
    assert!(!truthy(" true"));
}

#[test]
fn truthy_given_lowercase_form() {
    assert!(truthy_given("1", "1"));
    assert!(truthy_given("TRUE", "true"));
    assert!(!truthy_given("TRUE", "TRUE"));
    assert!(!truthy_given("yes", "yes"));
}
