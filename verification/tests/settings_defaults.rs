use pueue::error::Error;
use pueue::settings::{
    config_file_path, gen_random_secret, missing_config_error, require_config_check,
    resolve_config_path, Settings,
};

#[test]
fn defaults_match_the_documentation() {
    let s = Settings::with_defaults(
        "topsecret".to_string(),
        "/home/u/.local/share/pueue".to_string(),
        "/tmp/pueue.sock".to_string(),
    );
    assert_eq!(s.shared.secret, "topsecret");
    assert_eq!(s.shared.pueue_directory, "/home/u/.local/share/pueue");
    assert!(!s.shared.use_unix_socket);
    assert_eq!(s.shared.unix_socket_path, "/tmp/pueue.sock");
    assert_eq!(s.shared.url, "localhost");
    assert_eq!(s.shared.port, "6924");
    assert!(s.shared.tls_enabled);
    assert_eq!(s.shared.client_certificate, "/home/u/.local/share/pueue/client.cert");
    assert!(s.client.read_local_logs);
    assert!(!s.client.show_confirmation_questions);
    assert!(s.client.max_status_lines.is_none());
    assert_eq!(s.daemon.default_parallel_tasks, 1);
    assert!(!s.daemon.pause_on_failure);
    assert!(s.daemon.callback.is_none());
    assert!(s.daemon.groups.is_empty());
}

#[test]
fn random_secret_has_length_and_charset() {
    let charset = "ABCDEFGHIJKLMNOPQRSTUVWXYZabcdefghijklmnopqrstuvwxyz0123456789)(*&^%$#@!~";
    let secret = gen_random_secret();
    assert_eq!(secret.chars().count(), 20);
    for c in secret.chars() {
        assert!(charset.contains(c));
    }
}

#[test]
fn config_file_path_joins_directory() {
    assert_eq!(config_file_path(&"/etc/pueue".to_string()), "/etc/pueue/pueue.yml");
}

#[test]
fn required_config_must_be_found() {
    match require_config_check(true, false) {
        Err(Error::NotFound(m)) => {
            assert_eq!(m, "Couldn't find a configuration file. Did you start the daemon yet?");
        }
        _ => panic!("expected NotFound"),
    }
    assert!(require_config_check(true, true).is_ok());
    assert!(require_config_check(false, false).is_ok());
    assert!(require_config_check(false, true).is_ok());
}

#[test]
fn missing_config_error_names_the_path() {
    let e = missing_config_error(&"/etc/pueue/pueue.yml".to_string());
    match e {
        Error::NotFound(m) => assert_eq!(m, "Couldn't find config at path \"/etc/pueue/pueue.yml\""),
        _ => panic!("expected NotFound"),
    }
}

#[test]
fn save_path_prefers_the_explicit_target() {
    let p = resolve_config_path(Some("/tmp/alt.yml".to_string()), "/home/u/.config".to_string());
    assert_eq!(p, "/tmp/alt.yml");
    let p = resolve_config_path(None, "/home/u/.config".to_string());
    assert_eq!(p, "/home/u/.config/pueue.yml");
}
