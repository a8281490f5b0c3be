use pueue::error::Error;
use pueue::socket::{
    connect_failure, loopback_address, plan_client, plan_listener, unix_bind_decision, BindAction,
    ClientStep, ListenerStep,
};

#[test]
fn loopback_address_is_loopback() {
    assert_eq!(loopback_address(&"6924".to_string()), "127.0.0.1:6924");
    assert_eq!(loopback_address(&"80".to_string()), "127.0.0.1:80");
}

#[test]
fn client_unix_missing_path_fails_not_found() {
    let r = plan_client(Some("/tmp/q.sock".to_string()), None, false);
    match r {
        Err(Error::NotFound(msg)) => {
            assert!(msg.contains("/tmp/q.sock"));
            assert!(msg.contains("Is the daemon running yet?"));
        }
        _ => panic!("expected NotFound"),
    }
}

#[test]
fn client_unix_existing_path_connects_to_it() {
    let r = plan_client(Some("/tmp/q.sock".to_string()), Some("6924".to_string()), true);
    match r {
        Ok(ClientStep::ConnectUnix { path }) => assert_eq!(path, "/tmp/q.sock"),
        _ => panic!("expected a Unix connect step"),
    }
}

#[test]
fn client_tcp_targets_loopback_only() {
    let r = plan_client(None, Some("6924".to_string()), false);
    match r {
        Ok(ClientStep::ConnectTcp { address, port }) => {
            assert_eq!(address, "127.0.0.1:6924");
            assert_eq!(port, "6924");
        }
        _ => panic!("expected a TCP connect step"),
    }
}

#[test]
fn daemon_start_clean_then_client_connects() {
    // The socket path is absent: the listener factory binds it directly.
    let step = plan_listener(Some("/tmp/q.sock".to_string()), None);
    match step {
        ListenerStep::CheckUnixPath { ref path } => assert_eq!(path, "/tmp/q.sock"),
        _ => panic!("expected the Unix path check"),
    }
    match unix_bind_decision("/tmp/q.sock".to_string(), false, false) {
        Ok(BindAction::Bind { path }) => assert_eq!(path, "/tmp/q.sock"),
        _ => panic!("expected a direct bind"),
    }
    // With the listener bound the path exists, and the matching client
    // configuration connects to the very same path.
    match plan_client(Some("/tmp/q.sock".to_string()), None, true) {
        Ok(ClientStep::ConnectUnix { path }) => assert_eq!(path, "/tmp/q.sock"),
        _ => panic!("expected a Unix connect step"),
    }
}

#[test]
fn crash_recovery_removes_stale_file_and_binds() {
    // The file exists but nothing listens: delete it, then bind.
    match unix_bind_decision("/tmp/q.sock".to_string(), true, false) {
        Ok(BindAction::RemoveThenBind { path }) => assert_eq!(path, "/tmp/q.sock"),
        _ => panic!("expected removal followed by a bind"),
    }
    // The same call on an already-clean path also succeeds, binding directly.
    match unix_bind_decision("/tmp/q.sock".to_string(), false, false) {
        Ok(BindAction::Bind { path }) => assert_eq!(path, "/tmp/q.sock"),
        _ => panic!("expected a direct bind"),
    }
}

#[test]
fn second_daemon_on_live_socket_fails_already_running() {
    let r = unix_bind_decision("/tmp/q.sock".to_string(), true, true);
    match r {
        Err(e) => {
            assert!(matches!(e, Error::AlreadyRunning(_)));
            assert!(e.message().contains("active pueue daemon"));
        }
        Ok(_) => panic!("expected AlreadyRunning"),
    }
}

#[test]
fn daemon_not_started_error_mentions_port() {
    let step = match plan_client(None, Some("6924".to_string()), false) {
        Ok(s) => s,
        Err(_) => panic!("expected a TCP connect step"),
    };
    let e = connect_failure(&step, "connection refused".to_string());
    match e {
        Error::ConnectFailed(msg) => {
            assert!(msg.contains("6924"));
            assert!(msg.contains("Did you start it?"));
        }
        _ => panic!("expected ConnectFailed"),
    }
}

#[test]
fn unix_connect_failure_propagates_os_error() {
    let step = ClientStep::ConnectUnix { path: "/tmp/q.sock".to_string() };
    let e = connect_failure(&step, "connection refused".to_string());
    match e {
        Error::ConnectFailed(msg) => assert_eq!(msg, "connection refused"),
        _ => panic!("expected ConnectFailed"),
    }
}

#[test]
fn tcp_listener_binds_loopback() {
    let step = plan_listener(None, Some("6924".to_string()));
    match step {
        ListenerStep::BindTcp { address, port } => {
            assert_eq!(address, "127.0.0.1:6924");
            assert_eq!(port, "6924");
        }
        _ => panic!("expected a TCP bind"),
    }
}
