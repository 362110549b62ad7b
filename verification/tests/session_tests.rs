use ssh_core::AuthMethod;
use ssh_core::ChannelOutcome;
use ssh_core::ConnectionStatus;
use ssh_core::HandshakeEvent;
use ssh_core::SshClient;
use ssh_core::SshConfig;
use ssh_core::SshError;

fn password_config() -> SshConfig {
    SshConfig {
        host: "h".to_string(),
        port: 22,
        username: "u".to_string(),
        auth_method: AuthMethod::Password("p".to_string()),
        timeout: Some(30),
    }
}

fn agent_config() -> SshConfig {
    SshConfig {
        host: "h".to_string(),
        port: 22,
        username: "u".to_string(),
        auth_method: AuthMethod::Agent,
        timeout: None,
    }
}

#[test]
fn create_session_returns_fresh_identifiers() {
    let mut client = SshClient::new();
    let a = client.create_connection(password_config()).unwrap();
    let b = client.create_connection(password_config()).unwrap();
    let c = client.create_connection(password_config()).unwrap();
    assert_ne!(a, b);
    assert_ne!(a, c);
    assert_ne!(b, c);
    // An identifier is never reused, not even after its session is removed.
    client.remove_session(b).unwrap();
    let d = client.create_connection(password_config()).unwrap();
    assert_ne!(d, a);
    assert_ne!(d, b);
    assert_ne!(d, c);
}

#[test]
fn get_session_info_unknown_identifier_fails() {
    let mut client = SshClient::new();
    assert!(matches!(
        client.get_session_info(12345),
        Err(SshError::SessionNotFound(12345))
    ));
    let id = client.create_connection(password_config()).unwrap();
    client.remove_session(id).unwrap();
    assert!(matches!(
        client.get_session_info(id),
        Err(SshError::SessionNotFound(x)) if x == id
    ));
}

#[test]
fn new_session_is_disconnected_and_rejects_commands() {
    let mut client = SshClient::new();
    let id = client.create_connection(password_config()).unwrap();
    let info = client.get_session_info(id).unwrap();
    assert!(matches!(info.status, ConnectionStatus::Disconnected));
    assert!(info.connected_at.is_none());
    let r = client.execute_command(id, "ls", ChannelOutcome::Opened);
    match r {
        Err(SshError::CommandFailed(msg)) => assert_eq!(msg, "Not connected"),
        _ => panic!("expected CommandFailed"),
    }
}

#[test]
fn successful_connect_sets_status_and_enables_commands() {
    let mut client = SshClient::new();
    let id = client.create_connection(password_config()).unwrap();
    client.connect(id, HandshakeEvent::Established).unwrap();
    let info = client.get_session_info(id).unwrap();
    assert!(matches!(info.status, ConnectionStatus::Connected));
    assert!(info.connected_at.is_some());
    let result = client
        .execute_command(id, "ls", ChannelOutcome::Opened)
        .unwrap();
    assert_eq!(result.exit_code, 0);
    assert_eq!(result.stdout, "Command executed");
    assert_eq!(result.stderr, "");
}

#[test]
fn disconnect_is_idempotent() {
    let mut client = SshClient::new();
    let id = client.create_connection(password_config()).unwrap();
    client.connect(id, HandshakeEvent::Established).unwrap();
    assert!(client.disconnect(id).is_ok());
    let info = client.get_session_info(id).unwrap();
    assert!(matches!(info.status, ConnectionStatus::Disconnected));
    assert!(info.connected_at.is_none());
    assert!(client.disconnect(id).is_ok());
    let info = client.get_session_info(id).unwrap();
    assert!(matches!(info.status, ConnectionStatus::Disconnected));
    assert!(info.connected_at.is_none());
}

#[test]
fn session_is_visibly_connecting_during_the_handshake() {
    let mut client = SshClient::new();
    let id = client.create_connection(password_config()).unwrap();
    let cfg = client.begin_connect(id).unwrap();
    assert_eq!(cfg.host, "h");
    // Between entering the handshake and committing its outcome, the
    // session is observably mid-transition.
    let info = client.get_session_info(id).unwrap();
    assert!(matches!(info.status, ConnectionStatus::Connecting));
    assert!(info.connected_at.is_none());
    client.connect(id, HandshakeEvent::Established).unwrap();
    let info = client.get_session_info(id).unwrap();
    assert!(matches!(info.status, ConnectionStatus::Connected));
}

#[test]
fn begin_connect_on_unknown_identifier_fails() {
    let mut client = SshClient::new();
    assert!(matches!(
        client.begin_connect(777),
        Err(SshError::SessionNotFound(777))
    ));
}

#[test]
fn remove_session_on_unknown_identifier_is_a_noop_success() {
    let mut client = SshClient::new();
    assert!(client.remove_session(9876).is_ok());
}

#[test]
fn transport_failure_reports_connection_failed() {
    let mut client = SshClient::new();
    let id = client.create_connection(password_config()).unwrap();
    let r = client.connect(id, HandshakeEvent::TransportFailed("connection refused".to_string()));
    match r {
        Err(SshError::ConnectionFailed(msg)) => assert_eq!(msg, "connection refused"),
        _ => panic!("expected ConnectionFailed"),
    }
    let info = client.get_session_info(id).unwrap();
    match info.status {
        ConnectionStatus::Failed(reason) => assert_eq!(reason, "connection refused"),
        _ => panic!("expected Failed status"),
    }
    assert!(info.connected_at.is_none());
}

#[test]
fn denied_authentication_reports_authentication_failed() {
    let mut client = SshClient::new();
    let id = client.create_connection(password_config()).unwrap();
    let r = client.connect(id, HandshakeEvent::AuthDenied);
    match r {
        Err(SshError::AuthenticationFailed(msg)) => assert_eq!(msg, "Authentication failed"),
        _ => panic!("expected AuthenticationFailed"),
    }
    let info = client.get_session_info(id).unwrap();
    assert!(matches!(info.status, ConnectionStatus::Failed(_)));
}

#[test]
fn failed_authentication_carries_the_cause() {
    let mut client = SshClient::new();
    let id = client.create_connection(password_config()).unwrap();
    let r = client.connect(id, HandshakeEvent::AuthFailed("key undecodable".to_string()));
    match r {
        Err(SshError::AuthenticationFailed(msg)) => assert_eq!(msg, "key undecodable"),
        _ => panic!("expected AuthenticationFailed"),
    }
}

#[test]
fn agent_authentication_is_rejected() {
    let mut client = SshClient::new();
    let id = client.create_connection(agent_config()).unwrap();
    let r = client.connect(id, HandshakeEvent::Established);
    match r {
        Err(SshError::AuthenticationFailed(msg)) => {
            assert_eq!(msg, "SSH Agent authentication not implemented yet")
        }
        _ => panic!("expected AuthenticationFailed"),
    }
    let info = client.get_session_info(id).unwrap();
    match info.status {
        ConnectionStatus::Failed(reason) => {
            assert_eq!(reason, "SSH Agent authentication not implemented yet")
        }
        _ => panic!("expected Failed status"),
    }
}

#[test]
fn connect_on_unknown_identifier_fails() {
    let mut client = SshClient::new();
    assert!(matches!(
        client.connect(4242, HandshakeEvent::Established),
        Err(SshError::SessionNotFound(4242))
    ));
}

#[test]
fn command_channel_failure_reports_command_failed() {
    let mut client = SshClient::new();
    let id = client.create_connection(password_config()).unwrap();
    client.connect(id, HandshakeEvent::Established).unwrap();
    let r = client.execute_command(id, "ls", ChannelOutcome::OpenFailed("no channel".to_string()));
    match r {
        Err(SshError::CommandFailed(msg)) => assert_eq!(msg, "no channel"),
        _ => panic!("expected CommandFailed"),
    }
}

#[test]
fn execute_command_on_unknown_identifier_fails() {
    let client = SshClient::new();
    assert!(matches!(
        client.execute_command(7, "ls", ChannelOutcome::Opened),
        Err(SshError::SessionNotFound(7))
    ));
}

#[test]
fn list_sessions_snapshots_every_session() {
    let mut client = SshClient::new();
    let a = client.create_connection(password_config()).unwrap();
    let b = client.create_connection(agent_config()).unwrap();
    let infos = client.list_sessions();
    assert_eq!(infos.len(), 2);
    let ids: Vec<u64> = infos.iter().map(|i| i.id).collect();
    assert!(ids.contains(&a));
    assert!(ids.contains(&b));
    for info in &infos {
        assert!(matches!(info.status, ConnectionStatus::Disconnected));
    }
}

#[test]
fn operations_on_one_session_leave_others_untouched() {
    let mut client = SshClient::new();
    let a = client.create_connection(password_config()).unwrap();
    let b = client.create_connection(password_config()).unwrap();
    client.connect(a, HandshakeEvent::Established).unwrap();
    let info_b = client.get_session_info(b).unwrap();
    assert!(matches!(info_b.status, ConnectionStatus::Disconnected));
    client
        .connect(b, HandshakeEvent::TransportFailed("down".to_string()))
        .unwrap_err();
    let info_a = client.get_session_info(a).unwrap();
    assert!(matches!(info_a.status, ConnectionStatus::Connected));
    client.remove_session(a).unwrap();
    assert!(client.get_session_info(b).is_ok());
}

#[test]
fn reconnect_reruns_the_handshake() {
    let mut client = SshClient::new();
    let id = client.create_connection(password_config()).unwrap();
    client.connect(id, HandshakeEvent::Established).unwrap();
    // A second handshake on a connected session discards the prior handle
    // and installs whatever the new outcome yields.
    let r = client.connect(id, HandshakeEvent::AuthDenied);
    assert!(matches!(r, Err(SshError::AuthenticationFailed(_))));
    let info = client.get_session_info(id).unwrap();
    assert!(matches!(info.status, ConnectionStatus::Failed(_)));
    client.connect(id, HandshakeEvent::Established).unwrap();
    let info = client.get_session_info(id).unwrap();
    assert!(matches!(info.status, ConnectionStatus::Connected));
}

#[test]
fn session_info_snapshots_the_configuration() {
    let mut client = SshClient::new();
    let id = client.create_connection(password_config()).unwrap();
    let info = client.get_session_info(id).unwrap();
    assert_eq!(info.id, id);
    assert_eq!(info.config.host, "h");
    assert_eq!(info.config.port, 22);
    assert_eq!(info.config.username, "u");
    assert_eq!(info.config.timeout, Some(30));
    match info.config.auth_method {
        AuthMethod::Password(secret) => assert_eq!(secret, "p"),
        _ => panic!("expected password authentication"),
    }
}
