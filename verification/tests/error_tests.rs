use ssh_core::SshError;

#[test]
fn connection_failed_message() {
    let e = SshError::ConnectionFailed("connection refused".to_string());
    assert_eq!(e.message(), "Connection failed: connection refused");
}

#[test]
fn authentication_failed_message() {
    let e = SshError::AuthenticationFailed("bad password".to_string());
    assert_eq!(e.message(), "Authentication failed: bad password");
}

#[test]
fn command_failed_message() {
    let e = SshError::CommandFailed("Not connected".to_string());
    assert_eq!(e.message(), "Command execution failed: Not connected");
}

#[test]
fn transfer_failed_message() {
    let e = SshError::TransferFailed("interrupted".to_string());
    assert_eq!(e.message(), "File transfer failed: interrupted");
}

#[test]
fn session_not_found_message_renders_the_identifier() {
    let e = SshError::SessionNotFound(0);
    assert_eq!(e.message(), "Session not found: 0");
    let e = SshError::SessionNotFound(42);
    assert_eq!(e.message(), "Session not found: 42");
    let e = SshError::SessionNotFound(u64::MAX);
    assert_eq!(e.message(), format!("Session not found: {}", u64::MAX));
}

#[test]
fn io_error_message() {
    let e = SshError::IoError("file missing".to_string());
    assert_eq!(e.message(), "IO error: file missing");
}

#[test]
fn protocol_error_message() {
    let e = SshError::ProtocolError("unexpected packet".to_string());
    assert_eq!(e.message(), "SSH error: unexpected packet");
}

#[test]
fn errors_clone_faithfully() {
    let e = SshError::ConnectionFailed("x".to_string());
    let c = e.clone();
    assert_eq!(c.message(), e.message());
    let e = SshError::SessionNotFound(7);
    let c = e.clone();
    assert_eq!(c.message(), e.message());
}
