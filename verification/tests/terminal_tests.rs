use ssh_core::AuthMethod;
use ssh_core::SshClient;
use ssh_core::SshConfig;
use ssh_core::SshError;

fn config() -> SshConfig {
    SshConfig {
        host: "example.org".to_string(),
        port: 2222,
        username: "admin".to_string(),
        auth_method: AuthMethod::Password("secret".to_string()),
        timeout: None,
    }
}

#[test]
fn first_receive_returns_the_greeting_with_prompt_marker() {
    let mut client = SshClient::new();
    let session = client.create_connection(config()).unwrap();
    let terminal = client.create_terminal_session(session).unwrap();
    let unit = client
        .receive_terminal_output(terminal)
        .unwrap()
        .expect("the seeded greeting must be pending");
    assert_eq!(unit.session_id, terminal);
    assert!(unit.data.contains("$ "));
    assert!(unit.data.ends_with("$ "));
}

#[test]
fn greeting_renders_the_terminal_identifier() {
    let mut client = SshClient::new();
    let session = client.create_connection(config()).unwrap();
    let terminal = client.create_terminal_session(session).unwrap();
    let unit = client.receive_terminal_output(terminal).unwrap().unwrap();
    assert_eq!(
        unit.data,
        format!("Terminal session {} created successfully.\r\n$ ", terminal)
    );
}

#[test]
fn receive_after_greeting_yields_nothing() {
    let mut client = SshClient::new();
    let session = client.create_connection(config()).unwrap();
    let terminal = client.create_terminal_session(session).unwrap();
    let first = client.receive_terminal_output(terminal).unwrap();
    assert!(first.is_some());
    // The producer side closed after seeding: nothing more can arrive.
    let second = client.receive_terminal_output(terminal).unwrap();
    assert!(second.is_none());
}

#[test]
fn two_terminals_on_one_session_are_listed_distinctly() {
    let mut client = SshClient::new();
    let session = client.create_connection(config()).unwrap();
    let t1 = client.create_terminal_session(session).unwrap();
    let t2 = client.create_terminal_session(session).unwrap();
    assert_ne!(t1, t2);
    let listed = client.list_terminal_sessions();
    assert_eq!(listed.len(), 2);
    assert_ne!(listed[0].id, listed[1].id);
    assert_eq!(listed[0].ssh_session_id, session);
    assert_eq!(listed[1].ssh_session_id, session);
    assert!(listed[0].is_active);
    assert!(listed[1].is_active);
}

#[test]
fn terminal_creation_requires_an_existing_session() {
    let mut client = SshClient::new();
    assert!(matches!(
        client.create_terminal_session(31337),
        Err(SshError::SessionNotFound(31337))
    ));
}

#[test]
fn terminal_lookups_on_unknown_identifier_fail() {
    let mut client = SshClient::new();
    assert!(matches!(
        client.get_terminal_session(5),
        Err(SshError::SessionNotFound(5))
    ));
    assert!(matches!(
        client.receive_terminal_output(5),
        Err(SshError::SessionNotFound(5))
    ));
    assert!(matches!(
        client.send_terminal_input(5, "ls\n".to_string()),
        Err(SshError::SessionNotFound(5))
    ));
    assert!(matches!(
        client.resize_terminal(5, 80, 24),
        Err(SshError::SessionNotFound(5))
    ));
}

#[test]
fn close_removes_the_terminal_and_repeats_harmlessly() {
    let mut client = SshClient::new();
    let session = client.create_connection(config()).unwrap();
    let terminal = client.create_terminal_session(session).unwrap();
    assert!(client.get_terminal_session(terminal).is_ok());
    assert!(client.close_terminal_session(terminal).is_ok());
    assert!(matches!(
        client.get_terminal_session(terminal),
        Err(SshError::SessionNotFound(x)) if x == terminal
    ));
    // Try-and-ignore-absence: a repeated close is a harmless no-op.
    assert!(client.close_terminal_session(terminal).is_ok());
    assert!(client.close_terminal_session(987654).is_ok());
}

#[test]
fn send_input_is_accepted_without_producing_output() {
    let mut client = SshClient::new();
    let session = client.create_connection(config()).unwrap();
    let terminal = client.create_terminal_session(session).unwrap();
    assert!(client.send_terminal_input(terminal, "echo hi\n".to_string()).is_ok());
    // Input is accepted, not executed: the queue still holds only the greeting.
    let first = client.receive_terminal_output(terminal).unwrap();
    assert!(first.unwrap().data.ends_with("$ "));
    let second = client.receive_terminal_output(terminal).unwrap();
    assert!(second.is_none());
}

#[test]
fn resize_succeeds_without_observable_change() {
    let mut client = SshClient::new();
    let session = client.create_connection(config()).unwrap();
    let terminal = client.create_terminal_session(session).unwrap();
    assert!(client.resize_terminal(terminal, 120, 40).is_ok());
    let info = client.get_terminal_session(terminal).unwrap();
    assert_eq!(info.id, terminal);
    assert!(info.is_active);
}

#[test]
fn terminal_record_binds_the_owning_session() {
    let mut client = SshClient::new();
    let session = client.create_connection(config()).unwrap();
    let terminal = client.create_terminal_session(session).unwrap();
    let info = client.get_terminal_session(terminal).unwrap();
    assert_eq!(info.id, terminal);
    assert_eq!(info.ssh_session_id, session);
    assert!(info.is_active);
}

#[test]
fn terminal_identifiers_are_never_reused() {
    let mut client = SshClient::new();
    let session = client.create_connection(config()).unwrap();
    let t1 = client.create_terminal_session(session).unwrap();
    client.close_terminal_session(t1).unwrap();
    let t2 = client.create_terminal_session(session).unwrap();
    assert_ne!(t1, t2);
}
