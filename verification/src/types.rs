//! Shared data model: connection configuration, statuses, results and the
//! error taxonomy of the session manager.

use vstd::prelude::*;
use vstd::string::StringExecFns;

use crate::text::decimal_seq;
use crate::text::push_decimal;

verus! {

/// How a session authenticates against the remote host.
#[derive(Debug)]
pub enum AuthMethod {
    /// Submit the username together with this secret.
    Password(String),
    /// Load a private key from a file, optionally decrypting it.
    PublicKey { private_key_path: String, passphrase: Option<String> },
    /// Delegate to a key agent; deliberately unsupported, every attempt fails.
    Agent,
}

/// Connection settings a session is created from; immutable afterwards.
#[derive(Debug)]
pub struct SshConfig {
    pub host: String,
    pub port: u16,
    pub username: String,
    pub auth_method: AuthMethod,
    /// Inactivity timeout for the handshake, in seconds.
    pub timeout: Option<u64>,
}

/// Lifecycle state of a session's transport connection.
#[derive(Debug)]
pub enum ConnectionStatus {
    Disconnected,
    Connecting,
    Connected,
    Failed(String),
}

/// Snapshot of one session, as handed to callers.
#[derive(Debug)]
pub struct SshSessionInfo {
    pub id: u64,
    pub config: SshConfig,
    pub status: ConnectionStatus,
    /// Seconds since the epoch at which the session last connected.
    pub connected_at: Option<i64>,
}

/// Captured outcome of a one-shot command execution; never partial.
#[derive(Debug)]
pub struct CommandResult {
    pub exit_code: u32,
    pub stdout: String,
    pub stderr: String,
}

/// Record of one interactive terminal channel.
#[derive(Debug)]
pub struct TerminalSession {
    pub id: u64,
    /// Owning session, validated to exist at creation time only.
    pub ssh_session_id: u64,
    /// Seconds since the epoch at creation time.
    pub created_at: i64,
    pub is_active: bool,
}

/// One unit of terminal output, delivered through a per-terminal queue.
#[derive(Debug)]
pub struct TerminalData {
    /// The terminal this unit belongs to.
    pub session_id: u64,
    pub data: String,
    /// Seconds since the epoch at which the unit was produced.
    pub timestamp: i64,
}

/// Closed error taxonomy; every failure is returned as a value.
#[derive(Debug)]
pub enum SshError {
    ConnectionFailed(String),
    AuthenticationFailed(String),
    CommandFailed(String),
    TransferFailed(String),
    SessionNotFound(u64),
    IoError(String),
    ProtocolError(String),
}

impl SshError {
    /// The human-readable message carried by this error value.
    pub open spec fn message_seq(self) -> Seq<char> {
        match self {
            SshError::ConnectionFailed(m) => "Connection failed: "@ + m@,
            SshError::AuthenticationFailed(m) => "Authentication failed: "@ + m@,
            SshError::CommandFailed(m) => "Command execution failed: "@ + m@,
            SshError::TransferFailed(m) => "File transfer failed: "@ + m@,
            SshError::SessionNotFound(id) => "Session not found: "@ + decimal_seq(id as nat),
            SshError::IoError(m) => "IO error: "@ + m@,
            SshError::ProtocolError(m) => "SSH error: "@ + m@,
        }
    }

    /// Render the human-readable message shown to the external caller.
    pub fn message(&self) -> (r: String)
        ensures
            r@ == self.message_seq(),
    {
        let mut s: String;
        match self {
            SshError::ConnectionFailed(m) => {
                s = "Connection failed: ".to_owned();
                s.append(m.as_str());
            },
            SshError::AuthenticationFailed(m) => {
                s = "Authentication failed: ".to_owned();
                s.append(m.as_str());
            },
            SshError::CommandFailed(m) => {
                s = "Command execution failed: ".to_owned();
                s.append(m.as_str());
            },
            SshError::TransferFailed(m) => {
                s = "File transfer failed: ".to_owned();
                s.append(m.as_str());
            },
            SshError::SessionNotFound(id) => {
                s = "Session not found: ".to_owned();
                push_decimal(&mut s, *id);
            },
            SshError::IoError(m) => {
                s = "IO error: ".to_owned();
                s.append(m.as_str());
            },
            SshError::ProtocolError(m) => {
                s = "SSH error: ".to_owned();
                s.append(m.as_str());
            },
        }
        s
    }
}

impl Clone for AuthMethod {
    fn clone(&self) -> (r: Self)
        ensures
            r == *self,
    {
        match self {
            AuthMethod::Password(secret) => AuthMethod::Password(secret.clone()),
            AuthMethod::PublicKey { private_key_path, passphrase } => AuthMethod::PublicKey {
                private_key_path: private_key_path.clone(),
                passphrase: match passphrase {
                    Some(p) => Some(p.clone()),
                    None => None,
                },
            },
            AuthMethod::Agent => AuthMethod::Agent,
        }
    }
}

impl Clone for SshConfig {
    fn clone(&self) -> (r: Self)
        ensures
            r == *self,
    {
        SshConfig {
            host: self.host.clone(),
            port: self.port,
            username: self.username.clone(),
            auth_method: self.auth_method.clone(),
            timeout: self.timeout,
        }
    }
}

impl Clone for ConnectionStatus {
    fn clone(&self) -> (r: Self)
        ensures
            r == *self,
    {
        match self {
            ConnectionStatus::Disconnected => ConnectionStatus::Disconnected,
            ConnectionStatus::Connecting => ConnectionStatus::Connecting,
            ConnectionStatus::Connected => ConnectionStatus::Connected,
            ConnectionStatus::Failed(reason) => ConnectionStatus::Failed(reason.clone()),
        }
    }
}

impl Clone for SshSessionInfo {
    fn clone(&self) -> (r: Self)
        ensures
            r == *self,
    {
        SshSessionInfo {
            id: self.id,
            config: self.config.clone(),
            status: self.status.clone(),
            connected_at: self.connected_at,
        }
    }
}

impl Clone for CommandResult {
    fn clone(&self) -> (r: Self)
        ensures
            r == *self,
    {
        CommandResult {
            exit_code: self.exit_code,
            stdout: self.stdout.clone(),
            stderr: self.stderr.clone(),
        }
    }
}

impl Clone for TerminalSession {
    fn clone(&self) -> (r: Self)
        ensures
            r == *self,
    {
        TerminalSession {
            id: self.id,
            ssh_session_id: self.ssh_session_id,
            created_at: self.created_at,
            is_active: self.is_active,
        }
    }
}

impl Clone for TerminalData {
    fn clone(&self) -> (r: Self)
        ensures
            r == *self,
    {
        TerminalData {
            session_id: self.session_id,
            data: self.data.clone(),
            timestamp: self.timestamp,
        }
    }
}

impl Clone for SshError {
    fn clone(&self) -> (r: Self)
        ensures
            r == *self,
    {
        match self {
            SshError::ConnectionFailed(m) => SshError::ConnectionFailed(m.clone()),
            SshError::AuthenticationFailed(m) => SshError::AuthenticationFailed(m.clone()),
            SshError::CommandFailed(m) => SshError::CommandFailed(m.clone()),
            SshError::TransferFailed(m) => SshError::TransferFailed(m.clone()),
            SshError::SessionNotFound(id) => SshError::SessionNotFound(*id),
            SshError::IoError(m) => SshError::IoError(m.clone()),
            SshError::ProtocolError(m) => SshError::ProtocolError(m.clone()),
        }
    }
}

} // verus!
