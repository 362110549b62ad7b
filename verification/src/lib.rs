//! Verified core of a concurrent remote-shell session manager.
//!
//! The library owns the session registry, the terminal multiplexer and the
//! facade composing the two. Network I/O (the transport handshake, command
//! channels) happens outside the library and is reported back as plain
//! events; every state transition and every lookup decision is verified.

pub mod client;
mod clock;
pub mod session;
pub mod terminal;
pub mod text;
pub mod types;

pub use client::SshClient;
pub use session::ChannelOutcome;
pub use session::HandshakeEvent;
pub use session::SshSession;
pub use session::SshSessionManager;
pub use terminal::TerminalManager;
pub use terminal::TerminalSessionData;
pub use types::AuthMethod;
pub use types::CommandResult;
pub use types::ConnectionStatus;
pub use types::SshConfig;
pub use types::SshError;
pub use types::SshSessionInfo;
pub use types::TerminalData;
pub use types::TerminalSession;
