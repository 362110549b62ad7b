//! The facade composing the session registry and the terminal multiplexer:
//! the single entry point external callers consume. Every operation takes
//! plain data and returns a value or a tagged failure; nothing is thrown
//! across the boundary.

use vstd::prelude::*;

use crate::clock::now_ts;
use crate::session::ChannelOutcome;
use crate::session::HandshakeEvent;
use crate::session::SshSessionManager;
use crate::session::connect_succeeds;
use crate::session::connect_transition;
use crate::session::connecting_of;
use crate::session::disconnected_of;
use crate::session::execute_transition;
use crate::terminal::TerminalManager;
use crate::terminal::greeting_seq;
use crate::types::CommandResult;
use crate::types::SshError;
use crate::types::SshSessionInfo;
use crate::types::TerminalData;
use crate::types::TerminalSession;
use crate::types::SshConfig;

verus! {

/// The facade over both registries.
pub struct SshClient {
    pub session_manager: SshSessionManager,
    pub terminal_manager: TerminalManager,
}

impl SshClient {
    /// Both registries are well formed.
    pub open spec fn wf(self) -> bool {
        &&& self.session_manager.wf()
        &&& self.terminal_manager.wf()
    }

    /// A fresh facade with empty registries.
    pub fn new() -> (r: Self)
        ensures
            r.wf(),
            r.session_manager.sessions@.len() == 0,
            r.session_manager.issued@ == Set::<u64>::empty(),
            r.terminal_manager.terminals@.len() == 0,
            r.terminal_manager.issued@ == Set::<u64>::empty(),
    {
        SshClient { session_manager: SshSessionManager::new(), terminal_manager: TerminalManager::new() }
    }

    /// The session registry behind the facade.
    pub fn session_manager(&self) -> (r: &SshSessionManager)
        ensures
            r == &self.session_manager,
    {
        &self.session_manager
    }

    /// Create a new session from this configuration; returns its fresh
    /// identifier and never fails.
    pub fn create_connection(&mut self, config: SshConfig) -> (r: Result<u64, SshError>)
        requires
            old(self).wf(),
            old(self).session_manager.next_id < u64::MAX,
        ensures
            final(self).wf(),
            final(self).terminal_manager == old(self).terminal_manager,
            r is Ok,
            r->Ok_0 == old(self).session_manager.next_id,
            !old(self).session_manager.issued@.contains(r->Ok_0),
            final(self).session_manager.issued@ == old(self).session_manager.issued@.insert(
                r->Ok_0,
            ),
            final(self).session_manager.has_session(r->Ok_0),
            final(self).session_manager.session_spec(r->Ok_0).config == config,
            final(self).session_manager.session_spec(r->Ok_0).status is Disconnected,
            !final(self).session_manager.session_spec(r->Ok_0).has_handle,
            final(self).session_manager.session_spec(r->Ok_0).connected_at is None,
            forall|other: u64|
                other != r->Ok_0 ==> (final(self).session_manager.has_session(other) <==> old(self).session_manager.has_session(other)),
            forall|other: u64|
                other != r->Ok_0 && old(self).session_manager.has_session(other) ==> final(self).session_manager.session_spec(other) == old(self).session_manager.session_spec(
                    other,
                ),
    {
        self.session_manager.create_session(config)
    }

    /// Enter the session's handshake: it becomes visibly `Connecting` and
    /// the configuration to connect with is handed back. Whoever runs the
    /// transport I/O commits its outcome afterwards through `connect`.
    pub fn begin_connect(&mut self, session_id: u64) -> (r: Result<SshConfig, SshError>)
        requires
            old(self).wf(),
        ensures
            final(self).wf(),
            final(self).terminal_manager == old(self).terminal_manager,
            final(self).session_manager.issued@ == old(self).session_manager.issued@,
            final(self).session_manager.next_id == old(self).session_manager.next_id,
            forall|other: u64|
                final(self).session_manager.has_session(other) <==> old(self).session_manager.has_session(other),
            r is Ok <==> old(self).session_manager.has_session(session_id),
            !old(self).session_manager.has_session(session_id) ==> *final(self) == *old(self) && {
                &&& r matches Err(SshError::SessionNotFound(x)) && x == session_id
            },
            old(self).session_manager.has_session(session_id) ==> {
                &&& r matches Ok(cfg) && cfg == old(self).session_manager.session_spec(
                    session_id,
                ).config
                &&& final(self).session_manager.session_spec(session_id) == connecting_of(
                    old(self).session_manager.session_spec(session_id),
                )
            },
            forall|other: u64|
                other != session_id && old(self).session_manager.has_session(other)
                    ==> final(self).session_manager.session_spec(other) == old(self).session_manager.session_spec(other),
    {
        self.session_manager.begin_connect(session_id)
    }

    /// Establish the session's connection by applying the reported handshake
    /// outcome, timestamping it with the current wall-clock time.
    pub fn connect(&mut self, session_id: u64, event: HandshakeEvent) -> (r: Result<(), SshError>)
        requires
            old(self).wf(),
        ensures
            final(self).wf(),
            final(self).terminal_manager == old(self).terminal_manager,
            final(self).session_manager.issued@ == old(self).session_manager.issued@,
            final(self).session_manager.next_id == old(self).session_manager.next_id,
            forall|other: u64|
                final(self).session_manager.has_session(other) <==> old(self).session_manager.has_session(other),
            !old(self).session_manager.has_session(session_id) ==> *final(self) == *old(self) && {
                &&& r matches Err(SshError::SessionNotFound(x)) && x == session_id
            },
            old(self).session_manager.has_session(session_id) ==> {
                let pre = old(self).session_manager.session_spec(session_id);
                let post = final(self).session_manager.session_spec(session_id);
                &&& exists|now: i64| connect_transition(pre, post, event, now, r)
                &&& (r is Ok <==> connect_succeeds(pre.config.auth_method, event))
                &&& (r is Ok ==> post.status is Connected && post.has_handle
                    && post.connected_at is Some)
                &&& (!(r is Ok) ==> post.status is Failed && !post.has_handle
                    && post.connected_at is None)
            },
            forall|other: u64|
                other != session_id && old(self).session_manager.has_session(other)
                    ==> final(self).session_manager.session_spec(other) == old(self).session_manager.session_spec(other),
    {
        let now = now_ts();
        let r = self.session_manager.connect(session_id, event, now);
        proof {
            if old(self).session_manager.has_session(session_id) {
                let pre = old(self).session_manager.session_spec(session_id);
                let post = self.session_manager.session_spec(session_id);
                assert(connect_transition(pre, post, event, now, r));
            }
        }
        r
    }

    /// Disconnect the session; succeeds on any stored session, also one that
    /// is already disconnected.
    pub fn disconnect(&mut self, session_id: u64) -> (r: Result<(), SshError>)
        requires
            old(self).wf(),
        ensures
            final(self).wf(),
            final(self).terminal_manager == old(self).terminal_manager,
            final(self).session_manager.issued@ == old(self).session_manager.issued@,
            final(self).session_manager.next_id == old(self).session_manager.next_id,
            forall|other: u64|
                final(self).session_manager.has_session(other) <==> old(self).session_manager.has_session(other),
            r is Ok <==> old(self).session_manager.has_session(session_id),
            !old(self).session_manager.has_session(session_id) ==> *final(self) == *old(self) && {
                &&& r matches Err(SshError::SessionNotFound(x)) && x == session_id
            },
            old(self).session_manager.has_session(session_id) ==> final(self).session_manager.session_spec(session_id) == disconnected_of(
                old(self).session_manager.session_spec(session_id),
            ),
            forall|other: u64|
                other != session_id && old(self).session_manager.has_session(other)
                    ==> final(self).session_manager.session_spec(other) == old(self).session_manager.session_spec(other),
    {
        self.session_manager.disconnect(session_id)
    }

    /// Execute one command on the session, given the outcome of opening the
    /// remote channel.
    pub fn execute_command(&self, session_id: u64, command: &str, channel: ChannelOutcome) -> (r:
        Result<CommandResult, SshError>)
        requires
            self.wf(),
        ensures
            !self.session_manager.has_session(session_id) ==> {
                &&& r matches Err(SshError::SessionNotFound(x)) && x == session_id
            },
            self.session_manager.has_session(session_id) ==> execute_transition(
                self.session_manager.session_spec(session_id),
                channel,
                r,
            ),
    {
        self.session_manager.execute_command(session_id, command, channel)
    }

    /// A snapshot of the session stored under this identifier.
    pub fn get_session_info(&self, session_id: u64) -> (r: Result<SshSessionInfo, SshError>)
        requires
            self.wf(),
        ensures
            !self.session_manager.has_session(session_id) ==> {
                &&& r matches Err(SshError::SessionNotFound(x)) && x == session_id
            },
            self.session_manager.has_session(session_id) ==> {
                &&& r matches Ok(info) && info == self.session_manager.session_spec(
                    session_id,
                ).info_spec()
            },
    {
        self.session_manager.get_session_info(session_id)
    }

    /// Snapshots of all sessions, in registry order.
    pub fn list_sessions(&self) -> (r: Vec<SshSessionInfo>)
        ensures
            r@.len() == self.session_manager.sessions@.len(),
            forall|i: int|
                0 <= i < r@.len() ==> r@[i] == (#[trigger] self.session_manager.sessions@[i]).info_spec(),
    {
        self.session_manager.list_sessions()
    }

    /// Remove the session, disconnecting it first and swallowing any
    /// disconnection error; a no-op success when the identifier is unknown.
    pub fn remove_session(&mut self, session_id: u64) -> (r: Result<(), SshError>)
        requires
            old(self).wf(),
        ensures
            final(self).wf(),
            r is Ok,
            final(self).terminal_manager == old(self).terminal_manager,
            final(self).session_manager.issued@ == old(self).session_manager.issued@,
            final(self).session_manager.next_id == old(self).session_manager.next_id,
            !final(self).session_manager.has_session(session_id),
            forall|other: u64|
                other != session_id ==> (final(self).session_manager.has_session(other) <==> old(self).session_manager.has_session(other)),
            forall|other: u64|
                other != session_id && old(self).session_manager.has_session(other)
                    ==> final(self).session_manager.session_spec(other) == old(self).session_manager.session_spec(other),
    {
        self.session_manager.remove_session(session_id)
    }

    /// Create a terminal bound to the owning session, after validating that
    /// the session exists; its queue starts with the "session ready" unit.
    pub fn create_terminal_session(&mut self, ssh_session_id: u64) -> (r: Result<u64, SshError>)
        requires
            old(self).wf(),
            old(self).terminal_manager.next_id < u64::MAX,
        ensures
            final(self).wf(),
            final(self).session_manager == old(self).session_manager,
            r is Ok <==> old(self).session_manager.has_session(ssh_session_id),
            !old(self).session_manager.has_session(ssh_session_id) ==> *final(self) == *old(self)
                && {
                &&& r matches Err(SshError::SessionNotFound(x)) && x == ssh_session_id
            },
            old(self).session_manager.has_session(ssh_session_id) ==> {
                let id = r->Ok_0;
                let entry = final(self).terminal_manager.terminal_spec(id);
                &&& id == old(self).terminal_manager.next_id
                &&& !old(self).terminal_manager.issued@.contains(id)
                &&& final(self).terminal_manager.issued@ == old(self).terminal_manager.issued@.insert(id)
                &&& final(self).terminal_manager.has_terminal(id)
                &&& entry.info.id == id
                &&& entry.info.ssh_session_id == ssh_session_id
                &&& entry.info.is_active
                &&& entry.queue@.len() == 1
                &&& entry.queue@[0].session_id == id
                &&& entry.queue@[0].data@ == greeting_seq(id)
                &&& forall|other: u64|
                    other != id ==> (final(self).terminal_manager.has_terminal(other) <==> old(self).terminal_manager.has_terminal(other))
                &&& forall|other: u64|
                    other != id && old(self).terminal_manager.has_terminal(other)
                        ==> final(self).terminal_manager.terminal_spec(other) == old(self).terminal_manager.terminal_spec(other)
            },
    {
        match self.session_manager.get_session_info(ssh_session_id) {
            Ok(_) => {},
            Err(e) => {
                return Err(e);
            },
        }
        let now = now_ts();
        self.terminal_manager.create_terminal_session(ssh_session_id, now)
    }

    /// Accept one unit of terminal input; accepted without error is all that
    /// is promised, the baseline design does not forward it remotely.
    pub fn send_terminal_input(&self, terminal_id: u64, input: String) -> (r: Result<(), SshError>)
        requires
            self.wf(),
        ensures
            r is Ok <==> self.terminal_manager.has_terminal(terminal_id),
            !self.terminal_manager.has_terminal(terminal_id) ==> {
                &&& r matches Err(SshError::SessionNotFound(x)) && x == terminal_id
            },
    {
        self.terminal_manager.send_input(terminal_id, input)
    }

    /// Deliver the next pending output unit of the terminal, if any.
    pub fn receive_terminal_output(&mut self, terminal_id: u64) -> (r: Result<
        Option<TerminalData>,
        SshError,
    >)
        requires
            old(self).wf(),
        ensures
            final(self).wf(),
            final(self).session_manager == old(self).session_manager,
            final(self).terminal_manager.issued@ == old(self).terminal_manager.issued@,
            forall|other: u64|
                final(self).terminal_manager.has_terminal(other) <==> old(self).terminal_manager.has_terminal(other),
            !old(self).terminal_manager.has_terminal(terminal_id) ==> *final(self) == *old(self)
                && {
                &&& r matches Err(SshError::SessionNotFound(x)) && x == terminal_id
            },
            old(self).terminal_manager.has_terminal(terminal_id) ==> {
                let pre_entry = old(self).terminal_manager.terminal_spec(terminal_id);
                let post_entry = final(self).terminal_manager.terminal_spec(terminal_id);
                &&& post_entry.info == pre_entry.info
                &&& if pre_entry.queue@.len() == 0 {
                    &&& r matches Ok(d) && d is None
                    &&& post_entry.queue@ == pre_entry.queue@
                } else {
                    &&& r matches Ok(d) && d == Some(pre_entry.queue@[0])
                    &&& post_entry.queue@ == pre_entry.queue@.drop_first()
                }
            },
            forall|other: u64|
                other != terminal_id && old(self).terminal_manager.has_terminal(other)
                    ==> final(self).terminal_manager.terminal_spec(other) == old(self).terminal_manager.terminal_spec(other),
    {
        self.terminal_manager.receive_output(terminal_id)
    }

    /// Close the terminal; a harmless no-op when the identifier is unknown.
    pub fn close_terminal_session(&mut self, terminal_id: u64) -> (r: Result<(), SshError>)
        requires
            old(self).wf(),
        ensures
            final(self).wf(),
            r is Ok,
            final(self).session_manager == old(self).session_manager,
            final(self).terminal_manager.issued@ == old(self).terminal_manager.issued@,
            !final(self).terminal_manager.has_terminal(terminal_id),
            forall|other: u64|
                other != terminal_id ==> (final(self).terminal_manager.has_terminal(other) <==> old(self).terminal_manager.has_terminal(other)),
            forall|other: u64|
                other != terminal_id && old(self).terminal_manager.has_terminal(other)
                    ==> final(self).terminal_manager.terminal_spec(other) == old(self).terminal_manager.terminal_spec(other),
    {
        self.terminal_manager.close_terminal_session(terminal_id)
    }

    /// A snapshot of the terminal stored under this identifier.
    pub fn get_terminal_session(&self, terminal_id: u64) -> (r: Result<TerminalSession, SshError>)
        requires
            self.wf(),
        ensures
            !self.terminal_manager.has_terminal(terminal_id) ==> {
                &&& r matches Err(SshError::SessionNotFound(x)) && x == terminal_id
            },
            self.terminal_manager.has_terminal(terminal_id) ==> {
                &&& r matches Ok(info) && info == self.terminal_manager.terminal_spec(
                    terminal_id,
                ).info
            },
    {
        self.terminal_manager.get_terminal_session(terminal_id)
    }

    /// Snapshots of all terminals, in registry order.
    pub fn list_terminal_sessions(&self) -> (r: Vec<TerminalSession>)
        ensures
            r@.len() == self.terminal_manager.terminals@.len(),
            forall|i: int|
                0 <= i < r@.len() ==> r@[i] == (#[trigger] self.terminal_manager.terminals@[i]).info,
    {
        self.terminal_manager.list_terminal_sessions()
    }

    /// Validate that the terminal exists; size propagation is a named
    /// extension point, so a successful resize changes nothing.
    pub fn resize_terminal(&self, terminal_id: u64, width: u32, height: u32) -> (r: Result<
        (),
        SshError,
    >)
        requires
            self.wf(),
        ensures
            r is Ok <==> self.terminal_manager.has_terminal(terminal_id),
            !self.terminal_manager.has_terminal(terminal_id) ==> {
                &&& r matches Err(SshError::SessionNotFound(x)) && x == terminal_id
            },
    {
        self.terminal_manager.resize_terminal(terminal_id, width, height)
    }
}

impl Default for SshClient {
    /// The default facade is a fresh one.
    fn default() -> (r: Self)
        ensures
            r.wf(),
            r.session_manager.sessions@.len() == 0,
            r.terminal_manager.terminals@.len() == 0,
    {
        SshClient::new()
    }
}

} // verus!
