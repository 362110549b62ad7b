//! The session registry: it owns every session record, serializes lifecycle
//! transitions per session, and keeps session identifiers unique for the
//! lifetime of the process.
//!
//! The transport handshake and the command channel live outside the library;
//! their outcomes arrive as [`HandshakeEvent`] and [`ChannelOutcome`] values,
//! and every transition taken on such an outcome is verified here.

use vstd::prelude::*;

use crate::types::AuthMethod;
use crate::types::CommandResult;
use crate::types::ConnectionStatus;
use crate::types::SshConfig;
use crate::types::SshError;
use crate::types::SshSessionInfo;

verus! {

/// Outcome of one attempted transport handshake, reported by whoever ran it.
#[derive(Debug)]
pub enum HandshakeEvent {
    /// The transport-layer connection to (host, port) could not be opened.
    TransportFailed(String),
    /// Credentials could not be submitted, or a key could not be decoded.
    AuthFailed(String),
    /// The server answered the authentication attempt with anything but success.
    AuthDenied,
    /// Transport open and authentication both succeeded.
    Established,
}

/// Outcome of opening a remote execution channel for one command.
#[derive(Debug)]
pub enum ChannelOutcome {
    Opened,
    OpenFailed(String),
}

/// One session: an authenticated connection to a remote host with its own
/// lifecycle, independent of any command or terminal.
#[derive(Debug)]
pub struct SshSession {
    pub id: u64,
    pub config: SshConfig,
    pub status: ConnectionStatus,
    /// Whether a live transport handle is held; the handle itself lives with
    /// the caller that runs the I/O.
    pub has_handle: bool,
    /// Seconds since the epoch at which the session connected.
    pub connected_at: Option<i64>,
}

/// Message carried when the agent authentication method is invoked.
pub open spec fn agent_unsupported_msg() -> Seq<char> {
    "SSH Agent authentication not implemented yet"@
}

/// Message carried when the server denies the submitted credentials.
pub open spec fn auth_denied_msg() -> Seq<char> {
    "Authentication failed"@
}

/// Message carried when a command is executed on a session with no live handle.
pub open spec fn not_connected_msg() -> Seq<char> {
    "Not connected"@
}

/// Captured standard output of a successfully executed command.
pub open spec fn command_done_msg() -> Seq<char> {
    "Command executed"@
}

/// A handshake succeeds exactly when the transport and the authentication
/// both succeeded and the configured method is a supported one.
pub open spec fn connect_succeeds(auth: AuthMethod, event: HandshakeEvent) -> bool {
    &&& event is Established
    &&& !(auth is Agent)
}

/// The failure every agent-authentication attempt ends in.
pub open spec fn agent_failure(post: SshSession, r: Result<(), SshError>) -> bool {
    &&& r matches Err(SshError::AuthenticationFailed(e)) && e@ == agent_unsupported_msg()
    &&& post.status matches ConnectionStatus::Failed(f) && f@ == agent_unsupported_msg()
}

/// How one handshake outcome transforms a session and what the call returns.
///
/// The transport failure is reported first; behind an open transport, the
/// agent method fails unconditionally; otherwise the authentication outcome
/// decides.
pub open spec fn connect_transition(
    pre: SshSession,
    post: SshSession,
    event: HandshakeEvent,
    now: i64,
    r: Result<(), SshError>,
) -> bool {
    &&& post.id == pre.id
    &&& post.config == pre.config
    &&& (r is Ok <==> connect_succeeds(pre.config.auth_method, event))
    &&& (connect_succeeds(pre.config.auth_method, event) ==> post.status is Connected
        && post.has_handle && post.connected_at == Some(now))
    &&& (!connect_succeeds(pre.config.auth_method, event) ==> post.status is Failed
        && !post.has_handle && post.connected_at is None)
    &&& match event {
        HandshakeEvent::TransportFailed(m) => {
            &&& r matches Err(SshError::ConnectionFailed(e)) && e@ == m@
            &&& post.status matches ConnectionStatus::Failed(f) && f@ == m@
        },
        HandshakeEvent::AuthFailed(m) => if pre.config.auth_method is Agent {
            agent_failure(post, r)
        } else {
            &&& r matches Err(SshError::AuthenticationFailed(e)) && e@ == m@
            &&& post.status matches ConnectionStatus::Failed(f) && f@ == m@
        },
        HandshakeEvent::AuthDenied => if pre.config.auth_method is Agent {
            agent_failure(post, r)
        } else {
            &&& r matches Err(SshError::AuthenticationFailed(e)) && e@ == auth_denied_msg()
            &&& post.status matches ConnectionStatus::Failed(f) && f@ == auth_denied_msg()
        },
        HandshakeEvent::Established => if pre.config.auth_method is Agent {
            agent_failure(post, r)
        } else {
            r is Ok
        },
    }
}

/// The session as entering the handshake leaves it: mid-transition, with no
/// live handle and no timestamp yet.
pub open spec fn connecting_of(pre: SshSession) -> SshSession {
    SshSession {
        id: pre.id,
        config: pre.config,
        status: ConnectionStatus::Connecting,
        has_handle: false,
        connected_at: None,
    }
}

/// The session as an explicit disconnect leaves it.
pub open spec fn disconnected_of(pre: SshSession) -> SshSession {
    SshSession {
        id: pre.id,
        config: pre.config,
        status: ConnectionStatus::Disconnected,
        has_handle: false,
        connected_at: None,
    }
}

/// A command execution succeeds exactly when the session is connected and the
/// remote channel opened.
pub open spec fn execute_succeeds(s: SshSession, channel: ChannelOutcome) -> bool {
    &&& s.status is Connected
    &&& channel is Opened
}

/// What executing one command on a session returns, given the channel outcome.
pub open spec fn execute_transition(
    s: SshSession,
    channel: ChannelOutcome,
    r: Result<CommandResult, SshError>,
) -> bool {
    &&& (r is Ok <==> execute_succeeds(s, channel))
    &&& (!(s.status is Connected) ==> {
        &&& r matches Err(SshError::CommandFailed(e)) && e@ == not_connected_msg()
    })
    &&& (s.status is Connected ==> match channel {
        ChannelOutcome::Opened => r matches Ok(cr) && cr.exit_code == 0
            && cr.stdout@ == command_done_msg() && cr.stderr@ == Seq::<char>::empty(),
        ChannelOutcome::OpenFailed(m) => r matches Err(SshError::CommandFailed(e)) && e@ == m@,
    })
}

impl SshSession {
    /// A session holds a live handle, and a connected-timestamp, exactly when
    /// its status is `Connected`.
    pub open spec fn wf(self) -> bool {
        &&& (self.has_handle <==> self.status is Connected)
        &&& (self.connected_at is Some <==> self.status is Connected)
    }

    /// The snapshot of this session that lookups hand out.
    pub open spec fn info_spec(self) -> SshSessionInfo {
        SshSessionInfo {
            id: self.id,
            config: self.config,
            status: self.status,
            connected_at: self.connected_at,
        }
    }

    /// A new session starts disconnected, with no handle and no timestamp.
    pub fn new(id: u64, config: SshConfig) -> (r: Self)
        ensures
            r.id == id,
            r.config == config,
            r.status is Disconnected,
            !r.has_handle,
            r.connected_at is None,
            r.wf(),
    {
        SshSession {
            id,
            config,
            status: ConnectionStatus::Disconnected,
            has_handle: false,
            connected_at: None,
        }
    }

    /// Record a failed handshake: the prior handle is gone and the failure
    /// reason is retained.
    fn mark_failed(&mut self, reason: String)
        ensures
            final(self).id == old(self).id,
            final(self).config == old(self).config,
            final(self).status matches ConnectionStatus::Failed(f) && f@ == reason@,
            !final(self).has_handle,
            final(self).connected_at is None,
            final(self).wf(),
    {
        self.status = ConnectionStatus::Failed(reason);
        self.has_handle = false;
        self.connected_at = None;
    }

    /// Enter the handshake: the session becomes `Connecting`, any prior
    /// handle is discarded, and the configuration to connect with is handed
    /// back for whoever runs the transport I/O.
    pub fn begin_connect(&mut self) -> (r: SshConfig)
        ensures
            *final(self) == connecting_of(*old(self)),
            r == old(self).config,
            final(self).wf(),
    {
        self.status = ConnectionStatus::Connecting;
        self.has_handle = false;
        self.connected_at = None;
        self.config.clone()
    }

    /// Apply the outcome of one handshake run at time `now`.
    ///
    /// Re-running the handshake on an already-connected session discards the
    /// prior handle and re-installs whatever the new outcome yields.
    pub fn connect(&mut self, event: HandshakeEvent, now: i64) -> (r: Result<(), SshError>)
        ensures
            connect_transition(*old(self), *final(self), event, now, r),
            final(self).wf(),
    {
        let is_agent = matches!(self.config.auth_method, AuthMethod::Agent);
        match event {
            HandshakeEvent::TransportFailed(m) => {
                let reason = m.clone();
                self.mark_failed(m);
                Err(SshError::ConnectionFailed(reason))
            },
            HandshakeEvent::AuthFailed(m) => {
                if is_agent {
                    self.fail_agent()
                } else {
                    let reason = m.clone();
                    self.mark_failed(m);
                    Err(SshError::AuthenticationFailed(reason))
                }
            },
            HandshakeEvent::AuthDenied => {
                if is_agent {
                    self.fail_agent()
                } else {
                    let msg: String = "Authentication failed".to_owned();
                    let reason = msg.clone();
                    self.mark_failed(msg);
                    Err(SshError::AuthenticationFailed(reason))
                }
            },
            HandshakeEvent::Established => {
                if is_agent {
                    self.fail_agent()
                } else {
                    self.status = ConnectionStatus::Connected;
                    self.has_handle = true;
                    self.connected_at = Some(now);
                    Ok(())
                }
            },
        }
    }

    /// The unconditional failure of an agent-authentication attempt.
    fn fail_agent(&mut self) -> (r: Result<(), SshError>)
        ensures
            final(self).id == old(self).id,
            final(self).config == old(self).config,
            agent_failure(*final(self), r),
            !final(self).has_handle,
            final(self).connected_at is None,
            final(self).wf(),
    {
        let msg: String = "SSH Agent authentication not implemented yet".to_owned();
        let reason = msg.clone();
        self.mark_failed(msg);
        Err(SshError::AuthenticationFailed(reason))
    }

    /// Drop the live handle, if any, and return to `Disconnected`. Never
    /// fails: network errors while closing are not surfaced.
    pub fn disconnect(&mut self) -> (r: Result<(), SshError>)
        ensures
            r is Ok,
            *final(self) == disconnected_of(*old(self)),
            final(self).wf(),
    {
        self.status = ConnectionStatus::Disconnected;
        self.has_handle = false;
        self.connected_at = None;
        Ok(())
    }

    /// Execute one command, given the outcome of opening its remote channel.
    pub fn execute_command(&self, _command: &str, channel: ChannelOutcome) -> (r: Result<
        CommandResult,
        SshError,
    >)
        requires
            self.wf(),
        ensures
            execute_transition(*self, channel, r),
    {
        if !self.has_handle {
            return Err(SshError::CommandFailed("Not connected".to_owned()));
        }
        match channel {
            ChannelOutcome::OpenFailed(m) => Err(SshError::CommandFailed(m)),
            ChannelOutcome::Opened => Ok(
                CommandResult {
                    exit_code: 0,
                    stdout: "Command executed".to_owned(),
                    stderr: String::new(),
                },
            ),
        }
    }

    /// A snapshot of this session's current state.
    pub fn get_info(&self) -> (r: SshSessionInfo)
        ensures
            r == self.info_spec(),
    {
        SshSessionInfo {
            id: self.id,
            config: self.config.clone(),
            status: self.status.clone(),
            connected_at: self.connected_at,
        }
    }
}

/// The registry owning every session, keyed by session identifier.
///
/// Identifiers are allocated from a strictly increasing counter, so no
/// identifier is ever issued twice; the ghost set `issued` records every
/// identifier handed out since the registry was created.
pub struct SshSessionManager {
    pub sessions: Vec<SshSession>,
    pub next_id: u64,
    pub issued: Ghost<Set<u64>>,
}

impl SshSessionManager {
    /// Registry invariant: stored identifiers are pairwise distinct, every
    /// stored identifier was issued, every issued identifier is below the
    /// allocation counter, and each stored session is well formed.
    pub open spec fn wf(self) -> bool {
        &&& forall|i: int, j: int|
            0 <= i < j < self.sessions@.len() ==> self.sessions@[i].id != self.sessions@[j].id
        &&& forall|i: int|
            0 <= i < self.sessions@.len() ==> self.issued@.contains(
                (#[trigger] self.sessions@[i]).id,
            )
        &&& forall|id: u64| self.issued@.contains(id) ==> id < self.next_id
        &&& forall|i: int| 0 <= i < self.sessions@.len() ==> (#[trigger] self.sessions@[i]).wf()
    }

    /// Whether a session with this identifier is currently stored.
    pub open spec fn has_session(self, id: u64) -> bool {
        exists|i: int| 0 <= i < self.sessions@.len() && (#[trigger] self.sessions@[i]).id == id
    }

    /// Position of the session with this identifier, where one is stored.
    pub open spec fn index_of(self, id: u64) -> int {
        choose|i: int| 0 <= i < self.sessions@.len() && (#[trigger] self.sessions@[i]).id == id
    }

    /// The session currently stored under this identifier.
    pub open spec fn session_spec(self, id: u64) -> SshSession {
        self.sessions@[self.index_of(id)]
    }

    /// With pairwise distinct identifiers, any witness position for an
    /// identifier is the position `index_of` picks.
    pub proof fn lemma_index_unique(self, i: int, id: u64)
        requires
            self.wf(),
            0 <= i < self.sessions@.len(),
            self.sessions@[i].id == id,
        ensures
            self.has_session(id),
            self.index_of(id) == i,
    {
        assert(self.has_session(id));
        let j = self.index_of(id);
        if i < j {
            assert(self.sessions@[i].id != self.sessions@[j].id);
        } else if j < i {
            assert(self.sessions@[j].id != self.sessions@[i].id);
        }
    }

    /// A well-formed registry stores nothing under an identifier it never
    /// issued: lookups on such an identifier always fail.
    pub proof fn lemma_unissued_absent(self, id: u64)
        requires
            self.wf(),
            !self.issued@.contains(id),
        ensures
            !self.has_session(id),
    {
        if self.has_session(id) {
            let i = self.index_of(id);
            assert(self.issued@.contains(self.sessions@[i].id));
        }
    }

    /// An empty registry that has issued no identifier yet.
    pub fn new() -> (r: Self)
        ensures
            r.wf(),
            r.sessions@.len() == 0,
            r.next_id == 0,
            r.issued@ == Set::<u64>::empty(),
    {
        SshSessionManager { sessions: Vec::new(), next_id: 0, issued: Ghost(Set::empty()) }
    }

    /// Position of the session with this identifier, if any.
    fn find_index(&self, id: u64) -> (r: Option<usize>)
        requires
            self.wf(),
        ensures
            match r {
                Some(i) => i < self.sessions@.len() && self.sessions@[i as int].id == id
                    && self.has_session(id) && self.index_of(id) == i,
                None => !self.has_session(id),
            },
    {
        let n = self.sessions.len();
        let mut i: usize = 0;
        while i < n
            invariant
                n == self.sessions@.len(),
                i <= n,
                self.wf(),
                forall|j: int| 0 <= j < i ==> (#[trigger] self.sessions@[j]).id != id,
            decreases n - i,
        {
            if self.sessions[i].id == id {
                proof {
                    self.lemma_index_unique(i as int, id);
                }
                return Some(i);
            }
            i = i + 1;
        }
        None
    }

    /// Allocate a fresh identifier, store a new disconnected session under it,
    /// and return the identifier. The identifier differs from every
    /// identifier issued before, including those of removed sessions.
    pub fn create_session(&mut self, config: SshConfig) -> (r: Result<u64, SshError>)
        requires
            old(self).wf(),
            old(self).next_id < u64::MAX,
        ensures
            final(self).wf(),
            r is Ok,
            r->Ok_0 == old(self).next_id,
            !old(self).issued@.contains(r->Ok_0),
            final(self).issued@ == old(self).issued@.insert(r->Ok_0),
            final(self).next_id == old(self).next_id + 1,
            final(self).sessions@ == old(self).sessions@.push(
                SshSession {
                    id: old(self).next_id,
                    config: config,
                    status: ConnectionStatus::Disconnected,
                    has_handle: false,
                    connected_at: None,
                },
            ),
            final(self).has_session(r->Ok_0),
            final(self).session_spec(r->Ok_0) == (SshSession {
                id: old(self).next_id,
                config: config,
                status: ConnectionStatus::Disconnected,
                has_handle: false,
                connected_at: None,
            }),
            forall|other: u64|
                other != r->Ok_0 ==> (final(self).has_session(other) <==> old(self).has_session(
                    other,
                )),
            forall|other: u64|
                other != r->Ok_0 && old(self).has_session(other) ==> final(self).session_spec(
                    other,
                ) == old(self).session_spec(other),
    {
        let id = self.next_id;
        self.next_id = self.next_id + 1;
        let session = SshSession::new(id, config);
        self.sessions.push(session);
        proof {
            self.issued@ = self.issued@.insert(id);
        }
        proof {
            let pre = *old(self);
            let n = pre.sessions@.len() as int;
            assert forall|i: int| 0 <= i < self.sessions@.len() implies self.issued@.contains(
                (#[trigger] self.sessions@[i]).id,
            ) by {
                if i < n {
                    assert(pre.issued@.contains(pre.sessions@[i].id));
                }
            }
            self.lemma_index_unique(n, id);
            assert forall|other: u64| other != id && pre.has_session(other) implies {
                &&& self.has_session(other)
                &&& self.session_spec(other) == pre.session_spec(other)
            } by {
                let i = pre.index_of(other);
                assert(self.sessions@[i].id == other);
                self.lemma_index_unique(i, other);
            }
            assert forall|other: u64| other != id && self.has_session(other) implies pre
                .has_session(other) by {
                let i = self.index_of(other);
                assert(pre.sessions@[i].id == other);
            }
        }
        Ok(id)
    }

    /// Look the session up and mark it `Connecting`, handing back the
    /// configuration for whoever runs the handshake I/O; fails with
    /// `SessionNotFound` when the identifier is not stored. The session
    /// stays visibly mid-transition until the outcome is applied with
    /// `connect`.
    pub fn begin_connect(&mut self, session_id: u64) -> (r: Result<SshConfig, SshError>)
        requires
            old(self).wf(),
        ensures
            final(self).wf(),
            final(self).next_id == old(self).next_id,
            final(self).issued@ == old(self).issued@,
            forall|other: u64| final(self).has_session(other) <==> old(self).has_session(other),
            r is Ok <==> old(self).has_session(session_id),
            !old(self).has_session(session_id) ==> *final(self) == *old(self) && {
                &&& r matches Err(SshError::SessionNotFound(x)) && x == session_id
            },
            old(self).has_session(session_id) ==> {
                &&& r matches Ok(cfg) && cfg == old(self).session_spec(session_id).config
                &&& final(self).session_spec(session_id) == connecting_of(
                    old(self).session_spec(session_id),
                )
            },
            forall|other: u64|
                other != session_id && old(self).has_session(other) ==> final(self).session_spec(
                    other,
                ) == old(self).session_spec(other),
    {
        let idx = match self.find_index(session_id) {
            Some(i) => i,
            None => {
                return Err(SshError::SessionNotFound(session_id));
            },
        };
        let ghost pre = *self;
        let session = &mut self.sessions[idx];
        let cfg = session.begin_connect();
        proof {
            self.lemma_frame_after_update(pre, idx as int, session_id);
        }
        Ok(cfg)
    }

    /// Look the session up and apply one handshake outcome to it; fails with
    /// `SessionNotFound` when the identifier is not stored. Sessions under
    /// other identifiers are untouched.
    pub fn connect(&mut self, session_id: u64, event: HandshakeEvent, now: i64) -> (r: Result<
        (),
        SshError,
    >)
        requires
            old(self).wf(),
        ensures
            final(self).wf(),
            final(self).next_id == old(self).next_id,
            final(self).issued@ == old(self).issued@,
            forall|other: u64| final(self).has_session(other) <==> old(self).has_session(other),
            !old(self).has_session(session_id) ==> *final(self) == *old(self) && {
                &&& r matches Err(SshError::SessionNotFound(x)) && x == session_id
            },
            old(self).has_session(session_id) ==> connect_transition(
                old(self).session_spec(session_id),
                final(self).session_spec(session_id),
                event,
                now,
                r,
            ),
            forall|other: u64|
                other != session_id && old(self).has_session(other) ==> final(self).session_spec(
                    other,
                ) == old(self).session_spec(other),
    {
        let idx = match self.find_index(session_id) {
            Some(i) => i,
            None => {
                return Err(SshError::SessionNotFound(session_id));
            },
        };
        let ghost pre = *self;
        let session = &mut self.sessions[idx];
        let r = session.connect(event, now);
        proof {
            self.lemma_frame_after_update(pre, idx as int, session_id);
        }
        r
    }

    /// Look the session up and disconnect it; fails with `SessionNotFound`
    /// when the identifier is not stored, and otherwise always succeeds,
    /// also on a session that is already disconnected.
    pub fn disconnect(&mut self, session_id: u64) -> (r: Result<(), SshError>)
        requires
            old(self).wf(),
        ensures
            final(self).wf(),
            final(self).next_id == old(self).next_id,
            final(self).issued@ == old(self).issued@,
            forall|other: u64| final(self).has_session(other) <==> old(self).has_session(other),
            r is Ok <==> old(self).has_session(session_id),
            !old(self).has_session(session_id) ==> *final(self) == *old(self) && {
                &&& r matches Err(SshError::SessionNotFound(x)) && x == session_id
            },
            old(self).has_session(session_id) ==> final(self).session_spec(session_id)
                == disconnected_of(old(self).session_spec(session_id)),
            forall|other: u64|
                other != session_id && old(self).has_session(other) ==> final(self).session_spec(
                    other,
                ) == old(self).session_spec(other),
    {
        let idx = match self.find_index(session_id) {
            Some(i) => i,
            None => {
                return Err(SshError::SessionNotFound(session_id));
            },
        };
        let ghost pre = *self;
        let session = &mut self.sessions[idx];
        let r = session.disconnect();
        proof {
            self.lemma_frame_after_update(pre, idx as int, session_id);
        }
        r
    }

    /// After an in-place update of the entry at a witness position, every
    /// lookup except the updated identifier is unchanged.
    proof fn lemma_frame_after_update(self, pre: Self, idx: int, session_id: u64)
        requires
            pre.wf(),
            0 <= idx < pre.sessions@.len(),
            pre.sessions@[idx].id == session_id,
            self.sessions@.len() == pre.sessions@.len(),
            self.sessions@[idx].id == session_id,
            self.sessions@[idx].wf(),
            forall|j: int|
                0 <= j < pre.sessions@.len() && j != idx ==> self.sessions@[j] == pre.sessions@[j],
            self.next_id == pre.next_id,
            self.issued@ == pre.issued@,
        ensures
            self.wf(),
            forall|other: u64| self.has_session(other) <==> pre.has_session(other),
            self.index_of(session_id) == idx,
            pre.index_of(session_id) == idx,
            self.session_spec(session_id) == self.sessions@[idx],
            pre.session_spec(session_id) == pre.sessions@[idx],
            forall|other: u64|
                other != session_id && pre.has_session(other) ==> self.session_spec(other)
                    == pre.session_spec(other),
    {
        assert forall|i: int, j: int| 0 <= i < j < self.sessions@.len() implies self.sessions@[i].id
            != self.sessions@[j].id by {
            assert(pre.sessions@[i].id == self.sessions@[i].id);
            assert(pre.sessions@[j].id == self.sessions@[j].id);
        }
        assert forall|i: int| 0 <= i < self.sessions@.len() implies self.issued@.contains(
            (#[trigger] self.sessions@[i]).id,
        ) && (#[trigger] self.sessions@[i]).wf() by {
            assert(pre.issued@.contains(pre.sessions@[i].id));
            assert(pre.sessions@[i].wf());
            if i != idx {
                assert(self.sessions@[i] == pre.sessions@[i]);
            }
        }
        self.lemma_index_unique(idx, session_id);
        pre.lemma_index_unique(idx as int, session_id);
        assert forall|other: u64| pre.has_session(other) implies self.has_session(other) by {
            let i = pre.index_of(other);
            assert(self.sessions@[i].id == other);
        }
        assert forall|other: u64| self.has_session(other) implies pre.has_session(other) by {
            let i = self.index_of(other);
            assert(pre.sessions@[i].id == other);
        }
        assert forall|other: u64|
            other != session_id && pre.has_session(other) implies self.session_spec(other)
            == pre.session_spec(other) by {
            let i = pre.index_of(other);
            assert(i != idx);
            assert(self.sessions@[i] == pre.sessions@[i]);
            self.lemma_index_unique(i, other);
        }
    }

    /// Execute one command on the session, given the outcome of opening the
    /// remote channel; fails with `SessionNotFound` when the identifier is
    /// not stored. Registry state is never changed by a command.
    pub fn execute_command(&self, session_id: u64, command: &str, channel: ChannelOutcome) -> (r:
        Result<CommandResult, SshError>)
        requires
            self.wf(),
        ensures
            !self.has_session(session_id) ==> {
                &&& r matches Err(SshError::SessionNotFound(x)) && x == session_id
            },
            self.has_session(session_id) ==> execute_transition(
                self.session_spec(session_id),
                channel,
                r,
            ),
    {
        let idx = match self.find_index(session_id) {
            Some(i) => i,
            None => {
                return Err(SshError::SessionNotFound(session_id));
            },
        };
        self.sessions[idx].execute_command(command, channel)
    }

    /// A snapshot of the session stored under this identifier; fails with
    /// `SessionNotFound` when the identifier is not stored.
    pub fn get_session_info(&self, session_id: u64) -> (r: Result<SshSessionInfo, SshError>)
        requires
            self.wf(),
        ensures
            !self.has_session(session_id) ==> {
                &&& r matches Err(SshError::SessionNotFound(x)) && x == session_id
            },
            self.has_session(session_id) ==> {
                &&& r matches Ok(info) && info == self.session_spec(session_id).info_spec()
            },
    {
        let idx = match self.find_index(session_id) {
            Some(i) => i,
            None => {
                return Err(SshError::SessionNotFound(session_id));
            },
        };
        Ok(self.sessions[idx].get_info())
    }

    /// Snapshots of all sessions, in registry order.
    pub fn list_sessions(&self) -> (r: Vec<SshSessionInfo>)
        ensures
            r@.len() == self.sessions@.len(),
            forall|i: int|
                0 <= i < r@.len() ==> r@[i] == (#[trigger] self.sessions@[i]).info_spec(),
    {
        let n = self.sessions.len();
        let mut infos: Vec<SshSessionInfo> = Vec::new();
        let mut i: usize = 0;
        while i < n
            invariant
                n == self.sessions@.len(),
                i <= n,
                infos@.len() == i,
                forall|j: int|
                    0 <= j < i ==> infos@[j] == (#[trigger] self.sessions@[j]).info_spec(),
            decreases n - i,
        {
            infos.push(self.sessions[i].get_info());
            i = i + 1;
        }
        infos
    }

    /// Remove the session stored under this identifier, disconnecting it
    /// first and swallowing any disconnection error. Succeeds also when no
    /// such session is stored; the identifier stays issued, so it is never
    /// reused.
    pub fn remove_session(&mut self, session_id: u64) -> (r: Result<(), SshError>)
        requires
            old(self).wf(),
        ensures
            final(self).wf(),
            r is Ok,
            final(self).next_id == old(self).next_id,
            final(self).issued@ == old(self).issued@,
            !final(self).has_session(session_id),
            !old(self).has_session(session_id) ==> *final(self) == *old(self),
            forall|other: u64|
                other != session_id ==> (final(self).has_session(other) <==> old(self).has_session(
                    other,
                )),
            forall|other: u64|
                other != session_id && old(self).has_session(other) ==> final(self).session_spec(
                    other,
                ) == old(self).session_spec(other),
    {
        let idx = match self.find_index(session_id) {
            Some(i) => i,
            None => {
                return Ok(());
            },
        };
        let ghost pre = *self;
        let mut removed = self.sessions.remove(idx);
        let _ = removed.disconnect();
        proof {
            let n = pre.sessions@.len() as int;
            assert forall|i: int, j: int| 0 <= i < j < self.sessions@.len() implies self.sessions@[
                i
            ].id != self.sessions@[j].id by {
                let pi: int = if i < idx { i } else { i + 1 };
                let pj: int = if j < idx { j } else { j + 1 };
                assert(self.sessions@[i] == pre.sessions@[pi]);
                assert(self.sessions@[j] == pre.sessions@[pj]);
            }
            assert forall|i: int| 0 <= i < self.sessions@.len() implies self.issued@.contains(
                (#[trigger] self.sessions@[i]).id,
            ) && (#[trigger] self.sessions@[i]).wf() by {
                let pi: int = if i < idx { i } else { i + 1 };
                assert(self.sessions@[i] == pre.sessions@[pi]);
                assert(pre.issued@.contains(pre.sessions@[pi].id));
            }
            if self.has_session(session_id) {
                let i = self.index_of(session_id);
                let pi: int = if i < idx { i } else { i + 1 };
                assert(pre.sessions@[pi] == self.sessions@[i]);
                pre.lemma_index_unique(pi, session_id);
                pre.lemma_index_unique(idx as int, session_id);
            }
            assert forall|other: u64|
                other != session_id && pre.has_session(other) implies self.has_session(other)
                && self.session_spec(other) == pre.session_spec(other) by {
                let i = pre.index_of(other);
                pre.lemma_index_unique(i, other);
                pre.lemma_index_unique(idx as int, session_id);
                let ni: int = if i < idx { i } else { i - 1 };
                assert(self.sessions@[ni] == pre.sessions@[i]);
                self.lemma_index_unique(ni, other);
            }
            assert forall|other: u64|
                other != session_id && self.has_session(other) implies pre.has_session(other) by {
                let i = self.index_of(other);
                let pi: int = if i < idx { i } else { i + 1 };
                assert(pre.sessions@[pi] == self.sessions@[i]);
            }
        }
        Ok(())
    }
}

/// Explicit disconnection is idempotent: disconnecting an already
/// disconnected session changes nothing further.
pub proof fn lemma_disconnect_idempotent(s: SshSession)
    ensures
        disconnected_of(disconnected_of(s)) == disconnected_of(s),
{
}

/// A well-formed session that is not connected holds neither a live handle
/// nor a connected-timestamp; commands on it are rejected.
pub proof fn lemma_not_connected_no_handle(s: SshSession)
    requires
        s.wf(),
        !(s.status is Connected),
    ensures
        !s.has_handle,
        s.connected_at is None,
{
}

/// A freshly created, never connected session rejects every command with the
/// not-connected failure, whatever the channel outcome.
pub proof fn lemma_disconnected_rejects_commands(
    s: SshSession,
    channel: ChannelOutcome,
    r: Result<CommandResult, SshError>,
)
    requires
        s.wf(),
        s.status is Disconnected,
        execute_transition(s, channel, r),
    ensures
        r matches Err(SshError::CommandFailed(e)) && e@ == not_connected_msg(),
{
}

/// On a connected session whose remote channel opens, command execution
/// succeeds: it no longer fails for the not-connected reason.
pub proof fn lemma_connected_executes(
    s: SshSession,
    channel: ChannelOutcome,
    r: Result<CommandResult, SshError>,
)
    requires
        s.wf(),
        s.status is Connected,
        channel is Opened,
        execute_transition(s, channel, r),
    ensures
        r is Ok,
{
}

impl Default for SshSessionManager {
    /// The default registry is a fresh, empty one.
    fn default() -> (r: Self)
        ensures
            r.wf(),
            r.sessions@.len() == 0,
            r.issued@ == Set::<u64>::empty(),
    {
        SshSessionManager::new()
    }
}

} // verus!
