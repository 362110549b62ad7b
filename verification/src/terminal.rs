//! The terminal multiplexer: interactive pseudo-terminal channels keyed by
//! terminal identifier, each bound at creation to one owning session.
//!
//! Every terminal owns a queue of pending output units. Creation seeds the
//! queue with one synthetic "session ready" unit ending in a prompt marker,
//! so the very first receive always has data; afterwards the producer side
//! is closed and an empty queue means there is nothing more to deliver.

use vstd::prelude::*;
use vstd::string::StringExecFns;

use crate::text::decimal_seq;
use crate::text::push_decimal;
use crate::types::SshError;
use crate::types::TerminalData;
use crate::types::TerminalSession;

verus! {

/// The synthetic "session ready" unit a new terminal's queue is seeded with.
pub open spec fn greeting_seq(id: u64) -> Seq<char> {
    "Terminal session "@ + decimal_seq(id as nat) + " created successfully.\r\n$ "@
}

/// Build the "session ready" greeting for a terminal.
fn greeting_text(id: u64) -> (r: String)
    ensures
        r@ == greeting_seq(id),
{
    let mut s = String::new();
    s.append("Terminal session ");
    push_decimal(&mut s, id);
    s.append(" created successfully.\r\n$ ");
    proof {
        assert(s@ =~= greeting_seq(id));
    }
    s
}

/// The greeting always ends in the prompt marker: a dollar sign and a space.
pub proof fn lemma_greeting_ends_with_prompt(id: u64)
    ensures
        greeting_seq(id).len() >= 2,
        greeting_seq(id)[greeting_seq(id).len() - 2] == '$',
        greeting_seq(id)[greeting_seq(id).len() - 1] == ' ',
{
    reveal_strlit(" created successfully.\r\n$ ");
    let tail = " created successfully.\r\n$ "@;
    assert(tail.len() == 26);
    assert(tail[24] == '$');
    assert(tail[25] == ' ');
}

/// One terminal: its public record and its queue of pending output units.
pub struct TerminalSessionData {
    pub info: TerminalSession,
    pub queue: Vec<TerminalData>,
}

impl TerminalSessionData {
    /// Stored terminals are active, and every queued unit carries the
    /// terminal's own identifier.
    pub open spec fn wf(self) -> bool {
        &&& self.info.is_active
        &&& forall|i: int|
            0 <= i < self.queue@.len() ==> (#[trigger] self.queue@[i]).session_id == self.info.id
    }
}

/// The multiplexer owning every terminal, keyed by terminal identifier.
///
/// Terminal identifiers are allocated from a strictly increasing counter;
/// the ghost set `issued` records every identifier handed out.
pub struct TerminalManager {
    pub terminals: Vec<TerminalSessionData>,
    pub next_id: u64,
    pub issued: Ghost<Set<u64>>,
}

impl TerminalManager {
    /// Registry invariant, as for the session registry: pairwise distinct
    /// identifiers, all issued, all below the counter, each entry well formed.
    pub open spec fn wf(self) -> bool {
        &&& forall|i: int, j: int|
            0 <= i < j < self.terminals@.len() ==> self.terminals@[i].info.id
                != self.terminals@[j].info.id
        &&& forall|i: int|
            0 <= i < self.terminals@.len() ==> self.issued@.contains(
                (#[trigger] self.terminals@[i]).info.id,
            )
        &&& forall|id: u64| self.issued@.contains(id) ==> id < self.next_id
        &&& forall|i: int| 0 <= i < self.terminals@.len() ==> (#[trigger] self.terminals@[i]).wf()
    }

    /// Whether a terminal with this identifier is currently stored.
    pub open spec fn has_terminal(self, id: u64) -> bool {
        exists|i: int|
            0 <= i < self.terminals@.len() && (#[trigger] self.terminals@[i]).info.id == id
    }

    /// Position of the terminal with this identifier, where one is stored.
    pub open spec fn index_of(self, id: u64) -> int {
        choose|i: int|
            0 <= i < self.terminals@.len() && (#[trigger] self.terminals@[i]).info.id == id
    }

    /// The terminal currently stored under this identifier.
    pub open spec fn terminal_spec(self, id: u64) -> TerminalSessionData {
        self.terminals@[self.index_of(id)]
    }

    /// With pairwise distinct identifiers, any witness position for an
    /// identifier is the position `index_of` picks.
    pub proof fn lemma_index_unique(self, i: int, id: u64)
        requires
            self.wf(),
            0 <= i < self.terminals@.len(),
            self.terminals@[i].info.id == id,
        ensures
            self.has_terminal(id),
            self.index_of(id) == i,
    {
        assert(self.has_terminal(id));
        let j = self.index_of(id);
        if i < j {
            assert(self.terminals@[i].info.id != self.terminals@[j].info.id);
        } else if j < i {
            assert(self.terminals@[j].info.id != self.terminals@[i].info.id);
        }
    }

    /// A well-formed multiplexer stores nothing under an identifier it never
    /// issued: lookups on such an identifier always fail.
    pub proof fn lemma_unissued_absent(self, id: u64)
        requires
            self.wf(),
            !self.issued@.contains(id),
        ensures
            !self.has_terminal(id),
    {
        if self.has_terminal(id) {
            let i = self.index_of(id);
            assert(self.issued@.contains(self.terminals@[i].info.id));
        }
    }

    /// An empty multiplexer that has issued no identifier yet.
    pub fn new() -> (r: Self)
        ensures
            r.wf(),
            r.terminals@.len() == 0,
            r.next_id == 0,
            r.issued@ == Set::<u64>::empty(),
    {
        TerminalManager { terminals: Vec::new(), next_id: 0, issued: Ghost(Set::empty()) }
    }

    /// Position of the terminal with this identifier, if any.
    fn find_index(&self, id: u64) -> (r: Option<usize>)
        requires
            self.wf(),
        ensures
            match r {
                Some(i) => i < self.terminals@.len() && self.terminals@[i as int].info.id == id
                    && self.has_terminal(id) && self.index_of(id) == i,
                None => !self.has_terminal(id),
            },
    {
        let n = self.terminals.len();
        let mut i: usize = 0;
        while i < n
            invariant
                n == self.terminals@.len(),
                i <= n,
                self.wf(),
                forall|j: int| 0 <= j < i ==> (#[trigger] self.terminals@[j]).info.id != id,
            decreases n - i,
        {
            if self.terminals[i].info.id == id {
                proof {
                    self.lemma_index_unique(i as int, id);
                }
                return Some(i);
            }
            i = i + 1;
        }
        None
    }

    /// Allocate a fresh terminal identifier, record an active terminal bound
    /// to the owning session, and seed its queue with the "session ready"
    /// unit, so the very first receive has data without any input sent.
    ///
    /// The owning session identifier is taken as given here; the facade
    /// validates it against the session registry before calling.
    pub fn create_terminal_session(&mut self, ssh_session_id: u64, now: i64) -> (r: Result<
        u64,
        SshError,
    >)
        requires
            old(self).wf(),
            old(self).next_id < u64::MAX,
        ensures
            final(self).wf(),
            r is Ok,
            r->Ok_0 == old(self).next_id,
            !old(self).issued@.contains(r->Ok_0),
            final(self).issued@ == old(self).issued@.insert(r->Ok_0),
            final(self).next_id == old(self).next_id + 1,
            final(self).has_terminal(r->Ok_0),
            final(self).terminal_spec(r->Ok_0).info == (TerminalSession {
                id: r->Ok_0,
                ssh_session_id: ssh_session_id,
                created_at: now,
                is_active: true,
            }),
            final(self).terminal_spec(r->Ok_0).queue@.len() == 1,
            final(self).terminal_spec(r->Ok_0).queue@[0].session_id == r->Ok_0,
            final(self).terminal_spec(r->Ok_0).queue@[0].data@ == greeting_seq(r->Ok_0),
            final(self).terminal_spec(r->Ok_0).queue@[0].timestamp == now,
            forall|other: u64|
                other != r->Ok_0 ==> (final(self).has_terminal(other) <==> old(self).has_terminal(
                    other,
                )),
            forall|other: u64|
                other != r->Ok_0 && old(self).has_terminal(other) ==> final(self).terminal_spec(
                    other,
                ) == old(self).terminal_spec(other),
    {
        let id = self.next_id;
        self.next_id = self.next_id + 1;
        let info = TerminalSession { id, ssh_session_id, created_at: now, is_active: true };
        let initial = TerminalData { session_id: id, data: greeting_text(id), timestamp: now };
        let mut queue: Vec<TerminalData> = Vec::new();
        queue.push(initial);
        self.terminals.push(TerminalSessionData { info, queue });
        proof {
            self.issued@ = self.issued@.insert(id);
        }
        proof {
            let pre = *old(self);
            let n = pre.terminals@.len() as int;
            assert forall|i: int| 0 <= i < self.terminals@.len() implies self.issued@.contains(
                (#[trigger] self.terminals@[i]).info.id,
            ) by {
                if i < n {
                    assert(pre.issued@.contains(pre.terminals@[i].info.id));
                }
            }
            self.lemma_index_unique(n, id);
            assert forall|other: u64| other != id && pre.has_terminal(other) implies {
                &&& self.has_terminal(other)
                &&& self.terminal_spec(other) == pre.terminal_spec(other)
            } by {
                let i = pre.index_of(other);
                assert(self.terminals@[i].info.id == other);
                self.lemma_index_unique(i, other);
            }
            assert forall|other: u64| other != id && self.has_terminal(other) implies pre
                .has_terminal(other) by {
                let i = self.index_of(other);
                assert(pre.terminals@[i].info.id == other);
            }
        }
        Ok(id)
    }

    /// Accept one unit of input for the terminal. Accepted means accepted
    /// only: the baseline design does not forward input to a remote shell,
    /// and the multiplexer's state does not change.
    pub fn send_input(&self, terminal_id: u64, _input: String) -> (r: Result<(), SshError>)
        requires
            self.wf(),
        ensures
            r is Ok <==> self.has_terminal(terminal_id),
            !self.has_terminal(terminal_id) ==> {
                &&& r matches Err(SshError::SessionNotFound(x)) && x == terminal_id
            },
    {
        match self.find_index(terminal_id) {
            Some(_) => Ok(()),
            None => Err(SshError::SessionNotFound(terminal_id)),
        }
    }

    /// Deliver the next pending output unit of the terminal, if any. An empty
    /// queue yields nothing: the producer side closed after seeding, so no
    /// further unit can arrive.
    pub fn receive_output(&mut self, terminal_id: u64) -> (r: Result<Option<TerminalData>, SshError>)
        requires
            old(self).wf(),
        ensures
            final(self).wf(),
            final(self).next_id == old(self).next_id,
            final(self).issued@ == old(self).issued@,
            forall|other: u64| final(self).has_terminal(other) <==> old(self).has_terminal(other),
            !old(self).has_terminal(terminal_id) ==> *final(self) == *old(self) && {
                &&& r matches Err(SshError::SessionNotFound(x)) && x == terminal_id
            },
            old(self).has_terminal(terminal_id) ==> {
                let pre_entry = old(self).terminal_spec(terminal_id);
                let post_entry = final(self).terminal_spec(terminal_id);
                &&& post_entry.info == pre_entry.info
                &&& if pre_entry.queue@.len() == 0 {
                    &&& r matches Ok(d) && d is None
                    &&& post_entry.queue@ == pre_entry.queue@
                } else {
                    &&& r matches Ok(d) && d == Some(pre_entry.queue@[0])
                    &&& post_entry.queue@ == pre_entry.queue@.drop_first()
                }
            },
            forall|other: u64|
                other != terminal_id && old(self).has_terminal(other)
                    ==> final(self).terminal_spec(other) == old(self).terminal_spec(other),
    {
        let idx = match self.find_index(terminal_id) {
            Some(i) => i,
            None => {
                return Err(SshError::SessionNotFound(terminal_id));
            },
        };
        let ghost pre = *self;
        let entry = &mut self.terminals[idx];
        let r: Option<TerminalData> = if entry.queue.len() == 0 {
            None
        } else {
            Some(entry.queue.remove(0))
        };
        proof {
            assert(self.terminals@[idx as int].wf());
            self.lemma_frame_after_update(pre, idx as int, terminal_id);
            if pre.terminal_spec(terminal_id).queue@.len() > 0 {
                assert(self.terminal_spec(terminal_id).queue@ =~= pre.terminal_spec(
                    terminal_id,
                ).queue@.drop_first());
            }
        }
        Ok(r)
    }

    /// After an in-place update of the entry at a witness position that kept
    /// the identifier and well-formedness, every other lookup is unchanged.
    proof fn lemma_frame_after_update(self, pre: Self, idx: int, terminal_id: u64)
        requires
            pre.wf(),
            0 <= idx < pre.terminals@.len(),
            pre.terminals@[idx].info.id == terminal_id,
            self.terminals@.len() == pre.terminals@.len(),
            self.terminals@[idx].info.id == terminal_id,
            self.terminals@[idx].wf(),
            forall|j: int|
                0 <= j < pre.terminals@.len() && j != idx ==> self.terminals@[j]
                    == pre.terminals@[j],
            self.next_id == pre.next_id,
            self.issued@ == pre.issued@,
        ensures
            self.wf(),
            forall|other: u64| self.has_terminal(other) <==> pre.has_terminal(other),
            self.index_of(terminal_id) == idx,
            pre.index_of(terminal_id) == idx,
            self.terminal_spec(terminal_id) == self.terminals@[idx],
            pre.terminal_spec(terminal_id) == pre.terminals@[idx],
            forall|other: u64|
                other != terminal_id && pre.has_terminal(other) ==> self.terminal_spec(other)
                    == pre.terminal_spec(other),
    {
        assert forall|i: int, j: int| 0 <= i < j < self.terminals@.len() implies self.terminals@[
            i
        ].info.id != self.terminals@[j].info.id by {
            assert(pre.terminals@[i].info.id == self.terminals@[i].info.id);
            assert(pre.terminals@[j].info.id == self.terminals@[j].info.id);
        }
        assert forall|i: int| 0 <= i < self.terminals@.len() implies self.issued@.contains(
            (#[trigger] self.terminals@[i]).info.id,
        ) && (#[trigger] self.terminals@[i]).wf() by {
            assert(pre.issued@.contains(pre.terminals@[i].info.id));
            assert(pre.terminals@[i].wf());
            if i != idx {
                assert(self.terminals@[i] == pre.terminals@[i]);
            }
        }
        self.lemma_index_unique(idx, terminal_id);
        pre.lemma_index_unique(idx, terminal_id);
        assert forall|other: u64| pre.has_terminal(other) implies self.has_terminal(other) by {
            let i = pre.index_of(other);
            assert(self.terminals@[i].info.id == other);
        }
        assert forall|other: u64| self.has_terminal(other) implies pre.has_terminal(other) by {
            let i = self.index_of(other);
            assert(pre.terminals@[i].info.id == other);
        }
        assert forall|other: u64|
            other != terminal_id && pre.has_terminal(other) implies self.terminal_spec(other)
            == pre.terminal_spec(other) by {
            let i = pre.index_of(other);
            assert(i != idx);
            assert(self.terminals@[i] == pre.terminals@[i]);
            self.lemma_index_unique(i, other);
        }
    }

    /// Remove the terminal stored under this identifier. Removal semantics
    /// are try-and-ignore-absence: an unknown identifier is a harmless no-op,
    /// and repeated calls after the first real removal are too.
    pub fn close_terminal_session(&mut self, terminal_id: u64) -> (r: Result<(), SshError>)
        requires
            old(self).wf(),
        ensures
            final(self).wf(),
            r is Ok,
            final(self).next_id == old(self).next_id,
            final(self).issued@ == old(self).issued@,
            !final(self).has_terminal(terminal_id),
            !old(self).has_terminal(terminal_id) ==> *final(self) == *old(self),
            forall|other: u64|
                other != terminal_id ==> (final(self).has_terminal(other) <==> old(
                    self,
                ).has_terminal(other)),
            forall|other: u64|
                other != terminal_id && old(self).has_terminal(other)
                    ==> final(self).terminal_spec(other) == old(self).terminal_spec(other),
    {
        let idx = match self.find_index(terminal_id) {
            Some(i) => i,
            None => {
                return Ok(());
            },
        };
        let ghost pre = *self;
        let mut removed = self.terminals.remove(idx);
        removed.info.is_active = false;
        proof {
            let n = pre.terminals@.len() as int;
            assert forall|i: int, j: int|
                0 <= i < j < self.terminals@.len() implies self.terminals@[i].info.id
                != self.terminals@[j].info.id by {
                let pi: int = if i < idx { i } else { i + 1 };
                let pj: int = if j < idx { j } else { j + 1 };
                assert(self.terminals@[i] == pre.terminals@[pi]);
                assert(self.terminals@[j] == pre.terminals@[pj]);
            }
            assert forall|i: int| 0 <= i < self.terminals@.len() implies self.issued@.contains(
                (#[trigger] self.terminals@[i]).info.id,
            ) && (#[trigger] self.terminals@[i]).wf() by {
                let pi: int = if i < idx { i } else { i + 1 };
                assert(self.terminals@[i] == pre.terminals@[pi]);
                assert(pre.issued@.contains(pre.terminals@[pi].info.id));
            }
            if self.has_terminal(terminal_id) {
                let i = self.index_of(terminal_id);
                let pi: int = if i < idx { i } else { i + 1 };
                assert(pre.terminals@[pi] == self.terminals@[i]);
                pre.lemma_index_unique(pi, terminal_id);
                pre.lemma_index_unique(idx as int, terminal_id);
            }
            assert forall|other: u64|
                other != terminal_id && pre.has_terminal(other) implies self.has_terminal(other)
                && self.terminal_spec(other) == pre.terminal_spec(other) by {
                let i = pre.index_of(other);
                pre.lemma_index_unique(i, other);
                pre.lemma_index_unique(idx as int, terminal_id);
                let ni: int = if i < idx { i } else { i - 1 };
                assert(self.terminals@[ni] == pre.terminals@[i]);
                self.lemma_index_unique(ni, other);
            }
            assert forall|other: u64|
                other != terminal_id && self.has_terminal(other) implies pre.has_terminal(
                    other,
                ) by {
                let i = self.index_of(other);
                let pi: int = if i < idx { i } else { i + 1 };
                assert(pre.terminals@[pi] == self.terminals@[i]);
            }
        }
        Ok(())
    }

    /// A snapshot of the terminal stored under this identifier; fails with
    /// `SessionNotFound` when the identifier is not stored.
    pub fn get_terminal_session(&self, terminal_id: u64) -> (r: Result<TerminalSession, SshError>)
        requires
            self.wf(),
        ensures
            !self.has_terminal(terminal_id) ==> {
                &&& r matches Err(SshError::SessionNotFound(x)) && x == terminal_id
            },
            self.has_terminal(terminal_id) ==> {
                &&& r matches Ok(info) && info == self.terminal_spec(terminal_id).info
            },
    {
        let idx = match self.find_index(terminal_id) {
            Some(i) => i,
            None => {
                return Err(SshError::SessionNotFound(terminal_id));
            },
        };
        Ok(self.terminals[idx].info.clone())
    }

    /// Snapshots of all terminals, in registry order.
    pub fn list_terminal_sessions(&self) -> (r: Vec<TerminalSession>)
        ensures
            r@.len() == self.terminals@.len(),
            forall|i: int|
                0 <= i < r@.len() ==> r@[i] == (#[trigger] self.terminals@[i]).info,
    {
        let n = self.terminals.len();
        let mut infos: Vec<TerminalSession> = Vec::new();
        let mut i: usize = 0;
        while i < n
            invariant
                n == self.terminals@.len(),
                i <= n,
                infos@.len() == i,
                forall|j: int| 0 <= j < i ==> infos@[j] == (#[trigger] self.terminals@[j]).info,
            decreases n - i,
        {
            infos.push(self.terminals[i].info.clone());
            i = i + 1;
        }
        infos
    }

    /// Validate that the terminal exists; actual size propagation to a remote
    /// pseudo-terminal is a named extension point and not performed, so a
    /// successful resize changes nothing.
    pub fn resize_terminal(&self, terminal_id: u64, _width: u32, _height: u32) -> (r: Result<
        (),
        SshError,
    >)
        requires
            self.wf(),
        ensures
            r is Ok <==> self.has_terminal(terminal_id),
            !self.has_terminal(terminal_id) ==> {
                &&& r matches Err(SshError::SessionNotFound(x)) && x == terminal_id
            },
    {
        match self.find_index(terminal_id) {
            Some(_) => Ok(()),
            None => Err(SshError::SessionNotFound(terminal_id)),
        }
    }
}

impl Default for TerminalManager {
    /// The default multiplexer is a fresh, empty one.
    fn default() -> (r: Self)
        ensures
            r.wf(),
            r.terminals@.len() == 0,
            r.issued@ == Set::<u64>::empty(),
    {
        TerminalManager::new()
    }
}

} // verus!
