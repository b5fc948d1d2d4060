//! The process registry: the process-wide table of supervised workers.
//!
//! The registry maps a stable worker name to its [`WorkerEntry`]; at most one
//! entry exists per name. An entry is either a plain worker or the richer
//! network-edge variant that carries a control-plane [`Controller`], so
//! protocol access is a pattern match with an explicit wrong-variant error
//! rather than a fallible downcast. The embedding application owns one
//! registry behind its own lock and keeps that lock only for the duration of
//! a registry operation; lock poisoning is its concern and is surfaced there
//! as a [`ProgramError::ChildProcessError`], never retried.

use vstd::prelude::*;

use crate::controller::{spec_options, spec_request_line, vip_call_matches, Controller};
use crate::protocol::Datagram;
use crate::errors::ProgramError;
use crate::numfmt::spec_decimal;
use crate::strutil::str_eq;
use crate::worker::{ExternalBinaryProgram, Poll};

verus! {

/// What a registered worker can do beyond being started and stopped.
pub enum WorkerRole {
    /// A plain worker with no control plane.
    Generic,
    /// The network-edge worker, reachable over its control-plane client.
    NetworkEdge(Controller),
}

/// One registered worker: the supervised process and its role.
pub struct WorkerEntry {
    pub program: ExternalBinaryProgram,
    pub role: WorkerRole,
}

impl WorkerEntry {
    /// The registry key of this entry.
    pub open spec fn spec_name(&self) -> Seq<char> {
        self.program.name@
    }

    /// The entry's controller, when it has one, is well formed.
    pub open spec fn wf(&self) -> bool {
        match self.role {
            WorkerRole::Generic => true,
            WorkerRole::NetworkEdge(c) => c.wf(),
        }
    }
}

/// What a start request must do: nothing, or spawn the worker.
#[derive(Clone, Copy, PartialEq, Eq, Structural)]
pub enum StartAction {
    /// The worker already runs; starting is a successful no-op.
    AlreadyRunning,
    /// No running worker of that name exists; the runtime layer spawns one
    /// and registers the resulting entry.
    SpawnNeeded,
}

/// The table of supervised workers, keyed by worker name.
pub struct Registry {
    pub entries: Vec<WorkerEntry>,
}

impl Registry {
    /// Names are unique and every entry is well formed.
    pub open spec fn wf(&self) -> bool {
        &&& (forall|i: int, j: int|
            0 <= i < j < self.entries@.len() ==> #[trigger] self.entries@[i].spec_name()
                != #[trigger] self.entries@[j].spec_name())
        &&& (forall|i: int| 0 <= i < self.entries@.len() ==> #[trigger] self.entries@[i].wf())
    }

    /// Whether a worker of this name is registered.
    pub open spec fn spec_contains(&self, name: Seq<char>) -> bool {
        exists|i: int|
            0 <= i < self.entries@.len() && #[trigger] self.entries@[i].spec_name() == name
    }

    /// The position of the entry of this name.
    pub open spec fn spec_index_of(&self, name: Seq<char>) -> int {
        choose|i: int|
            0 <= i < self.entries@.len() && #[trigger] self.entries@[i].spec_name() == name
    }

    /// The entry registered under this name.
    pub open spec fn spec_entry(&self, name: Seq<char>) -> WorkerEntry {
        self.entries@[self.spec_index_of(name)]
    }

    /// Whether the named worker is registered and its poll found it alive.
    pub open spec fn spec_child_status(&self, name: Seq<char>, poll: Poll) -> bool {
        self.spec_contains(name) && self.spec_entry(name).program.spec_status(poll)
    }

    /// What a start request for this name must do.
    pub open spec fn spec_start_action(&self, name: Seq<char>, poll: Poll) -> StartAction {
        if self.spec_child_status(name, poll) {
            StartAction::AlreadyRunning
        } else {
            StartAction::SpawnNeeded
        }
    }

    /// In a well-formed registry, an index holding `name` is the unique
    /// position that the name-based spec functions denote.
    pub proof fn lemma_entry_at(&self, name: Seq<char>, i: int)
        requires
            self.wf(),
            0 <= i < self.entries@.len(),
            self.entries@[i].spec_name() == name,
        ensures
            self.spec_contains(name),
            self.spec_index_of(name) == i,
            self.spec_entry(name) == self.entries@[i],
    {
        assert(self.spec_contains(name));
        let j = self.spec_index_of(name);
        assert(0 <= j < self.entries@.len() && self.entries@[j].spec_name() == name);
        if i < j {
            assert(self.entries@[i].spec_name() != self.entries@[j].spec_name());
        } else if j < i {
            assert(self.entries@[j].spec_name() != self.entries@[i].spec_name());
        }
    }

    /// An empty registry.
    pub fn new() -> (r: Registry)
        ensures
            r.wf(),
            r.entries@.len() == 0,
            forall|n: Seq<char>| !r.spec_contains(n),
    {
        Registry { entries: Vec::new() }
    }

    /// The position of the named entry, if one is registered.
    fn find_index(&self, name: &str) -> (r: Option<usize>)
        ensures
            match r {
                Some(i) => 0 <= i < self.entries@.len() && self.entries@[i as int].spec_name()
                    == name@,
                None => !self.spec_contains(name@),
            },
    {
        let mut i: usize = 0;
        while i < self.entries.len()
            invariant
                i <= self.entries@.len(),
                forall|j: int| 0 <= j < i ==> #[trigger] self.entries@[j].spec_name() != name@,
            decreases self.entries@.len() - i,
        {
            if str_eq(self.entries[i].program.name.as_str(), name) {
                return Some(i);
            }
            i = i + 1;
        }
        None
    }

    /// Whether the named worker is registered and alive: false for an absent
    /// name, otherwise the entry's own status under the reported poll.
    pub fn child_status(&self, name: &str, poll: Poll) -> (r: bool)
        requires
            self.wf(),
        ensures
            r == self.spec_child_status(name@, poll),
    {
        match self.find_index(name) {
            None => false,
            Some(i) => {
                proof {
                    self.lemma_entry_at(name@, i as int);
                }
                self.entries[i].program.status(poll)
            },
        }
    }

    /// What a start request for this name must do. Nothing is spawned for a
    /// worker that already runs.
    pub fn start_action(&self, name: &str, poll: Poll) -> (a: StartAction)
        requires
            self.wf(),
        ensures
            a == self.spec_start_action(name@, poll),
    {
        if self.child_status(name, poll) {
            StartAction::AlreadyRunning
        } else {
            StartAction::SpawnNeeded
        }
    }

    /// Removes and returns the named entry. Removing an absent name is a
    /// no-op. The caller receives the entry precisely so that it can release
    /// the worker on every removal path.
    pub fn remove(&mut self, name: &str) -> (r: Option<WorkerEntry>)
        requires
            old(self).wf(),
        ensures
            final(self).wf(),
            !final(self).spec_contains(name@),
            forall|m: Seq<char>|
                m != name@ ==> (final(self).spec_contains(m) <==> old(self).spec_contains(m)),
            forall|m: Seq<char>|
                m != name@ && old(self).spec_contains(m) ==> final(self).spec_entry(m) == old(
                    self,
                ).spec_entry(m),
            old(self).spec_contains(name@) ==> r == Some(old(self).spec_entry(name@)),
            !old(self).spec_contains(name@) ==> r is None && *final(self) == *old(self),
    {
        match self.find_index(name) {
            None => None,
            Some(i) => {
                proof {
                    old(self).lemma_entry_at(name@, i as int);
                }
                let ghost pre = self.entries@;
                let e = self.entries.remove(i);
                proof {
                    let post = self.entries@;
                    assert forall|a: int, b: int| 0 <= a < b < post.len() implies #[trigger] post[a].spec_name()
                        != #[trigger] post[b].spec_name() by {
                        let a0: int = if a < i { a } else { a + 1 };
                        let b0: int = if b < i { b } else { b + 1 };
                        assert(post[a] == pre[a0] && post[b] == pre[b0]);
                    }
                    assert forall|k: int| 0 <= k < post.len() implies #[trigger] post[k].wf()
                        && post[k].spec_name() != name@ by {
                        let k0: int = if k < i { k } else { k + 1 };
                        assert(post[k] == pre[k0]);
                        if post[k].spec_name() == name@ {
                            old(self).lemma_entry_at(name@, k0);
                        }
                    }
                    assert forall|m: Seq<char>| m != name@ && old(self).spec_contains(
                        m,
                    ) implies final(self).spec_contains(m) && final(self).spec_entry(m) == old(
                        self,
                    ).spec_entry(m) by {
                        let k0 = old(self).spec_index_of(m);
                        let k: int = if k0 < i {
                            k0
                        } else {
                            k0 - 1
                        };
                        assert(post[k] == pre[k0]);
                        final(self).lemma_entry_at(m, k);
                    }
                    assert forall|m: Seq<char>| m != name@ && final(self).spec_contains(
                        m,
                    ) implies old(self).spec_contains(m) by {
                        let k = final(self).spec_index_of(m);
                        let k0: int = if k < i { k } else { k + 1 };
                        assert(post[k] == pre[k0]);
                    }
                }
                Some(e)
            },
        }
    }

    /// Registers an entry under its worker's name, replacing any previous
    /// entry of that name. Insertion is atomic with respect to the owning
    /// lock that the embedding application holds around it.
    pub fn register(&mut self, entry: WorkerEntry) -> (r: Result<bool, String>)
        requires
            old(self).wf(),
            entry.wf(),
        ensures
            final(self).wf(),
            final(self).spec_contains(entry.spec_name()),
            final(self).spec_entry(entry.spec_name()) == entry,
            forall|m: Seq<char>|
                m != entry.spec_name() ==> (final(self).spec_contains(m) <==> old(
                    self,
                ).spec_contains(m)),
            forall|m: Seq<char>|
                m != entry.spec_name() && old(self).spec_contains(m) ==> final(self).spec_entry(m)
                    == old(self).spec_entry(m),
            r == Ok::<bool, String>(true),
    {
        let ghost mid_ghost: Registry;
        let _ = self.remove(entry.program.name.as_str());
        proof {
            mid_ghost = *self;
        }
        let ghost pre = self.entries@;
        self.entries.push(entry);
        proof {
            let post = self.entries@;
            let n = pre.len() as int;
            assert(post[n] == entry);
            assert forall|a: int, b: int| 0 <= a < b < post.len() implies #[trigger] post[a].spec_name()
                != #[trigger] post[b].spec_name() by {
                if b < n {
                    assert(post[a] == pre[a] && post[b] == pre[b]);
                } else {
                    assert(post[a] == pre[a]);
                    if pre[a].spec_name() == entry.spec_name() {
                        assert(mid_ghost.spec_contains(entry.spec_name()));
                    }
                }
            }
            assert forall|k: int| 0 <= k < post.len() implies #[trigger] post[k].wf() by {
                if k < n {
                    assert(post[k] == pre[k]);
                }
            }
            final(self).lemma_entry_at(entry.spec_name(), n);
            assert forall|m: Seq<char>| m != entry.spec_name() && mid_ghost.spec_contains(
                m,
            ) implies final(self).spec_contains(m) && final(self).spec_entry(m)
                == mid_ghost.spec_entry(m) by {
                let k = mid_ghost.spec_index_of(m);
                assert(post[k] == pre[k]);
                final(self).lemma_entry_at(m, k);
            }
            assert forall|m: Seq<char>| m != entry.spec_name() && final(self).spec_contains(
                m,
            ) implies mid_ghost.spec_contains(m) by {
                let k = final(self).spec_index_of(m);
                assert(post[k] == pre[k]);
            }
        }
        Ok(true)
    }

    /// Removes the named worker from the registry. Succeeds whether or not
    /// the name was registered: dropping is idempotent. The removed entry
    /// travels with the success flag so the caller can release its worker —
    /// cleanup must run on every removal path.
    pub fn child_drop(&mut self, name: &str) -> (r: Result<(bool, Option<WorkerEntry>), String>)
        requires
            old(self).wf(),
        ensures
            final(self).wf(),
            !final(self).spec_contains(name@),
            forall|m: Seq<char>|
                m != name@ ==> (final(self).spec_contains(m) <==> old(self).spec_contains(m)),
            forall|m: Seq<char>|
                m != name@ && old(self).spec_contains(m) ==> final(self).spec_entry(m) == old(
                    self,
                ).spec_entry(m),
            !old(self).spec_contains(name@) ==> *final(self) == *old(self),
            r is Ok && r->Ok_0.0 == true,
            old(self).spec_contains(name@) ==> r->Ok_0.1 == Some(old(self).spec_entry(name@)),
            !old(self).spec_contains(name@) ==> r->Ok_0.1 is None,
    {
        let removed = self.remove(name);
        Ok((true, removed))
    }

    /// Empties the registry, handing every entry back so that the caller can
    /// attempt each worker's control-plane shutdown and then release its
    /// process — for every registered worker, on every exit path.
    pub fn drain(&mut self) -> (out: Vec<WorkerEntry>)
        requires
            old(self).wf(),
        ensures
            final(self).wf(),
            final(self).entries@.len() == 0,
            out@ == old(self).entries@,
    {
        let mut out: Vec<WorkerEntry> = Vec::new();
        core::mem::swap(&mut out, &mut self.entries);
        out
    }

    /// Builds a request line against the named worker's control plane,
    /// consuming one of its tags: the downcast-and-query path. Fails with a
    /// distinct error when the name is absent and when the entry does not
    /// support the control plane.
    pub fn control_request(&mut self, name: &str, msgtype: &str, cmdline: &str) -> (r: Result<
        (String, String),
        ProgramError,
    >)
        requires
            old(self).wf(),
        ensures
            final(self).wf(),
            !old(self).spec_contains(name@) ==> r == Err::<(String, String), ProgramError>(
                ProgramError::ChildProcessNotFound,
            ) && *final(self) == *old(self),
            old(self).spec_contains(name@) && old(self).spec_entry(name@).role is Generic ==> r
                == Err::<(String, String), ProgramError>(ProgramError::DowncastError)
                && *final(self) == *old(self),
            old(self).spec_contains(name@) && old(self).spec_entry(name@).role is NetworkEdge
                ==> ({
                let c = old(self).spec_entry(name@).role->NetworkEdge_0;
                &&& r is Ok
                &&& r->Ok_0.0@ == spec_decimal(c.tag as nat)
                &&& r->Ok_0.1@ == spec_request_line(
                    msgtype@,
                    spec_options(spec_decimal(c.tag as nat), c.key),
                    cmdline@,
                )
                &&& final(self).entries@.len() == old(self).entries@.len()
                &&& final(self).spec_contains(name@)
                &&& final(self).spec_entry(name@) == (WorkerEntry {
                    program: old(self).spec_entry(name@).program,
                    role: WorkerRole::NetworkEdge(
                        Controller {
                            tag: ((c.tag + 1) % (crate::controller::TAG_MODULUS as int)) as u32,
                            ..c
                        },
                    ),
                })
                &&& forall|m: Seq<char>|
                    m != name@ ==> (final(self).spec_contains(m) <==> old(self).spec_contains(m))
                &&& forall|m: Seq<char>|
                    m != name@ && old(self).spec_contains(m) ==> final(self).spec_entry(m) == old(
                        self,
                    ).spec_entry(m)
            }),
    {
        let i = match self.find_index(name) {
            None => {
                return Err(ProgramError::ChildProcessNotFound);
            },
            Some(i) => i,
        };
        proof {
            old(self).lemma_entry_at(name@, i as int);
        }
        let supports_control = match &self.entries[i].role {
            WorkerRole::Generic => false,
            WorkerRole::NetworkEdge(_) => true,
        };
        if !supports_control {
            return Err(ProgramError::DowncastError);
        }
        let ghost pre = self.entries@;
        let entry = self.entries.remove(i);
        let WorkerEntry { program, role } = entry;
        match role {
            WorkerRole::Generic => {
                // Ruled out above; restore the entry unchanged.
                self.entries.insert(i, WorkerEntry { program, role: WorkerRole::Generic });
                Err(ProgramError::DowncastError)
            },
            WorkerRole::NetworkEdge(mut c) => {
                proof {
                    assert(old(self).entries@[i as int].wf());
                }
                let line = c.cmdstr(msgtype, cmdline);
                let replaced = WorkerEntry { program, role: WorkerRole::NetworkEdge(c) };
                self.entries.insert(i, replaced);
                proof {
                    let post = self.entries@;
                    assert(post =~= pre.update(i as int, replaced));
                    assert forall|a: int, b: int| 0 <= a < b < post.len() implies
                        #[trigger] post[a].spec_name() != #[trigger] post[b].spec_name() by {
                        assert(pre[a].spec_name() == post[a].spec_name());
                        assert(pre[b].spec_name() == post[b].spec_name());
                    }
                    assert forall|k: int| 0 <= k < post.len() implies #[trigger] post[k].wf() by {
                        if k != i {
                            assert(post[k] == pre[k]);
                        }
                    }
                    final(self).lemma_entry_at(name@, i as int);
                    assert forall|m: Seq<char>| m != name@ && old(self).spec_contains(
                        m,
                    ) implies final(self).spec_contains(m) && final(self).spec_entry(m) == old(
                        self,
                    ).spec_entry(m) by {
                        let k = old(self).spec_index_of(m);
                        assert(post[k] == pre[k]);
                        final(self).lemma_entry_at(m, k);
                    }
                    assert forall|m: Seq<char>| m != name@ && final(self).spec_contains(
                        m,
                    ) implies old(self).spec_contains(m) by {
                        let k = final(self).spec_index_of(m);
                        assert(post[k] == pre[k]);
                    }
                }
                Ok(line)
            },
        }
    }
    /// The named worker's virtual address, read over its control plane
    /// against the given response stream: the lookup-downcast-query flow.
    /// Fails with a distinct error when the worker is not running at all and
    /// when it has no control plane.
    pub fn self_ip(&mut self, name: &str, poll: Poll, datagrams: Vec<Datagram>) -> (r: Result<
        String,
        ProgramError,
    >)
        requires
            old(self).wf(),
        ensures
            final(self).wf(),
            !old(self).spec_child_status(name@, poll) ==> r == Err::<String, ProgramError>(
                ProgramError::ChildProcessNotFound,
            ) && *final(self) == *old(self),
            old(self).spec_child_status(name@, poll) && old(self).spec_entry(name@).role
                is Generic ==> r == Err::<String, ProgramError>(ProgramError::DowncastError)
                && *final(self) == *old(self),
            old(self).spec_child_status(name@, poll) && old(self).spec_entry(name@).role
                is NetworkEdge ==> ({
                let c = old(self).spec_entry(name@).role->NetworkEdge_0;
                &&& vip_call_matches(c, datagrams@, r)
                &&& final(self).spec_contains(name@)
                &&& final(self).spec_entry(name@) == (WorkerEntry {
                    program: old(self).spec_entry(name@).program,
                    role: WorkerRole::NetworkEdge(c.spec_advance_tag()),
                })
                &&& forall|m: Seq<char>|
                    m != name@ ==> (final(self).spec_contains(m) <==> old(self).spec_contains(m))
                &&& forall|m: Seq<char>|
                    m != name@ && old(self).spec_contains(m) ==> final(self).spec_entry(m) == old(
                        self,
                    ).spec_entry(m)
            }),
    {
        if !self.child_status(name, poll) {
            return Err(ProgramError::ChildProcessNotFound);
        }
        let i = match self.find_index(name) {
            None => {
                return Err(ProgramError::ChildProcessNotFound);  // unreachable: status held
            },
            Some(i) => i,
        };
        proof {
            old(self).lemma_entry_at(name@, i as int);
        }
        let supports_control = match &self.entries[i].role {
            WorkerRole::Generic => false,
            WorkerRole::NetworkEdge(_) => true,
        };
        if !supports_control {
            return Err(ProgramError::DowncastError);
        }
        let ghost pre = self.entries@;
        let entry = self.entries.remove(i);
        let WorkerEntry { program, role } = entry;
        match role {
            WorkerRole::Generic => {
                // Ruled out above; restore the entry unchanged.
                self.entries.insert(i, WorkerEntry { program, role: WorkerRole::Generic });
                Err(ProgramError::DowncastError)
            },
            WorkerRole::NetworkEdge(mut c) => {
                proof {
                    assert(old(self).entries@[i as int].wf());
                }
                let r = c.get_vip(datagrams);
                let replaced = WorkerEntry { program, role: WorkerRole::NetworkEdge(c) };
                self.entries.insert(i, replaced);
                proof {
                    let post = self.entries@;
                    assert(post =~= pre.update(i as int, replaced));
                    assert forall|a: int, b: int| 0 <= a < b < post.len() implies
                        #[trigger] post[a].spec_name() != #[trigger] post[b].spec_name() by {
                        assert(pre[a].spec_name() == post[a].spec_name());
                        assert(pre[b].spec_name() == post[b].spec_name());
                    }
                    assert forall|k: int| 0 <= k < post.len() implies #[trigger] post[k].wf() by {
                        if k != i {
                            assert(post[k] == pre[k]);
                        }
                    }
                    final(self).lemma_entry_at(name@, i as int);
                    assert forall|m: Seq<char>| m != name@ && old(self).spec_contains(
                        m,
                    ) implies final(self).spec_contains(m) && final(self).spec_entry(m) == old(
                        self,
                    ).spec_entry(m) by {
                        let k = old(self).spec_index_of(m);
                        assert(post[k] == pre[k]);
                        final(self).lemma_entry_at(m, k);
                    }
                    assert forall|m: Seq<char>| m != name@ && final(self).spec_contains(
                        m,
                    ) implies old(self).spec_contains(m) by {
                        let k = final(self).spec_index_of(m);
                        assert(post[k] == pre[k]);
                    }
                }
                r
            },
        }
    }
}

/// A worker that has been dropped from the registry reports a false status
/// under every poll outcome: stop followed by status yields false.
pub proof fn lemma_dropped_worker_not_running(r: Registry, name: Seq<char>, poll: Poll)
    requires
        !r.spec_contains(name),
    ensures
        !r.spec_child_status(name, poll),
{
}

/// A start request for a worker that already runs is a no-op: the decision is
/// `AlreadyRunning`, which spawns no second OS process, and the registry
/// holds exactly one entry for the name — any two positions carrying it
/// coincide.
pub proof fn lemma_start_on_running_worker_spawns_nothing(
    r: Registry,
    name: Seq<char>,
    poll: Poll,
    i: int,
    j: int,
)
    requires
        r.wf(),
        r.spec_child_status(name, poll),
        0 <= i < r.entries@.len(),
        0 <= j < r.entries@.len(),
        r.entries@[i].spec_name() == name,
        r.entries@[j].spec_name() == name,
    ensures
        r.spec_start_action(name, poll) == StartAction::AlreadyRunning,
        i == j,
{
    r.lemma_entry_at(name, i);
    r.lemma_entry_at(name, j);
}

} // verus!
