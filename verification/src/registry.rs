//! The commands that run in the guest, and how they are ended when the
//! guest shuts down.

use vstd::prelude::*;

use crate::text::chars_eq;
use crate::text::chars_of;

verus! {

/// How long to sleep between two looks at the processes that were asked
/// to exit, in milliseconds.
pub const SHUTDOWN_POLL_INTERVAL_MS: u64 = 100;

/// What the registry knows of one command.
#[derive(Clone, Copy, Debug, PartialEq, Eq, Structural)]
pub struct ExecutionState {
    /// The process of the command, once it has one.
    pub pid: Option<u32>,
}

impl DeepView for ExecutionState {
    type V = ExecutionState;

    open spec fn deep_view(&self) -> ExecutionState {
        *self
    }
}

/// The commands that run in the guest, by their identifier. An identifier
/// names one command at most.
#[derive(Debug)]
pub struct ExecutionRegistry {
    executions: Vec<(String, ExecutionState)>,
}

impl DeepView for ExecutionRegistry {
    type V = Seq<(Seq<char>, ExecutionState)>;

    /// The commands in the order they were first registered.
    closed spec fn deep_view(&self) -> Seq<(Seq<char>, ExecutionState)> {
        self.executions.deep_view()
    }
}

/// Whether some command has the identifier.
pub open spec fn registered(entries: Seq<(Seq<char>, ExecutionState)>, id: Seq<char>) -> bool {
    exists|i: int| 0 <= i < entries.len() && (#[trigger] entries[i]).0 == id
}

pub open spec fn ids_distinct(entries: Seq<(Seq<char>, ExecutionState)>) -> bool {
    forall|i: int, j: int|
        0 <= i < j < entries.len() ==> (#[trigger] entries[i]).0 != (#[trigger] entries[j]).0
}

impl ExecutionRegistry {
    #[verifier::type_invariant]
    spec fn well_formed(&self) -> bool {
        ids_distinct(self.executions.deep_view())
    }

    pub fn new() -> (r: ExecutionRegistry)
        ensures
            r.deep_view() == Seq::<(Seq<char>, ExecutionState)>::empty(),
    {
        let r = ExecutionRegistry { executions: Vec::new() };
        assert(r.executions.deep_view() =~= Seq::empty());
        r
    }

    fn find(&self, exec_id: &str) -> (r: Option<usize>)
        ensures
            match r {
                Some(i) => i < self.deep_view().len() && self.deep_view()[i as int].0 == exec_id@,
                None => !registered(self.deep_view(), exec_id@),
            },
    {
        let wanted = chars_of(exec_id);
        let mut i: usize = 0;
        while i < self.executions.len()
            invariant
                i <= self.executions.len(),
                wanted@ == exec_id@,
                forall|j: int| 0 <= j < i ==> (#[trigger] self.deep_view()[j]).0 != exec_id@,
            decreases self.executions.len() - i,
        {
            if chars_eq(&chars_of(self.executions[i].0.as_str()), &wanted) {
                assert(self.deep_view()[i as int].0 == self.executions[i as int].0@);
                return Some(i);
            }
            i += 1;
        }
        None
    }

    /// Whether a command has the identifier.
    pub fn contains(&self, exec_id: &str) -> (r: bool)
        ensures
            r == registered(self.deep_view(), exec_id@),
    {
        self.find(exec_id).is_some()
    }

    /// What is known of the command with the identifier.
    pub fn get(&self, exec_id: &str) -> (r: Option<ExecutionState>)
        ensures
            r is Some <==> registered(self.deep_view(), exec_id@),
            r matches Some(state) ==> exists|i: int|
                0 <= i < self.deep_view().len() && (#[trigger] self.deep_view()[i]) == (
                    exec_id@,
                    state,
                ),
    {
        match self.find(exec_id) {
            Some(i) => {
                assert(self.deep_view()[i as int] == (
                    self.executions[i as int].0@,
                    self.executions[i as int].1,
                ));
                Some(self.executions[i].1)
            },
            None => None,
        }
    }

    /// Registers a command. A command already registered under the
    /// identifier is replaced.
    pub fn register(&mut self, exec_id: String, state: ExecutionState)
        ensures
            ids_distinct(final(self).deep_view()),
            registered(old(self).deep_view(), exec_id@) ==> exists|i: int|
                {
                    &&& 0 <= i < old(self).deep_view().len()
                    &&& (#[trigger] old(self).deep_view()[i]).0 == exec_id@
                    &&& final(self).deep_view() == old(self).deep_view().update(
                        i,
                        (exec_id@, state),
                    )
                },
            !registered(old(self).deep_view(), exec_id@) ==> final(self).deep_view() == old(
                self,
            ).deep_view().push((exec_id@, state)),
    {
        proof {
            use_type_invariant(&*self);
        }
        let found = self.find(exec_id.as_str());
        let ghost before = self.executions.deep_view();
        let mut entries: Vec<(String, ExecutionState)> = Vec::new();
        std::mem::swap(&mut entries, &mut self.executions);
        match found {
            Some(i) => {
                entries[i].1 = state;
                proof {
                    let after = entries.deep_view();
                    assert(after =~= before.update(i as int, (exec_id@, state)));
                    assert forall|a: int, b: int| 0 <= a < b < after.len() implies (
                    #[trigger] after[a]).0 != (#[trigger] after[b]).0 by {
                        assert(after[a].0 == before[a].0 && after[b].0 == before[b].0);
                    }
                }
            },
            None => {
                entries.push((exec_id, state));
                proof {
                    let after = entries.deep_view();
                    assert(after =~= before.push((exec_id@, state)));
                    assert forall|a: int, b: int| 0 <= a < b < after.len() implies (
                    #[trigger] after[a]).0 != (#[trigger] after[b]).0 by {
                        if b == before.len() {
                            assert(before[a].0 != exec_id@);
                        }
                    }
                }
            },
        }
        std::mem::swap(&mut entries, &mut self.executions);
    }

    /// The commands that have a process, with the process of each, in the
    /// order they were registered.
    pub fn with_process(&self) -> (r: Vec<(String, u32)>)
        ensures
            r.deep_view() == having_process(self.deep_view()),
    {
        let mut r: Vec<(String, u32)> = Vec::new();
        let ghost entries = self.deep_view();
        let mut i: usize = 0;
        assert(entries.take(0) =~= Seq::empty());
        while i < self.executions.len()
            invariant
                i <= self.executions.len(),
                entries == self.deep_view(),
                r.deep_view() == having_process(entries.take(i as int)),
            decreases self.executions.len() - i,
        {
            let ghost before = r.deep_view();
            proof {
                assert(entries.take(i + 1).drop_last() == entries.take(i as int));
                assert(entries.take(i + 1).last() == (
                    self.executions[i as int].0@,
                    self.executions[i as int].1,
                ));
            }
            match self.executions[i].1.pid {
                Some(pid) => {
                    r.push((self.executions[i].0.clone(), pid));
                    assert(r.deep_view() =~= before.push((self.executions[i as int].0@, pid)));
                },
                None => {},
            }
            i += 1;
        }
        assert(entries.take(self.executions.len() as int) == entries);
        r
    }

    /// What to do next when the guest shuts down, given how many of the
    /// processes that were asked to exit are still alive, the time since
    /// they were asked, and the time they are given.
    pub fn shutdown_all(&self, still_alive: usize, elapsed_ms: u64, timeout_ms: u64) -> (r:
        ShutdownAction)
        ensures
            r == shutdown_decision(still_alive as nat, elapsed_ms, timeout_ms),
    {
        if still_alive == 0 {
            ShutdownAction::Finished
        } else if elapsed_ms < timeout_ms {
            ShutdownAction::Sleep { millis: SHUTDOWN_POLL_INTERVAL_MS }
        } else {
            ShutdownAction::KillRemaining
        }
    }
}

/// The commands that have a process, with the process of each.
pub open spec fn having_process(entries: Seq<(Seq<char>, ExecutionState)>) -> Seq<(Seq<char>, u32)>
    decreases entries.len(),
{
    if entries.len() == 0 {
        Seq::empty()
    } else {
        match entries.last().1.pid {
            Some(pid) => having_process(entries.drop_last()).push((entries.last().0, pid)),
            None => having_process(entries.drop_last()),
        }
    }
}

/// What to do next when the guest shuts down.
#[derive(Clone, Copy, Debug, PartialEq, Eq, Structural)]
pub enum ShutdownAction {
    /// Every process has exited.
    Finished,
    /// Sleep, then look again which processes are alive.
    Sleep { millis: u64 },
    /// Kill the processes that are still alive.
    KillRemaining,
}

/// Processes that were asked to exit are looked at again after short
/// sleeps until none is alive or their time is up; then those that are
/// left are killed.
pub open spec fn shutdown_decision(still_alive: nat, elapsed_ms: u64, timeout_ms: u64) -> ShutdownAction {
    if still_alive == 0 {
        ShutdownAction::Finished
    } else if elapsed_ms < timeout_ms {
        ShutdownAction::Sleep { millis: SHUTDOWN_POLL_INTERVAL_MS }
    } else {
        ShutdownAction::KillRemaining
    }
}

/// The processes of a list that are alive, in order. `alive[i]` says
/// whether process `i` is.
pub open spec fn alive_of(processes: Seq<(Seq<char>, u32)>, alive: Seq<bool>) -> Seq<(Seq<char>, u32)>
    decreases processes.len(),
{
    if processes.len() == 0 || alive.len() == 0 {
        Seq::empty()
    } else if alive.last() {
        alive_of(processes.drop_last(), alive.drop_last()).push(processes.last())
    } else {
        alive_of(processes.drop_last(), alive.drop_last())
    }
}

/// The processes that are alive, in order.
pub fn keep_alive(processes: &Vec<(String, u32)>, alive: &Vec<bool>) -> (r: Vec<(String, u32)>)
    requires
        processes.len() == alive.len(),
    ensures
        r.deep_view() == alive_of(processes.deep_view(), alive@),
        r.len() <= processes.len(),
{
    let mut r: Vec<(String, u32)> = Vec::new();
    let ghost all = processes.deep_view();
    let mut i: usize = 0;
    assert(all.take(0) =~= Seq::empty());
    while i < processes.len()
        invariant
            i <= processes.len(),
            processes.len() == alive.len(),
            all == processes.deep_view(),
            r.deep_view() == alive_of(all.take(i as int), alive@.take(i as int)),
            r.len() <= i,
        decreases processes.len() - i,
    {
        let ghost before = r.deep_view();
        proof {
            assert(all.take(i + 1).drop_last() == all.take(i as int));
            assert(alive@.take(i + 1).drop_last() == alive@.take(i as int));
            assert(all.take(i + 1).last() == (processes[i as int].0@, processes[i as int].1));
            assert(alive@.take(i + 1).last() == alive[i as int]);
        }
        if alive[i] {
            r.push((processes[i].0.clone(), processes[i].1));
            assert(r.deep_view() =~= before.push((processes[i as int].0@, processes[i as int].1)));
        }
        i += 1;
    }
    assert(all.take(processes.len() as int) == all);
    assert(alive@.take(alive.len() as int) == alive@);
    r
}

} // verus!
