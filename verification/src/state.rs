//! The status of a box and the transitions between statuses.
//!
//! ```text
//! Configured ──start──▶ Running
//! Configured ──stop───▶ Stopped
//! Running    ──stop───▶ Stopped
//! Stopped    ──start──▶ Running
//! ```
//!
//! `Unknown` is seen only after a crash: the PID file names a process that
//! is gone. It resolves to `Stopped`.

use vstd::prelude::*;

use crate::clock::Timestamp;
use crate::clock::later;
use crate::clock::now_millis;
use crate::error::BoxliteError;
use crate::error::ErrorKind;
use crate::error::ErrorView;
use crate::text::chars_of;
use crate::text::push_str;
use crate::text::string_of;

verus! {

/// The lifecycle status of a box.
#[derive(Clone, Copy, Debug, PartialEq, Eq, Hash, Structural)]
pub enum BoxStatus {
    /// A crash left a PID file for a process that is gone.
    Unknown,
    /// Created; no machine was ever built.
    Configured,
    /// The machine is being built.
    Starting,
    /// The machine runs and the guest has answered.
    Running,
    /// The machine is being stopped.
    Stopping,
    /// The machine is stopped; the box can be started again.
    Stopped,
}

/// The name of a status, in lowercase.
pub open spec fn status_name(status: BoxStatus) -> Seq<char> {
    match status {
        BoxStatus::Unknown => "unknown"@,
        BoxStatus::Configured => "configured"@,
        BoxStatus::Starting => "starting"@,
        BoxStatus::Running => "running"@,
        BoxStatus::Stopping => "stopping"@,
        BoxStatus::Stopped => "stopped"@,
    }
}

/// The name of a status, capitalised as the variant is.
pub open spec fn status_title(status: BoxStatus) -> Seq<char> {
    match status {
        BoxStatus::Unknown => "Unknown"@,
        BoxStatus::Configured => "Configured"@,
        BoxStatus::Starting => "Starting"@,
        BoxStatus::Running => "Running"@,
        BoxStatus::Stopping => "Stopping"@,
        BoxStatus::Stopped => "Stopped"@,
    }
}

/// The writes to a status that the lifecycle allows.
pub open spec fn transition_allowed(from: BoxStatus, to: BoxStatus) -> bool {
    ||| from == BoxStatus::Configured && to == BoxStatus::Running
    ||| from == BoxStatus::Configured && to == BoxStatus::Stopped
    ||| from == BoxStatus::Running && to == BoxStatus::Stopped
    ||| from == BoxStatus::Stopped && to == BoxStatus::Running
}

/// The failure reported for a write that the lifecycle does not allow.
pub open spec fn transition_failure(from: BoxStatus, to: BoxStatus) -> ErrorView {
    ErrorView {
        kind: ErrorKind::InvalidState,
        message: "cannot go from "@ + status_name(from) + " to "@ + status_name(to),
    }
}

impl BoxStatus {
    /// A box is active while it runs.
    pub open spec fn spec_is_active(self) -> bool {
        self == BoxStatus::Running
    }

    /// A box can be started when it is configured or stopped.
    pub open spec fn spec_can_start(self) -> bool {
        self == BoxStatus::Configured || self == BoxStatus::Stopped
    }

    #[verifier::when_used_as_spec(spec_is_active)]
    pub fn is_active(self) -> (r: bool)
        ensures
            r == self.spec_is_active(),
    {
        match self {
            BoxStatus::Running => true,
            _ => false,
        }
    }

    /// Whether the machine runs.
    pub fn is_running(self) -> (r: bool)
        ensures
            r == (self == BoxStatus::Running),
    {
        self.is_active()
    }

    #[verifier::when_used_as_spec(spec_can_start)]
    pub fn can_start(self) -> (r: bool)
        ensures
            r == self.spec_can_start(),
    {
        match self {
            BoxStatus::Configured => true,
            BoxStatus::Stopped => true,
            _ => false,
        }
    }

    /// The name of the status, in lowercase.
    pub fn as_str(self) -> (r: &'static str)
        ensures
            r@ == status_name(self),
    {
        match self {
            BoxStatus::Unknown => "unknown",
            BoxStatus::Configured => "configured",
            BoxStatus::Starting => "starting",
            BoxStatus::Running => "running",
            BoxStatus::Stopping => "stopping",
            BoxStatus::Stopped => "stopped",
        }
    }

    /// The name of the status, capitalised as the variant is.
    pub fn title(self) -> (r: &'static str)
        ensures
            r@ == status_title(self),
    {
        match self {
            BoxStatus::Unknown => "Unknown",
            BoxStatus::Configured => "Configured",
            BoxStatus::Starting => "Starting",
            BoxStatus::Running => "Running",
            BoxStatus::Stopping => "Stopping",
            BoxStatus::Stopped => "Stopped",
        }
    }

    /// Whether the lifecycle allows a write from this status to `to`.
    pub fn allows(self, to: BoxStatus) -> (r: bool)
        ensures
            r == transition_allowed(self, to),
    {
        match (self, to) {
            (BoxStatus::Configured, BoxStatus::Running) => true,
            (BoxStatus::Configured, BoxStatus::Stopped) => true,
            (BoxStatus::Running, BoxStatus::Stopped) => true,
            (BoxStatus::Stopped, BoxStatus::Running) => true,
            _ => false,
        }
    }
}

/// The name of a status as the language bindings show it.
pub fn status_to_string(status: BoxStatus) -> (r: String)
    ensures
        r@ == status_name(status),
{
    status.as_str().to_string()
}

/// The mutable state of a box.
#[derive(Clone, Copy, Debug, PartialEq, Eq, Structural)]
pub struct BoxState {
    pub status: BoxStatus,
    /// When the state last changed. Never moves back.
    pub last_updated: Timestamp,
    /// The process that hosts the machine, while it is believed alive.
    pub pid: Option<u32>,
    /// The lock of the box, from creation on.
    pub lock_id: Option<u64>,
}

/// What is found on disk when a box is opened again: the content of the PID
/// file, where there is one, and whether the process it names is alive.
#[derive(Clone, Copy, Debug, PartialEq, Eq, Structural)]
pub struct PidProbe {
    pub pid: Option<u32>,
    pub alive: bool,
}

/// The state after a start or a stop written at time `now`.
pub open spec fn transitioned(state: BoxState, to: BoxStatus, now: Timestamp) -> BoxState {
    BoxState {
        status: to,
        last_updated: later(state.last_updated, now),
        pid: if to == BoxStatus::Stopped {
            None
        } else {
            state.pid
        },
        lock_id: state.lock_id,
    }
}

/// The state that the PID file dictates when a box is opened again.
///
/// The PID file is the source of truth. Where it names a live process the
/// box runs under that process. Where it names a dead one the status is
/// unknown. Where there is none, a box recorded as running, starting or
/// stopping is stopped.
pub open spec fn recovered(state: BoxState, probe: PidProbe, now: Timestamp) -> BoxState {
    match probe.pid {
        Some(pid) => if probe.alive {
            BoxState {
                status: BoxStatus::Running,
                last_updated: later(state.last_updated, now),
                pid: Some(pid),
                lock_id: state.lock_id,
            }
        } else {
            BoxState {
                status: BoxStatus::Unknown,
                last_updated: later(state.last_updated, now),
                pid: None,
                lock_id: state.lock_id,
            }
        },
        None => if state.status == BoxStatus::Configured || state.status == BoxStatus::Stopped {
            BoxState { pid: None, ..state }
        } else {
            BoxState {
                status: BoxStatus::Stopped,
                last_updated: later(state.last_updated, now),
                pid: None,
                lock_id: state.lock_id,
            }
        },
    }
}

/// The state as a reader sees it: an unknown status reads as stopped.
pub open spec fn resolved(state: BoxState, now: Timestamp) -> BoxState {
    if state.status == BoxStatus::Unknown {
        BoxState {
            status: BoxStatus::Stopped,
            last_updated: later(state.last_updated, now),
            pid: None,
            lock_id: state.lock_id,
        }
    } else {
        state
    }
}

impl BoxState {
    /// The state of a box created at time `now`.
    pub fn new_at(now: Timestamp) -> (r: BoxState)
        ensures
            r == (BoxState {
                status: BoxStatus::Configured,
                last_updated: now,
                pid: None,
                lock_id: None,
            }),
    {
        BoxState { status: BoxStatus::Configured, last_updated: now, pid: None, lock_id: None }
    }

    /// The state of a box created now.
    pub fn new() -> (r: BoxState)
        ensures
            r.status == BoxStatus::Configured,
            r.pid is None,
            r.lock_id is None,
    {
        BoxState::new_at(now_millis())
    }

    pub fn set_pid(&mut self, pid: Option<u32>)
        ensures
            *final(self) == (BoxState { pid, ..*old(self) }),
    {
        self.pid = pid;
    }

    pub fn set_lock_id(&mut self, lock_id: u64)
        ensures
            *final(self) == (BoxState { lock_id: Some(lock_id), ..*old(self) }),
    {
        self.lock_id = Some(lock_id);
    }

    /// Writes the status `to` at time `now`, where the lifecycle allows it.
    /// A stop clears the PID. A write that is not allowed fails with
    /// `InvalidState` and leaves the state as it was.
    pub fn transition_at(&mut self, to: BoxStatus, now: Timestamp) -> (r: Result<(), BoxliteError>)
        ensures
            r is Ok <==> transition_allowed(old(self).status, to),
            r is Ok ==> *final(self) == transitioned(*old(self), to, now),
            r matches Err(e) ==> *final(self) == *old(self) && e.deep_view() == transition_failure(
                old(self).status,
                to,
            ),
    {
        if self.status.allows(to) {
            self.status = to;
            if now > self.last_updated {
                self.last_updated = now;
            }
            if let BoxStatus::Stopped = to {
                self.pid = None;
            }
            Ok(())
        } else {
            let mut m = chars_of("cannot go from ");
            push_str(&mut m, self.status.as_str());
            push_str(&mut m, " to ");
            push_str(&mut m, to.as_str());
            Err(BoxliteError::InvalidState(string_of(&m)))
        }
    }

    /// Writes the status `to` now, where the lifecycle allows it.
    pub fn transition_to(&mut self, to: BoxStatus) -> (r: Result<(), BoxliteError>)
        ensures
            r is Ok <==> transition_allowed(old(self).status, to),
            r is Ok ==> exists|now: Timestamp| *final(self) == transitioned(*old(self), to, now),
            r matches Err(e) ==> *final(self) == *old(self) && e.deep_view() == transition_failure(
                old(self).status,
                to,
            ),
    {
        let now = now_millis();
        self.transition_at(to, now)
    }

    /// The state that the PID file dictates when the box is opened again.
    pub fn recover(&self, probe: PidProbe, now: Timestamp) -> (r: BoxState)
        ensures
            r == recovered(*self, probe, now),
    {
        let updated = if now > self.last_updated {
            now
        } else {
            self.last_updated
        };
        match probe.pid {
            Some(pid) => {
                if probe.alive {
                    BoxState {
                        status: BoxStatus::Running,
                        last_updated: updated,
                        pid: Some(pid),
                        lock_id: self.lock_id,
                    }
                } else {
                    BoxState {
                        status: BoxStatus::Unknown,
                        last_updated: updated,
                        pid: None,
                        lock_id: self.lock_id,
                    }
                }
            },
            None => {
                if self.status.can_start() {
                    BoxState {
                        status: self.status,
                        last_updated: self.last_updated,
                        pid: None,
                        lock_id: self.lock_id,
                    }
                } else {
                    BoxState {
                        status: BoxStatus::Stopped,
                        last_updated: updated,
                        pid: None,
                        lock_id: self.lock_id,
                    }
                }
            },
        }
    }

    /// The state as a reader sees it: an unknown status reads as stopped.
    pub fn resolve(&self, now: Timestamp) -> (r: BoxState)
        ensures
            r == resolved(*self, now),
    {
        if let BoxStatus::Unknown = self.status {
            BoxState {
                status: BoxStatus::Stopped,
                last_updated: if now > self.last_updated {
                    now
                } else {
                    self.last_updated
                },
                pid: None,
                lock_id: self.lock_id,
            }
        } else {
            *self
        }
    }
}

// ============================================================================
// Laws of the lifecycle
// ============================================================================

/// The statuses that starts and stops can reach from a new box.
pub open spec fn is_settled(status: BoxStatus) -> bool {
    status == BoxStatus::Configured || status == BoxStatus::Running || status
        == BoxStatus::Stopped
}

/// Every allowed write leads from a settled status to `Running` or
/// `Stopped`, and differs from the status it leaves. No write leads back to
/// `Configured`, and none leaves or enters `Starting`, `Stopping` or
/// `Unknown`.
pub proof fn lemma_transitions_closed(from: BoxStatus, to: BoxStatus)
    requires
        transition_allowed(from, to),
    ensures
        is_settled(from),
        to == BoxStatus::Running || to == BoxStatus::Stopped,
        from != to,
{
}

/// Starts and stops are the only writes: from a startable status the one
/// allowed target besides a stop is `Running`, and a running box can only
/// be stopped.
pub proof fn lemma_transitions_are_start_or_stop(from: BoxStatus, to: BoxStatus)
    ensures
        transition_allowed(from, to) <==> (from.spec_can_start() && to == BoxStatus::Running) || ((
        from == BoxStatus::Configured || from == BoxStatus::Running) && to == BoxStatus::Stopped),
{
}

/// A write never moves the time of the last update back, keeps the lock,
/// and leaves a stopped box without a PID.
pub proof fn lemma_transition_keeps_order(state: BoxState, to: BoxStatus, now: Timestamp)
    ensures
        transitioned(state, to, now).last_updated >= state.last_updated,
        transitioned(state, to, now).lock_id == state.lock_id,
        to == BoxStatus::Stopped ==> transitioned(state, to, now).pid is None,
{
}

/// The PID file is the source of truth: where there is one, a box opened
/// again converges to `Running` if the process is alive and to `Stopped` if
/// it is not, whatever status was recorded. It runs under the PID of the
/// file, and a stopped box has none.
pub proof fn lemma_reattach_converges(state: BoxState, probe: PidProbe, t1: Timestamp, t2: Timestamp)
    requires
        probe.pid is Some,
    ensures
        resolved(recovered(state, probe, t1), t2).status == if probe.alive {
            BoxStatus::Running
        } else {
            BoxStatus::Stopped
        },
        resolved(recovered(state, probe, t1), t2).pid == if probe.alive {
            probe.pid
        } else {
            None
        },
        resolved(recovered(state, probe, t1), t2).lock_id == state.lock_id,
        resolved(recovered(state, probe, t1), t2).last_updated >= state.last_updated,
{
}

/// Without a PID file a box opened again is never running: it keeps a
/// configured or stopped status and is stopped otherwise.
pub proof fn lemma_recover_without_pid_file(state: BoxState, alive: bool, t1: Timestamp, t2: Timestamp)
    ensures
        ({
            let r = resolved(recovered(state, PidProbe { pid: None, alive }, t1), t2);
            &&& r.pid is None
            &&& r.status == if state.status == BoxStatus::Configured {
                BoxStatus::Configured
            } else {
                BoxStatus::Stopped
            }
        }),
{
}

} // verus!
