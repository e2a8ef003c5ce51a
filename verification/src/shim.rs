//! The process that hosts the machine: how it is launched and how it is
//! stopped.
//!
//! The launch and the stop alternate work on the host with decisions. The
//! decisions are made here; the caller sends the signals, sleeps and polls.

use vstd::prelude::*;

use crate::error::BoxliteError;
use crate::error::ErrorKind;
use crate::error::ErrorView;
use crate::options::BoxOptions;
use crate::probe::path_exists;
use crate::text::chars_of;
use crate::text::push_str;
use crate::text::string_of;
use crate::vmm::InstanceSpec;
use crate::vmm::TransportView;
use crate::vmm::VmmKind;
use crate::vmm::handed_over;

verus! {

// ============================================================================
// Stopping
// ============================================================================

/// How long a process is given to exit after it was asked to, in
/// milliseconds.
pub const GRACEFUL_SHUTDOWN_TIMEOUT_MS: u64 = 2000;

/// How long to sleep between two polls, in milliseconds.
pub const STOP_POLL_INTERVAL_MS: u64 = 50;

/// What happened since the last step of a stop.
#[derive(Clone, Copy, Debug, PartialEq, Eq, Structural)]
pub enum StopEvent {
    /// The stop begins.
    Begin,
    /// A poll found that the process has exited.
    Exited,
    /// A poll found the process still running.
    StillRunning,
    /// A poll failed. `alive` says whether the process still exists.
    PollFailed { alive: bool },
}

/// What to do next in a stop.
#[derive(Clone, Copy, Debug, PartialEq, Eq, Structural)]
pub enum StopAction {
    /// Ask the process to exit, then poll.
    SendTerm,
    /// Sleep for the given time, then poll.
    Sleep { millis: u64 },
    /// Kill the process. With `reap`, also wait for it. Then the stop is
    /// done.
    ForceKill { reap: bool },
    /// The stop is done.
    Finished,
}

/// The next step of a stop.
///
/// The process is first asked to exit. A process that has exited ends the
/// stop. One that still runs is polled again after a short sleep, until the
/// grace period is over; then it is killed. When a poll fails, a process
/// that this handler spawned is killed and reaped; one that it only
/// attached to ends the stop if it is gone, and is otherwise treated as
/// still running.
pub open spec fn stop_decision(owned: bool, event: StopEvent, elapsed_ms: u64) -> StopAction {
    match event {
        StopEvent::Begin => StopAction::SendTerm,
        StopEvent::Exited => StopAction::Finished,
        StopEvent::StillRunning => if elapsed_ms > GRACEFUL_SHUTDOWN_TIMEOUT_MS {
            StopAction::ForceKill { reap: owned }
        } else {
            StopAction::Sleep { millis: STOP_POLL_INTERVAL_MS }
        },
        StopEvent::PollFailed { alive } => if owned {
            StopAction::ForceKill { reap: true }
        } else if !alive {
            StopAction::Finished
        } else if elapsed_ms > GRACEFUL_SHUTDOWN_TIMEOUT_MS {
            StopAction::ForceKill { reap: false }
        } else {
            StopAction::Sleep { millis: STOP_POLL_INTERVAL_MS }
        },
    }
}

/// One stop in progress.
#[derive(Clone, Copy, Debug, PartialEq, Eq, Structural)]
pub struct StopSession {
    /// The process to stop.
    pub pid: u32,
    /// Whether the handler spawned the process, and so can reap it.
    pub owned: bool,
}

impl StopSession {
    /// The next step, given what happened and the time since the stop
    /// began.
    pub fn next(&self, event: StopEvent, elapsed_ms: u64) -> (action: StopAction)
        ensures
            action == stop_decision(self.owned, event, elapsed_ms),
    {
        match event {
            StopEvent::Begin => StopAction::SendTerm,
            StopEvent::Exited => StopAction::Finished,
            StopEvent::StillRunning => {
                if elapsed_ms > GRACEFUL_SHUTDOWN_TIMEOUT_MS {
                    StopAction::ForceKill { reap: self.owned }
                } else {
                    StopAction::Sleep { millis: STOP_POLL_INTERVAL_MS }
                }
            },
            StopEvent::PollFailed { alive } => {
                if self.owned {
                    StopAction::ForceKill { reap: true }
                } else if !alive {
                    StopAction::Finished
                } else if elapsed_ms > GRACEFUL_SHUTDOWN_TIMEOUT_MS {
                    StopAction::ForceKill { reap: false }
                } else {
                    StopAction::Sleep { millis: STOP_POLL_INTERVAL_MS }
                }
            },
        }
    }
}

/// Once the grace period is over no step sleeps: every poll ends the stop,
/// at once or with a kill. Before that no step kills a process that was
/// found running.
pub proof fn lemma_stop_is_bounded(owned: bool, event: StopEvent, elapsed_ms: u64)
    requires
        event != StopEvent::Begin,
    ensures
        elapsed_ms > GRACEFUL_SHUTDOWN_TIMEOUT_MS ==> stop_decision(owned, event, elapsed_ms)
            == StopAction::Finished || stop_decision(owned, event, elapsed_ms) is ForceKill,
        elapsed_ms <= GRACEFUL_SHUTDOWN_TIMEOUT_MS && event == StopEvent::StillRunning
            ==> stop_decision(owned, event, elapsed_ms) == (StopAction::Sleep {
            millis: STOP_POLL_INTERVAL_MS,
        }),
        stop_decision(owned, event, elapsed_ms) matches StopAction::ForceKill { reap } ==> reap
            == owned,
{
}

// ============================================================================
// The handler of a running machine
// ============================================================================

/// The handler of the process that hosts a running machine.
#[derive(Clone, Debug)]
pub struct ShimHandler {
    pid: u32,
    box_id: String,
    owned: bool,
}

pub struct ShimHandlerView {
    pub pid: u32,
    pub box_id: Seq<char>,
    pub owned: bool,
}

impl DeepView for ShimHandler {
    type V = ShimHandlerView;

    closed spec fn deep_view(&self) -> ShimHandlerView {
        ShimHandlerView { pid: self.pid, box_id: self.box_id@, owned: self.owned }
    }
}

impl ShimHandler {
    /// The handler of a process that the caller spawned and can reap.
    pub fn from_child(pid: u32, box_id: String) -> (r: ShimHandler)
        ensures
            r.deep_view() == (ShimHandlerView { pid, box_id: box_id@, owned: true }),
    {
        ShimHandler { pid, box_id, owned: true }
    }

    /// The handler of a process found running, known by its PID alone.
    pub fn from_pid(pid: u32, box_id: String) -> (r: ShimHandler)
        ensures
            r.deep_view() == (ShimHandlerView { pid, box_id: box_id@, owned: false }),
    {
        ShimHandler { pid, box_id, owned: false }
    }

    pub fn pid(&self) -> (r: u32)
        ensures
            r == self.deep_view().pid,
    {
        self.pid
    }

    /// Whether the handler spawned the process, and so can reap it.
    pub fn is_owned(&self) -> (r: bool)
        ensures
            r == self.deep_view().owned,
    {
        self.owned
    }

    pub fn box_id(&self) -> (r: &str)
        ensures
            r@ == self.deep_view().box_id,
    {
        self.box_id.as_str()
    }

    /// Begins a stop. The handler gives up the process: a later stop treats
    /// it as one that was found running.
    pub fn begin_stop(&mut self) -> (session: StopSession)
        ensures
            session == (StopSession { pid: old(self).deep_view().pid, owned: old(self).deep_view().owned }),
            final(self).deep_view() == (ShimHandlerView { owned: false, ..old(self).deep_view() }),
    {
        let session = StopSession { pid: self.pid, owned: self.owned };
        self.owned = false;
        session
    }
}

// ============================================================================
// The controller that launches the hosting process
// ============================================================================

/// Launches the process that hosts the machine of one box.
#[derive(Clone, Debug)]
pub struct ShimController {
    binary_path: String,
    engine_type: VmmKind,
    box_id: String,
    options: BoxOptions,
}

/// What is left to do on the host to launch the hosting process.
#[derive(Clone, Debug)]
pub struct ShimLaunch {
    /// The program to run.
    pub binary_path: String,
    pub engine_type: VmmKind,
    /// The instance to hand over, serialised as JSON.
    pub spec: InstanceSpec,
    /// A socket file left by an earlier run, to be removed first.
    pub stale_socket: Option<String>,
}

/// The failure reported when the program that hosts the machine is
/// missing.
pub open spec fn missing_binary_failure(binary_path: Seq<char>) -> ErrorView {
    ErrorView {
        kind: ErrorKind::Engine,
        message: "Box runner binary not found: "@ + binary_path,
    }
}

/// The socket file that must be removed before the launch: the one of a
/// Unix transport, where a file of that name exists.
pub open spec fn stale_socket_of(transport: TransportView, present: bool) -> Option<Seq<char>> {
    match transport {
        TransportView::Unix { socket_path } => if present {
            Some(socket_path)
        } else {
            None
        },
        TransportView::Vsock { .. } => None,
    }
}

impl ShimController {
    pub closed spec fn spec_binary_path(&self) -> Seq<char> {
        self.binary_path@
    }

    pub closed spec fn spec_engine(&self) -> VmmKind {
        self.engine_type
    }

    pub closed spec fn spec_box_id(&self) -> Seq<char> {
        self.box_id@
    }

    pub closed spec fn spec_options(&self) -> crate::options::BoxOptionsView {
        self.options.deep_view()
    }

    /// The controller for the given program, given whether the program
    /// exists. Fails with `Engine` when it does not.
    pub fn checked(
        binary_path: String,
        engine_type: VmmKind,
        box_id: String,
        options: BoxOptions,
        binary_exists: bool,
    ) -> (r: Result<ShimController, BoxliteError>)
        ensures
            r is Ok <==> binary_exists,
            r matches Ok(c) ==> {
                &&& c.spec_binary_path() == binary_path@
                &&& c.spec_engine() == engine_type
                &&& c.spec_box_id() == box_id@
                &&& c.spec_options() == options.deep_view()
            },
            r matches Err(e) ==> e.deep_view() == missing_binary_failure(binary_path@),
    {
        if !binary_exists {
            let mut m = chars_of("Box runner binary not found: ");
            push_str(&mut m, binary_path.as_str());
            return Err(BoxliteError::Engine(string_of(&m)));
        }
        Ok(ShimController { binary_path, engine_type, box_id, options })
    }

    /// The controller for the given program. Fails with `Engine` when the
    /// program is not on disk.
    pub fn new(binary_path: String, engine_type: VmmKind, box_id: String, options: BoxOptions) -> (r:
        Result<ShimController, BoxliteError>)
        ensures
            r matches Ok(c) ==> {
                &&& c.spec_binary_path() == binary_path@
                &&& c.spec_engine() == engine_type
                &&& c.spec_box_id() == box_id@
                &&& c.spec_options() == options.deep_view()
            },
            r matches Err(e) ==> e.deep_view() == missing_binary_failure(binary_path@),
    {
        let exists = path_exists(binary_path.as_str());
        ShimController::checked(binary_path, engine_type, box_id, options, exists)
    }

    /// What to launch for the given machine, given the host's log filter
    /// and whether a file exists at the transport's socket path.
    pub fn launch_with(
        &self,
        config: &InstanceSpec,
        log_filter: &Option<String>,
        socket_present: bool,
    ) -> (r: ShimLaunch)
        ensures
            r.binary_path@ == self.spec_binary_path(),
            r.engine_type == self.spec_engine(),
            r.spec.deep_view() == handed_over(
                config.deep_view(),
                self.spec_box_id(),
                self.spec_options().security,
                log_filter.deep_view(),
            ),
            r.stale_socket.deep_view() == stale_socket_of(
                config.deep_view().transport,
                socket_present,
            ),
    {
        let spec = config.hand_over(self.box_id.as_str(), self.options.security, log_filter);
        let stale_socket = match config.transport.socket_file() {
            Some(p) => if socket_present {
                Some(p.to_string())
            } else {
                None
            },
            None => None,
        };
        ShimLaunch {
            binary_path: self.binary_path.clone(),
            engine_type: self.engine_type,
            spec,
            stale_socket,
        }
    }

    /// What to launch for the given machine, given the host's log filter.
    /// A socket file left by an earlier run at the transport's socket path
    /// is marked for removal.
    pub fn launch(&self, config: &InstanceSpec, log_filter: &Option<String>) -> (r: ShimLaunch)
        ensures
            r.binary_path@ == self.spec_binary_path(),
            r.engine_type == self.spec_engine(),
            r.spec.deep_view() == handed_over(
                config.deep_view(),
                self.spec_box_id(),
                self.spec_options().security,
                log_filter.deep_view(),
            ),
            exists|present: bool|
                r.stale_socket.deep_view() == #[trigger] stale_socket_of(
                    config.deep_view().transport,
                    present,
                ),
    {
        let present = match config.transport.socket_file() {
            Some(p) => path_exists(p),
            None => false,
        };
        self.launch_with(config, log_filter, present)
    }
}

} // verus!
