//! One box: its fixed configuration, its state, and what it holds while it
//! runs.
//!
//! The handle decides; the caller acts. A call on the handle returns what
//! to do on the host, in order, and the handle's state already reflects
//! that it will be done. A stop invalidates the handle: every later start,
//! command, copy or metrics call on it fails with `Stopped`, and a new
//! handle must be had from the runtime.

use vstd::prelude::*;

use crate::clock::Timestamp;
use crate::clock::later;
use crate::command::env_sets;
use crate::command::env_with;
use crate::command::BoxCommand;
use crate::command::BoxCommandView;
use crate::config::BoxConfig;
use crate::config::BoxConfigView;
use crate::error::BoxliteError;
use crate::error::ErrorKind;
use crate::error::ErrorView;
use crate::info::info_of;
use crate::info::BoxInfo;
use crate::init::can_build;
use crate::init::cannot_build_failure;
use crate::init::get_execution_plan;
use crate::init::plan_for;
use crate::init::LiveState;
use crate::init::LiveStateView;
use crate::metrics::RuntimeMetricsStorage;
use crate::pipeline::ExecutionPlan;
use crate::pipeline::StageView;
use crate::state::resolved;
use crate::state::transitioned;
use crate::state::BoxState;
use crate::state::BoxStatus;
use crate::text::clone_option;

verus! {

/// The variable that tells a command which container it runs in.
pub const CONTAINER_ENV_VAR: &'static str = "BOXLITE_CONTAINER";

/// The message of the failure reported by an invalidated handle.
pub const HANDLE_INVALIDATED: &'static str =
    "handle invalidated by stop; get a new handle from the runtime";

/// The failure reported by an invalidated handle.
pub open spec fn stopped_failure() -> ErrorView {
    ErrorView { kind: ErrorKind::Stopped, message: HANDLE_INVALIDATED@ }
}

/// The failure reported for a copy without a destination.
pub open spec fn empty_destination_failure() -> ErrorView {
    ErrorView { kind: ErrorKind::Config, message: "destination path must not be empty"@ }
}

/// The command as it is sent to the guest: it learns which container it
/// runs in, unless its environment says so already, and it runs in the
/// working directory of the box unless it names its own.
pub open spec fn command_for_guest(
    command: BoxCommandView,
    container_id: Seq<char>,
    box_working_dir: Option<Seq<char>>,
) -> BoxCommandView {
    BoxCommandView {
        env: if env_sets(command.env, CONTAINER_ENV_VAR@) {
            command.env
        } else {
            env_with(command.env, CONTAINER_ENV_VAR@, container_id)
        },
        working_dir: match command.working_dir {
            Some(d) => Some(d),
            None => box_working_dir,
        },
        ..command
    }
}

/// What a start asks of the caller.
#[derive(Debug)]
pub enum StartAction {
    /// The box runs in this process already.
    Nothing,
    /// Run the plan under the lock of the box, then report the outcome.
    Build { plan: ExecutionPlan },
}

/// One step of a stop, for the caller to take.
#[derive(Clone, Debug)]
pub enum StopStep {
    /// Ask the guest to shut down. A failure is ignored.
    ShutdownGuest,
    /// Stop the process that hosts the machine.
    StopMachine { pid: u32 },
    /// Delete the PID file.
    DeletePidFile,
    /// Write the state to the database. With `fresh_row` the box was never
    /// started: write its row anew so that it survives a restart of the
    /// runtime.
    PersistState { state: BoxState, fresh_row: bool },
    /// Drop the runtime's cache entries for the box, by identifier and by
    /// name.
    InvalidateCache { id: String, name: Option<String> },
    /// Remove the box, without force.
    Remove { id: String },
}

pub enum StopStepView {
    ShutdownGuest,
    StopMachine { pid: u32 },
    DeletePidFile,
    PersistState { state: BoxState, fresh_row: bool },
    InvalidateCache { id: Seq<char>, name: Option<Seq<char>> },
    Remove { id: Seq<char> },
}

impl DeepView for StopStep {
    type V = StopStepView;

    open spec fn deep_view(&self) -> StopStepView {
        match self {
            StopStep::ShutdownGuest => StopStepView::ShutdownGuest,
            StopStep::StopMachine { pid } => StopStepView::StopMachine { pid: *pid },
            StopStep::DeletePidFile => StopStepView::DeletePidFile,
            StopStep::PersistState { state, fresh_row } => StopStepView::PersistState {
                state: *state,
                fresh_row: *fresh_row,
            },
            StopStep::InvalidateCache { id, name } => StopStepView::InvalidateCache {
                id: id@,
                name: name.deep_view(),
            },
            StopStep::Remove { id } => StopStepView::Remove { id: id@ },
        }
    }
}

/// The mathematical content of a [`BoxImpl`].
pub struct BoxImplView {
    pub config: BoxConfigView,
    pub state: BoxState,
    /// Whether a stop has invalidated the handle.
    pub invalidated: bool,
    pub live: Option<LiveStateView>,
}

/// The steps of stopping a box that is configured or running, in order.
pub open spec fn stop_steps(before: BoxImplView, now: Timestamp) -> Seq<StopStepView> {
    let machine = match before.live {
        Some(live) => seq![
            StopStepView::ShutdownGuest,
            StopStepView::StopMachine { pid: live.handler.pid },
        ],
        None => Seq::empty(),
    };
    let removal = if before.config.options.auto_remove {
        seq![StopStepView::Remove { id: before.config.id }]
    } else {
        Seq::empty()
    };
    machine + seq![
        StopStepView::DeletePidFile,
        StopStepView::PersistState {
            state: transitioned(before.state, BoxStatus::Stopped, now),
            fresh_row: before.state.lock_id is None,
        },
        StopStepView::InvalidateCache { id: before.config.id, name: before.config.name },
    ] + removal
}

/// The box after a stop that took effect.
pub open spec fn stopped_box(before: BoxImplView, now: Timestamp) -> BoxImplView {
    BoxImplView {
        state: transitioned(before.state, BoxStatus::Stopped, now),
        invalidated: true,
        live: None,
        ..before
    }
}

/// The handle of one box.
pub struct BoxImpl {
    config: BoxConfig,
    state: BoxState,
    invalidated: bool,
    live: Option<LiveState>,
}

impl DeepView for BoxImpl {
    type V = BoxImplView;

    closed spec fn deep_view(&self) -> BoxImplView {
        BoxImplView {
            config: self.config.deep_view(),
            state: self.state,
            invalidated: self.invalidated,
            live: self.live.deep_view(),
        }
    }
}

impl BoxImpl {
    /// The handle of a box with the given configuration and state. Nothing
    /// of the machine is touched.
    pub fn new(config: BoxConfig, state: BoxState) -> (r: BoxImpl)
        ensures
            r.deep_view() == (BoxImplView {
                config: config.deep_view(),
                state,
                invalidated: false,
                live: None,
            }),
    {
        BoxImpl { config, state, invalidated: false, live: None }
    }

    pub fn id(&self) -> (r: &str)
        ensures
            r@ == self.deep_view().config.id,
    {
        self.config.id.as_str()
    }

    pub fn name(&self) -> (r: Option<&str>)
        ensures
            r.deep_view() == self.deep_view().config.name,
    {
        match &self.config.name {
            Some(n) => Some(n.as_str()),
            None => None,
        }
    }

    pub fn container_id(&self) -> (r: &str)
        ensures
            r@ == self.deep_view().config.container.id,
    {
        self.config.container.id.as_str()
    }

    pub fn config(&self) -> (r: &BoxConfig)
        ensures
            r.deep_view() == self.deep_view().config,
    {
        &self.config
    }

    pub fn state(&self) -> (r: BoxState)
        ensures
            r == self.deep_view().state,
    {
        self.state
    }

    pub fn is_invalidated(&self) -> (r: bool)
        ensures
            r == self.deep_view().invalidated,
    {
        self.invalidated
    }

    pub fn live(&self) -> (r: &Option<LiveState>)
        ensures
            r.deep_view() == self.deep_view().live,
    {
        &self.live
    }

    /// The record of the box. A pure read: nothing is started.
    pub fn info(&self) -> (r: BoxInfo)
        ensures
            r.deep_view() == info_of(self.deep_view().config, self.deep_view().state),
    {
        BoxInfo::new(&self.config, &self.state)
    }

    fn check_valid(&self) -> (r: Result<(), BoxliteError>)
        ensures
            r is Err <==> self.deep_view().invalidated,
            r matches Err(e) ==> e.deep_view() == stopped_failure(),
    {
        if self.invalidated {
            Err(BoxliteError::Stopped(HANDLE_INVALIDATED.to_string()))
        } else {
            Ok(())
        }
    }

    /// What a start asks of the caller.
    ///
    /// An invalidated handle fails with `Stopped`. A box that runs in this
    /// process needs nothing. A box that is configured, stopped, or
    /// running under another process is built by the plan for its status.
    /// Any other status fails with `InvalidState`.
    pub fn start(&self) -> (r: Result<StartAction, BoxliteError>)
        ensures
            self.deep_view().invalidated ==> (r matches Err(e) && e.deep_view()
                == stopped_failure()),
            !self.deep_view().invalidated && !can_build(self.deep_view().state.status) ==> (
            r matches Err(e) && e.deep_view() == cannot_build_failure(
                self.deep_view().state.status,
            )),
            r is Ok <==> !self.deep_view().invalidated && can_build(self.deep_view().state.status),
            r matches Ok(action) ==> match action {
                StartAction::Nothing => self.deep_view().state.status == BoxStatus::Running
                    && self.deep_view().live is Some,
                StartAction::Build { plan } => plan.deep_view() == plan_for(
                    self.deep_view().state.status,
                ) && !(self.deep_view().state.status == BoxStatus::Running
                    && self.deep_view().live is Some),
            },
    {
        self.check_valid()?;
        let running = self.state.status.is_running();
        if running && self.live.is_some() {
            return Ok(StartAction::Nothing);
        }
        let plan = get_execution_plan(self.state.status)?;
        Ok(StartAction::Build { plan })
    }

    /// Records a build that succeeded at time `now`: the box holds what
    /// the build produced and runs under the handler's process.
    pub fn started(&mut self, live: LiveState, now: Timestamp)
        requires
            can_build(old(self).deep_view().state.status),
        ensures
            final(self).deep_view() == (BoxImplView {
                state: BoxState {
                    status: BoxStatus::Running,
                    last_updated: later(old(self).deep_view().state.last_updated, now),
                    pid: Some(live.deep_view().handler.pid),
                    lock_id: old(self).deep_view().state.lock_id,
                },
                live: Some(live.deep_view()),
                ..old(self).deep_view()
            }),
    {
        let pid = live.handler.pid();
        self.state.status = BoxStatus::Running;
        if now > self.state.last_updated {
            self.state.last_updated = now;
        }
        self.state.pid = Some(pid);
        self.live = Some(live);
    }

    /// The command as it is sent to the guest, or `Stopped` on an
    /// invalidated handle.
    pub fn exec(&self, command: BoxCommand) -> (r: Result<BoxCommand, BoxliteError>)
        ensures
            r is Err <==> self.deep_view().invalidated,
            r matches Err(e) ==> e.deep_view() == stopped_failure(),
            r matches Ok(c) ==> c.deep_view() == command_for_guest(
                command.deep_view(),
                self.deep_view().config.container.id,
                self.deep_view().config.options.working_dir,
            ),
    {
        self.check_valid()?;
        let command = if command.sets_env(CONTAINER_ENV_VAR) {
            command
        } else {
            command.env(CONTAINER_ENV_VAR, self.container_id())
        };
        let working_dir = match command.working_dir {
            Some(d) => Some(d),
            None => clone_option(&self.config.options.working_dir),
        };
        Ok(
            BoxCommand {
                program: command.program,
                args: command.args,
                env: command.env,
                working_dir,
                tty: command.tty,
            },
        )
    }

    /// Counts a command that was sent to the guest, in the box and in the
    /// runtime, and its failure if it failed.
    pub fn record_exec(&self, runtime_metrics: &RuntimeMetricsStorage, failed: bool) {
        match &self.live {
            Some(live) => {
                live.metrics.increment_commands_executed();
                if failed {
                    live.metrics.increment_exec_errors();
                }
            },
            None => {},
        }
        runtime_metrics.record_command(failed);
    }

    /// Accepts a copy into or out of the box: the handle must be valid and
    /// the path in the box not empty.
    pub fn check_copy(&self, container_path: &str) -> (r: Result<(), BoxliteError>)
        ensures
            r is Ok <==> !self.deep_view().invalidated && container_path@.len() > 0,
            r matches Err(e) ==> e.deep_view() == if self.deep_view().invalidated {
                stopped_failure()
            } else {
                empty_destination_failure()
            },
    {
        self.check_valid()?;
        if container_path.unicode_len() == 0 {
            return Err(BoxliteError::Config("destination path must not be empty".to_string()));
        }
        Ok(())
    }

    /// Accepts a metrics call: the handle must be valid.
    pub fn check_metrics(&self) -> (r: Result<(), BoxliteError>)
        ensures
            r is Err <==> self.deep_view().invalidated,
            r matches Err(e) ==> e.deep_view() == stopped_failure(),
    {
        self.check_valid()
    }

    /// Stops the box at time `now` and returns what to do on the host, in
    /// order.
    ///
    /// A box that is stopped already, or whose status is unknown, which
    /// reads as stopped, needs nothing and the handle is left as it is. A
    /// box that is configured or running is stopped: the handle is
    /// invalidated, gives up what it held, and the steps say what is left
    /// to do. A box in any other status fails with `InvalidState`.
    pub fn stop(&mut self, now: Timestamp) -> (r: Result<Vec<StopStep>, BoxliteError>)
        ensures
            ({
                let before = old(self).deep_view();
                let status = before.state.status;
                if status == BoxStatus::Stopped || status == BoxStatus::Unknown {
                    &&& r matches Ok(steps) && steps.deep_view() == Seq::<StopStepView>::empty()
                    &&& final(self).deep_view() == (BoxImplView {
                        state: resolved(before.state, now),
                        ..before
                    })
                } else if status == BoxStatus::Configured || status == BoxStatus::Running {
                    &&& r matches Ok(steps) && steps.deep_view() == stop_steps(before, now)
                    &&& final(self).deep_view() == stopped_box(before, now)
                } else {
                    &&& r matches Err(e) && e.spec_kind() == ErrorKind::InvalidState
                    &&& final(self).deep_view() == before
                }
            }),
    {
        let ghost before = self.deep_view();
        let mut steps: Vec<StopStep> = Vec::new();
        match self.state.status {
            BoxStatus::Stopped => {
                assert(steps.deep_view() =~= Seq::empty());
                return Ok(steps);
            },
            BoxStatus::Unknown => {
                self.state = self.state.resolve(now);
                assert(steps.deep_view() =~= Seq::empty());
                return Ok(steps);
            },
            _ => {},
        }
        let fresh_row = self.state.lock_id.is_none();
        let mut next = self.state;
        next.transition_at(BoxStatus::Stopped, now)?;
        self.invalidated = true;
        match self.live.take() {
            Some(live) => {
                steps.push(StopStep::ShutdownGuest);
                steps.push(StopStep::StopMachine { pid: live.handler.pid() });
            },
            None => {},
        }
        self.state = next;
        steps.push(StopStep::DeletePidFile);
        steps.push(StopStep::PersistState { state: next, fresh_row });
        steps.push(
            StopStep::InvalidateCache {
                id: self.config.id.clone(),
                name: clone_option(&self.config.name),
            },
        );
        if self.config.options.auto_remove {
            steps.push(StopStep::Remove { id: self.config.id.clone() });
        }
        assert(steps.deep_view() =~= stop_steps(before, now));
        Ok(steps)
    }
}

// ============================================================================
// Laws of the handle
// ============================================================================

/// After a stop that took effect the handle is invalidated, the box is
/// stopped and holds nothing, and it has no PID.
pub proof fn lemma_stop_invalidates(before: BoxImplView, now: Timestamp)
    ensures
        stopped_box(before, now).invalidated,
        stopped_box(before, now).state.status == BoxStatus::Stopped,
        stopped_box(before, now).state.pid is None,
        stopped_box(before, now).live is None,
        stopped_box(before, now).config == before.config,
{
}

/// The steps of a stop end by persisting the stopped state and dropping
/// the cache entries, in that order; the box is removed after that, and
/// only if it asked to be. The machine is stopped only if the box held
/// one, and only after the guest was asked to shut down.
pub proof fn lemma_stop_steps_shape(before: BoxImplView, now: Timestamp)
    ensures
        ({
            let steps = stop_steps(before, now);
            let base: int = if before.live is Some {
                2
            } else {
                0
            };
            &&& steps.len() == base + 3 + if before.config.options.auto_remove {
                1int
            } else {
                0int
            }
            &&& before.live is Some ==> steps[0] == StopStepView::ShutdownGuest && steps[1]
                is StopMachine
            &&& steps[base] == StopStepView::DeletePidFile
            &&& steps[base + 1] is PersistState
            &&& steps[base + 2] == (StopStepView::InvalidateCache {
                id: before.config.id,
                name: before.config.name,
            })
            &&& before.config.options.auto_remove ==> steps[base + 3] == (StopStepView::Remove {
                id: before.config.id,
            })
        }),
{
}

} // verus!
