//! Bringing a box up: which plan to run, what to keep when it succeeds,
//! and what to undo when it fails.
//!
//! ```text
//! Configured (first start), Stopped (restart):
//!   1. Filesystem
//!   2. ContainerRootfs ─┬─
//!      GuestRootfs     ─┘
//!   3. VmmSpawn
//!   4. GuestConnect
//!   5. GuestInit
//!
//! Running (reattach):
//!   1. VmmAttach
//!   2. GuestConnect
//! ```
//!
//! A restart runs the stages of a first start but reuses the root
//! filesystem, which holds what the user wrote. A reattach does not wait
//! for the guest: it is already up.

use std::sync::Arc;
use std::sync::atomic::AtomicU64;
use std::sync::atomic::Ordering;
use vstd::prelude::*;

use crate::bind_mount::BindMountHandle;
use crate::bind_mount::MountView;
use crate::clock::Timestamp;
use crate::config::BoxConfig;
use crate::config::BoxConfigView;
use crate::error::BoxliteError;
use crate::error::ErrorKind;
use crate::error::ErrorView;
use crate::layout::join;
use crate::layout::join_path;
use crate::options::options_valid;
use crate::pipeline::duration_of;
use crate::pipeline::single;
use crate::pipeline::together;
use crate::pipeline::ExecutionPlan;
use crate::pipeline::InitTask;
use crate::pipeline::PipelineMetrics;
use crate::pipeline::Stage;
use crate::pipeline::StageView;
use crate::shim::ShimHandler;
use crate::shim::ShimHandlerView;
use crate::state::recovered;
use crate::state::resolved;
use crate::state::status_name;
use crate::state::PidProbe;
use crate::state::BoxState;
use crate::state::BoxStatus;
use crate::text::chars_of;
use crate::text::push_str;
use crate::text::string_of;
use crate::vmm::DiskFormat;
use crate::vmm::Transport;
use crate::vmm::TransportView;

verus! {

// ============================================================================
// Plans
// ============================================================================

/// A box can be built when it is configured, stopped or running.
pub open spec fn can_build(status: BoxStatus) -> bool {
    status == BoxStatus::Configured || status == BoxStatus::Stopped || status
        == BoxStatus::Running
}

/// The stages that bring up a box found in the given status.
pub open spec fn plan_for(status: BoxStatus) -> Seq<StageView> {
    if status == BoxStatus::Running {
        seq![single(InitTask::VmmAttach), single(InitTask::GuestConnect)]
    } else {
        seq![
            single(InitTask::Filesystem),
            together(InitTask::ContainerRootfs, InitTask::GuestRootfs),
            single(InitTask::VmmSpawn),
            single(InitTask::GuestConnect),
            single(InitTask::GuestInit),
        ]
    }
}

/// The failure reported for a box that cannot be built in its status.
pub open spec fn cannot_build_failure(status: BoxStatus) -> ErrorView {
    ErrorView {
        kind: ErrorKind::InvalidState,
        message: "cannot start a box that is "@ + status_name(status),
    }
}

fn one(task: InitTask) -> (r: Stage)
    ensures
        r.deep_view() == single(task),
{
    let mut tasks: Vec<InitTask> = Vec::new();
    tasks.push(task);
    assert(tasks@ =~= seq![task]);
    Stage::sequential(tasks)
}

fn both(a: InitTask, b: InitTask) -> (r: Stage)
    ensures
        r.deep_view() == together(a, b),
{
    let mut tasks: Vec<InitTask> = Vec::new();
    tasks.push(a);
    tasks.push(b);
    assert(tasks@ =~= seq![a, b]);
    Stage::parallel(tasks)
}

/// The plan of a status in which a box can be built.
fn buildable_plan(status: BoxStatus) -> (r: ExecutionPlan)
    requires
        can_build(status),
    ensures
        r.deep_view() == plan_for(status),
{
    let mut stages: Vec<Stage> = Vec::new();
    if let BoxStatus::Running = status {
        stages.push(one(InitTask::VmmAttach));
        stages.push(one(InitTask::GuestConnect));
    } else {
        stages.push(one(InitTask::Filesystem));
        stages.push(both(InitTask::ContainerRootfs, InitTask::GuestRootfs));
        stages.push(one(InitTask::VmmSpawn));
        stages.push(one(InitTask::GuestConnect));
        stages.push(one(InitTask::GuestInit));
    }
    assert(stages.deep_view() =~= plan_for(status));
    ExecutionPlan::new(stages)
}

/// The plan that brings up a box found in the given status, or
/// `InvalidState` for a status in which a box cannot be built: then
/// there is no plan, and no stage runs.
pub fn get_execution_plan(status: BoxStatus) -> (r: Result<ExecutionPlan, BoxliteError>)
    ensures
        r is Ok <==> can_build(status),
        r matches Ok(plan) ==> plan.deep_view() == plan_for(status),
        r matches Err(e) ==> e.deep_view() == cannot_build_failure(status),
{
    match status {
        BoxStatus::Configured => Ok(buildable_plan(status)),
        BoxStatus::Stopped => Ok(buildable_plan(status)),
        BoxStatus::Running => Ok(buildable_plan(status)),
        _ => {
            let mut m = chars_of("cannot start a box that is ");
            push_str(&mut m, status.as_str());
            Err(BoxliteError::InvalidState(string_of(&m)))
        },
    }
}

/// Whether a plan holds a task.
pub open spec fn plan_holds(plan: Seq<StageView>, task: InitTask) -> bool {
    exists|i: int, j: int|
        0 <= i < plan.len() && 0 <= j < plan[i].tasks.len() && #[trigger] plan[i].tasks[j] == task
}

/// A box found running is attached to, never spawned again: its plan
/// spawns no machine, prepares no root filesystem and does not initialise
/// the guest a second time. Every other plan spawns exactly where no
/// machine runs, and never attaches.
pub proof fn lemma_running_box_is_not_spawned_again(status: BoxStatus)
    ensures
        status == BoxStatus::Running ==> !plan_holds(plan_for(status), InitTask::VmmSpawn)
            && !plan_holds(plan_for(status), InitTask::ContainerRootfs) && !plan_holds(
            plan_for(status),
            InitTask::GuestInit,
        ) && plan_holds(plan_for(status), InitTask::VmmAttach),
        status != BoxStatus::Running ==> plan_holds(plan_for(status), InitTask::VmmSpawn)
            && !plan_holds(plan_for(status), InitTask::VmmAttach),
{
    let plan = plan_for(status);
    if status == BoxStatus::Running {
        assert(plan[0].tasks[0] == InitTask::VmmAttach);
        assert forall|i: int, j: int|
            0 <= i < plan.len() && 0 <= j < plan[i].tasks.len() implies #[trigger] plan[i].tasks[j]
            != InitTask::VmmSpawn && plan[i].tasks[j] != InitTask::ContainerRootfs
            && plan[i].tasks[j] != InitTask::GuestInit by {
            if i == 0 {
                assert(plan[0] == single(InitTask::VmmAttach));
            } else {
                assert(plan[1] == single(InitTask::GuestConnect));
            }
        }
    } else {
        assert(plan[2].tasks[0] == InitTask::VmmSpawn);
        assert forall|i: int, j: int|
            0 <= i < plan.len() && 0 <= j < plan[i].tasks.len() implies #[trigger] plan[i].tasks[j]
            != InitTask::VmmAttach by {
            if i == 0 {
                assert(plan[0] == single(InitTask::Filesystem));
            } else if i == 1 {
                assert(plan[1] == together(InitTask::ContainerRootfs, InitTask::GuestRootfs));
            } else if i == 2 {
                assert(plan[2] == single(InitTask::VmmSpawn));
            } else if i == 3 {
                assert(plan[3] == single(InitTask::GuestConnect));
            } else {
                assert(plan[4] == single(InitTask::GuestInit));
            }
        }
    }
}

/// Two starts of one box under its lock spawn one machine. The lock lets
/// one start run at a time, and each reads the PID file once it holds the
/// lock. The first finds no PID file: the box is built by the plan of the
/// status recorded, which spawns. The second finds the PID file that the
/// first left, of a process that is alive: whatever state was recorded,
/// the box is found running under that process, and its plan attaches,
/// spawns nothing, and does not wait for the guest.
pub proof fn lemma_second_start_attaches(
    recorded: BoxState,
    seen_by_second: BoxState,
    pid: u32,
    alive_before: bool,
    t1: Timestamp,
    t2: Timestamp,
)
    requires
        recorded.status == BoxStatus::Configured || recorded.status == BoxStatus::Stopped,
    ensures
        ({
            let first = resolved(
                recovered(recorded, PidProbe { pid: None, alive: alive_before }, t1),
                t1,
            );
            let second = resolved(
                recovered(seen_by_second, PidProbe { pid: Some(pid), alive: true }, t2),
                t2,
            );
            &&& first.status == recorded.status
            &&& can_build(first.status)
            &&& plan_holds(plan_for(first.status), InitTask::VmmSpawn)
            &&& second.status == BoxStatus::Running
            &&& second.pid == Some(pid)
            &&& can_build(second.status)
            &&& !plan_holds(plan_for(second.status), InitTask::VmmSpawn)
            &&& plan_holds(plan_for(second.status), InitTask::VmmAttach)
            &&& build_mode_of(second.status).skip_guest_wait
        }),
{
    lemma_running_box_is_not_spawned_again(BoxStatus::Running);
    lemma_running_box_is_not_spawned_again(recorded.status);
}

// ============================================================================
// Timings
// ============================================================================

/// How long the stages of bringing a box up took, in milliseconds.
#[derive(Clone, Copy, Debug, PartialEq, Eq, Structural)]
pub struct StageTimings {
    pub filesystem_setup_ms: Option<u128>,
    pub image_prepare_ms: Option<u128>,
    pub guest_rootfs_ms: Option<u128>,
    /// Spawning the machine, or attaching to it.
    pub box_spawn_ms: Option<u128>,
    pub container_init_ms: Option<u128>,
    /// From the first stage to the last.
    pub total_create_ms: Option<u128>,
}

/// The timings that a pipeline's record gives. Where the record holds both
/// a spawn and an attach, the attach counts.
pub open spec fn timings_of(entries: Seq<(Seq<char>, u128)>) -> StageTimings {
    StageTimings {
        filesystem_setup_ms: duration_of(entries, "filesystem_setup"@),
        image_prepare_ms: duration_of(entries, "container_rootfs_prep"@),
        guest_rootfs_ms: duration_of(entries, "guest_rootfs_init"@),
        box_spawn_ms: match duration_of(entries, "vmm_attach"@) {
            Some(d) => Some(d),
            None => duration_of(entries, "vmm_spawn"@),
        },
        container_init_ms: duration_of(entries, "guest_init"@),
        total_create_ms: None,
    }
}

/// The metrics of one box: the timings of its start and counters of the
/// commands run in it. A copy shares the counters.
#[derive(Clone)]
pub struct BoxMetricsStorage {
    pub timings: StageTimings,
    /// Commands run in the box.
    pub commands_executed: Arc<AtomicU64>,
    /// Commands that failed to run.
    pub exec_errors: Arc<AtomicU64>,
}

impl BoxMetricsStorage {
    /// No timings, counters at zero.
    pub fn new() -> (r: BoxMetricsStorage)
        ensures
            r.timings == timings_of(Seq::empty()),
    {
        assert(duration_of(Seq::empty(), "filesystem_setup"@) is None);
        BoxMetricsStorage {
            timings: StageTimings {
                filesystem_setup_ms: None,
                image_prepare_ms: None,
                guest_rootfs_ms: None,
                box_spawn_ms: None,
                container_init_ms: None,
                total_create_ms: None,
            },
            commands_executed: Arc::new(AtomicU64::new(0)),
            exec_errors: Arc::new(AtomicU64::new(0)),
        }
    }

    pub fn set_total_create_duration(&mut self, duration_ms: u128)
        ensures
            final(self).timings == (StageTimings {
                total_create_ms: Some(duration_ms),
                ..old(self).timings
            }),
    {
        self.timings.total_create_ms = Some(duration_ms);
    }

    /// Counts a command run in the box.
    pub fn increment_commands_executed(&self) {
        let _ = self.commands_executed.fetch_add(1, Ordering::Relaxed);
    }

    /// Counts a command that failed to run.
    pub fn increment_exec_errors(&self) {
        let _ = self.exec_errors.fetch_add(1, Ordering::Relaxed);
    }

    /// Commands run in the box so far.
    pub fn commands_executed_total(&self) -> u64 {
        self.commands_executed.load(Ordering::Relaxed)
    }

    /// Commands that failed to run so far.
    pub fn exec_errors_total(&self) -> u64 {
        self.exec_errors.load(Ordering::Relaxed)
    }
}

/// The metrics of a box whose start left the given record.
pub fn box_metrics_from_pipeline(pipeline_metrics: &PipelineMetrics) -> (r: BoxMetricsStorage)
    ensures
        r.timings == timings_of(pipeline_metrics.deep_view()),
{
    let mut metrics = BoxMetricsStorage::new();
    metrics.timings.filesystem_setup_ms = pipeline_metrics.task_duration_ms("filesystem_setup");
    metrics.timings.image_prepare_ms = pipeline_metrics.task_duration_ms("container_rootfs_prep");
    metrics.timings.guest_rootfs_ms = pipeline_metrics.task_duration_ms("guest_rootfs_init");
    metrics.timings.box_spawn_ms = pipeline_metrics.task_duration_ms("vmm_spawn");
    match pipeline_metrics.task_duration_ms("vmm_attach") {
        Some(d) => {
            metrics.timings.box_spawn_ms = Some(d);
        },
        None => {},
    }
    metrics.timings.container_init_ms = pipeline_metrics.task_duration_ms("guest_init");
    metrics
}

// ============================================================================
// What a running box holds
// ============================================================================

/// A disk image of a box.
#[derive(Clone, Debug)]
pub struct Disk {
    pub path: String,
    pub format: DiskFormat,
    /// A persistent disk is kept when the box stops.
    pub persistent: bool,
}

pub struct DiskView {
    pub path: Seq<char>,
    pub format: DiskFormat,
    pub persistent: bool,
}

impl DeepView for Disk {
    type V = DiskView;

    open spec fn deep_view(&self) -> DiskView {
        DiskView { path: self.path@, format: self.format, persistent: self.persistent }
    }
}

/// The file name of the copy-on-write disk of a box.
pub const ROOT_DISK: &'static str = "root.qcow2";

/// The disk that a running box was started on: `root.qcow2` in the box's
/// directory.
pub open spec fn existing_root_disk(box_home: Seq<char>) -> DiskView {
    DiskView { path: join_path(box_home, ROOT_DISK@), format: DiskFormat::Qcow2, persistent: true }
}

/// A session with the guest agent. Calls open one stream each over the
/// transport.
#[derive(Clone, Debug)]
pub struct GuestSession {
    pub transport: Transport,
}

impl GuestSession {
    pub fn new(transport: Transport) -> (r: GuestSession)
        ensures
            r.transport.deep_view() == transport.deep_view(),
    {
        GuestSession { transport }
    }
}

/// What a box holds while it runs in this process.
pub struct LiveState {
    pub handler: ShimHandler,
    pub guest_session: GuestSession,
    pub metrics: BoxMetricsStorage,
    pub container_rootfs_disk: Disk,
    pub guest_rootfs_disk: Option<Disk>,
    pub bind_mount: Option<BindMountHandle>,
}

pub struct LiveStateView {
    pub handler: ShimHandlerView,
    pub transport: TransportView,
    pub timings: StageTimings,
    pub container_rootfs_disk: DiskView,
    pub guest_rootfs_disk: Option<DiskView>,
    pub bind_mount: Option<MountView>,
}

impl DeepView for LiveState {
    type V = LiveStateView;

    open spec fn deep_view(&self) -> LiveStateView {
        LiveStateView {
            handler: self.handler.deep_view(),
            transport: self.guest_session.transport.deep_view(),
            timings: self.metrics.timings,
            container_rootfs_disk: self.container_rootfs_disk.deep_view(),
            guest_rootfs_disk: self.guest_rootfs_disk.deep_view(),
            bind_mount: self.bind_mount.deep_view(),
        }
    }
}

impl LiveState {
    pub fn new(
        handler: ShimHandler,
        guest_session: GuestSession,
        metrics: BoxMetricsStorage,
        container_rootfs_disk: Disk,
        guest_rootfs_disk: Option<Disk>,
        bind_mount: Option<BindMountHandle>,
    ) -> (r: LiveState)
        ensures
            r.deep_view() == (LiveStateView {
                handler: handler.deep_view(),
                transport: guest_session.transport.deep_view(),
                timings: metrics.timings,
                container_rootfs_disk: container_rootfs_disk.deep_view(),
                guest_rootfs_disk: guest_rootfs_disk.deep_view(),
                bind_mount: bind_mount.deep_view(),
            }),
    {
        LiveState {
            handler,
            guest_session,
            metrics,
            container_rootfs_disk,
            guest_rootfs_disk,
            bind_mount,
        }
    }
}

// ============================================================================
// Cleanup on failure
// ============================================================================

/// Something a start has created and must undo if it fails.
#[derive(Clone, Debug)]
pub enum Resource {
    /// A directory.
    Directory { path: String },
    /// A disk image.
    DiskImage { path: String },
    /// A bind mount.
    Mount { target: String },
    /// A socket file.
    Socket { path: String },
}

pub enum ResourceView {
    Directory { path: Seq<char> },
    DiskImage { path: Seq<char> },
    Mount { target: Seq<char> },
    Socket { path: Seq<char> },
}

impl DeepView for Resource {
    type V = ResourceView;

    open spec fn deep_view(&self) -> ResourceView {
        match self {
            Resource::Directory { path } => ResourceView::Directory { path: path@ },
            Resource::DiskImage { path } => ResourceView::DiskImage { path: path@ },
            Resource::Mount { target } => ResourceView::Mount { target: target@ },
            Resource::Socket { path } => ResourceView::Socket { path: path@ },
        }
    }
}

/// One step of undoing a failed start.
#[derive(Clone, Debug)]
pub enum CleanupAction {
    /// Stop the process that hosts the machine, and reap it.
    StopMachine { pid: u32 },
    /// Remove the resource.
    Release { resource: Resource },
}

pub enum CleanupActionView {
    StopMachine { pid: u32 },
    Release { resource: ResourceView },
}

impl DeepView for CleanupAction {
    type V = CleanupActionView;

    open spec fn deep_view(&self) -> CleanupActionView {
        match self {
            CleanupAction::StopMachine { pid } => CleanupActionView::StopMachine { pid: *pid },
            CleanupAction::Release { resource } => CleanupActionView::Release {
                resource: resource.deep_view(),
            },
        }
    }
}

/// Holds what a start has created until the start has succeeded.
///
/// Giving up an armed guard undoes what it holds. A machine that the start
/// spawned is stopped first; one that it only attached to is left running.
/// Then the resources are released, the last created first.
#[derive(Debug)]
pub struct CleanupGuard {
    armed: bool,
    handler: Option<ShimHandler>,
    created: Vec<Resource>,
}

pub struct CleanupGuardView {
    pub armed: bool,
    pub handler: Option<ShimHandlerView>,
    /// In the order of creation.
    pub created: Seq<ResourceView>,
}

impl DeepView for CleanupGuard {
    type V = CleanupGuardView;

    closed spec fn deep_view(&self) -> CleanupGuardView {
        CleanupGuardView {
            armed: self.armed,
            handler: self.handler.deep_view(),
            created: self.created.deep_view(),
        }
    }
}

/// What giving up the guard undoes, in order.
pub open spec fn cleanup_actions(guard: CleanupGuardView) -> Seq<CleanupActionView> {
    if !guard.armed {
        Seq::empty()
    } else {
        let machine = match guard.handler {
            Some(h) => if h.owned {
                seq![CleanupActionView::StopMachine { pid: h.pid }]
            } else {
                Seq::empty()
            },
            None => Seq::empty(),
        };
        machine + Seq::new(
            guard.created.len(),
            |i: int| CleanupActionView::Release { resource: guard.created[guard.created.len() - 1 - i] },
        )
    }
}

impl CleanupGuard {
    /// An armed guard that holds nothing.
    pub fn new() -> (r: CleanupGuard)
        ensures
            r.deep_view() == (CleanupGuardView {
                armed: true,
                handler: None,
                created: Seq::empty(),
            }),
    {
        let r = CleanupGuard { armed: true, handler: None, created: Vec::new() };
        assert(r.created.deep_view() =~= Seq::empty());
        r
    }

    /// Records a resource that was just created.
    pub fn track(&mut self, resource: Resource)
        ensures
            final(self).deep_view() == (CleanupGuardView {
                created: old(self).deep_view().created.push(resource.deep_view()),
                ..old(self).deep_view()
            }),
    {
        let ghost before = self.created.deep_view();
        self.created.push(resource);
        assert(self.created.deep_view() =~= before.push(resource.deep_view()));
    }

    /// Hands the machine's handler to the guard.
    pub fn set_handler(&mut self, handler: ShimHandler)
        ensures
            final(self).deep_view() == (CleanupGuardView {
                handler: Some(handler.deep_view()),
                ..old(self).deep_view()
            }),
    {
        self.handler = Some(handler);
    }

    /// Takes the machine's handler back from the guard.
    pub fn take_handler(&mut self) -> (r: Option<ShimHandler>)
        ensures
            r.deep_view() == old(self).deep_view().handler,
            final(self).deep_view() == (CleanupGuardView { handler: None, ..old(self).deep_view() }),
    {
        self.handler.take()
    }

    /// Disarms the guard: giving it up undoes nothing.
    pub fn disarm(&mut self)
        ensures
            final(self).deep_view() == (CleanupGuardView { armed: false, ..old(self).deep_view() }),
    {
        self.armed = false;
    }

    pub fn is_armed(&self) -> (r: bool)
        ensures
            r == self.deep_view().armed,
    {
        self.armed
    }

    /// Gives up the guard. Returns what must be undone, in order.
    pub fn release(self) -> (r: Vec<CleanupAction>)
        ensures
            r.deep_view() == cleanup_actions(self.deep_view()),
    {
        let mut actions: Vec<CleanupAction> = Vec::new();
        if !self.armed {
            assert(actions.deep_view() =~= Seq::empty());
            return actions;
        }
        match &self.handler {
            Some(h) => {
                if h.is_owned() {
                    actions.push(CleanupAction::StopMachine { pid: h.pid() });
                }
            },
            None => {},
        }
        let ghost machine = actions.deep_view();
        let ghost view = self.deep_view();
        let n = self.created.len();
        let mut i: usize = 0;
        while i < n
            invariant
                i <= n,
                n == self.created.len(),
                view == self.deep_view(),
                actions.deep_view() == machine + Seq::new(
                    i as nat,
                    |k: int| CleanupActionView::Release { resource: view.created[n - 1 - k] },
                ),
            decreases n - i,
        {
            let ghost before = actions.deep_view();
            let resource = duplicate_resource(&self.created[n - 1 - i]);
            actions.push(CleanupAction::Release { resource });
            assert(actions.deep_view() =~= before.push(
                CleanupActionView::Release { resource: view.created[n - 1 - i] },
            ));
            i += 1;
        }
        assert(actions.deep_view() =~= cleanup_actions(view));
        actions
    }
}

fn duplicate_resource(resource: &Resource) -> (r: Resource)
    ensures
        r.deep_view() == resource.deep_view(),
{
    match resource {
        Resource::Directory { path } => Resource::Directory { path: path.clone() },
        Resource::DiskImage { path } => Resource::DiskImage { path: path.clone() },
        Resource::Mount { target } => Resource::Mount { target: target.clone() },
        Resource::Socket { path } => Resource::Socket { path: path.clone() },
    }
}

/// A disarmed guard undoes nothing, and an armed guard that holds nothing
/// has nothing to undo. An armed guard undoes every resource once, the
/// last created first, after stopping a machine that the start spawned.
pub proof fn lemma_cleanup_order(guard: CleanupGuardView)
    ensures
        !guard.armed ==> cleanup_actions(guard).len() == 0,
        guard.armed && guard.handler is None ==> cleanup_actions(guard).len()
            == guard.created.len(),
        guard.armed && guard.handler is None ==> forall|i: int|
            0 <= i < guard.created.len() ==> #[trigger] cleanup_actions(guard)[i] == (
            CleanupActionView::Release { resource: guard.created[guard.created.len() - 1 - i] }),
        guard.armed && (guard.handler matches Some(h) && h.owned) ==> cleanup_actions(guard)[0] == (
        CleanupActionView::StopMachine { pid: guard.handler->0.pid }),
{
}

// ============================================================================
// The builder
// ============================================================================

/// How a box is brought up, by the status it is found in.
#[derive(Clone, Copy, Debug, PartialEq, Eq, Structural)]
pub struct BuildMode {
    /// Reuse the root filesystem of the last run. Nothing is pulled.
    pub reuse_rootfs: bool,
    /// Do not wait for the guest's ready signal.
    pub skip_guest_wait: bool,
}

/// A restart reuses the root filesystem; a reattach does not wait for the
/// guest.
pub open spec fn build_mode_of(status: BoxStatus) -> BuildMode {
    BuildMode {
        reuse_rootfs: status == BoxStatus::Stopped,
        skip_guest_wait: status == BoxStatus::Running,
    }
}

/// What the stages of a start have produced.
pub struct BuildProducts {
    /// The session opened by the guest connect stage.
    pub guest_session: Option<GuestSession>,
    /// The container's disk, from the root filesystem stage.
    pub container_disk: Option<Disk>,
    /// The guest's disk, where the engine needs one.
    pub guest_disk: Option<Disk>,
    pub bind_mount: Option<BindMountHandle>,
}

/// An internal failure with the given message.
pub open spec fn internal_failure(message: Seq<char>) -> ErrorView {
    ErrorView { kind: ErrorKind::Internal, message }
}

/// Brings up one box.
pub struct BoxBuilder {
    config: BoxConfig,
    state: BoxState,
}

impl BoxBuilder {
    pub closed spec fn spec_config(&self) -> BoxConfigView {
        self.config.deep_view()
    }

    pub closed spec fn spec_state(&self) -> BoxState {
        self.state
    }

    /// A builder for a box with the given configuration, found in the
    /// given state. Fails with `Config` unless the options are valid.
    pub fn new(config: BoxConfig, state: BoxState) -> (r: Result<BoxBuilder, BoxliteError>)
        ensures
            r is Ok <==> options_valid(config.deep_view().options),
            r matches Ok(b) ==> b.spec_config() == config.deep_view() && b.spec_state() == state,
            r matches Err(e) ==> e.spec_kind() == ErrorKind::Config,
    {
        config.options.sanitize()?;
        Ok(BoxBuilder { config, state })
    }

    /// A builder for a box as it is found under its lock at time `now`.
    ///
    /// The state recorded for the box is set right by what the PID file
    /// says, and an unknown status reads as stopped: a box whose machine
    /// is alive is found running, whatever was recorded, and a box whose
    /// machine is gone is found stopped. Fails with `Config` unless the
    /// options are valid.
    pub fn under_lock(config: BoxConfig, recorded: BoxState, probe: PidProbe, now: Timestamp) -> (r:
        Result<BoxBuilder, BoxliteError>)
        ensures
            r is Ok <==> options_valid(config.deep_view().options),
            r matches Ok(b) ==> b.spec_config() == config.deep_view() && b.spec_state()
                == resolved(recovered(recorded, probe, now), now),
            r matches Err(e) ==> e.spec_kind() == ErrorKind::Config,
    {
        let found = recorded.recover(probe, now).resolve(now);
        BoxBuilder::new(config, found)
    }

    pub fn status(&self) -> (r: BoxStatus)
        ensures
            r == self.spec_state().status,
    {
        self.state.status
    }

    /// How the box is brought up.
    pub fn mode(&self) -> (r: BuildMode)
        ensures
            r == build_mode_of(self.spec_state().status),
    {
        BuildMode {
            reuse_rootfs: match self.state.status {
                BoxStatus::Stopped => true,
                _ => false,
            },
            skip_guest_wait: match self.state.status {
                BoxStatus::Running => true,
                _ => false,
            },
        }
    }

    /// The plan to run, or `InvalidState` for a box that cannot be built
    /// in its status.
    pub fn plan(&self) -> (r: Result<ExecutionPlan, BoxliteError>)
        ensures
            r is Ok <==> can_build(self.spec_state().status),
            r matches Ok(plan) ==> plan.deep_view() == plan_for(self.spec_state().status),
            r matches Err(e) ==> e.deep_view() == cannot_build_failure(self.spec_state().status),
    {
        get_execution_plan(self.state.status)
    }

    /// Ends a start whose stages have all succeeded: takes the handler
    /// from the guard, disarms the guard and gathers what the box holds
    /// while it runs.
    ///
    /// Fails with `Internal` where a stage did not leave what it owes: the
    /// handler, the session, or the container's disk. The guard stays
    /// armed only where the handler is missing. A box found running is
    /// given the disk it was started on, and no guest disk.
    pub fn build(
        self,
        guard: &mut CleanupGuard,
        products: BuildProducts,
        pipeline_metrics: &PipelineMetrics,
        total_create_duration_ms: u128,
    ) -> (r: Result<LiveState, BoxliteError>)
        ensures
            old(guard).deep_view().handler is None ==> {
                &&& r matches Err(e) && e.deep_view() == internal_failure("handler was not set"@)
                &&& final(guard).deep_view() == old(guard).deep_view()
            },
            old(guard).deep_view().handler is Some ==> final(guard).deep_view() == (
            CleanupGuardView { armed: false, handler: None, ..old(guard).deep_view() }),
            old(guard).deep_view().handler is Some && products.guest_session is None ==> (r matches Err(
                e,
            ) && e.deep_view() == internal_failure("guest_connect task must run first"@)),
            old(guard).deep_view().handler is Some && products.guest_session is Some
                && self.spec_state().status != BoxStatus::Running && products.container_disk
                is None ==> (r matches Err(e) && e.deep_view() == internal_failure(
                "rootfs task must run first"@,
            )),
            r is Ok <==> old(guard).deep_view().handler is Some && products.guest_session is Some
                && (self.spec_state().status == BoxStatus::Running || products.container_disk
                is Some),
            r matches Ok(live) ==> live.deep_view() == (LiveStateView {
                handler: old(guard).deep_view().handler->0,
                transport: products.guest_session->0.transport.deep_view(),
                timings: StageTimings {
                    total_create_ms: Some(total_create_duration_ms),
                    ..timings_of(pipeline_metrics.deep_view())
                },
                container_rootfs_disk: if self.spec_state().status == BoxStatus::Running {
                    existing_root_disk(self.spec_config().box_home)
                } else {
                    products.container_disk->0.deep_view()
                },
                guest_rootfs_disk: if self.spec_state().status == BoxStatus::Running {
                    None
                } else {
                    products.guest_disk.deep_view()
                },
                bind_mount: products.bind_mount.deep_view(),
            }),
    {
        let handler = match guard.take_handler() {
            Some(h) => h,
            None => {
                return Err(BoxliteError::Internal("handler was not set".to_string()));
            },
        };
        let mut metrics = box_metrics_from_pipeline(pipeline_metrics);
        metrics.set_total_create_duration(total_create_duration_ms);
        guard.disarm();
        let guest_session = match products.guest_session {
            Some(s) => s,
            None => {
                return Err(
                    BoxliteError::Internal("guest_connect task must run first".to_string()),
                );
            },
        };
        let reattach = match self.state.status {
            BoxStatus::Running => true,
            _ => false,
        };
        let (container_disk, guest_disk) = if reattach {
            let disk = Disk {
                path: join(self.config.box_home.as_str(), ROOT_DISK),
                format: DiskFormat::Qcow2,
                persistent: true,
            };
            (disk, None)
        } else {
            match products.container_disk {
                Some(d) => (d, products.guest_disk),
                None => {
                    return Err(BoxliteError::Internal("rootfs task must run first".to_string()));
                },
            }
        };
        Ok(
            LiveState::new(
                handler,
                guest_session,
                metrics,
                container_disk,
                guest_disk,
                products.bind_mount,
            ),
        )
    }

    /// Ends a start, given how the run of the plan ended.
    ///
    /// Where a stage failed, the start fails with the error of the stage,
    /// unchanged, and what the guard holds is to be undone: a machine that
    /// the start spawned is stopped, and every resource released, the last
    /// created first. Where every stage succeeded the start ends as
    /// [`BoxBuilder::build`] says; if that fails, what the guard still
    /// holds is to be undone.
    pub fn conclude(
        self,
        guard: CleanupGuard,
        run: Result<BuildProducts, BoxliteError>,
        pipeline_metrics: &PipelineMetrics,
        total_create_duration_ms: u128,
    ) -> (r: StartOutcome)
        ensures
            match run {
                Err(e) => r matches StartOutcome::Failed { error, cleanup } && error.deep_view()
                    == e.deep_view() && cleanup.deep_view() == cleanup_actions(guard.deep_view()),
                Ok(products) => match build_failure(
                    guard.deep_view(),
                    products.guest_session is Some,
                    products.container_disk is Some,
                    self.spec_state().status,
                ) {
                    Some(failure) => r matches StartOutcome::Failed { error, cleanup }
                        && error.deep_view() == failure && cleanup.deep_view() == (
                    if guard.deep_view().handler is None {
                        cleanup_actions(guard.deep_view())
                    } else {
                        Seq::empty()
                    }),
                    None => r matches StartOutcome::Started { live } && live.deep_view() == (
                    LiveStateView {
                        handler: guard.deep_view().handler->0,
                        transport: products.guest_session->0.transport.deep_view(),
                        timings: StageTimings {
                            total_create_ms: Some(total_create_duration_ms),
                            ..timings_of(pipeline_metrics.deep_view())
                        },
                        container_rootfs_disk: if self.spec_state().status == BoxStatus::Running {
                            existing_root_disk(self.spec_config().box_home)
                        } else {
                            products.container_disk->0.deep_view()
                        },
                        guest_rootfs_disk: if self.spec_state().status == BoxStatus::Running {
                            None
                        } else {
                            products.guest_disk.deep_view()
                        },
                        bind_mount: products.bind_mount.deep_view(),
                    }),
                },
            },
    {
        match run {
            Err(error) => {
                let cleanup = guard.release();
                StartOutcome::Failed { error, cleanup }
            },
            Ok(products) => {
                let mut guard = guard;
                match self.build(&mut guard, products, pipeline_metrics, total_create_duration_ms) {
                    Ok(live) => StartOutcome::Started { live },
                    Err(error) => {
                        let cleanup = guard.release();
                        StartOutcome::Failed { error, cleanup }
                    },
                }
            },
        }
    }
}

/// How a start ended.
pub enum StartOutcome {
    /// Every stage succeeded: the box holds this while it runs.
    Started { live: LiveState },
    /// The start failed with the error. The steps undo what the start had
    /// created, in order.
    Failed { error: BoxliteError, cleanup: Vec<CleanupAction> },
}

/// Why a start whose stages all succeeded fails all the same, if it does:
/// a stage did not leave what it owes.
pub open spec fn build_failure(
    guard: CleanupGuardView,
    has_session: bool,
    has_container_disk: bool,
    status: BoxStatus,
) -> Option<ErrorView> {
    if guard.handler is None {
        Some(internal_failure("handler was not set"@))
    } else if !has_session {
        Some(internal_failure("guest_connect task must run first"@))
    } else if status != BoxStatus::Running && !has_container_disk {
        Some(internal_failure("rootfs task must run first"@))
    } else {
        None
    }
}

/// A failed start undoes what it created: where a stage fails after the
/// machine was spawned, the machine is stopped first, and then every
/// resource that the start created is released, the last created first.
/// A machine that the start only attached to is left running.
pub proof fn lemma_failed_start_is_undone(guard: CleanupGuardView)
    requires
        guard.armed,
    ensures
        ({
            let undo = cleanup_actions(guard);
            let machine: int = if guard.handler matches Some(h) && h.owned {
                1
            } else {
                0
            };
            &&& undo.len() == machine + guard.created.len()
            &&& machine == 1 ==> undo[0] == (CleanupActionView::StopMachine {
                pid: guard.handler->0.pid,
            })
            &&& forall|i: int|
                0 <= i < guard.created.len() ==> #[trigger] undo[machine + i] == (
                CleanupActionView::Release {
                    resource: guard.created[guard.created.len() - 1 - i],
                })
        }),
{
}

} // verus!
