//! Plans of staged work, and the record of how long each task took.
//!
//! A plan is an ordered list of stages. The tasks of a sequential stage run
//! one after the other; those of a parallel stage run together. Every task
//! has a stable name under which its duration is recorded.

use vstd::prelude::*;

use crate::error::BoxliteError;
use crate::error::ErrorView;
use crate::text::chars_of;
use crate::text::chars_eq;

verus! {

/// The tasks that bring a box up.
#[derive(Clone, Copy, Debug, PartialEq, Eq, Structural)]
pub enum InitTask {
    /// Create, or find again, the directories of the box.
    Filesystem,
    /// Prepare the root filesystem of the container.
    ContainerRootfs,
    /// Prepare the root filesystem of the guest.
    GuestRootfs,
    /// Spawn the process that hosts the machine.
    VmmSpawn,
    /// Attach to the process that already hosts the machine.
    VmmAttach,
    /// Wait for the guest and open a session with it.
    GuestConnect,
    /// Initialise the guest and the container in it.
    GuestInit,
}

/// The name under which the duration of a task is recorded.
pub open spec fn task_name(task: InitTask) -> Seq<char> {
    match task {
        InitTask::Filesystem => "filesystem_setup"@,
        InitTask::ContainerRootfs => "container_rootfs_prep"@,
        InitTask::GuestRootfs => "guest_rootfs_init"@,
        InitTask::VmmSpawn => "vmm_spawn"@,
        InitTask::VmmAttach => "vmm_attach"@,
        InitTask::GuestConnect => "guest_connect"@,
        InitTask::GuestInit => "guest_init"@,
    }
}

impl InitTask {
    pub fn name(&self) -> (r: &'static str)
        ensures
            r@ == task_name(*self),
    {
        match self {
            InitTask::Filesystem => "filesystem_setup",
            InitTask::ContainerRootfs => "container_rootfs_prep",
            InitTask::GuestRootfs => "guest_rootfs_init",
            InitTask::VmmSpawn => "vmm_spawn",
            InitTask::VmmAttach => "vmm_attach",
            InitTask::GuestConnect => "guest_connect",
            InitTask::GuestInit => "guest_init",
        }
    }
}

/// How the tasks of a stage run.
#[derive(Clone, Copy, Debug, PartialEq, Eq, Structural)]
pub enum StageKind {
    /// One after the other, in order.
    Sequential,
    /// Together. The stage fails with the first task that fails.
    Parallel,
}

/// One stage of a plan.
#[derive(Clone, Debug)]
pub struct Stage {
    pub kind: StageKind,
    pub tasks: Vec<InitTask>,
}

pub struct StageView {
    pub kind: StageKind,
    pub tasks: Seq<InitTask>,
}

impl DeepView for Stage {
    type V = StageView;

    open spec fn deep_view(&self) -> StageView {
        StageView { kind: self.kind, tasks: self.tasks@ }
    }
}

/// A stage of one task.
pub open spec fn single(task: InitTask) -> StageView {
    StageView { kind: StageKind::Sequential, tasks: seq![task] }
}

/// A stage of two tasks that run together.
pub open spec fn together(a: InitTask, b: InitTask) -> StageView {
    StageView { kind: StageKind::Parallel, tasks: seq![a, b] }
}

impl Stage {
    /// A stage whose tasks run one after the other.
    pub fn sequential(tasks: Vec<InitTask>) -> (r: Stage)
        ensures
            r.deep_view() == (StageView { kind: StageKind::Sequential, tasks: tasks@ }),
    {
        Stage { kind: StageKind::Sequential, tasks }
    }

    /// A stage whose tasks run together.
    pub fn parallel(tasks: Vec<InitTask>) -> (r: Stage)
        ensures
            r.deep_view() == (StageView { kind: StageKind::Parallel, tasks: tasks@ }),
    {
        Stage { kind: StageKind::Parallel, tasks }
    }
}

/// An ordered list of stages.
#[derive(Clone, Debug)]
pub struct ExecutionPlan {
    stages: Vec<Stage>,
}

impl DeepView for ExecutionPlan {
    type V = Seq<StageView>;

    closed spec fn deep_view(&self) -> Seq<StageView> {
        self.stages.deep_view()
    }
}

impl ExecutionPlan {
    pub fn new(stages: Vec<Stage>) -> (r: ExecutionPlan)
        ensures
            r.deep_view() == stages.deep_view(),
    {
        ExecutionPlan { stages }
    }

    pub fn stages(&self) -> (r: &Vec<Stage>)
        ensures
            r.deep_view() == self.deep_view(),
    {
        &self.stages
    }
}

/// The duration recorded under `name`: the one recorded last, if any.
pub open spec fn duration_of(entries: Seq<(Seq<char>, u128)>, name: Seq<char>) -> Option<u128>
    decreases entries.len(),
{
    if entries.len() == 0 {
        None
    } else if entries.last().0 == name {
        Some(entries.last().1)
    } else {
        duration_of(entries.drop_last(), name)
    }
}

/// How long each task of a pipeline took, in milliseconds.
#[derive(Clone, Debug)]
pub struct PipelineMetrics {
    entries: Vec<(String, u128)>,
}

impl DeepView for PipelineMetrics {
    type V = Seq<(Seq<char>, u128)>;

    /// The durations in the order they were recorded.
    closed spec fn deep_view(&self) -> Seq<(Seq<char>, u128)> {
        self.entries.deep_view()
    }
}

impl PipelineMetrics {
    pub fn new() -> (r: PipelineMetrics)
        ensures
            r.deep_view() == Seq::<(Seq<char>, u128)>::empty(),
    {
        let r = PipelineMetrics { entries: Vec::new() };
        assert(r.entries.deep_view() =~= Seq::empty());
        r
    }

    /// Records the duration of a task.
    pub fn record(&mut self, name: &str, duration_ms: u128)
        ensures
            final(self).deep_view() == old(self).deep_view().push((name@, duration_ms)),
    {
        let ghost before = self.entries.deep_view();
        self.entries.push((name.to_string(), duration_ms));
        assert(self.entries.deep_view() =~= before.push((name@, duration_ms)));
    }

    /// The duration recorded for the task of the given name.
    pub fn task_duration_ms(&self, name: &str) -> (r: Option<u128>)
        ensures
            r == duration_of(self.deep_view(), name@),
    {
        let wanted = chars_of(name);
        let mut i: usize = self.entries.len();
        let ghost entries = self.entries.deep_view();
        assert(entries.take(i as int) == entries);
        while i > 0
            invariant
                i <= self.entries.len(),
                entries == self.entries.deep_view(),
                wanted@ == name@,
                duration_of(entries, name@) == duration_of(entries.take(i as int), name@),
            decreases i,
        {
            let entry = &self.entries[i - 1];
            let found = chars_of(entry.0.as_str());
            proof {
                assert(entries.take(i as int).last() == entries[i - 1]);
                assert(entries[i - 1] == (entry.0@, entry.1));
                assert(entries.take(i as int).drop_last() == entries.take(i - 1));
            }
            if chars_eq(&found, &wanted) {
                return Some(entry.1);
            }
            i -= 1;
        }
        None
    }
}

impl Default for PipelineMetrics {
    fn default() -> (r: PipelineMetrics)
        ensures
            r.deep_view() == Seq::<(Seq<char>, u128)>::empty(),
    {
        PipelineMetrics::new()
    }
}

// ============================================================================
// Running a plan
// ============================================================================

/// What happened while a plan runs.
#[derive(Debug)]
pub enum PipelineEvent {
    /// The run begins.
    Start,
    /// A task ended well after the given time.
    TaskDone { task: InitTask, duration_ms: u128 },
    /// A task failed.
    TaskFailed { task: InitTask, error: BoxliteError },
}

pub enum PipelineEventView {
    Start,
    TaskDone { task: InitTask, duration_ms: u128 },
    TaskFailed { task: InitTask, error: ErrorView },
}

impl DeepView for PipelineEvent {
    type V = PipelineEventView;

    open spec fn deep_view(&self) -> PipelineEventView {
        match self {
            PipelineEvent::Start => PipelineEventView::Start,
            PipelineEvent::TaskDone { task, duration_ms } => PipelineEventView::TaskDone {
                task: *task,
                duration_ms: *duration_ms,
            },
            PipelineEvent::TaskFailed { task, error } => PipelineEventView::TaskFailed {
                task: *task,
                error: error.deep_view(),
            },
        }
    }
}

/// What the caller does next.
#[derive(Debug)]
pub enum PipelineAction {
    /// Start the tasks, all at once, and report how each ends.
    Run { tasks: Vec<InitTask> },
    /// Keep waiting for the tasks that run.
    Wait,
    /// Every stage is done: the run ends well.
    Complete,
    /// Cancel the tasks, then end the run with the failure.
    Abort { cancel: Vec<InitTask>, error: BoxliteError },
    /// The run has ended: the event means nothing.
    Ignore,
}

pub enum PipelineActionView {
    Run { tasks: Seq<InitTask> },
    Wait,
    Complete,
    Abort { cancel: Seq<InitTask>, error: ErrorView },
    Ignore,
}

impl DeepView for PipelineAction {
    type V = PipelineActionView;

    open spec fn deep_view(&self) -> PipelineActionView {
        match self {
            PipelineAction::Run { tasks } => PipelineActionView::Run { tasks: tasks@ },
            PipelineAction::Wait => PipelineActionView::Wait,
            PipelineAction::Complete => PipelineActionView::Complete,
            PipelineAction::Abort { cancel, error } => PipelineActionView::Abort {
                cancel: cancel@,
                error: error.deep_view(),
            },
            PipelineAction::Ignore => PipelineActionView::Ignore,
        }
    }
}

/// Where a run stands.
pub struct RunView {
    pub plan: Seq<StageView>,
    /// The stage that runs; the number of stages once the run has ended
    /// well.
    pub stage: int,
    /// The tasks of the stage that were started and have not ended.
    pub running: Seq<InitTask>,
    /// How many tasks of the stage were started so far.
    pub started: int,
    /// Whether the run has ended, well or not.
    pub ended: bool,
    /// The durations recorded so far.
    pub durations: Seq<(Seq<char>, u128)>,
}

/// The first stage at or after `from` that holds a task, or the number of
/// stages.
pub open spec fn next_stage(plan: Seq<StageView>, from: int) -> int
    decreases plan.len() - from,
{
    if from < 0 || from >= plan.len() {
        plan.len() as int
    } else if plan[from].tasks.len() > 0 {
        from
    } else {
        next_stage(plan, from + 1)
    }
}

/// The tasks to start first in a stage: the first task of a sequential
/// stage, every task of a parallel one.
pub open spec fn first_tasks(stage: StageView) -> Seq<InitTask> {
    if stage.kind == StageKind::Sequential {
        stage.tasks.take(1)
    } else {
        stage.tasks
    }
}

/// The run and the action on entering the stage that `next_stage` finds
/// from `from`.
pub open spec fn enter_stage(run: RunView, from: int) -> (RunView, PipelineActionView) {
    let s = next_stage(run.plan, from);
    if s >= run.plan.len() {
        (
            RunView { stage: run.plan.len() as int, running: Seq::empty(), started: 0, ended: true, ..run },
            PipelineActionView::Complete,
        )
    } else {
        let tasks = first_tasks(run.plan[s]);
        (
            RunView { stage: s, running: tasks, started: tasks.len() as int, ..run },
            PipelineActionView::Run { tasks },
        )
    }
}

/// The tasks of `running` without the first occurrence of `task`.
pub open spec fn without_task(running: Seq<InitTask>, task: InitTask) -> Seq<InitTask>
    decreases running.len(),
{
    if running.len() == 0 {
        running
    } else if running[0] == task {
        running.drop_first()
    } else {
        seq![running[0]] + without_task(running.drop_first(), task)
    }
}

/// Taking out the first occurrence of a task takes out the task at the
/// first position that holds it, and nothing where no position does.
pub proof fn lemma_without_task(running: Seq<InitTask>, task: InitTask, i: int)
    requires
        0 <= i <= running.len(),
        forall|j: int| 0 <= j < i ==> running[j] != task,
        i < running.len() ==> running[i] == task,
    ensures
        without_task(running, task) == if i < running.len() {
            running.remove(i)
        } else {
            running
        },
    decreases running.len(),
{
    if running.len() == 0 {
    } else if running[0] == task {
        assert(i == 0);
        assert(running.drop_first() =~= running.remove(0));
    } else {
        let rest = running.drop_first();
        assert forall|j: int| 0 <= j < i - 1 implies rest[j] != task by {
            assert(rest[j] == running[j + 1]);
        }
        lemma_without_task(rest, task, i - 1);
        if i < running.len() {
            assert(seq![running[0]] + rest.remove(i - 1) =~= running.remove(i));
        } else {
            assert(seq![running[0]] + rest =~= running);
        }
    }
}

/// The run and the action after an event.
///
/// Stages run in order, and a stage begins only when every task of the
/// stage before has ended well. The tasks of a sequential stage are
/// started one at a time. When a task fails the tasks that still run are
/// cancelled and the run ends with the failure of the task. Once the run
/// has ended, events mean nothing.
pub open spec fn run_step(run: RunView, event: PipelineEventView) -> (RunView, PipelineActionView) {
    if run.ended {
        (run, PipelineActionView::Ignore)
    } else {
        match event {
            PipelineEventView::Start => if run.started == 0 && run.running.len() == 0 {
                enter_stage(run, run.stage)
            } else {
                (run, PipelineActionView::Wait)
            },
            PipelineEventView::TaskDone { task, duration_ms } => {
                let recorded = RunView {
                    durations: run.durations.push((task_name(task), duration_ms)),
                    running: without_task(run.running, task),
                    ..run
                };
                if recorded.running.len() > 0 {
                    (recorded, PipelineActionView::Wait)
                } else if 0 <= run.stage < run.plan.len() && run.started
                    < run.plan[run.stage].tasks.len() {
                    let next = run.plan[run.stage].tasks[run.started];
                    (
                        RunView { running: seq![next], started: run.started + 1, ..recorded },
                        PipelineActionView::Run { tasks: seq![next] },
                    )
                } else {
                    enter_stage(RunView { started: 0, ..recorded }, run.stage + 1)
                }
            },
            PipelineEventView::TaskFailed { task, error } => (
                RunView { running: Seq::empty(), ended: true, ..run },
                PipelineActionView::Abort { cancel: without_task(run.running, task), error },
            ),
        }
    }
}

/// A plan that runs.
#[derive(Debug)]
pub struct PipelineExecutor {
    plan: ExecutionPlan,
    stage: usize,
    running: Vec<InitTask>,
    started: usize,
    ended: bool,
    metrics: PipelineMetrics,
}

impl DeepView for PipelineExecutor {
    type V = RunView;

    closed spec fn deep_view(&self) -> RunView {
        RunView {
            plan: self.plan.deep_view(),
            stage: self.stage as int,
            running: self.running@,
            started: self.started as int,
            ended: self.ended,
            durations: self.metrics.deep_view(),
        }
    }
}

impl PipelineExecutor {
    /// A run of the plan that has not begun.
    pub fn new(plan: ExecutionPlan) -> (r: PipelineExecutor)
        ensures
            r.deep_view() == (RunView {
                plan: plan.deep_view(),
                stage: 0,
                running: Seq::empty(),
                started: 0,
                ended: false,
                durations: Seq::empty(),
            }),
    {
        PipelineExecutor {
            plan,
            stage: 0,
            running: Vec::new(),
            started: 0,
            ended: false,
            metrics: PipelineMetrics::new(),
        }
    }

    /// The durations recorded so far.
    pub fn metrics(&self) -> (r: &PipelineMetrics)
        ensures
            r.deep_view() == self.deep_view().durations,
    {
        &self.metrics
    }

    pub fn has_ended(&self) -> (r: bool)
        ensures
            r == self.deep_view().ended,
    {
        self.ended
    }

    fn enter(&mut self, from: usize) -> (action: PipelineAction)
        requires
            !old(self).deep_view().ended,
        ensures
            (final(self).deep_view(), action.deep_view()) == enter_stage(
                old(self).deep_view(),
                from as int,
            ),
    {
        let ghost before = self.deep_view();
        let n = self.plan.stages.len();
        let mut s: usize = from;
        while s < n && self.plan.stages[s].tasks.len() == 0
            invariant
                from <= s,
                n == self.plan.stages.len(),
                n == before.plan.len(),
                self.deep_view() == before,
                next_stage(before.plan, from as int) == next_stage(before.plan, s as int),
            decreases n - s,
        {
            assert(before.plan[s as int] == self.plan.stages[s as int].deep_view());
            s += 1;
        }
        if s < n {
            assert(before.plan[s as int] == self.plan.stages[s as int].deep_view());
            assert(next_stage(before.plan, s as int) == s);
        }
        if s >= n {
            self.stage = n;
            self.running = Vec::new();
            self.started = 0;
            self.ended = true;
            return PipelineAction::Complete;
        }
        let stage = &self.plan.stages[s];
        assert(before.plan[s as int] == stage.deep_view());
        let mut tasks: Vec<InitTask> = Vec::new();
        match stage.kind {
            StageKind::Sequential => {
                tasks.push(stage.tasks[0]);
                assert(tasks@ =~= stage.tasks@.take(1));
            },
            StageKind::Parallel => {
                let mut i: usize = 0;
                while i < stage.tasks.len()
                    invariant
                        i <= stage.tasks.len(),
                        tasks@ == stage.tasks@.take(i as int),
                    decreases stage.tasks.len() - i,
                {
                    tasks.push(stage.tasks[i]);
                    assert(stage.tasks@.take(i + 1) =~= stage.tasks@.take(i as int).push(
                        stage.tasks@[i as int],
                    ));
                    i += 1;
                }
                assert(stage.tasks@.take(stage.tasks.len() as int) == stage.tasks@);
            },
        }
        let mut running: Vec<InitTask> = Vec::new();
        let mut k: usize = 0;
        while k < tasks.len()
            invariant
                k <= tasks.len(),
                running@ == tasks@.take(k as int),
            decreases tasks.len() - k,
        {
            running.push(tasks[k]);
            assert(tasks@.take(k + 1) =~= tasks@.take(k as int).push(tasks@[k as int]));
            k += 1;
        }
        assert(tasks@.take(tasks.len() as int) == tasks@);
        self.stage = s;
        self.started = tasks.len();
        self.running = running;
        PipelineAction::Run { tasks }
    }

    fn drop_running(&mut self, task: InitTask)
        ensures
            final(self).deep_view() == (RunView {
                running: without_task(old(self).deep_view().running, task),
                ..old(self).deep_view()
            }),
    {
        let mut i: usize = 0;
        while i < self.running.len()
            invariant
                i <= self.running.len(),
                self.deep_view() == old(self).deep_view(),
                forall|j: int| 0 <= j < i ==> self.running@[j] != task,
            decreases self.running.len() - i,
        {
            if self.running[i] == task {
                proof {
                    lemma_without_task(self.running@, task, i as int);
                }
                let gone = self.running.remove(i);
                return ;
            }
            i += 1;
        }
        proof {
            lemma_without_task(self.running@, task, self.running.len() as int);
        }
    }

    /// Takes note of an event and says what to do.
    pub fn execute(&mut self, event: PipelineEvent) -> (action: PipelineAction)
        ensures
            (final(self).deep_view(), action.deep_view()) == run_step(
                old(self).deep_view(),
                event.deep_view(),
            ),
    {
        if self.ended {
            return PipelineAction::Ignore;
        }
        match event {
            PipelineEvent::Start => {
                if self.started == 0 && self.running.len() == 0 {
                    self.enter(self.stage)
                } else {
                    PipelineAction::Wait
                }
            },
            PipelineEvent::TaskDone { task, duration_ms } => {
                let ghost before = self.deep_view();
                self.metrics.record(task.name(), duration_ms);
                self.drop_running(task);
                if self.running.len() > 0 {
                    return PipelineAction::Wait;
                }
                let n = self.plan.stages.len();
                if self.stage < n && self.started < self.plan.stages[self.stage].tasks.len() {
                    let stage = &self.plan.stages[self.stage];
                    assert(before.plan[self.stage as int] == stage.deep_view());
                    let next = stage.tasks[self.started];
                    let mut tasks: Vec<InitTask> = Vec::new();
                    tasks.push(next);
                    let mut running: Vec<InitTask> = Vec::new();
                    running.push(next);
                    assert(tasks@ =~= seq![next]);
                    assert(running@ =~= seq![next]);
                    self.running = running;
                    self.started = self.started + 1;
                    return PipelineAction::Run { tasks };
                }
                proof {
                    if self.stage < n {
                        assert(before.plan[self.stage as int]
                            == self.plan.stages[self.stage as int].deep_view());
                    }
                }
                self.started = 0;
                if self.stage >= n {
                    let at = self.stage;
                    proof {
                        assert(next_stage(before.plan, at + 1) == before.plan.len());
                        assert(next_stage(before.plan, at as int) == before.plan.len());
                    }
                    return self.enter(at);
                }
                let from = self.stage + 1;
                self.enter(from)
            },
            PipelineEvent::TaskFailed { task, error } => {
                self.drop_running(task);
                let mut cancel: Vec<InitTask> = Vec::new();
                std::mem::swap(&mut cancel, &mut self.running);
                self.ended = true;
                PipelineAction::Abort { cancel, error }
            },
        }
    }
}

// ============================================================================
// Laws of a run
// ============================================================================

/// A failure ends the run: the tasks that still ran are to be cancelled, no
/// task runs after it, and every later event is ignored and changes
/// nothing.
pub proof fn lemma_failure_ends_the_run(
    run: RunView,
    task: InitTask,
    error: ErrorView,
    later: PipelineEventView,
)
    requires
        !run.ended,
    ensures
        ({
            let (after, action) = run_step(run, PipelineEventView::TaskFailed { task, error });
            &&& action == (PipelineActionView::Abort { cancel: without_task(run.running, task), error })
            &&& after.ended
            &&& after.running.len() == 0
            &&& after.durations == run.durations
            &&& run_step(after, later) == (after, PipelineActionView::Ignore)
        }),
{
}

/// A stage begins only when the stage before is done: while a task of the
/// stage runs, the end of another task starts nothing.
pub proof fn lemma_stage_waits_for_its_tasks(run: RunView, task: InitTask, duration_ms: u128)
    requires
        !run.ended,
        without_task(run.running, task).len() > 0,
    ensures
        ({
            let (after, action) = run_step(
                run,
                PipelineEventView::TaskDone { task, duration_ms },
            );
            &&& action == PipelineActionView::Wait
            &&& after.stage == run.stage
            &&& after.durations == run.durations.push((task_name(task), duration_ms))
        }),
{
}

/// The stage that a run enters is never before the one asked for, holds a
/// task, and every stage skipped is empty.
pub proof fn lemma_next_stage(plan: Seq<StageView>, from: int)
    requires
        0 <= from,
    ensures
        from <= next_stage(plan, from) || next_stage(plan, from) == plan.len(),
        next_stage(plan, from) <= plan.len(),
        next_stage(plan, from) < plan.len() ==> plan[next_stage(plan, from)].tasks.len() > 0,
        forall|k: int| from <= k < next_stage(plan, from) ==> (#[trigger] plan[k]).tasks.len() == 0,
    decreases plan.len() - from,
{
    if from < plan.len() && plan[from].tasks.len() == 0 {
        lemma_next_stage(plan, from + 1);
    }
}

} // verus!
