//! Running a command in a new box from the command line.
//!
//! The command line forwards input, output and signals while the command
//! runs, and ends when the command has exited and its output is drained.
//! What to do on each event is decided here; the caller waits for events.

use vstd::prelude::*;
use vstd::slice::slice_subrange;

use crate::cli::env_entries;
use crate::cli::ManagementFlags;
use crate::cli::ProcessFlags;
use crate::cli::ResourceFlags;
use crate::command::BoxCommand;
use crate::command::BoxCommandView;
use crate::command::ExecResult;
use crate::error::BoxliteError;
use crate::error::ErrorView;
use crate::options::BoxOptions;
use crate::options::BoxOptionsView;
use crate::options::RootfsSpec;
use crate::options::RootfsSpecView;
use crate::options::default_box_options;
use crate::text::chars_of;
use crate::text::split_once;
use crate::text::split_once_at;
use crate::text::string_of;

verus! {

/// The program run when the command line names none.
pub const DEFAULT_PROGRAM: &'static str = "sh";

/// `run IMAGE [COMMAND...]`
#[derive(Clone, Debug)]
pub struct RunArgs {
    pub process: ProcessFlags,
    pub resource: ResourceFlags,
    pub management: ManagementFlags,
    pub image: String,
    /// The command to run in the box, program first.
    pub command: Vec<String>,
}

/// The program and its arguments: the first word and the rest, or `sh`
/// without arguments where there is no word.
pub fn parse_command_args(input: &[String]) -> (r: (&str, &[String]))
    ensures
        input@.len() == 0 ==> r.0@ == DEFAULT_PROGRAM@ && r.1@.len() == 0,
        input@.len() > 0 ==> r.0@ == input@[0]@ && r.1@ == input@.subrange(
            1,
            input@.len() as int,
        ),
{
    if input.len() == 0 {
        (DEFAULT_PROGRAM, slice_subrange(input, 0, 0))
    } else {
        (input[0].as_str(), slice_subrange(input, 1, input.len()))
    }
}

/// The command that the words of the command line stand for.
pub open spec fn command_of(words: Seq<Seq<char>>, tty: bool) -> BoxCommandView {
    BoxCommandView {
        program: if words.len() == 0 {
            DEFAULT_PROGRAM@
        } else {
            words[0]
        },
        args: if words.len() == 0 {
            Seq::empty()
        } else {
            words.subrange(1, words.len() as int)
        },
        env: None,
        working_dir: None,
        tty,
    }
}

/// The options of the box that `run` creates, before the environment is
/// added: the defaults with the resources, the management flags, the
/// working directory and the image of the command line.
pub open spec fn run_options(args: RunArgs) -> BoxOptionsView {
    let d = default_box_options();
    BoxOptionsView {
        cpus: match args.resource.cpus {
            Some(c) => Some(
                if c > 255 {
                    255u8
                } else {
                    c as u8
                },
            ),
            None => d.cpus,
        },
        memory_mib: match args.resource.memory {
            Some(m) => Some(m),
            None => d.memory_mib,
        },
        detach: args.management.detach,
        auto_remove: args.management.rm,
        working_dir: args.process.workdir.deep_view(),
        rootfs: RootfsSpecView::Image(args.image@),
        ..d
    }
}

impl RunArgs {
    /// The command to run in the box.
    pub fn prepare_command(&self) -> (r: BoxCommand)
        ensures
            r.deep_view() == command_of(self.command.deep_view(), self.process.tty),
    {
        let (program, args) = parse_command_args(self.command.as_slice());
        let r = BoxCommand::new(program).args(args).tty(self.process.tty);
        proof {
            let words = self.command.deep_view();
            if words.len() > 0 {
                assert(args.deep_view() =~= words.subrange(1, words.len() as int));
            } else {
                assert(args.deep_view() =~= Seq::empty());
            }
            assert(Seq::<Seq<char>>::empty() + args.deep_view() =~= args.deep_view());
        }
        r
    }

    /// The options of the box to create, given the host's value for each
    /// `-e` item, and the bare names skipped for want of one.
    pub fn box_options(&self, host_values: &Vec<Option<String>>) -> (r: (BoxOptions, Vec<String>))
        requires
            self.process.env.len() == host_values.len(),
        ensures
            r.0.deep_view() == (BoxOptionsView {
                env: env_entries(self.process.env.deep_view(), host_values.deep_view()),
                ..run_options(*self)
            }),
            r.1.deep_view() == crate::cli::env_skipped(
                self.process.env.deep_view(),
                host_values.deep_view(),
            ),
    {
        let mut options = BoxOptions::default();
        self.resource.apply_to(&mut options);
        self.management.apply_to(&mut options);
        let skipped = self.process.apply_to_resolved(&mut options, host_values);
        options.rootfs = RootfsSpec::Image(self.image.clone());
        assert(options.deep_view().env =~= env_entries(
            self.process.env.deep_view(),
            host_values.deep_view(),
        ));
        (options, skipped)
    }

    /// Whether the terminal is put in raw mode: only for an interactive
    /// command on a terminal.
    pub fn wants_raw_mode(&self) -> (r: bool)
        ensures
            r == (self.process.tty && self.process.interactive),
    {
        self.process.tty && self.process.interactive
    }
}

impl ProcessFlags {
    /// The command with the environment, working directory and terminal
    /// of the flags, given the host's value for each `-e` item.
    pub fn configure_command(&self, cmd: BoxCommand, host_values: &Vec<Option<String>>) -> (r:
        BoxCommand)
        requires
            self.env.len() == host_values.len(),
        ensures
            r.deep_view() == configured_command(
                cmd.deep_view(),
                env_entries(self.env.deep_view(), host_values.deep_view()),
                self.workdir.deep_view(),
                self.tty,
            ),
    {
        let mut cmd = cmd;
        let ghost start = cmd.deep_view();
        let ghost items = self.env.deep_view();
        let ghost values = host_values.deep_view();
        let mut i: usize = 0;
        assert(env_entries(items.take(0), values.take(0)) =~= Seq::empty());
        while i < self.env.len()
            invariant
                i <= self.env.len(),
                self.env.len() == host_values.len(),
                items == self.env.deep_view(),
                values == host_values.deep_view(),
                cmd.deep_view() == (BoxCommandView {
                    env: env_extended(
                        start.env,
                        env_entries(items.take(i as int), values.take(i as int)),
                    ),
                    ..start
                }),
            decreases self.env.len() - i,
        {
            proof {
                assert(items.take(i + 1).drop_last() == items.take(i as int));
                assert(values.take(i + 1).drop_last() == values.take(i as int));
                assert(items.take(i + 1).last() == self.env@[i as int]@);
                assert(values.take(i + 1).last() == host_values@[i as int].deep_view());
            }
            let ghost before = cmd.deep_view().env;
            let ghost added = env_entries(items.take(i as int), values.take(i as int));
            let item = chars_of(self.env[i].as_str());
            match split_once_at(&item, '=') {
                Some((k, v)) => {
                    cmd = cmd.env(string_of(&k).as_str(), string_of(&v).as_str());
                    proof {
                        lemma_env_extended_push(start.env, added, (k@, v@));
                    }
                },
                None => {
                    match &host_values[i] {
                        Some(val) => {
                            cmd = cmd.env(self.env[i].as_str(), val.as_str());
                            proof {
                                lemma_env_extended_push(start.env, added, (self.env@[i as int]@, val@));
                            }
                        },
                        None => {},
                    }
                },
            }
            i += 1;
        }
        assert(items.take(self.env.len() as int) == items);
        assert(values.take(self.env.len() as int) == values);
        match &self.workdir {
            Some(w) => {
                cmd = cmd.working_dir(w.as_str());
            },
            None => {},
        }
        if self.tty {
            cmd = cmd.tty(true);
        }
        cmd
    }
}

/// The environment with more variables at the end. Nothing added leaves an
/// environment that was not given as it is.
pub open spec fn env_extended(
    env: Option<Seq<(Seq<char>, Seq<char>)>>,
    added: Seq<(Seq<char>, Seq<char>)>,
) -> Option<Seq<(Seq<char>, Seq<char>)>> {
    if added.len() == 0 {
        env
    } else {
        match env {
            Some(e) => Some(e + added),
            None => Some(added),
        }
    }
}

proof fn lemma_env_extended_push(
    env: Option<Seq<(Seq<char>, Seq<char>)>>,
    added: Seq<(Seq<char>, Seq<char>)>,
    entry: (Seq<char>, Seq<char>),
)
    ensures
        crate::command::env_with(env_extended(env, added), entry.0, entry.1) == env_extended(
            env,
            added.push(entry),
        ),
{
    let lhs = crate::command::env_with(env_extended(env, added), entry.0, entry.1);
    let rhs = env_extended(env, added.push(entry));
    if added.len() == 0 {
        assert(added.push(entry) =~= seq![entry]);
        match env {
            Some(e) => {
                assert(e.push(entry) =~= e + seq![entry]);
            },
            None => {},
        }
    } else {
        match env {
            Some(e) => {
                assert((e + added).push(entry) =~= e + added.push(entry));
            },
            None => {},
        }
    }
    assert(lhs->0 =~= rhs->0);
}

/// The command with the environment, working directory and terminal that
/// the flags add. A working directory or a terminal that the flags do not
/// ask for is left as the command has it.
pub open spec fn configured_command(
    cmd: BoxCommandView,
    added_env: Seq<(Seq<char>, Seq<char>)>,
    workdir: Option<Seq<char>>,
    tty: bool,
) -> BoxCommandView {
    BoxCommandView {
        env: env_extended(cmd.env, added_env),
        working_dir: match workdir {
            Some(w) => Some(w),
            None => cmd.working_dir,
        },
        tty: tty || cmd.tty,
        ..cmd
    }
}

// ============================================================================
// Waiting for the end
// ============================================================================

/// A signal that the command line forwards to the command.
#[derive(Clone, Copy, Debug, PartialEq, Eq, Structural)]
pub enum ForwardedSignal {
    Interrupt,
    Terminate,
    Hangup,
}

/// The number of a forwarded signal.
pub open spec fn signal_number(signal: ForwardedSignal) -> int {
    match signal {
        ForwardedSignal::Hangup => 1,
        ForwardedSignal::Interrupt => 2,
        ForwardedSignal::Terminate => 15,
    }
}

impl ForwardedSignal {
    pub fn number(&self) -> (r: i32)
        ensures
            r == signal_number(*self),
    {
        match self {
            ForwardedSignal::Hangup => 1,
            ForwardedSignal::Interrupt => 2,
            ForwardedSignal::Terminate => 15,
        }
    }
}

/// What happened while the command line waits for the command to end.
#[derive(Debug)]
pub enum WaitEvent {
    /// The command ended.
    Exited { status: ExecResult },
    /// Waiting for the command failed.
    WaitFailed { error: BoxliteError },
    /// Standard output and standard error are drained.
    OutputDrained,
    /// The command line received a signal.
    Signal { signal: ForwardedSignal },
    /// The window changed size. The size is given where it is known.
    WindowChanged { size: Option<(u32, u32)> },
}

/// What the command line does next.
#[derive(Debug)]
pub enum WaitAction {
    /// Keep waiting.
    Continue,
    /// Stop forwarding standard input, then keep waiting.
    StopInput,
    /// Stop forwarding standard input and end with the status.
    StopInputAndFinish { status: ExecResult },
    /// End with the status.
    Finish { status: ExecResult },
    /// End with the failure.
    Fail { error: BoxliteError },
    /// Send the signal to the command, then keep waiting.
    ForwardSignal { number: i32 },
    /// Tell the command the size of the terminal, then keep waiting.
    ResizeTty { rows: u32, cols: u32 },
}

pub enum WaitActionView {
    Continue,
    StopInput,
    StopInputAndFinish { status: ExecResult },
    Finish { status: ExecResult },
    Fail { error: ErrorView },
    ForwardSignal { number: i32 },
    ResizeTty { rows: u32, cols: u32 },
}

impl DeepView for WaitAction {
    type V = WaitActionView;

    open spec fn deep_view(&self) -> WaitActionView {
        match self {
            WaitAction::Continue => WaitActionView::Continue,
            WaitAction::StopInput => WaitActionView::StopInput,
            WaitAction::StopInputAndFinish { status } => WaitActionView::StopInputAndFinish {
                status: *status,
            },
            WaitAction::Finish { status } => WaitActionView::Finish { status: *status },
            WaitAction::Fail { error } => WaitActionView::Fail { error: error.deep_view() },
            WaitAction::ForwardSignal { number } => WaitActionView::ForwardSignal {
                number: *number,
            },
            WaitAction::ResizeTty { rows, cols } => WaitActionView::ResizeTty {
                rows: *rows,
                cols: *cols,
            },
        }
    }
}

pub enum WaitEventView {
    Exited { status: ExecResult },
    WaitFailed { error: ErrorView },
    OutputDrained,
    Signal { signal: ForwardedSignal },
    WindowChanged { size: Option<(u32, u32)> },
}

impl DeepView for WaitEvent {
    type V = WaitEventView;

    open spec fn deep_view(&self) -> WaitEventView {
        match self {
            WaitEvent::Exited { status } => WaitEventView::Exited { status: *status },
            WaitEvent::WaitFailed { error } => WaitEventView::WaitFailed {
                error: error.deep_view(),
            },
            WaitEvent::OutputDrained => WaitEventView::OutputDrained,
            WaitEvent::Signal { signal } => WaitEventView::Signal { signal: *signal },
            WaitEvent::WindowChanged { size } => WaitEventView::WindowChanged { size: *size },
        }
    }
}

/// What the command line knows while it waits.
#[derive(Clone, Copy, Debug, PartialEq, Eq, Structural)]
pub struct Completion {
    /// How the command ended, once it has.
    pub exit_status: Option<ExecResult>,
    /// Whether the output is drained.
    pub io_done: bool,
}

/// The state after an event.
pub open spec fn completion_after(state: Completion, event: WaitEventView) -> Completion {
    match event {
        WaitEventView::Exited { status } => if state.exit_status is None {
            Completion { exit_status: Some(status), ..state }
        } else {
            state
        },
        WaitEventView::OutputDrained => Completion { io_done: true, ..state },
        _ => state,
    }
}

/// What to do on an event.
///
/// The command line ends when the command has ended and its output is
/// drained, whichever comes last, and at once when waiting fails. When the
/// command ends, standard input is no longer forwarded. Signals are
/// forwarded; a change of the window is passed on where the size is known.
pub open spec fn wait_decision(state: Completion, event: WaitEventView) -> WaitActionView {
    match event {
        WaitEventView::Exited { status } => if state.exit_status is Some {
            WaitActionView::Continue
        } else if state.io_done {
            WaitActionView::StopInputAndFinish { status }
        } else {
            WaitActionView::StopInput
        },
        WaitEventView::WaitFailed { error } => if state.exit_status is Some {
            WaitActionView::Continue
        } else {
            WaitActionView::Fail { error }
        },
        WaitEventView::OutputDrained => match state.exit_status {
            Some(status) => if state.io_done {
                WaitActionView::Continue
            } else {
                WaitActionView::Finish { status }
            },
            None => WaitActionView::Continue,
        },
        WaitEventView::Signal { signal } => WaitActionView::ForwardSignal {
            number: signal_number(signal) as i32,
        },
        WaitEventView::WindowChanged { size } => match size {
            Some((cols, rows)) => WaitActionView::ResizeTty { rows, cols },
            None => WaitActionView::Continue,
        },
    }
}

impl Completion {
    /// Nothing has happened yet.
    pub fn new() -> (r: Completion)
        ensures
            r == (Completion { exit_status: None, io_done: false }),
    {
        Completion { exit_status: None, io_done: false }
    }

    /// Takes note of an event and says what to do.
    pub fn on_event(&mut self, event: WaitEvent) -> (action: WaitAction)
        ensures
            action.deep_view() == wait_decision(*old(self), event.deep_view()),
            *final(self) == completion_after(*old(self), event.deep_view()),
    {
        match event {
            WaitEvent::Exited { status } => {
                if self.exit_status.is_some() {
                    WaitAction::Continue
                } else {
                    self.exit_status = Some(status);
                    if self.io_done {
                        WaitAction::StopInputAndFinish { status }
                    } else {
                        WaitAction::StopInput
                    }
                }
            },
            WaitEvent::WaitFailed { error } => {
                if self.exit_status.is_some() {
                    WaitAction::Continue
                } else {
                    WaitAction::Fail { error }
                }
            },
            WaitEvent::OutputDrained => {
                let was_done = self.io_done;
                self.io_done = true;
                match self.exit_status {
                    Some(status) => {
                        if was_done {
                            WaitAction::Continue
                        } else {
                            WaitAction::Finish { status }
                        }
                    },
                    None => WaitAction::Continue,
                }
            },
            WaitEvent::Signal { signal } => WaitAction::ForwardSignal { number: signal.number() },
            WaitEvent::WindowChanged { size } => {
                match size {
                    Some((cols, rows)) => WaitAction::ResizeTty { rows, cols },
                    None => WaitAction::Continue,
                }
            },
        }
    }
}

/// The command line ends with a status only once the command has ended and
/// its output is drained, and the status is the one the command ended
/// with. Neither fact is ever forgotten.
pub proof fn lemma_finish_needs_both(state: Completion, event: WaitEventView)
    ensures
        ({
            let after = completion_after(state, event);
            let action = wait_decision(state, event);
            &&& state.io_done ==> after.io_done
            &&& state.exit_status is Some ==> after.exit_status == state.exit_status
            &&& (action matches WaitActionView::Finish { status } ==> after.io_done
                && after.exit_status == Some(status))
            &&& (action matches WaitActionView::StopInputAndFinish { status } ==> after.io_done
                && after.exit_status == Some(status))
        }),
{
}

} // verus!
