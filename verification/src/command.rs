//! A command to run in a box, and how its end is reported.

use vstd::prelude::*;

use crate::text::chars_of;
use crate::text::chars_eq_str;
use crate::text::clone_option;
use crate::text::clone_pairs;
use crate::text::clone_strings;

verus! {

/// A command to run in a box.
#[derive(Clone, Debug)]
pub struct BoxCommand {
    pub program: String,
    pub args: Vec<String>,
    /// Environment for the command, on top of the container's. `None`
    /// where none was given.
    pub env: Option<Vec<(String, String)>>,
    /// `None` runs the command in the working directory of the box.
    pub working_dir: Option<String>,
    /// Run the command on a terminal.
    pub tty: bool,
}

pub struct BoxCommandView {
    pub program: Seq<char>,
    pub args: Seq<Seq<char>>,
    pub env: Option<Seq<(Seq<char>, Seq<char>)>>,
    pub working_dir: Option<Seq<char>>,
    pub tty: bool,
}

impl DeepView for BoxCommand {
    type V = BoxCommandView;

    open spec fn deep_view(&self) -> BoxCommandView {
        BoxCommandView {
            program: self.program@,
            args: self.args.deep_view(),
            env: self.env.deep_view(),
            working_dir: self.working_dir.deep_view(),
            tty: self.tty,
        }
    }
}

/// The environment with one more variable at the end.
pub open spec fn env_with(env: Option<Seq<(Seq<char>, Seq<char>)>>, key: Seq<char>, value: Seq<char>) -> Option<
    Seq<(Seq<char>, Seq<char>)>,
> {
    match env {
        Some(e) => Some(e.push((key, value))),
        None => Some(seq![(key, value)]),
    }
}

/// Whether the environment sets the variable `key`.
pub open spec fn env_sets(env: Option<Seq<(Seq<char>, Seq<char>)>>, key: Seq<char>) -> bool {
    env matches Some(e) && exists|i: int| 0 <= i < e.len() && (#[trigger] e[i]).0 == key
}

impl BoxCommand {
    /// The command that runs `program` without arguments.
    pub fn new(program: &str) -> (r: BoxCommand)
        ensures
            r.deep_view() == (BoxCommandView {
                program: program@,
                args: Seq::empty(),
                env: None,
                working_dir: None,
                tty: false,
            }),
    {
        let r = BoxCommand {
            program: program.to_string(),
            args: Vec::new(),
            env: None,
            working_dir: None,
            tty: false,
        };
        assert(r.args.deep_view() =~= Seq::empty());
        r
    }

    /// The same command with more arguments at the end.
    pub fn args(self, args: &[String]) -> (r: BoxCommand)
        ensures
            r.deep_view() == (BoxCommandView {
                args: self.deep_view().args + args.deep_view(),
                ..self.deep_view()
            }),
    {
        let mut all = self.args;
        let ghost before = all.deep_view();
        let mut i: usize = 0;
        assert(all.deep_view() =~= before + args.deep_view().take(0));
        while i < args.len()
            invariant
                i <= args.len(),
                all.deep_view() == before + args.deep_view().take(i as int),
            decreases args.len() - i,
        {
            let ghost sofar = all.deep_view();
            all.push(args[i].clone());
            assert(all.deep_view() =~= sofar.push(args@[i as int]@));
            assert(args.deep_view().take(i + 1) =~= args.deep_view().take(i as int).push(
                args@[i as int]@,
            ));
            i += 1;
        }
        assert(args.deep_view().take(args.len() as int) == args.deep_view());
        BoxCommand {
            program: self.program,
            args: all,
            env: self.env,
            working_dir: self.working_dir,
            tty: self.tty,
        }
    }

    /// The same command with one more variable in its environment.
    pub fn env(self, key: &str, value: &str) -> (r: BoxCommand)
        ensures
            r.deep_view() == (BoxCommandView {
                env: env_with(self.deep_view().env, key@, value@),
                ..self.deep_view()
            }),
    {
        let mut env = match self.env {
            Some(e) => e,
            None => Vec::new(),
        };
        let ghost before = env.deep_view();
        env.push((key.to_string(), value.to_string()));
        assert(env.deep_view() =~= before.push((key@, value@)));
        assert(self.env is None ==> before =~= Seq::empty());
        assert(Seq::<(Seq<char>, Seq<char>)>::empty().push((key@, value@)) =~= seq![(key@, value@)]);
        BoxCommand {
            program: self.program,
            args: self.args,
            env: Some(env),
            working_dir: self.working_dir,
            tty: self.tty,
        }
    }

    /// The same command, run in the given directory.
    pub fn working_dir(self, dir: &str) -> (r: BoxCommand)
        ensures
            r.deep_view() == (BoxCommandView { working_dir: Some(dir@), ..self.deep_view() }),
    {
        BoxCommand {
            program: self.program,
            args: self.args,
            env: self.env,
            working_dir: Some(dir.to_string()),
            tty: self.tty,
        }
    }

    /// The same command, on a terminal or not.
    pub fn tty(self, tty: bool) -> (r: BoxCommand)
        ensures
            r.deep_view() == (BoxCommandView { tty, ..self.deep_view() }),
    {
        BoxCommand {
            program: self.program,
            args: self.args,
            env: self.env,
            working_dir: self.working_dir,
            tty,
        }
    }

    /// Whether the command's environment sets the variable `key`.
    pub fn sets_env(&self, key: &str) -> (r: bool)
        ensures
            r == env_sets(self.deep_view().env, key@),
    {
        match &self.env {
            None => false,
            Some(e) => {
                let mut i: usize = 0;
                while i < e.len()
                    invariant
                        i <= e.len(),
                        self.deep_view().env == Some(e.deep_view()),
                        forall|j: int| 0 <= j < i ==> (#[trigger] e.deep_view()[j]).0 != key@,
                    decreases e.len() - i,
                {
                    let k = chars_of(e[i].0.as_str());
                    assert(e.deep_view()[i as int].0 == e@[i as int].0@);
                    if chars_eq_str(&k, key) {
                        proof {
                            let env = self.deep_view().env;
                            let ev = env->0;
                            assert(ev == e.deep_view());
                            assert(0 <= i < ev.len() && ev[i as int].0 == key@);
                            assert(env_sets(env, key@));
                        }
                        return true;
                    }
                    i += 1;
                }
                false
            },
        }
    }

    pub fn duplicate(&self) -> (r: BoxCommand)
        ensures
            r.deep_view() == self.deep_view(),
    {
        BoxCommand {
            program: self.program.clone(),
            args: clone_strings(&self.args),
            env: match &self.env {
                Some(e) => Some(clone_pairs(e)),
                None => None,
            },
            working_dir: clone_option(&self.working_dir),
            tty: self.tty,
        }
    }
}

// ============================================================================
// The end of a command
// ============================================================================

/// How a command ended. A command ended by signal `n` has the exit code
/// `-n`.
#[derive(Clone, Copy, Debug, PartialEq, Eq, Structural)]
pub struct ExecResult {
    pub exit_code: i32,
}

/// The exit status that the command line reports for a command: the exit
/// code of a command that exited, and 128 plus the signal number for one
/// that a signal ended. A status that does not fit is reported as the
/// largest that does.
pub open spec fn shell_exit_code(exit_code: int) -> int {
    if exit_code >= 0 {
        exit_code
    } else if 128 - exit_code > i32::MAX {
        i32::MAX as int
    } else {
        128 - exit_code
    }
}

/// The exit status that the command line reports for a command.
pub fn cli_exit_code(exit_code: i32) -> (r: i32)
    ensures
        r == shell_exit_code(exit_code as int),
{
    if exit_code >= 0 {
        exit_code
    } else {
        let wide: i64 = 128 - (exit_code as i64);
        if wide > i32::MAX as i64 {
            i32::MAX
        } else {
            wide as i32
        }
    }
}

impl ExecResult {
    /// Whether the command exited with status zero.
    pub fn success(&self) -> (r: bool)
        ensures
            r == (self.exit_code == 0),
    {
        self.exit_code == 0
    }

    /// The signal that ended the command, if one did.
    pub fn signal(&self) -> (r: Option<i64>)
        ensures
            r == if self.exit_code < 0 {
                Some((-(self.exit_code as int)) as i64)
            } else {
                None
            },
    {
        if self.exit_code < 0 {
            Some(-(self.exit_code as i64))
        } else {
            None
        }
    }

    /// The exit status that the command line reports.
    pub fn cli_exit_code(&self) -> (r: i32)
        ensures
            r == shell_exit_code(self.exit_code as int),
    {
        cli_exit_code(self.exit_code)
    }
}

/// A command ended by signal `n` is reported as `128 + n`; the exit code of
/// a command that exited is reported unchanged. So an interrupt is
/// reported as 130, a kill as 137 and a termination as 143.
pub proof fn lemma_exit_code_mapping(n: int)
    ensures
        0 <= n ==> shell_exit_code(n) == n,
        1 <= n <= i32::MAX - 128 ==> shell_exit_code(-n) == 128 + n,
        shell_exit_code(-2) == 130,
        shell_exit_code(-9) == 137,
        shell_exit_code(-15) == 143,
{
}

} // verus!
