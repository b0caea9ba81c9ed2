//! The action runner: for each step of an ordered action list it
//! resolves the command template, classifies the command as
//! shell-invoked or direct, and applies the spawn/wait policy; the first
//! failing step stops the whole sequence. Launching the subprocess and
//! carrying its streams is the caller's part: the runner hands out a
//! plan for one step at a time and is told how the launch went.

use vstd::prelude::*;
use vstd::string::StrSliceExecFns;
use vstd::string::StringExecFns;

use crate::config::interpolate_with;
use crate::config::spec_interpolate;
use crate::config::Action;
use crate::strings::contains_char;
use crate::strings::contains_string;
use crate::strings::join_all;
use crate::strings::joined;

verus! {

/// How a resolved command string is handed to the operating system.
#[derive(Debug, Clone, Copy, PartialEq, Eq, Structural)]
pub enum Invocation {
    /// Run through a shell, the whole string passed wholesale.
    Shell,
    /// Run directly as a bare executable name, with no arguments.
    Direct,
}

/// Execution mode of one action.
#[derive(Debug, Clone, Copy, PartialEq, Eq, Structural)]
pub enum Mode {
    /// Detached launch: streams discarded, no waiting for completion.
    Spawn,
    /// Foreground launch: streams visible, blocks until the process exits.
    Wait,
}

/// A command starts with `./`, marking a relative-path executable.
pub open spec fn spec_starts_relative(c: Seq<char>) -> bool {
    c.len() >= 2 && c[0] == '.' && c[1] == '/'
}

/// Classification of a command string: a relative path or a string with
/// a space needs a shell; anything else is a bare executable name.
pub open spec fn spec_classify(c: Seq<char>) -> Invocation {
    if spec_starts_relative(c) {
        Invocation::Shell
    } else if c.contains(' ') {
        Invocation::Shell
    } else {
        Invocation::Direct
    }
}

/// The three classification branches, in their order: relative path
/// first, then the space check, else direct invocation.
pub proof fn lemma_classification(c: Seq<char>)
    ensures
        spec_starts_relative(c) ==> spec_classify(c) == Invocation::Shell,
        !spec_starts_relative(c) && c.contains(' ') ==> spec_classify(c) == Invocation::Shell,
        !spec_starts_relative(c) && !c.contains(' ') ==> spec_classify(c) == Invocation::Direct,
{
}

/// Classifies a resolved command string.
pub fn classify(command: &str) -> (r: Invocation)
    ensures
        r == spec_classify(command@),
{
    let n: usize = command.unicode_len();
    if n >= 2 && command.get_char(0) == '.' && command.get_char(1) == '/' {
        Invocation::Shell
    } else if contains_char(command, ' ') {
        Invocation::Shell
    } else {
        Invocation::Direct
    }
}

/// The built-in informational-argument table, used when the manifest
/// supplies none.
pub open spec fn spec_default_info_args() -> Seq<Seq<char>> {
    seq!["--help"@, "-h"@, "--version"@, "-V"@, "--list"@, "--show"@]
}

/// The informational-argument table in force: the configured one when
/// non-empty, else the built-in table.
pub open spec fn spec_effective_info_args(info: Seq<Seq<char>>) -> Seq<Seq<char>> {
    if info.len() == 0 {
        spec_default_info_args()
    } else {
        info
    }
}

/// The built-in informational-argument table.
pub fn default_info_args() -> (r: Vec<String>)
    ensures
        r.deep_view() == spec_default_info_args(),
{
    let mut v: Vec<String> = Vec::new();
    v.push("--help".to_owned());
    v.push("-h".to_owned());
    v.push("--version".to_owned());
    v.push("-V".to_owned());
    v.push("--list".to_owned());
    v.push("--show".to_owned());
    proof {
        assert(v.deep_view() =~= spec_default_info_args());
    }
    v
}

/// View of optional extra arguments as an optional sequence of
/// character sequences.
pub open spec fn opt_args_view(e: Option<&Vec<String>>) -> Option<Seq<Seq<char>>> {
    match e {
        Some(v) => Some(v.deep_view()),
        None => None,
    }
}

/// Whether extra arguments were supplied at all.
pub open spec fn spec_has_args(extra: Option<Seq<Seq<char>>>) -> bool {
    match extra {
        Some(a) => a.len() > 0,
        None => false,
    }
}

/// Some of the arguments `a` is in the effective informational table.
pub open spec fn spec_args_have_info(a: Seq<Seq<char>>, info: Seq<Seq<char>>) -> bool {
    exists|i: int| 0 <= i < a.len() && #[trigger] spec_effective_info_args(info).contains(a[i])
}

/// Some supplied extra argument is in the effective informational table.
pub open spec fn spec_has_info_arg(extra: Option<Seq<Seq<char>>>, info: Seq<Seq<char>>) -> bool {
    match extra {
        Some(a) => spec_args_have_info(a, info),
        None => false,
    }
}

/// The spawn/wait decision, a function of exactly five inputs: the
/// action's declared `spawn` flag, the two override flags, the extra
/// arguments, and the configured informational-argument table. An
/// action not declared spawnable always waits; `force_wait` overrides
/// everything else; then `force_spawn`; then the smart default: spawn
/// a bare invocation, wait on one whose arguments look informational.
pub open spec fn spec_mode(
    action_spawn: bool,
    force_spawn: bool,
    force_wait: bool,
    extra: Option<Seq<Seq<char>>>,
    info: Seq<Seq<char>>,
) -> Mode {
    if !action_spawn {
        Mode::Wait
    } else if force_wait {
        Mode::Wait
    } else if force_spawn {
        Mode::Spawn
    } else if !spec_has_args(extra) {
        Mode::Spawn
    } else if spec_has_info_arg(extra, info) {
        Mode::Wait
    } else {
        Mode::Spawn
    }
}

/// The decision table of the spawn/wait policy, clause by clause.
pub proof fn lemma_mode_decision(
    action_spawn: bool,
    force_spawn: bool,
    force_wait: bool,
    extra: Option<Seq<Seq<char>>>,
    info: Seq<Seq<char>>,
)
    ensures
        !action_spawn ==> spec_mode(action_spawn, force_spawn, force_wait, extra, info)
            == Mode::Wait,
        action_spawn && force_wait ==> spec_mode(action_spawn, force_spawn, force_wait, extra, info)
            == Mode::Wait,
        action_spawn && !force_wait && force_spawn ==> spec_mode(
            action_spawn,
            force_spawn,
            force_wait,
            extra,
            info,
        ) == Mode::Spawn,
        action_spawn && !force_wait && !force_spawn && !spec_has_args(extra) ==> spec_mode(
            action_spawn,
            force_spawn,
            force_wait,
            extra,
            info,
        ) == Mode::Spawn,
        action_spawn && !force_wait && !force_spawn && spec_has_args(extra) && spec_has_info_arg(
            extra,
            info,
        ) ==> spec_mode(action_spawn, force_spawn, force_wait, extra, info) == Mode::Wait,
        action_spawn && !force_wait && !force_spawn && spec_has_args(extra) && !spec_has_info_arg(
            extra,
            info,
        ) ==> spec_mode(action_spawn, force_spawn, force_wait, extra, info) == Mode::Spawn,
{
}

/// Decides the execution mode of one action.
pub fn decide_mode(
    action_spawn: bool,
    force_spawn: bool,
    force_wait: bool,
    extra_args: Option<&Vec<String>>,
    info_args: &Vec<String>,
) -> (m: Mode)
    ensures
        m == spec_mode(
            action_spawn,
            force_spawn,
            force_wait,
            opt_args_view(extra_args),
            info_args.deep_view(),
        ),
{
    if !action_spawn {
        return Mode::Wait;
    }
    if force_wait {
        return Mode::Wait;
    }
    if force_spawn {
        return Mode::Spawn;
    }
    match extra_args {
        None => Mode::Spawn,
        Some(args) => {
            proof {
                assert(extra_args == Some(args));
            }
            if args.len() == 0 {
                return Mode::Spawn;
            }
            let ghost a = args.deep_view();
            let defaults = default_info_args();
            let effective: &Vec<String> = if info_args.len() > 0 {
                info_args
            } else {
                &defaults
            };
            proof {
                assert(effective.deep_view() == spec_effective_info_args(info_args.deep_view()));
            }
            let n = args.len();
            let mut i: usize = 0;
            while i < n
                invariant
                    action_spawn,
                    !force_wait,
                    !force_spawn,
                    extra_args == Some(args),
                    n == args.len(),
                    a == args.deep_view(),
                    n == a.len(),
                    n > 0,
                    0 <= i <= n,
                    effective.deep_view() == spec_effective_info_args(info_args.deep_view()),
                    forall|j: int|
                        0 <= j < i ==> !spec_effective_info_args(info_args.deep_view()).contains(
                            a[j],
                        ),
                decreases n - i,
            {
                proof {
                    assert(a[i as int] == args[i as int]@);
                }
                if contains_string(effective, args[i].as_str()) {
                    proof {
                        assert(spec_args_have_info(a, info_args.deep_view())) by {
                            assert(0 <= (i as int) < a.len());
                            assert(spec_effective_info_args(info_args.deep_view()).contains(
                                a[i as int],
                            ));
                        }
                    }
                    return Mode::Wait;
                }
                i += 1;
            }
            proof {
                assert(!spec_has_info_arg(Some(a), info_args.deep_view()));
            }
            Mode::Spawn
        },
    }
}

/// The fully resolved command of one action: the interpolated template,
/// followed by the extra arguments space-joined when any were given.
pub open spec fn spec_full_command(interp: Seq<char>, extra: Option<Seq<Seq<char>>>) -> Seq<char> {
    match extra {
        Some(a) => if a.len() == 0 {
            interp
        } else {
            interp + " "@ + joined(a, " "@)
        },
        None => interp,
    }
}

/// Appends the extra arguments, space-joined, to an already
/// interpolated command.
pub fn build_full_command(interpolated: String, extra_args: Option<&Vec<String>>) -> (r: String)
    ensures
        r@ == spec_full_command(interpolated@, opt_args_view(extra_args)),
{
    match extra_args {
        Some(args) => {
            if args.len() == 0 {
                interpolated
            } else {
                let tail = join_all(args, " ");
                let mut r = interpolated;
                r.append(" ");
                r.append(tail.as_str());
                r
            }
        },
        None => interpolated,
    }
}

/// A plan for one step, ready to hand to the operating system: the
/// fully resolved command, how to invoke it, and whether to wait.
#[derive(Debug, Clone)]
pub struct ActionPlan {
    pub seq_id: u32,
    pub description: String,
    pub command: String,
    pub invocation: Invocation,
    pub mode: Mode,
}

/// A failure that ends an action sequence. Either kind is terminal: no
/// retry, no cleanup of processes already spawned.
#[derive(Debug)]
pub enum ExecError {
    /// The operating system could not start the subprocess; `reason`
    /// carries the OS error text.
    Launch { command: String, reason: String },
    /// The subprocess ran and exited with a failure status, in wait
    /// mode; the captured output is attached.
    Command { command: String, stdout: String, stderr: String },
}

impl ExecError {
    /// A human-readable description of the failure, naming the fully
    /// resolved command.
    pub fn message(&self) -> (r: String)
        ensures
            match self {
                ExecError::Launch { command, reason } => r@ == "Failed to launch command: "@
                    + command@ + ": "@ + reason@,
                ExecError::Command { command, stdout, stderr } => r@ == "Command failed: "@
                    + command@ + "\n\n-- stdout --\n"@ + stdout@ + "\n-- stderr --\n"@ + stderr@,
            },
    {
        match self {
            ExecError::Launch { command, reason } => {
                let mut r = "Failed to launch command: ".to_owned();
                r.append(command.as_str());
                r.append(": ");
                r.append(reason.as_str());
                r
            },
            ExecError::Command { command, stdout, stderr } => {
                let mut r = "Command failed: ".to_owned();
                r.append(command.as_str());
                r.append("\n\n-- stdout --\n");
                r.append(stdout.as_str());
                r.append("\n-- stderr --\n");
                r.append(stderr.as_str());
                r
            },
        }
    }
}

/// What became of one launched step, reported back to the runner.
#[derive(Debug)]
pub enum StepOutcome {
    /// The process could not be started; the payload is the OS error
    /// text. Possible in either mode.
    LaunchFailed(String),
    /// A detached process was started; the runner does not track it
    /// further. Only possible in spawn mode.
    Spawned,
    /// A waited-on process terminated: its success flag and captured
    /// output. Only possible in wait mode.
    Exited(bool, String, String),
}

/// Drives one ordered action list, strictly in order, one step at a
/// time: `next_step` hands out the plan for the current action, the
/// caller launches it, and `record` is told how that went, advancing
/// the runner or ending it in the terminal failure state. Once a step
/// has failed, `next_step` never hands out another plan: the actions
/// after a failing one are never started.
pub struct Runner {
    /// Repository URL, substituted for the URL placeholder token.
    pub repo_url: String,
    /// Repository name, substituted for the name placeholder token.
    pub repo_name: String,
    /// Configured informational-argument table; may be empty.
    pub info_args: Vec<String>,
    /// The ordered action list.
    pub actions: Vec<Action>,
    /// Working directory for every launched process, when given.
    pub working_dir: Option<String>,
    /// Extra arguments appended to every command, when given.
    pub extra_args: Option<Vec<String>>,
    /// Override: force detached launches.
    pub force_spawn: bool,
    /// Override: force waiting; wins over every other signal.
    pub force_wait: bool,
    /// Index of the current action.
    pub idx: usize,
    /// The terminal failure, once one step has failed.
    pub failed: Option<ExecError>,
}

impl Runner {
    /// The extra arguments as an optional sequence of character
    /// sequences.
    pub open spec fn args_view(self) -> Option<Seq<Seq<char>>> {
        match self.extra_args {
            Some(v) => Some(v.deep_view()),
            None => None,
        }
    }

    /// The fully resolved command of action `i`.
    pub open spec fn command_of(self, i: int) -> Seq<char> {
        spec_full_command(
            spec_interpolate(self.actions[i].command@, self.repo_url@, self.repo_name@),
            self.args_view(),
        )
    }

    /// The execution mode of action `i`.
    pub open spec fn mode_of(self, i: int) -> Mode {
        spec_mode(
            self.actions[i].spawn,
            self.force_spawn,
            self.force_wait,
            self.args_view(),
            self.info_args.deep_view(),
        )
    }

    /// The sequence has resolved: every action ran, or one failed.
    pub open spec fn done(self) -> bool {
        self.failed is Some || self.idx >= self.actions.len()
    }

    /// Everything but the cursor and the failure state is unchanged.
    pub open spec fn setup_unchanged(self, other: Runner) -> bool {
        &&& self.repo_url == other.repo_url
        &&& self.repo_name == other.repo_name
        &&& self.info_args == other.info_args
        &&& self.actions == other.actions
        &&& self.working_dir == other.working_dir
        &&& self.extra_args == other.extra_args
        &&& self.force_spawn == other.force_spawn
        &&& self.force_wait == other.force_wait
    }

    /// A runner at the start of the given action list.
    pub fn new(
        repo_url: String,
        repo_name: String,
        info_args: Vec<String>,
        actions: Vec<Action>,
        working_dir: Option<String>,
        extra_args: Option<Vec<String>>,
        force_spawn: bool,
        force_wait: bool,
    ) -> (r: Runner)
        ensures
            r.repo_url == repo_url,
            r.repo_name == repo_name,
            r.info_args == info_args,
            r.actions == actions,
            r.working_dir == working_dir,
            r.extra_args == extra_args,
            r.force_spawn == force_spawn,
            r.force_wait == force_wait,
            r.idx == 0,
            r.failed is None,
    {
        Runner {
            repo_url,
            repo_name,
            info_args,
            actions,
            working_dir,
            extra_args,
            force_spawn,
            force_wait,
            idx: 0,
            failed: None,
        }
    }

    /// The extra arguments, borrowed.
    fn extra_args_ref(&self) -> (r: Option<&Vec<String>>)
        ensures
            opt_args_view(r) == self.args_view(),
    {
        match &self.extra_args {
            Some(v) => Some(v),
            None => None,
        }
    }

    /// The fully resolved command of the current action.
    pub fn current_command(&self) -> (r: String)
        requires
            self.idx < self.actions.len(),
        ensures
            r@ == self.command_of(self.idx as int),
    {
        let action = &self.actions[self.idx];
        let interp = interpolate_with(
            action.command.as_str(),
            self.repo_url.as_str(),
            self.repo_name.as_str(),
        );
        build_full_command(interp, self.extra_args_ref())
    }

    /// The plan for the current action, or nothing once every action
    /// ran or one failed. Announcing the step and launching the process
    /// are the caller's part; the plan says exactly what to launch and
    /// how.
    pub fn next_step(&self) -> (r: Option<ActionPlan>)
        ensures
            match r {
                Some(plan) => {
                    &&& self.failed is None
                    &&& self.idx < self.actions.len()
                    &&& plan.seq_id == self.actions[self.idx as int].seq_id
                    &&& plan.description@ == self.actions[self.idx as int].description@
                    &&& plan.command@ == self.command_of(self.idx as int)
                    &&& plan.invocation == spec_classify(self.command_of(self.idx as int))
                    &&& plan.mode == self.mode_of(self.idx as int)
                },
                None => self.done(),
            },
    {
        if self.failed.is_some() {
            return None;
        }
        if self.idx >= self.actions.len() {
            return None;
        }
        let action = &self.actions[self.idx];
        let command = self.current_command();
        let invocation = classify(command.as_str());
        let mode = decide_mode(
            action.spawn,
            self.force_spawn,
            self.force_wait,
            self.extra_args_ref(),
            &self.info_args,
        );
        Some(
            ActionPlan {
                seq_id: action.seq_id,
                description: action.description.clone(),
                command,
                invocation,
                mode,
            },
        )
    }

    /// Advances past a step that resolved well, or enters the terminal
    /// failure state: a failed launch in either mode, or a failure exit
    /// status in wait mode, ends the sequence with the resolved command
    /// in the error's payload, and the cursor never moves again.
    pub fn record(&mut self, outcome: StepOutcome)
        requires
            old(self).failed is None,
            old(self).idx < old(self).actions.len(),
            old(self).mode_of(old(self).idx as int) == Mode::Spawn ==> !(outcome is Exited),
            old(self).mode_of(old(self).idx as int) == Mode::Wait ==> !(outcome is Spawned),
        ensures
            final(self).setup_unchanged(*old(self)),
            match outcome {
                StepOutcome::LaunchFailed(reason) => {
                    &&& final(self).idx == old(self).idx
                    &&& final(self).failed matches Some(ExecError::Launch {
                        command: c,
                        reason: why,
                    }) && c@ == old(self).command_of(old(self).idx as int) && why == reason
                },
                StepOutcome::Spawned => {
                    &&& final(self).idx == old(self).idx + 1
                    &&& final(self).failed is None
                },
                StepOutcome::Exited(success, stdout, stderr) => {
                    if success {
                        final(self).idx == old(self).idx + 1 && final(self).failed is None
                    } else {
                        final(self).idx == old(self).idx && (final(self).failed matches Some(
                            ExecError::Command { command: c, stdout: o, stderr: e },
                        ) && c@ == old(self).command_of(old(self).idx as int) && o == stdout && e
                            == stderr)
                    }
                },
            },
    {
        match outcome {
            StepOutcome::LaunchFailed(reason) => {
                let command = self.current_command();
                self.failed = Some(ExecError::Launch { command, reason });
            },
            StepOutcome::Spawned => {
                self.idx = self.idx + 1;
            },
            StepOutcome::Exited(success, stdout, stderr) => {
                if success {
                    self.idx = self.idx + 1;
                } else {
                    let command = self.current_command();
                    self.failed = Some(ExecError::Command { command, stdout, stderr });
                }
            },
        }
    }

    /// The final verdict of the sequence: the terminal failure, or
    /// success once every action resolved.
    pub fn take_result(self) -> (r: Result<(), ExecError>)
        requires
            self.done(),
        ensures
            match self.failed {
                Some(e) => r == Result::<(), ExecError>::Err(e),
                None => r == Result::<(), ExecError>::Ok(()),
            },
    {
        match self.failed {
            Some(e) => Err(e),
            None => Ok(()),
        }
    }
}

} // verus!
