//! One pending external-command invocation.
//!
//! A [`Subprocess`] accumulates the program, its ordered arguments and its
//! child environment, and is consumed exactly once: [`Subprocess::run_decision`]
//! decides whether the command is launched at all, and
//! [`run_outcome`] turns what the platform reported back into the result of
//! the invocation.  The launch itself is platform work that the unverified
//! layer around the crate performs.

use crate::decimal::dec_int;
use crate::decimal::fmt_i32;
use crate::error::Error;
use crate::error::ErrorKind;
use vstd::prelude::*;

verus! {

/// One pending external-command invocation: the program, its arguments in
/// call order, the fully explicit child environment (the later of two pairs
/// with one name winning), the working directory, and the silent and
/// dry-run switches.  The child environment starts as the constructing
/// shell's snapshot and grows only by explicit overrides: nothing is
/// inherited from the ambient process environment.
pub struct Subprocess {
    pub program: String,
    pub args: Vec<String>,
    pub envs: Vec<(String, String)>,
    pub current_dir: String,
    pub silent: bool,
    pub dry_run: bool,
}

impl Subprocess {
    /// Appends one argument.
    pub fn arg(self, arg: String) -> (r: Self)
        ensures
            r.args@ == self.args@.push(arg),
            r.program == self.program,
            r.envs == self.envs,
            r.current_dir == self.current_dir,
            r.silent == self.silent,
            r.dry_run == self.dry_run,
    {
        let mut s = self;
        s.args.push(arg);
        s
    }

    /// Appends arguments, keeping their order.
    pub fn args(self, args: Vec<String>) -> (r: Self)
        ensures
            r.args@ == self.args@ + args@,
            r.program == self.program,
            r.envs == self.envs,
            r.current_dir == self.current_dir,
            r.silent == self.silent,
            r.dry_run == self.dry_run,
    {
        let mut s = self;
        let mut rest = args;
        s.args.append(&mut rest);
        s
    }

    /// Sets or overwrites one environment variable for the child: the pair
    /// is appended, and the last pair with a given name is the one the
    /// child sees.
    pub fn env(self, key: String, val: String) -> (r: Self)
        ensures
            r.envs@ == self.envs@.push((key, val)),
            r.program == self.program,
            r.args == self.args,
            r.current_dir == self.current_dir,
            r.silent == self.silent,
            r.dry_run == self.dry_run,
    {
        let mut s = self;
        s.envs.push((key, val));
        s
    }

    /// Silences the child: its standard output and error go to the null
    /// device instead of being inherited.
    pub fn silent(self) -> (r: Self)
        ensures
            r.silent,
            r.program == self.program,
            r.args == self.args,
            r.envs == self.envs,
            r.current_dir == self.current_dir,
            r.dry_run == self.dry_run,
    {
        let mut s = self;
        s.silent = true;
        s
    }

    /// Consumes the builder and decides the terminal step: with the
    /// dry-run switch set the launch is skipped outright, otherwise the
    /// builder itself is handed out as the exact launch request.
    pub fn run_decision(self) -> (r: RunDecision)
        ensures
            r == run_decision_spec(self),
    {
        if self.dry_run {
            RunDecision::Skipped
        } else {
            RunDecision::Launch(self)
        }
    }
}

/// What running a builder decides.
pub enum RunDecision {
    /// Do not launch anything; announce the skipped step and report
    /// success unconditionally.
    Skipped,
    /// Launch exactly this invocation and judge its outcome with
    /// [`run_outcome`].
    Launch(Subprocess),
}

/// The decision [`Subprocess::run_decision`] takes: skip under dry-run,
/// launch the unchanged invocation otherwise.
pub open spec fn run_decision_spec(s: Subprocess) -> RunDecision {
    if s.dry_run {
        RunDecision::Skipped
    } else {
        RunDecision::Launch(s)
    }
}

/// With the dry-run switch set, running any builder skips the launch: no
/// process is requested, and the skipped step reports success
/// unconditionally.
pub proof fn lemma_dry_run_skips(s: Subprocess)
    requires
        s.dry_run,
    ensures
        run_decision_spec(s) == RunDecision::Skipped,
{
}

/// Without the dry-run switch, running a builder launches exactly what was
/// accumulated: program, arguments, environment, working directory and
/// silencing all unchanged.
pub proof fn lemma_run_launches_as_built(s: Subprocess)
    requires
        !s.dry_run,
    ensures
        run_decision_spec(s) == RunDecision::Launch(s),
{
}

/// What the platform reported for a launched invocation.
pub enum SpawnOutcome {
    /// The process could not be started at all (program not found,
    /// permission denied, ...).
    SpawnFailed(std::io::Error),
    /// The process ran to completion with this exit code, or with no code
    /// at all when it was terminated abnormally.
    Exited(Option<i32>),
}

/// The text embedding an observed exit code in the failure message.
pub open spec fn exit_message(code: int) -> Seq<char> {
    "Subprocess failed with the exit code "@ + dec_int(code)
}

/// Renders the failure message for a non-zero or unavailable exit code.
fn exit_msg_string(code: i32) -> (r: String)
    ensures
        r@ == exit_message(code as int),
{
    String::from_str("Subprocess failed with the exit code ").concat(fmt_i32(code).as_str())
}

/// Judges what the platform reported: a failed launch is handed back
/// verbatim as a platform error; an exit with code zero is success; any
/// other exit is a message error embedding the exit code, where an
/// unavailable code (abnormal termination) is reported as zero.
pub fn run_outcome(outcome: SpawnOutcome) -> (r: Result<(), Error>)
    ensures
        r is Ok <==> outcome == (SpawnOutcome::Exited(Some(0i32))),
        match outcome {
            SpawnOutcome::SpawnFailed(e) => r == Err::<(), Error>((Error(ErrorKind::Io(e)))),
            SpawnOutcome::Exited(Some(c)) => c != 0 ==> (r matches Err(err) && err.0 matches
                ErrorKind::Msg(m) && m@ == exit_message(c as int)),
            SpawnOutcome::Exited(None) => (r matches Err(err) && err.0 matches ErrorKind::Msg(m)
                && m@ == exit_message(0)),
        },
{
    match outcome {
        SpawnOutcome::SpawnFailed(e) => Err(Error::io_error(e)),
        SpawnOutcome::Exited(code) => match code {
            Some(c) => if c == 0 {
                Ok(())
            } else {
                Err(Error::msg(exit_msg_string(c)))
            },
            None => Err(Error::msg(exit_msg_string(0))),
        },
    }
}

} // verus!
