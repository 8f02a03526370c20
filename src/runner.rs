//! Decisions of the command runner: which command is spawned, under which
//! deadline, and the result record for each way a run can end. Spawning,
//! waiting and reading the output streams happen outside the library.

use crate::text::{clone_strings, concat2, owned};
use vstd::prelude::*;

verus! {

/// Deadline for a command whose request gives none, or a non-positive one.
pub const DEFAULT_EXEC_TIMEOUT_MS: u64 = 120_000;

/// What a run produced.
#[derive(Clone, Debug)]
pub struct ExecHostRunResult {
    pub exit_code: Option<i32>,
    pub timed_out: bool,
    pub success: bool,
    pub stdout: String,
    pub stderr: String,
    pub error: Option<String>,
}

/// The deadline a request's timeout field asks for.
pub open spec fn timeout_for(t: Option<i64>) -> u64 {
    match t {
        Some(ms) => if ms > 0 { ms as u64 } else { DEFAULT_EXEC_TIMEOUT_MS },
        None => DEFAULT_EXEC_TIMEOUT_MS,
    }
}

/// The deadline in milliseconds: the requested one when positive, else the
/// default.
pub fn effective_timeout_ms(t: Option<i64>) -> (r: u64)
    ensures
        r == timeout_for(t),
        r > 0,
{
    match t {
        Some(ms) => if ms > 0 { ms as u64 } else { DEFAULT_EXEC_TIMEOUT_MS },
        None => DEFAULT_EXEC_TIMEOUT_MS,
    }
}

/// A failed run that produced no output.
pub open spec fn is_failure(r: ExecHostRunResult, timed_out: bool, error: Seq<char>) -> bool {
    &&& r.exit_code is None
    &&& r.timed_out == timed_out
    &&& !r.success
    &&& r.stdout@.len() == 0
    &&& r.stderr@.len() == 0
    &&& r.error is Some
    &&& r.error->0@ == error
}

fn failure(timed_out: bool, error: String) -> (r: ExecHostRunResult)
    ensures
        is_failure(r, timed_out, error@),
{
    ExecHostRunResult {
        exit_code: None,
        timed_out,
        success: false,
        stdout: String::new(),
        stderr: String::new(),
        error: Some(error),
    }
}

/// The result for a request with no command: nothing is spawned.
pub fn empty_command_result() -> (r: ExecHostRunResult)
    ensures
        is_failure(r, false, "empty command"@),
{
    failure(false, owned("empty command"))
}

/// The result when the process could not be spawned.
pub fn spawn_failed_result(reason: &str) -> (r: ExecHostRunResult)
    ensures
        is_failure(r, false, "spawn error: "@ + reason@),
{
    failure(false, concat2("spawn error: ", reason))
}

/// The result when waiting for the process failed; it has been killed.
pub fn wait_failed_result(reason: &str) -> (r: ExecHostRunResult)
    ensures
        is_failure(r, false, "wait error: "@ + reason@),
{
    failure(false, concat2("wait error: ", reason))
}

/// The result when the deadline passed; the process has been killed and
/// reaped, and no exit code is reported.
pub fn timed_out_result() -> (r: ExecHostRunResult)
    ensures
        is_failure(r, true, "command timed out"@),
{
    failure(true, owned("command timed out"))
}

/// The result of a process that ran to completion.
pub fn completed_result(exit_code: Option<i32>, success: bool, stdout: String, stderr: String) -> (r:
    ExecHostRunResult)
    ensures
        r.exit_code == exit_code,
        !r.timed_out,
        r.success == success,
        r.stdout == stdout,
        r.stderr == stderr,
        r.error is None,
{
    ExecHostRunResult { exit_code, timed_out: false, success, stdout, stderr, error: None }
}

/// What to do with a command line.
pub enum RunPlan {
    /// Nothing is spawned; the result is final.
    Reject(ExecHostRunResult),
    /// Spawn `program` with `args`, stdin closed and both output streams
    /// captured, and kill it after `timeout_ms`.
    Spawn { program: String, args: Vec<String>, timeout_ms: u64 },
}

/// Plans a run: an empty command line is refused before anything is
/// spawned; otherwise its first word is the program and the rest its
/// arguments.
pub fn plan_run(argv: &Vec<String>, timeout: Option<i64>) -> (r: RunPlan)
    ensures
        argv@.len() == 0 <==> r is Reject,
        r matches RunPlan::Reject(res) ==> is_failure(res, false, "empty command"@),
        r matches RunPlan::Spawn { program, args, timeout_ms } ==> {
            &&& program == argv@[0]
            &&& args@ == argv@.subrange(1, argv@.len() as int)
            &&& timeout_ms == timeout_for(timeout)
        },
{
    if argv.len() == 0 {
        return RunPlan::Reject(empty_command_result());
    }
    let all = clone_strings(argv);
    let mut args: Vec<String> = Vec::new();
    let mut i: usize = 1;
    while i < all.len()
        invariant
            all@ == argv@,
            1 <= i <= all@.len(),
            args@ == all@.subrange(1, i as int),
        decreases all@.len() - i,
    {
        args.push(all[i].clone());
        i = i + 1;
    }
    RunPlan::Spawn { program: argv[0].clone(), args, timeout_ms: effective_timeout_ms(timeout) }
}

} // verus!
