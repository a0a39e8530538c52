//! The execution engine: its request and response types, and the decisions
//! that turn what happened to a child process into a response or an error.
//!
//! Running the process is the host's part: it prepares the working
//! directory, spawns `request.command` with `request.args` in order and the
//! pairs of `request.env` laid over the inherited environment, in the
//! directory that `Sandbox::work_dir` gives, races it against
//! `Sandbox::timeout_secs`, and reports what it saw as a `RunOutcome`.

use crate::config::Config;
use crate::error::Error;
use crate::text::{decimal, decode_lossy, push_decimal, utf8_lossy};
use std::collections::HashMap;
use vstd::prelude::*;
use vstd::string::*;

verus! {

/// Request for sandbox execution.
#[derive(Debug, Clone)]
pub struct ExecutionRequest {
    /// Command to execute.
    pub command: String,
    /// Arguments for the command, in order.
    pub args: Vec<String>,
    /// Environment variables laid over the inherited environment.
    pub env: HashMap<String, String>,
    /// Working directory relative to the sandbox root. It is carried but not
    /// applied: every command runs in the configured working directory.
    pub cwd: Option<String>,
}

/// Response from sandbox execution.
#[derive(Debug, Clone, PartialEq, Eq)]
pub struct ExecutionResponse {
    /// Exit code, or -1 where the process gave none (killed by a signal).
    pub exit_code: i32,
    /// Standard output, decoded lossily.
    pub stdout: String,
    /// Standard error, decoded lossily.
    pub stderr: String,
    /// Elapsed wall-clock time in milliseconds.
    pub execution_time_ms: u128,
    /// Whether the process exited normally with code 0.
    pub success: bool,
}

/// What the host observed while running one request.
#[derive(Debug, Clone, PartialEq, Eq)]
pub enum RunOutcome {
    /// The working directory could not be created; `cause` describes why.
    WorkDirFailed { cause: String },
    /// The process could not be spawned or awaited; `cause` describes why.
    SpawnFailed { cause: String },
    /// The deadline passed before the process finished.
    TimedOut,
    /// The process finished before the deadline.
    Exited {
        /// The exit code, if the platform reported one.
        code: Option<i32>,
        /// Captured standard output.
        stdout: Vec<u8>,
        /// Captured standard error.
        stderr: Vec<u8>,
        /// Time from just before spawning until completion, in milliseconds.
        elapsed_ms: u128,
    },
}

/// Text of the error for a working directory that could not be created.
pub open spec fn work_dir_failure_text(cause: Seq<char>) -> Seq<char> {
    "Failed to create work dir: "@ + cause
}

/// Text of the error for a process that could not be run.
pub open spec fn spawn_failure_text(cause: Seq<char>) -> Seq<char> {
    "Command execution failed: "@ + cause
}

/// Text of the error for a process that outran a budget of `secs` seconds.
pub open spec fn timeout_text(secs: nat) -> Seq<char> {
    "Command timed out after "@ + decimal(secs) + " seconds"@
}

/// `r` is an execution error whose detail is `detail`.
pub open spec fn is_execution_error(r: Result<ExecutionResponse, Error>, detail: Seq<char>) -> bool {
    match r {
        Err(Error::SandboxExecution(m)) => m@ == detail,
        _ => false,
    }
}

/// The response that a finished process yields.
pub open spec fn is_exit_response(
    resp: ExecutionResponse,
    code: Option<i32>,
    stdout: Seq<u8>,
    stderr: Seq<u8>,
    elapsed_ms: u128,
) -> bool {
    &&& resp.exit_code == (match code {
        Some(c) => c,
        None => -1i32,
    })
    &&& resp.success == (code == Some(0i32))
    &&& resp.stdout@ == utf8_lossy(stdout)
    &&& resp.stderr@ == utf8_lossy(stderr)
    &&& resp.execution_time_ms == elapsed_ms
}

/// `r` is what an engine with a budget of `secs` seconds makes of `outcome`.
pub open spec fn concludes(secs: u64, outcome: RunOutcome, r: Result<ExecutionResponse, Error>) -> bool {
    match outcome {
        RunOutcome::WorkDirFailed { cause } => is_execution_error(r, work_dir_failure_text(cause@)),
        RunOutcome::SpawnFailed { cause } => is_execution_error(r, spawn_failure_text(cause@)),
        RunOutcome::TimedOut => is_execution_error(r, timeout_text(secs as nat)),
        RunOutcome::Exited { code, stdout, stderr, elapsed_ms } => match r {
            Ok(resp) => is_exit_response(resp, code, stdout@, stderr@, elapsed_ms),
            Err(_) => false,
        },
    }
}

/// Sandbox execution context.
#[derive(Debug, Clone)]
pub struct Sandbox {
    config: Config,
}

impl Sandbox {
    /// The configuration the sandbox was made with.
    pub closed spec fn configuration(&self) -> Config {
        self.config
    }

    /// Create a new sandbox instance.
    pub fn new(config: Config) -> (r: Self)
        ensures
            r.configuration() == config,
    {
        Sandbox { config }
    }

    /// Get the sandbox configuration.
    pub fn config(&self) -> (r: &Config)
        ensures
            *r == self.configuration(),
    {
        &self.config
    }

    /// The directory every command runs in.
    pub fn work_dir(&self) -> (r: &String)
        ensures
            *r == self.configuration().work_dir,
    {
        &self.config.work_dir
    }

    /// The execution budget, in seconds, measured from just before spawning.
    pub fn timeout_secs(&self) -> (r: u64)
        ensures
            r == self.configuration().max_execution_time,
    {
        self.config.max_execution_time
    }

    /// Turn what happened to the process into the engine's result. A failure
    /// to prepare, to spawn, or to finish in time is an execution error; a
    /// process that finished, whatever its exit code, is a response.
    pub fn conclude(&self, outcome: RunOutcome) -> (r: Result<ExecutionResponse, Error>)
        ensures
            concludes(self.configuration().max_execution_time, outcome, r),
    {
        match outcome {
            RunOutcome::WorkDirFailed { cause } => {
                let mut m = String::from_str("Failed to create work dir: ");
                m.append(cause.as_str());
                Err(Error::SandboxExecution(m))
            },
            RunOutcome::SpawnFailed { cause } => {
                let mut m = String::from_str("Command execution failed: ");
                m.append(cause.as_str());
                Err(Error::SandboxExecution(m))
            },
            RunOutcome::TimedOut => {
                let mut m = String::from_str("Command timed out after ");
                push_decimal(&mut m, self.config.max_execution_time);
                m.append(" seconds");
                Err(Error::SandboxExecution(m))
            },
            RunOutcome::Exited { code, stdout, stderr, elapsed_ms } => {
                let exit_code: i32 = match code {
                    Some(c) => c,
                    None => -1,
                };
                let success = match code {
                    Some(c) => c == 0,
                    None => false,
                };
                Ok(
                    ExecutionResponse {
                        exit_code,
                        stdout: decode_lossy(&stdout),
                        stderr: decode_lossy(&stderr),
                        execution_time_ms: elapsed_ms,
                        success,
                    },
                )
            },
        }
    }

    /// Release sandbox-scoped resources. Nothing is held between requests,
    /// so there is nothing to release and this always succeeds.
    pub fn cleanup(&self) -> (r: Result<(), Error>)
        ensures
            r == Ok::<(), Error>(()),
    {
        Ok(())
    }
}

} // verus!
