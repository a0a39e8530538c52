//! Configuration of the server and of the execution engine.

use vstd::prelude::*;
use vstd::string::*;

verus! {

/// Default address the server would bind to.
pub const DEFAULT_HOST: &'static str = "127.0.0.1";

/// Default port the server would bind to.
pub const DEFAULT_PORT: u16 = 8080;

/// Default execution budget, in seconds.
pub const DEFAULT_MAX_EXECUTION_TIME: u64 = 30;

/// Default memory ceiling, in megabytes.
pub const DEFAULT_MAX_MEMORY_MB: usize = 512;

/// Default working directory of the sandbox.
pub const DEFAULT_WORK_DIR: &'static str = "/tmp/sandbox-rust-mcp";

/// Server configuration. It is an immutable value once built.
#[derive(Debug, Clone)]
pub struct Config {
    /// Server host address (reserved for a transport).
    pub host: String,
    /// Server port (reserved for a transport).
    pub port: u16,
    /// Maximum execution time in seconds.
    pub max_execution_time: u64,
    /// Maximum memory limit in MB (declared, not enforced).
    pub max_memory_mb: usize,
    /// Working directory for the sandbox.
    pub work_dir: String,
    /// Enable verbose logging.
    pub verbose: bool,
}

impl Config {
    /// The configuration that `new` and `default` produce.
    pub open spec fn is_default(self) -> bool {
        &&& self.host@ == DEFAULT_HOST@
        &&& self.port == DEFAULT_PORT
        &&& self.max_execution_time == DEFAULT_MAX_EXECUTION_TIME
        &&& self.max_memory_mb == DEFAULT_MAX_MEMORY_MB
        &&& self.work_dir@ == DEFAULT_WORK_DIR@
        &&& !self.verbose
    }

    /// Create a new configuration holding the default values.
    pub fn new() -> (r: Self)
        ensures
            r.is_default(),
    {
        Self::default()
    }

    /// Set the host address.
    pub fn with_host(self, host: String) -> (r: Self)
        ensures
            r == (Config { host, ..self }),
    {
        let mut c = self;
        c.host = host;
        c
    }

    /// Set the port.
    pub fn with_port(self, port: u16) -> (r: Self)
        ensures
            r == (Config { port, ..self }),
    {
        let mut c = self;
        c.port = port;
        c
    }

    /// Set the maximum execution time, in seconds.
    pub fn with_max_execution_time(self, seconds: u64) -> (r: Self)
        ensures
            r == (Config { max_execution_time: seconds, ..self }),
    {
        let mut c = self;
        c.max_execution_time = seconds;
        c
    }

    /// Set the maximum memory limit, in megabytes.
    pub fn with_max_memory(self, mb: usize) -> (r: Self)
        ensures
            r == (Config { max_memory_mb: mb, ..self }),
    {
        let mut c = self;
        c.max_memory_mb = mb;
        c
    }

    /// Set the working directory.
    pub fn with_work_dir(self, path: String) -> (r: Self)
        ensures
            r == (Config { work_dir: path, ..self }),
    {
        let mut c = self;
        c.work_dir = path;
        c
    }

    /// Enable or disable verbose logging.
    pub fn with_verbose(self, verbose: bool) -> (r: Self)
        ensures
            r == (Config { verbose, ..self }),
    {
        let mut c = self;
        c.verbose = verbose;
        c
    }
}

impl Default for Config {
    fn default() -> (r: Self)
        ensures
            r.is_default(),
    {
        Config {
            host: String::from_str(DEFAULT_HOST),
            port: DEFAULT_PORT,
            max_execution_time: DEFAULT_MAX_EXECUTION_TIME,
            max_memory_mb: DEFAULT_MAX_MEMORY_MB,
            work_dir: String::from_str(DEFAULT_WORK_DIR),
            verbose: false,
        }
    }
}

} // verus!
