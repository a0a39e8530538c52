//! Error types of the library.

use vstd::prelude::*;
use vstd::string::*;

verus! {

/// Errors that can occur while configuring, executing or dispatching.
#[derive(Debug, Clone, PartialEq, Eq)]
pub enum Error {
    /// Filesystem or process I/O failure, with the platform's description.
    Io(String),
    /// Malformed structured payload, with the decoder's description.
    Json(String),
    /// Spawn failure, timeout, or failure to prepare the working directory.
    SandboxExecution(String),
    /// Invalid configuration.
    Config(String),
    /// The caller sent a reply-only message as a request.
    Protocol(String),
    /// Any other failure.
    Other(String),
}

impl Error {
    /// The human-readable text of the error: a prefix naming its kind,
    /// followed by its detail.
    pub open spec fn text(self) -> Seq<char> {
        match self {
            Error::Io(s) => "IO error: "@ + s@,
            Error::Json(s) => "JSON error: "@ + s@,
            Error::SandboxExecution(s) => "Sandbox execution error: "@ + s@,
            Error::Config(s) => "Configuration error: "@ + s@,
            Error::Protocol(s) => "MCP protocol error: "@ + s@,
            Error::Other(s) => s@,
        }
    }

    /// Render the error as text.
    pub fn message(&self) -> (r: String)
        ensures
            r@ == self.text(),
    {
        match self {
            Error::Io(s) => prefixed("IO error: ", s),
            Error::Json(s) => prefixed("JSON error: ", s),
            Error::SandboxExecution(s) => prefixed("Sandbox execution error: ", s),
            Error::Config(s) => prefixed("Configuration error: ", s),
            Error::Protocol(s) => prefixed("MCP protocol error: ", s),
            Error::Other(s) => s.clone(),
        }
    }
}

fn prefixed(prefix: &str, detail: &String) -> (r: String)
    ensures
        r@ == prefix@ + detail@,
{
    let mut r = String::from_str(prefix);
    r.append(detail.as_str());
    r
}

impl From<String> for Error {
    fn from(s: String) -> (r: Error)
        ensures
            r == Error::Other(s),
    {
        Error::Other(s)
    }
}

impl vstd::std_specs::convert::FromSpecImpl<String> for Error {
    open spec fn obeys_from_spec() -> bool {
        true
    }

    open spec fn from_spec(s: String) -> Error {
        Error::Other(s)
    }
}

} // verus!
