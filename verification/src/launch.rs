//! Planning the launch of the bundled server process.
//!
//! The launcher runs in two steps around the host's I/O: first the outcome of
//! resolving the bundled script path becomes either a full [`LaunchPlan`] or
//! a resolution failure; then, after the host has tried to spawn the planned
//! process, the outcome of that spawn is registered with the supervisor.

use vstd::prelude::*;

verus! {

/// How one of the child process's standard streams is wired.
#[derive(Clone, Copy, PartialEq, Eq, Structural, Debug)]
pub enum StdioMode {
    /// Connected to the null device: input closed, output discarded.
    Null,
    /// Inherited from the parent process.
    Inherited,
}

/// Everything the host needs to start the bundled server as a child process:
/// the interpreter, its arguments, the one environment variable naming the
/// TCP port the server must bind, and the wiring of the three standard
/// streams.
pub struct LaunchPlan {
    pub program: String,
    pub args: Vec<String>,
    pub env_name: String,
    pub env_value: String,
    pub stdin: StdioMode,
    pub stdout: StdioMode,
    pub stderr: StdioMode,
}

impl LaunchPlan {
    /// The plan that starts the bundled server script: `node` runs the
    /// resolved script as its only argument, the port variable is set to
    /// exactly `8787`, and all three standard streams go to the null device.
    pub open spec fn is_server_plan(self, script_path: Seq<char>) -> bool {
        &&& self.program@ == "node"@
        &&& self.args@.len() == 1
        &&& self.args@[0]@ == script_path
        &&& self.env_name@ == "NEURAL_COMPUTER_SERVER_PORT"@
        &&& self.env_value@ == "8787"@
        &&& self.stdin is Null
        &&& self.stdout is Null
        &&& self.stderr is Null
    }
}

/// Build the launch plan for a resolved server script path.
pub fn server_launch_plan(script_path: String) -> (plan: LaunchPlan)
    ensures
        plan.is_server_plan(script_path@),
{
    let mut args: Vec<String> = Vec::new();
    args.push(script_path);
    LaunchPlan {
        program: String::from_str("node"),
        args,
        env_name: String::from_str("NEURAL_COMPUTER_SERVER_PORT"),
        env_value: String::from_str("8787"),
        stdin: StdioMode::Null,
        stdout: StdioMode::Null,
        stderr: StdioMode::Null,
    }
}

/// Why the launch failed: the bundled script path could not be resolved, or
/// the child process could not be created. Either failure is fatal to
/// startup; both carry the underlying error text.
#[derive(Debug)]
pub enum LaunchError {
    /// The bundled resource path could not be resolved.
    Resolve(String),
    /// Process creation itself failed.
    Spawn(String),
}

/// The message reported when the bundled script cannot be resolved.
pub open spec fn resolve_failure_message(detail: Seq<char>) -> Seq<char> {
    "failed to resolve bundled server.mjs: "@ + detail
}

/// The message reported when the server process cannot be spawned.
pub open spec fn spawn_failure_message(detail: Seq<char>) -> Seq<char> {
    "failed to spawn local API server: "@ + detail
}

impl LaunchError {
    /// The human-readable description of the failure: a fixed prefix naming
    /// the step that failed, followed by the underlying error text.
    pub fn message(&self) -> (msg: String)
        ensures
            self matches LaunchError::Resolve(d) ==> msg@ == resolve_failure_message(d@),
            self matches LaunchError::Spawn(d) ==> msg@ == spawn_failure_message(d@),
    {
        match self {
            LaunchError::Resolve(detail) => {
                String::from_str("failed to resolve bundled server.mjs: ").concat(detail.as_str())
            },
            LaunchError::Spawn(detail) => {
                String::from_str("failed to spawn local API server: ").concat(detail.as_str())
            },
        }
    }
}

/// First step of the launcher: turn the outcome of resolving the bundled
/// script path into either a full launch plan or a resolution failure
/// carrying the resolver's error text. On failure the setup sequence stops
/// here: no plan exists, so nothing is spawned and no handle is installed.
pub fn plan_launch(resolved: Result<String, String>) -> (r: Result<LaunchPlan, LaunchError>)
    ensures
        resolved matches Ok(path) ==> r matches Ok(plan) && plan.is_server_plan(path@),
        resolved matches Err(e) ==> r matches Err(LaunchError::Resolve(d)) && d@ == e@,
{
    match resolved {
        Ok(path) => Ok(server_launch_plan(path)),
        Err(e) => Err(LaunchError::Resolve(e)),
    }
}

} // verus!
