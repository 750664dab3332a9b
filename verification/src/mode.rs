//! The build-time mode switch.
//!
//! The supervisor exists only in release builds. A debug build installs a
//! structured logging facility instead and never spawns or tracks a
//! subprocess; its shutdown hook is a no-op. The two paths never coexist in
//! one running binary, so the switch is a single decision taken once.

use vstd::prelude::*;

verus! {

/// Which configuration the application was built for.
#[derive(Clone, Copy, PartialEq, Eq, Structural, Debug)]
pub enum BuildMode {
    /// A development build: the developer runs the server separately.
    Debug,
    /// A release build: the bundled server is supervised.
    Release,
}

/// The verbosity of the logging facility installed in debug builds.
#[derive(Clone, Copy, PartialEq, Eq, Structural, Debug)]
pub enum LogVerbosity {
    Error,
    Warn,
    Info,
    Debug,
    Trace,
}

/// What the setup hook does, once, before the window is shown.
#[derive(Clone, Copy, PartialEq, Eq, Structural, Debug)]
pub enum SetupAction {
    /// Install a structured logging facility at the given verbosity; no
    /// subprocess is spawned or tracked.
    InstallLogging(LogVerbosity),
    /// Launch the bundled server and register its handle.
    LaunchServer,
}

/// The build-time branch: a debug build installs info-level logging and never
/// spawns the server; a release build launches and supervises it.
pub fn setup_action(build: BuildMode) -> (action: SetupAction)
    ensures
        build is Debug ==> action == SetupAction::InstallLogging(LogVerbosity::Info),
        build is Release ==> action == SetupAction::LaunchServer,
{
    match build {
        BuildMode::Debug => SetupAction::InstallLogging(LogVerbosity::Info),
        BuildMode::Release => SetupAction::LaunchServer,
    }
}

} // verus!
