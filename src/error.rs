use vstd::prelude::*;

verus! {

/// Why the operating system could not launch the server process.
#[derive(Debug, Clone, Copy, PartialEq, Eq, Structural)]
pub enum SpawnError {
    ExecutableNotFound,
    LaunchRefused,
    AlreadyRunning,
}

/// How a graceful stop ended without the process exiting.
#[derive(Debug, Clone, Copy, PartialEq, Eq, Structural)]
pub enum StopError {
    Timeout,
    NoSuchProcess,
}

/// How a forced kill failed.
#[derive(Debug, Clone, Copy, PartialEq, Eq, Structural)]
pub enum KillError {
    AlreadyExited,
    OsRefused,
}

/// Errors of the control operations of an instance.
#[derive(Debug, Clone, Copy, PartialEq, Eq, Structural)]
pub enum HandleError {
    InternalError,
    StartFailedNotStopped,
    StopFailedNotRunning,
    StartFailedChildExists,
    StopFailedChildNotExists,
    KillFailedChildNotExists,
    KillFailledInternal,
    PumpsFailedNoChild,
    PumpsFailedNoStdout,
    PumpsFailedNoStderr,
    SpawnFailed(SpawnError),
}

#[derive(Debug, Clone, Copy, PartialEq, Eq, Structural)]
pub enum SubscribeError {
    NoSuchStream,
}

#[derive(Debug, Clone, Copy, PartialEq, Eq, Structural)]
pub enum ManifestError {
    LoadUrlError,
    JsonParseError,
}

#[derive(Debug, Clone, Copy, PartialEq, Eq, Structural)]
pub enum CreationError {
    DirectoryError,
    ManifestError,
    VersionError,
    NetworkError,
    CreationError,
}

} // verus!
