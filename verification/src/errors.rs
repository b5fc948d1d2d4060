//! The error taxonomy of the supervision core.
//!
//! Every failure is a named value close to its origin; the boundary that the
//! embedding application exposes flattens them to descriptive strings with
//! [`ProgramError::message`].

use vstd::prelude::*;

verus! {

/// Process, protocol and configuration errors raised by the core.
#[derive(Debug)]
pub enum ProgramError {
    /// A failure of the supervised child process or of the lock that guards it.
    ChildProcessError(String),
    /// The named worker is not registered.
    ChildProcessNotFound,
    /// A start was requested for a worker that is already running.
    CreateTwice(String),
    /// The working directory could not be determined.
    GetCurrentDirError(String),
    /// A registry entry does not support the requested protocol variant.
    DowncastError,
    /// A value in a response had an unexpected shape.
    TransferError,
    /// A required parameter was missing from a response.
    ParameterGetError(String),
    /// The child's standard output could not be captured.
    StdoutGetError,
    /// An external command failed to run.
    CommandRunningError(String),
    /// The configuration could not be obtained.
    ConfigGetError(String),
    /// A file could not be read or written.
    FileRWError(String),
    /// A network transfer failed.
    NetworkError(String),
    /// A firewall rule could not be inspected or installed.
    FireWallError,
}

/// The descriptive string for an error value.
pub open spec fn spec_message(e: &ProgramError) -> Seq<char> {
    match e {
        ProgramError::ChildProcessError(s) => "child process error: "@ + s@,
        ProgramError::ChildProcessNotFound => "child process not found"@,
        ProgramError::CreateTwice(s) => "process started twice: "@ + s@,
        ProgramError::GetCurrentDirError(s) => "failed to get current directory: "@ + s@,
        ProgramError::DowncastError => "downcast failed"@,
        ProgramError::TransferError => "conversion failed"@,
        ProgramError::ParameterGetError(s) => "failed to get parameter: "@ + s@,
        ProgramError::StdoutGetError => "failed to capture standard output"@,
        ProgramError::CommandRunningError(s) => "command failed: "@ + s@,
        ProgramError::ConfigGetError(s) => "failed to get configuration: "@ + s@,
        ProgramError::FileRWError(s) => "file read or write failed: "@ + s@,
        ProgramError::NetworkError(s) => "network error: "@ + s@,
        ProgramError::FireWallError => "firewall error"@,
    }
}

impl ProgramError {
    /// Flattens the error to the descriptive string shown at the boundary.
    pub fn message(&self) -> (r: String)
        ensures
            r@ == spec_message(self),
    {
        match self {
            ProgramError::ChildProcessError(s) => {
                let mut m = String::from_str("child process error: ");
                m.append(s.as_str());
                m
            },
            ProgramError::ChildProcessNotFound => String::from_str("child process not found"),
            ProgramError::CreateTwice(s) => {
                let mut m = String::from_str("process started twice: ");
                m.append(s.as_str());
                m
            },
            ProgramError::GetCurrentDirError(s) => {
                let mut m = String::from_str("failed to get current directory: ");
                m.append(s.as_str());
                m
            },
            ProgramError::DowncastError => String::from_str("downcast failed"),
            ProgramError::TransferError => String::from_str("conversion failed"),
            ProgramError::ParameterGetError(s) => {
                let mut m = String::from_str("failed to get parameter: ");
                m.append(s.as_str());
                m
            },
            ProgramError::StdoutGetError => String::from_str("failed to capture standard output"),
            ProgramError::CommandRunningError(s) => {
                let mut m = String::from_str("command failed: ");
                m.append(s.as_str());
                m
            },
            ProgramError::ConfigGetError(s) => {
                let mut m = String::from_str("failed to get configuration: ");
                m.append(s.as_str());
                m
            },
            ProgramError::FileRWError(s) => {
                let mut m = String::from_str("file read or write failed: ");
                m.append(s.as_str());
                m
            },
            ProgramError::NetworkError(s) => {
                let mut m = String::from_str("network error: ");
                m.append(s.as_str());
                m
            },
            ProgramError::FireWallError => String::from_str("firewall error"),
        }
    }
}

} // verus!
