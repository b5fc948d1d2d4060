//! The worker handle: one external process under supervision.
//!
//! An [`ExternalBinaryProgram`] records a worker's immutable launch
//! specification and the presence of its live OS handle. The runtime layer
//! owns the actual child process under the recorded handle identifier; it
//! polls the child for liveness and reports the result as a [`Poll`] value,
//! spawns only when the handle model says no handle is present, and kills the
//! child whose identifier [`ExternalBinaryProgram::stop`] hands back. A
//! handle that is absent means not running on every path, so a stopped or
//! never-started worker reports a false status without any poll succeeding.

use vstd::prelude::*;

use crate::errors::ProgramError;
use crate::numfmt::{spec_decimal, u32_to_decimal};

verus! {

/// The outcome of one non-blocking liveness poll of the OS child.
#[derive(Clone, Copy, PartialEq, Eq, Structural)]
pub enum Poll {
    /// The child has not exited yet.
    Running,
    /// The child has exited.
    Exited,
    /// The poll itself failed; the worker is reported as not running.
    PollFailed,
}

/// One supervised external worker process: its name, its immutable launch
/// specification, and the identifier of its live OS handle when present.
pub struct ExternalBinaryProgram {
    pub name: String,
    pub path: String,
    pub args: Vec<String>,
    pub handle: Option<u64>,
}

impl ExternalBinaryProgram {
    /// Whether the worker counts as running: it holds a handle and the poll
    /// of that handle found the child alive.
    pub open spec fn spec_status(&self, poll: Poll) -> bool {
        self.handle is Some && poll == Poll::Running
    }

    /// `self` with its handle released.
    pub open spec fn spec_stop(self) -> ExternalBinaryProgram {
        ExternalBinaryProgram { handle: None, ..self }
    }

    /// A worker that has not been started.
    pub fn new(name: String, path: String, args: Vec<String>) -> (p: ExternalBinaryProgram)
        ensures
            p.name == name,
            p.path == path,
            p.args == args,
            p.handle is None,
    {
        ExternalBinaryProgram { name, path, args, handle: None }
    }

    /// Non-blocking liveness: true exactly when a handle is present and the
    /// poll of the OS child found it alive. A failed poll reports false.
    pub fn status(&self, poll: Poll) -> (r: bool)
        ensures
            r == self.spec_status(poll),
    {
        match &self.handle {
            None => false,
            Some(_) => match poll {
                Poll::Running => true,
                Poll::Exited => false,
                Poll::PollFailed => false,
            },
        }
    }

    /// Releases the handle. A worker without a handle stops as a no-op.
    /// Returns the released handle identifier so the runtime layer can kill
    /// the OS child; the cleanup duty travels with the returned value.
    pub fn stop(&mut self) -> (h: Option<u64>)
        ensures
            *final(self) == old(self).spec_stop(),
            h == old(self).handle,
    {
        let h = match &self.handle {
            None => None,
            Some(id) => Some(*id),
        };
        self.handle = None;
        h
    }

    /// Records a successful spawn, unless the worker already counts as
    /// running, in which case the start is refused as a duplicate and
    /// nothing changes. The runtime layer checks the status first and spawns
    /// only when it is false, so a refused start never follows a spawn.
    pub fn start(&mut self, poll: Poll, spawned: u64) -> (r: Result<(), ProgramError>)
        ensures
            old(self).spec_status(poll) ==> (r matches Err(ProgramError::CreateTwice(n)) && n@
                == old(self).name@) && *final(self) == *old(self),
            !old(self).spec_status(poll) ==> r is Ok && *final(self) == (ExternalBinaryProgram {
                handle: Some(spawned),
                ..*old(self)
            }),
    {
        if self.status(poll) {
            Err(ProgramError::CreateTwice(self.name.clone()))
        } else {
            self.handle = Some(spawned);
            Ok(())
        }
    }
}

/// A stopped worker reports a false status for every poll outcome, and
/// stopping again neither fails nor changes anything: stop is idempotent.
pub proof fn lemma_stop_then_status_false(p: ExternalBinaryProgram, poll: Poll)
    ensures
        !p.spec_stop().spec_status(poll),
        p.spec_stop().spec_stop() == p.spec_stop(),
{
}

/// The well-known files that ship beside the supervisor, addressed relative
/// to its installation directory.
pub enum ExternalFilePosition {
    N2NClient,
    WinIPBroadcast,
    Config,
    MiniServe,
}

impl ExternalFilePosition {
    /// The relative path of the file.
    pub fn path_string(&self) -> (r: String)
        ensures
            r@ == (match self {
                ExternalFilePosition::N2NClient => "client\\x64\\edge.exe"@,
                ExternalFilePosition::WinIPBroadcast => "client\\x64\\WinIPBroadcast.exe"@,
                ExternalFilePosition::Config => "client\\config.json"@,
                ExternalFilePosition::MiniServe => "client\\x64\\miniserve.exe"@,
            }),
    {
        match self {
            ExternalFilePosition::N2NClient => String::from_str("client\\x64\\edge.exe"),
            ExternalFilePosition::WinIPBroadcast => String::from_str(
                "client\\x64\\WinIPBroadcast.exe",
            ),
            ExternalFilePosition::Config => String::from_str("client\\config.json"),
            ExternalFilePosition::MiniServe => String::from_str("client\\x64\\miniserve.exe"),
        }
    }
}

/// The command line of the network-edge worker: group, supernode address and
/// port, identification, and the fixed flags the supervisor always passes.
pub fn edge_args(
    group: &str,
    server: &str,
    port: u16,
    identification: &str,
) -> (args: Vec<String>)
    ensures
        args@.len() == 9,
        args@[0]@ == "-c"@,
        args@[1]@ == group@,
        args@[2]@ == "-l"@,
        args@[3]@ == server@ + ":"@ + spec_decimal(port as nat),
        args@[4]@ == "-I"@,
        args@[5]@ == identification@,
        args@[6]@ == "-E"@,
        args@[7]@ == "-p"@,
        args@[8]@ == spec_decimal(port as nat),
{
    let port_str = u32_to_decimal(port as u32);
    let mut locator = String::from_str(server);
    locator.append(":");
    locator.append(port_str.as_str());
    let mut args: Vec<String> = Vec::new();
    args.push(String::from_str("-c"));
    args.push(String::from_str(group));
    args.push(String::from_str("-l"));
    args.push(locator);
    args.push(String::from_str("-I"));
    args.push(String::from_str(identification));
    args.push(String::from_str("-E"));
    args.push(String::from_str("-p"));
    args.push(port_str);
    args
}

/// The command line of the file-sharing worker: the shared path, the port,
/// and the fixed presentation flags.
pub fn miniserve_args(file_path: String, port: u32) -> (args: Vec<String>)
    ensures
        args@.len() == 7,
        args@[0] == file_path,
        args@[1]@ == "-p"@,
        args@[2]@ == spec_decimal(port as nat),
        args@[3]@ == "-H"@,
        args@[4]@ == "-r"@,
        args@[5]@ == "-D"@,
        args@[6]@ == "-F"@,
{
    let mut args: Vec<String> = Vec::new();
    args.push(file_path);
    args.push(String::from_str("-p"));
    args.push(u32_to_decimal(port));
    args.push(String::from_str("-H"));
    args.push(String::from_str("-r"));
    args.push(String::from_str("-D"));
    args.push(String::from_str("-F"));
    args
}

/// The command line of the broadcast-forwarding worker.
pub fn win_ip_broadcast_args() -> (args: Vec<String>)
    ensures
        args@.len() == 1,
        args@[0]@ == "run"@,
{
    let mut args: Vec<String> = Vec::new();
    args.push(String::from_str("run"));
    args
}

} // verus!
