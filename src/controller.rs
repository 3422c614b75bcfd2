//! The host-facing controller: zero or one running child process, the
//! configuration of the next one, and what `start`, `write`, `poll` and
//! `stop` decide.
//!
//! The controller is generic over the handle `P` of a running process. It
//! never performs I/O itself: the caller spawns the process, sends the bytes
//! that `write` returns and drains the streams that `poll` classifies.
//! Dropping a handle is what terminates its process, so `stop` hands the
//! handle back to be dropped.

use crate::text::decode_chunk;
use crate::text::drained_from;
use crate::text::encode_text;
use crate::text::Drained;
use vstd::prelude::*;
use vstd::utf8::encode_utf8;

verus! {

/// Why `start` did not leave a new process running.
#[derive(Debug, PartialEq, Eq)]
pub enum StartError {
    /// A process is already running; it is left as it is.
    AlreadyRunning,
    /// The operating system refused to create the process; the message
    /// says why.
    SpawnFailed(String),
}

/// Why `write` sent nothing.
#[derive(PartialEq, Eq, Structural, Debug, Clone, Copy)]
pub enum WriteError {
    /// No process is running.
    NotRunning,
}

/// What one poll yields for each output stream.
#[derive(Debug, PartialEq, Eq)]
pub struct Polled {
    pub stdout: Drained,
    pub stderr: Drained,
}

pub struct ProcessController<P> {
    command: String,
    args: Vec<String>,
    start_on_ready: bool,
    current: Option<P>,
}

impl<P> ProcessController<P> {
    /// The program that the next `start` runs.
    pub closed spec fn command_spec(&self) -> Seq<char> {
        self.command@
    }

    /// The arguments that the next `start` passes, in order.
    pub closed spec fn args_spec(&self) -> Seq<Seq<char>> {
        self.args@.map_values(|a: String| a@)
    }

    pub closed spec fn start_on_ready_spec(&self) -> bool {
        self.start_on_ready
    }

    /// The handle of the running process, if any.
    pub closed spec fn process(&self) -> Option<P> {
        self.current
    }

    pub open spec fn is_running(&self) -> bool {
        self.process().is_some()
    }

    /// An idle controller with an empty command, no arguments and no start
    /// on ready.
    pub fn new() -> (r: Self)
        ensures
            r.command_spec().len() == 0,
            r.args_spec().len() == 0,
            !r.start_on_ready_spec(),
            r.process().is_none(),
    {
        ProcessController {
            command: String::new(),
            args: Vec::new(),
            start_on_ready: false,
            current: None,
        }
    }

    /// Sets what the next `start` runs. A running process is not affected.
    pub fn configure(&mut self, command: String, args: Vec<String>, start_on_ready: bool)
        ensures
            final(self).command_spec() == command@,
            final(self).args_spec() == args@.map_values(|a: String| a@),
            final(self).start_on_ready_spec() == start_on_ready,
            final(self).process() == old(self).process(),
    {
        self.command = command;
        self.args = args;
        self.start_on_ready = start_on_ready;
    }

    pub fn command(&self) -> (r: &String)
        ensures
            r@ == self.command_spec(),
    {
        &self.command
    }

    pub fn args(&self) -> (r: &Vec<String>)
        ensures
            r@.map_values(|a: String| a@) == self.args_spec(),
    {
        &self.args
    }

    pub fn start_on_ready(&self) -> (r: bool)
        ensures
            r == self.start_on_ready_spec(),
    {
        self.start_on_ready
    }

    pub fn is_started(&self) -> (r: bool)
        ensures
            r == self.is_running(),
    {
        self.current.is_some()
    }

    /// The handle of the running process, if any.
    pub fn current(&self) -> (r: Option<&P>)
        ensures
            r.is_some() == self.is_running(),
            r.is_some() ==> *r.unwrap() == self.process().unwrap(),
    {
        match &self.current {
            Some(p) => Some(p),
            None => None,
        }
    }

    /// Whether the host, once ready, starts the process by itself: only
    /// outside the editor, and only when so configured.
    pub fn starts_when_ready(&self, in_editor: bool) -> (r: bool)
        ensures
            r == (!in_editor && self.start_on_ready_spec()),
    {
        !in_editor && self.start_on_ready
    }

    /// Whether a process may be spawned now: only while none is running.
    pub fn check_start(&self) -> (r: Result<(), StartError>)
        ensures
            r is Ok <==> !self.is_running(),
            r is Err ==> r == Err::<(), StartError>(StartError::AlreadyRunning),
    {
        if self.current.is_some() {
            Err(StartError::AlreadyRunning)
        } else {
            Ok(())
        }
    }

    /// Takes in the outcome of spawning the configured command. On success
    /// the controller is running the new process; a spawn failure leaves it
    /// idle. A controller that is already running keeps its process and
    /// refuses the new one, which is dropped.
    pub fn attach(&mut self, spawned: Result<P, String>) -> (r: Result<(), StartError>)
        ensures
            final(self).command_spec() == old(self).command_spec(),
            final(self).args_spec() == old(self).args_spec(),
            final(self).start_on_ready_spec() == old(self).start_on_ready_spec(),
            old(self).is_running() ==> r == Err::<(), StartError>(StartError::AlreadyRunning)
                && final(self).process() == old(self).process(),
            !old(self).is_running() ==> match spawned {
                Ok(p) => r is Ok && final(self).process() == Some(p),
                Err(m) => r == Err::<(), StartError>(StartError::SpawnFailed(m))
                    && final(self).process().is_none(),
            },
    {
        if self.current.is_some() {
            return Err(StartError::AlreadyRunning);
        }
        match spawned {
            Ok(p) => {
                self.current = Some(p);
                Ok(())
            },
            Err(m) => Err(StartError::SpawnFailed(m)),
        }
    }

    /// The bytes to send to the running process's standard input for
    /// `text`; an error, and nothing to send, while idle.
    pub fn write(&self, text: &str) -> (r: Result<Vec<u8>, WriteError>)
        ensures
            self.is_running() ==> r is Ok && r.unwrap()@ == encode_utf8(text@),
            !self.is_running() ==> r == Err::<Vec<u8>, WriteError>(WriteError::NotRunning),
    {
        if self.current.is_some() {
            Ok(encode_text(text))
        } else {
            Err(WriteError::NotRunning)
        }
    }

    /// Classifies what was drained from the two output streams since the
    /// previous poll. While idle there is nothing to report, whatever is
    /// handed in.
    pub fn poll(&self, stdout: Vec<u8>, stderr: Vec<u8>) -> (r: Polled)
        ensures
            self.is_running() ==> drained_from(r.stdout, stdout@) && drained_from(r.stderr, stderr@),
            !self.is_running() ==> r.stdout is Nothing && r.stderr is Nothing,
    {
        if self.current.is_some() {
            Polled { stdout: decode_chunk(stdout), stderr: decode_chunk(stderr) }
        } else {
            Polled { stdout: Drained::Nothing, stderr: Drained::Nothing }
        }
    }

    /// Back to idle. The handle of the process that was running is returned
    /// so that dropping it terminates the process.
    pub fn stop(&mut self) -> (r: Option<P>)
        ensures
            r == old(self).process(),
            final(self).process().is_none(),
            final(self).command_spec() == old(self).command_spec(),
            final(self).args_spec() == old(self).args_spec(),
            final(self).start_on_ready_spec() == old(self).start_on_ready_spec(),
    {
        self.current.take()
    }
}

} // verus!
