use vstd::prelude::*;
use vstd::utf8::valid_utf8;

use crate::errors::LaunchError;
use crate::errors::RefusalKind;
use crate::errors::StreamDecodeError;
use crate::sink::EntryModel;
use crate::sink::LogEntry;
use crate::sink::LogSink;
use crate::sink::StreamOrigin;
use crate::text::utf8_check;

verus! {

/// The lifecycle of the backend child process as the supervisor sees it.
/// A run goes `NotStarted` to `Running` to either `Exited` (the child ended
/// on its own) or `Killed` (the supervisor terminated it); there is no way
/// back to `NotStarted` and no restart.
#[derive(Clone, Copy, Debug, PartialEq, Eq, Structural)]
pub enum ChildState {
    /// No spawn has succeeded yet.
    NotStarted,
    /// The child process is live.
    Running,
    /// The child process ended on its own.
    Exited,
    /// The supervisor terminated the child process.
    Killed,
}

/// The transitions a supervisor can take in one step: staying in place,
/// starting the child, or ending a running child by exit or by kill.
pub open spec fn step_allowed(pre: ChildState, post: ChildState) -> bool {
    ||| post == pre
    ||| (pre is NotStarted && post is Running)
    ||| (pre is Running && (post is Exited || post is Killed))
}

/// Law: the supervisor never returns to `NotStarted`; once a launch has
/// succeeded there is no restart.
pub proof fn lemma_no_restart(pre: ChildState, post: ChildState)
    requires
        step_allowed(pre, post),
        post is NotStarted,
    ensures
        pre is NotStarted,
{
}

/// Law: `Exited` and `Killed` are terminal; no step leaves them.
pub proof fn lemma_terminal_state(pre: ChildState, post: ChildState)
    requires
        step_allowed(pre, post),
        pre is Exited || pre is Killed,
    ensures
        post == pre,
{
}

/// What the operating system reported for one spawn attempt.  The spawn
/// itself is an outside call; its outcome is handed to the supervisor as a
/// plain value.
pub enum SpawnOutcome {
    /// The process was created and got this identifier.
    Spawned {
        /// The identifier of the new process.
        pid: u32,
    },
    /// The system refused to create the process.
    Refused {
        /// Why the spawn was refused.
        kind: RefusalKind,
        /// The operating system's own description of the refusal.
        message: String,
    },
}

/// What the host must do to carry out a shutdown request.
#[derive(Clone, Copy, Debug, PartialEq, Eq, Structural)]
pub enum ShutdownAction {
    /// Terminate the process with this identifier, then wait for it to
    /// leave the process table.
    Kill {
        /// The identifier of the process to terminate.
        pid: u32,
    },
    /// Nothing to do: no handle is held.
    NoOp,
}

/// The supervisor's record of the live child process: its identifier, the
/// command it was launched with, and its liveness flag.  The supervisor
/// owns the handle exclusively; at most one exists per backend instance.
pub struct ChildHandle {
    /// The identifier of the child process.
    pub pid: u32,
    /// The resolved path the executable was launched from.
    pub path: String,
    /// The argument list the executable was launched with.
    pub args: Vec<String>,
    /// True while the supervisor considers the process live.
    pub alive: bool,
}

/// The process supervisor.  It decides every lifecycle step of the backend
/// child process; the host performs the operating-system calls (spawn,
/// read, kill) and hands their outcomes in as plain values.  In the
/// supervised configuration (`track_child` true) the supervisor keeps the
/// handle and relays every output line to the sink; in the fire-and-forget
/// configuration it discards the handle after a successful spawn and does
/// nothing further.
pub struct Supervisor {
    /// Whether the handle is kept after a successful spawn.
    pub track_child: bool,
    /// Where the child is in its lifecycle.
    pub state: ChildState,
    /// The handle of the live child, if one is held.
    pub child: Option<ChildHandle>,
    /// The record of every output line relayed so far.
    pub sink: LogSink,
}

impl Supervisor {
    /// Well-formedness: a handle is held exactly while a tracked child is
    /// running, and a held handle is always live.  In particular at most
    /// one live handle exists at any time.
    pub open spec fn wf(self) -> bool {
        &&& (self.child matches Some(h) ==> self.track_child && self.state is Running && h.alive)
        &&& (self.track_child && self.state is Running ==> self.child is Some)
    }

    /// True while the draining task has work to do: only a tracked, running
    /// child has streams to drain.
    pub open spec fn drain_active(self) -> bool {
        self.track_child && self.state is Running
    }

    /// A fresh supervisor in the chosen configuration: nothing launched,
    /// no handle, an empty sink.
    pub fn new(track_child: bool) -> (s: Supervisor)
        ensures
            s.wf(),
            s.track_child == track_child,
            s.state is NotStarted,
            s.child is None,
            s.sink@ == Seq::<EntryModel>::empty(),
    {
        Supervisor { track_child, state: ChildState::NotStarted, child: None, sink: LogSink::new() }
    }

    /// Record the outcome of the spawn attempt for the given command.  On a
    /// successful spawn the child is running and, in the supervised
    /// configuration, its handle (live, with the command that started it)
    /// is retained; in the fire-and-forget configuration the handle is
    /// discarded.  On a refusal the error is returned with the system's
    /// reason, no handle is held, and nothing was started.
    pub fn launch(&mut self, path: String, args: Vec<String>, outcome: SpawnOutcome) -> (r: Result<
        u32,
        LaunchError,
    >)
        requires
            old(self).wf(),
            old(self).state is NotStarted,
        ensures
            final(self).wf(),
            step_allowed(old(self).state, final(self).state),
            final(self).track_child == old(self).track_child,
            final(self).sink@ == old(self).sink@,
            (outcome matches SpawnOutcome::Spawned { pid } ==> {
                &&& r == Ok::<u32, LaunchError>(pid)
                &&& final(self).state is Running
                &&& (old(self).track_child ==> (final(self).child matches Some(h) && h.pid == pid
                    && h.path == path && h.args == args && h.alive))
                &&& (!old(self).track_child ==> final(self).child is None)
            }),
            (outcome matches SpawnOutcome::Refused { kind, message } ==> {
                &&& r matches Err(e) && e.kind == kind && e.message == message
                &&& final(self).state is NotStarted
                &&& final(self).child is None
            }),
    {
        match outcome {
            SpawnOutcome::Spawned { pid } => {
                self.state = ChildState::Running;
                if self.track_child {
                    self.child = Some(ChildHandle { pid, path, args, alive: true });
                }
                Ok(pid)
            },
            SpawnOutcome::Refused { kind, message } => Err(LaunchError { kind, message }),
        }
    }

    /// Relay one line the child wrote, tagged by the stream it came from.
    /// The line is appended to the sink verbatim, exactly once, at the end;
    /// the record of the other stream is untouched.  A line that is not
    /// valid UTF-8 text is still kept, flagged, and reported as a decode
    /// error; this never aborts the supervisor.
    pub fn on_line(&mut self, origin: StreamOrigin, line: Vec<u8>) -> (r: Option<StreamDecodeError>)
        requires
            old(self).wf(),
            old(self).drain_active(),
        ensures
            final(self).wf(),
            final(self).state == old(self).state,
            final(self).child == old(self).child,
            final(self).track_child == old(self).track_child,
            final(self).sink@ == old(self).sink@.push(
                (EntryModel { origin, line: line@, text_ok: valid_utf8(line@) }),
            ),
            (r is Some <==> !valid_utf8(line@)),
            (r matches Some(e) ==> e.origin == origin),
    {
        let ok = utf8_check(line.as_slice());
        self.sink.push(LogEntry { origin, line, text_ok: ok });
        if ok {
            None
        } else {
            Some(StreamDecodeError { origin })
        }
    }

    /// Record that the child process ended on its own: its streams have
    /// closed, the handle is dropped, and draining is over.
    pub fn on_child_exit(&mut self)
        requires
            old(self).wf(),
            old(self).state is Running,
        ensures
            final(self).wf(),
            step_allowed(old(self).state, final(self).state),
            final(self).state is Exited,
            final(self).child is None,
            !final(self).drain_active(),
            final(self).track_child == old(self).track_child,
            final(self).sink@ == old(self).sink@,
    {
        self.child = None;
        self.state = ChildState::Exited;
    }

    /// Decide what the host's exit request means for the child.  Holding a
    /// live handle, the supervisor orders the process killed and considers
    /// it terminated; holding none (fire-and-forget, never launched, or
    /// already ended) the request is a no-op and raises nothing.
    pub fn shutdown(&mut self) -> (a: ShutdownAction)
        requires
            old(self).wf(),
        ensures
            final(self).wf(),
            step_allowed(old(self).state, final(self).state),
            final(self).track_child == old(self).track_child,
            final(self).sink@ == old(self).sink@,
            final(self).child is None,
            (old(self).child matches Some(h) ==> a == ShutdownAction::Kill { pid: h.pid }
                && final(self).state is Killed),
            (old(self).child is None ==> a == ShutdownAction::NoOp
                && final(self).state == old(self).state),
    {
        match &self.child {
            Some(h) => {
                let pid = h.pid;
                self.child = None;
                self.state = ChildState::Killed;
                ShutdownAction::Kill { pid }
            },
            None => ShutdownAction::NoOp,
        }
    }
}

/// Law: once the child has exited or been killed, draining is over: the
/// supervisor accepts no further lines (relaying a line requires
/// `drain_active`), so the draining task ends without an explicit stop
/// signal.
pub proof fn lemma_exit_ends_draining(s: Supervisor)
    requires
        s.state is Exited || s.state is Killed,
    ensures
        !s.drain_active(),
{
}

} // verus!
