//! The boundary to the process invoker: what the library asks to be run and
//! what it is told came of it. The library itself starts no process.

use vstd::prelude::*;
use vstd::string::StringExecFns;

verus! {

/// A command line: the program to start and its arguments, in order.
#[derive(Debug, Clone, PartialEq, Eq)]
pub struct Invocation {
    pub program: String,
    pub args: Vec<String>,
}

/// What a process that ran to its end left behind.
#[derive(Debug, Clone, PartialEq, Eq)]
pub struct ProcessOutput {
    /// Whether the exit status reports success.
    pub success: bool,
    pub stdout: String,
    pub stderr: String,
}

/// How a bounded invocation ended. That the program could not be started
/// is a different thing from a run that ended in failure.
#[derive(Debug, Clone, PartialEq, Eq)]
pub enum Completion {
    SpawnFailed,
    Exited(ProcessOutput),
}

impl Completion {
    /// A copy of this completion.
    pub fn duplicate(&self) -> (copy: Completion)
        ensures
            copy == *self,
    {
        match self {
            Completion::SpawnFailed => Completion::SpawnFailed,
            Completion::Exited(out) => Completion::Exited(
                ProcessOutput {
                    success: out.success,
                    stdout: out.stdout.clone(),
                    stderr: out.stderr.clone(),
                },
            ),
        }
    }
}

/// How a detached invocation fared: whether the process could be started
/// and, if so, what one look at it after the grace interval showed.
#[derive(Debug, Clone, PartialEq, Eq)]
pub enum Launch {
    /// The process could not be started, for this reason.
    SpawnFailed(String),
    /// The process had already ended, with this exit status.
    Exited(String),
    /// The process was still running, under this process id if known.
    Running(Option<u32>),
    /// Its state could not be learned, for this reason.
    Unknown(String),
}

/// The kinds of failure.
#[derive(Debug, Clone, Copy, PartialEq, Eq, Structural)]
pub enum ErrorKind {
    /// The program could not be started.
    Spawn,
    /// The program ended in failure.
    Exit,
    /// The output did not have the expected shape.
    Parse,
    /// An argument of the caller was refused before anything was run.
    Validation,
    /// A host process did not survive its start.
    Startup,
    /// No host process was found.
    NotFound,
}

/// A failure: its kind and a message for the user.
#[derive(Debug, Clone, PartialEq, Eq)]
pub struct TunnelError {
    pub kind: ErrorKind,
    pub message: String,
}

impl TunnelError {
    /// Whether this failure has the given kind and message.
    pub open spec fn is(self, kind: ErrorKind, message: Seq<char>) -> bool {
        self.kind == kind && self.message@ == message
    }

    /// The message, as the user is to read it.
    pub fn to_string(&self) -> (s: String)
        ensures
            s@ == self.message@,
    {
        self.message.clone()
    }
}

/// What an operation does next.
#[derive(Debug, PartialEq, Eq)]
pub enum Step<T> {
    /// Run this command to its end, capturing both output streams, and
    /// report its `Completion`.
    Run(Invocation),
    /// Start this command detached, with both output streams discarded;
    /// wait the grace interval, given in milliseconds, look once whether
    /// the process is still running, and report the `Launch`.
    Launch(Invocation, u64),
    /// Wait this many milliseconds.
    Pause(u64),
    /// The operation is over, with this outcome.
    Done(Result<T, TunnelError>),
}

impl<T> Step<T> {
    /// Whether this step asks for `program` to be run with `args`.
    pub open spec fn runs(self, program: Seq<char>, args: Seq<Seq<char>>) -> bool {
        self matches Step::Run(inv) && inv.program@ == program && inv.args.deep_view() == args
    }

    /// Whether this step asks for `program` to be started detached with
    /// `args` and looked at after `grace` milliseconds.
    pub open spec fn launches(self, program: Seq<char>, args: Seq<Seq<char>>, grace: u64) -> bool {
        self matches Step::Launch(inv, g) && inv.program@ == program && inv.args.deep_view()
            == args && g == grace
    }

    /// Whether this step asks for a wait of `ms` milliseconds.
    pub open spec fn pauses(self, ms: u64) -> bool {
        self matches Step::Pause(m) && m == ms
    }

    /// Whether this step ends the operation with a failure of the given
    /// kind and message.
    pub open spec fn fails(self, kind: ErrorKind, message: Seq<char>) -> bool {
        self matches Step::Done(Err(e)) && e.is(kind, message)
    }
}

impl Step<String> {
    /// Whether this step ends the operation with the text `text`.
    pub open spec fn gives(self, text: Seq<char>) -> bool {
        self matches Step::Done(Ok(s)) && s@ == text
    }
}

/// A failure of the given kind with `message`.
pub fn failure(kind: ErrorKind, message: &str) -> (e: TunnelError)
    ensures
        e.is(kind, message@),
{
    TunnelError { kind, message: message.to_owned() }
}

/// A failure of the given kind whose message is `prefix` followed by
/// `detail`.
pub fn failure_with(kind: ErrorKind, prefix: &str, detail: &str) -> (e: TunnelError)
    ensures
        e.is(kind, prefix@ + detail@),
{
    let mut message = prefix.to_owned();
    message.append(detail);
    TunnelError { kind, message }
}

} // verus!
