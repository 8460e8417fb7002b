//! External command invocations and the workspace that runs them.

use vstd::prelude::*;

verus! {

/// An external binary that a toolchain operation can invoke.
#[derive(Debug)]
pub enum Binary {
    /// The toolchain manager of the distribution channel (`rustup`).
    ToolchainManager,
    /// The installer for per-commit CI artifacts
    /// (`rustup-toolchain-install-master`).
    CiArtifactInstaller,
    /// A binary managed inside the workspace itself, such as `cargo`.
    Managed { name: String },
}

/// A fully formed external invocation: the binary to run and its ordered
/// argument vector.
#[derive(Debug)]
pub struct Invocation {
    pub binary: Binary,
    pub args: Vec<String>,
}

/// The arguments of an invocation, as a sequence of character sequences.
pub open spec fn args_of(inv: Invocation) -> Seq<Seq<char>> {
    inv.args.deep_view()
}

/// Holds when `inv` runs `binary` with exactly the arguments `args`.
pub open spec fn invocation_is(inv: Invocation, binary: Binary, args: Seq<Seq<char>>) -> bool {
    inv.binary == binary && args_of(inv) == args
}

/// Holds when `post` extends the invocation history `pre` by exactly one
/// invocation of `binary` with the arguments `args`.
pub open spec fn one_more_invocation(
    pre: Seq<Invocation>,
    post: Seq<Invocation>,
    binary: Binary,
    args: Seq<Seq<char>>,
) -> bool {
    &&& post.len() == pre.len() + 1
    &&& post.subrange(0, pre.len() as int) == pre
    &&& invocation_is(post.last(), binary, args)
}

/// Why an external command failed: the spawned process exited with a nonzero
/// status, or it could not be spawned at all.
#[derive(Debug)]
pub enum CommandFailure {
    NonZeroExit { code: i32 },
    SpawnFailed { message: String },
}

/// The sandboxed execution context in which external commands run.
///
/// `run` blocks until the invoked process finishes and reports success
/// exactly when the process ran to a zero exit status. Every call appends the
/// invocation to `history`, whatever its outcome: the history is how
/// contracts count and describe the external invocations an operation issues.
pub trait Workspace {
    /// Every invocation issued through this workspace so far, oldest first.
    ///
    /// An implementation whose callers prove anything about the history
    /// overrides this; the default stands so that implementations outside
    /// the verified world need not name ghost types.
    open spec fn history(&self) -> Seq<Invocation> {
        Seq::empty()
    }

    /// Run one external command inside the workspace.
    fn run(&mut self, inv: Invocation) -> (outcome: Result<(), CommandFailure>)
        ensures
            final(self).history() == old(self).history().push(inv),
    ;
}

/// A workspace that records every invocation instead of spawning processes,
/// replying with outcomes scripted in advance.
///
/// The script `planned_failures` is consumed from its end: each `run` pops
/// one entry and fails with it when it is `Some`; once the script is
/// exhausted every further invocation succeeds.
#[derive(Debug)]
pub struct RecordingWorkspace {
    pub invocations: Vec<Invocation>,
    pub planned_failures: Vec<Option<CommandFailure>>,
}

impl RecordingWorkspace {
    /// A workspace with an empty history whose every invocation succeeds.
    pub fn new() -> (w: RecordingWorkspace)
        ensures
            w.history() == Seq::<Invocation>::empty(),
            w.planned_failures@ == Seq::<Option<CommandFailure>>::empty(),
    {
        RecordingWorkspace { invocations: Vec::new(), planned_failures: Vec::new() }
    }

    /// A workspace with an empty history whose next invocation fails with
    /// `failure` and whose later invocations succeed.
    pub fn failing_once(failure: CommandFailure) -> (w: RecordingWorkspace)
        ensures
            w.history() == Seq::<Invocation>::empty(),
            w.planned_failures@ =~= seq![Some(failure)],
    {
        let mut planned: Vec<Option<CommandFailure>> = Vec::new();
        planned.push(Some(failure));
        RecordingWorkspace { invocations: Vec::new(), planned_failures: planned }
    }
}

impl Workspace for RecordingWorkspace {
    open spec fn history(&self) -> Seq<Invocation> {
        self.invocations@
    }

    fn run(&mut self, inv: Invocation) -> (outcome: Result<(), CommandFailure>)
        ensures
            final(self).planned_failures@ == if old(self).planned_failures@.len() == 0 {
                old(self).planned_failures@
            } else {
                old(self).planned_failures@.drop_last()
            },
            outcome == (if old(self).planned_failures@.len() > 0 {
                match old(self).planned_failures@.last() {
                    Some(failure) => Err::<(), CommandFailure>(failure),
                    None => Ok::<(), CommandFailure>(()),
                }
            } else {
                Ok::<(), CommandFailure>(())
            }),
    {
        self.invocations.push(inv);
        match self.planned_failures.pop() {
            Some(Some(failure)) => Err(failure),
            _ => Ok(()),
        }
    }
}

} // verus!
