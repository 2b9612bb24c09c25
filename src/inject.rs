//! The remote injection sequence: resolve, allocate, write, start a remote
//! thread, wait for it, and read what the remote load call returned.
//!
//! Like the watch session, the sequence is a state machine. The caller
//! performs each step with the operating system and reports the native
//! status it got back; the machine decides whether the sequence goes on and
//! what its outcome is. The sequence aborts at the first failed step and
//! never rolls back.

use vstd::prelude::*;
use vstd::string::*;

verus! {

/// Longest wait for the remote thread to finish, in milliseconds.
pub const REMOTE_THREAD_TIMEOUT_MS: u32 = 5000;

/// A routine or module whose address the sequence needs.
#[derive(PartialEq, Eq, Structural, Clone, Copy, Debug)]
pub enum Capability {
    /// The loader module.
    Kernel32,
    /// The core native module.
    Ntdll,
    /// The library-load entry point of the loader module.
    LoadLibrary,
    /// The native routines that allocate, write and start remote threads.
    NativeRoutines,
}

/// The step at which the sequence was given up, with the native status.
#[derive(PartialEq, Eq, Structural, Clone, Copy, Debug)]
pub enum InjectError {
    Unresolved(Capability),
    /// The path holds a NUL character and cannot be passed to the loader.
    InvalidPath,
    AllocateFailed(i32),
    WriteFailed(i32),
    CreateThreadFailed(i32),
}

/// How an injection ended.
#[derive(PartialEq, Eq, Structural, Clone, Copy, Debug)]
pub enum InjectionOutcome {
    /// The remote load call returned this non-zero value: the (truncated)
    /// base address of the loaded module.
    Success(u32),
    /// The remote load call returned zero: the target could not load it.
    Failure,
    /// A setup step failed before the remote load call ran.
    Error(InjectError),
}

pub open spec fn outcome_of_exit(code: u32) -> InjectionOutcome {
    if code == 0 {
        InjectionOutcome::Failure
    } else {
        InjectionOutcome::Success(code)
    }
}

impl InjectionOutcome {
    /// Reads the remote thread's exit code as the result of the load call.
    pub fn from_exit_code(code: u32) -> (r: InjectionOutcome)
        ensures
            r == outcome_of_exit(code),
    {
        if code == 0 {
            InjectionOutcome::Failure
        } else {
            InjectionOutcome::Success(code)
        }
    }

    /// Whether the library was loaded.
    pub fn is_success(&self) -> (r: bool)
        ensures
            r == (*self is Success),
    {
        match self {
            InjectionOutcome::Success(_) => true,
            _ => false,
        }
    }
}

/// The bytes handed to the remote loader: the path's bytes and a NUL, or
/// nothing where the path itself holds a NUL.
pub open spec fn encoded_path(bytes: Seq<u8>) -> Option<Seq<u8>> {
    if exists|i: int| 0 <= i < bytes.len() && bytes[i] == 0 {
        None
    } else {
        Some(bytes.push(0))
    }
}

/// Encodes a path as a NUL-terminated byte string.
pub fn encode_path(path: &str) -> (r: Option<Vec<u8>>)
    ensures
        match r {
            Some(v) => encoded_path(path.spec_bytes()) == Some(v@),
            None => encoded_path(path.spec_bytes()) is None,
        },
{
    let bytes = path.as_bytes();
    let mut out: Vec<u8> = Vec::new();
    let mut i: usize = 0;
    while i < bytes.len()
        invariant
            bytes@ == path.spec_bytes(),
            i <= bytes@.len(),
            out@ =~= bytes@.subrange(0, i as int),
            forall|j: int| 0 <= j < i ==> bytes@[j] != 0,
        decreases bytes@.len() - i,
    {
        if bytes[i] == 0 {
            return None;
        }
        out.push(bytes[i]);
        i = i + 1;
    }
    out.push(0);
    assert(out@ =~= bytes@.push(0));
    Some(out)
}

/// Where an injection stands.
#[derive(PartialEq, Eq, Structural, Clone, Copy, Debug)]
pub enum InjectPhase {
    Resolving,
    Allocating,
    Writing,
    CreatingThread,
    AwaitingThread,
    Finished(InjectionOutcome),
}

/// What the caller got back from the step it performed.
pub enum InjectEvent {
    Resolved(Result<(), Capability>),
    /// The native status of the remote allocation; zero is success.
    Allocated(i32),
    /// The native status of the remote write; zero is success.
    Written(i32),
    /// The native status of the remote thread's creation, and whether the
    /// thread handle it gave is valid.
    ThreadCreated { status: i32, handle_valid: bool },
    /// The remote thread's exit code.
    ThreadExited(u32),
}

/// The step the caller is asked to perform.
#[derive(PartialEq, Eq, Structural, Clone, Copy, Debug)]
pub enum InjectAction {
    /// Resolve the addresses of every `Capability`.
    Resolve,
    /// Allocate a read-write region of this many bytes in the target.
    Allocate(usize),
    /// Write the encoded path at the start of the region.
    Write,
    /// Start a remote thread at the load entry point, on the region.
    CreateThread,
    /// Wait for the remote thread at most this long, then read its exit code.
    WaitThread(u32),
    /// The sequence is over.
    Complete(InjectionOutcome),
}

/// How the sequence moves on a reported step. `path_ok` says whether the
/// path could be encoded. An event that does not answer the pending step
/// changes nothing, and a finished sequence stays finished.
pub open spec fn next_inject(p: InjectPhase, path_ok: bool, e: InjectEvent) -> InjectPhase {
    match p {
        InjectPhase::Resolving => match e {
            InjectEvent::Resolved(Err(c)) => InjectPhase::Finished(
                InjectionOutcome::Error(InjectError::Unresolved(c)),
            ),
            InjectEvent::Resolved(Ok(())) => if path_ok {
                InjectPhase::Allocating
            } else {
                InjectPhase::Finished(InjectionOutcome::Error(InjectError::InvalidPath))
            },
            _ => p,
        },
        InjectPhase::Allocating => match e {
            InjectEvent::Allocated(st) => if st == 0 {
                InjectPhase::Writing
            } else {
                InjectPhase::Finished(InjectionOutcome::Error(InjectError::AllocateFailed(st)))
            },
            _ => p,
        },
        InjectPhase::Writing => match e {
            InjectEvent::Written(st) => if st == 0 {
                InjectPhase::CreatingThread
            } else {
                InjectPhase::Finished(InjectionOutcome::Error(InjectError::WriteFailed(st)))
            },
            _ => p,
        },
        InjectPhase::CreatingThread => match e {
            InjectEvent::ThreadCreated { status, handle_valid } => if status == 0 && handle_valid {
                InjectPhase::AwaitingThread
            } else {
                InjectPhase::Finished(
                    InjectionOutcome::Error(InjectError::CreateThreadFailed(status)),
                )
            },
            _ => p,
        },
        InjectPhase::AwaitingThread => match e {
            InjectEvent::ThreadExited(code) => InjectPhase::Finished(outcome_of_exit(code)),
            _ => p,
        },
        InjectPhase::Finished(_) => p,
    }
}

/// The step asked for in a phase; `len` is the length of the encoded path.
pub open spec fn inject_action_of(p: InjectPhase, len: nat) -> InjectAction {
    match p {
        InjectPhase::Resolving => InjectAction::Resolve,
        InjectPhase::Allocating => InjectAction::Allocate(len as usize),
        InjectPhase::Writing => InjectAction::Write,
        InjectPhase::CreatingThread => InjectAction::CreateThread,
        InjectPhase::AwaitingThread => InjectAction::WaitThread(REMOTE_THREAD_TIMEOUT_MS),
        InjectPhase::Finished(o) => InjectAction::Complete(o),
    }
}

/// One injection of one library into one process.
pub struct Injector {
    pub phase: InjectPhase,
    /// The encoded path, or `None` where the path cannot be encoded.
    pub payload: Option<Vec<u8>>,
}

impl Injector {
    pub open spec fn path_ok(&self) -> bool {
        self.payload is Some
    }

    pub open spec fn payload_len(&self) -> nat {
        match self.payload {
            Some(v) => v@.len(),
            None => 0,
        }
    }

    /// An injection of the library at `path`, about to resolve addresses.
    pub fn new(path: &str) -> (r: Injector)
        ensures
            r.phase == InjectPhase::Resolving,
            match r.payload {
                Some(v) => encoded_path(path.spec_bytes()) == Some(v@),
                None => encoded_path(path.spec_bytes()) is None,
            },
    {
        Injector { phase: InjectPhase::Resolving, payload: encode_path(path) }
    }

    /// The step the caller is asked to perform next.
    pub fn action(&self) -> (r: InjectAction)
        ensures
            r == inject_action_of(self.phase, self.payload_len()),
    {
        match self.phase {
            InjectPhase::Resolving => InjectAction::Resolve,
            InjectPhase::Allocating => {
                let len = match &self.payload {
                    Some(v) => v.len(),
                    None => 0,
                };
                InjectAction::Allocate(len)
            },
            InjectPhase::Writing => InjectAction::Write,
            InjectPhase::CreatingThread => InjectAction::CreateThread,
            InjectPhase::AwaitingThread => InjectAction::WaitThread(REMOTE_THREAD_TIMEOUT_MS),
            InjectPhase::Finished(o) => InjectAction::Complete(o),
        }
    }

    /// Moves the sequence on the outcome of the step just performed and
    /// returns the next step.
    pub fn step(&mut self, e: InjectEvent) -> (r: InjectAction)
        ensures
            final(self).phase == next_inject(old(self).phase, old(self).path_ok(), e),
            final(self).payload == old(self).payload,
            r == inject_action_of(final(self).phase, final(self).payload_len()),
    {
        let ok = self.payload.is_some();
        let p = match self.phase {
            InjectPhase::Resolving => match e {
                InjectEvent::Resolved(Err(c)) => InjectPhase::Finished(
                    InjectionOutcome::Error(InjectError::Unresolved(c)),
                ),
                InjectEvent::Resolved(Ok(())) => if ok {
                    InjectPhase::Allocating
                } else {
                    InjectPhase::Finished(InjectionOutcome::Error(InjectError::InvalidPath))
                },
                _ => self.phase,
            },
            InjectPhase::Allocating => match e {
                InjectEvent::Allocated(st) => if st == 0 {
                    InjectPhase::Writing
                } else {
                    InjectPhase::Finished(InjectionOutcome::Error(InjectError::AllocateFailed(st)))
                },
                _ => self.phase,
            },
            InjectPhase::Writing => match e {
                InjectEvent::Written(st) => if st == 0 {
                    InjectPhase::CreatingThread
                } else {
                    InjectPhase::Finished(InjectionOutcome::Error(InjectError::WriteFailed(st)))
                },
                _ => self.phase,
            },
            InjectPhase::CreatingThread => match e {
                InjectEvent::ThreadCreated { status, handle_valid } => if status == 0
                    && handle_valid {
                    InjectPhase::AwaitingThread
                } else {
                    InjectPhase::Finished(
                        InjectionOutcome::Error(InjectError::CreateThreadFailed(status)),
                    )
                },
                _ => self.phase,
            },
            InjectPhase::AwaitingThread => match e {
                InjectEvent::ThreadExited(code) => InjectPhase::Finished(
                    InjectionOutcome::from_exit_code(code),
                ),
                _ => self.phase,
            },
            InjectPhase::Finished(_) => self.phase,
        };
        self.phase = p;
        self.action()
    }
}


// ---------------------------------------------------------------------------
// Laws of the sequence
// ---------------------------------------------------------------------------

/// The phase after the caller reports each event of `evs` in turn.
pub open spec fn run_inject(p: InjectPhase, path_ok: bool, evs: Seq<InjectEvent>) -> InjectPhase
    decreases evs.len(),
{
    if evs.len() == 0 {
        p
    } else {
        run_inject(next_inject(p, path_ok, evs[0]), path_ok, evs.drop_first())
    }
}

/// A finished injection keeps its outcome, whatever is reported after.
pub proof fn lemma_finished_is_final(o: InjectionOutcome, path_ok: bool, evs: Seq<InjectEvent>)
    ensures
        run_inject(InjectPhase::Finished(o), path_ok, evs) == InjectPhase::Finished(o),
    decreases evs.len(),
{
    if evs.len() > 0 {
        lemma_finished_is_final(o, path_ok, evs.drop_first());
    }
}

/// Where the remote allocation reports a non-zero status, the outcome is an
/// error carrying that status, and no later report starts a remote thread:
/// the sequence asks for no step but completion from then on.
pub proof fn lemma_failed_allocation_starts_no_thread(
    status: i32,
    path_ok: bool,
    len: nat,
    evs: Seq<InjectEvent>,
)
    requires
        status != 0,
    ensures
        next_inject(InjectPhase::Allocating, path_ok, InjectEvent::Allocated(status))
            == InjectPhase::Finished(InjectionOutcome::Error(InjectError::AllocateFailed(status))),
        run_inject(
            next_inject(InjectPhase::Allocating, path_ok, InjectEvent::Allocated(status)),
            path_ok,
            evs,
        ) == InjectPhase::Finished(InjectionOutcome::Error(InjectError::AllocateFailed(status))),
        inject_action_of(
            run_inject(
                next_inject(InjectPhase::Allocating, path_ok, InjectEvent::Allocated(status)),
                path_ok,
                evs,
            ),
            len,
        ) == InjectAction::Complete(
            InjectionOutcome::Error(InjectError::AllocateFailed(status)),
        ),
{
    lemma_finished_is_final(
        InjectionOutcome::Error(InjectError::AllocateFailed(status)),
        path_ok,
        evs,
    );
}

/// Where the remote write reports a non-zero status, the outcome is an
/// error carrying that status, and no remote thread is ever started.
pub proof fn lemma_failed_write_starts_no_thread(
    status: i32,
    path_ok: bool,
    len: nat,
    evs: Seq<InjectEvent>,
)
    requires
        status != 0,
    ensures
        next_inject(InjectPhase::Writing, path_ok, InjectEvent::Written(status))
            == InjectPhase::Finished(InjectionOutcome::Error(InjectError::WriteFailed(status))),
        run_inject(
            next_inject(InjectPhase::Writing, path_ok, InjectEvent::Written(status)),
            path_ok,
            evs,
        ) == InjectPhase::Finished(InjectionOutcome::Error(InjectError::WriteFailed(status))),
        inject_action_of(
            run_inject(
                next_inject(InjectPhase::Writing, path_ok, InjectEvent::Written(status)),
                path_ok,
                evs,
            ),
            len,
        ) == InjectAction::Complete(InjectionOutcome::Error(InjectError::WriteFailed(status))),
{
    lemma_finished_is_final(
        InjectionOutcome::Error(InjectError::WriteFailed(status)),
        path_ok,
        evs,
    );
}

/// A remote thread is only ever asked for once the allocation and the write
/// have both succeeded: the one phase that asks for it is reached only from
/// the write, and only on a zero status.
pub proof fn lemma_thread_only_after_write(p: InjectPhase, path_ok: bool, e: InjectEvent)
    requires
        p != InjectPhase::CreatingThread,
        next_inject(p, path_ok, e) == InjectPhase::CreatingThread,
    ensures
        p == InjectPhase::Writing,
        e == InjectEvent::Written(0),
{
}

/// The remote thread's exit code decides the outcome: zero is a failure of
/// the remote load, anything else a success that carries the code.
pub proof fn lemma_exit_code_decides(code: u32, path_ok: bool)
    ensures
        code == 0 ==> next_inject(
            InjectPhase::AwaitingThread,
            path_ok,
            InjectEvent::ThreadExited(code),
        ) == InjectPhase::Finished(InjectionOutcome::Failure),
        code != 0 ==> next_inject(
            InjectPhase::AwaitingThread,
            path_ok,
            InjectEvent::ThreadExited(code),
        ) == InjectPhase::Finished(InjectionOutcome::Success(code)),
{
}

} // verus!
