//! The states that a polling wait observes, and how each one is classified.
use vstd::prelude::*;

verus! {

/// The state of a connection context, as the server client library reports it.
#[derive(Debug, Clone, Copy, PartialEq, Eq, Structural)]
pub enum ContextState {
    /// Not connected yet.
    Unconnected,
    /// A connection is being established.
    Connecting,
    /// The client is authorizing itself to the daemon.
    Authorizing,
    /// The client is passing its application name to the daemon.
    SettingName,
    /// The connection is established and operations can run.
    Ready,
    /// The connection failed or was disconnected.
    Failed,
    /// The connection was terminated cleanly.
    Terminated,
}

/// The state of one asynchronous operation.
#[derive(Debug, Clone, Copy, PartialEq, Eq, Structural)]
pub enum OperationState {
    /// The operation is still running.
    Running,
    /// The operation has completed.
    Done,
    /// The operation was cancelled.
    Cancelled,
}

/// Why a wait stopped without reaching its goal.
#[derive(Debug, Clone, Copy, PartialEq, Eq, Structural)]
pub enum Failure {
    /// One iteration of the event loop reported an error, with its error code.
    LoopError(i32),
    /// The event loop was asked to quit, with the value handed to quit.
    LoopQuit(i32),
    /// The awaited object reached a terminal state other than success.
    Ended,
}

/// What one round of a polling wait decides.
#[derive(Debug, Clone, Copy, PartialEq, Eq, Structural)]
pub enum Round {
    /// Nothing terminal was seen: iterate the event loop again.
    Continue,
    /// The awaited object reached its successful terminal state.
    Done,
    /// The wait ends in failure.
    Fail(Failure),
}

/// What one non-blocking iteration of the event loop reported.
#[derive(Debug, Clone, Copy, PartialEq, Eq, Structural)]
pub enum Iteration {
    /// The iteration ran, dispatching this many event sources.
    Success(u32),
    /// The loop was asked to quit, with the value handed to quit.
    Quit(i32),
    /// The iteration failed with this error code.
    Error(i32),
}

/// The failure an iteration stands for: every outcome but success stops a wait.
pub open spec fn iteration_failure_spec(it: Iteration) -> Option<Failure> {
    match it {
        Iteration::Success(_) => None,
        Iteration::Quit(v) => Some(Failure::LoopQuit(v)),
        Iteration::Error(c) => Some(Failure::LoopError(c)),
    }
}

/// How a wait for a connection classifies the context state it observes.
pub open spec fn context_round_spec(s: ContextState) -> Round {
    match s {
        ContextState::Ready => Round::Done,
        ContextState::Failed | ContextState::Terminated => Round::Fail(Failure::Ended),
        _ => Round::Continue,
    }
}

/// How a wait for an operation classifies the operation state it observes.
pub open spec fn operation_round_spec(s: OperationState) -> Round {
    match s {
        OperationState::Done => Round::Done,
        OperationState::Cancelled => Round::Fail(Failure::Ended),
        OperationState::Running => Round::Continue,
    }
}

/// Whether a context state ends a wait for a connection.
pub open spec fn context_is_terminal(s: ContextState) -> bool {
    s == ContextState::Ready || s == ContextState::Failed || s == ContextState::Terminated
}

/// Whether an operation state ends a wait for the operation.
pub open spec fn operation_is_terminal(s: OperationState) -> bool {
    s != OperationState::Running
}

/// One full round of a wait: the iteration's failure if it has one, else the verdict that
/// the classification of the observed state gives.
pub open spec fn round_spec(it: Iteration, verdict: Round) -> Round {
    match iteration_failure_spec(it) {
        Some(f) => Round::Fail(f),
        None => verdict,
    }
}

/// The failure that an iteration of the event loop stands for, if any.
pub fn iteration_failure(it: Iteration) -> (r: Option<Failure>)
    ensures
        r == iteration_failure_spec(it),
{
    match it {
        Iteration::Success(_) => None,
        Iteration::Quit(v) => Some(Failure::LoopQuit(v)),
        Iteration::Error(c) => Some(Failure::LoopError(c)),
    }
}

/// Classifies a context state seen while waiting for a connection.
pub fn context_round(s: ContextState) -> (r: Round)
    ensures
        r == context_round_spec(s),
{
    match s {
        ContextState::Ready => Round::Done,
        ContextState::Failed | ContextState::Terminated => Round::Fail(Failure::Ended),
        _ => Round::Continue,
    }
}

/// Classifies an operation state seen while waiting for the operation.
pub fn operation_round(s: OperationState) -> (r: Round)
    ensures
        r == operation_round_spec(s),
{
    match s {
        OperationState::Done => Round::Done,
        OperationState::Cancelled => Round::Fail(Failure::Ended),
        OperationState::Running => Round::Continue,
    }
}

} // verus!
