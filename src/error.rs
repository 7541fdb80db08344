//! The error of the connection layer, and the error that each failed wait ends in.
use vstd::prelude::*;
use vstd::string::StringExecFns;

use crate::controllers::error::ControllerError;
use crate::state::{
    context_is_terminal, context_round_spec, iteration_failure_spec, operation_is_terminal,
    operation_round_spec, round_spec, ContextState, Failure, Iteration, OperationState, Round,
};

verus! {

/// Error raised when the audio server or its client library reports a failure.
#[derive(Debug, Clone)]
pub enum Error {
    /// An error that may occur while establishing a connection.
    Connect(String),
    /// The requested operation is cancelled or quits unexpectedly.
    Operation(String),
    /// The client library returned an error code.
    PulseAudio(String),
    /// A problem occurred while fetching data from the server.
    Controller(ControllerError),
}

/// What a polling wait is waiting for.
#[derive(Debug, Clone, Copy, PartialEq, Eq, Structural)]
pub enum Awaited {
    /// The context becoming ready.
    Connection,
    /// An asynchronous operation finishing.
    Operation,
}

/// Message of the error raised when the event loop quits during a wait.
pub open spec fn quit_message() -> Seq<char> {
    "Iterate state quit without an error"@
}

/// Message of the error raised when the context fails or terminates during a connection.
pub open spec fn context_ended_message() -> Seq<char> {
    "Context state failed/terminated without an error"@
}

/// Message of the error raised when an awaited operation is cancelled.
pub open spec fn operation_cancelled_message() -> Seq<char> {
    "Operation cancelled without an error"@
}

/// Message of a client library error whose code has no text.
pub open spec fn unknown_error_message() -> Seq<char> {
    "Unknown error"@
}

/// Whether `e` is the `PulseAudio` error built from the text that the client library has
/// for an error code (`None` where it has none).
pub open spec fn is_pulse_audio_error(code_text: Option<Seq<char>>, e: Error) -> bool {
    e matches Error::PulseAudio(s) && s@ == match code_text {
        Some(t) => t,
        None => unknown_error_message(),
    }
}

/// Whether `e` is the error that a wait for `awaited` ends in after `f`, where `code_text` is
/// the text the client library has for the code of a loop error.
pub open spec fn is_failure_error(
    f: Failure,
    awaited: Awaited,
    code_text: Option<Seq<char>>,
    e: Error,
) -> bool {
    match f {
        Failure::LoopError(_) => is_pulse_audio_error(code_text, e),
        Failure::LoopQuit(_) => match awaited {
            Awaited::Connection => e matches Error::Connect(s) && s@ == quit_message(),
            Awaited::Operation => e matches Error::Operation(s) && s@ == quit_message(),
        },
        Failure::Ended => match awaited {
            Awaited::Connection => e matches Error::Connect(s) && s@ == context_ended_message(),
            Awaited::Operation => e matches Error::Operation(s) && s@
                == operation_cancelled_message(),
        },
    }
}

/// The text held by an optional string, if any.
pub open spec fn option_view(o: Option<String>) -> Option<Seq<char>> {
    match o {
        Some(s) => Some(s@),
        None => None,
    }
}

impl Error {
    /// The human readable text of the error.
    pub open spec fn text(&self) -> Seq<char> {
        match self {
            Error::Connect(e) => "ConnectError: "@ + e@,
            Error::Operation(e) => "OperationError: "@ + e@,
            Error::PulseAudio(e) => "PulseAudioError: "@ + e@,
            Error::Controller(e) => "ControllerError: "@ + e.text(),
        }
    }

    /// Renders the error as text, a prefix naming the variant followed by its message.
    pub fn to_string(&self) -> (r: String)
        ensures
            r@ == self.text(),
    {
        match self {
            Error::Connect(e) => "ConnectError: ".to_owned().concat(e.as_str()),
            Error::Operation(e) => "OperationError: ".to_owned().concat(e.as_str()),
            Error::PulseAudio(e) => "PulseAudioError: ".to_owned().concat(e.as_str()),
            Error::Controller(e) => {
                let inner = e.to_string();
                "ControllerError: ".to_owned().concat(inner.as_str())
            },
        }
    }

    /// The error for a client library error code, given the text the library has for it.
    pub fn pulse_audio(code_text: Option<String>) -> (r: Error)
        ensures
            is_pulse_audio_error(option_view(code_text), r),
    {
        match code_text {
            Some(t) => Error::PulseAudio(t),
            None => Error::PulseAudio("Unknown error".to_owned()),
        }
    }

    /// The error that a wait for `awaited` ends in after `f`; `code_text` is the text that
    /// the client library has for the code of a loop error, and is read for no other failure.
    pub fn from_failure(f: Failure, awaited: Awaited, code_text: Option<String>) -> (r: Error)
        ensures
            is_failure_error(f, awaited, option_view(code_text), r),
    {
        match f {
            Failure::LoopError(_) => Error::pulse_audio(code_text),
            Failure::LoopQuit(_) => {
                let m = "Iterate state quit without an error".to_owned();
                match awaited {
                    Awaited::Connection => Error::Connect(m),
                    Awaited::Operation => Error::Operation(m),
                }
            },
            Failure::Ended => match awaited {
                Awaited::Connection => Error::Connect(
                    "Context state failed/terminated without an error".to_owned(),
                ),
                Awaited::Operation => Error::Operation(
                    "Operation cancelled without an error".to_owned(),
                ),
            },
        }
    }
}

/// Each terminal context state settles a wait for a connection: `Ready` in success, `Failed`
/// and `Terminated` in a connection error; every other state lets the wait go on.
pub proof fn context_states_settle(s: ContextState, code_text: Option<Seq<char>>, e: Error)
    ensures
        context_is_terminal(s) ==> ((context_round_spec(s) == Round::Done) <==> s
            == ContextState::Ready),
        context_is_terminal(s) && s != ContextState::Ready ==> context_round_spec(s) is Fail,
        context_round_spec(s) matches Round::Fail(f) ==> (is_failure_error(
            f,
            Awaited::Connection,
            code_text,
            e,
        ) ==> e is Connect),
        !context_is_terminal(s) ==> context_round_spec(s) == Round::Continue,
{
}

/// Each terminal operation state settles a wait for the operation: `Done` in success,
/// `Cancelled` in an operation error; a running operation lets the wait go on.
pub proof fn operation_states_settle(s: OperationState, code_text: Option<Seq<char>>, e: Error)
    ensures
        operation_is_terminal(s) ==> ((operation_round_spec(s) == Round::Done) <==> s
            == OperationState::Done),
        s == OperationState::Cancelled ==> operation_round_spec(s) is Fail,
        operation_round_spec(s) matches Round::Fail(f) ==> (is_failure_error(
            f,
            Awaited::Operation,
            code_text,
            e,
        ) ==> e is Operation),
        !operation_is_terminal(s) ==> operation_round_spec(s) == Round::Continue,
{
}

/// An iteration of the event loop that quits or fails ends the round in failure whatever
/// the awaited object's state would have given, and that failure is an error of the kind
/// that the wait reports, or a client library error.
pub proof fn loop_stop_short_circuits(
    it: Iteration,
    verdict: Round,
    other: Round,
    awaited: Awaited,
    code_text: Option<Seq<char>>,
    e: Error,
)
    requires
        !(it is Success),
    ensures
        round_spec(it, verdict) == round_spec(it, other),
        round_spec(it, verdict) is Fail,
        round_spec(it, verdict) matches Round::Fail(f) ==> (is_failure_error(
            f,
            awaited,
            code_text,
            e,
        ) ==> match awaited {
            Awaited::Connection => e is Connect || e is PulseAudio,
            Awaited::Operation => e is Operation || e is PulseAudio,
        }),
{
}

} // verus!
