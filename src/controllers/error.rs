//! The error raised while fetching data from the audio server.
use vstd::prelude::*;
use vstd::string::StringExecFns;

use crate::error::Error;

verus! {

/// Error raised while fetching data from the audio server: `PulseCtl` when the server
/// answers with an error, `GetInfo` when a request for data fails for another reason.
#[derive(Debug, Clone)]
pub enum ControllerError {
    PulseCtl(String),
    GetInfo(&'static str),
}

impl ControllerError {
    /// The human readable text of the error.
    pub open spec fn text(&self) -> Seq<char> {
        match self {
            ControllerError::PulseCtl(e) => "Pulse ctl error: "@ + e@,
            ControllerError::GetInfo(e) => "Get info error: "@ + e@,
        }
    }

    /// Renders the error as text, a prefix naming the variant followed by its message.
    pub fn to_string(&self) -> (r: String)
        ensures
            r@ == self.text(),
    {
        match self {
            ControllerError::PulseCtl(e) => "Pulse ctl error: ".to_owned().concat(e.as_str()),
            ControllerError::GetInfo(e) => "Get info error: ".to_owned().concat(e),
        }
    }
}

impl From<Error> for ControllerError {
    /// Wraps an error of the connection layer, keeping its text.
    fn from(error: Error) -> (r: ControllerError)
        ensures
            r matches ControllerError::PulseCtl(s) && s@ == error.text(),
    {
        ControllerError::PulseCtl(error.to_string())
    }
}

/// The text of an `Error` has no closed form over its value alone, so `from` states its
/// result in its own `ensures` and no spec form of the conversion is offered.
impl vstd::std_specs::convert::FromSpecImpl<Error> for ControllerError {
    open spec fn obeys_from_spec() -> bool {
        false
    }

    open spec fn from_spec(v: Error) -> ControllerError {
        ControllerError::GetInfo("")
    }
}

} // verus!
